//! The core of a gateway between clients that speak the messages API and the
//! upstream services that answer them.
//!
//! A request is handed to a provider (`providers`), which decides what is to be
//! done for it. The reply of the web service is turned into one for the client
//! step by step (`reply`, `relay`): events that concern the service alone are
//! held back, a call of a tool of the client ends the reply, and the tokens used
//! are put on record. A tool call then waits (`tool_call`) for the request that
//! brings its result (`tool_result`). Tokens are counted exactly through another
//! service (`count`). What holds across all of this stands in `laws`.
//!
//! Nothing here does input or output: a step says what is to be done, and takes
//! what came of it.
pub mod context;
pub mod count;
pub mod event;
pub mod family;
pub mod json;
pub mod laws;
pub mod message;
pub mod providers;
pub mod relay;
pub mod reply;
pub mod session;
pub mod text;
pub mod tool_call;
pub mod tool_result;
