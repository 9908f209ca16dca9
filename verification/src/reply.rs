//! The turning of a reply of the web service into one for the client, streamed
//! or whole, and the keeping of the tokens that it used. The steps are decided
//! here; what they ask for is done elsewhere and handed back.
use crate::event::{fields_in, fields_view, read_fields, EventFields, EventView, FieldsView};
use crate::event::{OutgoingEvent, OutgoingView, StreamEvent};
use crate::family::{family_of_any, model_family, ModelFamily};
use crate::message::{CreateMessageResponse, ResponseView, Usage};
use crate::json::json_parse;
use crate::relay::{
    message_delta_json, message_stop_json, outgoing_view, EventRelay, RelayView,
};
use crate::session::{ClaudeWebState, WebView};
use crate::text::text_view;
use vstd::prelude::*;
use vstd::string::StringExecFns;

verus! {

/// What the steps of a reply depend on: whether tokens are to be counted
/// exactly, and what the session holds at its start.
#[derive(Debug)]
pub struct ReplySetup {
    pub precise: bool,
    pub usage: Usage,
    pub has_cookie: bool,
    pub has_tools: bool,
    pub model: Option<String>,
}

/// What a `ReplySetup` holds.
#[verifier::ext_equal]
pub struct SetupView {
    pub precise: bool,
    pub usage: Usage,
    pub has_cookie: bool,
    pub has_tools: bool,
    pub model: Option<Seq<char>>,
}

impl View for ReplySetup {
    type V = SetupView;

    open spec fn view(&self) -> SetupView {
        SetupView {
            precise: self.precise,
            usage: self.usage,
            has_cookie: self.has_cookie,
            has_tools: self.has_tools,
            model: text_view(self.model),
        }
    }
}

impl WebView {
    /// What the steps of a reply in this session depend on.
    pub open spec fn reply_setup(self, precise: bool) -> SetupView {
        SetupView {
            precise,
            usage: self.usage,
            has_cookie: self.cookie is Some,
            has_tools: self.last_params matches Some(params) && params.offers_tools(),
            model: match self.last_params {
                Some(params) => Some(params.model),
                None => None,
            },
        }
    }
}

/// Where a reply stands.
#[derive(Debug)]
pub enum ReplyPhase {
    /// The exact count of the request is awaited, before anything is relayed.
    CountingStreamInput,
    /// Events are relayed.
    Relaying { relay: EventRelay },
    /// The whole text is awaited.
    Merging,
    /// The text is there, and the exact count of the request awaited.
    CountingTextInput { text: String },
    /// The exact count of the reply is awaited.
    CountingOutput { text: String, input_tokens: u32, whole: bool },
    /// An estimate of the count of the reply is awaited.
    Estimating { text: String, input_tokens: u32, whole: bool },
    /// Nothing more is to be done.
    Finished,
}

/// What a `ReplyPhase` holds.
pub enum PhaseView {
    CountingStreamInput,
    Relaying(RelayView),
    Merging,
    CountingTextInput(Seq<char>),
    CountingOutput { text: Seq<char>, input_tokens: u32, whole: bool },
    Estimating { text: Seq<char>, input_tokens: u32, whole: bool },
    Finished,
}

impl View for ReplyPhase {
    type V = PhaseView;

    open spec fn view(&self) -> PhaseView {
        match self {
            ReplyPhase::CountingStreamInput => PhaseView::CountingStreamInput,
            ReplyPhase::Relaying { relay } => PhaseView::Relaying(relay@),
            ReplyPhase::Merging => PhaseView::Merging,
            ReplyPhase::CountingTextInput { text } => PhaseView::CountingTextInput(text@),
            ReplyPhase::CountingOutput { text, input_tokens, whole } => PhaseView::CountingOutput {
                text: text@,
                input_tokens: *input_tokens,
                whole: *whole,
            },
            ReplyPhase::Estimating { text, input_tokens, whole } => PhaseView::Estimating {
                text: text@,
                input_tokens: *input_tokens,
                whole: *whole,
            },
            ReplyPhase::Finished => PhaseView::Finished,
        }
    }
}

/// What is handed to a reply.
#[derive(Debug)]
pub enum ReplyInput {
    /// The exact count of the request, if there is one.
    InputCounted { tokens: Option<u32> },
    /// An event, and what its data says.
    Event { event: StreamEvent, fields: Option<EventFields> },
    /// There are no more events.
    End,
    /// The whole text.
    Merged { text: String },
    /// The upstream reply broke off with an error.
    Failed,
    /// The exact count of the reply, if there is one.
    OutputCounted { tokens: Option<u32> },
    /// An estimate of the count of the reply.
    Estimated { estimate: u32 },
}

/// What a `ReplyInput` holds.
pub enum InputView {
    InputCounted(Option<u32>),
    Event(EventView, Option<FieldsView>),
    End,
    Merged(Seq<char>),
    Failed,
    OutputCounted(Option<u32>),
    Estimated(u32),
}

impl View for ReplyInput {
    type V = InputView;

    open spec fn view(&self) -> InputView {
        match self {
            ReplyInput::InputCounted { tokens } => InputView::InputCounted(*tokens),
            ReplyInput::Event { event, fields } => InputView::Event(event@, fields_view(*fields)),
            ReplyInput::End => InputView::End,
            ReplyInput::Merged { text } => InputView::Merged(text@),
            ReplyInput::Failed => InputView::Failed,
            ReplyInput::OutputCounted { tokens } => InputView::OutputCounted(*tokens),
            ReplyInput::Estimated { estimate } => InputView::Estimated(*estimate),
        }
    }
}

/// What a reply asks for.
#[derive(Debug)]
pub enum ReplyAction {
    /// Count the request exactly.
    CountInput,
    /// Hand in the next event.
    Next,
    /// Hand in the whole text.
    Merge,
    /// Send an event to the client.
    Send { event: OutgoingEvent },
    /// Register the session under the tool use, for its result.
    Register { tool_use_id: String },
    /// Count the reply exactly.
    CountOutput { model: String, text: String },
    /// Estimate the count of the reply.
    Estimate { response: CreateMessageResponse },
    /// Add the tokens to the usage of the cookie, and give it back.
    Record { input_tokens: u64, output_tokens: u64, family: ModelFamily },
    /// Add the tokens to the totals of the session.
    Persist { input_tokens: u64, output_tokens: u64 },
    /// Answer the client.
    Respond { response: CreateMessageResponse },
    /// End the stream to the client.
    Finish,
    /// Pass the error on to the client.
    Fail,
}

/// What a `ReplyAction` holds.
pub enum ActionView {
    CountInput,
    Next,
    Merge,
    Send(OutgoingView),
    Register(Seq<char>),
    CountOutput { model: Seq<char>, text: Seq<char> },
    Estimate(ResponseView),
    Record { input_tokens: u64, output_tokens: u64, family: ModelFamily },
    Persist { input_tokens: u64, output_tokens: u64 },
    Respond(ResponseView),
    Finish,
    Fail,
}

impl View for ReplyAction {
    type V = ActionView;

    open spec fn view(&self) -> ActionView {
        match self {
            ReplyAction::CountInput => ActionView::CountInput,
            ReplyAction::Next => ActionView::Next,
            ReplyAction::Merge => ActionView::Merge,
            ReplyAction::Send { event } => ActionView::Send(event@),
            ReplyAction::Register { tool_use_id } => ActionView::Register(tool_use_id@),
            ReplyAction::CountOutput { model, text } => ActionView::CountOutput {
                model: model@,
                text: text@,
            },
            ReplyAction::Estimate { response } => ActionView::Estimate(response@),
            ReplyAction::Record { input_tokens, output_tokens, family } => ActionView::Record {
                input_tokens: *input_tokens,
                output_tokens: *output_tokens,
                family: *family,
            },
            ReplyAction::Persist { input_tokens, output_tokens } => ActionView::Persist {
                input_tokens: *input_tokens,
                output_tokens: *output_tokens,
            },
            ReplyAction::Respond { response } => ActionView::Respond(response@),
            ReplyAction::Finish => ActionView::Finish,
            ReplyAction::Fail => ActionView::Fail,
        }
    }
}

/// What actions hold.
pub open spec fn actions_view(actions: Seq<ReplyAction>) -> Seq<ActionView> {
    actions.map_values(|action: ReplyAction| action@)
}

/// The sending of events.
pub open spec fn sends(events: Seq<OutgoingView>) -> Seq<ActionView> {
    events.map_values(|event: OutgoingView| ActionView::Send(event))
}

/// The registering of a tool use, if there is one.
pub open spec fn registering(tool_use_id: Option<Seq<char>>) -> Seq<ActionView> {
    match tool_use_id {
        Some(id) => seq![ActionView::Register(id)],
        None => Seq::empty(),
    }
}

impl SetupView {
    /// The tokens of the request: the exact count, or what is known without.
    pub open spec fn input_tokens(self, counted: Option<u32>) -> u32 {
        match counted {
            Some(tokens) => tokens,
            None => self.usage.input_tokens,
        }
    }

    /// A reply whose events are relayed.
    pub open spec fn relaying(self, counted: Option<u32>) -> (PhaseView, Seq<ActionView>) {
        (
            PhaseView::Relaying(RelayView::fresh(self.has_tools, self.input_tokens(counted))),
            seq![ActionView::Next],
        )
    }

    /// A reply at its start.
    pub open spec fn start(self, stream: bool) -> (PhaseView, Seq<ActionView>) {
        if !stream {
            (PhaseView::Merging, seq![ActionView::Merge])
        } else if self.precise {
            (PhaseView::CountingStreamInput, seq![ActionView::CountInput])
        } else {
            self.relaying(None)
        }
    }

    /// An event is relayed. A call of a tool of the client finishes the reply,
    /// once the call is registered.
    pub open spec fn relayed(
        self,
        relay: RelayView,
        event: EventView,
        fields: Option<FieldsView>,
    ) -> (PhaseView, Seq<ActionView>) {
        let after = relay.after(event, fields);
        let done = sends(relay.relays(event, fields)) + registering(relay.registers(fields));
        if after.tool_call_break {
            (PhaseView::Finished, done + seq![ActionView::Finish])
        } else {
            (PhaseView::Relaying(after), done + seq![ActionView::Next])
        }
    }

    /// The tokens of the reply are known: they are put on record, and a whole
    /// reply is answered.
    pub open spec fn settled(
        self,
        text: Seq<char>,
        input_tokens: u32,
        output_tokens: u32,
        whole: bool,
    ) -> (PhaseView, Seq<ActionView>) {
        (
            PhaseView::Finished,
            if whole {
                seq![
                    ActionView::Persist {
                        input_tokens: input_tokens as u64,
                        output_tokens: output_tokens as u64,
                    },
                    ActionView::Respond(
                        ResponseView::of_text(
                            text,
                            Seq::empty(),
                            Usage { input_tokens, output_tokens },
                        ),
                    ),
                ]
            } else if self.has_cookie {
                seq![
                    ActionView::Record {
                        input_tokens: input_tokens as u64,
                        output_tokens: output_tokens as u64,
                        family: family_of_any(self.model),
                    },
                    ActionView::Finish,
                ]
            } else {
                seq![ActionView::Finish]
            },
        )
    }

    /// The tokens of the reply are estimated.
    pub open spec fn estimating(self, text: Seq<char>, input_tokens: u32, whole: bool) -> (
        PhaseView,
        Seq<ActionView>,
    ) {
        let usage = if whole {
            self.usage
        } else {
            Usage { input_tokens, output_tokens: 0 }
        };
        (
            PhaseView::Estimating { text, input_tokens, whole },
            seq![ActionView::Estimate(ResponseView::of_text(text, Seq::empty(), usage))],
        )
    }

    /// The reply is there: its tokens are counted, exactly where that is wanted
    /// and the model is known.
    pub open spec fn measuring(self, text: Seq<char>, input_tokens: u32, whole: bool) -> (
        PhaseView,
        Seq<ActionView>,
    ) {
        match self.model {
            Some(model) => if self.precise {
                (
                    PhaseView::CountingOutput { text, input_tokens, whole },
                    seq![ActionView::CountOutput { model, text }],
                )
            } else {
                self.estimating(text, input_tokens, whole)
            },
            None => self.estimating(text, input_tokens, whole),
        }
    }

    /// A step of a reply. What is not awaited changes nothing.
    pub open spec fn step(self, phase: PhaseView, input: InputView) -> (
        PhaseView,
        Seq<ActionView>,
    ) {
        match (phase, input) {
            (PhaseView::CountingStreamInput, InputView::InputCounted(tokens)) => self.relaying(
                tokens,
            ),
            (PhaseView::Relaying(relay), InputView::Event(event, fields)) => self.relayed(
                relay,
                event,
                fields,
            ),
            (PhaseView::Relaying(relay), InputView::End) => if relay.text.len() == 0 {
                self.settled(relay.text, relay.input_tokens, 0, false)
            } else {
                self.measuring(relay.text, relay.input_tokens, false)
            },
            (PhaseView::Merging, InputView::Merged(text)) => if self.precise {
                (PhaseView::CountingTextInput(text), seq![ActionView::CountInput])
            } else {
                self.measuring(text, self.usage.input_tokens, true)
            },
            (PhaseView::CountingTextInput(text), InputView::InputCounted(tokens)) =>
                self.measuring(text, self.input_tokens(tokens), true),
            (
                PhaseView::CountingOutput { text, input_tokens, whole },
                InputView::OutputCounted(tokens),
            ) => match tokens {
                Some(output_tokens) => self.settled(text, input_tokens, output_tokens, whole),
                None => self.estimating(text, input_tokens, whole),
            },
            (
                PhaseView::Estimating { text, input_tokens, whole },
                InputView::Estimated(output_tokens),
            ) => self.settled(text, input_tokens, output_tokens, whole),
            (PhaseView::Relaying(_), InputView::Failed) | (
                PhaseView::Merging,
                InputView::Failed,
            ) => (PhaseView::Finished, seq![ActionView::Fail]),
            _ => (phase, Seq::empty()),
        }
    }
}

/// The input ends a relayed reply for a tool of the client.
pub open spec fn ends_for_tool(phase: PhaseView, input: InputView) -> bool {
    match (phase, input) {
        (PhaseView::Relaying(relay), InputView::Event(_, fields)) => relay.breaks_at(fields),
        _ => false,
    }
}

/// The second and the third of `actions` send events whose data, read as JSON,
/// says that the reply stops for a tool, and that it ends.
pub open spec fn tells_tool_stop(actions: Seq<ActionView>) -> bool {
    &&& actions[1] matches ActionView::Send(delta) && json_parse(delta.data) == Some(
        message_delta_json(),
    )
    &&& actions[2] matches ActionView::Send(stop) && json_parse(stop.data) == Some(
        message_stop_json(),
    )
}

/// A reply as it is turned.
#[derive(Debug)]
pub struct Reply {
    pub setup: ReplySetup,
    pub phase: ReplyPhase,
}

impl ClaudeWebState {
    /// What the steps of a reply in this session depend on.
    fn reply_setup(&self, precise: bool) -> (setup: ReplySetup)
        ensures
            setup@ == self@.reply_setup(precise),
    {
        let has_tools = match &self.last_params {
            Some(params) => params.has_tools(),
            None => false,
        };
        let model = match &self.last_params {
            Some(params) => Some(params.model.clone()),
            None => None,
        };
        ReplySetup {
            precise,
            usage: self.usage,
            has_cookie: self.cookie.is_some(),
            has_tools,
            model,
        }
    }

    /// Starts turning the reply of the web service into one for the client. The
    /// API format that the client speaks is not looked at: the events, and the
    /// answer, have the form of the messages API whatever `api_format` is. Nothing
    /// is cached.
    pub fn transform_response(&self, precise: bool) -> (started: (Reply, Vec<ReplyAction>))
        ensures
            started.0.setup@ == self@.reply_setup(precise),
            (started.0.phase@, actions_view(started.1@)) == self@.reply_setup(precise).start(
                self@.stream,
            ),
    {
        let setup = self.reply_setup(precise);
        let mut actions: Vec<ReplyAction> = Vec::new();
        let phase = if !self.stream {
            actions.push(ReplyAction::Merge);
            ReplyPhase::Merging
        } else if precise {
            actions.push(ReplyAction::CountInput);
            ReplyPhase::CountingStreamInput
        } else {
            actions.push(ReplyAction::Next);
            ReplyPhase::Relaying {
                relay: EventRelay::new(setup.has_tools, setup.usage.input_tokens),
            }
        };
        assert(actions_view(actions@) =~= self@.reply_setup(precise).start(self@.stream).1);
        (Reply { setup, phase }, actions)
    }
}

impl ReplySetup {
    /// The tokens of the request: the exact count, or what is known without.
    fn input_tokens(&self, counted: Option<u32>) -> (tokens: u32)
        ensures
            tokens == self@.input_tokens(counted),
    {
        match counted {
            Some(tokens) => tokens,
            None => self.usage.input_tokens,
        }
    }

    /// The tokens of the reply are known.
    fn settle(&self, text: String, input_tokens: u32, output_tokens: u32, whole: bool) -> (step: (
        ReplyPhase,
        Vec<ReplyAction>,
    ))
        ensures
            (step.0@, actions_view(step.1@)) == self@.settled(
                text@,
                input_tokens,
                output_tokens,
                whole,
            ),
    {
        let mut actions: Vec<ReplyAction> = Vec::new();
        if whole {
            actions.push(
                ReplyAction::Persist {
                    input_tokens: input_tokens as u64,
                    output_tokens: output_tokens as u64,
                },
            );
            actions.push(
                ReplyAction::Respond {
                    response: CreateMessageResponse::text(
                        text,
                        String::new(),
                        Usage { input_tokens, output_tokens },
                    ),
                },
            );
        } else {
            if self.has_cookie {
                let family = match &self.model {
                    Some(model) => model_family(model),
                    None => ModelFamily::Other,
                };
                actions.push(
                    ReplyAction::Record {
                        input_tokens: input_tokens as u64,
                        output_tokens: output_tokens as u64,
                        family,
                    },
                );
            }
            actions.push(ReplyAction::Finish);
        }
        assert(actions_view(actions@) =~= self@.settled(
            text@,
            input_tokens,
            output_tokens,
            whole,
        ).1);
        (ReplyPhase::Finished, actions)
    }

    /// The tokens of the reply are estimated.
    fn estimate(&self, text: String, input_tokens: u32, whole: bool) -> (step: (
        ReplyPhase,
        Vec<ReplyAction>,
    ))
        ensures
            (step.0@, actions_view(step.1@)) == self@.estimating(text@, input_tokens, whole),
    {
        let usage = if whole {
            self.usage
        } else {
            Usage { input_tokens, output_tokens: 0 }
        };
        let response = CreateMessageResponse::text(text.clone(), String::new(), usage);
        let mut actions: Vec<ReplyAction> = Vec::new();
        actions.push(ReplyAction::Estimate { response });
        assert(actions_view(actions@) =~= self@.estimating(text@, input_tokens, whole).1);
        (ReplyPhase::Estimating { text, input_tokens, whole }, actions)
    }

    /// The tokens of the reply are counted.
    fn measure(&self, text: String, input_tokens: u32, whole: bool) -> (step: (
        ReplyPhase,
        Vec<ReplyAction>,
    ))
        ensures
            (step.0@, actions_view(step.1@)) == self@.measuring(text@, input_tokens, whole),
    {
        match &self.model {
            Some(model) => {
                if !self.precise {
                    return self.estimate(text, input_tokens, whole);
                }
                let mut actions: Vec<ReplyAction> = Vec::new();
                actions.push(
                    ReplyAction::CountOutput { model: model.clone(), text: text.clone() },
                );
                assert(actions_view(actions@) =~= self@.measuring(text@, input_tokens, whole).1);
                (ReplyPhase::CountingOutput { text, input_tokens, whole }, actions)
            },
            None => self.estimate(text, input_tokens, whole),
        }
    }

    /// An event is relayed.
    fn relay(&self, relay: EventRelay, event: StreamEvent, fields: Option<EventFields>) -> (step: (
        ReplyPhase,
        Vec<ReplyAction>,
    ))
        ensures
            (step.0@, actions_view(step.1@)) == self@.relayed(
                relay@,
                event@,
                fields_view(fields),
            ),
            relay@.breaks_at(fields_view(fields)) ==> tells_tool_stop(actions_view(step.1@)),
    {
        let ghost before = relay@;
        let ghost heard = (event@, fields_view(fields));
        let mut relay = relay;
        let relayed = relay.advance(event, fields);
        let mut events = relayed.events;
        let ghost all = outgoing_view(events@);
        let ghost ends = before.breaks_at(heard.1);
        proof {
            if ends {
                assert(all[1].data == events@[1].data@);
                assert(all[2].data == events@[2].data@);
            }
        }
        let mut actions: Vec<ReplyAction> = Vec::new();
        let ghost total = events@.len();
        while events.len() > 0
            invariant
                events@.len() + actions@.len() == total == all.len(),
                outgoing_view(events@) == all.skip(actions@.len() as int),
                actions_view(actions@) == sends(all).take(actions@.len() as int),
            decreases events.len(),
        {
            let ghost rest = events@;
            let event = events.remove(0);
            proof {
                assert(outgoing_view(rest)[0] == event@);
                assert(all.skip(actions@.len() as int)[0] == all[actions@.len() as int]);
                assert(outgoing_view(events@) =~= outgoing_view(rest).skip(1));
                assert(all.skip(actions@.len() as int).skip(1) =~= all.skip(actions@.len() as int + 1));
            }
            let ghost sent = actions@;
            actions.push(ReplyAction::Send { event });
            assert(actions_view(actions@) =~= actions_view(sent).push(ActionView::Send(event@)));
            assert(sends(all).take(sent.len() as int + 1) =~= sends(all).take(sent.len() as int).push(
                sends(all)[sent.len() as int],
            ));
        }
        assert(actions_view(actions@) =~= sends(all));
        if let Some(tool_use_id) = relayed.register {
            actions.push(ReplyAction::Register { tool_use_id });
        }
        assert(actions_view(actions@) =~= sends(all) + registering(before.registers(heard.1)));
        let ghost done = actions@;
        proof {
            if ends {
                assert(actions_view(done)[1] == ActionView::Send(all[1]));
                assert(actions_view(done)[2] == ActionView::Send(all[2]));
            }
        }
        if relay.tool_call_break {
            actions.push(ReplyAction::Finish);
            assert(actions_view(actions@) =~= actions_view(done) + seq![ActionView::Finish]);
            (ReplyPhase::Finished, actions)
        } else {
            actions.push(ReplyAction::Next);
            assert(actions_view(actions@) =~= actions_view(done) + seq![ActionView::Next]);
            (ReplyPhase::Relaying { relay }, actions)
        }
    }

    /// A step of a reply.
    fn step(&self, phase: ReplyPhase, input: ReplyInput) -> (step: (ReplyPhase, Vec<ReplyAction>))
        ensures
            (step.0@, actions_view(step.1@)) == self@.step(phase@, input@),
            ends_for_tool(phase@, input@) ==> tells_tool_stop(actions_view(step.1@)),
    {
        let mut actions: Vec<ReplyAction> = Vec::new();
        assert(actions_view(actions@) =~= Seq::<ActionView>::empty());
        match (phase, input) {
            (ReplyPhase::CountingStreamInput, ReplyInput::InputCounted { tokens }) => {
                actions.push(ReplyAction::Next);
                assert(actions_view(actions@) =~= seq![ActionView::Next]);
                (
                    ReplyPhase::Relaying {
                        relay: EventRelay::new(self.has_tools, self.input_tokens(tokens)),
                    },
                    actions,
                )
            },
            (ReplyPhase::Relaying { relay }, ReplyInput::Event { event, fields }) => self.relay(
                relay,
                event,
                fields,
            ),
            (ReplyPhase::Relaying { relay }, ReplyInput::End) => if relay.text.as_str().is_empty() {
                self.settle(relay.text, relay.input_tokens, 0, false)
            } else {
                self.measure(relay.text, relay.input_tokens, false)
            },
            (ReplyPhase::Merging, ReplyInput::Merged { text }) => if self.precise {
                actions.push(ReplyAction::CountInput);
                assert(actions_view(actions@) =~= seq![ActionView::CountInput]);
                (ReplyPhase::CountingTextInput { text }, actions)
            } else {
                self.measure(text, self.usage.input_tokens, true)
            },
            (ReplyPhase::CountingTextInput { text }, ReplyInput::InputCounted { tokens }) => {
                self.measure(text, self.input_tokens(tokens), true)
            },
            (
                ReplyPhase::CountingOutput { text, input_tokens, whole },
                ReplyInput::OutputCounted { tokens },
            ) => match tokens {
                Some(output_tokens) => self.settle(text, input_tokens, output_tokens, whole),
                None => self.estimate(text, input_tokens, whole),
            },
            (
                ReplyPhase::Estimating { text, input_tokens, whole },
                ReplyInput::Estimated { estimate },
            ) => self.settle(text, input_tokens, estimate, whole),
            (ReplyPhase::Relaying { .. }, ReplyInput::Failed) => {
                actions.push(ReplyAction::Fail);
                assert(actions_view(actions@) =~= seq![ActionView::Fail]);
                (ReplyPhase::Finished, actions)
            },
            (ReplyPhase::Merging, ReplyInput::Failed) => {
                actions.push(ReplyAction::Fail);
                assert(actions_view(actions@) =~= seq![ActionView::Fail]);
                (ReplyPhase::Finished, actions)
            },
            (phase, _) => (phase, actions),
        }
    }
}

impl Reply {
    /// A step of the reply: takes what was awaited, and gives back what is to be
    /// done next. What was not awaited changes nothing.
    pub fn advance(self, input: ReplyInput) -> (next: (Reply, Vec<ReplyAction>))
        ensures
            next.0.setup == self.setup,
            (next.0.phase@, actions_view(next.1@)) == self.setup@.step(self.phase@, input@),
            ends_for_tool(self.phase@, input@) ==> tells_tool_stop(actions_view(next.1@)),
    {
        let Reply { setup, phase } = self;
        let (phase, actions) = setup.step(phase, input);
        (Reply { setup, phase }, actions)
    }

    /// Takes an event as it comes: reads its data, and advances.
    pub fn accept(self, event: StreamEvent) -> (next: (Reply, Vec<ReplyAction>))
        ensures
            next.0.setup == self.setup,
            (next.0.phase@, actions_view(next.1@)) == self.setup@.step(
                self.phase@,
                InputView::Event(event@, fields_in(event@.data)),
            ),
            ends_for_tool(
                self.phase@,
                InputView::Event(event@, fields_in(event@.data)),
            ) ==> tells_tool_stop(actions_view(next.1@)),
    {
        let fields = read_fields(&event.data);
        self.advance(ReplyInput::Event { event, fields })
    }
}

/// The completion texts of events, one after another.
pub open spec fn merged(events: Seq<EventView>) -> Seq<char>
    decreases events.len(),
{
    if events.len() == 0 {
        Seq::empty()
    } else {
        merged(events.drop_last()) + crate::relay::completed(events.last().completion)
    }
}

/// What events hold.
pub open spec fn events_view(events: Seq<StreamEvent>) -> Seq<EventView> {
    events.map_values(|event: StreamEvent| event@)
}

/// Merges the events of a stream into one text: their completions, one after
/// another. An event without one adds nothing. A stream that broke off gives its
/// error in place of the text.
pub fn merge_sse<E>(events: &Vec<StreamEvent>, broke_off: Option<E>) -> (text: Result<String, E>)
    ensures
        match broke_off {
            Some(error) => text == Err::<String, E>(error),
            None => text matches Ok(t) && t@ == merged(events_view(events@)),
        },
{
    if let Some(error) = broke_off {
        return Err(error);
    }
    let mut text = String::new();
    for k in 0..events.len()
        invariant
            text@ == merged(events_view(events@).take(k as int)),
    {
        proof {
            let views = events_view(events@);
            assert(views.take(k + 1).drop_last() =~= views.take(k as int));
            assert(views.take(k + 1).last() == events@[k as int]@);
            assert(text@ + Seq::<char>::empty() =~= text@);
        }
        if let Some(completion) = &events[k].completion {
            text.append(completion);
        }
    }
    assert(events_view(events@).take(events@.len() as int) =~= events_view(events@));
    Ok(text)
}

} // verus!
