//! What is counted: the request that is posted for a count, the session that it
//! goes through, and the exchanges before it.
use crate::count::{
    header_value, url_join, CountActionView, CountNextView, CountOutcomeView, CountingView,
    RequestView, TaskView,
};
use crate::json::JsonView;
use crate::message::{BlockContents, ContentView, MessageView, ParamsView, ResponseView, Role, Usage};
use crate::session::{CodeView, CookieActorHandle, CookieView, UpstreamView, WebView};
use vstd::prelude::*;
use vstd::utf8::encode_utf8;

verus! {

/// A text can be said in a header exactly if none of its bytes is a control
/// character, but for tabs; it is said by its bytes.
pub proof fn headers_say_texts_without_controls(text: Seq<char>)
    ensures
        header_value(text) is Some <==> forall|k: int|
            0 <= k < encode_utf8(text).len() ==> !((#[trigger] encode_utf8(text)[k]) < 32
                && encode_utf8(text)[k] != 9) && encode_utf8(text)[k] != 127,
        header_value(text) matches Some(bytes) ==> bytes == encode_utf8(text),
{
    let bytes = encode_utf8(text);
    if header_value(text) is None {
        let k = choose|k: int|
            0 <= k < bytes.len() && !crate::count::is_header_byte(#[trigger] bytes[k]);
        assert(encode_utf8(text)[k] == bytes[k]);
    }
}

/// The session that a count goes through has the actor, the cookie and the way
/// upstream of the session that asks, says the cookie in its header, and knows
/// nothing else.
pub proof fn counts_go_through_their_own_session(
    handle: CookieActorHandle,
    cookie: Option<CookieView>,
    upstream: UpstreamView,
)
    ensures
        ({
            let code = CodeView::counting(handle, cookie, upstream);
            &&& code.cookie_actor_handle == handle
            &&& code.cookie == cookie
            &&& code.upstream == upstream
            &&& cookie matches Some(c) ==> code.cookie_header == header_value(c.cookie)
            &&& cookie is None ==> code.cookie_header is None
            &&& code.api_format is Claude
            &&& !code.stream
            &&& code.system_prompt_hash is None
            &&& code.anthropic_beta_header is None
            &&& code.usage == (Usage { input_tokens: 0, output_tokens: 0 })
        }),
{
}

/// What is counted of a session is its last request: all of it, but that it does
/// not stream. There is a count exactly if there is a cookie and a request.
pub proof fn the_last_request_is_counted(session: WebView, params: ParamsView, cookie: CookieView)
    ensures
        session.cookie is None || session.last_params is None ==> session.input_count() is None,
        session.cookie == Some(cookie) && session.last_params == Some(params) ==> (
        session.input_count() matches Some(task) && ({
            &&& task.body.model == params.model
            &&& task.body.messages == params.messages
            &&& task.body.stream == Some(false)
            &&& task.body.tools == params.tools
            &&& task.body.thinking == params.thinking
            &&& task.body.rest == params.rest
            &&& task.code == CodeView::counting(
                session.cookie_actor_handle,
                Some(cookie),
                session.upstream,
            )
        })),
{
}

/// What is counted of a reply is a request of the model with one message: the
/// assistant's, with the very text. It says nothing else.
pub proof fn the_text_of_a_reply_is_counted(model: Seq<char>, text: Seq<char>)
    ensures
        ({
            let body = ParamsView::replying(model, text);
            &&& body.model == model
            &&& body.messages.len() == 1
            &&& body.messages[0].role == Role::Assistant
            &&& body.messages[0].content == ContentView::Text(text)
            &&& body.stream is None
            &&& body.tools is None
            &&& body.thinking is None
            &&& body.rest == JsonView::Object(Map::empty())
        }),
{
}

/// A blank request says nothing; a message from a text is the assistant's, and has
/// that text as its one block; a reply that is a text has that text as its one
/// block, and the model and usage that it is given.
pub proof fn texts_are_kept(text: Seq<char>, model: Seq<char>, usage: Usage)
    ensures
        ({
            let blank = ParamsView::blank();
            &&& blank.model.len() == 0
            &&& blank.messages.len() == 0
            &&& blank.stream is None
            &&& blank.tools is None
            &&& blank.thinking is None
            &&& blank.rest == JsonView::Object(Map::empty())
        }),
        crate::message::said(text) == (MessageView {
            role: Role::Assistant,
            content: ContentView::Blocks(seq![BlockContents::Text(text)]),
        }),
        ({
            let reply = ResponseView::of_text(text, model, usage);
            &&& reply.content.len() == 1
            &&& reply.content[0] == BlockContents::Text(text)
            &&& reply.model == model
            &&& reply.usage == Some(usage)
        }),
{
}

/// The request that is posted for a count has the body of the task, the whole of
/// it and unchanged, and the access token of its session. It goes to the place for
/// counts below the endpoint of the session, and names the version of the API.
/// There is one exactly if there is a cookie, a token for it, and such a place.
pub proof fn requests_carry_the_body_of_their_task(task: TaskView)
    ensures
        ({
            let place = url_join(task.code.upstream.endpoint, "v1/messages/count_tokens"@);
            let token = task.code.cookie matches Some(cookie) && cookie.token is Some;
            &&& task.request() is Some <==> token && place is Some
            &&& task.request() matches Some(request) ==> {
                &&& request.body.model == task.body.model
                &&& request.body.messages == task.body.messages
                &&& request.body.stream == task.body.stream
                &&& request.body.tools == task.body.tools
                &&& request.body.thinking == task.body.thinking
                &&& request.body.rest == task.body.rest
                &&& Some(request.url) == place
                &&& Some(request.access_token) == task.code.cookie->0.token
                &&& request.version_header == "anthropic-version"@
                &&& request.version == "2023-06-01"@
            }
        }),
{
}

/// A request for a count that is posted to a URL, or through a session, has the
/// body, the token and the place that it is given; without a place there is none.
pub proof fn posted_requests_are_what_is_given(
    url: Option<Seq<char>>,
    code: CodeView,
    access_token: Seq<char>,
    body: ParamsView,
)
    ensures
        RequestView::posted(url, access_token, body) is Some <==> url is Some,
        RequestView::posted(url, access_token, body) matches Some(request) ==> {
            &&& request.body == body
            &&& request.access_token == access_token
            &&& Some(request.url) == url
            &&& request.version_header == "anthropic-version"@
            &&& request.version == "2023-06-01"@
        },
        RequestView::counting(code, access_token, body) is Some <==> url_join(
            code.upstream.endpoint,
            "v1/messages/count_tokens"@,
        ) is Some,
        RequestView::counting(code, access_token, body) matches Some(request) ==> {
            &&& request.body == body
            &&& request.access_token == access_token
            &&& Some(request.url) == url_join(
                code.upstream.endpoint,
                "v1/messages/count_tokens"@,
            )
            &&& request.version_header == "anthropic-version"@
            &&& request.version == "2023-06-01"@
        },
{
}

/// The whole way of a count whose exchanges all succeed. First the organization is
/// sought, in the session of the task; then a code for it; then a token for that,
/// each in the session as the last exchange left it. Then the request is posted
/// through the client of the session, with the token that was got and the body of
/// the task; and what its reply says is the result.
pub proof fn counts_come_to_their_result<X>(
    task: TaskView,
    found: CodeView,
    organization: Seq<char>,
    coded: CodeView,
    exchange: X,
    granted: CodeView,
    cookie: CookieView,
    token: Seq<char>,
    url: Seq<char>,
    tokens: u32,
)
    requires
        granted.cookie == Some(cookie),
        cookie.token == Some(token),
        url_join(granted.upstream.endpoint, "v1/messages/count_tokens"@) == Some(url),
    ensures
        ({
            let first = CountOutcomeView::<X>::Organization(found, Some(organization));
            let second = CountOutcomeView::Code(coded, Some(exchange));
            let third = CountOutcomeView::<X>::Token(granted, true);
            let last = CountOutcomeView::<X>::Reply(Some(tokens));
            &&& task.after_outcomes(Seq::<CountOutcomeView<X>>::empty()) matches Some(
                CountNextView::Ask(_, action),
            ) && action == CountActionView::<X>::FindOrganization(task.code)
            &&& task.after_outcomes(seq![first]) matches Some(CountNextView::Ask(_, action))
                && action == CountActionView::<X>::ExchangeCode(found, organization)
            &&& task.after_outcomes(seq![first, second]) matches Some(CountNextView::Ask(_, action))
                && action == CountActionView::ExchangeToken(coded, exchange)
            &&& task.after_outcomes(seq![first, second, third]) matches Some(
                CountNextView::Ask(_, CountActionView::Post(client, request)),
            ) && client == granted.upstream.client && request == (RequestView {
                url,
                access_token: token,
                version_header: "anthropic-version"@,
                version: "2023-06-01"@,
                body: task.body,
            })
            &&& task.after_outcomes(seq![first, second, third, last]) == Some(
                CountNextView::<X>::Counted(tokens),
            )
        }),
{
    let none = Seq::<CountOutcomeView<X>>::empty();
    let first = CountOutcomeView::<X>::Organization(found, Some(organization));
    let second = CountOutcomeView::Code(coded, Some(exchange));
    let third = CountOutcomeView::<X>::Token(granted, true);
    let last = CountOutcomeView::<X>::Reply(Some(tokens));
    assert(seq![first].drop_last() =~= none);
    assert(seq![first, second].drop_last() =~= seq![first]);
    assert(seq![first, second, third].drop_last() =~= seq![first, second]);
    assert(seq![first, second, third, last].drop_last() =~= seq![first, second, third]);
    assert(task.after_outcomes(none) == Some(task.begun::<X>()));
    assert(task.after_outcomes(seq![first]) == Some(
        CountNextView::Ask(
            CountingView::Code(task.body),
            CountActionView::<X>::ExchangeCode(found, organization),
        ),
    ));
    assert(task.after_outcomes(seq![first, second]) == Some(
        CountNextView::Ask(
            CountingView::Token(task.body),
            CountActionView::ExchangeToken(coded, exchange),
        ),
    ));
}

/// What is posted to count the last request of a session, once its exchanges have
/// succeeded, has the messages, the model, the tools, the thinking and all else of
/// that request.
pub proof fn the_messages_of_the_request_are_posted<X>(
    session: WebView,
    params: ParamsView,
    found: CodeView,
    organization: Seq<char>,
    coded: CodeView,
    exchange: X,
    granted: CodeView,
    cookie: CookieView,
    token: Seq<char>,
    url: Seq<char>,
)
    requires
        session.cookie is Some,
        session.last_params == Some(params),
        granted.cookie == Some(cookie),
        cookie.token == Some(token),
        url_join(granted.upstream.endpoint, "v1/messages/count_tokens"@) == Some(url),
    ensures
        session.input_count() matches Some(task) && task.after_outcomes(
            seq![
                CountOutcomeView::<X>::Organization(found, Some(organization)),
                CountOutcomeView::Code(coded, Some(exchange)),
                CountOutcomeView::Token(granted, true),
            ],
        ) matches Some(CountNextView::Ask(_, CountActionView::Post(_, request))) && ({
            &&& request.body.messages == params.messages
            &&& request.body.model == params.model
            &&& request.body.tools == params.tools
            &&& request.body.thinking == params.thinking
            &&& request.body.rest == params.rest
            &&& request.body.stream == Some(false)
            &&& request.access_token == token
        }),
{
    let task = session.input_count()->0;
    counts_come_to_their_result(
        task,
        found,
        organization,
        coded,
        exchange,
        granted,
        cookie,
        token,
        url,
        0,
    );
}

/// What is posted to count a reply, once the exchanges have succeeded, has the
/// text of the reply as the assistant's one message, and the model.
pub proof fn the_text_of_the_reply_is_posted<X>(
    code: CodeView,
    model: Seq<char>,
    text: Seq<char>,
    found: CodeView,
    organization: Seq<char>,
    coded: CodeView,
    exchange: X,
    granted: CodeView,
    cookie: CookieView,
    token: Seq<char>,
    url: Seq<char>,
)
    requires
        granted.cookie == Some(cookie),
        cookie.token == Some(token),
        url_join(granted.upstream.endpoint, "v1/messages/count_tokens"@) == Some(url),
    ensures
        (TaskView { code, body: ParamsView::replying(model, text) }).after_outcomes(
            seq![
                CountOutcomeView::<X>::Organization(found, Some(organization)),
                CountOutcomeView::Code(coded, Some(exchange)),
                CountOutcomeView::Token(granted, true),
            ],
        ) matches Some(CountNextView::Ask(_, CountActionView::Post(_, request))) && ({
            &&& request.body.messages == seq![
                MessageView { role: Role::Assistant, content: ContentView::Text(text) },
            ]
            &&& request.body.model == model
            &&& request.body.tools is None
            &&& request.access_token == token
        }),
{
    counts_come_to_their_result(
        TaskView { code, body: ParamsView::replying(model, text) },
        found,
        organization,
        coded,
        exchange,
        granted,
        cookie,
        token,
        url,
        0,
    );
}

/// An outcome that is not the one awaited ends a count with none, and so does a
/// token that leaves nothing to post.
pub proof fn strange_outcomes_end_counts<X>(state: CountingView, outcome: CountOutcomeView<X>)
    requires
        match outcome {
            CountOutcomeView::Organization(_, _) => state !is Organization,
            CountOutcomeView::Code(_, _) => state !is Code,
            CountOutcomeView::Token(code, _) => state !is Token || code.cookie is None
                || code.cookie->0.token is None || url_join(
                code.upstream.endpoint,
                "v1/messages/count_tokens"@,
            ) is None,
            CountOutcomeView::Reply(_) => state !is Reply,
        },
    ensures
        state.next(outcome) is None,
{
}

} // verus!
