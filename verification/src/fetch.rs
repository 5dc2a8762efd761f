//! The fetch pipeline, without the I/O: what one call does next, given where
//! it stands and what the outside world just answered.
//!
//! A fetch is a line of at most four stages: wait for a token (where requests
//! are paced), send, read the body, deliver. A driver performs each
//! `FetchAction` and reports back with a `FetchEvent`; the first failure ends
//! the call. Nothing here reads or changes the client, so a failed call
//! leaves it as it was.

use crate::config::ClientConfig;
use crate::config::ConfigView;
use serde_json::Value;
use url::ParseError;
use vstd::prelude::*;

verus! {

/// `serde_json::Value`, a tree of structured data. Verus sees nothing of it.
#[verifier::external_type_specification]
#[verifier::external_body]
pub struct ExValue(Value);

/// `serde_json::Error`, the reason for which a text is no structured data.
/// Verus sees nothing of it.
#[verifier::external_type_specification]
#[verifier::external_body]
pub struct ExJsonError(serde_json::Error);

/// What `serde_json::from_str` reads from `text` as a `Value`: the tree, or
/// the reason for which `text` is not well formed.
pub uninterp spec fn parsed_json(text: Seq<char>) -> Result<Value, serde_json::Error>;

/// Calls `serde_json::from_str` for a `Value`. The contract only names the
/// result: it is a function of the text alone.
#[verifier::external_body]
fn parse_json(text: &str) -> (r: Result<Value, serde_json::Error>)
    ensures
        r == parsed_json(text@),
{
    serde_json::from_str::<Value>(text)
}

/// The shape in which a caller wants the response.
#[derive(Clone, Copy, Debug, PartialEq, Eq, Structural)]
pub enum ResponseFormat {
    /// The body as it came.
    RawText,
    /// The body parsed into a tree of structured data.
    Structured,
}

/// The stage at which a fetch failed.
#[derive(Clone, Copy, Debug, PartialEq, Eq, Structural)]
pub enum ErrorKind {
    Url,
    Transport,
    Timeout,
    Decode,
    Parse,
}

/// Why a fetch failed. The failures that arise in this library carry their
/// cause; for those of the transport the driver holds it.
#[derive(Debug)]
pub enum FetchError {
    /// The base URL, the path and the parameters make no URL.
    Url { cause: ParseError, with_params: bool },
    /// The connection, the name lookup or the TLS handshake failed.
    Transport,
    /// No response came before the deadline.
    Timeout,
    /// The body could not be read as text.
    Decode,
    /// The body is no well-formed structured data.
    Parse(serde_json::Error),
}

impl FetchError {
    /// The stage that the error belongs to.
    pub open spec fn spec_kind(self) -> ErrorKind {
        match self {
            FetchError::Url { .. } => ErrorKind::Url,
            FetchError::Transport => ErrorKind::Transport,
            FetchError::Timeout => ErrorKind::Timeout,
            FetchError::Decode => ErrorKind::Decode,
            FetchError::Parse(_) => ErrorKind::Parse,
        }
    }

    /// What was being done when the error arose, in words.
    pub open spec fn spec_context(self) -> Seq<char> {
        match self {
            FetchError::Url { with_params, .. } => if with_params {
                "failed to parse url string with params"@
            } else {
                "failed to parse url string"@
            },
            FetchError::Transport => "failure while sending request"@,
            FetchError::Timeout => "request timed out"@,
            FetchError::Decode => "failure while decoding response to text"@,
            FetchError::Parse(_) => "failure while parsing response body"@,
        }
    }

    /// The stage that the error belongs to.
    pub fn kind(&self) -> (kind: ErrorKind)
        ensures
            kind == self.spec_kind(),
    {
        match self {
            FetchError::Url { .. } => ErrorKind::Url,
            FetchError::Transport => ErrorKind::Transport,
            FetchError::Timeout => ErrorKind::Timeout,
            FetchError::Decode => ErrorKind::Decode,
            FetchError::Parse(_) => ErrorKind::Parse,
        }
    }

    /// What was being done when the error arose, in words. A driver puts this
    /// in front of the cause.
    pub fn context(&self) -> (text: &'static str)
        ensures
            text@ == self.spec_context(),
    {
        match self {
            FetchError::Url { with_params, .. } => if *with_params {
                "failed to parse url string with params"
            } else {
                "failed to parse url string"
            },
            FetchError::Transport => "failure while sending request",
            FetchError::Timeout => "request timed out",
            FetchError::Decode => "failure while decoding response to text",
            FetchError::Parse(_) => "failure while parsing response body",
        }
    }
}

/// What a fetch delivers.
#[derive(Debug)]
pub enum Payload {
    Text(String),
    Structured(Value),
}

/// The mathematical value of a `Payload`.
pub enum PayloadView {
    Text(Seq<char>),
    Structured(Value),
}

impl View for Payload {
    type V = PayloadView;

    open spec fn view(&self) -> PayloadView {
        match self {
            Payload::Text(text) => PayloadView::Text(text@),
            Payload::Structured(value) => PayloadView::Structured(*value),
        }
    }
}

/// What the driver is to do next.
#[derive(Debug)]
pub enum FetchAction {
    /// Wait until the client's limiter grants a token, then report `Admitted`.
    WaitForAdmission,
    /// Send a GET request to `url` with a deadline of `timeout_secs` seconds,
    /// then report `ResponseArrived` or `SendFailed`.
    Send { url: String, timeout_secs: u64 },
    /// Read the whole body as text, then report `BodyRead` or `BodyUnreadable`.
    ReadBody,
    /// Hand this to the caller: the fetch is over.
    Deliver(Payload),
    /// Hand this error to the caller: the fetch is over.
    Fail(FetchError),
}

/// The mathematical value of a `FetchAction`.
pub enum ActionView {
    WaitForAdmission,
    Send { url: Seq<char>, timeout_secs: u64 },
    ReadBody,
    Deliver(PayloadView),
    Fail(FetchError),
}

impl View for FetchAction {
    type V = ActionView;

    open spec fn view(&self) -> ActionView {
        match self {
            FetchAction::WaitForAdmission => ActionView::WaitForAdmission,
            FetchAction::Send { url, timeout_secs } => ActionView::Send {
                url: url@,
                timeout_secs: *timeout_secs,
            },
            FetchAction::ReadBody => ActionView::ReadBody,
            FetchAction::Deliver(payload) => ActionView::Deliver(payload@),
            FetchAction::Fail(error) => ActionView::Fail(*error),
        }
    }
}

impl ActionView {
    /// The action ends the fetch.
    pub open spec fn is_final(self) -> bool {
        self is Deliver || self is Fail
    }
}

/// What the driver reports after it has performed an action.
#[derive(Debug)]
pub enum FetchEvent {
    /// The limiter granted a token.
    Admitted,
    /// The response's head arrived before the deadline.
    ResponseArrived,
    /// The request failed: the deadline passed, or the connection failed.
    SendFailed { timed_out: bool },
    /// The body, read to its end and decoded.
    BodyRead(String),
    /// The body could not be read as text.
    BodyUnreadable,
}

/// The mathematical value of a `FetchEvent`.
pub enum EventView {
    Admitted,
    ResponseArrived,
    SendFailed { timed_out: bool },
    BodyRead(Seq<char>),
    BodyUnreadable,
}

impl View for FetchEvent {
    type V = EventView;

    open spec fn view(&self) -> EventView {
        match self {
            FetchEvent::Admitted => EventView::Admitted,
            FetchEvent::ResponseArrived => EventView::ResponseArrived,
            FetchEvent::SendFailed { timed_out } => EventView::SendFailed { timed_out: *timed_out },
            FetchEvent::BodyRead(text) => EventView::BodyRead(text@),
            FetchEvent::BodyUnreadable => EventView::BodyUnreadable,
        }
    }
}

/// Where a fetch stands.
#[derive(Debug)]
enum Stage {
    AwaitingAdmission { url: String, timeout_secs: u64 },
    AwaitingResponse,
    AwaitingBody,
    Finished,
}

/// The mathematical value of a stage.
pub enum StageView {
    /// The URL is assembled; no token is granted yet.
    AwaitingAdmission { url: Seq<char>, timeout_secs: u64 },
    /// The request is on its way.
    AwaitingResponse,
    /// The response's head is here; its body is being read.
    AwaitingBody,
    /// The fetch has delivered or failed.
    Finished,
}

impl StageView {
    /// How far along the line the stage is.
    pub open spec fn rank(self) -> nat {
        match self {
            StageView::AwaitingAdmission { .. } => 0,
            StageView::AwaitingResponse => 1,
            StageView::AwaitingBody => 2,
            StageView::Finished => 3,
        }
    }
}

/// One call in progress: its stage, and the shape its caller asked for.
#[derive(Debug)]
pub struct Fetch {
    stage: Stage,
    format: ResponseFormat,
}

/// The mathematical value of a `Fetch`.
pub struct FetchView {
    pub stage: StageView,
    pub format: ResponseFormat,
}

impl View for Fetch {
    type V = FetchView;

    closed spec fn view(&self) -> FetchView {
        FetchView {
            stage: match self.stage {
                Stage::AwaitingAdmission { url, timeout_secs } => StageView::AwaitingAdmission {
                    url: url@,
                    timeout_secs,
                },
                Stage::AwaitingResponse => StageView::AwaitingResponse,
                Stage::AwaitingBody => StageView::AwaitingBody,
                Stage::Finished => StageView::Finished,
            },
            format: self.format,
        }
    }
}

/// The action that ends a fetch whose body parsed, or did not, as structured
/// data.
pub open spec fn structured_outcome(parsed: Result<Value, serde_json::Error>) -> ActionView {
    match parsed {
        Ok(value) => ActionView::Deliver(PayloadView::Structured(value)),
        Err(cause) => ActionView::Fail(FetchError::Parse(cause)),
    }
}

/// The action that ends a fetch whose body was read as `text`: the text as
/// it is, or what parsing it gives.
pub open spec fn concluded(format: ResponseFormat, text: Seq<char>) -> ActionView {
    match format {
        ResponseFormat::RawText => ActionView::Deliver(PayloadView::Text(text)),
        ResponseFormat::Structured => structured_outcome(parsed_json(text)),
    }
}

/// How a fetch starts, once the URL is assembled or has failed to: a
/// malformed URL ends it on the spot; otherwise it waits for a token where
/// requests are paced, and sends at once where they are not.
pub open spec fn begun(
    config: ConfigView,
    assembled: Result<Seq<char>, ParseError>,
    with_params: bool,
    format: ResponseFormat,
) -> (FetchView, ActionView) {
    match assembled {
        Err(cause) => (
            FetchView { stage: StageView::Finished, format },
            ActionView::Fail(FetchError::Url { cause, with_params }),
        ),
        Ok(url) => {
            let timeout_secs = config.request_timeout as u64;
            if config.is_paced() {
                (
                    FetchView { stage: StageView::AwaitingAdmission { url, timeout_secs }, format },
                    ActionView::WaitForAdmission,
                )
            } else {
                (
                    FetchView { stage: StageView::AwaitingResponse, format },
                    ActionView::Send { url, timeout_secs },
                )
            }
        },
    }
}

/// How a fetch goes on: the stage and the action that follow `event`, or
/// `None` where `event` is not what the stage waits for.
pub open spec fn stepped(fetch: FetchView, event: EventView) -> Option<(FetchView, ActionView)> {
    let format = fetch.format;
    match (fetch.stage, event) {
        (StageView::AwaitingAdmission { url, timeout_secs }, EventView::Admitted) => Some(
            (
                FetchView { stage: StageView::AwaitingResponse, format },
                ActionView::Send { url, timeout_secs },
            ),
        ),
        (StageView::AwaitingResponse, EventView::ResponseArrived) => Some(
            (FetchView { stage: StageView::AwaitingBody, format }, ActionView::ReadBody),
        ),
        (StageView::AwaitingResponse, EventView::SendFailed { timed_out }) => Some(
            (
                FetchView { stage: StageView::Finished, format },
                ActionView::Fail(
                    if timed_out {
                        FetchError::Timeout
                    } else {
                        FetchError::Transport
                    },
                ),
            ),
        ),
        (StageView::AwaitingBody, EventView::BodyRead(text)) => Some(
            (FetchView { stage: StageView::Finished, format }, concluded(format, text)),
        ),
        (StageView::AwaitingBody, EventView::BodyUnreadable) => Some(
            (FetchView { stage: StageView::Finished, format }, ActionView::Fail(FetchError::Decode)),
        ),
        _ => None,
    }
}

/// Ends a fetch for structured data with what parsing the body gave.
pub fn conclude_structured(parsed: Result<Value, serde_json::Error>) -> (action: FetchAction)
    ensures
        action@ == structured_outcome(parsed),
{
    match parsed {
        Ok(value) => FetchAction::Deliver(Payload::Structured(value)),
        Err(cause) => FetchAction::Fail(FetchError::Parse(cause)),
    }
}

/// Ends a fetch whose body was read as `text`.
pub fn conclude(format: ResponseFormat, text: String) -> (action: FetchAction)
    ensures
        action@ == concluded(format, text@),
{
    match format {
        ResponseFormat::RawText => FetchAction::Deliver(Payload::Text(text)),
        ResponseFormat::Structured => conclude_structured(parse_json(text.as_str())),
    }
}

impl Fetch {
    /// Starts a fetch with the outcome of URL assembly: `assembled` is the
    /// URL as text, or the reason for which there is none.
    pub fn begin(
        config: &ClientConfig,
        assembled: Result<String, ParseError>,
        with_params: bool,
        format: ResponseFormat,
    ) -> (r: (Fetch, FetchAction))
        ensures
            (r.0@, r.1@) == begun(
                config@,
                match assembled {
                    Ok(url) => Ok(url@),
                    Err(cause) => Err(cause),
                },
                with_params,
                format,
            ),
    {
        match assembled {
            Err(cause) => (
                Fetch { stage: Stage::Finished, format },
                FetchAction::Fail(FetchError::Url { cause, with_params }),
            ),
            Ok(url) => {
                let timeout_secs = config.request_timeout as u64;
                if config.is_paced() {
                    (
                        Fetch { stage: Stage::AwaitingAdmission { url, timeout_secs }, format },
                        FetchAction::WaitForAdmission,
                    )
                } else {
                    (
                        Fetch { stage: Stage::AwaitingResponse, format },
                        FetchAction::Send { url, timeout_secs },
                    )
                }
            },
        }
    }

    /// Whether the fetch has delivered or failed.
    pub fn is_finished(&self) -> (r: bool)
        ensures
            r == (self@.stage is Finished),
    {
        match self.stage {
            Stage::Finished => true,
            _ => false,
        }
    }

    /// Takes the fetch one stage on. Gives the next action, or `None` where
    /// `event` is not what the fetch waits for; the fetch then stays as it is.
    pub fn step(&mut self, event: FetchEvent) -> (r: Option<FetchAction>)
        ensures
            match r {
                Some(action) => stepped(old(self)@, event@) == Some((final(self)@, action@)),
                None => stepped(old(self)@, event@) is None && final(self)@ == old(self)@,
            },
    {
        let format = self.format;
        let next: Option<(Stage, FetchAction)> = match (&self.stage, event) {
            (Stage::AwaitingAdmission { url, timeout_secs }, FetchEvent::Admitted) => Some(
                (
                    Stage::AwaitingResponse,
                    FetchAction::Send { url: url.clone(), timeout_secs: *timeout_secs },
                ),
            ),
            (Stage::AwaitingResponse, FetchEvent::ResponseArrived) => Some(
                (Stage::AwaitingBody, FetchAction::ReadBody),
            ),
            (Stage::AwaitingResponse, FetchEvent::SendFailed { timed_out }) => Some(
                (
                    Stage::Finished,
                    FetchAction::Fail(
                        if timed_out {
                            FetchError::Timeout
                        } else {
                            FetchError::Transport
                        },
                    ),
                ),
            ),
            (Stage::AwaitingBody, FetchEvent::BodyRead(text)) => Some(
                (Stage::Finished, conclude(format, text)),
            ),
            (Stage::AwaitingBody, FetchEvent::BodyUnreadable) => Some(
                (Stage::Finished, FetchAction::Fail(FetchError::Decode)),
            ),
            _ => None,
        };
        match next {
            Some((stage, action)) => {
                self.stage = stage;
                Some(action)
            },
            None => None,
        }
    }
}

/// Where the rate limit is zero nothing is paced: a fetch sends at once.
/// And whatever the rate limit, a fetch waits for a token at its beginning or
/// not at all: no event leads back to waiting.
pub proof fn lemma_unpaced_fetch_never_waits(
    config: ConfigView,
    assembled: Result<Seq<char>, ParseError>,
    with_params: bool,
    format: ResponseFormat,
)
    requires
        config.rate_limit == 0,
    ensures
        !(begun(config, assembled, with_params, format).1 is WaitForAdmission),
        !(begun(config, assembled, with_params, format).0.stage is AwaitingAdmission),
        assembled matches Ok(url) ==> begun(config, assembled, with_params, format).1 == (
        ActionView::Send { url, timeout_secs: config.request_timeout as u64 }),
        forall|fetch: FetchView, event: EventView|
            #[trigger] stepped(fetch, event) matches Some(next) ==> !(next.0.stage
                is AwaitingAdmission) && !(next.1 is WaitForAdmission),
{
}

/// Where requests are paced, a fetch with a URL first waits for a token, and
/// the request is sent only once the token is granted: admission comes
/// before dispatch, and each dispatch has had its own token. Waiting cannot
/// fail: the one event that a waiting fetch takes is the grant.
pub proof fn lemma_paced_fetch_sends_after_admission(
    config: ConfigView,
    url: Seq<char>,
    with_params: bool,
    format: ResponseFormat,
)
    requires
        config.is_paced(),
    ensures
        begun(config, Ok(url), with_params, format) == (
            FetchView {
                stage: StageView::AwaitingAdmission {
                    url,
                    timeout_secs: config.request_timeout as u64,
                },
                format,
            },
            ActionView::WaitForAdmission,
        ),
        stepped(begun(config, Ok(url), with_params, format).0, EventView::Admitted) == Some(
            (
                FetchView { stage: StageView::AwaitingResponse, format },
                ActionView::Send { url, timeout_secs: config.request_timeout as u64 },
            ),
        ),
        forall|fetch: FetchView, event: EventView|
            (#[trigger] stepped(fetch, event) matches Some(next) && next.1 is Send) ==> fetch.stage
                is AwaitingAdmission && event is Admitted,
        forall|fetch: FetchView, event: EventView|
            fetch.stage is AwaitingAdmission ==> (#[trigger] stepped(fetch, event) is Some
                <==> event is Admitted),
{
}

/// A URL that cannot be assembled ends the fetch before anything else
/// happens: no token is asked for and nothing is sent.
pub proof fn lemma_malformed_url_ends_the_fetch(
    config: ConfigView,
    cause: ParseError,
    with_params: bool,
    format: ResponseFormat,
)
    ensures
        begun(config, Err(cause), with_params, format) == (
            FetchView { stage: StageView::Finished, format },
            ActionView::Fail(FetchError::Url { cause, with_params }),
        ),
{
}

/// A fetch is a line: every event that it takes moves it at least one stage
/// on, so that nothing is tried twice and three events end it; it keeps its
/// format; and the action is final exactly where the fetch is finished.
pub proof fn lemma_fetch_moves_forward(fetch: FetchView, event: EventView)
    ensures
        stepped(fetch, event) matches Some(next) ==> {
            &&& next.0.stage.rank() > fetch.stage.rank()
            &&& next.0.format == fetch.format
            &&& next.1.is_final() <==> next.0.stage is Finished
        },
{
}

/// A finished fetch takes no event: a failure, like a delivery, is final.
pub proof fn lemma_finished_fetch_takes_no_event(fetch: FetchView, event: EventView)
    requires
        fetch.stage is Finished,
    ensures
        stepped(fetch, event) is None,
{
}

/// Each failure names the stage at which it arose, and the stages do not
/// overlap: a failed send is a timeout or a transport error as the driver
/// reports, a body that cannot be read is a decode error, and a parse error
/// comes only from a body that was read and asked for as structured data.
pub proof fn lemma_failures_name_their_stage(fetch: FetchView, event: EventView)
    ensures
        stepped(fetch, event) matches Some(next) ==> (next.1 matches ActionView::Fail(error) ==> {
            &&& error.spec_kind() != ErrorKind::Url
            &&& error.spec_kind() == ErrorKind::Timeout <==> fetch.stage is AwaitingResponse
                && event == (EventView::SendFailed { timed_out: true })
            &&& error.spec_kind() == ErrorKind::Transport <==> fetch.stage is AwaitingResponse
                && event == (EventView::SendFailed { timed_out: false })
            &&& error.spec_kind() == ErrorKind::Decode <==> fetch.stage is AwaitingBody && event
                is BodyUnreadable
            &&& error.spec_kind() == ErrorKind::Parse <==> fetch.stage is AwaitingBody
                && fetch.format == ResponseFormat::Structured && (event matches EventView::BodyRead(
                text,
            ) && parsed_json(text) is Err)
        }),
{
}

/// A body that is read is delivered as it is where text was asked for, and
/// where structured data was asked for it is delivered exactly if it parses;
/// a body that does not parse fails the fetch with the parser's reason.
pub proof fn lemma_body_is_delivered_or_fails_to_parse(format: ResponseFormat, text: Seq<char>)
    ensures
        format == ResponseFormat::RawText ==> concluded(format, text) == ActionView::Deliver(
            PayloadView::Text(text),
        ),
        format == ResponseFormat::Structured ==> match parsed_json(text) {
            Ok(value) => concluded(format, text) == ActionView::Deliver(
                PayloadView::Structured(value),
            ),
            Err(cause) => concluded(format, text) == ActionView::Fail(FetchError::Parse(cause)),
        },
        stepped(
            FetchView { stage: StageView::AwaitingBody, format },
            EventView::BodyRead(text),
        ) == Some((FetchView { stage: StageView::Finished, format }, concluded(format, text))),
{
}

} // verus!
