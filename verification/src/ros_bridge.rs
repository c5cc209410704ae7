//! Starting and stopping the program on the robot over the ROS bridge.
//!
//! The bridge is a web socket that takes one JSON message and answers with
//! one. This module writes the messages and reads the answers; the socket
//! itself is a `RosLink` that the application brings.
use vstd::prelude::*;
use vstd::string::*;
use crate::iva::json_quoted;
use crate::iva::quote;
use crate::logger::Logable;
use crate::logger::LogLevel;
use crate::logger::Logger;

verus! {

#[verifier::external_type_specification]
#[verifier::external_body]
pub struct ExWebSocketError(websocket::WebSocketError);

/// What the runtime on the robot is doing.
#[derive(Debug, Clone, Copy, PartialEq, Eq, Structural)]
pub enum RuntimeState {
    Stop,
    Running,
    Pause,
    Disabled,
}

/// What can go wrong on the ROS bridge.
#[derive(Debug)]
pub enum RosBridgeError {
    /// The web socket failed.
    WebSocketError(websocket::WebSocketError),
    /// The bridge answered, but not with what was asked for.
    UnexpectedValue,
}

/// One request that was made over a link: where it went, what was sent, and
/// how it ended.
pub struct Request {
    pub url: Seq<char>,
    pub json: Seq<char>,
    pub reply: Result<String, RosBridgeError>,
}

/// One request over the ROS bridge: connect to `url`, send `json`, and wait
/// for the first message that is an answer.
///
/// A link that keeps its requests says in `requests` what was asked of it;
/// whatever is stated of a bridge's requests is stated of such links.
pub trait RosLink {
    /// Whether this kind of link keeps its requests.
    open spec fn kept() -> bool {
        false
    }

    /// The requests made over this link, oldest first.
    open spec fn requests(&self) -> Seq<Request> {
        Seq::empty()
    }

    /// Sends `json` to the bridge at `url` and returns its answer.
    fn request(&mut self, url: &str, json: &str) -> (r: Result<String, RosBridgeError>)
        ensures
            Self::kept() ==> final(self).requests() == old(self).requests().push(
                Request { url: url@, json: json@, reply: r },
            ),
    ;
}

/// A link in memory: it answers from a list, one answer for each request,
/// and keeps where each request went and what it sent. Once the list is
/// used up a request fails with `UnexpectedValue`. It stands for a bridge
/// where none is at hand.
pub struct ScriptedLink {
    /// The answers, in the order in which they are given.
    pub replies: Vec<String>,
    /// How many of the answers are given.
    pub next: usize,
    /// The address and the message of each request, oldest first.
    pub asked: Vec<(String, String)>,
    /// The requests made, oldest first.
    pub requests: Ghost<Seq<Request>>,
}

/// Whether `asked` holds the address and the message of each of `requests`,
/// in their order.
pub open spec fn asked_of(asked: Seq<(String, String)>, requests: Seq<Request>) -> bool {
    &&& asked.len() == requests.len()
    &&& forall|i: int|
        0 <= i < asked.len() ==> (#[trigger] asked[i]).0@ == requests[i].url && asked[i].1@
            == requests[i].json
}

impl ScriptedLink {
    /// A link that will give `replies`, one after the other.
    pub fn new(replies: Vec<String>) -> (r: ScriptedLink)
        ensures
            r.replies == replies,
            r.next == 0,
            r.asked@ == Seq::<(String, String)>::empty(),
            r.requests@ == Seq::<Request>::empty(),
    {
        ScriptedLink { replies, next: 0, asked: Vec::new(), requests: Ghost(Seq::empty()) }
    }
}

impl RosLink for ScriptedLink {
    open spec fn kept() -> bool {
        true
    }

    open spec fn requests(&self) -> Seq<Request> {
        self.requests@
    }

    /// Keeps the request and gives the next answer of the list;
    /// `UnexpectedValue` once the list is used up.
    fn request(&mut self, url: &str, json: &str) -> (r: Result<String, RosBridgeError>)
        ensures
            final(self).replies == old(self).replies,
            asked_of(old(self).asked@, old(self).requests@) ==> asked_of(
                final(self).asked@,
                final(self).requests@,
            ),
            old(self).next < old(self).replies@.len() ==> {
                &&& r matches Ok(text)
                &&& text@ == old(self).replies@[old(self).next as int]@
                &&& final(self).next == old(self).next + 1
            },
            old(self).next >= old(self).replies@.len() ==> {
                &&& r matches Err(e)
                &&& e is UnexpectedValue
                &&& final(self).next == old(self).next
            },
    {
        self.asked.push((String::from_str(url), String::from_str(json)));
        let r = if self.next < self.replies.len() {
            let text = self.replies[self.next].clone();
            self.next = self.next + 1;
            Ok(text)
        } else {
            Err(RosBridgeError::UnexpectedValue)
        };
        self.requests = Ghost(self.requests@.push(Request { url: url@, json: json@, reply: r }));
        r
    }
}

/// What comes over the web socket of the bridge.
#[derive(Debug)]
pub enum Incoming {
    /// A message of text.
    Text(String),
    /// Any other message: bytes, a ping, a pong, a close.
    Other,
}

/// Whether the text is JSON.
pub uninterp spec fn json_reads(text: Seq<char>) -> bool;

/// [`serde_json::from_str`] to a [`serde_json::Value`]: whether it gives a
/// value. That depends on the text alone.
#[verifier::external_body]
fn json_check(text: &str) -> (b: bool)
    ensures
        b == json_reads(text@),
{
    serde_json::from_str::<serde_json::Value>(text).is_ok()
}

/// The answer that `message` is: its text, if it is a text that is JSON.
pub open spec fn answer_of(message: Incoming) -> Option<String> {
    match message {
        Incoming::Text(text) => if json_reads(text@) {
            Some(text)
        } else {
            None
        },
        Incoming::Other => None,
    }
}

/// The truth value that the JSON text `text` holds under `inner` in the
/// object under `outer`; `None` where `text` is no JSON or holds no truth
/// value there.
pub uninterp spec fn json_member_bool(
    text: Seq<char>,
    outer: Seq<char>,
    inner: Seq<char>,
) -> Option<bool>;

/// The integer that the JSON text `text` holds under `inner` in the object
/// under `outer`; `None` where `text` is no JSON or holds no integer of the
/// 64-bit range there.
pub uninterp spec fn json_member_int(
    text: Seq<char>,
    outer: Seq<char>,
    inner: Seq<char>,
) -> Option<i64>;

/// [`serde_json::from_str`] to a [`serde_json::Value`], then the member
/// `inner` of the member `outer` by the value's index operator, read by
/// [`serde_json::Value::as_bool`]. The result depends on the three texts
/// alone.
#[verifier::external_body]
fn json_bool_at(text: &str, outer: &str, inner: &str) -> (r: Option<bool>)
    ensures
        r == json_member_bool(text@, outer@, inner@),
{
    match serde_json::from_str::<serde_json::Value>(text) {
        Ok(v) => v[outer][inner].as_bool(),
        Err(_) => None,
    }
}

/// [`serde_json::from_str`] to a [`serde_json::Value`], then the member
/// `inner` of the member `outer` by the value's index operator, read by
/// [`serde_json::Value::as_i64`]. The result depends on the three texts
/// alone.
#[verifier::external_body]
fn json_int_at(text: &str, outer: &str, inner: &str) -> (r: Option<i64>)
    ensures
        r == json_member_int(text@, outer@, inner@),
{
    match serde_json::from_str::<serde_json::Value>(text) {
        Ok(v) => v[outer][inner].as_i64(),
        Err(_) => None,
    }
}

/// What the answer to a service call means, given the truth value that it
/// holds under `values`, `success`: success only if that is `true`.
pub open spec fn called(success: Option<bool>) -> bool {
    success == Some(true)
}

/// Tells whether a service call succeeded, from the truth value that its
/// answer holds under `values`, `success`.
pub fn call_outcome(success: Option<bool>) -> (r: Result<(), RosBridgeError>)
    ensures
        r == if called(success) {
            Ok::<(), RosBridgeError>(())
        } else {
            Err::<(), RosBridgeError>(RosBridgeError::UnexpectedValue)
        },
{
    match success {
        Some(true) => Ok(()),
        _ => Err(RosBridgeError::UnexpectedValue),
    }
}

/// The state that the number `state` stands for; `None` where it stands for
/// none.
pub open spec fn state_of(state: Option<i64>) -> Option<RuntimeState> {
    match state {
        Some(n) => if n == 0 {
            Some(RuntimeState::Stop)
        } else if n == 1 {
            Some(RuntimeState::Running)
        } else if n == 2 {
            Some(RuntimeState::Pause)
        } else if n == 3 {
            Some(RuntimeState::Disabled)
        } else {
            None
        },
        None => None,
    }
}

/// The state of the runtime, from the number that the bridge gave for it.
pub fn state_outcome(state: Option<i64>) -> (r: Result<RuntimeState, RosBridgeError>)
    ensures
        match r {
            Ok(s) => state_of(state) == Some(s),
            Err(e) => state_of(state) is None && e is UnexpectedValue,
        },
{
    match state {
        Some(0) => Ok(RuntimeState::Stop),
        Some(1) => Ok(RuntimeState::Running),
        Some(2) => Ok(RuntimeState::Pause),
        Some(3) => Ok(RuntimeState::Disabled),
        _ => Err(RosBridgeError::UnexpectedValue),
    }
}

/// What stands before the name in the message that starts a procedure.
pub const START_HEAD: &'static str = "{\"args\":{\"procedure_name\":";

/// What stands after the name in the message that starts a procedure.
pub const START_TAIL: &'static str = "},\"id\":\"call_service:/sequence/start\",\
    \"op\":\"call_service\",\"service\":\"/sequence/start\",\"type\":\"sequencer/RunSequence\"}";

/// The message that stops the runtime.
pub const STOP: &'static str = "{\"args\":{},\"id\":\"call_service:/sequence/stop\",\
    \"op\":\"call_service\",\"service\":\"/sequence/stop\",\"type\":\"std_srvs/Trigger\"}";

/// The message that asks for the state of the runtime.
pub const RUNTIME: &'static str = "{\"op\":\"subscribe\",\"topic\":\"/sequence/runtime_state\",\
    \"type\":\"commander_msgs/RuntimeState\"}";

/// The message that starts the procedure with the JSON string literal
/// `quoted` as its name.
pub open spec fn start_text(quoted: Seq<char>) -> Seq<char> {
    START_HEAD@ + quoted + START_TAIL@
}

/// The address of the bridge on `host`.
pub open spec fn url_text(host: Seq<char>) -> Seq<char> {
    "ws://"@ + host + ":9090/"@
}

/// What the answer `reply` to a service call means: success if it holds
/// `true` under `values`, `success`; `UnexpectedValue` if it does not; the
/// error of a failed request.
pub open spec fn call_spec(reply: Result<String, RosBridgeError>) -> Result<(), RosBridgeError> {
    match reply {
        Ok(text) => if called(json_member_bool(text@, "values"@, "success"@)) {
            Ok(())
        } else {
            Err(RosBridgeError::UnexpectedValue)
        },
        Err(e) => Err(e),
    }
}

/// What the answer `reply` to the question for the state means: the state
/// whose number it holds under `msg`, `state`; `UnexpectedValue` if it holds
/// none; the error of a failed request.
pub open spec fn state_spec(reply: Result<String, RosBridgeError>) -> Result<
    RuntimeState,
    RosBridgeError,
> {
    match reply {
        Ok(text) => match state_of(json_member_int(text@, "msg"@, "state"@)) {
            Some(state) => Ok(state),
            None => Err(RosBridgeError::UnexpectedValue),
        },
        Err(e) => Err(e),
    }
}

/// Whether the link went from `before` to `after` by one request, which
/// sent `json` to `url`.
pub open spec fn asked_once<L: RosLink>(
    before: &L,
    after: &L,
    url: Seq<char>,
    json: Seq<char>,
) -> bool {
    L::kept() ==> {
        &&& after.requests().len() == before.requests().len() + 1
        &&& after.requests().drop_last() == before.requests()
        &&& after.requests().last().url == url
        &&& after.requests().last().json == json
    }
}

/// Whether `after` is `before` followed by the requests of running a
/// procedure, with `r` what comes of it. The first request sends `start`; if
/// the call succeeds that is all. If not, the second sends the message that
/// stops the runtime, and its error is what comes of the run if it fails.
/// If it succeeds, the third sends `start` again, and what comes of the run
/// is what comes of that call.
pub open spec fn ran_procedure(
    before: Seq<Request>,
    after: Seq<Request>,
    url: Seq<char>,
    start: Seq<char>,
    r: Result<(), RosBridgeError>,
) -> bool {
    let n = before.len() as int;
    &&& n < after.len() <= n + 3
    &&& after.take(n) == before
    &&& forall|i: int| n <= i < after.len() ==> (#[trigger] after[i]).url == url
    &&& after[n].json == start
    &&& if call_spec(after[n].reply) is Ok {
        after.len() == n + 1 && r == call_spec(after[n].reply)
    } else {
        &&& after.len() >= n + 2
        &&& after[n + 1].json == STOP@
        &&& if call_spec(after[n + 1].reply) is Err {
            after.len() == n + 2 && r == call_spec(after[n + 1].reply)
        } else {
            &&& after.len() == n + 3
            &&& after[n + 2].json == start
            &&& r == call_spec(after[n + 2].reply)
        }
    }
}

/// The ROS bridge of one robot.
pub struct RosBridge {
    /// The name or address of the robot.
    pub host: String,
    /// The logger of the bridge.
    pub logger: Logger,
    /// How long to wait between two looks at the runtime, in thousandths of
    /// a second.
    pub interval_ms: u64,
}

impl RosBridge {
    /// The bridge of the robot `host`, with the logger of a bridge: a
    /// console target that listens at `Info` and a rolling file target that
    /// listens at `Debug`.
    pub fn new(host: &str, interval_ms: u64) -> (r: RosBridge)
        ensures
            r.host@ == host@,
            r.interval_ms == interval_ms,
            r.logger.targets@.len() == 2,
            r.logger.targets@[0].0.levelled() && r.logger.targets@[0].0.level() == LogLevel::Info,
            r.logger.targets@[1].0.levelled() && r.logger.targets@[1].0.level() == LogLevel::Debug,
    {
        let mut name = String::from_str("ros ");
        name.append(host);
        RosBridge {
            host: String::from_str(host),
            logger: Logger::default_target(name.as_str()),
            interval_ms,
        }
    }

    /// Tells whether `message` is the answer that a request waits for, and
    /// gives its text if it is: one who waits reads on until this gives a
    /// text.
    pub fn answer_in(message: Incoming) -> (r: Option<String>)
        ensures
            r == answer_of(message),
    {
        match message {
            Incoming::Text(text) => if json_check(text.as_str()) {
                Some(text)
            } else {
                None
            },
            Incoming::Other => None,
        }
    }

    /// The address of the bridge.
    pub fn url(&self) -> (s: String)
        ensures
            s@ == url_text(self.host@),
    {
        let mut s = String::from_str("ws://");
        s.append(self.host.as_str());
        s.append(":9090/");
        s
    }

    /// The message that stops the runtime.
    pub fn stop_json() -> (s: String)
        ensures
            s@ == STOP@,
    {
        String::from_str(STOP)
    }

    /// The message that starts the procedure `procedure_name`.
    pub fn start_json(procedure_name: &str) -> (s: String)
        ensures
            s@ == start_text(json_quoted(procedure_name@)),
    {
        let quoted = quote(procedure_name);
        let mut s = String::from_str(START_HEAD);
        s.append(quoted.as_str());
        s.append(START_TAIL);
        s
    }

    /// The message that asks for the state of the runtime.
    pub fn runtime_json() -> (s: String)
        ensures
            s@ == RUNTIME@,
    {
        String::from_str(RUNTIME)
    }

    /// Tells what the answer `reply` to a service call means.
    pub fn call_result(reply: Result<String, RosBridgeError>) -> (r: Result<(), RosBridgeError>)
        ensures
            r == call_spec(reply),
    {
        match reply {
            Ok(text) => call_outcome(json_bool_at(text.as_str(), "values", "success")),
            Err(e) => Err(e),
        }
    }

    /// Tells what the answer `reply` to the question for the state means.
    pub fn state_result(reply: Result<String, RosBridgeError>) -> (r: Result<
        RuntimeState,
        RosBridgeError,
    >)
        ensures
            r == state_spec(reply),
    {
        match reply {
            Ok(text) => state_outcome(json_int_at(text.as_str(), "msg", "state")),
            Err(e) => Err(e),
        }
    }

    /// Sends `json` over `link` as a service call and tells whether the call
    /// succeeded.
    pub fn call_service<L: RosLink>(&mut self, link: &mut L, json: &str) -> (r: Result<
        (),
        RosBridgeError,
    >)
        ensures
            *final(self) == *old(self),
            asked_once(old(link), final(link), url_text(old(self).host@), json@),
            L::kept() ==> r == call_spec(final(link).requests().last().reply),
    {
        let url = self.url();
        let reply = link.request(url.as_str(), json);
        assert(L::kept() ==> link.requests().drop_last() =~= old(link).requests());
        RosBridge::call_result(reply)
    }

    /// Starts the procedure `procedure_name`: one service call. Fails if the
    /// runtime is not stopped.
    pub fn start_sequence<L: RosLink>(&mut self, link: &mut L, procedure_name: &str) -> (r: Result<
        (),
        RosBridgeError,
    >)
        ensures
            *final(self) == *old(self),
            asked_once(
                old(link),
                final(link),
                url_text(old(self).host@),
                start_text(json_quoted(procedure_name@)),
            ),
            L::kept() ==> r == call_spec(final(link).requests().last().reply),
    {
        let json = RosBridge::start_json(procedure_name);
        self.call_service(link, json.as_str())
    }

    /// Stops the runtime: one service call.
    pub fn stop_sequence<L: RosLink>(&mut self, link: &mut L) -> (r: Result<(), RosBridgeError>)
        ensures
            *final(self) == *old(self),
            asked_once(old(link), final(link), url_text(old(self).host@), STOP@),
            L::kept() ==> r == call_spec(final(link).requests().last().reply),
    {
        let json = RosBridge::stop_json();
        self.call_service(link, json.as_str())
    }

    /// Starts the procedure `procedure_name`; if that fails, stops the
    /// runtime and starts the procedure again.
    pub fn run_sequence<L: RosLink>(&mut self, link: &mut L, procedure_name: &str) -> (r: Result<
        (),
        RosBridgeError,
    >)
        ensures
            *final(self) == *old(self),
            L::kept() ==> ran_procedure(
                old(link).requests(),
                final(link).requests(),
                url_text(old(self).host@),
                start_text(json_quoted(procedure_name@)),
                r,
            ),
    {
        let ghost before = link.requests();
        let json = RosBridge::start_json(procedure_name);
        let first = self.call_service(link, json.as_str());
        match first {
            Ok(done) => Ok(done),
            Err(_) => {
                let stopped = self.stop_sequence(link);
                proof {
                    let two = link.requests();
                    assert(L::kept() ==> two.take(before.len() as int) =~= before);
                }
                match stopped {
                    Err(e) => Err(e),
                    Ok(_) => {
                        let again = self.call_service(link, json.as_str());
                        proof {
                            let three = link.requests();
                            assert(L::kept() ==> three.take(before.len() as int) =~= before);
                        }
                        again
                    },
                }
            },
        }
    }

    /// Asks for the state of the runtime: one request.
    pub fn get_runtime_state<L: RosLink>(&mut self, link: &mut L) -> (r: Result<
        RuntimeState,
        RosBridgeError,
    >)
        ensures
            *final(self) == *old(self),
            asked_once(old(link), final(link), url_text(old(self).host@), RUNTIME@),
            L::kept() ==> r == state_spec(final(link).requests().last().reply),
    {
        let url = self.url();
        let json = RosBridge::runtime_json();
        let reply = link.request(url.as_str(), json.as_str());
        assert(L::kept() ==> link.requests().drop_last() =~= old(link).requests());
        RosBridge::state_result(reply)
    }

    /// Whether one who waits for the runtime to stop waits on after it was
    /// seen in `state`.
    pub fn waits_on(state: RuntimeState) -> (b: bool)
        ensures
            b == (state != RuntimeState::Stop),
    {
        match state {
            RuntimeState::Stop => false,
            _ => true,
        }
    }
}

impl Logable for RosBridge {
    open spec fn logs_with(&self, logger: Logger) -> bool {
        logger == self.logger
    }

    fn get_logger(&mut self) -> (l: &mut Logger)
        ensures
            final(self).host == old(self).host,
            final(self).interval_ms == old(self).interval_ms,
    {
        &mut self.logger
    }
}

} // verus!
