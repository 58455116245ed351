use vstd::prelude::*;
use crate::headers::{select_headers, sendable_header};
use crate::models::FetchResult;
use crate::rest::{body_of, request_body};

verus! {

/// What a binary frame is recorded as.
pub open spec fn binary_placeholder() -> Seq<char> {
    seq!['[', 'B', 'i', 'n', 'a', 'r', 'y', ' ', 'D', 'a', 't', 'a', ']']
}

/// What stands between two collected messages in a response body.
pub open spec fn message_separator() -> Seq<char> {
    seq!['\n', '-', '-', '-', '\n']
}

/// The messages `msgs` joined by `sep`; empty when there are none.
pub open spec fn joined(msgs: Seq<Seq<char>>, sep: Seq<char>) -> Seq<char>
    decreases msgs.len(),
{
    if msgs.len() == 0 {
        Seq::empty()
    } else if msgs.len() == 1 {
        msgs[0]
    } else {
        joined(msgs.drop_last(), sep) + sep + msgs.last()
    }
}

/// The WebSocket dispatcher's configuration: how long to listen after connecting.
#[derive(Clone, Debug)]
pub struct WsJobs {
    timeout_secs: u64,
}

impl WsJobs {
    pub closed spec fn timeout(&self) -> u64 {
        self.timeout_secs
    }

    /// A dispatcher that listens `timeout` seconds.
    pub fn new(timeout: u64) -> (r: WsJobs)
        ensures
            r.timeout() == timeout,
    {
        WsJobs { timeout_secs: timeout }
    }

    /// Seconds to listen for messages.
    pub fn timeout_secs(&self) -> (r: u64)
        ensures
            r == self.timeout(),
    {
        self.timeout_secs
    }
}

/// The one text frame to send before listening: the payload when present and non-empty.
/// `None` means listening starts at once and nothing is ever sent.
pub fn outbound_frame(payload: &Option<String>) -> (r: Option<String>)
    ensures
        r == body_of(*payload),
        r matches Some(f) ==> f@.len() > 0,
        payload is None ==> r is None,
{
    request_body(payload)
}

/// Headers for the handshake: the same ones a REST call would carry.
pub fn handshake_headers(headers: &Vec<(String, String)>) -> (r: Vec<(String, String)>)
    ensures
        r@ == headers@.filter(sendable_header()),
{
    select_headers(headers)
}

/// What happened while listening.
#[derive(Debug)]
pub enum WsEvent {
    Text(String),
    Binary,
    Other,
    Error(String),
    Closed,
    TimedOut,
}

/// What to do after an event.
#[derive(Debug, PartialEq, Eq)]
pub enum WsStep {
    Continue,
    Finished,
    Failed(String),
}

/// Messages collected from a WebSocket session.
pub struct WsCollector {
    messages: Vec<String>,
}

impl WsCollector {
    pub closed spec fn messages(&self) -> Seq<Seq<char>> {
        self.messages@.map_values(|m: String| m@)
    }

    /// A collector with no message.
    pub fn new() -> (r: WsCollector)
        ensures
            r.messages() == Seq::<Seq<char>>::empty(),
    {
        WsCollector { messages: Vec::new() }
    }

    /// Takes in one event. Text frames are kept verbatim, binary frames as a placeholder,
    /// other frames ignored; an error fails the dispatch; a close or the timeout ends
    /// collection without error.
    pub fn on_event(&mut self, event: WsEvent) -> (r: WsStep)
        ensures
            match event {
                WsEvent::Text(t) => r == WsStep::Continue && final(self).messages() == old(self).messages().push(t@),
                WsEvent::Binary => r == WsStep::Continue && final(self).messages() == old(self).messages().push(binary_placeholder()),
                WsEvent::Other => r == WsStep::Continue && final(self).messages() == old(self).messages(),
                WsEvent::Error(e) => r == WsStep::Failed(e) && final(self).messages() == old(self).messages(),
                WsEvent::Closed => r == WsStep::Finished && final(self).messages() == old(self).messages(),
                WsEvent::TimedOut => r == WsStep::Finished && final(self).messages() == old(self).messages(),
            },
    {
        match event {
            WsEvent::Text(t) => {
                self.messages.push(t);
                assert(self.messages@.map_values(|m: String| m@) =~= old(self).messages@.map_values(
                    |m: String| m@,
                ).push(t@));
                WsStep::Continue
            },
            WsEvent::Binary => {
                let placeholder = "[Binary Data]".to_string();
                proof {
                    broadcast use vstd::string::to_string_from_display_ensures_for_str;

                    reveal_strlit("[Binary Data]");
                    assert("[Binary Data]"@ =~= binary_placeholder());
                }
                self.messages.push(placeholder);
                assert(self.messages@.map_values(|m: String| m@) =~= old(self).messages@.map_values(
                    |m: String| m@,
                ).push(binary_placeholder()));
                WsStep::Continue
            },
            WsEvent::Other => WsStep::Continue,
            WsEvent::Error(e) => WsStep::Failed(e),
            WsEvent::Closed => WsStep::Finished,
            WsEvent::TimedOut => WsStep::Finished,
        }
    }

    /// The response body: the collected messages joined by the separator, empty when none
    /// was collected.
    pub fn body(&self) -> (r: String)
        ensures
            r@ == joined(self.messages(), message_separator()),
            self.messages().len() == 0 ==> r@ == Seq::<char>::empty(),
    {
        let mut out = String::new();
        let mut i: usize = 0;
        while i < self.messages.len()
            invariant
                i <= self.messages@.len(),
                out@ == joined(self.messages().take(i as int), message_separator()),
            decreases self.messages@.len() - i,
        {
            if i > 0 {
                let sep = "\n---\n";
                proof {
                    reveal_strlit("\n---\n");
                }
                out.append(sep);
            }
            out.append(self.messages[i].as_str());
            assert(self.messages().take(i + 1).drop_last() =~= self.messages().take(i as int));
            i = i + 1;
        }
        assert(self.messages().take(self.messages@.len() as int) =~= self.messages());
        out
    }
}

/// The result of a WebSocket dispatch: the handshake's status and headers, and the
/// collected messages as body.
pub fn ws_result(status_code: i16, headers: Vec<(String, String)>, collected: &WsCollector) -> (r:
    FetchResult)
    ensures
        r.status_code == status_code,
        r.headers == headers,
        r.response@ == joined(collected.messages(), message_separator()),
{
    FetchResult { status_code, headers, response: collected.body() }
}

} // verus!
