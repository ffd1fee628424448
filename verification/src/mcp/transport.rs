//! How requests and replies find each other.
use std::collections::HashMap;
use vstd::prelude::*;
use vstd::string::*;

use super::error::{McpError, McpErrorView};
use super::types::{extract_response_id, JsonRpcId, JsonRpcResponse, StdioConfig};
use crate::json::{json_parsed, json_views, no_items, put_item, Json, JsonView};
use crate::seqs::{flattened, flattened_next, whole_prefix};
use crate::text::{
    after_prefix, concat2, concat3, concat5, contains, contains_text, from_utf8_lossy, join,
    joined, lines, lines_of, lossy_text, opt_text, strip_prefix, texts,
};

verus! {

broadcast use vstd::std_specs::hash::group_hash_axioms;

/// The requests that wait for a reply, by their numbers. `T` is who waits.
#[verifier::reject_recursive_types(T)]
#[derive(Debug)]
pub struct RequestTable<T> {
    pub next_id: u64,
    pub pending: HashMap<u64, T>,
}

/// The number after a number; the last is followed by zero.
pub open spec fn following(n: u64) -> u64 {
    if n == u64::MAX {
        0
    } else {
        (n + 1) as u64
    }
}

/// What came of waiting for a reply.
#[derive(Debug)]
pub enum WaitOutcome {
    Reply(JsonRpcResponse),
    Closed,
    TimedOut,
}

/// What follows a request that was sent.
#[derive(Debug)]
pub enum RequestStep {
    /// The reply was in the answer.
    Reply(JsonRpcResponse),
    /// The reply comes over the stream.
    Wait,
}

impl<T> RequestTable<T> {
    pub fn new() -> (r: Self)
        ensures
            r.next_id == 1,
            r.pending@ == Map::<u64, T>::empty(),
    {
        RequestTable { next_id: 1, pending: HashMap::new() }
    }

    /// Enters a request: its number.
    pub fn open(&mut self, waiting: T) -> (r: u64)
        ensures
            r == old(self).next_id,
            final(self).next_id == following(old(self).next_id),
            final(self).pending@ == old(self).pending@.insert(r, waiting),
    {
        let id: u64 = self.next_id;
        self.next_id = if id == u64::MAX {
            0
        } else {
            id + 1
        };
        self.pending.insert(id, waiting);
        id
    }

    /// Takes a request out: who waits for it.
    pub fn close(&mut self, id: u64) -> (r: Option<T>)
        ensures
            final(self).next_id == old(self).next_id,
            final(self).pending@ == old(self).pending@.remove(id),
            r == (if old(self).pending@.contains_key(id) {
                Some(old(self).pending@[id])
            } else {
                None
            }),
    {
        let r = self.pending.remove(&id);
        assert(self.pending@ =~= old(self).pending@.remove(id));
        r
    }

    /// Who waits for a reply, and waits no longer. A reply without a number is
    /// nobody's.
    pub fn route(&mut self, response: &JsonRpcResponse) -> (r: Option<T>)
        ensures
            final(self).next_id == old(self).next_id,
            match response.id {
                JsonRpcId::Number(id) => {
                    &&& final(self).pending@ == old(self).pending@.remove(id)
                    &&& r == (if old(self).pending@.contains_key(id) {
                        Some(old(self).pending@[id])
                    } else {
                        None
                    })
                },
                _ => r is None && final(self).pending@ == old(self).pending@,
            },
    {
        match extract_response_id(response) {
            Some(id) => self.close(id),
            None => None,
        }
    }

    /// What follows a request that was sent over HTTP. `reply` is the answer's body,
    /// where it is a reply. The request waits no longer unless the reply comes over
    /// the stream.
    pub fn after_post(
        &mut self,
        id: u64,
        success: bool,
        status: &str,
        reply: Option<JsonRpcResponse>,
    ) -> (r: Result<RequestStep, McpError>)
        ensures
            final(self).next_id == old(self).next_id,
            if !success {
                &&& r matches Err(e) && e@ == McpErrorView::Http("Request failed: "@ + status@)
                &&& final(self).pending@ == old(self).pending@.remove(id)
            } else {
                match reply {
                    Some(response) => {
                        &&& r matches Ok(RequestStep::Reply(own)) && own == response
                        &&& final(self).pending@ == old(self).pending@.remove(id)
                    },
                    None => {
                        &&& r matches Ok(RequestStep::Wait)
                        &&& final(self).pending@ == old(self).pending@
                    },
                }
            },
    {
        if !success {
            let _ = self.close(id);
            return Err(McpError::Http(concat2("Request failed: ", status)));
        }
        match reply {
            Some(response) => {
                let _ = self.close(id);
                Ok(RequestStep::Reply(response))
            },
            None => Ok(RequestStep::Wait),
        }
    }

    /// What came of a request. One that timed out waits no longer.
    pub fn after_wait(&mut self, id: u64, outcome: WaitOutcome) -> (r: Result<
        JsonRpcResponse,
        McpError,
    >)
        ensures
            final(self).next_id == old(self).next_id,
            match outcome {
                WaitOutcome::Reply(response) => {
                    &&& r == Ok::<JsonRpcResponse, McpError>(response)
                    &&& final(self).pending@ == old(self).pending@
                },
                WaitOutcome::Closed => {
                    &&& r matches Err(e) && e@ == McpErrorView::ConnectionClosed
                    &&& final(self).pending@ == old(self).pending@
                },
                WaitOutcome::TimedOut => {
                    &&& r matches Err(e) && e@ == McpErrorView::Timeout
                    &&& final(self).pending@ == old(self).pending@.remove(id)
                },
            },
    {
        match outcome {
            WaitOutcome::Reply(response) => Ok(response),
            WaitOutcome::Closed => Err(McpError::ConnectionClosed),
            WaitOutcome::TimedOut => {
                let _ = self.close(id);
                Err(McpError::Timeout)
            },
        }
    }
}

/// The number of the n-th request from a number on.
pub open spec fn number_after(first: u64, n: nat) -> u64
    decreases n,
{
    if n == 0 {
        first
    } else {
        following(number_after(first, (n - 1) as nat))
    }
}

/// Numbers do not come again before all of them were used.
pub proof fn numbers_are_not_used_twice(first: u64, n: nat)
    ensures
        number_after(first, n) == (first + n) % 0x1_0000_0000_0000_0000,
        0 < n < 0x1_0000_0000_0000_0000 ==> number_after(first, n) != first,
    decreases n,
{
    if n > 0 {
        numbers_are_not_used_twice(first, (n - 1) as nat);
        let before = (first + (n - 1)) % 0x1_0000_0000_0000_0000;
        assert((first + n) % 0x1_0000_0000_0000_0000 == (if before == u64::MAX as int {
            0int
        } else {
            before + 1
        })) by (nonlinear_arith)
            requires
                before == (first + (n - 1)) % 0x1_0000_0000_0000_0000,
                n > 0,
        ;
        if n < 0x1_0000_0000_0000_0000 {
            assert((first + n) % 0x1_0000_0000_0000_0000 != first) by (nonlinear_arith)
                requires
                    0 < n < 0x1_0000_0000_0000_0000,
                    0 <= first < 0x1_0000_0000_0000_0000,
            ;
        }
    }
}

/// What befalls a table of requests.
pub enum TableEvent<T> {
    /// A request is entered.
    Opened(T),
    /// The request with a number, if there is one, waits no longer.
    Closed(u64),
}

/// The next number and the requests that wait, after events.
pub open spec fn after_events<T>(
    next_id: u64,
    pending: Map<u64, T>,
    events: Seq<TableEvent<T>>,
) -> (u64, Map<u64, T>)
    decreases events.len(),
{
    if events.len() == 0 {
        (next_id, pending)
    } else {
        let (id, waiting) = after_events(next_id, pending, events.drop_last());
        match events.last() {
            TableEvent::Opened(who) => (following(id), waiting.insert(id, who)),
            TableEvent::Closed(closed) => (id, waiting.remove(closed)),
        }
    }
}

/// How many requests are entered.
pub open spec fn opened<T>(events: Seq<TableEvent<T>>) -> nat
    decreases events.len(),
{
    if events.len() == 0 {
        0
    } else {
        opened(events.drop_last()) + (if events.last() is Opened {
            1nat
        } else {
            0nat
        })
    }
}

/// Who entered a request is still there for its reply after whatever happened to other
/// requests, as long as not all numbers were used since.
pub proof fn replies_find_their_way<T>(
    next_id: u64,
    pending: Map<u64, T>,
    who: T,
    events: Seq<TableEvent<T>>,
)
    requires
        opened(events) < 0x1_0000_0000_0000_0000,
        forall|i: int| 0 <= i < events.len() ==> #[trigger] events[i] != TableEvent::<T>::Closed(next_id),
    ensures
        after_events(following(next_id), pending.insert(next_id, who), events).0 == number_after(
            next_id,
            opened(events) + 1,
        ),
        after_events(
            following(next_id),
            pending.insert(next_id, who),
            events,
        ).1.contains_key(next_id),
        after_events(following(next_id), pending.insert(next_id, who), events).1[next_id] == who,
    decreases events.len(),
{
    if events.len() == 0 {
        assert(number_after(next_id, 0) == next_id);
    } else {
        let before = events.drop_last();
        assert forall|i: int| 0 <= i < before.len() implies #[trigger] before[i]
            != TableEvent::<T>::Closed(next_id) by {
            assert(before[i] == events[i]);
        }
        replies_find_their_way(next_id, pending, who, before);
        assert(events.last() == events[events.len() - 1]);
        if events.last() is Opened {
            numbers_are_not_used_twice(next_id, opened(events));
        }
    }
}

/// Where a request goes: within the session, once there is one.
pub open spec fn session_url(url: Seq<char>, session: Option<Seq<char>>) -> Seq<char> {
    match session {
        Some(id) => if contains_text(url, "?"@) {
            url + "&session="@ + id
        } else {
            url + "?session="@ + id
        },
        None => url,
    }
}

/// A session with a server over HTTP.
#[derive(Debug)]
pub struct SseSession {
    pub url: String,
    pub session_id: Option<String>,
    pub connected: bool,
}

/// The session that a document names.
pub open spec fn named_session(value: JsonView) -> Option<Seq<char>> {
    value.field_text("session"@)
}

/// What a line of a stream carries, if it is a document.
pub open spec fn line_document(line: Seq<char>) -> Option<JsonView> {
    match after_prefix(line, "data: "@) {
        Some(data) => match json_parsed(data) {
            Ok(value) => Some(value),
            Err(_) => None,
        },
        None => None,
    }
}

/// What lines carry.
pub open spec fn line_documents(lines: Seq<Seq<char>>) -> Seq<Option<JsonView>> {
    Seq::new(lines.len(), |i: int| line_document(lines[i]))
}

/// The documents that a stretch of a stream carries. Each stretch is read by itself.
pub open spec fn stream_documents(text: Seq<char>) -> Seq<JsonView> {
    flattened(line_documents(lines_of(text)))
}

/// The documents in the text of a stretch of a stream.
pub fn documents_in(text: &str) -> (r: Vec<Json>)
    ensures
        json_views(r@) == stream_documents(text@),
{
    let all_lines = lines(text);
    let ghost all = line_documents(lines_of(text@));
    let mut out = no_items();
    let mut i: usize = 0;
    proof {
        whole_prefix(all);
    }
    assert(texts(all_lines@).len() == all_lines@.len());
    while i < all_lines.len()
        invariant
            i <= all_lines@.len(),
            texts(all_lines@) == lines_of(text@),
            all == line_documents(lines_of(text@)),
            all.len() == all_lines@.len(),
            json_views(out@) == flattened(all.subrange(0, i as int)),
        decreases all_lines@.len() - i,
    {
        proof {
            flattened_next(all, i as int);
            assert(texts(all_lines@)[i as int] == all_lines@[i as int]@);
        }
        if let Some(data) = strip_prefix(all_lines[i].as_str(), "data: ") {
            if let Ok(value) = Json::parse(data.as_str()) {
                put_item(&mut out, value);
            }
        }
        i = i + 1;
    }
    proof {
        whole_prefix(all);
    }
    out
}

/// The documents that a stretch of a stream carries.
pub fn read_stretch(bytes: &[u8]) -> (r: Vec<Json>)
    ensures
        json_views(r@) == stream_documents(lossy_text(bytes@)),
{
    let text = from_utf8_lossy(bytes);
    documents_in(text.as_str())
}

impl SseSession {
    pub fn new(url: &str) -> (r: Self)
        ensures
            r.url@ == url@,
            r.session_id is None,
            !r.connected,
    {
        SseSession { url: url.to_owned(), session_id: None, connected: false }
    }

    /// Opens the stream by the answer to the request for it.
    pub fn on_connect(&mut self, success: bool, status: &str) -> (r: Result<(), McpError>)
        ensures
            final(self).url == old(self).url,
            final(self).session_id == old(self).session_id,
            match r {
                Ok(_) => success && final(self).connected,
                Err(e) => !success && final(self).connected == old(self).connected && e@
                    == McpErrorView::Http("SSE connection failed: "@ + status@),
            },
    {
        if !success {
            return Err(McpError::Http(concat2("SSE connection failed: ", status)));
        }
        self.connected = true;
        Ok(())
    }

    /// Takes in a document: one may name the session.
    pub fn on_document(&mut self, value: &Json)
        ensures
            final(self).url == old(self).url,
            final(self).connected == old(self).connected,
            opt_text(final(self).session_id) == (match named_session(value@) {
                Some(id) => Some(id),
                None => opt_text(old(self).session_id),
            }),
    {
        if let Some(id) = value.get_str("session") {
            self.session_id = Some(id.to_owned());
        }
    }

    /// The stream is over.
    pub fn close(&mut self)
        ensures
            *final(self) == (SseSession { connected: false, ..*old(self) }),
    {
        self.connected = false;
    }

    /// Where a request goes, unless the stream is over.
    pub fn request_url(&self) -> (r: Result<String, McpError>)
        ensures
            match r {
                Ok(url) => self.connected && url@ == session_url(
                    self.url@,
                    opt_text(self.session_id),
                ),
                Err(e) => !self.connected && e@ == McpErrorView::ConnectionClosed,
            },
    {
        if !self.connected {
            return Err(McpError::ConnectionClosed);
        }
        match &self.session_id {
            Some(id) => if contains(self.url.as_str(), "?") {
                Ok(concat3(self.url.as_str(), "&session=", id.as_str()))
            } else {
                Ok(concat3(self.url.as_str(), "?session=", id.as_str()))
            },
            None => Ok(self.url.clone()),
        }
    }
}

/// Checks the answer to something that was told.
pub fn check_notification(success: bool, status: &str) -> (r: Result<(), McpError>)
    ensures
        match r {
            Ok(_) => success,
            Err(e) => !success && e@ == McpErrorView::Http("Notification failed: "@ + status@),
        },
{
    if success {
        Ok(())
    } else {
        Err(McpError::Http(concat2("Notification failed: ", status)))
    }
}

/// The error when a server cannot be started.
pub fn spawn_error(config: &StdioConfig, reason: &str) -> (r: McpError)
    ensures
        r@ == McpErrorView::ProcessSpawn(
            config.command@ + " "@ + joined(texts(config.args@), " "@) + ": "@ + reason@,
        ),
{
    let args = join(&config.args, " ");
    McpError::ProcessSpawn(concat5(config.command.as_str(), " ", args.as_str(), ": ", reason))
}

/// Numbers follow one another, and after the last comes zero.
pub proof fn numbers_follow_one_another(n: u64)
    ensures
        n < u64::MAX ==> following(n) == n + 1,
        following(u64::MAX) == 0,
{
}

/// A request goes to the place itself before there is a session, and names the session
/// once there is one.
pub proof fn requests_name_their_session(url: Seq<char>, id: Seq<char>, value: JsonView)
    ensures
        session_url(url, None) == url,
        contains_text(url, "?"@) ==> session_url(url, Some(id)) == url + "&session="@ + id,
        !contains_text(url, "?"@) ==> session_url(url, Some(id)) == url + "?session="@ + id,
        named_session(value) == value.field_text("session"@),
{
}

/// The documents of a stretch are those of its lines with data, in their order; lines that
/// carry none are passed over.
pub proof fn documents_come_line_by_line(lines: Seq<Seq<char>>, line: Seq<char>)
    ensures
        ({
            let data = after_prefix(line, "data: "@);
            let before = flattened(line_documents(lines));
            let all = flattened(line_documents(lines.push(line)));
            &&& data is Some && json_parsed(data->0) is Ok ==> all == before.push(
                json_parsed(data->0)->Ok_0,
            )
            &&& data is None || json_parsed(data->0) is Err ==> all == before
        }),
{
    assert(line_documents(lines.push(line)).drop_last() =~= line_documents(lines));
}

} // verus!
