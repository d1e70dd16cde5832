//! The feed: the entries held in memory, the pagination cursor, and the
//! state machine that decides what to fetch and where each answer goes.

use crate::models::{Entry, EntryResponse};
use crate::scroll::{Mutation, ScrollInstruction};
use crate::text::{push_decimal, signed_decimal};
use vstd::prelude::*;

verus! {

/// Why an operation on the feed came to nothing.
#[derive(Clone, Copy, Debug, PartialEq, Eq, Structural)]
pub enum FeedError {
    /// An entry was submitted with no text and no files.
    EmptySubmission,
    /// A request did not reach the backend, or was answered with a failure.
    TransportFailure,
    /// The answer was not the JSON that was expected.
    ParseFailure,
    /// The creation time of an entry could not be read.
    TimestampParseFailure,
}

impl FeedError {
    /// A short description for a log or a banner.
    pub fn message(&self) -> (text: String)
        ensures
            text@ == match *self {
                FeedError::EmptySubmission => "Empty entry"@,
                FeedError::TransportFailure => "Request failed."@,
                FeedError::ParseFailure => "Failed to parse request as text"@,
                FeedError::TimestampParseFailure => "Invalid timestamp"@,
            },
    {
        match self {
            FeedError::EmptySubmission => String::from_str("Empty entry"),
            FeedError::TransportFailure => String::from_str("Request failed."),
            FeedError::ParseFailure => String::from_str("Failed to parse request as text"),
            FeedError::TimestampParseFailure => String::from_str("Invalid timestamp"),
        }
    }
}

/// Page size of the feed.
pub const DEFAULT_LIMIT: i64 = 20;

/// The feed as the page holds it.
pub struct Model {
    /// Names this page load to the backend; made once, never stored.
    pub client_hash: String,
    /// The entries, oldest first.
    pub entries: Vec<Entry>,
    /// Page size; fixed when the feed is made.
    pub limit: i64,
    /// How many entries have been merged so far: where the next older page
    /// starts.
    pub offset: i64,
    /// A fetch is under way.
    pub loading: bool,
    /// The reason of the latest failure, if the latest answer was one.
    pub last_error: Option<FeedError>,
}

/// The feed as a mathematical value.
pub struct FeedState {
    pub client: Seq<char>,
    pub entries: Seq<Entry>,
    pub limit: int,
    pub offset: int,
    pub loading: bool,
    pub last_error: Option<FeedError>,
}

impl Model {
    /// The feed as a mathematical value.
    pub open spec fn state(&self) -> FeedState {
        FeedState {
            client: self.client_hash@,
            entries: self.entries@,
            limit: self.limit as int,
            offset: self.offset as int,
            loading: self.loading,
            last_error: self.last_error,
        }
    }
}

impl FeedState {
    /// The cursor counts exactly the entries held.
    pub open spec fn wf(self) -> bool {
        self.offset == self.entries.len()
    }

    /// The feed after an older page has arrived. The page is oldest first,
    /// as the feed is, and goes in front of the entries held in its own
    /// order, so the feed stays oldest first; the fetch is over.
    pub open spec fn prepended(self, batch: Seq<Entry>) -> FeedState {
        FeedState {
            entries: batch + self.entries,
            offset: self.offset + batch.len(),
            loading: false,
            last_error: None,
            ..self
        }
    }

    /// The feed after a newly created entry has arrived: it goes to the end;
    /// the fetch is over.
    pub open spec fn appended(self, entry: Entry) -> FeedState {
        FeedState {
            entries: self.entries.push(entry),
            offset: self.offset + 1,
            loading: false,
            last_error: None,
            ..self
        }
    }
}

impl Model {
    /// Puts an older page, oldest first, in front of the entries held,
    /// keeping the order of the page, and moves the cursor on by the size of
    /// the page. No entry is dropped, and none is taken for another because
    /// it has the same id.
    pub fn prepend(&mut self, batch: Vec<Entry>)
        requires
            old(self).state().wf(),
            old(self).offset + batch.len() <= i64::MAX,
        ensures
            final(self).state() == old(self).state().prepended(batch@),
            final(self).entries@ == batch@ + old(self).entries@,
            final(self).offset == old(self).offset + batch@.len(),
            final(self).state().wf(),
    {
        let count = batch.len();
        let mut entries = batch;
        entries.append(&mut self.entries);
        self.entries = entries;
        self.offset = self.offset + count as i64;
        self.loading = false;
        self.last_error = None;
    }

    /// Puts a newly created entry behind the entries held and moves the
    /// cursor on by one.
    pub fn append(&mut self, entry: Entry)
        requires
            old(self).state().wf(),
            old(self).offset < i64::MAX,
        ensures
            final(self).state() == old(self).state().appended(entry),
            final(self).state().wf(),
    {
        self.entries.push(entry);
        self.offset = self.offset + 1;
        self.loading = false;
        self.last_error = None;
    }
}

/// What can happen to the feed.
pub enum Msg {
    /// The user submits an entry: its text, and how many files come with it.
    AddEntry(String, usize),
    /// Fetch `limit` entries from `offset` on. A limit of 1 at offset 0 asks
    /// for the entry that was just created.
    GetEntries(i64, i64),
    /// The user has scrolled to the top: fetch the next older page, unless a
    /// fetch is under way.
    LoadMoreEntries,
    /// The answer to a fetch of an older page, or a failure of any request.
    ReceiveResponse(Result<Vec<Entry>, FeedError>),
    /// The answer to a fetch of the newest entry.
    ReceiveLatestEntry(Entry),
}

/// What the caller has to do after a message was handled.
pub enum Effect {
    Nothing,
    /// Send the text, with the files that were submitted, to the backend.
    PostEntry(String),
    /// Ask the backend for entries, with this limit and offset.
    Fetch(i64, i64),
    /// Move the viewport once the layout has settled.
    Scroll(ScrollInstruction),
    /// Hand the failure to the log.
    Report(FeedError),
}

/// The outcome of handling one message.
pub struct Update {
    /// The entries shown have to be drawn again.
    pub render: bool,
    pub effect: Effect,
}

/// Where `client` asks for `limit` entries from `offset` on.
pub open spec fn entries_address(client: Seq<char>, limit: int, offset: int) -> Seq<char> {
    "http://127.0.0.1:8080/get_entries?client="@ + client + "&limit="@ + signed_decimal(limit)
        + "&offset="@ + signed_decimal(offset)
}

/// Where `client` asks for its attachments to be kept available.
pub open spec fn extend_address(client: Seq<char>) -> Seq<char> {
    "http://127.0.0.1:8080/extend?client="@ + client
}

/// The `limit` and `offset` that ask for the newest entry alone.
pub open spec fn asks_for_newest(limit: int, offset: int) -> bool {
    limit == 1 && offset == 0
}

/// The number of entries that a message merges into the feed.
pub open spec fn merged_by(msg: Msg) -> nat {
    match msg {
        Msg::ReceiveResponse(Ok(batch)) => batch@.len(),
        Msg::ReceiveLatestEntry(_) => 1,
        _ => 0,
    }
}

/// The number of entries that a run of messages merges into the feed.
pub open spec fn merged_total(msgs: Seq<Msg>) -> nat
    decreases msgs.len(),
{
    if msgs.len() == 0 {
        0
    } else {
        merged_total(msgs.drop_last()) + merged_by(msgs.last())
    }
}

impl FeedState {
    /// The feed after `msg` was handled.
    pub open spec fn step(self, msg: Msg) -> FeedState {
        match msg {
            Msg::AddEntry(content, files) => if content@.len() == 0 && files == 0 {
                FeedState { last_error: Some(FeedError::EmptySubmission), ..self }
            } else {
                self
            },
            Msg::GetEntries(_, _) => FeedState { loading: true, ..self },
            Msg::LoadMoreEntries => FeedState { loading: true, ..self },
            Msg::ReceiveResponse(Ok(batch)) => self.prepended(batch@),
            Msg::ReceiveResponse(Err(error)) => FeedState {
                loading: false,
                last_error: Some(error),
                ..self
            },
            Msg::ReceiveLatestEntry(entry) => self.appended(entry),
        }
    }

    /// What handling `msg` asks of the caller.
    pub open spec fn outcome(self, msg: Msg) -> Update {
        match msg {
            Msg::AddEntry(content, files) => if content@.len() == 0 && files == 0 {
                Update { render: false, effect: Effect::Report(FeedError::EmptySubmission) }
            } else {
                Update { render: true, effect: Effect::PostEntry(content) }
            },
            Msg::GetEntries(limit, offset) => Update {
                render: false,
                effect: Effect::Fetch(limit, offset),
            },
            Msg::LoadMoreEntries => if self.loading {
                Update { render: false, effect: Effect::Nothing }
            } else {
                Update { render: false, effect: Effect::Fetch(self.limit as i64, self.offset as i64) }
            },
            Msg::ReceiveResponse(Ok(batch)) => if batch@.len() == 0 {
                Update { render: false, effect: Effect::Nothing }
            } else {
                Update {
                    render: true,
                    effect: Effect::Scroll(crate::scroll::instruction_for(Mutation::Prepend)),
                }
            },
            Msg::ReceiveResponse(Err(error)) => Update {
                render: false,
                effect: Effect::Report(error),
            },
            Msg::ReceiveLatestEntry(_) => Update {
                render: true,
                effect: Effect::Scroll(crate::scroll::instruction_for(Mutation::Append)),
            },
        }
    }

    /// The feed after a run of messages was handled, one after the other.
    pub open spec fn run(self, msgs: Seq<Msg>) -> FeedState
        decreases msgs.len(),
    {
        if msgs.len() == 0 {
            self
        } else {
            self.run(msgs.drop_last()).step(msgs.last())
        }
    }
}

impl Model {
    /// An empty feed for the page load that `client_hash` names, and the
    /// message that fetches its first page.
    pub fn create(client_hash: String) -> (made: (Model, Msg))
        ensures
            made.0.state() == (FeedState {
                client: client_hash@,
                entries: Seq::empty(),
                limit: DEFAULT_LIMIT as int,
                offset: 0,
                loading: false,
                last_error: None,
            }),
            made.0.state().wf(),
            made.1 == Msg::GetEntries(DEFAULT_LIMIT, 0),
    {
        let model = Model {
            client_hash,
            entries: Vec::new(),
            limit: DEFAULT_LIMIT,
            offset: 0,
            loading: false,
            last_error: None,
        };
        (model, Msg::GetEntries(DEFAULT_LIMIT, 0))
    }

    /// The cursor counts the entries held, and the entries that `msg` merges
    /// still fit the cursor: `update` can take the message.
    pub open spec fn takes(&self, msg: Msg) -> bool {
        self.state().wf() && self.offset + merged_by(msg) <= i64::MAX
    }

    /// Tests `takes`.
    pub fn accepts(&self, msg: &Msg) -> (ok: bool)
        ensures
            ok == self.takes(*msg),
    {
        if self.offset < 0 || self.offset as u64 != self.entries.len() as u64 {
            return false;
        }
        let merged: usize = match msg {
            Msg::ReceiveResponse(Ok(batch)) => batch.len(),
            Msg::ReceiveLatestEntry(_) => 1,
            _ => 0,
        };
        merged as u64 <= (i64::MAX - self.offset) as u64
    }

    /// Handles one message where `update` can take it, and hands the
    /// message back untouched where it cannot. Whatever the feed and the
    /// message were: the offset and the number of entries do not go down,
    /// the page size stays, and a cursor that counted the entries still
    /// counts them.
    pub fn try_update(&mut self, msg: Msg) -> (handled: Result<Update, Msg>)
        ensures
            handled is Ok <==> old(self).takes(msg),
            handled matches Ok(update) ==> {
                &&& final(self).state() == old(self).state().step(msg)
                &&& update == old(self).state().outcome(msg)
                &&& final(self).offset == old(self).offset + merged_by(msg)
                &&& final(self).entries@.len() == old(self).entries@.len() + merged_by(msg)
            },
            handled matches Err(back) ==> back == msg && *final(self) == *old(self),
            final(self).offset >= old(self).offset,
            final(self).entries@.len() >= old(self).entries@.len(),
            final(self).limit == old(self).limit,
            old(self).state().wf() ==> final(self).state().wf(),
    {
        if self.accepts(&msg) {
            Ok(self.update(msg))
        } else {
            Err(msg)
        }
    }

    /// Handles one message: the feed moves to its next state, and the result
    /// says whether to draw again and what to do next.
    ///
    /// A submission with no text and no files is refused before anything is
    /// sent. A fetch of older entries is not started while another fetch is
    /// under way. An older page goes to the front, a newly created entry to
    /// the end, and the cursor moves on by what was merged. A failure ends
    /// the fetch, is kept as the latest error and is reported; nothing is
    /// tried again.
    pub fn update(&mut self, msg: Msg) -> (update: Update)
        requires
            old(self).takes(msg),
        ensures
            final(self).state() == old(self).state().step(msg),
            update == old(self).state().outcome(msg),
            final(self).state().wf(),
            final(self).offset == final(self).entries@.len(),
            final(self).offset == old(self).offset + merged_by(msg),
            final(self).entries@.len() == old(self).entries@.len() + merged_by(msg),
            final(self).offset >= old(self).offset,
            final(self).limit == old(self).limit,
            msg matches Msg::ReceiveResponse(Ok(batch)) ==> final(self).entries@ == batch@ + old(
                self,
            ).entries@,
            msg matches Msg::ReceiveLatestEntry(entry) ==> final(self).entries@ == old(
                self,
            ).entries@.push(entry),
    {
        match msg {
            Msg::AddEntry(content, files) => {
                if content.as_str().unicode_len() == 0 && files == 0 {
                    self.last_error = Some(FeedError::EmptySubmission);
                    Update { render: false, effect: Effect::Report(FeedError::EmptySubmission) }
                } else {
                    Update { render: true, effect: Effect::PostEntry(content) }
                }
            },
            Msg::GetEntries(limit, offset) => {
                self.loading = true;
                Update { render: false, effect: Effect::Fetch(limit, offset) }
            },
            Msg::LoadMoreEntries => {
                if self.loading {
                    Update { render: false, effect: Effect::Nothing }
                } else {
                    self.loading = true;
                    Update { render: false, effect: Effect::Fetch(self.limit, self.offset) }
                }
            },
            Msg::ReceiveResponse(Ok(batch)) => {
                let empty = batch.len() == 0;
                self.prepend(batch);
                if empty {
                    Update { render: false, effect: Effect::Nothing }
                } else {
                    Update {
                        render: true,
                        effect: Effect::Scroll(ScrollInstruction::after(Mutation::Prepend)),
                    }
                }
            },
            Msg::ReceiveResponse(Err(error)) => {
                self.loading = false;
                self.last_error = Some(error);
                Update { render: false, effect: Effect::Report(error) }
            },
            Msg::ReceiveLatestEntry(entry) => {
                self.append(entry);
                Update {
                    render: true,
                    effect: Effect::Scroll(ScrollInstruction::after(Mutation::Append)),
                }
            },
        }
    }

    /// The address that answers a fetch with the given limit and offset.
    pub fn entries_url(&self, limit: i64, offset: i64) -> (url: String)
        ensures
            url@ == entries_address(self.client_hash@, limit as int, offset as int),
    {
        let mut url = String::from_str("http://127.0.0.1:8080/get_entries?client=");
        url.append(self.client_hash.as_str());
        url.append("&limit=");
        push_decimal(&mut url, limit);
        url.append("&offset=");
        push_decimal(&mut url, offset);
        url
    }

    /// The address that keeps this client's attachments available.
    pub fn extend_url(&self) -> (url: String)
        ensures
            url@ == extend_address(self.client_hash@),
    {
        let mut url = String::from_str("http://127.0.0.1:8080/extend?client=");
        url.append(self.client_hash.as_str());
        url
    }

    /// What to do once the feed has been drawn: after the first drawing the
    /// viewport goes to the bottom, later nothing.
    pub fn rendered(&self, first_render: bool) -> (scroll: Option<ScrollInstruction>)
        ensures
            scroll == (if first_render {
                Some(
                    ScrollInstruction {
                        offset: crate::scroll::OFFSET_FROM_BOTTOM,
                        from_bottom: true,
                        delay_ms: crate::scroll::FIRST_LOAD_SETTLE_MS,
                    },
                )
            } else {
                None
            }),
    {
        if first_render {
            Some(ScrollInstruction::first_load())
        } else {
            None
        }
    }
}

/// The message that a scroll event gives rise to: reaching the very top
/// asks for the next older page.
pub fn on_scroll(scroll_top: i32) -> (msg: Option<Msg>)
    ensures
        msg == (if scroll_top == 0 {
            Some(Msg::LoadMoreEntries)
        } else {
            None
        }),
{
    if scroll_top == 0 {
        Some(Msg::LoadMoreEntries)
    } else {
        None
    }
}

/// The message that follows the attempt to send a new entry: a fetch of the
/// newest entry where the backend accepted it, a transport failure where it
/// did not.
pub fn after_post(accepted: bool) -> (msg: Msg)
    ensures
        msg == (if accepted {
            Msg::GetEntries(1, 0)
        } else {
            Msg::ReceiveResponse(Err(FeedError::TransportFailure))
        }),
{
    if accepted {
        Msg::GetEntries(1, 0)
    } else {
        Msg::ReceiveResponse(Err(FeedError::TransportFailure))
    }
}

/// Where the answer to a fetch goes. Of a fetch of the newest entry, the
/// first entry returned is an entry to append, and what follows it is
/// dropped; the answer to any other fetch, and an empty answer, is a page to
/// prepend.
pub open spec fn routed(limit: i64, offset: i64, entries: Vec<Entry>) -> Msg {
    if asks_for_newest(limit as int, offset as int) && entries@.len() > 0 {
        Msg::ReceiveLatestEntry(entries@[0])
    } else {
        Msg::ReceiveResponse(Ok(entries))
    }
}

/// Routes the entries that a fetch with `limit` and `offset` returned.
pub fn classify_response(limit: i64, offset: i64, entries: Vec<Entry>) -> (msg: Msg)
    ensures
        msg == routed(limit, offset, entries),
{
    if limit == 1 && offset == 0 && entries.len() > 0 {
        let mut entries = entries;
        let first = entries.remove(0);
        Msg::ReceiveLatestEntry(first)
    } else {
        Msg::ReceiveResponse(Ok(entries))
    }
}

/// The creation time of the response can be read.
pub open spec fn readable(response: EntryResponse) -> bool {
    crate::models::rfc3339_seconds(response.created_at@) is Some
}

/// The responses whose creation time can be read, in their order.
pub open spec fn readable_of(responses: Seq<EntryResponse>) -> Seq<EntryResponse>
    decreases responses.len(),
{
    if responses.len() == 0 {
        Seq::empty()
    } else if readable(responses.last()) {
        readable_of(responses.drop_last()).push(responses.last())
    } else {
        readable_of(responses.drop_last())
    }
}

/// `entry` is what `response` turns into: the same id, text and attachments,
/// at the instant that the creation time denotes.
pub open spec fn entry_of(entry: Entry, response: EntryResponse) -> bool {
    &&& entry.id == response.id
    &&& entry.log == response.content
    &&& entry.attachments == response.attachments
    &&& Some(entry.timestamp.secs) == crate::models::rfc3339_seconds(response.created_at@)
    &&& entry.timestamp.wf()
}

/// Converts a batch of responses. A response whose creation time cannot be
/// read is left out, and the rest of the batch goes on: the result holds the
/// entries of the readable responses, in their order.
pub fn entries_from_responses(responses: Vec<EntryResponse>) -> (entries: Vec<Entry>)
    ensures
        entries@.len() == readable_of(responses@).len(),
        forall|k: int|
            0 <= k < entries@.len() ==> entry_of(entries@[k], #[trigger] readable_of(responses@)[k]),
{
    let ghost all = responses@;
    let mut entries: Vec<Entry> = Vec::new();
    for response in it: responses
        invariant
            it.seq() == all,
            entries@.len() == readable_of(all.take(it.index())).len(),
            forall|k: int|
                0 <= k < entries@.len() ==> entry_of(
                    entries@[k],
                    #[trigger] readable_of(all.take(it.index()))[k],
                ),
    {
        proof {
            assert(all.take(it.index() + 1).drop_last() == all.take(it.index()));
        }
        match response.to_entry() {
            Some(entry) => {
                entries.push(entry);
            },
            None => {},
        }
    }
    proof {
        assert(all.take(all.len() as int) == all);
    }
    entries
}

/// The cursor counts what was merged: after any run of messages the offset
/// has grown by exactly the number of entries that the run merged, and so
/// has the number of entries held. The offset never goes down, the page size
/// never changes, and a feed whose cursor agreed with its entries still has
/// one that does.
pub proof fn lemma_offset_counts_merged(state: FeedState, msgs: Seq<Msg>)
    ensures
        state.run(msgs).offset == state.offset + merged_total(msgs),
        state.run(msgs).entries.len() == state.entries.len() + merged_total(msgs),
        state.run(msgs).offset >= state.offset,
        state.run(msgs).limit == state.limit,
        state.run(msgs).client == state.client,
        state.wf() ==> state.run(msgs).wf(),
    decreases msgs.len(),
{
    if msgs.len() > 0 {
        lemma_offset_counts_merged(state, msgs.drop_last());
    }
}

/// While a fetch is under way, a request for the next older page changes
/// nothing and asks for nothing.
pub proof fn lemma_load_more_while_loading(state: FeedState)
    requires
        state.loading,
    ensures
        state.step(Msg::LoadMoreEntries) == state,
        state.outcome(Msg::LoadMoreEntries) == (Update { render: false, effect: Effect::Nothing }),
{
}

/// An empty page ends the fetch and leaves the entries and the offset as
/// they were; nothing is drawn and nothing is asked for.
pub proof fn lemma_empty_page_is_no_mutation(state: FeedState, batch: Vec<Entry>)
    requires
        batch@.len() == 0,
    ensures
        state.step(Msg::ReceiveResponse(Ok(batch))).entries == state.entries,
        state.step(Msg::ReceiveResponse(Ok(batch))).offset == state.offset,
        state.step(Msg::ReceiveResponse(Ok(batch))).limit == state.limit,
        !state.step(Msg::ReceiveResponse(Ok(batch))).loading,
        state.outcome(Msg::ReceiveResponse(Ok(batch))) == (Update {
            render: false,
            effect: Effect::Nothing,
        }),
{
}

/// A failure ends the fetch and touches neither the entries nor the offset.
pub proof fn lemma_failure_is_no_mutation(state: FeedState, error: FeedError)
    ensures
        state.step(Msg::ReceiveResponse(Err(error))).entries == state.entries,
        state.step(Msg::ReceiveResponse(Err(error))).offset == state.offset,
        !state.step(Msg::ReceiveResponse(Err(error))).loading,
        state.step(Msg::ReceiveResponse(Err(error))).last_error == Some(error),
{
}

} // verus!