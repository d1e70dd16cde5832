//! The data that the feed holds: attachments, entries and their timestamps.

use chrono::{DateTime, Local};
use vstd::prelude::*;

verus! {

/// A file tied to one entry, as the backend describes it.
#[derive(Debug)]
pub struct Attachment {
    /// Unique within its entry; this is what a placeholder in the text names.
    pub id: u32,
    pub mime: String,
    pub original_name: String,
    pub download_token: String,
}

/// One entry as it arrives from the backend.
#[derive(Debug)]
pub struct EntryResponse {
    pub id: String,
    pub content: String,
    /// The creation time, as RFC 3339 text.
    pub created_at: String,
    pub attachments: Vec<Attachment>,
}

/// Earliest instant a timestamp can hold: the start of year 0, less one day
/// for the zone offset.
pub const MIN_SECS: i64 = -62_167_305_600;

/// Latest instant a timestamp can hold: the end of year 9999, plus one day
/// for the zone offset.
pub const MAX_SECS: i64 = 253_402_387_199;

/// Seconds in a day.
pub const DAY_SECS: i64 = 86_400;

/// An instant together with the zone it is shown in.
#[derive(Clone, Copy, Debug, PartialEq, Eq, Structural)]
pub struct Timestamp {
    /// Seconds since 1970-01-01T00:00:00Z, leap seconds not counted.
    pub secs: i64,
    /// What the zone's clock is ahead of UTC at that instant, in seconds.
    pub offset: i32,
}

impl Timestamp {
    /// The instant lies in the years 0 to 9999 and the offset is under a day.
    pub open spec fn wf(&self) -> bool {
        &&& MIN_SECS <= self.secs <= MAX_SECS
        &&& -DAY_SECS < self.offset < DAY_SECS
    }

    /// Tests `wf`.
    pub fn is_wf(&self) -> (ok: bool)
        ensures
            ok == self.wf(),
    {
        MIN_SECS <= self.secs && self.secs <= MAX_SECS && -86_400 < self.offset && self.offset
            < 86_400
    }

    /// What the zone's clock shows, in seconds since the epoch.
    pub open spec fn local_secs(&self) -> int {
        self.secs + self.offset
    }

    /// The calendar day in the zone, counted in days since 1970-01-01.
    pub open spec fn day(&self) -> int {
        self.local_secs() / (DAY_SECS as int)
    }

    /// The time of day in the zone, in seconds since midnight.
    pub open spec fn second_of_day(&self) -> int {
        self.local_secs() % (DAY_SECS as int)
    }
}

/// One logged message, ready for display.
#[derive(Debug)]
pub struct Entry {
    pub id: String,
    /// The raw text, placeholders not yet expanded.
    pub log: String,
    pub timestamp: Timestamp,
    pub attachments: Vec<Attachment>,
}

impl Entry {
    pub fn new(id: String, log: String, timestamp: Timestamp, attachments: Vec<Attachment>) -> (entry:
        Entry)
        ensures
            entry.id == id,
            entry.log == log,
            entry.timestamp == timestamp,
            entry.attachments == attachments,
    {
        Entry { id, log, timestamp, attachments }
    }
}

/// The instant that `text` denotes when read as RFC 3339, in seconds since
/// the epoch; `None` where `text` is no RFC 3339 date and time.
pub uninterp spec fn rfc3339_seconds(text: Seq<char>) -> Option<i64>;

/// `chrono::DateTime::parse_from_rfc3339`, the result moved into the
/// machine's zone with `DateTime::with_timezone(&Local)`.
///
/// Trusted: the parse fails or succeeds as `rfc3339_seconds` says and gives
/// that instant. The parser reads a year of four digits and an offset of at
/// most 23:59, so the instant is within `MIN_SECS..=MAX_SECS`; an offset of
/// chrono is always under a day. Nothing is said of which offset the
/// machine's zone has.
#[verifier::external_body]
fn parse_local(text: &str) -> (parsed: Option<Timestamp>)
    ensures
        parsed is Some <==> rfc3339_seconds(text@) is Some,
        parsed matches Some(t) ==> Some(t.secs) == rfc3339_seconds(text@) && t.wf(),
{
    match DateTime::parse_from_rfc3339(text) {
        Ok(parsed) => {
            let local = parsed.with_timezone(&Local);
            Some(Timestamp { secs: local.timestamp(), offset: local.offset().local_minus_utc() })
        },
        Err(_) => None,
    }
}

impl EntryResponse {
    /// The entry that this response becomes once its creation time has been
    /// read: none where the time could not be read.
    pub fn into_entry_at(self, parsed: Option<Timestamp>) -> (entry: Option<Entry>)
        ensures
            entry == match parsed {
                Some(t) => Some(
                    Entry {
                        id: self.id,
                        log: self.content,
                        timestamp: t,
                        attachments: self.attachments,
                    },
                ),
                None => None,
            },
    {
        match parsed {
            Some(t) => Some(Entry::new(self.id, self.content, t, self.attachments)),
            None => None,
        }
    }

    /// Converts the response into an entry. The conversion fails exactly
    /// when `created_at` is no RFC 3339 date and time; otherwise the entry
    /// carries the response's id, text and attachments and the instant read,
    /// shown in the machine's zone.
    pub fn to_entry(self) -> (entry: Option<Entry>)
        ensures
            entry is Some <==> rfc3339_seconds(self.created_at@) is Some,
            entry matches Some(e) ==> {
                &&& e.id == self.id
                &&& e.log == self.content
                &&& e.attachments == self.attachments
                &&& Some(e.timestamp.secs) == rfc3339_seconds(self.created_at@)
                &&& e.timestamp.wf()
            },
    {
        let parsed = parse_local(self.created_at.as_str());
        self.into_entry_at(parsed)
    }
}

} // verus!
