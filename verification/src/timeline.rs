//! What is shown of each entry: its time, its body, and a date wherever a
//! new calendar day begins.

use crate::feed::Model;
use crate::models::{Entry, Timestamp};
use crate::render::{expanded, markdown_html, markdown_to_html};
use crate::text::digit_char;
use chrono::{NaiveDate, NaiveTime};
use vstd::prelude::*;

verus! {

/// The first day that a timestamp can fall on, in days since 1970-01-01.
pub const MIN_DAY: i32 = -719_530;

/// The last day that a timestamp can fall on, in days since 1970-01-01.
pub const MAX_DAY: i32 = 2_932_898;

/// The date of a day, counted in days since 1970-01-01, written as year,
/// month and day of the month.
pub uninterp spec fn date_text(day: int) -> Seq<char>;

/// A number below 100 in two digits.
pub open spec fn two_digits(n: int) -> Seq<char> {
    seq![digit_char(n / 10), digit_char(n % 10)]
}

/// A time of day, given in seconds since midnight, as `HH:MM:SS`.
pub open spec fn clock_text(second_of_day: int) -> Seq<char> {
    two_digits(second_of_day / 3600) + seq![':'] + two_digits((second_of_day / 60) % 60) + seq![
        ':',
    ] + two_digits(second_of_day % 60)
}

/// `chrono::NaiveDate::from_epoch_days` and `NaiveDate::format` with
/// `%Y-%m-%d`.
///
/// Trusted: for a day between the years 0 and 9999, with a day to spare at
/// either end, chrono has a date, and its text depends on the day alone.
#[verifier::external_body]
fn format_date(day: i32) -> (text: String)
    requires
        MIN_DAY <= day <= MAX_DAY,
    ensures
        text@ == date_text(day as int),
{
    NaiveDate::from_epoch_days(day).unwrap().format("%Y-%m-%d").to_string()
}

/// `chrono::NaiveTime::from_num_seconds_from_midnight_opt` and
/// `NaiveTime::format` with `%H:%M:%S`.
///
/// Trusted: for a second of the day chrono has a time, and its text is hour,
/// minute and second in two digits each, with colons between them.
#[verifier::external_body]
fn format_time(second_of_day: u32) -> (text: String)
    requires
        second_of_day < 86_400,
    ensures
        text@ == clock_text(second_of_day as int),
{
    NaiveTime::from_num_seconds_from_midnight_opt(second_of_day, 0).unwrap().format(
        "%H:%M:%S",
    ).to_string()
}

impl Timestamp {
    /// The calendar day that the instant falls on in its zone.
    pub fn local_day(&self) -> (day: i32)
        requires
            self.wf(),
        ensures
            day == self.day(),
            MIN_DAY <= day <= MAX_DAY,
    {
        let local: i64 = self.secs + self.offset as i64;
        let shifted: u64 = (local + 719_530 * 86_400) as u64;
        ((shifted / 86_400) as i64 - 719_530) as i32
    }

    /// The time of day in the zone, in seconds since midnight.
    pub fn local_second_of_day(&self) -> (second: u32)
        requires
            self.wf(),
        ensures
            second == self.second_of_day(),
            second < 86_400,
    {
        let local: i64 = self.secs + self.offset as i64;
        let shifted: u64 = (local + 719_530 * 86_400) as u64;
        (shifted % 86_400) as u32
    }

    /// The date in the zone.
    pub fn date_label(&self) -> (text: String)
        requires
            self.wf(),
        ensures
            text@ == date_text(self.day()),
    {
        format_date(self.local_day())
    }

    /// The time of day in the zone, as `HH:MM:SS`.
    pub fn time_label(&self) -> (text: String)
        requires
            self.wf(),
        ensures
            text@ == clock_text(self.second_of_day()),
    {
        format_time(self.local_second_of_day())
    }
}

/// What is shown of one entry.
#[derive(Debug)]
pub struct EntryMarkup {
    /// The date, on the first entry of a calendar day only.
    pub date_label: Option<String>,
    pub time_label: String,
    /// The text as HTML.
    pub body: String,
}

/// What is shown of one entry, as a mathematical value.
pub struct MarkupView {
    pub date_label: Option<Seq<char>>,
    pub time_label: Seq<char>,
    pub body: Seq<char>,
}

impl View for EntryMarkup {
    type V = MarkupView;

    open spec fn view(&self) -> MarkupView {
        MarkupView {
            date_label: match self.date_label {
                Some(text) => Some(text@),
                None => None,
            },
            time_label: self.time_label@,
            body: self.body@,
        }
    }
}

/// What is shown of `entry` when the entry shown before it fell on
/// `last_day`: the date only if the day is another one, the time of day, and
/// the text with its placeholders expanded and rendered as markdown.
pub open spec fn markup_of(entry: Entry, last_day: Option<int>) -> MarkupView {
    MarkupView {
        date_label: if last_day == Some(entry.timestamp.day()) {
            None
        } else {
            Some(date_text(entry.timestamp.day()))
        },
        time_label: clock_text(entry.timestamp.second_of_day()),
        body: markdown_html(expanded(entry.log@, entry.attachments@)),
    }
}

/// The day of the entry before position `k`: none at the head of the list.
pub open spec fn day_before(entries: Seq<Entry>, k: int) -> Option<int> {
    if k <= 0 {
        None
    } else {
        Some(entries[k - 1].timestamp.day())
    }
}

/// What is shown of one entry, given the day of the entry shown before it.
pub fn to_markup(entry: &Entry, last_day: Option<i32>) -> (markup: EntryMarkup)
    requires
        entry.timestamp.wf(),
    ensures
        markup@ == markup_of(
            *entry,
            match last_day {
                Some(day) => Some(day as int),
                None => None,
            },
        ),
{
    let day = entry.timestamp.local_day();
    let same_day = match last_day {
        Some(last) => last == day,
        None => false,
    };
    let date_label = if same_day {
        None
    } else {
        Some(entry.timestamp.date_label())
    };
    EntryMarkup {
        date_label,
        time_label: entry.timestamp.time_label(),
        body: markdown_to_html(entry),
    }
}

impl Model {
    /// Every entry held has a timestamp that can be shown: `view` can be
    /// called.
    pub open spec fn showable(&self) -> bool {
        forall|k: int| 0 <= k < self.entries@.len() ==> (#[trigger] self.entries@[k]).timestamp.wf()
    }

    /// Tests `showable`.
    pub fn can_show(&self) -> (ok: bool)
        ensures
            ok == self.showable(),
    {
        let mut i: usize = 0;
        while i < self.entries.len()
            invariant
                i <= self.entries@.len(),
                forall|k: int| 0 <= k < i ==> (#[trigger] self.entries@[k]).timestamp.wf(),
            decreases self.entries@.len() - i,
        {
            if !self.entries[i].timestamp.is_wf() {
                return false;
            }
            i += 1;
        }
        true
    }

    /// What is shown of the feed: its entries in their order, each with its
    /// time and body, and with a date exactly where its day differs from
    /// that of the entry before it. The first entry always carries a date.
    pub fn view(&self) -> (shown: Vec<EntryMarkup>)
        requires
            self.showable(),
        ensures
            shown@.len() == self.entries@.len(),
            forall|k: int|
                0 <= k < shown@.len() ==> (#[trigger] shown@[k])@ == markup_of(
                    self.entries@[k],
                    day_before(self.entries@, k),
                ),
    {
        let mut shown: Vec<EntryMarkup> = Vec::new();
        let mut last_day: Option<i32> = None;
        let mut i: usize = 0;
        while i < self.entries.len()
            invariant
                i <= self.entries@.len(),
                shown@.len() == i,
                forall|k: int|
                    0 <= k < self.entries@.len() ==> (#[trigger] self.entries@[k]).timestamp.wf(),
                forall|k: int|
                    0 <= k < i ==> (#[trigger] shown@[k])@ == markup_of(
                        self.entries@[k],
                        day_before(self.entries@, k),
                    ),
                match last_day {
                    Some(day) => Some(day as int),
                    None => None,
                } == day_before(self.entries@, i as int),
            decreases self.entries@.len() - i,
        {
            let entry = &self.entries[i];
            shown.push(to_markup(entry, last_day));
            last_day = Some(entry.timestamp.local_day());
            i += 1;
        }
        shown
    }
}

} // verus!
