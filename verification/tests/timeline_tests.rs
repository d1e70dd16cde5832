use elogbook::feed::Model;
use elogbook::models::{Attachment, Entry, Timestamp, MAX_SECS, MIN_SECS};
use elogbook::timeline::{to_markup, MAX_DAY, MIN_DAY};

fn at(secs: i64, offset: i32) -> Timestamp {
    Timestamp { secs, offset }
}

fn entry(id: &str, log: &str, timestamp: Timestamp) -> Entry {
    Entry::new(id.to_string(), log.to_string(), timestamp, vec![])
}

// 2024-01-01T00:00:00Z
const JAN_1_2024: i64 = 1_704_067_200;

#[test]
fn day_grouping_puts_a_date_on_the_first_entry_of_each_day() {
    let (mut model, _) = Model::create("c1".to_string());
    model.append(entry("a", "one", at(JAN_1_2024 + 10 * 3600, 0)));
    model.append(entry("b", "two", at(JAN_1_2024 + 12 * 3600, 0)));
    model.append(entry("c", "three", at(JAN_1_2024 + 86_400 + 9 * 3600, 0)));
    let shown = model.view();
    assert_eq!(shown.len(), 3);
    assert_eq!(shown[0].date_label.as_deref(), Some("2024-01-01"));
    assert_eq!(shown[1].date_label, None);
    assert_eq!(shown[2].date_label.as_deref(), Some("2024-01-02"));
    assert_eq!(shown[0].time_label, "10:00:00");
    assert_eq!(shown[1].time_label, "12:00:00");
    assert_eq!(shown[2].time_label, "09:00:00");
    assert_eq!(shown[0].body, "<p>one</p>\n");
    assert_eq!(shown[1].body, "<p>two</p>\n");
    assert_eq!(shown[2].body, "<p>three</p>\n");
    let dated = shown.iter().filter(|m| m.date_label.is_some()).count();
    assert_eq!(dated, 2);
}

#[test]
fn empty_feed_shows_nothing() {
    let (model, _) = Model::create("c1".to_string());
    assert!(model.view().is_empty());
}

#[test]
fn a_day_that_comes_back_is_dated_again() {
    let (mut model, _) = Model::create("c1".to_string());
    model.append(entry("a", "x", at(JAN_1_2024, 0)));
    model.append(entry("b", "x", at(JAN_1_2024 + 86_400, 0)));
    model.append(entry("c", "x", at(JAN_1_2024 + 5, 0)));
    let shown = model.view();
    assert_eq!(shown[0].date_label.as_deref(), Some("2024-01-01"));
    assert_eq!(shown[1].date_label.as_deref(), Some("2024-01-02"));
    assert_eq!(shown[2].date_label.as_deref(), Some("2024-01-01"));
}

#[test]
fn the_zone_decides_the_day() {
    let late = at(JAN_1_2024 + 23 * 3600 + 30 * 60, 3600);
    assert_eq!(late.local_day(), 19_724);
    assert_eq!(late.date_label(), "2024-01-02");
    assert_eq!(late.time_label(), "00:30:00");
    let early = at(JAN_1_2024 + 30 * 60, -3600);
    assert_eq!(early.local_day(), 19_722);
    assert_eq!(early.date_label(), "2023-12-31");
    assert_eq!(early.time_label(), "23:30:00");
}

#[test]
fn days_and_seconds_of_the_day() {
    assert_eq!(at(0, 0).local_day(), 0);
    assert_eq!(at(0, 0).local_second_of_day(), 0);
    assert_eq!(at(86_399, 0).local_day(), 0);
    assert_eq!(at(86_399, 0).local_second_of_day(), 86_399);
    assert_eq!(at(86_400, 0).local_day(), 1);
    assert_eq!(at(-1, 0).local_day(), -1);
    assert_eq!(at(-1, 0).local_second_of_day(), 86_399);
    assert_eq!(at(-86_400, 0).local_day(), -1);
    assert_eq!(at(-86_401, 0).local_day(), -2);
    assert_eq!(at(0, -1).local_day(), -1);
    assert_eq!(at(JAN_1_2024, 0).local_day(), 19_723);
}

#[test]
fn labels_before_the_epoch() {
    let t = at(-1, 0);
    assert_eq!(t.date_label(), "1969-12-31");
    assert_eq!(t.time_label(), "23:59:59");
    assert_eq!(at(0, 0).date_label(), "1970-01-01");
    assert_eq!(at(0, 0).time_label(), "00:00:00");
    assert_eq!(at(3_723, 0).time_label(), "01:02:03");
}

#[test]
fn labels_at_the_ends_of_the_range() {
    let first = at(MIN_SECS, -86_399);
    assert_eq!(first.local_day(), MIN_DAY);
    assert_eq!(first.date_label(), "-0001-12-30");
    assert_eq!(first.time_label(), "00:00:01");
    let last = at(MAX_SECS, 86_399);
    assert_eq!(last.local_day(), MAX_DAY);
    assert_eq!(last.date_label(), "+10000-01-02");
    assert_eq!(last.time_label(), "23:59:58");
}

#[test]
fn markup_follows_the_day_seen_before() {
    let e = Entry::new(
        "e".to_string(),
        "see %1".to_string(),
        at(JAN_1_2024 + 3_661, 0),
        vec![Attachment {
            id: 1,
            mime: "application/zip".to_string(),
            original_name: "a<b.zip".to_string(),
            download_token: "tok".to_string(),
        }],
    );
    let first = to_markup(&e, None);
    assert_eq!(first.date_label.as_deref(), Some("2024-01-01"));
    assert_eq!(first.time_label, "01:01:01");
    assert_eq!(
        first.body,
        "<p>see <a href='http://127.0.0.1:8080/tok' download>a&lt;b.zip</a></p>\n"
    );
    let same = to_markup(&e, Some(19_723));
    assert_eq!(same.date_label, None);
    assert_eq!(same.time_label, "01:01:01");
    let other = to_markup(&e, Some(19_722));
    assert_eq!(other.date_label.as_deref(), Some("2024-01-01"));
}

#[test]
fn timestamps_within_and_out_of_range() {
    assert!(at(0, 0).is_wf());
    assert!(at(MIN_SECS, -86_399).is_wf());
    assert!(at(MAX_SECS, 86_399).is_wf());
    assert!(!at(MIN_SECS - 1, 0).is_wf());
    assert!(!at(MAX_SECS + 1, 0).is_wf());
    assert!(!at(0, 86_400).is_wf());
    assert!(!at(0, -86_400).is_wf());
}

#[test]
fn feed_can_be_shown_when_every_timestamp_is_in_range() {
    let (mut model, _) = Model::create("c1".to_string());
    assert!(model.can_show());
    model.append(entry("a", "x", at(JAN_1_2024, 0)));
    model.append(entry("b", "x", at(JAN_1_2024, 3600)));
    assert!(model.can_show());
    model.append(entry("c", "x", at(MAX_SECS + 1, 0)));
    assert!(!model.can_show());
    model.append(entry("d", "x", at(0, 0)));
    assert!(!model.can_show());
}
