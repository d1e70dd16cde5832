use elogbook::models::{Attachment, Entry, Timestamp};
use elogbook::render::{
    classify_mime, expand_attachment_html, markdown_to_html, parse_log_text, MimeKind,
};
use elogbook::text::{push_decimal, push_natural, push_range, to_chars};

fn attachment(id: u32, mime: &str, name: &str, token: &str) -> Attachment {
    Attachment {
        id,
        mime: mime.to_string(),
        original_name: name.to_string(),
        download_token: token.to_string(),
    }
}

#[test]
fn escape_beats_placeholder() {
    assert_eq!(parse_log_text("\\%5", &[]), "%5");
}

#[test]
fn unmatched_id_echoes_literally() {
    assert_eq!(parse_log_text("%5", &[]), "%5");
}

#[test]
fn matched_id_is_replaced_and_text_goes_on() {
    let atts = vec![attachment(5, "image/png", "cat.png", "tok5")];
    let expansion = expand_attachment_html(&atts[0]);
    assert_eq!(parse_log_text("%5 text", &atts), format!("{} text", expansion));
    assert_eq!(
        parse_log_text("%5 text", &atts),
        "<img src='http://127.0.0.1:8080/tok5' alt='cat.png' /> text"
    );
}

#[test]
fn percent_without_digits_is_literal() {
    assert_eq!(parse_log_text("100% done", &[]), "100% done");
}

#[test]
fn escape_beats_placeholder_even_when_the_id_exists() {
    let atts = vec![attachment(5, "image/png", "cat.png", "tok5")];
    assert_eq!(parse_log_text("\\%5", &atts), "%5");
}

#[test]
fn backslash_before_anything_else_stays() {
    assert_eq!(parse_log_text("a\\b", &[]), "a\\b");
    assert_eq!(parse_log_text("\\\\%", &[]), "\\%");
    assert_eq!(parse_log_text("end\\", &[]), "end\\");
}

#[test]
fn percent_at_the_end_is_literal() {
    assert_eq!(parse_log_text("50%", &[]), "50%");
    assert_eq!(parse_log_text("%", &[]), "%");
    assert_eq!(parse_log_text("%%", &[]), "%%");
}

#[test]
fn empty_text_expands_to_nothing() {
    assert_eq!(parse_log_text("", &[]), "");
}

#[test]
fn digits_are_taken_greedily() {
    let atts = vec![
        attachment(1, "text/plain", "one.txt", "t1"),
        attachment(12, "application/zip", "twelve.zip", "t12"),
    ];
    assert_eq!(
        parse_log_text("see %12!", &atts),
        "see <a href='http://127.0.0.1:8080/t12' download>twelve.zip</a>!"
    );
    assert_eq!(parse_log_text("%123", &atts), "%123");
}

#[test]
fn unmatched_token_keeps_its_leading_zeros() {
    assert_eq!(parse_log_text("%007 agents", &[]), "%007 agents");
}

#[test]
fn leading_zeros_still_name_the_id() {
    let atts = vec![attachment(7, "application/zip", "z.zip", "t7")];
    assert_eq!(
        parse_log_text("%007", &atts),
        "<a href='http://127.0.0.1:8080/t7' download>z.zip</a>"
    );
}

#[test]
fn id_too_large_for_an_attachment_is_echoed() {
    let atts = vec![attachment(u32::MAX, "application/zip", "z.zip", "tmax")];
    assert_eq!(parse_log_text("%4294967296", &atts), "%4294967296");
    assert_eq!(
        parse_log_text("%99999999999999999999999999 x", &atts),
        "%99999999999999999999999999 x"
    );
    assert_eq!(
        parse_log_text("%4294967295", &atts),
        "<a href='http://127.0.0.1:8080/tmax' download>z.zip</a>"
    );
}

#[test]
fn first_attachment_with_the_id_wins() {
    let atts = vec![
        attachment(3, "application/zip", "first.zip", "a"),
        attachment(3, "application/zip", "second.zip", "b"),
    ];
    assert_eq!(
        parse_log_text("%3", &atts),
        "<a href='http://127.0.0.1:8080/a' download>first.zip</a>"
    );
}

#[test]
fn only_ascii_digits_make_an_id() {
    let atts = vec![attachment(5, "application/zip", "z.zip", "t")];
    assert_eq!(parse_log_text("%\u{0665}", &atts), "%\u{0665}");
}

#[test]
fn text_around_tokens_is_copied() {
    let atts = vec![attachment(2, "application/zip", "z.zip", "t")];
    assert_eq!(
        parse_log_text("\u{65e5}\u{672c} %2 \u{8a9e} %9", &atts),
        "\u{65e5}\u{672c} <a href='http://127.0.0.1:8080/t' download>z.zip</a> \u{8a9e} %9"
    );
}

#[test]
fn image_types_are_shown_inline() {
    for mime in ["image/png", "image/jpeg", "image/gif"] {
        let att = attachment(1, mime, "pic", "tok");
        assert_eq!(
            expand_attachment_html(&att),
            "<img src='http://127.0.0.1:8080/tok' alt='pic' />"
        );
    }
}

#[test]
fn pdf_and_plain_text_get_a_preview_container() {
    for mime in ["application/pdf", "text/plain"] {
        let att = attachment(1, mime, "doc<1>", "tok");
        assert_eq!(
            expand_attachment_html(&att),
            "<div class='attachment-preview' data-src='http://127.0.0.1:8080/tok' data-token='tok'></div>"
        );
    }
}

#[test]
fn other_types_get_a_download_link() {
    let att = attachment(1, "application/octet-stream", "data.bin", "tok");
    assert_eq!(
        expand_attachment_html(&att),
        "<a href='http://127.0.0.1:8080/tok' download>data.bin</a>"
    );
}

#[test]
fn every_mime_string_renders() {
    for mime in ["", "image/PNG", "image/png; charset=x", "nonsense", "\u{1f600}/\u{1f600}"] {
        let att = attachment(1, mime, "f", "tok");
        assert_eq!(
            expand_attachment_html(&att),
            "<a href='http://127.0.0.1:8080/tok' download>f</a>"
        );
    }
}

#[test]
fn file_name_is_escaped() {
    let link = attachment(1, "application/zip", "a<b>&c.zip", "tok");
    assert_eq!(
        expand_attachment_html(&link),
        "<a href='http://127.0.0.1:8080/tok' download>a&lt;b&gt;&amp;c.zip</a>"
    );
    let image = attachment(1, "image/png", "<script>&", "tok");
    assert_eq!(
        expand_attachment_html(&image),
        "<img src='http://127.0.0.1:8080/tok' alt='&lt;script&gt;&amp;' />"
    );
}

#[test]
fn quotes_in_a_file_name_are_left_alone() {
    let att = attachment(1, "application/zip", "it's \"x\"", "tok");
    assert_eq!(
        expand_attachment_html(&att),
        "<a href='http://127.0.0.1:8080/tok' download>it's \"x\"</a>"
    );
}

#[test]
fn mime_types_are_classified() {
    assert_eq!(classify_mime(&"image/png".to_string()), MimeKind::Image);
    assert_eq!(classify_mime(&"image/jpeg".to_string()), MimeKind::Image);
    assert_eq!(classify_mime(&"image/gif".to_string()), MimeKind::Image);
    assert_eq!(classify_mime(&"application/pdf".to_string()), MimeKind::Pdf);
    assert_eq!(classify_mime(&"text/plain".to_string()), MimeKind::PlainText);
    assert_eq!(classify_mime(&"image/webp".to_string()), MimeKind::Other);
    assert_eq!(classify_mime(&String::new()), MimeKind::Other);
}

fn entry(log: &str, attachments: Vec<Attachment>) -> Entry {
    Entry::new(
        "e1".to_string(),
        log.to_string(),
        Timestamp { secs: 0, offset: 0 },
        attachments,
    )
}

#[test]
fn markdown_is_rendered() {
    assert_eq!(markdown_to_html(&entry("hello", vec![])), "<p>hello</p>\n");
    assert_eq!(
        markdown_to_html(&entry("*hi* **there**", vec![])),
        "<p><em>hi</em> <strong>there</strong></p>\n"
    );
}

#[test]
fn attachment_markup_survives_markdown() {
    let e = entry("see %1", vec![attachment(1, "image/png", "a&b.png", "tok")]);
    assert_eq!(
        markdown_to_html(&e),
        "<p>see <img src='http://127.0.0.1:8080/tok' alt='a&amp;b.png' /></p>\n"
    );
}

#[test]
fn escaped_percent_reaches_markdown_as_percent() {
    assert_eq!(markdown_to_html(&entry("\\%1", vec![])), "<p>%1</p>\n");
}

#[test]
fn chars_are_read_in_order() {
    assert_eq!(to_chars("a\u{e9}\u{1f600}z"), vec!['a', '\u{e9}', '\u{1f600}', 'z']);
    assert_eq!(to_chars(""), Vec::<char>::new());
}

#[test]
fn range_is_appended() {
    let chars = to_chars("hello");
    let mut out = String::from("<");
    push_range(&mut out, &chars, 1, 4);
    assert_eq!(out, "<ell");
    push_range(&mut out, &chars, 2, 2);
    assert_eq!(out, "<ell");
}

#[test]
fn numbers_in_decimal() {
    let mut out = String::from("n=");
    push_decimal(&mut out, 0);
    assert_eq!(out, "n=0");
    let mut out = String::new();
    push_decimal(&mut out, 7);
    push_decimal(&mut out, -7);
    push_decimal(&mut out, 1_234_567_890);
    assert_eq!(out, "7-71234567890");
    let mut out = String::new();
    push_decimal(&mut out, i64::MIN);
    assert_eq!(out, "-9223372036854775808");
    let mut out = String::new();
    push_decimal(&mut out, i64::MAX);
    assert_eq!(out, "9223372036854775807");
    let mut out = String::new();
    push_natural(&mut out, u64::MAX);
    assert_eq!(out, "18446744073709551615");
    let mut out = String::new();
    push_natural(&mut out, 10);
    push_natural(&mut out, 9);
    push_natural(&mut out, 100);
    assert_eq!(out, "109100");
}
