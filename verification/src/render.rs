//! Turning an entry's raw text into markup: attachment fragments, placeholder
//! expansion, and the markdown pass.

use crate::models::{Attachment, Entry};
use crate::text::{push_char, push_range, to_chars};
use vstd::prelude::*;

verus! {

/// What one character becomes in HTML text: `&`, `<` and `>` turn into their
/// entities, every other character stays.
pub open spec fn escaped_char(c: char) -> Seq<char> {
    if c == '&' {
        seq!['&', 'a', 'm', 'p', ';']
    } else if c == '<' {
        seq!['&', 'l', 't', ';']
    } else if c == '>' {
        seq!['&', 'g', 't', ';']
    } else {
        seq![c]
    }
}

/// `text` with every character escaped for use as HTML text.
pub open spec fn escaped_text(text: Seq<char>) -> Seq<char>
    decreases text.len(),
{
    if text.len() == 0 {
        Seq::empty()
    } else {
        escaped_text(text.drop_last()) + escaped_char(text.last())
    }
}

/// At position `k` of `text` an entity begins: `&amp;`, `&lt;` or `&gt;`.
pub open spec fn entity_at(text: Seq<char>, k: int) -> bool {
    ||| k + 5 <= text.len() && text.subrange(k, k + 5) == seq!['&', 'a', 'm', 'p', ';']
    ||| k + 4 <= text.len() && text.subrange(k, k + 4) == seq!['&', 'l', 't', ';']
    ||| k + 4 <= text.len() && text.subrange(k, k + 4) == seq!['&', 'g', 't', ';']
}

/// Escaped text cannot open or close a tag, whatever the text was: it holds
/// no `<` and no `>`, and each `&` in it begins one of the three entities.
pub proof fn lemma_escaped_text_is_inert(text: Seq<char>)
    ensures
        forall|k: int|
            0 <= k < escaped_text(text).len() ==> {
                &&& #[trigger] escaped_text(text)[k] != '<'
                &&& escaped_text(text)[k] != '>'
                &&& escaped_text(text)[k] == '&' ==> entity_at(escaped_text(text), k)
            },
    decreases text.len(),
{
    if text.len() > 0 {
        let head = escaped_text(text.drop_last());
        let last = escaped_char(text.last());
        let whole = escaped_text(text);
        lemma_escaped_text_is_inert(text.drop_last());
        assert forall|k: int| 0 <= k < whole.len() implies {
            &&& #[trigger] whole[k] != '<'
            &&& whole[k] != '>'
            &&& whole[k] == '&' ==> entity_at(whole, k)
        } by {
            if k < head.len() {
                if head[k] == '&' {
                    assert(head.subrange(k, k + 4) == whole.subrange(k, k + 4));
                    if k + 5 <= head.len() {
                        assert(head.subrange(k, k + 5) == whole.subrange(k, k + 5));
                    }
                }
            } else {
                if whole[k] == '&' {
                    assert(whole.subrange(k, k + last.len()) == last);
                }
            }
        }
    }
}

/// `html_escape::encode_text`.
///
/// Trusted: the result is the input with each `&`, `<` and `>` replaced by
/// `&amp;`, `&lt;` and `&gt;`, and nothing else changed.
#[verifier::external_body]
fn escape_text(text: &str) -> (escaped: String)
    ensures
        escaped@ == escaped_text(text@),
{
    html_escape::encode_text(text).into_owned()
}

/// The categories of attachment that are shown differently.
#[derive(Clone, Copy, Debug, PartialEq, Eq, Structural)]
pub enum MimeKind {
    /// `image/png`, `image/jpeg`, `image/gif`: shown inline.
    Image,
    /// `application/pdf`: a preview that the page fills in later.
    Pdf,
    /// `text/plain`: a preview that the page fills in later.
    PlainText,
    /// Anything else: offered for download.
    Other,
}

/// The category of a MIME type. The comparison is exact: no parameters, no
/// case folding.
pub open spec fn mime_kind(mime: Seq<char>) -> MimeKind {
    if mime == "image/png"@ || mime == "image/jpeg"@ || mime == "image/gif"@ {
        MimeKind::Image
    } else if mime == "application/pdf"@ {
        MimeKind::Pdf
    } else if mime == "text/plain"@ {
        MimeKind::PlainText
    } else {
        MimeKind::Other
    }
}

/// Where an attachment with the given token is downloaded from.
pub open spec fn download_path(token: Seq<char>) -> Seq<char> {
    "http://127.0.0.1:8080/"@ + token
}

/// The markup that stands for an attachment.
pub open spec fn attachment_markup(attachment: Attachment) -> Seq<char> {
    let path = download_path(attachment.download_token@);
    let name = escaped_text(attachment.original_name@);
    match mime_kind(attachment.mime@) {
        MimeKind::Image => "<img src='"@ + path + "' alt='"@ + name + "' />"@,
        MimeKind::Pdf | MimeKind::PlainText => "<div class='attachment-preview' data-src='"@ + path
            + "' data-token='"@ + attachment.download_token@ + "'></div>"@,
        MimeKind::Other => "<a href='"@ + path + "' download>"@ + name + "</a>"@,
    }
}

fn same_text(a: &String, b: &str) -> (same: bool)
    ensures
        same == (a@ == b@),
{
    let b_owned = String::from_str(b);
    *a == b_owned
}

/// Classifies a MIME type.
pub fn classify_mime(mime: &String) -> (kind: MimeKind)
    ensures
        kind == mime_kind(mime@),
{
    if same_text(mime, "image/png") || same_text(mime, "image/jpeg") || same_text(
        mime,
        "image/gif",
    ) {
        MimeKind::Image
    } else if same_text(mime, "application/pdf") {
        MimeKind::Pdf
    } else if same_text(mime, "text/plain") {
        MimeKind::PlainText
    } else {
        MimeKind::Other
    }
}

/// The markup fragment for one attachment, chosen by its MIME type alone:
/// an inline image, a preview container that carries the download path and
/// the token, or a download link. The file name is escaped; path and token
/// are embedded as they are.
pub fn expand_attachment_html(attachment: &Attachment) -> (html: String)
    ensures
        html@ == attachment_markup(*attachment),
{
    let mut path = String::from_str("http://127.0.0.1:8080/");
    path.append(attachment.download_token.as_str());
    match classify_mime(&attachment.mime) {
        MimeKind::Image => {
            let name = escape_text(attachment.original_name.as_str());
            let mut html = String::from_str("<img src='");
            html.append(path.as_str());
            html.append("' alt='");
            html.append(name.as_str());
            html.append("' />");
            html
        },
        MimeKind::Pdf | MimeKind::PlainText => {
            let mut html = String::from_str("<div class='attachment-preview' data-src='");
            html.append(path.as_str());
            html.append("' data-token='");
            html.append(attachment.download_token.as_str());
            html.append("'></div>");
            html
        },
        MimeKind::Other => {
            let name = escape_text(attachment.original_name.as_str());
            let mut html = String::from_str("<a href='");
            html.append(path.as_str());
            html.append("' download>");
            html.append(name.as_str());
            html.append("</a>");
            html
        },
    }
}

/// A decimal digit, `0` to `9`.
pub open spec fn is_digit(c: char) -> bool {
    '0' <= c <= '9'
}

/// The number of digits that stand in `text` at `from` without a gap.
pub open spec fn digit_run_len(text: Seq<char>, from: int) -> nat
    decreases text.len() - from,
{
    if 0 <= from < text.len() && is_digit(text[from]) {
        1 + digit_run_len(text, from + 1)
    } else {
        0
    }
}

/// The number that a run of decimal digits denotes.
pub open spec fn digits_value(digits: Seq<char>) -> nat
    decreases digits.len(),
{
    if digits.len() == 0 {
        0
    } else {
        digits_value(digits.drop_last()) * 10 + ((digits.last() as int - '0' as int) as nat)
    }
}

/// The index of the first attachment at or after `from` whose id is `id`;
/// the length of the list where there is none.
pub open spec fn first_with_id(attachments: Seq<Attachment>, id: nat, from: int) -> int
    decreases attachments.len() - from,
{
    if 0 <= from < attachments.len() && attachments[from].id != id {
        first_with_id(attachments, id, from + 1)
    } else {
        from
    }
}

/// The expansion of `text` from position `i` on.
///
/// A backslash before `%` gives a plain `%`; any other backslash stays. A
/// `%` with digits behind it names an attachment by the number that the
/// longest run of digits denotes: the first attachment with that id is put
/// in its place, and where there is none the token stays as written. A `%`
/// without digits, and every other character, stays.
pub open spec fn expand_from(text: Seq<char>, attachments: Seq<Attachment>, i: int) -> Seq<char>
    decreases text.len() - i,
{
    if i < 0 || i >= text.len() {
        Seq::empty()
    } else if text[i] == '\\' {
        if i + 1 < text.len() && text[i + 1] == '%' {
            seq!['%'] + expand_from(text, attachments, i + 2)
        } else {
            seq!['\\'] + expand_from(text, attachments, i + 1)
        }
    } else if text[i] == '%' {
        let run = digit_run_len(text, i + 1);
        let end = i + 1 + run;
        if run == 0 {
            seq!['%'] + expand_from(text, attachments, end)
        } else {
            proof {
                lemma_digit_run_in_bounds(text, i + 1);
            }
            let found = first_with_id(attachments, digits_value(text.subrange(i + 1, end)), 0);
            if found < attachments.len() {
                attachment_markup(attachments[found]) + expand_from(text, attachments, end)
            } else {
                text.subrange(i, end) + expand_from(text, attachments, end)
            }
        }
    } else {
        seq![text[i]] + expand_from(text, attachments, i + 1)
    }
}

/// The text with every placeholder expanded.
pub open spec fn expanded(text: Seq<char>, attachments: Seq<Attachment>) -> Seq<char> {
    expand_from(text, attachments, 0)
}

/// A run of digits ends inside the text.
pub proof fn lemma_digit_run_in_bounds(text: Seq<char>, from: int)
    requires
        0 <= from <= text.len(),
    ensures
        from + digit_run_len(text, from) <= text.len(),
    decreases text.len() - from,
{
    if from < text.len() && is_digit(text[from]) {
        lemma_digit_run_in_bounds(text, from + 1);
    }
}

/// Reads the digits at `from`: where they end, and the number they denote
/// if it fits an attachment id.
fn scan_id(chars: &Vec<char>, from: usize) -> (scanned: (usize, Option<u32>))
    requires
        from <= chars.len(),
    ensures
        scanned.0 == from + digit_run_len(chars@, from as int),
        scanned.0 <= chars.len(),
        scanned.1 == (if digits_value(chars@.subrange(from as int, scanned.0 as int)) <= u32::MAX {
            Some(digits_value(chars@.subrange(from as int, scanned.0 as int)) as u32)
        } else {
            None
        }),
{
    let n = chars.len();
    let mut j: usize = from;
    let mut value: u64 = 0;
    let mut fits: bool = true;
    while j < n && '0' <= chars[j] && chars[j] <= '9'
        invariant
            from <= j <= n,
            n == chars.len(),
            from + digit_run_len(chars@, from as int) == j + digit_run_len(chars@, j as int),
            fits ==> value == digits_value(chars@.subrange(from as int, j as int)) && value
                <= u32::MAX,
            !fits ==> digits_value(chars@.subrange(from as int, j as int)) > u32::MAX,
        decreases n - j,
    {
        let digit: u64 = (chars[j] as u32 - '0' as u32) as u64;
        proof {
            let before = chars@.subrange(from as int, j as int);
            let after = chars@.subrange(from as int, j + 1);
            assert(after.drop_last() == before);
        }
        if fits {
            value = value * 10 + digit;
            if value > 0xffff_ffff {
                fits = false;
            }
        }
        j += 1;
    }
    if fits {
        (j, Some(value as u32))
    } else {
        (j, None)
    }
}

/// The position of the first attachment with the given id.
fn find_attachment(attachments: &[Attachment], id: u32) -> (found: Option<usize>)
    ensures
        match found {
            Some(k) => k < attachments@.len() && k == first_with_id(attachments@, id as nat, 0),
            None => first_with_id(attachments@, id as nat, 0) == attachments@.len(),
        },
{
    let mut k: usize = 0;
    while k < attachments.len()
        invariant
            k <= attachments@.len(),
            first_with_id(attachments@, id as nat, 0) == first_with_id(
                attachments@,
                id as nat,
                k as int,
            ),
        decreases attachments@.len() - k,
    {
        if attachments[k].id == id {
            return Some(k);
        }
        k += 1;
    }
    None
}

/// No attachment carries an id that is too large for one.
proof fn lemma_large_id_not_found(attachments: Seq<Attachment>, id: nat, from: int)
    requires
        id > u32::MAX,
        0 <= from <= attachments.len(),
    ensures
        first_with_id(attachments, id, from) == attachments.len(),
    decreases attachments.len() - from,
{
    if from < attachments.len() {
        lemma_large_id_not_found(attachments, id, from + 1);
    }
}

/// Expands the placeholders of `log_text`: each `%` and the digits behind it
/// is replaced by the markup of the attachment with that id, `\%` gives a
/// plain `%`, and everything else is copied. Never fails.
pub fn parse_log_text(log_text: &str, attachments: &[Attachment]) -> (result: String)
    ensures
        result@ == expanded(log_text@, attachments@),
{
    let chars = to_chars(log_text);
    let n = chars.len();
    let mut result = String::new();
    let mut i: usize = 0;
    while i < n
        invariant
            i <= n,
            n == chars.len(),
            result@ + expand_from(chars@, attachments@, i as int) == expanded(
                chars@,
                attachments@,
            ),
        decreases n - i,
    {
        let c = chars[i];
        if c == '\\' {
            if i + 1 < n && chars[i + 1] == '%' {
                push_char(&mut result, '%');
                i += 2;
            } else {
                push_char(&mut result, c);
                i += 1;
            }
        } else if c == '%' {
            let (end, id) = scan_id(&chars, i + 1);
            let found = match id {
                Some(id) => find_attachment(attachments, id),
                None => None,
            };
            proof {
                let value = digits_value(chars@.subrange(i + 1, end as int));
                if id is None {
                    lemma_large_id_not_found(attachments@, value, 0);
                }
            }
            if end == i + 1 {
                push_char(&mut result, c);
            } else {
                match found {
                    Some(k) => {
                        let html = expand_attachment_html(&attachments[k]);
                        result.append(html.as_str());
                    },
                    None => {
                        push_range(&mut result, &chars, i, end);
                    },
                }
            }
            i = end;
        } else {
            push_char(&mut result, c);
            i += 1;
        }
    }
    result
}

/// The HTML that the markdown text `text` renders to.
pub uninterp spec fn markdown_html(text: Seq<char>) -> Seq<char>;

/// `pulldown_cmark::Parser::new` on the text and `pulldown_cmark::html::push_html`
/// of its events into an empty string.
///
/// Trusted: the result depends on the text alone. What markdown renders to
/// is not stated here.
#[verifier::external_body]
fn render_markdown(text: &str) -> (html: String)
    ensures
        html@ == markdown_html(text@),
{
    let mut html = String::new();
    pulldown_cmark::html::push_html(&mut html, pulldown_cmark::Parser::new(text));
    html
}

/// The body of an entry as HTML: the placeholders of its text are expanded
/// first, so that the attachment markup passes through the markdown renderer
/// as inline HTML, and the result is rendered as markdown.
pub fn markdown_to_html(entry: &Entry) -> (html: String)
    ensures
        html@ == markdown_html(expanded(entry.log@, entry.attachments@)),
{
    let log_with_attachments = parse_log_text(entry.log.as_str(), entry.attachments.as_slice());
    render_markdown(log_with_attachments.as_str())
}

} // verus!
