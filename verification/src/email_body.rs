//! Showing a received HTML body in the portal: inline images (`cid:` references)
//! point at the portal's inline attachment route, the HTML is sanitized, and long runs
//! of blank lines are shortened.
use vstd::prelude::*;
use crate::text::{chars_of, lacks, starts_with, string_from};
use vstd::arithmetic::power2::pow2;
use crate::message::{mail_headers, mail_parts, part_views, spec_mail_headers, spec_mail_parts, spec_utf8_lossy, utf8_lossy, MailHeadersView};
use crate::mime::{sanitize_header, strip_crlf};
use crate::mime::opt_view;

verus! {

pub open spec fn is_quote(c: char) -> bool {
    c == '"' || c == '\''
}

/// The length of the run of non-quote characters at the start of `s`.
pub open spec fn name_len(s: Seq<char>) -> nat
    decreases s.len(),
{
    if s.len() == 0 || is_quote(s[0]) {
        0
    } else {
        1 + name_len(s.drop_first())
    }
}

/// The `cid:` reference that starts `s`, if one does: `src=`, a quote, `cid:`, a name of
/// one or more non-quote characters, and a quote (the pattern
/// `src=["']cid:([^"']+)["']`); its length and name.
pub open spec fn cid_at(s: Seq<char>) -> Option<(nat, Seq<char>)> {
    if s.len() >= 9 && s.subrange(0, 4) == "src="@ && is_quote(s[4]) && s.subrange(5, 9) == "cid:"@ {
        let rest = s.skip(9);
        let n = name_len(rest);
        if n >= 1 && n < rest.len() {
            Some(((9 + n + 1) as nat, rest.take(n as int)))
        } else {
            None
        }
    } else {
        None
    }
}

/// Every `cid:` reference, scanning from the left, replaced by
/// `src="/dashboard/email/<email_id>/inline/<name>"`.
pub open spec fn rewrite_cids(s: Seq<char>, email_id: Seq<char>) -> Seq<char>
    decreases s.len(),
{
    if s.len() == 0 {
        Seq::empty()
    } else {
        match cid_at(s) {
            Some((n, name)) => if n <= s.len() && n > 0 {
                "src=\"/dashboard/email/"@ + email_id + "/inline/"@ + name + "\""@ + rewrite_cids(s.skip(n as int), email_id)
            } else {
                seq![s[0]] + rewrite_cids(s.drop_first(), email_id)
            },
            None => seq![s[0]] + rewrite_cids(s.drop_first(), email_id),
        }
    }
}

/// `s` with every run of three or more newlines shortened to two (the pattern `\n{3,}`
/// replaced by `\n\n`).
pub open spec fn collapse_newlines(s: Seq<char>) -> Seq<char>
    decreases s.len(),
{
    if s.len() == 0 {
        Seq::empty()
    } else {
        let run = newline_run(s);
        if run >= 3 {
            proof {
                lemma_newline_run_bound(s);
            }
            seq!['\n', '\n'] + collapse_newlines(s.skip(run as int))
        } else {
            seq![s[0]] + collapse_newlines(s.drop_first())
        }
    }
}

/// The number of newlines that `s` starts with.
pub open spec fn newline_run(s: Seq<char>) -> nat
    decreases s.len(),
{
    if s.len() > 0 && s[0] == '\n' {
        1 + newline_run(s.drop_first())
    } else {
        0
    }
}

/// A run of newlines is no longer than the text.
pub proof fn lemma_newline_run_bound(s: Seq<char>)
    ensures
        newline_run(s) <= s.len(),
    decreases s.len(),
{
    if s.len() > 0 && s[0] == '\n' {
        lemma_newline_run_bound(s.drop_first());
    }
}

/// What the portal's HTML sanitizer (ammonia's default policy, plus `style`, `class`
/// and `id` attributes and `<style>` elements kept, relative URLs passed through, and
/// `rel="noopener noreferrer"` on links) makes of `html`.
pub uninterp spec fn spec_sanitize_html(html: Seq<char>) -> Seq<char>;

/// `Regex::new(r#"src=["']cid:([^"']+)["']"#)` and `replace_all` with
/// `src="/dashboard/email/<id>/inline/$1"`: leftmost matches, left to right, which is
/// what `rewrite_cids` spells out.  The id is part of the replacement template, so it
/// must hold no `$`.
#[verifier::external_body]
fn regex_rewrite_cids(html: &str, email_id: &str) -> (r: String)
    requires
        lacks(email_id@, '$'),
    ensures
        r@ == rewrite_cids(html@, email_id@),
{
    let re = regex::Regex::new(r#"src=["']cid:([^"']+)["']"#).unwrap();
    re.replace_all(html, format!(r#"src="/dashboard/email/{}/inline/$1""#, email_id)).to_string()
}

// ------------------------------------------------------------------
// Email ids
// ------------------------------------------------------------------

/// The lowercase hex digit of `d` (from 0 to 15).
pub open spec fn hex_char(d: int) -> char {
    if d < 10 {
        (d + 48) as char
    } else {
        (d + 87) as char
    }
}

/// The `k`-th hex digit of `id`, the most significant first (`k` from 0 to 31).
pub open spec fn nibble(id: u128, k: int) -> int {
    (id as int / pow2((4 * (31 - k)) as nat) as int) % 16
}

/// The hex digits `from` to `to` (exclusive) of `id`.
pub open spec fn hex_run(id: u128, from: int, to: int) -> Seq<char> {
    Seq::new((to - from) as nat, |i: int| hex_char(nibble(id, from + i)))
}

/// The hyphenated lowercase form of a UUID: groups of 8, 4, 4, 4 and 12 hex digits.
pub open spec fn uuid_hyphenated(id: u128) -> Seq<char> {
    hex_run(id, 0, 8) + seq!['-'] + hex_run(id, 8, 12) + seq!['-'] + hex_run(id, 12, 16) + seq!['-']
        + hex_run(id, 16, 20) + seq!['-'] + hex_run(id, 20, 32)
}

/// `Uuid::from_u128(id).to_string()`, the hyphenated lowercase form.
#[verifier::external_body]
pub(crate) fn uuid_text(id: u128) -> (r: String)
    ensures
        r@ == uuid_hyphenated(id),
{
    uuid::Uuid::from_u128(id).to_string()
}

proof fn lemma_hex_run_no_dollar(id: u128, from: int, to: int)
    requires
        from <= to,
    ensures
        lacks(hex_run(id, from, to), '$'),
{
    assert forall|i: int| 0 <= i < hex_run(id, from, to).len() implies hex_run(id, from, to)[i] != '$' by {
        let d = nibble(id, from + i);
        assert(0 <= d < 16);
        if d < 10 {
            assert(hex_char(d) as int == d + 48);
        } else {
            assert(hex_char(d) as int == d + 87);
        }
    }
}

/// An email id in text holds no `$`.
proof fn lemma_uuid_no_dollar(id: u128)
    ensures
        lacks(uuid_hyphenated(id), '$'),
{
    lemma_hex_run_no_dollar(id, 0, 8);
    lemma_hex_run_no_dollar(id, 8, 12);
    lemma_hex_run_no_dollar(id, 12, 16);
    lemma_hex_run_no_dollar(id, 16, 20);
    lemma_hex_run_no_dollar(id, 20, 32);
    let u = uuid_hyphenated(id);
    let a = hex_run(id, 0, 8);
    let b = hex_run(id, 8, 12);
    let c = hex_run(id, 12, 16);
    let d = hex_run(id, 16, 20);
    let e = hex_run(id, 20, 32);
    assert forall|i: int| 0 <= i < u.len() implies u[i] != '$' by {
        if i < 8 {
            assert(u[i] == a[i]);
        } else if i == 8 || i == 13 || i == 18 || i == 23 {
        } else if i < 13 {
            assert(u[i] == b[i - 9]);
        } else if i < 18 {
            assert(u[i] == c[i - 14]);
        } else if i < 23 {
            assert(u[i] == d[i - 19]);
        } else {
            assert(u[i] == e[i - 24]);
        }
    }
}

/// `ammonia::Builder` configured as the portal configures it, and `clean(html)`.
#[verifier::external_body]
fn ammonia_sanitize(html: &str) -> (r: String)
    ensures
        r@ == spec_sanitize_html(html@),
{
    ammonia::Builder::default()
        .add_generic_attributes(&["style", "class", "id"])
        .rm_clean_content_tags(&["style"])
        .add_tags(&["style"])
        .url_relative(ammonia::UrlRelative::PassThrough)
        .link_rel(Some("noopener noreferrer"))
        .clean(html)
        .to_string()
}

/// `Regex::new(r"\n{3,}")` and `replace_all` with `\n\n`.
#[verifier::external_body]
fn regex_collapse_newlines(s: &str) -> (r: String)
    ensures
        r@ == collapse_newlines(s@),
{
    regex::Regex::new(r"\n{3,}").unwrap().replace_all(s, "\n\n").to_string()
}

/// Points the body's `cid:` image references at the inline attachment route of the
/// email with id `email_id`.
pub fn rewrite_cid_references(html: &str, email_id: u128) -> (r: String)
    ensures
        r@ == rewrite_cids(html@, uuid_hyphenated(email_id)),
{
    let id = uuid_text(email_id);
    proof {
        lemma_uuid_no_dollar(email_id);
    }
    regex_rewrite_cids(html, id.as_str())
}

/// The body as the portal shows it: `cid:` references rewritten, sanitized, and runs of
/// blank lines shortened.
pub fn sanitize_email_body(raw_body: &str, email_id: u128) -> (r: String)
    ensures
        r@ == collapse_newlines(spec_sanitize_html(rewrite_cids(raw_body@, uuid_hyphenated(email_id)))),
{
    let rewritten = rewrite_cid_references(raw_body, email_id);
    let sanitized = ammonia_sanitize(rewritten.as_str());
    regex_collapse_newlines(sanitized.as_str())
}

/// `s` with every ` src=` (left to right, not overlapping) replaced by
/// ` data-remote-src=`, so that remote images of replies load only on request.
pub open spec fn defer_remote_images(s: Seq<char>) -> Seq<char>
    decreases s.len(),
{
    if s.len() == 0 {
        Seq::empty()
    } else if starts_with(s, seq![' ', 's', 'r', 'c', '=']) {
        " data-remote-src="@ + defer_remote_images(s.skip(5))
    } else {
        seq![s[0]] + defer_remote_images(s.drop_first())
    }
}

pub fn lazy_load_remote_images(body: &str) -> (r: String)
    ensures
        r@ == defer_remote_images(body@),
{
    let v = chars_of(body);
    let pat: Vec<char> = vec![' ', 's', 'r', 'c', '='];
    assert(pat@ =~= seq![' ', 's', 'r', 'c', '=']);
    let mut out = String::new();
    let mut i: usize = 0;
    assert(v@.skip(0) =~= v@);
    while i < v.len()
        invariant
            i <= v.len(),
            v@ == body@,
            pat@ == seq![' ', 's', 'r', 'c', '='],
            out@ + defer_remote_images(v@.skip(i as int)) == defer_remote_images(body@),
        decreases v.len() - i,
    {
        let ghost rest = v@.skip(i as int);
        if crate::text::matches_at(&v, &pat, i) {
            proof {
                assert(i + 5 <= v@.len());
                assert(rest.subrange(0, 5) =~= v@.subrange(i as int, i + 5));
                assert(starts_with(rest, seq![' ', 's', 'r', 'c', '=']));
                assert(rest.skip(5) =~= v@.skip(i + 5));
            }
            crate::text::push_str(&mut out, " data-remote-src=");
            i = i + 5;
        } else {
            proof {
                if starts_with(rest, seq![' ', 's', 'r', 'c', '=']) {
                    assert(rest.len() >= 5);
                    assert(v@.subrange(i as int, i + 5) =~= rest.subrange(0, 5));
                }
                assert(rest.drop_first() =~= v@.skip(i + 1));
                assert(rest[0] == v@[i as int]);
            }
            let one: Vec<char> = vec![v[i]];
            crate::text::push_chars(&mut out, &one);
            i = i + 1;
        }
        proof {
            assert(out@ + defer_remote_images(v@.skip(i as int)) =~= defer_remote_images(body@));
        }
    }
    assert(v@.skip(v.len() as int) =~= Seq::<char>::empty());
    assert(out@ + Seq::<char>::empty() =~= out@);
    out
}

/// What the portal shows of a received message.
pub struct ReceivedDetail {
    /// The `From:` address, or `Unknown`.
    pub sender: String,
    /// The subject, or `No Subject`.
    pub subject: String,
    /// The HTML body (else the text body), made safe to show.
    pub body: String,
    /// The `Date:` header in RFC 822 form, or empty.
    pub date: String,
}

pub open spec fn or_text(o: Option<Seq<char>>, d: Seq<char>) -> Seq<char> {
    match o {
        Some(s) => s,
        None => d,
    }
}

/// The body of a message as shown: its first HTML body, else its first text body.
pub open spec fn shown_body(h: MailHeadersView) -> Option<Seq<char>> {
    match h.html_body {
        Some(b) => Some(b),
        None => h.text_body,
    }
}

fn copy_or(o: &Option<String>, d: &str) -> (r: String)
    ensures
        r@ == or_text(opt_view(*o), d@),
{
    match o {
        Some(s) => string_from(&chars_of(s.as_str())),
        None => d.to_owned(),
    }
}

/// The received message stored as `raw`, shown as the email with id `email_id`; `None`
/// when the message cannot be parsed.
pub fn received_detail(raw: &[u8], email_id: u128) -> (r: Option<ReceivedDetail>)
    ensures
        match spec_mail_headers(raw@) {
            None => r is None,
            Some(h) => r matches Some(d) && d.sender@ == or_text(h.from_address, "Unknown"@) && d.subject@
                == or_text(h.subject, "No Subject"@) && d.body@ == collapse_newlines(
                spec_sanitize_html(rewrite_cids(or_text(shown_body(h), Seq::empty()), uuid_hyphenated(email_id))),
            ) && d.date@ == or_text(h.date, Seq::empty()),
        },
{
    proof {
        reveal_strlit("");
    }
    let h = match mail_headers(raw) {
        Some(h) => h,
        None => {
            return None;
        },
    };
    let raw_body = match &h.html_body {
        Some(b) => string_from(&chars_of(b.as_str())),
        None => copy_or(&h.text_body, ""),
    };
    Some(ReceivedDetail {
        sender: copy_or(&h.from_address, "Unknown"),
        subject: copy_or(&h.subject, "No Subject"),
        body: sanitize_email_body(raw_body.as_str(), email_id),
        date: copy_or(&h.date, ""),
    })
}

/// The body of a sent message stored as `raw`, shown as the email with id
/// `email_id`: its HTML or text body, or the whole stored text when it has neither or
/// cannot be parsed.
pub fn sent_body(raw: &[u8], email_id: u128) -> (r: String)
    ensures
        r@ == collapse_newlines(spec_sanitize_html(rewrite_cids(
            match spec_mail_headers(raw@) {
                Some(h) => match shown_body(h) {
                    Some(b) => b,
                    None => spec_utf8_lossy(raw@),
                },
                None => spec_utf8_lossy(raw@),
            },
            uuid_hyphenated(email_id),
        ))),
{
    let raw_body = match mail_headers(raw) {
        Some(h) => match h.html_body {
            Some(b) => b,
            None => match h.text_body {
                Some(t) => t,
                None => utf8_lossy(raw),
            },
        },
        None => utf8_lossy(raw),
    };
    sanitize_email_body(raw_body.as_str(), email_id)
}

/// A received reply in a thread: its body made safe, with remote images deferred.
pub fn thread_reply_body(raw: &[u8], email_id: u128) -> (r: Option<String>)
    ensures
        match spec_mail_headers(raw@) {
            None => r is None,
            Some(h) => r matches Some(b) && b@ == defer_remote_images(collapse_newlines(spec_sanitize_html(
                rewrite_cids(or_text(shown_body(h), Seq::empty()), uuid_hyphenated(email_id)),
            ))),
        },
{
    proof {
        reveal_strlit("");
    }
    let h = match mail_headers(raw) {
        Some(h) => h,
        None => {
            return None;
        },
    };
    let raw_body = match &h.html_body {
        Some(b) => string_from(&chars_of(b.as_str())),
        None => copy_or(&h.text_body, ""),
    };
    let body = sanitize_email_body(raw_body.as_str(), email_id);
    Some(lazy_load_remote_images(body.as_str()))
}

// ------------------------------------------------------------------
// Attachments
// ------------------------------------------------------------------

/// An attachment of a stored message, as the database lists it.
#[derive(Debug)]
pub struct AttachmentRow {
    pub id: u128,
    pub email_id: u128,
    pub filename: Option<String>,
    pub content_type: Option<String>,
    pub size_bytes: i64,
    /// Its position among the message's attachment parts.
    pub part_index: i32,
    pub is_inline: bool,
    pub content_id: Option<String>,
    /// When it was recorded, in nanoseconds since the Unix epoch.
    pub created_at: i128,
}

/// Whether the row is the inline part with content id `cid`.
pub open spec fn is_inline_with(row: AttachmentRow, cid: Seq<char>) -> bool {
    row.is_inline && opt_view(row.content_id) == Some(cid)
}

/// The first inline attachment with content id `cid`, the target of a `cid:` reference.
pub fn find_inline_attachment(rows: &Vec<AttachmentRow>, cid: &str) -> (r: Option<usize>)
    ensures
        match r {
            Some(i) => i < rows@.len() && is_inline_with(rows@[i as int], cid@) && forall|j: int|
                0 <= j < i ==> !is_inline_with(#[trigger] rows@[j], cid@),
            None => forall|j: int| 0 <= j < rows@.len() ==> !is_inline_with(#[trigger] rows@[j], cid@),
        },
{
    let mut i: usize = 0;
    while i < rows.len()
        invariant
            i <= rows@.len(),
            forall|j: int| 0 <= j < i ==> !is_inline_with(#[trigger] rows@[j], cid@),
        decreases rows@.len() - i,
    {
        if rows[i].is_inline {
            match &rows[i].content_id {
                Some(c) => {
                    if crate::text::str_eq(c.as_str(), cid) {
                        return Some(i);
                    }
                },
                None => {},
            }
        }
        i = i + 1;
    }
    None
}

/// `s` without its double quotes.
pub open spec fn without_quotes(s: Seq<char>) -> Seq<char> {
    s.filter(|c: char| c != '"')
}

/// The `Content-Disposition` of a download: the stored file name (or `attachment`)
/// without line breaks or double quotes, so it cannot break out of the header.
pub fn download_disposition(filename: &Option<String>) -> (d: String)
    ensures
        d@ == "attachment; filename=\""@ + without_quotes(strip_crlf(match filename {
            Some(f) => f@,
            None => "attachment"@,
        })) + "\""@,
{
    let raw = match filename {
        Some(f) => sanitize_header(f.as_str()),
        None => sanitize_header("attachment"),
    };
    let v = chars_of(raw.as_str());
    let ghost keep = |c: char| c != '"';
    let mut kept: Vec<char> = Vec::new();
    let mut i: usize = 0;
    while i < v.len()
        invariant
            i <= v@.len(),
            kept@ == v@.take(i as int).filter(keep),
            keep == (|c: char| c != '"'),
        decreases v@.len() - i,
    {
        proof {
            assert(v@.take(i + 1) =~= v@.take(i as int).push(v@[i as int]));
            v@.take(i as int).lemma_filter_push(v@[i as int], keep);
        }
        if v[i] != '"' {
            kept.push(v[i]);
        }
        i = i + 1;
    }
    assert(v@.take(v@.len() as int) =~= v@);
    let mut d = "attachment; filename=\"".to_owned();
    crate::text::push_chars(&mut d, &kept);
    crate::text::push_str(&mut d, "\"");
    d
}

/// The type an inline image is served with: the stored type (or
/// `application/octet-stream`) without line breaks, which must be an `image/` type;
/// otherwise the refusal to show.
pub fn inline_content_type(content_type: &Option<String>) -> (r: Result<String, String>)
    ensures
        ({
            let t = strip_crlf(match content_type {
                Some(c) => c@,
                None => "application/octet-stream"@,
            });
            &&& starts_with(t, "image/"@) ==> (r matches Ok(x) && x@ == t)
            &&& !starts_with(t, "image/"@) ==> (r matches Err(m) && m@ == "Not an image: "@ + t)
        }),
{
    let t = match content_type {
        Some(c) => sanitize_header(c.as_str()),
        None => sanitize_header("application/octet-stream"),
    };
    if crate::text::str_starts_with(t.as_str(), "image/") {
        Ok(t)
    } else {
        let mut m = "Not an image: ".to_owned();
        crate::text::push_str(&mut m, t.as_str());
        Err(m)
    }
}

/// What the stored message holds at an attachment position.
#[derive(Debug)]
pub enum PartLookup {
    /// The stored message cannot be parsed.
    Unparsable,
    /// It has no attachment part at that position.
    Missing,
    /// The part's decoded contents.
    Found(Vec<u8>),
}

/// The contents of attachment part number `part_index` of the stored message `raw`.
pub fn attachment_part(raw: &[u8], part_index: i32) -> (r: PartLookup)
    ensures
        spec_mail_headers(raw@) is None ==> r is Unparsable,
        spec_mail_headers(raw@) is Some ==> ({
            let parts = spec_mail_parts(raw@);
            if 0 <= part_index < parts.len() {
                r matches PartLookup::Found(d) && d@ == parts[part_index as int].contents
            } else {
                r is Missing
            }
        }),
{
    if mail_headers(raw).is_none() {
        return PartLookup::Unparsable;
    }
    let parts = mail_parts(raw);
    if part_index < 0 || part_index as usize >= parts.len() {
        return PartLookup::Missing;
    }
    let k = part_index as usize;
    assert(part_views(parts@)[k as int] == parts@[k as int]@);
    let mut d: Vec<u8> = Vec::new();
    let mut i: usize = 0;
    while i < parts[k].contents.len()
        invariant
            k < parts@.len(),
            i <= parts@[k as int].contents@.len(),
            d@ == parts@[k as int].contents@.take(i as int),
        decreases parts@[k as int].contents@.len() - i,
    {
        d.push(parts[k].contents[i]);
        i = i + 1;
        assert(d@ =~= parts@[k as int].contents@.take(i as int));
    }
    assert(parts@[k as int].contents@.take(i as int) =~= parts@[k as int].contents@);
    PartLookup::Found(d)
}

} // verus!
