//! Building raw MIME messages.
//!
//! `build_mime` writes the headers (every header value stripped of CR and LF so no
//! header can be injected), threading headers, and a body that is `text/plain`,
//! `multipart/alternative` (when there is an HTML part), wrapped in
//! `multipart/related` for inline attachments and `multipart/mixed` for regular ones.
use vstd::prelude::*;
use base64::Engine;
use crate::email_body::uuid_hyphenated;
use crate::text::{
    ascii_lower_seq, chars_of, ends_with, ends_with_chars, push_chars, push_str, slice_of,
    split_once, split_once_char, starts_with, string_from, trim, trim_chars, ascii_lower_chars,
    chars_eq,
};

verus! {

// ------------------------------------------------------------------
// Data
// ------------------------------------------------------------------

/// Represents a single MIME attachment.
pub struct Attachment {
    pub filename: Option<String>,
    pub content_type: String,
    pub data: Vec<u8>,
    pub is_inline: bool,
    pub content_id: Option<String>,
}

/// Represents the contents needed to build a MIME email.
pub struct MimeEmail {
    pub from: String,
    pub to: String,
    pub subject: String,
    pub text_body: String,
    pub html_body: Option<String>,
    pub message_id: Option<String>,
    pub in_reply_to: Option<String>,
    pub references: Option<String>,
    pub attachments: Vec<Attachment>,
}

/// The contents of an attachment, as the specifications see it.
pub struct AttachmentView {
    pub filename: Option<Seq<char>>,
    pub content_type: Seq<char>,
    pub data: Seq<u8>,
    pub is_inline: bool,
    pub content_id: Option<Seq<char>>,
}

/// The contents of an email to build, as the specifications see it.
pub struct MimeEmailView {
    pub from: Seq<char>,
    pub to: Seq<char>,
    pub subject: Seq<char>,
    pub text_body: Seq<char>,
    pub html_body: Option<Seq<char>>,
    pub message_id: Option<Seq<char>>,
    pub in_reply_to: Option<Seq<char>>,
    pub references: Option<Seq<char>>,
    pub attachments: Seq<AttachmentView>,
}

impl View for Attachment {
    type V = AttachmentView;

    open spec fn view(&self) -> AttachmentView {
        AttachmentView {
            filename: opt_view(self.filename),
            content_type: self.content_type@,
            data: self.data@,
            is_inline: self.is_inline,
            content_id: opt_view(self.content_id),
        }
    }
}

pub open spec fn att_views(atts: Seq<Attachment>) -> Seq<AttachmentView> {
    atts.map_values(|a: Attachment| a@)
}

impl View for MimeEmail {
    type V = MimeEmailView;

    open spec fn view(&self) -> MimeEmailView {
        MimeEmailView {
            from: self.from@,
            to: self.to@,
            subject: self.subject@,
            text_body: self.text_body@,
            html_body: opt_view(self.html_body),
            message_id: opt_view(self.message_id),
            in_reply_to: opt_view(self.in_reply_to),
            references: opt_view(self.references),
            attachments: att_views(self.attachments@),
        }
    }
}

/// The values that `build_mime` draws from the clock and the random generator.
pub struct MimeEnvelope {
    /// The `Date:` header value.
    pub date: String,
    /// A fresh unique id, used for a generated Message-ID.
    pub fresh_id: String,
    pub mixed_boundary: String,
    pub related_boundary: String,
    pub alt_boundary: String,
}

// ------------------------------------------------------------------
// Outside functions
// ------------------------------------------------------------------

/// The standard (padded) base64 encoding of `data`.
pub uninterp spec fn spec_base64_standard(data: Seq<u8>) -> Seq<char>;

/// `base64::engine::general_purpose::STANDARD.encode`.
#[verifier::external_body]
pub(crate) fn base64_standard(data: &[u8]) -> (s: String)
    ensures
        s@ == spec_base64_standard(data@),
{
    base64::engine::general_purpose::STANDARD.encode(data)
}

/// Which characters may stand at position `i` of an RFC 2822 date as the `time` crate
/// writes it, `Www, DD Mon YYYY HH:MM:SS +HHMM`: letters for the weekday and month
/// names, digits for the numbers, and the fixed punctuation between them.
pub open spec fn rfc2822_char_at(i: int, c: char) -> bool {
    if i <= 2 || (8 <= i && i <= 10) {
        ('A' <= c && c <= 'Z') || ('a' <= c && c <= 'z')
    } else if i == 3 {
        c == ','
    } else if i == 4 || i == 7 || i == 11 || i == 16 || i == 25 {
        c == ' '
    } else if i == 19 || i == 22 {
        c == ':'
    } else if i == 26 {
        c == '+' || c == '-'
    } else {
        '0' <= c && c <= '9'
    }
}

/// A `Date:` value: empty (when formatting failed) or 31 characters of the RFC 2822
/// shape.
pub open spec fn rfc2822_shaped(d: Seq<char>) -> bool {
    d.len() == 0 || (d.len() == 31 && forall|i: int| 0 <= i < 31 ==> rfc2822_char_at(i, #[trigger] d[i]))
}

/// A date of that shape holds no line break and no `@`: it cannot add a header line
/// or an address to a message.
pub proof fn lemma_rfc2822_date_clean(d: Seq<char>)
    requires
        rfc2822_shaped(d),
    ensures
        forall|i: int| 0 <= i < d.len() ==> #[trigger] d[i] != '\r' && d[i] != '\n' && d[i] != '@',
{
    assert forall|i: int| 0 <= i < d.len() implies #[trigger] d[i] != '\r' && d[i] != '\n' && d[i] != '@' by {
        assert(rfc2822_char_at(i, d[i]));
    }
}

/// The current UTC time in RFC 2822 form (`OffsetDateTime::now_utc().format(&Rfc2822)`),
/// or the empty string when formatting fails.  The `time` crate writes the weekday and
/// month names, the two-digit day, hour, minute and second, the four-digit year (it
/// refuses other years) and the offset sign and four digits, so the text has the shape
/// `rfc2822_shaped` gives.  Which time it shows is not claimed.
#[verifier::external_body]
pub(crate) fn rfc2822_now() -> (r: String)
    ensures
        rfc2822_shaped(r@),
{
    time::OffsetDateTime::now_utc().format(&time::format_description::well_known::Rfc2822).unwrap_or_default()
}

/// A random version-4 UUID in hyphenated form (`Uuid::new_v4().to_string()`): the
/// hyphenated lowercase form of some 128-bit value.  Which value is not claimed.
#[verifier::external_body]
pub(crate) fn uuid_v4_string() -> (r: String)
    ensures
        exists|x: u128| r@ == uuid_hyphenated(x),
{
    uuid::Uuid::new_v4().to_string()
}

// ------------------------------------------------------------------
// Header helpers
// ------------------------------------------------------------------

/// The text without any CR or LF character.
pub open spec fn strip_crlf(s: Seq<char>) -> Seq<char>
    decreases s.len(),
{
    if s.len() == 0 {
        s
    } else if s.last() == '\r' || s.last() == '\n' {
        strip_crlf(s.drop_last())
    } else {
        strip_crlf(s.drop_last()).push(s.last())
    }
}

/// Stripping leaves no CR and no LF.
pub proof fn lemma_strip_crlf_clean(s: Seq<char>)
    ensures
        forall|i: int| 0 <= i < strip_crlf(s).len() ==> #[trigger] strip_crlf(s)[i] != '\r'
            && strip_crlf(s)[i] != '\n',
    decreases s.len(),
{
    if s.len() > 0 {
        let r = strip_crlf(s.drop_last());
        lemma_strip_crlf_clean(s.drop_last());
        if !(s.last() == '\r' || s.last() == '\n') {
            assert forall|i: int| 0 <= i < strip_crlf(s).len() implies #[trigger] strip_crlf(s)[i]
                != '\r' && strip_crlf(s)[i] != '\n' by {
                if i < r.len() {
                    assert(strip_crlf(s)[i] == r[i]);
                }
            }
        }
    }
}

/// Helper to sanitize header values to prevent CRLF injection.
/// Removes any \r or \n characters so an attacker cannot inject new headers.
pub fn sanitize_header(value: &str) -> (r: String)
    ensures
        r@ == strip_crlf(value@),
{
    let v = chars_of(value);
    let mut out: Vec<char> = Vec::new();
    let mut i: usize = 0;
    while i < v.len()
        invariant
            i <= v.len(),
            out@ == strip_crlf(v@.subrange(0, i as int)),
        decreases v.len() - i,
    {
        let ghost pre = v@.subrange(0, i as int);
        assert(v@.subrange(0, i + 1).drop_last() =~= pre);
        if v[i] != '\r' && v[i] != '\n' {
            out.push(v[i]);
        }
        i = i + 1;
    }
    assert(v@.subrange(0, v.len() as int) =~= v@);
    string_from(&out)
}

/// What `format_message_id` returns: the trimmed id, wrapped in angle brackets unless it
/// already is, or empty when the id is blank.
pub open spec fn spec_format_message_id(id: Seq<char>) -> Seq<char> {
    let t = trim(id);
    if t.len() == 0 {
        t
    } else if t[0] == '<' && t.last() == '>' {
        t
    } else {
        seq!['<'] + t + seq!['>']
    }
}

/// Helper to ensure Message-IDs are correctly wrapped in angle brackets.
pub fn format_message_id(id: &str) -> (r: String)
    ensures
        r@ == spec_format_message_id(id@),
{
    let v = chars_of(id);
    let t = trim_chars(&v);
    if t.len() == 0 {
        return string_from(&t);
    }
    if t[0] == '<' && t[t.len() - 1] == '>' {
        return string_from(&t);
    }
    let mut s = String::new();
    push_chars(&mut s, &['<']);
    push_chars(&mut s, &t);
    push_chars(&mut s, &['>']);
    s
}

/// Formatting a Message-ID twice gives the same text as formatting it once.
pub proof fn lemma_format_message_id_idempotent(id: Seq<char>)
    ensures
        spec_format_message_id(spec_format_message_id(id)) == spec_format_message_id(id),
{
    let f = spec_format_message_id(id);
    let t = trim(id);
    lemma_trim_idempotent(id);
    if t.len() == 0 {
    } else if t[0] == '<' && t.last() == '>' {
    } else {
        let w = seq!['<'] + t + seq!['>'];
        lemma_trim_bracketed(w);
        assert(w[0] == '<');
        assert(w.last() == '>');
    }
}

proof fn lemma_trim_start_first(s: Seq<char>)
    ensures
        crate::text::trim_start(s).len() == 0 || !crate::text::is_ws(crate::text::trim_start(s)[0]),
    decreases s.len(),
{
    if s.len() > 0 && crate::text::is_ws(s[0]) {
        lemma_trim_start_first(s.drop_first());
    }
}

proof fn lemma_trim_end_idempotent(s: Seq<char>)
    ensures
        crate::text::trim_end(crate::text::trim_end(s)) == crate::text::trim_end(s),
    decreases s.len(),
{
    if s.len() > 0 && crate::text::is_ws(s.last()) {
        lemma_trim_end_idempotent(s.drop_last());
    }
}

/// Trimming the end keeps a prefix of the text.
proof fn lemma_trim_end_prefix(a: Seq<char>)
    ensures
        crate::text::trim_end(a).len() <= a.len(),
        forall|i: int| 0 <= i < crate::text::trim_end(a).len() ==> #[trigger] crate::text::trim_end(a)[i] == a[i],
    decreases a.len(),
{
    if a.len() > 0 && crate::text::is_ws(a.last()) {
        lemma_trim_end_prefix(a.drop_last());
    }
}

proof fn lemma_trim_start_noop(t: Seq<char>)
    requires
        t.len() == 0 || !crate::text::is_ws(t[0]),
    ensures
        crate::text::trim_start(t) == t,
{
}

/// A trimmed text is its own trim.
pub proof fn lemma_trim_idempotent(x: Seq<char>)
    ensures
        trim(trim(x)) == trim(x),
{
    let a = crate::text::trim_start(x);
    let t = crate::text::trim_end(a);
    lemma_trim_start_first(x);
    lemma_trim_end_prefix(a);
    if t.len() > 0 {
        assert(t[0] == a[0]);
    }
    lemma_trim_start_noop(t);
    lemma_trim_end_idempotent(a);
}

/// A text that starts with `<` and ends with `>` is its own trim.
proof fn lemma_trim_bracketed(w: Seq<char>)
    requires
        w.len() >= 2,
        w[0] == '<',
        w.last() == '>',
    ensures
        trim(w) == w,
{
    lemma_trim_start_noop(w);
}


// ------------------------------------------------------------------
// Building
// ------------------------------------------------------------------

pub open spec fn crlf() -> Seq<char> {
    seq!['\r', '\n']
}

/// The text followed by CRLF, unless it already ends with CRLF.
pub open spec fn with_crlf(s: Seq<char>) -> Seq<char> {
    if ends_with(s, crlf()) {
        s
    } else {
        s + crlf()
    }
}

pub open spec fn opt_view(o: Option<String>) -> Option<Seq<char>> {
    match o {
        Some(s) => Some(s@),
        None => None,
    }
}

/// The subject of the message: `Re: ` is put in front of a reply's subject unless it
/// already starts with `re:` in any letter case.
pub open spec fn reply_subject(subject: Seq<char>, is_reply: bool) -> Seq<char> {
    if is_reply && !(subject.len() >= 3 && ascii_lower_seq(subject.take(3)) == seq!['r', 'e', ':']) {
        "Re: "@ + subject
    } else {
        subject
    }
}

/// The subject of a reply starts with `Re:` (in some letter case) and ends with the
/// original subject; marking a subject as a reply twice gives what marking it once
/// does, so `Re:` is never doubled; a message that is not a reply keeps its subject.
pub proof fn lemma_reply_subject(subject: Seq<char>)
    ensures
        reply_subject(subject, false) == subject,
        reply_subject(subject, true).len() >= 3,
        ascii_lower_seq(reply_subject(subject, true).take(3)) == seq!['r', 'e', ':'],
        crate::text::ends_with(reply_subject(subject, true), subject),
        reply_subject(reply_subject(subject, true), true) == reply_subject(subject, true),
{
    reveal_strlit("Re: ");
    let r = reply_subject(subject, true);
    if !(subject.len() >= 3 && ascii_lower_seq(subject.take(3)) == seq!['r', 'e', ':']) {
        assert(r.take(3) =~= seq!['R', 'e', ':']);
        assert(ascii_lower_seq(seq!['R', 'e', ':']) =~= seq!['r', 'e', ':']) by {
            assert(crate::text::ascii_lower('R') == 'r');
        }
        assert(r.subrange(r.len() - subject.len(), r.len() as int) =~= subject);
    } else {
        assert(r.subrange(r.len() - subject.len(), r.len() as int) =~= subject);
    }
}

/// A formatted Message-ID is empty or wrapped in `<` and `>`.
pub proof fn lemma_format_message_id_wrapped(id: Seq<char>)
    ensures
        spec_format_message_id(id).len() == 0 || (spec_format_message_id(id)[0] == '<'
            && spec_format_message_id(id).last() == '>'),
{
}

/// The text between the first and the second `@` of the sender (to its end when there
/// is only one `@`), or `localhost` when there is none.
pub open spec fn domain_of_from(from: Seq<char>) -> Seq<char> {
    match split_once(from, seq!['@']) {
        None => "localhost"@,
        Some((_, rest)) => match split_once(rest, seq!['@']) {
            Some((d, _)) => d,
            None => rest,
        },
    }
}

/// The Message-ID: the given one, or `<fresh@domain>` for the sender's domain.
pub open spec fn message_id_value(given: Option<Seq<char>>, from: Seq<char>, fresh: Seq<char>) -> Seq<char> {
    match given {
        Some(m) => m,
        None => seq!['<'] + fresh + seq!['@'] + strip_crlf(domain_of_from(from)) + seq!['>'],
    }
}

/// A generated Message-ID is made in the sender's domain: for a `From` address
/// `local@domain` (neither part holding `@`), the id is `<fresh@domain>`; a sender
/// without `@` gets `localhost`.
pub proof fn lemma_generated_id_domain(local: Seq<char>, domain: Seq<char>, fresh: Seq<char>)
    requires
        crate::text::lacks(local, '@'),
        crate::text::lacks(domain, '@'),
    ensures
        domain_of_from(local + seq!['@'] + domain) == domain,
        message_id_value(None, local + seq!['@'] + domain, fresh) == seq!['<'] + fresh + seq!['@'] + strip_crlf(
            domain,
        ) + seq!['>'],
        domain_of_from(local) == "localhost"@,
{
    crate::text::lemma_split_once_at(local, domain, '@');
    crate::text::lemma_lacks_no_split(domain, '@');
    crate::text::lemma_lacks_no_split(local, '@');
}

pub open spec fn optional_header(name: Seq<char>, value: Option<Seq<char>>) -> Seq<char> {
    match value {
        Some(v) => name + strip_crlf(spec_format_message_id(v)) + crlf(),
        None => Seq::empty(),
    }
}

pub open spec fn header_from_to(e: MimeEmailView) -> Seq<char> {
    "From: "@ + strip_crlf(e.from) + crlf() + "To: "@ + strip_crlf(e.to) + crlf()
}

pub open spec fn header_subject_date(e: MimeEmailView, env: MimeEnvelope) -> Seq<char> {
    "Subject: "@ + strip_crlf(reply_subject(e.subject, e.in_reply_to is Some)) + crlf() + "Date: "@
        + env.date@ + crlf()
}

pub open spec fn header_message_id(e: MimeEmailView, env: MimeEnvelope) -> Seq<char> {
    "Message-ID: "@ + strip_crlf(
        spec_format_message_id(message_id_value(e.message_id, e.from, env.fresh_id@)),
    ) + crlf()
}

/// The header block of a message.
pub open spec fn spec_headers(e: MimeEmailView, env: MimeEnvelope) -> Seq<char> {
    header_from_to(e) + header_subject_date(e, env) + header_message_id(e, env) + optional_header(
        "In-Reply-To: "@,
        e.in_reply_to,
    ) + optional_header("References: "@, e.references) + "MIME-Version: 1.0\r\n"@
}

pub open spec fn text_part_headers() -> Seq<char> {
    "Content-Type: text/plain; charset=\"utf-8\"\r\n"@ + "Content-Transfer-Encoding: 8bit\r\n\r\n"@
}

pub open spec fn html_part_headers() -> Seq<char> {
    "Content-Type: text/html; charset=\"utf-8\"\r\n"@ + "Content-Transfer-Encoding: 8bit\r\n\r\n"@
}

pub open spec fn alt_open(e: MimeEmailView, alt: Seq<char>) -> Seq<char> {
    "Content-Type: multipart/alternative; boundary=\""@ + alt + "\"\r\n\r\n"@ + "--"@ + alt + crlf()
        + text_part_headers() + with_crlf(e.text_body)
}

pub open spec fn alt_html(h: Seq<char>, alt: Seq<char>) -> Seq<char> {
    "--"@ + alt + crlf() + html_part_headers() + with_crlf(h) + "--"@ + alt + "--\r\n"@
}

/// The text part alone, or a `multipart/alternative` of text and HTML.
pub open spec fn alt_part(e: MimeEmailView, alt: Seq<char>) -> Seq<char> {
    match e.html_body {
        Some(h) => alt_open(e, alt) + alt_html(h, alt),
        None => text_part_headers() + with_crlf(e.text_body),
    }
}

/// Base64 text cut into lines of at most 76 characters, each ended by CRLF.
pub open spec fn b64_lines(s: Seq<char>) -> Seq<char>
    decreases s.len(),
{
    if s.len() == 0 {
        Seq::empty()
    } else if s.len() <= 76 {
        s + crlf()
    } else {
        s.take(76) + crlf() + b64_lines(s.skip(76))
    }
}

pub open spec fn attachment_file_name(a: AttachmentView) -> Seq<char> {
    strip_crlf(
        match a.filename {
            Some(f) => f,
            None => "attachment"@,
        },
    )
}

pub open spec fn attachment_head(a: AttachmentView) -> Seq<char> {
    "Content-Type: "@ + strip_crlf(a.content_type) + "; name=\""@ + attachment_file_name(a) + "\"\r\n"@
        + "Content-Transfer-Encoding: base64\r\n"@
}

pub open spec fn attachment_disposition(a: AttachmentView) -> Seq<char> {
    let disposition = if a.is_inline {
        "inline"@
    } else {
        "attachment"@
    };
    "Content-Disposition: "@ + disposition + "; filename=\""@ + attachment_file_name(a) + "\"\r\n"@
}

pub open spec fn attachment_cid(a: AttachmentView) -> Seq<char> {
    match a.content_id {
        Some(c) => "Content-ID: <"@ + strip_crlf(c) + ">\r\n"@,
        None => Seq::empty(),
    }
}

/// One attachment part (without its boundary line).
pub open spec fn attachment_part(a: AttachmentView) -> Seq<char> {
    attachment_head(a) + attachment_disposition(a) + attachment_cid(a) + "\r\n"@ + b64_lines(
        spec_base64_standard(a.data),
    )
}

/// The parts of the attachments whose `is_inline` equals `inline`, in order, each
/// preceded by a boundary line.
pub open spec fn attachment_parts(atts: Seq<AttachmentView>, inline: bool, boundary: Seq<char>) -> Seq<char>
    decreases atts.len(),
{
    if atts.len() == 0 {
        Seq::empty()
    } else {
        attachment_parts(atts.drop_last(), inline, boundary) + if atts.last().is_inline == inline {
            "--"@ + boundary + crlf() + attachment_part(atts.last())
        } else {
            Seq::empty()
        }
    }
}

pub open spec fn has_kind(atts: Seq<AttachmentView>, inline: bool) -> bool {
    exists|i: int| 0 <= i < atts.len() && #[trigger] atts[i].is_inline == inline
}

/// The `multipart/related` block: the alternative part and the inline attachments.
pub open spec fn related_block(e: MimeEmailView, env: MimeEnvelope) -> Seq<char> {
    let r = env.related_boundary@;
    "Content-Type: multipart/related; boundary=\""@ + r + "\"\r\n\r\n"@ + "--"@ + r + crlf() + alt_part(
        e,
        env.alt_boundary@,
    ) + attachment_parts(e.attachments, true, r) + "--"@ + r + "--\r\n"@
}

/// The body of the message.
pub open spec fn spec_body(e: MimeEmailView, env: MimeEnvelope) -> Seq<char> {
    let m = env.mixed_boundary@;
    if has_kind(e.attachments, false) {
        "Content-Type: multipart/mixed; boundary=\""@ + m + "\"\r\n\r\n"@ + "--"@ + m + crlf() + (if has_kind(
            e.attachments,
            true,
        ) {
            related_block(e, env)
        } else {
            alt_part(e, env.alt_boundary@)
        }) + attachment_parts(e.attachments, false, m) + "--"@ + m + "--\r\n"@
    } else if has_kind(e.attachments, true) {
        related_block(e, env)
    } else {
        alt_part(e, env.alt_boundary@)
    }
}

/// The whole raw message.
pub open spec fn spec_build_mime(e: MimeEmailView, env: MimeEnvelope) -> Seq<char> {
    spec_headers(e, env) + spec_body(e, env)
}

fn push_sanitized(out: &mut String, value: &str)
    ensures
        final(out)@ == old(out)@ + strip_crlf(value@),
{
    let clean = sanitize_header(value);
    push_str(out, clean.as_str());
}

fn push_ln(out: &mut String)
    ensures
        final(out)@ == old(out)@ + crlf(),
{
    push_chars(out, &['\r', '\n']);
}

/// Appends `s`, then CRLF unless `s` already ends with it.
fn push_with_crlf(out: &mut String, s: &str)
    ensures
        final(out)@ == old(out)@ + with_crlf(s@),
{
    push_str(out, s);
    let v = chars_of(s);
    if !ends_with_chars(&v, &['\r', '\n']) {
        push_ln(out);
    }
}

/// Whether a subject already starts with `re:`, in any ASCII letter case.
fn is_re_subject(subject: &str) -> (b: bool)
    ensures
        b == (subject@.len() >= 3 && ascii_lower_seq(subject@.take(3)) == seq!['r', 'e', ':']),
{
    let v = chars_of(subject);
    if v.len() < 3 {
        return false;
    }
    let head = ascii_lower_chars(&slice_of(&v, 0, 3));
    assert(v@.subrange(0, 3) =~= v@.take(3));
    chars_eq(&head, &['r', 'e', ':'])
}

fn domain_of(from: &str) -> (d: Vec<char>)
    ensures
        d@ == domain_of_from(from@),
{
    let v = chars_of(from);
    match split_once_char(&v, '@') {
        None => {
            let l = chars_of("localhost");
            l
        },
        Some((_, rest)) => match split_once_char(&rest, '@') {
            Some((d, _)) => d,
            None => rest,
        },
    }
}

fn push_optional_header(out: &mut String, name: &str, value: &Option<String>)
    ensures
        final(out)@ == old(out)@ + optional_header(name@, opt_view(*value)),
{
    match value {
        Some(v) => {
            push_str(out, name);
            let f = format_message_id(v.as_str());
            push_sanitized(out, f.as_str());
            push_ln(out);
        },
        None => {
            assert(old(out)@ + Seq::<char>::empty() =~= old(out)@);
        },
    }
}

fn write_from_to(out: &mut String, e: &MimeEmail)
    ensures
        final(out)@ == old(out)@ + header_from_to(e@),
{
    push_str(out, "From: ");
    push_sanitized(out, e.from.as_str());
    push_ln(out);
    push_str(out, "To: ");
    push_sanitized(out, e.to.as_str());
    push_ln(out);
    assert(out@ =~= old(out)@ + header_from_to(e@));
}

fn write_subject_date(out: &mut String, e: &MimeEmail, env: &MimeEnvelope)
    ensures
        final(out)@ == old(out)@ + header_subject_date(e@, *env),
{
    push_str(out, "Subject: ");
    if e.in_reply_to.is_some() && !is_re_subject(e.subject.as_str()) {
        let mut subject = String::new();
        push_str(&mut subject, "Re: ");
        push_str(&mut subject, e.subject.as_str());
        push_sanitized(out, subject.as_str());
    } else {
        push_sanitized(out, e.subject.as_str());
    }
    push_ln(out);
    push_str(out, "Date: ");
    push_str(out, env.date.as_str());
    push_ln(out);
    assert(out@ =~= old(out)@ + header_subject_date(e@, *env));
}

fn write_message_id(out: &mut String, e: &MimeEmail, env: &MimeEnvelope)
    ensures
        final(out)@ == old(out)@ + header_message_id(e@, *env),
{
    let mid: String = match &e.message_id {
        Some(m) => string_from(&chars_of(m.as_str())),
        None => {
            let mut g = String::new();
            push_chars(&mut g, &['<']);
            push_str(&mut g, env.fresh_id.as_str());
            push_chars(&mut g, &['@']);
            let d = domain_of(e.from.as_str());
            push_sanitized(&mut g, string_from(&d).as_str());
            push_chars(&mut g, &['>']);
            g
        },
    };
    assert(mid@ =~= message_id_value(opt_view(e.message_id), e.from@, env.fresh_id@));
    push_str(out, "Message-ID: ");
    let f = format_message_id(mid.as_str());
    push_sanitized(out, f.as_str());
    push_ln(out);
    assert(out@ =~= old(out)@ + header_message_id(e@, *env));
}

fn write_headers(out: &mut String, e: &MimeEmail, env: &MimeEnvelope)
    ensures
        final(out)@ == old(out)@ + spec_headers(e@, *env),
{
    write_from_to(out, e);
    write_subject_date(out, e, env);
    write_message_id(out, e, env);
    push_optional_header(out, "In-Reply-To: ", &e.in_reply_to);
    push_optional_header(out, "References: ", &e.references);
    push_str(out, "MIME-Version: 1.0\r\n");
    assert(out@ =~= old(out)@ + spec_headers(e@, *env));
}

fn write_alt_open(out: &mut String, e: &MimeEmail, alt: &str)
    ensures
        final(out)@ == old(out)@ + alt_open(e@, alt@),
{
    push_str(out, "Content-Type: multipart/alternative; boundary=\"");
    push_str(out, alt);
    push_str(out, "\"\r\n\r\n");
    push_str(out, "--");
    push_str(out, alt);
    push_ln(out);
    push_str(out, "Content-Type: text/plain; charset=\"utf-8\"\r\n");
    push_str(out, "Content-Transfer-Encoding: 8bit\r\n\r\n");
    push_with_crlf(out, e.text_body.as_str());
    assert(out@ =~= old(out)@ + alt_open(e@, alt@));
}

fn write_alt_html(out: &mut String, h: &str, alt: &str)
    ensures
        final(out)@ == old(out)@ + alt_html(h@, alt@),
{
    push_str(out, "--");
    push_str(out, alt);
    push_ln(out);
    push_str(out, "Content-Type: text/html; charset=\"utf-8\"\r\n");
    push_str(out, "Content-Transfer-Encoding: 8bit\r\n\r\n");
    push_with_crlf(out, h);
    push_str(out, "--");
    push_str(out, alt);
    push_str(out, "--\r\n");
    assert(out@ =~= old(out)@ + alt_html(h@, alt@));
}

fn write_alt_part(out: &mut String, e: &MimeEmail, alt: &str)
    ensures
        final(out)@ == old(out)@ + alt_part(e@, alt@),
{
    match &e.html_body {
        Some(h) => {
            write_alt_open(out, e, alt);
            write_alt_html(out, h.as_str(), alt);
            assert(out@ =~= old(out)@ + alt_part(e@, alt@));
        },
        None => {
            push_str(out, "Content-Type: text/plain; charset=\"utf-8\"\r\n");
            push_str(out, "Content-Transfer-Encoding: 8bit\r\n\r\n");
            push_with_crlf(out, e.text_body.as_str());
            assert(out@ =~= old(out)@ + alt_part(e@, alt@));
        },
    }
}

fn write_b64_lines(out: &mut String, text: &str)
    ensures
        final(out)@ == old(out)@ + b64_lines(text@),
{
    let v = chars_of(text);
    let mut i: usize = 0;
    assert(v@.skip(0) =~= v@);
    while i < v.len()
        invariant
            i <= v.len(),
            old(out)@ + b64_lines(v@) == out@ + b64_lines(v@.skip(i as int)),
        decreases v.len() - i,
    {
        let ghost rest = v@.skip(i as int);
        if v.len() - i <= 76 {
            push_chars(out, &slice_of(&v, i, v.len()));
            push_ln(out);
            assert(v@.subrange(i as int, v.len() as int) =~= rest);
            assert(v@.skip(v.len() as int) =~= Seq::<char>::empty());
            i = v.len();
        } else {
            push_chars(out, &slice_of(&v, i, i + 76));
            push_ln(out);
            assert(v@.subrange(i as int, i + 76) =~= rest.take(76));
            assert(rest.skip(76) =~= v@.skip(i + 76));
            i = i + 76;
        }
    }
}

fn write_attachment_head(out: &mut String, a: &Attachment, name: &str)
    requires
        name@ == attachment_file_name(a@),
    ensures
        final(out)@ == old(out)@ + attachment_head(a@) + attachment_disposition(a@),
{
    push_str(out, "Content-Type: ");
    push_sanitized(out, a.content_type.as_str());
    push_str(out, "; name=\"");
    push_str(out, name);
    push_str(out, "\"\r\n");
    push_str(out, "Content-Transfer-Encoding: base64\r\n");
    let ghost mid = out@;
    assert(mid =~= old(out)@ + attachment_head(a@));
    push_str(out, "Content-Disposition: ");
    if a.is_inline {
        push_str(out, "inline");
    } else {
        push_str(out, "attachment");
    }
    push_str(out, "; filename=\"");
    push_str(out, name);
    push_str(out, "\"\r\n");
    assert(out@ =~= mid + attachment_disposition(a@));
}

fn write_attachment(out: &mut String, a: &Attachment)
    ensures
        final(out)@ == old(out)@ + attachment_part(a@),
{
    let name: String = match &a.filename {
        Some(f) => sanitize_header(f.as_str()),
        None => sanitize_header("attachment"),
    };
    write_attachment_head(out, a, name.as_str());
    let ghost before_cid = out@;
    match &a.content_id {
        Some(c) => {
            push_str(out, "Content-ID: <");
            push_sanitized(out, c.as_str());
            push_str(out, ">\r\n");
        },
        None => {},
    }
    assert(out@ =~= before_cid + attachment_cid(a@));
    push_str(out, "\r\n");
    let encoded = base64_standard(a.data.as_slice());
    write_b64_lines(out, encoded.as_str());
    assert(out@ =~= old(out)@ + attachment_part(a@));
}

fn write_attachment_parts(out: &mut String, atts: &Vec<Attachment>, inline: bool, boundary: &str)
    ensures
        final(out)@ == old(out)@ + attachment_parts(att_views(atts@), inline, boundary@),
{
    let mut i: usize = 0;
    assert(att_views(atts@).take(0) =~= Seq::<AttachmentView>::empty());
    while i < atts.len()
        invariant
            i <= atts.len(),
            out@ == old(out)@ + attachment_parts(att_views(atts@).take(i as int), inline, boundary@),
        decreases atts.len() - i,
    {
        let ghost prev = out@;
        let a = &atts[i];
        if a.is_inline == inline {
            push_str(out, "--");
            push_str(out, boundary);
            push_ln(out);
            write_attachment(out, a);
        }
        proof {
            let t = att_views(atts@).take(i + 1);
            assert(t.drop_last() =~= att_views(atts@).take(i as int));
            assert(t.last() == atts@[i as int]@);
        }
        i = i + 1;
        assert(out@ =~= old(out)@ + attachment_parts(att_views(atts@).take(i as int), inline, boundary@));
    }
    assert(att_views(atts@).take(atts.len() as int) =~= att_views(atts@));
}

fn has_attachment_kind(atts: &Vec<Attachment>, inline: bool) -> (b: bool)
    ensures
        b == has_kind(att_views(atts@), inline),
{
    let mut i: usize = 0;
    while i < atts.len()
        invariant
            i <= atts.len(),
            forall|j: int| 0 <= j < i ==> #[trigger] att_views(atts@)[j].is_inline != inline,
        decreases atts.len() - i,
    {
        if atts[i].is_inline == inline {
            assert(att_views(atts@)[i as int].is_inline == inline);
            return true;
        }
        i = i + 1;
    }
    false
}

fn write_related_block(out: &mut String, e: &MimeEmail, env: &MimeEnvelope)
    ensures
        final(out)@ == old(out)@ + related_block(e@, *env),
{
    let r = env.related_boundary.as_str();
    push_str(out, "Content-Type: multipart/related; boundary=\"");
    push_str(out, r);
    push_str(out, "\"\r\n\r\n");
    push_str(out, "--");
    push_str(out, r);
    push_ln(out);
    write_alt_part(out, e, env.alt_boundary.as_str());
    write_attachment_parts(out, &e.attachments, true, r);
    push_str(out, "--");
    push_str(out, r);
    push_str(out, "--\r\n");
    assert(out@ =~= old(out)@ + related_block(e@, *env));
}

fn write_body(out: &mut String, e: &MimeEmail, env: &MimeEnvelope)
    ensures
        final(out)@ == old(out)@ + spec_body(e@, *env),
{
    let has_real = has_attachment_kind(&e.attachments, false);
    let has_inline = has_attachment_kind(&e.attachments, true);
    if has_real {
        let m = env.mixed_boundary.as_str();
        push_str(out, "Content-Type: multipart/mixed; boundary=\"");
        push_str(out, m);
        push_str(out, "\"\r\n\r\n");
        push_str(out, "--");
        push_str(out, m);
        push_ln(out);
        let ghost before_inner = out@;
        if has_inline {
            write_related_block(out, e, env);
        } else {
            write_alt_part(out, e, env.alt_boundary.as_str());
        }
        let ghost after_inner = out@;
        write_attachment_parts(out, &e.attachments, false, m);
        push_str(out, "--");
        push_str(out, m);
        push_str(out, "--\r\n");
        assert(out@ =~= old(out)@ + spec_body(e@, *env));
    } else if has_inline {
        write_related_block(out, e, env);
    } else {
        write_alt_part(out, e, env.alt_boundary.as_str());
    }
}

/// Builds the raw message from the email and the date, id and boundaries in `env`.
pub fn build_mime_with(email: &MimeEmail, env: &MimeEnvelope) -> (r: String)
    ensures
        r@ == spec_build_mime(email@, *env),
{
    let mut out = String::new();
    write_headers(&mut out, email, env);
    write_body(&mut out, email, env);
    assert(out@ =~= spec_build_mime(email@, *env));
    out
}

/// The characters of `s` without `-`.
pub open spec fn without_dashes(s: Seq<char>) -> Seq<char>
    decreases s.len(),
{
    if s.len() == 0 {
        s
    } else if s.last() == '-' {
        without_dashes(s.drop_last())
    } else {
        without_dashes(s.drop_last()).push(s.last())
    }
}

/// A boundary `prefix + id`, with the dashes of the id removed.
fn boundary(prefix: &str, id: &str) -> (r: String)
    ensures
        r@ == prefix@ + without_dashes(id@),
{
    let v = chars_of(id);
    let mut kept: Vec<char> = Vec::new();
    let mut i: usize = 0;
    while i < v.len()
        invariant
            i <= v.len(),
            kept@ == without_dashes(v@.subrange(0, i as int)),
        decreases v.len() - i,
    {
        assert(v@.subrange(0, i + 1).drop_last() =~= v@.subrange(0, i as int));
        if v[i] != '-' {
            kept.push(v[i]);
        }
        i = i + 1;
    }
    assert(v@.subrange(0, v.len() as int) =~= v@);
    let mut r = String::new();
    push_str(&mut r, prefix);
    push_chars(&mut r, &kept);
    r
}

/// An envelope as `new_envelope` draws it: the date has the RFC 2822 shape (or is
/// empty), the fresh id is a hyphenated UUID, and each boundary is its prefix followed
/// by the 32 hex digits of a UUID.
pub open spec fn drawn_envelope(env: MimeEnvelope) -> bool {
    &&& rfc2822_shaped(env.date@)
    &&& exists|f: u128, m: u128, r: u128, a: u128|
        {
            &&& env.fresh_id@ == uuid_hyphenated(f)
            &&& env.mixed_boundary@ == "=_Mixed_"@ + without_dashes(uuid_hyphenated(m))
            &&& env.related_boundary@ == "=_Related_"@ + without_dashes(uuid_hyphenated(r))
            &&& env.alt_boundary@ == "=_Alternative_"@ + without_dashes(uuid_hyphenated(a))
        }
}

/// Draws the date, a fresh id and three boundaries from the clock and the random generator.
pub fn new_envelope() -> (env: MimeEnvelope)
    ensures
        drawn_envelope(env),
        env.mixed_boundary@.len() >= 8,
{
    let date = rfc2822_now();
    let fresh_id = uuid_v4_string();
    let m = uuid_v4_string();
    let r = uuid_v4_string();
    let a = uuid_v4_string();
    let mixed_boundary = boundary("=_Mixed_", m.as_str());
    let related_boundary = boundary("=_Related_", r.as_str());
    let alt_boundary = boundary("=_Alternative_", a.as_str());
    proof {
        reveal_strlit("=_Mixed_");
    }
    let env = MimeEnvelope { date, fresh_id, mixed_boundary, related_boundary, alt_boundary };
    assert(drawn_envelope(env));
    env
}

/// Builds a raw MIME string from the provided MimeEmail struct.
/// If `html_body` is provided, it generates a `multipart/alternative` email.
/// Otherwise, it generates a simple `text/plain` email.
pub fn build_mime(email: &MimeEmail) -> (r: String)
    ensures
        exists|env: MimeEnvelope| drawn_envelope(env) && r@ == spec_build_mime(email@, env),
{
    let env = new_envelope();
    build_mime_with(email, &env)
}

/// Generates a globally unique Message-ID based on the sending domain.
pub fn generate_message_id(domain: &str) -> (r: String)
    ensures
        exists|x: u128| r@ == seq!['<'] + uuid_hyphenated(x) + seq!['@'] + strip_crlf(domain@) + seq!['>'],
{
    let id = uuid_v4_string();
    let mut g = String::new();
    push_chars(&mut g, &['<']);
    push_str(&mut g, id.as_str());
    push_chars(&mut g, &['@']);
    push_sanitized(&mut g, domain);
    push_chars(&mut g, &['>']);
    assert(g@ =~= seq!['<'] + id@ + seq!['@'] + strip_crlf(domain@) + seq!['>']);
    g
}

} // verus!
