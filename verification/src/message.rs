//! Reading received messages: threading metadata, attachment metadata, and the
//! rewriting of a message for forwarding or for relaying a reply.
//!
//! The RFC 5322 / MIME parsing itself is done by `mail_parser`; what the library
//! reads of a parsed message is copied into plain structs (`MailHeaders`,
//! `MailPart`) and all decisions are taken on those.
use vstd::prelude::*;
use mail_parser::MimeHeaders;
use crate::mime::{
    build_mime, drawn_envelope, opt_view, spec_build_mime, spec_format_message_id, format_message_id, Attachment,
    AttachmentView, MimeEmail, MimeEmailView, MimeEnvelope,
};
use crate::text::{
    chars_of, dec_u64, ends_with, push_chars, push_str, slice_of, split_whitespace, string_from, trim,
    trim_chars, words,
};

verus! {

// ------------------------------------------------------------------
// What is read of a parsed message
// ------------------------------------------------------------------

/// The header fields and body texts that the library reads of a message.
#[derive(Debug)]
pub struct MailHeaders {
    pub subject: Option<String>,
    /// Address of the first mailbox of `From:`.
    pub from_address: Option<String>,
    /// Display name of the first mailbox of `From:`.
    pub from_name: Option<String>,
    pub message_id: Option<String>,
    /// `In-Reply-To:` as text.
    pub in_reply_to: Option<String>,
    /// `References:` as text.
    pub references: Option<String>,
    /// The first text body.
    pub text_body: Option<String>,
    /// The first HTML body.
    pub html_body: Option<String>,
    /// The `Date:` header in RFC 822 form.
    pub date: Option<String>,
}

pub struct MailHeadersView {
    pub subject: Option<Seq<char>>,
    pub from_address: Option<Seq<char>>,
    pub from_name: Option<Seq<char>>,
    pub message_id: Option<Seq<char>>,
    pub in_reply_to: Option<Seq<char>>,
    pub references: Option<Seq<char>>,
    pub text_body: Option<Seq<char>>,
    pub html_body: Option<Seq<char>>,
    pub date: Option<Seq<char>>,
}

impl View for MailHeaders {
    type V = MailHeadersView;

    open spec fn view(&self) -> MailHeadersView {
        MailHeadersView {
            subject: opt_view(self.subject),
            from_address: opt_view(self.from_address),
            from_name: opt_view(self.from_name),
            message_id: opt_view(self.message_id),
            in_reply_to: opt_view(self.in_reply_to),
            references: opt_view(self.references),
            text_body: opt_view(self.text_body),
            html_body: opt_view(self.html_body),
            date: opt_view(self.date),
        }
    }
}

pub open spec fn opt_headers_view(o: Option<MailHeaders>) -> Option<MailHeadersView> {
    match o {
        Some(h) => Some(h@),
        None => None,
    }
}

/// What the library reads of one attachment part.
#[derive(Debug)]
pub struct MailPart {
    pub name: Option<String>,
    /// The main type of the part's Content-Type.
    pub ctype: Option<String>,
    /// The subtype of the part's Content-Type.
    pub subtype: Option<String>,
    /// The decoded contents.
    pub contents: Vec<u8>,
    /// The parser classified the part as an inline binary.
    pub inline_binary: bool,
    /// The part's Content-Disposition is `inline`.
    pub disposition_inline: bool,
    pub content_id: Option<String>,
}

pub struct MailPartView {
    pub name: Option<Seq<char>>,
    pub ctype: Option<Seq<char>>,
    pub subtype: Option<Seq<char>>,
    pub contents: Seq<u8>,
    pub inline_binary: bool,
    pub disposition_inline: bool,
    pub content_id: Option<Seq<char>>,
}

impl View for MailPart {
    type V = MailPartView;

    open spec fn view(&self) -> MailPartView {
        MailPartView {
            name: opt_view(self.name),
            ctype: opt_view(self.ctype),
            subtype: opt_view(self.subtype),
            contents: self.contents@,
            inline_binary: self.inline_binary,
            disposition_inline: self.disposition_inline,
            content_id: opt_view(self.content_id),
        }
    }
}

pub open spec fn part_views(parts: Seq<MailPart>) -> Seq<MailPartView> {
    parts.map_values(|p: MailPart| p@)
}

/// The header fields of the message in `raw`, or `None` when it cannot be parsed.
pub uninterp spec fn spec_mail_headers(raw: Seq<u8>) -> Option<MailHeadersView>;

/// The attachment parts of the message in `raw` (none when it cannot be parsed).
pub uninterp spec fn spec_mail_parts(raw: Seq<u8>) -> Seq<MailPartView>;

/// `String::from_utf8_lossy`.
pub uninterp spec fn spec_utf8_lossy(bytes: Seq<u8>) -> Seq<char>;

/// `MessageParser::default().parse(raw)` and the accessors `subject`, `from` (first
/// mailbox: `address`, `name`), `message_id`, `in_reply_to().as_text()`,
/// `references().as_text()`, `body_text(0)`, `body_html(0)`, `date().to_rfc822()`; `None` when the parser
/// returns `None`.  The result depends on the bytes alone.
#[verifier::external_body]
pub(crate) fn mail_headers(raw: &[u8]) -> (r: Option<MailHeaders>)
    ensures
        opt_headers_view(r) == spec_mail_headers(raw@),
{
    let m = mail_parser::MessageParser::default().parse(raw)?;
    let from = m.from().and_then(mail_parser::Address::first);
    Some(MailHeaders {
        subject: m.subject().map(String::from),
        from_address: from.and_then(mail_parser::Addr::address).map(String::from),
        from_name: from.and_then(mail_parser::Addr::name).map(String::from),
        message_id: m.message_id().map(String::from),
        in_reply_to: m.in_reply_to().as_text().map(String::from),
        references: m.references().as_text().map(String::from),
        text_body: m.body_text(0).map(String::from),
        html_body: m.body_html(0).map(String::from),
        date: m.date().map(mail_parser::DateTime::to_rfc822),
    })
}

/// `MessageParser::default().parse(raw)` and, for each part of `attachments()` in order:
/// `attachment_name`, the `ctype` and `subtype` of `content_type`, `contents`, whether its
/// body is `PartType::InlineBinary`, whether `content_disposition` is inline, and
/// `content_id`.  Empty when the parser returns `None`.  The result depends on the bytes alone.
#[verifier::external_body]
pub(crate) fn mail_parts(raw: &[u8]) -> (r: Vec<MailPart>)
    ensures
        part_views(r@) == spec_mail_parts(raw@),
{
    let Some(m) = mail_parser::MessageParser::default().parse(raw) else { return Vec::new() };
    m.attachments().map(|p| MailPart {
        name: p.attachment_name().map(String::from),
        ctype: p.content_type().map(|c| c.ctype().to_string()),
        subtype: p.content_type().and_then(|c| c.subtype()).map(String::from),
        contents: p.contents().to_vec(),
        inline_binary: matches!(p.body, mail_parser::PartType::InlineBinary(_)),
        disposition_inline: p.content_disposition().is_some_and(|d| d.is_inline()),
        content_id: p.content_id().map(String::from),
    }).collect()
}

/// `String::from_utf8_lossy(bytes).into_owned()`.
#[verifier::external_body]
pub(crate) fn utf8_lossy(bytes: &[u8]) -> (r: String)
    ensures
        r@ == spec_utf8_lossy(bytes@),
{
    String::from_utf8_lossy(bytes).into_owned()
}

// ------------------------------------------------------------------
// Specification
// ------------------------------------------------------------------

/// A part counts as inline when the parser classified it so, when its disposition is
/// inline, or when it has a Content-ID.
pub open spec fn part_is_inline(p: MailPartView) -> bool {
    p.inline_binary || p.disposition_inline || p.content_id is Some
}

/// A Content-ID without surrounding whitespace and without its `<...>` wrapper.
pub open spec fn bare_content_id(id: Seq<char>) -> Seq<char> {
    let s = trim(id);
    if s.len() >= 1 && s[0] == '<' && ends_with(s.drop_first(), seq!['>']) {
        s.drop_first().drop_last()
    } else {
        s
    }
}

pub open spec fn opt_bare_content_id(id: Option<Seq<char>>) -> Option<Seq<char>> {
    match id {
        Some(i) => Some(bare_content_id(i)),
        None => None,
    }
}

pub open spec fn octet_stream() -> Seq<char> {
    "application/octet-stream"@
}

/// The attachment that a received part becomes when the message is rebuilt.
pub open spec fn relayed_attachment(p: MailPartView) -> AttachmentView {
    AttachmentView {
        filename: p.name,
        content_type: match p.ctype {
            Some(c) => c,
            None => octet_stream(),
        },
        data: p.contents,
        is_inline: part_is_inline(p),
        content_id: opt_bare_content_id(p.content_id),
    }
}

pub open spec fn relayed_attachments(parts: Seq<MailPartView>) -> Seq<AttachmentView> {
    parts.map_values(|p: MailPartView| relayed_attachment(p))
}

pub open spec fn or_else(o: Option<Seq<char>>, d: Seq<char>) -> Seq<char> {
    match o {
        Some(s) => s,
        None => d,
    }
}

pub open spec fn no_subject() -> Seq<char> {
    "No Subject"@
}

/// The `From:` value of a forwarded message: `"Name via Relay" <reply address>`.
pub open spec fn relay_display_from(name: Seq<char>, reply_from: Seq<char>) -> Seq<char> {
    seq!['"'] + name + " via Relay\" <"@ + reply_from + seq!['>']
}

/// The message that forwarding rebuilds from a received message.
pub open spec fn forward_email(
    h: MailHeadersView,
    parts: Seq<MailPartView>,
    original_sender: Seq<char>,
    reply_from: Seq<char>,
    destination: Seq<char>,
) -> MimeEmailView {
    MimeEmailView {
        from: relay_display_from(or_else(h.from_name, original_sender), reply_from),
        to: destination,
        subject: or_else(h.subject, no_subject()),
        text_body: or_else(h.text_body, Seq::empty()),
        html_body: h.html_body,
        message_id: h.message_id,
        in_reply_to: h.in_reply_to,
        references: h.references,
        attachments: relayed_attachments(parts),
    }
}

/// The message that relaying a reply rebuilds: sent from the alias to the original
/// sender, with a new Message-ID and the threading headers kept.
pub open spec fn reply_email(
    h: MailHeadersView,
    parts: Seq<MailPartView>,
    alias_address: Seq<char>,
    original_sender: Seq<char>,
) -> MimeEmailView {
    MimeEmailView {
        from: alias_address,
        to: original_sender,
        subject: or_else(h.subject, no_subject()),
        text_body: or_else(h.text_body, Seq::empty()),
        html_body: h.html_body,
        message_id: None,
        in_reply_to: h.in_reply_to,
        references: h.references,
        attachments: relayed_attachments(parts),
    }
}

// ------------------------------------------------------------------
// Rebuilding
// ------------------------------------------------------------------

fn bare_id(id: &str) -> (r: String)
    ensures
        r@ == bare_content_id(id@),
{
    let v = chars_of(id);
    let s = trim_chars(&v);
    if s.len() >= 2 && s[0] == '<' && s[s.len() - 1] == '>' {
        let inner = slice_of(&s, 1, s.len() - 1);
        assert(inner@ =~= s@.drop_first().drop_last());
        assert(ends_with(s@.drop_first(), seq!['>'])) by {
            assert(s@.drop_first().subrange(s@.len() - 2, s@.len() - 1) =~= seq!['>']);
        }
        string_from(&inner)
    } else {
        proof {
            if s@.len() >= 1 && s@[0] == '<' && ends_with(s@.drop_first(), seq!['>']) {
                let d = s@.drop_first();
                assert(d.subrange(d.len() - 1, d.len() as int)[0] == '>');
            }
        }
        string_from(&s)
    }
}

fn opt_clone(o: &Option<String>) -> (r: Option<String>)
    ensures
        opt_view(r) == opt_view(*o),
{
    match o {
        Some(s) => Some(string_from(&chars_of(s.as_str()))),
        None => None,
    }
}

fn relayed(p: &MailPart) -> (a: Attachment)
    ensures
        a@ == relayed_attachment(p@),
{
    let content_type = match &p.ctype {
        Some(c) => string_from(&chars_of(c.as_str())),
        None => string_from(&chars_of("application/octet-stream")),
    };
    let content_id = match &p.content_id {
        Some(c) => Some(bare_id(c.as_str())),
        None => None,
    };
    let mut data: Vec<u8> = Vec::new();
    let mut i: usize = 0;
    while i < p.contents.len()
        invariant
            i <= p.contents.len(),
            data@ == p.contents@.subrange(0, i as int),
        decreases p.contents.len() - i,
    {
        data.push(p.contents[i]);
        i = i + 1;
        assert(data@ =~= p.contents@.subrange(0, i as int));
    }
    assert(p.contents@.subrange(0, p.contents.len() as int) =~= p.contents@);
    let is_inline = p.inline_binary || p.disposition_inline || p.content_id.is_some();
    Attachment { filename: opt_clone(&p.name), content_type, data, is_inline, content_id }
}

fn relayed_all(parts: &Vec<MailPart>) -> (r: Vec<Attachment>)
    ensures
        crate::mime::att_views(r@) == relayed_attachments(part_views(parts@)),
{
    let mut r: Vec<Attachment> = Vec::new();
    let mut i: usize = 0;
    while i < parts.len()
        invariant
            i <= parts.len(),
            crate::mime::att_views(r@) == relayed_attachments(part_views(parts@)).take(i as int),
        decreases parts.len() - i,
    {
        let a = relayed(&parts[i]);
        let ghost old_r = r@;
        proof {
            assert(crate::mime::att_views(old_r).len() == old_r.len());
            assert(relayed_attachments(part_views(parts@)).len() == parts@.len());
            assert(old_r.len() == i);
        }
        r.push(a);
        proof {
            assert(r@ == old_r.push(a));
            assert(r@[i as int] == a);
            assert(part_views(parts@)[i as int] == parts@[i as int]@);
            assert(crate::mime::att_views(r@)[i as int] == a@);
        }
        i = i + 1;
        assert(crate::mime::att_views(r@) =~= relayed_attachments(part_views(parts@)).take(i as int));
    }
    assert(relayed_attachments(part_views(parts@)).take(parts.len() as int) =~= relayed_attachments(
        part_views(parts@),
    ));
    r
}

fn or_default(o: &Option<String>, d: &str) -> (r: String)
    ensures
        r@ == or_else(opt_view(*o), d@),
{
    match o {
        Some(s) => string_from(&chars_of(s.as_str())),
        None => string_from(&chars_of(d)),
    }
}

/// Rewrites an email body's headers for secure two-way reply relaying.
/// A message that cannot be parsed is passed on as (lossily decoded) text.
pub fn rewrite_body_for_forward(
    body: &[u8],
    original_sender: &str,
    reply_from_email: &str,
    destination_email: &str,
) -> (r: String)
    ensures
        match spec_mail_headers(body@) {
            Some(h) => exists|env: MimeEnvelope| drawn_envelope(env) &&
                r@ == spec_build_mime(
                    forward_email(
                        h,
                        spec_mail_parts(body@),
                        original_sender@,
                        reply_from_email@,
                        destination_email@,
                    ),
                    env,
                ),
            None => r@ == spec_utf8_lossy(body@),
        },
{
    match mail_headers(body) {
        Some(h) => {
            let parts = mail_parts(body);
            let email = forward_message(&h, &parts, original_sender, reply_from_email, destination_email);
            build_mime(&email)
        },
        None => utf8_lossy(body),
    }
}

/// The message a forward sends, from the parsed headers and attachment parts of the
/// received message: it comes from `"<name> via Relay" <reply_from_email>` (the
/// sender's display name, else `original_sender`), goes to `destination_email`, and
/// keeps the subject (`No Subject` when there is none), bodies, threading ids and
/// attachments.
pub fn forward_message(
    h: &MailHeaders,
    parts: &Vec<MailPart>,
    original_sender: &str,
    reply_from_email: &str,
    destination_email: &str,
) -> (m: MimeEmail)
    ensures
        m@ == forward_email(h@, part_views(parts@), original_sender@, reply_from_email@, destination_email@),
{
    let attachments = relayed_all(parts);
    let name = or_default(&h.from_name, original_sender);
    let mut from = String::new();
    push_chars(&mut from, &['"']);
    push_str(&mut from, name.as_str());
    push_str(&mut from, " via Relay\" <");
    push_str(&mut from, reply_from_email);
    push_chars(&mut from, &['>']);
    let email = MimeEmail {
        from,
        to: string_from(&chars_of(destination_email)),
        subject: or_default(&h.subject, "No Subject"),
        text_body: or_default(&h.text_body, ""),
        html_body: opt_clone(&h.html_body),
        message_id: opt_clone(&h.message_id),
        in_reply_to: opt_clone(&h.in_reply_to),
        references: opt_clone(&h.references),
        attachments,
    };
    proof {
        reveal_strlit("");
        assert(""@ =~= Seq::<char>::empty());
        assert(email.from@ =~= relay_display_from(or_else(h@.from_name, original_sender@), reply_from_email@));
    }
    email
}

/// Prepares and sanitizes a reply email received from the user's mailbox, rewriting
/// headers to look as if it was sent directly from the alias.
pub fn prepare_reply_for_relay(body: &[u8], alias_address: &str, original_sender: &str) -> (r: String)
    ensures
        match spec_mail_headers(body@) {
            Some(h) => exists|env: MimeEnvelope| drawn_envelope(env) &&
                r@ == spec_build_mime(
                    reply_email(h, spec_mail_parts(body@), alias_address@, original_sender@),
                    env,
                ),
            None => r@ == spec_utf8_lossy(body@),
        },
{
    match mail_headers(body) {
        Some(h) => {
            let parts = mail_parts(body);
            let email = relay_reply_message(&h, &parts, alias_address, original_sender);
            build_mime(&email)
        },
        None => utf8_lossy(body),
    }
}

/// The message a relayed reply sends, from the parsed headers and attachment parts of
/// the reply the user wrote: it comes from the alias, goes to the original sender, and
/// keeps the subject (`No Subject` when there is none), bodies, `In-Reply-To`,
/// `References` and attachments; nothing of the user's own address or Message-ID is
/// kept.
pub fn relay_reply_message(h: &MailHeaders, parts: &Vec<MailPart>, alias_address: &str, original_sender: &str) -> (m: MimeEmail)
    ensures
        m@ == reply_email(h@, part_views(parts@), alias_address@, original_sender@),
{
    let attachments = relayed_all(parts);
    let email = MimeEmail {
        from: string_from(&chars_of(alias_address)),
        to: string_from(&chars_of(original_sender)),
        subject: or_default(&h.subject, "No Subject"),
        text_body: or_default(&h.text_body, ""),
        html_body: opt_clone(&h.html_body),
        message_id: None,
        in_reply_to: opt_clone(&h.in_reply_to),
        references: opt_clone(&h.references),
        attachments,
    };
    proof {
        reveal_strlit("");
        assert(""@ =~= Seq::<char>::empty());
    }
    email
}


// ------------------------------------------------------------------
// Metadata of a received message
// ------------------------------------------------------------------

/// Threading and display metadata of a received message.
#[derive(Debug)]
pub struct EmailMetadata {
    pub sender: String,
    pub subject: String,
    pub message_id: Option<String>,
    pub in_reply_to: Option<String>,
    pub references: Vec<String>,
}

pub struct EmailMetadataView {
    pub sender: Seq<char>,
    pub subject: Seq<char>,
    pub message_id: Option<Seq<char>>,
    pub in_reply_to: Option<Seq<char>>,
    pub references: Seq<Seq<char>>,
}

impl View for EmailMetadata {
    type V = EmailMetadataView;

    open spec fn view(&self) -> EmailMetadataView {
        EmailMetadataView {
            sender: self.sender@,
            subject: self.subject@,
            message_id: opt_view(self.message_id),
            in_reply_to: opt_view(self.in_reply_to),
            references: self.references@.map_values(|r: String| r@),
        }
    }
}

pub open spec fn opt_format_id(o: Option<Seq<char>>) -> Option<Seq<char>> {
    match o {
        Some(i) => Some(spec_format_message_id(i)),
        None => None,
    }
}

/// The message ids listed in a `References:` text, each formatted.
pub open spec fn reference_ids(refs: Option<Seq<char>>) -> Seq<Seq<char>> {
    match refs {
        Some(r) => words(r).map_values(|w: Seq<char>| spec_format_message_id(w)),
        None => Seq::empty(),
    }
}

/// The metadata of a message: the `From:` address (the envelope sender when there is
/// none), the subject (`No Subject` when there is none), and the formatted Message-ID,
/// In-Reply-To and References.
pub open spec fn spec_metadata(h: Option<MailHeadersView>, envelope_sender: Seq<char>) -> EmailMetadataView {
    match h {
        None => EmailMetadataView {
            sender: envelope_sender,
            subject: no_subject(),
            message_id: None,
            in_reply_to: None,
            references: Seq::empty(),
        },
        Some(h) => EmailMetadataView {
            sender: or_else(h.from_address, envelope_sender),
            subject: or_else(h.subject, no_subject()),
            message_id: opt_format_id(h.message_id),
            in_reply_to: opt_format_id(h.in_reply_to),
            references: reference_ids(h.references),
        },
    }
}

/// The sender shown for a received message is its `From:` address, and the envelope
/// sender only when the message has none or cannot be parsed; its subject is `No
/// Subject` only when it has none; its reply threading keeps the `In-Reply-To` id.
pub proof fn lemma_metadata_fields(h: MailHeadersView, envelope_sender: Seq<char>, a: Seq<char>)
    ensures
        h.from_address == Some(a) ==> spec_metadata(Some(h), envelope_sender).sender == a,
        h.from_address is None ==> spec_metadata(Some(h), envelope_sender).sender == envelope_sender,
        spec_metadata(None, envelope_sender).sender == envelope_sender,
        h.subject == Some(a) ==> spec_metadata(Some(h), envelope_sender).subject == a,
        h.subject is None ==> spec_metadata(Some(h), envelope_sender).subject == "No Subject"@,
        h.in_reply_to is Some <==> spec_metadata(Some(h), envelope_sender).in_reply_to is Some,
        spec_metadata(None, envelope_sender).in_reply_to is None,
{
}

fn opt_format(o: &Option<String>) -> (r: Option<String>)
    ensures
        opt_view(r) == opt_format_id(opt_view(*o)),
{
    match o {
        Some(s) => Some(format_message_id(s.as_str())),
        None => None,
    }
}

fn references_of(refs: &Option<String>) -> (r: Vec<String>)
    ensures
        r@.map_values(|x: String| x@) == reference_ids(opt_view(*refs)),
{
    let mut out: Vec<String> = Vec::new();
    match refs {
        None => {
            assert(out@.map_values(|x: String| x@) =~= Seq::<Seq<char>>::empty());
        },
        Some(text) => {
            let ws = split_whitespace(&chars_of(text.as_str()));
            let ghost target = words(text@).map_values(|w: Seq<char>| spec_format_message_id(w));
            let mut i: usize = 0;
            while i < ws.len()
                invariant
                    i <= ws.len(),
                    ws@.map_values(|w: Vec<char>| w@) == words(text@),
                    target == words(text@).map_values(|w: Seq<char>| spec_format_message_id(w)),
                    out@.map_values(|x: String| x@) == target.take(i as int),
                decreases ws.len() - i,
            {
                let f = format_message_id(string_from(&ws[i]).as_str());
                let ghost old_out = out@;
                out.push(f);
                proof {
                    assert(ws@.map_values(|w: Vec<char>| w@)[i as int] == ws@[i as int]@);
                    assert(words(text@)[i as int] == ws@[i as int]@);
                    assert(target[i as int] == spec_format_message_id(words(text@)[i as int]));
                    assert(f@ == target[i as int]);
                    assert(out@ == old_out.push(f));
                    assert(old_out.map_values(|x: String| x@).len() == i);
                    let ghost outv = out@.map_values(|x: String| x@);
                    assert forall|k: int| 0 <= k < i + 1 implies #[trigger] outv[k] == target.take(i + 1)[k] by {
                        if k < i {
                            assert(out@[k] == old_out[k]);
                            assert(old_out.map_values(|x: String| x@)[k] == target.take(i as int)[k]);
                        }
                    }
                    assert(out@.map_values(|x: String| x@) =~= target.take(i + 1));
                }
                i = i + 1;
            }
            assert(target.take(ws.len() as int) =~= target);
        },
    }
    out
}

/// Extracts metadata from the email body for threading and display.
pub fn extract_metadata(body: &[u8], envelope_sender: &str) -> (m: EmailMetadata)
    ensures
        m@ == spec_metadata(spec_mail_headers(body@), envelope_sender@),
{
    metadata_from(&mail_headers(body), envelope_sender)
}

/// The metadata of a message from its parsed headers (`None` when it could not be
/// parsed): the `From:` address (else the envelope sender), the subject (else `No
/// Subject`), and the formatted Message-ID, In-Reply-To and References.
pub fn metadata_from(h: &Option<MailHeaders>, envelope_sender: &str) -> (m: EmailMetadata)
    ensures
        m@ == spec_metadata(opt_headers_view(*h), envelope_sender@),
{
    match h {
        None => {
            let m = EmailMetadata {
                sender: string_from(&chars_of(envelope_sender)),
                subject: or_default(&None, "No Subject"),
                message_id: None,
                in_reply_to: None,
                references: Vec::new(),
            };
            assert(m.references@.map_values(|r: String| r@) =~= Seq::<Seq<char>>::empty());
            m
        },
        Some(h) => {
            let sender = match &h.from_address {
                Some(a) => string_from(&chars_of(a.as_str())),
                None => string_from(&chars_of(envelope_sender)),
            };
            EmailMetadata {
                sender,
                subject: or_default(&h.subject, "No Subject"),
                message_id: opt_format(&h.message_id),
                in_reply_to: opt_format(&h.in_reply_to),
                references: references_of(&h.references),
            }
        },
    }
}

/// Metadata of one attachment, as stored alongside a received message.
#[derive(Debug)]
pub struct AttachmentMetadata {
    pub filename: Option<String>,
    pub content_type: Option<String>,
    /// Decoded byte length.
    pub size_bytes: i64,
    pub part_index: i32,
    pub is_inline: bool,
    /// Content-ID without the `<>` wrapper.
    pub content_id: Option<String>,
}

pub struct AttachmentMetadataView {
    pub filename: Option<Seq<char>>,
    pub content_type: Option<Seq<char>>,
    pub size_bytes: i64,
    pub part_index: i32,
    pub is_inline: bool,
    pub content_id: Option<Seq<char>>,
}

impl View for AttachmentMetadata {
    type V = AttachmentMetadataView;

    open spec fn view(&self) -> AttachmentMetadataView {
        AttachmentMetadataView {
            filename: opt_view(self.filename),
            content_type: opt_view(self.content_type),
            size_bytes: self.size_bytes,
            part_index: self.part_index,
            is_inline: self.is_inline,
            content_id: opt_view(self.content_id),
        }
    }
}

/// `type/subtype`, or the type alone when there is no subtype.
pub open spec fn full_content_type(ctype: Option<Seq<char>>, subtype: Option<Seq<char>>) -> Option<Seq<char>> {
    match ctype {
        Some(c) => Some(
            match subtype {
                Some(s) => c + seq!['/'] + s,
                None => c,
            },
        ),
        None => None,
    }
}

/// The metadata of the part at `index`.
pub open spec fn attachment_metadata(p: MailPartView, index: int) -> AttachmentMetadataView {
    AttachmentMetadataView {
        filename: p.name,
        content_type: full_content_type(p.ctype, p.subtype),
        size_bytes: p.contents.len() as i64,
        part_index: index as i32,
        is_inline: part_is_inline(p),
        content_id: opt_bare_content_id(p.content_id),
    }
}

pub open spec fn attachments_metadata(parts: Seq<MailPartView>) -> Seq<AttachmentMetadataView> {
    Seq::new(parts.len(), |i: int| attachment_metadata(parts[i], i))
}

fn metadata_of_part(p: &MailPart, index: usize) -> (m: AttachmentMetadata)
    ensures
        m@ == attachment_metadata(p@, index as int),
{
    let content_type = match &p.ctype {
        Some(c) => {
            let mut t = string_from(&chars_of(c.as_str()));
            match &p.subtype {
                Some(s) => {
                    let slash: Vec<char> = vec!['/'];
                    assert(slash@ =~= seq!['/']);
                    push_chars(&mut t, &slash);
                    push_str(&mut t, s.as_str());
                },
                None => {},
            }
            Some(t)
        },
        None => None,
    };
    let content_id = match &p.content_id {
        Some(c) => Some(bare_id(c.as_str())),
        None => None,
    };
    AttachmentMetadata {
        filename: opt_clone(&p.name),
        content_type,
        size_bytes: #[verifier::truncate] (p.contents.len() as i64),
        part_index: #[verifier::truncate] (index as i32),
        is_inline: p.inline_binary || p.disposition_inline || p.content_id.is_some(),
        content_id,
    }
}

/// Extracts metadata and attachment metadata from the email body for threading,
/// display, and storage.
pub fn extract_full_metadata(body: &[u8], envelope_sender: &str) -> (r: (EmailMetadata, Vec<AttachmentMetadata>))
    ensures
        r.0@ == spec_metadata(spec_mail_headers(body@), envelope_sender@),
        r.1@.map_values(|a: AttachmentMetadata| a@) == attachments_metadata(spec_mail_parts(body@)),
{
    let meta = extract_metadata(body, envelope_sender);
    let parts = mail_parts(body);
    (meta, attachment_metadata_of(&parts))
}

/// The metadata of each attachment part, with its index.
pub fn attachment_metadata_of(parts: &Vec<MailPart>) -> (r: Vec<AttachmentMetadata>)
    ensures
        r@.map_values(|a: AttachmentMetadata| a@) == attachments_metadata(part_views(parts@)),
{
    let mut out: Vec<AttachmentMetadata> = Vec::new();
    let mut i: usize = 0;
    while i < parts.len()
        invariant
            i <= parts.len(),
            out@.map_values(|a: AttachmentMetadata| a@) == attachments_metadata(part_views(parts@)).take(i as int),
        decreases parts.len() - i,
    {
        let m = metadata_of_part(&parts[i], i);
        let ghost old_out = out@;
        out.push(m);
        proof {
            let ghost target = attachments_metadata(part_views(parts@));
            assert(part_views(parts@)[i as int] == parts@[i as int]@);
            assert(target[i as int] == m@);
            assert(out@ == old_out.push(m));
            assert(old_out.map_values(|a: AttachmentMetadata| a@).len() == i);
            let ghost outv = out@.map_values(|a: AttachmentMetadata| a@);
            assert forall|k: int| 0 <= k < i + 1 implies #[trigger] outv[k] == target.take(i + 1)[k] by {
                if k < i {
                    assert(out@[k] == old_out[k]);
                    assert(old_out.map_values(|a: AttachmentMetadata| a@)[k] == target.take(i as int)[k]);
                }
            }
            assert(out@.map_values(|a: AttachmentMetadata| a@) =~= target.take(i + 1));
        }
        i = i + 1;
    }
    assert(attachments_metadata(part_views(parts@)).take(parts.len() as int) =~= attachments_metadata(part_views(parts@)));
    out
}

/// A stored message "has attachments" when one of its attachments is not inline
/// (inline images belong to the body).
pub fn has_attachments(atts: &Vec<AttachmentMetadata>) -> (b: bool)
    ensures
        b == exists|i: int| 0 <= i < atts@.len() && !(#[trigger] atts@[i]).is_inline,
{
    let mut i: usize = 0;
    while i < atts.len()
        invariant
            i <= atts.len(),
            forall|j: int| 0 <= j < i ==> (#[trigger] atts@[j]).is_inline,
        decreases atts.len() - i,
    {
        if !atts[i].is_inline {
            return true;
        }
        i = i + 1;
    }
    false
}

} // verus!
