//! Composing a message in the portal: the fields of the submitted form, the limits on
//! attachments, the checks before sending, and the message that is built from it.
use vstd::prelude::*;
use crate::i18n::{Locale, Messages};
use crate::mime::{att_views, opt_view, sanitize_header, strip_crlf, Attachment, AttachmentView, MimeEmail};
use crate::outbound::at_field;
use crate::text::{
    chars_of, contains, dec, dec_u64, has_char, push_chars, push_str, str_eq, string_from, trim, trim_chars,
};

verus! {

/// At most this many attachments.
pub const MAX_ATTACHMENTS: usize = 10;
/// At most this many bytes per attachment: 10 MB.
pub const MAX_ATTACHMENT_BYTES: usize = 10485760;
/// At most this many bytes of attachments in all: 25 MB.
pub const MAX_TOTAL_ATTACHMENT_BYTES: usize = 26214400;
/// The largest upload request the form route accepts: 30 MB.
pub const MAX_UPLOAD_REQUEST_BYTES: usize = 31457280;

// ------------------------------------------------------------------
// Outside functions
// ------------------------------------------------------------------

/// The MIME type that the file name's extension suggests, if any.
pub uninterp spec fn spec_guess_mime(filename: Seq<char>) -> Option<Seq<char>>;

/// The 128-bit value of a UUID text, when it is one.
pub uninterp spec fn spec_parse_uuid(text: Seq<char>) -> Option<u128>;

/// `mime_guess::from_path(filename).first_raw()`: depends on the name alone.
#[verifier::external_body]
fn guess_mime(filename: &str) -> (r: Option<String>)
    ensures
        opt_view(r) == spec_guess_mime(filename@),
{
    mime_guess::from_path(filename).first_raw().map(String::from)
}

/// `Uuid::parse_str(text)` and `as_u128`.
#[verifier::external_body]
pub(crate) fn parse_uuid(text: &str) -> (r: Option<u128>)
    ensures
        r == spec_parse_uuid(text@),
{
    uuid::Uuid::parse_str(text).ok().map(|u| u.as_u128())
}

// ------------------------------------------------------------------
// Attachments
// ------------------------------------------------------------------

/// An attachment's type: the given one when it is not blank, else what the file name
/// suggests, else `application/octet-stream`.
pub open spec fn resolved_content_type(content_type: Option<Seq<char>>, filename: Option<Seq<char>>) -> Seq<char> {
    match content_type {
        Some(ct) if trim(ct).len() > 0 => ct,
        _ => match filename {
            Some(f) => match spec_guess_mime(f) {
                Some(m) => m,
                None => "application/octet-stream"@,
            },
            None => "application/octet-stream"@,
        },
    }
}

/// A file name without path separators (`/`, `\`), trimmed; `attachment` when nothing
/// is left or there was no name.
pub open spec fn clean_filename(filename: Option<Seq<char>>) -> Seq<char> {
    match filename {
        Some(f) => {
            let c = trim(f.filter(|x: char| x != '/' && x != '\\'));
            if c.len() == 0 {
                "attachment"@
            } else {
                c
            }
        },
        None => "attachment"@,
    }
}

fn resolve_content_type(content_type: &Option<String>, filename: &Option<String>) -> (r: String)
    ensures
        r@ == resolved_content_type(opt_view(*content_type), opt_view(*filename)),
{
    match content_type {
        Some(ct) => {
            if trim_chars(&chars_of(ct.as_str())).len() > 0 {
                return string_from(&chars_of(ct.as_str()));
            }
        },
        None => {},
    }
    match filename {
        Some(f) => match guess_mime(f.as_str()) {
            Some(m) => m,
            None => "application/octet-stream".to_owned(),
        },
        None => "application/octet-stream".to_owned(),
    }
}

fn clean_name(filename: &Option<String>) -> (r: String)
    ensures
        r@ == clean_filename(opt_view(*filename)),
{
    match filename {
        Some(f) => {
            let v = chars_of(f.as_str());
            let ghost keep = |x: char| x != '/' && x != '\\';
            let mut kept: Vec<char> = Vec::new();
            let mut i: usize = 0;
            while i < v.len()
                invariant
                    i <= v.len(),
                    v@ == f@,
                    keep == (|x: char| x != '/' && x != '\\'),
                    kept@ == v@.take(i as int).filter(keep),
                decreases v.len() - i,
            {
                proof {
                    assert(v@.take(i + 1) =~= v@.take(i as int).push(v@[i as int]));
                    v@.take(i as int).lemma_filter_push(v@[i as int], keep);
                }
                if v[i] != '/' && v[i] != '\\' {
                    kept.push(v[i]);
                }
                i = i + 1;
            }
            assert(v@.take(v.len() as int) =~= v@);
            let c = trim_chars(&kept);
            if c.len() == 0 {
                "attachment".to_owned()
            } else {
                string_from(&c)
            }
        },
        None => "attachment".to_owned(),
    }
}

/// Whether a further chunk of `chunk_len` bytes keeps an attachment of `current_len`
/// bytes within the limit.
pub fn chunk_fits(current_len: usize, chunk_len: usize) -> (b: bool)
    ensures
        b == (current_len + chunk_len <= MAX_ATTACHMENT_BYTES),
{
    current_len <= MAX_ATTACHMENT_BYTES && chunk_len <= MAX_ATTACHMENT_BYTES - current_len
}

fn size_message(prefix: &str, limit: usize, suffix: &str) -> (m: String)
    ensures
        m@ == prefix@ + dec((limit / 1024 / 1024) as nat) + suffix@,
{
    let mut m = prefix.to_owned();
    push_chars(&mut m, &dec_u64((limit / 1024 / 1024) as u64));
    push_str(&mut m, suffix);
    m
}

/// The message shown when one attachment is too large.
pub fn attachment_too_large_message() -> (m: String)
    ensures
        m@ == "Attachment exceeds maximum limit of "@ + dec(10) + " MB."@,
{
    size_message("Attachment exceeds maximum limit of ", MAX_ATTACHMENT_BYTES, " MB.")
}

// ------------------------------------------------------------------
// The form
// ------------------------------------------------------------------

/// The submitted compose form, as its fields arrive.
pub struct ComposeForm {
    pub draft_id: Option<u128>,
    pub from_alias_id: Option<u128>,
    pub to_email: String,
    pub subject: String,
    pub body_text: String,
    pub attachments: Vec<Attachment>,
    /// Bytes of attachments accepted so far.
    pub total_attachment_bytes: usize,
}

impl ComposeForm {
    pub fn new() -> (f: Self)
        ensures
            f.draft_id is None && f.from_alias_id is None,
            f.to_email@.len() == 0 && f.subject@.len() == 0 && f.body_text@.len() == 0,
            f.attachments@.len() == 0 && f.total_attachment_bytes == 0,
    {
        ComposeForm {
            draft_id: None,
            from_alias_id: None,
            to_email: String::new(),
            subject: String::new(),
            body_text: String::new(),
            attachments: Vec::new(),
            total_attachment_bytes: 0,
        }
    }

    /// Takes a text field of the form.
    pub fn on_field(&mut self, name: &str, value: String)
        ensures
            name@ == "draft_id"@ ==> final(self).draft_id == (match spec_parse_uuid(trim(value@)) {
                Some(id) => Some(id),
                None => old(self).draft_id,
            }),
            name@ != "draft_id"@ ==> final(self).draft_id == old(self).draft_id,
            name@ == "from_alias_id"@ ==> final(self).from_alias_id == (match spec_parse_uuid(trim(value@)) {
                Some(id) => Some(id),
                None => old(self).from_alias_id,
            }),
            name@ != "from_alias_id"@ ==> final(self).from_alias_id == old(self).from_alias_id,
            final(self).to_email@ == (if name@ == "to_email"@ { value@ } else { old(self).to_email@ }),
            final(self).subject@ == (if name@ == "subject"@ { value@ } else { old(self).subject@ }),
            final(self).body_text@ == (if name@ == "body_text"@ { value@ } else { old(self).body_text@ }),
            final(self).attachments@ == old(self).attachments@,
            final(self).total_attachment_bytes == old(self).total_attachment_bytes,
    {
        proof {
            reveal_strlit("draft_id");
            reveal_strlit("from_alias_id");
            reveal_strlit("to_email");
            reveal_strlit("subject");
            reveal_strlit("body_text");
            assert("draft_id"@ != "from_alias_id"@) by {
                assert("draft_id"@[0] != "from_alias_id"@[0]);
            }
            assert("draft_id"@ != "to_email"@) by {
                assert("draft_id"@[0] != "to_email"@[0]);
            }
            assert("draft_id"@ != "subject"@) by {
                assert("draft_id"@[0] != "subject"@[0]);
            }
            assert("draft_id"@ != "body_text"@) by {
                assert("draft_id"@[0] != "body_text"@[0]);
            }
            assert("from_alias_id"@ != "to_email"@) by {
                assert("from_alias_id"@[0] != "to_email"@[0]);
            }
            assert("from_alias_id"@ != "subject"@) by {
                assert("from_alias_id"@[0] != "subject"@[0]);
            }
            assert("from_alias_id"@ != "body_text"@) by {
                assert("from_alias_id"@[0] != "body_text"@[0]);
            }
            assert("to_email"@ != "subject"@) by {
                assert("to_email"@[0] != "subject"@[0]);
            }
            assert("to_email"@ != "body_text"@) by {
                assert("to_email"@[0] != "body_text"@[0]);
            }
            assert("subject"@ != "body_text"@) by {
                assert("subject"@[0] != "body_text"@[0]);
            }
        }
        if str_eq(name, "draft_id") {
            let t = string_from(&trim_chars(&chars_of(value.as_str())));
            match parse_uuid(t.as_str()) {
                Some(id) => self.draft_id = Some(id),
                None => {},
            }
        } else if str_eq(name, "from_alias_id") {
            let t = string_from(&trim_chars(&chars_of(value.as_str())));
            match parse_uuid(t.as_str()) {
                Some(id) => self.from_alias_id = Some(id),
                None => {},
            }
        } else if str_eq(name, "to_email") {
            self.to_email = value;
        } else if str_eq(name, "subject") {
            self.subject = value;
        } else if str_eq(name, "body_text") {
            self.body_text = value;
        }
    }

    /// Takes an uploaded file (its data complete, within the per-file limit) with the
    /// name and type the browser gave.  Empty files are skipped; the eleventh file or
    /// one that takes the total over 25 MB is refused with the message to show.
    pub fn on_attachment(&mut self, filename: Option<&str>, content_type: Option<&str>, data: Vec<u8>) -> (r: Result<(), String>)
        ensures
            ({
                let fname = match filename {
                    Some(f) => Some(strip_crlf(f@)),
                    None => None,
                };
                let ctype = match content_type {
                    Some(c) => Some(strip_crlf(c@)),
                    None => None,
                };
                if data@.len() == 0 {
                    r is Ok && final(self).attachments@ == old(self).attachments@
                        && final(self).total_attachment_bytes == old(self).total_attachment_bytes
                } else if old(self).attachments@.len() >= MAX_ATTACHMENTS {
                    r matches Err(m) && m@ == "Too many attachments. Maximum is "@ + dec(MAX_ATTACHMENTS as nat) + "."@
                } else if old(self).total_attachment_bytes + data@.len() > MAX_TOTAL_ATTACHMENT_BYTES {
                    r matches Err(m) && m@ == "Total attachments size exceeds limit of "@ + dec(25) + " MB."@
                } else {
                    &&& r is Ok
                    &&& final(self).total_attachment_bytes == old(self).total_attachment_bytes + data@.len()
                    &&& att_views(final(self).attachments@) == att_views(old(self).attachments@).push(
                        AttachmentView {
                            filename: Some(clean_filename(fname)),
                            content_type: resolved_content_type(ctype, fname),
                            data: data@,
                            is_inline: false,
                            content_id: None,
                        },
                    )
                }
            }),
            final(self).to_email == old(self).to_email,
            final(self).subject == old(self).subject,
            final(self).body_text == old(self).body_text,
            final(self).draft_id == old(self).draft_id,
            final(self).from_alias_id == old(self).from_alias_id,
    {
        let fname = match filename {
            Some(f) => Some(sanitize_header(f)),
            None => None,
        };
        let ctype = match content_type {
            Some(c) => Some(sanitize_header(c)),
            None => None,
        };
        if data.len() == 0 {
            return Ok(());
        }
        if self.attachments.len() >= MAX_ATTACHMENTS {
            let mut m = "Too many attachments. Maximum is ".to_owned();
            push_chars(&mut m, &dec_u64(MAX_ATTACHMENTS as u64));
            push_str(&mut m, ".");
            return Err(m);
        }
        if self.total_attachment_bytes > MAX_TOTAL_ATTACHMENT_BYTES
            || data.len() > MAX_TOTAL_ATTACHMENT_BYTES - self.total_attachment_bytes {
            return Err(size_message("Total attachments size exceeds limit of ", MAX_TOTAL_ATTACHMENT_BYTES, " MB."));
        }
        self.total_attachment_bytes = self.total_attachment_bytes + data.len();
        let content_type = resolve_content_type(&ctype, &fname);
        let name = clean_name(&fname);
        let ghost before = self.attachments@;
        let a = Attachment { filename: Some(name), content_type, data, is_inline: false, content_id: None };
        self.attachments.push(a);
        assert(att_views(self.attachments@) =~= att_views(before).push(a@));
        Ok(())
    }

    /// The checks before sending: a recipient address with an `@`, a subject that is
    /// not blank, and a sending alias; otherwise the message to show.
    pub fn check(&self, locale: Locale) -> (r: Result<u128, String>)
        ensures
            !(trim(self.to_email@).len() > 0 && contains(trim(self.to_email@), seq!['@'])) ==> (r matches Err(m)
                && m@ == locale.toast_invalid_email_text()),
            (trim(self.to_email@).len() > 0 && contains(trim(self.to_email@), seq!['@'])) && trim(self.subject@).len()
                == 0 ==> (r matches Err(m) && m@ == locale.toast_empty_subject_text()),
            (trim(self.to_email@).len() > 0 && contains(trim(self.to_email@), seq!['@'])) && trim(self.subject@).len()
                > 0 ==> match self.from_alias_id {
                Some(id) => r == Ok::<u128, String>(id),
                None => r matches Err(m) && m@ == locale.toast_alias_unauthorized_text(),
            },
    {
        let to = trim_chars(&chars_of(self.to_email.as_str()));
        let at: Vec<char> = vec!['@'];
        assert(at@ =~= seq!['@']);
        if to.len() == 0 || crate::text::find_chars(&to, &at).is_none() {
            return Err(locale.toast_invalid_email().to_owned());
        }
        if trim_chars(&chars_of(self.subject.as_str())).len() == 0 {
            return Err(locale.toast_empty_subject().to_owned());
        }
        match self.from_alias_id {
            Some(id) => Ok(id),
            None => Err(locale.toast_alias_unauthorized().to_owned()),
        }
    }

    /// The message to send from `from_address`: the trimmed recipient, the subject and
    /// text as typed, the attachments, under `message_id`.
    pub fn into_message(self, from_address: &str, message_id: String) -> (m: MimeEmail)
        ensures
            m@.from == from_address@,
            m@.to == trim(self.to_email@),
            m@.subject == self.subject@,
            m@.text_body == self.body_text@,
            m@.html_body is None,
            m@.message_id == Some(message_id@),
            m@.in_reply_to is None,
            m@.references is None,
            m@.attachments == att_views(self.attachments@),
    {
        MimeEmail {
            from: from_address.to_owned(),
            to: string_from(&trim_chars(&chars_of(self.to_email.as_str()))),
            subject: self.subject,
            text_body: self.body_text,
            html_body: None,
            message_id: Some(message_id),
            in_reply_to: None,
            references: None,
            attachments: self.attachments,
        }
    }
}

/// The domain a composed message's id is made in: the sender's domain, or `localhost`.
pub fn message_id_domain(from_address: &str) -> (d: String)
    ensures
        d@ == match at_field(from_address@) {
            Some(x) => x,
            None => "localhost"@,
        },
{
    match crate::outbound::second_at_field(from_address) {
        Some(x) => x,
        None => "localhost".to_owned(),
    }
}

/// What is recorded of each attachment of a sent message: name, type and size.
pub fn attachment_records(atts: &Vec<Attachment>) -> (r: Vec<(Option<String>, String, i64)>)
    ensures
        r@.len() == atts@.len(),
        forall|i: int| 0 <= i < r@.len() ==> opt_view(#[trigger] r@[i].0) == atts@[i]@.filename && r@[i].1@
            == atts@[i]@.content_type && r@[i].2 == atts@[i]@.data.len() as i64,
{
    let mut r: Vec<(Option<String>, String, i64)> = Vec::new();
    let mut i: usize = 0;
    while i < atts.len()
        invariant
            i <= atts.len(),
            r@.len() == i,
            forall|k: int| 0 <= k < i ==> opt_view(#[trigger] r@[k].0) == atts@[k]@.filename && r@[k].1@
                == atts@[k]@.content_type && r@[k].2 == atts@[k]@.data.len() as i64,
        decreases atts.len() - i,
    {
        let a = &atts[i];
        let name = match &a.filename {
            Some(f) => Some(string_from(&chars_of(f.as_str()))),
            None => None,
        };
        let size: i64 = #[verifier::truncate] (a.data.len() as i64);
        r.push((name, string_from(&chars_of(a.content_type.as_str())), size));
        i = i + 1;
    }
    r
}

} // verus!
