//! The receiving side of SMTP: reading envelope addresses out of commands, buffering
//! the message body with dot un-stuffing and a size limit, and the session state
//! machine that decides every reply.
//!
//! The session never touches the network, the database or the disk.  Each step
//! returns what has to be done next (a reply to write, a lookup to make, bytes to
//! spill to a file), and the caller feeds the outcome of that work back in.
use vstd::prelude::*;
use vstd::string::StringSliceAdditionalSpecFns;
use crate::message::{extract_metadata, spec_metadata, EmailMetadata, EmailMetadataView};
use crate::message::spec_mail_headers;
use crate::mime::opt_view;
use crate::config::{config_or, value_or};
use crate::text::parse_bounded;
use crate::srs::{decode_srs_at, get_current_srs_timestamp, spec_decode_srs};
use crate::text::{
    chars_eq, chars_of, lacks, split_once, split_once_char, split_once_chars, starts_with,
    starts_with_chars, string_from, to_lowercase, trim, trim_chars, spec_to_lowercase, spec_to_uppercase,
    str_eq, str_starts_with, to_uppercase, has_char,
};

verus! {

// ------------------------------------------------------------------
// Envelope addresses
// ------------------------------------------------------------------

pub open spec fn is_angle(c: char) -> bool {
    c == '<' || c == '>'
}

/// `s` without its leading `<` and `>` characters.
pub open spec fn trim_start_angles(s: Seq<char>) -> Seq<char>
    decreases s.len(),
{
    if s.len() > 0 && is_angle(s[0]) {
        trim_start_angles(s.drop_first())
    } else {
        s
    }
}

/// `s` without its trailing `<` and `>` characters.
pub open spec fn trim_end_angles(s: Seq<char>) -> Seq<char>
    decreases s.len(),
{
    if s.len() > 0 && is_angle(s.last()) {
        trim_end_angles(s.drop_last())
    } else {
        s
    }
}

/// `str::trim_matches(|c| c == '<' || c == '>')`.
pub open spec fn strip_angles(s: Seq<char>) -> Seq<char> {
    trim_end_angles(trim_start_angles(s))
}

/// The address after the first `to:` of a lowercased `RCPT TO` command, trimmed and
/// without angle brackets; nothing when there is no `to:` or the address is empty.
pub open spec fn spec_extract_recipient(lower: Seq<char>) -> Option<Seq<char>> {
    match split_once(lower, seq!['t', 'o', ':']) {
        Some((_, rest)) => {
            let a = strip_angles(trim(rest));
            if a.len() == 0 {
                None
            } else {
                Some(a)
            }
        },
        None => None,
    }
}

/// The address after the first `from:` of a lowercased `MAIL FROM` command, trimmed
/// and without angle brackets.  An empty address (a bounce) is kept.
pub open spec fn spec_extract_sender(lower: Seq<char>) -> Option<Seq<char>> {
    match split_once(lower, seq!['f', 'r', 'o', 'm', ':']) {
        Some((_, rest)) => Some(strip_angles(trim(rest))),
        None => None,
    }
}

fn strip_angle_chars(v: &[char]) -> (r: Vec<char>)
    ensures
        r@ == strip_angles(v@),
{
    let mut a: usize = 0;
    assert(v@.subrange(0, v.len() as int) =~= v@);
    while a < v.len() && (v[a] == '<' || v[a] == '>')
        invariant
            a <= v.len(),
            trim_start_angles(v@.subrange(a as int, v.len() as int)) == trim_start_angles(v@),
        decreases v.len() - a,
    {
        assert(v@.subrange(a + 1, v.len() as int) =~= v@.subrange(a as int, v.len() as int).drop_first());
        a = a + 1;
    }
    assert(trim_start_angles(v@.subrange(a as int, v.len() as int)) == v@.subrange(a as int, v.len() as int));
    let mut b: usize = v.len();
    while b > a && (v[b - 1] == '<' || v[b - 1] == '>')
        invariant
            a <= b <= v.len(),
            trim_end_angles(v@.subrange(a as int, b as int)) == strip_angles(v@),
            trim_start_angles(v@.subrange(a as int, v.len() as int)) == trim_start_angles(v@),
            trim_start_angles(v@.subrange(a as int, v.len() as int)) == v@.subrange(a as int, v.len() as int),
        decreases b - a,
    {
        assert(v@.subrange(a as int, b - 1) =~= v@.subrange(a as int, b as int).drop_last());
        b = b - 1;
    }
    let r = crate::text::slice_of(v, a, b);
    assert(trim_end_angles(v@.subrange(a as int, b as int)) == v@.subrange(a as int, b as int));
    r
}

/// The recipient of an already lowercased `RCPT TO` command.
pub fn recipient_from_lowercase(lower: &str) -> (r: Option<String>)
    ensures
        opt_view(r) == spec_extract_recipient(lower@),
{
    let v = chars_of(lower);
    let key: Vec<char> = vec!['t', 'o', ':'];
    assert(key@ =~= seq!['t', 'o', ':']);
    match split_once_chars(&v, &key) {
        Some((_, rest)) => {
            let a = strip_angle_chars(&trim_chars(&rest));
            if a.len() == 0 {
                None
            } else {
                Some(string_from(&a))
            }
        },
        None => None,
    }
}

/// The sender of an already lowercased `MAIL FROM` command.
pub fn sender_from_lowercase(lower: &str) -> (r: Option<String>)
    ensures
        opt_view(r) == spec_extract_sender(lower@),
{
    let v = chars_of(lower);
    let key: Vec<char> = vec!['f', 'r', 'o', 'm', ':'];
    assert(key@ =~= seq!['f', 'r', 'o', 'm', ':']);
    match split_once_chars(&v, &key) {
        Some((_, rest)) => Some(string_from(&strip_angle_chars(&trim_chars(&rest)))),
        None => None,
    }
}

// ------------------------------------------------------------------
// Body buffer
// ------------------------------------------------------------------

/// The largest message that is accepted: 25 MB.
pub const MAX_MESSAGE_SIZE: usize = 26214400;

/// A body line as stored: SMTP dot-stuffing removes one leading `.` from each line.
pub open spec fn unstuff(line: Seq<u8>) -> Seq<u8> {
    if line.len() > 0 && line[0] == 0x2Eu8 {
        line.drop_first()
    } else {
        line
    }
}

/// What the owner of the spill file has to do after a line was appended.
#[derive(Debug)]
pub enum DiskWrite {
    /// The line stayed in memory.
    Nothing,
    /// The body outgrew memory: create the spill file holding these bytes (all of the
    /// body so far).
    Create(Vec<u8>),
    /// The body lives in the spill file: append these bytes to it.
    Append(Vec<u8>),
}

#[derive(Debug, Clone, Copy, PartialEq, Eq, Structural)]
pub enum ErrorKind {
    /// The message would exceed the size limit.
    OutOfMemory,
    /// Anything else.
    Other,
}

#[derive(Debug)]
pub enum BufferError {
    /// Appending the line would take the message over its size limit.
    TooLarge,
    /// The body has been spilled to a file, which the buffer does not read.
    OnDisk,
}

impl BufferError {
    pub fn kind(&self) -> (k: ErrorKind)
        ensures
            (k is OutOfMemory) <==> (*self is TooLarge),
    {
        match self {
            BufferError::TooLarge => ErrorKind::OutOfMemory,
            BufferError::OnDisk => ErrorKind::Other,
        }
    }
}

/// A message body under construction: kept in memory until it outgrows `max_memory`,
/// then handed off to a spill file; refused beyond `max_total_size`.
pub struct SmartBodyBuffer {
    memory: Vec<u8>,
    on_disk: bool,
    max_memory: usize,
    max_total_size: usize,
    bytes_written: usize,
}

pub struct BodyBufferView {
    /// The bytes held in memory (none once the body is on disk).
    pub memory: Seq<u8>,
    pub on_disk: bool,
    pub max_memory: nat,
    pub max_total_size: nat,
    /// Bytes stored so far, in memory or on disk.
    pub bytes_written: nat,
}

impl View for SmartBodyBuffer {
    type V = BodyBufferView;

    closed spec fn view(&self) -> BodyBufferView {
        BodyBufferView {
            memory: self.memory@,
            on_disk: self.on_disk,
            max_memory: self.max_memory as nat,
            max_total_size: self.max_total_size as nat,
            bytes_written: self.bytes_written as nat,
        }
    }
}

/// A buffer with nothing in it, keeping up to `max_memory` bytes in memory.
pub open spec fn empty_body(max_memory: nat) -> BodyBufferView {
    BodyBufferView {
        memory: Seq::empty(),
        on_disk: false,
        max_memory,
        max_total_size: MAX_MESSAGE_SIZE as nat,
        bytes_written: 0,
    }
}

/// The state after appending `content` (already un-stuffed) when it fits the limit.
pub open spec fn appended(b: BodyBufferView, content: Seq<u8>) -> BodyBufferView {
    if b.on_disk || b.memory.len() + content.len() <= b.max_memory {
        BodyBufferView {
            memory: if b.on_disk { b.memory } else { b.memory + content },
            bytes_written: b.bytes_written + content.len(),
            ..b
        }
    } else {
        BodyBufferView {
            memory: Seq::empty(),
            on_disk: true,
            bytes_written: b.bytes_written + content.len(),
            ..b
        }
    }
}

/// The spill-file work that appending `content` calls for.
pub open spec fn spill_work(b: BodyBufferView, content: Seq<u8>, w: DiskWrite) -> bool {
    if b.on_disk {
        w matches DiskWrite::Append(v) && v@ == content
    } else if b.memory.len() + content.len() > b.max_memory {
        w matches DiskWrite::Create(v) && v@ == b.memory + content
    } else {
        w is Nothing
    }
}

/// The bounds a body buffer keeps: what is held in memory stays within the memory
/// limit, a body still in memory is all held there, and the body never exceeds the
/// size limit.
pub open spec fn body_bounded(b: BodyBufferView) -> bool {
    &&& b.memory.len() <= b.max_memory
    &&& !b.on_disk ==> b.memory.len() == b.bytes_written
    &&& b.bytes_written <= b.max_total_size
}

/// The spill file after the owner does what `w` asks: a created file holds the bytes
/// handed over, an appended one gains them, and otherwise it is left alone.
pub open spec fn file_after(file: Seq<u8>, w: DiskWrite) -> Seq<u8> {
    match w {
        DiskWrite::Nothing => file,
        DiskWrite::Create(v) => v@,
        DiskWrite::Append(v) => file + v@,
    }
}

/// The buffer, with the spill file `file` kept by its owner, holds exactly `received`:
/// in memory while the body is there, else in the file; its length counts it all.
pub open spec fn holds_body(b: BodyBufferView, file: Seq<u8>, received: Seq<u8>) -> bool {
    &&& b.bytes_written == received.len()
    &&& if b.on_disk {
        file == received
    } else {
        b.memory == received
    }
}

/// What is read back is what was appended, whether or not the body spilled to disk: an
/// empty buffer holds nothing, and each accepted append of `content` (already
/// un-stuffed), with the spill-file work it asks for done, adds exactly `content`.  So
/// after appends of lines `l_1 .. l_k` the body is their concatenation, each with one
/// leading dot removed, read from memory (`get_content_bytes`) or from the spill file.
pub proof fn lemma_body_reads_back(b: BodyBufferView, file: Seq<u8>, received: Seq<u8>, content: Seq<u8>, w: DiskWrite)
    requires
        holds_body(b, file, received),
        spill_work(b, content, w),
    ensures
        holds_body(empty_body(b.max_memory), file, Seq::empty()),
        holds_body(appended(b, content), file_after(file, w), received + content),
{
}

/// Every accepted append keeps the buffer within its bounds (a refused one leaves it
/// as it was): memory use is capped whatever a client sends.
pub proof fn lemma_append_keeps_bounds(b: BodyBufferView, content: Seq<u8>)
    requires
        body_bounded(b),
        b.bytes_written + content.len() <= b.max_total_size,
    ensures
        body_bounded(appended(b, content)),
{
}

impl SmartBodyBuffer {
    /// An empty buffer that keeps up to `max_memory` bytes in memory and accepts
    /// messages of up to 25 MB.
    pub fn new(max_memory: usize) -> (b: Self)
        ensures
            b@ == empty_body(max_memory as nat),
            body_bounded(b@),
    {
        SmartBodyBuffer {
            memory: Vec::new(),
            on_disk: false,
            max_memory,
            max_total_size: MAX_MESSAGE_SIZE,
            bytes_written: 0,
        }
    }

    /// Empties the buffer; a spill file, if any, is no longer part of it.
    pub fn clear(&mut self)
        ensures
            final(self)@ == (BodyBufferView {
                memory: Seq::empty(),
                on_disk: false,
                bytes_written: 0,
                ..old(self)@
            }),
    {
        self.memory = Vec::new();
        self.on_disk = false;
        self.bytes_written = 0;
    }

    /// Bytes stored so far.
    pub fn len(&self) -> (n: usize)
        ensures
            n == self@.bytes_written,
    {
        self.bytes_written
    }

    pub fn is_on_disk(&self) -> (b: bool)
        ensures
            b == self@.on_disk,
    {
        self.on_disk
    }

    /// Appends one received line (with its line ending), removing the dot-stuffing.
    /// Fails, leaving the buffer as it was, when the message would exceed its size
    /// limit; otherwise says what the spill file needs.
    pub fn append(&mut self, line_with_newline: &str) -> (r: Result<DiskWrite, BufferError>)
        ensures
            ({
                let content = unstuff(line_with_newline.spec_bytes());
                if old(self)@.bytes_written + content.len() > old(self)@.max_total_size {
                    r matches Err(e) && e is TooLarge && final(self)@ == old(self)@
                } else {
                    r matches Ok(w) && spill_work(old(self)@, content, w)
                        && final(self)@ == appended(old(self)@, content)
                }
            }),
    {
        let bytes = line_with_newline.as_bytes();
        let start: usize = if bytes.len() > 0 && bytes[0] == 0x2Eu8 { 1 } else { 0 };
        let mut content: Vec<u8> = Vec::new();
        let mut i: usize = start;
        while i < bytes.len()
            invariant
                start <= i <= bytes.len(),
                content@ == bytes@.subrange(start as int, i as int),
            decreases bytes.len() - i,
        {
            content.push(bytes[i]);
            i = i + 1;
            assert(content@ =~= bytes@.subrange(start as int, i as int));
        }
        assert(content@ =~= unstuff(line_with_newline.spec_bytes()));
        if self.bytes_written > self.max_total_size || content.len() > self.max_total_size - self.bytes_written {
            return Err(BufferError::TooLarge);
        }
        let n = content.len();
        if self.on_disk {
            self.bytes_written = self.bytes_written + n;
            Ok(DiskWrite::Append(content))
        } else if n > self.max_memory || self.memory.len() > self.max_memory - n {
            let mut all: Vec<u8> = Vec::new();
            std::mem::swap(&mut all, &mut self.memory);
            let ghost before = all@;
            let mut c = content;
            all.append(&mut c);
            assert(all@ =~= before + content@);
            self.on_disk = true;
            self.bytes_written = self.bytes_written + n;
            Ok(DiskWrite::Create(all))
        } else {
            let ghost before = self.memory@;
            let mut c = content;
            let ghost cv = c@;
            self.memory.append(&mut c);
            self.bytes_written = self.bytes_written + n;
            assert(self.memory@ =~= before + cv);
            Ok(DiskWrite::Nothing)
        }
    }

    /// The body, when it is still held in memory.
    pub fn get_content_bytes(&self) -> (r: Result<Vec<u8>, BufferError>)
        ensures
            !self@.on_disk ==> (r matches Ok(v) && v@ == self@.memory),
            self@.on_disk ==> (r matches Err(e) && e is OnDisk),
    {
        if self.on_disk {
            Err(BufferError::OnDisk)
        } else {
            let mut v: Vec<u8> = Vec::new();
            let mut i: usize = 0;
            while i < self.memory.len()
                invariant
                    i <= self.memory@.len(),
                    v@ == self.memory@.subrange(0, i as int),
                decreases self.memory@.len() - i,
            {
                v.push(self.memory[i]);
                i = i + 1;
                assert(v@ =~= self.memory@.subrange(0, i as int));
            }
            assert(self.memory@.subrange(0, self.memory@.len() as int) =~= self.memory@);
            Ok(v)
        }
    }

    /// The threading metadata of the body, when it is still held in memory.
    pub fn extract_metadata(&self, envelope_sender: &str) -> (r: Result<EmailMetadata, BufferError>)
        ensures
            !self@.on_disk ==> (r matches Ok(m) && m@ == spec_metadata(
                spec_mail_headers(self@.memory),
                envelope_sender@,
            )),
            self@.on_disk ==> (r matches Err(e) && e is OnDisk),
    {
        if self.on_disk {
            Err(BufferError::OnDisk)
        } else {
            Ok(extract_metadata(self.memory.as_slice(), envelope_sender))
        }
    }
}

// ------------------------------------------------------------------
// Session
// ------------------------------------------------------------------

/// Where the conversation with the client stands.
#[derive(Debug, Clone, Copy, PartialEq, Eq, Structural)]
pub enum SmtpState {
    /// Waiting for HELO/EHLO.
    Greet,
    /// Waiting for MAIL FROM.
    MailFrom,
    /// Waiting for RCPT TO.
    RcptTo,
    /// Waiting for the DATA command.
    Data,
    /// Receiving the message lines.
    ReadingBody,
}

/// Thresholds for clients that keep naming unknown recipients.
#[derive(Debug, Clone, Copy)]
pub struct InboundLimits {
    /// From this many failures on, the reply is delayed and temporary.
    pub tarpit_threshold: usize,
    /// From this many failures on, the client's address is blocked.
    pub block_threshold: usize,
    /// How long a tarpitted reply is delayed.
    pub tarpit_duration_secs: u64,
}

/// A count setting: the parsed value, or the default when it is unset or not a number.
pub open spec fn count_or(v: Option<Seq<char>>, default_text: Seq<char>, default: nat, max: nat) -> nat {
    match crate::text::parse_unsigned(value_or(v, default_text), max) {
        Some(n) => n,
        None => default,
    }
}

impl InboundLimits {
    /// From `SMTP_TARPIT_THRESHOLD` (default 2), `SMTP_BLOCK_THRESHOLD` (default 5) and
    /// `SMTP_TARPIT_DURATION_SECS` (default 30); a value that does not parse counts as
    /// its default.
    pub fn from_env(
        tarpit_threshold: &Option<String>,
        block_threshold: &Option<String>,
        tarpit_duration_secs: &Option<String>,
    ) -> (l: Self)
        ensures
            l.tarpit_threshold == count_or(opt_view(*tarpit_threshold), "2"@, 2, usize::MAX as nat),
            l.block_threshold == count_or(opt_view(*block_threshold), "5"@, 5, usize::MAX as nat),
            l.tarpit_duration_secs == count_or(opt_view(*tarpit_duration_secs), "30"@, 30, u64::MAX as nat),
    {
        let t = config_or(tarpit_threshold, "2");
        let b = config_or(block_threshold, "5");
        let d = config_or(tarpit_duration_secs, "30");
        let tarpit: usize = match parse_bounded(&chars_of(t.as_str()), usize::MAX as u64) {
            Some(n) => n as usize,
            None => 2,
        };
        let block: usize = match parse_bounded(&chars_of(b.as_str()), usize::MAX as u64) {
            Some(n) => n as usize,
            None => 5,
        };
        let secs: u64 = match parse_bounded(&chars_of(d.as_str()), u64::MAX) {
            Some(n) => n,
            None => 30,
        };
        InboundLimits { tarpit_threshold: tarpit, block_threshold: block, tarpit_duration_secs: secs }
    }
}

/// A reply token, as found in the database: who may answer through it and where the
/// answer goes.
#[derive(Debug)]
pub struct ReplyMapping {
    pub original_sender: String,
    pub destination_email: String,
    pub alias_subdomain: String,
    pub domain_name: String,
}

pub struct ReplyMappingView {
    pub original_sender: Seq<char>,
    pub destination_email: Seq<char>,
    pub alias_subdomain: Seq<char>,
    pub domain_name: Seq<char>,
}

impl View for ReplyMapping {
    type V = ReplyMappingView;

    open spec fn view(&self) -> ReplyMappingView {
        ReplyMappingView {
            original_sender: self.original_sender@,
            destination_email: self.destination_email@,
            alias_subdomain: self.alias_subdomain@,
            domain_name: self.domain_name@,
        }
    }
}

/// A lowercase hex digit.
pub open spec fn is_lower_hex(c: char) -> bool {
    ('0' <= c <= '9') || ('a' <= c <= 'f')
}

/// An anonymous reply token: `reply-` and 32 lowercase hex digits.
pub open spec fn is_reply_token(t: Seq<char>) -> bool {
    &&& t.len() == 38
    &&& t.take(6) == "reply-"@
    &&& forall|i: int| 6 <= i < 38 ==> is_lower_hex(#[trigger] t[i])
}

/// `Uuid::new_v4().simple().to_string()`: a random UUID as 32 lowercase hex digits.
/// Nothing else is claimed of the value.
#[verifier::external_body]
fn random_simple_uuid() -> (r: String)
    ensures
        r@.len() == 32,
        forall|i: int| 0 <= i < 32 ==> is_lower_hex(#[trigger] r@[i]),
{
    uuid::Uuid::new_v4().simple().to_string()
}

/// A fresh anonymous reply token for a new reply mapping.
pub fn new_reply_token() -> (t: String)
    ensures
        is_reply_token(t@),
{
    proof {
        reveal_strlit("reply-");
    }
    let mut t = "reply-".to_owned();
    let h = random_simple_uuid();
    crate::text::push_str(&mut t, h.as_str());
    assert(t@.take(6) =~= "reply-"@);
    assert forall|i: int| 6 <= i < 38 implies is_lower_hex(#[trigger] t@[i]) by {
        assert(t@[i] == h@[i - 6]);
    }
    t
}

/// A reply token, addressed at any domain, is routed to the reply-token lookup with
/// the token itself: what `new_reply_token` hands out comes back to its mapping.
pub proof fn lemma_reply_token_routes(token: Seq<char>, domain: Seq<char>, secret: Seq<char>, now: nat)
    requires
        is_reply_token(token),
        lacks(domain, '@'),
    ensures
        rcpt_route(token + seq!['@'] + domain, secret, now) == StepView::LookupReplyToken(token),
{
    reveal_strlit("reply-");
    assert(lacks(token, '@')) by {
        assert forall|i: int| 0 <= i < token.len() implies token[i] != '@' by {
            if i < 6 {
                assert(token[i] == token.take(6)[i]);
            } else {
                assert(is_lower_hex(token[i]));
            }
        }
    }
    crate::text::lemma_split_once_at(token, domain, '@');
    assert(token.subrange(0, 6) =~= token.take(6));
}

/// An ordinary recipient `local@domain` (neither part holding `@`, the local part
/// neither a reply token nor an SRS address) is looked up as an alias with exactly
/// those two parts; an address without `@` is refused as a syntax error.
pub proof fn lemma_plain_recipient_routes(local: Seq<char>, domain: Seq<char>, secret: Seq<char>, now: nat)
    requires
        lacks(local, '@'),
        lacks(domain, '@'),
        !starts_with(local, "reply-"@),
        !starts_with(spec_to_lowercase(local), "srs0+"@),
    ensures
        rcpt_route(local + seq!['@'] + domain, secret, now) == StepView::LookupAlias(local, domain),
        rcpt_route(local, secret, now) == StepView::Reply("501 Syntax error in address"@),
{
    crate::text::lemma_split_once_at(local, domain, '@');
    crate::text::lemma_lacks_no_split(local, '@');
}

/// An alias that a recipient address resolved to.
pub struct AliasRoute {
    pub alias_id: u128,
    pub destination_email: String,
    pub auto_forward: bool,
}

/// The outcome of a database lookup.
pub enum Lookup<T> {
    Found(T),
    Missing,
    Failed,
}

pub struct SmtpSession {
    state: SmtpState,
    sender: Option<String>,
    recipient: Option<String>,
    alias_id: Option<u128>,
    destination_email: Option<String>,
    auto_forward: bool,
    reply_mapping: Option<ReplyMapping>,
    body: SmartBodyBuffer,
    limits: InboundLimits,
    srs_secret: String,
}

pub struct SessionView {
    pub state: SmtpState,
    pub sender: Option<Seq<char>>,
    pub recipient: Option<Seq<char>>,
    pub alias_id: Option<u128>,
    pub destination_email: Option<Seq<char>>,
    pub auto_forward: bool,
    pub reply_mapping: Option<ReplyMappingView>,
    pub body: BodyBufferView,
    pub limits: InboundLimits,
    pub srs_secret: Seq<char>,
}

pub open spec fn opt_mapping_view(m: Option<ReplyMapping>) -> Option<ReplyMappingView> {
    match m {
        Some(m) => Some(m@),
        None => None,
    }
}

impl View for SmtpSession {
    type V = SessionView;

    closed spec fn view(&self) -> SessionView {
        SessionView {
            state: self.state,
            sender: opt_view(self.sender),
            recipient: opt_view(self.recipient),
            alias_id: self.alias_id,
            destination_email: opt_view(self.destination_email),
            auto_forward: self.auto_forward,
            reply_mapping: opt_mapping_view(self.reply_mapping),
            body: self.body@,
            limits: self.limits,
            srs_secret: self.srs_secret@,
        }
    }
}

/// What a command line asks of the caller.
#[derive(Debug)]
pub enum CommandStep {
    /// Write this reply and read the next line.
    Reply(String),
    /// Write this reply and end the session.
    Close(String),
    /// Upgrade the connection to TLS (see `SmtpSession::on_starttls`).
    StartTls,
    /// Look the reply token up, then call `SmtpSession::on_reply_token`.
    LookupReplyToken(String),
    /// Resolve the alias `local@domain`, then call `SmtpSession::on_alias`.
    LookupAlias(String, String),
}

pub enum StepView {
    Reply(Seq<char>),
    Close(Seq<char>),
    StartTls,
    LookupReplyToken(Seq<char>),
    LookupAlias(Seq<char>, Seq<char>),
}

impl View for CommandStep {
    type V = StepView;

    open spec fn view(&self) -> StepView {
        match self {
            CommandStep::Reply(r) => StepView::Reply(r@),
            CommandStep::Close(r) => StepView::Close(r@),
            CommandStep::StartTls => StepView::StartTls,
            CommandStep::LookupReplyToken(t) => StepView::LookupReplyToken(t@),
            CommandStep::LookupAlias(l, d) => StepView::LookupAlias(l@, d@),
        }
    }
}

pub open spec fn cleared(b: BodyBufferView) -> BodyBufferView {
    BodyBufferView { memory: Seq::empty(), on_disk: false, bytes_written: 0, ..b }
}

/// The session with nothing left of the mail transaction in progress (RFC 5321: its
/// sender, recipient, the alias or reply mapping it was routed to, and its body).
pub open spec fn without_transaction(s: SessionView) -> SessionView {
    SessionView {
        sender: None,
        recipient: None,
        alias_id: None,
        destination_email: None,
        auto_forward: false,
        reply_mapping: None,
        body: cleared(s.body),
        ..s
    }
}

/// Where a recipient address leads: a reply token, an alias (after undoing SRS when the
/// local part is an SRS0 address), or a rejection.
pub open spec fn rcpt_route(addr: Seq<char>, secret: Seq<char>, now: nat) -> StepView {
    match split_once(addr, seq!['@']) {
        None => StepView::Reply("501 Syntax error in address"@),
        Some((local, domain)) => {
            if !lacks(domain, '@') {
                StepView::Reply("501 Syntax error in address"@)
            } else if starts_with(local, "reply-"@) {
                StepView::LookupReplyToken(local)
            } else if starts_with(spec_to_lowercase(local), "srs0+"@) {
                match spec_decode_srs(addr, secret, now) {
                    None => StepView::Reply("550 User Not Found"@),
                    Some(orig) => match split_once(orig, seq!['@']) {
                        None => StepView::Reply("550 User Not Found"@),
                        Some((l, d)) => StepView::LookupAlias(l, d),
                    },
                }
            } else {
                StepView::LookupAlias(local, domain)
            }
        },
    }
}

/// The session after a command line and what it asks for, at SRS day `now`.
pub open spec fn command_step(s: SessionView, line: Seq<char>, now: nat) -> (SessionView, StepView) {
    let t = trim(line);
    let up = spec_to_uppercase(t);
    if up == "QUIT"@ {
        (s, StepView::Close("221 2.0.0 Service closing transmission channel"@))
    } else if up == "STARTTLS"@ {
        (s, StepView::StartTls)
    } else if up == "RSET"@ {
        (SessionView { state: SmtpState::MailFrom, ..without_transaction(s) }, StepView::Reply("250 OK Resetting"@))
    } else {
        match s.state {
            SmtpState::Greet => if starts_with(up, "HELO"@) || starts_with(up, "EHLO"@) {
                (SessionView { state: SmtpState::MailFrom, ..s }, StepView::Reply("250 Hello"@))
            } else {
                (s, StepView::Reply("500 Syntax error, command unrecognized"@))
            },
            SmtpState::MailFrom => match spec_extract_sender(spec_to_lowercase(t)) {
                Some(a) => (
                    SessionView { sender: Some(a), state: SmtpState::RcptTo, ..s },
                    StepView::Reply("250 OK"@),
                ),
                None => (s, StepView::Reply("501 Syntax error"@)),
            },
            SmtpState::RcptTo => match spec_extract_recipient(spec_to_lowercase(t)) {
                None => (s, StepView::Reply("501 Syntax error in address"@)),
                Some(addr) => (
                    SessionView { recipient: Some(addr), ..s },
                    rcpt_route(addr, s.srs_secret, now),
                ),
            },
            _ => if up == "DATA"@ {
                (
                    SessionView { state: SmtpState::ReadingBody, ..s },
                    StepView::Reply("354 End data with <CR><LF>.<CR><LF>"@),
                )
            } else {
                (s, StepView::Reply("500 Error"@))
            },
        }
    }
}

/// The command rules the session keeps whatever the line: `QUIT` (in any letter case,
/// trimmed) closes the connection and changes nothing; `RSET` leaves nothing of the
/// transaction and waits for `MAIL FROM`; before a greeting nothing but `HELO`/`EHLO`
/// (or `QUIT`, `STARTTLS`, `RSET`) changes the session; and a message body is only
/// ever read after `DATA` was accepted in the `Data` state.
pub proof fn lemma_session_command_rules(s: SessionView, line: Seq<char>, now: nat)
    ensures
        spec_to_uppercase(trim(line)) == "QUIT"@ ==> command_step(s, line, now).0 == s && command_step(
            s,
            line,
            now,
        ).1 is Close,
        spec_to_uppercase(trim(line)) == "RSET"@ ==> command_step(s, line, now).0.state == SmtpState::MailFrom
            && command_step(s, line, now).0.sender is None && command_step(s, line, now).0.recipient is None
            && command_step(s, line, now).0.alias_id is None && command_step(s, line, now).0.reply_mapping is None
            && command_step(s, line, now).0.destination_email is None && !command_step(s, line, now).0.auto_forward
            && command_step(s, line, now).0.body.bytes_written == 0,
        s.state == SmtpState::Greet && spec_to_uppercase(trim(line)) != "QUIT"@ && spec_to_uppercase(trim(line))
            != "STARTTLS"@ && spec_to_uppercase(trim(line)) != "RSET"@ && !starts_with(
            spec_to_uppercase(trim(line)),
            "HELO"@,
        ) && !starts_with(spec_to_uppercase(trim(line)), "EHLO"@) ==> command_step(s, line, now).0 == s,
        s.state != SmtpState::ReadingBody && command_step(s, line, now).0.state == SmtpState::ReadingBody
            ==> s.state == SmtpState::Data,
{
    reveal_strlit("QUIT");
    reveal_strlit("STARTTLS");
    reveal_strlit("RSET");
    let up = spec_to_uppercase(trim(line));
    if up == "RSET"@ {
        assert(up[0] != "QUIT"@[0]);
        assert(up.len() != "STARTTLS"@.len());
    }
}

/// A session that has accepted the reply token `m` for the current message.
pub open spec fn with_reply_mapping(s: SessionView, m: ReplyMappingView) -> SessionView {
    SessionView { reply_mapping: Some(m), state: SmtpState::Data, ..s }
}

/// What the caller does with a reply token that was found.
#[derive(Debug)]
pub enum TokenStep {
    /// Write this reply.
    Reply(String),
    /// Check that the client may send mail for `domain` (SPF), then call
    /// `SmtpSession::on_spf` with the same mapping.
    CheckSpf(String, ReplyMapping),
}

pub enum TokenStepView {
    Reply(Seq<char>),
    CheckSpf(Seq<char>, ReplyMappingView),
}

impl View for TokenStep {
    type V = TokenStepView;

    open spec fn view(&self) -> TokenStepView {
        match self {
            TokenStep::Reply(r) => TokenStepView::Reply(r@),
            TokenStep::CheckSpf(d, m) => TokenStepView::CheckSpf(d@, m@),
        }
    }
}

pub open spec fn accepted_reply() -> Seq<char> {
    "250 2.1.5 Destination address accepted"@
}

/// A reply token was found: only its owner (compared case-insensitively) may use it,
/// and only after an SPF check of the sender's domain when the sender has one.
pub open spec fn token_found(s: SessionView, m: ReplyMappingView) -> (SessionView, TokenStepView) {
    match s.sender {
        None => (s, TokenStepView::Reply("503 Bad sequence of commands (MAIL FROM first)"@)),
        Some(snd) => if spec_to_lowercase(snd) != spec_to_lowercase(m.destination_email) {
            (s, TokenStepView::Reply("550 Sender Denied"@))
        } else {
            match split_once(snd, seq!['@']) {
                Some((_, d)) => if lacks(d, '@') {
                    (s, TokenStepView::CheckSpf(d, m))
                } else {
                    (with_reply_mapping(s, m), TokenStepView::Reply(accepted_reply()))
                },
                None => (with_reply_mapping(s, m), TokenStepView::Reply(accepted_reply())),
            }
        },
    }
}

#[derive(Debug)]
pub enum AliasStep {
    /// Write this reply.
    Reply(String),
    /// Count a failure for the client's address, then call `SmtpSession::on_failures`.
    RecordFailure,
}

#[derive(Debug)]
pub enum FailureStep {
    /// Block the client's address, write this reply and end the session with an error.
    Block(String),
    /// Wait this many seconds, then write this reply.
    Tarpit(u64, String),
    /// Write this reply.
    Reply(String),
}

/// Whether a body line is the end-of-data marker: `.` followed only by line-ending characters.
pub open spec fn is_end_of_data(line: Seq<char>) -> bool {
    line.len() >= 1 && line[0] == '.' && forall|i: int| 1 <= i < line.len() ==> (#[trigger] line[i] == '\r' || line[i] == '\n')
}

#[derive(Debug)]
pub enum BodyStep {
    /// The line was stored; the spill file may need work.
    Stored(DiskWrite),
    /// The message is too large: write this reply and end the session.
    TooLarge(String),
    /// The message is a reply to relay: send it from `alias_address` to
    /// `original_sender`, then call `SmtpSession::finish_relay`.
    RelayReply(String, String),
    /// The message is complete: store it under the given alias (the envelope sender is
    /// the fallback `From`), forward it to the given address when there is one, then
    /// call `SmtpSession::finish_delivery`.
    Deliver(String, Option<u128>, Option<String>),
}

#[derive(Debug)]
pub enum TlsStep {
    /// Write this reply; the connection stays as it is.
    Reply(String),
    /// Write this reply, then perform the TLS handshake and call
    /// `SmtpSession::on_tls_established`.
    Begin(String),
}

/// After a message is finished, the session starts afresh: it waits for a greeting
/// and holds nothing of the message just finished.
pub open spec fn session_after_body(s: SessionView) -> SessionView {
    SessionView { state: SmtpState::Greet, ..without_transaction(s) }
}

/// The message ids a message refers to: its `References`, then its `In-Reply-To`
/// when that is not among them.
pub open spec fn spec_thread_references(m: EmailMetadataView) -> Seq<Seq<char>> {
    match m.in_reply_to {
        Some(x) => if m.references.contains(x) {
            m.references
        } else {
            m.references.push(x)
        },
        None => m.references,
    }
}

/// The ids a message's thread is found by: all of its `References`, in order, and its
/// `In-Reply-To` id whenever it has one (once), and nothing else.  So a reply that
/// names the message it answers only in `In-Reply-To` is still threaded with it.
pub proof fn lemma_thread_references_cover(m: EmailMetadataView)
    ensures
        spec_thread_references(m).len() <= m.references.len() + 1,
        spec_thread_references(m).take(m.references.len() as int) == m.references,
        m.in_reply_to matches Some(x) ==> spec_thread_references(m).contains(x),
        forall|i: int|
            0 <= i < spec_thread_references(m).len() ==> m.references.contains(
                #[trigger] spec_thread_references(m)[i],
            ) || m.in_reply_to == Some(spec_thread_references(m)[i]),
{
    let r = spec_thread_references(m);
    assert(m.references.take(m.references.len() as int) =~= m.references);
    match m.in_reply_to {
        Some(x) => {
            if !m.references.contains(x) {
                assert(r.take(m.references.len() as int) =~= m.references);
                assert(r[m.references.len() as int] == x);
                assert forall|i: int| 0 <= i < r.len() implies m.references.contains(#[trigger] r[i])
                    || m.in_reply_to == Some(r[i]) by {
                    if i < m.references.len() {
                        assert(r[i] == m.references[i]);
                    }
                }
            }
        },
        None => {},
    }
    assert forall|i: int| 0 <= i < r.len() && r.len() == m.references.len() implies m.references.contains(
        #[trigger] r[i],
    ) by {
        assert(r[i] == m.references[i]);
    }
}

pub open spec fn or_empty(o: Option<Seq<char>>) -> Seq<char> {
    match o {
        Some(s) => s,
        None => Seq::empty(),
    }
}

fn end_of_data(line: &str) -> (b: bool)
    ensures
        b == is_end_of_data(line@),
{
    let v = chars_of(line);
    if v.len() == 0 || v[0] != '.' {
        return false;
    }
    let mut i: usize = 1;
    while i < v.len()
        invariant
            1 <= i <= v.len(),
            v@ == line@,
            forall|j: int| 1 <= j < i ==> v@[j] == '\r' || v@[j] == '\n',
        decreases v.len() - i,
    {
        if v[i] != '\r' && v[i] != '\n' {
            assert(!(line@[i as int] == '\r' || line@[i as int] == '\n'));
            return false;
        }
        i = i + 1;
    }
    true
}

/// The message ids a message refers to, for finding its thread.
pub fn thread_references(meta: &EmailMetadata) -> (r: Vec<String>)
    ensures
        r@.map_values(|x: String| x@) == spec_thread_references(meta@),
{
    let mut refs: Vec<String> = Vec::new();
    let mut found = false;
    let mut i: usize = 0;
    while i < meta.references.len()
        invariant
            i <= meta.references.len(),
            refs@.map_values(|x: String| x@) == meta@.references.take(i as int),
            found == (meta@.in_reply_to matches Some(x) && meta@.references.take(i as int).contains(x)),
        decreases meta.references.len() - i,
    {
        let c = string_from(&chars_of(meta.references[i].as_str()));
        let ghost old_refs = refs@;
        let ghost tk = meta@.references.take(i + 1);
        assert(meta@.references[i as int] == meta.references@[i as int]@);
        match &meta.in_reply_to {
            Some(x) => {
                if str_eq(c.as_str(), x.as_str()) {
                    found = true;
                }
            },
            None => {},
        }
        refs.push(c);
        proof {
            assert(tk =~= meta@.references.take(i as int).push(meta@.references[i as int]));
            assert(refs@ == old_refs.push(c));
            assert(refs@.map_values(|x: String| x@) =~= old_refs.map_values(|x: String| x@).push(c@));
            if let Some(x) = meta@.in_reply_to {
                if tk.contains(x) && !meta@.references.take(i as int).contains(x) {
                    let k = choose|k: int| 0 <= k < tk.len() && tk[k] == x;
                    assert(k == i);
                }
                if meta@.references.take(i as int).contains(x) {
                    let k = choose|k: int| 0 <= k < i && meta@.references.take(i as int)[k] == x;
                    assert(tk[k] == x);
                }
                if c@ == x {
                    assert(tk[i as int] == x);
                }
            }
        }
        i = i + 1;
    }
    assert(meta@.references.take(meta.references.len() as int) =~= meta@.references);
    match &meta.in_reply_to {
        Some(x) => {
            if !found {
                let ghost old_refs = refs@;
                let c = string_from(&chars_of(x.as_str()));
                refs.push(c);
                assert(refs@.map_values(|x: String| x@) =~= old_refs.map_values(|x: String| x@).push(c@));
            }
        },
        None => {},
    }
    refs
}

fn route_recipient(addr: &str, secret: &str, now: u64) -> (step: CommandStep)
    requires
        now < 1024,
    ensures
        step@ == rcpt_route(addr@, secret@, now as nat),
{
    let v = chars_of(addr);
    match split_once_char(&v, '@') {
        None => CommandStep::Reply("501 Syntax error in address".to_owned()),
        Some((local, domain)) => {
            if has_char(&domain, '@') {
                return CommandStep::Reply("501 Syntax error in address".to_owned());
            }
            let l = string_from(&local);
            if str_starts_with(l.as_str(), "reply-") {
                CommandStep::LookupReplyToken(l)
            } else if str_starts_with(to_lowercase(l.as_str()).as_str(), "srs0+") {
                match decode_srs_at(addr, secret, now) {
                    None => CommandStep::Reply("550 User Not Found".to_owned()),
                    Some(orig) => match split_once_char(&chars_of(orig.as_str()), '@') {
                        None => CommandStep::Reply("550 User Not Found".to_owned()),
                        Some((a, b)) => CommandStep::LookupAlias(string_from(&a), string_from(&b)),
                    },
                }
            } else {
                CommandStep::LookupAlias(l, string_from(&domain))
            }
        },
    }
}

impl SmtpSession {
    /// A new session, waiting for the client's greeting.
    pub fn new(limits: InboundLimits, srs_secret: String) -> (s: Self)
        ensures
            s@ == (SessionView {
                state: SmtpState::Greet,
                sender: None,
                recipient: None,
                alias_id: None,
                destination_email: None,
                auto_forward: false,
                reply_mapping: None,
                body: empty_body(65536),
                limits,
                srs_secret: srs_secret@,
            }),
    {
        let body = SmartBodyBuffer::new(65536);
        SmtpSession {
            state: SmtpState::Greet,
            sender: None,
            recipient: None,
            alias_id: None,
            destination_email: None,
            auto_forward: false,
            reply_mapping: None,
            body,
            limits,
            srs_secret,
        }
    }

    pub fn state(&self) -> (st: SmtpState)
        ensures
            st == self@.state,
    {
        self.state
    }

    /// Handles a command line (any state but `ReadingBody`), at SRS day `now`.
    pub fn on_command_at(&mut self, line: &str, now: u64) -> (step: CommandStep)
        requires
            now < 1024,
            old(self)@.state != SmtpState::ReadingBody,
        ensures
            (final(self)@, step@) == command_step(old(self)@, line@, now as nat),
    {
        let t = string_from(&trim_chars(&chars_of(line)));
        let up = to_uppercase(t.as_str());
        if str_eq(up.as_str(), "QUIT") {
            return CommandStep::Close("221 2.0.0 Service closing transmission channel".to_owned());
        }
        if str_eq(up.as_str(), "STARTTLS") {
            return CommandStep::StartTls;
        }
        if str_eq(up.as_str(), "RSET") {
            self.clear_transaction();
            self.state = SmtpState::MailFrom;
            return CommandStep::Reply("250 OK Resetting".to_owned());
        }
        match self.state {
            SmtpState::Greet => {
                if str_starts_with(up.as_str(), "HELO") || str_starts_with(up.as_str(), "EHLO") {
                    self.state = SmtpState::MailFrom;
                    CommandStep::Reply("250 Hello".to_owned())
                } else {
                    CommandStep::Reply("500 Syntax error, command unrecognized".to_owned())
                }
            },
            SmtpState::MailFrom => {
                match sender_from_lowercase(to_lowercase(t.as_str()).as_str()) {
                    Some(a) => {
                        self.sender = Some(a);
                        self.state = SmtpState::RcptTo;
                        CommandStep::Reply("250 OK".to_owned())
                    },
                    None => CommandStep::Reply("501 Syntax error".to_owned()),
                }
            },
            SmtpState::RcptTo => {
                match recipient_from_lowercase(to_lowercase(t.as_str()).as_str()) {
                    None => CommandStep::Reply("501 Syntax error in address".to_owned()),
                    Some(addr) => {
                        let step = route_recipient(addr.as_str(), self.srs_secret.as_str(), now);
                        self.recipient = Some(addr);
                        step
                    },
                }
            },
            _ => {
                if str_eq(up.as_str(), "DATA") {
                    self.state = SmtpState::ReadingBody;
                    CommandStep::Reply("354 End data with <CR><LF>.<CR><LF>".to_owned())
                } else {
                    CommandStep::Reply("500 Error".to_owned())
                }
            },
        }
    }

    /// Handles a command line (any state but `ReadingBody`) at today's SRS day.
    pub fn on_command(&mut self, line: &str) -> (step: CommandStep)
        requires
            old(self)@.state != SmtpState::ReadingBody,
        ensures
            exists|now: nat| now < 1024 && (final(self)@, step@) == command_step(old(self)@, line@, now),
    {
        let now = get_current_srs_timestamp();
        self.on_command_at(line, now)
    }

    /// Takes the outcome of the reply-token lookup asked for by `LookupReplyToken`.
    pub fn on_reply_token(&mut self, r: Lookup<ReplyMapping>) -> (step: TokenStep)
        ensures
            match r {
                Lookup::Failed => final(self)@ == old(self)@ && step@ == TokenStepView::Reply(
                    "451 Requested action aborted"@,
                ),
                Lookup::Missing => final(self)@ == old(self)@ && step@ == TokenStepView::Reply(
                    "550 User Not Found"@,
                ),
                Lookup::Found(m) => (final(self)@, step@) == token_found(old(self)@, m@),
            },
    {
        match r {
            Lookup::Failed => TokenStep::Reply("451 Requested action aborted".to_owned()),
            Lookup::Missing => TokenStep::Reply("550 User Not Found".to_owned()),
            Lookup::Found(m) => {
                let snd = match &self.sender {
                    Some(a) => string_from(&chars_of(a.as_str())),
                    None => {
                        return TokenStep::Reply("503 Bad sequence of commands (MAIL FROM first)".to_owned());
                    },
                };
                if !str_eq(to_lowercase(snd.as_str()).as_str(), to_lowercase(m.destination_email.as_str()).as_str()) {
                    return TokenStep::Reply("550 Sender Denied".to_owned());
                }
                match split_once_char(&chars_of(snd.as_str()), '@') {
                    Some((_, d)) => {
                        if !has_char(&d, '@') {
                            return TokenStep::CheckSpf(string_from(&d), m);
                        }
                    },
                    None => {},
                }
                self.reply_mapping = Some(m);
                self.state = SmtpState::Data;
                TokenStep::Reply("250 2.1.5 Destination address accepted".to_owned())
            },
        }
    }

    /// Takes the outcome of the SPF check asked for by `CheckSpf`, with its mapping.
    pub fn on_spf(&mut self, m: ReplyMapping, spf_valid: bool) -> (reply: String)
        ensures
            spf_valid ==> final(self)@ == with_reply_mapping(old(self)@, m@) && reply@ == accepted_reply(),
            !spf_valid ==> final(self)@ == old(self)@ && reply@ == "550 SPF Validation Failed"@,
    {
        if spf_valid {
            self.reply_mapping = Some(m);
            self.state = SmtpState::Data;
            "250 2.1.5 Destination address accepted".to_owned()
        } else {
            "550 SPF Validation Failed".to_owned()
        }
    }

    /// Takes the outcome of the alias lookup asked for by `LookupAlias`.
    pub fn on_alias(&mut self, r: Lookup<AliasRoute>) -> (step: AliasStep)
        ensures
            match r {
                Lookup::Found(a) => final(self)@ == (SessionView {
                    alias_id: Some(a.alias_id),
                    destination_email: Some(a.destination_email@),
                    auto_forward: a.auto_forward,
                    state: SmtpState::Data,
                    ..old(self)@
                }) && (step matches AliasStep::Reply(t) && t@ == accepted_reply()),
                Lookup::Missing => final(self)@ == old(self)@ && step is RecordFailure,
                Lookup::Failed => final(self)@ == old(self)@ && (step matches AliasStep::Reply(t)
                    && t@ == "451 Requested action aborted"@),
            },
    {
        match r {
            Lookup::Found(a) => {
                self.alias_id = Some(a.alias_id);
                self.destination_email = Some(a.destination_email);
                self.auto_forward = a.auto_forward;
                self.state = SmtpState::Data;
                AliasStep::Reply("250 2.1.5 Destination address accepted".to_owned())
            },
            Lookup::Missing => AliasStep::RecordFailure,
            Lookup::Failed => AliasStep::Reply("451 Requested action aborted".to_owned()),
        }
    }

    /// Takes the client's count of recent failures after `RecordFailure`.
    pub fn on_failures(&self, failures: usize) -> (step: FailureStep)
        ensures
            failures >= self@.limits.block_threshold ==> (step matches FailureStep::Block(t)
                && t@ == "554 5.7.1 Connection refused - IP address blocked"@),
            failures < self@.limits.block_threshold && failures >= self@.limits.tarpit_threshold
                ==> (step matches FailureStep::Tarpit(secs, t) && secs == self@.limits.tarpit_duration_secs
                && t@ == "451 4.7.1 Please try again later"@),
            failures < self@.limits.block_threshold && failures < self@.limits.tarpit_threshold
                ==> (step matches FailureStep::Reply(t) && t@ == "550 User Not Found"@),
    {
        if failures >= self.limits.block_threshold {
            FailureStep::Block("554 5.7.1 Connection refused - IP address blocked".to_owned())
        } else if failures >= self.limits.tarpit_threshold {
            FailureStep::Tarpit(self.limits.tarpit_duration_secs, "451 4.7.1 Please try again later".to_owned())
        } else {
            FailureStep::Reply("550 User Not Found".to_owned())
        }
    }

    /// Answers `STARTTLS`: refused when the server has no TLS set up, deferred while
    /// the certificate is not loaded yet.
    pub fn on_starttls(&self, tls_configured: bool, certificate_loaded: bool) -> (step: TlsStep)
        ensures
            !tls_configured ==> (step matches TlsStep::Reply(t) && t@ == "502 Command not implemented"@),
            tls_configured && !certificate_loaded ==> (step matches TlsStep::Reply(t)
                && t@ == "454 TLS not available due to temporary reason"@),
            tls_configured && certificate_loaded ==> (step matches TlsStep::Begin(t)
                && t@ == "220 Ready to start TLS"@),
    {
        if !tls_configured {
            TlsStep::Reply("502 Command not implemented".to_owned())
        } else if !certificate_loaded {
            TlsStep::Reply("454 TLS not available due to temporary reason".to_owned())
        } else {
            TlsStep::Begin("220 Ready to start TLS".to_owned())
        }
    }

    /// After a successful handshake the client greets again.
    pub fn on_tls_established(&mut self)
        ensures
            final(self)@ == (SessionView { state: SmtpState::Greet, ..old(self)@ }),
    {
        self.state = SmtpState::Greet;
    }

    /// Handles a line of the message body, exactly as received.
    pub fn on_body_line(&mut self, line: &str) -> (step: BodyStep)
        ensures
            is_end_of_data(line@) ==> final(self)@ == old(self)@ && match old(self)@.reply_mapping {
                Some(m) => (step matches BodyStep::RelayReply(a, o) && a@ == m.alias_subdomain + seq!['@']
                    + m.domain_name && o@ == m.original_sender),
                None => (step matches BodyStep::Deliver(snd, id, fwd) && snd@ == or_empty(old(self)@.sender)
                    && id == old(self)@.alias_id && opt_view(fwd) == (if old(self)@.auto_forward {
                    old(self)@.destination_email
                } else {
                    None
                })),
            },
            !is_end_of_data(line@) ==> ({
                let content = unstuff(line.spec_bytes());
                let b = old(self)@.body;
                if b.bytes_written + content.len() > b.max_total_size {
                    final(self)@ == old(self)@ && (step matches BodyStep::TooLarge(t)
                        && t@ == "552 5.3.4 Message size exceeds fixed maximum message size"@)
                } else {
                    (step matches BodyStep::Stored(w) && spill_work(b, content, w)) && final(self)@ == (
                    SessionView { body: appended(b, content), ..old(self)@ })
                }
            }),
    {
        if end_of_data(line) {
            match &self.reply_mapping {
                Some(m) => {
                    let mut a = string_from(&chars_of(m.alias_subdomain.as_str()));
                    let at: Vec<char> = vec!['@'];
                    assert(at@ =~= seq!['@']);
                    crate::text::push_chars(&mut a, &at);
                    crate::text::push_str(&mut a, m.domain_name.as_str());
                    BodyStep::RelayReply(a, string_from(&chars_of(m.original_sender.as_str())))
                },
                None => {
                    let snd = match &self.sender {
                        Some(x) => string_from(&chars_of(x.as_str())),
                        None => String::new(),
                    };
                    let fwd = if self.auto_forward {
                        match &self.destination_email {
                            Some(d) => Some(string_from(&chars_of(d.as_str()))),
                            None => None,
                        }
                    } else {
                        None
                    };
                    BodyStep::Deliver(snd, self.alias_id, fwd)
                },
            }
        } else {
            match self.body.append(line) {
                Ok(w) => BodyStep::Stored(w),
                Err(_) => BodyStep::TooLarge("552 5.3.4 Message size exceeds fixed maximum message size".to_owned()),
            }
        }
    }

    fn clear_transaction(&mut self)
        ensures
            final(self)@ == without_transaction(old(self)@),
    {
        self.sender = None;
        self.recipient = None;
        self.alias_id = None;
        self.destination_email = None;
        self.auto_forward = false;
        self.reply_mapping = None;
        self.body.clear();
    }

    /// Ends a relayed reply: the session waits for a new greeting and holds nothing of
    /// the reply just relayed.
    pub fn finish_relay(&mut self) -> (reply: String)
        ensures
            final(self)@ == session_after_body(old(self)@),
            reply@ == "250 OK: reply relayed"@,
    {
        self.clear_transaction();
        self.state = SmtpState::Greet;
        "250 OK: reply relayed".to_owned()
    }

    /// Ends a delivered message, stored under `stored_as` or not stored at all: the
    /// session waits for a new greeting and holds nothing of the message.
    pub fn finish_delivery(&mut self, stored_as: Option<&str>) -> (reply: String)
        ensures
            final(self)@ == session_after_body(old(self)@),
            match stored_as {
                Some(key) => reply@ == "250 OK: queued as "@ + key@,
                None => reply@ == "451 Requested action aborted"@,
            },
    {
        self.clear_transaction();
        self.state = SmtpState::Greet;
        match stored_as {
            Some(key) => {
                let mut r = "250 OK: queued as ".to_owned();
                crate::text::push_str(&mut r, key);
                r
            },
            None => "451 Requested action aborted".to_owned(),
        }
    }

    /// The body received so far.
    pub fn body(&self) -> (b: &SmartBodyBuffer)
        ensures
            b@ == self@.body,
    {
        &self.body
    }

    /// The recipient of a `RCPT TO` command.
    pub fn extract_recipient(cmd: &str) -> (r: Option<String>)
        ensures
            opt_view(r) == spec_extract_recipient(spec_to_lowercase(cmd@)),
    {
        recipient_from_lowercase(to_lowercase(cmd).as_str())
    }

    /// The sender of a `MAIL FROM` command.
    pub fn extract_sender(cmd: &str) -> (r: Option<String>)
        ensures
            opt_view(r) == spec_extract_sender(spec_to_lowercase(cmd@)),
    {
        sender_from_lowercase(to_lowercase(cmd).as_str())
    }
}

} // verus!
