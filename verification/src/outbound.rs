//! The sending side of SMTP: dot-stuffing of the message data, the choice of relay
//! or MX, the command sequence of a delivery, the reading of server replies, and the
//! retry schedule of the outbound queue.
use vstd::prelude::*;
use crate::config::{config_or, value_or};
use crate::mime::{base64_standard, opt_view, spec_base64_standard};
use crate::text::{
    chars_of, contains, find_chars, has_char, lacks, push_chars, push_str, split_once,
    split_once_char, spec_to_lowercase, starts_with, string_from, to_lowercase, trim, trim_chars,
};
use vstd::utf8::encode_utf8;
use vstd::string::StringSliceAdditionalSpecFns;

verus! {

// ------------------------------------------------------------------
// Dot-stuffing
// ------------------------------------------------------------------

/// SMTP dot-stuffing (RFC 5321 4.5.2): a `.` that begins a line is doubled.  A line
/// begins at the start of the data and after every `\n`; `at_start` says whether the
/// first byte of `p` begins a line.
pub open spec fn stuff(p: Seq<u8>, at_start: bool) -> Seq<u8>
    decreases p.len(),
{
    if p.len() == 0 {
        Seq::empty()
    } else if at_start && p[0] == 0x2Eu8 {
        seq![0x2Eu8, 0x2Eu8] + stuff(p.drop_first(), false)
    } else {
        seq![p[0]] + stuff(p.drop_first(), p[0] == 0x0Au8)
    }
}

/// What a receiver makes of dot-stuffed data: the first `.` of every line is dropped.
pub open spec fn unstuff_all(s: Seq<u8>, at_start: bool) -> Seq<u8>
    decreases s.len(),
{
    if s.len() == 0 {
        Seq::empty()
    } else if at_start && s[0] == 0x2Eu8 {
        unstuff_all(s.drop_first(), false)
    } else {
        seq![s[0]] + unstuff_all(s.drop_first(), s[0] == 0x0Au8)
    }
}

/// No line of `s` begins with a single `.`: every line that begins with a dot begins
/// with two, so no line of stuffed data can be taken for the end-of-data marker.
pub open spec fn no_lone_leading_dot(s: Seq<u8>, at_start: bool) -> bool
    decreases s.len(),
{
    if s.len() == 0 {
        true
    } else if at_start && s[0] == 0x2Eu8 {
        s.len() >= 2 && s[1] == 0x2Eu8 && no_lone_leading_dot(s.drop_first().drop_first(), false)
    } else {
        no_lone_leading_dot(s.drop_first(), s[0] == 0x0Au8)
    }
}

/// Un-stuffing undoes stuffing: the receiver gets back exactly the data that was sent.
pub proof fn lemma_unstuff_stuff(p: Seq<u8>, at_start: bool)
    ensures
        unstuff_all(stuff(p, at_start), at_start) == p,
    decreases p.len(),
{
    if p.len() == 0 {
    } else if at_start && p[0] == 0x2Eu8 {
        let rest = stuff(p.drop_first(), false);
        lemma_unstuff_stuff(p.drop_first(), false);
        let s = seq![0x2Eu8, 0x2Eu8] + rest;
        assert(s.drop_first() =~= seq![0x2Eu8] + rest);
        assert((seq![0x2Eu8] + rest).drop_first() =~= rest);
        assert(unstuff_all(seq![0x2Eu8] + rest, false) == seq![0x2Eu8] + unstuff_all(rest, false));
        assert(p =~= seq![0x2Eu8] + p.drop_first());
    } else {
        let rest = stuff(p.drop_first(), p[0] == 0x0Au8);
        lemma_unstuff_stuff(p.drop_first(), p[0] == 0x0Au8);
        let s = seq![p[0]] + rest;
        assert(s.drop_first() =~= rest);
        assert(p =~= seq![p[0]] + p.drop_first());
    }
}

/// Stuffed data never holds a line that begins with a single dot.
pub proof fn lemma_stuff_no_lone_dot(p: Seq<u8>, at_start: bool)
    ensures
        no_lone_leading_dot(stuff(p, at_start), at_start),
    decreases p.len(),
{
    if p.len() == 0 {
    } else if at_start && p[0] == 0x2Eu8 {
        lemma_stuff_no_lone_dot(p.drop_first(), false);
        let rest = stuff(p.drop_first(), false);
        let s = seq![0x2Eu8, 0x2Eu8] + rest;
        assert(s.drop_first().drop_first() =~= rest);
    } else {
        lemma_stuff_no_lone_dot(p.drop_first(), p[0] == 0x0Au8);
        let rest = stuff(p.drop_first(), p[0] == 0x0Au8);
        assert((seq![p[0]] + rest).drop_first() =~= rest);
    }
}

/// `l` is one line: it ends with `\n` and holds no other.
pub open spec fn is_line(l: Seq<u8>) -> bool {
    l.len() >= 1 && l.last() == 0x0Au8 && forall|i: int| 0 <= i < l.len() - 1 ==> l[i] != 0x0Au8
}

proof fn lemma_unstuff_line_tail(m: Seq<u8>, rest: Seq<u8>)
    requires
        is_line(m),
    ensures
        unstuff_all(m + rest, false) == m + unstuff_all(rest, true),
    decreases m.len(),
{
    let s = m + rest;
    assert(s.drop_first() =~= m.drop_first() + rest);
    if m.len() == 1 {
        assert(m.drop_first() + rest =~= rest);
        assert(m =~= seq![0x0Au8]);
    } else {
        assert(m[0] != 0x0Au8);
        assert(is_line(m.drop_first())) by {
            assert forall|i: int| 0 <= i < m.drop_first().len() - 1 implies m.drop_first()[i] != 0x0Au8 by {
                assert(m.drop_first()[i] == m[i + 1]);
            }
        }
        lemma_unstuff_line_tail(m.drop_first(), rest);
        assert(m =~= seq![m[0]] + m.drop_first());
    }
}

/// A receiver that reads stuffed data line by line and drops the first dot of each
/// line (as `SmartBodyBuffer::append` does) computes `unstuff_all`: one line at a time.
pub proof fn lemma_unstuff_by_lines(l: Seq<u8>, rest: Seq<u8>)
    requires
        is_line(l),
    ensures
        unstuff_all(l + rest, true) == crate::smtp::unstuff(l) + unstuff_all(rest, true),
{
    let s = l + rest;
    assert(s.drop_first() =~= l.drop_first() + rest);
    if l[0] == 0x2Eu8 {
        assert(l.len() >= 2);
        assert(is_line(l.drop_first())) by {
            assert forall|i: int| 0 <= i < l.drop_first().len() - 1 implies l.drop_first()[i] != 0x0Au8 by {
                assert(l.drop_first()[i] == l[i + 1]);
            }
        }
        lemma_unstuff_line_tail(l.drop_first(), rest);
    } else if l[0] == 0x0Au8 {
        assert(l.len() == 1);
        assert(l.drop_first() + rest =~= rest);
        assert(l =~= seq![0x0Au8]);
    } else {
        assert(l.len() >= 2);
        assert(is_line(l.drop_first())) by {
            assert forall|i: int| 0 <= i < l.drop_first().len() - 1 implies l.drop_first()[i] != 0x0Au8 by {
                assert(l.drop_first()[i] == l[i + 1]);
            }
        }
        lemma_unstuff_line_tail(l.drop_first(), rest);
        assert(l =~= seq![l[0]] + l.drop_first());
    }
}

/// Whether position `i` of `p` begins a line: it is the first, or follows a `\n`.
pub open spec fn begins_line(p: Seq<u8>, i: int) -> bool {
    i == 0 || p[i - 1] == 0x0Au8
}

/// How many of the first `n` positions of `p` hold a `.` that begins a line.
pub open spec fn line_start_dots(p: Seq<u8>, n: int) -> nat
    decreases n,
{
    if n <= 0 {
        0
    } else {
        line_start_dots(p, n - 1) + if p[n - 1] == 0x2Eu8 && begins_line(p, n - 1) {
            1nat
        } else {
            0nat
        }
    }
}

/// Doubles every `.` that begins a line of `payload`: the result is one byte longer
/// for each such dot, and `unstuff_all` gives `payload` back (`lemma_unstuff_stuff`).
pub fn apply_dot_stuffing(payload: &[u8]) -> (r: Vec<u8>)
    ensures
        r@ == stuff(payload@, true),
        r@.len() == payload@.len() + line_start_dots(payload@, payload@.len() as int),
{
    let mut out: Vec<u8> = Vec::new();
    let mut at_start = true;
    let mut i: usize = 0;
    assert(payload@.subrange(0, payload.len() as int) =~= payload@);
    assert(out@ + stuff(payload@, true) =~= stuff(payload@, true));
    while i < payload.len()
        invariant
            i <= payload.len(),
            out@ + stuff(payload@.subrange(i as int, payload.len() as int), at_start) == stuff(payload@, true),
            at_start == begins_line(payload@, i as int),
            out@.len() == i + line_start_dots(payload@, i as int),
        decreases payload.len() - i,
    {
        let ghost rest = payload@.subrange(i as int, payload.len() as int);
        assert(rest.drop_first() =~= payload@.subrange(i + 1, payload.len() as int));
        let b = payload[i];
        if at_start && b == 0x2Eu8 {
            out.push(0x2Eu8);
            out.push(0x2Eu8);
            at_start = false;
        } else {
            out.push(b);
            at_start = b == 0x0Au8;
        }
        i = i + 1;
        proof {
            assert(out@ + stuff(payload@.subrange(i as int, payload.len() as int), at_start) =~= stuff(payload@, true));
        }
    }
    assert(payload@.subrange(payload.len() as int, payload.len() as int) =~= Seq::<u8>::empty());
    assert(out@ + Seq::<u8>::empty() =~= out@);
    out
}

/// The DATA payload sent for a message body: stuffed, and ended with CRLF.
pub open spec fn data_payload_of(body: Seq<u8>) -> Seq<u8> {
    let s = stuff(body, true);
    if s.len() >= 2 && s[s.len() - 2] == 0x0Du8 && s[s.len() - 1] == 0x0Au8 {
        s
    } else {
        s + seq![0x0Du8, 0x0Au8]
    }
}

/// The bytes written after `DATA`: the stuffed body, with a CRLF added when it does not
/// already end with one.
pub fn data_payload(body: &[u8]) -> (r: Vec<u8>)
    ensures
        r@ == data_payload_of(body@),
{
    let mut s = apply_dot_stuffing(body);
    let n = s.len();
    if !(n >= 2 && s[n - 2] == 0x0Du8 && s[n - 1] == 0x0Au8) {
        s.push(0x0Du8);
        s.push(0x0Au8);
    }
    s
}

// ------------------------------------------------------------------
// Failures
// ------------------------------------------------------------------

/// A delivery error is permanent (not worth a retry) when its text carries one of the
/// SMTP codes 550, 554, 552 or 501, or names an invalid recipient or command.
pub open spec fn is_permanent(err: Seq<char>) -> bool {
    ||| contains(err, "550"@)
    ||| contains(err, "554"@)
    ||| contains(err, "552"@)
    ||| contains(err, "501"@)
    ||| contains(err, "Invalid recipient"@)
    ||| contains(err, "Command contains invalid characters"@)
}

/// A delivery error whose text carries the SMTP code 550, 554, 552 or 501 anywhere
/// (before and after it any text) is permanent: such a message is not queued again.
pub proof fn lemma_error_codes_are_permanent(before: Seq<char>, after: Seq<char>)
    ensures
        is_permanent(before + "550"@ + after),
        is_permanent(before + "554"@ + after),
        is_permanent(before + "552"@ + after),
        is_permanent(before + "501"@ + after),
        is_permanent(before + "Invalid recipient"@ + after),
        is_permanent(before + "Command contains invalid characters"@ + after),
{
    crate::text::lemma_contains_infix(before, "550"@, after);
    crate::text::lemma_contains_infix(before, "554"@, after);
    crate::text::lemma_contains_infix(before, "552"@, after);
    crate::text::lemma_contains_infix(before, "501"@, after);
    crate::text::lemma_contains_infix(before, "Invalid recipient"@, after);
    crate::text::lemma_contains_infix(before, "Command contains invalid characters"@, after);
}

pub fn is_permanent_failure(err: &str) -> (b: bool)
    ensures
        b == is_permanent(err@),
{
    crate::text::str_contains(err, "550") || crate::text::str_contains(err, "554")
        || crate::text::str_contains(err, "552") || crate::text::str_contains(err, "501")
        || crate::text::str_contains(err, "Invalid recipient")
        || crate::text::str_contains(err, "Command contains invalid characters")
}

// ------------------------------------------------------------------
// Addresses and routes
// ------------------------------------------------------------------

/// The second `@`-separated field of `s` (`s.split('@').nth(1)`).
pub open spec fn at_field(s: Seq<char>) -> Option<Seq<char>> {
    match split_once(s, seq!['@']) {
        None => None,
        Some((_, rest)) => match split_once(rest, seq!['@']) {
            None => Some(rest),
            Some((mid, _)) => Some(mid),
        },
    }
}

/// The domain of an address `local@domain` (neither part holding `@`) is `domain`; an
/// address without `@` has none.  So a message to `local@domain` is delivered to the
/// exchangers of `domain`.
pub proof fn lemma_at_field_of_address(local: Seq<char>, domain: Seq<char>)
    requires
        lacks(local, '@'),
        lacks(domain, '@'),
    ensures
        at_field(local + seq!['@'] + domain) == Some(domain),
        at_field(local) is None,
        raw_sender_domain(local + seq!['@'] + domain) == trim(domain),
{
    crate::text::lemma_split_once_at(local, domain, '@');
    crate::text::lemma_lacks_no_split(local, '@');
    crate::text::lemma_lacks_no_split(domain, '@');
}

/// A host without its trailing dots: it ends in no dot, and the host is it followed
/// by dots only.
pub proof fn lemma_trim_end_dots(s: Seq<char>)
    ensures
        trim_end_dots(s).len() <= s.len(),
        trim_end_dots(s).len() == 0 || trim_end_dots(s).last() != '.',
        s.take(trim_end_dots(s).len() as int) == trim_end_dots(s),
        forall|i: int| trim_end_dots(s).len() <= i < s.len() ==> s[i] == '.',
    decreases s.len(),
{
    if s.len() > 0 && s.last() == '.' {
        lemma_trim_end_dots(s.drop_last());
        let t = trim_end_dots(s.drop_last());
        assert(s.take(t.len() as int) =~= s.drop_last().take(t.len() as int));
        assert forall|i: int| t.len() <= i < s.len() implies s[i] == '.' by {
            if i < s.len() - 1 {
                assert(s[i] == s.drop_last()[i]);
            }
        }
    } else {
        assert(s.take(s.len() as int) =~= s);
    }
}

/// `s.split('@').nth(1)`.
pub fn second_at_field(s: &str) -> (r: Option<String>)
    ensures
        opt_view(r) == at_field(s@),
{
    match split_once_char(&chars_of(s), '@') {
        None => None,
        Some((_, rest)) => match split_once_char(&rest, '@') {
            None => Some(string_from(&rest)),
            Some((mid, _)) => Some(string_from(&mid)),
        },
    }
}

/// The domain of an envelope sender, trimmed, before lowercasing.
pub open spec fn raw_sender_domain(from: Seq<char>) -> Seq<char> {
    match at_field(from) {
        Some(d) => trim(d),
        None => Seq::empty(),
    }
}

/// The domain of an envelope sender, trimmed and lowercased (empty when there is none):
/// the domain whose DKIM key signs the message.
pub fn sender_domain(from_envelope: &str) -> (d: String)
    ensures
        d@ == spec_to_lowercase(raw_sender_domain(from_envelope@)),
{
    let raw = match second_at_field(from_envelope) {
        Some(d) => string_from(&trim_chars(&chars_of(d.as_str()))),
        None => String::new(),
    };
    to_lowercase(raw.as_str())
}

/// The domain a message to `to` is delivered to, or `None` for an address without `@`.
pub fn recipient_domain(to: &str) -> (d: Option<String>)
    ensures
        opt_view(d) == at_field(to@),
{
    second_at_field(to)
}

/// A mail exchanger of a domain, as found in DNS.
#[derive(Debug)]
pub struct MxRecord {
    pub preference: u16,
    pub exchange: String,
}

/// The mail exchanger to use: the first one of the lowest preference.
pub fn best_mx(records: &[MxRecord]) -> (r: Option<usize>)
    ensures
        records@.len() == 0 <==> r is None,
        r matches Some(i) ==> i < records@.len() && (forall|j: int|
            0 <= j < records@.len() ==> records@[i as int].preference <= #[trigger] records@[j].preference)
            && (forall|j: int| 0 <= j < i ==> records@[i as int].preference < #[trigger] records@[j].preference),
{
    if records.len() == 0 {
        return None;
    }
    let mut best: usize = 0;
    let mut i: usize = 1;
    while i < records.len()
        invariant
            1 <= i <= records.len(),
            best < i,
            forall|j: int| 0 <= j < i ==> records@[best as int].preference <= #[trigger] records@[j].preference,
            forall|j: int| 0 <= j < best ==> records@[best as int].preference < #[trigger] records@[j].preference,
        decreases records.len() - i,
    {
        if records[i].preference < records[best].preference {
            best = i;
        }
        i = i + 1;
    }
    Some(best)
}

/// `s` without its trailing dots.
pub open spec fn trim_end_dots(s: Seq<char>) -> Seq<char>
    decreases s.len(),
{
    if s.len() > 0 && s.last() == '.' {
        trim_end_dots(s.drop_last())
    } else {
        s
    }
}

/// A host name as DNS gives it, without the trailing root dot.
pub fn clean_host(host: &str) -> (r: String)
    ensures
        r@ == trim_end_dots(host@),
{
    let v = chars_of(host);
    let mut b: usize = v.len();
    assert(v@.subrange(0, v.len() as int) =~= v@);
    while b > 0 && v[b - 1] == '.'
        invariant
            b <= v.len(),
            v@ == host@,
            trim_end_dots(v@.subrange(0, b as int)) == trim_end_dots(host@),
        decreases b,
    {
        assert(v@.subrange(0, b - 1) =~= v@.subrange(0, b as int).drop_last());
        b = b - 1;
    }
    string_from(&crate::text::slice_of(&v, 0, b))
}

/// Whether a server advertised a capability: some line of its EHLO reply contains it.
pub fn advertises(capabilities: &[String], word: &str) -> (b: bool)
    ensures
        b == exists|i: int| 0 <= i < capabilities@.len() && contains(#[trigger] capabilities@[i]@, word@),
{
    let mut i: usize = 0;
    while i < capabilities.len()
        invariant
            i <= capabilities.len(),
            forall|j: int| 0 <= j < i ==> !contains(#[trigger] capabilities@[j]@, word@),
        decreases capabilities.len() - i,
    {
        if crate::text::str_contains(capabilities[i].as_str(), word) {
            return true;
        }
        i = i + 1;
    }
    false
}

/// A command may be sent only when it holds no line break.
pub fn command_is_clean(cmd: &str) -> (b: bool)
    ensures
        b == (lacks(cmd@, '\r') && lacks(cmd@, '\n')),
{
    let v = chars_of(cmd);
    !has_char(&v, '\r') && !has_char(&v, '\n')
}

/// A reply line ends the reply unless it is a continuation line (`250-...`, a `-`
/// as its fourth byte).
pub open spec fn is_final_line(line: Seq<u8>) -> bool {
    line.len() < 4 || line[3] != 0x2Du8
}

pub fn is_final_reply_line(line: &str) -> (b: bool)
    ensures
        b == is_final_line(line.spec_bytes()),
{
    let bytes = line.as_bytes();
    bytes.len() < 4 || bytes[3] != 0x2Du8
}

/// A reply accepts the command when its last line starts with `2` or `3`.
pub fn reply_accepted(lines: &[String]) -> (b: bool)
    requires
        lines@.len() > 0,
    ensures
        b == (starts_with(lines@.last()@, seq!['2']) || starts_with(lines@.last()@, seq!['3'])),
{
    let last = chars_of(lines[lines.len() - 1].as_str());
    let two: Vec<char> = vec!['2'];
    let three: Vec<char> = vec!['3'];
    assert(two@ =~= seq!['2']);
    assert(three@ =~= seq!['3']);
    crate::text::starts_with_chars(&last, &two) || crate::text::starts_with_chars(&last, &three)
}

/// One step of a delivery conversation.
#[derive(Debug)]
pub struct SmtpCommand {
    /// The command line, without its CRLF.
    pub text: String,
    /// Wait before sending it (the server does not pipeline).
    pub delay: bool,
}

pub open spec fn mail_from_line(from: Seq<char>) -> Seq<char> {
    "MAIL FROM:<"@ + from + ">"@
}

pub open spec fn rcpt_to_line(to: Seq<char>) -> Seq<char> {
    "RCPT TO:<"@ + to + ">"@
}

/// `a + b + c` as a new string.
fn joined(a: &str, b: &str, c: &str) -> (r: String)
    ensures
        r@ == a@ + b@ + c@,
{
    let mut t = a.to_owned();
    push_str(&mut t, b);
    push_str(&mut t, c);
    t
}

/// The envelope commands of a delivery, up to `DATA`: without pipelining every
/// command after the first waits a moment.
pub fn envelope_commands(from: &str, to: &str, pipelining: bool) -> (r: Vec<SmtpCommand>)
    ensures
        r@.len() == 3,
        r@[0].text@ == mail_from_line(from@) && !r@[0].delay,
        r@[1].text@ == rcpt_to_line(to@) && r@[1].delay == !pipelining,
        r@[2].text@ == "DATA"@ && r@[2].delay == !pipelining,
{
    let mut r: Vec<SmtpCommand> = Vec::new();
    r.push(SmtpCommand { text: joined("MAIL FROM:<", from, ">"), delay: false });
    r.push(SmtpCommand { text: joined("RCPT TO:<", to, ">"), delay: !pipelining });
    r.push(SmtpCommand { text: "DATA".to_owned(), delay: !pipelining });
    r
}

/// The commands that end a delivery after the data: the end-of-data marker and `QUIT`.
pub fn closing_commands(pipelining: bool) -> (r: Vec<SmtpCommand>)
    ensures
        r@.len() == 2,
        r@[0].text@ == "."@ && r@[0].delay == !pipelining,
        r@[1].text@ == "QUIT"@ && r@[1].delay == !pipelining,
{
    let mut r: Vec<SmtpCommand> = Vec::new();
    r.push(SmtpCommand { text: ".".to_owned(), delay: !pipelining });
    r.push(SmtpCommand { text: "QUIT".to_owned(), delay: !pipelining });
    r
}

// ------------------------------------------------------------------
// Relay
// ------------------------------------------------------------------

/// An SMTP relay that outbound mail is handed to instead of the recipient's MX.
#[derive(Debug)]
pub struct RelayConfig {
    pub host: String,
    pub port: u16,
    pub user: String,
    pub pass: String,
}

pub struct RelayConfigView {
    pub host: Seq<char>,
    pub port: u16,
    pub user: Seq<char>,
    pub pass: Seq<char>,
}

impl View for RelayConfig {
    type V = RelayConfigView;

    open spec fn view(&self) -> RelayConfigView {
        RelayConfigView { host: self.host@, port: self.port, user: self.user@, pass: self.pass@ }
    }
}

/// The relay settings found in the environment (each `None` when unset).
pub struct RelayEnv {
    pub relay_token: Option<String>,
    pub relay_password: Option<String>,
    pub token: Option<String>,
    pub host: Option<String>,
    pub port: Option<String>,
    pub user: Option<String>,
}

pub struct RelayEnvView {
    pub relay_token: Option<Seq<char>>,
    pub relay_password: Option<Seq<char>>,
    pub token: Option<Seq<char>>,
    pub host: Option<Seq<char>>,
    pub port: Option<Seq<char>>,
    pub user: Option<Seq<char>>,
}

impl View for RelayEnv {
    type V = RelayEnvView;

    open spec fn view(&self) -> RelayEnvView {
        RelayEnvView {
            relay_token: opt_view(self.relay_token),
            relay_password: opt_view(self.relay_password),
            token: opt_view(self.token),
            host: opt_view(self.host),
            port: opt_view(self.port),
            user: opt_view(self.user),
        }
    }
}

/// The relay password: the first nonempty of `SMTP_RELAY_TOKEN`, `SMTP_RELAY_PASSWORD`,
/// `SMTP_TOKEN` (empty when none is).
pub open spec fn relay_pass(env: RelayEnvView) -> Seq<char> {
    let a = value_or(env.relay_token, Seq::empty());
    if a.len() > 0 {
        a
    } else {
        let b = value_or(env.relay_password, Seq::empty());
        if b.len() > 0 {
            b
        } else {
            value_or(env.token, Seq::empty())
        }
    }
}

/// The relay that the environment configures: none without a password; otherwise
/// the host (default `live.smtp.mailtrap.io`), the port (587 when unset or not a port
/// number) and the user (default `api`).
pub open spec fn spec_relay_from_env(env: RelayEnvView) -> Option<RelayConfigView> {
    let pass = relay_pass(env);
    if pass.len() == 0 {
        None
    } else {
        Some(RelayConfigView {
            host: value_or(env.host, "live.smtp.mailtrap.io"@),
            port: match crate::text::parse_unsigned(value_or(env.port, "587"@), 65535) {
                Some(n) => n as u16,
                None => 587,
            },
            user: value_or(env.user, "api"@),
            pass,
        })
    }
}

/// Whether an environment setting is unset or empty.
pub open spec fn unset_or_empty(v: Option<Seq<char>>) -> bool {
    v is None || v == Some(Seq::<char>::empty())
}

/// Where the relay password comes from, in order: a nonempty `SMTP_RELAY_TOKEN` is the
/// password; without it a nonempty `SMTP_RELAY_PASSWORD` is; without both a nonempty
/// `SMTP_TOKEN` is; and with none of the three no relay is configured.  A configured
/// relay without host, port or user settings is `live.smtp.mailtrap.io:587` as `api`.
pub proof fn lemma_relay_password_sources(env: RelayEnvView, t: Seq<char>)
    ensures
        env.relay_token == Some(t) && t.len() > 0 ==> spec_relay_from_env(env) is Some
            && spec_relay_from_env(env).unwrap().pass == t,
        unset_or_empty(env.relay_token) && env.relay_password == Some(t) && t.len() > 0
            ==> spec_relay_from_env(env) is Some && spec_relay_from_env(env).unwrap().pass == t,
        unset_or_empty(env.relay_token) && unset_or_empty(env.relay_password) && env.token == Some(t) && t.len()
            > 0 ==> spec_relay_from_env(env) is Some && spec_relay_from_env(env).unwrap().pass == t,
        unset_or_empty(env.relay_token) && unset_or_empty(env.relay_password) && unset_or_empty(env.token)
            ==> spec_relay_from_env(env) is None,
        spec_relay_from_env(env) is Some && env.host is None && env.port is None && env.user is None
            ==> spec_relay_from_env(env).unwrap().host == "live.smtp.mailtrap.io"@ && spec_relay_from_env(
            env,
        ).unwrap().port == 587 && spec_relay_from_env(env).unwrap().user == "api"@,
{
    reveal_strlit("587");
    crate::text::lemma_parse_dec(587, 65535);
    assert(crate::text::dec(587) =~= "587"@) by {
        reveal_strlit("587");
        assert(crate::text::dec(5) == seq!['5']);
        assert(crate::text::dec(58) == seq!['5', '8']);
    }
}

pub open spec fn opt_relay_view(r: Option<RelayConfig>) -> Option<RelayConfigView> {
    match r {
        Some(c) => Some(c@),
        None => None,
    }
}

/// The relay to use: an explicit one when given, otherwise the one the environment
/// configures, if any.
pub fn choose_relay(explicit: Option<RelayConfig>, env: &RelayEnv) -> (r: Option<RelayConfig>)
    ensures
        explicit is Some ==> opt_relay_view(r) == opt_relay_view(explicit),
        explicit is None ==> opt_relay_view(r) == spec_relay_from_env(env@),
{
    if explicit.is_some() {
        return explicit;
    }
    let mut pass = config_or(&env.relay_token, "");
    if pass.as_str().is_empty() {
        pass = config_or(&env.relay_password, "");
    }
    if pass.as_str().is_empty() {
        pass = config_or(&env.token, "");
    }
    proof {
        assert(""@.len() == 0) by {
            reveal_strlit("");
        }
        assert(pass@ == relay_pass(env@));
    }
    if pass.as_str().is_empty() {
        return None;
    }
    let host = config_or(&env.host, "live.smtp.mailtrap.io");
    let port_text = config_or(&env.port, "587");
    let port: u16 = match crate::text::parse_bounded(&chars_of(port_text.as_str()), 65535) {
        Some(n) => n as u16,
        None => 587,
    };
    let user = config_or(&env.user, "api");
    Some(RelayConfig { host, port, user, pass })
}

/// `EHLO <domain>`.
pub fn ehlo_line(identity_domain: &str) -> (r: String)
    ensures
        r@ == "EHLO "@ + identity_domain@,
{
    let mut t = "EHLO ".to_owned();
    push_str(&mut t, identity_domain);
    t
}

/// A relay connection is upgraded to TLS when the relay offers STARTTLS on port 587.
pub fn relay_uses_starttls(capabilities: &[String], port: u16) -> (b: bool)
    ensures
        b == ((exists|i: int| 0 <= i < capabilities@.len() && contains(#[trigger] capabilities@[i]@, "STARTTLS"@))
            && port == 587),
{
    advertises(capabilities, "STARTTLS") && port == 587
}

/// `AUTH PLAIN` with the base64 of `\0user\0pass`, when both user and password are set.
pub fn auth_plain_command(user: &str, pass: &str) -> (r: Option<String>)
    ensures
        (user@.len() == 0 || pass@.len() == 0) ==> r is None,
        (user@.len() > 0 && pass@.len() > 0) ==> (r matches Some(c) && c@ == "AUTH PLAIN "@
            + spec_base64_standard(encode_utf8(seq!['\0'] + user@ + seq!['\0'] + pass@))),
{
    let u = chars_of(user);
    let p = chars_of(pass);
    if u.len() == 0 || p.len() == 0 {
        return None;
    }
    let mut raw = String::new();
    let nul: Vec<char> = vec!['\0'];
    assert(nul@ =~= seq!['\0']);
    push_chars(&mut raw, &nul);
    push_str(&mut raw, user);
    push_chars(&mut raw, &nul);
    push_str(&mut raw, pass);
    assert(raw@ =~= seq!['\0'] + user@ + seq!['\0'] + pass@);
    let encoded = base64_standard(raw.as_str().as_bytes());
    let mut c = "AUTH PLAIN ".to_owned();
    push_str(&mut c, encoded.as_str());
    Some(c)
}

// ------------------------------------------------------------------
// Retry schedule
// ------------------------------------------------------------------

pub open spec fn pow2(e: nat) -> nat
    decreases e,
{
    if e == 0 {
        1
    } else {
        2 * pow2((e - 1) as nat)
    }
}

/// The wait before retry number `attempts`: one minute before the first, then
/// `10 * 2^(attempts - 1)` minutes (the exponent capped at 10), at most 24 hours.
pub open spec fn spec_retry_delay_minutes(attempts: int) -> nat {
    if attempts <= 0 {
        1
    } else {
        let e = if attempts - 1 < 10 { (attempts - 1) as nat } else { 10 };
        let d = pow2(e) * 10;
        if d < 1440 {
            d
        } else {
            1440
        }
    }
}

pub fn retry_delay_minutes(attempts: i32) -> (m: u64)
    ensures
        m == spec_retry_delay_minutes(attempts as int),
{
    if attempts <= 0 {
        return 1;
    }
    let e: u32 = if attempts - 1 < 10 { (attempts - 1) as u32 } else { 10 };
    let mut p: u64 = 1;
    let mut k: u32 = 0;
    while k < e
        invariant
            k <= e <= 10,
            p == pow2(k as nat),
            p <= 1024,
        decreases e - k,
    {
        proof {
            assert(pow2(k as nat) <= 512) by {
                lemma_pow2_mono(k as nat, 9);
                assert(pow2(9) == 512) by {
                    reveal_with_fuel(pow2, 10);
                }
            }
        }
        p = p * 2;
        k = k + 1;
    }
    let d = p * 10;
    if d < 1440 {
        d
    } else {
        1440
    }
}

proof fn lemma_pow2_mono(a: nat, b: nat)
    requires
        a <= b,
    ensures
        pow2(a) <= pow2(b),
    decreases b,
{
    if a < b {
        lemma_pow2_mono(a, (b - 1) as nat);
    }
}

/// The backoff schedule: one minute before the first attempt, ten minutes after the
/// first failure, then twice the previous wait each time, never more than 24 hours.
pub proof fn lemma_retry_backoff_doubles(attempts: int)
    ensures
        attempts <= 0 ==> spec_retry_delay_minutes(attempts) == 1,
        spec_retry_delay_minutes(1) == 10,
        attempts >= 1 ==> spec_retry_delay_minutes(attempts + 1) == if 2 * spec_retry_delay_minutes(attempts)
            < 1440 {
            2 * spec_retry_delay_minutes(attempts)
        } else {
            1440
        },
        1 <= spec_retry_delay_minutes(attempts) <= 1440,
{
    reveal_with_fuel(pow2, 2);
    if attempts >= 1 {
        let e = if attempts - 1 < 10 { (attempts - 1) as nat } else { 10nat };
        let e2 = if attempts < 10 { attempts as nat } else { 10nat };
        if attempts - 1 < 10 {
            assert(pow2(e2) == 2 * pow2(e)) by {
                if attempts < 10 {
                    assert(e2 == e + 1);
                } else {
                    assert(e2 == 10 && e == 9);
                }
            }
        } else {
            assert(e == 10 && e2 == 10);
            assert(pow2(10) == 1024) by {
                reveal_with_fuel(pow2, 11);
            }
        }
        assert(pow2(e) >= 1) by {
            lemma_pow2_mono(0, e);
        }
    }
}

/// What becomes of a queued message after a failed delivery attempt.
#[derive(Debug, Clone, Copy, PartialEq, Eq, Structural)]
pub enum RetryDecision {
    /// Give up: the job is marked failed after this many attempts.
    GiveUp(i32),
    /// Try again after this many minutes; this many attempts have been made.
    RetryAfter(i32, u64),
}

/// After a failed attempt the job has one more attempt on record; it is given up when
/// that reaches its maximum, and retried on the backoff schedule otherwise.
pub fn after_failed_attempt(attempts: i32, max_attempts: i32) -> (d: RetryDecision)
    requires
        attempts < i32::MAX,
    ensures
        attempts + 1 >= max_attempts ==> d == RetryDecision::GiveUp((attempts + 1) as i32),
        attempts + 1 < max_attempts ==> d == RetryDecision::RetryAfter(
            (attempts + 1) as i32,
            spec_retry_delay_minutes(attempts + 1) as u64,
        ),
{
    let next = attempts + 1;
    if next >= max_attempts {
        RetryDecision::GiveUp(next)
    } else {
        RetryDecision::RetryAfter(next, retry_delay_minutes(next))
    }
}

// ------------------------------------------------------------------
// DKIM framing
// ------------------------------------------------------------------

/// A signed message: the `DKIM-Signature` header line, CRLF, then the message.  Without
/// a signature the message goes out as it is.
pub fn with_signature(signature_header: Option<&str>, body: &[u8]) -> (r: Vec<u8>)
    ensures
        match signature_header {
            Some(h) => r@ == encode_utf8(h@) + seq![0x0Du8, 0x0Au8] + body@,
            None => r@ == body@,
        },
{
    let mut out: Vec<u8> = Vec::new();
    match signature_header {
        Some(h) => {
            let hb = h.as_bytes();
            let mut i: usize = 0;
            while i < hb.len()
                invariant
                    i <= hb.len(),
                    out@ == hb@.subrange(0, i as int),
                decreases hb.len() - i,
            {
                out.push(hb[i]);
                i = i + 1;
                assert(out@ =~= hb@.subrange(0, i as int));
            }
            assert(hb@.subrange(0, hb.len() as int) =~= hb@);
            out.push(0x0Du8);
            out.push(0x0Au8);
        },
        None => {},
    }
    let ghost head = out@;
    let mut j: usize = 0;
    while j < body.len()
        invariant
            j <= body.len(),
            out@ == head + body@.subrange(0, j as int),
        decreases body.len() - j,
    {
        out.push(body[j]);
        j = j + 1;
        assert(out@ =~= head + body@.subrange(0, j as int));
    }
    assert(body@.subrange(0, body.len() as int) =~= body@);
    assert(head + body@ =~= out@);
    out
}

} // verus!
