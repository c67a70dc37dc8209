//! A delivery conversation as the sending side leads it: the greeting, EHLO, STARTTLS
//! when the server offers it (to a relay: only on port 587) and EHLO again, AUTH PLAIN
//! to a relay with credentials, the envelope, the data and QUIT.  Every command but the
//! first of the envelope waits a moment unless the server pipelines.  The caller does
//! the network work: it performs each action and hands back the reply.
use vstd::prelude::*;
use crate::mime::opt_view;
use crate::outbound::{
    advertises, auth_plain_command, data_payload, data_payload_of, mail_from_line, rcpt_to_line,
    RelayConfig,
};
use crate::text::{chars_of, contains, has_char, lacks, push_chars, push_str, starts_with, string_from};
use crate::mime::{MimeEmail, MimeEmailView};
use crate::message::{rewrite_body_for_forward, spec_mail_headers, spec_mail_parts, spec_utf8_lossy, forward_email};
use crate::mime::{drawn_envelope, spec_build_mime, MimeEnvelope};
use crate::srs::{encode_srs, spec_encode_srs};

verus! {

/// Where a delivery conversation stands: which reply is awaited next.
#[derive(Debug, Clone, Copy, PartialEq, Eq, Structural)]
pub enum ClientStage {
    /// The server's greeting.
    Greeting,
    /// The reply to EHLO.
    Ehlo,
    /// The reply to STARTTLS.
    StartTls,
    /// No reply: the TLS handshake is under way.
    Handshake,
    /// The reply to EHLO over TLS.
    SecureEhlo,
    /// The reply to AUTH PLAIN.
    Auth,
    /// The reply to MAIL FROM.
    MailFrom,
    /// The reply to RCPT TO.
    RcptTo,
    /// The reply to DATA.
    Data,
    /// The reply to the end of the data.
    Dot,
    /// The reply to QUIT.
    Quit,
    /// The message was accepted.
    Done,
    /// The delivery failed.
    Failed,
}

/// What the caller does next.
#[derive(Debug)]
pub enum ClientAction {
    /// Write this command and CRLF (after a short pause when `true`), then read the
    /// reply and hand it to `on_reply`.
    Send(String, bool),
    /// Perform the TLS handshake, then call `on_tls_established`.
    StartTls,
    /// Write these data bytes, then `.` and CRLF (after a short pause when `true`),
    /// then read the reply and hand it to `on_reply`.
    SendData(Vec<u8>, bool),
    /// The message was accepted.
    Done,
    /// The delivery failed with this error.
    Fail(String),
}

pub enum ActionView {
    Send(Seq<char>, bool),
    StartTls,
    SendData(Seq<u8>, bool),
    Done,
    Fail(Seq<char>),
}

impl View for ClientAction {
    type V = ActionView;

    open spec fn view(&self) -> ActionView {
        match self {
            ClientAction::Send(c, d) => ActionView::Send(c@, *d),
            ClientAction::StartTls => ActionView::StartTls,
            ClientAction::SendData(b, d) => ActionView::SendData(b@, *d),
            ClientAction::Done => ActionView::Done,
            ClientAction::Fail(e) => ActionView::Fail(e@),
        }
    }
}

/// The sending side of one delivery.
pub struct SmtpClient {
    stage: ClientStage,
    identity: String,
    from: String,
    to: String,
    body: Vec<u8>,
    tls_allowed: bool,
    auth: Option<String>,
    capabilities: Vec<String>,
    last_command: String,
}

pub struct ClientView {
    pub stage: ClientStage,
    /// The domain the client greets with.
    pub identity: Seq<char>,
    /// The envelope sender and recipient.
    pub from: Seq<char>,
    pub to: Seq<char>,
    /// The message, as it is to be sent (before dot-stuffing).
    pub body: Seq<u8>,
    /// Whether STARTTLS is taken up when offered.
    pub tls_allowed: bool,
    /// The AUTH command to send, if any.
    pub auth: Option<Seq<char>>,
    /// The lines of the server's last EHLO reply.
    pub capabilities: Seq<Seq<char>>,
    /// The command whose reply is awaited.
    pub last_command: Seq<char>,
}

pub open spec fn str_views(v: Seq<String>) -> Seq<Seq<char>> {
    v.map_values(|s: String| s@)
}

impl View for SmtpClient {
    type V = ClientView;

    closed spec fn view(&self) -> ClientView {
        ClientView {
            stage: self.stage,
            identity: self.identity@,
            from: self.from@,
            to: self.to@,
            body: self.body@,
            tls_allowed: self.tls_allowed,
            auth: opt_view(self.auth),
            capabilities: str_views(self.capabilities@),
            last_command: self.last_command@,
        }
    }
}

/// Some line of an EHLO reply mentions `word`.
pub open spec fn offers(capabilities: Seq<Seq<char>>, word: Seq<char>) -> bool {
    exists|i: int| 0 <= i < capabilities.len() && contains(#[trigger] capabilities[i], word)
}

pub open spec fn pipelining(s: ClientView) -> bool {
    offers(s.capabilities, "PIPELINING"@)
}

/// A reply accepts its command when its last line starts with `2` or `3`.
pub open spec fn reply_ok(lines: Seq<Seq<char>>) -> bool {
    lines.len() > 0 && (starts_with(lines.last(), seq!['2']) || starts_with(lines.last(), seq!['3']))
}

/// The lines of a reply, joined with `\n`.
pub open spec fn join_lines(lines: Seq<Seq<char>>) -> Seq<char>
    decreases lines.len(),
{
    if lines.len() == 0 {
        Seq::empty()
    } else if lines.len() == 1 {
        lines[0]
    } else {
        join_lines(lines.drop_last()) + seq!['\n'] + lines.last()
    }
}

/// The error of a refused command.
pub open spec fn smtp_error(command: Seq<char>, lines: Seq<Seq<char>>) -> Seq<char> {
    "SMTP Error for command '"@ + command + "': "@ + join_lines(lines)
}

pub open spec fn invalid_command_error() -> Seq<char> {
    "Command contains invalid characters"@
}

/// Sending `cmd` next, awaiting its reply in `stage`; a command with a line break is
/// refused without being sent.
pub open spec fn send_step(s: ClientView, stage: ClientStage, cmd: Seq<char>, delay: bool) -> (ClientView, ActionView) {
    if lacks(cmd, '\r') && lacks(cmd, '\n') {
        (ClientView { stage, last_command: cmd, ..s }, ActionView::Send(cmd, delay))
    } else {
        (ClientView { stage: ClientStage::Failed, ..s }, ActionView::Fail(invalid_command_error()))
    }
}

pub open spec fn ehlo_command(s: ClientView) -> Seq<char> {
    "EHLO "@ + s.identity
}

/// After the (last) EHLO: authenticate when there are credentials, else start the
/// envelope.
pub open spec fn after_hello(s: ClientView) -> (ClientView, ActionView) {
    match s.auth {
        Some(a) => send_step(s, ClientStage::Auth, a, false),
        None => send_step(s, ClientStage::MailFrom, mail_from_line(s.from), false),
    }
}

/// Whether the conversation waits for a reply.
pub open spec fn awaits_reply(stage: ClientStage) -> bool {
    !(stage == ClientStage::Handshake || stage == ClientStage::Done || stage == ClientStage::Failed)
}

/// What a reply leads to.  The greeting is taken whatever it says; any other reply that
/// does not accept its command ends the delivery with the reply as the error.
pub open spec fn client_on_reply(s: ClientView, lines: Seq<Seq<char>>) -> (ClientView, ActionView) {
    if s.stage == ClientStage::Greeting {
        send_step(s, ClientStage::Ehlo, ehlo_command(s), false)
    } else if !reply_ok(lines) {
        (ClientView { stage: ClientStage::Failed, ..s }, ActionView::Fail(smtp_error(s.last_command, lines)))
    } else {
        match s.stage {
            ClientStage::Ehlo => {
                let s2 = ClientView { capabilities: lines, ..s };
                if offers(lines, "STARTTLS"@) && s.tls_allowed {
                    send_step(s2, ClientStage::StartTls, "STARTTLS"@, false)
                } else {
                    after_hello(s2)
                }
            },
            ClientStage::StartTls => (ClientView { stage: ClientStage::Handshake, ..s }, ActionView::StartTls),
            ClientStage::SecureEhlo => after_hello(ClientView { capabilities: lines, ..s }),
            ClientStage::Auth => send_step(s, ClientStage::MailFrom, mail_from_line(s.from), false),
            ClientStage::MailFrom => send_step(s, ClientStage::RcptTo, rcpt_to_line(s.to), !pipelining(s)),
            ClientStage::RcptTo => send_step(s, ClientStage::Data, "DATA"@, !pipelining(s)),
            ClientStage::Data => (
                ClientView { stage: ClientStage::Dot, last_command: "."@, ..s },
                ActionView::SendData(data_payload_of(s.body), !pipelining(s)),
            ),
            ClientStage::Dot => send_step(s, ClientStage::Quit, "QUIT"@, !pipelining(s)),
            _ => (ClientView { stage: ClientStage::Done, ..s }, ActionView::Done),
        }
    }
}

/// No command that the client writes holds a line break, whatever the addresses,
/// the greeting name or the server's replies: one command can never smuggle in another.
pub proof fn lemma_commands_are_single_lines(s: ClientView, lines: Seq<Seq<char>>)
    ensures
        client_on_reply(s, lines).1 matches ActionView::Send(c, _) ==> lacks(c, '\r') && lacks(c, '\n'),
        send_step(s, ClientStage::SecureEhlo, ehlo_command(s), false).1 matches ActionView::Send(c, _) ==> lacks(
            c,
            '\r',
        ) && lacks(c, '\n'),
{
}

/// A new conversation with `identity`, sending `body` from `from` to `to`.
pub open spec fn fresh_client(
    identity: Seq<char>,
    from: Seq<char>,
    to: Seq<char>,
    body: Seq<u8>,
    tls_allowed: bool,
    auth: Option<Seq<char>>,
) -> ClientView {
    ClientView {
        stage: ClientStage::Greeting,
        identity,
        from,
        to,
        body,
        tls_allowed,
        auth,
        capabilities: Seq::empty(),
        last_command: Seq::empty(),
    }
}

fn copy_lines(lines: &Vec<String>) -> (r: Vec<String>)
    ensures
        str_views(r@) == str_views(lines@),
{
    let mut r: Vec<String> = Vec::new();
    let mut i: usize = 0;
    while i < lines.len()
        invariant
            i <= lines.len(),
            str_views(r@) == str_views(lines@).take(i as int),
        decreases lines.len() - i,
    {
        let ghost before = r@;
        r.push(string_from(&chars_of(lines[i].as_str())));
        assert(str_views(r@) =~= str_views(before).push(lines@[i as int]@));
        assert(str_views(lines@).take(i + 1) =~= str_views(lines@).take(i as int).push(lines@[i as int]@));
        i = i + 1;
    }
    assert(str_views(lines@).take(lines.len() as int) =~= str_views(lines@));
    r
}

fn join_reply(lines: &Vec<String>) -> (r: String)
    ensures
        r@ == join_lines(str_views(lines@)),
{
    let mut r = String::new();
    let mut i: usize = 0;
    while i < lines.len()
        invariant
            i <= lines.len(),
            r@ == join_lines(str_views(lines@).take(i as int)),
        decreases lines.len() - i,
    {
        let ghost t = str_views(lines@).take(i + 1);
        assert(t.drop_last() =~= str_views(lines@).take(i as int));
        assert(t.last() == lines@[i as int]@);
        if i > 0 {
            push_chars(&mut r, &['\n']);
        } else {
            assert(r@ =~= Seq::<char>::empty());
        }
        push_str(&mut r, lines[i].as_str());
        proof {
            if i == 0 {
                assert(t.len() == 1);
                assert(r@ =~= t[0]);
            } else {
                assert(r@ =~= join_lines(t.drop_last()) + seq!['\n'] + t.last());
            }
        }
        i = i + 1;
    }
    assert(str_views(lines@).take(lines.len() as int) =~= str_views(lines@));
    r
}

fn line_accepted(lines: &Vec<String>) -> (b: bool)
    ensures
        b == reply_ok(str_views(lines@)),
{
    if lines.len() == 0 {
        return false;
    }
    let last = chars_of(lines[lines.len() - 1].as_str());
    assert(str_views(lines@).last() == lines@[lines.len() - 1]@);
    let two: Vec<char> = vec!['2'];
    let three: Vec<char> = vec!['3'];
    assert(two@ =~= seq!['2']);
    assert(three@ =~= seq!['3']);
    crate::text::starts_with_chars(&last, &two) || crate::text::starts_with_chars(&last, &three)
}

impl SmtpClient {
    /// A delivery straight to the recipient's mail exchanger: STARTTLS whenever offered,
    /// no authentication.
    pub fn to_mx(identity: &str, from: &str, to: &str, body: Vec<u8>) -> (c: Self)
        ensures
            c@ == fresh_client(identity@, from@, to@, body@, true, None),
    {
        let c = SmtpClient {
            stage: ClientStage::Greeting,
            identity: identity.to_owned(),
            from: from.to_owned(),
            to: to.to_owned(),
            body,
            tls_allowed: true,
            auth: None,
            capabilities: Vec::new(),
            last_command: String::new(),
        };
        assert(str_views(c.capabilities@) =~= Seq::<Seq<char>>::empty());
        c
    }

    /// A delivery through a relay: STARTTLS only on port 587, AUTH PLAIN when the relay
    /// has a user and a password.
    pub fn to_relay(identity: &str, relay: &RelayConfig, from: &str, to: &str, body: Vec<u8>) -> (c: Self)
        ensures
            c@ == fresh_client(
                identity@,
                from@,
                to@,
                body@,
                relay.port == 587,
                if relay.user@.len() > 0 && relay.pass@.len() > 0 {
                    Some("AUTH PLAIN "@ + crate::mime::spec_base64_standard(
                        vstd::utf8::encode_utf8(seq!['\0'] + relay.user@ + seq!['\0'] + relay.pass@),
                    ))
                } else {
                    None
                },
            ),
    {
        let auth = auth_plain_command(relay.user.as_str(), relay.pass.as_str());
        let c = SmtpClient {
            stage: ClientStage::Greeting,
            identity: identity.to_owned(),
            from: from.to_owned(),
            to: to.to_owned(),
            body,
            tls_allowed: relay.port == 587,
            auth,
            capabilities: Vec::new(),
            last_command: String::new(),
        };
        assert(str_views(c.capabilities@) =~= Seq::<Seq<char>>::empty());
        c
    }

    pub fn stage(&self) -> (st: ClientStage)
        ensures
            st == self@.stage,
    {
        self.stage
    }

    fn send(&mut self, stage: ClientStage, cmd: String, delay: bool) -> (a: ClientAction)
        ensures
            (final(self)@, a@) == send_step(old(self)@, stage, cmd@, delay),
    {
        let v = chars_of(cmd.as_str());
        if has_char(&v, '\r') || has_char(&v, '\n') {
            self.stage = ClientStage::Failed;
            return ClientAction::Fail("Command contains invalid characters".to_owned());
        }
        self.stage = stage;
        self.last_command = string_from(&v);
        ClientAction::Send(cmd, delay)
    }

    fn hello_done(&mut self) -> (a: ClientAction)
        ensures
            (final(self)@, a@) == after_hello(old(self)@),
    {
        match &self.auth {
            Some(c) => {
                let cmd = string_from(&chars_of(c.as_str()));
                self.send(ClientStage::Auth, cmd, false)
            },
            None => {
                let cmd = self.mail_from();
                self.send(ClientStage::MailFrom, cmd, false)
            },
        }
    }

    fn mail_from(&self) -> (c: String)
        ensures
            c@ == mail_from_line(self@.from),
    {
        let mut c = "MAIL FROM:<".to_owned();
        push_str(&mut c, self.from.as_str());
        push_str(&mut c, ">");
        c
    }

    fn rcpt_to(&self) -> (c: String)
        ensures
            c@ == rcpt_to_line(self@.to),
    {
        let mut c = "RCPT TO:<".to_owned();
        push_str(&mut c, self.to.as_str());
        push_str(&mut c, ">");
        c
    }

    fn ehlo(&self) -> (c: String)
        ensures
            c@ == ehlo_command(self@),
    {
        let mut c = "EHLO ".to_owned();
        push_str(&mut c, self.identity.as_str());
        c
    }

    /// Takes the server's reply (its lines, trimmed) to what was last sent.
    pub fn on_reply(&mut self, lines: Vec<String>) -> (a: ClientAction)
        requires
            awaits_reply(old(self)@.stage),
        ensures
            (final(self)@, a@) == client_on_reply(old(self)@, str_views(lines@)),
    {
        if self.stage == ClientStage::Greeting {
            let cmd = self.ehlo();
            return self.send(ClientStage::Ehlo, cmd, false);
        }
        if !line_accepted(&lines) {
            let mut e = "SMTP Error for command '".to_owned();
            push_str(&mut e, self.last_command.as_str());
            push_str(&mut e, "': ");
            let j = join_reply(&lines);
            push_str(&mut e, j.as_str());
            self.stage = ClientStage::Failed;
            return ClientAction::Fail(e);
        }
        let pipe = advertises(self.capabilities.as_slice(), "PIPELINING");
        proof {
            assert(pipe == pipelining(old(self)@)) by {
                if pipe {
                    let i = choose|i: int| 0 <= i < self.capabilities@.len() && contains(#[trigger] self.capabilities@[i]@, "PIPELINING"@);
                    assert(str_views(self.capabilities@)[i] == self.capabilities@[i]@);
                }
                if pipelining(old(self)@) {
                    let i = choose|i: int| 0 <= i < str_views(self.capabilities@).len() && contains(#[trigger] str_views(self.capabilities@)[i], "PIPELINING"@);
                    assert(str_views(self.capabilities@)[i] == self.capabilities@[i]@);
                }
            }
        }
        match self.stage {
            ClientStage::Ehlo => {
                let tls = advertises(lines.as_slice(), "STARTTLS");
                proof {
                    assert(tls == offers(str_views(lines@), "STARTTLS"@)) by {
                        if tls {
                            let i = choose|i: int| 0 <= i < lines@.len() && contains(#[trigger] lines@[i]@, "STARTTLS"@);
                            assert(str_views(lines@)[i] == lines@[i]@);
                        }
                        if offers(str_views(lines@), "STARTTLS"@) {
                            let i = choose|i: int| 0 <= i < str_views(lines@).len() && contains(#[trigger] str_views(lines@)[i], "STARTTLS"@);
                            assert(str_views(lines@)[i] == lines@[i]@);
                        }
                    }
                }
                self.capabilities = copy_lines(&lines);
                if tls && self.tls_allowed {
                    self.send(ClientStage::StartTls, "STARTTLS".to_owned(), false)
                } else {
                    self.hello_done()
                }
            },
            ClientStage::StartTls => {
                self.stage = ClientStage::Handshake;
                ClientAction::StartTls
            },
            ClientStage::SecureEhlo => {
                self.capabilities = copy_lines(&lines);
                self.hello_done()
            },
            ClientStage::Auth => {
                let cmd = self.mail_from();
                self.send(ClientStage::MailFrom, cmd, false)
            },
            ClientStage::MailFrom => {
                let cmd = self.rcpt_to();
                self.send(ClientStage::RcptTo, cmd, !pipe)
            },
            ClientStage::RcptTo => self.send(ClientStage::Data, "DATA".to_owned(), !pipe),
            ClientStage::Data => {
                self.stage = ClientStage::Dot;
                self.last_command = ".".to_owned();
                ClientAction::SendData(data_payload(self.body.as_slice()), !pipe)
            },
            ClientStage::Dot => self.send(ClientStage::Quit, "QUIT".to_owned(), !pipe),
            _ => {
                self.stage = ClientStage::Done;
                ClientAction::Done
            },
        }
    }

    /// The TLS handshake is done: greet again over the secure connection.
    pub fn on_tls_established(&mut self) -> (a: ClientAction)
        requires
            old(self)@.stage == ClientStage::Handshake,
        ensures
            (final(self)@, a@) == send_step(old(self)@, ClientStage::SecureEhlo, ehlo_command(old(self)@), false),
    {
        let cmd = self.ehlo();
        self.send(ClientStage::SecureEhlo, cmd, false)
    }
}

// ------------------------------------------------------------------
// What is sent
// ------------------------------------------------------------------

/// A reply written in the portal: plain text from the alias, threaded on the message
/// it answers (`In-Reply-To` and `References` both name it).
pub fn reply_message(
    to: &str,
    from_alias: &str,
    subject: &str,
    body: &str,
    original_message_id: Option<String>,
    new_message_id: Option<String>,
) -> (m: MimeEmail)
    ensures
        m@ == (MimeEmailView {
            from: from_alias@,
            to: to@,
            subject: subject@,
            text_body: body@,
            html_body: None,
            message_id: opt_view(new_message_id),
            in_reply_to: opt_view(original_message_id),
            references: opt_view(original_message_id),
            attachments: Seq::empty(),
        }),
{
    let references = match &original_message_id {
        Some(id) => Some(string_from(&chars_of(id.as_str()))),
        None => None,
    };
    let m = MimeEmail {
        from: from_alias.to_owned(),
        to: to.to_owned(),
        subject: subject.to_owned(),
        text_body: body.to_owned(),
        html_body: None,
        message_id: new_message_id,
        in_reply_to: original_message_id,
        references,
        attachments: Vec::new(),
    };
    assert(m@.attachments =~= Seq::<crate::mime::AttachmentView>::empty());
    m
}

/// The address replies to a forwarded message go to: the reply token at the server's
/// own domain.
pub open spec fn reply_address(reply_token: Seq<char>, identity_domain: Seq<char>) -> Seq<char> {
    reply_token + seq!['@'] + identity_domain
}

/// A forward that the recipient can answer through a reply token: the envelope
/// sender is the SRS form of the reply address, and the message is rewritten to come
/// from that address (showing the original sender's name) and to go to `to`.
pub fn forward_with_reply_token(
    to: &str,
    from: &str,
    reply_token: &str,
    identity_domain: &str,
    srs_secret: &str,
    body: &[u8],
) -> (r: (String, String))
    ensures
        exists|t: nat|
            t < 1024 && r.0@ == spec_encode_srs(
                reply_address(reply_token@, identity_domain@),
                identity_domain@,
                srs_secret@,
                t,
            ),
        match spec_mail_headers(body@) {
            Some(h) => exists|env: MimeEnvelope| drawn_envelope(env) &&
                r.1@ == spec_build_mime(
                    forward_email(
                        h,
                        spec_mail_parts(body@),
                        from@,
                        reply_address(reply_token@, identity_domain@),
                        to@,
                    ),
                    env,
                ),
            None => r.1@ == spec_utf8_lossy(body@),
        },
{
    let mut reply_from = reply_token.to_owned();
    let at: Vec<char> = vec!['@'];
    assert(at@ =~= seq!['@']);
    push_chars(&mut reply_from, &at);
    push_str(&mut reply_from, identity_domain);
    assert(reply_from@ == reply_address(reply_token@, identity_domain@));
    let envelope = encode_srs(reply_from.as_str(), identity_domain, srs_secret);
    let message = rewrite_body_for_forward(body, from, reply_from.as_str(), to);
    (envelope, message)
}

} // verus!
