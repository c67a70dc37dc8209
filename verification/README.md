# maileroo

A self-hosted email forwarding gateway and private alias manager: an inbound SMTP
server that accepts mail for aliases on your own domains, forwards it to a personal
inbox behind a Sender Rewriting Scheme address, and relays replies back so that the
personal address stays hidden.

The rules of the gateway are written in Verus and proved against their contracts.

## Layout

- `src/` — the verified library.
  - `srs.rs` — SRS addresses: encoding, signature check, expiry; decoding gives back
    what encoding was given.
  - `smtp.rs` — the inbound SMTP session as a state machine, the bounded body buffer,
    recipient routing (aliases, SRS and reply tokens).
  - `delivery.rs` — the outbound SMTP client as a state machine, for direct MX
    delivery and for relays; the messages a forward or a reply sends.
  - `outbound.rs` — dot-stuffing, envelope commands, relay choice, retry backoff.
  - `mime.rs`, `message.rs` — building MIME messages, header sanitising, message ids,
    reading received messages and rewriting them for forwarding and replies.
  - `dns.rs` — SPF records and their evaluation, CIDR matching, domain record checks.
  - `blocklist.rs`, `rate_limit.rs` — connection blocklist and failure rate limiting.
  - `filter.rs` — keyword filters, label assignment, the backfill job queue.
  - `crypto.rs` — authenticated encryption of stored secrets.
  - `web.rs`, `dashboard.rs`, `compose.rs`, `email_body.rs`, `i18n.rs` — the rules of
    the web portal: alias validation, CSRF, pagination, the compose form, sanitised
    message bodies and the translated interface texts.
  - `config.rs`, `text.rs` — settings and shared text functions.
- `tests/` — tests that run the library with the outside crates linked.
- `app/` — the program around the library: configuration from the environment,
  the SQLite store, the SMTP listener, outbound delivery and the retry queue.
