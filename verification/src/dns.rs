//! Domain checks: the status of a domain's MX, SPF, DMARC and DKIM records, SPF
//! record parsing (RFC 7208), address/CIDR matching, and the walk through included
//! SPF records that decides whether a client may send for a domain.
//!
//! DNS lookups and the parsing of address text (`std::net`) are done by the caller;
//! the library takes their results as plain values.
use vstd::prelude::*;
use crate::mime::opt_view;
use crate::outbound::{best_mx, clean_host, trim_end_dots, MxRecord};
use crate::text::{
    chars_eq, chars_of, contains, dec, dec_u64, parse_bounded, parse_unsigned, push_chars, push_str,
    slice_of, split_once, split_once_char, split_whitespace, starts_with, starts_with_chars,
    str_contains, str_starts_with, string_from, words,
};

verus! {

// ------------------------------------------------------------------
// SPF records
// ------------------------------------------------------------------

/// A mechanism or modifier of an SPF record that the checker follows.
#[derive(Debug, PartialEq, Eq)]
pub enum SpfDirective {
    Ip4(String),
    Ip6(String),
    Include(String),
    Redirect(String),
}

pub enum SpfDirectiveView {
    Ip4(Seq<char>),
    Ip6(Seq<char>),
    Include(Seq<char>),
    Redirect(Seq<char>),
}

impl View for SpfDirective {
    type V = SpfDirectiveView;

    open spec fn view(&self) -> SpfDirectiveView {
        match self {
            SpfDirective::Ip4(s) => SpfDirectiveView::Ip4(s@),
            SpfDirective::Ip6(s) => SpfDirectiveView::Ip6(s@),
            SpfDirective::Include(s) => SpfDirectiveView::Include(s@),
            SpfDirective::Redirect(s) => SpfDirectiveView::Redirect(s@),
        }
    }
}

pub open spec fn is_qualifier(c: char) -> bool {
    c == '+' || c == '-' || c == '~' || c == '?'
}

/// A term without its qualifier (`+`, `-`, `~` or `?`).
pub open spec fn strip_qualifier(t: Seq<char>) -> Seq<char> {
    if t.len() > 0 && is_qualifier(t[0]) {
        t.drop_first()
    } else {
        t
    }
}

/// The qualifier of an SPF mechanism: what a match of it means.
#[derive(Debug, Clone, Copy, PartialEq, Eq, Structural)]
pub enum SpfQualifier {
    /// `+` or no qualifier: the client is authorized.
    Pass,
    /// `-`: the client is not authorized.
    Fail,
    /// `~`: not authorized, to be treated leniently.
    SoftFail,
    /// `?`: nothing is asserted.
    Neutral,
}

/// The qualifier a term carries (`Pass` when it has none).
pub open spec fn term_qualifier(t: Seq<char>) -> SpfQualifier {
    if t.len() > 0 && t[0] == '-' {
        SpfQualifier::Fail
    } else if t.len() > 0 && t[0] == '~' {
        SpfQualifier::SoftFail
    } else if t.len() > 0 && t[0] == '?' {
        SpfQualifier::Neutral
    } else {
        SpfQualifier::Pass
    }
}

/// The directive a term of an SPF record gives, if any: `ip4:`, `ip6:`, `include:`
/// and `redirect=`; the version tag and all other terms give none.
pub open spec fn term_directive(t: Seq<char>) -> Option<SpfDirectiveView> {
    if t == "v=spf1"@ {
        None
    } else {
        let c = strip_qualifier(t);
        if starts_with(c, "ip4:"@) {
            Some(SpfDirectiveView::Ip4(c.skip(4)))
        } else if starts_with(c, "ip6:"@) {
            Some(SpfDirectiveView::Ip6(c.skip(4)))
        } else if starts_with(c, "include:"@) {
            Some(SpfDirectiveView::Include(c.skip(8)))
        } else if starts_with(c, "redirect="@) {
            Some(SpfDirectiveView::Redirect(c.skip(9)))
        } else {
            None
        }
    }
}

pub open spec fn directives_of(terms: Seq<Seq<char>>) -> Seq<SpfDirectiveView>
    decreases terms.len(),
{
    if terms.len() == 0 {
        Seq::empty()
    } else {
        let rest = directives_of(terms.drop_last());
        match term_directive(terms.last()) {
            Some(d) => rest.push(d),
            None => rest,
        }
    }
}

/// The directives of the terms, in order, each with its qualifier.
pub open spec fn qualified_of(terms: Seq<Seq<char>>) -> Seq<(SpfQualifier, SpfDirectiveView)>
    decreases terms.len(),
{
    if terms.len() == 0 {
        Seq::empty()
    } else {
        let rest = qualified_of(terms.drop_last());
        match term_directive(terms.last()) {
            Some(d) => rest.push((term_qualifier(terms.last()), d)),
            None => rest,
        }
    }
}

/// The directives of a TXT record with their qualifiers, in order; none unless it
/// starts with `v=spf1`.
pub open spec fn spec_parse_spf_qualified(txt: Seq<char>) -> Seq<(SpfQualifier, SpfDirectiveView)> {
    if starts_with(txt, "v=spf1"@) {
        qualified_of(words(txt))
    } else {
        Seq::empty()
    }
}

/// The directives of a TXT record, in order; none unless it starts with `v=spf1`.
pub open spec fn spec_parse_spf(txt: Seq<char>) -> Seq<SpfDirectiveView> {
    if starts_with(txt, "v=spf1"@) {
        directives_of(words(txt))
    } else {
        Seq::empty()
    }
}

fn term_to_directive(t: &[char]) -> (r: Option<(SpfQualifier, SpfDirective)>)
    ensures
        match r {
            Some((q, d)) => term_directive(t@) == Some(d@) && q == term_qualifier(t@),
            None => term_directive(t@) is None,
        },
{
    proof {
        reveal_strlit("ip4:");
        reveal_strlit("ip6:");
        reveal_strlit("include:");
        reveal_strlit("redirect=");
    }
    if chars_eq(t, &chars_of("v=spf1")) {
        return None;
    }
    let c = if t.len() > 0 && (t[0] == '+' || t[0] == '-' || t[0] == '~' || t[0] == '?') {
        slice_of(t, 1, t.len())
    } else {
        slice_of(t, 0, t.len())
    };
    assert(c@ =~= strip_qualifier(t@));
    let q = if t.len() > 0 && t[0] == '-' {
        SpfQualifier::Fail
    } else if t.len() > 0 && t[0] == '~' {
        SpfQualifier::SoftFail
    } else if t.len() > 0 && t[0] == '?' {
        SpfQualifier::Neutral
    } else {
        SpfQualifier::Pass
    };
    if starts_with_chars(&c, &chars_of("ip4:")) {
        Some((q, SpfDirective::Ip4(string_from(&slice_of(&c, 4, c.len())))))
    } else if starts_with_chars(&c, &chars_of("ip6:")) {
        Some((q, SpfDirective::Ip6(string_from(&slice_of(&c, 4, c.len())))))
    } else if starts_with_chars(&c, &chars_of("include:")) {
        Some((q, SpfDirective::Include(string_from(&slice_of(&c, 8, c.len())))))
    } else if starts_with_chars(&c, &chars_of("redirect=")) {
        Some((q, SpfDirective::Redirect(string_from(&slice_of(&c, 9, c.len())))))
    } else {
        None
    }
}

pub open spec fn qualified_views(d: Seq<(SpfQualifier, SpfDirective)>) -> Seq<(SpfQualifier, SpfDirectiveView)> {
    d.map_values(|x: (SpfQualifier, SpfDirective)| (x.0, x.1@))
}

/// Parses a TXT record to extract the SPF directives it holds, each with its
/// qualifier.
pub fn parse_spf_record_qualified(txt_str: &str) -> (r: Vec<(SpfQualifier, SpfDirective)>)
    ensures
        qualified_views(r@) == spec_parse_spf_qualified(txt_str@),
{
    let mut out: Vec<(SpfQualifier, SpfDirective)> = Vec::new();
    if !str_starts_with(txt_str, "v=spf1") {
        assert(qualified_views(out@) =~= Seq::<(SpfQualifier, SpfDirectiveView)>::empty());
        return out;
    }
    let terms = split_whitespace(&chars_of(txt_str));
    let ghost ws = words(txt_str@);
    let mut i: usize = 0;
    assert(qualified_views(out@) =~= qualified_of(ws.take(0)));
    while i < terms.len()
        invariant
            i <= terms.len(),
            terms@.map_values(|w: Vec<char>| w@) == ws,
            qualified_views(out@) == qualified_of(ws.take(i as int)),
        decreases terms.len() - i,
    {
        let ghost old_out = out@;
        let d = term_to_directive(&terms[i]);
        proof {
            assert(ws[i as int] == terms@[i as int]@);
            assert(ws.take(i + 1).drop_last() =~= ws.take(i as int));
            assert(ws.take(i + 1).last() == ws[i as int]);
        }
        match d {
            Some(x) => {
                let ghost xv = (x.0, x.1@);
                out.push(x);
                assert(qualified_views(out@) =~= qualified_views(old_out).push(xv));
            },
            None => {},
        }
        i = i + 1;
    }
    assert(ws.take(terms.len() as int) =~= ws);
    out
}

pub open spec fn directive_views(d: Seq<SpfDirective>) -> Seq<SpfDirectiveView> {
    d.map_values(|x: SpfDirective| x@)
}

/// Parses a TXT record to extract the SPF directives it holds.
pub fn parse_spf_record(txt_str: &str) -> (r: Vec<SpfDirective>)
    ensures
        directive_views(r@) == spec_parse_spf(txt_str@),
{
    let mut out: Vec<SpfDirective> = Vec::new();
    if !str_starts_with(txt_str, "v=spf1") {
        assert(directive_views(out@) =~= Seq::<SpfDirectiveView>::empty());
        return out;
    }
    let terms = split_whitespace(&chars_of(txt_str));
    let ghost ws = words(txt_str@);
    let mut i: usize = 0;
    assert(directive_views(out@) =~= directives_of(ws.take(0)));
    while i < terms.len()
        invariant
            i <= terms.len(),
            terms@.map_values(|w: Vec<char>| w@) == ws,
            directive_views(out@) == directives_of(ws.take(i as int)),
        decreases terms.len() - i,
    {
        let ghost old_out = out@;
        let d = term_to_directive(&terms[i]);
        proof {
            assert(ws[i as int] == terms@[i as int]@);
            assert(ws.take(i + 1).drop_last() =~= ws.take(i as int));
            assert(ws.take(i + 1).last() == ws[i as int]);
        }
        match d {
            Some((_, x)) => {
                out.push(x);
                assert(directive_views(out@) =~= directive_views(old_out).push(x@));
            },
            None => {},
        }
        i = i + 1;
    }
    assert(ws.take(terms.len() as int) =~= ws);
    out
}

// ------------------------------------------------------------------
// Addresses
// ------------------------------------------------------------------

/// An IP address as a number: 32 bits for IPv4, 128 bits for IPv6.
#[derive(Debug, Clone, Copy, PartialEq, Eq, Structural)]
pub enum IpAddress {
    V4(u32),
    V6(u128),
}

/// The address text of a CIDR block: what precedes the first `/`.
pub open spec fn cidr_address_text(cidr: Seq<char>) -> Seq<char> {
    match split_once(cidr, seq!['/']) {
        Some((a, _)) => a,
        None => cidr,
    }
}

/// The prefix text of a CIDR block: what lies between the first `/` and the next.
pub open spec fn cidr_prefix_text(cidr: Seq<char>) -> Option<Seq<char>> {
    match split_once(cidr, seq!['/']) {
        Some((_, rest)) => match split_once(rest, seq!['/']) {
            Some((p, _)) => Some(p),
            None => Some(rest),
        },
        None => None,
    }
}

/// The text of the address part of a CIDR block, for the caller to parse.
pub fn cidr_address_part(cidr: &str) -> (r: String)
    ensures
        r@ == cidr_address_text(cidr@),
{
    match split_once_char(&chars_of(cidr), '/') {
        Some((a, _)) => string_from(&a),
        None => cidr.to_owned(),
    }
}

/// The prefix length of a CIDR block: its prefix when that parses as a number, and the
/// full width of the client's address otherwise.
pub open spec fn cidr_prefix(ip: IpAddress, cidr: Seq<char>) -> nat {
    let full: nat = match ip {
        IpAddress::V4(_) => 32,
        IpAddress::V6(_) => 128,
    };
    match cidr_prefix_text(cidr) {
        Some(t) => match parse_unsigned(t, u32::MAX as nat) {
            Some(n) => n,
            None => full,
        },
        None => full,
    }
}

/// Whether `ip` lies in the CIDR block `cidr`, whose address part parsed as `block`
/// (`None` when it is not an address): both of one family, and equal in their first
/// `prefix` bits (the prefix capped at the family's width).  Comparing the masked
/// values is comparing the values shifted right by the number of host bits.
pub open spec fn spec_match_cidr(ip: IpAddress, block: Option<IpAddress>, cidr: Seq<char>) -> bool {
    let p = cidr_prefix(ip, cidr);
    match block {
        None => false,
        Some(b) => match (ip, b) {
            (IpAddress::V4(a), IpAddress::V4(c)) => {
                let pc = if p < 32 { p } else { 32 };
                if pc == 0 {
                    true
                } else {
                    (a >> ((32 - pc) as u32)) == (c >> ((32 - pc) as u32))
                }
            },
            (IpAddress::V6(a), IpAddress::V6(c)) => {
                let pc = if p < 128 { p } else { 128 };
                if pc == 0 {
                    true
                } else {
                    (a >> ((128 - pc) as u32)) == (c >> ((128 - pc) as u32))
                }
            },
            _ => false,
        },
    }
}

/// An address lies in every block whose address is its own, whatever the prefix; an
/// address never lies in a block of the other family, nor in one whose address could
/// not be read; and a block written without a prefix holds exactly its own address.
pub proof fn lemma_cidr_match_basics(ip: IpAddress, b: IpAddress, cidr: Seq<char>)
    ensures
        spec_match_cidr(ip, Some(ip), cidr),
        !spec_match_cidr(ip, None, cidr),
        (ip is V4) != (b is V4) ==> !spec_match_cidr(ip, Some(b), cidr),
        crate::text::lacks(cidr, '/') ==> (spec_match_cidr(ip, Some(b), cidr) <==> ip == b),
{
    if crate::text::lacks(cidr, '/') {
        crate::text::lemma_lacks_no_split(cidr, '/');
        assert(cidr_prefix_text(cidr) is None);
        match (ip, b) {
            (IpAddress::V4(x), IpAddress::V4(y)) => {
                assert((x >> 0u32) == x && (y >> 0u32) == y) by (bit_vector);
            },
            (IpAddress::V6(x), IpAddress::V6(y)) => {
                assert((x >> 0u32) == x && (y >> 0u32) == y) by (bit_vector);
            },
            _ => {},
        }
    }
}

fn prefix_of(ip: IpAddress, cidr: &str) -> (p: u32)
    ensures
        p == cidr_prefix(ip, cidr@),
{
    let full: u32 = match ip {
        IpAddress::V4(_) => 32,
        IpAddress::V6(_) => 128,
    };
    match split_once_char(&chars_of(cidr), '/') {
        Some((_, rest)) => {
            let t = match split_once_char(&rest, '/') {
                Some((p, _)) => p,
                None => rest,
            };
            match parse_bounded(&t, u32::MAX as u64) {
                Some(n) => n as u32,
                None => full,
            }
        },
        None => full,
    }
}

/// Matches an address against a CIDR block string (e.g. `192.168.1.0/24` or
/// `2001:db8::/32`), given the block's address part as the caller parsed it.
pub fn match_ip_cidr(ip: IpAddress, block: Option<IpAddress>, cidr: &str) -> (b: bool)
    ensures
        b == spec_match_cidr(ip, block, cidr@),
{
    let p = prefix_of(ip, cidr);
    match block {
        None => false,
        Some(blk) => match (ip, blk) {
            (IpAddress::V4(a), IpAddress::V4(c)) => {
                let pc: u32 = if p < 32 { p } else { 32 };
                if pc == 0 {
                    true
                } else {
                    let k: u32 = 32 - pc;
                    (a >> k) == (c >> k)
                }
            },
            (IpAddress::V6(a), IpAddress::V6(c)) => {
                let pc: u32 = if p < 128 { p } else { 128 };
                if pc == 0 {
                    true
                } else {
                    let k: u32 = 128 - pc;
                    (a >> k) == (c >> k)
                }
            },
            _ => false,
        },
    }
}

// ------------------------------------------------------------------
// Walking SPF includes
// ------------------------------------------------------------------

/// How many domains an SPF check may look at.
pub const SPF_MAX_DOMAINS: u32 = 10;

/// An SPF check in progress: the domains still to look at (taken from the end), the
/// ones already looked at, and how many have been.  The walk ends when no domain is
/// left or when an eleventh would be looked at.
pub struct SpfCheck {
    pending: Vec<String>,
    checked: Vec<String>,
    depth: u32,
    done: bool,
}

/// A walk never looks at more than its limit of domains without ending.
pub open spec fn spf_wf(s: SpfCheckView) -> bool {
    s.done || s.depth <= SPF_MAX_DOMAINS
}

pub struct SpfCheckView {
    pub pending: Seq<Seq<char>>,
    pub checked: Seq<Seq<char>>,
    pub depth: nat,
    pub done: bool,
}

pub open spec fn str_views(v: Seq<String>) -> Seq<Seq<char>> {
    v.map_values(|s: String| s@)
}

impl View for SpfCheck {
    type V = SpfCheckView;

    closed spec fn view(&self) -> SpfCheckView {
        SpfCheckView {
            pending: str_views(self.pending@),
            checked: str_views(self.checked@),
            depth: self.depth as nat,
            done: self.done,
        }
    }
}

/// The next domain to look up, and the walk after taking it.
pub open spec fn spf_next(s: SpfCheckView) -> (SpfCheckView, Option<Seq<char>>)
    decreases s.pending.len(),
{
    if s.done || s.pending.len() == 0 {
        (s, None)
    } else {
        let d = s.pending.last();
        let rest = s.pending.drop_last();
        if s.checked.contains(d) {
            spf_next(SpfCheckView { pending: rest, ..s })
        } else if s.depth + 1 > SPF_MAX_DOMAINS {
            (SpfCheckView { pending: rest, checked: s.checked.push(d), depth: s.depth + 1, done: true }, None)
        } else {
            (SpfCheckView { pending: rest, checked: s.checked.push(d), depth: s.depth + 1, done: false }, Some(d))
        }
    }
}

/// Each domain the walk hands out is new, is recorded as looked at, and keeps the walk
/// within its limit of domains: the walk cannot loop and cannot look at more than ten
/// domains.
pub proof fn lemma_spf_next_fresh(s: SpfCheckView)
    requires
        spf_wf(s),
    ensures
        spf_wf(spf_next(s).0),
        spf_next(s).1 matches Some(d) ==> !s.checked.contains(d) && spf_next(s).0.checked == s.checked.push(d)
            && spf_next(s).0.depth == s.depth + 1 && spf_next(s).0.depth <= SPF_MAX_DOMAINS,
    decreases s.pending.len(),
{
    if s.done || s.pending.len() == 0 {
    } else {
        let d = s.pending.last();
        let rest = s.pending.drop_last();
        if s.checked.contains(d) {
            lemma_spf_next_fresh(SpfCheckView { pending: rest, ..s });
        }
    }
}

/// What one record decides of the client.
#[derive(Debug, Clone, Copy, PartialEq, Eq, Structural)]
pub enum SpfOutcome {
    /// A `+` (or unqualified) mechanism matched: the client is authorized.
    Authorized,
    /// A `-`, `~` or `?` mechanism matched first: the client is not authorized, and
    /// the check ends.
    Refused,
    /// No mechanism matched: the check goes on with the domains still to look at.
    Undecided,
}

/// Applies the directives of one record in order (RFC 7208: the first mechanism that
/// matches decides).  An `ip4`/`ip6` block that holds the client ends the record: with
/// a `+` qualifier (or none) the client is authorized, with any other it is refused.
/// An `include` with a `+` qualifier (or none) adds its domain to the domains to look
/// at; one with another qualifier is not followed, as it can never authorize.  A
/// `redirect` adds its domain.
pub open spec fn spf_apply(
    ip: IpAddress,
    ds: Seq<(SpfQualifier, SpfDirectiveView)>,
    blocks: Seq<Option<IpAddress>>,
    pending: Seq<Seq<char>>,
) -> (Seq<Seq<char>>, SpfOutcome)
    decreases ds.len(),
{
    if ds.len() == 0 {
        (pending, SpfOutcome::Undecided)
    } else {
        let q = ds[0].0;
        let verdict = if q == SpfQualifier::Pass {
            SpfOutcome::Authorized
        } else {
            SpfOutcome::Refused
        };
        match ds[0].1 {
            SpfDirectiveView::Ip4(c) => if ip is V4 && spec_match_cidr(ip, blocks[0], c) {
                (pending, verdict)
            } else {
                spf_apply(ip, ds.drop_first(), blocks.drop_first(), pending)
            },
            SpfDirectiveView::Ip6(c) => if ip is V6 && spec_match_cidr(ip, blocks[0], c) {
                (pending, verdict)
            } else {
                spf_apply(ip, ds.drop_first(), blocks.drop_first(), pending)
            },
            SpfDirectiveView::Include(d) => spf_apply(
                ip,
                ds.drop_first(),
                blocks.drop_first(),
                if q == SpfQualifier::Pass {
                    pending.push(d)
                } else {
                    pending
                },
            ),
            SpfDirectiveView::Redirect(d) => spf_apply(ip, ds.drop_first(), blocks.drop_first(), pending.push(d)),
        }
    }
}

/// Whether a mechanism of a record holds the client (only `ip4` and `ip6` blocks can).
pub open spec fn holds_client(ip: IpAddress, d: SpfDirectiveView, block: Option<IpAddress>) -> bool {
    match d {
        SpfDirectiveView::Ip4(c) => ip is V4 && spec_match_cidr(ip, block, c),
        SpfDirectiveView::Ip6(c) => ip is V6 && spec_match_cidr(ip, block, c),
        _ => false,
    }
}

/// The domain a `redirect=` names.
pub open spec fn redirect_target(d: SpfDirectiveView) -> Option<Seq<char>> {
    match d {
        SpfDirectiveView::Redirect(x) => Some(x),
        _ => None,
    }
}

/// Applying a record forgets none of the domains still to look at, and every
/// `redirect=D` it reaches (no earlier mechanism holding the client) adds `D` to them:
/// the walk then looks the redirect domain up.  When no mechanism of the record holds
/// the client, the record decides nothing.
pub proof fn lemma_spf_follows_redirects(
    ip: IpAddress,
    ds: Seq<(SpfQualifier, SpfDirectiveView)>,
    blocks: Seq<Option<IpAddress>>,
    pending: Seq<Seq<char>>,
)
    requires
        blocks.len() == ds.len(),
    ensures
        pending.len() <= spf_apply(ip, ds, blocks, pending).0.len(),
        spf_apply(ip, ds, blocks, pending).0.take(pending.len() as int) == pending,
        forall|k: int|
            0 <= k < ds.len() && (#[trigger] redirect_target(ds[k].1)) is Some && (forall|j: int|
                0 <= j < k ==> !holds_client(ip, ds[j].1, blocks[j])) ==> spf_apply(ip, ds, blocks, pending).0.contains(
                redirect_target(ds[k].1).unwrap(),
            ),
        (forall|j: int| 0 <= j < ds.len() ==> !holds_client(ip, ds[j].1, blocks[j])) ==> spf_apply(
            ip,
            ds,
            blocks,
            pending,
        ).1 == SpfOutcome::Undecided,
    decreases ds.len(),
{
    let r = spf_apply(ip, ds, blocks, pending);
    if ds.len() == 0 {
        assert(pending.take(pending.len() as int) =~= pending);
    } else {
        let q = ds[0].0;
        let tail = ds.drop_first();
        let btail = blocks.drop_first();
        let next = match ds[0].1 {
            SpfDirectiveView::Include(d) => if q == SpfQualifier::Pass {
                pending.push(d)
            } else {
                pending
            },
            SpfDirectiveView::Redirect(d) => pending.push(d),
            _ => pending,
        };
        if holds_client(ip, ds[0].1, blocks[0]) {
            assert(r.0 == pending);
            assert(pending.take(pending.len() as int) =~= pending);
        } else {
            lemma_spf_follows_redirects(ip, tail, btail, next);
            assert(r == spf_apply(ip, tail, btail, next));
            assert(next.take(pending.len() as int) =~= pending);
            assert(r.0.take(pending.len() as int) =~= next.take(pending.len() as int)) by {
                assert(r.0.take(next.len() as int) == next);
                assert forall|i: int| 0 <= i < pending.len() implies r.0[i] == next[i] by {
                    assert(r.0.take(next.len() as int)[i] == r.0[i]);
                }
            }
            assert forall|k: int|
                0 <= k < ds.len() && (#[trigger] redirect_target(ds[k].1)) is Some && (forall|j: int|
                    0 <= j < k ==> !holds_client(ip, ds[j].1, blocks[j])) implies r.0.contains(
                    redirect_target(ds[k].1).unwrap(),
                ) by {
                if k == 0 {
                    let d = redirect_target(ds[0].1).unwrap();
                    assert(next == pending.push(d));
                    assert(r.0.take(next.len() as int) == next);
                    assert(r.0.take(next.len() as int)[pending.len() as int] == r.0[pending.len() as int]);
                    assert(r.0[pending.len() as int] == d);
                } else {
                    assert(tail[k - 1] == ds[k]);
                    assert forall|j: int| 0 <= j < k - 1 implies !holds_client(ip, tail[j].1, btail[j]) by {
                        assert(tail[j] == ds[j + 1]);
                        assert(btail[j] == blocks[j + 1]);
                    }
                    assert(redirect_target(tail[k - 1].1) is Some);
                }
            }
            if forall|j: int| 0 <= j < ds.len() ==> !holds_client(ip, ds[j].1, blocks[j]) {
                assert forall|j: int| 0 <= j < tail.len() implies !holds_client(ip, tail[j].1, btail[j]) by {
                    assert(tail[j] == ds[j + 1]);
                    assert(btail[j] == blocks[j + 1]);
                }
            }
        }
    }
}

fn copy_string(s: &String) -> (r: String)
    ensures
        r@ == s@,
{
    string_from(&chars_of(s.as_str()))
}

fn contains_string(v: &Vec<String>, s: &String) -> (b: bool)
    ensures
        b == str_views(v@).contains(s@),
{
    let mut i: usize = 0;
    while i < v.len()
        invariant
            i <= v.len(),
            forall|j: int| 0 <= j < i ==> v@[j]@ != s@,
        decreases v.len() - i,
    {
        if crate::text::str_eq(v[i].as_str(), s.as_str()) {
            assert(str_views(v@)[i as int] == s@);
            return true;
        }
        i = i + 1;
    }
    proof {
        if str_views(v@).contains(s@) {
            let k = choose|k: int| 0 <= k < str_views(v@).len() && str_views(v@)[k] == s@;
            assert(v@[k]@ == s@);
        }
    }
    false
}

impl SpfCheck {
    /// A check of `domain`.
    pub fn new(domain: &str) -> (c: Self)
        ensures
            c@ == (SpfCheckView { pending: seq![domain@], checked: Seq::empty(), depth: 0, done: false }),
            spf_wf(c@),
    {
        let mut pending: Vec<String> = Vec::new();
        pending.push(domain.to_owned());
        let c = SpfCheck { pending, checked: Vec::new(), depth: 0, done: false };
        assert(c@.pending =~= seq![domain@]);
        assert(c@.checked =~= Seq::<Seq<char>>::empty());
        c
    }

    /// The next domain whose TXT records are to be looked up (the caller looks up the
    /// name with a trailing dot); `None` when the walk is over.
    pub fn next_domain(&mut self) -> (d: Option<String>)
        requires
            spf_wf(old(self)@),
        ensures
            (final(self)@, opt_view(d)) == spf_next(old(self)@),
            spf_wf(final(self)@),
        decreases old(self)@.pending.len(),
    {
        if self.done || self.pending.len() == 0 {
            return None;
        }
        let d = self.pending.pop().unwrap();
        proof {
            assert(str_views(self.pending@) =~= str_views(old(self).pending@).drop_last());
        }
        if contains_string(&self.checked, &d) {
            return self.next_domain();
        }
        let ghost old_checked = self.checked@;
        self.checked.push(copy_string(&d));
        assert(str_views(self.checked@) =~= str_views(old_checked).push(d@));
        self.depth = self.depth + 1;
        if self.depth > SPF_MAX_DOMAINS {
            self.done = true;
            return None;
        }
        Some(d)
    }

    /// Applies the directives of one TXT record of the domain last taken, each with its
    /// qualifier and its block's address as the caller parsed it (`None` for other
    /// directives or text that is not an address).
    pub fn on_directives(
        &mut self,
        ip: IpAddress,
        directives: Vec<(SpfQualifier, SpfDirective)>,
        blocks: Vec<Option<IpAddress>>,
    ) -> (outcome: SpfOutcome)
        requires
            directives@.len() == blocks@.len(),
        ensures
            (final(self)@.pending, outcome) == spf_apply(ip, qualified_views(directives@), blocks@, old(self)@.pending),
            final(self)@.checked == old(self)@.checked,
            final(self)@.depth == old(self)@.depth,
            final(self)@.done == old(self)@.done,
    {
        let ghost ds = qualified_views(directives@);
        let ghost target = spf_apply(ip, ds, blocks@, old(self)@.pending);
        let mut i: usize = 0;
        assert(ds.skip(0) =~= ds);
        assert(blocks@.skip(0) =~= blocks@);
        while i < directives.len()
            invariant
                i <= directives.len() == blocks.len(),
                ds == qualified_views(directives@),
                spf_apply(ip, ds.skip(i as int), blocks@.skip(i as int), str_views(self.pending@)) == target,
                target == spf_apply(ip, ds, blocks@, old(self)@.pending),
                self.checked == old(self).checked,
                self.depth == old(self).depth,
                self.done == old(self).done,
            decreases directives.len() - i,
        {
            proof {
                assert(ds.skip(i as int)[0] == (directives@[i as int].0, directives@[i as int].1@));
                assert(ds.skip(i as int).drop_first() =~= ds.skip(i + 1));
                assert(blocks@.skip(i as int).drop_first() =~= blocks@.skip(i + 1));
                assert(blocks@.skip(i as int)[0] == blocks@[i as int]);
            }
            let q = directives[i].0;
            let verdict = if q == SpfQualifier::Pass {
                SpfOutcome::Authorized
            } else {
                SpfOutcome::Refused
            };
            match &directives[i].1 {
                SpfDirective::Ip4(c) => {
                    if matches!(ip, IpAddress::V4(_)) && match_ip_cidr(ip, blocks[i], c.as_str()) {
                        return verdict;
                    }
                },
                SpfDirective::Ip6(c) => {
                    if matches!(ip, IpAddress::V6(_)) && match_ip_cidr(ip, blocks[i], c.as_str()) {
                        return verdict;
                    }
                },
                SpfDirective::Include(d) => {
                    if q == SpfQualifier::Pass {
                        let ghost before = self.pending@;
                        self.pending.push(copy_string(d));
                        assert(str_views(self.pending@) =~= str_views(before).push(d@));
                    }
                },
                SpfDirective::Redirect(d) => {
                    let ghost before = self.pending@;
                    self.pending.push(copy_string(d));
                    assert(str_views(self.pending@) =~= str_views(before).push(d@));
                },
            }
            i = i + 1;
        }
        assert(ds.skip(directives.len() as int) =~= Seq::<(SpfQualifier, SpfDirectiveView)>::empty());
        SpfOutcome::Undecided
    }
}

// ------------------------------------------------------------------
// Record status
// ------------------------------------------------------------------

/// What a check found of one kind of record.
pub struct RecordStatus {
    pub ok: bool,
    pub message: String,
    pub value: Option<String>,
}

pub struct DnsCheckResult {
    /// MX and SPF are both in place (DMARC is optional).
    pub is_ok: bool,
    pub mx_status: RecordStatus,
    pub spf_status: RecordStatus,
    pub dmarc_status: RecordStatus,
}

pub open spec fn status_is(r: RecordStatus, ok: bool, message: Seq<char>, value: Option<Seq<char>>) -> bool {
    r.ok == ok && r.message@ == message && opt_view(r.value) == value
}

fn status(ok: bool, message: String, value: Option<String>) -> (r: RecordStatus)
    ensures
        status_is(r, ok, message@, opt_view(value)),
{
    RecordStatus { ok, message, value }
}

/// The MX status for an MX lookup (`None` when it failed): the best exchanger (the
/// first of lowest preference), named without its trailing dot, when there is one.
pub open spec fn mx_status_holds(lookup: Option<Vec<MxRecord>>, r: RecordStatus) -> bool {
    match lookup {
        None => status_is(r, false, "DNS lookup failed or no MX records found."@, None),
        Some(recs) => if recs@.len() == 0 {
            status_is(r, false, "No MX records found. Email delivery will fail."@, None)
        } else {
            exists|i: int|
                0 <= i < recs@.len() && (forall|j: int|
                    0 <= j < recs@.len() ==> recs@[i].preference <= #[trigger] recs@[j].preference) && (forall|j: int|
                    0 <= j < i ==> recs@[i].preference < #[trigger] recs@[j].preference) && status_is(
                    r,
                    true,
                    "Found "@ + dec(recs@.len()) + " MX records"@,
                    Some(trim_end_dots(recs@[i].exchange@)),
                )
        },
    }
}

/// Whether mail can be delivered to a domain: when the MX lookup succeeds, whether it
/// found an MX record; when it fails, whether the domain has an address at all (some
/// servers deliver to the address record when there is no MX).
pub fn is_domain_deliverable(mx_lookup: &Option<Vec<MxRecord>>, ip_lookup_ok: bool) -> (b: bool)
    ensures
        b == match mx_lookup {
            Some(recs) => recs@.len() > 0,
            None => ip_lookup_ok,
        },
{
    match mx_lookup {
        Some(recs) => recs.len() > 0,
        None => ip_lookup_ok,
    }
}

/// The MX status from the MX lookup.
pub fn mx_status(lookup: &Option<Vec<MxRecord>>) -> (r: RecordStatus)
    ensures
        mx_status_holds(*lookup, r),
{
    match lookup {
        None => status(false, "DNS lookup failed or no MX records found.".to_owned(), None),
        Some(recs) => {
            match best_mx(recs.as_slice()) {
                None => status(false, "No MX records found. Email delivery will fail.".to_owned(), None),
                Some(i) => {
                    let mut m = "Found ".to_owned();
                    push_chars(&mut m, &dec_u64(recs.len() as u64));
                    push_str(&mut m, " MX records");
                    let r = status(true, m, Some(clean_host(recs[i].exchange.as_str())));
                    assert(status_is(
                        r,
                        true,
                        "Found "@ + dec(recs@.len()) + " MX records"@,
                        Some(trim_end_dots(recs@[i as int].exchange@)),
                    ));
                    r
                },
            }
        },
    }
}

/// The first text that starts with `prefix`.
pub open spec fn first_with_prefix(texts: Seq<Seq<char>>, prefix: Seq<char>) -> Option<Seq<char>>
    decreases texts.len(),
{
    if texts.len() == 0 {
        None
    } else if starts_with(texts[0], prefix) {
        Some(texts[0])
    } else {
        first_with_prefix(texts.drop_first(), prefix)
    }
}

/// The first text that contains `needle`.
pub open spec fn first_containing(texts: Seq<Seq<char>>, needle: Seq<char>) -> Option<Seq<char>>
    decreases texts.len(),
{
    if texts.len() == 0 {
        None
    } else if contains(texts[0], needle) {
        Some(texts[0])
    } else {
        first_containing(texts.drop_first(), needle)
    }
}

fn find_text(texts: &[String], pat: &str, as_prefix: bool) -> (r: Option<String>)
    ensures
        as_prefix ==> opt_view(r) == first_with_prefix(str_views(texts@), pat@),
        !as_prefix ==> opt_view(r) == first_containing(str_views(texts@), pat@),
{
    let mut i: usize = 0;
    assert(str_views(texts@).skip(0) =~= str_views(texts@));
    while i < texts.len()
        invariant
            i <= texts.len(),
            as_prefix ==> first_with_prefix(str_views(texts@).skip(i as int), pat@) == first_with_prefix(
                str_views(texts@),
                pat@,
            ),
            !as_prefix ==> first_containing(str_views(texts@).skip(i as int), pat@) == first_containing(
                str_views(texts@),
                pat@,
            ),
        decreases texts.len() - i,
    {
        let ghost rest = str_views(texts@).skip(i as int);
        assert(rest[0] == texts@[i as int]@);
        assert(rest.drop_first() =~= str_views(texts@).skip(i + 1));
        let hit = if as_prefix {
            str_starts_with(texts[i].as_str(), pat)
        } else {
            str_contains(texts[i].as_str(), pat)
        };
        if hit {
            return Some(copy_string(&texts[i]));
        }
        i = i + 1;
    }
    assert(str_views(texts@).skip(texts.len() as int) =~= Seq::<Seq<char>>::empty());
    None
}

/// The status of a TXT record kind: found when some text starts with `prefix`.
fn txt_status(texts: &[String], prefix: &str, found: &str, missing: &str) -> (r: RecordStatus)
    ensures
        match first_with_prefix(str_views(texts@), prefix@) {
            Some(t) => status_is(r, true, found@, Some(t)),
            None => status_is(r, false, missing@, None),
        },
{
    match find_text(texts, prefix, true) {
        Some(t) => status(true, found.to_owned(), Some(t)),
        None => status(false, missing.to_owned(), None),
    }
}

/// The result of checking a domain, from its MX lookup (`None` when it failed), the
/// texts of its TXT records and those of its `_dmarc` TXT records (each empty when the
/// lookup failed).
pub fn check_domain_records(mx: &Option<Vec<MxRecord>>, txt: &[String], dmarc_txt: &[String]) -> (r: DnsCheckResult)
    ensures
        mx_status_holds(*mx, r.mx_status),
        match first_with_prefix(str_views(txt@), "v=spf1"@) {
            Some(t) => status_is(r.spf_status, true, "SPF record found"@, Some(t)),
            None => status_is(r.spf_status, false, "No SPF record found."@, None),
        },
        match first_with_prefix(str_views(dmarc_txt@), "v=DMARC1"@) {
            Some(t) => status_is(r.dmarc_status, true, "DMARC record found"@, Some(t)),
            None => status_is(r.dmarc_status, false, "No DMARC record found."@, None),
        },
        r.is_ok == (r.mx_status.ok && r.spf_status.ok),
{
    let mx_s = mx_status(mx);
    let spf_s = txt_status(txt, "v=spf1", "SPF record found", "No SPF record found.");
    let dmarc_s = txt_status(dmarc_txt, "v=DMARC1", "DMARC record found", "No DMARC record found.");
    let is_ok = mx_s.ok && spf_s.ok;
    DnsCheckResult { is_ok, mx_status: mx_s, spf_status: spf_s, dmarc_status: dmarc_s }
}

/// The name of the `_dmarc` record of a domain.
pub fn dmarc_domain(domain: &str) -> (r: String)
    ensures
        r@ == "_dmarc."@ + domain@,
{
    let mut r = "_dmarc.".to_owned();
    push_str(&mut r, domain);
    r
}

/// The name of the DKIM key record of `selector` for `domain`.
pub fn dkim_domain(selector: &str, domain: &str) -> (r: String)
    ensures
        r@ == selector@ + "._domainkey."@ + domain@,
{
    let mut r = selector.to_owned();
    push_str(&mut r, "._domainkey.");
    push_str(&mut r, domain);
    r
}

/// The status of a domain's DKIM record, from the TXT lookup of its key record (its
/// texts, or the lookup's error message): found when a text contains the expected
/// public key.
pub fn dkim_record_status(lookup: &Result<Vec<String>, String>, expected_pub_key: &str) -> (r: RecordStatus)
    ensures
        match lookup {
            Err(e) => status_is(r, false, "DKIM DNS TXT lookup failed: "@ + e@, None),
            Ok(texts) => match first_containing(str_views(texts@), expected_pub_key@) {
                Some(t) => status_is(r, true, "DKIM TXT record found and matches!"@, Some(t)),
                None => status_is(
                    r,
                    false,
                    "DKIM record found but does not contain the expected public key."@,
                    None,
                ),
            },
        },
{
    match lookup {
        Err(e) => {
            let mut m = "DKIM DNS TXT lookup failed: ".to_owned();
            push_str(&mut m, e.as_str());
            status(false, m, None)
        },
        Ok(texts) => match find_text(texts.as_slice(), expected_pub_key, false) {
            Some(t) => status(true, "DKIM TXT record found and matches!".to_owned(), Some(t)),
            None => status(
                false,
                "DKIM record found but does not contain the expected public key.".to_owned(),
                None,
            ),
        },
    }
}

} // verus!
