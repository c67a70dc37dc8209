//! Blocked client addresses: single addresses and IPv4 subnets, read from `deny`
//! lines (`deny 1.2.3.4;`, `deny 5.6.7.0/24;`) and added to when a client misbehaves.
//!
//! The list file is read and appended to by the program, which also parses address
//! text (`std::net`); the library decides what a line means and whether an address is
//! blocked.
use vstd::prelude::*;
use crate::dns::IpAddress;
use crate::text::{
    chars_of, has_char, parse_bounded, parse_unsigned, push_str, slice_of, split_once,
    split_once_char, starts_with, str_starts_with, string_from, trim, trim_chars,
};

verus! {

/// An IPv4 network and its prefix length.
#[derive(Debug, Clone, Copy, PartialEq, Eq, Structural)]
pub struct Ipv4Subnet {
    pub network: u32,
    pub prefix: u8,
}

impl Ipv4Subnet {
    /// Whether `ip` lies in the subnet: equal in the first `prefix` bits (all
    /// addresses for prefix 0, the network alone from 32 on).  Masking both with the
    /// prefix mask compares the same bits as shifting out the host bits.
    pub open spec fn holds(self, ip: u32) -> bool {
        if self.prefix == 0 {
            true
        } else if self.prefix >= 32 {
            ip == self.network
        } else {
            (ip >> ((32 - self.prefix) as u32)) == (self.network >> ((32 - self.prefix) as u32))
        }
    }

    pub fn contains(&self, ip: u32) -> (b: bool)
        ensures
            b == self.holds(ip),
    {
        if self.prefix == 0 {
            true
        } else if self.prefix >= 32 {
            ip == self.network
        } else {
            let k: u32 = (32 - self.prefix) as u32;
            (ip >> k) == (self.network >> k)
        }
    }
}

/// What a line of the list file asks to block.
pub enum DenyRule {
    /// `deny <address>/<prefix>;`: the address text and the prefix text.
    Subnet(String, String),
    /// `deny <address>;`: the address text.
    Address(String),
}

/// `s` without its trailing `;` characters.
pub open spec fn trim_end_semicolons(s: Seq<char>) -> Seq<char>
    decreases s.len(),
{
    if s.len() > 0 && s.last() == ';' {
        trim_end_semicolons(s.drop_last())
    } else {
        s
    }
}

/// The target of a `deny` line: the trimmed line after `deny `, without trailing
/// semicolons, trimmed again.
pub open spec fn deny_target(line: Seq<char>) -> Option<Seq<char>> {
    let t = trim(line);
    if starts_with(t, "deny "@) {
        Some(trim(trim_end_semicolons(t.skip(5))))
    } else {
        None
    }
}

/// Reads one line of the list file: lines that do not start with `deny ` (after
/// trimming) mean nothing; a target with a `/` is a subnet, split at its first `/`.
pub fn parse_deny_line(line: &str) -> (r: Option<DenyRule>)
    ensures
        match deny_target(line@) {
            None => r is None,
            Some(c) => match split_once(c, seq!['/']) {
                Some((a, p)) => r matches Some(DenyRule::Subnet(x, y)) && x@ == a && y@ == p,
                None => r matches Some(DenyRule::Address(x)) && x@ == c,
            },
        },
{
    proof {
        reveal_strlit("deny ");
    }
    let t = trim_chars(&chars_of(line));
    if !crate::text::starts_with_chars(&t, &chars_of("deny ")) {
        return None;
    }
    let rest = slice_of(&t, 5, t.len());
    assert(rest@ =~= t@.skip(5));
    let mut b: usize = rest.len();
    assert(rest@.subrange(0, b as int) =~= rest@);
    while b > 0 && rest[b - 1] == ';'
        invariant
            b <= rest.len(),
            trim_end_semicolons(rest@.subrange(0, b as int)) == trim_end_semicolons(rest@),
        decreases b,
    {
        assert(rest@.subrange(0, b - 1) =~= rest@.subrange(0, b as int).drop_last());
        b = b - 1;
    }
    let clean = trim_chars(&slice_of(&rest, 0, b));
    match split_once_char(&clean, '/') {
        Some((a, p)) => Some(DenyRule::Subnet(string_from(&a), string_from(&p))),
        None => Some(DenyRule::Address(string_from(&clean))),
    }
}

/// A subnet prefix text (`str::parse::<u8>`).
pub fn parse_prefix(text: &str) -> (r: Option<u8>)
    ensures
        match r {
            Some(p) => parse_unsigned(text@, 255) == Some(p as nat),
            None => parse_unsigned(text@, 255) is None,
        },
{
    match parse_bounded(&chars_of(text), 255) {
        Some(n) => Some(n as u8),
        None => None,
    }
}

/// The line that records a blocked address in the list file.
pub fn deny_line(address_text: &str) -> (r: String)
    ensures
        r@ == "deny "@ + address_text@ + ";"@,
{
    let mut r = "deny ".to_owned();
    push_str(&mut r, address_text);
    push_str(&mut r, ";");
    r
}

/// The blocked addresses and subnets.  Each address is listed once.
pub struct Blocklist {
    ips: Vec<IpAddress>,
    subnets: Vec<Ipv4Subnet>,
}

pub struct BlocklistView {
    pub ips: Seq<IpAddress>,
    pub subnets: Seq<Ipv4Subnet>,
}

impl View for Blocklist {
    type V = BlocklistView;

    closed spec fn view(&self) -> BlocklistView {
        BlocklistView { ips: self.ips@, subnets: self.subnets@ }
    }
}

/// Whether a list blocks `ip`: it is listed, or it is an IPv4 address in a listed subnet.
pub open spec fn blocks(b: BlocklistView, ip: IpAddress) -> bool {
    b.ips.contains(ip) || match ip {
        IpAddress::V4(a) => exists|i: int| 0 <= i < b.subnets.len() && #[trigger] b.subnets[i].holds(a),
        IpAddress::V6(_) => false,
    }
}

impl Blocklist {
    /// An empty list.
    pub fn new() -> (b: Self)
        ensures
            b@.ips == Seq::<IpAddress>::empty(),
            b@.subnets == Seq::<Ipv4Subnet>::empty(),
    {
        Blocklist { ips: Vec::new(), subnets: Vec::new() }
    }

    pub fn add_subnet(&mut self, s: Ipv4Subnet)
        ensures
            final(self)@.ips == old(self)@.ips,
            final(self)@.subnets == old(self)@.subnets.push(s),
    {
        self.subnets.push(s);
    }

    /// Whether `ip` is blocked.
    pub fn is_blocked(&self, ip: IpAddress) -> (r: bool)
        ensures
            r == blocks(self@, ip),
    {
        let mut i: usize = 0;
        while i < self.ips.len()
            invariant
                i <= self.ips.len(),
                forall|j: int| 0 <= j < i ==> self.ips@[j] != ip,
            decreases self.ips.len() - i,
        {
            if self.ips[i] == ip {
                assert(self@.ips[i as int] == ip);
                return true;
            }
            i = i + 1;
        }
        match ip {
            IpAddress::V4(a) => {
                let mut k: usize = 0;
                while k < self.subnets.len()
                    invariant
                        k <= self.subnets.len(),
                        ip == IpAddress::V4(a),
                        forall|j: int| 0 <= j < self.ips@.len() ==> self.ips@[j] != ip,
                        forall|j: int| 0 <= j < k ==> !self.subnets@[j].holds(a),
                    decreases self.subnets.len() - k,
                {
                    if self.subnets[k].contains(a) {
                        proof {
                            let b = self@;
                            assert(b.subnets[k as int].holds(a));
                            assert(exists|i: int| 0 <= i < b.subnets.len() && #[trigger] b.subnets[i].holds(a));
                            assert(ip is V4);
                            assert(ip->V4_0 == a);
                            assert(blocks(b, ip));
                        }
                        return true;
                    }
                    k = k + 1;
                }
                false
            },
            IpAddress::V6(_) => false,
        }
    }

    /// Adds `ip`; `true` when it was not listed before (and the caller appends its
    /// `deny` line to the list file).
    pub fn add_ip(&mut self, ip: IpAddress) -> (is_new: bool)
        ensures
            is_new == !old(self)@.ips.contains(ip),
            is_new ==> final(self)@.ips == old(self)@.ips.push(ip),
            !is_new ==> final(self)@.ips == old(self)@.ips,
            final(self)@.subnets == old(self)@.subnets,
    {
        let mut i: usize = 0;
        while i < self.ips.len()
            invariant
                i <= self.ips.len(),
                forall|j: int| 0 <= j < i ==> self.ips@[j] != ip,
            decreases self.ips.len() - i,
        {
            if self.ips[i] == ip {
                assert(self@.ips[i as int] == ip);
                return false;
            }
            i = i + 1;
        }
        self.ips.push(ip);
        true
    }
}

/// After adding an address, it is blocked; and adding one keeps every address that
/// was blocked blocked.
pub proof fn lemma_add_blocks(before: BlocklistView, after: BlocklistView, ip: IpAddress, other: IpAddress)
    requires
        after.subnets == before.subnets,
        after.ips == before.ips.push(ip) || (after.ips == before.ips && before.ips.contains(ip)),
    ensures
        blocks(after, ip),
        blocks(before, other) ==> blocks(after, other),
{
    if after.ips == before.ips.push(ip) {
        assert(after.ips[before.ips.len() as int] == ip);
        if before.ips.contains(other) {
            let k = choose|k: int| 0 <= k < before.ips.len() && before.ips[k] == other;
            assert(after.ips[k] == other);
        }
    }
}

} // verus!
