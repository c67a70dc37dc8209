//! Character-level text utilities shared by the mail, SMTP and web modules.
//!
//! Text is handled as sequences of `char`: a `&str` is read into a `Vec<char>`,
//! processed, and turned back into a `String`.  Every helper states its result
//! over `Seq<char>` so that callers can write exact contracts.
use vstd::prelude::*;

verus! {

// ------------------------------------------------------------------
// Specifications
// ------------------------------------------------------------------

/// The Unicode `White_Space` property, which `char::is_whitespace`,
/// `str::trim` and `str::split_whitespace` use.
pub open spec fn is_ws(c: char) -> bool {
    let u = c as u32;
    ||| 0x09 <= u <= 0x0d
    ||| u == 0x20
    ||| u == 0x85
    ||| u == 0xa0
    ||| u == 0x1680
    ||| 0x2000 <= u <= 0x200a
    ||| u == 0x2028
    ||| u == 0x2029
    ||| u == 0x202f
    ||| u == 0x205f
    ||| u == 0x3000
}

pub open spec fn trim_start(s: Seq<char>) -> Seq<char>
    decreases s.len(),
{
    if s.len() > 0 && is_ws(s[0]) {
        trim_start(s.drop_first())
    } else {
        s
    }
}

pub open spec fn trim_end(s: Seq<char>) -> Seq<char>
    decreases s.len(),
{
    if s.len() > 0 && is_ws(s.last()) {
        trim_end(s.drop_last())
    } else {
        s
    }
}

/// What `str::trim` returns.
pub open spec fn trim(s: Seq<char>) -> Seq<char> {
    trim_end(trim_start(s))
}

pub open spec fn starts_with(s: Seq<char>, p: Seq<char>) -> bool {
    p.len() <= s.len() && s.subrange(0, p.len() as int) == p
}

pub open spec fn ends_with(s: Seq<char>, p: Seq<char>) -> bool {
    p.len() <= s.len() && s.subrange(s.len() - p.len(), s.len() as int) == p
}

/// `p` occurs in `s` at position `i`.
pub open spec fn match_at(s: Seq<char>, p: Seq<char>, i: int) -> bool {
    0 <= i && i + p.len() <= s.len() && s.subrange(i, i + p.len()) == p
}

/// The first position at or after `from` where `p` occurs in `s`.
pub open spec fn find_from(s: Seq<char>, p: Seq<char>, from: int) -> Option<int>
    decreases s.len() + 1 - from,
{
    if from < 0 || from + p.len() > s.len() {
        None
    } else if match_at(s, p, from) {
        Some(from)
    } else {
        find_from(s, p, from + 1)
    }
}

/// The first position where `p` occurs in `s` (what `str::find` returns, counted in chars).
pub open spec fn find(s: Seq<char>, p: Seq<char>) -> Option<int> {
    find_from(s, p, 0)
}

pub open spec fn contains(s: Seq<char>, p: Seq<char>) -> bool {
    find(s, p) is Some
}

/// What `str::split_once` returns.
pub open spec fn split_once(s: Seq<char>, p: Seq<char>) -> Option<(Seq<char>, Seq<char>)> {
    match find(s, p) {
        Some(i) => Some((s.take(i), s.skip(i + p.len()))),
        None => None,
    }
}

/// ASCII lowercasing of one char (`char::to_ascii_lowercase`).
pub open spec fn ascii_lower(c: char) -> char {
    if 'A' <= c <= 'Z' {
        ((c as u32) + 32) as char
    } else {
        c
    }
}

pub open spec fn ascii_lower_seq(s: Seq<char>) -> Seq<char> {
    s.map_values(|c: char| ascii_lower(c))
}

pub open spec fn digit_char(d: nat) -> char {
    if d == 0 { '0' } else if d == 1 { '1' } else if d == 2 { '2' } else if d == 3 { '3' }
    else if d == 4 { '4' } else if d == 5 { '5' } else if d == 6 { '6' } else if d == 7 { '7' }
    else if d == 8 { '8' } else { '9' }
}

pub open spec fn is_digit(c: char) -> bool {
    '0' <= c <= '9'
}

pub open spec fn digit_value(c: char) -> nat {
    ((c as u32) - ('0' as u32)) as nat
}

/// Decimal rendering of a natural number, as `format!("{}", n)` writes it.
pub open spec fn dec(n: nat) -> Seq<char>
    decreases n,
{
    if n < 10 {
        seq![digit_char(n)]
    } else {
        dec(n / 10).push(digit_char(n % 10))
    }
}

/// Decimal rendering of an integer, with a leading `-` when negative.
pub open spec fn dec_int(n: int) -> Seq<char> {
    if n < 0 {
        seq!['-'] + dec((-n) as nat)
    } else {
        dec(n as nat)
    }
}

/// The value of a nonempty run of decimal digits.
pub open spec fn digits_value(s: Seq<char>) -> nat
    decreases s.len(),
{
    if s.len() == 0 {
        0
    } else {
        digits_value(s.drop_last()) * 10 + digit_value(s.last())
    }
}

pub open spec fn all_digits(s: Seq<char>) -> bool {
    forall|i: int| 0 <= i < s.len() ==> is_digit(#[trigger] s[i])
}

/// What `str::parse::<T>()` gives for an unsigned integer type whose largest value is `max`:
/// an optional `+`, then one or more decimal digits, and a value that fits.
pub open spec fn parse_unsigned(s: Seq<char>, max: nat) -> Option<nat> {
    let body = if s.len() > 0 && s[0] == '+' { s.drop_first() } else { s };
    if body.len() > 0 && all_digits(body) && digits_value(body) <= max {
        Some(digits_value(body))
    } else {
        None
    }
}

// ------------------------------------------------------------------
// Lemmas
// ------------------------------------------------------------------

pub proof fn lemma_find_from_bounds(s: Seq<char>, p: Seq<char>, from: int)
    requires
        from >= 0,
    ensures
        find_from(s, p, from) matches Some(i) ==> from <= i && match_at(s, p, i) && (forall|j: int|
            from <= j < i ==> !match_at(s, p, j)),
        find_from(s, p, from) is None ==> forall|j: int| from <= j ==> !match_at(s, p, j),
    decreases s.len() + 1 - from,
{
    if from + p.len() > s.len() {
    } else if match_at(s, p, from) {
    } else {
        lemma_find_from_bounds(s, p, from + 1);
    }
}

pub proof fn lemma_find_bounds(s: Seq<char>, p: Seq<char>)
    ensures
        find(s, p) matches Some(i) ==> 0 <= i && i + p.len() <= s.len() && s.subrange(i, i + p.len())
            == p && (forall|j: int| 0 <= j < i ==> !match_at(s, p, j)),
        find(s, p) is None ==> forall|j: int| 0 <= j ==> !match_at(s, p, j),
{
    lemma_find_from_bounds(s, p, 0);
}

/// A position where `p` occurs and before which it does not is what `find` returns.
pub proof fn lemma_find_unique(s: Seq<char>, p: Seq<char>, i: int)
    requires
        match_at(s, p, i),
        forall|j: int| 0 <= j < i ==> !match_at(s, p, j),
    ensures
        find(s, p) == Some(i),
{
    lemma_find_bounds(s, p);
    match find(s, p) {
        Some(k) => {
            assert(match_at(s, p, k));
            if k < i {
                assert(!match_at(s, p, k));
            } else if k > i {
                assert(!match_at(s, p, i));
            }
        },
        None => {
            assert(!match_at(s, p, i));
        },
    }
}

pub proof fn lemma_digit_char(d: nat)
    requires
        d < 10,
    ensures
        is_digit(digit_char(d)),
        digit_value(digit_char(d)) == d,
{
}

/// `c` does not occur in `s`.
pub open spec fn lacks(s: Seq<char>, c: char) -> bool {
    forall|i: int| 0 <= i < s.len() ==> s[i] != c
}

/// Splitting `a + c + b` at the first `c` gives `a` and `b` when `a` holds no `c`.
pub proof fn lemma_split_once_at(a: Seq<char>, b: Seq<char>, c: char)
    requires
        lacks(a, c),
    ensures
        split_once(a + seq![c] + b, seq![c]) == Some((a, b)),
{
    let s = a + seq![c] + b;
    assert(s.subrange(a.len() as int, a.len() + 1 as int) =~= seq![c]);
    assert forall|j: int| 0 <= j < a.len() implies !match_at(s, seq![c], j) by {
        assert(s.subrange(j, j + 1)[0] == a[j]);
    }
    lemma_find_unique(s, seq![c], a.len() as int);
    assert(s.take(a.len() as int) =~= a);
    assert(s.skip(a.len() + 1 as int) =~= b);
}

/// Text that holds `p` somewhere contains it.
pub proof fn lemma_contains_infix(a: Seq<char>, p: Seq<char>, b: Seq<char>)
    ensures
        contains(a + p + b, p),
{
    let s = a + p + b;
    assert(s.subrange(a.len() as int, (a.len() + p.len()) as int) =~= p);
    assert(match_at(s, p, a.len() as int));
    lemma_find_bounds(s, p);
}

/// A string without `c` does not split at `c`.
pub proof fn lemma_lacks_no_split(s: Seq<char>, c: char)
    requires
        lacks(s, c),
    ensures
        split_once(s, seq![c]) is None,
{
    lemma_find_bounds(s, seq![c]);
    if find(s, seq![c]) is Some {
        let i = find(s, seq![c]).unwrap();
        assert(s.subrange(i, i + 1)[0] == s[i]);
    }
}

/// A string splits at its first `c` into a part without `c` and the rest.
pub proof fn lemma_split_once_parts(s: Seq<char>, c: char)
    requires
        split_once(s, seq![c]) is Some,
    ensures
        ({
            let (a, b) = split_once(s, seq![c]).unwrap();
            lacks(a, c) && s == a + seq![c] + b
        }),
{
    lemma_find_bounds(s, seq![c]);
    let i = find(s, seq![c]).unwrap();
    let (a, b) = split_once(s, seq![c]).unwrap();
    assert forall|j: int| 0 <= j < a.len() implies a[j] != c by {
        assert(!match_at(s, seq![c], j));
        if a[j] == c {
            assert(s.subrange(j, j + 1) =~= seq![c]);
        }
    }
    assert(s.subrange(i, i + 1)[0] == c);
    assert(s =~= a + seq![c] + b);
}

pub proof fn lemma_dec_digits(n: nat)
    ensures
        dec(n).len() >= 1,
        all_digits(dec(n)),
        digits_value(dec(n)) == n,
        dec(n)[0] != '-',
        dec(n)[0] != '+',
    decreases n,
{
    lemma_digit_char(n % 10);
    if n < 10 {
        assert(dec(n) == seq![digit_char(n)]);
        assert(dec(n).drop_last() =~= Seq::<char>::empty());
        assert(digits_value(Seq::<char>::empty()) == 0);
        assert(digits_value(dec(n)) == digits_value(dec(n).drop_last()) * 10 + digit_value(dec(n).last()));
    } else {
        lemma_dec_digits(n / 10);
        let d = dec(n / 10);
        assert(dec(n) == d.push(digit_char(n % 10)));
        assert(dec(n).drop_last() =~= d);
        assert(digits_value(dec(n)) == digits_value(d) * 10 + digit_value(digit_char(n % 10)));
        assert forall|i: int| 0 <= i < dec(n).len() implies is_digit(#[trigger] dec(n)[i]) by {
            if i < d.len() {
                assert(dec(n)[i] == d[i]);
            }
        }
    }
}

/// Parsing the decimal rendering of a number gives the number back.
pub proof fn lemma_parse_dec(n: nat, max: nat)
    requires
        n <= max,
    ensures
        parse_unsigned(dec(n), max) == Some(n),
{
    lemma_dec_digits(n);
}

// ------------------------------------------------------------------
// Executable helpers
// ------------------------------------------------------------------

/// Copies the characters of a string slice into a vector.
pub fn chars_of(s: &str) -> (v: Vec<char>)
    ensures
        v@ == s@,
{
    let mut v: Vec<char> = Vec::new();
    for c in it: s.chars()
        invariant
            v@ == it.seq().take(it.index()),
    {
        v.push(c);
    }
    v
}

/// `String::push` (appends one char).
#[verifier::external_body]
fn string_push(s: &mut String, c: char)
    ensures
        final(s)@ == old(s)@.push(c),
{
    s.push(c);
}

/// Builds a `String` holding exactly the given characters.
pub fn string_from(v: &[char]) -> (s: String)
    ensures
        s@ == v@,
{
    let mut s = String::new();
    let mut i: usize = 0;
    while i < v.len()
        invariant
            i <= v.len(),
            s@ == v@.subrange(0, i as int),
        decreases v.len() - i,
    {
        string_push(&mut s, v[i]);
        i = i + 1;
        assert(s@ =~= v@.subrange(0, i as int));
    }
    assert(v@.subrange(0, v.len() as int) =~= v@);
    s
}

/// Appends characters to a `String`.
pub fn push_chars(s: &mut String, v: &[char])
    ensures
        final(s)@ == old(s)@ + v@,
{
    let mut i: usize = 0;
    while i < v.len()
        invariant
            i <= v.len(),
            s@ == old(s)@ + v@.subrange(0, i as int),
        decreases v.len() - i,
    {
        string_push(s, v[i]);
        i = i + 1;
        assert(s@ =~= old(s)@ + v@.subrange(0, i as int));
    }
    assert(v@.subrange(0, v.len() as int) =~= v@);
}

/// Appends a string slice to a `String`.
pub fn push_str(s: &mut String, t: &str)
    ensures
        final(s)@ == old(s)@ + t@,
{
    s.append(t);
}

/// Copies `v[a..b]` into a new vector.
pub fn slice_of(v: &[char], a: usize, b: usize) -> (r: Vec<char>)
    requires
        a <= b <= v.len(),
    ensures
        r@ == v@.subrange(a as int, b as int),
{
    let mut r: Vec<char> = Vec::new();
    let mut i: usize = a;
    while i < b
        invariant
            a <= i <= b <= v.len(),
            r@ == v@.subrange(a as int, i as int),
        decreases b - i,
    {
        r.push(v[i]);
        i = i + 1;
        assert(r@ =~= v@.subrange(a as int, i as int));
    }
    r
}

/// Copies `v[a..b]` of a byte slice into a new vector.
pub fn bytes_slice(v: &[u8], a: usize, b: usize) -> (r: Vec<u8>)
    requires
        a <= b <= v@.len(),
    ensures
        r@ == v@.subrange(a as int, b as int),
{
    let mut r: Vec<u8> = Vec::new();
    let mut i: usize = a;
    while i < b
        invariant
            a <= i <= b <= v@.len(),
            r@ == v@.subrange(a as int, i as int),
        decreases b - i,
    {
        r.push(v[i]);
        i = i + 1;
        assert(r@ =~= v@.subrange(a as int, i as int));
    }
    r
}

/// Copies the whole slice into a new vector.
pub fn to_vec(v: &[char]) -> (r: Vec<char>)
    ensures
        r@ == v@,
{
    let r = slice_of(v, 0, v.len());
    assert(v@.subrange(0, v.len() as int) =~= v@);
    r
}

// ------------------------------------------------------------------
// Unicode case mapping (std)
// ------------------------------------------------------------------

/// The Unicode uppercase form of a string (`str::to_uppercase`).
pub uninterp spec fn spec_to_uppercase(s: Seq<char>) -> Seq<char>;

/// The Unicode lowercase form of a string (`str::to_lowercase`).
pub uninterp spec fn spec_to_lowercase(s: Seq<char>) -> Seq<char>;

/// `str::to_uppercase`: the result depends on the text alone.
#[verifier::external_body]
pub(crate) fn to_uppercase(s: &str) -> (r: String)
    ensures
        r@ == spec_to_uppercase(s@),
{
    s.to_uppercase()
}

/// `str::to_lowercase`: the result depends on the text alone.
#[verifier::external_body]
pub(crate) fn to_lowercase(s: &str) -> (r: String)
    ensures
        r@ == spec_to_lowercase(s@),
{
    s.to_lowercase()
}

pub fn is_whitespace(c: char) -> (b: bool)
    ensures
        b == is_ws(c),
{
    let u = c as u32;
    (0x09 <= u && u <= 0x0d) || u == 0x20 || u == 0x85 || u == 0xa0 || u == 0x1680 || (0x2000
        <= u && u <= 0x200a) || u == 0x2028 || u == 0x2029 || u == 0x202f || u == 0x205f || u
        == 0x3000
}

proof fn lemma_trim_start_skip(s: Seq<char>, i: int)
    requires
        0 <= i <= s.len(),
        forall|j: int| 0 <= j < i ==> is_ws(#[trigger] s[j]),
    ensures
        trim_start(s) == trim_start(s.skip(i)),
    decreases i,
{
    if i > 0 {
        assert(s.drop_first() =~= s.skip(1));
        lemma_trim_start_skip(s.drop_first(), i - 1);
        assert(s.drop_first().skip(i - 1) =~= s.skip(i));
    } else {
        assert(s.skip(0) =~= s);
    }
}

proof fn lemma_trim_end_take(s: Seq<char>, e: int)
    requires
        0 <= e <= s.len(),
        forall|j: int| e <= j < s.len() ==> is_ws(#[trigger] s[j]),
    ensures
        trim_end(s) == trim_end(s.take(e)),
    decreases s.len() - e,
{
    if e < s.len() {
        assert(s.drop_last() =~= s.take(s.len() - 1));
        lemma_trim_end_take(s.drop_last(), e);
        assert(s.drop_last().take(e) =~= s.take(e));
    } else {
        assert(s.take(e) =~= s);
    }
}

/// Bounds of `str::trim` on a char slice: `v[start..end]` is the trimmed text.
pub fn trim_bounds(v: &[char]) -> (r: (usize, usize))
    ensures
        r.0 <= r.1 <= v.len(),
        v@.subrange(r.0 as int, r.1 as int) == trim(v@),
{
    let mut a: usize = 0;
    while a < v.len() && is_whitespace(v[a])
        invariant
            a <= v.len(),
            forall|j: int| 0 <= j < a ==> is_ws(#[trigger] v@[j]),
        decreases v.len() - a,
    {
        a = a + 1;
    }
    proof {
        lemma_trim_start_skip(v@, a as int);
        assert(trim_start(v@.skip(a as int)) == v@.skip(a as int));
    }
    let mut b: usize = v.len();
    while b > a && is_whitespace(v[b - 1])
        invariant
            a <= b <= v.len(),
            forall|j: int| b <= j < v.len() ==> is_ws(#[trigger] v@[j]),
        decreases b,
    {
        b = b - 1;
    }
    proof {
        let t = v@.skip(a as int);
        assert forall|j: int| (b - a) <= j < t.len() implies is_ws(#[trigger] t[j]) by {
            assert(t[j] == v@[a + j]);
        }
        lemma_trim_end_take(t, (b - a) as int);
        let u = t.take((b - a) as int);
        assert(u =~= v@.subrange(a as int, b as int));
        if u.len() > 0 {
            assert(u.last() == v@[b - 1]);
        }
        assert(trim_end(u) == u);
    }
    (a, b)
}

/// `str::trim` on a char slice.
pub fn trim_chars(v: &[char]) -> (r: Vec<char>)
    ensures
        r@ == trim(v@),
{
    let (a, b) = trim_bounds(v);
    slice_of(v, a, b)
}

/// Whether `p` occurs in `v` at position `i`.
pub fn matches_at(v: &[char], p: &[char], i: usize) -> (b: bool)
    ensures
        b == match_at(v@, p@, i as int),
{
    if i > v.len() || p.len() > v.len() - i {
        return false;
    }
    let mut k: usize = 0;
    while k < p.len()
        invariant
            i + p.len() <= v.len(),
            k <= p.len(),
            forall|j: int| 0 <= j < k ==> v@[i + j] == p@[j],
        decreases p.len() - k,
    {
        if v[i + k] != p[k] {
            assert(v@.subrange(i as int, i + p.len())[k as int] != p@[k as int]);
            return false;
        }
        k = k + 1;
    }
    assert(v@.subrange(i as int, i + p.len()) =~= p@);
    true
}

/// The first position where `p` occurs in `v`.
pub fn find_chars(v: &[char], p: &[char]) -> (r: Option<usize>)
    ensures
        match r {
            Some(i) => find(v@, p@) == Some(i as int),
            None => find(v@, p@) is None,
        },
{
    if p.len() > v.len() {
        return None;
    }
    let last = v.len() - p.len();
    let mut i: usize = 0;
    loop
        invariant
            i <= last,
            last + p.len() == v.len(),
            find(v@, p@) == find_from(v@, p@, i as int),
        decreases last - i,
    {
        if matches_at(v, p, i) {
            return Some(i);
        }
        if i == last {
            assert(find_from(v@, p@, i + 1) is None);
            return None;
        }
        i = i + 1;
    }
}

/// The first position where `c` occurs in `v`.
pub fn find_char(v: &[char], c: char) -> (r: Option<usize>)
    ensures
        match r {
            Some(i) => find(v@, seq![c]) == Some(i as int) && i < v.len() && v@[i as int] == c,
            None => find(v@, seq![c]) is None,
        },
{
    let mut p: Vec<char> = Vec::new();
    p.push(c);
    assert(p@ =~= seq![c]);
    let r = find_chars(v, p.as_slice());
    proof {
        lemma_find_bounds(v@, seq![c]);
        if let Some(i) = r {
            assert(v@.subrange(i as int, i + 1)[0] == c);
        }
    }
    r
}

/// Whether two char slices hold the same characters.
pub fn chars_eq(a: &[char], b: &[char]) -> (r: bool)
    ensures
        r == (a@ == b@),
{
    if a.len() != b.len() {
        return false;
    }
    let mut i: usize = 0;
    while i < a.len()
        invariant
            a.len() == b.len(),
            i <= a.len(),
            forall|j: int| 0 <= j < i ==> a@[j] == b@[j],
        decreases a.len() - i,
    {
        if a[i] != b[i] {
            return false;
        }
        i = i + 1;
    }
    assert(a@ =~= b@);
    true
}

/// Whether `c` occurs in `v`.
pub fn has_char(v: &[char], c: char) -> (r: bool)
    ensures
        r == !lacks(v@, c),
{
    let mut i: usize = 0;
    while i < v.len()
        invariant
            i <= v.len(),
            forall|j: int| 0 <= j < i ==> v@[j] != c,
        decreases v.len() - i,
    {
        if v[i] == c {
            return true;
        }
        i = i + 1;
    }
    false
}

/// Whether `p` occurs in `s`.
pub fn str_contains(s: &str, p: &str) -> (r: bool)
    ensures
        r == contains(s@, p@),
{
    find_chars(&chars_of(s), &chars_of(p)).is_some()
}

/// Whether two strings are equal.
pub fn str_eq(a: &str, b: &str) -> (r: bool)
    ensures
        r == (a@ == b@),
{
    chars_eq(&chars_of(a), &chars_of(b))
}

/// Whether `s` begins with `p`.
pub fn str_starts_with(s: &str, p: &str) -> (r: bool)
    ensures
        r == starts_with(s@, p@),
{
    starts_with_chars(&chars_of(s), &chars_of(p))
}

/// `str::split_once` with a single-char pattern.
pub fn split_once_char(v: &[char], c: char) -> (r: Option<(Vec<char>, Vec<char>)>)
    ensures
        match r {
            Some((a, b)) => split_once(v@, seq![c]) == Some((a@, b@)),
            None => split_once(v@, seq![c]) is None,
        },
{
    match find_char(v, c) {
        Some(i) => {
            let a = slice_of(v, 0, i);
            let b = slice_of(v, i + 1, v.len());
            assert(a@ =~= v@.take(i as int));
            assert(b@ =~= v@.skip(i + 1));
            Some((a, b))
        },
        None => None,
    }
}

/// `str::split_once` with a string pattern.
pub fn split_once_chars(v: &[char], p: &[char]) -> (r: Option<(Vec<char>, Vec<char>)>)
    ensures
        match r {
            Some((a, b)) => split_once(v@, p@) == Some((a@, b@)),
            None => split_once(v@, p@) is None,
        },
{
    match find_chars(v, p) {
        Some(i) => {
            proof {
                lemma_find_bounds(v@, p@);
            }
            assert(i + p.len() <= v.len());
            let a = slice_of(v, 0, i);
            let b = slice_of(v, i + p.len(), v.len());
            assert(a@ =~= v@.take(i as int));
            assert(b@ =~= v@.skip(i + p.len()));
            Some((a, b))
        },
        None => None,
    }
}

/// Whether `v` begins with `p`.
pub fn starts_with_chars(v: &[char], p: &[char]) -> (r: bool)
    ensures
        r == starts_with(v@, p@),
{
    let r = matches_at(v, p, 0);
    r
}

/// Whether `v` ends with `p`.
pub fn ends_with_chars(v: &[char], p: &[char]) -> (r: bool)
    ensures
        r == ends_with(v@, p@),
{
    if p.len() > v.len() {
        return false;
    }
    let r = matches_at(v, p, v.len() - p.len());
    r
}

/// `char::to_ascii_lowercase`.
pub fn to_ascii_lower(c: char) -> (r: char)
    ensures
        r == ascii_lower(c),
{
    if 'A' <= c && c <= 'Z' {
        let u = (c as u32) + 32;
        proof {
            assert(0x61 <= u <= 0x7a);
        }
        char_from_ascii(u)
    } else {
        c
    }
}

/// The char whose code is an ASCII value.
fn char_from_ascii(u: u32) -> (c: char)
    requires
        u < 128,
    ensures
        c == u as char,
        c as u32 == u,
{
    let b = u as u8;
    let c = b as char;
    c
}

/// ASCII lowercasing of a char slice.
pub fn ascii_lower_chars(v: &[char]) -> (r: Vec<char>)
    ensures
        r@ == ascii_lower_seq(v@),
{
    let mut r: Vec<char> = Vec::new();
    let mut i: usize = 0;
    while i < v.len()
        invariant
            i <= v.len(),
            r@ == ascii_lower_seq(v@.subrange(0, i as int)),
        decreases v.len() - i,
    {
        r.push(to_ascii_lower(v[i]));
        i = i + 1;
        assert(r@ =~= ascii_lower_seq(v@.subrange(0, i as int)));
    }
    assert(v@.subrange(0, v.len() as int) =~= v@);
    r
}

/// Decimal rendering of an unsigned integer.
pub fn dec_u64(n: u64) -> (r: Vec<char>)
    ensures
        r@ == dec(n as nat),
    decreases n,
{
    if n < 10 {
        let mut r: Vec<char> = Vec::new();
        r.push(digit(n));
        assert(r@ =~= seq![digit_char(n as nat)]);
        r
    } else {
        let mut r = dec_u64(n / 10);
        r.push(digit(n % 10));
        r
    }
}

/// Decimal rendering of a signed integer.
pub fn dec_i64(n: i64) -> (r: Vec<char>)
    ensures
        r@ == dec_int(n as int),
{
    if n < 0 {
        let m: u64 = if n == i64::MIN {
            9223372036854775808u64
        } else {
            (-n) as u64
        };
        let d = dec_u64(m);
        let mut r: Vec<char> = Vec::new();
        r.push('-');
        let mut i: usize = 0;
        while i < d.len()
            invariant
                i <= d.len(),
                r@ == seq!['-'] + d@.subrange(0, i as int),
            decreases d.len() - i,
        {
            r.push(d[i]);
            i = i + 1;
            assert(r@ =~= seq!['-'] + d@.subrange(0, i as int));
        }
        assert(d@.subrange(0, d.len() as int) =~= d@);
        r
    } else {
        dec_u64(n as u64)
    }
}

fn digit(d: u64) -> (c: char)
    requires
        d < 10,
    ensures
        c == digit_char(d as nat),
{
    if d == 0 { '0' } else if d == 1 { '1' } else if d == 2 { '2' } else if d == 3 { '3' }
    else if d == 4 { '4' } else if d == 5 { '5' } else if d == 6 { '6' } else if d == 7 { '7' }
    else if d == 8 { '8' } else { '9' }
}

/// `str::parse::<u64>()` on the given chars.
/// What `str::parse::<i64>()` gives: an optional sign, then one or more decimal
/// digits, and a value within the range of `i64`.
pub open spec fn parse_i64_spec(s: Seq<char>) -> Option<int> {
    if s.len() > 0 && s[0] == '-' {
        let body = s.drop_first();
        if body.len() > 0 && all_digits(body) && digits_value(body) <= 0x8000_0000_0000_0000 {
            Some(-digits_value(body))
        } else {
            None
        }
    } else {
        match parse_unsigned(s, 0x7fff_ffff_ffff_ffff) {
            Some(n) => Some(n as int),
            None => None,
        }
    }
}

/// `str::parse::<i64>()`.
pub fn parse_i64(v: &[char]) -> (r: Option<i64>)
    ensures
        match r {
            Some(n) => parse_i64_spec(v@) == Some(n as int),
            None => parse_i64_spec(v@) is None,
        },
{
    if v.len() > 0 && v[0] == '-' {
        let body = slice_of(v, 1, v.len());
        assert(body@ =~= v@.drop_first());
        if body.len() == 0 || body[0] == '+' {
            proof {
                if body@.len() > 0 {
                    assert(!is_digit(body@[0]));
                }
            }
            return None;
        }
        assert(parse_unsigned(body@, 0x8000_0000_0000_0000) == (if body@.len() > 0 && all_digits(body@)
            && digits_value(body@) <= 0x8000_0000_0000_0000 {
            Some(digits_value(body@))
        } else {
            None::<nat>
        }));
        match parse_bounded(&body, 0x8000_0000_0000_0000) {
            Some(n) => {
                if n == 0x8000_0000_0000_0000 {
                    Some(i64::MIN)
                } else {
                    Some(-(n as i64))
                }
            },
            None => None,
        }
    } else {
        match parse_bounded(v, 0x7fff_ffff_ffff_ffff) {
            Some(n) => Some(n as i64),
            None => None,
        }
    }
}

/// `str::parse` for an unsigned integer type whose largest value is `max`.
pub fn parse_bounded(v: &[char], max: u64) -> (r: Option<u64>)
    ensures
        match r {
            Some(n) => parse_unsigned(v@, max as nat) == Some(n as nat),
            None => parse_unsigned(v@, max as nat) is None,
        },
{
    match parse_u64(v) {
        Some(n) => {
            if n <= max {
                Some(n)
            } else {
                None
            }
        },
        None => None,
    }
}

pub fn parse_u64(v: &[char]) -> (r: Option<u64>)
    ensures
        match r {
            Some(n) => parse_unsigned(v@, u64::MAX as nat) == Some(n as nat),
            None => parse_unsigned(v@, u64::MAX as nat) is None,
        },
{
    let start: usize = if v.len() > 0 && v[0] == '+' { 1 } else { 0 };
    let ghost body = if v@.len() > 0 && v@[0] == '+' { v@.drop_first() } else { v@ };
    assert(body =~= v@.subrange(start as int, v.len() as int));
    if start >= v.len() {
        return None;
    }
    let mut acc: u64 = 0;
    let mut i: usize = start;
    while i < v.len()
        invariant
            start <= i <= v.len(),
            body == v@.subrange(start as int, v.len() as int),
            body == (if v@.len() > 0 && v@[0] == '+' { v@.drop_first() } else { v@ }),
            body.len() > 0,
            all_digits(v@.subrange(start as int, i as int)),
            acc as nat == digits_value(v@.subrange(start as int, i as int)),
        decreases v.len() - i,
    {
        let c = v[i];
        let ghost pre = v@.subrange(start as int, i as int);
        let ghost next = v@.subrange(start as int, i + 1);
        assert(next.drop_last() =~= pre);
        assert(next.last() == c);
        if !('0' <= c && c <= '9') {
            assert(body[i - start] == c);
            assert(!is_digit(body[i - start]));
            return None;
        }
        let d = (c as u32 - '0' as u32) as u64;
        if acc > (u64::MAX - d) / 10 {
            proof {
                assert(acc * 10 + d > u64::MAX) by (nonlinear_arith)
                    requires
                        acc > (u64::MAX - d) / 10,
                        d <= 9,
                ;
                assert(digits_value(next) == digits_value(pre) * 10 + digit_value(c));
                if all_digits(body) {
                    lemma_digits_value_prefix_grows(body, (i - start + 1) as int);
                    assert(body.take((i - start + 1) as int) =~= next);
                }
            }
            return None;
        }
        acc = acc * 10 + d;
        i = i + 1;
        assert forall|j: int| 0 <= j < next.len() implies is_digit(#[trigger] next[j]) by {
            if j < pre.len() {
                assert(next[j] == pre[j]);
            }
        }
    }
    assert(v@.subrange(start as int, v.len() as int) == body);
    Some(acc)
}

/// Once a prefix of digits is too large, the whole digit run is too large too.
proof fn lemma_digits_value_prefix_grows(s: Seq<char>, k: int)
    requires
        0 <= k <= s.len(),
        all_digits(s),
    ensures
        digits_value(s.take(k)) <= digits_value(s),
    decreases s.len() - k,
{
    if k < s.len() {
        lemma_digits_value_prefix_grows(s, k + 1);
        let t = s.take(k + 1);
        assert(t.drop_last() =~= s.take(k));
    } else {
        assert(s.take(k) =~= s);
    }
}


// ------------------------------------------------------------------
// Splitting at whitespace
// ------------------------------------------------------------------

/// The length of the run of non-whitespace chars at the start of `t`.
pub open spec fn word_len(t: Seq<char>) -> nat
    decreases t.len(),
{
    if t.len() == 0 || is_ws(t[0]) {
        0
    } else {
        1 + word_len(t.drop_first())
    }
}

pub proof fn lemma_word_len(t: Seq<char>)
    ensures
        word_len(t) <= t.len(),
        forall|i: int| 0 <= i < word_len(t) ==> !is_ws(#[trigger] t[i]),
        word_len(t) < t.len() ==> is_ws(t[word_len(t) as int]),
    decreases t.len(),
{
    if t.len() == 0 || is_ws(t[0]) {
    } else {
        lemma_word_len(t.drop_first());
        assert forall|i: int| 0 <= i < word_len(t) implies !is_ws(#[trigger] t[i]) by {
            if i > 0 {
                assert(t[i] == t.drop_first()[i - 1]);
            }
        }
    }
}

pub proof fn lemma_trim_start_len(s: Seq<char>)
    ensures
        trim_start(s).len() <= s.len(),
        trim_start(s).len() == 0 || !is_ws(trim_start(s)[0]),
        s == s.take(s.len() - trim_start(s).len()) + trim_start(s),
    decreases s.len(),
{
    if s.len() > 0 && is_ws(s[0]) {
        lemma_trim_start_len(s.drop_first());
        let t = trim_start(s);
        let d = s.drop_first();
        assert(d == d.take(d.len() - t.len()) + t);
        assert(s.take(s.len() - t.len()) =~= seq![s[0]] + d.take(d.len() - t.len()));
        assert(s =~= seq![s[0]] + d);
        assert(seq![s[0]] + d == seq![s[0]] + (d.take(d.len() - t.len()) + t));
        assert(seq![s[0]] + (d.take(d.len() - t.len()) + t) =~= (seq![s[0]] + d.take(d.len() - t.len())) + t);
    } else {
        assert(s.take(0) =~= Seq::<char>::empty());
        assert(s =~= s.take(0) + s);
    }
}

/// What `str::split_whitespace` yields: the maximal runs of non-whitespace chars.
pub open spec fn words(s: Seq<char>) -> Seq<Seq<char>>
    decreases s.len(),
{
    let t = trim_start(s);
    if t.len() == 0 {
        Seq::empty()
    } else {
        let n = word_len(t);
        if n == 0 {
            Seq::empty()
        } else {
            proof {
                lemma_trim_start_len(s);
                lemma_word_len(t);
            }
            seq![t.take(n as int)] + words(t.skip(n as int))
        }
    }
}

proof fn lemma_words_skip_ws(s: Seq<char>, i: int)
    requires
        0 <= i < s.len(),
        is_ws(s[i]),
    ensures
        words(s.skip(i)) == words(s.skip(i + 1)),
{
    let a = s.skip(i);
    assert(a.drop_first() =~= s.skip(i + 1));
    assert(trim_start(a) == trim_start(a.drop_first()));
}

proof fn lemma_words_take_word(s: Seq<char>, i: int, j: int)
    requires
        0 <= i < j <= s.len(),
        forall|k: int| i <= k < j ==> !is_ws(#[trigger] s[k]),
        j == s.len() || is_ws(s[j]),
    ensures
        words(s.skip(i)) == seq![s.subrange(i, j)] + words(s.skip(j)),
{
    let a = s.skip(i);
    assert(trim_start(a) == a);
    lemma_word_len_exact(a, j - i);
    assert(a.take(j - i) =~= s.subrange(i, j));
    assert(a.skip(j - i) =~= s.skip(j));
}

proof fn lemma_word_len_exact(a: Seq<char>, n: int)
    requires
        0 < n <= a.len(),
        forall|k: int| 0 <= k < n ==> !is_ws(#[trigger] a[k]),
        n == a.len() || is_ws(a[n]),
    ensures
        word_len(a) == n,
    decreases n,
{
    assert(!is_ws(a[0]));
    if n > 1 {
        let d = a.drop_first();
        assert forall|k: int| 0 <= k < n - 1 implies !is_ws(#[trigger] d[k]) by {
            assert(d[k] == a[k + 1]);
        }
        if n < a.len() {
            assert(d[n - 1] == a[n]);
        }
        lemma_word_len_exact(d, n - 1);
        assert(word_len(a) == 1 + word_len(d));
    } else {
        let d = a.drop_first();
        if d.len() > 0 {
            assert(d[0] == a[1]);
            assert(is_ws(d[0]));
        }
        assert(word_len(d) == 0);
        assert(word_len(a) == 1 + word_len(d));
    }
}

/// `str::split_whitespace` on a char slice.
pub fn split_whitespace(v: &[char]) -> (r: Vec<Vec<char>>)
    ensures
        r@.map_values(|w: Vec<char>| w@) == words(v@),
{
    let mut r: Vec<Vec<char>> = Vec::new();
    let mut i: usize = 0;
    assert(v@.skip(0) =~= v@);
    while i < v.len()
        invariant
            i <= v.len(),
            words(v@) == r@.map_values(|w: Vec<char>| w@) + words(v@.skip(i as int)),
        decreases v.len() - i,
    {
        if is_whitespace(v[i]) {
            proof {
                lemma_words_skip_ws(v@, i as int);
            }
            i = i + 1;
        } else {
            let mut j: usize = i + 1;
            while j < v.len() && !is_whitespace(v[j])
                invariant
                    i < j <= v.len(),
                    forall|k: int| i <= k < j ==> !is_ws(#[trigger] v@[k]),
                decreases v.len() - j,
            {
                j = j + 1;
            }
            proof {
                lemma_words_take_word(v@, i as int, j as int);
            }
            let w = slice_of(v, i, j);
            let ghost before = r@.map_values(|w: Vec<char>| w@);
            r.push(w);
            assert(r@.map_values(|w: Vec<char>| w@) =~= before + seq![v@.subrange(i as int, j as int)]);
            i = j;
        }
    }
    assert(v@.skip(v.len() as int) =~= Seq::<char>::empty());
    assert(words(Seq::<char>::empty()) =~= Seq::<Seq<char>>::empty());
    r
}

} // verus!
