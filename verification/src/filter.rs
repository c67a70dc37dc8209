//! Keyword filters: the searchable text of a message (text body, or HTML body without
//! its tags, capped in size), keyword matching with Aho-Corasick, and the batching of a
//! backfill over stored messages.
use vstd::prelude::*;
use vstd::utf8::{encode_utf8, is_char_boundary, valid_utf8};
use vstd::string::StringSliceAdditionalSpecFns;
use crate::message::{mail_headers, spec_mail_headers, MailHeadersView};
use crate::text::{chars_of, push_chars, push_str, string_from, trim, trim_chars};

verus! {

/// How much of a message body is scanned: 64 KB.
pub const MAX_FILTER_SCAN_BYTES: usize = 65536;

// ------------------------------------------------------------------
// Searchable text
// ------------------------------------------------------------------

/// The text of `s` outside tags, where `inside` says whether `s` starts inside a tag:
/// `<` opens a tag, `>` closes it and stands as a space.
pub open spec fn strip_from(s: Seq<char>, inside: bool) -> Seq<char>
    decreases s.len(),
{
    if s.len() == 0 {
        Seq::empty()
    } else if s[0] == '<' {
        strip_from(s.drop_first(), true)
    } else if s[0] == '>' {
        seq![' '] + strip_from(s.drop_first(), false)
    } else if !inside {
        seq![s[0]] + strip_from(s.drop_first(), false)
    } else {
        strip_from(s.drop_first(), true)
    }
}

/// Stripped text holds no angle brackets.
pub proof fn lemma_strip_no_brackets(s: Seq<char>, inside: bool)
    ensures
        forall|i: int| 0 <= i < strip_from(s, inside).len() ==> #[trigger] strip_from(s, inside)[i] != '<'
            && strip_from(s, inside)[i] != '>',
    decreases s.len(),
{
    if s.len() > 0 {
        let rest_inside = if s[0] == '<' { true } else if s[0] == '>' { false } else { inside };
        lemma_strip_no_brackets(s.drop_first(), rest_inside);
        let r = strip_from(s.drop_first(), rest_inside);
        assert forall|i: int| 0 <= i < strip_from(s, inside).len() implies #[trigger] strip_from(s, inside)[i] != '<'
            && strip_from(s, inside)[i] != '>' by {
            if s[0] != '<' && (s[0] == '>' || !inside) {
                if i > 0 {
                    assert(strip_from(s, inside)[i] == r[i - 1]);
                }
            }
        }
    }
}

/// Strips basic HTML tags for search matching: text inside tags goes, each `>` leaves
/// a space.
pub fn strip_html_tags(html: &str) -> (r: String)
    ensures
        r@ == strip_from(html@, false),
{
    let v = chars_of(html);
    let mut out: Vec<char> = Vec::new();
    let mut inside = false;
    let mut i: usize = 0;
    assert(v@.skip(0) =~= v@);
    while i < v.len()
        invariant
            i <= v.len(),
            v@ == html@,
            out@ + strip_from(v@.skip(i as int), inside) == strip_from(html@, false),
        decreases v.len() - i,
    {
        let c = v[i];
        let ghost rest = v@.skip(i as int);
        assert(rest[0] == c);
        assert(rest.drop_first() =~= v@.skip(i + 1));
        if c == '<' {
            inside = true;
        } else if c == '>' {
            inside = false;
            out.push(' ');
        } else if !inside {
            out.push(c);
        }
        i = i + 1;
        proof {
            assert(out@ + strip_from(v@.skip(i as int), inside) =~= strip_from(html@, false));
        }
    }
    assert(v@.skip(v.len() as int) =~= Seq::<char>::empty());
    assert(out@ + Seq::<char>::empty() =~= out@);
    string_from(&out)
}

/// The largest character boundary of `bytes` at or below `end`.
pub open spec fn boundary_at_or_below(bytes: Seq<u8>, end: int) -> int
    decreases end,
{
    if end <= 0 || is_char_boundary(bytes, end) {
        if end <= 0 { 0 } else { end }
    } else {
        boundary_at_or_below(bytes, end - 1)
    }
}

/// The searchable text of a message: its first text body, else its first HTML body
/// without tags, else nothing.
pub open spec fn searchable_text(h: Option<MailHeadersView>) -> Seq<char> {
    match h {
        None => Seq::empty(),
        Some(h) => match h.text_body {
            Some(t) => t,
            None => match h.html_body {
                Some(x) => strip_from(x, false),
                None => Seq::empty(),
            },
        },
    }
}

/// `s` cut to at most `max_bytes` bytes of UTF-8, at a character boundary.
pub open spec fn truncated_bytes(s: Seq<char>, max_bytes: nat) -> Seq<u8> {
    let b = encode_utf8(s);
    if b.len() > max_bytes {
        b.subrange(0, boundary_at_or_below(b, max_bytes as int))
    } else {
        b
    }
}

fn truncate_utf8(body: String, max_bytes: usize) -> (r: String)
    ensures
        encode_utf8(r@) == truncated_bytes(body@, max_bytes as nat),
{
    let n = body.as_str().as_bytes().len();
    if n > max_bytes {
        let mut end = max_bytes;
        while end > 0 && !body.as_str().is_char_boundary(end)
            invariant
                end <= max_bytes < n,
                n == encode_utf8(body@).len(),
                boundary_at_or_below(encode_utf8(body@), end as int) == boundary_at_or_below(
                    encode_utf8(body@),
                    max_bytes as int,
                ),
            decreases end,
        {
            end = end - 1;
        }
        proof {
            vstd::utf8::encode_utf8_valid_utf8(body@);
            if end == 0 {
                vstd::utf8::is_char_boundary_start_end_of_seq(encode_utf8(body@));
            }
        }
        let (head, _) = body.as_str().split_at(end);
        head.to_owned()
    } else {
        body
    }
}

/// Extracts up to `max_bytes` of searchable body text from a raw email: the text body,
/// or the HTML body without tags, cut at a character boundary.  Attachments and other
/// parts are not read.
pub fn extract_searchable_body(raw_eml: &[u8], max_bytes: usize) -> (r: String)
    ensures
        encode_utf8(r@) == truncated_bytes(searchable_text(spec_mail_headers(raw_eml@)), max_bytes as nat),
{
    let body = match mail_headers(raw_eml) {
        None => String::new(),
        Some(h) => match h.text_body {
            Some(t) => t,
            None => match h.html_body {
                Some(x) => strip_html_tags(x.as_str()),
                None => String::new(),
            },
        },
    };
    truncate_utf8(body, max_bytes)
}

// ------------------------------------------------------------------
// Keyword matching
// ------------------------------------------------------------------

/// Whether an Aho-Corasick automaton (ASCII case-insensitive, standard match
/// semantics) can be built for these patterns.
pub uninterp spec fn spec_ac_builds(patterns: Seq<Seq<char>>) -> bool;

/// The pattern indices of the non-overlapping matches that such an automaton reports
/// over `text`, in order.
pub uninterp spec fn spec_ac_match_ids(patterns: Seq<Seq<char>>, text: Seq<char>) -> Seq<nat>;

pub open spec fn str_views(v: Seq<String>) -> Seq<Seq<char>> {
    v.map_values(|s: String| s@)
}

/// `AhoCorasickBuilder::new().ascii_case_insensitive(true).match_kind(Standard).build`:
/// whether the automaton can be built.
#[verifier::external_body]
fn ac_builds(patterns: &Vec<String>) -> (b: bool)
    ensures
        b == spec_ac_builds(str_views(patterns@)),
{
    aho_corasick::AhoCorasickBuilder::new()
        .ascii_case_insensitive(true)
        .match_kind(aho_corasick::MatchKind::Standard)
        .build(patterns)
        .is_ok()
}

/// The same automaton's `find_iter(text)`, as pattern indices (each less than the
/// number of patterns); `None` when it cannot be built.
#[verifier::external_body]
fn ac_match_ids(patterns: &Vec<String>, text: &str) -> (r: Option<Vec<usize>>)
    ensures
        (r is Some) == spec_ac_builds(str_views(patterns@)),
        r matches Some(ids) ==> ids@.map_values(|i: usize| i as nat) == spec_ac_match_ids(str_views(patterns@), text@),
        r matches Some(ids) ==> forall|k: int| 0 <= k < ids@.len() ==> #[trigger] ids@[k] < patterns@.len(),
{
    let ac = aho_corasick::AhoCorasickBuilder::new()
        .ascii_case_insensitive(true)
        .match_kind(aho_corasick::MatchKind::Standard)
        .build(patterns)
        .ok()?;
    Some(ac.find_iter(text).map(|m| m.pattern().as_usize()).collect())
}

/// The keyword rules of one user, ready for matching: each nonempty (trimmed) keyword
/// with the label it assigns.
pub struct CompiledFilterSet {
    patterns: Vec<String>,
    label_ids: Vec<u128>,
}

pub struct FilterSetView {
    pub patterns: Seq<Seq<char>>,
    pub label_ids: Seq<u128>,
}

impl View for CompiledFilterSet {
    type V = FilterSetView;

    closed spec fn view(&self) -> FilterSetView {
        FilterSetView { patterns: str_views(self.patterns@), label_ids: self.label_ids@ }
    }
}

/// The trimmed keywords of the rules that are not blank.
pub open spec fn kept_keywords(rules: Seq<(Seq<char>, u128)>) -> Seq<(Seq<char>, u128)> {
    rules.map_values(|r: (Seq<char>, u128)| (trim(r.0), r.1)).filter(|r: (Seq<char>, u128)| r.0.len() > 0)
}

pub open spec fn rule_views(rules: Seq<(String, u128)>) -> Seq<(Seq<char>, u128)> {
    rules.map_values(|r: (String, u128)| (r.0@, r.1))
}

/// The labels of the matched patterns, each once, in order of first match.
pub open spec fn matched_labels(label_ids: Seq<u128>, ids: Seq<nat>) -> Seq<u128>
    decreases ids.len(),
{
    if ids.len() == 0 {
        Seq::empty()
    } else {
        let prev = matched_labels(label_ids, ids.drop_last());
        let l = label_ids[ids.last() as int];
        if prev.contains(l) {
            prev
        } else {
            prev.push(l)
        }
    }
}

#[derive(Debug)]
pub enum FilterError {
    /// The automaton cannot be built for these keywords.
    Build,
}

impl CompiledFilterSet {
    /// Compiles the rules `(keyword, label)`; blank keywords are left out.  Fails when
    /// the automaton cannot be built.
    pub fn new(rules: &Vec<(String, u128)>) -> (r: Result<Self, FilterError>)
        ensures
            r matches Ok(s) ==> s@.patterns == kept_keywords(rule_views(rules@)).map_values(
                |k: (Seq<char>, u128)| k.0,
            ) && s@.label_ids == kept_keywords(rule_views(rules@)).map_values(|k: (Seq<char>, u128)| k.1),
            r matches Ok(s) ==> (s@.patterns.len() == 0 || spec_ac_builds(s@.patterns)),
            r is Err <==> (kept_keywords(rule_views(rules@)).len() > 0 && !spec_ac_builds(
                kept_keywords(rule_views(rules@)).map_values(|k: (Seq<char>, u128)| k.0),
            )),
    {
        let ghost rv = rule_views(rules@);
        let ghost mapped = rv.map_values(|r: (Seq<char>, u128)| (trim(r.0), r.1));
        let ghost keep = |r: (Seq<char>, u128)| r.0.len() > 0;
        let mut patterns: Vec<String> = Vec::new();
        let mut label_ids: Vec<u128> = Vec::new();
        let mut i: usize = 0;
        while i < rules.len()
            invariant
                i <= rules.len(),
                rv == rule_views(rules@),
                mapped == rv.map_values(|r: (Seq<char>, u128)| (trim(r.0), r.1)),
                keep == (|r: (Seq<char>, u128)| r.0.len() > 0),
                patterns@.len() == label_ids@.len(),
                str_views(patterns@) == mapped.take(i as int).filter(keep).map_values(|k: (Seq<char>, u128)| k.0),
                label_ids@ == mapped.take(i as int).filter(keep).map_values(|k: (Seq<char>, u128)| k.1),
            decreases rules.len() - i,
        {
            let t = trim_chars(&chars_of(rules[i].0.as_str()));
            proof {
                assert(mapped.take(i + 1) =~= mapped.take(i as int).push(mapped[i as int]));
                mapped.take(i as int).lemma_filter_push(mapped[i as int], keep);
                assert(mapped[i as int] == (trim(rules@[i as int].0@), rules@[i as int].1));
            }
            if t.len() > 0 {
                let ghost bp = patterns@;
                let ghost bl = label_ids@;
                patterns.push(string_from(&t));
                label_ids.push(rules[i].1);
                proof {
                    let f = mapped.take(i as int).filter(keep);
                    assert(str_views(patterns@) =~= str_views(bp).push(t@));
                    assert(f.push(mapped[i as int]).map_values(|k: (Seq<char>, u128)| k.0) =~= f.map_values(
                        |k: (Seq<char>, u128)| k.0,
                    ).push(t@));
                    assert(f.push(mapped[i as int]).map_values(|k: (Seq<char>, u128)| k.1) =~= f.map_values(
                        |k: (Seq<char>, u128)| k.1,
                    ).push(rules@[i as int].1));
                }
            }
            i = i + 1;
        }
        assert(mapped.take(rules.len() as int) =~= mapped);
        if patterns.len() == 0 {
            return Ok(CompiledFilterSet { patterns, label_ids });
        }
        if !ac_builds(&patterns) {
            return Err(FilterError::Build);
        }
        Ok(CompiledFilterSet { patterns, label_ids })
    }

    /// The labels whose keywords occur in `text` (ASCII letters compared without
    /// case), each once.
    pub fn matches(&self, text: &str) -> (r: Vec<u128>)
        requires
            self@.patterns.len() == self@.label_ids.len(),
        ensures
            self@.patterns.len() == 0 || !spec_ac_builds(self@.patterns) ==> r@.len() == 0,
            self@.patterns.len() > 0 && spec_ac_builds(self@.patterns) ==> r@ == matched_labels(
                self@.label_ids,
                spec_ac_match_ids(self@.patterns, text@),
            ),
    {
        if self.patterns.len() == 0 {
            return Vec::new();
        }
        let ids = match ac_match_ids(&self.patterns, text) {
            Some(ids) => ids,
            None => {
                return Vec::new();
            },
        };
        let ghost target = spec_ac_match_ids(self@.patterns, text@);
        let mut out: Vec<u128> = Vec::new();
        let mut k: usize = 0;
        while k < ids.len()
            invariant
                k <= ids.len(),
                ids@.map_values(|i: usize| i as nat) == target,
                forall|j: int| 0 <= j < ids@.len() ==> #[trigger] ids@[j] < self.patterns@.len(),
                self.patterns@.len() == self.label_ids@.len(),
                out@ == matched_labels(self.label_ids@, target.take(k as int)),
            decreases ids.len() - k,
        {
            let id = ids[k];
            let l = self.label_ids[id];
            proof {
                assert(target.take(k + 1).drop_last() =~= target.take(k as int));
                assert(target.take(k + 1).last() == id as nat);
            }
            let mut seen = false;
            let mut j: usize = 0;
            while j < out.len()
                invariant
                    j <= out.len(),
                    seen == (exists|m: int| 0 <= m < j && out@[m] == l),
                decreases out.len() - j,
            {
                if out[j] == l {
                    seen = true;
                }
                j = j + 1;
            }
            if !seen {
                out.push(l);
            }
            k = k + 1;
        }
        assert(target.take(ids.len() as int) =~= target);
        out
    }
}

/// Where a backfill continues after a batch of `count` messages of which `matched`
/// were labelled (labelled messages drop out of the unlabelled listing): `None` when the
/// batch was the last (shorter than `batch_size`).
pub fn next_backfill_offset(count: i64, matched: i64, offset: i64, batch_size: i64) -> (r: Option<i64>)
    requires
        0 <= matched <= count,
        0 <= offset,
        offset + count <= i64::MAX,
    ensures
        count < batch_size ==> r is None,
        count >= batch_size ==> r == Some((offset + count - matched) as i64),
{
    if count < batch_size {
        None
    } else {
        Some(offset + (count - matched))
    }
}

// ------------------------------------------------------------------
// Per-user cache of compiled rules
// ------------------------------------------------------------------

impl CompiledFilterSet {
    /// A set that matches nothing.
    pub fn empty() -> (r: Self)
        ensures
            r@.patterns.len() == 0,
            r@.label_ids.len() == 0,
    {
        let r = CompiledFilterSet { patterns: Vec::new(), label_ids: Vec::new() };
        assert(str_views(r.patterns@) =~= Seq::<Seq<char>>::empty());
        r
    }

    /// The rules compiled, or a set that matches nothing when they cannot be.
    pub fn compile_or_empty(rules: &Vec<(String, u128)>) -> (r: Self)
        ensures
            r@.patterns.len() == r@.label_ids.len(),
            compile_fails(rules@) ==> r@.patterns.len() == 0,
            !compile_fails(rules@) ==> r@.patterns == kept_keywords(rule_views(rules@)).map_values(
                |k: (Seq<char>, u128)| k.0,
            ) && r@.label_ids == kept_keywords(rule_views(rules@)).map_values(|k: (Seq<char>, u128)| k.1),
    {
        match CompiledFilterSet::new(rules) {
            Ok(s) => s,
            Err(_) => CompiledFilterSet::empty(),
        }
    }
}

/// Whether compiling the rules fails: some keyword is left and no automaton can be built.
pub open spec fn compile_fails(rules: Seq<(String, u128)>) -> bool {
    kept_keywords(rule_views(rules)).len() > 0 && !spec_ac_builds(
        kept_keywords(rule_views(rules)).map_values(|k: (Seq<char>, u128)| k.0),
    )
}

impl CompiledFilterSet {
    /// A copy of the set.
    pub fn duplicate(&self) -> (r: Self)
        ensures
            r@ == self@,
    {
        let mut patterns: Vec<String> = Vec::new();
        let mut i: usize = 0;
        while i < self.patterns.len()
            invariant
                i <= self.patterns.len(),
                str_views(patterns@) == str_views(self.patterns@).take(i as int),
            decreases self.patterns.len() - i,
        {
            let ghost before = patterns@;
            patterns.push(string_from(&chars_of(self.patterns[i].as_str())));
            assert(str_views(patterns@) =~= str_views(before).push(self.patterns@[i as int]@));
            assert(str_views(self.patterns@).take(i + 1) =~= str_views(self.patterns@).take(i as int).push(
                self.patterns@[i as int]@,
            ));
            i = i + 1;
        }
        assert(str_views(self.patterns@).take(self.patterns.len() as int) =~= str_views(self.patterns@));
        let label_ids = self.label_ids.clone();
        CompiledFilterSet { patterns, label_ids }
    }
}

/// The compiled rules of the users seen lately, by user.
pub type FilterCache = dashmap::DashMap<u128, CompiledFilterSet>;

/// The rule sets a `DashMap` of compiled rules holds, by user.
pub uninterp spec fn cached_sets(m: FilterCache) -> Map<u128, FilterSetView>;

/// No rules cached.
pub open spec fn no_cached_sets() -> Map<u128, FilterSetView> {
    Map::empty()
}

/// `DashMap::new`: an empty cache.
#[verifier::external_body]
fn cache_new() -> (m: FilterCache)
    ensures
        cached_sets(m) == no_cached_sets(),
{
    dashmap::DashMap::new()
}

/// `DashMap::remove`: forgets `user`'s rules.
#[verifier::external_body]
fn cache_remove(m: &mut FilterCache, user: u128)
    ensures
        cached_sets(*final(m)) == cached_sets(*old(m)).remove(user),
{
    m.remove(&user);
}

/// `DashMap::insert`: `user`'s rules are now `set`.
#[verifier::external_body]
fn cache_insert(m: &mut FilterCache, user: u128, set: CompiledFilterSet)
    ensures
        cached_sets(*final(m)) == cached_sets(*old(m)).insert(user, set@),
{
    m.insert(user, set);
}

/// `DashMap::get`, the rules copied out (`CompiledFilterSet::duplicate`).
#[verifier::external_body]
fn cache_get(m: &FilterCache, user: u128) -> (r: Option<CompiledFilterSet>)
    ensures
        match r {
            Some(c) => cached_sets(*m).dom().contains(user) && c@ == cached_sets(*m)[user],
            None => !cached_sets(*m).dom().contains(user),
        },
{
    m.get(&user).map(|e| e.duplicate())
}

/// The compiled rules of the users seen lately.
pub struct FilterEngine {
    cache: FilterCache,
}

impl View for FilterEngine {
    type V = Map<u128, FilterSetView>;

    closed spec fn view(&self) -> Map<u128, FilterSetView> {
        cached_sets(self.cache)
    }
}

/// The cached rules of `user`, if there are any.
pub open spec fn cached_rules(m: Map<u128, FilterSetView>, user: u128) -> Option<FilterSetView> {
    if m.dom().contains(user) {
        Some(m[user])
    } else {
        None
    }
}

/// Every cached set pairs each keyword with a label.
pub open spec fn engine_wf(m: Map<u128, FilterSetView>) -> bool {
    forall|u: u128| #[trigger] m.dom().contains(u) ==> m[u].patterns.len() == m[u].label_ids.len()
}

impl FilterEngine {
    pub fn new() -> (r: Self)
        ensures
            r@ == no_cached_sets(),
            engine_wf(r@),
    {
        FilterEngine { cache: cache_new() }
    }

    /// Forgets the rules of `user` (after they changed).
    pub fn invalidate(&mut self, user: u128)
        requires
            engine_wf(old(self)@),
        ensures
            engine_wf(final(self)@),
            final(self)@ == old(self)@.remove(user),
            cached_rules(final(self)@, user) is None,
            forall|other: u128| other != user ==> cached_rules(final(self)@, other) == cached_rules(old(self)@, other),
    {
        cache_remove(&mut self.cache, user);
    }

    /// Caches `compiled` as the rules of `user`.
    pub fn store(&mut self, user: u128, compiled: CompiledFilterSet)
        requires
            engine_wf(old(self)@),
            compiled@.patterns.len() == compiled@.label_ids.len(),
        ensures
            engine_wf(final(self)@),
            final(self)@ == old(self)@.insert(user, compiled@),
            cached_rules(final(self)@, user) == Some(compiled@),
            forall|other: u128| other != user ==> cached_rules(final(self)@, other) == cached_rules(old(self)@, other),
    {
        cache_insert(&mut self.cache, user, compiled);
    }

    /// A copy of the cached rules of `user`, if there are any.
    pub fn cached(&self, user: u128) -> (r: Option<CompiledFilterSet>)
        ensures
            match r {
                Some(c) => cached_rules(self@, user) == Some(c@),
                None => cached_rules(self@, user) is None,
            },
    {
        cache_get(&self.cache, user)
    }

    /// The labels the user's cached rules give a stored message; `None` when the user's
    /// rules are not cached (the caller compiles and stores them, then asks again).
    pub fn evaluate(&self, user: u128, raw_eml: &[u8]) -> (r: Option<Vec<u128>>)
        requires
            engine_wf(self@),
        ensures
            cached_rules(self@, user) is None ==> r is None,
            cached_rules(self@, user) matches Some(f) ==> (r matches Some(labels) && exists|text: Seq<char>|
                encode_utf8(text) == truncated_bytes(
                    searchable_text(spec_mail_headers(raw_eml@)),
                    MAX_FILTER_SCAN_BYTES as nat,
                ) && (if text.len() == 0 || f.patterns.len() == 0 || !spec_ac_builds(f.patterns) {
                    labels@.len() == 0
                } else {
                    labels@ == matched_labels(f.label_ids, spec_ac_match_ids(f.patterns, text))
                })),
    {
        let compiled = match self.cached(user) {
            Some(c) => c,
            None => {
                return None;
            },
        };
        let text = extract_searchable_body(raw_eml, MAX_FILTER_SCAN_BYTES);
        if text.as_str().is_empty() {
            return Some(Vec::new());
        }
        Some(compiled.matches(text.as_str()))
    }
}

// ------------------------------------------------------------------
// Filter forms
// ------------------------------------------------------------------

/// The parts of `s` between commas (`str::split(',')`): always at least one.
pub open spec fn comma_parts(s: Seq<char>) -> Seq<Seq<char>>
    decreases s.len(),
{
    if s.len() == 0 {
        seq![Seq::empty()]
    } else {
        let rest = comma_parts(s.drop_last());
        if s.last() == ',' {
            rest.push(Seq::empty())
        } else {
            rest.update(rest.len() - 1, rest.last().push(s.last()))
        }
    }
}

proof fn lemma_comma_parts_nonempty(s: Seq<char>)
    ensures
        comma_parts(s).len() >= 1,
    decreases s.len(),
{
    if s.len() > 0 {
        lemma_comma_parts_nonempty(s.drop_last());
    }
}

/// The keywords a filter form adds: its comma-separated parts, trimmed, without the
/// blank ones; none at all when the whole entry is blank.
pub open spec fn spec_filter_keywords(keyword: Seq<char>) -> Option<Seq<Seq<char>>> {
    let t = trim(keyword);
    if t.len() == 0 {
        None
    } else {
        Some(comma_parts(t).map_values(|p: Seq<char>| trim(p)).filter(|p: Seq<char>| p.len() > 0))
    }
}

pub open spec fn char_views(v: Seq<Vec<char>>) -> Seq<Seq<char>> {
    v.map_values(|x: Vec<char>| x@)
}

/// The keywords of a filter form entry such as `invoice, receipt, payment`; `None`
/// when the entry is blank.
pub fn filter_keywords(keyword: &str) -> (r: Option<Vec<String>>)
    ensures
        match spec_filter_keywords(keyword@) {
            None => r is None,
            Some(k) => r matches Some(v) && str_views(v@) == k,
        },
{
    let t = trim_chars(&chars_of(keyword));
    if t.len() == 0 {
        return None;
    }
    let mut done: Vec<Vec<char>> = Vec::new();
    let mut cur: Vec<char> = Vec::new();
    let mut i: usize = 0;
    assert(t@.take(0) =~= Seq::<char>::empty());
    assert(char_views(done@).push(cur@) =~= comma_parts(t@.take(0)));
    while i < t.len()
        invariant
            i <= t@.len(),
            char_views(done@).push(cur@) == comma_parts(t@.take(i as int)),
        decreases t@.len() - i,
    {
        let ghost prefix = t@.take(i as int);
        assert(t@.take(i + 1).drop_last() =~= prefix);
        assert(t@.take(i + 1).last() == t@[i as int]);
        proof {
            lemma_comma_parts_nonempty(prefix);
        }
        if t[i] == ',' {
            let finished = cur;
            done.push(finished);
            cur = Vec::new();
            assert(char_views(done@).push(cur@) =~= comma_parts(prefix).push(Seq::empty()));
        } else {
            let ghost before = char_views(done@);
            cur.push(t[i]);
            assert(char_views(done@) == before);
            assert(char_views(done@).push(cur@) =~= comma_parts(prefix).update(
                comma_parts(prefix).len() - 1,
                comma_parts(prefix).last().push(t@[i as int]),
            ));
        }
        i = i + 1;
    }
    assert(t@.take(t@.len() as int) =~= t@);
    let ghost before_last = done@;
    let last = cur;
    done.push(last);
    assert(char_views(done@) =~= char_views(before_last).push(done@.last()@));
    let ghost parts = char_views(done@);
    assert(parts == comma_parts(trim(keyword@)));
    let ghost keep = |p: Seq<char>| p.len() > 0;
    let ghost trimmed = parts.map_values(|p: Seq<char>| trim(p));
    let mut out: Vec<String> = Vec::new();
    let mut k: usize = 0;
    while k < done.len()
        invariant
            k <= done@.len(),
            parts == char_views(done@),
            trimmed == parts.map_values(|p: Seq<char>| trim(p)),
            keep == (|p: Seq<char>| p.len() > 0),
            str_views(out@) == trimmed.take(k as int).filter(keep),
        decreases done@.len() - k,
    {
        let w = trim_chars(&done[k]);
        proof {
            assert(trimmed.take(k + 1) =~= trimmed.take(k as int).push(trimmed[k as int]));
            trimmed.take(k as int).lemma_filter_push(trimmed[k as int], keep);
            assert(trimmed[k as int] == trim(done@[k as int]@));
        }
        if w.len() > 0 {
            let ghost before = out@;
            out.push(string_from(&w));
            assert(str_views(out@) =~= str_views(before).push(w@));
        }
        k = k + 1;
    }
    assert(trimmed.take(done@.len() as int) =~= trimmed);
    Some(out)
}

/// The color a new label gets: the one chosen, unless it is blank, else `#3182ce`.
pub fn label_color(color: &Option<String>) -> (c: String)
    ensures
        c@ == match color {
            Some(x) => if trim(x@).len() > 0 {
                x@
            } else {
                "#3182ce"@
            },
            None => "#3182ce"@,
        },
{
    match color {
        Some(x) => {
            if trim_chars(&chars_of(x.as_str())).len() > 0 {
                string_from(&chars_of(x.as_str()))
            } else {
                "#3182ce".to_owned()
            }
        },
        None => "#3182ce".to_owned(),
    }
}

// ------------------------------------------------------------------
// Backfill jobs
// ------------------------------------------------------------------

/// How many backfill jobs may wait at once; a job submitted beyond that is dropped.
pub const BACKFILL_QUEUE_CAPACITY: usize = 100;

/// A background backfill task for a single user, keyword, and target label.
#[derive(Debug, Clone)]
pub struct BackfillJob {
    pub user_id: u128,
    pub keyword: String,
    pub label_id: u128,
}

pub struct BackfillJobView {
    pub user_id: u128,
    pub keyword: Seq<char>,
    pub label_id: u128,
}

impl View for BackfillJob {
    type V = BackfillJobView;

    open spec fn view(&self) -> BackfillJobView {
        BackfillJobView { user_id: self.user_id, keyword: self.keyword@, label_id: self.label_id }
    }
}

// ------------------------------------------------------------------
// The set of users with a backfill in progress
// ------------------------------------------------------------------

#[verifier::external_type_specification]
#[verifier::external_body]
#[verifier::reject_recursive_types(K)]
#[verifier::reject_recursive_types(S)]
pub struct ExDashSet<K, S>(dashmap::DashSet<K, S>);

/// The users a `DashSet` of user ids holds.
pub uninterp spec fn user_set_items(s: dashmap::DashSet<u128>) -> Set<u128>;

/// `DashSet::new`: an empty set.
#[verifier::external_body]
fn user_set_new() -> (s: dashmap::DashSet<u128>)
    ensures
        user_set_items(s) == Set::<u128>::empty(),
{
    dashmap::DashSet::new()
}

/// `DashSet::insert`: adds `user`; `true` when it was not there yet.
#[verifier::external_body]
fn user_set_insert(s: &mut dashmap::DashSet<u128>, user: u128) -> (fresh: bool)
    ensures
        user_set_items(*final(s)) == user_set_items(*old(s)).insert(user),
        fresh == !user_set_items(*old(s)).contains(user),
{
    s.insert(user)
}

/// `DashSet::remove`: takes `user` out.
#[verifier::external_body]
fn user_set_remove(s: &mut dashmap::DashSet<u128>, user: u128)
    ensures
        user_set_items(*final(s)) == user_set_items(*old(s)).remove(user),
{
    s.remove(&user);
}

/// `DashSet::contains`.
#[verifier::external_body]
fn user_set_contains(s: &dashmap::DashSet<u128>, user: u128) -> (b: bool)
    ensures
        b == user_set_items(*s).contains(user),
{
    s.contains(&user)
}

/// `DashSet::iter`, each item copied out: every user of the set, once each.
#[verifier::external_body]
fn user_set_list(s: &dashmap::DashSet<u128>) -> (v: Vec<u128>)
    ensures
        v@.to_set() == user_set_items(*s),
        v@.no_duplicates(),
{
    s.iter().map(|u| *u).collect()
}

// ------------------------------------------------------------------
// The backfill engine
// ------------------------------------------------------------------

/// Backfill jobs waiting for the worker, in order, and the users that have a job in
/// progress: at most one job per user is active at a time.
pub struct BackfillEngine {
    queue: Vec<BackfillJob>,
    active: dashmap::DashSet<u128>,
}

pub struct BackfillEngineView {
    pub queue: Seq<BackfillJobView>,
    /// The users with a job in progress.
    pub active: Set<u128>,
}

pub open spec fn job_views(v: Seq<BackfillJob>) -> Seq<BackfillJobView> {
    v.map_values(|j: BackfillJob| j@)
}

impl View for BackfillEngine {
    type V = BackfillEngineView;

    closed spec fn view(&self) -> BackfillEngineView {
        BackfillEngineView { queue: job_views(self.queue@), active: user_set_items(self.active) }
    }
}

impl BackfillEngine {
    /// No jobs, no active users.
    pub fn new() -> (e: Self)
        ensures
            e@.queue == Seq::<BackfillJobView>::empty(),
            e@.active == Set::<u128>::empty(),
    {
        let e = BackfillEngine { queue: Vec::new(), active: user_set_new() };
        assert(job_views(e.queue@) =~= Seq::<BackfillJobView>::empty());
        e
    }

    /// The users with a job in progress, each once.
    pub fn active_tenants(&self) -> (r: Vec<u128>)
        ensures
            r@.to_set() == self@.active,
            r@.no_duplicates(),
    {
        user_set_list(&self.active)
    }

    /// Whether `user_id` has a job in progress.
    pub fn is_active(&self, user_id: u128) -> (b: bool)
        ensures
            b == self@.active.contains(user_id),
    {
        user_set_contains(&self.active, user_id)
    }

    /// Submits a job for a user that has none in progress.  `true` when the job was
    /// queued: its user is then active until the worker finishes it.  `false`, with
    /// nothing changed, when the user already has a job in progress or the queue is full.
    pub fn submit(&mut self, job: BackfillJob) -> (accepted: bool)
        ensures
            accepted == (!old(self)@.active.contains(job.user_id) && old(self)@.queue.len()
                < BACKFILL_QUEUE_CAPACITY),
            accepted ==> final(self)@.active == old(self)@.active.insert(job.user_id) && final(self)@.queue
                == old(self)@.queue.push(job@),
            !accepted ==> final(self)@.active == old(self)@.active && final(self)@.queue == old(self)@.queue,
    {
        if user_set_contains(&self.active, job.user_id) || self.queue.len() >= BACKFILL_QUEUE_CAPACITY {
            return false;
        }
        user_set_insert(&mut self.active, job.user_id);
        let ghost q = self.queue@;
        self.queue.push(job);
        assert(job_views(self.queue@) =~= job_views(q).push(self.queue@.last()@));
        true
    }

    /// The next job for the worker, in submission order.
    pub fn take_job(&mut self) -> (j: Option<BackfillJob>)
        ensures
            final(self)@.active == old(self)@.active,
            old(self)@.queue.len() == 0 ==> j is None && final(self)@.queue == old(self)@.queue,
            old(self)@.queue.len() > 0 ==> (j matches Some(job) && job@ == old(self)@.queue[0])
                && final(self)@.queue == old(self)@.queue.drop_first(),
    {
        if self.queue.len() == 0 {
            return None;
        }
        let ghost q = self.queue@;
        let job = self.queue.remove(0);
        assert(job_views(self.queue@) =~= job_views(q).drop_first());
        Some(job)
    }

    /// The worker is done with `user_id`'s job: the user may submit again.
    pub fn finish(&mut self, user_id: u128)
        ensures
            final(self)@.active == old(self)@.active.remove(user_id),
            final(self)@.queue == old(self)@.queue,
    {
        user_set_remove(&mut self.active, user_id);
    }
}

/// Once the worker has finished a user's job, the next job that user submits is
/// accepted while the queue has room: `finish` leaves the user out of the active set
/// that `submit` consults.
pub proof fn lemma_finish_frees_user(before: BackfillEngineView, after_finish: BackfillEngineView, user_id: u128)
    requires
        after_finish.active == before.active.remove(user_id),
    ensures
        !after_finish.active.contains(user_id),
        after_finish.active.insert(user_id).contains(user_id),
{
}

} // verus!
