//! In-place rewriting of e-mail addresses in message bytes.
//!
//! Addresses are found by the pattern "one or more local-part bytes, `@`, one
//! or more domain bytes, a dot, two or more letters", scanning left to right
//! and taking at each hit the leftmost start and the longest extent, then
//! continuing after the hit. All pattern classes are ASCII, and in UTF-8 text
//! ASCII bytes occur only as whole characters, so scanning the bytes finds
//! exactly the addresses of the decoded text. Each distinct address maps to a
//! fresh eight-character alphanumeric local part at the configured domain,
//! and keeps that mapping for the lifetime of the rewriter.

use rand::distr::Distribution;
use vstd::prelude::*;

verus! {

use vstd::string::StrSliceExecFns;

/// Local-part bytes: letters, digits, and `._%+-`.
pub open spec fn is_local_byte(b: u8) -> bool {
    is_alnum_byte(b) || b == 46 || b == 95 || b == 37 || b == 43 || b == 45
}

/// Domain bytes: letters, digits, dot and hyphen.
pub open spec fn is_domain_byte(b: u8) -> bool {
    is_alnum_byte(b) || b == 46 || b == 45
}

/// ASCII letters.
pub open spec fn is_alpha_byte(b: u8) -> bool {
    (65 <= b && b <= 90) || (97 <= b && b <= 122)
}

/// ASCII letters and digits.
pub open spec fn is_alnum_byte(b: u8) -> bool {
    is_alpha_byte(b) || (48 <= b && b <= 57)
}

/// The end of the run of local-part bytes starting at `i`.
pub open spec fn local_end(s: Seq<u8>, i: int) -> int
    decreases s.len() - i,
    when 0 <= i <= s.len()
{
    if i < s.len() && is_local_byte(s[i]) {
        local_end(s, i + 1)
    } else {
        i
    }
}

/// The end of the run of domain bytes starting at `i`.
pub open spec fn domain_end(s: Seq<u8>, i: int) -> int
    decreases s.len() - i,
    when 0 <= i <= s.len()
{
    if i < s.len() && is_domain_byte(s[i]) {
        domain_end(s, i + 1)
    } else {
        i
    }
}

/// The end of the run of letters starting at `i`.
pub open spec fn alpha_end(s: Seq<u8>, i: int) -> int
    decreases s.len() - i,
    when 0 <= i <= s.len()
{
    if i < s.len() && is_alpha_byte(s[i]) {
        alpha_end(s, i + 1)
    } else {
        i
    }
}

proof fn lemma_local_end(s: Seq<u8>, i: int)
    requires
        0 <= i <= s.len(),
    ensures
        i <= local_end(s, i) <= s.len(),
        local_end(s, i) < s.len() ==> !is_local_byte(s[local_end(s, i)]),
        forall|j: int| i <= j < local_end(s, i) ==> is_local_byte(s[j]),
    decreases s.len() - i,
{
    if i < s.len() && is_local_byte(s[i]) {
        lemma_local_end(s, i + 1);
    }
}

proof fn lemma_domain_end(s: Seq<u8>, i: int)
    requires
        0 <= i <= s.len(),
    ensures
        i <= domain_end(s, i) <= s.len(),
        domain_end(s, i) < s.len() ==> !is_domain_byte(s[domain_end(s, i)]),
        forall|j: int| i <= j < domain_end(s, i) ==> is_domain_byte(s[j]),
    decreases s.len() - i,
{
    if i < s.len() && is_domain_byte(s[i]) {
        lemma_domain_end(s, i + 1);
    }
}

proof fn lemma_alpha_end(s: Seq<u8>, i: int)
    requires
        0 <= i <= s.len(),
    ensures
        i <= alpha_end(s, i) <= s.len(),
        alpha_end(s, i) < s.len() ==> !is_alpha_byte(s[alpha_end(s, i)]),
        forall|j: int| i <= j < alpha_end(s, i) ==> is_alpha_byte(s[j]),
    decreases s.len() - i,
{
    if i < s.len() && is_alpha_byte(s[i]) {
        lemma_alpha_end(s, i + 1);
    }
}

/// The rightmost dot position `p` with `d < p < hi` that is followed by at
/// least two letters — the dot before the top-level label of the longest
/// address extent.
pub open spec fn best_dot(s: Seq<u8>, d: int, hi: int) -> Option<int>
    decreases hi - d,
    when d >= 0
{
    if hi <= d + 1 {
        None
    } else {
        let p = hi - 1;
        if 0 <= p < s.len() && s[p] == 46 && alpha_end(s, p + 1) >= p + 3 {
            Some(p)
        } else {
            best_dot(s, d, p)
        }
    }
}

proof fn lemma_best_dot(s: Seq<u8>, d: int, hi: int)
    requires
        0 <= d,
        hi <= s.len(),
    ensures
        match best_dot(s, d, hi) {
            Some(p) => d < p < hi && s[p] == 46 && alpha_end(s, p + 1) >= p + 3,
            None => forall|q: int|
                d < q < hi ==> !(s[q] == 46 && alpha_end(s, q + 1) >= q + 3),
        },
    decreases hi - d,
{
    if hi > d + 1 {
        lemma_best_dot(s, d, hi - 1);
    }
}

/// The end of the address match starting at `i`, if the pattern matches
/// there: a nonempty local run, `@`, a nonempty domain run containing a dot
/// followed by at least two letters; the extent runs to the end of the
/// letters after the rightmost such dot.
pub open spec fn match_end_at(s: Seq<u8>, i: int) -> Option<int> {
    if 0 <= i < s.len() && is_local_byte(s[i]) {
        let j = local_end(s, i);
        if j < s.len() && s[j] == 64 {
            let d = j + 1;
            match best_dot(s, d, domain_end(s, d)) {
                Some(p) => Some(alpha_end(s, p + 1)),
                None => None,
            }
        } else {
            None
        }
    } else {
        None
    }
}

/// A match's extent lies strictly to the right of its start and within the
/// bytes.
pub proof fn lemma_match_end(s: Seq<u8>, i: int)
    requires
        0 <= i <= s.len(),
    ensures
        match match_end_at(s, i) {
            Some(e) => i + 2 < e <= s.len(),
            None => true,
        },
{
    if match_end_at(s, i) is Some {
        lemma_local_end(s, i);
        let j = local_end(s, i);
        let d = j + 1;
        lemma_domain_end(s, d);
        lemma_best_dot(s, d, domain_end(s, d));
        let p = best_dot(s, d, domain_end(s, d))->Some_0;
        lemma_alpha_end(s, p + 1);
    }
}

/// The address spans of `s` from position `i` on: leftmost match first, each
/// as `(start, end)`, continuing after each match.
pub open spec fn scan_from(s: Seq<u8>, i: int) -> Seq<(int, int)>
    decreases s.len() - i,
    when 0 <= i <= s.len()
    via scan_from_decreases
{
    if i >= s.len() {
        Seq::empty()
    } else {
        match match_end_at(s, i) {
            Some(e) => seq![(i, e)] + scan_from(s, e),
            None => scan_from(s, i + 1),
        }
    }
}

#[via_fn]
proof fn scan_from_decreases(s: Seq<u8>, i: int) {
    lemma_match_end(s, i);
}

/// The spans of a scan are in order, nonempty, within bounds, and do not
/// overlap.
pub proof fn lemma_scan_wf(s: Seq<u8>, i: int)
    requires
        0 <= i <= s.len(),
    ensures
        forall|k: int|
            0 <= k < scan_from(s, i).len() ==> i <= (#[trigger] scan_from(s, i)[k]).0
                < scan_from(s, i)[k].1 <= s.len(),
        forall|k: int|
            0 < k < scan_from(s, i).len() ==> (#[trigger] scan_from(s, i)[k]).0 >= scan_from(
                s,
                i,
            )[k - 1].1,
    decreases s.len() - i,
{
    if i < s.len() {
        lemma_match_end(s, i);
        match match_end_at(s, i) {
            Some(e) => {
                lemma_scan_wf(s, e);
                assert(scan_from(s, i) == seq![(i, e)] + scan_from(s, e));
                assert forall|k: int| 0 <= k < scan_from(s, i).len() implies i <= (
                #[trigger] scan_from(s, i)[k]).0 < scan_from(s, i)[k].1 <= s.len() by {
                    if k > 0 {
                        assert(scan_from(s, i)[k] == scan_from(s, e)[k - 1]);
                    }
                }
                assert forall|k: int| 0 < k < scan_from(s, i).len() implies (
                #[trigger] scan_from(s, i)[k]).0 >= scan_from(s, i)[k - 1].1 by {
                    if k > 1 {
                        assert(scan_from(s, i)[k] == scan_from(s, e)[k - 1]);
                        assert(scan_from(s, i)[k - 1] == scan_from(s, e)[k - 2]);
                    } else {
                        assert(scan_from(s, i)[k] == scan_from(s, e)[0]);
                    }
                }
            },
            None => {
                lemma_scan_wf(s, i + 1);
                assert(scan_from(s, i) == scan_from(s, i + 1));
            },
        }
    } else {
        assert(scan_from(s, i) =~= Seq::<(int, int)>::empty());
    }
}

/// The end of the run of local-part bytes starting at `i`.
fn local_end_exec(s: &Vec<u8>, i: usize) -> (r: usize)
    requires
        i <= s@.len(),
    ensures
        r == local_end(s@, i as int),
{
    let mut j = i;
    while j < s.len() && is_local_byte_exec(s[j])
        invariant
            i <= j <= s@.len(),
            local_end(s@, i as int) == local_end(s@, j as int),
        decreases s@.len() - j,
    {
        j = j + 1;
    }
    j
}

/// The end of the run of domain bytes starting at `i`.
fn domain_end_exec(s: &Vec<u8>, i: usize) -> (r: usize)
    requires
        i <= s@.len(),
    ensures
        r == domain_end(s@, i as int),
{
    let mut j = i;
    while j < s.len() && is_domain_byte_exec(s[j])
        invariant
            i <= j <= s@.len(),
            domain_end(s@, i as int) == domain_end(s@, j as int),
        decreases s@.len() - j,
    {
        j = j + 1;
    }
    j
}

/// The end of the run of letters starting at `i`.
fn alpha_end_exec(s: &Vec<u8>, i: usize) -> (r: usize)
    requires
        i <= s@.len(),
    ensures
        r == alpha_end(s@, i as int),
{
    let mut j = i;
    while j < s.len() && is_alpha_byte_exec(s[j])
        invariant
            i <= j <= s@.len(),
            alpha_end(s@, i as int) == alpha_end(s@, j as int),
        decreases s@.len() - j,
    {
        j = j + 1;
    }
    j
}

fn is_local_byte_exec(b: u8) -> (r: bool)
    ensures
        r == is_local_byte(b),
{
    is_alnum_byte_exec(b) || b == 46 || b == 95 || b == 37 || b == 43 || b == 45
}

fn is_domain_byte_exec(b: u8) -> (r: bool)
    ensures
        r == is_domain_byte(b),
{
    is_alnum_byte_exec(b) || b == 46 || b == 45
}

fn is_alpha_byte_exec(b: u8) -> (r: bool)
    ensures
        r == is_alpha_byte(b),
{
    (65 <= b && b <= 90) || (97 <= b && b <= 122)
}

fn is_alnum_byte_exec(b: u8) -> (r: bool)
    ensures
        r == is_alnum_byte(b),
{
    is_alpha_byte_exec(b) || (48 <= b && b <= 57)
}

/// The rightmost eligible dot between `d` (exclusive) and `hi` (exclusive).
fn best_dot_exec(s: &Vec<u8>, d: usize, hi: usize) -> (r: Option<usize>)
    requires
        d <= hi,
        hi <= s@.len(),
    ensures
        match r {
            Some(p) => best_dot(s@, d as int, hi as int) == Some(p as int),
            None => best_dot(s@, d as int, hi as int) is None,
        },
{
    let mut h = hi;
    while h > d && h - d > 1
        invariant
            d <= h <= s@.len(),
            best_dot(s@, d as int, hi as int) == best_dot(s@, d as int, h as int),
        decreases h,
    {
        let p = h - 1;
        if s[p] == 46 {
            let ae = alpha_end_exec(s, p + 1);
            proof {
                lemma_alpha_end(s@, p + 1);
            }
            if ae - p >= 3 {
                return Some(p);
            }
        }
        h = p;
    }
    None
}

/// The end of the address match starting at `i`, if the pattern matches
/// there.
fn match_end_at_exec(s: &Vec<u8>, i: usize) -> (r: Option<usize>)
    requires
        i < s@.len(),
    ensures
        match r {
            Some(e) => match_end_at(s@, i as int) == Some(e as int) && i < e <= s@.len(),
            None => match_end_at(s@, i as int) is None,
        },
{
    if !is_local_byte_exec(s[i]) {
        return None;
    }
    let j = local_end_exec(s, i);
    proof {
        lemma_local_end(s@, i as int);
    }
    if j >= s.len() || s[j] != 64 {
        return None;
    }
    let d = j + 1;
    let de = domain_end_exec(s, d);
    proof {
        lemma_domain_end(s@, d as int);
    }
    match best_dot_exec(s, d, de) {
        Some(p) => {
            proof {
                lemma_best_dot(s@, d as int, de as int);
            }
            let e = alpha_end_exec(s, p + 1);
            proof {
                lemma_match_end(s@, i as int);
            }
            Some(e)
        },
        None => None,
    }
}

/// All address spans of `s`, leftmost first, non-overlapping.
fn find_spans(s: &Vec<u8>) -> (r: Vec<(usize, usize)>)
    ensures
        r@.map_values(|p: (usize, usize)| (p.0 as int, p.1 as int)) == scan_from(s@, 0),
{
    let mut out: Vec<(usize, usize)> = Vec::new();
    let mut i: usize = 0;
    let ghost sv = |p: (usize, usize)| (p.0 as int, p.1 as int);
    proof {
        assert(out@.map_values(sv) + scan_from(s@, 0) =~= scan_from(s@, 0));
    }
    while i < s.len()
        invariant
            i <= s@.len(),
            sv == (|p: (usize, usize)| (p.0 as int, p.1 as int)),
            scan_from(s@, 0) == out@.map_values(sv) + scan_from(s@, i as int),
        decreases s@.len() - i,
    {
        match match_end_at_exec(s, i) {
            Some(e) => {
                out.push((i, e));
                proof {
                    assert(out@.map_values(sv) =~= out@.drop_last().map_values(sv).push(
                        (i as int, e as int),
                    ));
                    assert(out@.drop_last().map_values(sv) + (seq![(i as int, e as int)]
                        + scan_from(s@, e as int)) =~= out@.map_values(sv) + scan_from(
                        s@,
                        e as int,
                    ));
                }
                i = e;
            },
            None => {
                i = i + 1;
            },
        }
    }
    proof {
        assert(scan_from(s@, i as int) =~= Seq::<(int, int)>::empty());
        assert(out@.map_values(sv) + scan_from(s@, i as int) =~= out@.map_values(sv));
    }
    out
}


/// Whether the association list `m` has an entry for `k`.
pub open spec fn has_key(m: Seq<(Seq<u8>, Seq<u8>)>, k: Seq<u8>) -> bool {
    exists|i: int| 0 <= i < m.len() && m[i].0 == k
}

/// The value stored for `k`; the empty sequence when absent.
pub open spec fn value_at(m: Seq<(Seq<u8>, Seq<u8>)>, k: Seq<u8>) -> Seq<u8> {
    if has_key(m, k) {
        m[choose|i: int| 0 <= i < m.len() && m[i].0 == k].1
    } else {
        Seq::empty()
    }
}

/// Distinct keys.
pub open spec fn map_wf(m: Seq<(Seq<u8>, Seq<u8>)>) -> bool {
    forall|i: int, j: int| 0 <= i < j < m.len() ==> m[i].0 != m[j].0
}

/// With distinct keys, the value is exactly the matching entry's.
proof fn lemma_value_unique(m: Seq<(Seq<u8>, Seq<u8>)>, i: int)
    requires
        map_wf(m),
        0 <= i < m.len(),
    ensures
        has_key(m, m[i].0),
        value_at(m, m[i].0) == m[i].1,
{
    let k = m[i].0;
    let w = choose|w: int| 0 <= w < m.len() && m[w].0 == k;
    if w < i {
        assert(m[w].0 != m[i].0);
    } else if i < w {
        assert(m[i].0 != m[w].0);
    }
}

/// The bytes of the span `sp` of `s`.
pub open spec fn text_of(s: Seq<u8>, sp: (int, int)) -> Seq<u8> {
    s.subrange(sp.0, sp.1)
}

/// Where the unreplaced gap before span `k` begins.
pub open spec fn gap_start(spans: Seq<(int, int)>, k: int) -> int {
    if k == 0 {
        0
    } else {
        spans[k - 1].1
    }
}

/// The rewritten image of everything before the end of span `k`: each span's
/// text replaced by the map's value for it, the gaps kept.
pub open spec fn rewrite_upto(
    s: Seq<u8>,
    spans: Seq<(int, int)>,
    k: int,
    m: Seq<(Seq<u8>, Seq<u8>)>,
) -> Seq<u8>
    decreases k,
{
    if k <= 0 {
        Seq::empty()
    } else {
        rewrite_upto(s, spans, k - 1, m) + s.subrange(gap_start(spans, k - 1), spans[k - 1].0)
            + value_at(m, text_of(s, spans[k - 1]))
    }
}

/// The rewritten image of `s` under the address map `m`: every address span
/// replaced by the map's value for its text, everything else kept.
pub open spec fn anonymized(s: Seq<u8>, m: Seq<(Seq<u8>, Seq<u8>)>) -> Seq<u8> {
    let spans = scan_from(s, 0);
    rewrite_upto(s, spans, spans.len() as int, m) + s.subrange(
        gap_start(spans, spans.len() as int),
        s.len() as int,
    )
}

/// A freshly drawn replacement address: eight alphanumerics, `@`, the domain.
pub open spec fn is_fresh_value(v: Seq<u8>, domain: Seq<u8>) -> bool {
    &&& v.len() == 9 + domain.len()
    &&& forall|i: int| 0 <= i < 8 ==> is_alnum_byte(v[i])
    &&& v[8] == 64
    &&& v.subrange(9, v.len() as int) == domain
}

/// The rewritten prefix depends only on the map's values at the texts of the
/// spans it covers: extending the map with other keys changes nothing.
proof fn lemma_rewrite_upto_stable(
    s: Seq<u8>,
    spans: Seq<(int, int)>,
    k: int,
    m1: Seq<(Seq<u8>, Seq<u8>)>,
    m2: Seq<(Seq<u8>, Seq<u8>)>,
)
    requires
        k <= spans.len(),
        forall|j: int|
            0 <= j < k ==> has_key(m1, text_of(s, #[trigger] spans[j])),
        forall|key: Seq<u8>|
            has_key(m1, key) ==> has_key(m2, key) && value_at(m2, key) == value_at(m1, key),
    ensures
        rewrite_upto(s, spans, k, m1) == rewrite_upto(s, spans, k, m2),
    decreases k,
{
    if k > 0 {
        lemma_rewrite_upto_stable(s, spans, k - 1, m1, m2);
    }
}

/// Extracts the bytes of a span.
fn sub_vec(s: &Vec<u8>, a: usize, b: usize) -> (r: Vec<u8>)
    requires
        a <= b <= s@.len(),
    ensures
        r@ == s@.subrange(a as int, b as int),
{
    let mut out: Vec<u8> = Vec::new();
    let mut i = a;
    while i < b
        invariant
            a <= i <= b <= s@.len(),
            out@ == s@.subrange(a as int, i as int),
        decreases b - i,
    {
        out.push(s[i]);
        proof {
            assert(out@ =~= s@.subrange(a as int, i + 1));
        }
        i = i + 1;
    }
    out
}

/// Relies on rand's `Alphanumeric` distribution: every sample is an ASCII
/// letter or digit; eight are drawn.
#[verifier::external_body]
fn random_alnum8() -> (r: Vec<u8>)
    ensures
        r@.len() == 8,
        forall|i: int| 0 <= i < 8 ==> is_alnum_byte(r@[i]),
{
    let mut rng = rand::rng();
    let mut v = Vec::new();
    while v.len() < 8 {
        v.push(rand::distr::Alphanumeric.sample(&mut rng));
    }
    v
}

/// Relies on std's `str::from_utf8`: it accepts exactly the valid UTF-8 byte
/// sequences.
#[verifier::external_body]
fn check_utf8(b: &[u8]) -> (r: bool)
    ensures
        r == vstd::utf8::valid_utf8(b@),
{
    std::str::from_utf8(b).is_ok()
}

/// Relies on std's `String::from_utf8`: it succeeds exactly on valid UTF-8
/// and returns the string of those bytes.
#[verifier::external_body]
fn string_from_utf8(v: Vec<u8>) -> (r: Option<String>)
    ensures
        match r {
            Some(s) => vstd::utf8::valid_utf8(v@) && vstd::utf8::encode_utf8(s@) == v@,
            None => !vstd::utf8::valid_utf8(v@),
        },
{
    String::from_utf8(v).ok()
}

/// Rewrites e-mail addresses with a stable per-instance mapping.
pub struct EmailAnonymizer {
    /// Each distinct address seen, with its replacement.
    map: Vec<(Vec<u8>, Vec<u8>)>,
    /// The domain of every replacement address.
    target_domain: String,
}

impl EmailAnonymizer {
    /// The mapping as an association list of byte strings.
    pub closed spec fn map_view(&self) -> Seq<(Seq<u8>, Seq<u8>)> {
        self.map@.map_values(|p: (Vec<u8>, Vec<u8>)| (p.0@, p.1@))
    }

    /// The replacement domain, as UTF-8 bytes.
    pub closed spec fn domain_bytes(&self) -> Seq<u8> {
        vstd::utf8::encode_utf8(self.target_domain@)
    }

    /// The mapping never holds two entries for one address.
    pub closed spec fn wf(&self) -> bool {
        map_wf(self.map_view())
    }

    /// A rewriter with an empty mapping over the given replacement domain.
    pub fn new(target_domain: &str) -> (r: EmailAnonymizer)
        ensures
            r.wf(),
            r.map_view() == Seq::<(Seq<u8>, Seq<u8>)>::empty(),
            r.domain_bytes() == vstd::utf8::encode_utf8(target_domain@),
    {
        let r = EmailAnonymizer { map: Vec::new(), target_domain: target_domain.to_owned() };
        proof {
            assert(r.map_view() =~= Seq::<(Seq<u8>, Seq<u8>)>::empty());
        }
        r
    }

    /// The replacement for one address: the stored one if the address was
    /// seen before, else a freshly drawn one, recorded for the future.
    fn mapping_for(&mut self, key: &Vec<u8>) -> (r: Vec<u8>)
        requires
            old(self).wf(),
        ensures
            final(self).wf(),
            final(self).domain_bytes() == old(self).domain_bytes(),
            has_key(final(self).map_view(), key@),
            r@ == value_at(final(self).map_view(), key@),
            forall|k: Seq<u8>|
                has_key(old(self).map_view(), k) ==> has_key(final(self).map_view(), k)
                    && value_at(final(self).map_view(), k) == value_at(old(self).map_view(), k),
            forall|k: Seq<u8>|
                has_key(final(self).map_view(), k) ==> has_key(old(self).map_view(), k) || k
                    == key@,
            !has_key(old(self).map_view(), key@) ==> is_fresh_value(r@, old(self).domain_bytes()),
            has_key(old(self).map_view(), key@) ==> final(self).map_view() == old(
                self,
            ).map_view(),
    {
        let n = self.map.len();
        let mut i: usize = 0;
        while i < n
            invariant
                *self == *old(self),
                self.wf(),
                n == self.map@.len(),
                i <= n,
                forall|j: int| 0 <= j < i ==> self.map@[j].0@ != key@,
            decreases n - i,
        {
            if crate::strutil::bytes_eq(&self.map[i].0, key) {
                proof {
                    assert(self.map_view()[i as int].0 == key@);
                    lemma_value_unique(self.map_view(), i as int);
                }
                return self.map[i].1.clone();
            }
            i = i + 1;
        }
        proof {
            assert(!has_key(self.map_view(), key@));
        }
        let local = random_alnum8();
        let mut value = local;
        value.push(64);
        let domain = self.target_domain.as_str().as_bytes_vec();
        value.extend_from_slice(domain.as_slice());
        proof {
            assert(value@.subrange(9, value@.len() as int) =~= domain@);
            assert(is_fresh_value(value@, old(self).domain_bytes()));
        }
        self.map.push((key.clone(), value.clone()));
        proof {
            let mv = self.map_view();
            let omv = old(self).map_view();
            assert(mv =~= omv.push((key@, value@)));
            assert(mv[mv.len() - 1].0 == key@);
            assert forall|a: int, b: int| 0 <= a < b < mv.len() implies mv[a].0 != mv[b].0 by {
                if b == mv.len() - 1 {
                    assert(omv[a].0 != key@);
                }
            }
            lemma_value_unique(mv, mv.len() - 1);
            assert forall|k: Seq<u8>| has_key(omv, k) implies has_key(mv, k) && value_at(mv, k)
                == value_at(omv, k) by {
                let w = choose|w: int| 0 <= w < omv.len() && omv[w].0 == k;
                assert(mv[w].0 == k);
                lemma_value_unique(mv, w);
                lemma_value_unique(omv, w);
            }
            assert forall|k: Seq<u8>| has_key(mv, k) implies has_key(omv, k) || k == key@ by {
                let w = choose|w: int| 0 <= w < mv.len() && mv[w].0 == k;
                if w < mv.len() - 1 {
                    assert(omv[w].0 == k);
                }
            }
        }
        value
    }

    /// Rewrites every address span of `s`, drawing fresh replacements for
    /// addresses not seen before.
    #[verifier::rlimit(60)]
    fn rewrite_bytes(&mut self, s: &Vec<u8>) -> (r: Vec<u8>)
        requires
            old(self).wf(),
        ensures
            final(self).wf(),
            final(self).domain_bytes() == old(self).domain_bytes(),
            r@ == anonymized(s@, final(self).map_view()),
            forall|k: Seq<u8>|
                has_key(old(self).map_view(), k) ==> has_key(final(self).map_view(), k)
                    && value_at(final(self).map_view(), k) == value_at(old(self).map_view(), k),
            forall|k: Seq<u8>|
                has_key(final(self).map_view(), k) && !has_key(old(self).map_view(), k) ==> (
                is_fresh_value(value_at(final(self).map_view(), k), old(self).domain_bytes())
                    && (exists|j: int|
                    0 <= j < scan_from(s@, 0).len() && text_of(s@, #[trigger] scan_from(s@, 0)[j])
                        == k)),
    {
        let spans = find_spans(s);
        proof {
            lemma_scan_wf(s@, 0);
        }
        let ghost ispans = scan_from(s@, 0);
        let mut out: Vec<u8> = Vec::new();
        let mut prev: usize = 0;
        let mut k: usize = 0;
        while k < spans.len()
            invariant
                old(self).wf(),
                self.wf(),
                self.domain_bytes() == old(self).domain_bytes(),
                spans@.map_values(|p: (usize, usize)| (p.0 as int, p.1 as int)) == ispans,
                ispans == scan_from(s@, 0),
                spans@.len() == ispans.len(),
                k <= spans@.len(),
                forall|j: int|
                    0 <= j < ispans.len() ==> 0 <= (#[trigger] ispans[j]).0 < ispans[j].1
                        <= s@.len(),
                forall|j: int| 0 < j < ispans.len() ==> (#[trigger] ispans[j]).0 >= ispans[j - 1].1,
                prev == gap_start(ispans, k as int),
                prev <= s@.len(),
                k < ispans.len() ==> prev <= ispans[k as int].0,
                out@ == rewrite_upto(s@, ispans, k as int, self.map_view()),
                forall|j: int|
                    0 <= j < k ==> has_key(self.map_view(), text_of(s@, #[trigger] ispans[j])),
                forall|key: Seq<u8>|
                    has_key(old(self).map_view(), key) ==> has_key(self.map_view(), key)
                        && value_at(self.map_view(), key) == value_at(old(self).map_view(), key),
                forall|key: Seq<u8>|
                    has_key(self.map_view(), key) && !has_key(old(self).map_view(), key) ==> (
                    is_fresh_value(value_at(self.map_view(), key), old(self).domain_bytes()) && (
                    exists|j: int|
                        0 <= j < ispans.len() && text_of(s@, #[trigger] ispans[j]) == key)),
            decreases spans@.len() - k,
        {
            let (a, b) = spans[k];
            proof {
                assert(ispans[k as int] == (a as int, b as int));
            }
            let gap = sub_vec(s, prev, a);
            out.extend_from_slice(gap.as_slice());
            let key = sub_vec(s, a, b);
            let ghost before = *self;
            let value = self.mapping_for(&key);
            out.extend_from_slice(value.as_slice());
            proof {
                lemma_rewrite_upto_stable(s@, ispans, k as int, before.map_view(),
                    self.map_view());
                assert(text_of(s@, ispans[k as int]) == key@);
                assert(out@ =~= rewrite_upto(s@, ispans, k as int, self.map_view()) + s@.subrange(
                    gap_start(ispans, k as int),
                    ispans[k as int].0,
                ) + value_at(self.map_view(), text_of(s@, ispans[k as int])));
            }
            prev = b;
            k = k + 1;
        }
        let tail = sub_vec(s, prev, s.len());
        out.extend_from_slice(tail.as_slice());
        proof {
            assert(out@ =~= rewrite_upto(s@, ispans, ispans.len() as int, self.map_view())
                + s@.subrange(gap_start(ispans, ispans.len() as int), s@.len() as int));
        }
        out
    }

    /// Rewrites the addresses of a byte string. Bytes that are not valid
    /// UTF-8 are returned unchanged, and the mapping is left alone — so on
    /// such input the rewrite is idempotent outright.
    pub fn anonymize_binary(&mut self, content: &[u8]) -> (r: Vec<u8>)
        requires
            old(self).wf(),
        ensures
            final(self).wf(),
            final(self).domain_bytes() == old(self).domain_bytes(),
            !vstd::utf8::valid_utf8(content@) ==> r@ == content@ && *final(self) == *old(self),
            vstd::utf8::valid_utf8(content@) ==> r@ == anonymized(
                content@,
                final(self).map_view(),
            ),
            forall|k: Seq<u8>|
                has_key(old(self).map_view(), k) ==> has_key(final(self).map_view(), k)
                    && value_at(final(self).map_view(), k) == value_at(old(self).map_view(), k),
            forall|k: Seq<u8>|
                has_key(final(self).map_view(), k) && !has_key(old(self).map_view(), k)
                    ==> is_fresh_value(value_at(final(self).map_view(), k), old(
                    self,
                ).domain_bytes()),
    {
        if check_utf8(content) {
            let v = vstd::slice::slice_to_vec(content);
            self.rewrite_bytes(&v)
        } else {
            vstd::slice::slice_to_vec(content)
        }
    }

    /// Rewrites the addresses of a text. The rewritten bytes are returned as
    /// a string when they are valid UTF-8 (replacement addresses are ASCII at
    /// a configured domain, so in practice they always are); otherwise the
    /// text is returned unchanged.
    pub fn anonymize_text(&mut self, text: &str) -> (r: String)
        requires
            old(self).wf(),
        ensures
            final(self).wf(),
            final(self).domain_bytes() == old(self).domain_bytes(),
            ({
                let out = anonymized(vstd::utf8::encode_utf8(text@), final(self).map_view());
                if vstd::utf8::valid_utf8(out) {
                    vstd::utf8::encode_utf8(r@) == out
                } else {
                    r@ == text@
                }
            }),
            forall|k: Seq<u8>|
                has_key(old(self).map_view(), k) ==> has_key(final(self).map_view(), k)
                    && value_at(final(self).map_view(), k) == value_at(old(self).map_view(), k),
            forall|k: Seq<u8>|
                has_key(final(self).map_view(), k) && !has_key(old(self).map_view(), k)
                    ==> is_fresh_value(value_at(final(self).map_view(), k), old(
                    self,
                ).domain_bytes()),
    {
        let bytes = text.as_bytes_vec();
        let out = self.rewrite_bytes(&bytes);
        match string_from_utf8(out) {
            Some(s) => s,
            None => text.to_owned(),
        }
    }
}

/// Rewriting replaces every occurrence of one address with one and the same
/// string: the map's value for it. Two spans with equal text contribute equal
/// replacements to the output.
pub proof fn lemma_anonymizer_stability(s: Seq<u8>, m: Seq<(Seq<u8>, Seq<u8>)>, a: int, b: int)
    requires
        0 <= a < scan_from(s, 0).len(),
        0 <= b < scan_from(s, 0).len(),
        text_of(s, scan_from(s, 0)[a]) == text_of(s, scan_from(s, 0)[b]),
    ensures
        value_at(m, text_of(s, scan_from(s, 0)[a])) == value_at(m, text_of(s, scan_from(s, 0)[b])),
{
}

/// On bytes without any address span, rewriting changes nothing, whatever the
/// map holds.
pub proof fn lemma_anonymize_no_matches(s: Seq<u8>, m: Seq<(Seq<u8>, Seq<u8>)>)
    requires
        scan_from(s, 0).len() == 0,
    ensures
        anonymized(s, m) == s,
{
    assert(anonymized(s, m) =~= s);
}

/// Rewriting is idempotent on address-free bytes: a second pass, under any
/// map state, returns the first pass's output. (Bytes that do contain an
/// address are replaced by fresh addresses, which a second pass would replace
/// again; idempotence holds only of address-free input, and of input that is
/// not valid UTF-8, which is never touched.)
pub proof fn lemma_anonymizer_idempotent(
    s: Seq<u8>,
    m1: Seq<(Seq<u8>, Seq<u8>)>,
    m2: Seq<(Seq<u8>, Seq<u8>)>,
)
    requires
        scan_from(s, 0).len() == 0,
    ensures
        anonymized(anonymized(s, m1), m2) == anonymized(s, m1),
{
    lemma_anonymize_no_matches(s, m1);
    lemma_anonymize_no_matches(s, m2);
}

} // verus!
