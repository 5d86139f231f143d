//! Byte-level text helpers shared by the parsing modules.
//!
//! All parsing in this crate is specified over `Seq<u8>`: each helper has a
//! spec-level counterpart that states what it computes, and the executable
//! function is proved equal to it.

use vstd::prelude::*;
use vstd::string::StringSliceAdditionalSpecFns;

verus! {

/// ASCII whitespace, as the parsers here treat it: space, tab, line feed,
/// vertical tab, form feed, carriage return.
pub open spec fn is_ws(b: u8) -> bool {
    b == 32 || b == 9 || b == 10 || b == 11 || b == 12 || b == 13
}

/// Whether `b` is ASCII whitespace.
pub fn is_ws_byte(b: u8) -> (r: bool)
    ensures
        r == is_ws(b),
{
    b == 32 || b == 9 || b == 10 || b == 11 || b == 12 || b == 13
}

/// Every byte of `s` is an ASCII decimal digit.
pub open spec fn all_digits(s: Seq<u8>) -> bool {
    forall|i: int| 0 <= i < s.len() ==> (48 <= #[trigger] s[i] <= 57)
}

/// Numeric value of a sequence of ASCII digits (most significant first).
pub open spec fn dec_val(s: Seq<u8>) -> int
    decreases s.len(),
{
    if s.len() == 0 {
        0
    } else {
        dec_val(s.drop_last()) * 10 + (s.last() - 48)
    }
}

/// On pure digit sequences the value is non-negative.
pub proof fn lemma_dec_val_nonneg(s: Seq<u8>)
    requires
        all_digits(s),
    ensures
        dec_val(s) >= 0,
    decreases s.len(),
{
    if s.len() > 0 {
        assert(all_digits(s.drop_last()));
        lemma_dec_val_nonneg(s.drop_last());
        assert(dec_val(s.drop_last()) * 10 >= 0) by (nonlinear_arith)
            requires
                dec_val(s.drop_last()) >= 0,
        ;
    }
}

/// Appending digits never decreases the value.
pub proof fn lemma_dec_val_prefix_le(s: Seq<u8>, i: int)
    requires
        0 <= i <= s.len(),
        all_digits(s),
    ensures
        dec_val(s.take(i)) <= dec_val(s),
    decreases s.len() - i,
{
    if i < s.len() {
        assert(s.take(i + 1).drop_last() =~= s.take(i));
        assert(s.take(i + 1).last() == s[i]);
        assert(all_digits(s.take(i)));
        lemma_dec_val_nonneg(s.take(i));
        assert(dec_val(s.take(i)) * 10 >= dec_val(s.take(i))) by (nonlinear_arith)
            requires
                dec_val(s.take(i)) >= 0,
        ;
        assert(dec_val(s.take(i + 1)) == dec_val(s.take(i)) * 10 + (s[i] - 48));
        lemma_dec_val_prefix_le(s, i + 1);
    } else {
        assert(s.take(i) =~= s);
    }
}

/// Parse an unsigned decimal integer, exactly as `str::parse::<u64>` accepts
/// it for plain digit strings: non-empty, all digits, value within range.
pub fn parse_u64_bytes(s: &[u8]) -> (r: Option<u64>)
    ensures
        r is Some <==> (s@.len() > 0 && all_digits(s@) && dec_val(s@) <= u64::MAX),
        r is Some ==> r->Some_0 == dec_val(s@),
{
    if s.len() == 0 {
        return None;
    }
    let mut acc: u64 = 0;
    let mut i: usize = 0;
    while i < s.len()
        invariant
            0 <= i <= s@.len(),
            s@.len() > 0,
            all_digits(s@.take(i as int)),
            acc == dec_val(s@.take(i as int)),
        decreases s@.len() - i,
    {
        let b = *vstd::slice::slice_index_get(s, i);
        if b < 48 || b > 57 {
            return None;
        }
        let d: u64 = (b - 48) as u64;
        proof {
            assert(s@.take(i + 1).drop_last() =~= s@.take(i as int));
            assert(s@.take(i + 1).last() == s@[i as int]);
        }
        let next = match acc.checked_mul(10) {
            Some(m) => m.checked_add(d),
            None => None,
        };
        match next {
            Some(v) => {
                acc = v;
            },
            None => {
                proof {
                    assert(dec_val(s@.take(i + 1)) == acc * 10 + d);
                    assert(dec_val(s@.take(i + 1)) > u64::MAX);
                    if all_digits(s@) && dec_val(s@) <= u64::MAX {
                        lemma_dec_val_prefix_le(s@, i + 1);
                        assert(false);
                    }
                }
                return None;
            },
        }
        i = i + 1;
    }
    proof {
        assert(s@.take(s@.len() as int) =~= s@);
    }
    Some(acc)
}

/// The needle `n` occurs in `h` starting at position `i`.
pub open spec fn is_match_at(h: Seq<u8>, n: Seq<u8>, i: int) -> bool {
    0 <= i && i + n.len() <= h.len() && h.subrange(i, i + n.len() as int) == n
}

/// The needle occurs somewhere in the haystack.
pub open spec fn spec_contains(h: Seq<u8>, n: Seq<u8>) -> bool {
    exists|i: int| is_match_at(h, n, i)
}

/// Leftmost occurrence of `n` in `h`, if any.
pub fn find_sub(h: &[u8], n: &[u8]) -> (r: Option<usize>)
    ensures
        match r {
            Some(i) => is_match_at(h@, n@, i as int) && forall|j: int|
                0 <= j < i ==> !is_match_at(h@, n@, j),
            None => !spec_contains(h@, n@),
        },
{
    if n.len() == 0 {
        proof {
            assert(h@.subrange(0, 0) =~= n@);
        }
        return Some(0);
    }
    if n.len() > h.len() {
        proof {
            assert forall|j: int| !is_match_at(h@, n@, j) by {}
        }
        return None;
    }
    let mut i: usize = 0;
    while i <= h.len() - n.len()
        invariant
            1 <= n@.len() <= h@.len(),
            0 <= i <= h@.len() - n@.len() + 1,
            forall|j: int| 0 <= j < i ==> !is_match_at(h@, n@, j),
        decreases h@.len() - n@.len() - i + 1,
    {
        let cand = vstd::slice::slice_subrange(h, i, i + n.len());
        if bytes_eq(cand, n) {
            return Some(i);
        }
        proof {
            if is_match_at(h@, n@, i as int) {
                assert(cand@ =~= n@);
            }
        }
        i = i + 1;
    }
    proof {
        assert forall|j: int| !is_match_at(h@, n@, j) by {
            if is_match_at(h@, n@, j) {
                assert(j + n@.len() <= h@.len());
                assert(j < i);
            }
        }
    }
    None
}

/// Some byte of `s` is `b`.
pub open spec fn contains_byte(s: Seq<u8>, b: u8) -> bool {
    exists|i: int| 0 <= i < s.len() && s[i] == b
}

/// Position of the leftmost occurrence of byte `b` in `s`, if any.
pub open spec fn spec_find_byte(s: Seq<u8>, b: u8) -> Option<int>
    decreases s.len(),
{
    if s.len() == 0 {
        None
    } else if s[0] == b {
        Some(0)
    } else {
        match spec_find_byte(s.drop_first(), b) {
            Some(i) => Some(i + 1),
            None => None,
        }
    }
}

/// `spec_find_byte` names the leftmost hit.
pub proof fn lemma_spec_find_byte_correct(s: Seq<u8>, b: u8)
    ensures
        match spec_find_byte(s, b) {
            Some(i) => 0 <= i < s.len() && s[i] == b && forall|j: int| 0 <= j < i ==> s[j] != b,
            None => forall|j: int| 0 <= j < s.len() ==> s[j] != b,
        },
    decreases s.len(),
{
    if s.len() > 0 && s[0] != b {
        let t = s.drop_first();
        lemma_spec_find_byte_correct(t, b);
        match spec_find_byte(t, b) {
            Some(i) => {
                assert(t[i] == s[i + 1]);
                assert forall|j: int| 0 <= j < i + 1 implies s[j] != b by {
                    if j > 0 {
                        assert(t[j - 1] == s[j]);
                    }
                }
            },
            None => {
                assert forall|j: int| 0 <= j < s.len() implies s[j] != b by {
                    if j > 0 {
                        assert(t[j - 1] == s[j]);
                    }
                }
            },
        }
    }
}

/// `find_byte`, tied to the spec-level find.
pub fn find_byte_spec(s: &[u8], b: u8) -> (r: Option<usize>)
    ensures
        match r {
            Some(i) => spec_find_byte(s@, b) == Some(i as int),
            None => spec_find_byte(s@, b) is None,
        },
{
    proof {
        lemma_spec_find_byte_correct(s@, b);
    }
    let r = find_byte(s, b);
    proof {
        match r {
            Some(i) => {
                match spec_find_byte(s@, b) {
                    Some(k) => {
                        assert(!(k < i) && !(i < k));
                    },
                    None => {
                        assert(s@[i as int] == b);
                    },
                }
            },
            None => {
                if spec_find_byte(s@, b) is Some {
                    let k = spec_find_byte(s@, b)->Some_0;
                    assert(s@[k] == b);
                }
            },
        }
    }
    r
}

/// Position of the leftmost occurrence of `n` in `h`, if any.
pub open spec fn spec_find(h: Seq<u8>, n: Seq<u8>) -> Option<int>
    decreases h.len(),
{
    if spec_starts_with(h, n) {
        Some(0)
    } else if h.len() == 0 {
        None
    } else {
        match spec_find(h.drop_first(), n) {
            Some(i) => Some(i + 1),
            None => None,
        }
    }
}

/// `spec_find` names the leftmost match.
pub proof fn lemma_spec_find_correct(h: Seq<u8>, n: Seq<u8>)
    ensures
        match spec_find(h, n) {
            Some(i) => is_match_at(h, n, i) && forall|j: int| 0 <= j < i ==> !is_match_at(h, n, j),
            None => !spec_contains(h, n),
        },
    decreases h.len(),
{
    if spec_starts_with(h, n) {
        assert(h.take(n.len() as int) =~= h.subrange(0, n.len() as int));
    } else if h.len() == 0 {
        assert forall|j: int| !is_match_at(h, n, j) by {
            if is_match_at(h, n, j) {
                assert(h.subrange(j, j + n.len() as int) == n);
                assert(n.len() == 0);
                assert(h.take(0) =~= Seq::<u8>::empty());
                assert(n =~= Seq::<u8>::empty());
            }
        }
    } else {
        lemma_spec_find_correct(h.drop_first(), n);
        let t = h.drop_first();
        assert forall|j: int| 1 <= j ==> (is_match_at(h, n, j) <==> is_match_at(
            t,
            n,
            j - 1,
        )) by {
            if 1 <= j {
                if is_match_at(h, n, j) {
                    assert(t.subrange(j - 1, j - 1 + n.len() as int) =~= h.subrange(
                        j,
                        j + n.len() as int,
                    ));
                }
                if is_match_at(t, n, j - 1) {
                    assert(h.subrange(j, j + n.len() as int) =~= t.subrange(
                        j - 1,
                        j - 1 + n.len() as int,
                    ));
                }
            }
        }
        match spec_find(t, n) {
            Some(i) => {
                assert(is_match_at(h, n, i + 1));
                assert forall|j: int| 0 <= j < i + 1 implies !is_match_at(h, n, j) by {
                    if j == 0 {
                        if is_match_at(h, n, 0) {
                            assert(h.take(n.len() as int) =~= h.subrange(0, n.len() as int));
                        }
                    } else {
                        assert(!is_match_at(t, n, j - 1));
                    }
                }
            },
            None => {
                assert forall|j: int| !is_match_at(h, n, j) by {
                    if is_match_at(h, n, j) {
                        if j == 0 {
                            assert(h.take(n.len() as int) =~= h.subrange(0, n.len() as int));
                        } else {
                            assert(is_match_at(t, n, j - 1));
                            assert(spec_contains(t, n));
                        }
                    }
                }
            },
        }
    }
}

/// `find_sub`, tied to the spec-level find.
pub fn find_sub_spec(h: &[u8], n: &[u8]) -> (r: Option<usize>)
    ensures
        match r {
            Some(i) => spec_find(h@, n@) == Some(i as int),
            None => spec_find(h@, n@) is None,
        },
{
    proof {
        lemma_spec_find_correct(h@, n@);
    }
    let r = find_sub(h, n);
    proof {
        match r {
            Some(i) => {
                match spec_find(h@, n@) {
                    Some(k) => {
                        if k < i {
                            assert(!is_match_at(h@, n@, k));
                        }
                        if i < k {
                            assert(!is_match_at(h@, n@, i as int));
                        }
                    },
                    None => {
                        assert(spec_contains(h@, n@));
                    },
                }
            },
            None => {
                if spec_find(h@, n@) is Some {
                    let k = spec_find(h@, n@)->Some_0;
                    assert(is_match_at(h@, n@, k));
                    assert(spec_contains(h@, n@));
                }
            },
        }
    }
    r
}

/// Rightmost occurrence of `n` in `h`, if any.
pub fn rfind_sub(h: &[u8], n: &[u8]) -> (r: Option<usize>)
    ensures
        match r {
            Some(i) => is_match_at(h@, n@, i as int) && forall|j: int|
                i < j ==> !is_match_at(h@, n@, j),
            None => !spec_contains(h@, n@),
        },
{
    if n.len() == 0 {
        proof {
            assert(h@.subrange(h@.len() as int, h@.len() as int) =~= n@);
        }
        return Some(h.len());
    }
    if n.len() > h.len() {
        proof {
            assert forall|j: int| !is_match_at(h@, n@, j) by {}
        }
        return None;
    }
    let mut i: usize = h.len() - n.len() + 1;
    while i > 0
        invariant
            n@.len() <= h@.len(),
            0 <= i <= h@.len() - n@.len() + 1,
            forall|j: int| i <= j ==> !is_match_at(h@, n@, j),
        decreases i,
    {
        i = i - 1;
        let hl = h.len();
        proof {
            assert(i + n@.len() <= hl as int);
        }
        let cand = vstd::slice::slice_subrange(h, i, i + n.len());
        if bytes_eq(cand, n) {
            return Some(i);
        }
        proof {
            if is_match_at(h@, n@, i as int) {
                assert(cand@ =~= n@);
            }
        }
    }
    proof {
        assert forall|j: int| !is_match_at(h@, n@, j) by {
            if is_match_at(h@, n@, j) {
                assert(j + n@.len() <= h@.len());
            }
        }
    }
    None
}

/// The segments of `s` split on the separator `sep`, leftmost first, as
/// `str::split` with a multi-character pattern yields them.
pub open spec fn spec_split_sub(s: Seq<u8>, sep: Seq<u8>) -> Seq<Seq<u8>>
    decreases s.len(),
    via spec_split_sub_decreases
{
    if sep.len() == 0 {
        seq![s]
    } else {
        match spec_find(s, sep) {
            None => seq![s],
            Some(i) => seq![s.take(i)] + spec_split_sub(s.skip(i + sep.len() as int), sep),
        }
    }
}

#[via_fn]
proof fn spec_split_sub_decreases(s: Seq<u8>, sep: Seq<u8>) {
    if sep.len() > 0 {
        lemma_spec_find_correct(s, sep);
        match spec_find(s, sep) {
            Some(i) => {
                assert(i + sep.len() <= s.len());
            },
            None => {},
        }
    }
}

/// Split on a non-empty separator.
pub fn split_by(s: &[u8], sep: &[u8]) -> (r: Vec<Vec<u8>>)
    requires
        sep@.len() > 0,
    ensures
        r.deep_view() == spec_split_sub(s@, sep@),
{
    let mut res: Vec<Vec<u8>> = Vec::new();
    let mut rest: Vec<u8> = vstd::slice::slice_to_vec(s);
    proof {
        assert(res.deep_view() =~= Seq::<Seq<u8>>::empty());
        assert(res.deep_view() + spec_split_sub(s@, sep@) =~= spec_split_sub(s@, sep@));
    }
    loop
        invariant
            sep@.len() > 0,
            res.deep_view() + spec_split_sub(rest@, sep@) == spec_split_sub(s@, sep@),
        decreases rest@.len(),
    {
        proof {
            lemma_spec_find_correct(rest@, sep@);
        }
        match find_sub_spec(rest.as_slice(), sep) {
            Some(i) => {
                let rl = rest.len();
                proof {
                    assert(is_match_at(rest@, sep@, i as int));
                    assert(i + sep@.len() <= rl as int);
                }
                let piece = vstd::slice::slice_to_vec(
                    vstd::slice::slice_subrange(rest.as_slice(), 0, i),
                );
                let next = vstd::slice::slice_to_vec(
                    vstd::slice::slice_subrange(rest.as_slice(), i + sep.len(), rest.len()),
                );
                proof {
                    assert(piece@ =~= rest@.take(i as int));
                    assert(next@ =~= rest@.skip(i + sep@.len() as int));
                }
                let ghost prev = res.deep_view();
                let ghost old_rest = rest@;
                res.push(piece);
                rest = next;
                proof {
                    assert(res.deep_view() =~~= prev.push(old_rest.take(
                        spec_find(old_rest, sep@)->Some_0,
                    )));
                    assert(prev.push(old_rest.take(spec_find(old_rest, sep@)->Some_0))
                        + spec_split_sub(rest@, sep@) =~= prev + spec_split_sub(
                        old_rest,
                        sep@,
                    ));
                }
            },
            None => {
                let ghost prev = res.deep_view();
                let ghost old_rest = rest@;
                res.push(rest);
                proof {
                    assert(res.deep_view() =~~= prev.push(old_rest));
                    assert(spec_split_sub(old_rest, sep@) =~= seq![old_rest]);
                    assert(prev.push(old_rest) =~= prev + spec_split_sub(old_rest, sep@));
                }
                return res;
            },
        }
    }
}

/// Lower-case image of an ASCII byte.
pub open spec fn lower_byte(b: u8) -> u8 {
    if 65 <= b <= 90 {
        (b + 32) as u8
    } else {
        b
    }
}

/// Case-insensitive ASCII equality, as `str::eq_ignore_ascii_case` reports
/// it.
pub open spec fn spec_eq_icase(a: Seq<u8>, b: Seq<u8>) -> bool {
    a.map_values(|x: u8| lower_byte(x)) == b.map_values(|x: u8| lower_byte(x))
}

/// Compare two byte strings ignoring ASCII case.
pub fn eq_icase(a: &[u8], b: &[u8]) -> (r: bool)
    ensures
        r == spec_eq_icase(a@, b@),
{
    if a.len() != b.len() {
        proof {
            assert(a@.map_values(|x: u8| lower_byte(x)).len() == a@.len());
            assert(b@.map_values(|x: u8| lower_byte(x)).len() == b@.len());
        }
        return false;
    }
    let mut i: usize = 0;
    while i < a.len()
        invariant
            a@.len() == b@.len(),
            0 <= i <= a@.len(),
            forall|j: int| 0 <= j < i ==> lower_byte(a@[j]) == lower_byte(b@[j]),
        decreases a@.len() - i,
    {
        let mut x = *vstd::slice::slice_index_get(a, i);
        let mut y = *vstd::slice::slice_index_get(b, i);
        if x >= 65 && x <= 90 {
            x = x + 32;
        }
        if y >= 65 && y <= 90 {
            y = y + 32;
        }
        if x != y {
            proof {
                assert(a@.map_values(|v: u8| lower_byte(v))[i as int] == lower_byte(a@[i as int]));
                assert(b@.map_values(|v: u8| lower_byte(v))[i as int] == lower_byte(b@[i as int]));
            }
            return false;
        }
        i = i + 1;
    }
    proof {
        assert(a@.map_values(|v: u8| lower_byte(v)) =~= b@.map_values(|v: u8| lower_byte(v)));
    }
    true
}

/// `s` ends with `p`.
pub open spec fn spec_ends_with(s: Seq<u8>, p: Seq<u8>) -> bool {
    p.len() <= s.len() && s.skip(s.len() - p.len()) == p
}

/// Whether `s` ends with `p`, as `str::ends_with` reports it.
pub fn ends_with_bytes(s: &[u8], p: &[u8]) -> (r: bool)
    ensures
        r == spec_ends_with(s@, p@),
{
    if p.len() > s.len() {
        return false;
    }
    let tail = vstd::slice::slice_subrange(s, s.len() - p.len(), s.len());
    let r = bytes_eq(tail, p);
    proof {
        assert(tail@ =~= s@.skip(s@.len() - p@.len()));
        if r {
            assert(s@.skip(s@.len() - p@.len()) =~= p@);
        }
    }
    r
}

/// Whether the needle occurs in the haystack, as `str::contains` reports it.
pub fn contains_sub(h: &[u8], n: &[u8]) -> (r: bool)
    ensures
        r == spec_contains(h@, n@),
{
    find_sub(h, n).is_some()
}

/// Rightmost position of byte `b` in `s`, if any.
pub fn rfind_byte(s: &[u8], b: u8) -> (r: Option<usize>)
    ensures
        match r {
            Some(i) => i < s@.len() && s@[i as int] == b && forall|j: int|
                i < j < s@.len() ==> s@[j] != b,
            None => forall|j: int| 0 <= j < s@.len() ==> s@[j] != b,
        },
{
    let mut i: usize = s.len();
    while i > 0
        invariant
            0 <= i <= s@.len(),
            forall|j: int| i <= j < s@.len() ==> s@[j] != b,
        decreases i,
    {
        i = i - 1;
        if *vstd::slice::slice_index_get(s, i) == b {
            return Some(i);
        }
    }
    None
}

/// Leftmost position of byte `b` in `s`, if any.
pub fn find_byte(s: &[u8], b: u8) -> (r: Option<usize>)
    ensures
        match r {
            Some(i) => i < s@.len() && s@[i as int] == b && forall|j: int|
                0 <= j < i ==> s@[j] != b,
            None => forall|j: int| 0 <= j < s@.len() ==> s@[j] != b,
        },
{
    let mut i: usize = 0;
    while i < s.len()
        invariant
            0 <= i <= s@.len(),
            forall|j: int| 0 <= j < i ==> s@[j] != b,
        decreases s@.len() - i,
    {
        if *vstd::slice::slice_index_get(s, i) == b {
            return Some(i);
        }
        i = i + 1;
    }
    None
}

/// `s` with leading whitespace removed.
pub open spec fn spec_trim_start(s: Seq<u8>) -> Seq<u8>
    decreases s.len(),
{
    if s.len() == 0 || !is_ws(s[0]) {
        s
    } else {
        spec_trim_start(s.drop_first())
    }
}

/// `s` with trailing whitespace removed.
pub open spec fn spec_trim_end(s: Seq<u8>) -> Seq<u8>
    decreases s.len(),
{
    if s.len() == 0 || !is_ws(s.last()) {
        s
    } else {
        spec_trim_end(s.drop_last())
    }
}

/// `s` with leading and trailing whitespace removed, as `str::trim` leaves it
/// for ASCII text.
pub open spec fn spec_trim(s: Seq<u8>) -> Seq<u8> {
    spec_trim_end(spec_trim_start(s))
}

/// Trim ASCII whitespace from both ends.
pub fn trim_bytes(s: &[u8]) -> (r: Vec<u8>)
    ensures
        r@ == spec_trim(s@),
{
    proof {
        assert(s@.skip(0) =~= s@);
    }
    let mut a: usize = 0;
    while a < s.len() && is_ws_byte(*vstd::slice::slice_index_get(s, a))
        invariant
            0 <= a <= s@.len(),
            spec_trim_start(s@) == spec_trim_start(s@.skip(a as int)),
        decreases s@.len() - a,
    {
        proof {
            assert(s@.skip(a as int)[0] == s@[a as int]);
            assert(s@.skip(a as int).drop_first() =~= s@.skip(a + 1));
        }
        a = a + 1;
    }
    proof {
        if a < s@.len() {
            assert(s@.skip(a as int)[0] == s@[a as int]);
        }
        assert(spec_trim_start(s@) == s@.skip(a as int));
        assert(s@.skip(a as int).take(s@.len() - a) =~= s@.skip(a as int));
    }
    let mut e: usize = s.len();
    while e > a && is_ws_byte(*vstd::slice::slice_index_get(s, e - 1))
        invariant
            0 <= a <= e <= s@.len(),
            spec_trim_start(s@) == s@.skip(a as int),
            spec_trim_end(s@.skip(a as int)) == spec_trim_end(s@.skip(a as int).take(e - a)),
        decreases e,
    {
        proof {
            let cur = s@.skip(a as int).take(e - a);
            assert(cur.last() == s@[e - 1]);
            assert(cur.drop_last() =~= s@.skip(a as int).take(e - 1 - a));
        }
        e = e - 1;
    }
    proof {
        let cur = s@.skip(a as int).take(e - a);
        if e > a {
            assert(cur.last() == s@[e - 1]);
        }
        assert(spec_trim_end(cur) == cur);
        assert(cur =~= s@.subrange(a as int, e as int));
    }
    vstd::slice::slice_to_vec(vstd::slice::slice_subrange(s, a, e))
}

/// Length of the leading run of non-whitespace bytes.
pub open spec fn token_len(s: Seq<u8>) -> nat
    decreases s.len(),
{
    if s.len() == 0 || is_ws(s[0]) {
        0
    } else {
        1 + token_len(s.drop_first())
    }
}

/// The leading token never reaches past the end.
pub proof fn lemma_token_len_le(s: Seq<u8>)
    ensures
        token_len(s) <= s.len(),
    decreases s.len(),
{
    if s.len() > 0 && !is_ws(s[0]) {
        lemma_token_len_le(s.drop_first());
    }
}

/// The whitespace-separated tokens of `s`, as `str::split_whitespace` yields
/// them for ASCII text.
pub open spec fn spec_tokens(s: Seq<u8>) -> Seq<Seq<u8>>
    decreases s.len(),
    via spec_tokens_decreases
{
    if s.len() == 0 {
        Seq::empty()
    } else if is_ws(s[0]) {
        spec_tokens(s.drop_first())
    } else {
        seq![s.take(token_len(s) as int)] + spec_tokens(s.skip(token_len(s) as int))
    }
}

#[via_fn]
proof fn spec_tokens_decreases(s: Seq<u8>) {
    if s.len() > 0 && !is_ws(s[0]) {
        lemma_token_len_le(s);
        assert(token_len(s) >= 1);
    }
}

/// Split on ASCII whitespace.
pub fn tokens(s: &[u8]) -> (r: Vec<Vec<u8>>)
    ensures
        r.deep_view() == spec_tokens(s@),
{
    let mut res: Vec<Vec<u8>> = Vec::new();
    proof {
        assert(s@.skip(0) =~= s@);
        assert(res.deep_view() =~= Seq::<Seq<u8>>::empty());
        assert(res.deep_view() + spec_tokens(s@) =~= spec_tokens(s@));
    }
    let mut i: usize = 0;
    while i < s.len()
        invariant
            0 <= i <= s@.len(),
            res.deep_view() + spec_tokens(s@.skip(i as int)) == spec_tokens(s@),
        decreases s@.len() - i,
    {
        let b = *vstd::slice::slice_index_get(s, i);
        if b == 32 || b == 9 || b == 10 || b == 11 || b == 12 || b == 13 {
            proof {
                assert(s@.skip(i as int)[0] == s@[i as int]);
                assert(s@.skip(i as int).drop_first() =~= s@.skip(i + 1));
            }
            i = i + 1;
        } else {
            let start = i;
            let mut j: usize = i;
            proof {
                assert(s@.skip(i as int)[0] == s@[i as int]);
            }
            while j < s.len() && !is_ws_byte(*vstd::slice::slice_index_get(s, j))
                invariant
                    0 <= start <= j <= s@.len(),
                    token_len(s@.skip(start as int)) == (j - start) + token_len(
                        s@.skip(j as int),
                    ),
                decreases s@.len() - j,
            {
                proof {
                    assert(s@.skip(j as int)[0] == s@[j as int]);
                    assert(s@.skip(j as int).drop_first() =~= s@.skip(j + 1));
                }
                j = j + 1;
            }
            let ghost rest = s@.skip(start as int);
            let ghost tl = token_len(rest) as int;
            proof {
                if j < s@.len() {
                    assert(s@.skip(j as int)[0] == s@[j as int]);
                }
                assert(token_len(s@.skip(j as int)) == 0);
                assert(tl == j - start);
                assert(rest[0] == s@[start as int]);
                assert(rest.take(tl) =~= s@.subrange(start as int, j as int));
                assert(rest.skip(tl) =~= s@.skip(j as int));
                assert(spec_tokens(rest) == seq![s@.subrange(start as int, j as int)]
                    + spec_tokens(s@.skip(j as int)));
            }
            let tok = vstd::slice::slice_to_vec(vstd::slice::slice_subrange(s, start, j));
            let ghost prev = res.deep_view();
            res.push(tok);
            proof {
                assert(res.deep_view() =~~= prev.push(s@.subrange(start as int, j as int)));
                assert(prev.push(s@.subrange(start as int, j as int)) + spec_tokens(
                    s@.skip(j as int),
                ) =~= prev + spec_tokens(rest));
            }
            i = j;
        }
    }
    proof {
        assert(s@.skip(i as int).len() == 0);
        assert(spec_tokens(s@.skip(i as int)) =~= Seq::<Seq<u8>>::empty());
        assert(res.deep_view() + Seq::<Seq<u8>>::empty() =~= res.deep_view());
    }
    res
}

/// Length of the leading run of bytes other than `b`.
pub open spec fn seg_len(s: Seq<u8>, b: u8) -> nat
    decreases s.len(),
{
    if s.len() == 0 || s[0] == b {
        0
    } else {
        1 + seg_len(s.drop_first(), b)
    }
}

/// The leading segment never reaches past the end.
pub proof fn lemma_seg_len_le(s: Seq<u8>, b: u8)
    ensures
        seg_len(s, b) <= s.len(),
    decreases s.len(),
{
    if s.len() > 0 && s[0] != b {
        lemma_seg_len_le(s.drop_first(), b);
    }
}

/// A line with one trailing carriage return removed, as `str::lines` yields it.
pub open spec fn strip_cr(s: Seq<u8>) -> Seq<u8> {
    if s.len() > 0 && s.last() == 13 {
        s.drop_last()
    } else {
        s
    }
}

/// The lines of `s`, split on line feeds, each stripped of one trailing
/// carriage return; a trailing line feed yields no extra empty line.  This is
/// how `str::lines` behaves.
pub open spec fn spec_lines(s: Seq<u8>) -> Seq<Seq<u8>>
    decreases s.len(),
    via spec_lines_decreases
{
    if s.len() == 0 {
        Seq::empty()
    } else {
        let l = seg_len(s, 10) as int;
        if l == s.len() {
            seq![strip_cr(s.take(l))]
        } else {
            seq![strip_cr(s.take(l))] + spec_lines(s.skip(l + 1))
        }
    }
}

#[via_fn]
proof fn spec_lines_decreases(s: Seq<u8>) {
    if s.len() > 0 {
        lemma_seg_len_le(s, 10);
    }
}

/// Split into lines.
pub fn lines_of(s: &[u8]) -> (r: Vec<Vec<u8>>)
    ensures
        r.deep_view() == spec_lines(s@),
{
    let mut res: Vec<Vec<u8>> = Vec::new();
    proof {
        assert(s@.skip(0) =~= s@);
        assert(res.deep_view() =~= Seq::<Seq<u8>>::empty());
        assert(res.deep_view() + spec_lines(s@) =~= spec_lines(s@));
    }
    let mut i: usize = 0;
    while i < s.len()
        invariant
            0 <= i <= s@.len(),
            res.deep_view() + spec_lines(s@.skip(i as int)) == spec_lines(s@),
        decreases s@.len() - i,
    {
        let start = i;
        let mut j: usize = i;
        while j < s.len() && *vstd::slice::slice_index_get(s, j) != 10
            invariant
                0 <= start <= j <= s@.len(),
                seg_len(s@.skip(start as int), 10) == (j - start) + seg_len(
                    s@.skip(j as int),
                    10,
                ),
            decreases s@.len() - j,
        {
            proof {
                assert(s@.skip(j as int)[0] == s@[j as int]);
                assert(s@.skip(j as int).drop_first() =~= s@.skip(j + 1));
            }
            j = j + 1;
        }
        let ghost rest = s@.skip(start as int);
        let ghost l = seg_len(rest, 10) as int;
        proof {
            if j < s@.len() {
                assert(s@.skip(j as int)[0] == s@[j as int]);
            }
            assert(seg_len(s@.skip(j as int), 10) == 0);
            assert(l == j - start);
            assert(rest.take(l) =~= s@.subrange(start as int, j as int));
        }
        let mut end = j;
        if j > start && *vstd::slice::slice_index_get(s, j - 1) == 13 {
            end = j - 1;
        }
        proof {
            let line = rest.take(l);
            if line.len() > 0 {
                assert(line.last() == s@[j - 1]);
            }
            assert(strip_cr(line) =~= s@.subrange(start as int, end as int));
        }
        let line = vstd::slice::slice_to_vec(vstd::slice::slice_subrange(s, start, end));
        let ghost prev = res.deep_view();
        res.push(line);
        proof {
            assert(res.deep_view() =~~= prev.push(s@.subrange(start as int, end as int)));
            if j < s@.len() {
                assert(rest.skip(l + 1) =~= s@.skip(j + 1));
                assert(spec_lines(rest) == seq![strip_cr(rest.take(l))] + spec_lines(
                    s@.skip(j + 1),
                ));
                assert(prev.push(s@.subrange(start as int, end as int)) + spec_lines(
                    s@.skip(j + 1),
                ) =~= prev + spec_lines(rest));
            } else {
                assert(spec_lines(rest) =~= seq![s@.subrange(start as int, end as int)]);
                assert(s@.skip(s@.len() as int).len() == 0);
                assert(prev.push(s@.subrange(start as int, end as int)) + spec_lines(
                    s@.skip(s@.len() as int),
                ) =~= prev + spec_lines(rest));
            }
        }
        if j < s.len() {
            i = j + 1;
        } else {
            i = j;
        }
    }
    proof {
        assert(s@.skip(i as int).len() == 0);
        assert(spec_lines(s@.skip(i as int)) =~= Seq::<Seq<u8>>::empty());
        assert(res.deep_view() + Seq::<Seq<u8>>::empty() =~= res.deep_view());
    }
    res
}

/// Decimal digits of `n`, most significant first.
pub open spec fn dec_bytes(n: int) -> Seq<u8>
    decreases n,
{
    if n < 10 {
        seq![(48 + if n >= 0 {
            n
        } else {
            0
        }) as u8]
    } else {
        dec_bytes(n / 10) + seq![(48 + n % 10) as u8]
    }
}

/// Render an unsigned integer in decimal.
pub fn u64_to_dec(n: u64) -> (r: Vec<u8>)
    ensures
        r@ == dec_bytes(n as int),
    decreases n,
{
    if n < 10 {
        let mut v: Vec<u8> = Vec::new();
        v.push(48 + n as u8);
        proof {
            assert(v@ =~= dec_bytes(n as int));
        }
        v
    } else {
        let mut v = u64_to_dec(n / 10);
        v.push(48 + (n % 10) as u8);
        proof {
            assert(v@ =~= dec_bytes(n as int));
        }
        v
    }
}

/// The chars of an ASCII byte sequence.
pub open spec fn ascii_chars(s: Seq<u8>) -> Seq<char> {
    s.map_values(|b: u8| b as char)
}

/// Relies on `String::from_utf8`: ASCII bytes decode to the corresponding
/// one-byte characters, and ASCII is always valid UTF-8.
#[verifier::external_body]
pub(crate) fn ascii_to_string(bytes: Vec<u8>) -> (r: String)
    requires
        forall|i: int| 0 <= i < bytes@.len() ==> bytes@[i] < 128,
    ensures
        r@ == ascii_chars(bytes@),
{
    String::from_utf8(bytes).unwrap_or_default()
}

/// What `String::from_utf8_lossy` yields for a given byte sequence; it is a
/// function of the bytes alone.
pub uninterp spec fn utf8_lossy_of(s: Seq<u8>) -> Seq<char>;

/// Relies on `String::from_utf8_lossy`: the result depends on the bytes
/// alone, valid UTF-8 passes through unchanged, and so in particular does
/// plain ASCII.
#[verifier::external_body]
pub(crate) fn lossy_string(bytes: &[u8]) -> (r: String)
    ensures
        r@ == utf8_lossy_of(bytes@),
        vstd::utf8::valid_utf8(bytes@) ==> r@ == vstd::utf8::decode_utf8(bytes@),
        (forall|i: int| 0 <= i < bytes@.len() ==> bytes@[i] < 128) ==> r@ == ascii_chars(bytes@),
{
    String::from_utf8_lossy(bytes).into_owned()
}

/// Relies on `chrono::Utc::now`: the current wall-clock time in milliseconds
/// since the Unix epoch.  Nothing is promised of the value.
#[verifier::external_body]
pub fn now_ms() -> u64 {
    let ms = chrono::Utc::now().timestamp_millis();
    if ms >= 0 {
        ms as u64
    } else {
        0
    }
}

/// Byte-wise equality of two slices.
pub fn bytes_eq(a: &[u8], b: &[u8]) -> (r: bool)
    ensures
        r == (a@ =~= b@),
{
    if a.len() != b.len() {
        return false;
    }
    let mut i: usize = 0;
    while i < a.len()
        invariant
            a@.len() == b@.len(),
            0 <= i <= a@.len(),
            forall|j: int| 0 <= j < i ==> a@[j] == b@[j],
        decreases a@.len() - i,
    {
        if *vstd::slice::slice_index_get(a, i) != *vstd::slice::slice_index_get(b, i) {
            return false;
        }
        i = i + 1;
    }
    proof {
        assert(a@ =~= b@);
    }
    true
}

/// `s` starts with `p`.
pub open spec fn spec_starts_with(s: Seq<u8>, p: Seq<u8>) -> bool {
    p.len() <= s.len() && s.take(p.len() as int) == p
}

/// Whether `s` starts with `p`, as `str::starts_with` reports it.
pub fn starts_with_bytes(s: &[u8], p: &[u8]) -> (r: bool)
    ensures
        r == spec_starts_with(s@, p@),
{
    if p.len() > s.len() {
        return false;
    }
    let head = vstd::slice::slice_subrange(s, 0, p.len());
    let r = bytes_eq(head, p);
    proof {
        if r {
            assert(s@.take(p@.len() as int) =~= p@);
        } else {
            if spec_starts_with(s@, p@) {
                assert(head@ =~= p@);
            }
        }
    }
    r
}

} // verus!

verus! {

/// Equality of two pieces of text.  Byte equality and character equality
/// coincide because UTF-8 encoding is injective.
pub fn str_eq(a: &str, b: &str) -> (r: bool)
    ensures
        r == (a@ == b@),
{
    let r = bytes_eq(a.as_bytes(), b.as_bytes());
    proof {
        broadcast use vstd::utf8::encode_utf8_valid_utf8, vstd::utf8::encode_utf8_decode_utf8;

        if a.spec_bytes() == b.spec_bytes() {
            assert(vstd::utf8::decode_utf8(vstd::utf8::encode_utf8(a@)) == a@);
            assert(vstd::utf8::decode_utf8(vstd::utf8::encode_utf8(b@)) == b@);
        }
        if a@ == b@ {
            assert(a.spec_bytes() =~= b.spec_bytes());
        }
    }
    r
}

/// What `str::to_lowercase` yields for given bytes; it is a function of the
/// characters alone.
pub uninterp spec fn lower_bytes_of(s: Seq<u8>) -> Seq<u8>;

/// Relies on `str::to_lowercase`: the result depends on the characters
/// alone, so equal inputs lower-case equally.
#[verifier::external_body]
pub(crate) fn lower_bytes(s: &str) -> (r: Vec<u8>)
    ensures
        r@ == lower_bytes_of(s.spec_bytes()),
{
    s.to_lowercase().into_bytes()
}

} // verus!

verus! {

/// Decimal digits are ASCII.
pub proof fn lemma_dec_bytes_ascii(n: int)
    ensures
        forall|i: int| 0 <= i < dec_bytes(n).len() ==> (48 <= #[trigger] dec_bytes(n)[i] <= 57),
    decreases n,
{
    if n >= 10 {
        lemma_dec_bytes_ascii(n / 10);
        assert forall|i: int| 0 <= i < dec_bytes(n).len() implies (48 <= #[trigger] dec_bytes(
            n,
        )[i] <= 57) by {
            if i < dec_bytes(n / 10).len() {
                assert(dec_bytes(n)[i] == dec_bytes(n / 10)[i]);
            }
        }
    }
}

} // verus!
