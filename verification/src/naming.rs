//! The naming scheme for derived variants.
//!
//! A derived key is the source key's stem (the part before the last `.`,
//! or the whole key when it has none), followed by the marker token
//! `_rrs_w`, the decimal target width, a `.` and the output extension.
//! A key that contains the marker token anywhere is recognized as a
//! derived key and is never treated as a source again.

use vstd::prelude::*;
use vstd::string::*;

verus! {

/// The marker token embedded in every derived key.
pub open spec fn marker() -> Seq<char> {
    "_rrs_w"@
}

/// Whether `p` occurs as a contiguous subsequence of `s`.
pub open spec fn spec_contains(s: Seq<char>, p: Seq<char>) -> bool {
    exists|i: int| 0 <= i && i + p.len() <= s.len() && #[trigger] s.subrange(i, i + p.len()) == p
}

/// Whether `s` is a derived key: it contains the marker token.
pub open spec fn spec_is_derived(s: Seq<char>) -> bool {
    spec_contains(s, marker())
}

/// Index of the last `.` in `k`, or -1 when `k` has none.
pub open spec fn spec_last_dot(k: Seq<char>) -> int
    decreases k.len(),
{
    if k.len() == 0 {
        -1
    } else if k[k.len() - 1] == '.' {
        k.len() - 1
    } else {
        spec_last_dot(k.drop_last())
    }
}

/// The stem of `k`: everything before the last `.`, or all of `k`.
pub open spec fn spec_stem(k: Seq<char>) -> Seq<char> {
    if spec_last_dot(k) >= 0 {
        k.subrange(0, spec_last_dot(k))
    } else {
        k
    }
}

/// The extension of `k`: everything after the last `.`, or all of `k`
/// when it has no `.`.
pub open spec fn spec_extension_of(k: Seq<char>) -> Seq<char> {
    if spec_last_dot(k) >= 0 {
        k.subrange(spec_last_dot(k) + 1, k.len() as int)
    } else {
        k
    }
}

/// The character for a single decimal digit.
pub open spec fn spec_digit_char(d: nat) -> char {
    if d == 0 {
        '0'
    } else if d == 1 {
        '1'
    } else if d == 2 {
        '2'
    } else if d == 3 {
        '3'
    } else if d == 4 {
        '4'
    } else if d == 5 {
        '5'
    } else if d == 6 {
        '6'
    } else if d == 7 {
        '7'
    } else if d == 8 {
        '8'
    } else {
        '9'
    }
}

/// The decimal representation of `n`, most significant digit first.
pub open spec fn spec_decimal(n: nat) -> Seq<char>
    decreases n,
{
    if n < 10 {
        seq![spec_digit_char(n)]
    } else {
        spec_decimal(n / 10).push(spec_digit_char(n % 10))
    }
}

/// The derived key for source key `k`, target width `w` and output
/// extension `ext`.
pub open spec fn spec_derive_key(k: Seq<char>, w: nat, ext: Seq<char>) -> Seq<char> {
    spec_stem(k) + marker() + spec_decimal(w) + "."@ + ext
}

/// The last-dot index lies between -1 and the last valid index of `k`.
pub proof fn lemma_last_dot_bounds(k: Seq<char>)
    ensures
        -1 <= spec_last_dot(k) < k.len(),
    decreases k.len(),
{
    if k.len() > 0 && k[k.len() - 1] != '.' {
        lemma_last_dot_bounds(k.drop_last());
    }
}

/// Whether `p` occurs in `s`, decided by scanning every start position.
pub fn contains_seq(s: &str, p: &str) -> (r: bool)
    ensures
        r == spec_contains(s@, p@),
{
    let n = s.unicode_len();
    let m = p.unicode_len();
    if m > n {
        return false;
    }
    let mut i: usize = 0;
    while i <= n - m
        invariant
            m <= n,
            n == s@.len(),
            m == p@.len(),
            i <= n - m + 1,
            forall|k: int| 0 <= k < i ==> #[trigger] s@.subrange(k, k + p@.len()) != p@,
        decreases n - m - i + 1,
    {
        let mut j: usize = 0;
        let mut matched = true;
        while j < m
            invariant
                m <= n,
                n == s@.len(),
                m == p@.len(),
                i + m <= n,
                j <= m,
                matched <==> s@.subrange(i as int, i as int + j as int) =~= p@.subrange(0, j as int),
            decreases m - j,
        {
            let cs = s.get_char(i + j);
            let cp = p.get_char(j);
            if cs != cp {
                matched = false;
                proof {
                    assert(s@.subrange(i as int, i as int + j + 1)[j as int] == cs);
                    assert(p@.subrange(0, j + 1)[j as int] == cp);
                }
            } else {
                proof {
                    if matched {
                        assert(s@.subrange(i as int, i as int + j + 1) =~= p@.subrange(0, j + 1));
                    } else {
                        let wit = choose|w: int|
                            0 <= w < j && s@.subrange(i as int, i as int + j as int)[w]
                                != p@.subrange(0, j as int)[w];
                        assert(s@.subrange(i as int, i as int + j + 1)[wit]
                            != p@.subrange(0, j + 1)[wit]);
                    }
                }
            }
            proof {
                if !matched {
                    if s@.subrange(i as int, i as int + j as int) =~= p@.subrange(0, j as int) {
                        assert(forall|w: int|
                            0 <= w < j ==> s@.subrange(i as int, i as int + j as int)[w] == p@.subrange(
                                0,
                                j as int,
                            )[w]);
                    }
                }
            }
            j += 1;
        }
        if matched {
            proof {
                assert(p@.subrange(0, m as int) =~= p@);
                assert(s@.subrange(i as int, i as int + m as int) == p@);
            }
            return true;
        }
        proof {
            if s@.subrange(i as int, i as int + p@.len()) == p@ {
                assert(s@.subrange(i as int, i as int + m as int) =~= p@.subrange(0, m as int));
            }
        }
        i += 1;
    }
    proof {
        if spec_contains(s@, p@) {
            let k0 = choose|k: int|
                0 <= k && k + p@.len() <= s@.len() && #[trigger] s@.subrange(k, k + p@.len())
                    == p@;
            assert(s@.subrange(k0, k0 + p@.len()) != p@);
        }
    }
    false
}

/// Whether `key` is a derived key, that is, contains the marker token.
pub fn is_derived_key(key: &str) -> (r: bool)
    ensures
        r == spec_is_derived(key@),
{
    contains_seq(key, "_rrs_w")
}

/// The index of the last `.` of `key`, or `None` when there is none.
fn find_last_dot(key: &str) -> (r: Option<usize>)
    ensures
        match r {
            Some(d) => spec_last_dot(key@) == d as int,
            None => spec_last_dot(key@) < 0,
        },
{
    let n = key.unicode_len();
    let mut i = n;
    proof {
        assert(key@.subrange(0, n as int) =~= key@);
    }
    while i > 0
        invariant
            n == key@.len(),
            i <= n,
            spec_last_dot(key@) == spec_last_dot(key@.subrange(0, i as int)),
        decreases i,
    {
        let c = key.get_char(i - 1);
        proof {
            let pre = key@.subrange(0, i as int);
            assert(pre.drop_last() =~= key@.subrange(0, i - 1));
            assert(pre[pre.len() - 1] == key@[i - 1]);
        }
        if c == '.' {
            return Some(i - 1);
        }
        i -= 1;
    }
    proof {
        assert(key@.subrange(0, 0) =~= Seq::<char>::empty());
    }
    None
}

/// The character for digit `d`.
fn digit_char_of(d: u32) -> (c: char)
    requires
        d < 10,
    ensures
        c == spec_digit_char(d as nat),
{
    match d {
        0 => '0',
        1 => '1',
        2 => '2',
        3 => '3',
        4 => '4',
        5 => '5',
        6 => '6',
        7 => '7',
        8 => '8',
        _ => '9',
    }
}

/// Relies on `String::push` of std: appends exactly the one character to
/// the end of the string.
#[verifier::external_body]
pub(crate) fn push_char(s: &mut String, c: char)
    ensures
        final(s)@ == old(s)@.push(c),
{
    s.push(c);
}

/// Appends the decimal representation of `n` to `s`.
fn push_decimal(s: &mut String, n: u32)
    ensures
        final(s)@ == old(s)@ + spec_decimal(n as nat),
    decreases n,
{
    if n < 10 {
        push_char(s, digit_char_of(n));
        proof {
            assert(old(s)@.push(spec_digit_char(n as nat)) =~= old(s)@ + spec_decimal(n as nat));
        }
    } else {
        push_decimal(s, n / 10);
        push_char(s, digit_char_of(n % 10));
        proof {
            assert((old(s)@ + spec_decimal(n as nat / 10)).push(spec_digit_char(n as nat % 10))
                =~= old(s)@ + spec_decimal(n as nat));
        }
    }
}

/// The derived key for `source_key`, target width `width` and output
/// extension `extension`: stem, marker token, decimal width, `.`,
/// extension.
pub fn derive_key(source_key: &str, width: u32, extension: &str) -> (r: String)
    ensures
        r@ == spec_derive_key(source_key@, width as nat, extension@),
{
    proof {
        lemma_last_dot_bounds(source_key@);
    }
    let n = source_key.unicode_len();
    let stem_end = match find_last_dot(source_key) {
        Some(d) => d,
        None => n,
    };
    let stem = source_key.substring_char(0, stem_end);
    let mut r = String::new();
    r.append(stem);
    r.append("_rrs_w");
    push_decimal(&mut r, width);
    r.append(".");
    r.append(extension);
    proof {
        assert(spec_stem(source_key@) =~= source_key@.subrange(0, stem_end as int));
        assert(r@ =~= spec_derive_key(source_key@, width as nat, extension@));
    }
    r
}

/// The derived key for `key` at width `size`, keeping the source key's
/// own extension (the part after its last `.`, or the whole key when it
/// has none).
pub fn calculate_thumb_name(key: &String, size: &u32) -> (r: String)
    ensures
        r@ == spec_derive_key(key@, *size as nat, spec_extension_of(key@)),
{
    proof {
        lemma_last_dot_bounds(key@);
    }
    let n = key.as_str().unicode_len();
    let ext = match find_last_dot(key.as_str()) {
        Some(d) => key.as_str().substring_char(d + 1, n),
        None => key.as_str().substring_char(0, n),
    };
    proof {
        assert(ext@ =~= spec_extension_of(key@));
    }
    derive_key(key.as_str(), *size, ext)
}

/// Whether `c` is a decimal digit character.
pub open spec fn spec_is_digit(c: char) -> bool {
    c == '0' || c == '1' || c == '2' || c == '3' || c == '4' || c == '5' || c == '6' || c == '7'
        || c == '8' || c == '9'
}

/// A decimal representation is non-empty and consists of digits only.
pub proof fn lemma_decimal_shape(n: nat)
    ensures
        spec_decimal(n).len() >= 1,
        forall|i: int| 0 <= i < spec_decimal(n).len() ==> spec_is_digit(#[trigger] spec_decimal(n)[i]),
    decreases n,
{
    if n >= 10 {
        lemma_decimal_shape(n / 10);
    }
}

/// Distinct digits have distinct characters.
pub proof fn lemma_digit_char_injective(x: nat, y: nat)
    requires
        x < 10,
        y < 10,
        spec_digit_char(x) == spec_digit_char(y),
    ensures
        x == y,
{
    if x != y {
        assert(spec_digit_char(x) != spec_digit_char(y));
    }
}

/// Two numbers with the same decimal representation are equal.
pub proof fn lemma_decimal_injective(a: nat, b: nat)
    requires
        spec_decimal(a) == spec_decimal(b),
    ensures
        a == b,
    decreases a,
{
    lemma_decimal_shape(a);
    lemma_decimal_shape(b);
    if a < 10 && b < 10 {
        assert(spec_decimal(a) == seq![spec_digit_char(a)]);
        assert(spec_decimal(b) == seq![spec_digit_char(b)]);
        assert(seq![spec_digit_char(a)][0] == spec_digit_char(a));
        assert(seq![spec_digit_char(b)][0] == spec_digit_char(b));
        lemma_digit_char_injective(a, b);
    } else if a < 10 {
        lemma_decimal_shape(b / 10);
        assert(spec_decimal(b).len() >= 2);
    } else if b < 10 {
        lemma_decimal_shape(a / 10);
        assert(spec_decimal(a).len() >= 2);
    } else {
        let la = spec_decimal(a).len();
        assert(spec_decimal(a) == spec_decimal(a / 10).push(spec_digit_char(a % 10)));
        assert(spec_decimal(b) == spec_decimal(b / 10).push(spec_digit_char(b % 10)));
        assert(spec_decimal(a)[la - 1] == spec_digit_char(a % 10));
        assert(spec_decimal(b)[la - 1] == spec_digit_char(b % 10));
        lemma_digit_char_injective(a % 10, b % 10);
        assert(spec_decimal(a / 10) =~= spec_decimal(a).subrange(0, la - 1));
        assert(spec_decimal(b / 10) =~= spec_decimal(b).subrange(0, la - 1));
        lemma_decimal_injective(a / 10, b / 10);
    }
}

/// Law: a derived key is always recognized as derived, whatever the
/// source key, target width and extension.
pub proof fn lemma_derived_key_is_derived(k: Seq<char>, w: nat, ext: Seq<char>)
    ensures
        spec_is_derived(spec_derive_key(k, w, ext)),
{
    let d = spec_derive_key(k, w, ext);
    let l = spec_stem(k).len() as int;
    reveal_strlit("_rrs_w");
    assert(d.subrange(l, l + marker().len()) =~= marker());
}

/// Law: the derived key is a pure function of source key, width and
/// extension; equal inputs give the equal key on every run.
pub proof fn lemma_derive_key_deterministic(
    k1: Seq<char>,
    w1: nat,
    e1: Seq<char>,
    k2: Seq<char>,
    w2: nat,
    e2: Seq<char>,
)
    requires
        k1 == k2,
        w1 == w2,
        e1 == e2,
    ensures
        spec_derive_key(k1, w1, e1) == spec_derive_key(k2, w2, e2),
{
}

/// Law: within one fan-out over a source key, distinct target widths
/// yield distinct derived keys, so re-running the pipeline overwrites
/// the same keys and never accumulates duplicates.
pub proof fn lemma_derive_key_width_injective(k: Seq<char>, w1: nat, w2: nat, ext: Seq<char>)
    requires
        w1 != w2,
    ensures
        spec_derive_key(k, w1, ext) != spec_derive_key(k, w2, ext),
{
    lemma_decimal_shape(w1);
    lemma_decimal_shape(w2);
    reveal_strlit(".");
    let d1 = spec_derive_key(k, w1, ext);
    let d2 = spec_derive_key(k, w2, ext);
    let pre = spec_stem(k) + marker();
    let t1 = spec_decimal(w1) + "."@ + ext;
    let t2 = spec_decimal(w2) + "."@ + ext;
    assert(d1 =~= pre + t1);
    assert(d2 =~= pre + t2);
    if d1 == d2 {
        assert forall|j: int| 0 <= j < t1.len() implies t1[j] == t2[j] by {
            assert(t1[j] == d1[pre.len() + j]);
            assert(t2[j] == d2[pre.len() + j]);
        }
        assert(t1 =~= t2);
        let l1 = spec_decimal(w1).len() as int;
        let l2 = spec_decimal(w2).len() as int;
        if l1 == l2 {
            assert(spec_decimal(w1) =~= t1.subrange(0, l1));
            assert(spec_decimal(w2) =~= t2.subrange(0, l2));
            lemma_decimal_injective(w1, w2);
        } else if l1 < l2 {
            assert(t1[l1] == '.');
            assert(t2[l1] == spec_decimal(w2)[l1]);
            assert(spec_is_digit(spec_decimal(w2)[l1]));
        } else {
            assert(t2[l2] == '.');
            assert(t1[l2] == spec_decimal(w1)[l2]);
            assert(spec_is_digit(spec_decimal(w1)[l2]));
        }
    }
}

} // verus!
