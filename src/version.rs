//! Ordering of dotted version identifiers such as `1.20.5` or `1.21.0-pre1`.
//!
//! A version's key is the sequence of numeric components of its leading run
//! of digits and dots: `1.21.0-pre1` has the key `[1, 21, 0]`. An empty
//! component counts as `0`, and a component too large for a `u64` saturates.
//! Keys compare component by component, a missing component counting as
//! `0`: `1.17` and `1.17.0` are the same version.
use vstd::prelude::*;

verus! {

pub open spec fn is_digit(c: char) -> bool {
    48 <= (c as u32) && (c as u32) <= 57
}

pub open spec fn digit_value(c: char) -> int {
    (c as u32) as int - 48
}

/// Characters that belong to the numeric part of a version.
pub open spec fn is_key_char(c: char) -> bool {
    is_digit(c) || c == '.'
}

pub open spec fn saturate(x: int) -> u64 {
    if x > u64::MAX {
        u64::MAX
    } else {
        x as u64
    }
}

/// The key of `s`, given the components `acc` already read before it.
pub open spec fn key_from(s: Seq<char>, acc: Seq<u64>) -> Seq<u64>
    decreases s.len(),
{
    if s.len() == 0 || !is_key_char(s[0]) {
        acc
    } else if s[0] == '.' {
        key_from(s.drop_first(), acc.push(0))
    } else {
        key_from(
            s.drop_first(),
            acc.update(acc.len() - 1, saturate(acc.last() * 10 + digit_value(s[0]))),
        )
    }
}

/// The numeric components of a version identifier.
pub open spec fn version_key(s: Seq<char>) -> Seq<u64> {
    key_from(s, seq![0u64])
}

/// The first component of a key, `0` where there is none.
pub open spec fn head_or_zero(a: Seq<u64>) -> u64 {
    if a.len() == 0 {
        0
    } else {
        a[0]
    }
}

/// A key without its first component.
pub open spec fn rest(a: Seq<u64>) -> Seq<u64> {
    if a.len() == 0 {
        a
    } else {
        a.drop_first()
    }
}

/// The components of a key from position `i` on.
pub open spec fn from(a: Seq<u64>, i: int) -> Seq<u64> {
    if i < a.len() {
        a.skip(i)
    } else {
        Seq::empty()
    }
}

/// Order on keys: component by component, a missing one counting as `0`.
pub open spec fn key_le(a: Seq<u64>, b: Seq<u64>) -> bool
    decreases a.len() + b.len(),
{
    if a.len() == 0 && b.len() == 0 {
        true
    } else if head_or_zero(a) != head_or_zero(b) {
        head_or_zero(a) < head_or_zero(b)
    } else {
        key_le(rest(a), rest(b))
    }
}

/// `a` is the same version as `b` or an older one.
pub open spec fn version_le(a: Seq<char>, b: Seq<char>) -> bool {
    key_le(version_key(a), version_key(b))
}

/// Reads the numeric components of a version identifier.
pub fn parse_key(s: &str) -> (r: Vec<u64>)
    ensures
        r@ == version_key(s@),
{
    let n = s.unicode_len();
    let mut v: Vec<u64> = vec![0u64];
    let mut i: usize = 0;
    assert(s@.skip(0) =~= s@);
    assert(v@ =~= seq![0u64]);
    while i < n
        invariant
            n == s@.len(),
            i <= n,
            v@.len() >= 1,
            key_from(s@.skip(i as int), v@) == version_key(s@),
        decreases n - i,
    {
        let c = s.get_char(i);
        assert(s@.skip(i as int)[0] == c);
        assert(s@.skip(i as int).drop_first() =~= s@.skip(i + 1));
        if c == '.' {
            v.push(0);
        } else if (c as u32) >= 48 && (c as u32) <= 57 {
            let d: u64 = (c as u32 - 48) as u64;
            let last_idx = v.len() - 1;
            let last = v[last_idx];
            let next: u64 = if last > (u64::MAX - d) / 10 {
                u64::MAX
            } else {
                last * 10 + d
            };
            assert(next == saturate(last * 10 + digit_value(c))) by (nonlinear_arith)
                requires
                    d as int == digit_value(c),
                    d <= 9,
                    last > (u64::MAX - d) / 10 ==> next == u64::MAX,
                    last <= (u64::MAX - d) / 10 ==> next == last * 10 + d,
            ;
            v.set(last_idx, next);
        } else {
            return v;
        }
        i = i + 1;
    }
    assert(s@.skip(n as int).len() == 0);
    v
}

/// Compares two keys.
pub fn keys_le(a: &Vec<u64>, b: &Vec<u64>) -> (r: bool)
    ensures
        r == key_le(a@, b@),
{
    let mut i: usize = 0;
    assert(from(a@, 0) =~= a@);
    assert(from(b@, 0) =~= b@);
    while i < a.len() || i < b.len()
        invariant
            key_le(from(a@, i as int), from(b@, i as int)) == key_le(a@, b@),
        decreases a@.len() + b@.len() - i,
    {
        let x: u64 = if i < a.len() { a[i] } else { 0 };
        let y: u64 = if i < b.len() { b[i] } else { 0 };
        assert(rest(from(a@, i as int)) =~= from(a@, i + 1));
        assert(rest(from(b@, i as int)) =~= from(b@, i + 1));
        assert(head_or_zero(from(a@, i as int)) == x);
        assert(head_or_zero(from(b@, i as int)) == y);
        if x != y {
            return x < y;
        }
        i = i + 1;
    }
    assert(from(a@, i as int).len() == 0);
    assert(from(b@, i as int).len() == 0);
    true
}

/// Whether version `a` is the same as version `b` or older.
pub fn version_at_most(a: &str, b: &str) -> (r: bool)
    ensures
        r == version_le(a@, b@),
{
    let ka = parse_key(a);
    let kb = parse_key(b);
    keys_le(&ka, &kb)
}

} // verus!
