//! Text helpers for manifests and paths: decimal numbers, plain values and
//! the `key = "value"` lines a manifest is made of.
use vstd::prelude::*;

verus! {

pub open spec fn digit_char(d: nat) -> char {
    if d == 0 { '0' } else if d == 1 { '1' } else if d == 2 { '2' } else if d == 3 { '3' }
    else if d == 4 { '4' } else if d == 5 { '5' } else if d == 6 { '6' } else if d == 7 { '7' }
    else if d == 8 { '8' } else { '9' }
}

/// The decimal form of `n`, without leading zeros.
pub open spec fn decimal(n: nat) -> Seq<char>
    decreases n,
{
    if n < 10 {
        seq![digit_char(n)]
    } else {
        decimal(n / 10).push(digit_char(n % 10))
    }
}

/// The number that a run of decimal digits stands for.
pub open spec fn digits_value(s: Seq<char>) -> nat
    decreases s.len(),
{
    if s.len() == 0 {
        0
    } else {
        digits_value(s.drop_last()) * 10 + digit_of(s.last())
    }
}

pub open spec fn is_decimal_digit(c: char) -> bool {
    c == '0' || c == '1' || c == '2' || c == '3' || c == '4' || c == '5' || c == '6' || c == '7'
        || c == '8' || c == '9'
}

/// The value of a decimal digit.
pub open spec fn digit_of(c: char) -> nat {
    if c == '1' { 1 } else if c == '2' { 2 } else if c == '3' { 3 } else if c == '4' { 4 }
    else if c == '5' { 5 } else if c == '6' { 6 } else if c == '7' { 7 } else if c == '8' { 8 }
    else if c == '9' { 9 } else { 0 }
}

fn digit_value_of(c: char) -> (r: Option<usize>)
    ensures
        r is Some <==> is_decimal_digit(c),
        r is Some ==> r->0 == digit_of(c),
{
    match c {
        '0' => Some(0),
        '1' => Some(1),
        '2' => Some(2),
        '3' => Some(3),
        '4' => Some(4),
        '5' => Some(5),
        '6' => Some(6),
        '7' => Some(7),
        '8' => Some(8),
        '9' => Some(9),
        _ => None,
    }
}

/// Decimal digits without a leading zero, as `decimal` writes them.
pub open spec fn is_canonical_decimal(s: Seq<char>) -> bool {
    &&& s.len() > 0
    &&& forall|i: int| 0 <= i < s.len() ==> is_decimal_digit(#[trigger] s[i])
    &&& (s.len() == 1 || s[0] != '0')
}

proof fn lemma_digit_char(d: nat)
    requires
        d < 10,
    ensures
        is_decimal_digit(digit_char(d)),
        digit_of(digit_char(d)) == d,
        digit_char(d) != '0' <==> d != 0,
{
}

/// `decimal` writes canonical digits that stand for the number written.
pub proof fn lemma_decimal_value(n: nat)
    ensures
        is_canonical_decimal(decimal(n)),
        digits_value(decimal(n)) == n,
        n >= 10 ==> decimal(n).len() >= 2,
    decreases n,
{
    lemma_digit_char(n % 10);
    if n >= 10 {
        lemma_decimal_value(n / 10);
        lemma_digit_char(n / 10 % 10);
        let d = decimal(n);
        assert(d.drop_last() =~= decimal(n / 10));
        assert((n / 10) * 10 + n % 10 == n) by (nonlinear_arith);
        assert(digits_value(d) == digits_value(decimal(n / 10)) * 10 + digit_of(digit_char(n % 10)));
        assert(d[0] == decimal(n / 10)[0]);
        assert forall|i: int| 0 <= i < d.len() implies is_decimal_digit(#[trigger] d[i]) by {
            if i < d.len() - 1 {
                assert(d[i] == decimal(n / 10)[i]);
            }
        }
        if n / 10 < 10 {
            assert(decimal(n / 10)[0] == digit_char(n / 10));
        }
    } else {
        assert(n % 10 == n);
        assert(decimal(n).drop_last() =~= Seq::<char>::empty());
        assert(digits_value(decimal(n)) == digits_value(Seq::<char>::empty()) * 10 + digit_of(
            digit_char(n),
        ));
    }
}

proof fn lemma_digits_positive(s: Seq<char>)
    requires
        s.len() > 0,
        forall|i: int| 0 <= i < s.len() ==> is_decimal_digit(#[trigger] s[i]),
        s[0] != '0',
    ensures
        digits_value(s) > 0,
    decreases s.len(),
{
    if s.len() > 1 {
        lemma_digits_positive(s.drop_last());
    }
}

/// Canonical digits are what `decimal` writes for the number they stand
/// for.
pub proof fn lemma_canonical_is_decimal(s: Seq<char>)
    requires
        is_canonical_decimal(s),
    ensures
        decimal(digits_value(s)) == s,
    decreases s.len(),
{
    let v = digits_value(s);
    let c = s.last();
    let d = digit_of(c);
    assert(is_decimal_digit(s[s.len() - 1]));
    assert(digit_char(d) == c);
    if s.len() == 1 {
        assert(digits_value(s.drop_last()) == 0);
        assert(decimal(v) =~= s);
    } else {
        let p = s.drop_last();
        assert(p[0] == s[0]);
        assert(is_canonical_decimal(p));
        lemma_canonical_is_decimal(p);
        lemma_digits_positive(p);
        assert(v / 10 == digits_value(p) && v % 10 == d) by (nonlinear_arith)
            requires
                v == digits_value(p) * 10 + d,
                d < 10,
        ;
        assert(decimal(v) =~= s);
    }
}

proof fn lemma_prefix_value(s: Seq<char>, k: int)
    requires
        0 <= k <= s.len(),
        forall|i: int| 0 <= i < s.len() ==> is_decimal_digit(#[trigger] s[i]),
    ensures
        digits_value(s.take(k)) <= digits_value(s),
    decreases s.len(),
{
    if k < s.len() {
        let p = s.drop_last();
        assert(p.take(k) =~= s.take(k));
        assert forall|i: int| 0 <= i < p.len() implies is_decimal_digit(#[trigger] p[i]) by {
            assert(p[i] == s[i]);
        }
        lemma_prefix_value(p, k);
    } else {
        assert(s.take(k) =~= s);
    }
}

/// Reads a number written in decimal without leading zeros.
pub fn parse_decimal(s: &str) -> (r: Option<usize>)
    ensures
        match r {
            Some(n) => decimal(n as nat) == s@,
            None => forall|n: usize| decimal(n as nat) != s@,
        },
{
    let len = s.unicode_len();
    if len == 0 || (len > 1 && s.get_char(0) == '0') {
        proof {
            assert forall|n: usize| decimal(n as nat) != s@ by {
                lemma_decimal_value(n as nat);
            }
        }
        return None;
    }
    let mut acc: usize = 0;
    let mut i: usize = 0;
    while i < len
        invariant
            len == s@.len(),
            i <= len,
            forall|k: int| 0 <= k < i ==> is_decimal_digit(#[trigger] s@[k]),
            acc as nat == digits_value(s@.take(i as int)),
        decreases len - i,
    {
        let c = s.get_char(i);
        assert(s@.take(i + 1).drop_last() =~= s@.take(i as int));
        let d: usize = match digit_value_of(c) {
            Some(d) => d,
            None => {
                proof {
                    assert forall|n: usize| decimal(n as nat) != s@ by {
                        lemma_decimal_value(n as nat);
                    }
                }
                return None;
            },
        };
        if acc > (usize::MAX - d) / 10 {
            proof {
                assert(digits_value(s@.take(i + 1)) > usize::MAX) by (nonlinear_arith)
                    requires
                        digits_value(s@.take(i + 1)) == acc * 10 + d,
                        acc > (usize::MAX - d) / 10,
                        d <= 9,
                ;
                assert forall|n: usize| decimal(n as nat) != s@ by {
                    lemma_decimal_value(n as nat);
                    if decimal(n as nat) == s@ {
                        lemma_prefix_value(s@, i + 1);
                    }
                }
            }
            return None;
        }
        acc = acc * 10 + d;
        i = i + 1;
    }
    proof {
        assert(s@.take(len as int) =~= s@);
        lemma_canonical_is_decimal(s@);
    }
    Some(acc)
}

/// A character that may stand inside a manifest value: no quote, no
/// backslash, no line break.
pub open spec fn is_plain_char(c: char) -> bool {
    c != '"' && c != '\\' && c != '\n' && c != '\r'
}

/// A value that a manifest line holds as it is.
pub open spec fn is_plain_text(s: Seq<char>) -> bool {
    s.len() > 0 && forall|i: int| 0 <= i < s.len() ==> is_plain_char(#[trigger] s[i])
}

/// A name that can stand as one directory of a path: plain, with no path
/// separator, and not starting with a dot.
pub open spec fn is_safe_name(s: Seq<char>) -> bool {
    is_plain_text(s) && s[0] != '.' && forall|i: int| 0 <= i < s.len() ==> #[trigger] s[i] != '/'
}

/// One manifest line.
pub open spec fn field_line(key: Seq<char>, value: Seq<char>) -> Seq<char> {
    key + " = \""@ + value + "\"\n"@
}

pub open spec fn is_prefix_at(t: Seq<char>, pos: int, p: Seq<char>) -> bool {
    0 <= pos && pos + p.len() <= t.len() && t.subrange(pos, pos + p.len()) == p
}

fn digit_str(d: usize) -> (r: &'static str)
    requires
        d < 10,
    ensures
        r@ == seq![digit_char(d as nat)],
{
    proof {
        reveal_strlit("0");
        reveal_strlit("1");
        reveal_strlit("2");
        reveal_strlit("3");
        reveal_strlit("4");
        reveal_strlit("5");
        reveal_strlit("6");
        reveal_strlit("7");
        reveal_strlit("8");
        reveal_strlit("9");
    }
    let r = if d == 0 { "0" } else if d == 1 { "1" } else if d == 2 { "2" } else if d == 3 { "3" }
    else if d == 4 { "4" } else if d == 5 { "5" } else if d == 6 { "6" } else if d == 7 { "7" }
    else if d == 8 { "8" } else { "9" };
    assert(r@ =~= seq![digit_char(d as nat)]);
    r
}

/// Writes `n` in decimal.
pub fn decimal_string(n: usize) -> (r: String)
    ensures
        r@ == decimal(n as nat),
    decreases n,
{
    if n < 10 {
        String::from_str(digit_str(n))
    } else {
        let mut s = decimal_string(n / 10);
        s.append(digit_str(n % 10));
        s
    }
}

pub proof fn lemma_decimal_plain(n: nat)
    ensures
        is_plain_text(decimal(n)),
    decreases n,
{
    if n >= 10 {
        lemma_decimal_plain(n / 10);
    }
}

/// Whether `s` is a plain value.
pub fn plain_text(s: &str) -> (r: bool)
    ensures
        r == is_plain_text(s@),
{
    let n = s.unicode_len();
    if n == 0 {
        return false;
    }
    let mut i: usize = 0;
    while i < n
        invariant
            n == s@.len(),
            i <= n,
            forall|k: int| 0 <= k < i ==> is_plain_char(#[trigger] s@[k]),
        decreases n - i,
    {
        let c = s.get_char(i);
        if c == '"' || c == '\\' || c == '\n' || c == '\r' {
            return false;
        }
        i = i + 1;
    }
    true
}

/// Whether `s` is a safe directory name.
pub fn safe_name(s: &str) -> (r: bool)
    ensures
        r == is_safe_name(s@),
{
    if !plain_text(s) {
        return false;
    }
    let n = s.unicode_len();
    if s.get_char(0) == '.' {
        return false;
    }
    let mut i: usize = 0;
    while i < n
        invariant
            n == s@.len(),
            i <= n,
            forall|k: int| 0 <= k < i ==> #[trigger] s@[k] != '/',
        decreases n - i,
    {
        if s.get_char(i) == '/' {
            return false;
        }
        i = i + 1;
    }
    true
}

/// Appends the line `key = "value"`.
pub fn push_field(out: &mut String, key: &str, value: &str)
    ensures
        final(out)@ == old(out)@ + field_line(key@, value@),
{
    out.append(key);
    out.append(" = \"");
    out.append(value);
    out.append("\"\n");
    assert(final(out)@ =~= old(out)@ + field_line(key@, value@));
}

pub proof fn lemma_prefix_concat(t: Seq<char>, pos: int, a: Seq<char>, b: Seq<char>)
    requires
        0 <= pos,
    ensures
        is_prefix_at(t, pos, a + b) <==> (is_prefix_at(t, pos, a) && is_prefix_at(
            t,
            pos + a.len(),
            b,
        )),
{
    if is_prefix_at(t, pos, a + b) {
        let s = t.subrange(pos, pos + a.len() + b.len());
        assert(t.subrange(pos, pos + a.len()) =~= a) by {
            assert forall|i: int| 0 <= i < a.len() implies t.subrange(pos, pos + a.len())[i]
                == a[i] by {
                assert(s[i] == (a + b)[i]);
            }
        }
        assert(t.subrange(pos + a.len(), pos + a.len() + b.len()) =~= b) by {
            assert forall|i: int| 0 <= i < b.len() implies t.subrange(
                pos + a.len(),
                pos + a.len() + b.len(),
            )[i] == b[i] by {
                assert(s[a.len() + i] == (a + b)[a.len() + i]);
            }
        }
    }
    if is_prefix_at(t, pos, a) && is_prefix_at(t, pos + a.len(), b) {
        let sa = t.subrange(pos, pos + a.len());
        let sb = t.subrange(pos + a.len(), pos + a.len() + b.len());
        assert(t.subrange(pos, pos + (a + b).len()) =~= a + b) by {
            assert forall|i: int| 0 <= i < (a + b).len() implies t.subrange(
                pos,
                pos + (a + b).len(),
            )[i] == (a + b)[i] by {
                if i < a.len() {
                    assert(sa[i] == a[i]);
                } else {
                    assert(sb[i - a.len()] == b[i - a.len()]);
                }
            }
        }
    }
}

/// Whether `pat` stands in `text` at position `pos`.
pub fn matches_at(text: &str, n: usize, pos: usize, pat: &str) -> (r: bool)
    requires
        n == text@.len(),
        pos <= n,
    ensures
        r == is_prefix_at(text@, pos as int, pat@),
{
    let m = pat.unicode_len();
    if m > n - pos {
        return false;
    }
    let mut i: usize = 0;
    while i < m
        invariant
            n == text@.len(),
            m == pat@.len(),
            pos + m <= n,
            i <= m,
            forall|k: int| 0 <= k < i ==> text@[pos + k] == pat@[k],
        decreases m - i,
    {
        if text.get_char(pos + i) != pat.get_char(i) {
            assert(text@.subrange(pos as int, pos + m)[i as int] != pat@[i as int]);
            return false;
        }
        i = i + 1;
    }
    assert(text@.subrange(pos as int, pos + m) =~= pat@);
    true
}

/// Where a field line for `key` with a plain value stands at `pos`, the
/// value ends at the first character after the opening quote that is not
/// plain.
proof fn lemma_value_end(t: Seq<char>, pos: int, key: Seq<char>, v: Seq<char>, j: int)
    requires
        is_plain_text(v),
        is_prefix_at(t, pos, field_line(key, v)),
        pos + key.len() + 4 <= j <= t.len(),
        forall|k: int| pos + key.len() + 4 <= k < j ==> is_plain_char(#[trigger] t[k]),
        j == t.len() || !is_plain_char(t[j]),
    ensures
        j == pos + key.len() + 4 + v.len(),
        t.subrange(pos + key.len() + 4, j) == v,
        is_prefix_at(t, j, "\"\n"@),
{
    reveal_strlit(" = \"");
    reveal_strlit("\"\n");
    let start = pos + key.len() + 4;
    lemma_prefix_concat(t, pos, key + " = \""@ + v, "\"\n"@);
    lemma_prefix_concat(t, pos, key + " = \""@, v);
    let e = start + v.len();
    assert(t.subrange(e, e + 2) == "\"\n"@);
    assert(t[e] == t.subrange(e, e + 2)[0]);
    assert(t.subrange(start, e) == v);
    if j < e {
        assert(t[j] == t.subrange(start, e)[j - start]);
    }
    if j > e {
        assert(is_plain_char(t[e]));
    }
}

/// At most one plain value makes a line for `key` at a given position.
pub proof fn lemma_field_unique(t: Seq<char>, pos: int, key: Seq<char>, v: Seq<char>, w: Seq<char>)
    requires
        is_plain_text(v),
        is_plain_text(w),
        is_prefix_at(t, pos, field_line(key, v)),
        is_prefix_at(t, pos, field_line(key, w)),
    ensures
        v == w,
{
    reveal_strlit(" = \"");
    reveal_strlit("\"\n");
    let start = pos + key.len() + 4;
    let e = start + v.len();
    lemma_prefix_concat(t, pos, key + " = \""@ + v, "\"\n"@);
    lemma_prefix_concat(t, pos, key + " = \""@, v);
    assert(t.subrange(e, e + 2) == "\"\n"@);
    assert(t[e] == t.subrange(e, e + 2)[0]);
    assert forall|k: int| start <= k < e implies is_plain_char(#[trigger] t[k]) by {
        assert(t[k] == t.subrange(start, e)[k - start]);
    }
    lemma_value_end(t, pos, key, w, e);
}

/// Reads the line `key = "value"` that stands at position `pos`.
pub fn read_field(text: &str, n: usize, pos: usize, key: &str) -> (r: Option<(String, usize)>)
    requires
        n == text@.len(),
        pos <= n,
    ensures
        match r {
            Some((v, end)) => {
                &&& is_plain_text(v@)
                &&& is_prefix_at(text@, pos as int, field_line(key@, v@))
                &&& end == pos + field_line(key@, v@).len()
                &&& forall|w: Seq<char>|
                    is_plain_text(w) && is_prefix_at(text@, pos as int, #[trigger] field_line(key@, w))
                        ==> w == v@
            },
            None => forall|w: Seq<char>|
                is_plain_text(w) ==> !is_prefix_at(text@, pos as int, #[trigger] field_line(key@, w)),
        },
{
    proof {
        reveal_strlit(" = \"");
        reveal_strlit("\"\n");
    }
    let ghost t = text@;
    let klen = key.unicode_len();
    if !matches_at(text, n, pos, key) {
        proof {
            assert forall|w: Seq<char>| is_plain_text(w) implies !is_prefix_at(t, pos as int, #[trigger] field_line(key@, w)) by {
                if is_prefix_at(t, pos as int, field_line(key@, w)) {
                    lemma_prefix_concat(t, pos as int, key@ + " = \""@ + w, "\"\n"@);
                    lemma_prefix_concat(t, pos as int, key@ + " = \""@, w);
                    lemma_prefix_concat(t, pos as int, key@, " = \""@);
                }
            }
        }
        return None;
    }
    let eq_pos = pos + klen;
    if !matches_at(text, n, eq_pos, " = \"") {
        proof {
            assert forall|w: Seq<char>| is_plain_text(w) implies !is_prefix_at(t, pos as int, #[trigger] field_line(key@, w)) by {
                if is_prefix_at(t, pos as int, field_line(key@, w)) {
                    lemma_prefix_concat(t, pos as int, key@ + " = \""@ + w, "\"\n"@);
                    lemma_prefix_concat(t, pos as int, key@ + " = \""@, w);
                    lemma_prefix_concat(t, pos as int, key@, " = \""@);
                }
            }
        }
        return None;
    }
    let start = eq_pos + 4;
    let mut j: usize = start;
    while j < n
        invariant
            n == text@.len(),
            start <= j <= n,
            forall|k: int| start <= k < j ==> is_plain_char(#[trigger] text@[k]),
        ensures
            start <= j <= n,
            forall|k: int| start <= k < j ==> is_plain_char(#[trigger] text@[k]),
            j == n || !is_plain_char(text@[j as int]),
        decreases n - j,
    {
        let c = text.get_char(j);
        if c == '"' || c == '\\' || c == '\n' || c == '\r' {
            break;
        }
        j = j + 1;
    }
    if j == start || !matches_at(text, n, j, "\"\n") {
        proof {
            assert forall|w: Seq<char>| is_plain_text(w) implies !is_prefix_at(t, pos as int, #[trigger] field_line(key@, w)) by {
                if is_prefix_at(t, pos as int, field_line(key@, w)) {
                    lemma_value_end(t, pos as int, key@, w, j as int);
                }
            }
        }
        return None;
    }
    let v = String::from_str(text.substring_char(start, j));
    proof {
        assert forall|k: int| 0 <= k < v@.len() implies is_plain_char(#[trigger] v@[k]) by {
            assert(v@[k] == t[start + k]);
        }
        lemma_prefix_concat(t, pos as int, key@, " = \""@);
        assert(t.subrange(start as int, j as int) =~= v@);
        lemma_prefix_concat(t, pos as int, key@ + " = \""@, v@);
        lemma_prefix_concat(t, pos as int, key@ + " = \""@ + v@, "\"\n"@);
        assert forall|w: Seq<char>| is_plain_text(w) && is_prefix_at(t, pos as int, #[trigger] field_line(key@, w)) implies w == v@ by {
            lemma_value_end(t, pos as int, key@, w, j as int);
        }
    }
    Some((v, j + 2))
}

} // verus!
