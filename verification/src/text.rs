//! Character-level text handling over the `Seq<char>` view of strings:
//! line splitting, whitespace-separated fields, trimming, substring search
//! and unsigned decimal parsing, each with the meaning that Rust's `str`
//! methods of the same purpose document.

use vstd::prelude::*;

verus! {

/// Unicode `White_Space`, the property that `char::is_whitespace` tests.
pub open spec fn is_ws(c: char) -> bool {
    ||| ('\t' <= c && c <= '\r')
    ||| c == ' '
    ||| c == '\u{85}'
    ||| c == '\u{a0}'
    ||| c == '\u{1680}'
    ||| ('\u{2000}' <= c && c <= '\u{200a}')
    ||| c == '\u{2028}'
    ||| c == '\u{2029}'
    ||| c == '\u{202f}'
    ||| c == '\u{205f}'
    ||| c == '\u{3000}'
}

/// The pieces of `s` between `'\n'` characters, in order; `k` newlines give
/// `k + 1` pieces.
pub open spec fn split_lines(s: Seq<char>) -> Seq<Seq<char>>
    decreases s.len(),
{
    if s.len() == 0 {
        seq![Seq::<char>::empty()]
    } else {
        let prev = split_lines(s.drop_last());
        if s.last() == '\n' {
            prev.push(Seq::<char>::empty())
        } else {
            prev.update(prev.len() - 1, prev.last().push(s.last()))
        }
    }
}

/// The maximal runs of non-whitespace characters of `s`, in order (what
/// `str::split_whitespace` yields).
pub open spec fn fields(s: Seq<char>) -> Seq<Seq<char>>
    decreases s.len(),
{
    if s.len() == 0 {
        Seq::<Seq<char>>::empty()
    } else {
        let prev = fields(s.drop_last());
        let c = s.last();
        if is_ws(c) {
            prev
        } else if s.len() >= 2 && !is_ws(s[s.len() - 2]) {
            prev.update(prev.len() - 1, prev.last().push(c))
        } else {
            prev.push(seq![c])
        }
    }
}

pub open spec fn is_digit(c: char) -> bool {
    '0' <= c && c <= '9'
}

pub open spec fn all_digits(d: Seq<char>) -> bool {
    forall|i: int| 0 <= i < d.len() ==> is_digit(#[trigger] d[i])
}

/// The number that a string of decimal digits denotes.
pub open spec fn decimal_value(d: Seq<char>) -> int
    decreases d.len(),
{
    if d.len() == 0 {
        0
    } else {
        decimal_value(d.drop_last()) * 10 + (d.last() as int - '0' as int)
    }
}

/// What `str::parse::<u64>` returns: an optional `'+'`, then one or more
/// ASCII digits whose value fits in a `u64`.
pub open spec fn parse_u64(tok: Seq<char>) -> Option<u64> {
    let d = if tok.len() > 0 && tok[0] == '+' {
        tok.drop_first()
    } else {
        tok
    };
    if d.len() > 0 && all_digits(d) && decimal_value(d) <= u64::MAX {
        Some(decimal_value(d) as u64)
    } else {
        None
    }
}

/// `s` without its leading whitespace.
pub open spec fn trim_start(s: Seq<char>) -> Seq<char>
    decreases s.len(),
{
    if s.len() > 0 && is_ws(s[0]) {
        trim_start(s.drop_first())
    } else {
        s
    }
}

/// `s` without its trailing whitespace.
pub open spec fn trim_end(s: Seq<char>) -> Seq<char>
    decreases s.len(),
{
    if s.len() > 0 && is_ws(s.last()) {
        trim_end(s.drop_last())
    } else {
        s
    }
}

/// `s` without leading and trailing whitespace (`str::trim`).
pub open spec fn trim(s: Seq<char>) -> Seq<char> {
    trim_end(trim_start(s))
}

/// `pat` occurs in `s` as a contiguous piece (`str::contains`).
pub open spec fn contains_seq(s: Seq<char>, pat: Seq<char>) -> bool {
    exists|i: int| 0 <= i <= s.len() - pat.len() && #[trigger] s.subrange(i, i + pat.len()) == pat
}

/// `pat` is a prefix of `s` (`str::starts_with`).
pub open spec fn has_prefix(s: Seq<char>, pat: Seq<char>) -> bool {
    pat.len() <= s.len() && s.subrange(0, pat.len() as int) == pat
}

/// The characters of `s`, in order.
pub fn chars_of(s: &str) -> (out: Vec<char>)
    ensures
        out@ == s@,
{
    let mut out: Vec<char> = Vec::new();
    for c in it: s.chars()
        invariant
            out@ == it.seq().take(it.index() as int),
    {
        out.push(c);
    }
    out
}

/// `char::is_whitespace`.
pub fn is_whitespace(c: char) -> (b: bool)
    ensures
        b == is_ws(c),
{
    ('\t' <= c && c <= '\r') || c == ' ' || c == '\u{85}' || c == '\u{a0}' || c == '\u{1680}'
        || ('\u{2000}' <= c && c <= '\u{200a}') || c == '\u{2028}' || c == '\u{2029}'
        || c == '\u{202f}' || c == '\u{205f}' || c == '\u{3000}'
}

pub proof fn lemma_decimal_nonneg(d: Seq<char>)
    requires
        all_digits(d),
    ensures
        decimal_value(d) >= 0,
    decreases d.len(),
{
    if d.len() > 0 {
        assert(is_digit(d[d.len() - 1]));
        lemma_decimal_nonneg(d.drop_last());
    }
}

/// A prefix of a digit string never denotes more than the whole string.
pub proof fn lemma_decimal_prefix_le(d: Seq<char>, m: int)
    requires
        all_digits(d),
        0 <= m <= d.len(),
    ensures
        decimal_value(d.take(m)) <= decimal_value(d),
    decreases d.len() - m,
{
    if m == d.len() {
        assert(d.take(m) =~= d);
    } else {
        lemma_decimal_prefix_le(d, m + 1);
        let t = d.take(m + 1);
        assert(t.drop_last() =~= d.take(m));
        assert(is_digit(d[m]));
        assert(all_digits(d.take(m)));
        lemma_decimal_nonneg(d.take(m));
    }
}

/// Parses `cs[from..to]` as `str::parse::<u64>` would.
pub fn parse_u64_range(cs: &Vec<char>, from: usize, to: usize) -> (r: Option<u64>)
    requires
        from <= to <= cs@.len(),
    ensures
        r == parse_u64(cs@.subrange(from as int, to as int)),
{
    let ghost tok = cs@.subrange(from as int, to as int);
    let mut ds = from;
    if from < to && cs[from] == '+' {
        ds = from + 1;
    }
    let ghost d = cs@.subrange(ds as int, to as int);
    assert(d =~= (if tok.len() > 0 && tok[0] == '+' {
        tok.drop_first()
    } else {
        tok
    }));
    if ds == to {
        return None;
    }
    let ghost expect = parse_u64(tok);
    assert(expect == (if all_digits(d) && decimal_value(d) <= u64::MAX {
        Some(decimal_value(d) as u64)
    } else {
        None::<u64>
    }));
    let mut value: u64 = 0;
    let mut k = ds;
    while k < to
        invariant
            from <= ds <= k <= to <= cs@.len(),
            d == cs@.subrange(ds as int, to as int),
            d.len() > 0,
            tok == cs@.subrange(from as int, to as int),
            expect == parse_u64(tok),
            expect == (if all_digits(d) && decimal_value(d) <= u64::MAX {
                Some(decimal_value(d) as u64)
            } else {
                None::<u64>
            }),
            all_digits(cs@.subrange(ds as int, k as int)),
            value == decimal_value(cs@.subrange(ds as int, k as int)),
        decreases to - k,
    {
        let c = cs[k];
        let ghost pre = cs@.subrange(ds as int, k as int);
        let ghost next = cs@.subrange(ds as int, k + 1);
        assert(next.drop_last() =~= pre);
        assert(d.take(k + 1 - ds) =~= next);
        if !('0' <= c && c <= '9') {
            assert(d[k - ds] == c);
            return None;
        }
        let dv = (c as u32 - '0' as u32) as u64;
        assert(dv as int == c as int - '0' as int);
        assert(all_digits(next)) by {
            assert forall|i: int| 0 <= i < next.len() implies is_digit(#[trigger] next[i]) by {
                if i < pre.len() {
                    assert(next[i] == pre[i]);
                }
            }
        }
        if value > (u64::MAX - dv) / 10 {
            proof {
                if all_digits(d) {
                    lemma_decimal_prefix_le(d, k + 1 - ds);
                }
            }
            return None;
        }
        value = value * 10 + dv;
        k = k + 1;
    }
    assert(cs@.subrange(ds as int, k as int) =~= d);
    Some(value)
}

/// Finds the fourth whitespace-separated field of `cs[start..end]`.
pub fn fourth_field(cs: &Vec<char>, start: usize, end: usize) -> (r: Option<(usize, usize)>)
    requires
        start <= end <= cs@.len(),
    ensures
        r is Some <==> fields(cs@.subrange(start as int, end as int)).len() >= 4,
        r matches Some((a, b)) ==> start <= a <= b <= end && fields(
            cs@.subrange(start as int, end as int),
        )[3] == cs@.subrange(a as int, b as int),
{
    let mut count: usize = 0;
    let mut tstart: usize = start;
    let mut f4s: usize = start;
    let mut f4e: usize = start;
    let mut j = start;
    assert(cs@.subrange(start as int, start as int) =~= Seq::<char>::empty());
    while j < end
        invariant
            start <= j <= end <= cs@.len(),
            count <= j - start,
            fields(cs@.subrange(start as int, j as int)).len() == count,
            (j > start && !is_ws(cs@[j - 1])) ==> (count >= 1 && start <= tstart <= j
                && fields(cs@.subrange(start as int, j as int))[count - 1] == cs@.subrange(
                tstart as int,
                j as int,
            )),
            count >= 4 ==> (start <= f4s <= f4e <= j && fields(
                cs@.subrange(start as int, j as int),
            )[3] == cs@.subrange(f4s as int, f4e as int)),
            (count == 4 && j > start && !is_ws(cs@[j - 1])) ==> (f4s == tstart && f4e == j),
        decreases end - j,
    {
        let ghost pre = cs@.subrange(start as int, j as int);
        let ghost next = cs@.subrange(start as int, j + 1);
        assert(next.drop_last() =~= pre);
        assert(next.last() == cs@[j as int]);
        let c = cs[j];
        if is_whitespace(c) {
        } else if j > start && !is_whitespace(cs[j - 1]) {
            assert(next[next.len() - 2] == cs@[j - 1]);
            assert(cs@.subrange(tstart as int, j + 1) =~= cs@.subrange(tstart as int, j as int).push(c));
            if count == 4 {
                f4e = j + 1;
            }
        } else {
            assert(!(next.len() >= 2 && !is_ws(next[next.len() - 2])));
            count = count + 1;
            tstart = j;
            assert(cs@.subrange(j as int, j + 1) =~= seq![c]);
            if count == 4 {
                f4s = j;
                f4e = j + 1;
            }
        }
        j = j + 1;
    }
    if count >= 4 {
        Some((f4s, f4e))
    } else {
        None
    }
}

/// `haystack` contains `needle` as a contiguous piece (`str::contains`).
pub fn contains_str(haystack: &str, needle: &str) -> (b: bool)
    ensures
        b == contains_seq(haystack@, needle@),
{
    let h = chars_of(haystack);
    let p = chars_of(needle);
    let hn = h.len();
    let pn = p.len();
    if pn > hn {
        return false;
    }
    let mut i: usize = 0;
    while i <= hn - pn
        invariant
            h@ == haystack@,
            p@ == needle@,
            hn == h@.len(),
            pn == p@.len(),
            pn <= hn,
            i <= hn - pn + 1,
            forall|k: int| 0 <= k < i ==> #[trigger] h@.subrange(k, k + pn) != p@,
        decreases hn - pn + 1 - i,
    {
        let mut j: usize = 0;
        let mut same = true;
        while j < pn
            invariant
                h@ == haystack@,
                p@ == needle@,
                hn == h@.len(),
                pn == p@.len(),
                i + pn <= hn,
                j <= pn,
                same == (forall|k: int| 0 <= k < j ==> h@[i + k] == p@[k]),
            decreases pn - j,
        {
            if h[i + j] != p[j] {
                same = false;
            }
            j = j + 1;
        }
        if same {
            assert(h@.subrange(i as int, i + pn) =~= p@);
            return true;
        }
        assert(h@.subrange(i as int, i + pn) != p@) by {
            let k = choose|k: int| 0 <= k < pn && h@[i + k] != p@[k];
            assert(h@.subrange(i as int, i + pn)[k] == h@[i + k]);
        }
        i = i + 1;
    }
    false
}

/// `s` contains the character `c`.
pub fn contains_char(s: &str, c: char) -> (b: bool)
    ensures
        b == s@.contains(c),
{
    let cs = chars_of(s);
    let mut i: usize = 0;
    while i < cs.len()
        invariant
            cs@ == s@,
            i <= cs@.len(),
            forall|k: int| 0 <= k < i ==> cs@[k] != c,
        decreases cs@.len() - i,
    {
        if cs[i] == c {
            return true;
        }
        i = i + 1;
    }
    false
}

/// `a` and `b` hold the same text.
pub fn same_text(a: &str, b: &str) -> (r: bool)
    ensures
        r == (a@ == b@),
{
    let x = chars_of(a);
    let y = chars_of(b);
    if x.len() != y.len() {
        return false;
    }
    let mut i: usize = 0;
    while i < x.len()
        invariant
            x@ == a@,
            y@ == b@,
            x@.len() == y@.len(),
            i <= x@.len(),
            forall|k: int| 0 <= k < i ==> x@[k] == y@[k],
        decreases x@.len() - i,
    {
        if x[i] != y[i] {
            return false;
        }
        i = i + 1;
    }
    assert(x@ =~= y@);
    true
}

proof fn lemma_trim_start_skip(s: Seq<char>, i: int)
    requires
        0 <= i <= s.len(),
        forall|k: int| 0 <= k < i ==> is_ws(#[trigger] s[k]),
        i == s.len() || !is_ws(s[i]),
    ensures
        trim_start(s) == s.skip(i),
    decreases i,
{
    if i == 0 {
        assert(s.skip(0) =~= s);
    } else {
        let t = s.drop_first();
        assert forall|k: int| 0 <= k < i - 1 implies is_ws(#[trigger] t[k]) by {
            assert(t[k] == s[k + 1]);
        }
        assert(is_ws(s[0]));
        lemma_trim_start_skip(t, i - 1);
        assert(t.skip(i - 1) =~= s.skip(i));
    }
}

proof fn lemma_trim_end_take(s: Seq<char>, j: int)
    requires
        0 <= j <= s.len(),
        forall|k: int| j <= k < s.len() ==> is_ws(#[trigger] s[k]),
        j == 0 || !is_ws(s[j - 1]),
    ensures
        trim_end(s) == s.take(j),
    decreases s.len() - j,
{
    if j == s.len() {
        assert(s.take(j) =~= s);
    } else {
        let t = s.drop_last();
        assert(is_ws(s[s.len() - 1]));
        assert forall|k: int| j <= k < t.len() implies is_ws(#[trigger] t[k]) by {
            assert(t[k] == s[k]);
        }
        lemma_trim_end_take(t, j);
        assert(t.take(j) =~= s.take(j));
    }
}

/// The bounds of `trim(cs[start..end])` within `cs`.
pub fn trim_bounds(cs: &Vec<char>, start: usize, end: usize) -> (r: (usize, usize))
    requires
        start <= end <= cs@.len(),
    ensures
        start <= r.0 <= r.1 <= end,
        trim(cs@.subrange(start as int, end as int)) == cs@.subrange(r.0 as int, r.1 as int),
{
    let ghost s = cs@.subrange(start as int, end as int);
    let mut a = start;
    while a < end && is_whitespace(cs[a])
        invariant
            start <= a <= end <= cs@.len(),
            forall|k: int| start <= k < a ==> is_ws(#[trigger] cs@[k]),
        decreases end - a,
    {
        a = a + 1;
    }
    proof {
        assert forall|k: int| 0 <= k < a - start implies is_ws(#[trigger] s[k]) by {
            assert(s[k] == cs@[start + k]);
        }
        lemma_trim_start_skip(s, a - start);
        assert(s.skip(a - start) =~= cs@.subrange(a as int, end as int));
    }
    let ghost t = cs@.subrange(a as int, end as int);
    let mut b = end;
    while b > a && is_whitespace(cs[b - 1])
        invariant
            start <= a <= b <= end <= cs@.len(),
            forall|k: int| b <= k < end ==> is_ws(#[trigger] cs@[k]),
        decreases b - a,
    {
        b = b - 1;
    }
    proof {
        assert forall|k: int| b - a <= k < t.len() implies is_ws(#[trigger] t[k]) by {
            assert(t[k] == cs@[a + k]);
        }
        if b > a {
            assert(t[b - a - 1] == cs@[b - 1]);
        }
        lemma_trim_end_take(t, b - a);
        assert(t.take(b - a) =~= cs@.subrange(a as int, b as int));
    }
    (a, b)
}

/// `a`, then `b`, then `c`.
pub fn concat3(a: &str, b: &str, c: &str) -> (r: String)
    ensures
        r@ == a@ + b@ + c@,
{
    let mut r = String::from_str(a);
    r.append(b);
    r.append(c);
    r
}

/// The decimal digit character for `d < 10`.
pub open spec fn digit_char(d: int) -> char {
    (48 + d) as char
}

/// The decimal rendering of `n`, without leading zeros.
pub open spec fn decimal_text(n: nat) -> Seq<char>
    decreases n,
{
    if n < 10 {
        seq![digit_char(n as int)]
    } else {
        decimal_text(n / 10).push(digit_char((n % 10) as int))
    }
}

fn digit_str(d: u64) -> (r: &'static str)
    requires
        d < 10,
    ensures
        r@ == seq![digit_char(d as int)],
{
    proof {
        reveal_strlit("0");
        reveal_strlit("1");
        reveal_strlit("2");
        reveal_strlit("3");
        reveal_strlit("4");
        reveal_strlit("5");
        reveal_strlit("6");
        reveal_strlit("7");
        reveal_strlit("8");
        reveal_strlit("9");
    }
    match d {
        0 => "0",
        1 => "1",
        2 => "2",
        3 => "3",
        4 => "4",
        5 => "5",
        6 => "6",
        7 => "7",
        8 => "8",
        _ => "9",
    }
}

/// `n` in decimal (what `Display` prints for a `u64`).
pub fn decimal_string(n: u64) -> (r: String)
    ensures
        r@ == decimal_text(n as nat),
    decreases n,
{
    if n < 10 {
        String::from_str(digit_str(n))
    } else {
        let mut r = decimal_string(n / 10);
        r.append(digit_str(n % 10));
        r
    }
}

/// `s` with every occurrence of the non-empty `pat` replaced by `rep`,
/// occurrences taken left to right without overlap (`str::replace`).
pub open spec fn replace_all(s: Seq<char>, pat: Seq<char>, rep: Seq<char>) -> Seq<char>
    decreases s.len(),
{
    if pat.len() == 0 || s.len() < pat.len() {
        s
    } else if s.subrange(0, pat.len() as int) == pat {
        rep + replace_all(s.skip(pat.len() as int), pat, rep)
    } else {
        seq![s[0]] + replace_all(s.drop_first(), pat, rep)
    }
}

/// Replaces every occurrence of `pat` in `s` by `rep`.
pub fn replace_text(s: &str, pat: &str, rep: &str) -> (r: String)
    requires
        pat@.len() > 0,
    ensures
        r@ == replace_all(s@, pat@, rep@),
{
    let cs = chars_of(s);
    let ps = chars_of(pat);
    let n = cs.len();
    let pn = ps.len();
    let mut out = String::new();
    let mut copied: usize = 0;
    let mut i: usize = 0;
    assert(cs@.skip(0) =~= cs@);
    assert(cs@.subrange(0, 0) =~= Seq::<char>::empty());
    while i < n
        invariant
            cs@ == s@,
            ps@ == pat@,
            n == cs@.len(),
            pn == ps@.len(),
            pn > 0,
            copied <= i <= n,
            replace_all(cs@, ps@, rep@) == out@ + cs@.subrange(copied as int, i as int)
                + replace_all(cs@.skip(i as int), ps@, rep@),
        decreases n - i,
    {
        let ghost rest = cs@.skip(i as int);
        let mut hit = false;
        if n - i >= pn {
            let mut j: usize = 0;
            hit = true;
            while j < pn
                invariant
                    cs@ == s@,
                    ps@ == pat@,
                    n == cs@.len(),
                    pn == ps@.len(),
                    i + pn <= n,
                    j <= pn,
                    hit == (forall|k: int| 0 <= k < j ==> cs@[i + k] == ps@[k]),
                decreases pn - j,
            {
                if cs[i + j] != ps[j] {
                    hit = false;
                }
                j = j + 1;
            }
            if hit {
                assert(rest.subrange(0, pn as int) =~= ps@);
            } else {
                assert(rest.subrange(0, pn as int) != ps@) by {
                    let k = choose|k: int| 0 <= k < pn && cs@[i + k] != ps@[k];
                    assert(rest.subrange(0, pn as int)[k] == cs@[i + k]);
                }
            }
        }
        if hit {
            let ghost before = out@;
            let ghost mid = cs@.subrange(copied as int, i as int);
            let ghost x = replace_all(cs@.skip(i + pn), ps@, rep@);
            assert(rest.skip(pn as int) =~= cs@.skip(i + pn));
            assert(replace_all(rest, ps@, rep@) == rep@ + x);
            out.append(s.substring_char(copied, i));
            out.append(rep);
            assert(cs@.subrange((i + pn) as int, (i + pn) as int) =~= Seq::<char>::empty());
            assert((before + mid) + (rep@ + x) =~= out@ + cs@.subrange(
                (i + pn) as int,
                (i + pn) as int,
            ) + x);
            copied = i + pn;
            i = i + pn;
        } else {
            let ghost x = replace_all(cs@.skip(i + 1), ps@, rep@);
            assert(rest.drop_first() =~= cs@.skip(i + 1));
            assert(rest[0] == cs@[i as int]);
            assert(replace_all(rest, ps@, rep@) == seq![cs@[i as int]] + x);
            assert(cs@.subrange(copied as int, i + 1) =~= cs@.subrange(copied as int, i as int)
                + seq![cs@[i as int]]);
            assert(out@ + cs@.subrange(copied as int, i as int) + (seq![cs@[i as int]] + x)
                =~= out@ + cs@.subrange(copied as int, i + 1) + x);
            i = i + 1;
        }
    }
    proof {
        assert(cs@.skip(n as int) =~= Seq::<char>::empty());
        assert(replace_all(Seq::<char>::empty(), ps@, rep@) =~= Seq::<char>::empty());
    }
    let ghost before = out@;
    out.append(s.substring_char(copied, n));
    assert(out@ =~= before + cs@.subrange(copied as int, n as int) + Seq::<char>::empty());
    out
}

} // verus!
