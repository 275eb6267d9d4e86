//! What holds of the text helpers' meanings, over all inputs.

use vstd::prelude::*;

use crate::text::{
    contains_seq, decimal_text, fields, is_ws, parse_u64, replace_all, split_lines, trim,
    trim_end, trim_start,
};

verus! {

/// The whitespace characters are exactly U+0009 to U+000D, U+0020, U+0085,
/// U+00A0, U+1680, U+2000 to U+200A, U+2028, U+2029, U+202F, U+205F and
/// U+3000 (Unicode `White_Space`).
pub proof fn law_whitespace_code_points(c: char)
    ensures
        is_ws(c) <==> ({
            let u = c as u32;
            ||| 9 <= u <= 13
            ||| u == 32
            ||| u == 0x85
            ||| u == 0xa0
            ||| u == 0x1680
            ||| 0x2000 <= u <= 0x200a
            ||| u == 0x2028
            ||| u == 0x2029
            ||| u == 0x202f
            ||| u == 0x205f
            ||| u == 0x3000
        }),
{
}

proof fn lemma_fields_last(s: Seq<char>)
    requires
        s.len() > 0,
        !is_ws(s.last()),
    ensures
        fields(s).len() > 0,
    decreases s.len(),
{
    if s.len() >= 2 && !is_ws(s[s.len() - 2]) {
        assert(s.drop_last().last() == s[s.len() - 2]);
        lemma_fields_last(s.drop_last());
    }
}

/// A whitespace character separates fields: the fields of `a`, a
/// whitespace character and `b` are the fields of `a` followed by those of
/// `b`.
pub proof fn law_fields_split_at_whitespace(a: Seq<char>, w: char, b: Seq<char>)
    requires
        is_ws(w),
    ensures
        fields(a + seq![w] + b) == fields(a) + fields(b),
    decreases b.len(),
{
    let s = a + seq![w] + b;
    if b.len() == 0 {
        assert(s =~= a.push(w));
        assert(s.drop_last() =~= a);
        assert(fields(b) =~= Seq::<Seq<char>>::empty());
        assert(fields(a) + fields(b) =~= fields(a));
    } else {
        let b1 = b.drop_last();
        let c = b.last();
        law_fields_split_at_whitespace(a, w, b1);
        assert(s.drop_last() =~= a + seq![w] + b1);
        assert(s.last() == c);
        let prev = fields(a) + fields(b1);
        if is_ws(c) {
            assert(fields(b) == fields(b1));
        } else if s.len() >= 2 && !is_ws(s[s.len() - 2]) {
            assert(b1.len() > 0) by {
                if b1.len() == 0 {
                    assert(s[s.len() - 2] == w);
                }
            }
            assert(s[s.len() - 2] == b1.last());
            assert(b[b.len() - 2] == b1.last());
            lemma_fields_last(b1);
            assert(fields(b) == fields(b1).update(
                fields(b1).len() - 1,
                fields(b1).last().push(c),
            ));
            assert(fields(s) == prev.update(prev.len() - 1, prev.last().push(c)));
            assert(fields(s) =~= fields(a) + fields(b));
        } else {
            if b1.len() > 0 {
                assert(s[s.len() - 2] == b1.last());
                assert(b[b.len() - 2] == b1.last());
            }
            assert(fields(b) == fields(b1).push(seq![c]));
            assert(fields(s) =~= fields(a) + fields(b));
        }
    }
}

/// Every field is non-empty and holds no whitespace.
pub proof fn law_fields_are_words(s: Seq<char>)
    ensures
        forall|i: int| 0 <= i < fields(s).len() ==> #[trigger] fields(s)[i].len() > 0,
        forall|i: int, j: int|
            0 <= i < fields(s).len() && 0 <= j < fields(s)[i].len() ==> !is_ws(
                #[trigger] fields(s)[i][j],
            ),
    decreases s.len(),
{
    if s.len() > 0 {
        law_fields_are_words(s.drop_last());
        let prev = fields(s.drop_last());
        let c = s.last();
        if !is_ws(c) && s.len() >= 2 && !is_ws(s[s.len() - 2]) {
            lemma_fields_last(s.drop_last());
            let f = fields(s);
            assert forall|i: int, j: int|
                0 <= i < f.len() && 0 <= j < f[i].len() implies !is_ws(#[trigger] f[i][j]) by {
                if i == prev.len() - 1 && j == prev.last().len() {
                } else if i == prev.len() - 1 {
                    assert(f[i][j] == prev[i][j]);
                }
            }
        } else if !is_ws(c) {
            let f = fields(s);
            assert forall|i: int, j: int|
                0 <= i < f.len() && 0 <= j < f[i].len() implies !is_ws(#[trigger] f[i][j]) by {
                if i < prev.len() {
                    assert(f[i] == prev[i]);
                }
            }
        }
    }
}

/// A line break separates lines: the lines of `a`, a line break and `b`
/// are the lines of `a` followed by those of `b`.
pub proof fn law_lines_split_at_newline(a: Seq<char>, b: Seq<char>)
    ensures
        split_lines(a + seq!['\n'] + b) == split_lines(a) + split_lines(b),
    decreases b.len(),
{
    let s = a + seq!['\n'] + b;
    if b.len() == 0 {
        assert(s =~= a.push('\n'));
        assert(s.drop_last() =~= a);
        assert(split_lines(a) + split_lines(b) =~= split_lines(a).push(Seq::<char>::empty()));
    } else {
        let b1 = b.drop_last();
        let c = b.last();
        law_lines_split_at_newline(a, b1);
        assert(s.drop_last() =~= a + seq!['\n'] + b1);
        assert(s.last() == c);
        let prev = split_lines(a) + split_lines(b1);
        lemma_lines_nonempty(b1);
        if c == '\n' {
            assert(split_lines(s) =~= split_lines(a) + split_lines(b));
        } else {
            assert(split_lines(s) =~= split_lines(a) + split_lines(b));
        }
    }
}

proof fn lemma_lines_nonempty(s: Seq<char>)
    ensures
        split_lines(s).len() >= 1,
    decreases s.len(),
{
    if s.len() > 0 {
        lemma_lines_nonempty(s.drop_last());
    }
}

/// `+` followed by the decimal text of a number, and the decimal text
/// alone, both read back as that number; a leading `-` never reads.
pub proof fn law_parse_u64_forms(n: u64, t: Seq<char>)
    ensures
        parse_u64(decimal_text(n as nat)) == Some(n),
        parse_u64(seq!['+'] + decimal_text(n as nat)) == Some(n),
        parse_u64(seq!['-'] + t) is None,
        parse_u64(Seq::<char>::empty()) is None,
{
    crate::connection_laws::law_decimal_roundtrip(n);
    let d = decimal_text(n as nat);
    assert((seq!['+'] + d).drop_first() =~= d);
    assert(d[0] != '+') by {
        crate::connection_laws::lemma_decimal_digits(n as nat);
    }
    let m = seq!['-'] + t;
    assert(m[0] == '-');
}

/// Trimming ignores a leading whitespace character, and leaves alone text
/// that neither starts nor ends with whitespace.
pub proof fn law_trim_edges(w: char, s: Seq<char>)
    requires
        is_ws(w),
    ensures
        trim(seq![w] + s) == trim(s),
        (s.len() > 0 && !is_ws(s[0]) && !is_ws(s.last())) ==> trim(s) == s,
{
    assert((seq![w] + s).drop_first() =~= s);
    assert((seq![w] + s)[0] == w);
}

/// Text with the pattern in it contains the pattern; replacing a pattern
/// in the pattern itself gives the replacement; text without the pattern
/// is left as it is.
pub proof fn law_contains_and_replace(a: Seq<char>, pat: Seq<char>, b: Seq<char>, rep: Seq<char>)
    requires
        pat.len() > 0,
    ensures
        contains_seq(a + pat + b, pat),
        replace_all(pat, pat, rep) == rep,
        !contains_seq(a, pat) ==> replace_all(a, pat, rep) == a,
{
    let s = a + pat + b;
    assert(s.subrange(a.len() as int, (a.len() + pat.len()) as int) =~= pat);
    assert(pat.subrange(0, pat.len() as int) =~= pat);
    assert(pat.skip(pat.len() as int) =~= Seq::<char>::empty());
    assert(replace_all(Seq::<char>::empty(), pat, rep) == Seq::<char>::empty());
    assert(replace_all(pat, pat, rep) == rep + replace_all(pat.skip(pat.len() as int), pat, rep));
    assert(rep + Seq::<char>::empty() =~= rep);
    lemma_replace_absent(a, pat, rep);
}

proof fn lemma_replace_absent(s: Seq<char>, pat: Seq<char>, rep: Seq<char>)
    requires
        pat.len() > 0,
    ensures
        !contains_seq(s, pat) ==> replace_all(s, pat, rep) == s,
    decreases s.len(),
{
    if !contains_seq(s, pat) && s.len() >= pat.len() {
        assert(s.subrange(0, pat.len() as int) != pat) by {
            if s.subrange(0, pat.len() as int) == pat {
                assert(s.subrange(0, (0 + pat.len()) as int) == pat);
            }
        }
        let t = s.drop_first();
        assert(!contains_seq(t, pat)) by {
            if contains_seq(t, pat) {
                let i = choose|i: int| 0 <= i <= t.len() - pat.len() && #[trigger] t.subrange(i, i + pat.len()) == pat;
                assert(s.subrange(i + 1, i + 1 + pat.len()) =~= t.subrange(i, i + pat.len()));
            }
        }
        lemma_replace_absent(t, pat, rep);
        assert(seq![s[0]] + t =~= s);
    }
}

} // verus!
