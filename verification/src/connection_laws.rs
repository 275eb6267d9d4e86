//! What holds of reading device shell output, over all inputs.

use vstd::prelude::*;

use crate::connection::{
    device_config_text, insufficient_space_text, df_available_kb, df_line_available, first_available, first_readlink, free_space_result,
    readlink_line, readlink_target, InsufficientSpace,
};
use crate::text::{
    all_digits, contains_seq, decimal_text, decimal_value, digit_char, fields, has_prefix, parse_u64,
    split_lines, trim,
};

verus! {

/// Text without a line break is one line.
pub proof fn lemma_single_line(s: Seq<char>)
    requires
        !s.contains('\n'),
    ensures
        split_lines(s) == seq![s],
    decreases s.len(),
{
    if s.len() > 0 {
        let t = s.drop_last();
        assert(!t.contains('\n')) by {
            if t.contains('\n') {
                let k = choose|k: int| 0 <= k < t.len() && t[k] == '\n';
                assert(s[k] == '\n');
            }
        }
        lemma_single_line(t);
        assert(s.last() != '\n') by {
            if s.last() == '\n' {
                assert(s[s.len() - 1] == '\n');
            }
        }
        assert(t.push(s.last()) =~= s);
    } else {
        assert(s =~= Seq::<char>::empty());
    }
}

/// On a single `df` line, the available amount is its fourth whitespace
/// separated field read as a number; a line with fewer than four fields
/// gives nothing.
pub proof fn law_df_fourth_column(line: Seq<char>)
    requires
        !line.contains('\n'),
    ensures
        fields(line).len() >= 4 ==> df_available_kb(line) == parse_u64(fields(line)[3]),
        fields(line).len() < 4 ==> df_available_kb(line) is None,
{
    lemma_single_line(line);
    let ls = seq![line];
    assert(ls.drop_last() =~= Seq::<Seq<char>>::empty());
    assert(first_available(Seq::<Seq<char>>::empty()) is None);
    assert(first_available(ls) == df_line_available(line));
}

/// The free-space check passes when exactly the needed amount is available,
/// refuses when any more is needed, and a passing check still passes for
/// any smaller need; output without a readable amount always passes.
pub proof fn law_free_space_threshold(df_output: Seq<char>, needed_kb: u64, smaller: u64)
    requires
        smaller <= needed_kb,
    ensures
        df_available_kb(df_output) == Some(needed_kb) ==> free_space_result(df_output, needed_kb)
            is Ok,
        (df_available_kb(df_output) matches Some(a) && a < needed_kb) ==> free_space_result(
            df_output,
            needed_kb,
        ) == Err::<(), InsufficientSpace>(
            InsufficientSpace { needed_kb, available_kb: df_available_kb(df_output)->0 },
        ),
        free_space_result(df_output, needed_kb) is Ok ==> free_space_result(df_output, smaller)
            is Ok,
        df_available_kb(df_output) is None ==> free_space_result(df_output, needed_kb) is Ok,
{
}

/// On a single line of `readlink` output, the target is what follows the
/// `RL:` marker in the trimmed line; without the marker there is none.
pub proof fn law_readlink_single_line(line: Seq<char>)
    requires
        !line.contains('\n'),
    ensures
        has_prefix(trim(line), seq!['R', 'L', ':']) ==> readlink_target(line) == Some(
            trim(line).subrange(3, trim(line).len() as int),
        ),
        !has_prefix(trim(line), seq!['R', 'L', ':']) ==> readlink_target(line) is None,
{
    reveal_strlit("RL:");
    lemma_single_line(line);
    let ls = seq![line];
    assert(ls.drop_last() =~= Seq::<Seq<char>>::empty());
    assert(first_readlink(Seq::<Seq<char>>::empty()) is None);
    assert(first_readlink(ls) == readlink_line(line));
    assert("RL:"@ =~= seq!['R', 'L', ':']);
    if has_prefix(trim(line), seq!['R', 'L', ':']) {
        assert(trim(line).skip(3) =~= trim(line).subrange(3, trim(line).len() as int));
    }
}

pub proof fn lemma_decimal_digits(n: nat)
    ensures
        decimal_text(n).len() > 0,
        all_digits(decimal_text(n)),
        decimal_value(decimal_text(n)) == n,
        '0' <= decimal_text(n)[0] <= '9',
    decreases n,
{
    if n < 10 {
        assert(digit_char(n as int) as int == 48 + n);
        let s = decimal_text(n);
        assert(s.drop_last() =~= Seq::<char>::empty());
        assert(decimal_value(Seq::<char>::empty()) == 0);
        assert(s.last() == digit_char(n as int));
        assert('0' as int == 48);
        assert(decimal_value(s) == decimal_value(s.drop_last()) * 10 + (s.last() as int - '0' as int));
    } else {
        lemma_decimal_digits(n / 10);
        let t = decimal_text(n / 10);
        let s = t.push(digit_char((n % 10) as int));
        assert(s.drop_last() =~= t);
        assert(s[0] == t[0]);
        let d = (n % 10) as int;
        assert(digit_char(d) as int == 48 + d);
        assert(s.last() == digit_char(d));
        assert(decimal_value(s) == decimal_value(t) * 10 + (s.last() as int - '0' as int));
        assert(n == (n / 10) * 10 + n % 10);
        assert('0' as int == 48);
        assert forall|i: int| 0 <= i < s.len() implies crate::text::is_digit(#[trigger] s[i]) by {
            if i < t.len() {
                assert(s[i] == t[i]);
            }
        }
    }
}

/// Reading back what `decimal_string` writes gives the number again.
pub proof fn law_decimal_roundtrip(n: u64)
    ensures
        parse_u64(decimal_text(n as nat)) == Some(n),
{
    lemma_decimal_digits(n as nat);
}

proof fn lemma_first_available_concat(a: Seq<Seq<char>>, b: Seq<Seq<char>>)
    ensures
        first_available(a + b) == (if first_available(a) is Some {
            first_available(a)
        } else {
            first_available(b)
        }),
    decreases b.len(),
{
    if b.len() == 0 {
        assert(a + b =~= a);
    } else {
        lemma_first_available_concat(a, b.drop_last());
        assert((a + b).drop_last() =~= a + b.drop_last());
        assert((a + b).last() == b.last());
    }
}

proof fn lemma_first_readlink_concat(a: Seq<Seq<char>>, b: Seq<Seq<char>>)
    ensures
        first_readlink(a + b) == (if first_readlink(a) is Some {
            first_readlink(a)
        } else {
            first_readlink(b)
        }),
    decreases b.len(),
{
    if b.len() == 0 {
        assert(a + b =~= a);
    } else {
        lemma_first_readlink_concat(a, b.drop_last());
        assert((a + b).drop_last() =~= a + b.drop_last());
        assert((a + b).last() == b.last());
    }
}

/// The first line decides: when the first line of `df` output has a
/// readable fourth column, that is the answer whatever follows; when it has
/// none, the answer comes from the lines after it.
pub proof fn law_df_first_line_wins(first: Seq<char>, rest: Seq<char>)
    requires
        !first.contains('\n'),
    ensures
        df_available_kb(first + seq!['\n'] + rest) == (if df_available_kb(first) is Some {
            df_available_kb(first)
        } else {
            df_available_kb(rest)
        }),
{
    crate::text_laws::law_lines_split_at_newline(first, rest);
    lemma_single_line(first);
    lemma_first_available_concat(seq![first], split_lines(rest));
}

/// The first line that carries the `RL:` marker decides the link target.
pub proof fn law_readlink_first_line_wins(first: Seq<char>, rest: Seq<char>)
    requires
        !first.contains('\n'),
    ensures
        readlink_target(first + seq!['\n'] + rest) == (if readlink_target(first) is Some {
            readlink_target(first)
        } else {
            readlink_target(rest)
        }),
{
    crate::text_laws::law_lines_split_at_newline(first, rest);
    lemma_single_line(first);
    lemma_first_readlink_concat(seq![first], split_lines(rest));
}

/// The message names the path and gives both sizes in whole megabytes,
/// rounded down, then says how to free space.
pub proof fn law_insufficient_space_text(path: Seq<char>, needed_kb: u64, available_kb: u64)
    ensures
        insufficient_space_text(path, needed_kb, available_kb) == "Not enough free space on the filesystem containing '"@
            + path + "'.\nNeed at least "@ + decimal_text((needed_kb / 1024) as nat)
            + " MB but only "@ + decimal_text((available_kb / 1024) as nat)
            + " MB available.\n\nTo free space, delete old recordings on the device:\n  rm -rf /data/rayhunter/qmdl/*"@,
{
}

/// The config's commented-out device line becomes `device = "<type>"`, and
/// a template without that line is left as it is.
pub proof fn law_device_config(device_type: Seq<char>, template: Seq<char>)
    ensures
        device_config_text("#device = \"orbic\""@, device_type) == "device = \""@ + device_type
            + "\""@,
        !contains_seq(template, "#device = \"orbic\""@) ==> device_config_text(
            template,
            device_type,
        ) == template,
{
    reveal_strlit("#device = \"orbic\"");
    crate::text_laws::law_contains_and_replace(
        template,
        "#device = \"orbic\""@,
        Seq::<char>::empty(),
        "device = \""@ + device_type + "\""@,
    );
    crate::text_laws::law_contains_and_replace(
        "#device = \"orbic\""@,
        "#device = \"orbic\""@,
        Seq::<char>::empty(),
        "device = \""@ + device_type + "\""@,
    );
}

} // verus!
