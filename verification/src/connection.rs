//! What the installer reads from, and says to, a device shell: `df` output,
//! probe answers, `readlink` output, and the commands it sends.

use vstd::prelude::*;

use crate::text::{
    chars_of, concat3, contains_seq, contains_str, decimal_string, decimal_text, fields,
    fourth_field, has_prefix, parse_u64, parse_u64_range, replace_all, replace_text, split_lines,
    trim, trim_bounds,
};

verus! {

/// The "Available" column (fourth field) of one POSIX `df -k` data line,
/// when the line has at least four fields and that field is a `u64`.
pub open spec fn df_line_available(line: Seq<char>) -> Option<u64> {
    let f = fields(line);
    if f.len() >= 4 {
        parse_u64(f[3])
    } else {
        None
    }
}

/// The value of the first line, in order, that `df_line_available` accepts.
pub open spec fn first_available(lines: Seq<Seq<char>>) -> Option<u64>
    decreases lines.len(),
{
    if lines.len() == 0 {
        None
    } else {
        let before = first_available(lines.drop_last());
        if before is Some {
            before
        } else {
            df_line_available(lines.last())
        }
    }
}

/// What `df -k` reports as available, in kilobytes: the fourth field of the
/// first line of `output` that has at least four fields with a `u64` there.
/// Lines are split at `'\n'`; a `'\r'` before it is whitespace and so never
/// part of a field.
pub open spec fn df_available_kb(output: Seq<char>) -> Option<u64> {
    first_available(split_lines(output))
}

/// Parses the "Available" column (fourth field) from POSIX `df -k` output.
pub fn parse_df_available_kb(output: &str) -> (r: Option<u64>)
    ensures
        r == df_available_kb(output@),
{
    let cs = chars_of(output);
    let n = cs.len();
    let mut result: Option<u64> = None;
    let mut start: usize = 0;
    let mut i: usize = 0;
    let ghost mut done: Seq<Seq<char>> = Seq::empty();
    assert(cs@.take(0) =~= Seq::<char>::empty());
    assert(cs@.subrange(0, 0) =~= Seq::<char>::empty());
    assert(split_lines(cs@.take(0)) =~= done.push(cs@.subrange(0, 0)));
    while i < n
        invariant
            n == cs@.len(),
            start <= i <= n,
            split_lines(cs@.take(i as int)) == done.push(cs@.subrange(start as int, i as int)),
            result == first_available(done),
        decreases n - i,
    {
        let ghost s1 = cs@.take(i + 1);
        assert(s1.drop_last() =~= cs@.take(i as int));
        assert(s1.last() == cs@[i as int]);
        if cs[i] == '\n' {
            let ghost line = cs@.subrange(start as int, i as int);
            if result.is_none() {
                match fourth_field(&cs, start, i) {
                    Some((a, b)) => {
                        result = parse_u64_range(&cs, a, b);
                    },
                    None => {},
                }
            }
            proof {
                let nd = done.push(line);
                assert(nd.drop_last() =~= done);
                done = nd;
                assert(cs@.subrange(i + 1, i + 1) =~= Seq::<char>::empty());
            }
            start = i + 1;
        } else {
            assert(cs@.subrange(start as int, i + 1) =~= cs@.subrange(start as int, i as int).push(cs@[i as int]));
            assert(done.push(cs@.subrange(start as int, i as int)).update(done.len() as int, cs@.subrange(start as int, i + 1))
                =~= done.push(cs@.subrange(start as int, i + 1)));
        }
        i = i + 1;
    }
    let ghost last = cs@.subrange(start as int, n as int);
    if result.is_none() {
        match fourth_field(&cs, start, n) {
            Some((a, b)) => {
                result = parse_u64_range(&cs, a, b);
            },
            None => {},
        }
    }
    proof {
        assert(cs@.take(n as int) =~= cs@);
        let all = done.push(last);
        assert(all.drop_last() =~= done);
    }
    result
}

/// The symlink target that one line of `readlink` output reports: the
/// trimmed line after the `RL:` marker.
pub open spec fn readlink_line(line: Seq<char>) -> Option<Seq<char>> {
    let t = trim(line);
    if has_prefix(t, "RL:"@) {
        Some(t.skip(3))
    } else {
        None
    }
}

/// The target reported by the first line, in order, that carries the marker.
pub open spec fn first_readlink(lines: Seq<Seq<char>>) -> Option<Seq<char>>
    decreases lines.len(),
{
    if lines.len() == 0 {
        None
    } else {
        let before = first_readlink(lines.drop_last());
        if before is Some {
            before
        } else {
            readlink_line(lines.last())
        }
    }
}

/// What the output of `echo RL:$(readlink ...)` says the link points to.
/// Shells that echo the command back or add protocol lines are allowed for:
/// only the first line whose trimmed text starts with `RL:` counts.
pub open spec fn readlink_target(output: Seq<char>) -> Option<Seq<char>> {
    first_readlink(split_lines(output))
}

fn readlink_in_line(output: &str, cs: &Vec<char>, start: usize, end: usize) -> (r: Option<String>)
    requires
        cs@ == output@,
        start <= end <= cs@.len(),
    ensures
        r matches Some(t) ==> readlink_line(cs@.subrange(start as int, end as int)) == Some(t@),
        r is None ==> readlink_line(cs@.subrange(start as int, end as int)) is None,
{
    let (a, b) = trim_bounds(cs, start, end);
    let ghost t = cs@.subrange(a as int, b as int);
    proof {
        reveal_strlit("RL:");
    }
    if b - a >= 3 && cs[a] == 'R' && cs[a + 1] == 'L' && cs[a + 2] == ':' {
        assert(t.subrange(0, 3) =~= "RL:"@);
        let target = output.substring_char(a + 3, b);
        assert(target@ =~= t.skip(3));
        Some(String::from_str(target))
    } else {
        assert(!has_prefix(t, "RL:"@)) by {
            if has_prefix(t, "RL:"@) {
                assert(t.subrange(0, 3)[0] == t[0]);
                assert(t.subrange(0, 3)[1] == t[1]);
                assert(t.subrange(0, 3)[2] == t[2]);
            }
        }
        None
    }
}

/// Reads the symlink target out of the output of `echo RL:$(readlink ...)`.
pub fn parse_readlink_output(output: &str) -> (r: Option<String>)
    ensures
        r matches Some(t) ==> readlink_target(output@) == Some(t@),
        r is None ==> readlink_target(output@) is None,
{
    let cs = chars_of(output);
    let n = cs.len();
    let mut result: Option<String> = None;
    let mut start: usize = 0;
    let mut i: usize = 0;
    let ghost mut done: Seq<Seq<char>> = Seq::empty();
    assert(cs@.take(0) =~= Seq::<char>::empty());
    assert(cs@.subrange(0, 0) =~= Seq::<char>::empty());
    assert(split_lines(cs@.take(0)) =~= done.push(cs@.subrange(0, 0)));
    while i < n
        invariant
            n == cs@.len(),
            cs@ == output@,
            start <= i <= n,
            split_lines(cs@.take(i as int)) == done.push(cs@.subrange(start as int, i as int)),
            result matches Some(t) ==> first_readlink(done) == Some(t@),
            result is None ==> first_readlink(done) is None,
        decreases n - i,
    {
        let ghost s1 = cs@.take(i + 1);
        assert(s1.drop_last() =~= cs@.take(i as int));
        assert(s1.last() == cs@[i as int]);
        if cs[i] == '\n' {
            let ghost line = cs@.subrange(start as int, i as int);
            if result.is_none() {
                result = readlink_in_line(output, &cs, start, i);
            }
            proof {
                let nd = done.push(line);
                assert(nd.drop_last() =~= done);
                done = nd;
                assert(cs@.subrange(i + 1, i + 1) =~= Seq::<char>::empty());
            }
            start = i + 1;
        } else {
            assert(cs@.subrange(start as int, i + 1) =~= cs@.subrange(start as int, i as int).push(
                cs@[i as int],
            ));
            assert(done.push(cs@.subrange(start as int, i as int)).update(
                done.len() as int,
                cs@.subrange(start as int, i + 1),
            ) =~= done.push(cs@.subrange(start as int, i + 1)));
        }
        i = i + 1;
    }
    let ghost last = cs@.subrange(start as int, n as int);
    if result.is_none() {
        result = readlink_in_line(output, &cs, start, n);
    }
    proof {
        assert(cs@.take(n as int) =~= cs@);
        let all = done.push(last);
        assert(all.drop_last() =~= done);
    }
    result
}

/// The filesystem holding a path has less room than an installation step needs.
#[derive(Clone, Copy, Debug, PartialEq, Eq, Structural)]
pub struct InsufficientSpace {
    pub needed_kb: u64,
    pub available_kb: u64,
}

/// Whether the `df -k` output allows writing `needed_kb` kilobytes: refused
/// exactly when the output reports an available amount below `needed_kb`;
/// output that cannot be read lets the step go ahead.
pub open spec fn free_space_result(df_output: Seq<char>, needed_kb: u64) -> Result<(), InsufficientSpace> {
    match df_available_kb(df_output) {
        Some(available_kb) => if available_kb < needed_kb {
            Err(InsufficientSpace { needed_kb, available_kb })
        } else {
            Ok(())
        },
        None => Ok(()),
    }
}

/// Decides, from the output of `df_command`, whether `needed_kb` kilobytes fit.
pub fn check_free_space_output(df_output: &str, needed_kb: u64) -> (r: Result<(), InsufficientSpace>)
    ensures
        r == free_space_result(df_output@, needed_kb),
{
    match parse_df_available_kb(df_output) {
        Some(available_kb) => {
            if available_kb < needed_kb {
                Err(InsufficientSpace { needed_kb, available_kb })
            } else {
                Ok(())
            }
        },
        None => Ok(()),
    }
}

/// The explanation shown when the filesystem holding `path` is too full;
/// sizes are in whole megabytes, rounded down.
pub open spec fn insufficient_space_text(path: Seq<char>, needed_kb: u64, available_kb: u64) -> Seq<char> {
    "Not enough free space on the filesystem containing '"@ + path
        + "'.\nNeed at least "@ + decimal_text((needed_kb / 1024) as nat)
        + " MB but only "@ + decimal_text((available_kb / 1024) as nat)
        + " MB available.\n\nTo free space, delete old recordings on the device:\n  rm -rf /data/rayhunter/qmdl/*"@
}

impl InsufficientSpace {
    /// The explanation for the user, naming the path that was checked.
    pub fn message(&self, path: &str) -> (r: String)
        ensures
            r@ == insufficient_space_text(path@, self.needed_kb, self.available_kb),
    {
        let mut r = concat3("Not enough free space on the filesystem containing '", path, "'.\nNeed at least ");
        r.append(decimal_string(self.needed_kb / 1024).as_str());
        r.append(" MB but only ");
        r.append(decimal_string(self.available_kb / 1024).as_str());
        r.append(" MB available.\n\nTo free space, delete old recordings on the device:\n  rm -rf /data/rayhunter/qmdl/*");
        r
    }
}

/// The command that prints the `df -k` data line for the filesystem holding
/// `path` (`tail` keeps only the numbers line when BusyBox wraps long names).
pub fn df_command(path: &str) -> (r: String)
    ensures
        r@ == "df -k '"@ + path@ + "' 2>/dev/null | tail -n 1"@,
{
    concat3("df -k '", path, "' 2>/dev/null | tail -n 1")
}

/// The command that answers whether `path` is a regular file.
pub fn test_file_command(path: &str) -> (r: String)
    ensures
        r@ == "test -f '"@ + path@ + "' && echo exists || echo missing"@,
{
    concat3("test -f '", path, "' && echo exists || echo missing")
}

/// The command that answers whether `path` is a directory.
pub fn test_dir_command(path: &str) -> (r: String)
    ensures
        r@ == "test -d '"@ + path@ + "' && echo exists || echo missing"@,
{
    concat3("test -d '", path, "' && echo exists || echo missing")
}

/// The command that answers whether `path` is a symbolic link.
pub fn test_symlink_command(path: &str) -> (r: String)
    ensures
        r@ == "test -L '"@ + path@ + "' && echo yes || echo no"@,
{
    concat3("test -L '", path, "' && echo yes || echo no")
}

/// The command that prints the target of the link `path` behind an `RL:` marker.
pub fn readlink_command(path: &str) -> (r: String)
    ensures
        r@ == "echo RL:$(readlink '"@ + path@ + "')"@,
{
    concat3("echo RL:$(readlink '", path, "')")
}

/// The command that answers whether the shell finds a program called `name`
/// (`command -v` is a shell builtin, present where `which` is not).
pub fn has_binary_command(name: &str) -> (r: String)
    ensures
        r@ == "\"command -v "@ + name@ + " >/dev/null 2>&1 && echo FOUND || echo MISSING\""@,
{
    concat3("\"command -v ", name, " >/dev/null 2>&1 && echo FOUND || echo MISSING\"")
}

/// The command that makes `path` executable.
pub fn chmod_command(path: &str) -> (r: String)
    ensures
        r@ == "chmod +x "@ + path@,
{
    let mut r = String::from_str("chmod +x ");
    r.append(path);
    r
}

/// A probe's reply (none when the command failed) says yes when it holds
/// `marker`.
pub open spec fn reply_says(reply: Option<&str>, marker: Seq<char>) -> bool {
    match reply {
        Some(o) => contains_seq(o@, marker),
        None => false,
    }
}

/// Reads the reply to `test_file_command` or `test_dir_command`.
pub fn exists_reply(reply: Option<&str>) -> (b: bool)
    ensures
        b == reply_says(reply, "exists"@),
{
    match reply {
        Some(o) => contains_str(o, "exists"),
        None => false,
    }
}

/// Reads the reply to `test_symlink_command`.
pub fn symlink_reply(reply: Option<&str>) -> (b: bool)
    ensures
        b == reply_says(reply, "yes"@),
{
    match reply {
        Some(o) => contains_str(o, "yes"),
        None => false,
    }
}

/// Reads the reply to `has_binary_command`.
pub fn binary_found_reply(reply: Option<&str>) -> (b: bool)
    ensures
        b == reply_says(reply, "FOUND"@),
{
    match reply {
        Some(o) => contains_str(o, "FOUND"),
        None => false,
    }
}

/// The config file is written when a reset was asked for or when none exists.
pub fn should_write_config(reset_config: bool, exists_reply_text: Option<&str>) -> (b: bool)
    ensures
        b == (reset_config || !reply_says(exists_reply_text, "exists"@)),
{
    reset_config || !exists_reply(exists_reply_text)
}

/// The config text for a device: the template with its commented-out
/// `#device = "orbic"` line set to the device type.
pub open spec fn device_config_text(template: Seq<char>, device_type: Seq<char>) -> Seq<char> {
    replace_all(template, "#device = \"orbic\""@, "device = \""@ + device_type + "\""@)
}

/// Fills the device type into the config template.
pub fn config_for_device(template: &str, device_type: &str) -> (r: String)
    ensures
        r@ == device_config_text(template@, device_type@),
{
    let line = concat3("device = \"", device_type, "\"");
    proof {
        reveal_strlit("#device = \"orbic\"");
    }
    replace_text(template, "#device = \"orbic\"", line.as_str())
}

/// Where a bundled wifi tool called `name` is installed.
pub fn wifi_tool_destination(name: &str) -> (r: String)
    ensures
        r@ == "/data/rayhunter/bin/"@ + name@,
{
    let mut r = String::from_str("/data/rayhunter/bin/");
    r.append(name);
    r
}

} // verus!
