//! The display rules of the Orbic hotspot: framebuffer pixel encoding, and
//! keeping the screen awake through its sysfs controls.

use vstd::prelude::*;

use crate::text::{chars_of, trim, trim_bounds};

verus! {

/// The size of the framebuffer, in pixels.
#[derive(Clone, Copy, Debug, PartialEq, Eq, Structural)]
pub struct Dimensions {
    pub height: u32,
    pub width: u32,
}

/// The Orbic framebuffer is 128 by 128 pixels.
pub fn orbic_dimensions() -> (d: Dimensions)
    ensures
        d == (Dimensions { height: 128, width: 128 }),
{
    Dimensions { height: 128, width: 128 }
}

/// The RGB565 value of a colour: the top five bits of red, six of green and
/// five of blue, red most significant.
pub open spec fn rgb565(r: u8, g: u8, b: u8) -> int {
    (r / 8) * 2048 + (g / 4) * 32 + b / 8
}

/// The framebuffer bytes for `pixels`: each pixel's RGB565 value as two
/// bytes, little end first.
pub open spec fn framebuffer_bytes(pixels: Seq<(u8, u8, u8)>) -> Seq<u8> {
    Seq::new(
        2 * pixels.len(),
        |i: int|
            {
                let p = pixels[i / 2];
                let v = rgb565(p.0, p.1, p.2);
                if i % 2 == 0 {
                    (v % 256) as u8
                } else {
                    (v / 256) as u8
                }
            },
    )
}

/// Encodes pixels for the framebuffer device.
pub fn encode_framebuffer(buffer: &Vec<(u8, u8, u8)>) -> (raw: Vec<u8>)
    requires
        2 * buffer@.len() <= usize::MAX,
    ensures
        raw@ == framebuffer_bytes(buffer@),
{
    let mut raw: Vec<u8> = Vec::with_capacity(buffer.len() * 2);
    let mut i: usize = 0;
    while i < buffer.len()
        invariant
            i <= buffer@.len(),
            raw@.len() == 2 * i,
            forall|k: int| 0 <= k < 2 * i ==> raw@[k] == #[trigger] framebuffer_bytes(buffer@)[k],
        decreases buffer@.len() - i,
    {
        let (r, g, b) = buffer[i];
        let mut v: u16 = ((r as u16) & 0b11111000) << 8;
        v = v | (((g as u16) & 0b11111100) << 3);
        v = v | ((b as u16) >> 3);
        assert(v == rgb565(r, g, b)) by {
            assert((((r as u16) & 0b11111000) << 8) | (((g as u16) & 0b11111100) << 3) | ((b as u16)
                >> 3) == (r / 8) * 2048 + (g / 4) * 32 + b / 8) by (bit_vector);
        }
        let lo = (v & 0xff) as u8;
        let hi = (v >> 8) as u8;
        assert(lo == v % 256 && hi == v / 256) by (bit_vector)
            requires
                lo == (v & 0xff) as u8,
                hi == (v >> 8) as u8,
        ;
        raw.push(lo);
        raw.push(hi);
        proof {
            let f = framebuffer_bytes(buffer@);
            assert(f[2 * i] == lo);
            assert(f[2 * i + 1] == hi);
        }
        i = i + 1;
    }
    assert(raw@ =~= framebuffer_bytes(buffer@));
    raw
}

/// What a sysfs flag file holds: `0` or `1` once trimmed.
pub open spec fn sysfs_flag(contents: Seq<char>) -> Option<bool> {
    let t = trim(contents);
    if t == seq!['0'] {
        Some(false)
    } else if t == seq!['1'] {
        Some(true)
    } else {
        None
    }
}

/// Reads a sysfs flag file's contents (none when the file could not be read).
pub fn parse_sysfs_flag(contents: Option<&str>) -> (r: Option<bool>)
    ensures
        r == match contents {
            Some(c) => sysfs_flag(c@),
            None => None,
        },
{
    match contents {
        None => None,
        Some(c) => {
            let cs = chars_of(c);
            let (a, b) = trim_bounds(&cs, 0, cs.len());
            assert(cs@.subrange(0, cs@.len() as int) =~= cs@);
            let ghost t = cs@.subrange(a as int, b as int);
            if b - a == 1 && cs[a] == '0' {
                assert(t =~= seq!['0']);
                Some(false)
            } else if b - a == 1 && cs[a] == '1' {
                assert(t =~= seq!['1']);
                Some(true)
            } else {
                assert(t != seq!['0'] && t != seq!['1']) by {
                    if t.len() == 1 {
                        assert(t[0] == cs@[a as int]);
                    }
                }
                None
            }
        },
    }
}

/// A write to one of the display's sysfs controls.
#[derive(Clone, Copy, Debug, PartialEq, Eq, Structural)]
pub enum SysfsWrite {
    /// Turn automatic suspend off.
    AutosleepOff,
    /// Turn the backlight on.
    BacklightOn,
    /// Take the panel out of sleep mode.
    DisplayOn,
    /// Turn automatic suspend back on (suspend to memory).
    AutosleepMem,
}

/// The file a write goes to: the global autosleep control, or the panel's
/// backlight and sleep-mode controls.
pub open spec fn sysfs_path(w: SysfsWrite) -> Seq<char> {
    match w {
        SysfsWrite::AutosleepOff | SysfsWrite::AutosleepMem => "/sys/power/autosleep"@,
        SysfsWrite::BacklightOn => "/sys/devices/78b6000.spi/spi_master/spi1/spi1.0/bl_gpio"@,
        SysfsWrite::DisplayOn => "/sys/devices/78b6000.spi/spi_master/spi1/spi1.0/sleep_mode"@,
    }
}

/// The text a write puts there.
pub open spec fn sysfs_value(w: SysfsWrite) -> Seq<char> {
    match w {
        SysfsWrite::AutosleepOff => "off"@,
        SysfsWrite::AutosleepMem => "mem"@,
        SysfsWrite::BacklightOn | SysfsWrite::DisplayOn => "1"@,
    }
}

impl SysfsWrite {
    /// The sysfs file written.
    pub fn path(&self) -> (p: &'static str)
        ensures
            p@ == sysfs_path(*self),
    {
        match self {
            SysfsWrite::AutosleepOff | SysfsWrite::AutosleepMem => "/sys/power/autosleep",
            SysfsWrite::BacklightOn => "/sys/devices/78b6000.spi/spi_master/spi1/spi1.0/bl_gpio",
            SysfsWrite::DisplayOn => "/sys/devices/78b6000.spi/spi_master/spi1/spi1.0/sleep_mode",
        }
    }

    /// The text written.
    pub fn value(&self) -> (v: &'static str)
        ensures
            v@ == sysfs_value(*self),
    {
        match self {
            SysfsWrite::AutosleepOff => "off",
            SysfsWrite::AutosleepMem => "mem",
            SysfsWrite::BacklightOn | SysfsWrite::DisplayOn => "1",
        }
    }
}

/// The display has blanked: sleep mode or the backlight reads `0`.
pub open spec fn display_blanked(sleep_mode: Option<bool>, bl_gpio: Option<bool>) -> bool {
    sleep_mode == Some(false) || bl_gpio == Some(false)
}

/// The autosleep control, trimmed, reads exactly `word`.
pub open spec fn autosleep_reads(autosleep: Option<&str>, word: Seq<char>) -> bool {
    match autosleep {
        Some(a) => trim(a@) == word,
        None => false,
    }
}

/// The writes of one keep-awake round: automatic suspend is turned off when
/// it is set to `mem`; a blanked display is woken, backlight first, then the
/// panel.
pub open spec fn keep_awake_writes(
    sleep_mode: Option<bool>,
    bl_gpio: Option<bool>,
    autosleep: Option<&str>,
) -> Seq<SysfsWrite> {
    let off = if autosleep_reads(autosleep, "mem"@) {
        seq![SysfsWrite::AutosleepOff]
    } else {
        Seq::<SysfsWrite>::empty()
    };
    let wake = if display_blanked(sleep_mode, bl_gpio) {
        seq![SysfsWrite::BacklightOn, SysfsWrite::DisplayOn]
    } else {
        Seq::<SysfsWrite>::empty()
    };
    off + wake
}

/// The contents, trimmed, are exactly `word` (given as its characters).
fn trimmed_is(contents: &str, word: &str) -> (b: bool)
    ensures
        b == (trim(contents@) == word@),
{
    let cs = chars_of(contents);
    let ws = chars_of(word);
    let (a, b) = trim_bounds(&cs, 0, cs.len());
    assert(cs@.subrange(0, cs@.len() as int) =~= cs@);
    let ghost t = cs@.subrange(a as int, b as int);
    if b - a != ws.len() {
        return false;
    }
    let mut k: usize = 0;
    while k < ws.len()
        invariant
            ws@ == word@,
            a <= b <= cs@.len(),
            b - a == ws@.len(),
            t == cs@.subrange(a as int, b as int),
            trim(contents@) == t,
            k <= ws@.len(),
            forall|j: int| 0 <= j < k ==> t[j] == ws@[j],
        decreases ws@.len() - k,
    {
        if cs[a + k] != ws[k] {
            assert(t[k as int] == cs@[a + k]);
            return false;
        }
        k = k + 1;
    }
    assert(t =~= ws@);
    true
}

/// Decides one keep-awake round from the readings of the panel's sleep mode,
/// its backlight, and the autosleep control (none when it is absent or
/// unreadable).
pub fn keep_awake_round(
    sleep_mode: Option<bool>,
    bl_gpio: Option<bool>,
    autosleep: Option<&str>,
) -> (w: Vec<SysfsWrite>)
    ensures
        w@ == keep_awake_writes(sleep_mode, bl_gpio, autosleep),
{
    let mut w: Vec<SysfsWrite> = Vec::new();
    let needs_autosleep_off = match autosleep {
        Some(a) => trimmed_is(a, "mem"),
        None => false,
    };
    if needs_autosleep_off {
        w.push(SysfsWrite::AutosleepOff);
    }
    let needs_wake = sleep_mode == Some(false) || bl_gpio == Some(false);
    if needs_wake {
        w.push(SysfsWrite::BacklightOn);
        w.push(SysfsWrite::DisplayOn);
    }
    assert(w@ =~= keep_awake_writes(sleep_mode, bl_gpio, autosleep));
    w
}

/// On shutdown, automatic suspend is turned back on when it reads `off`.
pub fn restore_on_shutdown(autosleep: Option<&str>) -> (w: Option<SysfsWrite>)
    ensures
        w == (if autosleep_reads(autosleep, "off"@) {
            Some(SysfsWrite::AutosleepMem)
        } else {
            None
        }),
{
    match autosleep {
        Some(a) => if trimmed_is(a, "off") {
            Some(SysfsWrite::AutosleepMem)
        } else {
            None
        },
        None => None,
    }
}

/// ASCII whitespace as `u8::is_ascii_whitespace` has it: space, tab, line
/// feed, form feed and carriage return.
pub open spec fn is_ascii_ws(b: u8) -> bool {
    b == 0x20 || b == 0x09 || b == 0x0a || b == 0x0c || b == 0x0d
}

/// `s` without leading and trailing ASCII whitespace (`<[u8]>::trim_ascii`):
/// the piece from the first to the last byte that is not whitespace.
pub open spec fn trim_ascii(s: Seq<u8>) -> Seq<u8> {
    if forall|k: int| 0 <= k < s.len() ==> is_ascii_ws(#[trigger] s[k]) {
        Seq::<u8>::empty()
    } else {
        let a = choose|a: int|
            0 <= a < s.len() && !is_ascii_ws(s[a]) && (forall|k: int|
                0 <= k < a ==> is_ascii_ws(#[trigger] s[k]));
        let b = choose|b: int|
            0 <= b < s.len() && !is_ascii_ws(s[b]) && (forall|k: int|
                b < k < s.len() ==> is_ascii_ws(#[trigger] s[k]));
        s.subrange(a, b + 1)
    }
}

/// A backlight power value other than `0` (unblank) means the screen is
/// blanked and needs `0` written back.
pub fn backlight_needs_unblank(value: &[u8]) -> (b: bool)
    ensures
        b == (trim_ascii(value@) != seq![0x30u8]),
{
    let n = value.len();
    let mut a: usize = 0;
    while a < n && (value[a] == 0x20 || value[a] == 0x09 || value[a] == 0x0a || value[a] == 0x0c
        || value[a] == 0x0d)
        invariant
            n == value@.len(),
            a <= n,
            forall|k: int| 0 <= k < a ==> is_ascii_ws(#[trigger] value@[k]),
        decreases n - a,
    {
        a = a + 1;
    }
    if a == n {
        assert(trim_ascii(value@) =~= Seq::<u8>::empty());
        return true;
    }
    let mut b: usize = n;
    while b > a + 1 && (value[b - 1] == 0x20 || value[b - 1] == 0x09 || value[b - 1] == 0x0a
        || value[b - 1] == 0x0c || value[b - 1] == 0x0d)
        invariant
            n == value@.len(),
            a < b <= n,
            !is_ascii_ws(value@[a as int]),
            forall|k: int| b <= k < n ==> is_ascii_ws(#[trigger] value@[k]),
        decreases b - a,
    {
        b = b - 1;
    }
    proof {
        let s = value@;
        assert(!is_ascii_ws(s[b - 1]));
        let ca = choose|x: int|
            0 <= x < s.len() && !is_ascii_ws(s[x]) && (forall|k: int|
                0 <= k < x ==> is_ascii_ws(#[trigger] s[k]));
        assert(0 <= a < s.len() && !is_ascii_ws(s[a as int]) && (forall|k: int|
            0 <= k < a ==> is_ascii_ws(#[trigger] s[k])));
        assert(ca == a) by {
            if ca < a {
                assert(is_ascii_ws(s[ca]));
            }
            if ca > a {
                assert(is_ascii_ws(s[a as int]));
            }
        }
        let cb = choose|x: int|
            0 <= x < s.len() && !is_ascii_ws(s[x]) && (forall|k: int|
                x < k < s.len() ==> is_ascii_ws(#[trigger] s[k]));
        assert(0 <= b - 1 < s.len() && !is_ascii_ws(s[b - 1]) && (forall|k: int|
            b - 1 < k < s.len() ==> is_ascii_ws(#[trigger] s[k])));
        assert(cb == b - 1) by {
            if cb < b - 1 {
                assert(is_ascii_ws(s[b - 1]));
            }
            if cb > b - 1 {
                assert(is_ascii_ws(s[cb]));
            }
        }
        assert(trim_ascii(s) == s.subrange(a as int, b as int));
    }
    if b - a == 1 && value[a] == 0x30 {
        assert(value@.subrange(a as int, b as int) =~= seq![0x30u8]);
        false
    } else {
        assert(value@.subrange(a as int, b as int) != seq![0x30u8]) by {
            if b - a == 1 {
                assert(value@.subrange(a as int, b as int)[0] == value@[a as int]);
            }
        }
        true
    }
}

/// The RGB565 value fits 16 bits and keeps exactly the top five bits of
/// red, six of green and five of blue: they can be read back from it.
pub proof fn law_rgb565_keeps_top_bits(r: u8, g: u8, b: u8)
    ensures
        0 <= rgb565(r, g, b) < 0x10000,
        rgb565(r, g, b) / 2048 == r / 8,
        (rgb565(r, g, b) / 32) % 64 == g / 4,
        rgb565(r, g, b) % 32 == b / 8,
{
    let v = rgb565(r, g, b);
    assert(v / 2048 == r / 8 && (v / 32) % 64 == g / 4 && v % 32 == b / 8) by (nonlinear_arith)
        requires
            v == (r / 8) * 2048 + (g / 4) * 32 + b / 8,
            0 <= r < 256,
            0 <= g < 256,
            0 <= b < 256,
    ;
}

/// A keep-awake round, over the readings themselves: when sleep mode reads
/// `0`, or when the backlight reads `0`, it ends by turning the backlight on
/// and then taking the panel out of sleep mode; when neither reads `0` it
/// touches neither control. Automatic suspend is turned off exactly when its
/// control reads `mem`, and before anything else; it is never turned back on.
pub proof fn law_keep_awake_round(sleep_mode: Option<bool>, bl_gpio: Option<bool>, autosleep: Option<&str>)
    ensures
        ({
            let w = keep_awake_writes(sleep_mode, bl_gpio, autosleep);
            &&& (sleep_mode == Some(false) || bl_gpio == Some(false)) ==> {
                &&& w.len() >= 2
                &&& w[w.len() - 2] == SysfsWrite::BacklightOn
                &&& w[w.len() - 1] == SysfsWrite::DisplayOn
            }
            &&& sleep_mode == Some(false) ==> w.contains(SysfsWrite::DisplayOn)
            &&& bl_gpio == Some(false) ==> w.contains(SysfsWrite::BacklightOn)
            &&& (sleep_mode != Some(false) && bl_gpio != Some(false)) ==> !w.contains(
                SysfsWrite::BacklightOn,
            ) && !w.contains(SysfsWrite::DisplayOn)
            &&& (autosleep matches Some(a) && trim(a@) == "mem"@) ==> w[0]
                == SysfsWrite::AutosleepOff
            &&& !(autosleep matches Some(a) && trim(a@) == "mem"@) ==> !w.contains(
                SysfsWrite::AutosleepOff,
            )
            &&& !w.contains(SysfsWrite::AutosleepMem)
            &&& w.len() <= 3
        }),
{
    let w = keep_awake_writes(sleep_mode, bl_gpio, autosleep);
    if sleep_mode == Some(false) || bl_gpio == Some(false) {
        assert(w[w.len() - 1] == SysfsWrite::DisplayOn);
        assert(w[w.len() - 2] == SysfsWrite::BacklightOn);
    }
    assert forall|k: int| 0 <= k < w.len() implies w[k] != SysfsWrite::AutosleepMem by {}
    if sleep_mode != Some(false) && bl_gpio != Some(false) {
        assert forall|k: int| 0 <= k < w.len() implies w[k] != SysfsWrite::BacklightOn && w[k]
            != SysfsWrite::DisplayOn by {}
    }
    if !(autosleep matches Some(a) && trim(a@) == "mem"@) {
        assert forall|k: int| 0 <= k < w.len() implies w[k] != SysfsWrite::AutosleepOff by {}
    }
}

/// Shutdown turns automatic suspend back on exactly when its control reads
/// `off`.
pub proof fn law_restore_on_shutdown(autosleep: Option<&str>)
    ensures
        (autosleep matches Some(a) && trim(a@) == "off"@) <==> autosleep_reads(autosleep, "off"@),
{
}

/// The writes go to the controls their names say: autosleep to
/// `/sys/power/autosleep` (`off` / `mem`), the backlight to `bl_gpio` and the
/// panel to `sleep_mode`, both with `1`.
pub proof fn law_sysfs_targets()
    ensures
        sysfs_path(SysfsWrite::AutosleepOff) == "/sys/power/autosleep"@,
        sysfs_path(SysfsWrite::AutosleepMem) == "/sys/power/autosleep"@,
        sysfs_path(SysfsWrite::BacklightOn) == "/sys/devices/78b6000.spi/spi_master/spi1/spi1.0/bl_gpio"@,
        sysfs_path(SysfsWrite::DisplayOn) == "/sys/devices/78b6000.spi/spi_master/spi1/spi1.0/sleep_mode"@,
        sysfs_value(SysfsWrite::AutosleepOff) == "off"@,
        sysfs_value(SysfsWrite::AutosleepMem) == "mem"@,
        sysfs_value(SysfsWrite::BacklightOn) == "1"@,
        sysfs_value(SysfsWrite::DisplayOn) == "1"@,
{
}

/// A sysfs flag reads false exactly when its trimmed contents are `0`, and
/// true exactly when they are `1`.
pub proof fn law_sysfs_flag(contents: Seq<char>)
    ensures
        (sysfs_flag(contents) == Some(false)) <==> trim(contents) == seq!['0'],
        (sysfs_flag(contents) == Some(true)) <==> trim(contents) == seq!['1'],
        sysfs_flag(contents) is None <==> (trim(contents) != seq!['0'] && trim(contents) != seq!['1']),
{
    assert(seq!['0'][0] != seq!['1'][0]);
}

/// Each pixel becomes two bytes, little end first, of the 16-bit value with
/// red's top five bits highest, then green's top six, then blue's top five.
pub proof fn law_framebuffer_layout(pixels: Seq<(u8, u8, u8)>, i: int)
    requires
        0 <= i < pixels.len(),
    ensures
        framebuffer_bytes(pixels).len() == 2 * pixels.len(),
        framebuffer_bytes(pixels)[2 * i] as int + 256 * framebuffer_bytes(pixels)[2 * i + 1] as int
            == (pixels[i].0 / 8) * 2048 + (pixels[i].1 / 4) * 32 + pixels[i].2 / 8,
{
    let p = pixels[i];
    let v = (p.0 / 8) * 2048 + (p.1 / 4) * 32 + p.2 / 8;
    assert((2 * i) / 2 == i && (2 * i) % 2 == 0 && (2 * i + 1) / 2 == i && (2 * i + 1) % 2 == 1);
    assert(0 <= v < 65536);
    assert((v % 256) as u8 as int + 256 * ((v / 256) as u8 as int) == v);
}

/// ASCII whitespace is exactly bytes 9, 10, 12, 13 and 32; trimming leaves
/// bytes that start and end with something else untouched, and empties bytes
/// that are all whitespace.
pub proof fn law_trim_ascii(b: u8, s: Seq<u8>)
    ensures
        is_ascii_ws(b) <==> (b == 9 || b == 10 || b == 12 || b == 13 || b == 32),
        (s.len() > 0 && !is_ascii_ws(s[0]) && !is_ascii_ws(s.last())) ==> trim_ascii(s) == s,
        (forall|k: int| 0 <= k < s.len() ==> is_ascii_ws(#[trigger] s[k])) ==> trim_ascii(s)
            == Seq::<u8>::empty(),
{
    if s.len() > 0 && !is_ascii_ws(s[0]) && !is_ascii_ws(s.last()) {
        assert(!is_ascii_ws(s[0]));
        let a = choose|a: int|
            0 <= a < s.len() && !is_ascii_ws(s[a]) && (forall|k: int|
                0 <= k < a ==> is_ascii_ws(#[trigger] s[k]));
        assert(a == 0) by {
            if a > 0 {
                assert(is_ascii_ws(s[0]));
            }
        }
        let e = choose|e: int|
            0 <= e < s.len() && !is_ascii_ws(s[e]) && (forall|k: int|
                e < k < s.len() ==> is_ascii_ws(#[trigger] s[k]));
        assert(0 <= s.len() - 1 < s.len() && !is_ascii_ws(s[s.len() - 1]) && (forall|k: int|
            s.len() - 1 < k < s.len() ==> is_ascii_ws(#[trigger] s[k])));
        assert(e == s.len() - 1) by {
            if e < s.len() - 1 {
                assert(is_ascii_ws(s[s.len() - 1]));
            }
        }
        assert(s.subrange(0, s.len() as int) =~= s);
    }
}

} // verus!
