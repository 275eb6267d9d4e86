use rayhunter::display::{
    backlight_needs_unblank, encode_framebuffer, keep_awake_round, orbic_dimensions,
    parse_sysfs_flag, restore_on_shutdown, Dimensions, SysfsWrite,
};

#[test]
fn framebuffer_rgb565_little_endian() {
    let raw = encode_framebuffer(&vec![(0xFF, 0xFF, 0xFF), (0xF8, 0, 0), (0, 0xFC, 0), (0, 0, 0xF8), (7, 3, 7)]);
    assert_eq!(raw, vec![0xFF, 0xFF, 0x00, 0xF8, 0xE0, 0x07, 0x1F, 0x00, 0x00, 0x00]);
    assert!(encode_framebuffer(&vec![]).is_empty());
}

#[test]
fn orbic_framebuffer_size() {
    assert_eq!(orbic_dimensions(), Dimensions { height: 128, width: 128 });
}

#[test]
fn sysfs_flags() {
    assert_eq!(parse_sysfs_flag(Some("0\n")), Some(false));
    assert_eq!(parse_sysfs_flag(Some(" 1 ")), Some(true));
    assert_eq!(parse_sysfs_flag(Some("2")), None);
    assert_eq!(parse_sysfs_flag(Some("01")), None);
    assert_eq!(parse_sysfs_flag(None), None);
}

#[test]
fn keep_awake_wakes_backlight_first() {
    assert_eq!(
        keep_awake_round(Some(true), Some(false), Some("mem\n")),
        vec![SysfsWrite::AutosleepOff, SysfsWrite::BacklightOn, SysfsWrite::DisplayOn]
    );
    assert_eq!(
        keep_awake_round(Some(false), None, Some("off")),
        vec![SysfsWrite::BacklightOn, SysfsWrite::DisplayOn]
    );
    assert!(keep_awake_round(Some(true), Some(true), Some("off")).is_empty());
    assert!(keep_awake_round(None, None, None).is_empty());
}

#[test]
fn sysfs_write_targets() {
    assert_eq!(SysfsWrite::AutosleepOff.path(), "/sys/power/autosleep");
    assert_eq!(SysfsWrite::AutosleepOff.value(), "off");
    assert_eq!(SysfsWrite::AutosleepMem.value(), "mem");
    assert_eq!(
        SysfsWrite::BacklightOn.path(),
        "/sys/devices/78b6000.spi/spi_master/spi1/spi1.0/bl_gpio"
    );
    assert_eq!(
        SysfsWrite::DisplayOn.path(),
        "/sys/devices/78b6000.spi/spi_master/spi1/spi1.0/sleep_mode"
    );
    assert_eq!(SysfsWrite::DisplayOn.value(), "1");
}

#[test]
fn shutdown_restores_autosleep() {
    assert_eq!(restore_on_shutdown(Some("off\n")), Some(SysfsWrite::AutosleepMem));
    assert_eq!(restore_on_shutdown(Some("mem")), None);
    assert_eq!(restore_on_shutdown(None), None);
}

#[test]
fn backlight_unblank_only_when_blanked() {
    assert!(!backlight_needs_unblank(b"0\n"));
    assert!(!backlight_needs_unblank(b" \t0\r\n"));
    assert!(backlight_needs_unblank(b"4\n"));
    assert!(backlight_needs_unblank(b""));
    assert!(backlight_needs_unblank(b"00"));
    // A vertical tab is not ASCII whitespace for trim_ascii.
    assert!(backlight_needs_unblank(b"0\x0b"));
}
