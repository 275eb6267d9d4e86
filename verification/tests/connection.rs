use rayhunter::connection::{
    binary_found_reply, chmod_command, check_free_space_output, config_for_device, df_command,
    exists_reply, has_binary_command, parse_df_available_kb, parse_readlink_output,
    readlink_command, should_write_config, symlink_reply, test_dir_command, test_file_command,
    test_symlink_command, wifi_tool_destination, InsufficientSpace,
};

#[test]
fn parse_df_posix_output() {
    let output = "/dev/block/xxx  512000  400000  112000  78% /data";
    assert_eq!(parse_df_available_kb(output), Some(112000));
}

#[test]
fn parse_df_busybox_wrapped_filesystem_name() {
    // BusyBox df wraps long names; tail -n 1 gives us only the numbers line.
    let _output = "112000";
    // With just one token this won't parse (need 4 fields), but tail -n1 gives the data row.
    let output2 = "/dev/ubi0_0      204800   98304   106496  48% /data";
    assert_eq!(parse_df_available_kb(output2), Some(106496));
}

#[test]
fn parse_df_returns_none_for_garbage() {
    assert_eq!(parse_df_available_kb("no numbers here"), None);
    assert_eq!(parse_df_available_kb(""), None);
}

#[test]
fn parse_df_takes_first_parsable_line() {
    let output = "Filesystem 1K-blocks Used Available Use% Mounted\r\n/dev/a 10 5 77 50% /\n/dev/b 1 1 88 1% /x\n";
    assert_eq!(parse_df_available_kb(output), Some(77));
}

#[test]
fn parse_df_wrapped_name_on_two_lines() {
    let output = "/dev/a/very/long/filesystem/name\n   204800   98304   106496  48% /data";
    // The name line has one field; the numbers line's fourth field is the use percentage.
    assert_eq!(parse_df_available_kb(output), None);
    let output = "/dev/a/very/long/filesystem/name\n x 204800 98304 106496 48% /data";
    assert_eq!(parse_df_available_kb(output), Some(106496));
}

#[test]
fn parse_df_number_forms() {
    assert_eq!(parse_df_available_kb("a b c +15"), Some(15));
    assert_eq!(parse_df_available_kb("a b c -15"), None);
    assert_eq!(parse_df_available_kb("a b c +"), None);
    assert_eq!(parse_df_available_kb("a\tb\u{a0}c  18446744073709551615"), Some(u64::MAX));
    assert_eq!(parse_df_available_kb("a b c 18446744073709551616"), None);
    assert_eq!(parse_df_available_kb("a b c 12x"), None);
}

#[test]
fn free_space_verdicts() {
    let out = "/dev/x 512000 400000 112000 78% /data";
    assert_eq!(check_free_space_output(out, 112000), Ok(()));
    assert_eq!(
        check_free_space_output(out, 112001),
        Err(InsufficientSpace { needed_kb: 112001, available_kb: 112000 })
    );
    // Unreadable output lets the step go ahead.
    assert_eq!(check_free_space_output("df: unknown option", u64::MAX), Ok(()));
}

#[test]
fn insufficient_space_message() {
    let e = InsufficientSpace { needed_kb: 204800, available_kb: 1023 };
    assert_eq!(
        e.message("/data"),
        "Not enough free space on the filesystem containing '/data'.\n\
         Need at least 200 MB but only 0 MB available.\n\
         \n\
         To free space, delete old recordings on the device:\n  \
           rm -rf /data/rayhunter/qmdl/*"
    );
}

#[test]
fn readlink_output_with_echoed_command() {
    let out = "echo RL:$(readlink '/data/rayhunter')\r\n  RL:/media/card/rayhunter \r\n# ";
    assert_eq!(parse_readlink_output(out), Some("/media/card/rayhunter".to_string()));
    assert_eq!(parse_readlink_output("RL:"), Some(String::new()));
    assert_eq!(parse_readlink_output("nothing here\n"), None);
    assert_eq!(parse_readlink_output("xRL:/a"), None);
}

#[test]
fn command_texts() {
    assert_eq!(df_command("/data"), "df -k '/data' 2>/dev/null | tail -n 1");
    assert_eq!(test_file_command("/a b"), "test -f '/a b' && echo exists || echo missing");
    assert_eq!(test_dir_command("/d"), "test -d '/d' && echo exists || echo missing");
    assert_eq!(test_symlink_command("/l"), "test -L '/l' && echo yes || echo no");
    assert_eq!(readlink_command("/l"), "echo RL:$(readlink '/l')");
    assert_eq!(
        has_binary_command("iw"),
        "\"command -v iw >/dev/null 2>&1 && echo FOUND || echo MISSING\""
    );
    assert_eq!(chmod_command("/data/rayhunter/bin/iw"), "chmod +x /data/rayhunter/bin/iw");
    assert_eq!(wifi_tool_destination("wpa_cli"), "/data/rayhunter/bin/wpa_cli");
}

#[test]
fn probe_replies() {
    assert!(exists_reply(Some("exists\r\n")));
    assert!(!exists_reply(Some("missing\r\n")));
    assert!(!exists_reply(None));
    assert!(symlink_reply(Some("yes")));
    assert!(!symlink_reply(Some("no")));
    assert!(binary_found_reply(Some("FOUND")));
    assert!(!binary_found_reply(Some("MISSING")));
    assert!(!binary_found_reply(None));
}

#[test]
fn config_written_when_reset_or_missing() {
    assert!(should_write_config(true, Some("exists")));
    assert!(should_write_config(false, Some("missing")));
    assert!(should_write_config(false, None));
    assert!(!should_write_config(false, Some("exists")));
}

#[test]
fn config_device_line_filled_in() {
    let template = "[general]\n#device = \"orbic\"\nport = 8080\n#device = \"orbic\"";
    assert_eq!(
        config_for_device(template, "tplink"),
        "[general]\ndevice = \"tplink\"\nport = 8080\ndevice = \"tplink\""
    );
    assert_eq!(config_for_device("no device here", "x"), "no device here");
}
