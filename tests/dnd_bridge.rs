use pulse_shell::dnd::{
    dnd_query_command, dnd_set_command, dnd_set_outcome, dnd_status_from_output, output_reports_active, Platform,
};

#[test]
fn mac_query_and_set_commands() {
    let q = dnd_query_command(Platform::MacOs).unwrap();
    assert_eq!(q.program, "defaults");
    assert_eq!(q.args, vec!["-currentHost", "read", "com.apple.notificationcenterui", "doNotDisturb"]);
    let on = dnd_set_command(Platform::MacOs, true).unwrap();
    assert_eq!(on.program, "defaults");
    assert_eq!(on.args, vec!["-currentHost", "write", "com.apple.notificationcenterui", "doNotDisturb", "1"]);
    let off = dnd_set_command(Platform::MacOs, false).unwrap();
    assert_eq!(off.args[4], "0");
}

#[test]
fn windows_query_and_set_commands() {
    let key = "HKCU\\SOFTWARE\\Microsoft\\Windows\\CurrentVersion\\Notifications\\Settings";
    let q = dnd_query_command(Platform::Windows).unwrap();
    assert_eq!(q.program, "reg");
    assert_eq!(q.args, vec!["query", key, "/v", "NOC_GLOBAL_SETTING_TOASTS_ENABLED"]);
    let on = dnd_set_command(Platform::Windows, true).unwrap();
    assert_eq!(
        on.args,
        vec!["add", key, "/v", "NOC_GLOBAL_SETTING_TOASTS_ENABLED", "/t", "REG_DWORD", "/d", "0", "/f"]
    );
    let off = dnd_set_command(Platform::Windows, false).unwrap();
    assert_eq!(off.args[7], "1");
}

#[test]
fn linux_query_and_set_commands() {
    let q = dnd_query_command(Platform::Linux).unwrap();
    assert_eq!(q.program, "gdbus");
    assert_eq!(q.args.last(), Some(&"org.gnome.SessionManager.Presence.GetStatus"));
    let on = dnd_set_command(Platform::Linux, true).unwrap();
    assert_eq!(on.args.len(), 9);
    assert_eq!(on.args[7], "org.gnome.SessionManager.Presence.SetStatus");
    assert_eq!(on.args[8], "2");
    let off = dnd_set_command(Platform::Linux, false).unwrap();
    assert_eq!(off.args[8], "0");
}

#[test]
fn unsupported_platform_never_reports_or_sets() {
    assert!(dnd_query_command(Platform::Unsupported).is_none());
    assert!(dnd_set_command(Platform::Unsupported, true).is_none());
    assert!(dnd_set_command(Platform::Unsupported, false).is_none());
    assert!(!dnd_status_from_output(Platform::Unsupported, Some("1")));
    assert!(!dnd_status_from_output(Platform::Unsupported, Some("0x0 2")));
    assert!(!dnd_status_from_output(Platform::Unsupported, None));
    assert!(!dnd_set_outcome(Platform::Unsupported, Some(true)));
    assert!(!dnd_set_outcome(Platform::Unsupported, Some(false)));
    assert!(!dnd_set_outcome(Platform::Unsupported, None));
}

#[test]
fn mac_output_is_trimmed_then_compared() {
    assert!(output_reports_active(Platform::MacOs, "1"));
    assert!(output_reports_active(Platform::MacOs, "1\n"));
    assert!(output_reports_active(Platform::MacOs, " \t1\r\n"));
    assert!(output_reports_active(Platform::MacOs, "\u{3000}1\u{a0}"));
    assert!(!output_reports_active(Platform::MacOs, "0\n"));
    assert!(!output_reports_active(Platform::MacOs, ""));
    assert!(!output_reports_active(Platform::MacOs, "   "));
    assert!(!output_reports_active(Platform::MacOs, "11"));
    assert!(!output_reports_active(Platform::MacOs, "1 1"));
    assert!(!output_reports_active(Platform::MacOs, "doNotDisturb = 1"));
}

#[test]
fn windows_output_holds_zero_hex_anywhere() {
    let on = "\r\nHKEY_CURRENT_USER\\SOFTWARE\\Microsoft\\Windows\\CurrentVersion\\Notifications\\Settings\r\n    NOC_GLOBAL_SETTING_TOASTS_ENABLED    REG_DWORD    0x0\r\n\r\n";
    let off = "\r\nHKEY_CURRENT_USER\\SOFTWARE\\Microsoft\\Windows\\CurrentVersion\\Notifications\\Settings\r\n    NOC_GLOBAL_SETTING_TOASTS_ENABLED    REG_DWORD    0x1\r\n\r\n";
    assert!(output_reports_active(Platform::Windows, on));
    assert!(!output_reports_active(Platform::Windows, off));
    assert!(!output_reports_active(Platform::Windows, ""));
    assert!(!output_reports_active(Platform::Windows, "0x"));
    assert!(output_reports_active(Platform::Windows, "0x0x1"));
}

#[test]
fn linux_output_holds_digit_two_anywhere() {
    assert!(output_reports_active(Platform::Linux, "2"));
    assert!(output_reports_active(Platform::Linux, "(2,)\n"));
    assert!(!output_reports_active(Platform::Linux, "(0,)\n"));
    assert!(!output_reports_active(Platform::Linux, ""));
    // The loose reading also takes the type tag of a typed reply for the code.
    assert!(output_reports_active(Platform::Linux, "(uint32 0,)\n"));
}

#[test]
fn failed_query_reads_inactive() {
    for p in [Platform::MacOs, Platform::Windows, Platform::Linux] {
        assert!(!dnd_status_from_output(p, None));
        assert!(!dnd_status_from_output(p, Some("")));
    }
    assert!(dnd_status_from_output(Platform::MacOs, Some("1\n")));
}

#[test]
fn set_outcome_follows_exit_status() {
    for p in [Platform::MacOs, Platform::Windows, Platform::Linux] {
        assert!(dnd_set_outcome(p, Some(true)));
        assert!(!dnd_set_outcome(p, Some(false)));
        assert!(!dnd_set_outcome(p, None));
    }
}

#[test]
fn set_then_query_reads_back_the_state() {
    // The value each set command stores, as the query tool shows it back.
    for enabled in [true, false] {
        let mac = dnd_set_command(Platform::MacOs, enabled).unwrap();
        let shown = format!("{}\n", mac.args[4]);
        assert_eq!(dnd_status_from_output(Platform::MacOs, Some(&shown)), enabled);

        let win = dnd_set_command(Platform::Windows, enabled).unwrap();
        let shown = format!("    NOC_GLOBAL_SETTING_TOASTS_ENABLED    REG_DWORD    0x{}\r\n", win.args[7]);
        assert_eq!(dnd_status_from_output(Platform::Windows, Some(&shown)), enabled);

        let linux = dnd_set_command(Platform::Linux, enabled).unwrap();
        let shown = format!("({},)\n", linux.args[8]);
        assert_eq!(dnd_status_from_output(Platform::Linux, Some(&shown)), enabled);
    }
}
