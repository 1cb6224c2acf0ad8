use find_nas::runner::{
    after_link, after_report, link_line, select_mode, status_line, Action, Mode,
    REPORT_INTERVAL_SECS,
};

#[test]
fn mode_priority() {
    assert_eq!(select_mode(true, true), Mode::Link);
    assert_eq!(select_mode(true, false), Mode::Link);
    assert_eq!(select_mode(false, true), Mode::Once);
    assert_eq!(select_mode(false, false), Mode::Continuous);
}

#[test]
fn once_mode_exits_with_result() {
    assert_eq!(after_report(Mode::Once, true), Action::Exit { success: true });
    assert_eq!(after_report(Mode::Once, false), Action::Exit { success: false });
}

#[test]
fn continuous_mode_three_cycles() {
    let mut lines = Vec::new();
    for (i, ok) in [true, false, true].into_iter().enumerate() {
        let ts = format!("2024-01-01 00:0{}:00", 2 * i);
        lines.push(status_line(ok, &ts));
        assert_eq!(after_report(Mode::Continuous, ok), Action::Sleep { seconds: 120 });
    }
    assert_eq!(REPORT_INTERVAL_SECS, 120);
    assert_eq!(lines, vec![
        "[*] Successfully reported IP. - 2024-01-01 00:00:00".to_string(),
        "[!] Failed to report IP. - 2024-01-01 00:02:00".to_string(),
        "[*] Successfully reported IP. - 2024-01-01 00:04:00".to_string(),
    ]);
}

#[test]
fn link_mode_found() {
    let link = Some("https://find-nas.lirui.tech/s/abc".to_string());
    assert_eq!(link_line(&link), "Link for this machine: https://find-nas.lirui.tech/s/abc");
    assert_eq!(after_link(true), Action::Exit { success: true });
}

#[test]
fn link_mode_missing() {
    assert_eq!(link_line(&None), "Failed to get link, please ensure this machine has reported IP.");
    assert_eq!(after_link(false), Action::Exit { success: false });
}
