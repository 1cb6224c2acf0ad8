use find_nas::addresses::collect_addresses;
use find_nas::identity::{resolve_identity, IdentitySource};
use find_nas::link::{link_request, link_result, resolve_link};
use find_nas::report::{prepare_report, report_result, ReportError};
use find_nas::runner::{after_link, after_report, link_line, select_mode, Action, Mode};

#[test]
fn report_machine_42_end_to_end() {
    let identity = resolve_identity(
        IdentitySource::Contents("machine-42\n".to_string()),
        IdentitySource::Missing,
    );
    let ips = collect_addresses(vec![vec!["10.0.0.5".to_string()], vec!["fe80::1".to_string()]]);
    let body = prepare_report(&identity, &ips).unwrap();
    assert_eq!(body, r#"{"hwid":"machine-42","ip":["10.0.0.5","fe80::1"]}"#);
    assert_eq!(report_result(Some(200)), Ok(()));
    assert_eq!(report_result(Some(500)), Err(ReportError::RemoteRejected));
}

#[test]
fn link_machine_42_end_to_end() {
    let mode = select_mode(true, false);
    assert_eq!(mode, Mode::Link);
    let url = link_request(&Ok("machine-42".to_string())).unwrap();
    assert_eq!(url, "https://find-nas.lirui.tech/v1/link/machine-42");
    let body = r#"{"status_code":200,"msg":"https://find-nas.lirui.tech/s/abc"}"#;
    let link = resolve_link(link_result(Some(200), body));
    assert_eq!(link, Some("https://find-nas.lirui.tech/s/abc".to_string()));
    assert_eq!(link_line(&link), "Link for this machine: https://find-nas.lirui.tech/s/abc");
    assert_eq!(after_link(link.is_some()), Action::Exit { success: true });
}

#[test]
fn continuous_mode_keeps_going() {
    let mode = select_mode(false, false);
    for ok in [true, false, true] {
        assert_eq!(after_report(mode, ok), Action::Sleep { seconds: 120 });
    }
}
