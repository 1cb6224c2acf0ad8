use find_nas::identity::IdentityError;
use find_nas::link::{
    decode_link_response, link_from_fields, link_request, link_result, resolve_link, LinkError,
};

const GOOD: &str = r#"{"status_code":200,"msg":"https://find-nas.lirui.tech/s/abc"}"#;

#[test]
fn request_for_machine_42() {
    let r = link_request(&Ok("machine-42\n".to_string()));
    assert_eq!(r, Ok("https://find-nas.lirui.tech/v1/link/machine-42".to_string()));
}

#[test]
fn request_without_identity() {
    assert_eq!(link_request(&Err(IdentityError::Unavailable)), Err(LinkError::IdentityUnavailable));
}

#[test]
fn decode_valid_body() {
    let r = decode_link_response(GOOD).unwrap();
    assert_eq!(r.status_code, 200);
    assert_eq!(r.msg, "https://find-nas.lirui.tech/s/abc");
}

#[test]
fn decode_ignores_extra_members() {
    let r = decode_link_response(r#"{"msg":"x","extra":[1,2],"status_code":-3}"#).unwrap();
    assert_eq!(r.status_code, -3);
    assert_eq!(r.msg, "x");
}

#[test]
fn decode_rejects_bad_bodies() {
    for body in [
        "",
        "not json",
        r#"{"status_code":200}"#,
        r#"{"msg":"x"}"#,
        r#"{"status_code":"200","msg":"x"}"#,
        r#"{"status_code":200.5,"msg":"x"}"#,
        r#"{"status_code":200,"msg":5}"#,
        r#"{"status_code":3000000000,"msg":"x"}"#,
        r#"[200,"x"]"#,
        r#"{"status_code":200,"msg":"x""#,
    ] {
        assert!(decode_link_response(body).is_none(), "{}", body);
    }
}

#[test]
fn fields_outside_i32_are_rejected() {
    assert!(link_from_fields(Some((i64::from(i32::MAX) + 1, "x".to_string()))).is_none());
    assert!(link_from_fields(Some((i64::from(i32::MIN) - 1, "x".to_string()))).is_none());
    assert!(link_from_fields(None).is_none());
    let r = link_from_fields(Some((i64::from(i32::MIN), "y".to_string()))).unwrap();
    assert_eq!(r.status_code, i32::MIN);
    assert_eq!(r.msg, "y");
}

#[test]
fn result_for_valid_response() {
    assert_eq!(link_result(Some(200), GOOD), Ok("https://find-nas.lirui.tech/s/abc".to_string()));
}

#[test]
fn result_for_rejected_status() {
    assert_eq!(link_result(Some(404), GOOD), Err(LinkError::Rejected));
    assert_eq!(link_result(Some(500), "oops"), Err(LinkError::Rejected));
}

#[test]
fn result_for_malformed_body() {
    assert_eq!(link_result(Some(200), "<html>"), Err(LinkError::Malformed));
}

#[test]
fn result_without_response() {
    assert_eq!(link_result(None, GOOD), Err(LinkError::Transport));
}

#[test]
fn resolve_collapses_failures() {
    for e in [LinkError::IdentityUnavailable, LinkError::Transport, LinkError::Rejected, LinkError::Malformed] {
        assert_eq!(resolve_link(Err(e)), None);
    }
    assert_eq!(resolve_link(link_result(Some(204), GOOD)), Some("https://find-nas.lirui.tech/s/abc".to_string()));
}
