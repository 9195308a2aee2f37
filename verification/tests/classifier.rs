use utermux::outcome::{
    first_text, read_reply, reply_from_members, ApiResponse, ClaimOutcome, ClassifierPolicy, OutcomeKind,
    RawResult,
};

fn policy() -> ClassifierPolicy {
    ClassifierPolicy::new("2040".to_string())
}

fn body(text: &str) -> RawResult {
    RawResult::Body(text.to_string())
}

#[test]
fn success_reply_is_success() {
    let o = policy().classify(&body("{\"success\":true}"));
    assert_eq!(o, ClaimOutcome::Success(String::new()));
}

#[test]
fn success_reply_carries_its_message() {
    let o = policy().classify(&body(
        "{\"success\":true,\"responseCode\":\"0\",\"responseMsg\":\"领取成功\"}",
    ));
    assert_eq!(o, ClaimOutcome::Success("领取成功".to_string()));
}

#[test]
fn terminal_code_is_already_claimed() {
    let o = policy().classify(&body(
        "{\"success\":false,\"responseCode\":\"2040\",\"responseMsg\":\"X\"}",
    ));
    assert_eq!(o, ClaimOutcome::AlreadyClaimed("X".to_string()));
}

#[test]
fn other_code_is_transient() {
    let o = policy().classify(&body("{\"success\":false,\"responseCode\":\"9999\"}"));
    assert_eq!(o, ClaimOutcome::Transient(String::new()));
    assert_eq!(o.kind(), OutcomeKind::Transient);
}

#[test]
fn malformed_body_is_transient() {
    let o = policy().classify(&body("<html>502</html>"));
    assert_eq!(o, ClaimOutcome::Transient("响应格式错误".to_string()));
    let o = policy().classify(&body(""));
    assert_eq!(o.kind(), OutcomeKind::Transient);
    let o = policy().classify(&body("{\"success\":\"yes\"}"));
    assert_eq!(o.kind(), OutcomeKind::Transient);
    let o = policy().classify(&body("[true]"));
    assert_eq!(o.kind(), OutcomeKind::Transient);
}

#[test]
fn connection_failure_is_transient() {
    let o = policy().classify(&RawResult::TransportError("connection refused".to_string()));
    assert_eq!(o, ClaimOutcome::Transient("connection refused".to_string()));
}

#[test]
fn terminal_code_is_configurable() {
    let p = ClassifierPolicy::new("7".to_string());
    let lost = body("{\"success\":false,\"responseCode\":\"7\",\"responseMsg\":\"gone\"}");
    let other = body("{\"success\":false,\"responseCode\":\"2040\",\"responseMsg\":\"later\"}");
    assert_eq!(p.classify(&lost), ClaimOutcome::AlreadyClaimed("gone".to_string()));
    assert_eq!(p.classify(&other), ClaimOutcome::Transient("later".to_string()));
}

#[test]
fn success_wins_over_the_code() {
    let reply = ApiResponse {
        response_code: "2040".to_string(),
        success: true,
        response_msg: "ok".to_string(),
    };
    assert_eq!(policy().classify_reply(&reply), ClaimOutcome::Success("ok".to_string()));
}

#[test]
fn parsed_classification_covers_each_case() {
    let p = policy();
    assert_eq!(
        p.classify_parsed(false, None),
        ClaimOutcome::Transient("网络请求失败".to_string())
    );
    assert_eq!(
        p.classify_parsed(true, None),
        ClaimOutcome::Transient("响应格式错误".to_string())
    );
    let reply = ApiResponse {
        response_code: "2040".to_string(),
        success: false,
        response_msg: "X".to_string(),
    };
    assert_eq!(
        p.classify_parsed(false, Some(reply.clone())),
        ClaimOutcome::Transient("网络请求失败".to_string())
    );
    assert_eq!(
        p.classify_parsed(true, Some(reply)),
        ClaimOutcome::AlreadyClaimed("X".to_string())
    );
}

#[test]
fn reply_is_read_from_the_body() {
    let r = read_reply("{\"success\":false,\"responseCode\":\"12\",\"responseMsg\":\"m\",\"x\":1}");
    assert_eq!(
        r,
        Some(ApiResponse {
            response_code: "12".to_string(),
            success: false,
            response_msg: "m".to_string(),
        })
    );
    assert_eq!(read_reply("{\"responseCode\":\"12\"}"), None);
    assert_eq!(read_reply("{\"success\":true"), None);
    let r = read_reply("{\"success\":true,\"responseCode\":2040,\"responseMsg\":null}");
    assert_eq!(
        r,
        Some(ApiResponse { response_code: String::new(), success: true, response_msg: String::new() })
    );
}

#[test]
fn outcome_clone_keeps_kind_and_text() {
    let o = ClaimOutcome::AlreadyClaimed("gone".to_string());
    assert_eq!(o.clone(), o);
    assert_eq!(ClaimOutcome::TimedOut.clone().kind(), OutcomeKind::TimedOut);
}

#[test]
fn reply_is_made_of_its_members() {
    assert_eq!(reply_from_members(None, Some("1".to_string()), Some("m".to_string())), None);
    assert_eq!(
        reply_from_members(Some(false), None, None),
        Some(ApiResponse { response_code: String::new(), success: false, response_msg: String::new() })
    );
    assert_eq!(
        reply_from_members(Some(true), Some("0".to_string()), Some("ok".to_string())),
        Some(ApiResponse {
            response_code: "0".to_string(),
            success: true,
            response_msg: "ok".to_string()
        })
    );
}

#[test]
fn short_member_names_are_read_too() {
    let o = policy().classify(&body("{\"success\":false,\"code\":\"2040\",\"msg\":\"X\"}"));
    assert_eq!(o, ClaimOutcome::AlreadyClaimed("X".to_string()));
    let o = policy().classify(&body("{\"success\":false,\"code\":\"9999\"}"));
    assert_eq!(o, ClaimOutcome::Transient(String::new()));
    let o = policy().classify(&body("{\"success\":true,\"msg\":\"ok\"}"));
    assert_eq!(o, ClaimOutcome::Success("ok".to_string()));
}

#[test]
fn long_member_names_come_first() {
    let r = read_reply(
        "{\"success\":false,\"responseCode\":\"1\",\"code\":\"2040\",\"responseMsg\":\"a\",\"msg\":\"b\"}",
    );
    assert_eq!(
        r,
        Some(ApiResponse {
            response_code: "1".to_string(),
            success: false,
            response_msg: "a".to_string()
        })
    );
    let r = read_reply("{\"success\":false,\"responseCode\":7,\"code\":\"2040\"}");
    assert_eq!(r.map(|a| a.response_code), Some("2040".to_string()));
    assert_eq!(first_text(None, Some("b".to_string())), Some("b".to_string()));
    assert_eq!(first_text(Some("a".to_string()), Some("b".to_string())), Some("a".to_string()));
    assert_eq!(first_text(None, None), None);
}
