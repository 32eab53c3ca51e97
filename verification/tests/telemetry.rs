use multitenant_worker::telemetry::{limit_outcome, metric_label, metric_point, LimitOutcome, LimiterReply};

fn labels(pairs: &[(&str, &str)]) -> Vec<(String, String)> {
    pairs.iter().map(|(k, v)| (k.to_string(), v.to_string())).collect()
}

#[test]
fn labels_pick_the_first_match_or_unknown() {
    let l = labels(&[("status_class", "2xx"), ("procedure", "/a"), ("procedure", "/b")]);
    assert_eq!(metric_label(&l, "procedure"), "/a");
    assert_eq!(metric_label(&l, "status_class"), "2xx");
    assert_eq!(metric_label(&l, "region"), "unknown");
    assert_eq!(metric_label(&Vec::new(), "procedure"), "unknown");
}

#[test]
fn metric_points_carry_name_procedure_and_status() {
    let l = labels(&[("procedure", "/workers.auth.v1.AuthService/Login")]);
    let p = metric_point("rpc_requests_total", &l);
    assert_eq!(p.index, "/workers.auth.v1.AuthService/Login");
    assert_eq!(p.blobs, vec!["rpc_requests_total", "/workers.auth.v1.AuthService/Login", "unknown"]);
}

#[test]
fn limiter_replies_are_read() {
    assert!(matches!(limit_outcome(LimiterReply::Answered(true)), LimitOutcome::Allowed));
    assert!(matches!(limit_outcome(LimiterReply::Answered(false)), LimitOutcome::Exceeded));
    match limit_outcome(LimiterReply::Failed("boom".to_string())) {
        LimitOutcome::Error(m) => assert_eq!(m, "boom"),
        other => panic!("{:?}", other),
    }
    match limit_outcome(LimiterReply::TimedOut) {
        LimitOutcome::Error(m) => assert_eq!(m, "binding timeout after 500ms"),
        other => panic!("{:?}", other),
    }
}
