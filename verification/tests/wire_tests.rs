use image_checker::handlers::{ApiResponse, ErrorResponse, HealthResponse, SubmitResponse};
use image_checker::models::{
    ProcessingStatus, Resolution, StatusResponse, ValidationResponse, ValidationResults,
};
use image_checker::queue::QueueStats;
use serde_json::Value;

fn reasons_of(json: &str) -> Vec<String> {
    let value: Value = serde_json::from_str(json).unwrap();
    value["resons"]
        .as_array()
        .unwrap()
        .iter()
        .map(|reason| reason.as_str().unwrap().to_string())
        .collect()
}

#[test]
fn test_results_json_exact() {
    assert_eq!(
        ValidationResults::accepted().to_json().unwrap(),
        "{\"resolution\":\"accepted\"}"
    );
    assert_eq!(
        ValidationResults::rejected(vec!["a".to_string(), "b".to_string()])
            .to_json()
            .unwrap(),
        "{\"resolution\":\"rejected\",\"resons\":[\"a\",\"b\"]}"
    );
    // an empty list is still written, under its key
    assert_eq!(
        ValidationResults::rejected(vec![]).to_json().unwrap(),
        "{\"resolution\":\"rejected\",\"resons\":[]}"
    );
}

#[test]
fn test_reasons_round_trip() {
    let reasons = vec![
        "cannot locate image".to_string(),
        "image content does not match description: 'a \"quoted\" thing'".to_string(),
        "image location 51.491079°N, 0.269590°W is 270.9m from expected location 51.492191°N, 0.266108°W, exceeding 50.0m limit".to_string(),
        "line\nbreak\ttab \\ backslash / slash".to_string(),
        "\u{1}\u{1f} control, \u{7f} delete, 😀 astral".to_string(),
        String::new(),
        "resons".to_string(),
        "cannot locate image".to_string(),
    ];
    let json = ValidationResults::rejected(reasons.clone())
        .to_json()
        .unwrap();
    assert_eq!(reasons_of(&json), reasons);
    let value: Value = serde_json::from_str(&json).unwrap();
    assert_eq!(value["resolution"], "rejected");
    assert!(value.get("reasons").is_none());
    assert_eq!(value.as_object().unwrap().len(), 2);
}

#[test]
fn test_response_json() {
    let response = ValidationResponse {
        processing_id: "job \"7\"".to_string(),
        results: ValidationResults::accepted(),
    };
    let json = response.to_json().unwrap();
    assert_eq!(
        json,
        "{\"processing-id\":\"job \\\"7\\\"\",\"results\":{\"resolution\":\"accepted\"}}"
    );
    let value: Value = serde_json::from_str(&json).unwrap();
    assert_eq!(value["processing-id"], "job \"7\"");
    assert!(value["results"].get("resons").is_none());
}

#[test]
fn test_status_and_submit_json() {
    for (status, name) in [
        (ProcessingStatus::Accepted, "accepted"),
        (ProcessingStatus::InProgress, "in_progress"),
        (ProcessingStatus::Completed, "completed"),
        (ProcessingStatus::Failed, "failed"),
        (ProcessingStatus::NotFound, "not_found"),
    ] {
        assert_eq!(status.to_json(), format!("\"{}\"", name));
        let body = StatusResponse {
            processing_id: "x".to_string(),
            status,
        };
        assert_eq!(
            body.to_json().unwrap(),
            format!("{{\"processing-id\":\"x\",\"status\":\"{}\"}}", name)
        );
    }
    assert_eq!(Resolution::Accepted.to_json(), "\"accepted\"");
    assert_eq!(Resolution::Rejected.to_json(), "\"rejected\"");
    let body = SubmitResponse {
        processing_id: "x".to_string(),
        status: "accepted".to_string(),
    };
    assert_eq!(
        body.to_json().unwrap(),
        "{\"processing-id\":\"x\",\"status\":\"accepted\"}"
    );
}

#[test]
fn test_stats_and_health_json() {
    let stats = QueueStats {
        total: 10,
        accepted: 1,
        in_progress: 2,
        completed: 3,
        failed: 4,
        available_permits: 59,
    };
    assert_eq!(
        stats.to_json(),
        "{\"total\":10,\"accepted\":1,\"in_progress\":2,\"completed\":3,\"failed\":4,\"available_permits\":59}"
    );
    let health = HealthResponse {
        status: "healthy".to_string(),
        version: "0.1.0".to_string(),
        queue_stats: stats,
    };
    assert_eq!(
        health.to_json().unwrap(),
        "{\"status\":\"healthy\",\"version\":\"0.1.0\",\"queue_stats\":{\"total\":10,\"accepted\":1,\"in_progress\":2,\"completed\":3,\"failed\":4,\"available_permits\":59}}"
    );
}

#[test]
fn test_envelope_json() {
    let refusal: ApiResponse<()> = ApiResponse::error("queue is full, please retry later".to_string());
    assert_eq!(
        refusal.to_json().unwrap(),
        "{\"success\":false,\"data\":null,\"error\":\"queue is full, please retry later\"}"
    );
    let empty = ApiResponse::success(());
    assert_eq!(
        empty.to_json().unwrap(),
        "{\"success\":true,\"data\":null,\"error\":null}"
    );
    let bare = ErrorResponse {
        error: "x".to_string(),
        details: None,
    };
    assert_eq!(bare.to_json().unwrap(), "{\"error\":\"x\",\"details\":null}");
}
