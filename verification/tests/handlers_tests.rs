use image_checker::handlers::{
    check_status, get_results, handle_404, health_check, queue_stats, submit_validation,
    ApiResponse,
};
use image_checker::models::{
    AnalysisRequest, ProcessingStatus, Resolution, ValidationRequest, ValidationResults,
};
use image_checker::queue::{JobOutcome, ProcessingQueue};
use image_checker::Config;
use serde_json::Value;

fn create_test_config() -> Config {
    Config {
        host: "127.0.0.1".to_string(),
        port: 3000,
        image_base_dir: "/tmp".to_string(),
        llm_api_url: "http://localhost:8080".to_string(),
        llm_model_name: "llava:7b".to_string(),
        request_timeout_seconds: 30,
        processing_timeout_minutes: 5,
        queue_size: 100,
        throttle_requests_per_minute: 60,
    }
}

fn request(image_path: Option<&str>, image: Option<&str>, content: &str) -> ValidationRequest<()> {
    ValidationRequest {
        processing_id: String::new(),
        image_path: image_path.map(|s| s.to_string()),
        image: image.map(|s| s.to_string()),
        analysis_request: AnalysisRequest {
            image_path: None,
            content: content.to_string(),
            location: None,
            datetime: None,
        },
    }
}

fn refusal(answer: (u16, ApiResponse<()>)) -> (u16, String) {
    assert!(!answer.1.success);
    assert!(answer.1.data.is_none());
    (answer.0, answer.1.error.unwrap())
}

fn parse(json: &str) -> Value {
    serde_json::from_str(json).unwrap()
}

#[test]
fn test_submit_validation_missing_content() {
    let config = create_test_config();
    let mut queue = ProcessingQueue::new(&config);

    let answer = submit_validation(
        &mut queue,
        request(Some("/tmp/test.jpg"), None, ""),
        "id-1".to_string(),
        0,
    );

    assert_eq!(answer.unwrap_err().0, 400);
}

#[test]
fn test_submit_validation_valid_request() {
    let config = create_test_config();
    let mut queue = ProcessingQueue::new(&config);

    let answer = submit_validation(
        &mut queue,
        request(Some("/tmp/test.jpg"), None, "test content"),
        "id-1".to_string(),
        0,
    );

    assert_eq!(answer.unwrap().0, 202);
}

#[test]
fn test_check_status_not_found() {
    let config = create_test_config();
    let queue: ProcessingQueue<()> = ProcessingQueue::new(&config);

    let answer = check_status(&queue, "nonexistent".to_string());

    assert_eq!(answer.unwrap_err().0, 404);
}

#[test]
fn test_health_check() {
    let config = create_test_config();
    let queue: ProcessingQueue<()> = ProcessingQueue::new(&config);

    let answer = health_check(&queue, "0.1.0");

    assert_eq!(answer.status, "healthy");
}

#[test]
fn test_404_handler() {
    let (code, body) = handle_404();
    assert_eq!(code, 404);
    assert_eq!(body.error, "endpoint not found");
    assert_eq!(
        body.details.as_deref(),
        Some("check the API documentation for available endpoints")
    );
    assert_eq!(
        body.to_json().unwrap(),
        "{\"error\":\"endpoint not found\",\"details\":\"check the API documentation for available endpoints\"}"
    );
}

#[test]
fn test_submit_validation_endpoint() {
    let mut queue = ProcessingQueue::new(&create_test_config());

    let (code, body) = submit_validation(
        &mut queue,
        request(Some("/tmp/test.jpg"), None, "Three birds on a wire"),
        "test001".to_string(),
        0,
    )
    .unwrap();

    assert_eq!(code, 202);

    let response_json = parse(&body.to_json().unwrap());

    assert_eq!(response_json["processing-id"], "test001");
    assert_eq!(response_json["status"], "accepted");
}

#[test]
fn test_status_endpoint() {
    let mut queue = ProcessingQueue::new(&create_test_config());

    // Submit a request first
    let _submit_response = submit_validation(
        &mut queue,
        request(Some("/tmp/test.jpg"), None, "test content"),
        "test003".to_string(),
        0,
    );

    // Check status
    let body = check_status(&queue, "test003".to_string()).unwrap();
    let response_json = parse(&body.to_json().unwrap());

    assert_eq!(response_json["processing-id"], "test003");
    assert!(["accepted", "in_progress", "completed", "failed"]
        .contains(&response_json["status"].as_str().unwrap()));
}

#[test]
fn test_status_not_found() {
    let queue: ProcessingQueue<()> = ProcessingQueue::new(&create_test_config());
    let answer = check_status(&queue, "nonexistent".to_string());
    assert_eq!(
        refusal(answer.unwrap_err()),
        (404, "processing ID not found".to_string())
    );
}

#[test]
fn test_results_not_found() {
    let queue: ProcessingQueue<()> = ProcessingQueue::new(&create_test_config());
    let answer = get_results(&queue, "nonexistent".to_string());
    assert_eq!(
        refusal(answer.unwrap_err()),
        (404, "processing ID not found".to_string())
    );
}

#[test]
fn test_health_endpoint() {
    let queue: ProcessingQueue<()> = ProcessingQueue::new(&create_test_config());

    let body = health_check(&queue, "0.1.0");
    let response_json = parse(&body.to_json().unwrap());

    assert_eq!(response_json["status"], "healthy");
    assert!(response_json["version"].is_string());
    assert!(response_json["queue_stats"].is_object());
}

#[test]
fn test_stats_endpoint() {
    let queue: ProcessingQueue<()> = ProcessingQueue::new(&create_test_config());

    let response_json = parse(&queue_stats(&queue).to_json());

    assert!(response_json["total"].is_number());
    assert!(response_json["accepted"].is_number());
    assert!(response_json["in_progress"].is_number());
    assert!(response_json["completed"].is_number());
    assert!(response_json["failed"].is_number());
}

#[test]
fn test_validation_request_with_null_image() {
    let mut queue = ProcessingQueue::new(&create_test_config());

    let answer = submit_validation(
        &mut queue,
        request(None, None, "test content"),
        "test005".to_string(),
        0,
    );

    assert_eq!(
        refusal(answer.unwrap_err()),
        (400, "image path is required".to_string())
    );
    assert_eq!(queue.get_status("test005"), ProcessingStatus::NotFound);
}

#[test]
fn test_submit_refusals() {
    let mut config = create_test_config();
    config.queue_size = 1;
    let mut queue = ProcessingQueue::new(&config);
    let good = || request(None, Some("test.jpg"), "test content");

    // the content is looked at before the image reference
    let answer = submit_validation(&mut queue, request(None, None, ""), "a".to_string(), 0);
    assert_eq!(
        refusal(answer.unwrap_err()),
        (400, "content description is required".to_string())
    );
    assert_eq!(queue_stats(&queue).total, 0);

    let (code, body) = submit_validation(&mut queue, good(), "a".to_string(), 0).unwrap();
    assert_eq!((code, body.processing_id.as_str(), body.status.as_str()), (202, "a", "accepted"));
    assert_eq!(queue.get_status("a"), ProcessingStatus::Accepted);

    let answer = submit_validation(&mut queue, good(), "b".to_string(), 0);
    assert_eq!(
        refusal(answer.unwrap_err()),
        (429, "queue is full, please retry later".to_string())
    );
    let answer = submit_validation(&mut queue, good(), "a".to_string(), 0);
    assert_eq!(
        refusal(answer.unwrap_err()),
        (500, "internal server error".to_string())
    );
    queue.shutdown();
    let answer = submit_validation(&mut queue, good(), "c".to_string(), 0);
    assert_eq!(
        refusal(answer.unwrap_err()),
        (503, "service is shutting down".to_string())
    );
    assert_eq!(queue_stats(&queue).total, 1);
}

#[test]
fn test_backpressure_at_the_surface() {
    let mut config = create_test_config();
    config.queue_size = 1;
    let mut queue = ProcessingQueue::new(&config);
    let good = || request(Some("/tmp/test.jpg"), None, "test content");
    assert_eq!(
        submit_validation(&mut queue, good(), "A".to_string(), 0).unwrap().0,
        202
    );
    // the worker takes A and is held up by a slow model
    assert!(queue.receive(0).is_some());
    assert_eq!(
        submit_validation(&mut queue, good(), "B".to_string(), 0).unwrap().0,
        202
    );
    assert_eq!(
        submit_validation(&mut queue, good(), "C".to_string(), 0).unwrap_err().0,
        429
    );
    assert_eq!(queue_stats(&queue).total, 2);
}

#[test]
fn test_deadline_ends_in_failure() {
    let mut queue = ProcessingQueue::new(&create_test_config());
    let good = request(Some("/tmp/test.jpg"), None, "test content");
    assert!(submit_validation(&mut queue, good, "slow".to_string(), 0).is_ok());
    assert!(queue.receive(1).is_some());
    assert_eq!(
        refusal(get_results(&queue, "slow".to_string()).unwrap_err()),
        (202, "processing not complete".to_string())
    );
    // the deadline of one second fires
    queue.finish_processing(JobOutcome::TimedOut, 1001);
    assert_eq!(
        check_status(&queue, "slow".to_string()).unwrap().status,
        ProcessingStatus::Failed
    );
    assert_eq!(
        refusal(get_results(&queue, "slow".to_string()).unwrap_err()),
        (500, "processing failed".to_string())
    );
}

#[test]
fn test_results_by_status() {
    let mut queue = ProcessingQueue::new(&create_test_config());
    let good = || request(Some("/tmp/test.jpg"), None, "test content");
    for id in ["done", "waiting"] {
        assert!(submit_validation(&mut queue, good(), id.to_string(), 0).is_ok());
    }
    assert_eq!(
        refusal(get_results(&queue, "waiting".to_string()).unwrap_err()),
        (202, "processing not complete".to_string())
    );
    queue.receive(1);
    queue.finish_processing(
        JobOutcome::Validated(ValidationResults::rejected(vec![
            "cannot locate image".to_string()
        ])),
        2,
    );
    let body = get_results(&queue, "done".to_string()).unwrap();
    assert_eq!(body.processing_id, "done");
    assert_eq!(body.results.resolution, Resolution::Rejected);
    assert_eq!(
        body.to_json().unwrap(),
        "{\"processing-id\":\"done\",\"results\":{\"resolution\":\"rejected\",\"resons\":[\"cannot locate image\"]}}"
    );
    let status = check_status(&queue, "done".to_string()).unwrap();
    assert_eq!(
        status.to_json().unwrap(),
        "{\"processing-id\":\"done\",\"status\":\"completed\"}"
    );
}

#[test]
fn test_api_response_constructors() {
    let ok = ApiResponse::success(7u32);
    assert!(ok.success);
    assert_eq!(ok.data, Some(7));
    assert!(ok.error.is_none());
    let failed: ApiResponse<u32> = ApiResponse::error("no".to_string());
    assert!(!failed.success);
    assert!(failed.data.is_none());
    assert_eq!(failed.error.as_deref(), Some("no"));
}
