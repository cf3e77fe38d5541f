use chrono::{DateTime, FixedOffset, TimeZone};
use image_checker::models::{
    AnalysisRequest, DateTimeConstraint, DateTimeRequest, ProcessingRequest, Resolution,
    ValidationContext,
};
use image_checker::time::Timestamp;
use image_checker::utils::{count_decimal_places, validate_datetime};
use image_checker::validation::exif::{
    extract_datetime, extract_exif_metadata, extract_gps_coordinates, extract_gps_dms,
    extract_gps_ref, ExifData, ExifError, ExifFields, ExifValue, Rational,
};
use image_checker::validation::llm::{
    check_image_format, check_signature, file_extension, image_extension, image_kind,
    mime_type_for, validate_image_content, ImageKind, LlmClient, LlmError, RetryState, RetryStep,
};
use image_checker::validation::processor::{
    evaluate_datetime, evaluate_location, resolve_path, LocationCheck, ProcessorError,
    ValidationProcessor,
};
use image_checker::Config;

#[derive(Debug, Clone, PartialEq)]
struct LocationConstraint {
    max_distance_meters: f64,
    latitude: f64,
    longitude: f64,
}

fn stamp(time: DateTime<FixedOffset>) -> Timestamp {
    Timestamp {
        secs: time.timestamp(),
        nanos: time.timestamp_subsec_nanos(),
        offset: time.offset().local_minus_utc(),
    }
}

fn at(offset: i32, hour: u32, minute: u32, second: u32) -> Timestamp {
    stamp(
        FixedOffset::east_opt(offset)
            .unwrap()
            .with_ymd_and_hms(2025, 8, 1, hour, minute, second)
            .unwrap(),
    )
}

fn create_test_config() -> Config {
    Config {
        host: "127.0.0.1".to_string(),
        port: 3000,
        image_base_dir: "/tmp".to_string(),
        llm_api_url: "http://localhost:8080".to_string(),
        llm_model_name: "llava:7b".to_string(),
        request_timeout_seconds: 30,
        processing_timeout_minutes: 5,
        queue_size: 100,
        throttle_requests_per_minute: 60,
    }
}

fn client() -> LlmClient {
    LlmClient::new(
        "http://localhost:8080".into(),
        "llava:7b".into(),
        30 * 1000,
    )
}

fn request_for(image_path: Option<&str>, image: Option<&str>) -> ProcessingRequest<LocationConstraint> {
    ProcessingRequest {
        processing_id: "test".to_string(),
        image_path: image_path.map(|s| s.to_string()),
        image: image.map(|s| s.to_string()),
        analysis_request: AnalysisRequest {
            image_path: None,
            content: "test".to_string(),
            location: None,
            datetime: None,
        },
    }
}

fn ascii(text: &str) -> ExifValue {
    ExifValue::Ascii(vec![text.as_bytes().to_vec()])
}

fn dms(d: (u32, u32), m: (u32, u32), s: (u32, u32)) -> ExifValue {
    ExifValue::Rational(vec![
        Rational { num: d.0, denom: d.1 },
        Rational { num: m.0, denom: m.1 },
        Rational { num: s.0, denom: s.1 },
    ])
}

fn no_fields() -> ExifFields {
    ExifFields {
        gps_latitude: None,
        gps_latitude_ref: None,
        gps_longitude: None,
        gps_longitude_ref: None,
        date_time: None,
        date_time_original: None,
    }
}

fn london_fields() -> ExifFields {
    ExifFields {
        gps_latitude: Some(dms((51, 1), (29, 1), (3188, 100))),
        gps_latitude_ref: Some(ascii("N\0")),
        gps_longitude: Some(dms((0, 1), (15, 1), (5798, 100))),
        gps_longitude_ref: Some(ascii("W\0")),
        date_time: Some(ascii("2025:08:01 14:30:00\0")),
        date_time_original: Some(ascii("2025:08:01 14:25:00\0")),
    }
}

#[test]
fn utils_test_validate_datetime_within_window() {
    let start_time = FixedOffset::east_opt(0)
        .unwrap()
        .with_ymd_and_hms(2025, 8, 1, 15, 23, 0)
        .unwrap();
    let end_time = FixedOffset::east_opt(0)
        .unwrap()
        .with_ymd_and_hms(2025, 8, 1, 15, 33, 0)
        .unwrap(); // 10 minutes later
    let actual_time = FixedOffset::east_opt(0)
        .unwrap()
        .with_ymd_and_hms(2025, 8, 1, 15, 25, 0)
        .unwrap(); // 2 minutes after start

    let constraint = DateTimeConstraint {
        start_time: stamp(start_time),
        end_time: stamp(end_time),
    };

    let result = validate_datetime(&stamp(actual_time), &constraint).unwrap();
    assert!(result); // Should be within time window
}

#[test]
fn utils_test_validate_datetime_outside_window() {
    let start_time = FixedOffset::east_opt(0)
        .unwrap()
        .with_ymd_and_hms(2025, 8, 1, 15, 23, 0)
        .unwrap();
    let end_time = FixedOffset::east_opt(0)
        .unwrap()
        .with_ymd_and_hms(2025, 8, 1, 15, 33, 0)
        .unwrap(); // 10 minutes later
    let actual_time = FixedOffset::east_opt(0)
        .unwrap()
        .with_ymd_and_hms(2025, 8, 1, 15, 40, 0)
        .unwrap(); // 17 minutes after start, 7 minutes after end

    let constraint = DateTimeConstraint {
        start_time: stamp(start_time),
        end_time: stamp(end_time),
    };

    let result = validate_datetime(&stamp(actual_time), &constraint).unwrap();
    assert!(!result); // Should be outside time window
}

#[test]
fn validation_tests_test_validate_datetime_within_window() {
    let start_time = FixedOffset::east_opt(3600)
        .unwrap() // +1 hour
        .with_ymd_and_hms(2025, 8, 1, 15, 23, 0)
        .unwrap();
    let end_time = FixedOffset::east_opt(3600)
        .unwrap()
        .with_ymd_and_hms(2025, 8, 1, 15, 33, 0)
        .unwrap(); // 10 minutes later
    let actual_time = FixedOffset::east_opt(3600)
        .unwrap()
        .with_ymd_and_hms(2025, 8, 1, 15, 25, 0)
        .unwrap(); // 2 minutes after start

    let constraint = DateTimeConstraint {
        start_time: stamp(start_time),
        end_time: stamp(end_time),
    };

    let result = validate_datetime(&stamp(actual_time), &constraint).unwrap();
    assert!(result);
}

#[test]
fn validation_tests_test_validate_datetime_outside_window() {
    let start_time = FixedOffset::east_opt(3600)
        .unwrap()
        .with_ymd_and_hms(2025, 8, 1, 15, 23, 0)
        .unwrap();
    let end_time = FixedOffset::east_opt(3600)
        .unwrap()
        .with_ymd_and_hms(2025, 8, 1, 15, 33, 0)
        .unwrap(); // 10 minutes later
    let actual_time = FixedOffset::east_opt(3600)
        .unwrap()
        .with_ymd_and_hms(2025, 8, 1, 15, 40, 0)
        .unwrap(); // 17 minutes after start, 7 minutes after end

    let constraint = DateTimeConstraint {
        start_time: stamp(start_time),
        end_time: stamp(end_time),
    };

    let result = validate_datetime(&stamp(actual_time), &constraint).unwrap();
    assert!(!result);
}

#[test]
fn test_validate_datetime_before_window() {
    let start_time = FixedOffset::east_opt(3600)
        .unwrap()
        .with_ymd_and_hms(2025, 8, 1, 15, 23, 0)
        .unwrap();
    let end_time = FixedOffset::east_opt(3600)
        .unwrap()
        .with_ymd_and_hms(2025, 8, 1, 15, 33, 0)
        .unwrap(); // 10 minutes later
    let actual_time = FixedOffset::east_opt(3600)
        .unwrap()
        .with_ymd_and_hms(2025, 8, 1, 15, 20, 0)
        .unwrap(); // 3 minutes before start

    let constraint = DateTimeConstraint {
        start_time: stamp(start_time),
        end_time: stamp(end_time),
    };

    let result = validate_datetime(&stamp(actual_time), &constraint).unwrap();
    assert!(!result); // Should fail because it's before start time
}

#[test]
fn test_validate_datetime_window_ends_count() {
    let constraint = DateTimeConstraint {
        start_time: at(3600, 15, 23, 0),
        end_time: at(3600, 15, 33, 0),
    };
    assert!(validate_datetime(&at(3600, 15, 23, 0), &constraint).unwrap());
    assert!(validate_datetime(&at(3600, 15, 33, 0), &constraint).unwrap());
    assert!(!validate_datetime(&at(3600, 15, 22, 59), &constraint).unwrap());
    assert!(!validate_datetime(&at(3600, 15, 33, 1), &constraint).unwrap());
    // offsets play no part: 14:25 UTC is 15:25 at +01:00
    assert!(validate_datetime(&at(0, 14, 25, 0), &constraint).unwrap());
    assert!(!validate_datetime(&at(0, 15, 25, 0), &constraint).unwrap());
    // nanoseconds decide within a second
    let mut late = at(3600, 15, 33, 0);
    late.nanos = 1;
    assert!(!validate_datetime(&late, &constraint).unwrap());
}

#[test]
fn test_count_decimal_places() {
    assert_eq!(count_decimal_places("51.4910790000"), 6);
    assert_eq!(count_decimal_places("-0.2695900000"), 5);
    assert_eq!(count_decimal_places("51.4900000000"), 2);
    assert_eq!(count_decimal_places("51.0000000000"), 0);
    assert_eq!(count_decimal_places("51"), 0);
    assert_eq!(count_decimal_places(""), 0);
    assert_eq!(count_decimal_places("."), 0);
    assert_eq!(count_decimal_places("1.05"), 2);
    assert_eq!(count_decimal_places("1.2.30"), 3);
}

#[test]
fn test_construct_validation_prompt() {
    let client = LlmClient::new(
        "http://localhost:8080".into(),
        "llava:7b".into(),
        30 * 1000,
    );

    let prompt = client.construct_validation_prompt("Three birds on a wire");

    assert!(prompt.contains("Three birds on a wire"));
    assert!(prompt.contains("ACCEPTED"));
    assert!(prompt.contains("REJECTED"));
}

#[test]
fn test_prompt_is_exact() {
    let prompt = client().construct_validation_prompt("a cat");
    assert_eq!(
        prompt,
        "You are an image validation assistant. Please analyze this image and determine if it matches the following description: \"a cat\"\n\nRespond with either:\n- \"ACCEPTED\" if the image clearly matches the description\n- \"REJECTED: [reason]\" if the image does not match, followed by a brief explanation\n\nBe precise and focus on the key elements mentioned in the description. If the description mentions specific objects, locations, or characteristics, verify their presence in the image."
    );
}

#[test]
fn test_get_mime_type() {
    let client = LlmClient::new(
        "http://localhost:8080".into(),
        "llava:7b".into(),
        30 * 1000,
    );

    assert_eq!(client.get_mime_type("test.jpg").unwrap(), "image/jpeg");
    assert_eq!(client.get_mime_type("test.png").unwrap(), "image/png");
    assert_eq!(client.get_mime_type("test.gif").unwrap(), "image/gif");

    assert!(client.get_mime_type("test.txt").is_err());
}

#[test]
fn test_mime_types_and_kinds() {
    assert_eq!(mime_type_for("jpeg").unwrap(), "image/jpeg");
    assert_eq!(mime_type_for("bmp").unwrap(), "image/bmp");
    assert_eq!(mime_type_for("webp").unwrap(), "image/webp");
    match mime_type_for("tiff") {
        Err(LlmError::InvalidImage(msg)) => {
            assert_eq!(msg, "Unknown MIME type for extension: tiff")
        }
        other => panic!("unexpected: {:?}", other),
    }
    assert_eq!(image_kind("jpg"), Some(ImageKind::Jpeg));
    assert_eq!(image_kind("JPG"), None);
    assert_eq!(image_kind(""), None);
    assert_eq!(client().get_mime_type("/a/b/PHOTO.JPeG").unwrap(), "image/jpeg");
    assert!(client().get_mime_type("/a/b.jpg/photo").is_err());
}

#[test]
fn test_file_extension() {
    assert_eq!(file_extension("photo.jpg"), Some("jpg".to_string()));
    assert_eq!(file_extension("archive.tar.GZ"), Some("GZ".to_string()));
    assert_eq!(file_extension("noext"), None);
    assert_eq!(file_extension(".hidden"), None);
    assert_eq!(file_extension(".hidden.png"), Some("png".to_string()));
    assert_eq!(file_extension("trailing."), Some(String::new()));
    assert_eq!(file_extension(""), None);
    assert_eq!(file_extension("größe.jpég"), Some("jpég".to_string()));
    // the rule is that of the standard library
    for name in ["photo.jpg", "archive.tar.GZ", "noext", ".hidden", ".hidden.png", "trailing.", "a..b", "größe.jpég"] {
        let expected = std::path::Path::new(name)
            .extension()
            .map(|e| e.to_str().unwrap().to_string());
        assert_eq!(file_extension(name), expected);
    }
}

#[test]
fn test_image_extension() {
    assert_eq!(image_extension("/tmp/photo.jpg/"), "jpg");
    assert_eq!(image_extension("/tmp/photo.jpg/."), "jpg");
    assert_eq!(image_extension("/tmp/photo.jpg/.."), "");
    assert_eq!(image_extension("/"), "");
    assert_eq!(image_extension("dir.d/file"), "");
    assert_eq!(image_extension("ΑΒΓ.JPÉG"), "jpég");
    assert_eq!(image_extension("test.jpg"), "jpg");
    assert_eq!(image_extension("/tmp/Photo.PNG"), "png");
    assert_eq!(image_extension("/tmp/archive.tar.GZ"), "gz");
    assert_eq!(image_extension("/tmp/noext"), "");
    assert_eq!(image_extension("/tmp/.hidden"), "");
    assert_eq!(image_extension(""), "");
}

#[test]
fn test_validate_image_format() {
    let client = LlmClient::new(
        "http://localhost:8080".into(),
        "llava:7b".into(),
        30 * 1000,
    );

    let result = client.validate_image_format(
        "/tmp/image.jpg",
        &[0xFF, 0xD8, 0xFF, 0xE0, 0x00, 0x10, 0x4A, 0x46],
    );
    assert!(result.is_ok());

    // Test invalid magic bytes
    let result = client.validate_image_format(
        "/tmp/image.jpg",
        &[0x00, 0x00, 0x00, 0x00, 0x00, 0x00, 0x00, 0x00],
    );
    assert!(result.is_err());
}

#[test]
fn test_image_signatures() {
    let png = [0x89, 0x50, 0x4E, 0x47, 0x0D, 0x0A, 0x1A, 0x0A, 0, 0];
    let gif87 = *b"GIF87a\0\0";
    let gif89 = *b"GIF89a\0\0";
    let gif88 = *b"GIF88a\0\0";
    let bmp = *b"BM\0\0\0\0\0\0";
    let webp = *b"RIFF\0\0\0\0WEBPVP8 ";
    let jpeg = [0xFF, 0xD8, 0xFF, 0xE0, 0x00, 0x10, 0x4A, 0x46];
    assert!(check_image_format("png", &png).is_ok());
    assert!(check_image_format("gif", &gif87).is_ok());
    assert!(check_image_format("gif", &gif89).is_ok());
    assert!(check_image_format("bmp", &bmp).is_ok());
    assert!(check_image_format("webp", &webp).is_ok());
    assert!(check_image_format("jpg", &jpeg).is_ok());
    assert!(check_image_format("jpeg", &jpeg).is_ok());
    assert!(check_signature(ImageKind::Jpeg, &[0xFF, 0xD8, 0xFF]));
    assert!(!check_signature(ImageKind::Jpeg, &[0xFF, 0xD8]));
    assert!(!check_signature(ImageKind::Webp, b"RIFF\0\0\0\0WEB"));

    match check_image_format("gif", &gif88) {
        Err(LlmError::InvalidImage(msg)) => assert_eq!(msg, "Invalid gif file format"),
        other => panic!("unexpected: {:?}", other),
    }
    match check_image_format("png", &jpeg) {
        Err(LlmError::InvalidImage(msg)) => assert_eq!(msg, "Invalid png file format"),
        other => panic!("unexpected: {:?}", other),
    }
    match check_image_format("jpg", &[0xFF, 0xD8, 0xFF, 0xE0, 0x00, 0x10, 0x4A]) {
        Err(LlmError::InvalidImage(msg)) => assert_eq!(msg, "Image file too small"),
        other => panic!("unexpected: {:?}", other),
    }
    match check_image_format("txt", &jpeg) {
        Err(LlmError::InvalidImage(msg)) => assert_eq!(msg, "Unsupported image extension: txt"),
        other => panic!("unexpected: {:?}", other),
    }
    // the extension is judged before the length
    match check_image_format("", &[]) {
        Err(LlmError::InvalidImage(msg)) => assert_eq!(msg, "Unsupported image extension: "),
        other => panic!("unexpected: {:?}", other),
    }
    // a WebP file shorter than its signature is refused, not read past its end
    match check_image_format("webp", b"RIFF\0\0\0\0WE") {
        Err(LlmError::InvalidImage(msg)) => assert_eq!(msg, "Invalid webp file format"),
        other => panic!("unexpected: {:?}", other),
    }
}

#[test]
fn test_read_and_encode_image() {
    let jpeg = [0xFF, 0xD8, 0xFF, 0xE0, 0x00, 0x10, 0x4A, 0x46];
    assert_eq!(
        client().read_and_encode_image("a.jpg", &jpeg).unwrap(),
        "/9j/4AAQSkY="
    );
    let png = [0x89, 0x50, 0x4E, 0x47, 0x0D, 0x0A, 0x1A, 0x0A, 0];
    assert_eq!(
        client().read_and_encode_image("a.PNG", &png).unwrap(),
        "iVBORw0KGgoA"
    );
    match client().read_and_encode_image("a.txt", &jpeg) {
        Err(LlmError::InvalidImage(msg)) => assert_eq!(msg, "Unsupported image extension: txt"),
        other => panic!("unexpected: {:?}", other),
    }
}

#[test]
fn test_build_request() {
    let request = client().build_request("the prompt", "aGVsbG8=");
    assert_eq!(request.model, "llava:7b");
    assert_eq!(request.messages.len(), 1);
    assert_eq!(request.messages[0].role, "user");
    assert_eq!(request.messages[0].content, "the prompt");
    assert_eq!(request.messages[0].images, Some(vec!["aGVsbG8=".to_string()]));
    assert!(!request.stream);
    assert_eq!(request.options.num_predict, 500);
}

#[test]
fn test_retry_schedule() {
    let client = client();
    assert_eq!(client.max_retries, 3);
    let start = client.first_attempt();
    assert_eq!(start, RetryState { attempt: 0, delay_ms: 1000 });
    let second = match client.after_failure(start) {
        RetryStep::Wait { delay_ms, next } => {
            assert_eq!(delay_ms, 1000);
            next
        }
        RetryStep::GiveUp => panic!("gave up after one attempt"),
    };
    let third = match client.after_failure(second) {
        RetryStep::Wait { delay_ms, next } => {
            assert_eq!(delay_ms, 2000);
            next
        }
        RetryStep::GiveUp => panic!("gave up after two attempts"),
    };
    assert_eq!(third, RetryState { attempt: 2, delay_ms: 4000 });
    assert_eq!(client.after_failure(third), RetryStep::GiveUp);
}

#[test]
fn test_retry_delay_is_capped() {
    let patient = LlmClient {
        max_retries: 20,
        ..client()
    };
    let mut state = patient.first_attempt();
    let mut waits = Vec::new();
    while let RetryStep::Wait { delay_ms, next } = patient.after_failure(state) {
        waits.push(delay_ms);
        state = next;
    }
    assert_eq!(waits.len(), 19);
    assert_eq!(
        &waits[..7],
        &[1000, 2000, 4000, 8000, 16000, 30000, 30000]
    );
    assert!(waits.iter().all(|w| *w <= 30000));
    let none = LlmClient {
        max_retries: 0,
        ..client()
    };
    assert_eq!(none.after_failure(none.first_attempt()), RetryStep::GiveUp);
    let at_the_end = RetryState { attempt: u32::MAX, delay_ms: u64::MAX };
    assert_eq!(patient.after_failure(at_the_end), RetryStep::GiveUp);
}

#[test]
fn test_interpret_reply() {
    let client = client();
    assert_eq!(
        client.interpret_reply(200, "200 OK", "  ACCEPTED\n").unwrap(),
        "ACCEPTED"
    );
    assert_eq!(client.interpret_reply(299, "299", "x").unwrap(), "x");
    for code in [199u16, 300, 404, 500] {
        match client.interpret_reply(code, "404 Not Found", "no such model") {
            Err(LlmError::Api(msg)) => assert_eq!(msg, "HTTP 404 Not Found: no such model"),
            other => panic!("unexpected: {:?}", other),
        }
    }
}

#[test]
fn test_verdict_of_answer() {
    assert!(validate_image_content("ACCEPTED"));
    assert!(validate_image_content("accepted"));
    assert!(validate_image_content("  Accepted: three birds\n"));
    assert!(validate_image_content("ACCEPTEDLY"));
    assert!(!validate_image_content("REJECTED: no birds"));
    assert!(!validate_image_content("NOT ACCEPTED"));
    assert!(!validate_image_content("ACCEPT"));
    assert!(!validate_image_content(""));
    assert!(!validate_image_content("\"ACCEPTED\""));
}

#[test]
fn test_llm_error_messages() {
    assert_eq!(
        LlmError::Http("refused".to_string()).to_string(),
        "HTTP request error: refused"
    );
    assert_eq!(
        LlmError::Io("denied".to_string()).to_string(),
        "IO error reading image: denied"
    );
    assert_eq!(
        LlmError::Json("eof".to_string()).to_string(),
        "JSON parsing error: eof"
    );
    assert_eq!(LlmError::Api("x".to_string()).to_string(), "API error: x");
    assert_eq!(
        LlmError::InvalidImage("y".to_string()).to_string(),
        "Invalid image format: y"
    );
    assert_eq!(LlmError::Timeout.to_string(), "Timeout error");
    assert_eq!(
        LlmError::MaxRetriesExceeded.to_string(),
        "Maximum retries exceeded"
    );
}

#[test]
fn test_resolve_image_path() {
    let config = create_test_config();
    let processor = ValidationProcessor::new(&config);

    // Test absolute path
    let request: ProcessingRequest<LocationConstraint> = ProcessingRequest {
        processing_id: "test".to_string(),
        image_path: Some("/absolute/path/image.jpg".to_string()),
        image: None,
        analysis_request: AnalysisRequest {
            image_path: None,
            content: "test".to_string(),
            location: None,
            datetime: None,
        },
    };

    let resolved = processor.resolve_image_path(&request).unwrap();
    assert_eq!(resolved, "/absolute/path/image.jpg");

    // Test relative path with $image_base_dir
    let request: ProcessingRequest<LocationConstraint> = ProcessingRequest {
        processing_id: "test".to_string(),
        image_path: Some("$image_base_dir/image.jpg".to_string()),
        image: None,
        analysis_request: AnalysisRequest {
            image_path: None,
            content: "test".to_string(),
            location: None,
            datetime: None,
        },
    };

    let resolved = processor.resolve_image_path(&request).unwrap();
    assert_eq!(resolved, "/tmp/image.jpg");
}

#[test]
fn test_resolve_path_forms() {
    assert_eq!(resolve_path("/srv/images", "a/b.jpg"), "/srv/images/a/b.jpg");
    assert_eq!(resolve_path("/srv/images", "$image_base_dir/a.jpg"), "/srv/images/a.jpg");
    assert_eq!(resolve_path("/srv/images", "$image_base_dir/"), "/srv/images/");
    assert_eq!(
        resolve_path("/srv/images", "$image_base_dir"),
        "/srv/images/$image_base_dir"
    );
    assert_eq!(resolve_path("/srv/images/", "a.jpg"), "/srv/images//a.jpg");
    assert_eq!(resolve_path("/srv/images", ""), "/srv/images/");
    assert_eq!(resolve_path("", "a.jpg"), "/a.jpg");
    assert_eq!(resolve_path("/srv/images", "/"), "/");
    let processor = ValidationProcessor::new(&create_test_config());
    assert_eq!(
        processor
            .resolve_image_path(&request_for(None, Some("b.jpg")))
            .unwrap(),
        "/tmp/b.jpg"
    );
    match processor.resolve_image_path(&request_for(None, None)) {
        Err(ProcessorError::ImageNotFound(msg)) => assert_eq!(msg, "no image path provided"),
        other => panic!("unexpected: {:?}", other),
    }
}

#[test]
fn test_prepare() {
    let processor = ValidationProcessor::new(&create_test_config());
    let mut request = request_for(Some("pics/a.jpg"), None);
    request.analysis_request.location = Some(LocationConstraint {
        max_distance_meters: 300.0,
        latitude: 51.492191,
        longitude: -0.266108,
    });
    request.analysis_request.datetime = Some(DateTimeRequest {
        start: Some("2025-08-01T15:23:00+01:00".to_string()),
        end: None,
        duration: Some(10),
    });
    let (path, context) = processor.prepare(request.clone()).unwrap();
    assert_eq!(path, "/tmp/pics/a.jpg");
    assert_eq!(context.content_check, "test");
    assert_eq!(context.location_constraint, request.analysis_request.location);
    let window = context.datetime_constraint.unwrap();
    assert_eq!(window.end_time.secs - window.start_time.secs, 600);

    request.analysis_request.datetime = Some(DateTimeRequest {
        start: Some("2025-08-01T15:23:00".to_string()),
        end: None,
        duration: Some(10),
    });
    match processor.prepare(request.clone()) {
        Err(e) => assert_eq!(
            e.to_string(),
            "Validation context error: Invalid datetime format: 2025-08-01T15:23:00"
        ),
        Ok(_) => panic!("a timestamp without offset must be refused"),
    }
    // a missing image reference is found before a bad window
    request.image_path = None;
    match processor.prepare(request) {
        Err(e) => assert_eq!(e.to_string(), "Image file not found: no image path provided"),
        Ok(_) => panic!("a request without image must be refused"),
    }
}

#[test]
fn test_missing_image_result() {
    let processor = ValidationProcessor::new(&create_test_config());
    let result = processor.missing_image();
    assert_eq!(result.resolution, Resolution::Rejected);
    assert_eq!(result.reasons, Some(vec!["cannot locate image".to_string()]));
    assert_eq!(
        result.to_json().unwrap(),
        "{\"resolution\":\"rejected\",\"resons\":[\"cannot locate image\"]}"
    );
}

fn scenario_context(max_distance: f64) -> ValidationContext<LocationConstraint> {
    ValidationContext::try_from(AnalysisRequest {
        image_path: None,
        content: "Three birds on a wire".to_string(),
        location: Some(LocationConstraint {
            max_distance_meters: max_distance,
            latitude: 51.492191,
            longitude: -0.266108,
        }),
        datetime: Some(DateTimeRequest {
            start: Some("2025-08-01T15:23:00+01:00".to_string()),
            end: Some("2025-08-01T15:33:00+01:00".to_string()),
            duration: None,
        }),
    })
    .unwrap()
}

fn scenario_exif() -> ExifData {
    ExifData {
        gps_coordinates: extract_gps_coordinates(&london_fields()).unwrap(),
        timestamp: None,
        datetime_original: Some(at(3600, 15, 25, 0)),
    }
}

#[test]
fn test_accept_path() {
    let processor = ValidationProcessor::new(&create_test_config());
    let context = scenario_context(300.0);
    let content = Ok(validate_image_content("ACCEPTED: three birds sit on a wire"));
    let metadata = processor.extract_and_validate_metadata(
        &context,
        &scenario_exif(),
        Some(LocationCheck::Within),
    );
    let joined =
        processor.perform_parallel_validation(content, metadata, &context.content_check);
    let result = processor.conclude(joined);
    assert_eq!(result.resolution, Resolution::Accepted);
    assert!(result.reasons.is_none());
    assert_eq!(result.to_json().unwrap(), "{\"resolution\":\"accepted\"}");
}

#[test]
fn test_reject_location_out_of_range() {
    let processor = ValidationProcessor::new(&create_test_config());
    let context = scenario_context(50.0);
    let check = LocationCheck::TooFar {
        observed: "51.491079°N, 0.269590°W".to_string(),
        distance: "270.9m".to_string(),
        expected: "51.492191°N, 0.266108°W".to_string(),
        limit: "50.0m".to_string(),
    };
    let content = Ok(validate_image_content("ACCEPTED"));
    let metadata =
        processor.extract_and_validate_metadata(&context, &scenario_exif(), Some(check));
    let joined =
        processor.perform_parallel_validation(content, metadata, &context.content_check);
    let result = processor.conclude(joined);
    assert_eq!(result.resolution, Resolution::Rejected);
    assert_eq!(
        result.reasons,
        Some(vec![
            "image location 51.491079°N, 0.269590°W is 270.9m from expected location 51.492191°N, 0.266108°W, exceeding 50.0m limit".to_string()
        ])
    );
}

#[test]
fn test_reasons_come_in_order() {
    let processor = ValidationProcessor::new(&create_test_config());
    let context = scenario_context(50.0);
    let exif = ExifData {
        gps_coordinates: extract_gps_coordinates(&london_fields()).unwrap(),
        timestamp: Some(at(3600, 15, 25, 0)),
        datetime_original: Some(at(3600, 15, 40, 30)),
    };
    let metadata = processor.extract_and_validate_metadata(
        &context,
        &exif,
        Some(LocationCheck::Invalid(
            "Invalid latitude: 91 (must be between -90 and 90)".to_string(),
        )),
    );
    let joined = processor.perform_parallel_validation(
        Ok(validate_image_content("REJECTED: no birds")),
        metadata,
        &context.content_check,
    );
    let (content_ok, location_ok, time_ok, reasons) = joined.unwrap();
    assert!(!content_ok && !location_ok && !time_ok);
    assert_eq!(
        reasons,
        vec![
            "image content does not match description: 'Three birds on a wire'".to_string(),
            "location validation error: Invalid latitude: 91 (must be between -90 and 90)"
                .to_string(),
            "image timestamp 2025-08-01 15:40:30 +0100 is 7 minutes after allowed end time, outside allowed time range 2025-08-01 15:23:00 +0100 to 2025-08-01 15:33:00 +0100".to_string(),
        ]
    );
}

#[test]
fn test_evaluate_location_cases() {
    assert_eq!(evaluate_location(false, false, None).unwrap(), (true, None));
    assert_eq!(evaluate_location(false, true, None).unwrap(), (true, None));
    // without a constraint the comparison is not read
    assert_eq!(
        evaluate_location(false, true, Some(LocationCheck::Invalid("x".to_string()))).unwrap(),
        (true, None)
    );
    assert_eq!(
        evaluate_location(true, false, Some(LocationCheck::Within)).unwrap(),
        (
            false,
            Some("image does not contain GPS coordinates".to_string())
        )
    );
    assert_eq!(
        evaluate_location(true, true, Some(LocationCheck::Within)).unwrap(),
        (true, None)
    );
    match evaluate_location(true, true, None) {
        Err(e) => assert_eq!(e.to_string(), "Internal error: location check is missing"),
        Ok(found) => panic!("unexpected: {:?}", found),
    }
}

#[test]
fn test_evaluate_datetime_cases() {
    let window = Some(DateTimeConstraint {
        start_time: at(3600, 15, 23, 0),
        end_time: at(3600, 15, 33, 0),
    });
    let exif = |original: Option<Timestamp>, generic: Option<Timestamp>| ExifData {
        gps_coordinates: None,
        timestamp: generic,
        datetime_original: original,
    };
    assert_eq!(
        evaluate_datetime(&None, &exif(None, None)).unwrap(),
        (true, None)
    );
    assert_eq!(
        evaluate_datetime(&window, &exif(None, None)).unwrap(),
        (
            false,
            Some("image does not contain timestamp information".to_string())
        )
    );
    // the original capture time is preferred to the generic one
    assert_eq!(
        evaluate_datetime(
            &window,
            &exif(Some(at(0, 14, 25, 0)), Some(at(0, 18, 0, 0)))
        )
        .unwrap(),
        (true, None)
    );
    assert_eq!(
        evaluate_datetime(&window, &exif(None, Some(at(0, 14, 25, 0)))).unwrap(),
        (true, None)
    );
    assert_eq!(
        evaluate_datetime(&window, &exif(Some(at(0, 14, 19, 30)), Some(at(0, 14, 25, 0)))).unwrap(),
        (
            false,
            Some("image timestamp 2025-08-01 14:19:30 +0000 is 3 minutes before allowed start time, outside allowed time range 2025-08-01 15:23:00 +0100 to 2025-08-01 15:33:00 +0100".to_string())
        )
    );
    assert_eq!(
        evaluate_datetime(&window, &exif(None, Some(at(0, 14, 33, 59)))).unwrap(),
        (
            false,
            Some("image timestamp 2025-08-01 14:33:59 +0000 is 0 minutes after allowed end time, outside allowed time range 2025-08-01 15:23:00 +0100 to 2025-08-01 15:33:00 +0100".to_string())
        )
    );
    // a time that the calendar cannot show is an error, not a made-up text
    let beyond = Timestamp { secs: i64::MAX, nanos: 0, offset: 0 };
    match evaluate_datetime(&window, &exif(Some(beyond), None)) {
        Err(e) => assert_eq!(e.to_string(), "Internal error: timestamp cannot be shown"),
        Ok(found) => panic!("unexpected: {:?}", found),
    }
}

#[test]
fn test_check_errors_become_rejections() {
    let processor = ValidationProcessor::new(&create_test_config());
    let joined = processor.perform_parallel_validation(
        Err(ProcessorError::Llm(LlmError::MaxRetriesExceeded)),
        Err(ProcessorError::Exif(ExifError::Parsing("no EXIF".to_string()))),
        "a cat",
    );
    let result = processor.conclude(joined);
    assert_eq!(result.resolution, Resolution::Rejected);
    assert_eq!(
        result.reasons,
        Some(vec![
            "validation error: LLM processing error: Maximum retries exceeded".to_string()
        ])
    );
    let joined = processor.perform_parallel_validation(
        Ok(true),
        Err(ProcessorError::Exif(ExifError::Io("No such file".to_string()))),
        "a cat",
    );
    let result = processor.conclude(joined);
    assert_eq!(
        result.reasons,
        Some(vec![
            "validation error: EXIF processing error: IO error: No such file".to_string()
        ])
    );
    let result = processor.conclude(Ok((true, true, false, vec!["late".to_string()])));
    assert_eq!(result.resolution, Resolution::Rejected);
    assert_eq!(result.reasons, Some(vec!["late".to_string()]));
}

#[test]
fn test_processor_error_messages() {
    assert_eq!(
        ProcessorError::ImageNotFound("a".to_string()).to_string(),
        "Image file not found: a"
    );
    assert_eq!(
        ProcessorError::Config("b".to_string()).to_string(),
        "Configuration error: b"
    );
    assert_eq!(
        ProcessorError::ValidationContext("c".to_string()).to_string(),
        "Validation context error: c"
    );
    assert_eq!(
        ProcessorError::Internal("d".to_string()).to_string(),
        "Internal error: d"
    );
    assert_eq!(
        ProcessorError::Exif(ExifError::MissingGpsData).to_string(),
        "EXIF processing error: Missing GPS data in EXIF"
    );
    assert_eq!(
        ProcessorError::Llm(LlmError::Timeout).to_string(),
        "LLM processing error: Timeout error"
    );
}

#[test]
fn test_exif_position() {
    let position = extract_gps_coordinates(&london_fields()).unwrap().unwrap();
    assert_eq!(position.latitude.degrees, Rational { num: 51, denom: 1 });
    assert_eq!(position.latitude.minutes, Rational { num: 29, denom: 1 });
    assert_eq!(position.latitude.seconds, Rational { num: 3188, denom: 100 });
    assert!(!position.latitude.negative);
    assert_eq!(position.longitude.seconds, Rational { num: 5798, denom: 100 });
    assert!(position.longitude.negative);

    let mut south = london_fields();
    south.gps_latitude_ref = Some(ascii("S"));
    south.gps_longitude_ref = Some(ascii("E"));
    let position = extract_gps_coordinates(&south).unwrap().unwrap();
    assert!(position.latitude.negative);
    assert!(!position.longitude.negative);

    // the letters are told apart by hemisphere: W makes no latitude negative
    let mut odd = london_fields();
    odd.gps_latitude_ref = Some(ascii("W"));
    odd.gps_longitude_ref = Some(ascii("S"));
    let position = extract_gps_coordinates(&odd).unwrap().unwrap();
    assert!(!position.latitude.negative);
    assert!(!position.longitude.negative);
}

#[test]
fn test_exif_position_needs_all_four_fields() {
    assert!(extract_gps_coordinates(&no_fields()).unwrap().is_none());
    for missing in 0..4 {
        let mut fields = london_fields();
        match missing {
            0 => fields.gps_latitude = None,
            1 => fields.gps_latitude_ref = None,
            2 => fields.gps_longitude = None,
            _ => fields.gps_longitude_ref = None,
        }
        // and what is there is not even looked at
        fields.gps_latitude = fields.gps_latitude.map(|_| ExifValue::Other);
        assert!(extract_gps_coordinates(&fields).unwrap().is_none());
    }
}

#[test]
fn test_exif_position_errors() {
    match extract_gps_dms(&ExifValue::Rational(vec![Rational { num: 1, denom: 1 }; 2])) {
        Err(e) => assert_eq!(
            e.to_string(),
            "Invalid GPS coordinate format: Expected 3 rational values for DMS, got 2"
        ),
        Ok(found) => panic!("unexpected: {:?}", found),
    }
    match extract_gps_dms(&ExifValue::Rational(vec![])) {
        Err(ExifError::InvalidGpsFormat(msg)) => {
            assert_eq!(msg, "Expected 3 rational values for DMS, got 0")
        }
        other => panic!("unexpected: {:?}", other),
    }
    match extract_gps_dms(&ascii("51")) {
        Err(ExifError::InvalidGpsFormat(msg)) => {
            assert_eq!(msg, "GPS coordinates must be stored as rational values")
        }
        other => panic!("unexpected: {:?}", other),
    }
    match extract_gps_ref(&ExifValue::Ascii(vec![])) {
        Err(ExifError::InvalidGpsFormat(msg)) => assert_eq!(msg, "Empty GPS reference"),
        other => panic!("unexpected: {:?}", other),
    }
    match extract_gps_ref(&ExifValue::Other) {
        Err(ExifError::InvalidGpsFormat(msg)) => {
            assert_eq!(msg, "GPS reference must be ASCII value")
        }
        other => panic!("unexpected: {:?}", other),
    }
    assert_eq!(extract_gps_ref(&ascii("N\0\0")).unwrap(), "N");
    assert_eq!(
        extract_gps_ref(&ExifValue::Ascii(vec![b"W".to_vec(), b"E".to_vec()])).unwrap(),
        "W"
    );
    assert_eq!(
        extract_gps_ref(&ExifValue::Ascii(vec![vec![0xFF, b'N']])).unwrap(),
        "\u{FFFD}N"
    );
    // the latitude is read before the longitude, the value before the letter
    let mut fields = london_fields();
    fields.gps_latitude_ref = Some(ExifValue::Other);
    fields.gps_longitude = Some(ExifValue::Other);
    match extract_gps_coordinates(&fields) {
        Err(ExifError::InvalidGpsFormat(msg)) => {
            assert_eq!(msg, "GPS reference must be ASCII value")
        }
        other => panic!("unexpected: {:?}", other),
    }
}

#[test]
fn test_exif_timestamps() {
    assert!(extract_datetime(&None).unwrap().is_none());
    assert!(extract_datetime(&Some(ExifValue::Ascii(vec![]))).unwrap().is_none());
    let time = extract_datetime(&Some(ascii("2025:08:01 14:25:00\0")))
        .unwrap()
        .unwrap();
    assert_eq!(time.secs, 1754058300);
    assert_eq!(time.nanos, 0);
    assert_eq!(time.offset, 0);
    assert_eq!(
        time.format("%Y-%m-%d %H:%M:%S %z").unwrap(),
        "2025-08-01 14:25:00 +0000"
    );
    match extract_datetime(&Some(ascii("2025-08-01 14:25:00"))) {
        Err(ExifError::InvalidTimestamp(text)) => assert_eq!(text, "2025-08-01 14:25:00"),
        other => panic!("unexpected: {:?}", other),
    }
    match extract_datetime(&Some(ascii(""))) {
        Err(e) => assert_eq!(e.to_string(), "Invalid timestamp format: "),
        Ok(found) => panic!("unexpected: {:?}", found),
    }
    match extract_datetime(&Some(ExifValue::Rational(vec![]))) {
        Err(ExifError::InvalidTimestamp(text)) => {
            assert_eq!(text, "DateTime must be stored as ASCII value")
        }
        other => panic!("unexpected: {:?}", other),
    }
}

#[test]
fn test_exif_metadata() {
    let data = extract_exif_metadata(&london_fields()).unwrap();
    assert!(data.gps_coordinates.is_some());
    assert_eq!(data.timestamp.unwrap().secs, 1754058600);
    assert_eq!(data.datetime_original.unwrap().secs, 1754058300);
    let empty = extract_exif_metadata(&no_fields()).unwrap();
    assert!(empty.gps_coordinates.is_none());
    assert!(empty.timestamp.is_none());
    assert!(empty.datetime_original.is_none());
    // the position is read first, then DateTime, then DateTimeOriginal
    let mut fields = london_fields();
    fields.date_time = Some(ascii("soon"));
    fields.date_time_original = Some(ascii("later"));
    match extract_exif_metadata(&fields) {
        Err(ExifError::InvalidTimestamp(text)) => assert_eq!(text, "soon"),
        other => panic!("unexpected: {:?}", other),
    }
    fields.gps_longitude = Some(ExifValue::Other);
    assert!(matches!(
        extract_exif_metadata(&fields),
        Err(ExifError::InvalidGpsFormat(_))
    ));
}

#[test]
fn test_exif_error_messages() {
    assert_eq!(ExifError::Io("a".to_string()).to_string(), "IO error: a");
    assert_eq!(
        ExifError::Parsing("b".to_string()).to_string(),
        "EXIF parsing error: b"
    );
    assert_eq!(
        ExifError::MissingTimestamp.to_string(),
        "Missing timestamp data in EXIF"
    );
    assert_eq!(
        ExifError::InvalidTimestamp("c".to_string()).to_string(),
        "Invalid timestamp format: c"
    );
}

#[test]
fn test_check_errors_become_processor_errors() {
    let error = ProcessorError::from(ExifError::MissingGpsData);
    assert!(matches!(error, ProcessorError::Exif(ExifError::MissingGpsData)));
    let error: ProcessorError = LlmError::Api("HTTP 500: down".to_string()).into();
    assert_eq!(
        error.to_string(),
        "LLM processing error: API error: HTTP 500: down"
    );
}
