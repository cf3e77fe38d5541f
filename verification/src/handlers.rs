//! What each request to the service is answered with: the status code and
//! the body, decided from the request and the state of the pipeline.

use crate::models::{
    image_reference, ProcessingRequest, ProcessingStatus, StatusResponse, ValidationRequest,
    ValidationResponse,
};
use crate::queue::{ProcessingQueue, QueueError, QueueStats, QueueView};
use vstd::prelude::*;

verus! {

/// The envelope of an answer that carries no payload of its own kind.
#[derive(Debug)]
pub struct ApiResponse<T> {
    pub success: bool,
    pub data: Option<T>,
    pub error: Option<String>,
}

impl<T> ApiResponse<T> {
    /// An answer that carries `data`.
    pub fn success(data: T) -> (res: Self)
        ensures
            res.success,
            res.data == Some(data),
            res.error is None,
    {
        ApiResponse { success: true, data: Some(data), error: None }
    }

    /// An answer that carries the message of an error.
    pub fn error(message: String) -> (res: Self)
        ensures
            !res.success,
            res.data is None,
            res.error == Some(message),
    {
        ApiResponse { success: false, data: None, error: Some(message) }
    }
}

/// The answer to an admitted submission.
#[derive(Debug)]
pub struct SubmitResponse {
    pub processing_id: String,
    pub status: String,
}

/// The answer to a health check.
#[derive(Debug)]
pub struct HealthResponse {
    pub status: String,
    pub version: String,
    pub queue_stats: QueueStats,
}

/// The answer to a request that no route serves.
#[derive(Debug)]
pub struct ErrorResponse {
    pub error: String,
    pub details: Option<String>,
}

/// Whether `res` is a refusal with the given status code and message.
pub open spec fn refused_with<T>(
    res: Result<T, (u16, ApiResponse<()>)>,
    code: u16,
    message: Seq<char>,
) -> bool {
    &&& res is Err
    &&& res->Err_0.0 == code
    &&& !res->Err_0.1.success
    &&& res->Err_0.1.data is None
    &&& res->Err_0.1.error is Some
    &&& res->Err_0.1.error->0@ == message
}

/// The request under the id that the service assigned to it.
pub open spec fn tracked_request<L>(
    request: ValidationRequest<L>,
    processing_id: String,
) -> ProcessingRequest<L> {
    ProcessingRequest {
        processing_id,
        image_path: request.image_path,
        image: request.image,
        analysis_request: request.analysis_request,
    }
}

/// The status code that answers a submission: 400 without a content
/// description or without an image reference; else 202 where the pipeline
/// admits it, 429 where the queue is full, 503 after shutdown, and 500 for
/// any other refusal.
pub open spec fn submit_code<L>(
    q: QueueView<L>,
    request: ValidationRequest<L>,
    id: Seq<char>,
) -> u16 {
    if request.analysis_request.content@.len() == 0 {
        400
    } else if image_reference(request.image_path, request.image) is None {
        400
    } else {
        match q.refusal(id) {
            None => 202,
            Some(QueueError::QueueFull) => 429,
            Some(QueueError::QueueClosed) => 503,
            Some(_) => 500,
        }
    }
}

/// The message that goes with a refusal of a submission.
pub open spec fn submit_refusal_message<L>(
    q: QueueView<L>,
    request: ValidationRequest<L>,
    id: Seq<char>,
) -> Seq<char> {
    if request.analysis_request.content@.len() == 0 {
        "content description is required"@
    } else if image_reference(request.image_path, request.image) is None {
        "image path is required"@
    } else {
        match q.refusal(id) {
            Some(QueueError::QueueFull) => "queue is full, please retry later"@,
            Some(QueueError::QueueClosed) => "service is shutting down"@,
            _ => "internal server error"@,
        }
    }
}

/// Answers a submission, made at `now`, that the service has given the id
/// `processing_id`. The shape of the request is checked first; a request
/// in good shape goes to the pipeline, and nothing is ever processed here.
pub fn submit_validation<L>(
    queue: &mut ProcessingQueue<L>,
    request: ValidationRequest<L>,
    processing_id: String,
    now: u64,
) -> (res: Result<(u16, SubmitResponse), (u16, ApiResponse<()>)>)
    requires
        old(queue).wf(),
    ensures
        final(queue).wf(),
        match res {
            Ok((code, body)) => {
                &&& submit_code(old(queue)@, request, processing_id@) == 202
                &&& code == 202
                &&& body.processing_id@ == processing_id@
                &&& body.status@ == "accepted"@
                &&& final(queue)@ == old(queue)@.submitted(
                    tracked_request(request, processing_id),
                    now,
                )
            },
            Err(_) => {
                &&& submit_code(old(queue)@, request, processing_id@) != 202
                &&& refused_with(
                    res,
                    submit_code(old(queue)@, request, processing_id@),
                    submit_refusal_message(old(queue)@, request, processing_id@),
                )
                &&& final(queue)@ == old(queue)@
            },
        },
{
    if request.analysis_request.content.as_str().unicode_len() == 0 {
        return Err((400, ApiResponse::error("content description is required".to_owned())));
    }
    if request.get_image_path().is_none() {
        return Err((400, ApiResponse::error("image path is required".to_owned())));
    }
    let answer_id = processing_id.clone();
    let processing_request = ProcessingRequest::from_request(request, processing_id);
    match queue.submit_validation(processing_request, now) {
        Ok(_) => Ok(
            (202, SubmitResponse { processing_id: answer_id, status: "accepted".to_owned() }),
        ),
        Err(QueueError::QueueFull) => Err(
            (429, ApiResponse::error("queue is full, please retry later".to_owned())),
        ),
        Err(QueueError::QueueClosed) => Err(
            (503, ApiResponse::error("service is shutting down".to_owned())),
        ),
        Err(_) => Err((500, ApiResponse::error("internal server error".to_owned()))),
    }
}

/// Answers a query for the status of a job: the status under 200, or 404
/// for an id that is not tracked.
pub fn check_status<L>(queue: &ProcessingQueue<L>, processing_id: String) -> (res: Result<
    StatusResponse,
    (u16, ApiResponse<()>),
>)
    requires
        queue.wf(),
    ensures
        match res {
            Ok(body) => {
                &&& queue@.status_of(processing_id@) != ProcessingStatus::NotFound
                &&& body.processing_id == processing_id
                &&& body.status == queue@.status_of(processing_id@)
            },
            Err(_) => {
                &&& queue@.status_of(processing_id@) == ProcessingStatus::NotFound
                &&& refused_with(res, 404, "processing ID not found"@)
            },
        },
{
    let status = queue.get_status(processing_id.as_str());
    match status {
        ProcessingStatus::NotFound => Err(
            (404, ApiResponse::error("processing ID not found".to_owned())),
        ),
        _ => Ok(StatusResponse { processing_id, status }),
    }
}

/// The status code that answers a query for the result of a job in the
/// given status.
pub open spec fn results_code(status: ProcessingStatus) -> u16 {
    match status {
        ProcessingStatus::NotFound => 404,
        ProcessingStatus::Accepted => 202,
        ProcessingStatus::InProgress => 202,
        ProcessingStatus::Failed => 500,
        ProcessingStatus::Completed => 200,
    }
}

/// The message that goes with a query for a result that cannot be served.
pub open spec fn results_message(status: ProcessingStatus) -> Seq<char> {
    match status {
        ProcessingStatus::NotFound => "processing ID not found"@,
        ProcessingStatus::Accepted => "processing not complete"@,
        ProcessingStatus::InProgress => "processing not complete"@,
        ProcessingStatus::Failed => "processing failed"@,
        ProcessingStatus::Completed => "results not available"@,
    }
}

/// Answers a query for the result of a job: the stored result for a
/// completed job; else 404 for an unknown id, 202 while the job waits or
/// runs, 500 for a failed job.
pub fn get_results<L>(queue: &ProcessingQueue<L>, processing_id: String) -> (res: Result<
    ValidationResponse,
    (u16, ApiResponse<()>),
>)
    requires
        queue.wf(),
    ensures
        match res {
            Ok(body) => {
                &&& queue@.status_of(processing_id@) == ProcessingStatus::Completed
                &&& Some(body@) == queue@.result_of(processing_id@)
            },
            Err(_) => {
                &&& queue@.status_of(processing_id@) != ProcessingStatus::Completed
                &&& refused_with(
                    res,
                    results_code(queue@.status_of(processing_id@)),
                    results_message(queue@.status_of(processing_id@)),
                )
            },
        },
{
    let status = queue.get_status(processing_id.as_str());
    match status {
        ProcessingStatus::NotFound => Err(
            (404, ApiResponse::error("processing ID not found".to_owned())),
        ),
        ProcessingStatus::Accepted | ProcessingStatus::InProgress => Err(
            (202, ApiResponse::error("processing not complete".to_owned())),
        ),
        ProcessingStatus::Failed => Err((500, ApiResponse::error("processing failed".to_owned()))),
        ProcessingStatus::Completed => match queue.get_result(processing_id.as_str()) {
            Some(result) => Ok(result),
            None => Err((500, ApiResponse::error("results not available".to_owned()))),
        },
    }
}

/// Answers a health check: healthy, the version, and the counts of the
/// pipeline.
pub fn health_check<L>(queue: &ProcessingQueue<L>, version: &str) -> (res: HealthResponse)
    requires
        queue.wf(),
    ensures
        res.status@ == "healthy"@,
        res.version@ == version@,
        queue@.is_counted_by(res.queue_stats),
{
    HealthResponse {
        status: "healthy".to_owned(),
        version: version.to_owned(),
        queue_stats: queue.get_queue_stats(),
    }
}

/// Answers a query for the counts of the pipeline.
pub fn queue_stats<L>(queue: &ProcessingQueue<L>) -> (stats: QueueStats)
    requires
        queue.wf(),
    ensures
        queue@.is_counted_by(stats),
        stats.total == stats.accepted + stats.in_progress + stats.completed + stats.failed,
{
    queue.get_queue_stats()
}

/// Answers a request that no route serves.
pub fn handle_404() -> (res: (u16, ErrorResponse))
    ensures
        res.0 == 404,
        res.1.error@ == "endpoint not found"@,
        res.1.details is Some,
        res.1.details->0@ == "check the API documentation for available endpoints"@,
{
    (
        404,
        ErrorResponse {
            error: "endpoint not found".to_owned(),
            details: Some("check the API documentation for available endpoints".to_owned()),
        },
    )
}

} // verus!
