//! The shapes of requests and results, and the normalisation of a request's
//! constraints into canonical form.

use crate::text::{
    ends_with, has_suffix, join, slice, strip_trailing, text_of, without_trailing,
};
use crate::time::{
    read_rfc3339, rfc3339_reading, shift_minutes, shifted_by_minutes, Timestamp,
};
use vstd::prelude::*;

verus! {

/// The overall verdict on an image.
#[derive(Clone, Copy, Debug, PartialEq, Eq, Structural)]
pub enum Resolution {
    Accepted,
    Rejected,
}

/// Where a job stands. `NotFound` is what a lookup of an unknown id gives;
/// no record ever holds it.
#[derive(Clone, Copy, Debug, PartialEq, Eq, Structural)]
pub enum ProcessingStatus {
    Accepted,
    InProgress,
    Completed,
    Failed,
    NotFound,
}

impl Resolution {
    /// The name of the verdict on the wire.
    pub open spec fn wire_name(self) -> Seq<char> {
        match self {
            Resolution::Accepted => "accepted"@,
            Resolution::Rejected => "rejected"@,
        }
    }

    /// The name of the verdict on the wire, in lower case.
    pub fn as_str(&self) -> (name: &'static str)
        ensures
            name@ == self.wire_name(),
    {
        match self {
            Resolution::Accepted => "accepted",
            Resolution::Rejected => "rejected",
        }
    }
}

impl ProcessingStatus {
    /// The name of the status on the wire.
    pub open spec fn wire_name(self) -> Seq<char> {
        match self {
            ProcessingStatus::Accepted => "accepted"@,
            ProcessingStatus::InProgress => "in_progress"@,
            ProcessingStatus::Completed => "completed"@,
            ProcessingStatus::Failed => "failed"@,
            ProcessingStatus::NotFound => "not_found"@,
        }
    }

    /// The name of the status on the wire, in lower case.
    pub fn as_str(&self) -> (name: &'static str)
        ensures
            name@ == self.wire_name(),
    {
        match self {
            ProcessingStatus::Accepted => "accepted",
            ProcessingStatus::InProgress => "in_progress",
            ProcessingStatus::Completed => "completed",
            ProcessingStatus::Failed => "failed",
            ProcessingStatus::NotFound => "not_found",
        }
    }

    /// Whether no further transition leaves this status.
    pub open spec fn is_terminal(self) -> bool {
        self == ProcessingStatus::Completed || self == ProcessingStatus::Failed
    }
}

/// The characters of each string of a list.
pub open spec fn texts(list: Seq<String>) -> Seq<Seq<char>> {
    list.map_values(|s: String| s@)
}

/// The characters of each string of an optional list.
pub open spec fn texts_of(list: Option<Vec<String>>) -> Option<Seq<Seq<char>>> {
    match list {
        Some(list) => Some(texts(list@)),
        None => None,
    }
}

/// Copies a list of strings.
pub fn copy_texts(list: &Vec<String>) -> (res: Vec<String>)
    ensures
        texts(res@) == texts(list@),
{
    let mut out: Vec<String> = Vec::new();
    let mut i: usize = 0;
    while i < list.len()
        invariant
            i <= list.len(),
            out@.len() == i,
            forall|k: int| 0 <= k < i ==> out@[k]@ == list@[k]@,
        decreases list.len() - i,
    {
        out.push(list[i].clone());
        i += 1;
    }
    proof {
        assert(texts(out@) =~= texts(list@));
    }
    out
}

/// The outcome of validating one image: the verdict and, for a rejection,
/// why.
#[derive(Debug)]
pub struct ValidationResults {
    pub resolution: Resolution,
    pub reasons: Option<Vec<String>>,
}

/// A `ValidationResults` as mathematical data.
pub struct ValidationResultsView {
    pub resolution: Resolution,
    pub reasons: Option<Seq<Seq<char>>>,
}

impl View for ValidationResults {
    type V = ValidationResultsView;

    open spec fn view(&self) -> ValidationResultsView {
        ValidationResultsView { resolution: self.resolution, reasons: texts_of(self.reasons) }
    }
}

impl ValidationResultsView {
    /// An acceptance carries no reasons; a rejection carries at least one.
    pub open spec fn is_consistent(self) -> bool {
        match self.resolution {
            Resolution::Accepted => self.reasons is None,
            Resolution::Rejected => self.reasons is Some && self.reasons->0.len() > 0,
        }
    }
}

impl Clone for ValidationResults {
    fn clone(&self) -> (res: Self)
        ensures
            res@ == self@,
    {
        let reasons = match &self.reasons {
            Some(list) => Some(copy_texts(list)),
            None => None,
        };
        ValidationResults { resolution: self.resolution, reasons }
    }
}

impl ValidationResults {
    /// The result of a validation in which every check passed.
    pub fn accepted() -> (res: Self)
        ensures
            res@ == (ValidationResultsView { resolution: Resolution::Accepted, reasons: None }),
            res@.is_consistent(),
    {
        ValidationResults { resolution: Resolution::Accepted, reasons: None }
    }

    /// The result of a validation that failed for the given reasons.
    pub fn rejected(reasons: Vec<String>) -> (res: Self)
        ensures
            res@ == (ValidationResultsView {
                resolution: Resolution::Rejected,
                reasons: Some(texts(reasons@)),
            }),
            reasons@.len() > 0 ==> res@.is_consistent(),
    {
        ValidationResults { resolution: Resolution::Rejected, reasons: Some(reasons) }
    }
}

/// The result of a job as it is served: the job's id and the outcome.
#[derive(Debug)]
pub struct ValidationResponse {
    pub processing_id: String,
    pub results: ValidationResults,
}

/// A `ValidationResponse` as mathematical data.
pub struct ValidationResponseView {
    pub processing_id: Seq<char>,
    pub results: ValidationResultsView,
}

impl View for ValidationResponse {
    type V = ValidationResponseView;

    open spec fn view(&self) -> ValidationResponseView {
        ValidationResponseView { processing_id: self.processing_id@, results: self.results@ }
    }
}

impl Clone for ValidationResponse {
    fn clone(&self) -> (res: Self)
        ensures
            res@ == self@,
    {
        ValidationResponse {
            processing_id: self.processing_id.clone(),
            results: self.results.clone(),
        }
    }
}

/// The status of a job as it is served.
#[derive(Debug)]
pub struct StatusResponse {
    pub processing_id: String,
    pub status: ProcessingStatus,
}

/// What to validate an image against. `L` is the form in which the caller
/// holds a location constraint; it is carried through untouched.
#[derive(Clone, Debug)]
pub struct AnalysisRequest<L> {
    pub image_path: Option<String>,
    pub content: String,
    pub location: Option<L>,
    pub datetime: Option<DateTimeRequest>,
}

/// A submission as the client sent it.
#[derive(Clone, Debug)]
pub struct ValidationRequest<L> {
    pub processing_id: String,
    pub image_path: Option<String>,
    pub image: Option<String>,
    pub analysis_request: AnalysisRequest<L>,
}

/// A submission with the id under which the service tracks it.
#[derive(Clone, Debug)]
pub struct ProcessingRequest<L> {
    pub processing_id: String,
    pub image_path: Option<String>,
    pub image: Option<String>,
    pub analysis_request: AnalysisRequest<L>,
}

/// The image reference of a submission: `image_path` where it is given,
/// else `image`.
pub open spec fn image_reference(image_path: Option<String>, image: Option<String>) -> Option<
    Seq<char>,
> {
    match image_path {
        Some(path) => Some(path@),
        None => text_of(image),
    }
}

fn pick_image_path(image_path: &Option<String>, image: &Option<String>) -> (res: Option<String>)
    ensures
        text_of(res) == image_reference(*image_path, *image),
{
    match image_path {
        Some(path) => Some(path.clone()),
        None => match image {
            Some(name) => Some(name.clone()),
            None => None,
        },
    }
}

impl<L> ValidationRequest<L> {
    /// The image reference: `image_path` where it is given, else `image`.
    pub fn get_image_path(&self) -> (res: Option<String>)
        ensures
            text_of(res) == image_reference(self.image_path, self.image),
    {
        pick_image_path(&self.image_path, &self.image)
    }
}

impl<L> ProcessingRequest<L> {
    /// Puts a submission under the id that the service assigned to it.
    pub fn from_request(request: ValidationRequest<L>, processing_id: String) -> (res: Self)
        ensures
            res.processing_id == processing_id,
            res.image_path == request.image_path,
            res.image == request.image,
            res.analysis_request == request.analysis_request,
    {
        ProcessingRequest {
            processing_id,
            image_path: request.image_path,
            image: request.image,
            analysis_request: request.analysis_request,
        }
    }

    /// The image reference: `image_path` where it is given, else `image`.
    pub fn get_image_path(&self) -> (res: Option<String>)
        ensures
            text_of(res) == image_reference(self.image_path, self.image),
    {
        pick_image_path(&self.image_path, &self.image)
    }
}

/// The time window of a request as the client wrote it: two of the three
/// fields, the duration in minutes.
#[derive(Clone, Debug)]
pub struct DateTimeRequest {
    pub start: Option<String>,
    pub end: Option<String>,
    pub duration: Option<u64>,
}

/// A closed interval of absolute time.
#[derive(Clone, Copy, Debug)]
pub struct DateTimeConstraint {
    pub start_time: Timestamp,
    pub end_time: Timestamp,
}

/// The message for a timestamp text that cannot be read.
pub open spec fn invalid_datetime_message(text: Seq<char>) -> Seq<char> {
    "Invalid datetime format: "@ + text
}

/// A text ending in the legacy suffix `Z+1`, rewritten with the offset
/// `+01:00` in place of the suffix and of every `Z` before it.
pub open spec fn legacy_rewrite(text: Seq<char>) -> Seq<char> {
    without_trailing(text.subrange(0, text.len() - 3), 'Z') + "+01:00"@
}

/// What a timestamp text of a request denotes: its RFC 3339 reading, or
/// else, for the legacy suffix, the RFC 3339 reading of the rewritten text.
pub open spec fn datetime_reading(text: Seq<char>) -> Option<Timestamp> {
    match rfc3339_reading(text) {
        Some(t) => Some(t),
        None => if has_suffix(text, "Z+1"@) {
            rfc3339_reading(legacy_rewrite(text))
        } else {
            None
        },
    }
}

/// Reads a timestamp text of a request.
pub fn parse_datetime(text: &str) -> (res: Result<Timestamp, String>)
    ensures
        match res {
            Ok(t) => datetime_reading(text@) == Some(t),
            Err(e) => datetime_reading(text@) is None && e@ == invalid_datetime_message(text@),
        },
{
    match read_rfc3339(text) {
        Some(t) => Ok(t),
        None => {
            proof {
                reveal_strlit("Z+1");
            }
            let legacy = if ends_with(text, "Z+1") {
                let n = text.unicode_len();
                let base = slice(text, 0, n - 3);
                let stem = strip_trailing(base.as_str(), 'Z');
                let rewritten = join(stem.as_str(), "+01:00");
                read_rfc3339(rewritten.as_str())
            } else {
                None
            };
            match legacy {
                Some(t) => Ok(t),
                None => Err(join("Invalid datetime format: ", text)),
            }
        },
    }
}

/// The end of a window that starts at `start` and lasts `minutes`, where the
/// calendar can hold it.
pub open spec fn window_end(start: Timestamp, minutes: u64) -> Option<Timestamp> {
    if minutes <= i64::MAX {
        shifted_by_minutes(start, minutes as int)
    } else {
        None
    }
}

/// The start of a window that ends at `end` and lasts `minutes`, where the
/// calendar can hold it.
pub open spec fn window_start(end: Timestamp, minutes: u64) -> Option<Timestamp> {
    if minutes <= i64::MAX {
        shifted_by_minutes(end, -(minutes as int))
    } else {
        None
    }
}

/// The canonical interval of a time window given by two of start, end and
/// duration, or the message of the validation error.
pub open spec fn window_reading(
    start: Option<Seq<char>>,
    end: Option<Seq<char>>,
    duration: Option<u64>,
) -> Result<(Timestamp, Timestamp), Seq<char>> {
    match (start, end, duration) {
        (Some(s), Some(e), None) => match datetime_reading(s) {
            None => Err(invalid_datetime_message(s)),
            Some(from) => match datetime_reading(e) {
                None => Err(invalid_datetime_message(e)),
                Some(to) => if to.not_after(from) {
                    Err("End time must be after start time"@)
                } else {
                    Ok((from, to))
                },
            },
        },
        (Some(s), None, Some(minutes)) => match datetime_reading(s) {
            None => Err(invalid_datetime_message(s)),
            Some(from) => match window_end(from, minutes) {
                None => Err("Time window is out of range"@),
                Some(to) => Ok((from, to)),
            },
        },
        (None, Some(e), Some(minutes)) => match datetime_reading(e) {
            None => Err(invalid_datetime_message(e)),
            Some(to) => match window_start(to, minutes) {
                None => Err("Time window is out of range"@),
                Some(from) => Ok((from, to)),
            },
        },
        _ => Err("Exactly two out of three fields (start, end, duration) must be provided"@),
    }
}

impl DateTimeRequest {
    /// The canonical interval this request denotes, or the error message.
    pub open spec fn reading(self) -> Result<(Timestamp, Timestamp), Seq<char>> {
        window_reading(text_of(self.start), text_of(self.end), self.duration)
    }
}

impl DateTimeConstraint {
    /// The interval from `start_time` to `end_time`, which must end after it
    /// starts.
    pub fn new(start_time: Timestamp, end_time: Timestamp) -> (res: Result<Self, String>)
        ensures
            match res {
                Ok(window) => {
                    &&& !end_time.not_after(start_time)
                    &&& window.start_time == start_time
                    &&& window.end_time == end_time
                },
                Err(e) => end_time.not_after(start_time) && e@
                    == "End time must be after start time"@,
            },
    {
        if end_time.is_not_after(&start_time) {
            return Err("End time must be after start time".to_owned());
        }
        Ok(DateTimeConstraint { start_time, end_time })
    }
}

impl vstd::std_specs::convert::TryFromSpecImpl<DateTimeRequest> for DateTimeConstraint {
    open spec fn obeys_try_from_spec() -> bool {
        false
    }

    open spec fn try_from_spec(v: DateTimeRequest) -> Result<Self, String> {
        arbitrary()
    }
}

impl TryFrom<DateTimeRequest> for DateTimeConstraint {
    type Error = String;

    /// Normalises a time window: exactly two of start, end and duration give
    /// the interval; anything else, an unreadable timestamp, an explicit end
    /// not after the start, or a window the calendar cannot hold is an error.
    fn try_from(request: DateTimeRequest) -> (res: Result<Self, String>)
        ensures
            match res {
                Ok(c) => request.reading() == Ok::<(Timestamp, Timestamp), Seq<char>>(
                    (c.start_time, c.end_time),
                ),
                Err(e) => request.reading() == Err::<(Timestamp, Timestamp), Seq<char>>(e@),
            },
    {
        match (request.start, request.end, request.duration) {
            (Some(start_text), Some(end_text), None) => {
                let start_time = match parse_datetime(start_text.as_str()) {
                    Ok(t) => t,
                    Err(e) => { return Err(e); },
                };
                let end_time = match parse_datetime(end_text.as_str()) {
                    Ok(t) => t,
                    Err(e) => { return Err(e); },
                };
                DateTimeConstraint::new(start_time, end_time)
            },
            (Some(start_text), None, Some(minutes)) => {
                let start_time = match parse_datetime(start_text.as_str()) {
                    Ok(t) => t,
                    Err(e) => { return Err(e); },
                };
                if minutes > i64::MAX as u64 {
                    return Err("Time window is out of range".to_owned());
                }
                match shift_minutes(start_time, minutes as i64) {
                    Some(end_time) => Ok(DateTimeConstraint { start_time, end_time }),
                    None => Err("Time window is out of range".to_owned()),
                }
            },
            (None, Some(end_text), Some(minutes)) => {
                let end_time = match parse_datetime(end_text.as_str()) {
                    Ok(t) => t,
                    Err(e) => { return Err(e); },
                };
                if minutes > i64::MAX as u64 {
                    return Err("Time window is out of range".to_owned());
                }
                match shift_minutes(end_time, -(minutes as i64)) {
                    Some(start_time) => Ok(DateTimeConstraint { start_time, end_time }),
                    None => Err("Time window is out of range".to_owned()),
                }
            },
            _ => Err(
                "Exactly two out of three fields (start, end, duration) must be provided".to_owned(),
            ),
        }
    }
}

/// The constraints of a request in canonical form.
#[derive(Clone, Debug)]
pub struct ValidationContext<L> {
    pub content_check: String,
    pub location_constraint: Option<L>,
    pub datetime_constraint: Option<DateTimeConstraint>,
}

impl<L> vstd::std_specs::convert::TryFromSpecImpl<AnalysisRequest<L>> for ValidationContext<L> {
    open spec fn obeys_try_from_spec() -> bool {
        false
    }

    open spec fn try_from_spec(v: AnalysisRequest<L>) -> Result<Self, String> {
        arbitrary()
    }
}

impl<L> TryFrom<AnalysisRequest<L>> for ValidationContext<L> {
    type Error = String;

    /// Normalises the constraints of a request. The content description and
    /// the location constraint pass through; the time window, where there is
    /// one, becomes its canonical interval or fails the whole request with
    /// its validation error.
    fn try_from(request: AnalysisRequest<L>) -> (res: Result<Self, String>)
        ensures
            match res {
                Ok(context) => {
                    &&& context.content_check == request.content
                    &&& context.location_constraint == request.location
                    &&& match request.datetime {
                        None => context.datetime_constraint is None,
                        Some(window) => {
                            &&& context.datetime_constraint is Some
                            &&& window.reading() == Ok::<(Timestamp, Timestamp), Seq<char>>(
                                (
                                    context.datetime_constraint->0.start_time,
                                    context.datetime_constraint->0.end_time,
                                ),
                            )
                        },
                    }
                },
                Err(e) => {
                    &&& request.datetime is Some
                    &&& request.datetime->0.reading() == Err::<(Timestamp, Timestamp), Seq<char>>(
                        e@,
                    )
                },
            },
    {
        let datetime_constraint = match request.datetime {
            Some(window) => match DateTimeConstraint::try_from(window) {
                Ok(constraint) => Some(constraint),
                Err(e) => { return Err(e); },
            },
            None => None,
        };
        Ok(
            ValidationContext {
                content_check: request.content,
                location_constraint: request.location,
                datetime_constraint,
            },
        )
    }
}

} // verus!
