//! One validation from request to result: where the image is, what the
//! metadata says against the constraints, and how the checks fuse into a
//! verdict with its reasons.

use crate::config::Config;
use crate::models::{
    image_reference, texts, DateTimeConstraint, ProcessingRequest, Resolution, ValidationContext,
    ValidationResults, ValidationResultsView,
};
use crate::text::{
    has_prefix, join, signed_decimal, signed_decimal_text, slice, starts_with, text_of,
};
use crate::time::{instant_text, minutes_between, whole_minutes_between, Timestamp};
use crate::validation::exif::{ExifData, ExifError, ExifErrorView};
use crate::validation::llm::{LlmClient, LlmError, LlmErrorView};
use vstd::prelude::*;

verus! {

/// Why a validation could not be carried out.
#[derive(Debug)]
pub enum ProcessorError {
    ImageNotFound(String),
    Exif(ExifError),
    Llm(LlmError),
    Config(String),
    ValidationContext(String),
    Internal(String),
}

/// A `ProcessorError` as mathematical data.
pub enum ProcessorErrorView {
    ImageNotFound(Seq<char>),
    Exif(ExifErrorView),
    Llm(LlmErrorView),
    Config(Seq<char>),
    ValidationContext(Seq<char>),
    Internal(Seq<char>),
}

impl View for ProcessorError {
    type V = ProcessorErrorView;

    open spec fn view(&self) -> ProcessorErrorView {
        match self {
            ProcessorError::ImageNotFound(s) => ProcessorErrorView::ImageNotFound(s@),
            ProcessorError::Exif(e) => ProcessorErrorView::Exif(e@),
            ProcessorError::Llm(e) => ProcessorErrorView::Llm(e@),
            ProcessorError::Config(s) => ProcessorErrorView::Config(s@),
            ProcessorError::ValidationContext(s) => ProcessorErrorView::ValidationContext(s@),
            ProcessorError::Internal(s) => ProcessorErrorView::Internal(s@),
        }
    }
}

impl ProcessorErrorView {
    /// The message of the error.
    pub open spec fn message(self) -> Seq<char> {
        match self {
            ProcessorErrorView::ImageNotFound(s) => "Image file not found: "@ + s,
            ProcessorErrorView::Exif(e) => "EXIF processing error: "@ + e.message(),
            ProcessorErrorView::Llm(e) => "LLM processing error: "@ + e.message(),
            ProcessorErrorView::Config(s) => "Configuration error: "@ + s,
            ProcessorErrorView::ValidationContext(s) => "Validation context error: "@ + s,
            ProcessorErrorView::Internal(s) => "Internal error: "@ + s,
        }
    }
}

impl vstd::std_specs::convert::FromSpecImpl<ExifError> for ProcessorError {
    open spec fn obeys_from_spec() -> bool {
        true
    }

    open spec fn from_spec(v: ExifError) -> Self {
        ProcessorError::Exif(v)
    }
}

impl From<ExifError> for ProcessorError {
    /// An error of the metadata check as an error of the validation.
    fn from(error: ExifError) -> (res: Self)
        ensures
            res == ProcessorError::Exif(error),
    {
        ProcessorError::Exif(error)
    }
}

impl vstd::std_specs::convert::FromSpecImpl<LlmError> for ProcessorError {
    open spec fn obeys_from_spec() -> bool {
        true
    }

    open spec fn from_spec(v: LlmError) -> Self {
        ProcessorError::Llm(v)
    }
}

impl From<LlmError> for ProcessorError {
    /// An error of the content check as an error of the validation.
    fn from(error: LlmError) -> (res: Self)
        ensures
            res == ProcessorError::Llm(error),
    {
        ProcessorError::Llm(error)
    }
}

impl ProcessorError {
    /// The message of the error.
    pub fn to_string(&self) -> (text: String)
        ensures
            text@ == self@.message(),
    {
        match self {
            ProcessorError::ImageNotFound(s) => join("Image file not found: ", s.as_str()),
            ProcessorError::Exif(e) => {
                let inner = e.to_string();
                join("EXIF processing error: ", inner.as_str())
            },
            ProcessorError::Llm(e) => {
                let inner = e.to_string();
                join("LLM processing error: ", inner.as_str())
            },
            ProcessorError::Config(s) => join("Configuration error: ", s.as_str()),
            ProcessorError::ValidationContext(s) => join(
                "Validation context error: ",
                s.as_str(),
            ),
            ProcessorError::Internal(s) => join("Internal error: ", s.as_str()),
        }
    }
}

/// The absolute path of an image: a reference that begins with `/` stands
/// for itself; the prefix `$image_base_dir/` names the base directory; any
/// other reference lies under the base directory.
pub open spec fn resolved_path(base: Seq<char>, image_ref: Seq<char>) -> Seq<char> {
    if has_prefix(image_ref, "/"@) {
        image_ref
    } else if has_prefix(image_ref, "$image_base_dir/"@) {
        base + "/"@ + image_ref.subrange(16, image_ref.len() as int)
    } else {
        base + "/"@ + image_ref
    }
}

/// Resolves an image reference against the base directory.
pub fn resolve_path(base: &str, image_ref: &str) -> (path: String)
    ensures
        path@ == resolved_path(base@, image_ref@),
{
    proof {
        reveal_strlit("$image_base_dir/");
    }
    if starts_with(image_ref, "/") {
        image_ref.to_owned()
    } else if starts_with(image_ref, "$image_base_dir/") {
        let n = image_ref.unicode_len();
        let relative = slice(image_ref, 16, n);
        let mut path = join(base, "/");
        path.append(relative.as_str());
        path
    } else {
        let mut path = join(base, "/");
        path.append(image_ref);
        path
    }
}

/// What the comparison of an image's position with a location constraint
/// came to. The quantities are written out for the failure message.
#[derive(Debug)]
pub enum LocationCheck {
    /// The position is within the permitted distance.
    Within,
    /// The position is too far away.
    TooFar { observed: String, distance: String, expected: String, limit: String },
    /// The position could not be compared.
    Invalid(String),
}

/// The reason for a position that is too far away.
pub open spec fn too_far_reason(
    observed: Seq<char>,
    distance: Seq<char>,
    expected: Seq<char>,
    limit: Seq<char>,
) -> Seq<char> {
    "image location "@ + observed + " is "@ + distance + " from expected location "@ + expected
        + ", exceeding "@ + limit + " limit"@
}

/// The verdict of a location check and, for a failure, its reason.
pub open spec fn location_finding(check: LocationCheck) -> (bool, Option<Seq<char>>) {
    match check {
        LocationCheck::Within => (true, None),
        LocationCheck::TooFar { observed, distance, expected, limit } => (
            false,
            Some(too_far_reason(observed@, distance@, expected@, limit@)),
        ),
        LocationCheck::Invalid(e) => (false, Some("location validation error: "@ + e@)),
    }
}

/// The verdict on the location of an image and, for a failure, its reason:
/// without a constraint the check passes; without a position it fails; else
/// the comparison decides, which must then be there.
pub open spec fn location_verdict(
    constrained: bool,
    located: bool,
    check: Option<LocationCheck>,
) -> Result<(bool, Option<Seq<char>>), ProcessorErrorView> {
    if !constrained {
        Ok((true, None))
    } else if !located {
        Ok((false, Some("image does not contain GPS coordinates"@)))
    } else {
        match check {
            Some(check) => Ok(location_finding(check)),
            None => Err(ProcessorErrorView::Internal("location check is missing"@)),
        }
    }
}

/// Judges the location of an image.
pub fn evaluate_location(constrained: bool, located: bool, check: Option<LocationCheck>) -> (res:
    Result<(bool, Option<String>), ProcessorError>)
    ensures
        match res {
            Ok((valid, reason)) => location_verdict(constrained, located, check) == Ok::<
                (bool, Option<Seq<char>>),
                ProcessorErrorView,
            >((valid, text_of(reason))),
            Err(e) => location_verdict(constrained, located, check) == Err::<
                (bool, Option<Seq<char>>),
                ProcessorErrorView,
            >(e@),
        },
{
    if !constrained {
        return Ok((true, None));
    }
    if !located {
        return Ok((false, Some("image does not contain GPS coordinates".to_owned())));
    }
    match check {
        Some(LocationCheck::Within) => Ok((true, None)),
        Some(LocationCheck::TooFar { observed, distance, expected, limit }) => {
            let mut reason = join("image location ", observed.as_str());
            reason.append(" is ");
            reason.append(distance.as_str());
            reason.append(" from expected location ");
            reason.append(expected.as_str());
            reason.append(", exceeding ");
            reason.append(limit.as_str());
            reason.append(" limit");
            Ok((false, Some(reason)))
        },
        Some(LocationCheck::Invalid(e)) => Ok(
            (false, Some(join("location validation error: ", e.as_str()))),
        ),
        None => Err(ProcessorError::Internal("location check is missing".to_owned())),
    }
}

/// The layout in which failure messages show a time.
pub open spec fn message_layout() -> Seq<char> {
    "%Y-%m-%d %H:%M:%S %z"@
}

/// How far outside the window a time lies, in words: the whole minutes
/// before the start, or else after the end.
pub open spec fn distance_in_time(t: Timestamp, window: DateTimeConstraint) -> Option<Seq<char>> {
    if t.precedes(window.start_time) {
        match whole_minutes_between(window.start_time, t) {
            Some(minutes) => Some(
                signed_decimal_text(minutes as int) + " minutes before allowed start time"@,
            ),
            None => None,
        }
    } else {
        match whole_minutes_between(t, window.end_time) {
            Some(minutes) => Some(
                signed_decimal_text(minutes as int) + " minutes after allowed end time"@,
            ),
            None => None,
        }
    }
}

/// The reason for a time outside the window, where the calendar can show
/// the three times involved.
pub open spec fn outside_window_reason(t: Timestamp, window: DateTimeConstraint) -> Option<
    Seq<char>,
> {
    match (
        distance_in_time(t, window),
        instant_text(t, message_layout()),
        instant_text(window.start_time, message_layout()),
        instant_text(window.end_time, message_layout()),
    ) {
        (Some(distance), Some(shown), Some(start), Some(end)) => Some(
            "image timestamp "@ + shown + " is "@ + distance + ", outside allowed time range "@
                + start + " to "@ + end,
        ),
        _ => None,
    }
}

/// The capture time of an image: the original one where it is known, else
/// the generic one.
pub open spec fn capture_time(exif: ExifData) -> Option<Timestamp> {
    match exif.datetime_original {
        Some(t) => Some(t),
        None => exif.timestamp,
    }
}

/// The verdict on the capture time of an image and, for a failure, its
/// reason: without a window the check passes; without a capture time it
/// fails; else the time must lie in the window, ends included.
pub open spec fn time_verdict(window: Option<DateTimeConstraint>, exif: ExifData) -> Result<
    (bool, Option<Seq<char>>),
    ProcessorErrorView,
> {
    match window {
        None => Ok((true, None)),
        Some(window) => match capture_time(exif) {
            None => Ok((false, Some("image does not contain timestamp information"@))),
            Some(t) => if window.contains(t) {
                Ok((true, None))
            } else {
                match outside_window_reason(t, window) {
                    Some(reason) => Ok((false, Some(reason))),
                    None => Err(
                        ProcessorErrorView::Internal("timestamp cannot be shown"@),
                    ),
                }
            },
        },
    }
}

fn describe_distance_in_time(t: &Timestamp, window: &DateTimeConstraint) -> (res: Option<String>)
    ensures
        text_of(res) == distance_in_time(*t, *window),
{
    if t.is_before(&window.start_time) {
        match minutes_between(window.start_time, *t) {
            Some(minutes) => {
                let mut text = signed_decimal(minutes);
                text.append(" minutes before allowed start time");
                Some(text)
            },
            None => None,
        }
    } else {
        match minutes_between(*t, window.end_time) {
            Some(minutes) => {
                let mut text = signed_decimal(minutes);
                text.append(" minutes after allowed end time");
                Some(text)
            },
            None => None,
        }
    }
}

fn describe_outside_window(t: &Timestamp, window: &DateTimeConstraint) -> (res: Option<String>)
    ensures
        text_of(res) == outside_window_reason(*t, *window),
{
    let distance = describe_distance_in_time(t, window);
    let shown = t.format("%Y-%m-%d %H:%M:%S %z");
    let start = window.start_time.format("%Y-%m-%d %H:%M:%S %z");
    let end = window.end_time.format("%Y-%m-%d %H:%M:%S %z");
    match (distance, shown, start, end) {
        (Some(distance), Some(shown), Some(start), Some(end)) => {
            let mut reason = join("image timestamp ", shown.as_str());
            reason.append(" is ");
            reason.append(distance.as_str());
            reason.append(", outside allowed time range ");
            reason.append(start.as_str());
            reason.append(" to ");
            reason.append(end.as_str());
            Some(reason)
        },
        _ => None,
    }
}

/// Judges the capture time of an image.
pub fn evaluate_datetime(window: &Option<DateTimeConstraint>, exif_data: &ExifData) -> (res: Result<
    (bool, Option<String>),
    ProcessorError,
>)
    ensures
        match res {
            Ok((valid, reason)) => time_verdict(*window, *exif_data) == Ok::<
                (bool, Option<Seq<char>>),
                ProcessorErrorView,
            >((valid, text_of(reason))),
            Err(e) => time_verdict(*window, *exif_data) == Err::<
                (bool, Option<Seq<char>>),
                ProcessorErrorView,
            >(e@),
        },
{
    let window = match window {
        None => { return Ok((true, None)); },
        Some(window) => window,
    };
    let image_timestamp = match exif_data.datetime_original {
        Some(t) => Some(t),
        None => exif_data.timestamp,
    };
    match image_timestamp {
        None => Ok((false, Some("image does not contain timestamp information".to_owned()))),
        Some(t) => {
            let within = window.start_time.is_not_after(&t) && t.is_not_after(&window.end_time);
            if within {
                Ok((true, None))
            } else {
                match describe_outside_window(&t, window) {
                    Some(reason) => Ok((false, Some(reason))),
                    None => Err(ProcessorError::Internal("timestamp cannot be shown".to_owned())),
                }
            }
        },
    }
}

/// The reasons of the two metadata checks, location first.
pub open spec fn metadata_reasons(location: Option<Seq<char>>, time: Option<Seq<char>>) -> Seq<
    Seq<char>,
> {
    let first = match location {
        Some(reason) => seq![reason],
        None => Seq::empty(),
    };
    match time {
        Some(reason) => first.push(reason),
        None => first,
    }
}

/// What the metadata of an image says against the constraints: whether the
/// location passes, whether the time passes, and the reasons of the
/// failures, location before time.
pub open spec fn metadata_verdict<L>(
    context: ValidationContext<L>,
    exif: ExifData,
    check: Option<LocationCheck>,
) -> Result<(bool, bool, Seq<Seq<char>>), ProcessorErrorView> {
    match location_verdict(
        context.location_constraint is Some,
        exif.gps_coordinates is Some,
        check,
    ) {
        Err(e) => Err(e),
        Ok(location) => match time_verdict(context.datetime_constraint, exif) {
            Err(e) => Err(e),
            Ok(time) => Ok((location.0, time.0, metadata_reasons(location.1, time.1))),
        },
    }
}

/// The reason for a content check that failed.
pub open spec fn content_reason(description: Seq<char>) -> Seq<char> {
    "image content does not match description: '"@ + description + "'"@
}

/// The result of a content check as mathematical data.
pub open spec fn content_view(content: Result<bool, ProcessorError>) -> Result<
    bool,
    ProcessorErrorView,
> {
    match content {
        Ok(valid) => Ok(valid),
        Err(e) => Err(e@),
    }
}

/// The result of a metadata check as mathematical data.
pub open spec fn metadata_view(
    metadata: Result<(bool, bool, Vec<String>), ProcessorError>,
) -> Result<(bool, bool, Seq<Seq<char>>), ProcessorErrorView> {
    match metadata {
        Ok((location_valid, datetime_valid, reasons)) => Ok(
            (location_valid, datetime_valid, texts(reasons@)),
        ),
        Err(e) => Err(e@),
    }
}

/// The joined result of both checks as mathematical data.
pub open spec fn validation_view(
    validation: Result<(bool, bool, bool, Vec<String>), ProcessorError>,
) -> Result<(bool, bool, bool, Seq<Seq<char>>), ProcessorErrorView> {
    match validation {
        Ok((content_valid, location_valid, datetime_valid, reasons)) => Ok(
            (content_valid, location_valid, datetime_valid, texts(reasons@)),
        ),
        Err(e) => Err(e@),
    }
}

/// The three verdicts and the reasons in the order content, location, time;
/// an error of the content check goes before one of the metadata check.
pub open spec fn combined_verdict(
    content: Result<bool, ProcessorErrorView>,
    metadata: Result<(bool, bool, Seq<Seq<char>>), ProcessorErrorView>,
    description: Seq<char>,
) -> Result<(bool, bool, bool, Seq<Seq<char>>), ProcessorErrorView> {
    match content {
        Err(e) => Err(e),
        Ok(content_valid) => match metadata {
            Err(e) => Err(e),
            Ok((location_valid, datetime_valid, reasons)) => Ok(
                (
                    content_valid,
                    location_valid,
                    datetime_valid,
                    if content_valid {
                        reasons
                    } else {
                        seq![content_reason(description)] + reasons
                    },
                ),
            ),
        },
    }
}

/// The result of a validation: accepted where all three checks passed,
/// else rejected for the reasons given; an error becomes a rejection whose
/// one reason carries the error's message.
pub open spec fn concluded(
    validation: Result<(bool, bool, bool, Seq<Seq<char>>), ProcessorErrorView>,
) -> ValidationResultsView {
    match validation {
        Ok((content_valid, location_valid, datetime_valid, reasons)) => if content_valid
            && location_valid && datetime_valid {
            ValidationResultsView { resolution: Resolution::Accepted, reasons: None }
        } else {
            ValidationResultsView { resolution: Resolution::Rejected, reasons: Some(reasons) }
        },
        Err(e) => ValidationResultsView {
            resolution: Resolution::Rejected,
            reasons: Some(seq!["validation error: "@ + e.message()]),
        },
    }
}

/// The result of a whole validation, from what the content check found,
/// what the metadata holds, and how the position compares.
pub open spec fn validated<L>(
    content: Result<bool, ProcessorErrorView>,
    context: ValidationContext<L>,
    exif: Result<ExifData, ProcessorErrorView>,
    check: Option<LocationCheck>,
) -> ValidationResultsView {
    let metadata = match exif {
        Ok(exif) => metadata_verdict(context, exif, check),
        Err(e) => Err(e),
    };
    concluded(combined_verdict(content, metadata, context.content_check@))
}

/// Every validation ends in a well-formed result: an acceptance without
/// reasons, or a rejection with at least one. It is an acceptance exactly
/// when no check erred and all three passed.
pub proof fn lemma_validation_is_well_formed<L>(
    content: Result<bool, ProcessorErrorView>,
    context: ValidationContext<L>,
    exif: Result<ExifData, ProcessorErrorView>,
    check: Option<LocationCheck>,
)
    ensures
        validated(content, context, exif, check).is_consistent(),
        validated(content, context, exif, check).resolution == Resolution::Accepted <==> {
            &&& content == Ok::<bool, ProcessorErrorView>(true)
            &&& exif is Ok
            &&& metadata_verdict(context, exif->Ok_0, check) is Ok
            &&& metadata_verdict(context, exif->Ok_0, check)->Ok_0.0
            &&& metadata_verdict(context, exif->Ok_0, check)->Ok_0.1
        },
{
}

/// The reasons keep their order: a content mismatch comes first, then the
/// location, then the time.
pub proof fn lemma_reasons_in_order<L>(
    context: ValidationContext<L>,
    exif: ExifData,
    check: Option<LocationCheck>,
)
    requires
        metadata_verdict(context, exif, check) is Ok,
    ensures
        ({
            let metadata = metadata_verdict(context, exif, check);
            let location = location_verdict(
                context.location_constraint is Some,
                exif.gps_coordinates is Some,
                check,
            )->Ok_0;
            let time = time_verdict(context.datetime_constraint, exif)->Ok_0;
            let all = combined_verdict(
                Ok(false),
                metadata,
                context.content_check@,
            )->Ok_0.3;
            &&& all[0] == content_reason(context.content_check@)
            &&& all.len() == 1 + (if location.0 {
                0int
            } else {
                1int
            }) + (if time.0 {
                0int
            } else {
                1int
            })
            &&& !location.0 ==> all[1] == location.1->0
            &&& !time.0 ==> all.last() == time.1->0
            &&& location.0 <==> location.1 is None
            &&& time.0 <==> time.1 is None
        }),
{
}

/// The settings of a validation.
#[derive(Clone, Debug)]
pub struct ValidationProcessor {
    pub llm_client: LlmClient,
    pub image_base_dir: String,
}

impl ValidationProcessor {
    /// A processor for the given settings.
    pub fn new(config: &Config) -> (res: Self)
        requires
            config.request_timeout_seconds * 1000 <= u64::MAX,
        ensures
            res.image_base_dir@ == config.image_base_dir@,
            res.llm_client.api_url@ == config.llm_api_url@,
            res.llm_client.model_name@ == config.llm_model_name@,
            res.llm_client.timeout_ms == config.request_timeout_seconds * 1000,
            res.llm_client.max_retries == 3,
    {
        let llm_client = LlmClient::new(
            config.llm_api_url.clone(),
            config.llm_model_name.clone(),
            config.request_timeout(),
        );
        ValidationProcessor { llm_client, image_base_dir: config.image_base_dir.clone() }
    }

    /// The absolute path of the image of a request; an error where the
    /// request names no image.
    pub fn resolve_image_path<L>(&self, request: &ProcessingRequest<L>) -> (res: Result<
        String,
        ProcessorError,
    >)
        ensures
            match res {
                Ok(path) => {
                    &&& image_reference(request.image_path, request.image) is Some
                    &&& path@ == resolved_path(
                        self.image_base_dir@,
                        image_reference(request.image_path, request.image)->0,
                    )
                },
                Err(e) => {
                    &&& image_reference(request.image_path, request.image) is None
                    &&& e@ == ProcessorErrorView::ImageNotFound("no image path provided"@)
                },
            },
    {
        match request.get_image_path() {
            Some(image_ref) => Ok(resolve_path(self.image_base_dir.as_str(), image_ref.as_str())),
            None => Err(ProcessorError::ImageNotFound("no image path provided".to_owned())),
        }
    }

    /// The first step of a validation: where the image is, and the
    /// constraints in canonical form. A request without image reference or
    /// with an invalid time window is an error.
    pub fn prepare<L>(&self, request: ProcessingRequest<L>) -> (res: Result<
        (String, ValidationContext<L>),
        ProcessorError,
    >)
        ensures
            match res {
                Ok((path, context)) => {
                    &&& image_reference(request.image_path, request.image) is Some
                    &&& path@ == resolved_path(
                        self.image_base_dir@,
                        image_reference(request.image_path, request.image)->0,
                    )
                    &&& context.content_check == request.analysis_request.content
                    &&& context.location_constraint == request.analysis_request.location
                    &&& match request.analysis_request.datetime {
                        None => context.datetime_constraint is None,
                        Some(window) => {
                            &&& context.datetime_constraint is Some
                            &&& window.reading() == Ok::<(Timestamp, Timestamp), Seq<char>>(
                                (
                                    context.datetime_constraint->0.start_time,
                                    context.datetime_constraint->0.end_time,
                                ),
                            )
                        },
                    }
                },
                Err(e) => if image_reference(request.image_path, request.image) is None {
                    e@ == ProcessorErrorView::ImageNotFound("no image path provided"@)
                } else {
                    &&& request.analysis_request.datetime is Some
                    &&& e@ is ValidationContext
                    &&& request.analysis_request.datetime->0.reading() == Err::<
                        (Timestamp, Timestamp),
                        Seq<char>,
                    >(e@->ValidationContext_0)
                },
            },
    {
        let path = match self.resolve_image_path(&request) {
            Ok(path) => path,
            Err(e) => { return Err(e); },
        };
        match ValidationContext::try_from(request.analysis_request) {
            Ok(context) => Ok((path, context)),
            Err(message) => Err(ProcessorError::ValidationContext(message)),
        }
    }

    /// The result for an image that is not where the request says.
    pub fn missing_image(&self) -> (res: ValidationResults)
        ensures
            res@ == (ValidationResultsView {
                resolution: Resolution::Rejected,
                reasons: Some(seq!["cannot locate image"@]),
            }),
            res@.is_consistent(),
    {
        let mut reasons: Vec<String> = Vec::new();
        reasons.push("cannot locate image".to_owned());
        proof {
            assert(texts(reasons@) =~= seq!["cannot locate image"@]);
        }
        ValidationResults::rejected(reasons)
    }

    /// Judges the metadata of an image against the constraints. `check` is
    /// the comparison of the image's position with the location constraint;
    /// it is read only where there are both.
    pub fn extract_and_validate_metadata<L>(
        &self,
        context: &ValidationContext<L>,
        exif_data: &ExifData,
        check: Option<LocationCheck>,
    ) -> (res: Result<(bool, bool, Vec<String>), ProcessorError>)
        ensures
            metadata_view(res) == metadata_verdict(*context, *exif_data, check),
    {
        let mut reasons: Vec<String> = Vec::new();
        let location = match evaluate_location(
            context.location_constraint.is_some(),
            exif_data.gps_coordinates.is_some(),
            check,
        ) {
            Ok(location) => location,
            Err(e) => { return Err(e); },
        };
        let time = match evaluate_datetime(&context.datetime_constraint, exif_data) {
            Ok(time) => time,
            Err(e) => { return Err(e); },
        };
        let ghost location_reason = text_of(location.1);
        let ghost time_reason = text_of(time.1);
        match location.1 {
            Some(reason) => { reasons.push(reason); },
            None => {},
        }
        match time.1 {
            Some(reason) => { reasons.push(reason); },
            None => {},
        }
        proof {
            assert(texts(reasons@) =~= metadata_reasons(location_reason, time_reason));
        }
        Ok((location.0, time.0, reasons))
    }

    /// Joins the result of the content check with that of the metadata
    /// check, once both are there: the three verdicts, and the reasons with
    /// the content mismatch first.
    pub fn perform_parallel_validation(
        &self,
        content: Result<bool, ProcessorError>,
        metadata: Result<(bool, bool, Vec<String>), ProcessorError>,
        content_check: &str,
    ) -> (res: Result<(bool, bool, bool, Vec<String>), ProcessorError>)
        ensures
            validation_view(res) == combined_verdict(
                content_view(content),
                metadata_view(metadata),
                content_check@,
            ),
    {
        let content_valid = match content {
            Ok(valid) => valid,
            Err(e) => { return Err(e); },
        };
        let (location_valid, datetime_valid, meta_reasons) = match metadata {
            Ok(found) => found,
            Err(e) => { return Err(e); },
        };
        if content_valid {
            return Ok((content_valid, location_valid, datetime_valid, meta_reasons));
        }
        let mut reasons: Vec<String> = Vec::new();
        let mut first = join("image content does not match description: '", content_check);
        first.append("'");
        reasons.push(first);
        let mut meta_reasons = meta_reasons;
        let ghost tail = meta_reasons@;
        reasons.append(&mut meta_reasons);
        proof {
            assert(texts(reasons@) =~= seq![content_reason(content_check@)] + texts(tail));
        }
        Ok((content_valid, location_valid, datetime_valid, reasons))
    }

    /// The last step of a validation: the verdicts become the result. An
    /// error of a check is no error of the validation: it becomes a
    /// rejection with the error's message as its reason.
    pub fn conclude(
        &self,
        validation: Result<(bool, bool, bool, Vec<String>), ProcessorError>,
    ) -> (res: ValidationResults)
        ensures
            res@ == concluded(validation_view(validation)),
    {
        match validation {
            Ok((content_valid, location_valid, datetime_valid, reasons)) => {
                if content_valid && location_valid && datetime_valid {
                    ValidationResults::accepted()
                } else {
                    ValidationResults::rejected(reasons)
                }
            },
            Err(e) => {
                let detail = e.to_string();
                let mut reasons: Vec<String> = Vec::new();
                reasons.push(join("validation error: ", detail.as_str()));
                proof {
                    assert(texts(reasons@) =~= seq!["validation error: "@ + e@.message()]);
                }
                ValidationResults::rejected(reasons)
            },
        }
    }
}

} // verus!
