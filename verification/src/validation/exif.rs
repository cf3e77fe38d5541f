//! Reading position and capture time out of the EXIF fields of an image.

use crate::text::{decimal, decimal_text, join, same_text, strip_trailing, without_trailing};
use crate::time::{naive_utc_reading, read_naive_utc, Timestamp};
use vstd::prelude::*;

verus! {

/// Why the metadata of an image could not be had.
#[derive(Debug)]
pub enum ExifError {
    Io(String),
    Parsing(String),
    MissingGpsData,
    MissingTimestamp,
    InvalidGpsFormat(String),
    InvalidTimestamp(String),
}

/// An `ExifError` as mathematical data.
pub enum ExifErrorView {
    Io(Seq<char>),
    Parsing(Seq<char>),
    MissingGpsData,
    MissingTimestamp,
    InvalidGpsFormat(Seq<char>),
    InvalidTimestamp(Seq<char>),
}

impl View for ExifError {
    type V = ExifErrorView;

    open spec fn view(&self) -> ExifErrorView {
        match self {
            ExifError::Io(s) => ExifErrorView::Io(s@),
            ExifError::Parsing(s) => ExifErrorView::Parsing(s@),
            ExifError::MissingGpsData => ExifErrorView::MissingGpsData,
            ExifError::MissingTimestamp => ExifErrorView::MissingTimestamp,
            ExifError::InvalidGpsFormat(s) => ExifErrorView::InvalidGpsFormat(s@),
            ExifError::InvalidTimestamp(s) => ExifErrorView::InvalidTimestamp(s@),
        }
    }
}

impl ExifErrorView {
    /// The message of the error.
    pub open spec fn message(self) -> Seq<char> {
        match self {
            ExifErrorView::Io(s) => "IO error: "@ + s,
            ExifErrorView::Parsing(s) => "EXIF parsing error: "@ + s,
            ExifErrorView::MissingGpsData => "Missing GPS data in EXIF"@,
            ExifErrorView::MissingTimestamp => "Missing timestamp data in EXIF"@,
            ExifErrorView::InvalidGpsFormat(s) => "Invalid GPS coordinate format: "@ + s,
            ExifErrorView::InvalidTimestamp(s) => "Invalid timestamp format: "@ + s,
        }
    }
}

impl ExifError {
    /// The message of the error.
    pub fn to_string(&self) -> (text: String)
        ensures
            text@ == self@.message(),
    {
        match self {
            ExifError::Io(s) => join("IO error: ", s.as_str()),
            ExifError::Parsing(s) => join("EXIF parsing error: ", s.as_str()),
            ExifError::MissingGpsData => "Missing GPS data in EXIF".to_owned(),
            ExifError::MissingTimestamp => "Missing timestamp data in EXIF".to_owned(),
            ExifError::InvalidGpsFormat(s) => join("Invalid GPS coordinate format: ", s.as_str()),
            ExifError::InvalidTimestamp(s) => join("Invalid timestamp format: ", s.as_str()),
        }
    }
}

/// A fraction as EXIF stores it.
#[derive(Clone, Copy, Debug, PartialEq, Eq, Structural)]
pub struct Rational {
    pub num: u32,
    pub denom: u32,
}

/// The value of one EXIF field, as far as this service reads values.
#[derive(Clone, Debug)]
pub enum ExifValue {
    /// A list of unsigned fractions.
    Rational(Vec<Rational>),
    /// A list of byte strings.
    Ascii(Vec<Vec<u8>>),
    /// A value of any other kind.
    Other,
}

/// The fields of the primary image that this service reads, each as found.
#[derive(Clone, Debug)]
pub struct ExifFields {
    pub gps_latitude: Option<ExifValue>,
    pub gps_latitude_ref: Option<ExifValue>,
    pub gps_longitude: Option<ExifValue>,
    pub gps_longitude_ref: Option<ExifValue>,
    pub date_time: Option<ExifValue>,
    pub date_time_original: Option<ExifValue>,
}

/// An angle in degrees, minutes and seconds; `negative` for south and west.
#[derive(Clone, Copy, Debug)]
pub struct DmsAngle {
    pub degrees: Rational,
    pub minutes: Rational,
    pub seconds: Rational,
    pub negative: bool,
}

/// A position on Earth.
#[derive(Clone, Copy, Debug)]
pub struct GpsPosition {
    pub latitude: DmsAngle,
    pub longitude: DmsAngle,
}

/// What the metadata of an image says of where and when it was taken.
#[derive(Clone, Copy, Debug)]
pub struct ExifData {
    pub gps_coordinates: Option<GpsPosition>,
    pub timestamp: Option<Timestamp>,
    pub datetime_original: Option<Timestamp>,
}

/// The text that `String::from_utf8_lossy` makes of bytes.
pub uninterp spec fn lossy_text(bytes: Seq<u8>) -> Seq<char>;

/// Calls `String::from_utf8_lossy`. Trusted: the text is a function of the
/// bytes alone, named `lossy_text`.
#[verifier::external_body]
fn utf8_lossy(bytes: &[u8]) -> (res: String)
    ensures
        res@ == lossy_text(bytes@),
{
    String::from_utf8_lossy(bytes).into_owned()
}

/// The text of a byte string of EXIF: its lossy reading without the NULs at
/// its end.
pub open spec fn ascii_text(bytes: Seq<u8>) -> Seq<char> {
    without_trailing(lossy_text(bytes), '\0')
}

fn read_ascii(bytes: &[u8]) -> (res: String)
    ensures
        res@ == ascii_text(bytes@),
{
    let text = utf8_lossy(bytes);
    strip_trailing(text.as_str(), '\0')
}

/// The message for a list of fractions that is not three long.
pub open spec fn wrong_dms_count_message(count: nat) -> Seq<char> {
    "Expected 3 rational values for DMS, got "@ + decimal_text(count)
}

/// The degrees, minutes and seconds of a coordinate field: three fractions,
/// or the error.
pub open spec fn dms_reading(value: ExifValue) -> Result<
    (Rational, Rational, Rational),
    ExifErrorView,
> {
    match value {
        ExifValue::Rational(list) => if list@.len() != 3 {
            Err(ExifErrorView::InvalidGpsFormat(wrong_dms_count_message(list@.len())))
        } else {
            Ok((list@[0], list@[1], list@[2]))
        },
        _ => Err(
            ExifErrorView::InvalidGpsFormat("GPS coordinates must be stored as rational values"@),
        ),
    }
}

/// The hemisphere letter of a reference field: the text of its first byte
/// string, or the error.
pub open spec fn reference_reading(value: ExifValue) -> Result<Seq<char>, ExifErrorView> {
    match value {
        ExifValue::Ascii(list) => if list@.len() == 0 {
            Err(ExifErrorView::InvalidGpsFormat("Empty GPS reference"@))
        } else {
            Ok(ascii_text(list@[0]@))
        },
        _ => Err(ExifErrorView::InvalidGpsFormat("GPS reference must be ASCII value"@)),
    }
}

/// One coordinate from its value field and its reference field; `negative`
/// is the hemisphere letter that makes it negative.
pub open spec fn angle_reading(
    value: ExifValue,
    reference: ExifValue,
    negative: Seq<char>,
) -> Result<DmsAngle, ExifErrorView> {
    match dms_reading(value) {
        Err(e) => Err(e),
        Ok(dms) => match reference_reading(reference) {
            Err(e) => Err(e),
            Ok(letter) => Ok(
                DmsAngle {
                    degrees: dms.0,
                    minutes: dms.1,
                    seconds: dms.2,
                    negative: letter == negative,
                },
            ),
        },
    }
}

/// The position that the fields give: none unless all four GPS fields are
/// there; else latitude, negative for `S`, and longitude, negative for `W`,
/// or the first error in that order.
pub open spec fn position_reading(fields: ExifFields) -> Result<
    Option<GpsPosition>,
    ExifErrorView,
> {
    if fields.gps_latitude is None || fields.gps_latitude_ref is None || fields.gps_longitude
        is None || fields.gps_longitude_ref is None {
        Ok(None)
    } else {
        match angle_reading(fields.gps_latitude->0, fields.gps_latitude_ref->0, "S"@) {
            Err(e) => Err(e),
            Ok(latitude) => match angle_reading(
                fields.gps_longitude->0,
                fields.gps_longitude_ref->0,
                "W"@,
            ) {
                Err(e) => Err(e),
                Ok(longitude) => Ok(Some(GpsPosition { latitude, longitude })),
            },
        }
    }
}

/// The layout of a timestamp in EXIF.
pub open spec fn exif_layout() -> Seq<char> {
    "%Y:%m:%d %H:%M:%S"@
}

/// The time that a timestamp field gives: none where the field is absent or
/// empty; else the text of its first byte string, read in the EXIF layout
/// as UTC; an error for unreadable text and for a field of another kind.
pub open spec fn timestamp_reading(field: Option<ExifValue>) -> Result<
    Option<Timestamp>,
    ExifErrorView,
> {
    match field {
        None => Ok(None),
        Some(ExifValue::Ascii(list)) => if list@.len() == 0 {
            Ok(None)
        } else {
            match naive_utc_reading(ascii_text(list@[0]@), exif_layout()) {
                Some(t) => Ok(Some(t)),
                None => Err(ExifErrorView::InvalidTimestamp(ascii_text(list@[0]@))),
            }
        },
        Some(_) => Err(ExifErrorView::InvalidTimestamp("DateTime must be stored as ASCII value"@)),
    }
}

/// What the fields say of the image: position, then `DateTime`, then
/// `DateTimeOriginal`, or the first error in that order.
pub open spec fn metadata_reading(fields: ExifFields) -> Result<ExifData, ExifErrorView> {
    match position_reading(fields) {
        Err(e) => Err(e),
        Ok(gps_coordinates) => match timestamp_reading(fields.date_time) {
            Err(e) => Err(e),
            Ok(timestamp) => match timestamp_reading(fields.date_time_original) {
                Err(e) => Err(e),
                Ok(datetime_original) => Ok(
                    ExifData { gps_coordinates, timestamp, datetime_original },
                ),
            },
        },
    }
}

/// Reads degrees, minutes and seconds out of a coordinate field.
pub fn extract_gps_dms(value: &ExifValue) -> (res: Result<
    (Rational, Rational, Rational),
    ExifError,
>)
    ensures
        match res {
            Ok(dms) => dms_reading(*value) == Ok::<(Rational, Rational, Rational), ExifErrorView>(
                dms,
            ),
            Err(e) => dms_reading(*value) == Err::<(Rational, Rational, Rational), ExifErrorView>(
                e@,
            ),
        },
{
    match value {
        ExifValue::Rational(list) => {
            if list.len() != 3 {
                let count = decimal(list.len() as u64);
                return Err(
                    ExifError::InvalidGpsFormat(
                        join("Expected 3 rational values for DMS, got ", count.as_str()),
                    ),
                );
            }
            Ok((list[0], list[1], list[2]))
        },
        _ => Err(
            ExifError::InvalidGpsFormat(
                "GPS coordinates must be stored as rational values".to_owned(),
            ),
        ),
    }
}

/// Reads the hemisphere letter out of a reference field.
pub fn extract_gps_ref(value: &ExifValue) -> (res: Result<String, ExifError>)
    ensures
        match res {
            Ok(letter) => reference_reading(*value) == Ok::<Seq<char>, ExifErrorView>(letter@),
            Err(e) => reference_reading(*value) == Err::<Seq<char>, ExifErrorView>(e@),
        },
{
    match value {
        ExifValue::Ascii(list) => {
            if list.len() == 0 {
                return Err(ExifError::InvalidGpsFormat("Empty GPS reference".to_owned()));
            }
            Ok(read_ascii(list[0].as_slice()))
        },
        _ => Err(ExifError::InvalidGpsFormat("GPS reference must be ASCII value".to_owned())),
    }
}

fn extract_angle(value: &ExifValue, reference: &ExifValue, negative: &str) -> (res: Result<
    DmsAngle,
    ExifError,
>)
    ensures
        match res {
            Ok(angle) => angle_reading(*value, *reference, negative@) == Ok::<
                DmsAngle,
                ExifErrorView,
            >(angle),
            Err(e) => angle_reading(*value, *reference, negative@) == Err::<
                DmsAngle,
                ExifErrorView,
            >(e@),
        },
{
    let dms = match extract_gps_dms(value) {
        Ok(dms) => dms,
        Err(e) => { return Err(e); },
    };
    let letter = match extract_gps_ref(reference) {
        Ok(letter) => letter,
        Err(e) => { return Err(e); },
    };
    Ok(
        DmsAngle {
            degrees: dms.0,
            minutes: dms.1,
            seconds: dms.2,
            negative: same_text(letter.as_str(), negative),
        },
    )
}

/// Reads the position out of the GPS fields. Fields that are missing are no
/// error: the image then has no position.
pub fn extract_gps_coordinates(fields: &ExifFields) -> (res: Result<Option<GpsPosition>, ExifError>)
    ensures
        match res {
            Ok(position) => position_reading(*fields) == Ok::<Option<GpsPosition>, ExifErrorView>(
                position,
            ),
            Err(e) => position_reading(*fields) == Err::<Option<GpsPosition>, ExifErrorView>(e@),
        },
{
    match (
        &fields.gps_latitude,
        &fields.gps_latitude_ref,
        &fields.gps_longitude,
        &fields.gps_longitude_ref,
    ) {
        (Some(lat), Some(lat_ref), Some(lon), Some(lon_ref)) => {
            let latitude = match extract_angle(lat, lat_ref, "S") {
                Ok(angle) => angle,
                Err(e) => { return Err(e); },
            };
            let longitude = match extract_angle(lon, lon_ref, "W") {
                Ok(angle) => angle,
                Err(e) => { return Err(e); },
            };
            Ok(Some(GpsPosition { latitude, longitude }))
        },
        _ => Ok(None),
    }
}

/// Reads the time out of a timestamp field, as UTC.
pub fn extract_datetime(field: &Option<ExifValue>) -> (res: Result<Option<Timestamp>, ExifError>)
    ensures
        match res {
            Ok(time) => timestamp_reading(*field) == Ok::<Option<Timestamp>, ExifErrorView>(time),
            Err(e) => timestamp_reading(*field) == Err::<Option<Timestamp>, ExifErrorView>(e@),
        },
{
    match field {
        None => Ok(None),
        Some(ExifValue::Ascii(list)) => {
            if list.len() == 0 {
                return Ok(None);
            }
            let text = read_ascii(list[0].as_slice());
            match read_naive_utc(text.as_str(), "%Y:%m:%d %H:%M:%S") {
                Some(t) => Ok(Some(t)),
                None => Err(ExifError::InvalidTimestamp(text)),
            }
        },
        Some(_) => Err(
            ExifError::InvalidTimestamp("DateTime must be stored as ASCII value".to_owned()),
        ),
    }
}

/// Reads position and times out of the fields of an image.
pub fn extract_exif_metadata(fields: &ExifFields) -> (res: Result<ExifData, ExifError>)
    ensures
        match res {
            Ok(data) => metadata_reading(*fields) == Ok::<ExifData, ExifErrorView>(data),
            Err(e) => metadata_reading(*fields) == Err::<ExifData, ExifErrorView>(e@),
        },
{
    let gps_coordinates = match extract_gps_coordinates(fields) {
        Ok(position) => position,
        Err(e) => { return Err(e); },
    };
    let timestamp = match extract_datetime(&fields.date_time) {
        Ok(time) => time,
        Err(e) => { return Err(e); },
    };
    let datetime_original = match extract_datetime(&fields.date_time_original) {
        Ok(time) => time,
        Err(e) => { return Err(e); },
    };
    Ok(ExifData { gps_coordinates, timestamp, datetime_original })
}

} // verus!
