//! The settings of the service and their validation.

use crate::storage::{uri_reading, StorageError, StorageErrorView, StorageUri, StorageUriView};
use crate::text::{decimal, decimal_text, has_prefix, join, starts_with};
use vstd::prelude::*;

verus! {

/// Why the settings were refused.
#[derive(Debug)]
pub enum ConfigError {
    EnvVar(String),
    Validation(String),
    Storage(StorageError),
    Io(String),
}

/// A `ConfigError` as mathematical data.
pub enum ConfigErrorView {
    EnvVar(Seq<char>),
    Validation(Seq<char>),
    Storage(StorageErrorView),
    Io(Seq<char>),
}

impl View for ConfigError {
    type V = ConfigErrorView;

    open spec fn view(&self) -> ConfigErrorView {
        match self {
            ConfigError::EnvVar(s) => ConfigErrorView::EnvVar(s@),
            ConfigError::Validation(s) => ConfigErrorView::Validation(s@),
            ConfigError::Storage(e) => ConfigErrorView::Storage(e@),
            ConfigError::Io(s) => ConfigErrorView::Io(s@),
        }
    }
}

impl ConfigErrorView {
    /// The message of the error.
    pub open spec fn message(self) -> Seq<char> {
        match self {
            ConfigErrorView::EnvVar(s) => "Environment variable error: "@ + s,
            ConfigErrorView::Validation(s) => "Invalid configuration: "@ + s,
            ConfigErrorView::Storage(e) => "Storage error: "@ + e.message(),
            ConfigErrorView::Io(s) => "IO error: "@ + s,
        }
    }
}

impl vstd::std_specs::convert::FromSpecImpl<StorageError> for ConfigError {
    open spec fn obeys_from_spec() -> bool {
        true
    }

    open spec fn from_spec(v: StorageError) -> Self {
        ConfigError::Storage(v)
    }
}

impl From<StorageError> for ConfigError {
    /// A storage error as an error of the settings.
    fn from(error: StorageError) -> (res: Self)
        ensures
            res == ConfigError::Storage(error),
    {
        ConfigError::Storage(error)
    }
}

impl ConfigError {
    /// The message of the error.
    pub fn to_string(&self) -> (text: String)
        ensures
            text@ == self@.message(),
    {
        match self {
            ConfigError::EnvVar(s) => join("Environment variable error: ", s.as_str()),
            ConfigError::Validation(s) => join("Invalid configuration: ", s.as_str()),
            ConfigError::Storage(e) => {
                let inner = e.to_string();
                join("Storage error: ", inner.as_str())
            },
            ConfigError::Io(s) => join("IO error: ", s.as_str()),
        }
    }
}

/// The settings of the service, as loaded at startup.
#[derive(Clone, Debug)]
pub struct Config {
    pub host: String,
    pub port: u16,
    pub image_base_dir: String,
    pub llm_api_url: String,
    pub llm_model_name: String,
    pub request_timeout_seconds: u64,
    pub processing_timeout_minutes: u64,
    pub queue_size: usize,
    pub throttle_requests_per_minute: u32,
}

/// The host to bind where none is set.
pub fn default_host() -> (host: String)
    ensures
        host@ == "127.0.0.1"@,
{
    "127.0.0.1".to_owned()
}

/// The port to bind where none is set.
pub fn default_port() -> (port: u16)
    ensures
        port == 3000,
{
    3000
}

/// The model to ask where none is set.
pub fn default_llm_model_name() -> (name: String)
    ensures
        name@ == "llava:7b"@,
{
    "llava:7b".to_owned()
}

/// The seconds allowed to one request to the model where none are set.
pub fn default_request_timeout_seconds() -> (seconds: u64)
    ensures
        seconds == 30,
{
    30
}

/// The minutes allowed to one job where none are set.
pub fn default_processing_timeout_minutes() -> (minutes: u64)
    ensures
        minutes == 5,
{
    5
}

/// The capacity of the queue where none is set.
pub fn default_queue_size() -> (size: usize)
    ensures
        size == 100,
{
    100
}

/// The requests allowed per minute where none are set.
pub fn default_throttle_requests_per_minute() -> (rate: u32)
    ensures
        rate == 60,
{
    60
}

/// The message for a base directory that is not there.
pub open spec fn missing_base_dir_message(dir: Seq<char>) -> Seq<char> {
    "Image base directory does not exist: "@ + dir
}

/// The message for a model URL that is neither http nor https.
pub open spec fn bad_url_message(url: Seq<char>) -> Seq<char> {
    "LLM API URL must start with http:// or https://: "@ + url
}

/// The message for a queue size out of range.
pub open spec fn bad_queue_size_message(size: nat) -> Seq<char> {
    "Queue size must be between 1 and 10000, got: "@ + decimal_text(size)
}

impl Config {
    /// The queue holds between 1 and 10000 jobs, and at least one request a
    /// minute is allowed.
    pub open spec fn limits_hold(self) -> bool {
        &&& 1 <= self.queue_size <= 10000
        &&& self.throttle_requests_per_minute >= 1
    }

    /// What validation says of these settings, given whether the image base
    /// directory exists: the first of the rules that is broken, in the order
    /// location, existence, model URL, queue size, request rate.
    pub open spec fn verdict(self, base_dir_exists: bool) -> Result<(), ConfigErrorView> {
        match uri_reading(self.image_base_dir@) {
            Err(e) => Err(ConfigErrorView::Storage(e)),
            Ok(_) => if !base_dir_exists {
                Err(ConfigErrorView::Validation(missing_base_dir_message(self.image_base_dir@)))
            } else if !has_prefix(self.llm_api_url@, "http://"@) && !has_prefix(
                self.llm_api_url@,
                "https://"@,
            ) {
                Err(ConfigErrorView::Validation(bad_url_message(self.llm_api_url@)))
            } else if self.queue_size == 0 || self.queue_size > 10000 {
                Err(ConfigErrorView::Validation(bad_queue_size_message(self.queue_size as nat)))
            } else if self.throttle_requests_per_minute == 0 {
                Err(
                    ConfigErrorView::Validation(
                        "Throttle requests per minute must be greater than 0"@,
                    ),
                )
            } else {
                Ok(())
            },
        }
    }

    /// Whether `res` is what validation says, given whether the image base
    /// directory exists.
    pub open spec fn agrees(self, res: Result<(), ConfigError>, base_dir_exists: bool) -> bool {
        match res {
            Ok(_) => self.verdict(base_dir_exists) is Ok,
            Err(e) => self.verdict(base_dir_exists) == Err::<(), ConfigErrorView>(e@),
        }
    }

    /// The image base directory as a storage location.
    pub fn get_storage_uri(&self) -> (res: Result<StorageUri, StorageError>)
        ensures
            match res {
                Ok(location) => uri_reading(self.image_base_dir@) == Ok::<
                    StorageUriView,
                    StorageErrorView,
                >(location@),
                Err(e) => uri_reading(self.image_base_dir@) == Err::<
                    StorageUriView,
                    StorageErrorView,
                >(e@),
            },
    {
        StorageUri::parse(self.image_base_dir.as_str())
    }

    /// Validates the settings, given whether the image base directory
    /// exists.
    pub fn validate_with(&self, base_dir_exists: bool) -> (res: Result<(), ConfigError>)
        ensures
            self.agrees(res, base_dir_exists),
    {
        match self.get_storage_uri() {
            Err(e) => { return Err(ConfigError::Storage(e)); },
            Ok(_) => {},
        }
        if !base_dir_exists {
            return Err(
                ConfigError::Validation(
                    join("Image base directory does not exist: ", self.image_base_dir.as_str()),
                ),
            );
        }
        if !starts_with(self.llm_api_url.as_str(), "http://") && !starts_with(
            self.llm_api_url.as_str(),
            "https://",
        ) {
            return Err(
                ConfigError::Validation(
                    join(
                        "LLM API URL must start with http:// or https://: ",
                        self.llm_api_url.as_str(),
                    ),
                ),
            );
        }
        if self.queue_size == 0 || self.queue_size > 10000 {
            let size = decimal(self.queue_size as u64);
            return Err(
                ConfigError::Validation(
                    join("Queue size must be between 1 and 10000, got: ", size.as_str()),
                ),
            );
        }
        if self.throttle_requests_per_minute == 0 {
            return Err(
                ConfigError::Validation(
                    "Throttle requests per minute must be greater than 0".to_owned(),
                ),
            );
        }
        Ok(())
    }

    /// Validates the settings: looks on disk whether the image base
    /// directory exists, and judges by what it found. Settings that pass
    /// have a readable storage location, a model URL under http or https,
    /// and limits that hold.
    pub fn validate(&self) -> (res: Result<(), ConfigError>)
        ensures
            self.agrees(res, true) || self.agrees(res, false),
            res is Ok ==> self.verdict(true) is Ok,
    {
        let base_dir_exists = match self.get_storage_uri() {
            Ok(location) => location.exists_on_disk(),
            Err(_) => false,
        };
        self.validate_with(base_dir_exists)
    }

    /// The time allowed to one request to the model, in milliseconds.
    pub fn request_timeout(&self) -> (millis: u64)
        requires
            self.request_timeout_seconds * 1000 <= u64::MAX,
        ensures
            millis == self.request_timeout_seconds * 1000,
    {
        self.request_timeout_seconds * 1000
    }

    /// The time allowed to one job, which is also how long a record is
    /// kept, in milliseconds.
    pub fn processing_timeout(&self) -> (millis: u64)
        requires
            self.processing_timeout_minutes * 60000 <= u64::MAX,
        ensures
            millis == self.processing_timeout_minutes * 60000,
    {
        self.processing_timeout_minutes * 60000
    }

    /// The pause between two jobs, in milliseconds: a minute divided by the
    /// requests allowed per minute.
    pub fn throttle_interval(&self) -> (millis: u64)
        requires
            self.throttle_requests_per_minute >= 1,
        ensures
            millis == 60000int / (self.throttle_requests_per_minute as int),
    {
        60000 / (self.throttle_requests_per_minute as u64)
    }

    /// The address to bind: host, colon, port.
    pub fn server_address(&self) -> (address: String)
        ensures
            address@ == self.host@ + ":"@ + decimal_text(self.port as nat),
    {
        let port = decimal(self.port as u64);
        let mut address = join(self.host.as_str(), ":");
        address.append(port.as_str());
        address
    }
}

} // verus!
