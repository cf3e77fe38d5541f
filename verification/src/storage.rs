//! Where the images live: a local directory, given as a plain path or as a
//! `file://` URI.

use crate::text::{
    find, first_occurrence, has_prefix, join, lemma_first_occurrence, slice, starts_with,
};
use std::path::Path;
use vstd::prelude::*;

verus! {

#[verifier::external_type_specification]
#[verifier::external_body]
pub struct ExIoError(std::io::Error);

/// Why a storage location was refused.
#[derive(Debug)]
pub enum StorageError {
    UnsupportedScheme(String),
    InvalidUri(String),
    PathNotFound(String),
    Io(String),
}

/// A `StorageError` as mathematical data.
pub enum StorageErrorView {
    UnsupportedScheme(Seq<char>),
    InvalidUri(Seq<char>),
    PathNotFound(Seq<char>),
    Io(Seq<char>),
}

impl View for StorageError {
    type V = StorageErrorView;

    open spec fn view(&self) -> StorageErrorView {
        match self {
            StorageError::UnsupportedScheme(s) => StorageErrorView::UnsupportedScheme(s@),
            StorageError::InvalidUri(s) => StorageErrorView::InvalidUri(s@),
            StorageError::PathNotFound(s) => StorageErrorView::PathNotFound(s@),
            StorageError::Io(s) => StorageErrorView::Io(s@),
        }
    }
}

impl StorageErrorView {
    /// The message of the error.
    pub open spec fn message(self) -> Seq<char> {
        match self {
            StorageErrorView::UnsupportedScheme(s) => "Unsupported URI scheme: "@ + s,
            StorageErrorView::InvalidUri(s) => "Invalid URI format: "@ + s,
            StorageErrorView::PathNotFound(s) => "Path does not exist: "@ + s,
            StorageErrorView::Io(s) => "IO error: "@ + s,
        }
    }
}

/// Writes out an error of `std::io` through its `Display`. Trusted; nothing
/// is claimed of the text.
#[verifier::external_body]
fn io_error_text(error: &std::io::Error) -> (text: String) {
    format!("{}", error)
}

impl vstd::std_specs::convert::FromSpecImpl<std::io::Error> for StorageError {
    open spec fn obeys_from_spec() -> bool {
        false
    }

    open spec fn from_spec(v: std::io::Error) -> Self {
        arbitrary()
    }
}

impl From<std::io::Error> for StorageError {
    /// An error of `std::io` as a storage error that carries its text.
    fn from(error: std::io::Error) -> (res: Self)
        ensures
            res is Io,
    {
        StorageError::Io(io_error_text(&error))
    }
}

impl StorageError {
    /// The message of the error.
    pub fn to_string(&self) -> (text: String)
        ensures
            text@ == self@.message(),
    {
        match self {
            StorageError::UnsupportedScheme(s) => join("Unsupported URI scheme: ", s.as_str()),
            StorageError::InvalidUri(s) => join("Invalid URI format: ", s.as_str()),
            StorageError::PathNotFound(s) => join("Path does not exist: ", s.as_str()),
            StorageError::Io(s) => join("IO error: ", s.as_str()),
        }
    }
}

/// A storage location on the local file system.
#[derive(Clone, Debug, PartialEq)]
pub enum StorageUri {
    /// Given as a plain path.
    LocalPath(String),
    /// Given as a `file://` URI; holds the path behind the scheme.
    FileUri(String),
}

/// A `StorageUri` as mathematical data.
pub enum StorageUriView {
    LocalPath(Seq<char>),
    FileUri(Seq<char>),
}

impl View for StorageUri {
    type V = StorageUriView;

    open spec fn view(&self) -> StorageUriView {
        match self {
            StorageUri::LocalPath(p) => StorageUriView::LocalPath(p@),
            StorageUri::FileUri(p) => StorageUriView::FileUri(p@),
        }
    }
}

impl StorageUriView {
    /// The path on the local file system.
    pub open spec fn path(self) -> Seq<char> {
        match self {
            StorageUriView::LocalPath(p) => p,
            StorageUriView::FileUri(p) => p,
        }
    }

    /// The location written out: the path, behind `file://` where it was
    /// given so.
    pub open spec fn text(self) -> Seq<char> {
        match self {
            StorageUriView::LocalPath(p) => p,
            StorageUriView::FileUri(p) => "file://"@ + p,
        }
    }
}

/// What a text denotes as a storage location. Behind `file://` stands an
/// absolute path; any other scheme is refused under its name, the text
/// before the first `://`; a text without scheme is a local path.
pub open spec fn uri_reading(uri: Seq<char>) -> Result<StorageUriView, StorageErrorView> {
    if has_prefix(uri, "file://"@) {
        let path = uri.subrange(7, uri.len() as int);
        if path.len() > 0 && path[0] == '/' {
            Ok(StorageUriView::FileUri(path))
        } else {
            Err(StorageErrorView::InvalidUri("file:// URI must use absolute paths: "@ + uri))
        }
    } else {
        match first_occurrence(uri, "://"@) {
            Some(at) => Err(StorageErrorView::UnsupportedScheme(uri.subrange(0, at))),
            None => Ok(StorageUriView::LocalPath(uri)),
        }
    }
}

/// A path adjoined to a base path: an absolute path stands for itself; any
/// other follows the base, with one `/` between them unless the base is
/// empty or ends in one.
pub open spec fn joined_path(base: Seq<char>, adjoined: Seq<char>) -> Seq<char> {
    if has_prefix(adjoined, "/"@) {
        adjoined
    } else if base.len() == 0 || base.last() == '/' {
        base + adjoined
    } else {
        base + "/"@ + adjoined
    }
}

/// Adjoins a path to a base path.
pub fn join_paths(base: &str, adjoined: &str) -> (res: String)
    ensures
        res@ == joined_path(base@, adjoined@),
{
    if starts_with(adjoined, "/") {
        return adjoined.to_owned();
    }
    let n = base.unicode_len();
    if n == 0 || base.get_char(n - 1) == '/' {
        join(base, adjoined)
    } else {
        let mut path = join(base, "/");
        path.append(adjoined);
        path
    }
}

/// Calls `std::path::Path::exists`. Trusted; the answer depends on what is
/// on disk, so nothing is claimed of it.
#[verifier::external_body]
fn path_exists(path: &str) -> (found: bool) {
    Path::new(path).exists()
}

impl StorageUri {
    /// Reads a text as a storage location.
    pub fn parse(uri: &str) -> (res: Result<StorageUri, StorageError>)
        ensures
            match res {
                Ok(location) => uri_reading(uri@) == Ok::<StorageUriView, StorageErrorView>(
                    location@,
                ),
                Err(e) => uri_reading(uri@) == Err::<StorageUriView, StorageErrorView>(e@),
            },
    {
        proof {
            reveal_strlit("file://");
            reveal_strlit("://");
            reveal_strlit("/");
        }
        if starts_with(uri, "file://") {
            let n = uri.unicode_len();
            let path = slice(uri, 7, n);
            if starts_with(path.as_str(), "/") {
                proof {
                    assert(path@.subrange(0, 1)[0] == path@[0]);
                }
                Ok(StorageUri::FileUri(path))
            } else {
                proof {
                    if path@.len() > 0 && path@[0] == '/' {
                        assert(path@.subrange(0, 1) =~= "/"@);
                    }
                }
                Err(
                    StorageError::InvalidUri(join("file:// URI must use absolute paths: ", uri)),
                )
            }
        } else {
            match find(uri, "://") {
                Some(at) => {
                    proof {
                        lemma_first_occurrence(uri@, "://"@, 0);
                    }
                    Err(StorageError::UnsupportedScheme(slice(uri, 0, at)))
                },
                None => Ok(StorageUri::LocalPath(uri.to_owned())),
            }
        }
    }

    /// The path on the local file system.
    #[must_use]
    pub fn to_local_path(&self) -> (path: &str)
        ensures
            path@ == self@.path(),
    {
        match self {
            StorageUri::LocalPath(p) => p.as_str(),
            StorageUri::FileUri(p) => p.as_str(),
        }
    }

    /// Whether the path exists on the file system at the time of the call.
    #[must_use]
    pub fn exists_on_disk(&self) -> (found: bool) {
        path_exists(self.to_local_path())
    }

    /// The path of a file under this location: an absolute path stands for
    /// itself, any other is adjoined to the location's path.
    #[must_use]
    pub fn resolve_relative_path(&self, relative_path: &str) -> (resolved: String)
        ensures
            resolved@ == joined_path(self@.path(), relative_path@),
    {
        join_paths(self.to_local_path(), relative_path)
    }

    /// The location written out: the path, behind `file://` where it was
    /// given so.
    pub fn to_string(&self) -> (text: String)
        ensures
            text@ == self@.text(),
    {
        match self {
            StorageUri::LocalPath(p) => p.clone(),
            StorageUri::FileUri(p) => join("file://", p.as_str()),
        }
    }
}

} // verus!
