//! The resource that serves files below a directory.
//!
//! Reading a file is the caller's work. What stands here is what is decided
//! before and after it: which file a URI names, which type its content has,
//! and what is returned for the text that was read or the reason it was not.

use super::{Resource, ResourceReadResult, ResourceReadResultView, ResourceView};
use crate::utils::error::{Error, ErrorKind, ErrorView};
use crate::utils::text::{ends_with, strip_prefix};
use std::path::PathBuf;
use vstd::prelude::*;

verus! {

#[verifier::external_type_specification]
#[verifier::external_body]
pub struct ExPathBuf(std::path::PathBuf);

/// Serves the files below `base_dir` under URIs that begin with `file:///data/`.
#[derive(Debug)]
pub struct FileResource {
    base_dir: PathBuf,
}

impl FileResource {
    /// The directory whose files are served.
    pub closed spec fn spec_base_dir(&self) -> PathBuf {
        self.base_dir
    }

    /// What `uri` has after `file:///data/`, or the failure for a URI that
    /// does not begin so.
    pub open spec fn spec_file_name(uri: Seq<char>) -> Result<Seq<char>, ErrorView> {
        if "file:///data/"@.is_prefix_of(uri) {
            Ok(uri.subrange("file:///data/"@.len() as int, uri.len() as int))
        } else {
            Err(ErrorView { kind: ErrorKind::ResourceError, detail: "Invalid URI: "@ + uri })
        }
    }

    /// The type of the content of a file, by the end of its name.
    pub open spec fn spec_mime_type(file_name: Seq<char>) -> Seq<char> {
        if ".txt"@.is_suffix_of(file_name) {
            "text/plain"@
        } else if ".json"@.is_suffix_of(file_name) {
            "application/json"@
        } else {
            "application/octet-stream"@
        }
    }

    /// What reading `uri` ends with, given what reading the file `file_name`
    /// gave: its text, or the reason it could not be read.
    pub open spec fn spec_outcome(
        uri: Seq<char>,
        file_name: Seq<char>,
        read: Result<Seq<char>, Seq<char>>,
    ) -> Result<ResourceReadResultView, ErrorView> {
        match read {
            Ok(text) => Ok(
                ResourceReadResultView::single(
                    ResourceView::of_text(uri, Self::spec_mime_type(file_name), text),
                ),
            ),
            Err(reason) => Err(
                ErrorView {
                    kind: ErrorKind::ResourceError,
                    detail: "Failed to read file: "@ + reason,
                },
            ),
        }
    }

    /// The resource that serves the files below `base_dir`.
    pub fn new(base_dir: PathBuf) -> (r: Self)
        ensures
            r.spec_base_dir() == base_dir,
    {
        FileResource { base_dir }
    }

    /// The directory whose files are served.
    pub fn base_dir(&self) -> (r: &PathBuf)
        ensures
            *r == self.spec_base_dir(),
    {
        &self.base_dir
    }

    /// The name of the file that `uri` stands for.
    pub fn file_name(uri: &str) -> (r: Result<&str, Error>)
        ensures
            match r {
                Ok(name) => Self::spec_file_name(uri@) == Ok::<_, ErrorView>(name@),
                Err(e) => Self::spec_file_name(uri@) == Err::<Seq<char>, _>(e@),
            },
    {
        match strip_prefix(uri, "file:///data/") {
            Some(name) => {
                proof {
                    let prefix = "file:///data/"@;
                    assert(name@ =~= uri@.subrange(prefix.len() as int, uri@.len() as int));
                    assert(prefix =~= uri@.subrange(0, prefix.len() as int));
                }
                Ok(name)
            },
            None => Err(
                Error::ResourceError(String::from_str("Invalid URI: ").concat(uri)),
            ),
        }
    }

    /// The type of the content of a file, by the end of its name.
    pub fn mime_type(file_name: &str) -> (r: &'static str)
        ensures
            r@ == Self::spec_mime_type(file_name@),
    {
        if ends_with(file_name, ".txt") {
            "text/plain"
        } else if ends_with(file_name, ".json") {
            "application/json"
        } else {
            "application/octet-stream"
        }
    }

    /// The failure for a file that lies outside the directory.
    pub fn access_denied() -> (r: Error)
        ensures
            r@ == (ErrorView {
                kind: ErrorKind::ResourceError,
                detail: "Access denied: Path traversal attempt"@,
            }),
    {
        Error::ResourceError(String::from_str("Access denied: Path traversal attempt"))
    }

    /// What reading `uri` ends with, given what reading the file gave: its
    /// text, or the reason it could not be read.
    pub fn outcome(uri: &str, file_name: &str, read: Result<String, String>) -> (r: Result<
        ResourceReadResult,
        Error,
    >)
        ensures
            super::read_outcome_view(r) == Self::spec_outcome(
                uri@,
                file_name@,
                match read {
                    Ok(text) => Ok(text@),
                    Err(reason) => Err(reason@),
                },
            ),
    {
        match read {
            Ok(text) => Ok(
                ResourceReadResult::single(Resource::of_text(uri, Self::mime_type(file_name), text)),
            ),
            Err(reason) => Err(
                Error::ResourceError(
                    String::from_str("Failed to read file: ").concat(reason.as_str()),
                ),
            ),
        }
    }
}

} // verus!
