//! What the use cases need from the outside world: file discovery, reading,
//! and `.ucc` parsing, each behind a trait that callers implement.
use vstd::prelude::*;

use crate::domain::FeatureDocument;
use crate::text::{push_str, string_from_chars};

verus! {

/// Why a use case could not complete.
#[derive(Debug)]
pub enum CoreError {
    /// A file or directory could not be read; `message` says why.
    Io { path: String, message: String },
    /// A `.ucc` file does not follow the expected schema.
    Parse { path: String, reason: String },
}

/// The text of an error, as it is shown to users.
pub open spec fn core_error_text(e: CoreError) -> Seq<char> {
    match e {
        CoreError::Io { path, message } => "I/O error at '"@ + path@ + "': "@ + message@,
        CoreError::Parse { path, reason } => "Parse error at '"@ + path@ + "': "@ + reason@,
    }
}

impl CoreError {
    /// The text of the error, as it is shown to users.
    pub fn message(&self) -> (r: String)
        ensures
            r@ == core_error_text(*self),
    {
        let mut out: Vec<char> = Vec::new();
        match self {
            CoreError::Io { path, message } => {
                push_str(&mut out, "I/O error at '");
                push_str(&mut out, path.as_str());
                push_str(&mut out, "': ");
                push_str(&mut out, message.as_str());
            },
            CoreError::Parse { path, reason } => {
                push_str(&mut out, "Parse error at '");
                push_str(&mut out, path.as_str());
                push_str(&mut out, "': ");
                push_str(&mut out, reason.as_str());
            },
        }
        assert(out@ =~= core_error_text(*self));
        string_from_chars(out.as_slice())
    }
}

/// Where `.ucc` files are found and read.
pub trait UccFileRepository {
    /// The `.ucc` files under `root`: in all subdirectories when `recursive`,
    /// otherwise directly in `root`.
    fn find_ucc_files(&self, root: &str, recursive: bool) -> Result<Vec<String>, CoreError>;

    /// The contents of a file.
    fn read_file(&self, path: &str) -> Result<String, CoreError>;
}

/// Turns the contents of a `.ucc` file into a document.
pub trait UccParser {
    /// Parses the contents of the file at `source_path`.
    fn parse(&self, source_path: &str, content: &str) -> Result<FeatureDocument, CoreError>;
}

/// Where source files that may hold automated tests are found and read.
pub trait TestFileRepository {
    /// The source files under `root` that may hold tests.
    fn find_test_files(&self, root: &str) -> Result<Vec<String>, CoreError>;

    /// The lines of a source file.
    fn read_lines(&self, path: &str) -> Result<Vec<String>, CoreError>;
}

} // verus!
