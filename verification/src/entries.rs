//! The logical result of extracting an archive: a list of filesystem
//! entries to materialize under the destination directory, and the error
//! taxonomy every extractor reports through.

use vstd::prelude::*;

verus! {

/// One logical entry of an extracted archive, relative to the destination
/// directory: either a directory to create or a file to write. `unix_mode`
/// carries the recorded Unix permission bits when the source format stores
/// them.
#[derive(Debug)]
pub struct FsEntry {
    pub path: String,
    pub is_dir: bool,
    pub data: Vec<u8>,
    pub unix_mode: Option<u32>,
}

/// Why an extraction job failed.
#[derive(Debug)]
pub enum ExtractError {
    /// The source file does not exist or could not be read.
    NotFound,
    /// No file stem could be derived from the source path.
    NoName,
    /// The file's extension names no supported format; carries the
    /// (lower-cased) extension text.
    Unsupported(String),
    /// The format is recognized but its decoder must be driven outside
    /// this library (it reads the filesystem itself, or can only be called
    /// where a panic can be contained).
    External,
    /// The bytes do not parse as the claimed format, or the archive holds
    /// nothing extractable; carries the decoder's diagnostic.
    Format(String),
    /// An entry's content could not be decoded; carries the diagnostic.
    Read(String),
    /// An entry's decoded name would escape the destination directory;
    /// carries the offending name.
    UnsafeName(String),
}

/// The text of an error's message, by variant.
pub open spec fn spec_message(e: &ExtractError) -> Seq<char> {
    match e {
        ExtractError::NotFound => "source file not found"@,
        ExtractError::NoName => "no file name to derive a destination from"@,
        ExtractError::Unsupported(ext) => "unsupported format: "@ + ext@,
        ExtractError::External => "format is decoded outside this library"@,
        ExtractError::Format(msg) => "could not read archive: "@ + msg@,
        ExtractError::Read(msg) => "could not extract entry: "@ + msg@,
        ExtractError::UnsafeName(name) => "entry name escapes the destination: "@ + name@,
    }
}

impl ExtractError {
    /// A human-readable description of the failure.
    pub fn message(&self) -> (r: String)
        ensures
            r@ == spec_message(self),
    {
        match self {
            ExtractError::NotFound => String::from_str("source file not found"),
            ExtractError::NoName => String::from_str("no file name to derive a destination from"),
            ExtractError::Unsupported(ext) => String::from_str("unsupported format: ").concat(
                ext.as_str(),
            ),
            ExtractError::External => String::from_str("format is decoded outside this library"),
            ExtractError::Format(msg) => String::from_str("could not read archive: ").concat(
                msg.as_str(),
            ),
            ExtractError::Read(msg) => String::from_str("could not extract entry: ").concat(
                msg.as_str(),
            ),
            ExtractError::UnsafeName(name) => String::from_str(
                "entry name escapes the destination: ",
            ).concat(name.as_str()),
        }
    }
}

/// True when position `i` of `s` starts a `..` path component: two dots
/// delimited by the string's ends or by `/` separators.
pub open spec fn is_dotdot_component(s: Seq<char>, i: int) -> bool {
    &&& 0 <= i
    &&& i + 2 <= s.len()
    &&& s[i] == '.'
    &&& s[i + 1] == '.'
    &&& (i == 0 || s[i - 1] == '/')
    &&& (i + 2 == s.len() || s[i + 2] == '/')
}

/// True when `s` is a safe destination-relative path: not absolute, and
/// holding no `..` component, so that joining it beneath a destination
/// directory resolves to the destination or one of its subdirectories.
pub open spec fn safe_rel_path(s: Seq<char>) -> bool {
    &&& (s.len() > 0 ==> s[0] != '/')
    &&& forall|i: int| !#[trigger] is_dotdot_component(s, i)
}

/// True when `s` is a safe destination-relative path.
pub fn is_safe_rel_path(s: &str) -> (r: bool)
    ensures
        r == safe_rel_path(s@),
{
    let chars = crate::text::str_to_chars(s);
    let n = chars.len();
    if n > 0 && chars[0] == '/' {
        return false;
    }
    let mut i: usize = 0;
    while i < n
        invariant
            n == s@.len(),
            chars@ == s@,
            i <= n,
            forall|j: int| j < i ==> !#[trigger] is_dotdot_component(s@, j),
        decreases n - i,
    {
        if n - i >= 2 && chars[i] == '.' && chars[i + 1] == '.' && (i == 0 || chars[i - 1] == '/')
            && (n - i == 2 || chars[i + 2] == '/') {
            proof {
                assert(is_dotdot_component(s@, i as int));
            }
            return false;
        }
        i = i + 1;
    }
    proof {
        assert forall|j: int| !#[trigger] is_dotdot_component(s@, j) by {
            if 0 <= j && j + 2 <= s@.len() {
                assert(j < i);
            }
        }
    }
    true
}

} // verus!
