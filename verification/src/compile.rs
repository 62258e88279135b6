//! Request-side data model: source units tagged by kind, and the optional
//! assignment kind that selects extra fixture files.

use vstd::prelude::*;

verus! {

/// Selects a static, build-time-known set of fixture files that is copied
/// into the workspace beside the user's source units. The kind-to-fixture
/// mapping is never user-supplied.
#[derive(Clone, Copy, Debug, PartialEq, Eq, Structural)]
pub enum AssignmentType {
    Example,
}

/// One user-submitted source unit: a logical kind carrying its raw text.
/// The kind determines the filename extension under which the unit is
/// materialized; the mapping is total and exhaustive.
pub enum SourceFile {
    Cpp(String),
    CppHeader(String),
    CHeader(String),
    Php(String),
}

impl SourceFile {
    /// The extension, with leading dot, that this unit's kind maps to.
    pub open spec fn ext_spec(&self) -> Seq<char> {
        match self {
            SourceFile::Cpp(_) => ".cpp"@,
            SourceFile::CppHeader(_) => ".hpp"@,
            SourceFile::CHeader(_) => ".h"@,
            SourceFile::Php(_) => ".php"@,
        }
    }

    /// The raw text carried by this unit.
    pub open spec fn text_spec(&self) -> Seq<char> {
        match self {
            SourceFile::Cpp(x) => x@,
            SourceFile::CppHeader(x) => x@,
            SourceFile::CHeader(x) => x@,
            SourceFile::Php(x) => x@,
        }
    }

    /// Extension with leading dot.
    pub fn full_extension(&self) -> (r: &'static str)
        ensures
            r@ == self.ext_spec(),
    {
        match self {
            SourceFile::Cpp(_) => ".cpp",
            SourceFile::CppHeader(_) => ".hpp",
            SourceFile::CHeader(_) => ".h",
            SourceFile::Php(_) => ".php",
        }
    }

    /// Extracts the code from the wrapped enum.
    pub fn unwrap_ref(&self) -> (r: &String)
        ensures
            r@ == self.text_spec(),
    {
        match self {
            SourceFile::Cpp(x) => x,
            SourceFile::CppHeader(x) => x,
            SourceFile::CHeader(x) => x,
            SourceFile::Php(x) => x,
        }
    }
}

/// A compile request: the ordered source units plus an optional assignment
/// kind selecting extra fixture files.
pub struct Options {
    pub source_code: Vec<SourceFile>,
    pub assignment: Option<AssignmentType>,
}

} // verus!
