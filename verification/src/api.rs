//! The request body of the compile endpoint on the file-data interface.

use crate::compiler::SourceFile;
use vstd::prelude::*;

verus! {

/// A compile request: the ordered source units to materialize and run.
pub struct CompileOptions {
    pub source_code: Vec<SourceFile>,
}

} // verus!
