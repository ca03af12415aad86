use vstd::prelude::*;

verus! {

/// How much type inference to run on freshly loaded columns.
#[derive(Debug, Clone, Copy, PartialEq, Eq, Structural)]
pub enum InferSchema {
    No,
    Fast,
    Full,
    Safe,
}

/// The options of a session that the library reads.
#[derive(Debug, Clone)]
pub struct Args {
    /// Comma-separated column widths of fixed-width input; empty to infer them.
    pub widths: String,
    pub no_header: bool,
    pub separator_length: usize,
    pub no_flexible_width: bool,
    pub infer_schema: InferSchema,
}

} // verus!
