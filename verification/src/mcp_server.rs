//! The engine core behind the tool server.  The line-oriented transport
//! itself (reading requests, writing responses) lives in the surrounding
//! application; this type holds the filler the server answers with.

use vstd::prelude::*;
use crate::pdf_filler::PdfFiller;

verus! {

/// The server's computation core: a filler in strict mode.
#[derive(Debug, Clone)]
pub struct McpServer {
    pub pdf_filler: PdfFiller,
}

impl McpServer {
    /// A server core whose filler validates strictly.
    pub fn new() -> (s: Self)
        ensures
            !s.pdf_filler.validator.allow_rule_violations,
    {
        Self { pdf_filler: PdfFiller::new(false) }
    }
}

} // verus!
