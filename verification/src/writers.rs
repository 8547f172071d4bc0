//! Where output goes.

pub mod buffered;

pub use buffered::BufferedWriter;

use vstd::prelude::*;

verus! {

/// A sink for lines of output.
pub trait ClippyWriter {
    /// Writes `s` and ends the line.
    fn write_line(&mut self, s: &str);

    /// What was written, where the sink keeps it; nothing where it keeps
    /// nothing or nothing was written.
    fn get_buffer(&self) -> Option<&Vec<u8>>;
}

} // verus!
