//! Writing to the streams a run is handed.

use vstd::prelude::*;

verus! {

/// `Write::write_all` of the text's bytes: the bytes are written, or the writer's complaint
/// comes back. Whether a write succeeds is the writer's business, so nothing is said of it.
#[verifier::external_body]
pub(crate) fn write_text<W: std::io::Write>(out: &mut W, text: &str) -> Result<(), String> {
    match out.write_all(text.as_bytes()) {
        Ok(()) => Ok(()),
        Err(error) => Err(error.to_string()),
    }
}

/// `Write::flush`: what was written reaches its destination, or the writer's complaint
/// comes back.
#[verifier::external_body]
pub(crate) fn flush<W: std::io::Write>(out: &mut W) -> Result<(), String> {
    match out.flush() {
        Ok(()) => Ok(()),
        Err(error) => Err(error.to_string()),
    }
}

/// Write one line of progress. A line that cannot be written is dropped: progress is a
/// courtesy, and the run's result does not depend on it.
pub fn write_line<W: std::io::Write>(out: &mut W, line: &str) {
    let _ = write_text(out, line);
    let _ = write_text(out, "\n");
}

} // verus!
