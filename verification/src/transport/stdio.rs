//! What the stdio transport decides about each line it reads from standard
//! input.  Reading the lines and writing messages to standard output are the
//! transport's I/O; this is the decision between them.
use vstd::prelude::*;

use crate::error::{Error, ErrorView};

verus! {

/// What the reader of standard input does after one attempt to read a line.
#[derive(Debug)]
pub enum LineStep {
    /// End of input: stop reading.
    Stop,
    /// A line was read: decode it as a message and deliver the outcome.
    Decode,
    /// Reading failed: deliver this error, then stop reading.
    Fail(Error),
}

/// What a line step holds.
pub enum LineStepView {
    Stop,
    Decode,
    Fail(ErrorView),
}

impl View for LineStep {
    type V = LineStepView;

    open spec fn view(&self) -> LineStepView {
        match self {
            LineStep::Stop => LineStepView::Stop,
            LineStep::Decode => LineStepView::Decode,
            LineStep::Fail(e) => LineStepView::Fail(e@),
        }
    }
}

/// How the reader treats the outcome of reading a line: zero bytes is the
/// end of input, any other count is a line to decode, and a read failure
/// is delivered as an I/O error with the failure's description.
pub open spec fn line_spec(read: Result<usize, Seq<char>>) -> LineStepView {
    match read {
        Ok(n) => if n == 0 {
            LineStepView::Stop
        } else {
            LineStepView::Decode
        },
        Err(description) => LineStepView::Fail(ErrorView::Io(description)),
    }
}

/// What the reader does after reading `read` bytes, or failing with a
/// description of the failure.
pub fn line_step(read: Result<usize, String>) -> (r: LineStep)
    ensures
        r@ == line_spec(
            match read {
                Ok(n) => Ok(n),
                Err(d) => Err(d@),
            },
        ),
{
    match read {
        Ok(0) => LineStep::Stop,
        Ok(_) => LineStep::Decode,
        Err(description) => LineStep::Fail(Error::Io(description)),
    }
}

} // verus!
