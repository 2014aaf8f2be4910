//! Protocols of the byte streams: how a writer is released, whether it is
//! held by value or behind a box, and how a read that came up short is
//! reported.

use vstd::prelude::*;
use vstd::string::*;
use crate::error::InnoFileResult;

verus! {

/// Closing through a box. Every [`Closeable`] has it; it is what lets a
/// writer be closed where only a boxed, type-erased handle is at hand.
pub trait CloseableBoxed {
    /// Whether `outcome` can be the result of closing the value through a
    /// box.
    spec fn boxed_closes_with(&self, outcome: InnoFileResult<()>) -> bool;

    /// Consumes the box and closes what it holds.
    fn close_boxed(self: Box<Self>) -> (r: InnoFileResult<()>)
        ensures
            self.boxed_closes_with(r),
    ;
}

/// A resource that has to be closed, once, after its last use.
pub trait Closeable: CloseableBoxed {
    /// Whether `outcome` can be the result of closing this value. Each
    /// implementation says what it promises.
    spec fn closes_with(&self, outcome: InnoFileResult<()>) -> bool;

    /// Consumes the value and releases it, flushing what it still holds.
    fn close(self) -> (r: InnoFileResult<()>)
        ensures
            self.closes_with(r),
    ;
}

impl<T: Closeable> CloseableBoxed for T {
    /// Closing through a box is closing the content.
    open spec fn boxed_closes_with(&self, outcome: InnoFileResult<()>) -> bool {
        self.closes_with(outcome)
    }

    fn close_boxed(self: Box<Self>) -> (r: InnoFileResult<()>) {
        (*self).close()
    }
}

impl<T: Closeable + ?Sized> Closeable for Box<T> {
    /// A box closes as its content closes through the box.
    open spec fn closes_with(&self, outcome: InnoFileResult<()>) -> bool {
        (**self).boxed_closes_with(outcome)
    }

    fn close(self) -> (r: InnoFileResult<()>) {
        self.close_boxed()
    }
}

/// Closing a boxed value yields what closing the value itself yields: the
/// box is taken apart and the content closed.
pub proof fn lemma_box_closes_as_content<T: Closeable>(boxed: Box<T>, outcome: InnoFileResult<()>)
    ensures
        boxed.closes_with(outcome) <==> (*boxed).closes_with(outcome),
{
}

/// Whether `text` reports that `read` bytes came where `expected` were asked
/// for.
pub open spec fn short_read_message_is(expected: usize, read: usize, text: Seq<char>) -> bool {
    exists|wanted: String, got: String|
        {
            &&& #[trigger] to_string_from_display_ensures::<usize>(&expected, wanted)
            &&& #[trigger] to_string_from_display_ensures::<usize>(&read, got)
            &&& text == "Expected to read "@ + wanted@ + " bytes, read only "@ + got@
        }
}

/// Checks that a read of `expected` bytes yielded all of them: `None` where
/// it did, else the message that reports both counts.
pub fn short_read(expected: usize, read: usize) -> (r: Option<String>)
    ensures
        match r {
            None => read == expected,
            Some(message) => read != expected && short_read_message_is(expected, read, message@),
        },
{
    if read == expected {
        None
    } else {
        let wanted = expected.to_string();
        let got = read.to_string();
        let message = "Expected to read ".to_owned().concat(wanted.as_str()).concat(
            " bytes, read only ",
        ).concat(got.as_str());
        Some(message)
    }
}

} // verus!
