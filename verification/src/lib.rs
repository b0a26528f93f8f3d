//! A reader that contains no data.
//!
//! The reader created by [`empty`] always reports a clean end-of-stream:
//! every read completes immediately with zero bytes read, the buffered
//! variant always exposes an empty view, and consuming from it is a no-op.
//! None of its operations can fail, suspend or block, and none of them
//! touches the caller's buffer.

use vstd::prelude::*;

verus! {

/// The outcome of polling an asynchronous operation: either the operation
/// has finished with a value, or it would have to suspend and be polled
/// again later.
///
/// Every polling operation of this crate promises `Poll::Ready` in its
/// contract: the reader never suspends.
#[derive(Debug, PartialEq, Eq)]
pub enum Poll<T> {
    /// The operation finished with this value.
    Ready(T),
    /// The operation would have to suspend.
    Pending,
}

/// The error type of the read operations. No operation of this crate can
/// fail: nothing ever constructs a value of this type, and every contract
/// below promises success.
#[derive(Debug, PartialEq, Eq)]
pub struct ReadError {
    _priv: (),
}

/// A reader that contains no data.
///
/// This reader is constructed by the [`empty`] function. It holds no state,
/// so all of its values behave identically.
pub struct Empty {
    _priv: (),
}

/// The single abstract value of [`Empty`]: the type holds no state, so
/// every value of it is equal to this one.
pub closed spec fn empty_value() -> Empty {
    Empty { _priv: () }
}

/// Creates a reader that contains no data.
///
/// Construction cannot fail, and the value returned is indistinguishable
/// from any other reader of this type (see [`lemma_values_equal`]).
pub fn empty() -> (r: Empty)
    ensures
        r == empty_value(),
{
    Empty { _priv: () }
}

/// All values of [`Empty`] are equal: the type holds no state, so readers
/// obtained from [`empty`] are indistinguishable from one another.
pub proof fn lemma_values_equal(a: Empty, b: Empty)
    ensures
        a == b,
{
}

impl Empty {
    /// Polls a read into `buf`: completes immediately on every call, with
    /// success and zero bytes read, and leaves `buf` untouched. Calls are
    /// independent of one another: the reader itself is unchanged too, so
    /// any sequence of reads sees the same outcome on every call.
    pub fn poll_read(&mut self, buf: &mut Vec<u8>) -> (r: Poll<Result<usize, ReadError>>)
        ensures
            r == Poll::Ready(Ok::<usize, ReadError>(0usize)),
            final(buf)@ == old(buf)@,
            *final(self) == *old(self),
    {
        Poll::Ready(Ok(0))
    }

    /// Polls the internal buffer and exposes a view of it: completes
    /// immediately on every call, with success and an empty view. The
    /// reader owns no data, so the view has length zero.
    pub fn poll_fill_buf(&mut self) -> (r: Poll<Result<&'static [u8], ReadError>>)
        ensures
            (r matches Poll::Ready(res) && res matches Ok(view) && view@ == Seq::<u8>::empty()),
            *final(self) == *old(self),
    {
        let view: &'static [u8] = &[];
        Poll::Ready(Ok(view))
    }

    /// Consumes `amt` bytes from the previously exposed view. There is
    /// never any buffered content to advance past, so this accepts any
    /// count, never fails, and changes nothing: subsequent calls of the
    /// other operations behave exactly as before.
    pub fn consume(&mut self, amt: usize)
        ensures
            *final(self) == *old(self),
    {
        let _ = amt;
    }

    /// A fixed, human-readable text identifying this reader in logs. The
    /// reader holds no state, so the text is the same for every value.
    pub fn debug_text(&self) -> (r: String)
        ensures
            r@ == "Empty { .. }"@,
    {
        String::from_str("Empty { .. }")
    }
}

} // verus!
