use vstd::prelude::*;

verus! {

/// The one failure that a conversion job ends with.
#[derive(Clone, Copy, Debug, PartialEq, Eq, Structural)]
pub enum ConvertError {
    /// The input bytes are not an image that the codec can read.
    Decode,
    /// The target format is not one of the supported formats.
    UnsupportedFormat,
    /// The codec failed while encoding.
    Encode,
    /// Cancellation was observed before an item was admitted.
    Cancelled,
    /// The archive could not be assembled.
    Aggregation,
    /// The execution unit that ran an item failed.
    TaskFailed,
    /// An item is larger than the whole memory budget and can never be admitted.
    ItemTooLarge,
}

} // verus!
