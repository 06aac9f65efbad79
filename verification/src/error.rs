//! The closed error taxonomy of the driver.
//!
//! Every failure is a terminal, local validation failure; nothing inside the
//! crate retries or recovers.

use vstd::prelude::*;

verus! {

/// Validation failures reported by the driver.
#[derive(Debug, Clone, Copy, PartialEq, Eq, Structural, Hash)]
pub enum Error {
    /// An identifier does not map to a known module type.
    UnknownModule,
    /// An identifier does not map to a known module category.
    UnknownCategory,
    /// A register or byte slice handed to a codec or the mapper has the wrong size.
    BufferLength,
    /// A 2-bit sequence counter field would encode a value above 3.
    SequenceNumber,
    /// A tunnel payload exceeds the frame's user-data capacity.
    DataLength,
    /// A flat register list has the wrong length for pairwise decoding.
    RegisterCount,
    /// A configuration register encodes an out-of-range enumerator.
    ChannelParameter,
    /// A channel-value list has the wrong arity or an unexpected variant.
    ChannelValue,
    /// A bit address has an illegal bit component, or encode-time offsets are
    /// non-contiguous or out of order.
    ModuleOffset,
    /// A caller-supplied module/channel pair is out of range.
    Address,
}

} // verus!
