use vstd::prelude::*;

verus! {

/// The failures that the scanning and locking logic reports.
#[derive(Debug, Clone, Copy, PartialEq, Eq, Structural)]
pub enum YasError {
    /// A pixel coordinate lies outside a captured image.
    PixelOutOfBounds,
    /// The window's aspect ratio matches none of the layout templates.
    UnsupportedResolution,
    /// A lock instruction payload of a known format failed to decode.
    LockDecode,
    /// Two click actions, or two validations, target the same item.
    LockConflict(u32),
    /// A lock action targets an item beyond the inventory.
    TargetOutOfRange(u32),
    /// An item's lock state differs from the state a validation expects.
    ValidationMismatch(u32),
}

} // verus!
