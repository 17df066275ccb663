//! What can go wrong around a resolution.
use vstd::prelude::*;

verus! {

/// A failure that keeps a sticker from reaching the requester.
///
/// Finding nothing is no failure: resolution answers `None` both when no
/// sticker bears the name and when the requester may not use stickers.
#[derive(Debug, Clone, PartialEq, Eq)]
pub enum Error {
    /// A registry or the role directory could not answer.
    LookupFailure(String),
    /// The sticker was found, but no image reference can be made for it
    /// (a self-hosted image while no host name is configured).
    ResourceUnavailable,
    /// The image reference was made, but sending it failed.
    DeliveryFailure(String),
    /// Any other failure, with a message for the requester.
    Other(String),
}

} // verus!
