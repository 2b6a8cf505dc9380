use vstd::prelude::*;

verus! {

/// Identifier of an inherent data entry: eight bytes.
pub type InherentIdentifier = [u8; 8];

/// Errors of the digest provider and of its inherent data providers.
#[derive(Debug)]
pub enum Error {
    /// No entry under this identifier in the inherent data.
    InherentDataNotFound(InherentIdentifier),
    /// The entry under this identifier does not decode.
    InherentDataMalformed(InherentIdentifier),
    /// An entry under this identifier is already present.
    InherentDataExists(InherentIdentifier),
    /// A provider with this identifier is already registered.
    ProviderAlreadyRegistered(InherentIdentifier),
    /// No viable epoch, or no epoch descriptor, for the block being built.
    InvalidAuthoritiesSet,
    /// The system clock reads a time before the Unix epoch.
    ClockBeforeUnixEpoch,
}

} // verus!
