//! The failures that this crate reports.

use vstd::prelude::*;

verus! {

/// Why an operation of this crate failed. Every failure is a value: nothing
/// in the crate aborts the process.
#[derive(Clone, Copy, Debug, PartialEq, Eq, Structural)]
pub enum Error {
    /// An argument of the form `first:second` did not hold exactly one colon.
    InvalidFormat,
    /// The address part of a recipient could not be read.
    InvalidAddress,
    /// The amount part of a recipient is not an unsigned 64-bit number.
    InvalidAmount,
    /// The key text is not a well-formed extended key of the target network.
    InvalidKeyEncoding,
    /// The derivation path text is malformed.
    InvalidDerivationPath,
    /// The key material was refused while a key or a descriptor was derived.
    KeyDerivationFailed,
    /// A multipath descriptor was asked for a script type other than BIP84.
    UnsupportedMultipath,
    /// No recovery phrase could be generated.
    MnemonicGenerationFailed,
    /// A descriptor text could not be read back.
    DescriptorParsingFailed,
    /// A wallet needs at least an external descriptor.
    MissingExternalDescriptor,
    /// The light-client node is not running, or stopped before it sent an update.
    NodeNotRunning,
    /// The wallet refused the update that the node sent.
    UpdateApplicationFailed,
    /// A policy was to be compiled for a script type other than `sh`, `wsh`
    /// and `sh-wsh`.
    InvalidScriptType,
    /// A policy names a key for which no alias is given.
    UnknownAlias,
}

impl Error {
    /// The text of `message`.
    pub open spec fn message_text(self) -> Seq<char> {
        match self {
            Error::InvalidFormat => "Invalid format"@,
            Error::InvalidAddress => "Invalid address"@,
            Error::InvalidAmount => "Invalid amount"@,
            Error::InvalidKeyEncoding => "Invalid extended key"@,
            Error::InvalidDerivationPath => "Invalid derivation path"@,
            Error::KeyDerivationFailed => "Key derivation failed"@,
            Error::UnsupportedMultipath => "Only BIP84 is supported for multipath at the moment."@,
            Error::MnemonicGenerationFailed => "Mnemonic generation failed"@,
            Error::DescriptorParsingFailed => "Failed to parse descriptor"@,
            Error::MissingExternalDescriptor => "An external descriptor is required."@,
            Error::NodeNotRunning => "Kyoto node failed to start"@,
            Error::UpdateApplicationFailed => "Failed to apply update"@,
            Error::InvalidScriptType => "InvalidScriptType"@,
            Error::UnknownAlias => "Couldn't map alias"@,
        }
    }

    /// A short description for a person to read.
    pub fn message(self) -> (r: &'static str)
        ensures
            r@ == self.message_text(),
    {
        match self {
            Error::InvalidFormat => "Invalid format",
            Error::InvalidAddress => "Invalid address",
            Error::InvalidAmount => "Invalid amount",
            Error::InvalidKeyEncoding => "Invalid extended key",
            Error::InvalidDerivationPath => "Invalid derivation path",
            Error::KeyDerivationFailed => "Key derivation failed",
            Error::UnsupportedMultipath => "Only BIP84 is supported for multipath at the moment.",
            Error::MnemonicGenerationFailed => "Mnemonic generation failed",
            Error::DescriptorParsingFailed => "Failed to parse descriptor",
            Error::MissingExternalDescriptor => "An external descriptor is required.",
            Error::NodeNotRunning => "Kyoto node failed to start",
            Error::UpdateApplicationFailed => "Failed to apply update",
            Error::InvalidScriptType => "InvalidScriptType",
            Error::UnknownAlias => "Couldn't map alias",
        }
    }
}

} // verus!
