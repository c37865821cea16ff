use vstd::prelude::*;

verus! {

/// The single tagged error type returned by every entry point.  Each
/// operation aborts with exactly one of these; no operation partially
/// succeeds.
#[derive(Clone, Copy, Debug, PartialEq, Eq, Structural)]
pub enum UniversalNftError {
    /// Caller is not the recorded authority.
    Unauthorized,
    /// A gateway address is the zero/default address.
    InvalidGateway,
    /// Caller of an inbound delivery is not the trusted gateway.
    InvalidGatewayCaller,
    /// The asset (or its record) does not exist in the expected state.
    NftNotFound,
    /// A token identity is the zero value.
    InvalidTokenId,
    /// A chain identifier is zero or refers to this chain when it must not.
    InvalidChainId,
    /// The external metadata service rejected the creation call.
    MetadataCreationFailed,
    /// The external metadata service rejected the uniqueness certificate.
    MasterEditionCreationFailed,
    /// The external token service rejected the mint call.
    TokenMintFailed,
    /// The external token service rejected the burn call.
    TokenBurnFailed,
    /// A cross-chain transfer could not be carried out.
    CrossChainTransferFailed,
    /// A recipient address is the zero value.
    InvalidRecipient,
    /// The execution budget was insufficient.
    InsufficientComputeBudget,
    /// An account does not meet the rent exemption requirement.
    RentExemptionNotMet,
    /// An inbound payload does not decode into a known message shape.
    InvalidCrossChainMessage,
    /// The requested cross-chain operation is not supported.
    CrossChainNotSupported,
    /// An inbound payload is not valid UTF-8 where text was expected.
    InvalidDataFormat,
    /// An explicit "treat as failed" marker was found in a payload.
    RevertMessage,
    /// The gateway rejected a deposit.
    GatewayDepositFailed,
    /// Caller-supplied instruction data violates a precondition.
    InvalidInstructionData,
    /// An account failed validation.
    AccountValidationFailed,
    /// The program state has not been initialized.
    ProgramNotInitialized,
}

} // verus!
