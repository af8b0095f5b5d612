//! The vocabulary of fee payment in assets other than the native token: the
//! ways a fee source or a fee dispatch is refused, and the questions a runtime
//! answers about accounts and assets.

use vstd::prelude::*;

verus! {

/// Why an asset is not accepted as a source of fees.
#[derive(Clone, Copy, Debug, PartialEq, Eq, Structural)]
pub enum InvalidFeeSource {
    Inactive,
    Unlisted,
}

/// Why a fee could not be withdrawn or corrected.
#[derive(Clone, Copy, Debug, PartialEq, Eq, Structural)]
pub enum InvalidFeeDispatch {
    InsufficientBalance,
    UnresolvedRoute,
    CorrectionError,
}

/// Decides which assets may pay fees.
pub trait FeeSource {
    type AccountId;

    type AssetId;

    /// Whether both the caller and the asset are in good condition to be used
    /// as a fee source.
    fn accepted(who: &Self::AccountId, id: &Self::AssetId) -> Result<(), InvalidFeeSource>;

    /// Whether an asset is enabled globally to be considered as a fee source.
    fn listed(id: &Self::AssetId) -> Result<(), InvalidFeeSource>;
}

/// Measures a fee in an asset.
pub trait FeeMeasure {
    type AssetId;

    type Balance;

    /// The runtime's reason for calling a transaction invalid.
    type Error;

    /// The amount of the asset that pays for `balance` of the native
    /// currency.
    fn measure(id: &Self::AssetId, balance: Self::Balance) -> Result<Self::Balance, Self::Error>;
}

/// Withdraws a fee and corrects it once the call has run.
pub trait FeeDispatch {
    type AccountId;

    type AssetId;

    type Balance;

    /// The runtime's calls.
    type Call;

    /// The runtime's reasons for a withdrawal.
    type Reasons;

    /// What the runtime knows of a call after its dispatch.
    type PostInfo;

    fn withdraw(
        account: &Self::AccountId,
        id: &Self::AssetId,
        call: &Self::Call,
        balance: &Self::Balance,
        reason: &Self::Reasons,
    ) -> Result<(), InvalidFeeDispatch>;

    fn post_info_correction(id: &Self::AssetId, post_info: &Self::PostInfo) -> Result<
        (),
        InvalidFeeDispatch,
    >;
}

/// Why an asset is not healthy enough to pay fees.
#[derive(Clone, Copy, Debug, PartialEq, Eq, Structural)]
pub enum HealthStatusError {
    Unverified,
    Unstable,
    Unavailable,
}

/// Decides whether an asset's health lets it be included as a fee source.
pub trait FeeAssetHealth {
    type AssetId;

    fn health_status(asset_id: &Self::AssetId) -> Result<(), HealthStatusError>;
}

/// Why an account may not pay fees in an asset.
#[derive(Clone, Copy, Debug, PartialEq, Eq, Structural)]
pub enum EligibilityError {
    NotAllowed,
}

/// Decides whether an account may pay fees in an asset.
pub trait Eligibility {
    type AccountId;

    type AssetId;

    fn eligible(who: &Self::AccountId, asset_id: &Self::AssetId) -> Result<(), EligibilityError>;
}

/// Reads out of a call who benefits from its fee.
pub trait Parser {
    type AccountId;

    /// The runtime's calls.
    type Call;

    fn get_beneficiary(call: &Self::Call) -> Option<Self::AccountId>;
}

} // verus!
