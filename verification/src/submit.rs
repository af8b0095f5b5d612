//! Negotiating how a decoded transaction reaches the pool.
//!
//! The backend is asked which conversion contract it offers, the transaction
//! is converted along the path that this version and the transaction's family
//! allow, and the converted unit is offered to the pool. The asking,
//! converting and offering are done by the caller; every decision between
//! them is made here.

use vstd::prelude::*;
use crate::decoder::{decode, decoding, DecodeError, DecodedTransaction, TransactionKind};
use crate::primitives::H256;

verus! {

/// The conversion contract that a backend offers.
#[derive(Clone, Copy, Debug, PartialEq, Eq, Structural)]
pub enum ConversionApiVersion {
    /// The runtime exposes no conversion contract.
    NoApi,
    /// The runtime converts legacy transactions only.
    V1,
    /// The runtime converts every transaction.
    V2,
}

/// What asking the backend for its conversion contract came to.
#[derive(Clone, Copy, Debug, PartialEq, Eq, Structural)]
pub enum VersionProbe {
    /// The backend could not be asked.
    Unreachable,
    /// The backend answered that it has no such contract.
    Absent,
    /// The backend answered with this version number.
    Reported(u32),
}

/// The way a transaction is converted into a unit for the pool.
#[derive(Clone, Copy, Debug, PartialEq, Eq, Structural)]
pub enum ConversionPath {
    /// The runtime's full conversion contract.
    Full,
    /// The runtime's conversion contract for legacy transactions.
    LegacyOnly,
    /// The converter that the node was configured with.
    DefaultConverter,
}

/// Why a submission failed.
#[derive(Clone, Debug, PartialEq, Eq)]
pub enum SubmitError {
    /// The client's bytes are no transaction.
    Decode(DecodeError),
    /// The backend could not be asked for its version, or its conversion
    /// failed.
    BackendUnavailable,
    /// The backend reported a version that is neither 1 nor 2.
    UnsupportedVersion,
    /// The backend converts legacy transactions only and the transaction is
    /// typed.
    UnsupportedOnBackend,
    /// The runtime has no conversion contract and no converter was
    /// configured.
    NoConverterAvailable,
    /// The pool refused the unit; the reason is the pool's own.
    PoolRejection(String),
}

/// The contract that a probe stands for, or the failure it amounts to.
pub open spec fn negotiated(probe: VersionProbe) -> Result<ConversionApiVersion, SubmitError> {
    match probe {
        VersionProbe::Unreachable => Err(SubmitError::BackendUnavailable),
        VersionProbe::Absent => Ok(ConversionApiVersion::NoApi),
        VersionProbe::Reported(version) => if version == 2 {
            Ok(ConversionApiVersion::V2)
        } else if version == 1 {
            Ok(ConversionApiVersion::V1)
        } else {
            Err(SubmitError::UnsupportedVersion)
        },
    }
}

/// The conversion path for a transaction family under a contract, or the
/// reason there is none.
pub open spec fn selected(
    version: ConversionApiVersion,
    kind: TransactionKind,
    has_default_converter: bool,
) -> Result<ConversionPath, SubmitError> {
    match version {
        ConversionApiVersion::V2 => Ok(ConversionPath::Full),
        ConversionApiVersion::V1 => match kind {
            TransactionKind::Legacy => Ok(ConversionPath::LegacyOnly),
            TransactionKind::Typed => Err(SubmitError::UnsupportedOnBackend),
        },
        ConversionApiVersion::NoApi => if has_default_converter {
            Ok(ConversionPath::DefaultConverter)
        } else {
            Err(SubmitError::NoConverterAvailable)
        },
    }
}

/// Reads the conversion contract off a probe.
pub fn negotiate(probe: VersionProbe) -> (r: Result<ConversionApiVersion, SubmitError>)
    ensures
        r == negotiated(probe),
{
    match probe {
        VersionProbe::Unreachable => Err(SubmitError::BackendUnavailable),
        VersionProbe::Absent => Ok(ConversionApiVersion::NoApi),
        VersionProbe::Reported(version) => if version == 2 {
            Ok(ConversionApiVersion::V2)
        } else if version == 1 {
            Ok(ConversionApiVersion::V1)
        } else {
            Err(SubmitError::UnsupportedVersion)
        },
    }
}

/// Chooses the conversion path for a transaction family under a contract.
pub fn select_conversion(
    version: ConversionApiVersion,
    kind: TransactionKind,
    has_default_converter: bool,
) -> (r: Result<ConversionPath, SubmitError>)
    ensures
        r == selected(version, kind, has_default_converter),
{
    match version {
        ConversionApiVersion::V2 => Ok(ConversionPath::Full),
        ConversionApiVersion::V1 => match kind {
            TransactionKind::Legacy => Ok(ConversionPath::LegacyOnly),
            TransactionKind::Typed => Err(SubmitError::UnsupportedOnBackend),
        },
        ConversionApiVersion::NoApi => if has_default_converter {
            Ok(ConversionPath::DefaultConverter)
        } else {
            Err(SubmitError::NoConverterAvailable)
        },
    }
}

/// The conversion path that a probe and a transaction family come to, or the
/// failure: the contract is read off the probe, and the path chosen under it.
pub open spec fn planned(
    probe: VersionProbe,
    kind: TransactionKind,
    has_default_converter: bool,
) -> Result<ConversionPath, SubmitError> {
    match negotiated(probe) {
        Err(error) => Err(error),
        Ok(version) => selected(version, kind, has_default_converter),
    }
}

/// Decides how a transaction of the given family is converted on a backend
/// that answered the probe.
pub fn plan(probe: VersionProbe, kind: TransactionKind, has_default_converter: bool) -> (r: Result<
    ConversionPath,
    SubmitError,
>)
    ensures
        r == planned(probe, kind, has_default_converter),
{
    match negotiate(probe) {
        Err(error) => Err(error),
        Ok(version) => select_conversion(version, kind, has_default_converter),
    }
}

/// Produces the unit that the pool takes for a decoded transaction.
///
/// The path is planned from the probe and the transaction's family; where
/// there is none the submission fails with the reason and `convert` is not
/// called. Otherwise `convert` runs the conversion along the path, and a
/// conversion that yields nothing fails the submission as a backend that is
/// unavailable.
pub fn submit<U, F: FnOnce(ConversionPath) -> Option<U>>(
    decoded: &DecodedTransaction,
    probe: VersionProbe,
    has_default_converter: bool,
    convert: F,
) -> (r: Result<U, SubmitError>)
    requires
        planned(probe, decoded.spec_kind(), has_default_converter) matches Ok(path)
            ==> convert.requires((path,)),
    ensures
        match planned(probe, decoded.spec_kind(), has_default_converter) {
            Err(error) => r == Err::<U, SubmitError>(error),
            Ok(path) => match r {
                Ok(unit) => convert.ensures((path,), Some(unit)),
                Err(error) => error == SubmitError::BackendUnavailable && convert.ensures(
                    (path,),
                    None,
                ),
            },
        },
{
    match plan(probe, decoded.kind(), has_default_converter) {
        Err(error) => Err(error),
        Ok(path) => match convert(path) {
            Some(unit) => Ok(unit),
            None => Err(SubmitError::BackendUnavailable),
        },
    }
}

/// A submission on its way to the pool. Each state but the last names the
/// outside work that the caller owes next; `U` is the unit that the pool
/// takes.
#[derive(Debug, PartialEq, Eq)]
pub enum Submission<U> {
    /// The backend is to be asked for its conversion contract.
    Probing { transaction: DecodedTransaction },
    /// The transaction is to be converted along `path`.
    Converting { path: ConversionPath, transaction: DecodedTransaction },
    /// `unit` is to be offered to the pool.
    Pooling { hash: H256, unit: U },
    /// Nothing is left to do: the hash of the accepted transaction, or the
    /// failure.
    Finished(Result<H256, SubmitError>),
}

/// The outcome of a piece of outside work.
#[derive(Debug, PartialEq, Eq)]
pub enum SubmissionEvent<U> {
    /// The backend was asked for its conversion contract.
    Version(VersionProbe),
    /// The conversion ran: the unit, or nothing where the backend failed.
    Converted(Option<U>),
    /// The pool answered: acceptance, or its reason for refusing.
    Pool(Result<(), String>),
}

impl<U> Submission<U> {
    /// The state that follows `self` on `event`. An event that does not
    /// answer what the submission waits for leaves it as it is.
    pub open spec fn after(
        self,
        event: SubmissionEvent<U>,
        has_default_converter: bool,
    ) -> Submission<U> {
        match (self, event) {
            (Submission::Probing { transaction }, SubmissionEvent::Version(probe)) => {
                match planned(probe, transaction.spec_kind(), has_default_converter) {
                    Err(error) => Submission::Finished(Err(error)),
                    Ok(path) => Submission::Converting { path, transaction },
                }
            },
            (Submission::Converting { path, transaction }, SubmissionEvent::Converted(outcome)) => {
                match outcome {
                    Some(unit) => Submission::Pooling { hash: transaction.spec_hash(), unit },
                    None => Submission::Finished(Err(SubmitError::BackendUnavailable)),
                }
            },
            (Submission::Pooling { hash, unit }, SubmissionEvent::Pool(answer)) => {
                match answer {
                    Ok(_) => Submission::Finished(Ok(hash)),
                    Err(reason) => Submission::Finished(Err(SubmitError::PoolRejection(reason))),
                }
            },
            (state, _) => state,
        }
    }

    /// Whether the submission has the pool contacted next.
    pub open spec fn contacts_pool(self) -> bool {
        self is Pooling
    }

    /// Takes up a transaction that was decoded before.
    pub fn begin(transaction: DecodedTransaction) -> (r: Submission<U>)
        ensures
            r == (Submission::<U>::Probing { transaction }),
    {
        Submission::Probing { transaction }
    }

    /// Takes up the raw bytes of a transaction: a buffer that decodes waits
    /// for the backend's version, any other has failed already.
    pub fn start(bytes: &[u8]) -> (r: Submission<U>)
        ensures
            match decoding(bytes@) {
                Ok((kind, hash)) => r matches Submission::Probing { transaction }
                    && transaction.spec_kind() == kind && transaction.spec_hash()@ == hash
                    && transaction.spec_payload() == bytes@,
                Err(error) => r == Submission::<U>::Finished(Err(SubmitError::Decode(error))),
            },
    {
        match decode(bytes) {
            Ok(transaction) => Submission::Probing { transaction },
            Err(error) => Submission::Finished(Err(SubmitError::Decode(error))),
        }
    }

    /// Moves the submission on by the outcome of the work it waited for.
    pub fn step(self, event: SubmissionEvent<U>, has_default_converter: bool) -> (r: Submission<U>)
        ensures
            r == self.after(event, has_default_converter),
    {
        match (self, event) {
            (Submission::Probing { transaction }, SubmissionEvent::Version(probe)) => {
                match plan(probe, transaction.kind(), has_default_converter) {
                    Err(error) => Submission::Finished(Err(error)),
                    Ok(path) => Submission::Converting { path, transaction },
                }
            },
            (Submission::Converting { path, transaction }, SubmissionEvent::Converted(outcome)) => {
                match outcome {
                    Some(unit) => Submission::Pooling { hash: transaction.hash(), unit },
                    None => Submission::Finished(Err(SubmitError::BackendUnavailable)),
                }
            },
            (Submission::Pooling { hash, unit }, SubmissionEvent::Pool(answer)) => {
                match answer {
                    Ok(_) => Submission::Finished(Ok(hash)),
                    Err(reason) => Submission::Finished(Err(SubmitError::PoolRejection(reason))),
                }
            },
            (state, _) => state,
        }
    }
}

/// A typed transaction on a backend that converts legacy transactions only
/// fails as unsupported on that backend, whether or not a converter was
/// configured, and the pool is not contacted.
pub proof fn law_typed_on_legacy_backend_is_refused<U>(
    transaction: DecodedTransaction,
    has_default_converter: bool,
)
    requires
        transaction.spec_kind() == TransactionKind::Typed,
    ensures
        planned(VersionProbe::Reported(1), transaction.spec_kind(), has_default_converter) == Err::<
            ConversionPath,
            SubmitError,
        >(SubmitError::UnsupportedOnBackend),
        (Submission::<U>::Probing { transaction }).after(
            SubmissionEvent::Version(VersionProbe::Reported(1)),
            has_default_converter,
        ) == Submission::<U>::Finished(Err(SubmitError::UnsupportedOnBackend)),
        !(Submission::<U>::Probing { transaction }).after(
            SubmissionEvent::Version(VersionProbe::Reported(1)),
            has_default_converter,
        ).contacts_pool(),
{
}

/// The pool is contacted only with the unit of a conversion that succeeded:
/// a step enters the pooling state from the converting state alone, on a
/// converted unit, and with the hash of the transaction that was converted.
pub proof fn law_pool_follows_conversion<U>(
    state: Submission<U>,
    event: SubmissionEvent<U>,
    has_default_converter: bool,
)
    requires
        !state.contacts_pool(),
        state.after(event, has_default_converter).contacts_pool(),
    ensures
        state is Converting,
        event == SubmissionEvent::Converted(
            Some(state.after(event, has_default_converter)->unit),
        ),
        state.after(event, has_default_converter)->hash == state->Converting_transaction.spec_hash(),
{
}

/// A submission succeeds only through the pool: a step ends it with a hash
/// only where the pool was asked and accepted, and the hash is the one of
/// the transaction whose unit the pool took.
pub proof fn law_success_needs_acceptance<U>(
    state: Submission<U>,
    event: SubmissionEvent<U>,
    has_default_converter: bool,
    hash: H256,
)
    requires
        !(state is Finished),
        state.after(event, has_default_converter) == Submission::<U>::Finished(Ok(hash)),
    ensures
        state is Pooling,
        state->hash == hash,
        event matches SubmissionEvent::Pool(Ok(_)),
{
}

/// A finished submission stays finished with the same result, whatever
/// arrives.
pub proof fn law_finished_is_final<U>(
    result: Result<H256, SubmitError>,
    event: SubmissionEvent<U>,
    has_default_converter: bool,
)
    ensures
        Submission::<U>::Finished(result).after(event, has_default_converter)
            == Submission::<U>::Finished(result),
{
}

} // verus!
