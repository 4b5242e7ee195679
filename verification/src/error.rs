//! Error taxonomy: the closed set of failure kinds the driver reports, with
//! recoverability and context metadata.

use vstd::prelude::*;

verus! {

/// The closed set of failures a driver operation can surface.
///
/// Validation failures are raised before any hardware interaction; the
/// remaining kinds describe faults of the device, the transfer path or the
/// polling budget. Recoverability is advisory metadata for the caller's own
/// retry loop: the driver never retries internally.
#[derive(Debug, Clone)]
pub enum Lzma2Error {
    /// Device initialization failed; carries a description.
    DeviceInitError(String),
    /// Data transfer failed; carries a description.
    TransferError(String),
    /// The hardware reported a processing fault; the message encodes the
    /// error code read from the auxiliary error-code register.
    ProcessingError(String),
    /// A register or byte-range access failed.
    DeviceAccessError,
    /// The operation completed neither successfully nor with a device error
    /// within the polling budget.
    TimeoutError,
    /// CRC verification failed.
    CrcError,
    /// The input buffer was rejected; carries a description.
    InputValidationError(String),
}

/// Convenience result type using `Lzma2Error`.
pub type Lzma2Result<T> = Result<T, Lzma2Error>;

/// The recoverability classification: a pure, total function of the error
/// kind alone. Transfer and timeout failures may be retried by repeating the
/// whole operation; every other kind is terminal for the current call.
pub open spec fn spec_recoverable(e: Lzma2Error) -> bool {
    match e {
        Lzma2Error::DeviceInitError(_) => false,
        Lzma2Error::TransferError(_) => true,
        Lzma2Error::ProcessingError(_) => false,
        Lzma2Error::DeviceAccessError => false,
        Lzma2Error::TimeoutError => true,
        Lzma2Error::CrcError => false,
        Lzma2Error::InputValidationError(_) => false,
    }
}

/// The context carried by an error: the message for the variants that have
/// one, nothing for the rest.
pub open spec fn spec_context(e: Lzma2Error) -> Option<Seq<char>> {
    match e {
        Lzma2Error::DeviceInitError(m) => Some(m@),
        Lzma2Error::TransferError(m) => Some(m@),
        Lzma2Error::ProcessingError(m) => Some(m@),
        Lzma2Error::InputValidationError(m) => Some(m@),
        _ => None,
    }
}

/// Extension trait for error inspection.
pub trait ErrorExt {
    /// Whether the error is potentially recoverable by retrying.
    fn is_recoverable(&self) -> bool;

    /// The detailed error context, when the kind carries one.
    fn context(&self) -> Option<&str>;
}

impl ErrorExt for Lzma2Error {
    fn is_recoverable(&self) -> (r: bool)
        ensures
            r == spec_recoverable(*self),
    {
        match self {
            Lzma2Error::TimeoutError => true,
            Lzma2Error::TransferError(_) => true,
            Lzma2Error::DeviceInitError(_) => false,
            Lzma2Error::ProcessingError(_) => false,
            Lzma2Error::DeviceAccessError => false,
            Lzma2Error::CrcError => false,
            Lzma2Error::InputValidationError(_) => false,
        }
    }

    fn context(&self) -> (r: Option<&str>)
        ensures
            (r is Some) == (spec_context(*self) is Some),
            r matches Some(s) ==> spec_context(*self) == Some(s@),
    {
        match self {
            Lzma2Error::DeviceInitError(ctx) => Some(ctx.as_str()),
            Lzma2Error::TransferError(ctx) => Some(ctx.as_str()),
            Lzma2Error::ProcessingError(ctx) => Some(ctx.as_str()),
            Lzma2Error::InputValidationError(ctx) => Some(ctx.as_str()),
            _ => None,
        }
    }
}

/// The recoverability mapping is total over the seven kinds and depends on
/// the kind alone, exactly as tabulated: transfer and timeout failures are
/// recoverable, the other five kinds are not, whatever context they carry.
pub proof fn lemma_recoverability_table()
    ensures
        forall|m: String| !spec_recoverable(Lzma2Error::DeviceInitError(m)),
        forall|m: String| spec_recoverable(Lzma2Error::TransferError(m)),
        forall|m: String| !spec_recoverable(Lzma2Error::ProcessingError(m)),
        !spec_recoverable(Lzma2Error::DeviceAccessError),
        spec_recoverable(Lzma2Error::TimeoutError),
        !spec_recoverable(Lzma2Error::CrcError),
        forall|m: String| !spec_recoverable(Lzma2Error::InputValidationError(m)),
{
}

} // verus!
