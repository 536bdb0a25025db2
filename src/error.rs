//! Errors that a transaction with the transceiver can end in.
use vstd::prelude::*;

verus! {

/// The non-blocking serial error of the `nb` crate, carried through unopened.
#[verifier::external_type_specification]
#[verifier::external_body]
#[verifier::reject_recursive_types(E)]
pub struct ExNbError<E>(embedded_hal_nb::nb::Error<E>);

/// What went wrong in a transaction. The response variants tell how far the
/// reply got, so that a silent bus, a silent slave and a short reply can be
/// told apart.
#[derive(Debug)]
#[verifier::reject_recursive_types(E)]
pub enum Mcp2003aError<E> {
    /// Some serial error occurred.
    UartError(embedded_hal_nb::nb::Error<E>),
    /// Some async serial error occurred.
    AsyncUartError(E),
    /// The UART could not confirm that every written byte was sent.
    UartWriteNotReady,
    /// Sync byte was not read back, likely indicating the bus is not active.
    SyncByteNotReceivedBack,
    /// Sync byte was read back, but the ID byte was not received.
    IdByteNotReceivedBack,
    /// Sync and ID bytes were read back (the bus is active), but no data was received.
    LinReadDeviceTimeoutNoResponse,
    /// Partial response with the number of bytes received.
    /// Consider increasing the read device response timeout, or check the
    /// buffer length against the frame's data length.
    LinReadOnlyPartialResponse(usize),
    /// Data bytes were received, but the checksum was not received after the data.
    LinReadNoChecksumReceived,
    /// Not raised by this library: callers may use it when a checksum they
    /// validated does not match.
    LinReadInvalidChecksum(u8),
}

} // verus!
