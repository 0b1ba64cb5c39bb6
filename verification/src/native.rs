//! The pieces of the `futures` and `libusb1-sys` crates that the pipeline leans on.
//!
//! Nothing in this file is proved: each item states what the named outside
//! item is taken to do.

use crate::transfer::TransferResult;
use futures::channel::oneshot::{Canceled, Receiver, Sender};
use vstd::prelude::*;

verus! {

/// Sending half of `futures::channel::oneshot`, carried as an opaque value.
#[verifier::external_type_specification]
#[verifier::external_body]
#[verifier::reject_recursive_types(T)]
pub struct ExSender<T>(futures::channel::oneshot::Sender<T>);

/// Receiving half of `futures::channel::oneshot`, carried as an opaque value.
#[verifier::external_type_specification]
#[verifier::external_body]
#[verifier::reject_recursive_types(T)]
pub struct ExReceiver<T>(futures::channel::oneshot::Receiver<T>);

/// `futures::channel::oneshot::Canceled`, the error of a receiver whose sender is gone.
#[verifier::external_type_specification]
#[verifier::external_body]
pub struct ExCanceled(futures::channel::oneshot::Canceled);

/// Transfer kind that the native layer knows as isochronous.
pub const TRANSFER_TYPE_ISOCHRONOUS: u8 = 1;

/// Reads `libusb1_sys::constants::LIBUSB_TRANSFER_TYPE_ISOCHRONOUS`; the
/// contract claims that the constant is 1.
#[verifier::external_body]
pub(crate) fn iso_transfer_type() -> (kind: u8)
    ensures
        kind == TRANSFER_TYPE_ISOCHRONOUS,
{
    libusb1_sys::constants::LIBUSB_TRANSFER_TYPE_ISOCHRONOUS
}

/// Calls `futures::channel::oneshot::channel`. Nothing is claimed of the two
/// halves: they are opaque.
#[verifier::external_body]
pub(crate) fn result_channel() -> (halves: (Sender<TransferResult>, Receiver<TransferResult>)) {
    futures::channel::oneshot::channel()
}

/// Calls `Sender::send` of `futures::channel::oneshot`. Whether the value is
/// taken depends on whether the receiver is still alive, so the contract only
/// claims that a refused value is handed back as it was given.
#[verifier::external_body]
pub(crate) fn send_result(tail: Sender<TransferResult>, result: TransferResult) -> (sent: Result<
    (),
    TransferResult,
>)
    ensures
        sent is Err ==> sent->Err_0 == result,
{
    tail.send(result)
}

/// Calls `Receiver::try_recv` of `futures::channel::oneshot`. What comes back
/// depends on what the sending side has done so far, so nothing is claimed.
#[verifier::external_body]
pub(crate) fn try_recv_result(head: &mut Receiver<TransferResult>) -> (received: Result<
    Option<TransferResult>,
    Canceled,
>) {
    head.try_recv()
}

} // verus!
