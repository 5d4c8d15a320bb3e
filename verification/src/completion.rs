//! What a finished transfer gives back to the guest.
use std::sync::atomic::{AtomicBool, Ordering};
use std::sync::Arc;

use tokio::sync::oneshot;
use vstd::prelude::*;

use crate::constants::{
    DIRECTION_IN, LIBUSB_TRANSFER_CANCELLED, LIBUSB_TRANSFER_COMPLETED, LIBUSB_TRANSFER_ERROR,
    LIBUSB_TRANSFER_NO_DEVICE, LIBUSB_TRANSFER_OVERFLOW, LIBUSB_TRANSFER_STALL,
    LIBUSB_TRANSFER_TIMED_OUT, LIBUSB_TRANSFER_TYPE_CONTROL, SETUP_LEN,
};
use crate::errors::LibusbError;
use crate::packets::{append_range, are_packets_within, combine};

verus! {

/// The result of a transfer: the bytes that came in, or why there are none.
pub type TransferResult = Result<Vec<u8>, LibusbError>;

/// Whether the direction bit of an endpoint address, or of the first byte of a control
/// request, says that the device sends.
pub open spec fn device_sends(direction: u8) -> bool {
    direction >= 0x80
}

/// Read the direction bit.
pub fn is_device_to_host(direction: u8) -> (sends: bool)
    ensures
        sends == device_sends(direction),
{
    assert((direction & 0x80 != 0) == (direction >= 0x80)) by (bit_vector);
    direction & DIRECTION_IN != 0
}

/// What libusb reports of a transfer that is over.
#[derive(Debug)]
pub struct TransferReport {
    pub status: i32,
    pub transfer_type: u8,
    pub endpoint: u8,
    pub actual_length: i32,
    /// The length of each isochronous packet; empty for the other transfer types.
    pub iso_lengths: Vec<u32>,
    /// The actual length of each isochronous packet; empty for the other transfer types.
    pub iso_actual_lengths: Vec<u32>,
}

impl TransferReport {
    /// Whether every byte that the report speaks of lies in `buffer`.
    pub open spec fn fits_spec(self, buffer: Seq<u8>) -> bool {
        self.status == LIBUSB_TRANSFER_COMPLETED ==> {
            if self.iso_actual_lengths@.len() > 0 {
                crate::packets::packets_within(
                    self.iso_lengths@,
                    self.iso_actual_lengths@,
                    buffer.len(),
                )
            } else if self.transfer_type == LIBUSB_TRANSFER_TYPE_CONTROL {
                &&& buffer.len() > 0
                &&& device_sends(buffer[0]) && self.actual_length != 0 ==> 0
                    <= self.actual_length <= buffer.len() - SETUP_LEN
            } else {
                device_sends(self.endpoint) && self.actual_length != 0 ==> 0
                    <= self.actual_length <= buffer.len()
            }
        }
    }

    /// The bytes that a completed transfer gives to the guest, out of its `buffer`.
    ///
    /// Isochronous packets give the data of all packets, one after the other, whoever sent
    /// them. A control transfer gives what follows the setup packet, and the other transfers
    /// give the leading bytes, unless the host was the one to send: then there is nothing to
    /// give.
    pub open spec fn received(self, buffer: Seq<u8>) -> Seq<u8> {
        if self.iso_actual_lengths@.len() > 0 {
            crate::packets::combined(
                buffer,
                self.iso_lengths@,
                self.iso_actual_lengths@,
                self.iso_actual_lengths@.len() as int,
            )
        } else if self.transfer_type == LIBUSB_TRANSFER_TYPE_CONTROL {
            if device_sends(buffer[0]) && self.actual_length != 0 {
                buffer.subrange(SETUP_LEN as int, SETUP_LEN + self.actual_length)
            } else {
                Seq::empty()
            }
        } else if device_sends(self.endpoint) {
            buffer.take(self.actual_length as int)
        } else {
            Seq::empty()
        }
    }

    /// The error that stands for a status other than completion.
    pub open spec fn failure(status: i32) -> LibusbError {
        if status == LIBUSB_TRANSFER_TIMED_OUT {
            LibusbError::Timeout
        } else if status == LIBUSB_TRANSFER_CANCELLED {
            LibusbError::Interrupted
        } else if status == LIBUSB_TRANSFER_STALL {
            LibusbError::Pipe
        } else if status == LIBUSB_TRANSFER_NO_DEVICE {
            LibusbError::NoDevice
        } else if status == LIBUSB_TRANSFER_OVERFLOW {
            LibusbError::Overflow
        } else if status == LIBUSB_TRANSFER_ERROR {
            LibusbError::Io
        } else {
            LibusbError::Other
        }
    }

    /// Whether `result` is what this report and `buffer` stand for.
    pub open spec fn gives(self, buffer: Seq<u8>, result: TransferResult) -> bool {
        match result {
            Ok(data) => self.status == LIBUSB_TRANSFER_COMPLETED && data@ == self.received(buffer),
            Err(error) => self.status != LIBUSB_TRANSFER_COMPLETED && error == Self::failure(
                self.status,
            ),
        }
    }

    /// Test whether every byte that the report speaks of lies in `buffer`.
    pub fn fits(&self, buffer: &Vec<u8>) -> (fits: bool)
        ensures
            fits == self.fits_spec(buffer@),
    {
        if self.status != LIBUSB_TRANSFER_COMPLETED {
            true
        } else if self.iso_actual_lengths.len() > 0 {
            are_packets_within(&self.iso_lengths, &self.iso_actual_lengths, buffer.len())
        } else if self.transfer_type == LIBUSB_TRANSFER_TYPE_CONTROL {
            if buffer.len() == 0 {
                false
            } else if !is_device_to_host(buffer[0]) || self.actual_length == 0 {
                true
            } else {
                self.actual_length > 0 && buffer.len() >= SETUP_LEN as usize && self.actual_length
                    as usize <= buffer.len() - SETUP_LEN as usize
            }
        } else {
            !is_device_to_host(self.endpoint) || self.actual_length == 0 || (self.actual_length > 0
                && self.actual_length as usize <= buffer.len())
        }
    }

    /// The result of the transfer that `self` reports on and whose bytes are in `buffer`.
    pub fn result(&self, buffer: &Vec<u8>) -> (result: TransferResult)
        requires
            self.fits_spec(buffer@),
        ensures
            self.gives(buffer@, result),
    {
        if self.status != LIBUSB_TRANSFER_COMPLETED {
            return Err(self.error());
        }
        if self.iso_actual_lengths.len() > 0 {
            Ok(combine(buffer, &self.iso_lengths, &self.iso_actual_lengths))
        } else if self.transfer_type == LIBUSB_TRANSFER_TYPE_CONTROL {
            if is_device_to_host(buffer[0]) && self.actual_length != 0 {
                // the data follow the setup packet
                let data = copy_range(buffer, SETUP_LEN as usize, self.actual_length as usize);
                assert(data@ =~= self.received(buffer@));
                Ok(data)
            } else {
                let data: Vec<u8> = Vec::new();
                assert(data@ =~= self.received(buffer@));
                Ok(data)
            }
        } else if is_device_to_host(self.endpoint) && self.actual_length != 0 {
            let data = copy_range(buffer, 0, self.actual_length as usize);
            assert(data@ =~= self.received(buffer@));
            Ok(data)
        } else {
            let data: Vec<u8> = Vec::new();
            assert(data@ =~= self.received(buffer@));
            Ok(data)
        }
    }

    fn error(&self) -> (error: LibusbError)
        ensures
            error == Self::failure(self.status),
    {
        if self.status == LIBUSB_TRANSFER_TIMED_OUT {
            LibusbError::Timeout
        } else if self.status == LIBUSB_TRANSFER_CANCELLED {
            LibusbError::Interrupted
        } else if self.status == LIBUSB_TRANSFER_STALL {
            LibusbError::Pipe
        } else if self.status == LIBUSB_TRANSFER_NO_DEVICE {
            LibusbError::NoDevice
        } else if self.status == LIBUSB_TRANSFER_OVERFLOW {
            LibusbError::Overflow
        } else if self.status == LIBUSB_TRANSFER_ERROR {
            LibusbError::Io
        } else {
            LibusbError::Other
        }
    }
}

/// Copy `len` bytes of `buffer`, from position `from` on.
fn copy_range(buffer: &Vec<u8>, from: usize, len: usize) -> (copy: Vec<u8>)
    requires
        from + len <= buffer@.len(),
    ensures
        copy@ == buffer@.subrange(from as int, from + len),
{
    let mut copy: Vec<u8> = Vec::new();
    append_range(&mut copy, buffer, from, len);
    assert(copy@ =~= buffer@.subrange(from as int, from + len));
    copy
}

/// Whether `sent` is how sending `result` on `sender` can end. That depends on the receiving
/// side.
pub open spec fn sending_gives(
    sender: oneshot::Sender<TransferResult>,
    result: TransferResult,
    sent: Result<(), TransferResult>,
) -> bool {
    call_ensures(oneshot::Sender::<TransferResult>::send, (sender, result), sent)
}

/// What the completion of a submitted transfer needs: where the result goes, the flag
/// that says that the transfer is over, and the bytes of the transfer.
pub struct TransferContext {
    sender: oneshot::Sender<TransferResult>,
    completed: Arc<AtomicBool>,
    buffer: Vec<u8>,
}

impl TransferContext {
    /// The bytes of the transfer.
    pub closed spec fn bytes(self) -> Seq<u8> {
        self.buffer@
    }

    /// The flag that says that the transfer is over.
    pub closed spec fn flag(self) -> Arc<AtomicBool> {
        self.completed
    }

    pub(crate) fn new(
        sender: oneshot::Sender<TransferResult>,
        completed: Arc<AtomicBool>,
        buffer: Vec<u8>,
    ) -> (context: Self)
        ensures
            context.bytes() == buffer@,
            context.flag() == completed,
            context.destination() == sender,
    {
        TransferContext { sender, completed, buffer }
    }

    /// Where the result goes.
    pub closed spec fn destination(self) -> oneshot::Sender<TransferResult> {
        self.sender
    }

    /// The bytes of the transfer.
    pub fn buffer(&self) -> (buffer: &Vec<u8>)
        ensures
            buffer@ == self.bytes(),
    {
        &self.buffer
    }

    /// Mark the transfer as over and work out what to send, and where.
    pub fn finish(self, report: &TransferReport) -> (message: FinishedTransfer)
        requires
            report.fits_spec(self.bytes()),
        ensures
            crate::flags::flag_raised(self.flag()),
            message.flag() == self.flag(),
            message.destination() == self.destination(),
            report.gives(self.bytes(), message.outcome()),
    {
        let result = report.result(&self.buffer);
        self.completed.store(true, Ordering::SeqCst);
        FinishedTransfer { sender: self.sender, result, completed: self.completed }
    }
}

/// A transfer that is marked as over, with the result that is still to be sent.
pub struct FinishedTransfer {
    sender: oneshot::Sender<TransferResult>,
    result: TransferResult,
    completed: Arc<AtomicBool>,
}

impl FinishedTransfer {
    /// The mark has been set: there is no such value before.
    #[verifier::type_invariant]
    closed spec fn is_marked(self) -> bool {
        crate::flags::flag_raised(self.completed)
    }

    /// Where the result goes.
    pub closed spec fn destination(self) -> oneshot::Sender<TransferResult> {
        self.sender
    }

    /// The result.
    pub closed spec fn outcome(self) -> TransferResult {
        self.result
    }

    /// The flag that says that the transfer is over.
    pub closed spec fn flag(self) -> Arc<AtomicBool> {
        self.completed
    }

    /// Whether the result has been sent by this value, and `sent` is how that ended. Only
    /// making the call shows this.
    pub open spec fn sent_as(self, sent: Result<(), TransferResult>) -> bool {
        call_ensures(FinishedTransfer::send, (self,), sent)
    }

    /// Send the result. Where nobody waits for it any more, it comes back.
    pub fn send(self) -> (sent: Result<(), TransferResult>)
        ensures
            crate::flags::flag_raised(self.flag()),
            sending_gives(self.destination(), self.outcome(), sent),
            sent matches Err(result) ==> result == self.outcome(),
    {
        proof {
            use_type_invariant(&self);
        }
        self.sender.send(self.result)
    }
}

/// Finish a transfer: mark it as over, and then send the result that its report gives. The
/// result is sent by a `FinishedTransfer`, which there is only once the mark is set. Where
/// nobody waits for the result any more, it comes back.
pub fn transfer_callback(context: TransferContext, report: &TransferReport) -> (sent: Result<
    (),
    TransferResult,
>)
    requires
        report.fits_spec(context.bytes()),
    ensures
        crate::flags::flag_raised(context.flag()),
        exists|message: FinishedTransfer|
            {
                &&& message.flag() == context.flag()
                &&& message.destination() == context.destination()
                &&& report.gives(context.bytes(), message.outcome())
                &&& sending_gives(context.destination(), message.outcome(), sent)
                &&& #[trigger] message.sent_as(sent)
            },
        sent matches Err(result) ==> report.gives(context.bytes(), result),
{
    let message = context.finish(report);
    let sent = message.send();
    assert(message.sent_as(sent));
    sent
}

} // verus!
