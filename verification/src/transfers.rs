//! Transfers, from the guest's request to the submission.
use std::sync::atomic::{AtomicBool, Ordering};
use std::sync::Arc;

use tokio::sync::oneshot;
use vstd::prelude::*;

use crate::channel::result_channel;
use crate::completion::{is_device_to_host, TransferContext, TransferResult};
use crate::constants::{
    LIBUSB_TRANSFER_TYPE_BULK, LIBUSB_TRANSFER_TYPE_CONTROL, LIBUSB_TRANSFER_TYPE_INTERRUPT,
    LIBUSB_TRANSFER_TYPE_ISOCHRONOUS, SETUP_LEN,
};
use crate::errors::LibusbError;
use crate::numbers::to_signed;
use crate::packets::{iso_packet_lengths, TransferSetup};

verus! {

/// The four kinds of USB transfers.
#[derive(Debug, Clone, Copy, PartialEq, Eq, Structural)]
pub enum TransferType {
    Control,
    Isochronous,
    Bulk,
    Interrupt,
}

impl TransferType {
    /// The number that libusb has for this kind.
    pub open spec fn code(self) -> u8 {
        match self {
            TransferType::Control => LIBUSB_TRANSFER_TYPE_CONTROL,
            TransferType::Bulk => LIBUSB_TRANSFER_TYPE_BULK,
            TransferType::Interrupt => LIBUSB_TRANSFER_TYPE_INTERRUPT,
            TransferType::Isochronous => LIBUSB_TRANSFER_TYPE_ISOCHRONOUS,
        }
    }

    /// The number that libusb has for this kind.
    pub fn to_raw(self) -> (code: u8)
        ensures
            code == self.code(),
    {
        match self {
            TransferType::Control => LIBUSB_TRANSFER_TYPE_CONTROL,
            TransferType::Bulk => LIBUSB_TRANSFER_TYPE_BULK,
            TransferType::Interrupt => LIBUSB_TRANSFER_TYPE_INTERRUPT,
            TransferType::Isochronous => LIBUSB_TRANSFER_TYPE_ISOCHRONOUS,
        }
    }
}

/// The options of a transfer that the guest chooses.
#[derive(Debug, Clone, Copy, PartialEq, Eq, Structural)]
pub struct TransferOptions {
    pub endpoint: u8,
    pub timeout_ms: u32,
    pub stream_id: u32,
    pub iso_packets: u32,
}

/// The offset of the data in the buffer of a transfer: behind the setup packet in a
/// control transfer, at the start in the others.
pub open spec fn data_offset(transfer_type: u8) -> nat {
    if transfer_type == LIBUSB_TRANSFER_TYPE_CONTROL {
        SETUP_LEN as nat
    } else {
        0
    }
}

/// A transfer that the guest asked for on an open device.
#[derive(Debug, Clone, Copy)]
pub struct TransferRequest {
    pub dev_handle: usize,
    pub xfer_type: TransferType,
    pub setup: TransferSetup,
    pub buf_size: u32,
    pub opts: TransferOptions,
}

impl TransferRequest {
    /// The number of isochronous packets to reserve.
    pub open spec fn iso_packets_spec(self) -> int {
        if self.xfer_type is Isochronous {
            crate::numbers::signed(self.opts.iso_packets)
        } else {
            0
        }
    }

    /// The number of bytes that the buffer needs.
    pub open spec fn total_len(self) -> nat {
        data_offset(self.xfer_type.code()) + self.buf_size as nat
    }

    /// Whether the size of the buffer can be written down.
    pub open spec fn fits_spec(self) -> bool {
        self.total_len() <= u32::MAX
    }

    /// The bytes of a new buffer: the setup packet in a control transfer, then zeros.
    pub open spec fn initial_buffer(self) -> Seq<u8> {
        let data = Seq::new(self.buf_size as nat, |i: int| 0u8);
        if self.xfer_type is Control {
            self.setup.packet(self.buf_size) + data
        } else {
            data
        }
    }

    /// The number of isochronous packets to reserve.
    pub fn iso_packets(&self) -> (count: i32)
        ensures
            count == self.iso_packets_spec(),
    {
        match self.xfer_type {
            TransferType::Isochronous => {
                to_signed(self.opts.iso_packets)
            },
            _ => 0,
        }
    }

    /// Test whether the size of the buffer can be written down.
    pub fn fits(&self) -> (fits: bool)
        ensures
            fits == self.fits_spec(),
    {
        match self.xfer_type {
            TransferType::Control => self.buf_size <= u32::MAX - SETUP_LEN,
            _ => true,
        }
    }

    /// Work out the transfer that libusb reserved at address `transfer`. No address means
    /// that there was no memory for it.
    pub fn allocated(self, transfer: usize) -> (plan: Result<TransferPlan, LibusbError>)
        requires
            transfer != 0 ==> self.fits_spec(),
        ensures
            match plan {
                Ok(plan) => transfer != 0 && plan.carries_out(self, transfer),
                Err(error) => transfer == 0 && error == LibusbError::NoMem,
            },
    {
        if transfer == 0 {
            return Err(LibusbError::NoMem);
        }
        let iso_packets: i32 = self.iso_packets();
        let transfer_type: u8 = self.xfer_type.to_raw();
        let stream_id: Option<u32> = if self.opts.stream_id != 0 {
            Some(self.opts.stream_id)
        } else {
            None
        };
        let total_len: u32 = if transfer_type == LIBUSB_TRANSFER_TYPE_CONTROL {
            SETUP_LEN + self.buf_size
        } else {
            self.buf_size
        };
        let mut buffer: Vec<u8> = vec![0u8; total_len as usize];
        if transfer_type == LIBUSB_TRANSFER_TYPE_CONTROL {
            self.setup.write_packet(self.buf_size, &mut buffer);
        }
        assert(buffer@ =~= self.initial_buffer());
        Ok(
            TransferPlan {
                fields: TransferFields {
                    dev_handle: self.dev_handle,
                    endpoint: self.opts.endpoint,
                    transfer_type,
                    timeout: self.opts.timeout_ms,
                    stream_id,
                    length: to_signed(total_len),
                    iso_packet_lengths: iso_packet_lengths(self.buf_size, iso_packets),
                },
                transfer,
                buffer,
                buf_len: self.buf_size,
                setup: self.setup,
                completed: Arc::new(AtomicBool::new(false)),
            },
        )
    }
}

/// What is written into the transfer that libusb reserved, besides the address of the
/// buffer.
#[derive(Debug)]
pub struct TransferFields {
    pub dev_handle: usize,
    pub endpoint: u8,
    pub transfer_type: u8,
    pub timeout: u32,
    /// The stream to use, where the guest named one.
    pub stream_id: Option<u32>,
    pub length: i32,
    /// The length of each isochronous packet; empty where there are none.
    pub iso_packet_lengths: Vec<u32>,
}

/// A transfer that is worked out and not yet among the resources of the guest.
pub struct TransferPlan {
    fields: TransferFields,
    transfer: usize,
    buffer: Vec<u8>,
    buf_len: u32,
    setup: TransferSetup,
    completed: Arc<AtomicBool>,
}

impl TransferPlan {
    #[verifier::type_invariant]
    closed spec fn type_invariant(self) -> bool {
        self.outcome().well_formed()
    }

    /// What is to be written into the reserved transfer.
    pub closed spec fn fields_spec(self) -> TransferFields {
        self.fields
    }

    /// The transfer as the guest will own it. What is written into the reserved transfer
    /// besides is in `fields_spec`.
    pub closed spec fn outcome(self) -> TransferState {
        TransferState {
            transfer: self.transfer,
            transfer_type: self.fields.transfer_type,
            endpoint: self.fields.endpoint,
            completed: self.completed,
            buffer: Some(self.buffer@),
            buf_len: self.buf_len,
            receiver: None,
            control_setup: Some(self.setup),
        }
    }

    /// Whether this plan is what `request` asks for, on the transfer reserved at address
    /// `transfer`.
    pub open spec fn carries_out(self, request: TransferRequest, transfer: usize) -> bool {
        let fields = self.fields_spec();
        &&& fields.dev_handle == request.dev_handle
        &&& fields.endpoint == request.opts.endpoint
        &&& fields.transfer_type == request.xfer_type.code()
        &&& fields.timeout == request.opts.timeout_ms
        &&& fields.stream_id == if request.opts.stream_id != 0 {
            Some(request.opts.stream_id)
        } else {
            None
        }
        &&& fields.length == crate::numbers::signed(request.total_len() as u32)
        &&& fields.iso_packet_lengths@ == crate::packets::iso_lengths(
            request.buf_size,
            request.iso_packets_spec(),
        )
        &&& self.outcome() == TransferState::requested(request, transfer, self.outcome().completed)
        &&& crate::flags::flag_starts(self.outcome().completed, false)
    }

    /// What is to be written into the reserved transfer.
    pub fn fields(&self) -> (fields: &TransferFields)
        ensures
            *fields == self.fields_spec(),
    {
        &self.fields
    }

    /// The bytes of the transfer. They stay where they are when the plan becomes a
    /// resource.
    pub fn buffer(&self) -> (buffer: &Vec<u8>)
        ensures
            self.outcome().buffer == Some(buffer@),
    {
        &self.buffer
    }

    /// Make the transfer that the guest will own.
    pub fn into_transfer(self) -> (transfer: UsbTransfer)
        ensures
            transfer@ == self.outcome(),
            crate::flags::flag_starts(transfer.flag(), false),
    {
        proof {
            use_type_invariant(&self);
        }
        UsbTransfer {
            transfer: self.transfer,
            transfer_type: self.fields.transfer_type,
            endpoint: self.fields.endpoint,
            completed: self.completed,
            buffer: Some(self.buffer),
            buf_len: self.buf_len,
            receiver: None,
            control_setup: Some(self.setup),
        }
    }
}

/// A transfer that the guest owns.
#[derive(Debug)]
pub struct UsbTransfer {
    transfer: usize,
    transfer_type: u8,
    endpoint: u8,
    completed: Arc<AtomicBool>,
    buffer: Option<Vec<u8>>,
    buf_len: u32,
    receiver: Option<oneshot::Receiver<TransferResult>>,
    control_setup: Option<TransferSetup>,
}

/// What is known of a transfer that the guest owns.
pub struct TransferState {
    /// The address of the transfer that libusb reserved.
    pub transfer: usize,
    pub transfer_type: u8,
    pub endpoint: u8,
    /// The flag that says that the transfer is over.
    pub completed: Arc<AtomicBool>,
    /// The bytes of the transfer; gone once it has been submitted.
    pub buffer: Option<Seq<u8>>,
    /// The number of bytes that the guest asked for.
    pub buf_len: u32,
    /// Where the result will come from; there from the submission to the wait.
    pub receiver: Option<oneshot::Receiver<TransferResult>>,
    pub control_setup: Option<TransferSetup>,
}

/// How a submission may go.
pub enum Verdict {
    /// It is refused with this error.
    Refuse(LibusbError),
    /// The transfer is in flight already: its bytes are not there.
    NoBuffer,
    /// It may be submitted.
    Submit,
}

impl TransferState {
    /// The transfer that `request` asks for, new, at address `transfer`, with the flag
    /// `completed`.
    pub open spec fn requested(
        request: TransferRequest,
        transfer: usize,
        completed: Arc<AtomicBool>,
    ) -> TransferState {
        TransferState {
            transfer,
            transfer_type: request.xfer_type.code(),
            endpoint: request.opts.endpoint,
            completed,
            buffer: Some(request.initial_buffer()),
            buf_len: request.buf_size,
            receiver: None,
            control_setup: Some(request.setup),
        }
    }

    /// What holds of every transfer: it was made as one that is not over, it has its setup,
    /// and its bytes, as long as they are there, are the setup packet of a control transfer
    /// and as many bytes of data as the guest asked for.
    pub open spec fn well_formed(self) -> bool {
        &&& crate::flags::flag_starts(self.completed, false)
        &&& self.control_setup is Some
        &&& self.buffer matches Some(bytes) ==> bytes.len() == data_offset(self.transfer_type)
            + self.buf_len
    }

    /// Whether the host sends the data. In a control transfer the request says so, in the
    /// others the endpoint.
    pub open spec fn host_sends(self) -> bool {
        !crate::completion::device_sends(
            if self.transfer_type == LIBUSB_TRANSFER_TYPE_CONTROL {
                self.control_setup->0.bm_request_type
            } else {
                self.endpoint
            },
        )
    }

    /// How the submission of `data` goes, where `completed` says whether the transfer is
    /// over already.
    pub open spec fn verdict(self, completed: bool, data: Seq<u8>) -> Verdict {
        if completed {
            Verdict::Refuse(LibusbError::Busy)
        } else if self.host_sends() && data.len() != self.buf_len {
            Verdict::Refuse(LibusbError::InvalidParam)
        } else if self.buffer is None {
            Verdict::NoBuffer
        } else {
            Verdict::Submit
        }
    }

    /// The bytes that are submitted: where the host sends, `data` takes the place of the
    /// data in the buffer.
    pub open spec fn submitted(self, data: Seq<u8>) -> Seq<u8> {
        if self.host_sends() {
            self.buffer->0.take(data_offset(self.transfer_type) as int) + data
        } else {
            self.buffer->0
        }
    }

    /// The transfer once its bytes are handed over.
    pub open spec fn in_flight(self) -> TransferState {
        TransferState { buffer: None, ..self }
    }

    /// The transfer with another place where the result will come from.
    pub open spec fn with_receiver(
        self,
        receiver: Option<oneshot::Receiver<TransferResult>>,
    ) -> TransferState {
        TransferState { receiver, ..self }
    }
}

/// The next step of a submission.
pub enum SubmitStep {
    /// The guest's handle names no transfer.
    NoTransfer,
    /// The transfer is in flight already.
    NoBuffer,
    /// Answer the guest with this error.
    Refused(LibusbError),
    /// Submit the transfer at this address.
    Submit {
        transfer: usize,
        context: TransferContext,
        receiver: oneshot::Receiver<TransferResult>,
    },
}

impl SubmitStep {
    /// Whether `self` is the step for the submission of `data`, where `completed` says
    /// whether the transfer is over already, and `after` is what becomes of the transfer.
    pub open spec fn follows(
        self,
        before: UsbTransfer,
        completed: bool,
        data: Seq<u8>,
        after: UsbTransfer,
    ) -> bool {
        match before@.verdict(completed, data) {
            Verdict::Refuse(error) => self == SubmitStep::Refused(error) && after == before,
            Verdict::NoBuffer => self is NoBuffer && after == before,
            Verdict::Submit => {
                &&& self is Submit
                &&& self->transfer == before@.transfer
                &&& self->context.bytes() == before@.submitted(data)
                &&& self->context.flag() == before.flag()
                &&& self->receiver == crate::channel::other_half(self->context.destination())
                &&& after@ == before@.in_flight()
            },
        }
    }
}

impl View for UsbTransfer {
    type V = TransferState;

    closed spec fn view(&self) -> TransferState {
        TransferState {
            transfer: self.transfer,
            transfer_type: self.transfer_type,
            endpoint: self.endpoint,
            completed: self.completed,
            buffer: match self.buffer {
                Some(bytes) => Some(bytes@),
                None => None,
            },
            buf_len: self.buf_len,
            receiver: self.receiver,
            control_setup: self.control_setup,
        }
    }
}

impl UsbTransfer {
    #[verifier::type_invariant]
    closed spec fn type_invariant(self) -> bool {
        self@.well_formed()
    }

    /// The flag that says that the transfer is over.
    pub open spec fn flag(self) -> Arc<AtomicBool> {
        self@.completed
    }

    /// The address of the transfer that libusb reserved.
    pub fn transfer(&self) -> (transfer: usize)
        ensures
            transfer == self@.transfer,
            self@.well_formed(),
    {
        proof {
            use_type_invariant(self);
        }
        self.transfer
    }

    /// Whether the transfer is over, as the thread that completes it sees it.
    pub(crate) fn is_completed(&self) -> (completed: bool)
        ensures
            crate::flags::flag_reads(self.flag(), completed),
    {
        self.completed.load(Ordering::SeqCst)
    }

    /// Test whether the host sends the data.
    fn is_host_to_device(&self) -> (out: bool)
        requires
            self@.well_formed(),
        ensures
            out == self@.host_sends(),
    {
        if self.transfer_type == LIBUSB_TRANSFER_TYPE_CONTROL {
            match self.control_setup {
                Some(setup) => !is_device_to_host(setup.bm_request_type),
                None => false,
            }
        } else {
            !is_device_to_host(self.endpoint)
        }
    }

    /// Prepare the submission of `data`, where `completed` says whether the transfer is
    /// over already. The bytes of the transfer go with the submission.
    pub fn prepare(&mut self, completed: bool, data: &Vec<u8>) -> (step: SubmitStep)
        ensures
            step.follows(*old(self), completed, data@, *final(self)),
            old(self)@.well_formed(),
    {
        proof {
            use_type_invariant(&*self);
        }
        if completed {
            return SubmitStep::Refused(LibusbError::Busy);
        }
        let out: bool = self.is_host_to_device();
        if out && data.len() != self.buf_len as usize {
            return SubmitStep::Refused(LibusbError::InvalidParam);
        }
        if self.buffer.is_none() {
            return SubmitStep::NoBuffer;
        }
        let mut taken: Option<Vec<u8>> = None;
        std::mem::swap(&mut taken, &mut self.buffer);
        match taken {
            Some(bytes) => {
                let mut buffer: Vec<u8> = bytes;
                if out {
                    let offset: usize = if self.transfer_type == LIBUSB_TRANSFER_TYPE_CONTROL {
                        SETUP_LEN as usize
                    } else {
                        0
                    };
                    overwrite(&mut buffer, offset, data);
                }
                let (sender, receiver) = result_channel();
                let context = TransferContext::new(sender, self.completed.clone(), buffer);
                SubmitStep::Submit { transfer: self.transfer, context, receiver }
            },
            None => SubmitStep::NoBuffer,
        }
    }

    /// Keep the place where the result will come from.
    pub(crate) fn set_receiver(&mut self, receiver: oneshot::Receiver<TransferResult>)
        ensures
            final(self)@ == old(self)@.with_receiver(Some(receiver)),
    {
        proof {
            use_type_invariant(&*self);
        }
        self.receiver = Some(receiver);
    }

    /// Take the place where the result will come from.
    pub(crate) fn take_receiver(&mut self) -> (receiver: Option<oneshot::Receiver<TransferResult>>)
        ensures
            receiver == old(self)@.receiver,
            final(self)@ == old(self)@.with_receiver(None),
    {
        proof {
            use_type_invariant(&*self);
        }
        let mut receiver: Option<oneshot::Receiver<TransferResult>> = None;
        std::mem::swap(&mut receiver, &mut self.receiver);
        receiver
    }

    /// The transfer to cancel, where `completed` says whether it is over already.
    pub fn to_cancel(&self, completed: bool) -> (transfer: Option<usize>)
        ensures
            transfer == if completed {
                None
            } else {
                Some(self@.transfer)
            },
    {
        if completed {
            None
        } else {
            Some(self.transfer)
        }
    }
}

/// Write `data` over the end of `buffer`, from position `offset` on.
fn overwrite(buffer: &mut Vec<u8>, offset: usize, data: &Vec<u8>)
    requires
        offset + data@.len() == old(buffer)@.len(),
    ensures
        final(buffer)@ == old(buffer)@.take(offset as int) + data@,
{
    let ghost before = buffer@;
    let mut i: usize = 0;
    let size: usize = buffer.len();
    while i < data.len()
        invariant
            i <= data@.len(),
            size == offset + data@.len(),
            buffer@.len() == size,
            before.len() == size,
            buffer@ =~= before.take(offset as int) + data@.take(i as int) + before.skip(offset + i),
        decreases data@.len() - i,
    {
        buffer[offset + i] = data[i];
        i = i + 1;
    }
    assert(data@.take(i as int) =~= data@);
}

} // verus!
