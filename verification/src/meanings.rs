//! What the words of the contracts come to, in plain bytes, numbers and fields.
//!
//! The contracts speak of directions, packets, descriptors and the like by name. Each law here
//! says of such a name what it stands for on every input, without going through the name's own
//! definition, and in the numbers that the USB standard and libusb use.
use std::sync::atomic::{AtomicBool, Ordering};
use std::sync::Arc;

use tokio::sync::oneshot;
use vstd::prelude::*;

use crate::completion::{FinishedTransfer, TransferReport, TransferResult};
use crate::descriptors::{
    ConfigurationDescriptor, DeviceDescriptor, EndpointDescriptor, InterfaceDescriptor,
    RawAltSetting, RawConfig, RawDeviceDescriptor, RawEndpoint, RawInterface,
};
use crate::device::{DeviceProbe, UsbDevice, UsbDeviceHandle, UsbSpeed};
use crate::errors::LibusbError;
use crate::handle::ConfigValue;
use crate::hotplug::{Event, HotplugRegistration, Info};
use crate::laws::QueueStep;
use crate::packets::TransferSetup;
use crate::table::Entry;
use crate::transfers::{
    SubmitStep, TransferPlan, TransferRequest, TransferState, TransferType, UsbTransfer, Verdict,
};
use crate::usb::{CtxState, WasiUsbCtxView};

verus! {

// ---- numbers ----

/// Reading thirty-two bits as a signed number gives the one number in the signed range that
/// differs from the bits by a multiple of two to the thirty-second.
pub proof fn law_signed_numbers(value: u32, wide: int)
    ensures
        -0x8000_0000 <= crate::numbers::signed(value) <= 0x7fff_ffff,
        (value - crate::numbers::signed(value)) % 0x1_0000_0000 == 0,
        -0x8000_0000 <= crate::numbers::low_signed(wide) <= 0x7fff_ffff,
        (wide - crate::numbers::low_signed(wide)) % 0x1_0000_0000 == 0,
{
}

/// Which error stands for which status of libusb.
pub proof fn law_every_error_has_its_status(status: i32)
    ensures
        LibusbError::of_status(status) is Ok <==> status >= 0,
        LibusbError::of_status(status) == Err::<(), LibusbError>(LibusbError::Io) <==> status == -1,
        LibusbError::of_status(status) == Err::<(), LibusbError>(LibusbError::InvalidParam)
            <==> status == -2,
        LibusbError::of_status(status) == Err::<(), LibusbError>(LibusbError::Access) <==> status
            == -3,
        LibusbError::of_status(status) == Err::<(), LibusbError>(LibusbError::NoDevice) <==> status
            == -4,
        LibusbError::of_status(status) == Err::<(), LibusbError>(LibusbError::NotFound) <==> status
            == -5,
        LibusbError::of_status(status) == Err::<(), LibusbError>(LibusbError::Busy) <==> status
            == -6,
        LibusbError::of_status(status) == Err::<(), LibusbError>(LibusbError::Timeout) <==> status
            == -7,
        LibusbError::of_status(status) == Err::<(), LibusbError>(LibusbError::Overflow) <==> status
            == -8,
        LibusbError::of_status(status) == Err::<(), LibusbError>(LibusbError::Pipe) <==> status
            == -9,
        LibusbError::of_status(status) == Err::<(), LibusbError>(LibusbError::Interrupted)
            <==> status == -10,
        LibusbError::of_status(status) == Err::<(), LibusbError>(LibusbError::NoMem) <==> status
            == -11,
        LibusbError::of_status(status) == Err::<(), LibusbError>(LibusbError::NotSupported)
            <==> status == -12,
        LibusbError::of_status(status) == Err::<(), LibusbError>(LibusbError::Other) <==> status
            < -12,
{
}

/// Which error stands for which code: each of the twelve for its own, and `Other` for all the
/// rest. The code of an error is the number that it stands for.
pub proof fn law_every_error_has_its_code(value: int)
    ensures
        LibusbError::of_code(value) == LibusbError::Io <==> value == -1,
        LibusbError::of_code(value) == LibusbError::InvalidParam <==> value == -2,
        LibusbError::of_code(value) == LibusbError::Access <==> value == -3,
        LibusbError::of_code(value) == LibusbError::NoDevice <==> value == -4,
        LibusbError::of_code(value) == LibusbError::NotFound <==> value == -5,
        LibusbError::of_code(value) == LibusbError::Busy <==> value == -6,
        LibusbError::of_code(value) == LibusbError::Timeout <==> value == -7,
        LibusbError::of_code(value) == LibusbError::Overflow <==> value == -8,
        LibusbError::of_code(value) == LibusbError::Pipe <==> value == -9,
        LibusbError::of_code(value) == LibusbError::Interrupted <==> value == -10,
        LibusbError::of_code(value) == LibusbError::NoMem <==> value == -11,
        LibusbError::of_code(value) == LibusbError::NotSupported <==> value == -12,
        LibusbError::of_code(value) == LibusbError::Other <==> value < -12 || value > -1,
        LibusbError::Io.code() == -1,
        LibusbError::InvalidParam.code() == -2,
        LibusbError::Access.code() == -3,
        LibusbError::NoDevice.code() == -4,
        LibusbError::NotFound.code() == -5,
        LibusbError::Busy.code() == -6,
        LibusbError::Timeout.code() == -7,
        LibusbError::Overflow.code() == -8,
        LibusbError::Pipe.code() == -9,
        LibusbError::Interrupted.code() == -10,
        LibusbError::NoMem.code() == -11,
        LibusbError::NotSupported.code() == -12,
        LibusbError::Other.code() == -99,
{
}

/// Which speed stands for which number.
pub proof fn law_every_speed_has_its_number(value: u8)
    ensures
        UsbSpeed::of_code(value) == UsbSpeed::Unknown <==> value == 0 || value > 6,
        UsbSpeed::of_code(value) == UsbSpeed::Low <==> value == 1,
        UsbSpeed::of_code(value) == UsbSpeed::Full <==> value == 2,
        UsbSpeed::of_code(value) == UsbSpeed::High <==> value == 3,
        UsbSpeed::of_code(value) == UsbSpeed::Super <==> value == 4,
        UsbSpeed::of_code(value) == UsbSpeed::SuperPlus <==> value == 5,
        UsbSpeed::of_code(value) == UsbSpeed::SuperPlusX2 <==> value == 6,
        value <= 6 ==> UsbSpeed::of_code(value).code() == value,
{
}

/// Which number libusb has for which kind of transfer.
pub proof fn law_every_kind_has_its_number(kind: TransferType)
    ensures
        kind is Control <==> kind.code() == 0,
        kind is Isochronous <==> kind.code() == 1,
        kind is Bulk <==> kind.code() == 2,
        kind is Interrupt <==> kind.code() == 3,
{
}

/// A configuration is handed to libusb by its value, and no configuration by zero.
pub proof fn law_every_configuration_has_its_number(config: ConfigValue, value: u8)
    ensures
        ConfigValue::Value(value).code() == value,
        config is Unconfigured ==> config.code() == 0,
        0 <= config.code() <= 255,
{
}

// ---- directions ----

/// The direction is the top bit and nothing else: the device sends exactly where it is set.
pub proof fn law_direction_is_the_top_bit(direction: u8)
    ensures
        crate::completion::device_sends(direction) <==> direction & 0x80 != 0,
        crate::completion::device_sends(direction) <==> direction / 128 == 1,
        crate::completion::device_sends(direction) <==> crate::completion::device_sends(
            direction & 0x80,
        ),
        crate::completion::device_sends(direction | 0x80),
        !crate::completion::device_sends(direction & 0x7f),
{
    assert(direction & 0x80 != 0 <==> direction >= 0x80) by (bit_vector);
    assert(direction & 0x80 >= 0x80 <==> direction >= 0x80) by (bit_vector);
    assert(direction | 0x80 >= 0x80) by (bit_vector);
    assert(direction & 0x7f < 0x80) by (bit_vector);
}

/// The host sends the data of a control transfer where the top bit of its request type is
/// clear, and the data of any other transfer where the top bit of its endpoint is clear.
pub proof fn law_who_sends(state: TransferState)
    requires
        state.control_setup is Some,
    ensures
        state.transfer_type == 0 ==> (state.host_sends() <==> state.control_setup->0.bm_request_type
            & 0x80 == 0),
        state.transfer_type != 0 ==> (state.host_sends() <==> state.endpoint & 0x80 == 0),
{
    law_direction_is_the_top_bit(state.control_setup->0.bm_request_type);
    law_direction_is_the_top_bit(state.endpoint);
}

// ---- packets ----

/// Every byte of a setup packet.
pub proof fn law_setup_packet_bytes(setup: TransferSetup, length: u32)
    ensures
        setup.packet(length).len() == 8,
        setup.packet(length)[0] == setup.bm_request_type,
        setup.packet(length)[1] == setup.b_request,
        setup.packet(length)[2] + 256 * setup.packet(length)[3] == setup.w_value,
        setup.packet(length)[4] + 256 * setup.packet(length)[5] == setup.w_index,
        setup.packet(length)[6] + 256 * setup.packet(length)[7] == length % 65536,
{
}

/// A sum is built up one number at a time.
pub proof fn law_sum(lengths: Seq<u32>, next: u32)
    ensures
        crate::packets::sum(Seq::empty()) == 0,
        crate::packets::sum(lengths.push(next)) == crate::packets::sum(lengths) + next,
{
    assert(lengths.push(next).drop_last() =~= lengths);
}

/// How bytes are spread over isochronous packets: every packet but the last has the largest
/// length that all of them can have, and together they have all the bytes. There are no
/// packets where their number is not positive.
pub proof fn law_bytes_are_spread_evenly(total: u32, count: int, i: int)
    ensures
        count <= 0 ==> crate::packets::iso_lengths(total, count).len() == 0,
        count > 0 ==> {
            &&& crate::packets::iso_lengths(total, count).len() == count
            &&& crate::packets::sum(crate::packets::iso_lengths(total, count)) == total
        },
        0 <= i < count - 1 ==> {
            let length = crate::packets::iso_lengths(total, count)[i] as int;
            &&& count * length <= total
            &&& total < count * (length + 1)
        },
{
    if count > 0 {
        crate::packets::law_iso_packets_cover_the_buffer(total, count);
        if 0 <= i < count - 1 {
            let t: int = total as int;
            let q: int = t / count;
            assert(count * q <= t && t < count * (q + 1) && 0 <= q <= t) by (nonlinear_arith)
                requires
                    count > 0,
                    t >= 0,
                    q == t / count,
            ;
            assert(crate::packets::iso_lengths(total, count)[i] == q);
        }
    }
}

/// When packets lie within a buffer: every one has its length, and the data of each end before
/// the buffer does.
pub proof fn law_packets_within_a_buffer(lengths: Seq<u32>, actual: Seq<u32>, size: nat, i: int)
    ensures
        crate::packets::packets_within(lengths, actual, size) ==> lengths.len() == actual.len(),
        crate::packets::packets_within(lengths, actual, size) && 0 <= i < actual.len()
            ==> crate::packets::sum(lengths.take(i)) + actual[i] <= size,
        lengths.len() == actual.len() && (forall|j: int|
            0 <= j < actual.len() ==> crate::packets::sum(lengths.take(j)) + #[trigger] actual[j]
                <= size) ==> crate::packets::packets_within(lengths, actual, size),
{
}

// ---- transfers ----

/// The sizes of a requested transfer: the buffer has eight bytes for the setup packet of a
/// control transfer, and besides as many as the guest asked for; packets are for isochronous
/// transfers alone, as many as the bits of the guest's number say in the signed range.
pub proof fn law_sizes_of_a_request(request: TransferRequest)
    ensures
        crate::transfers::data_offset(request.xfer_type.code()) == if request.xfer_type is Control {
            8int
        } else {
            0
        },
        request.total_len() == request.buf_size + if request.xfer_type is Control {
            8int
        } else {
            0
        },
        request.fits_spec() <==> request.total_len() <= 0xffff_ffff,
        !(request.xfer_type is Isochronous) ==> request.iso_packets_spec() == 0,
        request.xfer_type is Isochronous ==> {
            &&& -0x8000_0000 <= request.iso_packets_spec() <= 0x7fff_ffff
            &&& (request.opts.iso_packets - request.iso_packets_spec()) % 0x1_0000_0000 == 0
        },
{
}

/// The buffer of a requested control transfer, whichever side sends: the request as the guest
/// made it, the size that the guest asked for, and then zeros.
pub proof fn law_new_control_buffer(request: TransferRequest, i: int)
    requires
        request.xfer_type is Control,
    ensures
        request.initial_buffer().len() == 8 + request.buf_size,
        request.initial_buffer().take(8) == request.setup.packet(request.buf_size),
        request.initial_buffer()[0] == request.setup.bm_request_type,
        request.initial_buffer()[1] == request.setup.b_request,
        request.initial_buffer()[2] + 256 * request.initial_buffer()[3] == request.setup.w_value,
        request.initial_buffer()[4] + 256 * request.initial_buffer()[5] == request.setup.w_index,
        request.initial_buffer()[6] + 256 * request.initial_buffer()[7] == request.buf_size % 65536,
        8 <= i < 8 + request.buf_size ==> request.initial_buffer()[i] == 0,
{
    law_setup_packet_bytes(request.setup, request.buf_size);
    assert(request.initial_buffer().take(8) =~= request.setup.packet(request.buf_size));
    assert forall|k: int| 0 <= k < 8 implies request.initial_buffer()[k] == request.setup.packet(
        request.buf_size,
    )[k] by {
        assert(request.initial_buffer()[k] == request.initial_buffer().take(8)[k]);
    }
}

/// The buffer of any other requested transfer: zeros, as many as the guest asked for.
pub proof fn law_new_data_buffer(request: TransferRequest, i: int)
    requires
        !(request.xfer_type is Control),
    ensures
        request.initial_buffer().len() == request.buf_size,
        0 <= i < request.buf_size ==> request.initial_buffer()[i] == 0,
{
}

/// A requested transfer is the one that the guest asked for.
pub proof fn law_new_transfer(request: TransferRequest, transfer: usize, flag: Arc<AtomicBool>)
    ensures
        ({
            let state = TransferState::requested(request, transfer, flag);
            &&& state.transfer == transfer
            &&& state.endpoint == request.opts.endpoint
            &&& state.completed == flag
            &&& state.buffer == Some(request.initial_buffer())
            &&& state.buf_len == request.buf_size
            &&& state.receiver is None
            &&& state.control_setup == Some(request.setup)
            &&& state.transfer_type == 0 <==> request.xfer_type is Control
            &&& state.transfer_type == 1 <==> request.xfer_type is Isochronous
            &&& state.transfer_type == 2 <==> request.xfer_type is Bulk
            &&& state.transfer_type == 3 <==> request.xfer_type is Interrupt
        }),
{
}

/// What is written into the transfer that libusb reserved is what the guest asked for.
pub proof fn law_reserved_transfer(
    plan: TransferPlan,
    request: TransferRequest,
    transfer: usize,
    i: int,
)
    requires
        plan.carries_out(request, transfer),
        request.fits_spec(),
    ensures
        plan.fields_spec().dev_handle == request.dev_handle,
        plan.fields_spec().endpoint == request.opts.endpoint,
        plan.fields_spec().timeout == request.opts.timeout_ms,
        plan.fields_spec().stream_id is Some <==> request.opts.stream_id != 0,
        plan.fields_spec().stream_id is Some ==> plan.fields_spec().stream_id->0
            == request.opts.stream_id,
        plan.fields_spec().transfer_type == 0 <==> request.xfer_type is Control,
        plan.fields_spec().transfer_type == 1 <==> request.xfer_type is Isochronous,
        plan.fields_spec().transfer_type == 2 <==> request.xfer_type is Bulk,
        plan.fields_spec().transfer_type == 3 <==> request.xfer_type is Interrupt,
        (plan.outcome().buffer->0.len() - plan.fields_spec().length) % 0x1_0000_0000 == 0,
        plan.outcome().buffer->0.len() <= 0x7fff_ffff ==> plan.fields_spec().length
            == plan.outcome().buffer->0.len(),
        !(request.xfer_type is Isochronous) ==> plan.fields_spec().iso_packet_lengths@.len() == 0,
        request.xfer_type is Isochronous && 0 < request.opts.iso_packets <= 0x7fff_ffff ==> {
            let lengths = plan.fields_spec().iso_packet_lengths@;
            &&& lengths.len() == request.opts.iso_packets
            &&& crate::packets::sum(lengths) == request.buf_size
            &&& 0 <= i < lengths.len() - 1 ==> {
                &&& lengths.len() * lengths[i] <= request.buf_size
                &&& request.buf_size < lengths.len() * (lengths[i] + 1)
            }
        },
        plan.outcome().transfer == transfer,
        plan.outcome().buffer == Some(request.initial_buffer()),
        plan.outcome().buf_len == request.buf_size,
        plan.outcome().receiver is None,
        plan.outcome().control_setup == Some(request.setup),
        plan.outcome().endpoint == request.opts.endpoint,
        plan.outcome().transfer_type == plan.fields_spec().transfer_type,
        call_ensures(AtomicBool::new, (false,), *plan.outcome().completed),
{
    law_sizes_of_a_request(request);
    law_bytes_are_spread_evenly(request.buf_size, request.iso_packets_spec(), i);
    if request.xfer_type is Control {
        law_new_control_buffer(request, 0);
    } else {
        law_new_data_buffer(request, 0);
    }
    law_signed_numbers(request.total_len() as u32, 0);
}

/// What becomes of a submission, in terms of the top bit of the direction, the number of bytes
/// that the guest hands in, and whether the transfer is over or in flight.
pub proof fn law_when_a_transfer_is_submitted(
    state: TransferState,
    completed: bool,
    data: Seq<u8>,
)
    requires
        state.control_setup is Some,
    ensures
        ({
            let direction = if state.transfer_type == 0 {
                state.control_setup->0.bm_request_type
            } else {
                state.endpoint
            };
            let fits = direction & 0x80 != 0 || data.len() == state.buf_len;
            let verdict = state.verdict(completed, data);
            &&& verdict == Verdict::Refuse(LibusbError::Busy) <==> completed
            &&& verdict == Verdict::Refuse(LibusbError::InvalidParam) <==> !completed && !fits
            &&& verdict is NoBuffer <==> !completed && fits && state.buffer is None
            &&& verdict is Submit <==> !completed && fits && state.buffer is Some
        }),
{
    law_who_sends(state);
}

/// What a submission hands over. Where the top bit of the direction is clear, the guest's data
/// take the place of all data, behind the setup packet of a control transfer, which stays as it
/// is. Where it is set, all bytes stay as they are, whatever the guest hands in.
pub proof fn law_what_is_submitted(state: TransferState, data: Seq<u8>, i: int)
    requires
        state.well_formed(),
        state.verdict(false, data) is Submit,
    ensures
        ({
            let direction = if state.transfer_type == 0 {
                state.control_setup->0.bm_request_type
            } else {
                state.endpoint
            };
            let offset = if state.transfer_type == 0 {
                8int
            } else {
                0
            };
            let bytes = state.buffer->0;
            let submitted = state.submitted(data);
            &&& submitted.len() == bytes.len()
            &&& submitted.len() == offset + state.buf_len
            &&& 0 <= i < offset ==> submitted[i] == bytes[i]
            &&& direction & 0x80 == 0 ==> data.len() == state.buf_len
            &&& direction & 0x80 == 0 && offset <= i < submitted.len() ==> submitted[i]
                == data[i - offset]
            &&& direction & 0x80 != 0 && 0 <= i < submitted.len() ==> submitted[i] == bytes[i]
        }),
{
    law_who_sends(state);
    law_when_a_transfer_is_submitted(state, false, data);
}

/// What a new control transfer submits, whichever side sends: the setup packet of the request,
/// and behind it the guest's data where the top bit of the request type is clear, zeros where
/// it is set. Data of another length are refused in the first case and ignored in the second.
pub proof fn law_control_transfer_from_request_to_bytes(
    request: TransferRequest,
    transfer: usize,
    flag: Arc<AtomicBool>,
    data: Seq<u8>,
)
    requires
        request.xfer_type is Control,
    ensures
        ({
            let state = TransferState::requested(request, transfer, flag);
            let packet = request.setup.packet(request.buf_size);
            let zeros = Seq::new(request.buf_size as nat, |k: int| 0u8);
            let out = request.setup.bm_request_type & 0x80 == 0;
            let verdict = state.verdict(false, data);
            &&& out && data.len() == request.buf_size ==> verdict is Submit && state.submitted(data)
                == packet + data
            &&& out && data.len() != request.buf_size ==> verdict == Verdict::Refuse(
                LibusbError::InvalidParam,
            )
            &&& !out ==> verdict is Submit && state.submitted(data) == packet + zeros
        }),
{
    let state = TransferState::requested(request, transfer, flag);
    let packet = request.setup.packet(request.buf_size);
    let zeros = Seq::new(request.buf_size as nat, |k: int| 0u8);
    law_who_sends(state);
    law_when_a_transfer_is_submitted(state, false, data);
    law_new_control_buffer(request, 0);
    assert(request.initial_buffer() =~= packet + zeros) by {
        assert forall|k: int| 0 <= k < 8 + request.buf_size implies request.initial_buffer()[k] == (
        packet + zeros)[k] by {
            law_new_control_buffer(request, k);
            if k < 8 {
                assert(request.initial_buffer()[k] == request.initial_buffer().take(8)[k]);
            }
        }
    }
    if request.setup.bm_request_type & 0x80 == 0 && data.len() == request.buf_size {
        assert(state.submitted(data) =~= packet + data);
    }
}

/// What any other new transfer submits: the guest's data where the top bit of the endpoint is
/// clear, zeros where it is set. Data of another length are refused in the first case and
/// ignored in the second.
pub proof fn law_data_transfer_from_request_to_bytes(
    request: TransferRequest,
    transfer: usize,
    flag: Arc<AtomicBool>,
    data: Seq<u8>,
)
    requires
        !(request.xfer_type is Control),
    ensures
        ({
            let state = TransferState::requested(request, transfer, flag);
            let zeros = Seq::new(request.buf_size as nat, |k: int| 0u8);
            let out = request.opts.endpoint & 0x80 == 0;
            let verdict = state.verdict(false, data);
            &&& out && data.len() == request.buf_size ==> verdict is Submit && state.submitted(data)
                == data
            &&& out && data.len() != request.buf_size ==> verdict == Verdict::Refuse(
                LibusbError::InvalidParam,
            )
            &&& !out ==> verdict is Submit && state.submitted(data) == zeros
        }),
{
    let state = TransferState::requested(request, transfer, flag);
    let zeros = Seq::new(request.buf_size as nat, |k: int| 0u8);
    law_who_sends(state);
    law_when_a_transfer_is_submitted(state, false, data);
    assert(request.initial_buffer() =~= zeros);
    if request.opts.endpoint & 0x80 == 0 && data.len() == request.buf_size {
        assert(state.submitted(data) =~= data);
    }
}

/// Submitting a transfer takes its bytes away, and waiting for it takes its receiver away. All
/// else stays.
pub proof fn law_what_changes_of_a_transfer(
    state: TransferState,
    receiver: Option<oneshot::Receiver<TransferResult>>,
)
    ensures
        state.in_flight().buffer is None,
        state.in_flight().receiver == state.receiver,
        state.in_flight().transfer == state.transfer,
        state.in_flight().transfer_type == state.transfer_type,
        state.in_flight().endpoint == state.endpoint,
        state.in_flight().completed == state.completed,
        state.in_flight().buf_len == state.buf_len,
        state.in_flight().control_setup == state.control_setup,
        state.with_receiver(receiver).receiver == receiver,
        state.with_receiver(receiver).buffer == state.buffer,
        state.with_receiver(receiver).transfer == state.transfer,
        state.with_receiver(receiver).transfer_type == state.transfer_type,
        state.with_receiver(receiver).endpoint == state.endpoint,
        state.with_receiver(receiver).completed == state.completed,
        state.with_receiver(receiver).buf_len == state.buf_len,
        state.with_receiver(receiver).control_setup == state.control_setup,
{
}

/// What a step of a submission is: the refusal of a transfer that is over, the refusal of data
/// of the wrong length, or the submission of this very transfer, with its bytes and its flag,
/// and with a channel of which the caller keeps the other half.
pub proof fn law_steps_of_a_submission(
    step: SubmitStep,
    before: UsbTransfer,
    completed: bool,
    data: Seq<u8>,
    after: UsbTransfer,
)
    requires
        step.follows(before, completed, data, after),
        before@.well_formed(),
    ensures
        !(step is NoTransfer),
        step == SubmitStep::Refused(LibusbError::Busy) <==> completed,
        step is Refused && !completed ==> {
            &&& step == SubmitStep::Refused(LibusbError::InvalidParam)
            &&& data.len() != before@.buf_len
        },
        step is NoBuffer ==> before@.buffer is None,
        !(step is Submit) ==> after == before,
        step is Submit ==> {
            &&& !completed
            &&& before@.buffer is Some
            &&& step->transfer == before@.transfer
            &&& step->context.bytes() == before@.submitted(data)
            &&& step->context.flag() == before@.completed
            &&& step->receiver == crate::channel::other_half(step->context.destination())
            &&& after@.buffer is None
            &&& after@.receiver == before@.receiver
            &&& after@.transfer == before@.transfer
            &&& after@.transfer_type == before@.transfer_type
            &&& after@.endpoint == before@.endpoint
            &&& after@.completed == before@.completed
            &&& after@.buf_len == before@.buf_len
            &&& after@.control_setup == before@.control_setup
        },
        !completed && before@.buffer is Some && data.len() == before@.buf_len ==> step is Submit,
{
    law_when_a_transfer_is_submitted(before@, completed, data);
}

/// What holds of every transfer.
pub proof fn law_well_formed_transfer(state: TransferState)
    requires
        state.well_formed(),
    ensures
        state.control_setup is Some,
        call_ensures(AtomicBool::new, (false,), *state.completed),
        state.buffer is Some && state.transfer_type == 0 ==> state.buffer->0.len() == 8
            + state.buf_len,
        state.buffer is Some && state.transfer_type != 0 ==> state.buffer->0.len()
            == state.buf_len,
{
}

// ---- results ----

/// Which error a transfer gives for which status, and when it gives none.
pub proof fn law_every_status_has_its_result(
    report: TransferReport,
    buffer: Seq<u8>,
    result: TransferResult,
)
    requires
        report.gives(buffer, result),
    ensures
        result is Ok <==> report.status == 0,
        result is Ok ==> result->Ok_0@ == report.received(buffer),
        result is Err ==> {
            &&& result->Err_0 == LibusbError::Io <==> report.status == 1
            &&& result->Err_0 == LibusbError::Timeout <==> report.status == 2
            &&& result->Err_0 == LibusbError::Interrupted <==> report.status == 3
            &&& result->Err_0 == LibusbError::Pipe <==> report.status == 4
            &&& result->Err_0 == LibusbError::NoDevice <==> report.status == 5
            &&& result->Err_0 == LibusbError::Overflow <==> report.status == 6
            &&& result->Err_0 == LibusbError::Other <==> report.status < 0 || report.status > 6
        },
{
}

/// When a report fits a buffer, in terms of the bytes that it speaks of.
pub proof fn law_when_a_report_fits(report: TransferReport, buffer: Seq<u8>)
    ensures
        report.status != 0 ==> report.fits_spec(buffer),
        report.status == 0 && report.iso_actual_lengths@.len() > 0 ==> (report.fits_spec(buffer)
            <==> crate::packets::packets_within(
            report.iso_lengths@,
            report.iso_actual_lengths@,
            buffer.len(),
        )),
        report.status == 0 && report.iso_actual_lengths@.len() == 0 && report.transfer_type == 0
            ==> (report.fits_spec(buffer) <==> {
            &&& buffer.len() > 0
            &&& buffer[0] & 0x80 == 0 || report.actual_length == 0 || (0 < report.actual_length
                && 8 + report.actual_length <= buffer.len())
        }),
        report.status == 0 && report.iso_actual_lengths@.len() == 0 && report.transfer_type != 0
            ==> (report.fits_spec(buffer) <==> report.endpoint & 0x80 == 0 || report.actual_length
            == 0 || (0 < report.actual_length <= buffer.len())),
{
    law_direction_is_the_top_bit(buffer[0]);
    law_direction_is_the_top_bit(report.endpoint);
}

/// Which bytes a completed transfer gives. A control transfer gives the bytes behind the setup
/// packet where the top bit of the first byte is set, the others give the leading bytes where
/// the top bit of the endpoint is set, in both cases as many as libusb counted. Where the bit
/// is clear they give none.
pub proof fn law_which_bytes_come_back(report: TransferReport, buffer: Seq<u8>, k: int)
    requires
        report.status == 0,
        report.iso_actual_lengths@.len() == 0,
        report.fits_spec(buffer),
    ensures
        ({
            let direction = if report.transfer_type == 0 {
                buffer[0]
            } else {
                report.endpoint
            };
            let offset = if report.transfer_type == 0 {
                8int
            } else {
                0
            };
            let received = report.received(buffer);
            &&& direction & 0x80 == 0 ==> received.len() == 0
            &&& direction & 0x80 != 0 ==> received.len() == report.actual_length
            &&& 0 <= k < received.len() ==> received[k] == buffer[offset + k]
        }),
{
    law_direction_is_the_top_bit(buffer[0]);
    law_direction_is_the_top_bit(report.endpoint);
}

/// Which bytes a completed transfer with isochronous packets gives: those of packet `i` from
/// where the packets before it end, as many as libusb counted, one packet after the other.
pub proof fn law_which_packet_bytes_come_back(
    report: TransferReport,
    buffer: Seq<u8>,
    i: int,
    k: int,
)
    requires
        report.status == 0,
        report.iso_actual_lengths@.len() > 0,
        report.fits_spec(buffer),
    ensures
        report.received(buffer).len() == crate::packets::sum(report.iso_actual_lengths@),
        0 <= i < report.iso_actual_lengths@.len() && 0 <= k < report.iso_actual_lengths@[i]
            ==> report.received(buffer)[crate::packets::sum(report.iso_actual_lengths@.take(i)) + k]
            == buffer[crate::packets::sum(report.iso_lengths@.take(i)) + k],
{
    let actual = report.iso_actual_lengths@;
    crate::packets::lemma_combined_length(
        buffer,
        report.iso_lengths@,
        actual,
        actual.len() as int,
    );
    assert(actual.take(actual.len() as int) =~= actual);
    if 0 <= i < actual.len() && 0 <= k < actual[i] {
        crate::packets::law_packet_data_place(buffer, report.iso_lengths@, actual, i, k);
    }
}

// ---- flags and channels ----

/// What the flags' words stand for: the calls that make, read and raise them.
pub proof fn law_flags_are_those_of_the_calls(flag: Arc<AtomicBool>, value: bool)
    ensures
        crate::flags::flag_starts(flag, value) <==> call_ensures(
            AtomicBool::new,
            (value,),
            *flag,
        ),
        crate::flags::flag_reads(flag, value) <==> call_ensures(
            AtomicBool::load,
            (&*flag, Ordering::SeqCst),
            value,
        ),
        crate::flags::flag_raised(flag) <==> call_ensures(
            AtomicBool::store,
            (&*flag, true, Ordering::SeqCst),
            (),
        ),
{
}

/// What is sent is sent by the channel's own call, and a finished transfer sends by its own.
pub proof fn law_sending_is_that_of_the_calls(
    sender: oneshot::Sender<TransferResult>,
    result: TransferResult,
    sent: Result<(), TransferResult>,
    message: FinishedTransfer,
)
    ensures
        crate::completion::sending_gives(sender, result, sent) <==> call_ensures(
            oneshot::Sender::<TransferResult>::send,
            (sender, result),
            sent,
        ),
        message.sent_as(sent) <==> call_ensures(FinishedTransfer::send, (message,), sent),
{
}

// ---- descriptors ----

/// Every field of a device descriptor is the one that libusb read.
pub proof fn law_device_descriptor_fields(raw: RawDeviceDescriptor)
    ensures
        DeviceDescriptor::of(raw).length == raw.b_length,
        DeviceDescriptor::of(raw).descriptor_type == raw.b_descriptor_type,
        DeviceDescriptor::of(raw).usb_version_bcd == raw.bcd_usb,
        DeviceDescriptor::of(raw).device_class == raw.b_device_class,
        DeviceDescriptor::of(raw).device_subclass == raw.b_device_sub_class,
        DeviceDescriptor::of(raw).device_protocol == raw.b_device_protocol,
        DeviceDescriptor::of(raw).max_packet_size0 == raw.b_max_packet_size0,
        DeviceDescriptor::of(raw).vendor_id == raw.id_vendor,
        DeviceDescriptor::of(raw).product_id == raw.id_product,
        DeviceDescriptor::of(raw).device_version_bcd == raw.bcd_device,
        DeviceDescriptor::of(raw).manufacturer_index == raw.i_manufacturer,
        DeviceDescriptor::of(raw).product_index == raw.i_product,
        DeviceDescriptor::of(raw).serial_number_index == raw.i_serial_number,
        DeviceDescriptor::of(raw).num_configurations == raw.b_num_configurations,
{
}

/// Every field of an endpoint descriptor is the one that libusb read.
pub proof fn law_endpoint_descriptor_fields(raw: RawEndpoint)
    ensures
        EndpointDescriptor::of(raw).length == raw.b_length,
        EndpointDescriptor::of(raw).descriptor_type == raw.b_descriptor_type,
        EndpointDescriptor::of(raw).endpoint_address == raw.b_endpoint_address,
        EndpointDescriptor::of(raw).attributes == raw.bm_attributes,
        EndpointDescriptor::of(raw).max_packet_size == raw.w_max_packet_size,
        EndpointDescriptor::of(raw).interval == raw.b_interval,
        EndpointDescriptor::of(raw).refresh == raw.b_refresh,
        EndpointDescriptor::of(raw).synch_address == raw.b_synch_address,
{
}

/// Every field of an interface descriptor is the one that libusb read, and so is every field of
/// each of its endpoints, in their order.
pub proof fn law_interface_descriptor_fields(
    descriptor: InterfaceDescriptor,
    raw: RawAltSetting,
    k: int,
)
    requires
        descriptor.describes(raw),
    ensures
        descriptor.length == raw.b_length,
        descriptor.descriptor_type == raw.b_descriptor_type,
        descriptor.interface_number == raw.b_interface_number,
        descriptor.alternate_setting == raw.b_alternate_setting,
        descriptor.interface_class == raw.b_interface_class,
        descriptor.interface_subclass == raw.b_interface_sub_class,
        descriptor.interface_protocol == raw.b_interface_protocol,
        descriptor.interface_index == raw.i_interface,
        descriptor.endpoints@.len() == raw.endpoints@.len(),
        0 <= k < raw.endpoints@.len() ==> {
            &&& descriptor.endpoints@[k].length == raw.endpoints@[k].b_length
            &&& descriptor.endpoints@[k].descriptor_type == raw.endpoints@[k].b_descriptor_type
            &&& descriptor.endpoints@[k].endpoint_address == raw.endpoints@[k].b_endpoint_address
            &&& descriptor.endpoints@[k].attributes == raw.endpoints@[k].bm_attributes
            &&& descriptor.endpoints@[k].max_packet_size == raw.endpoints@[k].w_max_packet_size
            &&& descriptor.endpoints@[k].interval == raw.endpoints@[k].b_interval
            &&& descriptor.endpoints@[k].refresh == raw.endpoints@[k].b_refresh
            &&& descriptor.endpoints@[k].synch_address == raw.endpoints@[k].b_synch_address
        },
{
    if 0 <= k < raw.endpoints@.len() {
        law_endpoint_descriptor_fields(raw.endpoints@[k]);
    }
}

/// The alternate settings of one more interface follow those of the interfaces before it, and
/// nothing else is added.
pub proof fn law_alt_settings_of_one_more(interfaces: Seq<RawInterface>, next: RawInterface)
    ensures
        crate::descriptors::alt_settings(Seq::empty()).len() == 0,
        crate::descriptors::alt_settings(interfaces.push(next)) == crate::descriptors::alt_settings(
            interfaces,
        ) + next.altsettings@,
{
    assert(interfaces.push(next).drop_last() =~= interfaces);
}

/// Every field of a configuration descriptor is the one that libusb read. There is one interface
/// descriptor for each alternate setting: that of setting `j` of interface `i` comes behind all
/// those of the interfaces before, and has its fields and those of its endpoints.
pub proof fn law_configuration_descriptor_fields(
    descriptor: ConfigurationDescriptor,
    raw: RawConfig,
    i: int,
    j: int,
    k: int,
)
    requires
        descriptor.describes(raw),
    ensures
        descriptor.length == raw.b_length,
        descriptor.descriptor_type == raw.b_descriptor_type,
        descriptor.total_length == raw.w_total_length,
        descriptor.configuration_value == raw.b_configuration_value,
        descriptor.configuration_index == raw.i_configuration,
        descriptor.attributes == raw.bm_attributes,
        descriptor.max_power == raw.b_max_power,
        descriptor.interfaces@.len() == crate::descriptors::alt_settings(raw.interfaces@).len(),
        0 <= i < raw.interfaces@.len() && 0 <= j < raw.interfaces@[i].altsettings@.len() ==> {
            let place = crate::descriptors::alt_settings(raw.interfaces@.take(i)).len() + j;
            let setting = raw.interfaces@[i].altsettings@[j];
            let given = descriptor.interfaces@[place];
            &&& place < descriptor.interfaces@.len()
            &&& given.length == setting.b_length
            &&& given.descriptor_type == setting.b_descriptor_type
            &&& given.interface_number == setting.b_interface_number
            &&& given.alternate_setting == setting.b_alternate_setting
            &&& given.interface_class == setting.b_interface_class
            &&& given.interface_subclass == setting.b_interface_sub_class
            &&& given.interface_protocol == setting.b_interface_protocol
            &&& given.interface_index == setting.i_interface
            &&& given.endpoints@.len() == setting.endpoints@.len()
            &&& 0 <= k < setting.endpoints@.len() ==> {
                &&& given.endpoints@[k].length == setting.endpoints@[k].b_length
                &&& given.endpoints@[k].descriptor_type == setting.endpoints@[k].b_descriptor_type
                &&& given.endpoints@[k].endpoint_address == setting.endpoints@[k].b_endpoint_address
                &&& given.endpoints@[k].attributes == setting.endpoints@[k].bm_attributes
                &&& given.endpoints@[k].max_packet_size == setting.endpoints@[k].w_max_packet_size
                &&& given.endpoints@[k].interval == setting.endpoints@[k].b_interval
                &&& given.endpoints@[k].refresh == setting.endpoints@[k].b_refresh
                &&& given.endpoints@[k].synch_address == setting.endpoints@[k].b_synch_address
            }
        },
{
    if 0 <= i < raw.interfaces@.len() && 0 <= j < raw.interfaces@[i].altsettings@.len() {
        crate::descriptors::law_alt_setting_place(raw.interfaces@, i, j);
        let place = crate::descriptors::alt_settings(raw.interfaces@.take(i)).len() + j;
        law_interface_descriptor_fields(
            descriptor.interfaces@[place],
            raw.interfaces@[i].altsettings@[j],
            k,
        );
    }
}

// ---- devices ----

/// What the guest is told of a device: its handle, every field of its descriptor, and where it
/// is plugged in, all as libusb said.
pub proof fn law_what_is_told_of_a_device(probe: DeviceProbe, rep: u32)
    ensures
        probe.listed(rep).0 == rep,
        probe.listed(rep).1.length == probe.descriptor.b_length,
        probe.listed(rep).1.descriptor_type == probe.descriptor.b_descriptor_type,
        probe.listed(rep).1.usb_version_bcd == probe.descriptor.bcd_usb,
        probe.listed(rep).1.device_class == probe.descriptor.b_device_class,
        probe.listed(rep).1.device_subclass == probe.descriptor.b_device_sub_class,
        probe.listed(rep).1.device_protocol == probe.descriptor.b_device_protocol,
        probe.listed(rep).1.max_packet_size0 == probe.descriptor.b_max_packet_size0,
        probe.listed(rep).1.vendor_id == probe.descriptor.id_vendor,
        probe.listed(rep).1.product_id == probe.descriptor.id_product,
        probe.listed(rep).1.device_version_bcd == probe.descriptor.bcd_device,
        probe.listed(rep).1.manufacturer_index == probe.descriptor.i_manufacturer,
        probe.listed(rep).1.product_index == probe.descriptor.i_product,
        probe.listed(rep).1.serial_number_index == probe.descriptor.i_serial_number,
        probe.listed(rep).1.num_configurations == probe.descriptor.b_num_configurations,
        probe.listed(rep).2.bus_number == probe.bus_number,
        probe.listed(rep).2.device_address == probe.device_address,
        probe.listed(rep).2.port_number == probe.port_number,
        probe.listed(rep).2.speed == UsbSpeed::Low <==> probe.speed % 256 == 1,
        probe.listed(rep).2.speed == UsbSpeed::Full <==> probe.speed % 256 == 2,
        probe.listed(rep).2.speed == UsbSpeed::High <==> probe.speed % 256 == 3,
        probe.listed(rep).2.speed == UsbSpeed::Super <==> probe.speed % 256 == 4,
        probe.listed(rep).2.speed == UsbSpeed::SuperPlus <==> probe.speed % 256 == 5,
        probe.listed(rep).2.speed == UsbSpeed::SuperPlusX2 <==> probe.speed % 256 == 6,
        probe.listed(rep).2.speed == UsbSpeed::Unknown <==> probe.speed % 256 == 0 || probe.speed
            % 256 > 6,
{
    law_device_descriptor_fields(probe.descriptor);
}

/// The devices that become resources are those of the list that have an address, in the order
/// of the list.
pub proof fn law_which_devices_are_there(probes: Seq<DeviceProbe>)
    ensures
        crate::device::present(probes) == probes.filter(|p: DeviceProbe| p.device != 0),
    decreases probes.len(),
{
    reveal(Seq::filter);
    if probes.len() > 0 {
        law_which_devices_are_there(probes.drop_last());
    }
}

/// Every device becomes a resource under its own address.
pub proof fn law_addresses_of_devices(probes: Seq<DeviceProbe>, i: int)
    ensures
        crate::device::addresses(probes).len() == probes.len(),
        0 <= i < probes.len() ==> crate::device::addresses(probes)[i].device == probes[i].device,
{
}

/// The guest is told of one more device where its descriptor could be read, behind the devices
/// before it and under the handle that goes with it.
pub proof fn law_listing_of_one_more(probes: Seq<DeviceProbe>, reps: Seq<u32>, next: DeviceProbe)
    ensures
        crate::device::listing(Seq::empty(), reps).len() == 0,
        crate::device::listing(probes.push(next), reps) == if next.status >= 0 {
            crate::device::listing(probes, reps).push(next.listed(reps[probes.len() as int]))
        } else {
            crate::device::listing(probes, reps)
        },
{
    assert(probes.push(next).drop_last() =~= probes);
}

// ---- resources ----

/// What is found in a slot is what the slot holds, if it is of the kind that is looked for.
pub proof fn law_what_a_slot_holds(
    entries: Map<u32, Entry>,
    rep: u32,
    device: UsbDevice,
    handle: UsbDeviceHandle,
    transfer: UsbTransfer,
)
    ensures
        crate::table::device_at(entries, rep) == Some(device) <==> entries.contains_pair(
            rep,
            Entry::Device(device),
        ),
        crate::table::handle_at(entries, rep) == Some(handle) <==> entries.contains_pair(
            rep,
            Entry::Handle(handle),
        ),
        crate::table::transfer_at(entries, rep) == Some(transfer) <==> entries.contains_pair(
            rep,
            Entry::Transfer(transfer),
        ),
        !entries.contains_key(rep) ==> {
            &&& crate::table::device_at(entries, rep) is None
            &&& crate::table::handle_at(entries, rep) is None
            &&& crate::table::transfer_at(entries, rep) is None
        },
{
}

/// There is room as long as the slots in use are fewer than the table may have, and their
/// numbers have thirty-two bits.
pub proof fn law_when_there_is_room(entries: Map<u32, Entry>, capacity: nat)
    ensures
        crate::table::has_room(entries, capacity) <==> entries.dom().len() < capacity
            && entries.dom().len() < 0x1_0000_0000,
{
}

/// Adding devices fills one slot for each, which was free, and no other slot.
pub proof fn law_which_slots_are_filled(
    before: Map<u32, Entry>,
    after: Map<u32, Entry>,
    devices: Seq<UsbDevice>,
    reps: Seq<u32>,
    i: int,
    j: int,
    rep: u32,
)
    requires
        crate::table::devices_added(before, after, devices, reps),
    ensures
        reps.len() <= devices.len(),
        after.contains_key(rep) <==> before.contains_key(rep) || reps.contains(rep),
        before.contains_key(rep) ==> after[rep] == before[rep],
        0 <= i < reps.len() ==> {
            &&& !before.contains_key(reps[i])
            &&& after.contains_pair(reps[i], Entry::Device(devices[i]))
        },
        0 <= i < j < reps.len() ==> reps[i] != reps[j],
{
    assert(after.contains_key(rep) <==> after.dom().contains(rep));
    assert(reps.to_set().contains(rep) <==> reps.contains(rep));
    if 0 <= i < reps.len() {
        assert(after.contains_pair(reps[i], Entry::Device(devices[i])));
    }
}

/// What an operation reads of the guest is what the guest's state and table hold.
pub proof fn law_what_a_view_shows(usb: WasiUsbCtxView<'_>, rep: u32, address: usize)
    ensures
        usb.state() == old(usb.ctx)@,
        usb.entries() == crate::table::table_entries(*old(usb.table)),
        usb.parents() == crate::table::table_parents(*old(usb.table)),
        usb.strays() == crate::table::table_strays(*old(usb.table)),
        usb.capacity() == crate::table::table_capacity(*old(usb.table)),
        usb.device_address(rep) == Some(address) <==> usb.entries().contains_pair(
            rep,
            Entry::Device(UsbDevice { device: address }),
        ),
        usb.handle_address(rep) == Some(address) <==> usb.entries().contains_pair(
            rep,
            Entry::Handle(UsbDeviceHandle { handle: address }),
        ),
{
}

// ---- state of a guest ----

/// What a new guest has, and what the initialisation and the registration of the hotplug
/// callback change of it.
pub proof fn law_what_a_guest_has(
    enabled: bool,
    state: CtxState,
    context: usize,
    flag: Arc<AtomicBool>,
    handle: i32,
)
    ensures
        CtxState::initial(enabled).libusb_ctx is None,
        CtxState::initial(enabled).event_loop_flag is None,
        CtxState::initial(enabled).hotplug_enabled == enabled,
        CtxState::initial(enabled).hotplug_handle is None,
        state.init_needed() <==> state.libusb_ctx is None,
        state.with_context(context, flag).libusb_ctx == Some(context),
        state.with_context(context, flag).event_loop_flag == Some(flag),
        state.with_context(context, flag).hotplug_enabled == state.hotplug_enabled,
        state.with_context(context, flag).hotplug_handle == state.hotplug_handle,
        state.with_hotplug(handle).libusb_ctx == state.libusb_ctx,
        state.with_hotplug(handle).event_loop_flag == state.event_loop_flag,
        state.with_hotplug(handle).hotplug_enabled,
        state.with_hotplug(handle).hotplug_handle == Some(handle),
        state.well_formed() ==> {
            &&& state.libusb_ctx is Some <==> state.event_loop_flag is Some
            &&& state.event_loop_flag is Some ==> call_ensures(
                AtomicBool::new,
                (true,),
                *state.event_loop_flag->0,
            )
            &&& state.hotplug_handle is Some ==> state.hotplug_enabled
        },
{
}

// ---- hotplug ----

/// Which number of libusb stands for which event.
pub proof fn law_every_event_has_its_number(code: i32)
    ensures
        Event::of_code(code) == Some(Event::Arrived) <==> code == 1,
        Event::of_code(code) == Some(Event::Left) <==> code == 2,
        Event::of_code(code) is None <==> code != 1 && code != 2,
{
}

/// What becomes of a notification: it is queued where the descriptor could be read and libusb
/// defines the event, as that event and with the bus, the address, the vendor and the product
/// that came in.
pub proof fn law_what_is_queued(status: i32, code: i32, info: Info)
    ensures
        crate::hotplug::accepted(status, code, info) is Some <==> status == 0 && (code == 1 || code
            == 2),
        crate::hotplug::accepted(status, code, info) is Some ==> {
            let (event, seen) = crate::hotplug::accepted(status, code, info)->0;
            &&& event == Event::Arrived <==> code == 1
            &&& event == Event::Left <==> code == 2
            &&& seen.bus == info.bus
            &&& seen.address == info.address
            &&& seen.vendor == info.vendor
            &&& seen.product == info.product
        },
{
}

/// What is asked of libusb at the registration: both events, from now on, of every device of
/// the guest's context.
pub proof fn law_what_is_registered(state: CtxState, capability: i32, context: usize)
    ensures
        HotplugRegistration::of(context).context == context,
        HotplugRegistration::of(context).events == 3,
        HotplugRegistration::of(context).flags == 0,
        HotplugRegistration::of(context).vendor_id == -1,
        HotplugRegistration::of(context).product_id == -1,
        HotplugRegistration::of(context).dev_class == -1,
        state.hotplug_capability() is None <==> state.hotplug_handle is Some,
        state.hotplug_capability() is Some ==> state.hotplug_capability()->0 == 1,
        state.hotplug_registration(capability) is Ok <==> capability != 0 && state.libusb_ctx
            is Some,
        state.hotplug_registration(capability) is Ok ==> state.hotplug_registration(
            capability,
        )->Ok_0 == HotplugRegistration::of(state.libusb_ctx->0),
        state.hotplug_registration(capability) is Err ==> {
            let error = state.hotplug_registration(capability)->Err_0;
            &&& error == LibusbError::NotSupported <==> capability == 0
            &&& error == LibusbError::NotFound <==> capability != 0
        },
{
}

/// What a poll gives for each notification: its event, its info, and the handle that its own
/// device got.
pub proof fn law_what_is_polled(
    events: Seq<(Event, Info, UsbDevice)>,
    reps: Seq<u32>,
    i: int,
)
    ensures
        crate::hotplug::devices_of(events).len() == events.len(),
        0 <= i < events.len() ==> crate::hotplug::devices_of(events)[i] == events[i].2,
        crate::hotplug::polled(events, reps).len() == reps.len(),
        0 <= i < reps.len() ==> {
            &&& crate::hotplug::polled(events, reps)[i].0 == events[i].0
            &&& crate::hotplug::polled(events, reps)[i].1 == events[i].1
            &&& crate::hotplug::polled(events, reps)[i].2 == reps[i]
        },
{
}

/// A device that arrives or leaves while its descriptor can be read is handed to the guest at
/// the next poll, as what libusb said of it.
pub proof fn law_a_notification_reaches_the_guest(
    steps: Seq<QueueStep>,
    code: i32,
    info: Info,
    device: UsbDevice,
    before: Map<u32, Entry>,
    after: Map<u32, Entry>,
    reps: Seq<u32>,
)
    requires
        code == 1 || code == 2,
        crate::laws::polls_succeed(
            steps.push(QueueStep::Notify { descriptor_status: 0, code, info, device }).push(
                QueueStep::Poll { before, after, reps },
            ),
        ),
    ensures
        ({
            let seen = steps.push(QueueStep::Notify { descriptor_status: 0, code, info, device });
            let all = seen.push(QueueStep::Poll { before, after, reps });
            let given = crate::laws::handed_out(all).last();
            &&& crate::laws::handed_out(all).len() > 0
            &&& given.0 == if code == 1 {
                Event::Arrived
            } else {
                Event::Left
            }
            &&& given.1 == info
            &&& crate::table::device_at(after, given.2) == Some(device)
        }),
{
    let seen = steps.push(QueueStep::Notify { descriptor_status: 0, code, info, device });
    let all = seen.push(QueueStep::Poll { before, after, reps });
    assert(seen.drop_last() =~= steps);
    assert(all.drop_last() =~= seen);
    let events = crate::laws::queue_after(seen);
    let last = events.len() - 1;
    assert(events[last] == (
        if code == 1 {
            Event::Arrived
        } else {
            Event::Left
        },
        info,
        device,
    ));
    crate::laws::law_notifications_keep_their_order(events, reps, before, after, last);
    assert(crate::laws::handed_out(all).last() == crate::hotplug::polled(events, reps)[last]);
}

// ---- libusb's numbers ----

/// The numbers of libusb and of the USB standard that this library uses.
pub proof fn law_numbers_of_libusb()
    ensures
        crate::constants::LIBUSB_TRANSFER_TYPE_CONTROL == 0,
        crate::constants::LIBUSB_TRANSFER_TYPE_ISOCHRONOUS == 1,
        crate::constants::LIBUSB_TRANSFER_TYPE_BULK == 2,
        crate::constants::LIBUSB_TRANSFER_TYPE_INTERRUPT == 3,
        crate::constants::LIBUSB_TRANSFER_COMPLETED == 0,
        crate::constants::LIBUSB_TRANSFER_ERROR == 1,
        crate::constants::LIBUSB_TRANSFER_TIMED_OUT == 2,
        crate::constants::LIBUSB_TRANSFER_CANCELLED == 3,
        crate::constants::LIBUSB_TRANSFER_STALL == 4,
        crate::constants::LIBUSB_TRANSFER_NO_DEVICE == 5,
        crate::constants::LIBUSB_TRANSFER_OVERFLOW == 6,
        crate::constants::LIBUSB_CAP_HAS_HOTPLUG == 1,
        crate::constants::LIBUSB_HOTPLUG_EVENT_DEVICE_ARRIVED == 1,
        crate::constants::LIBUSB_HOTPLUG_EVENT_DEVICE_LEFT == 2,
        crate::constants::LIBUSB_HOTPLUG_NO_FLAGS == 0,
        crate::constants::LIBUSB_HOTPLUG_MATCH_ANY == -1,
        crate::constants::DIRECTION_IN == 0x80,
        crate::constants::SETUP_LEN == 8,
        crate::constants::EVENT_TIMEOUT_US == 20_000,
{
}

} // verus!
