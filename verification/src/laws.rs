//! What holds of the library as a whole.
use std::sync::atomic::AtomicBool;
use std::sync::Arc;

use tokio::sync::oneshot;
use vstd::prelude::*;

use crate::completion::{TransferReport, TransferResult};
use crate::constants::{
    LIBUSB_TRANSFER_COMPLETED, LIBUSB_TRANSFER_TYPE_CONTROL, SETUP_LEN,
};
use crate::device::{DeviceProbe, UsbDevice, UsbDeviceHandle};
use crate::errors::LibusbError;
use crate::hotplug::{Event, Info};
use crate::table::Entry;
use crate::transfers::{SubmitStep, TransferRequest, TransferState, UsbTransfer, Verdict};
use crate::usb::CtxState;

verus! {

/// A new transfer is well formed, and it stays so when it is submitted and waited for. Its
/// flag stays the same one all along.
pub proof fn law_transfers_stay_well_formed(
    request: TransferRequest,
    transfer: usize,
    flag: Arc<AtomicBool>,
    state: TransferState,
    receiver: Option<oneshot::Receiver<TransferResult>>,
)
    requires
        crate::flags::flag_starts(flag, false),
        state.well_formed(),
    ensures
        TransferState::requested(request, transfer, flag).well_formed(),
        state.in_flight().well_formed(),
        state.in_flight().completed == state.completed,
        state.with_receiver(receiver).well_formed(),
        state.with_receiver(receiver).completed == state.completed,
{
}

/// What a new transfer submits where the host sends: the setup packet of the request, in a
/// control transfer, and then the guest's data. It takes exactly as many bytes as the
/// transfer was made for.
pub proof fn law_outgoing_bytes(
    request: TransferRequest,
    transfer: usize,
    flag: Arc<AtomicBool>,
    data: Seq<u8>,
)
    requires
        TransferState::requested(request, transfer, flag).host_sends(),
    ensures
        data.len() != request.buf_size ==> {
            let state = TransferState::requested(request, transfer, flag);
            state.verdict(false, data) == Verdict::Refuse(LibusbError::InvalidParam)
        },
        data.len() == request.buf_size ==> {
            &&& TransferState::requested(request, transfer, flag).verdict(false, data) is Submit
            &&& TransferState::requested(request, transfer, flag).submitted(data)
                == if request.xfer_type is Control {
                request.setup.packet(request.buf_size) + data
            } else {
                data
            }
        },
{
    let state = TransferState::requested(request, transfer, flag);
    if request.xfer_type is Control {
        assert(request.initial_buffer().take(SETUP_LEN as int) =~= request.setup.packet(
            request.buf_size,
        ));
    } else {
        assert(state.submitted(data) =~= data);
    }
}

/// What a new transfer submits where the device sends: its buffer as it was made, whatever
/// the guest hands in.
pub proof fn law_incoming_bytes(
    request: TransferRequest,
    transfer: usize,
    flag: Arc<AtomicBool>,
    data: Seq<u8>,
)
    requires
        !TransferState::requested(request, transfer, flag).host_sends(),
    ensures
        TransferState::requested(request, transfer, flag).verdict(false, data) is Submit,
        TransferState::requested(request, transfer, flag).submitted(data)
            == request.initial_buffer(),
{
}

/// A transfer that is over is not submitted again, and neither is one in flight.
pub proof fn law_transfers_are_submitted_once(state: TransferState, completed: bool, data: Seq<u8>)
    ensures
        state.verdict(true, data) == Verdict::Refuse(LibusbError::Busy),
        !(state.in_flight().verdict(completed, data) is Submit),
{
}

/// The submission of a control transfer and its completion agree on who sends the data: the
/// first byte that was submitted says the same as the request.
pub proof fn law_direction_survives_submission(
    request: TransferRequest,
    transfer: usize,
    flag: Arc<AtomicBool>,
    data: Seq<u8>,
)
    requires
        request.xfer_type is Control,
        TransferState::requested(request, transfer, flag).verdict(false, data) is Submit,
    ensures
        TransferState::requested(request, transfer, flag).submitted(data)[0]
            == request.setup.bm_request_type,
        crate::completion::device_sends(
            TransferState::requested(request, transfer, flag).submitted(data)[0],
        ) == !TransferState::requested(request, transfer, flag).host_sends(),
{
}

/// A completed control transfer gives the guest what the device wrote behind the setup
/// packet, and nothing more.
pub proof fn law_control_answer_reaches_the_guest(
    report: TransferReport,
    packet: Seq<u8>,
    answer: Seq<u8>,
    rest: Seq<u8>,
)
    requires
        report.status == LIBUSB_TRANSFER_COMPLETED,
        report.transfer_type == LIBUSB_TRANSFER_TYPE_CONTROL,
        report.iso_actual_lengths@.len() == 0,
        packet.len() == SETUP_LEN,
        crate::completion::device_sends(packet[0]),
        report.actual_length == answer.len(),
    ensures
        report.fits_spec(packet + answer + rest),
        report.received(packet + answer + rest) == answer,
{
    let buffer = packet + answer + rest;
    if answer.len() > 0 {
        assert(buffer.subrange(SETUP_LEN as int, SETUP_LEN + answer.len()) =~= answer);
    } else {
        assert(answer =~= Seq::empty());
    }
}

/// A completed bulk or interrupt transfer gives the guest what the device wrote, and nothing
/// more.
pub proof fn law_bulk_answer_reaches_the_guest(
    report: TransferReport,
    answer: Seq<u8>,
    rest: Seq<u8>,
)
    requires
        report.status == LIBUSB_TRANSFER_COMPLETED,
        report.transfer_type != LIBUSB_TRANSFER_TYPE_CONTROL,
        report.iso_actual_lengths@.len() == 0,
        crate::completion::device_sends(report.endpoint),
        report.actual_length == answer.len(),
    ensures
        report.fits_spec(answer + rest),
        report.received(answer + rest) == answer,
{
    assert((answer + rest).take(answer.len() as int) =~= answer);
}

/// A transfer in which the host sent gives nothing back, whatever its buffer holds, as long as
/// no isochronous packet of it is reported to hold anything.
pub proof fn law_outgoing_transfers_give_nothing(
    request: TransferRequest,
    transfer: usize,
    flag: Arc<AtomicBool>,
    data: Seq<u8>,
    report: TransferReport,
    result: TransferResult,
)
    requires
        TransferState::requested(request, transfer, flag).host_sends(),
        TransferState::requested(request, transfer, flag).verdict(false, data) is Submit,
        report.transfer_type == request.xfer_type.code(),
        report.endpoint == request.opts.endpoint,
        crate::packets::sum(report.iso_actual_lengths@) == 0,
        report.iso_actual_lengths@.len() > 0 ==> report.fits_spec(
            TransferState::requested(request, transfer, flag).submitted(data),
        ),
        report.gives(TransferState::requested(request, transfer, flag).submitted(data), result),
    ensures
        report.fits_spec(TransferState::requested(request, transfer, flag).submitted(data)),
        result matches Ok(received) ==> received@.len() == 0,
{
    law_outgoing_bytes(request, transfer, flag, data);
    let buffer = TransferState::requested(request, transfer, flag).submitted(data);
    let actual = report.iso_actual_lengths@;
    if report.status == LIBUSB_TRANSFER_COMPLETED && actual.len() > 0 {
        crate::packets::lemma_combined_length(
            buffer,
            report.iso_lengths@,
            actual,
            actual.len() as int,
        );
        assert(actual.take(actual.len() as int) =~= actual);
    }
}

/// A completed isochronous transfer gives the guest the data of all its packets: byte `k` of
/// packet `i` follows the data of the packets before it, and comes from where packet `i` lies
/// in the buffer.
pub proof fn law_packets_reach_the_guest(
    report: TransferReport,
    buffer: Seq<u8>,
    i: int,
    k: int,
)
    requires
        report.status == LIBUSB_TRANSFER_COMPLETED,
        report.fits_spec(buffer),
        0 <= i < report.iso_actual_lengths@.len(),
        0 <= k < report.iso_actual_lengths@[i],
    ensures
        ({
            let place = crate::packets::sum(report.iso_actual_lengths@.take(i)) + k;
            let source = crate::packets::sum(report.iso_lengths@.take(i)) + k;
            &&& report.received(buffer).len() == crate::packets::sum(report.iso_actual_lengths@)
            &&& place < report.received(buffer).len()
            &&& source < buffer.len()
            &&& report.received(buffer)[place] == buffer[source]
        }),
{
    crate::packets::law_packet_data_place(
        buffer,
        report.iso_lengths@,
        report.iso_actual_lengths@,
        i,
        k,
    );
}

/// A completed isochronous transfer whose packets all came in full gives the guest the whole
/// buffer.
pub proof fn law_full_packets_give_the_whole_buffer(
    request: TransferRequest,
    report: TransferReport,
    buffer: Seq<u8>,
)
    requires
        report.status == LIBUSB_TRANSFER_COMPLETED,
        request.xfer_type is Isochronous,
        request.iso_packets_spec() > 0,
        report.iso_lengths@ == crate::packets::iso_lengths(
            request.buf_size,
            request.iso_packets_spec(),
        ),
        report.iso_actual_lengths@ == report.iso_lengths@,
        buffer.len() == request.total_len(),
    ensures
        report.fits_spec(buffer),
        report.received(buffer) == buffer,
{
    let lengths = report.iso_lengths@;
    crate::packets::law_iso_packets_cover_the_buffer(request.buf_size, request.iso_packets_spec());
    crate::packets::lemma_full_packets_within(lengths, buffer.len());
    crate::packets::lemma_full_packets(buffer, lengths, lengths.len() as int);
    assert(lengths.take(lengths.len() as int) =~= lengths);
    assert(buffer.take(buffer.len() as int) =~= buffer);
}

/// The result of a submitted transfer goes to the one who waits for it: the completion sends
/// it on the channel whose other half is kept with the transfer, and the completion marks as
/// over the very transfer that was submitted.
pub proof fn law_result_goes_to_the_waiter(
    step: SubmitStep,
    before: UsbTransfer,
    after: UsbTransfer,
    data: Seq<u8>,
)
    requires
        step.follows(before, false, data, after),
        step is Submit,
    ensures
        after@.with_receiver(Some(step->receiver)).receiver == Some(
            crate::channel::other_half(step->context.destination()),
        ),
        step->context.flag() == after.flag(),
        step->transfer == after@.transfer,
{
}

/// The guest is never given more bytes than it asked for, as long as no isochronous packet is
/// reported to hold more than its length.
pub proof fn law_no_more_than_asked_for(
    state: TransferState,
    report: TransferReport,
    buffer: Seq<u8>,
)
    requires
        report.status == LIBUSB_TRANSFER_COMPLETED,
        report.transfer_type == state.transfer_type,
        report.iso_actual_lengths@.len() > 0 ==> state.transfer_type
            != LIBUSB_TRANSFER_TYPE_CONTROL,
        forall|i: int|
            0 <= i < report.iso_actual_lengths@.len() ==> #[trigger] report.iso_actual_lengths@[i]
                <= report.iso_lengths@[i],
        buffer.len() == crate::transfers::data_offset(state.transfer_type) + state.buf_len,
        report.fits_spec(buffer),
    ensures
        report.received(buffer).len() <= state.buf_len,
{
    let lengths = report.iso_lengths@;
    let actual = report.iso_actual_lengths@;
    let n = actual.len() as int;
    if n > 0 {
        crate::packets::lemma_combined_length(buffer, lengths, actual, n);
        crate::packets::lemma_data_of_packets(lengths, actual, n - 1);
        assert(actual.take(n).drop_last() =~= actual.take(n - 1));
        assert(crate::packets::sum(lengths.take(n - 1)) + actual[n - 1] <= buffer.len());
    }
}

/// A device handle that was opened is found under the handle that the guest was given, as
/// what it is and as nothing else.
pub proof fn law_opened_handle_is_found(
    entries: Map<u32, Entry>,
    rep: u32,
    handle: UsbDeviceHandle,
)
    ensures
        crate::table::handle_at(entries.insert(rep, Entry::Handle(handle)), rep) == Some(handle),
        crate::table::device_at(entries.insert(rep, Entry::Handle(handle)), rep) is None,
        crate::table::transfer_at(entries.insert(rep, Entry::Handle(handle)), rep) is None,
{
}

/// What is done to one resource touches no other: adding, changing or removing the entry of
/// slot `rep` leaves every other slot as it was.
pub proof fn law_other_resources_are_untouched(
    entries: Map<u32, Entry>,
    rep: u32,
    entry: Entry,
    other: u32,
)
    requires
        other != rep,
    ensures
        ({
            let after = entries.insert(rep, entry);
            &&& crate::table::device_at(after, other) == crate::table::device_at(entries, other)
            &&& crate::table::handle_at(after, other) == crate::table::handle_at(entries, other)
            &&& crate::table::transfer_at(after, other) == crate::table::transfer_at(entries, other)
        }),
        ({
            let after = entries.remove(rep);
            &&& crate::table::device_at(after, other) == crate::table::device_at(entries, other)
            &&& crate::table::handle_at(after, other) == crate::table::handle_at(entries, other)
            &&& crate::table::transfer_at(after, other) == crate::table::transfer_at(entries, other)
        }),
{
}

/// Removing a resource undoes adding it: closing undoes opening, and the end of a wait undoes
/// the making of a transfer. The resources are what they were, and the guest's handle names
/// none of them any more.
pub proof fn law_removing_undoes_adding(entries: Map<u32, Entry>, rep: u32, entry: Entry)
    requires
        !entries.contains_key(rep),
    ensures
        entries.insert(rep, entry).remove(rep) == entries,
        crate::table::device_at(entries, rep) is None,
        crate::table::handle_at(entries, rep) is None,
        crate::table::transfer_at(entries, rep) is None,
{
    assert(entries.insert(rep, entry).remove(rep) =~= entries);
}

/// A guest is initialised once, and hotplug is enabled once: after either, there is nothing
/// left to do. Neither touches what belongs to the other, and the state stays well formed.
pub proof fn law_setup_happens_once(
    state: CtxState,
    context: usize,
    flag: Arc<AtomicBool>,
    handle: i32,
)
    requires
        state.well_formed(),
        crate::flags::flag_starts(flag, true),
    ensures
        !state.with_context(context, flag).init_needed(),
        state.with_context(context, flag).libusb_ctx == Some(context),
        state.with_context(context, flag).hotplug_enabled == state.hotplug_enabled,
        state.with_context(context, flag).hotplug_handle == state.hotplug_handle,
        state.with_context(context, flag).well_formed(),
        state.with_hotplug(handle).hotplug_capability() is None,
        state.with_hotplug(handle).hotplug_enabled,
        state.with_hotplug(handle).libusb_ctx == state.libusb_ctx,
        state.with_hotplug(handle).event_loop_flag == state.event_loop_flag,
        state.with_hotplug(handle).well_formed(),
{
}

/// A guest operation that sets the USB state up, and what libusb answered where it was asked.
pub enum SetupStep {
    /// The initialisation, with the flag that is made where it succeeds.
    Init { status: i32, context: usize, flag: Arc<AtomicBool> },
    /// The enabling of hotplug: what libusb said of the capability, and of the registration.
    EnableHotplug { capability: i32, status: i32, handle: i32 },
}

impl CtxState {
    /// Whether `step` registers a hotplug callback.
    pub open spec fn registers(self, step: SetupStep) -> bool {
        match step {
            SetupStep::Init { .. } => false,
            SetupStep::EnableHotplug { capability, status, handle } => {
                &&& self.hotplug_capability() is Some
                &&& self.hotplug_registration(capability) is Ok
                &&& status >= 0
            },
        }
    }

    /// The state after `step`.
    pub open spec fn after(self, step: SetupStep) -> CtxState {
        match step {
            SetupStep::Init { status, context, flag } => if self.init_needed() && status >= 0 {
                self.with_context(context, flag)
            } else {
                self
            },
            SetupStep::EnableHotplug { capability, status, handle } => if self.registers(step) {
                self.with_hotplug(handle)
            } else {
                self
            },
        }
    }

    /// The state after `steps`, one after the other.
    pub open spec fn after_all(self, steps: Seq<SetupStep>) -> CtxState
        decreases steps.len(),
    {
        if steps.len() == 0 {
            self
        } else {
            self.after_all(steps.drop_last()).after(steps.last())
        }
    }

    /// The number of hotplug callbacks that `steps` register.
    pub open spec fn registrations(self, steps: Seq<SetupStep>) -> nat
        decreases steps.len(),
    {
        if steps.len() == 0 {
            0
        } else if self.after_all(steps.drop_last()).registers(steps.last()) {
            self.registrations(steps.drop_last()) + 1
        } else {
            self.registrations(steps.drop_last())
        }
    }
}

/// Whatever a guest does to set its USB state up: at most one hotplug callback is registered,
/// and only on a libusb context. Hotplug counts as enabled where the guest was made so or where
/// a callback is registered, and for no other reason.
pub proof fn law_hotplug_follows_the_registration(hotplug_enabled: bool, steps: Seq<SetupStep>)
    ensures
        ({
            let start = CtxState::initial(hotplug_enabled);
            let state = start.after_all(steps);
            &&& start.registrations(steps) <= 1
            &&& start.registrations(steps) == 1 <==> state.hotplug_handle is Some
            &&& state.hotplug_handle is Some ==> state.libusb_ctx is Some
            &&& state.hotplug_enabled <==> hotplug_enabled || state.hotplug_handle is Some
        }),
    decreases steps.len(),
{
    if steps.len() > 0 {
        law_hotplug_follows_the_registration(hotplug_enabled, steps.drop_last());
    }
}

/// For a guest that was made without hotplug, hotplug is enabled exactly where a callback is
/// registered, and only where there is a libusb context.
pub proof fn law_enabled_means_registered(steps: Seq<SetupStep>)
    ensures
        ({
            let state = CtxState::initial(false).after_all(steps);
            &&& state.hotplug_enabled <==> state.hotplug_handle is Some
            &&& state.hotplug_enabled ==> state.libusb_ctx is Some
        }),
{
    law_hotplug_follows_the_registration(false, steps);
}

/// A guest gets its hotplug callback, however it was made: where it is initialised and has none
/// yet, and libusb has the capability and accepts the registration, enabling hotplug registers
/// one.
pub proof fn law_hotplug_can_be_enabled(
    state: CtxState,
    capability: i32,
    status: i32,
    handle: i32,
)
    requires
        state.libusb_ctx is Some,
        state.hotplug_handle is None,
        capability != 0,
        status >= 0,
    ensures
        ({
            let step = SetupStep::EnableHotplug { capability, status, handle };
            &&& state.registers(step)
            &&& state.after(step).hotplug_handle == Some(handle)
            &&& state.after(step).hotplug_enabled
        }),
{
}

/// Devices that were added are found under their handles, and every resource that was there
/// before is found as before.
pub proof fn law_added_devices_are_found(
    before: Map<u32, Entry>,
    after: Map<u32, Entry>,
    devices: Seq<UsbDevice>,
    reps: Seq<u32>,
    i: int,
    other: u32,
)
    requires
        crate::table::devices_added(before, after, devices, reps),
        0 <= i < reps.len(),
        before.contains_key(other),
    ensures
        crate::table::device_at(before, reps[i]) is None,
        crate::table::device_at(after, reps[i]) == Some(devices[i]),
        crate::table::device_at(after, other) == crate::table::device_at(before, other),
        crate::table::handle_at(after, other) == crate::table::handle_at(before, other),
        crate::table::transfer_at(after, other) == crate::table::transfer_at(before, other),
{
    assert(after.contains_pair(reps[i], Entry::Device(devices[i])));
    assert(after[other] == before[other]);
}

/// Every device that the guest is told of is one that libusb reported, whose descriptor could
/// be read, and is a resource under the handle that goes with it.
pub proof fn law_listed_devices_are_resources(
    probes: Seq<DeviceProbe>,
    reps: Seq<u32>,
    before: Map<u32, Entry>,
    after: Map<u32, Entry>,
    n: int,
)
    requires
        reps.len() == probes.len(),
        crate::table::devices_added(before, after, crate::device::addresses(probes), reps),
        0 <= n < crate::device::listing(probes, reps).len(),
    ensures
        exists|i: int|
            {
                &&& 0 <= i < probes.len()
                &&& probes[i].status >= 0
                &&& crate::device::listing(probes, reps)[n] == #[trigger] probes[i].listed(reps[i])
                &&& crate::table::device_at(after, reps[i]) == Some(
                    UsbDevice { device: probes[i].device },
                )
            },
{
    let i = lemma_listed_from(probes, reps, n);
    assert(after.contains_pair(
        reps[i],
        Entry::Device(crate::device::addresses(probes)[i]),
    ));
    assert(crate::device::listing(probes, reps)[n] == probes[i].listed(reps[i]));
}

/// The device that entry `n` of a listing tells of.
pub(crate) proof fn lemma_listed_from(probes: Seq<DeviceProbe>, reps: Seq<u32>, n: int) -> (i: int)
    requires
        0 <= n < crate::device::listing(probes, reps).len(),
    ensures
        0 <= i < probes.len(),
        probes[i].status >= 0,
        crate::device::listing(probes, reps)[n] == probes[i].listed(reps[i]),
    decreases probes.len(),
{
    let front = probes.drop_last();
    if probes.last().status >= 0 && n == crate::device::listing(front, reps).len() {
        probes.len() - 1
    } else {
        lemma_listed_from(front, reps, n)
    }
}

/// No two devices that the guest is told of share a handle.
pub proof fn law_listed_handles_differ(probes: Seq<DeviceProbe>, reps: Seq<u32>, n: int, m: int)
    requires
        probes.len() <= reps.len(),
        reps.no_duplicates(),
        0 <= n < m < crate::device::listing(probes, reps).len(),
    ensures
        crate::device::listing(probes, reps)[n].0 != crate::device::listing(probes, reps)[m].0,
    decreases probes.len(),
{
    let front = probes.drop_last();
    let earlier = crate::device::listing(front, reps);
    if m < earlier.len() {
        law_listed_handles_differ(front, reps, n, m);
    } else {
        let i = lemma_listed_from(front, reps, n);
        assert(reps[i] != reps[probes.len() - 1]);
    }
}

/// Every device whose descriptor could be read is told of.
pub proof fn law_readable_devices_are_listed(probes: Seq<DeviceProbe>, reps: Seq<u32>, i: int)
    requires
        0 <= i < probes.len(),
        probes[i].status >= 0,
    ensures
        crate::device::listing(probes, reps).contains(probes[i].listed(reps[i])),
    decreases probes.len(),
{
    let list = crate::device::listing(probes, reps);
    let front = probes.drop_last();
    if i == probes.len() - 1 {
        assert(list[list.len() - 1] == probes[i].listed(reps[i]));
    } else {
        law_readable_devices_are_listed(front, reps, i);
        let earlier = crate::device::listing(front, reps);
        let n = choose|n: int| 0 <= n < earlier.len() && earlier[n] == front[i].listed(reps[i]);
        assert(list[n] == probes[i].listed(reps[i]));
    }
}

/// Polling hands the notifications out in the order in which they came in, each with the
/// handle of its own device.
pub proof fn law_notifications_keep_their_order(
    events: Seq<(Event, Info, UsbDevice)>,
    reps: Seq<u32>,
    before: Map<u32, Entry>,
    after: Map<u32, Entry>,
    i: int,
)
    requires
        reps.len() == events.len(),
        crate::table::devices_added(before, after, crate::hotplug::devices_of(events), reps),
        0 <= i < events.len(),
    ensures
        crate::hotplug::polled(events, reps).len() == events.len(),
        crate::hotplug::polled(events, reps)[i].0 == events[i].0,
        crate::hotplug::polled(events, reps)[i].1 == events[i].1,
        crate::table::device_at(after, crate::hotplug::polled(events, reps)[i].2) == Some(
            events[i].2,
        ),
{
    assert(after.contains_pair(
        reps[i],
        Entry::Device(crate::hotplug::devices_of(events)[i]),
    ));
}

/// What can happen to the queue of notifications.
pub enum QueueStep {
    /// libusb notifies of a device.
    Notify { descriptor_status: i32, code: i32, info: Info, device: UsbDevice },
    /// The guest polls, and its slots become `after`, with the devices in the slots `reps`.
    Poll { before: Map<u32, Entry>, after: Map<u32, Entry>, reps: Seq<u32> },
}

/// The notifications that were accepted in the course of `steps`, in their order.
pub open spec fn notified(steps: Seq<QueueStep>) -> Seq<(Event, Info, UsbDevice)>
    decreases steps.len(),
{
    if steps.len() == 0 {
        Seq::empty()
    } else {
        match steps.last() {
            QueueStep::Notify { descriptor_status, code, info, device } => {
                match crate::hotplug::accepted(descriptor_status, code, info) {
                    Some((event, info)) => notified(steps.drop_last()).push((event, info, device)),
                    None => notified(steps.drop_last()),
                }
            },
            QueueStep::Poll { .. } => notified(steps.drop_last()),
        }
    }
}

/// What is in the queue after `steps`, where it was empty before: a notification that is
/// accepted goes to the end, and a poll leaves nothing.
pub open spec fn queue_after(steps: Seq<QueueStep>) -> Seq<(Event, Info, UsbDevice)>
    decreases steps.len(),
{
    if steps.len() == 0 {
        Seq::empty()
    } else {
        match steps.last() {
            QueueStep::Notify { descriptor_status, code, info, device } => {
                match crate::hotplug::accepted(descriptor_status, code, info) {
                    Some((event, info)) => queue_after(steps.drop_last()).push(
                        (event, info, device),
                    ),
                    None => queue_after(steps.drop_last()),
                }
            },
            QueueStep::Poll { .. } => Seq::empty(),
        }
    }
}

/// What all polls of `steps` hand out, one poll after the other.
pub open spec fn handed_out(steps: Seq<QueueStep>) -> Seq<(Event, Info, u32)>
    decreases steps.len(),
{
    if steps.len() == 0 {
        Seq::empty()
    } else {
        match steps.last() {
            QueueStep::Notify { .. } => handed_out(steps.drop_last()),
            QueueStep::Poll { reps, .. } => handed_out(steps.drop_last())
                + crate::hotplug::polled(queue_after(steps.drop_last()), reps),
        }
    }
}

/// Whether every poll of `steps` found room for the devices of all notifications in the queue.
pub open spec fn polls_succeed(steps: Seq<QueueStep>) -> bool
    decreases steps.len(),
{
    steps.len() == 0 || {
        &&& polls_succeed(steps.drop_last())
        &&& steps.last() matches QueueStep::Poll { before, after, reps } ==> {
            let events = queue_after(steps.drop_last());
            &&& reps.len() == events.len()
            &&& crate::table::devices_added(
                before,
                after,
                crate::hotplug::devices_of(events),
                reps,
            )
        }
    }
}

/// Over any history of notifications and polls, the polls together hand out each notification
/// that was accepted once and in order; what has not been handed out yet is in the queue.
pub proof fn law_notifications_are_handed_out_once(steps: Seq<QueueStep>)
    requires
        polls_succeed(steps),
    ensures
        handed_out(steps).len() + queue_after(steps).len() == notified(steps).len(),
        queue_after(steps) == notified(steps).skip(handed_out(steps).len() as int),
        forall|i: int|
            0 <= i < handed_out(steps).len() ==> {
                &&& (#[trigger] handed_out(steps)[i]).0 == notified(steps)[i].0
                &&& handed_out(steps)[i].1 == notified(steps)[i].1
            },
    decreases steps.len(),
{
    if steps.len() > 0 {
        let front = steps.drop_last();
        law_notifications_are_handed_out_once(front);
        let done = handed_out(front).len() as int;
        match steps.last() {
            QueueStep::Notify { descriptor_status, code, info, device } => {
                assert(queue_after(steps) =~= notified(steps).skip(done));
                assert forall|i: int| 0 <= i < handed_out(steps).len() implies {
                    &&& (#[trigger] handed_out(steps)[i]).0 == notified(steps)[i].0
                    &&& handed_out(steps)[i].1 == notified(steps)[i].1
                } by {
                    assert(handed_out(steps)[i] == handed_out(front)[i]);
                }
            },
            QueueStep::Poll { before, after, reps } => {
                let events = queue_after(front);
                assert forall|i: int| 0 <= i < handed_out(steps).len() implies {
                    &&& (#[trigger] handed_out(steps)[i]).0 == notified(steps)[i].0
                    &&& handed_out(steps)[i].1 == notified(steps)[i].1
                } by {
                    if i < done {
                        assert(handed_out(steps)[i] == handed_out(front)[i]);
                    } else {
                        assert(events[i - done] == notified(steps)[i]);
                    }
                }
                assert(queue_after(steps) =~= notified(steps).skip(
                    handed_out(steps).len() as int,
                ));
            },
        }
    } else {
        assert(notified(steps).skip(0) =~= notified(steps));
    }
}

/// A history that ends with a poll leaves nothing to hand out: every notification that was
/// accepted has been handed out. What that last poll handed out names the devices of its
/// notifications, and a further poll hands out nothing.
pub proof fn law_a_poll_hands_out_all(
    steps: Seq<QueueStep>,
    before: Map<u32, Entry>,
    after: Map<u32, Entry>,
    reps: Seq<u32>,
    next: QueueStep,
)
    requires
        next is Poll,
        polls_succeed(steps.push(QueueStep::Poll { before, after, reps }).push(next)),
    ensures
        ({
            let all = steps.push(QueueStep::Poll { before, after, reps });
            &&& queue_after(all).len() == 0
            &&& handed_out(all).len() == notified(all).len()
            &&& handed_out(all.push(next)) == handed_out(all)
            &&& forall|i: int|
                handed_out(steps).len() <= i < handed_out(all).len() ==> crate::table::device_at(
                    after,
                    (#[trigger] handed_out(all)[i]).2,
                ) == Some(notified(all)[i].2)
        }),
{
    let all = steps.push(QueueStep::Poll { before, after, reps });
    assert(all.drop_last() =~= steps);
    assert(all.push(next).drop_last() =~= all);
    assert(polls_succeed(all));
    law_notifications_are_handed_out_once(steps);
    law_notifications_are_handed_out_once(all);
    assert(handed_out(all.push(next)) =~= handed_out(all));
    let events = queue_after(steps);
    let done = handed_out(steps).len() as int;
    assert forall|i: int| done <= i < handed_out(all).len() implies crate::table::device_at(
        after,
        (#[trigger] handed_out(all)[i]).2,
    ) == Some(notified(all)[i].2) by {
        law_notifications_keep_their_order(events, reps, before, after, i - done);
        assert(handed_out(all)[i] == crate::hotplug::polled(events, reps)[i - done]);
        assert(events[i - done] == notified(all)[i]);
    }
}

} // verus!
