use wasmtime_wasi::ResourceTable;
use wasmtime_wasi_usb::packets::iso_packet_lengths;
use wasmtime_wasi_usb::{
    transfer_callback, CancelStep, LibusbError, SubmitStep, TransferOptions, TransferReport,
    TransferRequest, TransferSetup, TransferType, WasiUsbCtx, WasiUsbCtxView,
};

const IN_SETUP: TransferSetup =
    TransferSetup { bm_request_type: 0x80, b_request: 6, w_value: 0x0302, w_index: 0x0409 };
const OUT_SETUP: TransferSetup =
    TransferSetup { bm_request_type: 0x21, b_request: 9, w_value: 0x0201, w_index: 0x0300 };

fn options(endpoint: u8) -> TransferOptions {
    TransferOptions { endpoint, timeout_ms: 1500, stream_id: 0, iso_packets: 0 }
}

fn request(
    xfer_type: TransferType,
    setup: TransferSetup,
    buf_size: u32,
    opts: TransferOptions,
) -> TransferRequest {
    TransferRequest { dev_handle: 0x100, xfer_type, setup, buf_size, opts }
}

fn report(
    xfer_type: TransferType,
    endpoint: u8,
    status: i32,
    actual_length: i32,
) -> TransferReport {
    TransferReport {
        status,
        transfer_type: xfer_type.to_raw(),
        endpoint,
        actual_length,
        iso_lengths: vec![],
        iso_actual_lengths: vec![],
    }
}

#[test]
fn a_transfer_needs_an_open_device() {
    let mut ctx = WasiUsbCtx::new(false);
    let mut table = ResourceTable::new();
    let mut usb = WasiUsbCtxView { ctx: &mut ctx, table: &mut table };
    assert!(usb.new_transfer(0, TransferType::Bulk, IN_SETUP, 4, options(0x81)).is_none());
    let h = usb.open_reply(0, 0x100).unwrap();
    let r = usb.new_transfer(h, TransferType::Bulk, IN_SETUP, 4, options(0x81)).unwrap();
    assert_eq!(r.dev_handle, 0x100);
    assert_eq!(r.buf_size, 4);
    assert_eq!(r.xfer_type, TransferType::Bulk);
    assert_eq!(r.setup, IN_SETUP);
    assert_eq!(r.opts, options(0x81));
}

#[test]
fn no_memory_is_reported() {
    let r = request(TransferType::Bulk, IN_SETUP, 4, options(0x81));
    assert!(matches!(r.allocated(0), Err(LibusbError::NoMem)));
}

#[test]
fn only_isochronous_transfers_have_packets() {
    let mut opts = options(0x81);
    opts.iso_packets = 5;
    assert_eq!(request(TransferType::Isochronous, IN_SETUP, 4, opts).iso_packets(), 5);
    assert_eq!(request(TransferType::Bulk, IN_SETUP, 4, opts).iso_packets(), 0);
    assert_eq!(request(TransferType::Control, IN_SETUP, 4, opts).iso_packets(), 0);
    assert_eq!(request(TransferType::Interrupt, IN_SETUP, 4, opts).iso_packets(), 0);
    opts.iso_packets = u32::MAX;
    assert_eq!(request(TransferType::Isochronous, IN_SETUP, 4, opts).iso_packets(), -1);
}

#[test]
fn the_setup_packet_must_fit() {
    assert!(request(TransferType::Control, IN_SETUP, u32::MAX - 8, options(0)).fits());
    assert!(!request(TransferType::Control, IN_SETUP, u32::MAX - 7, options(0)).fits());
    assert!(request(TransferType::Bulk, IN_SETUP, u32::MAX, options(0)).fits());
}

#[test]
fn a_control_transfer_starts_with_its_setup_packet() {
    let mut opts = options(0);
    opts.stream_id = 9;
    let plan = request(TransferType::Control, OUT_SETUP, 0x0102, opts).allocated(0x500).unwrap();
    assert_eq!(plan.buffer().len(), 8 + 0x0102);
    assert_eq!(plan.buffer()[..8], [0x21, 9, 0x01, 0x02, 0x00, 0x03, 0x02, 0x01]);
    assert!(plan.buffer()[8..].iter().all(|b| *b == 0));
    let fields = plan.fields();
    assert_eq!(fields.dev_handle, 0x100);
    assert_eq!(fields.endpoint, 0);
    assert_eq!(fields.transfer_type, 0);
    assert_eq!(fields.timeout, 1500);
    assert_eq!(fields.stream_id, Some(9));
    assert_eq!(fields.length, 8 + 0x0102);
    assert!(fields.iso_packet_lengths.is_empty());
}

#[test]
fn the_length_of_a_setup_packet_has_sixteen_bits() {
    let wide = request(TransferType::Control, OUT_SETUP, 0x0001_0203, options(0));
    let plan = wide.allocated(0x500).unwrap();
    assert_eq!(plan.buffer()[6..8], [0x03, 0x02]);
}

#[test]
fn other_transfers_start_empty() {
    for (kind, code) in [
        (TransferType::Bulk, 2),
        (TransferType::Interrupt, 3),
        (TransferType::Isochronous, 1),
    ] {
        let plan = request(kind, IN_SETUP, 5, options(0x81)).allocated(0x500).unwrap();
        assert_eq!(*plan.buffer(), vec![0u8; 5]);
        assert_eq!(plan.fields().transfer_type, code);
        assert_eq!(plan.fields().length, 5);
        assert_eq!(plan.fields().stream_id, None);
    }
}

#[test]
fn isochronous_packets_cover_the_buffer() {
    assert_eq!(iso_packet_lengths(10, 3), vec![3, 3, 4]);
    assert_eq!(iso_packet_lengths(2, 3), vec![0, 0, 2]);
    assert_eq!(iso_packet_lengths(12, 1), vec![12]);
    assert!(iso_packet_lengths(12, 0).is_empty());
    assert!(iso_packet_lengths(12, -4).is_empty());
    let mut opts = options(0x81);
    opts.iso_packets = 4;
    let plan = request(TransferType::Isochronous, IN_SETUP, 11, opts).allocated(0x500).unwrap();
    assert_eq!(plan.fields().iso_packet_lengths, vec![2, 2, 2, 5]);
    assert_eq!(plan.fields().iso_packet_lengths.iter().sum::<u32>(), 11);
}

#[test]
fn a_transfer_needs_room() {
    let mut ctx = WasiUsbCtx::new(false);
    let mut table = ResourceTable::new();
    table.set_max_capacity(0);
    let mut usb = WasiUsbCtxView { ctx: &mut ctx, table: &mut table };
    let plan = request(TransferType::Bulk, IN_SETUP, 4, options(0x81)).allocated(0x500).unwrap();
    assert_eq!(usb.new_transfer_reply(plan), Err(LibusbError::Other));
}

#[test]
fn an_incoming_control_transfer_from_request_to_result() {
    let mut ctx = WasiUsbCtx::new(false);
    let mut table = ResourceTable::new();
    let mut usb = WasiUsbCtxView { ctx: &mut ctx, table: &mut table };
    let plan = request(TransferType::Control, IN_SETUP, 4, options(0)).allocated(0x500).unwrap();
    let x = usb.new_transfer_reply(plan).unwrap();

    // nothing to wait for yet
    assert!(matches!(usb.await_transfer(x), Some(Err(LibusbError::NotFound))));

    // data are ignored where the device sends
    let (context, receiver) = match usb.submit_transfer(x, &vec![1, 2, 3, 4, 5, 6, 7]) {
        SubmitStep::Submit { transfer, context, receiver } => {
            assert_eq!(transfer, 0x500);
            (context, receiver)
        }
        _ => panic!("not submitted"),
    };
    assert_eq!(*context.buffer(), vec![0x80, 6, 0x02, 0x03, 0x09, 0x04, 4, 0, 0, 0, 0, 0]);
    assert_eq!(usb.submit_reply(x, 0, receiver), Some(Ok(())));

    // in flight
    assert!(matches!(usb.submit_transfer(x, &vec![]), SubmitStep::NoBuffer));
    assert_eq!(usb.cancel_transfer(x), CancelStep::Cancel { transfer: 0x500 });
    assert_eq!(usb.drop_transfer(x), Some(0x500));

    // over
    let done = report(TransferType::Control, 0, 0, 3);
    assert!(done.fits(context.buffer()));
    assert_eq!(transfer_callback(context, &done), Ok(()));
    assert!(matches!(usb.submit_transfer(x, &vec![]), SubmitStep::Refused(LibusbError::Busy)));
    assert_eq!(usb.cancel_transfer(x), CancelStep::AlreadyOver);
    assert_eq!(usb.drop_transfer(x), None);

    // waited for, once
    let mut receiver = match usb.await_transfer(x) {
        Some(Ok(receiver)) => receiver,
        _ => panic!("nothing to wait for"),
    };
    let message = receiver.try_recv().unwrap();
    assert_eq!(message, Ok(vec![0, 0, 0]));
    assert!(matches!(usb.await_transfer(x), Some(Err(LibusbError::NotFound))));
    assert_eq!(usb.await_reply(x, Some(message)), Ok(vec![0, 0, 0]));
    assert!(usb.await_transfer(x).is_none());
    assert_eq!(usb.cancel_transfer(x), CancelStep::NoTransfer);
    assert!(matches!(usb.submit_transfer(x, &vec![]), SubmitStep::NoTransfer));
    assert!(usb.table.is_empty());
}

#[test]
fn outgoing_control_data_follow_the_setup_packet() {
    let mut ctx = WasiUsbCtx::new(false);
    let mut table = ResourceTable::new();
    let mut usb = WasiUsbCtxView { ctx: &mut ctx, table: &mut table };
    let out = request(TransferType::Control, OUT_SETUP, 2, options(0x81));
    let plan = out.allocated(0x500).unwrap();
    let x = usb.new_transfer_reply(plan).unwrap();
    for wrong in [vec![], vec![1], vec![1, 2, 3]] {
        assert!(matches!(
            usb.submit_transfer(x, &wrong),
            SubmitStep::Refused(LibusbError::InvalidParam)
        ));
    }
    match usb.submit_transfer(x, &vec![0xAA, 0xBB]) {
        SubmitStep::Submit { context, .. } => {
            assert_eq!(
                *context.buffer(),
                vec![0x21, 9, 0x01, 0x02, 0x00, 0x03, 2, 0, 0xAA, 0xBB]
            );
            // the host sent, so there is nothing to give back
            let done = report(TransferType::Control, 0x81, 0, 2);
            assert_eq!(done.result(context.buffer()), Ok(vec![]));
        }
        _ => panic!("not submitted"),
    }
}

#[test]
fn outgoing_bulk_data_fill_the_buffer() {
    let mut ctx = WasiUsbCtx::new(false);
    let mut table = ResourceTable::new();
    let mut usb = WasiUsbCtxView { ctx: &mut ctx, table: &mut table };
    // the setup plays no part outside control transfers
    let plan = request(TransferType::Bulk, IN_SETUP, 3, options(0x02)).allocated(0x500).unwrap();
    let x = usb.new_transfer_reply(plan).unwrap();
    assert!(matches!(
        usb.submit_transfer(x, &vec![1, 2]),
        SubmitStep::Refused(LibusbError::InvalidParam)
    ));
    match usb.submit_transfer(x, &vec![7, 8, 9]) {
        SubmitStep::Submit { context, .. } => {
            assert_eq!(*context.buffer(), vec![7, 8, 9]);
            let done = report(TransferType::Bulk, 0x02, 0, 3);
            assert_eq!(done.result(context.buffer()), Ok(vec![]));
        }
        _ => panic!("not submitted"),
    }
}

#[test]
fn a_failed_submission_gives_its_error() {
    let mut ctx = WasiUsbCtx::new(false);
    let mut table = ResourceTable::new();
    let mut usb = WasiUsbCtxView { ctx: &mut ctx, table: &mut table };
    let plan = request(TransferType::Bulk, IN_SETUP, 3, options(0x81)).allocated(0x500).unwrap();
    let x = usb.new_transfer_reply(plan).unwrap();
    match usb.submit_transfer(x, &vec![]) {
        SubmitStep::Submit { receiver, .. } => {
            assert_eq!(usb.submit_reply(x, -4, receiver), Some(Err(LibusbError::NoDevice)));
        }
        _ => panic!("not submitted"),
    }
    assert!(matches!(usb.await_transfer(x), Some(Err(LibusbError::NotFound))));
    assert!(matches!(usb.submit_transfer(x, &vec![]), SubmitStep::NoBuffer));
}

#[test]
fn a_submission_for_a_lost_transfer_is_told() {
    let mut ctx = WasiUsbCtx::new(false);
    let mut table = ResourceTable::new();
    let mut usb = WasiUsbCtxView { ctx: &mut ctx, table: &mut table };
    let plan = request(TransferType::Bulk, IN_SETUP, 3, options(0x81)).allocated(0x500).unwrap();
    let x = usb.new_transfer_reply(plan).unwrap();
    match usb.submit_transfer(x, &vec![]) {
        SubmitStep::Submit { receiver, .. } => {
            assert_eq!(usb.submit_reply(x + 1, 0, receiver), None);
        }
        _ => panic!("not submitted"),
    }
}

#[test]
fn a_result_that_nobody_waits_for_comes_back() {
    let mut ctx = WasiUsbCtx::new(false);
    let mut table = ResourceTable::new();
    let mut usb = WasiUsbCtxView { ctx: &mut ctx, table: &mut table };
    let plan = request(TransferType::Bulk, IN_SETUP, 3, options(0x81)).allocated(0x500).unwrap();
    let x = usb.new_transfer_reply(plan).unwrap();
    match usb.submit_transfer(x, &vec![]) {
        SubmitStep::Submit { context, receiver, .. } => {
            drop(receiver);
            let done = report(TransferType::Bulk, 0x81, 3, 0);
            assert_eq!(transfer_callback(context, &done), Err(Err(LibusbError::Interrupted)));
        }
        _ => panic!("not submitted"),
    }
}

#[test]
fn a_wait_without_a_message_is_interrupted() {
    let mut ctx = WasiUsbCtx::new(false);
    let mut table = ResourceTable::new();
    let mut usb = WasiUsbCtxView { ctx: &mut ctx, table: &mut table };
    let plan = request(TransferType::Bulk, IN_SETUP, 3, options(0x81)).allocated(0x500).unwrap();
    let x = usb.new_transfer_reply(plan).unwrap();
    assert_eq!(usb.await_reply(x, None), Err(LibusbError::Interrupted));
    assert!(usb.table.is_empty());
}

#[test]
fn every_status_has_its_error() {
    let buffer = vec![1, 2, 3];
    for (status, error) in [
        (1, LibusbError::Io),
        (2, LibusbError::Timeout),
        (3, LibusbError::Interrupted),
        (4, LibusbError::Pipe),
        (5, LibusbError::NoDevice),
        (6, LibusbError::Overflow),
        (7, LibusbError::Other),
        (-1, LibusbError::Other),
    ] {
        let failed = report(TransferType::Bulk, 0x81, status, 99);
        assert!(failed.fits(&buffer));
        assert_eq!(failed.result(&buffer), Err(error));
    }
}

#[test]
fn incoming_data_are_the_leading_bytes() {
    let buffer = vec![1, 2, 3, 4];
    assert_eq!(report(TransferType::Bulk, 0x81, 0, 3).result(&buffer), Ok(vec![1, 2, 3]));
    assert_eq!(report(TransferType::Interrupt, 0x81, 0, 4).result(&buffer), Ok(vec![1, 2, 3, 4]));
    assert_eq!(report(TransferType::Bulk, 0x81, 0, 0).result(&buffer), Ok(vec![]));
    assert!(!report(TransferType::Bulk, 0x81, 0, 5).fits(&buffer));
    assert!(!report(TransferType::Bulk, 0x81, 0, -1).fits(&buffer));
    assert!(report(TransferType::Bulk, 0x01, 0, 5).fits(&buffer));
}

#[test]
fn incoming_control_data_follow_the_setup_packet() {
    let buffer = vec![0x80, 6, 0, 0, 0, 0, 2, 0, 0xAA, 0xBB];
    assert_eq!(report(TransferType::Control, 0, 0, 2).result(&buffer), Ok(vec![0xAA, 0xBB]));
    assert_eq!(report(TransferType::Control, 0, 0, 1).result(&buffer), Ok(vec![0xAA]));
    assert_eq!(report(TransferType::Control, 0, 0, 0).result(&buffer), Ok(vec![]));
    assert!(!report(TransferType::Control, 0, 0, 3).fits(&buffer));
    assert!(!report(TransferType::Control, 0, 0, 1).fits(&vec![0x80, 1, 2]));
    assert!(!report(TransferType::Control, 0, 0, 0).fits(&vec![]));
}

#[test]
fn isochronous_data_are_those_of_all_packets() {
    let buffer = vec![1, 2, 3, 4, 5, 6, 7, 8];
    let mut done = report(TransferType::Isochronous, 0x81, 0, 0);
    // every packet starts behind the lengths of the packets before it
    done.iso_lengths = vec![4, 4];
    done.iso_actual_lengths = vec![2, 3];
    assert!(done.fits(&buffer));
    assert_eq!(done.result(&buffer), Ok(vec![1, 2, 5, 6, 7]));
    done.iso_lengths = vec![2, 3, 3];
    done.iso_actual_lengths = vec![1, 0, 2];
    assert_eq!(done.result(&buffer), Ok(vec![1, 6, 7]));
    done.iso_actual_lengths = vec![0, 0, 0];
    assert_eq!(done.result(&buffer), Ok(vec![]));
}

#[test]
fn isochronous_packets_must_lie_in_the_buffer() {
    let buffer = vec![1, 2, 3, 4, 5, 6];
    let mut done = report(TransferType::Isochronous, 0x81, 0, 0);
    done.iso_lengths = vec![4, 4];
    done.iso_actual_lengths = vec![4, 2];
    assert!(done.fits(&buffer));
    done.iso_actual_lengths = vec![4, 3];
    assert!(!done.fits(&buffer));
    done.iso_lengths = vec![7, 4];
    done.iso_actual_lengths = vec![0, 0];
    assert!(!done.fits(&buffer));
    done.iso_lengths = vec![u32::MAX, u32::MAX];
    assert!(!done.fits(&buffer));
    done.iso_actual_lengths = vec![u32::MAX, u32::MAX];
    assert!(!done.fits(&buffer));
    // the length of the last packet plays no part
    done.iso_lengths = vec![2, u32::MAX];
    done.iso_actual_lengths = vec![2, 4];
    assert_eq!(done.result(&buffer), Ok(buffer.clone()));
    // a packet without a length
    done.iso_lengths = vec![2];
    assert!(!done.fits(&buffer));
}

#[test]
fn full_isochronous_packets_give_the_whole_buffer() {
    let buffer = vec![9, 8, 7, 6, 5, 4, 3];
    let mut done = report(TransferType::Isochronous, 0x81, 0, 0);
    done.iso_lengths = iso_packet_lengths(7, 3);
    done.iso_actual_lengths = iso_packet_lengths(7, 3);
    assert_eq!(done.iso_actual_lengths, vec![2, 2, 3]);
    assert_eq!(done.result(&buffer), Ok(buffer));
}

#[test]
fn a_finished_transfer_is_marked_before_its_result_is_sent() {
    let mut ctx = WasiUsbCtx::new(false);
    let mut table = ResourceTable::new();
    let mut usb = WasiUsbCtxView { ctx: &mut ctx, table: &mut table };
    let plan = request(TransferType::Bulk, IN_SETUP, 3, options(0x81)).allocated(0x500).unwrap();
    let x = usb.new_transfer_reply(plan).unwrap();
    match usb.submit_transfer(x, &vec![]) {
        SubmitStep::Submit { context, mut receiver, .. } => {
            assert_eq!(usb.cancel_transfer(x), CancelStep::Cancel { transfer: 0x500 });
            let message = context.finish(&report(TransferType::Bulk, 0x81, 0, 1));
            assert_eq!(usb.cancel_transfer(x), CancelStep::AlreadyOver);
            assert!(receiver.try_recv().is_err());
            assert_eq!(message.send(), Ok(()));
            assert_eq!(receiver.try_recv().unwrap(), Ok(vec![0]));
        }
        _ => panic!("not submitted"),
    }
}

#[test]
fn an_isochronous_transfer_without_packets_follows_its_endpoint() {
    let buffer = vec![9, 8, 7];
    assert_eq!(report(TransferType::Isochronous, 0x01, 0, 2).result(&buffer), Ok(vec![]));
    assert_eq!(report(TransferType::Isochronous, 0x81, 0, 2).result(&buffer), Ok(vec![9, 8]));
}

#[test]
fn every_result_goes_to_its_own_waiter() {
    let mut ctx = WasiUsbCtx::new(false);
    let mut table = ResourceTable::new();
    let mut usb = WasiUsbCtxView { ctx: &mut ctx, table: &mut table };
    let mut contexts = vec![];
    let mut transfers = vec![];
    for address in [0x500, 0x600] {
        let bulk = request(TransferType::Bulk, IN_SETUP, 3, options(0x81));
        let x = usb.new_transfer_reply(bulk.allocated(address).unwrap()).unwrap();
        match usb.submit_transfer(x, &vec![]) {
            SubmitStep::Submit { transfer, context, receiver } => {
                assert_eq!(transfer, address);
                assert_eq!(usb.submit_reply(x, 0, receiver), Some(Ok(())));
                contexts.push(context);
            }
            _ => panic!("not submitted"),
        }
        transfers.push(x);
    }
    // the second one is over first
    let second = contexts.pop().unwrap();
    let first = contexts.pop().unwrap();
    assert_eq!(transfer_callback(second, &report(TransferType::Bulk, 0x81, 0, 2)), Ok(()));
    assert_eq!(usb.cancel_transfer(transfers[0]), CancelStep::Cancel { transfer: 0x500 });
    assert_eq!(usb.cancel_transfer(transfers[1]), CancelStep::AlreadyOver);
    assert_eq!(transfer_callback(first, &report(TransferType::Bulk, 0x81, 4, 0)), Ok(()));
    let expected = [Err(LibusbError::Pipe), Ok(vec![0, 0])];
    for (x, result) in transfers.into_iter().zip(expected) {
        let mut receiver = usb.await_transfer(x).unwrap().unwrap();
        assert_eq!(receiver.try_recv().unwrap(), result);
    }
}
