//! Operations on the guest's transfers.
use tokio::sync::oneshot;
use vstd::prelude::*;

use crate::completion::TransferResult;
use crate::errors::LibusbError;
use crate::packets::TransferSetup;
use crate::table::{delete, get, get_mut, push, Entry};
use crate::transfers::{
    SubmitStep, TransferOptions, TransferPlan, TransferRequest, TransferType, UsbTransfer,
};
use crate::usb::WasiUsbCtxView;

verus! {

/// The next step of a cancellation.
#[derive(Debug, Clone, Copy, PartialEq, Eq, Structural)]
pub enum CancelStep {
    /// The guest's handle names no transfer.
    NoTransfer,
    /// The transfer is over already: there is nothing to cancel.
    AlreadyOver,
    /// Cancel the transfer at this address.
    Cancel { transfer: usize },
}

impl<'a> WasiUsbCtxView<'a> {
    /// A transfer on the open device that handle `self_` names.
    pub fn new_transfer(
        &self,
        self_: u32,
        xfer_type: TransferType,
        setup: TransferSetup,
        buf_size: u32,
        opts: TransferOptions,
    ) -> (request: Option<TransferRequest>)
        ensures
            request == match self.handle_address(self_) {
                Some(dev_handle) => Some(
                    TransferRequest { dev_handle, xfer_type, setup, buf_size, opts },
                ),
                None => None,
            },
    {
        match self.handle(self_) {
            Some(dev_handle) => Some(
                TransferRequest { dev_handle, xfer_type, setup, buf_size, opts },
            ),
            None => None,
        }
    }

    /// Make a resource of a transfer that is worked out.
    pub fn new_transfer_reply(&mut self, plan: TransferPlan) -> (reply: Result<u32, LibusbError>)
        ensures
            match reply {
                Ok(rep) => {
                    &&& !old(self).entries().contains_key(rep)
                    &&& !old(self).parents().contains(rep)
                    &&& crate::table::transfer_at(final(self).entries(), rep) matches Some(transfer)
                    &&& transfer@ == plan.outcome()
                    &&& crate::flags::flag_starts(transfer.flag(), false)
                    &&& final(self).entries() == old(self).entries().insert(
                        rep,
                        Entry::Transfer(transfer),
                    )
                },
                Err(error) => {
                    &&& error == LibusbError::Other
                    &&& !crate::table::has_room(old(self).entries(), old(self).capacity())
                    &&& final(self).entries() == old(self).entries()
                },
            },
            final(self).capacity() == old(self).capacity(),
            final(self).parents() == old(self).parents(),
            final(self).strays() == old(self).strays(),
            *final(self).ctx == *old(self).ctx,
            *final(final(self).ctx) == *final(old(self).ctx),
            *final(final(self).table) == *final(old(self).table),
    {
        match push(self.table, plan.into_transfer()) {
            Some(rep) => Ok(rep),
            None => Err(LibusbError::Other),
        }
    }

    /// Prepare the submission of a transfer. Whether the transfer is over already is read
    /// from the flag that the completion sets, so either may be found.
    pub fn submit_transfer(&mut self, self_: u32, data: &Vec<u8>) -> (step: SubmitStep)
        ensures
            match crate::table::transfer_at(old(self).entries(), self_) {
                Some(before) => {
                    &&& crate::table::transfer_at(final(self).entries(), self_) matches Some(after)
                    &&& final(self).entries() == old(self).entries().insert(
                        self_,
                        Entry::Transfer(after),
                    )
                    &&& {
                        ||| crate::flags::flag_reads(before.flag(), false) && step.follows(
                            before,
                            false,
                            data@,
                            after,
                        )
                        ||| crate::flags::flag_reads(before.flag(), true) && step.follows(
                            before,
                            true,
                            data@,
                            after,
                        )
                    }
                },
                None => step is NoTransfer && final(self).entries() == old(self).entries(),
            },
            final(self).capacity() == old(self).capacity(),
            final(self).parents() == old(self).parents(),
            final(self).strays() == old(self).strays(),
            *final(self).ctx == *old(self).ctx,
            *final(final(self).ctx) == *final(old(self).ctx),
            *final(final(self).table) == *final(old(self).table),
    {
        match get_mut::<UsbTransfer>(self.table, self_) {
            Some(transfer) => {
                let completed: bool = transfer.is_completed();
                transfer.prepare(completed, data)
            },
            None => SubmitStep::NoTransfer,
        }
    }

    /// Answer a submission from the status that libusb returned, and keep the place where
    /// the result will come from. `None` says that the transfer is not there any more.
    pub fn submit_reply(
        &mut self,
        self_: u32,
        status: i32,
        receiver: oneshot::Receiver<TransferResult>,
    ) -> (reply: Option<Result<(), LibusbError>>)
        ensures
            if status < 0 {
                &&& reply == Some(
                    Err::<(), LibusbError>(LibusbError::of_code(status as int)),
                )
                &&& final(self).entries() == old(self).entries()
            } else {
                match crate::table::transfer_at(old(self).entries(), self_) {
                    Some(before) => {
                        &&& reply == Some(Ok::<(), LibusbError>(()))
                        &&& crate::table::transfer_at(final(self).entries(), self_) matches Some(
                            after,
                        )
                        &&& after@ == before@.with_receiver(Some(receiver))
                        &&& final(self).entries() == old(self).entries().insert(
                            self_,
                            Entry::Transfer(after),
                        )
                    },
                    None => reply is None && final(self).entries() == old(self).entries(),
                }
            },
            final(self).capacity() == old(self).capacity(),
            final(self).parents() == old(self).parents(),
            final(self).strays() == old(self).strays(),
            *final(self).ctx == *old(self).ctx,
            *final(final(self).ctx) == *final(old(self).ctx),
            *final(final(self).table) == *final(old(self).table),
    {
        if status < 0 {
            return Some(Err(LibusbError::from_raw(status)));
        }
        match get_mut::<UsbTransfer>(self.table, self_) {
            Some(transfer) => {
                transfer.set_receiver(receiver);
                Some(Ok(()))
            },
            None => None,
        }
    }

    /// Prepare the cancellation of a transfer. Whether the transfer is over already is read
    /// from the flag that the completion sets, so either may be found.
    pub fn cancel_transfer(&self, self_: u32) -> (step: CancelStep)
        ensures
            match crate::table::transfer_at(self.entries(), self_) {
                Some(transfer) => {
                    ||| step is AlreadyOver && crate::flags::flag_reads(transfer.flag(), true)
                    ||| step == (CancelStep::Cancel { transfer: transfer@.transfer })
                        && crate::flags::flag_reads(transfer.flag(), false)
                },
                None => step is NoTransfer,
            },
    {
        match get::<UsbTransfer>(self.table, self_) {
            Some(transfer) => match transfer.to_cancel(transfer.is_completed()) {
                Some(transfer) => CancelStep::Cancel { transfer },
                None => CancelStep::AlreadyOver,
            },
            None => CancelStep::NoTransfer,
        }
    }

    /// The transfer to cancel, where the guest drops a transfer. There is none only where the
    /// handle names no transfer or the transfer was found to be over. The resource stays.
    pub fn drop_transfer(&self, rep: u32) -> (address: Option<usize>)
        ensures
            match crate::table::transfer_at(self.entries(), rep) {
                Some(transfer) => match address {
                    Some(address) => address == transfer@.transfer
                        && crate::flags::flag_reads(transfer.flag(), false),
                    None => crate::flags::flag_reads(transfer.flag(), true),
                },
                None => address is None,
            },
    {
        match self.cancel_transfer(rep) {
            CancelStep::Cancel { transfer } => Some(transfer),
            _ => None,
        }
    }

    /// Take the place where the result of a transfer will come from. There is one only after
    /// a submission that nobody has waited for yet. `None` says that the guest's handle names
    /// no transfer.
    pub fn await_transfer(&mut self, xfer: u32) -> (reply: Option<
        Result<oneshot::Receiver<TransferResult>, LibusbError>,
    >)
        ensures
            match crate::table::transfer_at(old(self).entries(), xfer) {
                Some(before) => {
                    &&& reply == Some(
                        match before@.receiver {
                            Some(receiver) => Ok::<
                                oneshot::Receiver<TransferResult>,
                                LibusbError,
                            >(receiver),
                            None => Err(LibusbError::NotFound),
                        },
                    )
                    &&& crate::table::transfer_at(final(self).entries(), xfer) matches Some(after)
                    &&& after@ == before@.with_receiver(None)
                    &&& final(self).entries() == old(self).entries().insert(
                        xfer,
                        Entry::Transfer(after),
                    )
                },
                None => reply is None && final(self).entries() == old(self).entries(),
            },
            final(self).capacity() == old(self).capacity(),
            final(self).parents() == old(self).parents(),
            final(self).strays() == old(self).strays(),
            *final(self).ctx == *old(self).ctx,
            *final(final(self).ctx) == *final(old(self).ctx),
            *final(final(self).table) == *final(old(self).table),
    {
        match get_mut::<UsbTransfer>(self.table, xfer) {
            Some(transfer) => match transfer.take_receiver() {
                Some(receiver) => Some(Ok(receiver)),
                None => Some(Err(LibusbError::NotFound)),
            },
            None => None,
        }
    }

    /// Answer a wait with the result that came, and remove the transfer. No message means
    /// that the transfer was given up before it had a result. The transfer must not be a stray
    /// of the table.
    pub fn await_reply(&mut self, xfer: u32, message: Option<TransferResult>) -> (result:
        TransferResult)
        requires
            !old(self).strays().contains(xfer),
        ensures
            result == match message {
                Some(result) => result,
                None => Err::<Vec<u8>, LibusbError>(LibusbError::Interrupted),
            },
            final(self).entries() == if old(self).parents().contains(xfer) {
                old(self).entries()
            } else {
                old(self).entries().remove(xfer)
            },
            final(self).capacity() == old(self).capacity(),
            final(self).parents().subset_of(old(self).parents()),
            final(self).strays() == old(self).strays(),
            *final(self).ctx == *old(self).ctx,
            *final(final(self).ctx) == *final(old(self).ctx),
            *final(final(self).table) == *final(old(self).table),
    {
        let result = match message {
            Some(result) => result,
            None => Err(LibusbError::Interrupted),
        };
        let _removed = delete::<UsbTransfer>(self.table, xfer);
        result
    }
}

} // verus!
