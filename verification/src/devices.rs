//! The guest's I/O ports: a serial console (COM1) backed by byte channels,
//! and the dispatch of port reads and writes.
use vstd::prelude::*;
use std::sync::mpsc::{Receiver, Sender};

verus! {

#[verifier::external_type_specification]
#[verifier::external_body]
#[verifier::reject_recursive_types(T)]
pub struct ExSender<T>(Sender<T>);

#[verifier::external_type_specification]
#[verifier::external_body]
#[verifier::reject_recursive_types(T)]
pub struct ExReceiver<T>(Receiver<T>);

/// I/O port of the first serial port (COM1).
pub const COM1_PORT: u16 = 0x3f8;

/// Errors of the serial console.
#[derive(Debug, PartialEq, Eq)]
pub enum DeviceError {
    /// Nobody receives the console output any more.
    ReceiverDropped,
    /// No input byte is available.
    NoInput,
}

/// Serial console device: output bytes go to `tx`, input bytes come from `rx`.
/// For the proofs, `sent` records the bytes that `tx` accepted and `received`
/// the bytes taken from `rx`, each in order.
pub struct SerialDevice {
    tx: Sender<u8>,
    rx: Receiver<u8>,
    sent: Ghost<Seq<u8>>,
    received: Ghost<Seq<u8>>,
}

/// The record after a write of `data` onto a record `before`: all of `data`
/// on success, else a proper prefix of it (the bytes before the one that
/// could not be sent).
pub open spec fn written(before: Seq<u8>, after: Seq<u8>, data: Seq<u8>, ok: bool) -> bool {
    if ok {
        after == before + data
    } else {
        exists|k: int| 0 <= k < data.len() && after == before + #[trigger] data.take(k)
    }
}

impl SerialDevice {
    /// The channel that carries the console output.
    pub closed spec fn output(&self) -> Sender<u8> {
        self.tx
    }

    /// The channel that carries the console input.
    pub closed spec fn input(&self) -> Receiver<u8> {
        self.rx
    }

    /// The bytes that the output channel accepted from this device, in order.
    pub closed spec fn sent(&self) -> Seq<u8> {
        self.sent@
    }

    /// The bytes that this device took from the input channel, in order.
    pub closed spec fn received(&self) -> Seq<u8> {
        self.received@
    }

    pub fn new(tx: Sender<u8>, rx: Receiver<u8>) -> (d: Self)
        ensures
            d.output() == tx,
            d.input() == rx,
            d.sent() == Seq::<u8>::empty(),
            d.received() == Seq::<u8>::empty(),
    {
        Self { tx, rx, sent: Ghost(Seq::empty()), received: Ghost(Seq::empty()) }
    }

    /// `Sender::send` of one byte on the output channel. It fails exactly
    /// when the receiving side is gone, which the other end decides. The
    /// contract claims that an accepted byte is the one handed over, so it
    /// extends the record of sent bytes, and that a refused byte leaves the
    /// record as it was; the channels and the input record do not change.
    #[verifier::external_body]
    fn send_recorded(&mut self, byte: u8) -> (r: Result<(), ()>)
        ensures
            final(self).output() == old(self).output(),
            final(self).input() == old(self).input(),
            final(self).received() == old(self).received(),
            r is Ok ==> final(self).sent() == old(self).sent().push(byte),
            r is Err ==> final(self).sent() == old(self).sent(),
    {
        self.tx.send(byte).map_err(|_| ())
    }

    /// `Receiver::recv` on the input channel: waits for the next byte and
    /// fails when every sender is gone. The contract claims that a byte
    /// returned is the next one taken from the channel, so it extends the
    /// record of received bytes, and that a failure leaves the record as it
    /// was; which byte comes is the other end's choice.
    #[verifier::external_body]
    fn receive_recorded(&mut self) -> (r: Result<u8, ()>)
        ensures
            final(self).output() == old(self).output(),
            final(self).input() == old(self).input(),
            final(self).sent() == old(self).sent(),
            r matches Ok(b) ==> final(self).received() == old(self).received().push(b),
            r is Err ==> final(self).received() == old(self).received(),
    {
        self.rx.recv().map_err(|_| ())
    }

    /// Sends the bytes of `data` in order, one at a time, stopping at the
    /// first that cannot be sent; the only error is a dropped receiver, and
    /// with no bytes to send nothing can fail. Whether a send is accepted is
    /// decided by the receiving end.
    pub fn handle_output(&mut self, data: &[u8]) -> (r: Result<(), DeviceError>)
        ensures
            final(self).output() == old(self).output(),
            final(self).input() == old(self).input(),
            final(self).received() == old(self).received(),
            written(old(self).sent(), final(self).sent(), data@, r is Ok),
            data@.len() == 0 ==> r is Ok,
            r matches Err(e) ==> e == DeviceError::ReceiverDropped,
    {
        let ghost before = self.sent();
        let mut i: usize = 0;
        while i < data.len()
            invariant
                i <= data@.len(),
                self.output() == old(self).output(),
                self.input() == old(self).input(),
                self.received() == old(self).received(),
                self.sent() == before + data@.take(i as int),
                before == old(self).sent(),
            decreases data@.len() - i,
        {
            if self.send_recorded(data[i]).is_err() {
                assert(written(before, self.sent(), data@, false));
                return Err(DeviceError::ReceiverDropped);
            }
            assert(data@.take(i + 1) =~= data@.take(i as int).push(data@[i as int]));
            i += 1;
        }
        assert(data@.take(data@.len() as int) =~= data@);
        Ok(())
    }

    /// Waits for one input byte and returns it; the only error is that no
    /// input can come.
    pub fn handle_input(&mut self) -> (r: Result<u8, DeviceError>)
        ensures
            final(self).output() == old(self).output(),
            final(self).input() == old(self).input(),
            final(self).sent() == old(self).sent(),
            r matches Ok(b) ==> final(self).received() == old(self).received().push(b),
            r is Err ==> final(self).received() == old(self).received(),
            r matches Err(e) ==> e == DeviceError::NoInput,
    {
        match self.receive_recorded() {
            Ok(b) => Ok(b),
            Err(()) => Err(DeviceError::NoInput),
        }
    }
}

/// Routes port I/O to the devices; only COM1 has a device.
pub struct DeviceManager {
    serial: SerialDevice,
}

impl DeviceManager {
    /// The serial console behind COM1.
    pub closed spec fn serial(&self) -> SerialDevice {
        self.serial
    }

    pub fn new(serial: SerialDevice) -> (m: Self)
        ensures
            m.serial() == serial,
    {
        Self { serial }
    }

    /// A write to a port: COM1 goes to the serial console, which sends the
    /// bytes in order as `handle_output` does; other ports are ignored and
    /// send nothing. An empty write cannot fail.
    pub fn handle_io_out(&mut self, port: u16, data: &[u8]) -> (r: Result<(), DeviceError>)
        ensures
            port == COM1_PORT ==> final(self).serial().output() == old(self).serial().output()
                && final(self).serial().input() == old(self).serial().input()
                && final(self).serial().received() == old(self).serial().received()
                && written(old(self).serial().sent(), final(self).serial().sent(), data@, r is Ok),
            port != COM1_PORT ==> r is Ok && final(self).serial() == old(self).serial(),
            data@.len() == 0 ==> r is Ok,
            r matches Err(e) ==> e == DeviceError::ReceiverDropped,
    {
        if port == COM1_PORT {
            self.serial.handle_output(data)
        } else {
            Ok(())
        }
    }

    /// A read from a port: COM1 reads the next byte of the serial console,
    /// other ports read 0 and take nothing.
    pub fn handle_io_in(&mut self, port: u16) -> (r: Result<u8, DeviceError>)
        ensures
            port == COM1_PORT ==> final(self).serial().output() == old(self).serial().output()
                && final(self).serial().input() == old(self).serial().input()
                && final(self).serial().sent() == old(self).serial().sent()
                && (r matches Ok(b) ==> final(self).serial().received() == old(self).serial().received().push(b))
                && (r is Err ==> final(self).serial().received() == old(self).serial().received()),
            port != COM1_PORT ==> r == Ok::<u8, DeviceError>(0) && final(self).serial() == old(self).serial(),
            r matches Err(e) ==> e == DeviceError::NoInput,
    {
        if port == COM1_PORT {
            self.serial.handle_input()
        } else {
            Ok(0)
        }
    }
}

} // verus!
