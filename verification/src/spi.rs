use crate::utils::Error;
use vstd::prelude::*;

verus! {

/// One observable event on the SPI bus, in the order the bus sees it:
/// a chip-select edge or a data byte shifted out.
#[derive(Clone, Copy, Debug, PartialEq, Eq, Structural)]
pub enum SpiEvent {
    CsLow,
    CsHigh,
    Data(u8),
}

/// The bytes of `s`, as the data events they produce on the bus.
pub open spec fn data_events(s: Seq<u8>) -> Seq<SpiEvent> {
    s.map_values(|b: u8| SpiEvent::Data(b))
}

/// The SPI controller's register interface together with the bus it
/// drives, modelled at the FIFO level: `tx_fifo` holds the bytes accepted
/// but not yet shifted out (depth `tx_capacity`), and `wire` records what
/// the bus has seen — chip-select edges and data bytes, in order.
///
/// The status register's `tx_full` and `tx_empty` bits derive from the
/// FIFO. The controller has no receive path at all.
pub struct SpiRegisters {
    pub tx_fifo: Vec<u8>,
    pub tx_capacity: usize,
    pub wire: Vec<SpiEvent>,
}

impl SpiRegisters {
    /// The hardware's structural invariant: the transmit FIFO has at
    /// least one slot and never holds more than its depth.
    pub open spec fn wf(self) -> bool {
        &&& self.tx_capacity >= 1
        &&& self.tx_fifo@.len() <= self.tx_capacity
    }

    /// The status bit: no room left in the transmit FIFO.
    pub open spec fn tx_full(self) -> bool {
        self.tx_fifo@.len() == self.tx_capacity
    }

    /// The status bit: nothing left to shift out.
    pub open spec fn tx_empty(self) -> bool {
        self.tx_fifo@.len() == 0
    }

    /// Everything pushed to the transmit path, in order: events already
    /// on the bus followed by the data events still queued.
    pub open spec fn tx_path(self) -> Seq<SpiEvent> {
        self.wire@ + data_events(self.tx_fifo@)
    }

    /// A quiet controller with a transmit FIFO of the given depth.
    pub fn new(tx_capacity: usize) -> (r: SpiRegisters)
        requires
            tx_capacity >= 1,
        ensures
            r.wf(),
            r.tx_capacity == tx_capacity,
            r.tx_fifo@ == Seq::<u8>::empty(),
            r.wire@ == Seq::<SpiEvent>::empty(),
    {
        SpiRegisters { tx_fifo: Vec::new(), tx_capacity, wire: Vec::new() }
    }

    /// The transmitter shifts the oldest queued byte out onto the bus.
    pub fn shift_one(&mut self)
        requires
            old(self).tx_fifo@.len() > 0,
        ensures
            final(self).tx_fifo@ == old(self).tx_fifo@.drop_first(),
            final(self).wire@ == old(self).wire@.push(SpiEvent::Data(old(self).tx_fifo@[0])),
            final(self).tx_capacity == old(self).tx_capacity,
            final(self).tx_path() == old(self).tx_path(),
    {
        let byte: u8 = self.tx_fifo.remove(0);
        self.wire.push(SpiEvent::Data(byte));
        proof {
            assert(data_events(self.tx_fifo@) =~= data_events(old(self).tx_fifo@).drop_first());
            assert(self.tx_path() =~= old(self).tx_path());
        }
    }

    /// Drives the chip-select line low.
    pub fn cs_low(&mut self)
        ensures
            final(self).wire@ == old(self).wire@.push(SpiEvent::CsLow),
            final(self).tx_fifo == old(self).tx_fifo,
            final(self).tx_capacity == old(self).tx_capacity,
    {
        self.wire.push(SpiEvent::CsLow);
    }

    /// Drives the chip-select line high.
    pub fn cs_high(&mut self)
        ensures
            final(self).wire@ == old(self).wire@.push(SpiEvent::CsHigh),
            final(self).tx_fifo == old(self).tx_fifo,
            final(self).tx_capacity == old(self).tx_capacity,
    {
        self.wire.push(SpiEvent::CsHigh);
    }
}

/// A provider of busy-wait delays, handed to the controller at
/// construction when transactions are allowed to contain delay steps.
pub struct Delay;

/// Driver of the SPI controller: a single-device bus with
/// software-controlled chip-select and, by hardware limitation, no usable
/// receive path.
pub struct Spi {
    pub device: SpiRegisters,
    pub delay: Option<Delay>,
}

impl Spi {
    /// Whether a delay provider was supplied at construction.
    pub open spec fn has_delay(self) -> bool {
        self.delay is Some
    }

    /// Wraps a controller without a delay provider: transactions with
    /// delay steps will be refused.
    pub fn new(device: SpiRegisters) -> (r: Spi)
        ensures
            r.device == device,
            !r.has_delay(),
    {
        Spi { device, delay: None }
    }

    /// Wraps a controller together with a delay provider.
    pub fn new_with_delay(device: SpiRegisters, delay: Delay) -> (r: Spi)
        ensures
            r.device == device,
            r.has_delay(),
    {
        Spi { device, delay: Some(delay) }
    }

    /// The status bit: no room left in the transmit FIFO.
    pub fn is_tx_fifo_full(&self) -> (r: bool)
        ensures
            r == self.device.tx_full(),
    {
        self.device.tx_fifo.len() == self.device.tx_capacity
    }

    /// The status bit: nothing left to shift out.
    pub fn is_tx_fifo_empty(&self) -> (r: bool)
        ensures
            r == self.device.tx_empty(),
    {
        self.device.tx_fifo.len() == 0
    }

    /// Pushes one byte into the transmit FIFO, busy-waiting first if the
    /// FIFO reports full; the wait ends when the transmitter has shifted
    /// a byte onto the bus and made room.
    pub fn tx_write(&mut self, byte: u8)
        requires
            old(self).device.wf(),
        ensures
            final(self).device.wf(),
            final(self).device.tx_path() == old(self).device.tx_path().push(SpiEvent::Data(byte)),
            final(self).device.tx_capacity == old(self).device.tx_capacity,
            final(self).delay == old(self).delay,
    {
        if self.device.tx_fifo.len() == self.device.tx_capacity {
            self.device.shift_one();
        }
        let ghost mid = *self;
        self.device.tx_fifo.push(byte);
        proof {
            assert(data_events(mid.device.tx_fifo@.push(byte)) =~= data_events(
                mid.device.tx_fifo@,
            ).push(SpiEvent::Data(byte)));
            assert(self.device.tx_path() =~= old(self).device.tx_path().push(
                SpiEvent::Data(byte),
            ));
        }
    }

    /// Busy-waits until the transmit FIFO reports empty; in the wait the
    /// transmitter shifts every queued byte out onto the bus, in order.
    fn wait_tx_empty(&mut self)
        requires
            old(self).device.wf(),
        ensures
            final(self).device.wf(),
            final(self).device.tx_empty(),
            final(self).device.wire@ == old(self).device.wire@ + data_events(
                old(self).device.tx_fifo@,
            ),
            final(self).device.tx_capacity == old(self).device.tx_capacity,
            final(self).delay == old(self).delay,
    {
        while self.device.tx_fifo.len() > 0
            invariant
                self.device.wf(),
                self.device.tx_capacity == old(self).device.tx_capacity,
                self.device.tx_path() == old(self).device.tx_path(),
                self.delay == old(self).delay,
            decreases self.device.tx_fifo@.len(),
        {
            self.device.shift_one();
        }
        proof {
            assert(data_events(self.device.tx_fifo@) =~= Seq::<SpiEvent>::empty());
            assert(self.device.wire@ =~= self.device.tx_path());
            assert(old(self).device.tx_path() =~= old(self).device.wire@ + data_events(
                old(self).device.tx_fifo@,
            ));
        }
    }

    /// The hardware has no receive capability: reading always fails and
    /// touches neither the bus nor the buffer.
    pub fn read(&mut self, words: &mut Vec<u8>) -> (r: Result<(), Error>)
        ensures
            *final(self) == *old(self),
            *final(words) == *old(words),
            r == Err::<(), Error>(Error::NotSupported),
    {
        Err(Error::NotSupported)
    }

    /// One write burst: waits out anything still queued, asserts
    /// chip-select low, pushes every byte of `words` to the transmit
    /// path, waits until the FIFO reports empty after the last byte, and
    /// only then deasserts chip-select high.
    pub fn write(&mut self, words: &Vec<u8>) -> (r: Result<(), Error>)
        requires
            old(self).device.wf(),
        ensures
            final(self).device.wf(),
            final(self).device.tx_empty(),
            final(self).device.wire@ == old(self).device.wire@ + data_events(
                old(self).device.tx_fifo@,
            ) + seq![SpiEvent::CsLow] + data_events(words@) + seq![SpiEvent::CsHigh],
            final(self).device.tx_capacity == old(self).device.tx_capacity,
            final(self).delay == old(self).delay,
            r is Ok,
    {
        self.wait_tx_empty();
        self.device.cs_low();
        let ghost base = self.device.wire@;
        proof {
            assert(self.device.tx_path() =~= base + data_events(words@.take(0)));
        }
        let mut i: usize = 0;
        while i < words.len()
            invariant
                i <= words.len(),
                self.device.wf(),
                self.device.tx_path() == base + data_events(words@.take(i as int)),
                self.device.tx_capacity == old(self).device.tx_capacity,
                self.delay == old(self).delay,
            decreases words.len() - i,
        {
            self.tx_write(words[i]);
            proof {
                assert(data_events(words@.take(i as int)).push(SpiEvent::Data(words@[i as int]))
                    =~= data_events(words@.take(i as int + 1)));
            }
            i = i + 1;
        }
        proof {
            assert(words@.take(words@.len() as int) =~= words@);
        }
        self.wait_tx_empty();
        self.device.cs_high();
        proof {
            assert(self.device.wire@ =~= old(self).device.wire@ + data_events(
                old(self).device.tx_fifo@,
            ) + seq![SpiEvent::CsLow] + data_events(words@) + seq![SpiEvent::CsHigh]);
        }
        Ok(())
    }

    /// Sends `write`, filling the corresponding prefix of `read` with the
    /// fixed sentinel byte 0xff: the controller cannot receive, so the
    /// read positions never carry hardware-sourced data.
    pub fn transfer(&mut self, read: &mut Vec<u8>, write: &Vec<u8>) -> (r: Result<(), Error>)
        requires
            old(self).device.wf(),
            write@.len() <= old(read)@.len(),
        ensures
            final(self).device.wf(),
            final(self).device.tx_empty(),
            final(self).device.wire@ == old(self).device.wire@ + data_events(
                old(self).device.tx_fifo@,
            ) + seq![SpiEvent::CsLow] + data_events(write@) + seq![SpiEvent::CsHigh],
            final(self).device.tx_capacity == old(self).device.tx_capacity,
            final(self).delay == old(self).delay,
            final(read)@.len() == old(read)@.len(),
            forall|j: int|
                0 <= j < write@.len() ==> final(read)@[j] == 0xffu8,
            forall|j: int|
                write@.len() <= j < old(read)@.len() ==> final(read)@[j] == old(read)@[j],
            r is Ok,
    {
        let res = self.write(write);
        let mut j: usize = 0;
        while j < write.len()
            invariant
                j <= write@.len(),
                write@.len() <= read@.len(),
                read@.len() == old(read)@.len(),
                forall|k: int| 0 <= k < j ==> read@[k] == 0xffu8,
                forall|k: int| j <= k < old(read)@.len() ==> read@[k] == old(read)@[k],
            decreases write.len() - j,
        {
            read[j] = 0xffu8;
            j = j + 1;
        }
        res
    }

    /// Sends the buffer's bytes, then overwrites every position with the
    /// fixed sentinel byte 0xff, as `transfer` does.
    pub fn transfer_in_place(&mut self, words: &mut Vec<u8>) -> (r: Result<(), Error>)
        requires
            old(self).device.wf(),
        ensures
            final(self).device.wf(),
            final(self).device.tx_empty(),
            final(self).device.wire@ == old(self).device.wire@ + data_events(
                old(self).device.tx_fifo@,
            ) + seq![SpiEvent::CsLow] + data_events(old(words)@) + seq![SpiEvent::CsHigh],
            final(self).device.tx_capacity == old(self).device.tx_capacity,
            final(self).delay == old(self).delay,
            final(words)@.len() == old(words)@.len(),
            forall|j: int| 0 <= j < old(words)@.len() ==> final(words)@[j] == 0xffu8,
            r is Ok,
    {
        let res = self.write(words);
        let mut j: usize = 0;
        while j < words.len()
            invariant
                j <= words@.len(),
                words@.len() == old(words)@.len(),
                forall|k: int| 0 <= k < j ==> words@[k] == 0xffu8,
            decreases words.len() - j,
        {
            words[j] = 0xffu8;
            j = j + 1;
        }
        res
    }

    /// Nothing is buffered beyond the hardware FIFO, so there is nothing
    /// to flush.
    pub fn flush(&mut self) -> (r: Result<(), Error>)
        ensures
            *final(self) == *old(self),
            r is Ok,
    {
        Ok(())
    }

    /// Runs a transaction list strictly in order, stopping at the first
    /// step the hardware cannot perform: a read (no receive path), or a
    /// delay step when no delay provider was supplied at construction.
    /// Executed steps leave their bus events and buffer fills in place;
    /// the failing step and everything after it come back untouched.
    pub fn transaction(&mut self, operations: &mut Vec<SpiOperation>) -> (r: Result<(), Error>)
        requires
            old(self).device.wf(),
            forall|i: int|
                0 <= i < old(operations)@.len() ==> op_wf(#[trigger] old(operations)@[i]),
        ensures
            final(self).device.wf(),
            r is Ok <==> ops_ok(old(operations)@, old(self).has_delay()),
            final(self).device.wire@ == old(self).device.wire@ + ops_events(
                old(operations)@,
                old(self).device.tx_fifo@,
                old(self).has_delay(),
            ),
            final(self).device.tx_fifo@ == ops_fifo(
                old(operations)@,
                old(self).device.tx_fifo@,
                old(self).has_delay(),
            ),
            final(self).device.tx_capacity == old(self).device.tx_capacity,
            final(self).delay == old(self).delay,
            final(operations)@.len() == old(operations)@.len(),
            forall|i: int|
                0 <= i < old(operations)@.len() ==> op_after(
                    old(operations)@[i],
                    #[trigger] final(operations)@[i],
                    i < good_prefix_len(old(operations)@, old(self).has_delay()),
                ),
    {
        let ghost ops0 = operations@;
        let ghost d = old(self).has_delay();
        let ghost fifo0 = old(self).device.tx_fifo@;
        let ghost wire0 = old(self).device.wire@;
        let mut out: Vec<SpiOperation> = Vec::new();
        let mut failed = false;
        proof {
            assert(ops0.skip(0) =~= ops0);
        }
        while operations.len() > 0
            invariant
                self.device.wf(),
                self.device.tx_capacity == old(self).device.tx_capacity,
                self.delay == old(self).delay,
                d == self.has_delay(),
                out@.len() + operations@.len() == ops0.len(),
                operations@ == ops0.skip(out@.len() as int),
                forall|i: int| 0 <= i < ops0.len() ==> op_wf(#[trigger] ops0[i]),
                !failed ==> {
                    &&& wire0 + ops_events(ops0, fifo0, d) == self.device.wire@ + ops_events(
                        operations@,
                        self.device.tx_fifo@,
                        d,
                    )
                    &&& ops_fifo(ops0, fifo0, d) == ops_fifo(
                        operations@,
                        self.device.tx_fifo@,
                        d,
                    )
                    &&& ops_ok(ops0, d) == ops_ok(operations@, d)
                    &&& good_prefix_len(ops0, d) == out@.len() + good_prefix_len(operations@, d)
                    &&& forall|i: int|
                        0 <= i < out@.len() ==> op_after(ops0[i], #[trigger] out@[i], true)
                },
                failed ==> {
                    &&& self.device.wire@ == wire0 + ops_events(ops0, fifo0, d)
                    &&& self.device.tx_fifo@ == ops_fifo(ops0, fifo0, d)
                    &&& !ops_ok(ops0, d)
                    &&& good_prefix_len(ops0, d) <= out@.len()
                    &&& forall|i: int|
                        0 <= i < out@.len() ==> op_after(
                            ops0[i],
                            #[trigger] out@[i],
                            i < good_prefix_len(ops0, d),
                        )
                },
            decreases operations@.len(),
        {
            let ghost j: int = out@.len() as int;
            let ghost rem = operations@;
            proof {
                assert(rem[0] == ops0[j]);
                assert(rem.drop_first() =~= ops0.skip(j + 1));
            }
            let op = operations.remove(0);
            proof {
                assert(operations@ =~= rem.drop_first());
            }
            if failed {
                out.push(op);
            } else {
                match op {
                    SpiOperation::Read(words) => {
                        failed = true;
                        proof {
                            assert(self.device.wire@ + Seq::<SpiEvent>::empty()
                                =~= self.device.wire@);
                        }
                        out.push(SpiOperation::Read(words));
                    },
                    SpiOperation::Write(words) => {
                        let ghost pre = *self;
                        let _ = self.write(&words);
                        proof {
                            assert(self.device.tx_fifo@ =~= Seq::<u8>::empty());
                            assert(self.device.wire@ =~= pre.device.wire@ + burst_events(
                                pre.device.tx_fifo@,
                                words@,
                            ));
                            assert(pre.device.wire@ + burst_events(pre.device.tx_fifo@, words@)
                                + ops_events(operations@, Seq::<u8>::empty(), d)
                                =~= pre.device.wire@ + (burst_events(pre.device.tx_fifo@, words@)
                                + ops_events(operations@, Seq::<u8>::empty(), d)));
                        }
                        out.push(SpiOperation::Write(words));
                    },
                    SpiOperation::Transfer(mut read_buf, write_buf) => {
                        let ghost pre = *self;
                        let _ = self.transfer(&mut read_buf, &write_buf);
                        proof {
                            assert(self.device.tx_fifo@ =~= Seq::<u8>::empty());
                            assert(self.device.wire@ =~= pre.device.wire@ + burst_events(
                                pre.device.tx_fifo@,
                                write_buf@,
                            ));
                            assert(pre.device.wire@ + burst_events(
                                pre.device.tx_fifo@,
                                write_buf@,
                            ) + ops_events(operations@, Seq::<u8>::empty(), d)
                                =~= pre.device.wire@ + (burst_events(
                                pre.device.tx_fifo@,
                                write_buf@,
                            ) + ops_events(operations@, Seq::<u8>::empty(), d)));
                        }
                        out.push(SpiOperation::Transfer(read_buf, write_buf));
                    },
                    SpiOperation::TransferInPlace(mut words) => {
                        let ghost pre = *self;
                        let ghost words0 = words@;
                        let _ = self.transfer_in_place(&mut words);
                        proof {
                            assert(self.device.tx_fifo@ =~= Seq::<u8>::empty());
                            assert(self.device.wire@ =~= pre.device.wire@ + burst_events(
                                pre.device.tx_fifo@,
                                words0,
                            ));
                            assert(pre.device.wire@ + burst_events(pre.device.tx_fifo@, words0)
                                + ops_events(operations@, Seq::<u8>::empty(), d)
                                =~= pre.device.wire@ + (burst_events(pre.device.tx_fifo@, words0)
                                + ops_events(operations@, Seq::<u8>::empty(), d)));
                        }
                        out.push(SpiOperation::TransferInPlace(words));
                    },
                    SpiOperation::DelayNs(ns) => {
                        if self.delay.is_none() {
                            failed = true;
                            proof {
                                assert(self.device.wire@ + Seq::<SpiEvent>::empty()
                                    =~= self.device.wire@);
                            }
                        }
                        out.push(SpiOperation::DelayNs(ns));
                    },
                }
            }
        }
        proof {
            if !failed {
                assert(self.device.wire@ + Seq::<SpiEvent>::empty() =~= self.device.wire@);
            }
        }
        *operations = out;
        if failed {
            Err(Error::NotSupported)
        } else {
            Ok(())
        }
    }
}

/// One step of an SPI transaction list. Each buffer-carrying step owns
/// its buffer; the executed list is handed back with the buffers as the
/// hardware left them.
pub enum SpiOperation {
    Read(Vec<u8>),
    Write(Vec<u8>),
    Transfer(Vec<u8>, Vec<u8>),
    TransferInPlace(Vec<u8>),
    DelayNs(u32),
}

/// The structural demand a transfer step places on its buffers: at most
/// as many bytes sent as there are read positions to fill.
pub open spec fn op_wf(op: SpiOperation) -> bool {
    match op {
        SpiOperation::Transfer(read, write) => write@.len() <= read@.len(),
        _ => true,
    }
}

/// Whether one step can succeed on this hardware: reads never can, delay
/// steps only when a delay provider was supplied.
pub open spec fn op_ok(op: SpiOperation, has_delay: bool) -> bool {
    match op {
        SpiOperation::Read(_) => false,
        SpiOperation::DelayNs(_) => has_delay,
        _ => true,
    }
}

/// Whether a whole transaction list runs to completion.
pub open spec fn ops_ok(ops: Seq<SpiOperation>, has_delay: bool) -> bool
    decreases ops.len(),
{
    ops.len() == 0 || (op_ok(ops[0], has_delay) && ops_ok(ops.drop_first(), has_delay))
}

/// The number of steps executed before the first failing one; the whole
/// list when none fails.
pub open spec fn good_prefix_len(ops: Seq<SpiOperation>, has_delay: bool) -> int
    decreases ops.len(),
{
    if ops.len() == 0 {
        0
    } else if !op_ok(ops[0], has_delay) {
        0
    } else {
        1 + good_prefix_len(ops.drop_first(), has_delay)
    }
}

/// The events one burst leaves on the bus: whatever the FIFO still held
/// drains first, then chip-select falls, the burst's bytes go out, and
/// chip-select rises once the FIFO is empty again.
pub open spec fn burst_events(pending: Seq<u8>, words: Seq<u8>) -> Seq<SpiEvent> {
    data_events(pending) + seq![SpiEvent::CsLow] + data_events(words) + seq![SpiEvent::CsHigh]
}

/// The bus events a transaction list produces, `pending` being what the
/// FIFO held when it began; the trace stops at the first failing step.
pub open spec fn ops_events(ops: Seq<SpiOperation>, pending: Seq<u8>, has_delay: bool) -> Seq<
    SpiEvent,
>
    decreases ops.len(),
{
    if ops.len() == 0 {
        Seq::<SpiEvent>::empty()
    } else {
        match ops[0] {
            SpiOperation::Read(_) => Seq::<SpiEvent>::empty(),
            SpiOperation::DelayNs(_) => if has_delay {
                ops_events(ops.drop_first(), pending, has_delay)
            } else {
                Seq::<SpiEvent>::empty()
            },
            SpiOperation::Write(words) => burst_events(pending, words@) + ops_events(
                ops.drop_first(),
                Seq::<u8>::empty(),
                has_delay,
            ),
            SpiOperation::Transfer(read, write) => burst_events(pending, write@) + ops_events(
                ops.drop_first(),
                Seq::<u8>::empty(),
                has_delay,
            ),
            SpiOperation::TransferInPlace(words) => burst_events(pending, words@) + ops_events(
                ops.drop_first(),
                Seq::<u8>::empty(),
                has_delay,
            ),
        }
    }
}

/// What the transmit FIFO still holds once a transaction list has run:
/// any burst drains it, a failing step leaves it as it stood.
pub open spec fn ops_fifo(ops: Seq<SpiOperation>, pending: Seq<u8>, has_delay: bool) -> Seq<u8>
    decreases ops.len(),
{
    if ops.len() == 0 {
        pending
    } else {
        match ops[0] {
            SpiOperation::Read(_) => pending,
            SpiOperation::DelayNs(_) => if has_delay {
                ops_fifo(ops.drop_first(), pending, has_delay)
            } else {
                pending
            },
            _ => ops_fifo(ops.drop_first(), Seq::<u8>::empty(), has_delay),
        }
    }
}

/// How one step of the list comes back: executed transfers carry the
/// sentinel-filled buffers, everything else is handed back unchanged.
pub open spec fn op_after(before: SpiOperation, after: SpiOperation, executed: bool) -> bool {
    if !executed {
        after == before
    } else {
        match before {
            SpiOperation::Transfer(read, write) => {
                &&& after matches SpiOperation::Transfer(read2, write2)
                &&& {
                    &&& write2 == write
                    &&& read2@.len() == read@.len()
                    &&& forall|j: int| 0 <= j < write@.len() ==> read2@[j] == 0xffu8
                    &&& forall|j: int| write@.len() <= j < read@.len() ==> read2@[j] == read@[j]
                }
            },
            SpiOperation::TransferInPlace(words) => {
                &&& after matches SpiOperation::TransferInPlace(words2)
                &&& {
                    &&& words2@.len() == words@.len()
                    &&& forall|j: int| 0 <= j < words@.len() ==> words2@[j] == 0xffu8
                }
            },
            _ => after == before,
        }
    }
}

} // verus!
