use crate::utils::Error;
use vstd::prelude::*;

verus! {

/// The UART's register interface, modelled at the FIFO level: the
/// transmit side is the queue of bytes accepted but not yet shifted out
/// (`tx_fifo`, of depth `tx_capacity`) together with the bytes already on
/// the line (`tx_wire`); the receive side is the queue of bytes the line
/// has delivered and software has not read yet (`rx_fifo`).
///
/// The status register's `tx_full` and `rx_empty` bits derive from the
/// two queues. Tests and the surrounding program play the part of the
/// line: they deliver bytes with `receive_byte` and let the transmitter
/// make progress with `shift_out`.
pub struct UartRegisters {
    pub tx_fifo: Vec<u8>,
    pub tx_capacity: usize,
    pub tx_wire: Vec<u8>,
    pub rx_fifo: Vec<u8>,
}

impl UartRegisters {
    /// The hardware's structural invariant: the transmit FIFO has at
    /// least one slot and never holds more than its depth.
    pub open spec fn wf(self) -> bool {
        &&& self.tx_capacity >= 1
        &&& self.tx_fifo@.len() <= self.tx_capacity
    }

    /// The status bit: no room left in the transmit FIFO.
    pub open spec fn tx_full(self) -> bool {
        self.tx_fifo@.len() == self.tx_capacity
    }

    /// The status bit: no byte waiting in the receive FIFO.
    pub open spec fn rx_empty(self) -> bool {
        self.rx_fifo@.len() == 0
    }

    /// Everything pushed to the transmit path, in order: bytes already on
    /// the line followed by bytes still queued.
    pub open spec fn tx_path(self) -> Seq<u8> {
        self.tx_wire@ + self.tx_fifo@
    }

    /// A quiet UART with a transmit FIFO of the given depth.
    pub fn new(tx_capacity: usize) -> (r: UartRegisters)
        requires
            tx_capacity >= 1,
        ensures
            r.wf(),
            r.tx_capacity == tx_capacity,
            r.tx_path() == Seq::<u8>::empty(),
            r.rx_fifo@ == Seq::<u8>::empty(),
    {
        let r = UartRegisters {
            tx_fifo: Vec::new(),
            tx_capacity,
            tx_wire: Vec::new(),
            rx_fifo: Vec::new(),
        };
        proof {
            assert(r.tx_path() =~= Seq::<u8>::empty());
        }
        r
    }

    /// The line delivers one byte into the receive FIFO.
    pub fn receive_byte(&mut self, byte: u8)
        ensures
            final(self).rx_fifo@ == old(self).rx_fifo@.push(byte),
            final(self).tx_fifo == old(self).tx_fifo,
            final(self).tx_wire == old(self).tx_wire,
            final(self).tx_capacity == old(self).tx_capacity,
    {
        self.rx_fifo.push(byte);
    }

    /// The transmitter shifts the oldest queued byte out onto the line.
    pub fn shift_out(&mut self)
        requires
            old(self).tx_fifo@.len() > 0,
        ensures
            final(self).tx_fifo@ == old(self).tx_fifo@.drop_first(),
            final(self).tx_wire@ == old(self).tx_wire@.push(old(self).tx_fifo@[0]),
            final(self).rx_fifo == old(self).rx_fifo,
            final(self).tx_capacity == old(self).tx_capacity,
            final(self).tx_path() == old(self).tx_path(),
    {
        let byte: u8 = self.tx_fifo.remove(0);
        self.tx_wire.push(byte);
        proof {
            assert(self.tx_path() =~= old(self).tx_path());
        }
    }
}

/// Polling UART driver over one register block.
pub struct Serial {
    pub device: UartRegisters,
}

impl Serial {
    pub fn new(device: UartRegisters) -> (r: Serial)
        ensures
            r.device == device,
    {
        Serial { device }
    }

    /// Writes one byte into the transmit register, busy-waiting first if
    /// the FIFO reports full; the wait ends when the transmitter has
    /// shifted a byte out and made room. The byte always ends up on the
    /// transmit path, after everything queued before it.
    pub fn write(&mut self, byte: u8)
        requires
            old(self).device.wf(),
        ensures
            final(self).device.wf(),
            final(self).device.tx_path() == old(self).device.tx_path().push(byte),
            final(self).device.rx_fifo == old(self).device.rx_fifo,
            final(self).device.tx_capacity == old(self).device.tx_capacity,
    {
        if self.device.tx_fifo.len() == self.device.tx_capacity {
            self.device.shift_out();
        }
        self.device.tx_fifo.push(byte);
        proof {
            assert(self.device.tx_path() =~= old(self).device.tx_path().push(byte));
        }
    }

    /// Writes a whole buffer, byte by byte, each with the blocking `write`.
    pub fn write_all(&mut self, data: &Vec<u8>)
        requires
            old(self).device.wf(),
        ensures
            final(self).device.wf(),
            final(self).device.tx_path() == old(self).device.tx_path() + data@,
            final(self).device.rx_fifo == old(self).device.rx_fifo,
            final(self).device.tx_capacity == old(self).device.tx_capacity,
    {
        let mut i: usize = 0;
        while i < data.len()
            invariant
                i <= data.len(),
                self.device.wf(),
                self.device.tx_path() == old(self).device.tx_path() + data@.take(i as int),
                self.device.rx_fifo == old(self).device.rx_fifo,
                self.device.tx_capacity == old(self).device.tx_capacity,
            decreases data.len() - i,
        {
            self.write(data[i]);
            proof {
                assert(self.device.tx_path() =~= old(self).device.tx_path() + data@.take(
                    i as int + 1,
                ));
            }
            i = i + 1;
        }
        proof {
            assert(data@.take(data@.len() as int) =~= data@);
        }
    }

    /// Queues as many of the buffer's bytes as the transmit FIFO can take
    /// right now, without blocking: the count returned is the smaller of
    /// the buffer's length and the FIFO's free room, and nothing waits for
    /// the transmitter. The non-blocking mirror of `read`.
    pub fn write_nonblocking(&mut self, data: &Vec<u8>) -> (r: usize)
        requires
            old(self).device.wf(),
        ensures
            final(self).device.wf(),
            r as int == vstd::math::min(
                data@.len() as int,
                old(self).device.tx_capacity - old(self).device.tx_fifo@.len(),
            ),
            final(self).device.tx_fifo@ == old(self).device.tx_fifo@ + data@.take(r as int),
            final(self).device.tx_wire == old(self).device.tx_wire,
            final(self).device.rx_fifo == old(self).device.rx_fifo,
            final(self).device.tx_capacity == old(self).device.tx_capacity,
    {
        let mut i: usize = 0;
        while i < data.len() && self.device.tx_fifo.len() < self.device.tx_capacity
            invariant
                i <= data.len(),
                self.device.wf(),
                i <= old(self).device.tx_capacity - old(self).device.tx_fifo@.len(),
                self.device.tx_fifo@ == old(self).device.tx_fifo@ + data@.take(i as int),
                self.device.tx_wire == old(self).device.tx_wire,
                self.device.rx_fifo == old(self).device.rx_fifo,
                self.device.tx_capacity == old(self).device.tx_capacity,
            decreases data.len() - i,
        {
            self.device.tx_fifo.push(data[i]);
            proof {
                assert(self.device.tx_fifo@ =~= old(self).device.tx_fifo@ + data@.take(
                    i as int + 1,
                ));
            }
            i = i + 1;
        }
        i
    }

    /// Fills the buffer with as many received bytes as are currently
    /// available, without blocking: the count returned is the smaller of
    /// the buffer's length and the receive FIFO's fill level, and only the
    /// first that many slots are overwritten.
    pub fn read(&mut self, buf: &mut Vec<u8>) -> (r: usize)
        ensures
            r as int == vstd::math::min(old(buf)@.len() as int, old(self).device.rx_fifo@.len() as int),
            final(buf)@ == old(self).device.rx_fifo@.take(r as int) + old(buf)@.skip(r as int),
            final(self).device.rx_fifo@ == old(self).device.rx_fifo@.skip(r as int),
            final(self).device.tx_fifo == old(self).device.tx_fifo,
            final(self).device.tx_wire == old(self).device.tx_wire,
            final(self).device.tx_capacity == old(self).device.tx_capacity,
    {
        let mut i: usize = 0;
        while i < buf.len() && self.device.rx_fifo.len() > 0
            invariant
                i <= buf.len(),
                buf@.len() == old(buf)@.len(),
                i <= old(self).device.rx_fifo@.len(),
                buf@ == old(self).device.rx_fifo@.take(i as int) + old(buf)@.skip(i as int),
                self.device.rx_fifo@ == old(self).device.rx_fifo@.skip(i as int),
                self.device.tx_fifo == old(self).device.tx_fifo,
                self.device.tx_wire == old(self).device.tx_wire,
                self.device.tx_capacity == old(self).device.tx_capacity,
            decreases buf.len() - i,
        {
            let byte: u8 = self.device.rx_fifo.remove(0);
            buf[i] = byte;
            proof {
                assert(buf@ =~= old(self).device.rx_fifo@.take(i as int + 1) + old(buf)@.skip(
                    i as int + 1,
                ));
                assert(self.device.rx_fifo@ =~= old(self).device.rx_fifo@.skip(i as int + 1));
            }
            i = i + 1;
        }
        proof {
            assert(buf@ =~= old(self).device.rx_fifo@.take(i as int) + old(buf)@.skip(i as int));
        }
        i
    }

    /// The status bit that says a byte is waiting to be read.
    pub fn read_ready(&mut self) -> (r: Result<bool, Error>)
        ensures
            *final(self) == *old(self),
            r == Ok::<bool, Error>(!old(self).device.rx_empty()),
    {
        Ok(self.device.rx_fifo.len() > 0)
    }

    /// The status bit that says the transmit FIFO can take a byte.
    pub fn write_ready(&mut self) -> (r: Result<bool, Error>)
        requires
            old(self).device.wf(),
        ensures
            *final(self) == *old(self),
            r == Ok::<bool, Error>(!old(self).device.tx_full()),
    {
        Ok(self.device.tx_fifo.len() < self.device.tx_capacity)
    }

    /// Nothing is buffered beyond the hardware FIFO, so there is nothing
    /// to flush.
    pub fn flush(&mut self) -> (r: Result<(), Error>)
        ensures
            *final(self) == *old(self),
            r is Ok,
    {
        Ok(())
    }
}

} // verus!
