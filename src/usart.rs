//! Interrupt-driven USART engine: bytes to send wait in a ring buffer that
//! the data-register-empty interrupt drains, and received bytes wait in a
//! ring buffer that the receive interrupt fills.
use vstd::prelude::*;

use crate::ring_buffer::{RingBuffer, Status};

verus! {

/// Capacity of each of the two ring buffers, one slot of it unused.
pub const MAX_FRAME_SIZE: usize = 64;

/// The operation cannot complete now; retry later.
#[derive(Clone, Copy, PartialEq, Eq, Debug, Structural)]
pub enum UsartError {
    Blocked,
}

/// Transmit side of the driver.
#[derive(Clone, Copy, PartialEq, Eq, Debug, Structural)]
pub enum State {
    /// Nothing to send; the data-register-empty interrupt is off.
    Idle,
    /// Bytes queued; the data-register-empty interrupt is on.
    Buffer,
}

/// The driver's state. `output_enabled` mirrors the data-register-empty
/// interrupt enable bit, which the caller writes to the hardware.
pub struct UsartInner {
    state: State,
    output_enabled: bool,
    read_buffer: RingBuffer<u8, MAX_FRAME_SIZE>,
    write_buffer: RingBuffer<u8, MAX_FRAME_SIZE>,
}

pub fn status_to_result(value: Status) -> (r: Result<(), UsartError>)
    ensures
        value == Status::Success ==> r == Ok::<(), UsartError>(()),
        value == Status::BufferFull ==> r == Err::<(), UsartError>(UsartError::Blocked),
{
    match value {
        Status::Success => Ok(()),
        Status::BufferFull => Err(UsartError::Blocked),
    }
}

impl UsartInner {
    pub closed spec fn wf(&self) -> bool {
        &&& self.read_buffer.wf()
        &&& self.write_buffer.wf()
        &&& self.output_enabled <==> self.state == State::Buffer
        &&& self.state == State::Idle ==> self.write_buffer@.len() == 0
    }

    pub closed spec fn spec_state(&self) -> State {
        self.state
    }

    pub closed spec fn spec_output_enabled(&self) -> bool {
        self.output_enabled
    }

    /// Bytes received and not yet read, oldest first.
    pub closed spec fn received(&self) -> Seq<u8> {
        self.read_buffer@
    }

    /// Bytes queued and not yet handed to the hardware, oldest first.
    pub closed spec fn pending(&self) -> Seq<u8> {
        self.write_buffer@
    }

    /// Bytes a ring buffer of the driver holds at most.
    pub open spec fn capacity() -> nat {
        (MAX_FRAME_SIZE - 1) as nat
    }

    pub fn new() -> (r: UsartInner)
        ensures
            r.wf(),
            r.spec_state() == State::Idle,
            !r.spec_output_enabled(),
            r.received() == Seq::<u8>::empty(),
            r.pending() == Seq::<u8>::empty(),
    {
        UsartInner {
            state: State::Idle,
            output_enabled: false,
            read_buffer: RingBuffer::new(),
            write_buffer: RingBuffer::new(),
        }
    }

    pub fn output_enabled(&self) -> (r: bool)
        ensures
            r == self.spec_output_enabled(),
    {
        self.output_enabled
    }

    /// Queues `byte` for sending and, if the driver was idle, switches the
    /// data-register-empty interrupt on; fails when the queue is full.
    pub fn write_byte(&mut self, byte: u8) -> (r: Result<(), UsartError>)
        requires
            old(self).wf(),
        ensures
            final(self).wf(),
            final(self).received() == old(self).received(),
            old(self).pending().len() < Self::capacity() ==> r is Ok && final(self).pending()
                == old(self).pending().push(byte) && final(self).spec_state() == State::Buffer
                && final(self).spec_output_enabled(),
            old(self).pending().len() >= Self::capacity() ==> r == Err::<(), UsartError>(
                UsartError::Blocked,
            ) && final(self).pending() == old(self).pending() && final(self).spec_state() == old(self).spec_state()
                && final(self).spec_output_enabled() == old(self).spec_output_enabled(),
    {
        match self.state {
            State::Idle => {
                self.write_buffer.push_back(byte);
                self.set_state(State::Buffer);
                Ok(())
            },
            State::Buffer => status_to_result(self.write_buffer.push_back(byte)),
        }
    }

    /// Takes the oldest received byte; fails when none is there.
    pub fn read_byte(&mut self) -> (r: Result<u8, UsartError>)
        requires
            old(self).wf(),
        ensures
            final(self).wf(),
            final(self).pending() == old(self).pending(),
            final(self).spec_state() == old(self).spec_state(),
            final(self).spec_output_enabled() == old(self).spec_output_enabled(),
            old(self).received().len() == 0 ==> r == Err::<u8, UsartError>(UsartError::Blocked)
                && final(self).received() == old(self).received(),
            old(self).received().len() > 0 ==> r == Ok::<u8, UsartError>(old(self).received()[0])
                && final(self).received() == old(self).received().drop_first(),
    {
        match self.read_buffer.pop_front() {
            Some(byte) => Ok(byte),
            None => Err(UsartError::Blocked),
        }
    }

    /// Fills `buffer` with the oldest received bytes, or fails and takes
    /// nothing when fewer than `buffer.len()` bytes are there.
    pub fn read(&mut self, buffer: &mut [u8]) -> (r: Result<(), UsartError>)
        requires
            old(self).wf(),
        ensures
            final(self).wf(),
            final(self).pending() == old(self).pending(),
            final(self).spec_state() == old(self).spec_state(),
            final(self).spec_output_enabled() == old(self).spec_output_enabled(),
            final(buffer)@.len() == old(buffer)@.len(),
            old(self).received().len() < old(buffer)@.len() ==> r == Err::<(), UsartError>(
                UsartError::Blocked,
            ) && final(self).received() == old(self).received() && final(buffer)@ == old(buffer)@,
            old(self).received().len() >= old(buffer)@.len() ==> r == Ok::<(), UsartError>(())
                && final(buffer)@ == old(self).received().subrange(0, old(buffer)@.len() as int)
                && final(self).received() == old(self).received().subrange(
                old(buffer)@.len() as int,
                old(self).received().len() as int,
            ),
    {
        let n = buffer.len();
        if self.read_buffer.size() < n {
            return Err(UsartError::Blocked);
        }
        let mut i: usize = 0;
        while i < n
            invariant
                self.wf(),
                i <= n,
                n == buffer@.len(),
                old(self).received().len() >= n,
                self.pending() == old(self).pending(),
                self.state == old(self).state,
                self.received() == old(self).received().subrange(
                    i as int,
                    old(self).received().len() as int,
                ),
                forall|j: int| 0 <= j < i ==> buffer@[j] == old(self).received()[j],
            decreases n - i,
        {
            let byte = self.read_byte();
            match byte {
                Ok(b) => {
                    buffer[i] = b;
                },
                Err(_) => {},
            }
            i = i + 1;
        }
        assert(buffer@ =~= old(self).received().subrange(0, n as int));
        Ok(())
    }

    /// Handles a data-register-empty interrupt: returns the next byte to put
    /// in the data register, or, with nothing queued, goes idle and switches
    /// the interrupt off.
    pub fn write_byte_actual(&mut self) -> (r: Option<u8>)
        requires
            old(self).wf(),
        ensures
            final(self).wf(),
            final(self).received() == old(self).received(),
            old(self).pending().len() > 0 ==> r == Some(old(self).pending()[0]) && final(self).pending()
                == old(self).pending().drop_first() && final(self).spec_state() == old(self).spec_state()
                && final(self).spec_output_enabled() == old(self).spec_output_enabled(),
            old(self).pending().len() == 0 ==> r is None && final(self).pending() == old(self).pending()
                && final(self).spec_state() == State::Idle
                && !final(self).spec_output_enabled(),
    {
        match self.write_buffer.pop_front() {
            Some(byte) => Some(byte),
            None => {
                self.set_state(State::Idle);
                None
            },
        }
    }

    /// Handles a receive interrupt: queues `byte`, or drops it when the
    /// queue is full.
    pub fn read_byte_actual(&mut self, byte: u8)
        requires
            old(self).wf(),
        ensures
            final(self).wf(),
            final(self).pending() == old(self).pending(),
            final(self).spec_state() == old(self).spec_state(),
            final(self).spec_output_enabled() == old(self).spec_output_enabled(),
            old(self).received().len() < Self::capacity() ==> final(self).received() == old(self).received().push(byte),
            old(self).received().len() >= Self::capacity() ==> final(self).received() == old(self).received(),
    {
        self.read_buffer.push_back(byte);
    }

    fn set_state(&mut self, state: State)
        ensures
            final(self).state == state,
            final(self).output_enabled == (state == State::Buffer),
            final(self).read_buffer == old(self).read_buffer,
            final(self).write_buffer == old(self).write_buffer,
    {
        match state {
            State::Idle => self.disable_output(),
            State::Buffer => self.enable_output(),
        }
        self.state = state;
    }

    fn enable_output(&mut self)
        ensures
            final(self).output_enabled,
            final(self).state == old(self).state,
            final(self).read_buffer == old(self).read_buffer,
            final(self).write_buffer == old(self).write_buffer,
    {
        self.output_enabled = true;
    }

    fn disable_output(&mut self)
        ensures
            !final(self).output_enabled,
            final(self).state == old(self).state,
            final(self).read_buffer == old(self).read_buffer,
            final(self).write_buffer == old(self).write_buffer,
    {
        self.output_enabled = false;
    }
}

} // verus!
