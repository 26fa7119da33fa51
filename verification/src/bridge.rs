use vstd::prelude::*;
use crate::rate::{RateController, RateOutcome, INITIAL_RATE, rate_notice};
use crate::trace::{
    DataSource, TraceState, emit_byte_output, emit_byte_state, emit_seq_output, emit_seq_state,
    flush_output, flush_state,
};

verus! {

/// Loop iterations the activity indicator stays on after a byte moves.
pub const LED_HOLD: u16 = 500;

/// The indicator countdown after one iteration with no data movement.
pub open spec fn tick_step(c: u16) -> u16 {
    if c > 0 {
        (c - 1) as u16
    } else {
        0
    }
}

/// The indicator countdown after `k` iterations with no data movement.
pub open spec fn counter_after(c: u16, k: nat) -> u16
    decreases k,
{
    if k == 0 {
        c
    } else {
        tick_step(counter_after(c, (k - 1) as nat))
    }
}

/// All state of one bridge: the trace attribution, the line rate in force,
/// and the activity indicator's countdown.
#[derive(Clone, Copy, PartialEq, Eq, Debug)]
pub struct Bridge {
    /// Line-attribution state of the diagnostic trace.
    pub trace: TraceState,
    /// The line rate applied to the hardware serial line.
    pub rate: RateController,
    /// Iterations left before the activity indicator goes off.
    pub led_counter: u16,
}

impl Bridge {
    pub open spec fn wf(self) -> bool {
        &&& self.trace.wf()
        &&& self.rate.wf()
        &&& self.led_counter <= LED_HOLD
    }

    /// The state at startup: no open trace line, the initial line rate,
    /// the indicator off.
    pub fn new() -> (r: Bridge)
        ensures
            r.trace == (TraceState { current_source: None, bytes_on_line: 0 }),
            r.rate.current_rate == INITIAL_RATE,
            r.led_counter == 0,
            r.wf(),
    {
        Bridge {
            trace: TraceState::new(),
            rate: RateController::new(INITIAL_RATE),
            led_counter: 0,
        }
    }

    /// Iteration step 1: decides a host rate request, flushing the trace
    /// first when a change is due. Returns the outcome and the bytes owed to
    /// the diagnostic channel; on `Changed` the caller must re-establish the
    /// hardware serial line at the new rate before moving any further byte.
    pub fn poll_rate(&mut self, requested: u32) -> (r: (RateOutcome, Vec<u8>))
        requires
            old(self).wf(),
        ensures
            final(self).wf(),
            final(self).led_counter == old(self).led_counter,
            requested == 0 || requested == old(self).rate.current_rate ==> {
                &&& r.0 == RateOutcome::Unchanged
                &&& *final(self) == *old(self)
                &&& r.1@ == Seq::<u8>::empty()
            },
            requested != 0 && requested != old(self).rate.current_rate ==> {
                &&& r.0 == RateOutcome::Changed
                &&& final(self).rate.current_rate == requested
                &&& final(self).trace == flush_state(old(self).trace)
                &&& r.1@ == flush_output(old(self).trace) + rate_notice(requested)
            },
    {
        self.rate.request_rate_change(&mut self.trace, requested)
    }

    /// Iteration step 2, once a chunk has been read from the host port:
    /// returns the bytes to write to the hardware serial line (the chunk,
    /// unmodified) and the bytes owed to the diagnostic channel, with every
    /// byte attributed to the host in order. A non-empty chunk retriggers
    /// the activity indicator.
    pub fn handle_host_chunk(&mut self, chunk: &[u8]) -> (r: (Vec<u8>, Vec<u8>))
        requires
            old(self).wf(),
        ensures
            final(self).wf(),
            r.0@ == chunk@,
            final(self).trace == emit_seq_state(old(self).trace, DataSource::PC, chunk@),
            r.1@ == emit_seq_output(old(self).trace, DataSource::PC, chunk@),
            final(self).rate == old(self).rate,
            final(self).led_counter == (if chunk@.len() > 0 {
                LED_HOLD
            } else {
                old(self).led_counter
            }),
    {
        let mut uart_out: Vec<u8> = Vec::new();
        let mut diag: Vec<u8> = Vec::new();
        if chunk.len() == 0 {
            assert(chunk@.take(0) =~= chunk@);
            return (uart_out, diag);
        }
        self.led_counter = LED_HOLD;
        let n = chunk.len();
        for i in 0..n
            invariant
                n == chunk@.len(),
                uart_out@ == chunk@.take(i as int),
                diag@ == emit_seq_output(old(self).trace, DataSource::PC, chunk@.take(i as int)),
                self.trace == emit_seq_state(old(self).trace, DataSource::PC, chunk@.take(i as int)),
                self.trace.wf(),
                self.rate == old(self).rate,
                self.led_counter == LED_HOLD,
        {
            let b = chunk[i];
            uart_out.push(b);
            let mut d = self.trace.emit_byte(DataSource::PC, b);
            diag.append(&mut d);
            proof {
                assert(chunk@.take(i + 1).drop_last() =~= chunk@.take(i as int));
            }
        }
        proof {
            assert(chunk@.take(n as int) =~= chunk@);
        }
        (uart_out, diag)
    }

    /// Iteration step 3, once one byte has been read from the hardware
    /// serial line: returns the bytes to write to the host port (the byte,
    /// unmodified) and the bytes owed to the diagnostic channel, with the
    /// byte attributed to the device. The byte retriggers the activity
    /// indicator.
    pub fn handle_device_byte(&mut self, byte: u8) -> (r: (Vec<u8>, Vec<u8>))
        requires
            old(self).wf(),
        ensures
            final(self).wf(),
            r.0@ == seq![byte],
            final(self).trace == emit_byte_state(old(self).trace, DataSource::DUT),
            r.1@ == emit_byte_output(old(self).trace, DataSource::DUT, byte),
            final(self).rate == old(self).rate,
            final(self).led_counter == LED_HOLD,
    {
        let mut host_out: Vec<u8> = Vec::new();
        host_out.push(byte);
        self.led_counter = LED_HOLD;
        let diag = self.trace.emit_byte(DataSource::DUT, byte);
        assert(host_out@ =~= seq![byte]);
        (host_out, diag)
    }

    /// Iteration step 5: counts the activity indicator down by one when no
    /// byte moved this iteration, and reports whether the indicator should
    /// be driven on.
    pub fn led_tick(&mut self) -> (on: bool)
        ensures
            final(self).led_counter == tick_step(old(self).led_counter),
            on == (final(self).led_counter > 0),
            final(self).trace == old(self).trace,
            final(self).rate == old(self).rate,
            old(self).wf() ==> final(self).wf(),
    {
        if self.led_counter > 0 {
            self.led_counter = self.led_counter - 1;
        }
        self.led_counter > 0
    }
}

/// Law: any moved byte resets the countdown to its hold value (see
/// `handle_host_chunk` and `handle_device_byte`); from there, with no data
/// movement, it falls by exactly one per iteration, so after `k` idle
/// iterations it stands at `c - k` (0 once `k` reaches `c`) and the
/// indicator is on exactly while `k < c`.
pub proof fn lemma_activity_countdown(c: u16, k: nat)
    ensures
        counter_after(c, k) == (if k <= c {
            (c - k) as u16
        } else {
            0u16
        }),
        (counter_after(c, k) > 0) <==> k < c,
    decreases k,
{
    if k > 0 {
        lemma_activity_countdown(c, (k - 1) as nat);
    }
}

} // verus!
