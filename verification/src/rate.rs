use vstd::prelude::*;
use crate::trace::{TraceState, flush_state, flush_output};

verus! {

/// The line rate the hardware serial line starts with, in bits per second.
pub const INITIAL_RATE: u32 = 115200;

/// Decimal digits (ASCII) of `n`, most significant first, with no leading
/// zeros; empty for 0.
pub open spec fn decimal(n: nat) -> Seq<u8>
    decreases n,
{
    if n == 0 {
        Seq::empty()
    } else {
        decimal(n / 10) + seq![(48 + n % 10) as u8]
    }
}

/// `[INFO] Baudrate changed to ` — the text that opens a rate-change notice.
pub open spec fn notice_prefix() -> Seq<u8> {
    seq![
        91u8, 73, 78, 70, 79, 93, 32, 66, 97, 117, 100, 114, 97, 116, 101, 32, 99, 104, 97,
        110, 103, 101, 100, 32, 116, 111, 32,
    ]
}

/// ` bps` and a line break — the text that closes a rate-change notice.
pub open spec fn notice_suffix() -> Seq<u8> {
    seq![32u8, 98, 112, 115, 13, 10]
}

/// The full rate-change notice for `rate`:
/// `[INFO] Baudrate changed to <rate> bps` and a line break.
pub open spec fn rate_notice(rate: u32) -> Seq<u8> {
    notice_prefix() + decimal(rate as nat) + notice_suffix()
}

/// Appends the decimal digits of `n` (no leading zeros; nothing for 0).
pub(crate) fn push_decimal(n: u32, out: &mut Vec<u8>)
    ensures
        final(out)@ == old(out)@ + decimal(n as nat),
    decreases n,
{
    if n == 0 {
        assert(out@ =~= old(out)@ + decimal(0));
        return;
    }
    push_decimal(n / 10, out);
    let d: u8 = (n % 10) as u8;
    out.push(48 + d);
    assert(out@ =~= old(out)@ + decimal(n as nat));
}

/// Appends the full rate-change notice for `rate`.
pub(crate) fn push_rate_notice(rate: u32, out: &mut Vec<u8>)
    ensures
        final(out)@ == old(out)@ + rate_notice(rate),
{
    out.push(91);
    out.push(73);
    out.push(78);
    out.push(70);
    out.push(79);
    out.push(93);
    out.push(32);
    out.push(66);
    out.push(97);
    out.push(117);
    out.push(100);
    out.push(114);
    out.push(97);
    out.push(116);
    out.push(101);
    out.push(32);
    out.push(99);
    out.push(104);
    out.push(97);
    out.push(110);
    out.push(103);
    out.push(101);
    out.push(100);
    out.push(32);
    out.push(116);
    out.push(111);
    out.push(32);
    assert(out@ =~= old(out)@ + notice_prefix());
    push_decimal(rate, out);
    out.push(32);
    out.push(98);
    out.push(112);
    out.push(115);
    out.push(13);
    out.push(10);
    assert(out@ =~= old(out)@ + rate_notice(rate));
}

/// Whether a rate request led to a reconfiguration.
#[derive(Clone, Copy, PartialEq, Eq, Structural, Debug)]
pub enum RateOutcome {
    /// The request named the current rate or 0: nothing happened.
    Unchanged,
    /// The hardware line must be re-established at the new rate.
    Changed,
}

/// Owns the line rate currently applied to the hardware serial line.
#[derive(Clone, Copy, PartialEq, Eq, Debug)]
pub struct RateController {
    /// The rate in force, in bits per second; always positive.
    pub current_rate: u32,
}

impl RateController {
    /// The rate in force is always positive; 0 is never applied.
    pub open spec fn wf(self) -> bool {
        self.current_rate > 0
    }

    pub fn new(initial: u32) -> (r: RateController)
        requires
            initial > 0,
        ensures
            r.current_rate == initial,
            r.wf(),
    {
        RateController { current_rate: initial }
    }

    /// The rate currently applied to the hardware serial line.
    pub fn current_rate(&self) -> (r: u32)
        ensures
            r == self.current_rate,
    {
        self.current_rate
    }

    /// Decides a host rate request. A request for 0 or for the rate already
    /// in force changes nothing and owes no output. Any other request closes
    /// an open trace line, records the new rate, and owes the diagnostic
    /// channel the closing line break followed by the rate-change notice;
    /// the caller must then re-establish the hardware line at the new rate.
    pub fn request_rate_change(&mut self, trace: &mut TraceState, new_rate: u32) -> (r: (
        RateOutcome,
        Vec<u8>,
    ))
        requires
            old(self).wf(),
        ensures
            final(self).wf(),
            new_rate == 0 || new_rate == old(self).current_rate ==> {
                &&& r.0 == RateOutcome::Unchanged
                &&& *final(self) == *old(self)
                &&& *final(trace) == *old(trace)
                &&& r.1@ == Seq::<u8>::empty()
            },
            new_rate != 0 && new_rate != old(self).current_rate ==> {
                &&& r.0 == RateOutcome::Changed
                &&& final(self).current_rate == new_rate
                &&& *final(trace) == flush_state(*old(trace))
                &&& r.1@ == flush_output(*old(trace)) + rate_notice(new_rate)
            },
            old(trace).wf() ==> final(trace).wf(),
    {
        if new_rate == 0 || new_rate == self.current_rate {
            return (RateOutcome::Unchanged, Vec::new());
        }
        let mut out = trace.flush();
        push_rate_notice(new_rate, &mut out);
        self.current_rate = new_rate;
        (RateOutcome::Changed, out)
    }
}

} // verus!
