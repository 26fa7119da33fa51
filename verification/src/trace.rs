use vstd::prelude::*;
use crate::hex::{hex_pair, u8_to_hex};

verus! {

/// Which side of the bridge contributed a byte to the diagnostic trace.
#[derive(Clone, Copy, PartialEq, Eq, Structural, Debug)]
pub enum DataSource {
    /// The host computer, reached through the primary virtual serial port.
    PC,
    /// The device under test, reached through the hardware serial line.
    DUT,
}

/// Carriage return + line feed, the diagnostic channel's line break.
pub open spec fn crlf() -> Seq<u8> {
    seq![13u8, 10u8]
}

/// The header line that opens a run of bytes from one source:
/// `[PC->DUT]` or `[DUT->PC]`, each followed by a line break.
pub open spec fn header(src: DataSource) -> Seq<u8> {
    match src {
        DataSource::PC => seq![91u8, 80, 67, 45, 62, 68, 85, 84, 93, 13, 10],
        DataSource::DUT => seq![91u8, 68, 85, 84, 45, 62, 80, 67, 93, 13, 10],
    }
}

/// How many hex pairs fit on one trace line before a forced line break.
pub const LINE_WIDTH: u8 = 16;

/// Line-attribution state of the diagnostic trace: which source's line is
/// open (if any) and how many hex pairs already stand on it.
#[derive(Clone, Copy, PartialEq, Eq, Debug)]
pub struct TraceState {
    /// The source whose trace line is currently open; `None` means no open line.
    pub current_source: Option<DataSource>,
    /// Hex pairs already emitted on the open line.
    pub bytes_on_line: u8,
}

impl TraceState {
    /// The line counter never passes the wrap threshold.
    pub open spec fn wf(self) -> bool {
        self.bytes_on_line <= LINE_WIDTH
    }

    /// The state at startup and after a flush: no open line.
    pub fn new() -> (r: TraceState)
        ensures
            r == (TraceState { current_source: None, bytes_on_line: 0 }),
            r.wf(),
    {
        TraceState { current_source: None, bytes_on_line: 0 }
    }
}

/// The trace state after one byte from `src` has been accounted.
pub open spec fn emit_byte_state(pre: TraceState, src: DataSource) -> TraceState {
    let opened = if pre.current_source == Some(src) {
        pre
    } else {
        TraceState { current_source: Some(src), bytes_on_line: 0 }
    };
    let on_line = if opened.bytes_on_line >= LINE_WIDTH {
        0
    } else {
        opened.bytes_on_line
    };
    TraceState { current_source: Some(src), bytes_on_line: (on_line + 1) as u8 }
}

/// The bytes the diagnostic channel receives for one byte from `src`:
/// a line break closing another source's open line, a header when the
/// source changes, a line break when the line is full, then the byte's
/// hex pair and a separating space.
pub open spec fn emit_byte_output(pre: TraceState, src: DataSource, byte: u8) -> Seq<u8> {
    let switch = if pre.current_source == Some(src) {
        Seq::<u8>::empty()
    } else if pre.current_source is Some {
        crlf() + header(src)
    } else {
        header(src)
    };
    let on_line = if pre.current_source == Some(src) {
        pre.bytes_on_line
    } else {
        0
    };
    let wrap = if on_line >= LINE_WIDTH {
        crlf()
    } else {
        Seq::<u8>::empty()
    };
    switch + wrap + hex_pair(byte) + seq![32u8]
}

/// The trace state after a flush: any open line is closed.
pub open spec fn flush_state(pre: TraceState) -> TraceState {
    if pre.current_source is Some {
        TraceState { current_source: None, bytes_on_line: 0 }
    } else {
        pre
    }
}

/// The bytes a flush sends: a line break if a line was open, else nothing.
pub open spec fn flush_output(pre: TraceState) -> Seq<u8> {
    if pre.current_source is Some {
        crlf()
    } else {
        Seq::<u8>::empty()
    }
}

/// The trace state after a whole run of bytes from `src` has been accounted,
/// one byte at a time, in order.
pub open spec fn emit_seq_state(pre: TraceState, src: DataSource, bytes: Seq<u8>) -> TraceState
    decreases bytes.len(),
{
    if bytes.len() == 0 {
        pre
    } else {
        emit_byte_state(emit_seq_state(pre, src, bytes.drop_last()), src)
    }
}

/// The bytes the diagnostic channel receives for a whole run of bytes from
/// `src`, accounted one byte at a time, in order.
pub open spec fn emit_seq_output(pre: TraceState, src: DataSource, bytes: Seq<u8>) -> Seq<u8>
    decreases bytes.len(),
{
    if bytes.len() == 0 {
        Seq::empty()
    } else {
        emit_seq_output(pre, src, bytes.drop_last()) + emit_byte_output(
            emit_seq_state(pre, src, bytes.drop_last()),
            src,
            bytes.last(),
        )
    }
}

/// The plain hex text for a run of bytes: each byte's hex pair followed by
/// one space, with no header and no line break.
pub open spec fn hex_run(bytes: Seq<u8>) -> Seq<u8>
    decreases bytes.len(),
{
    if bytes.len() == 0 {
        Seq::empty()
    } else {
        hex_run(bytes.drop_last()) + hex_pair(bytes.last()) + seq![32u8]
    }
}

/// Appends the header line for `src` to `out`.
pub(crate) fn push_header(out: &mut Vec<u8>, src: DataSource)
    ensures
        final(out)@ == old(out)@ + header(src),
{
    out.push(91);
    match src {
        DataSource::PC => {
            out.push(80);
            out.push(67);
            out.push(45);
            out.push(62);
            out.push(68);
            out.push(85);
            out.push(84);
        }
        DataSource::DUT => {
            out.push(68);
            out.push(85);
            out.push(84);
            out.push(45);
            out.push(62);
            out.push(80);
            out.push(67);
        }
    }
    out.push(93);
    out.push(13);
    out.push(10);
    assert(out@ =~= old(out)@ + header(src));
}

impl TraceState {
    /// Accounts one byte from `src` and returns the bytes owed to the
    /// diagnostic channel: a closing line break and a header when the
    /// source changes, a line break when the line is full, then the
    /// byte's hex pair and a space.
    pub fn emit_byte(&mut self, src: DataSource, byte: u8) -> (out: Vec<u8>)
        requires
            old(self).wf(),
        ensures
            *final(self) == emit_byte_state(*old(self), src),
            final(self).wf(),
            out@ == emit_byte_output(*old(self), src, byte),
    {
        let mut out: Vec<u8> = Vec::new();
        let same = match self.current_source {
            Some(s) => s == src,
            None => false,
        };
        if !same {
            if self.current_source.is_some() {
                out.push(13);
                out.push(10);
            }
            push_header(&mut out, src);
            self.current_source = Some(src);
            self.bytes_on_line = 0;
        }
        if self.bytes_on_line >= LINE_WIDTH {
            out.push(13);
            out.push(10);
            self.bytes_on_line = 0;
        }
        let h = u8_to_hex(byte);
        out.push(h[0]);
        out.push(h[1]);
        out.push(32);
        self.bytes_on_line = self.bytes_on_line + 1;
        assert(out@ =~= emit_byte_output(*old(self), src, byte));
        out
    }

    /// Returns notification text to be written verbatim to the diagnostic
    /// channel, bypassing the hex and line-wrap logic. The trace must have
    /// been flushed first, so that the text cannot interleave with an open
    /// trace line.
    pub fn emit_notification(&self, text: &[u8]) -> (out: Vec<u8>)
        requires
            self.current_source is None,
        ensures
            out@ == text@,
    {
        let mut out: Vec<u8> = Vec::new();
        let n = text.len();
        for i in 0..n
            invariant
                n == text@.len(),
                out@ == text@.take(i as int),
        {
            out.push(text[i]);
            proof {
                assert(text@.take(i + 1) =~= text@.take(i as int).push(text@[i as int]));
            }
        }
        proof {
            assert(text@.take(n as int) =~= text@);
        }
        out
    }

    /// Closes any open trace line and returns the bytes owed to the
    /// diagnostic channel. A second flush with no byte in between owes
    /// nothing and changes nothing.
    pub fn flush(&mut self) -> (out: Vec<u8>)
        ensures
            *final(self) == flush_state(*old(self)),
            out@ == flush_output(*old(self)),
            old(self).wf() ==> final(self).wf(),
    {
        let mut out: Vec<u8> = Vec::new();
        if self.current_source.is_some() {
            out.push(13);
            out.push(10);
            self.current_source = None;
            self.bytes_on_line = 0;
        }
        assert(out@ =~= flush_output(*old(self)));
        out
    }
}

/// Law: while the line has room, consecutive bytes from the source that
/// owns the open line emit only hex pairs and spaces — no header, no line
/// break — and the line counter grows by one per byte.
pub proof fn lemma_same_source_run(src: DataSource, start: u8, bytes: Seq<u8>)
    requires
        start + bytes.len() <= LINE_WIDTH,
    ensures
        emit_seq_state(TraceState { current_source: Some(src), bytes_on_line: start }, src, bytes)
            == (TraceState {
            current_source: Some(src),
            bytes_on_line: (start + bytes.len()) as u8,
        }),
        emit_seq_output(TraceState { current_source: Some(src), bytes_on_line: start }, src, bytes)
            == hex_run(bytes),
    decreases bytes.len(),
{
    let pre = TraceState { current_source: Some(src), bytes_on_line: start };
    if bytes.len() > 0 {
        lemma_same_source_run(src, start, bytes.drop_last());
        assert(emit_seq_output(pre, src, bytes) =~= hex_run(bytes));
    }
}

/// Law: the seventeenth consecutive byte from one source, counted from a
/// fresh line, is the only one that forces a line break: the output is the
/// first sixteen hex pairs, one line break, then the seventeenth pair,
/// with no header line anywhere in between.
pub proof fn lemma_line_wrap(src: DataSource, bytes: Seq<u8>)
    requires
        bytes.len() == 17,
    ensures
        emit_seq_output(TraceState { current_source: Some(src), bytes_on_line: 0 }, src, bytes)
            == hex_run(bytes.take(16)) + crlf() + hex_run(bytes.skip(16)),
{
    let pre = TraceState { current_source: Some(src), bytes_on_line: 0 };
    lemma_same_source_run(src, 0, bytes.take(16));
    assert(bytes.drop_last() =~= bytes.take(16));
    assert(bytes.skip(16) =~= seq![bytes.last()]);
    reveal_with_fuel(hex_run, 3);
    assert(seq![bytes.last()].drop_last() =~= Seq::<u8>::empty());
    assert(hex_run(bytes.skip(16)) =~= hex_pair(bytes.last()) + seq![32u8]);
    assert(emit_seq_output(pre, src, bytes) =~= hex_run(bytes.take(16)) + crlf() + hex_run(
        bytes.skip(16),
    ));
}

/// Law: the first byte after a source switch emits a line break closing the
/// other source's open line (no break when no line was open) followed by
/// the new source's header exactly once, then the byte's hex pair and a
/// space; a byte that keeps the source emits no header at all (see
/// `lemma_same_source_run`).
pub proof fn lemma_source_switch(b1: u8, b2: u8)
    ensures
        ({
            let s0 = TraceState { current_source: None, bytes_on_line: 0 };
            let s1 = emit_byte_state(s0, DataSource::PC);
            &&& emit_byte_output(s0, DataSource::PC, b1) == header(DataSource::PC) + hex_pair(b1)
                + seq![32u8]
            &&& s1 == (TraceState { current_source: Some(DataSource::PC), bytes_on_line: 1 })
            &&& emit_byte_output(s1, DataSource::DUT, b2) == crlf() + header(DataSource::DUT)
                + hex_pair(b2) + seq![32u8]
        }),
{
    let s0 = TraceState { current_source: None, bytes_on_line: 0 };
    let s1 = emit_byte_state(s0, DataSource::PC);
    assert(emit_byte_output(s0, DataSource::PC, b1) =~= header(DataSource::PC) + hex_pair(b1)
        + seq![32u8]);
    assert(emit_byte_output(s1, DataSource::DUT, b2) =~= crlf() + header(DataSource::DUT)
        + hex_pair(b2) + seq![32u8]);
}

/// Law: a flush is idempotent — a second flush with no byte accounted in
/// between changes nothing and emits nothing.
pub proof fn lemma_flush_idempotent(st: TraceState)
    ensures
        flush_state(flush_state(st)) == flush_state(st),
        flush_output(flush_state(st)) == Seq::<u8>::empty(),
{
}

} // verus!
