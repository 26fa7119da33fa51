use uart_bridge::bridge::{Bridge, LED_HOLD};
use uart_bridge::hex::u8_to_hex;
use uart_bridge::rate::{RateController, RateOutcome, INITIAL_RATE};
use uart_bridge::trace::{DataSource, TraceState};

#[test]
fn hex_canonical_digits() {
    assert_eq!(u8_to_hex(0x00), *b"00");
    assert_eq!(u8_to_hex(0xff), *b"ff");
    assert_eq!(u8_to_hex(0x0a), *b"0a");
    assert_eq!(u8_to_hex(0x41), *b"41");
    assert_eq!(u8_to_hex(0x9c), *b"9c");
}

#[test]
fn hex_all_bytes_lowercase_alphabet() {
    let alphabet = b"0123456789abcdef";
    for b in 0..=255u8 {
        let pair = u8_to_hex(b);
        assert_eq!(pair[0], alphabet[(b >> 4) as usize]);
        assert_eq!(pair[1], alphabet[(b & 0x0f) as usize]);
    }
}

#[test]
fn line_wraps_after_sixteen_bytes() {
    let mut st = TraceState::new();
    let mut out: Vec<u8> = Vec::new();
    for i in 0..17u8 {
        out.extend(st.emit_byte(DataSource::PC, i));
    }
    let expected = b"[PC->DUT]\r\n\
        00 01 02 03 04 05 06 07 08 09 0a 0b 0c 0d 0e 0f \r\n10 ";
    assert_eq!(out, expected.to_vec());
    assert_eq!(st.current_source, Some(DataSource::PC));
    assert_eq!(st.bytes_on_line, 1);
}

#[test]
fn source_switch_frames_lines() {
    let mut st = TraceState::new();
    let mut out: Vec<u8> = Vec::new();
    out.extend(st.emit_byte(DataSource::PC, 0x12));
    out.extend(st.emit_byte(DataSource::DUT, 0x34));
    assert_eq!(out, b"[PC->DUT]\r\n12 \r\n[DUT->PC]\r\n34 ".to_vec());
}

#[test]
fn same_source_emits_no_second_header() {
    let mut st = TraceState::new();
    let mut out: Vec<u8> = Vec::new();
    out.extend(st.emit_byte(DataSource::DUT, 0xde));
    out.extend(st.emit_byte(DataSource::DUT, 0xad));
    assert_eq!(out, b"[DUT->PC]\r\nde ad ".to_vec());
}

#[test]
fn flush_is_idempotent() {
    let mut st = TraceState::new();
    st.emit_byte(DataSource::PC, 0x01);
    let first = st.flush();
    let second = st.flush();
    assert_eq!(first, b"\r\n".to_vec());
    assert_eq!(second, Vec::<u8>::new());
    assert_eq!(st.current_source, None);
    assert_eq!(st.bytes_on_line, 0);
}

#[test]
fn flush_with_no_open_line_emits_nothing() {
    let mut st = TraceState::new();
    assert_eq!(st.flush(), Vec::<u8>::new());
}

#[test]
fn rate_request_for_current_rate_is_a_no_op() {
    let mut rc = RateController::new(115200);
    let mut st = TraceState::new();
    st.emit_byte(DataSource::PC, 0x55);
    let before = st;
    let (outcome, out) = rc.request_rate_change(&mut st, 115200);
    assert_eq!(outcome, RateOutcome::Unchanged);
    assert_eq!(out, Vec::<u8>::new());
    assert_eq!(rc.current_rate(), 115200);
    assert_eq!(st, before);
}

#[test]
fn rate_request_for_zero_is_a_no_op() {
    let mut rc = RateController::new(115200);
    let mut st = TraceState::new();
    let (outcome, out) = rc.request_rate_change(&mut st, 0);
    assert_eq!(outcome, RateOutcome::Unchanged);
    assert_eq!(out, Vec::<u8>::new());
    assert_eq!(rc.current_rate(), 115200);
}

#[test]
fn rate_change_notice_closes_open_line() {
    let mut rc = RateController::new(115200);
    let mut st = TraceState::new();
    st.emit_byte(DataSource::PC, 0x11);
    let (outcome, out) = rc.request_rate_change(&mut st, 9600);
    assert_eq!(outcome, RateOutcome::Changed);
    assert_eq!(out, b"\r\n[INFO] Baudrate changed to 9600 bps\r\n".to_vec());
    assert_eq!(rc.current_rate(), 9600);
    assert_eq!(st.current_source, None);
    assert_eq!(st.bytes_on_line, 0);
}

#[test]
fn rate_change_notice_without_open_line() {
    let mut rc = RateController::new(115200);
    let mut st = TraceState::new();
    let (outcome, out) = rc.request_rate_change(&mut st, 1000000);
    assert_eq!(outcome, RateOutcome::Changed);
    assert_eq!(out, b"[INFO] Baudrate changed to 1000000 bps\r\n".to_vec());
}

#[test]
fn end_to_end_host_chunk() {
    let mut bridge = Bridge::new();
    let (uart_out, diag) = bridge.handle_host_chunk(&[0x41, 0x42]);
    assert_eq!(uart_out, vec![0x41, 0x42]);
    assert_eq!(diag, b"[PC->DUT]\r\n41 42 ".to_vec());
    assert_eq!(bridge.led_counter, LED_HOLD);
}

#[test]
fn empty_host_chunk_changes_nothing() {
    let mut bridge = Bridge::new();
    let (uart_out, diag) = bridge.handle_host_chunk(&[]);
    assert_eq!(uart_out, Vec::<u8>::new());
    assert_eq!(diag, Vec::<u8>::new());
    assert_eq!(bridge.led_counter, 0);
    assert_eq!(bridge.trace.current_source, None);
}

#[test]
fn device_byte_is_forwarded_and_traced() {
    let mut bridge = Bridge::new();
    let (host_out, diag) = bridge.handle_device_byte(0x7f);
    assert_eq!(host_out, vec![0x7f]);
    assert_eq!(diag, b"[DUT->PC]\r\n7f ".to_vec());
    assert_eq!(bridge.led_counter, LED_HOLD);
}

#[test]
fn bridge_poll_rate_applies_request() {
    let mut bridge = Bridge::new();
    assert_eq!(bridge.rate.current_rate, INITIAL_RATE);
    let (outcome, diag) = bridge.poll_rate(19200);
    assert_eq!(outcome, RateOutcome::Changed);
    assert_eq!(diag, b"[INFO] Baudrate changed to 19200 bps\r\n".to_vec());
    assert_eq!(bridge.rate.current_rate, 19200);
    let (outcome2, diag2) = bridge.poll_rate(19200);
    assert_eq!(outcome2, RateOutcome::Unchanged);
    assert_eq!(diag2, Vec::<u8>::new());
}

#[test]
fn activity_timer_counts_down_to_off() {
    let mut bridge = Bridge::new();
    bridge.handle_device_byte(0x00);
    assert_eq!(bridge.led_counter, LED_HOLD);
    for k in 0..LED_HOLD {
        let on = bridge.led_tick();
        assert_eq!(bridge.led_counter, LED_HOLD - 1 - k);
        assert_eq!(on, k + 1 < LED_HOLD);
    }
    assert_eq!(bridge.led_counter, 0);
    assert!(!bridge.led_tick());
    assert_eq!(bridge.led_counter, 0);
}

#[test]
fn activity_timer_retriggers_on_each_byte() {
    let mut bridge = Bridge::new();
    bridge.handle_host_chunk(&[0x01]);
    assert_eq!(bridge.led_counter, LED_HOLD);
    bridge.led_tick();
    bridge.led_tick();
    assert_eq!(bridge.led_counter, LED_HOLD - 2);
    bridge.handle_device_byte(0x02);
    assert_eq!(bridge.led_counter, LED_HOLD);
}

#[test]
fn full_transport_chunk_wraps_into_four_lines() {
    let mut bridge = Bridge::new();
    let chunk: Vec<u8> = (0..64u8).collect();
    let (uart_out, diag) = bridge.handle_host_chunk(&chunk);
    assert_eq!(uart_out, chunk);
    let mut expected: Vec<u8> = b"[PC->DUT]\r\n".to_vec();
    for (i, b) in chunk.iter().enumerate() {
        if i > 0 && i % 16 == 0 {
            expected.extend_from_slice(b"\r\n");
        }
        expected.extend_from_slice(format!("{:02x} ", b).as_bytes());
    }
    assert_eq!(diag, expected);
    assert_eq!(bridge.trace.bytes_on_line, 16);
}

#[test]
fn rate_notice_for_largest_rate() {
    let mut rc = RateController::new(115200);
    let mut st = TraceState::new();
    let (outcome, out) = rc.request_rate_change(&mut st, u32::MAX);
    assert_eq!(outcome, RateOutcome::Changed);
    assert_eq!(out, b"[INFO] Baudrate changed to 4294967295 bps\r\n".to_vec());
    assert_eq!(rc.current_rate(), u32::MAX);
}

#[test]
fn notification_passes_text_verbatim() {
    let st = TraceState::new();
    let out = st.emit_notification(b"hello");
    assert_eq!(out, b"hello".to_vec());
}

#[test]
fn interleaved_sources_keep_attribution_order() {
    let mut bridge = Bridge::new();
    let mut diag: Vec<u8> = Vec::new();
    diag.extend(bridge.handle_host_chunk(&[0xaa, 0xbb]).1);
    diag.extend(bridge.handle_device_byte(0xcc).1);
    diag.extend(bridge.handle_host_chunk(&[0xdd]).1);
    assert_eq!(
        diag,
        b"[PC->DUT]\r\naa bb \r\n[DUT->PC]\r\ncc \r\n[PC->DUT]\r\ndd ".to_vec()
    );
}
