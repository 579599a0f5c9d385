use esp01::resp::{classify_resp, get_u8_from_slice, EspResp, EspRespHandler};
use esp01::serial::ScriptedSerial;

#[test]
fn terminal_markers_classify() {
    assert_eq!(classify_resp(b"ready\r\n"), Some(EspResp::Ready));
    assert_eq!(classify_resp(b"OK\r\n"), Some(EspResp::Okay));
    assert_eq!(classify_resp(b"ERROR\r\n"), Some(EspResp::Error));
    assert_eq!(classify_resp(b"FAIL\r\n"), Some(EspResp::Fail));
    assert_eq!(classify_resp(b"WIFI CONNECTED\r\n"), Some(EspResp::StaConnected));
    assert_eq!(classify_resp(b"WIFI DISCONNECT\r\n"), Some(EspResp::StaDisconnected));
    assert_eq!(classify_resp(b"WIFI GOT IP\r\n"), Some(EspResp::StaGotIp));
    assert_eq!(classify_resp(b"SEND OK\r\n"), Some(EspResp::MsgSent));
    assert_eq!(classify_resp(b"garbage"), None);
}

#[test]
fn sent_banner_wins_over_plain_success() {
    // "SEND OK\r\n" ends in "OK\r\n": the specific banner must be tried first
    assert_eq!(classify_resp(b"\r\nSEND OK\r\n"), Some(EspResp::MsgSent));
}

#[test]
fn markers_classify_with_leading_noise() {
    assert_eq!(classify_resp(b"AT+RST\r\n\r\nOK\r\n"), Some(EspResp::Okay));
}

#[test]
fn connect_and_close_lines_carry_the_id() {
    assert_eq!(classify_resp(b"0,CONNECT\r\n"), Some(EspResp::ClientConnected(0)));
    assert_eq!(classify_resp(b"12,CONNECT\r\n"), Some(EspResp::ClientConnected(12)));
    assert_eq!(classify_resp(b"1,CLOSED\r\n"), Some(EspResp::ClientDisconnected(1)));
    assert_eq!(classify_resp(b"\r\n3,CLOSED\r\n"), Some(EspResp::ClientDisconnected(3)));
}

#[test]
fn bad_client_ids_are_discarded() {
    assert_eq!(classify_resp(b"x,CONNECT\r\n"), None);
    assert_eq!(classify_resp(b"300,CONNECT\r\n"), None);
    assert_eq!(classify_resp(b",CONNECT\r\n"), None);
    assert_eq!(classify_resp(b"1x,CLOSED\r\n"), None);
}

#[test]
fn digit_strings_parse_as_bytes() {
    assert_eq!(get_u8_from_slice(b"0"), Some(0));
    assert_eq!(get_u8_from_slice(b"42"), Some(42));
    assert_eq!(get_u8_from_slice(b"255"), Some(255));
    assert_eq!(get_u8_from_slice(b"007"), Some(7));
    assert_eq!(get_u8_from_slice(b"256"), None);
    assert_eq!(get_u8_from_slice(b"999"), None);
    assert_eq!(get_u8_from_slice(b""), None);
    assert_eq!(get_u8_from_slice(b"+1"), None);
    assert_eq!(get_u8_from_slice(b"4a"), None);
}

fn handler_with_client_zero() -> (EspRespHandler, ScriptedSerial) {
    let mut handler = EspRespHandler::new(64);
    let mut serial = ScriptedSerial::new();
    serial.push_rx(b"0,CONNECT\r\n");
    assert_eq!(handler.poll(&mut serial), Some(EspResp::ClientConnected(0)));
    (handler, serial)
}

#[test]
fn message_for_tracked_client_is_retrievable_exactly_once() {
    let (mut handler, mut serial) = handler_with_client_zero();
    serial.push_rx(b"+IPD,0,5:hello");
    assert_eq!(handler.poll(&mut serial), Some(EspResp::ClientMsg(0)));
    let msg = handler.get_client_next_msg(0).expect("queued payload");
    assert_eq!(msg.get_buff_slice(), b"hello");
    assert!(handler.get_client_next_msg(0).is_none());
}

#[test]
fn declared_length_must_match_the_payload() {
    let (mut handler, mut serial) = handler_with_client_zero();
    serial.push_rx(b"+IPD,0,3:abcdef");
    assert_eq!(handler.poll(&mut serial), None);
    assert!(handler.get_client_next_msg(0).is_none());
}

#[test]
fn short_payload_waits_for_the_rest() {
    let (mut handler, mut serial) = handler_with_client_zero();
    serial.push_rx(b"+IPD,0,5:he");
    assert_eq!(handler.poll(&mut serial), None);
    serial.push_rx(b"llo");
    assert_eq!(handler.poll(&mut serial), Some(EspResp::ClientMsg(0)));
    let msg = handler.get_client_next_msg(0).expect("queued payload");
    assert_eq!(msg.get_buff_slice(), b"hello");
}

#[test]
fn message_line_tolerates_leading_line_break() {
    let (mut handler, mut serial) = handler_with_client_zero();
    serial.push_rx(b"\r\n+IPD,0,2:hi");
    assert_eq!(handler.poll(&mut serial), Some(EspResp::ClientMsg(0)));
    let msg = handler.get_client_next_msg(0).expect("queued payload");
    assert_eq!(msg.get_buff_slice(), b"hi");
}

#[test]
fn message_for_untracked_client_is_dropped() {
    let mut handler = EspRespHandler::new(64);
    let mut serial = ScriptedSerial::new();
    serial.push_rx(b"+IPD,7,2:hi");
    assert_eq!(handler.poll(&mut serial), Some(EspResp::ClientMsg(7)));
    assert!(handler.get_client_next_msg(7).is_none());
}

#[test]
fn close_for_untracked_id_is_a_no_op() {
    let mut handler = EspRespHandler::new(64);
    let mut serial = ScriptedSerial::new();
    serial.push_rx(b"0,CLOSED\r\n");
    assert_eq!(handler.poll(&mut serial), Some(EspResp::ClientDisconnected(0)));
    assert!(handler.get_client_next_msg(0).is_none());
}

#[test]
fn close_drops_the_clients_queue() {
    let (mut handler, mut serial) = handler_with_client_zero();
    serial.push_rx(b"+IPD,0,2:hi");
    assert_eq!(handler.poll(&mut serial), Some(EspResp::ClientMsg(0)));
    serial.push_rx(b"0,CLOSED\r\n");
    assert_eq!(handler.poll(&mut serial), Some(EspResp::ClientDisconnected(0)));
    assert!(handler.get_client_next_msg(0).is_none());
}

#[test]
fn window_slides_over_old_bytes() {
    let mut handler = EspRespHandler::new(8);
    let mut serial = ScriptedSerial::new();
    // the marker still matches once older bytes were pushed out of the window
    serial.push_rx(b"0123456789abcd");
    assert_eq!(handler.poll(&mut serial), None);
    assert_eq!(handler.get_resp_buff(), b"6789abcd".as_slice());
    serial.push_rx(b"OK\r\n");
    assert_eq!(handler.poll(&mut serial), Some(EspResp::Okay));
    assert_eq!(handler.get_resp_buff(), b"");
}

#[test]
fn largest_declared_payload_is_carried_whole() {
    let mut handler = EspRespHandler::new(300);
    let mut serial = ScriptedSerial::new();
    serial.push_rx(b"0,CONNECT\r\n");
    assert_eq!(handler.poll(&mut serial), Some(EspResp::ClientConnected(0)));
    let payload = vec![b'x'; 255];
    serial.push_rx(b"+IPD,0,255:");
    serial.push_rx(&payload);
    assert_eq!(handler.poll(&mut serial), Some(EspResp::ClientMsg(0)));
    let msg = handler.get_client_next_msg(0).expect("queued payload");
    assert_eq!(msg.get_buff_slice(), payload.as_slice());
}

#[test]
fn declared_length_past_a_byte_is_rejected() {
    let mut handler = EspRespHandler::new(400);
    let mut serial = ScriptedSerial::new();
    serial.push_rx(b"0,CONNECT\r\n");
    assert_eq!(handler.poll(&mut serial), Some(EspResp::ClientConnected(0)));
    let payload = vec![b'x'; 256];
    serial.push_rx(b"+IPD,0,256:");
    serial.push_rx(&payload);
    assert_eq!(handler.poll(&mut serial), None);
    assert!(handler.get_client_next_msg(0).is_none());
}
