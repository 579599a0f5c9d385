use esp01::handler::EspWifiHandler;
use esp01::ip::{EspIp, EspIpConfig};
use esp01::serial::ScriptedSerial;
use esp01::wifi::{EspApConfig, EspWifiConfig, SsidPassword, WifiEncryption};

fn sta_config(ip: EspIpConfig) -> EspWifiConfig {
    EspWifiConfig::Sta {
        ssid_password: SsidPassword { ssid: String::from("net"), password: String::from("pass") },
        ip,
        tcp_port: 1080,
    }
}

fn ap_config(ip: EspIpConfig) -> EspWifiConfig {
    EspWifiConfig::Ap {
        ap_config: EspApConfig {
            wifi: SsidPassword { ssid: String::from("host"), password: String::from("secret12") },
            chanel_id: 5,
            encryption: WifiEncryption::Wpa2Psk,
            max_sta_nb: 4,
            hide_ssid: false,
        },
        ip,
        tcp_port: 333,
    }
}

fn apsta_config(sta_ip: EspIpConfig, ap_ip: EspIpConfig) -> EspWifiConfig {
    EspWifiConfig::ApSta {
        sta_config: SsidPassword { ssid: String::from("net"), password: String::from("pass") },
        sta_ip,
        ap_config: EspApConfig {
            wifi: SsidPassword { ssid: String::from("host"), password: String::from("secret12") },
            chanel_id: 5,
            encryption: WifiEncryption::Wpa2Psk,
            max_sta_nb: 4,
            hide_ssid: false,
        },
        ap_ip,
        tcp_port: 333,
    }
}

fn static_ip() -> EspIpConfig {
    EspIpConfig::Static {
        ip: EspIp { ip: [10, 0, 0, 2], gw: [10, 0, 0, 1], mask: [255, 255, 255, 0] },
    }
}

struct Driver {
    handler: EspWifiHandler<ScriptedSerial>,
    now: u64,
}

impl Driver {
    fn new(config: EspWifiConfig) -> Driver {
        Driver { handler: EspWifiHandler::new(ScriptedSerial::new(), config, 64), now: 0 }
    }

    /// One tick, a millisecond later.
    fn tick(&mut self) -> bool {
        self.now += 1_000;
        self.handler.update(self.now)
    }

    fn rx(&mut self, bytes: &[u8]) {
        self.handler.serial_mut().push_rx(bytes);
    }

    fn take_tx(&mut self) -> Vec<u8> {
        self.handler.serial_mut().take_tx()
    }

    /// The pending command goes out on this tick, and nothing comes back.
    fn expect_cmd(&mut self, line: &[u8]) {
        assert!(!self.tick());
        assert_eq!(self.take_tx(), line.to_vec());
    }

    /// Feeds one response line; the tick that reads it must make progress
    /// without writing anything.
    fn feed(&mut self, resp: &[u8]) {
        self.rx(resp);
        assert!(self.tick());
        assert_eq!(self.take_tx(), Vec::<u8>::new());
    }

    /// Feeds one response line whose event writes `line` in the same tick.
    fn feed_expect_write(&mut self, resp: &[u8], line: &[u8]) {
        self.rx(resp);
        assert!(self.tick());
        assert_eq!(self.take_tx(), line.to_vec());
    }
}

/// Runs the shared head of every bring-up: reset and mode select.
fn bring_up_head(driver: &mut Driver, mode: &[u8]) {
    driver.expect_cmd(b"AT+RST\r\n");
    driver.feed(b"OK\r\n");
    driver.feed(b"ready\r\n");
    driver.expect_cmd(mode);
    driver.feed(b"OK\r\n");
}

fn ready_sta_dhcp() -> Driver {
    let mut driver = Driver::new(sta_config(EspIpConfig::Dhcp));
    bring_up_head(&mut driver, b"AT+CWMODE=1\r\n");
    driver.expect_cmd(b"AT+CWJAP=\"net\",\"pass\"\r\n");
    driver.feed(b"OK\r\n");
    driver.feed(b"WIFI CONNECTED\r\n");
    driver.feed(b"WIFI GOT IP\r\n");
    driver.expect_cmd(b"AT+CIPMUX=1\r\n");
    driver.feed(b"OK\r\n");
    driver.expect_cmd(b"AT+CIPSERVER=1,1080\r\n");
    driver.feed(b"OK\r\n");
    assert!(driver.handler.is_ready());
    driver
}

#[test]
fn bring_up_station_dhcp() {
    ready_sta_dhcp();
}

#[test]
fn bring_up_station_static() {
    let mut driver = Driver::new(sta_config(static_ip()));
    bring_up_head(&mut driver, b"AT+CWMODE=1\r\n");
    driver.expect_cmd(b"AT+CWJAP=\"net\",\"pass\"\r\n");
    driver.feed(b"OK\r\n");
    driver.feed(b"WIFI CONNECTED\r\n");
    driver.expect_cmd(b"AT+CIPSTA=\"10.0.0.2\",\"10.0.0.1\",\"255.255.255.0\"\r\n");
    driver.feed(b"OK\r\n");
    driver.expect_cmd(b"AT+CIPMUX=1\r\n");
    driver.feed(b"OK\r\n");
    driver.expect_cmd(b"AT+CIPSERVER=1,1080\r\n");
    driver.feed(b"OK\r\n");
    assert!(driver.handler.is_ready());
}

#[test]
fn bring_up_access_point_dhcp() {
    let mut driver = Driver::new(ap_config(EspIpConfig::Dhcp));
    bring_up_head(&mut driver, b"AT+CWMODE=2\r\n");
    driver.expect_cmd(b"AT+CWSAP=\"host\",\"secret12\",5,3,4,0\r\n");
    driver.feed(b"OK\r\n");
    driver.expect_cmd(b"AT+CIPMUX=1\r\n");
    driver.feed(b"OK\r\n");
    driver.expect_cmd(b"AT+CIPSERVER=1,333\r\n");
    driver.feed(b"OK\r\n");
    assert!(driver.handler.is_ready());
}

#[test]
fn bring_up_access_point_static() {
    let mut driver = Driver::new(ap_config(static_ip()));
    bring_up_head(&mut driver, b"AT+CWMODE=2\r\n");
    driver.expect_cmd(b"AT+CWSAP=\"host\",\"secret12\",5,3,4,0\r\n");
    driver.feed(b"OK\r\n");
    driver.expect_cmd(b"AT+CIPAP=\"10.0.0.2\",\"10.0.0.1\",\"255.255.255.0\"\r\n");
    driver.feed(b"OK\r\n");
    driver.expect_cmd(b"AT+CIPMUX=1\r\n");
    driver.feed(b"OK\r\n");
    driver.expect_cmd(b"AT+CIPSERVER=1,333\r\n");
    driver.feed(b"OK\r\n");
    assert!(driver.handler.is_ready());
}

#[test]
fn bring_up_station_and_access_point() {
    let mut driver = Driver::new(apsta_config(EspIpConfig::Dhcp, EspIpConfig::Dhcp));
    bring_up_head(&mut driver, b"AT+CWMODE=3\r\n");
    driver.expect_cmd(b"AT+CWJAP=\"net\",\"pass\"\r\n");
    driver.feed(b"OK\r\n");
    driver.feed(b"WIFI CONNECTED\r\n");
    driver.feed(b"WIFI GOT IP\r\n");
    driver.expect_cmd(b"AT+CWSAP=\"host\",\"secret12\",5,3,4,0\r\n");
    driver.feed(b"OK\r\n");
    driver.expect_cmd(b"AT+CIPMUX=1\r\n");
    driver.feed(b"OK\r\n");
    driver.expect_cmd(b"AT+CIPSERVER=1,333\r\n");
    driver.feed(b"OK\r\n");
    assert!(driver.handler.is_ready());
}

#[test]
fn bring_up_station_and_access_point_static() {
    let mut driver = Driver::new(apsta_config(static_ip(), static_ip()));
    bring_up_head(&mut driver, b"AT+CWMODE=3\r\n");
    driver.expect_cmd(b"AT+CWJAP=\"net\",\"pass\"\r\n");
    driver.feed(b"OK\r\n");
    driver.feed(b"WIFI CONNECTED\r\n");
    driver.expect_cmd(b"AT+CIPSTA=\"10.0.0.2\",\"10.0.0.1\",\"255.255.255.0\"\r\n");
    driver.feed(b"OK\r\n");
    driver.expect_cmd(b"AT+CWSAP=\"host\",\"secret12\",5,3,4,0\r\n");
    driver.feed(b"OK\r\n");
    driver.expect_cmd(b"AT+CIPAP=\"10.0.0.2\",\"10.0.0.1\",\"255.255.255.0\"\r\n");
    driver.feed(b"OK\r\n");
    driver.expect_cmd(b"AT+CIPMUX=1\r\n");
    driver.feed(b"OK\r\n");
    driver.expect_cmd(b"AT+CIPSERVER=1,333\r\n");
    driver.feed(b"OK\r\n");
    assert!(driver.handler.is_ready());
}

#[test]
fn error_in_a_bring_up_phase_resends_the_same_line_once() {
    let mut driver = Driver::new(sta_config(EspIpConfig::Dhcp));
    bring_up_head(&mut driver, b"AT+CWMODE=1\r\n");
    driver.expect_cmd(b"AT+CWJAP=\"net\",\"pass\"\r\n");
    driver.rx(b"ERROR\r\n");
    assert!(driver.tick());
    assert_eq!(driver.take_tx(), Vec::<u8>::new());
    // exactly one resend of the identical line on the next tick
    assert!(!driver.tick());
    assert_eq!(driver.take_tx(), b"AT+CWJAP=\"net\",\"pass\"\r\n".to_vec());
    assert!(!driver.tick());
    assert_eq!(driver.take_tx(), Vec::<u8>::new());
    // the retried command can still succeed
    driver.feed(b"OK\r\n");
}

#[test]
fn fail_in_a_bring_up_phase_resends_the_same_line_once() {
    let mut driver = Driver::new(ap_config(EspIpConfig::Dhcp));
    bring_up_head(&mut driver, b"AT+CWMODE=2\r\n");
    driver.expect_cmd(b"AT+CWSAP=\"host\",\"secret12\",5,3,4,0\r\n");
    driver.rx(b"FAIL\r\n");
    assert!(driver.tick());
    assert!(!driver.tick());
    assert_eq!(driver.take_tx(), b"AT+CWSAP=\"host\",\"secret12\",5,3,4,0\r\n".to_vec());
    assert!(!driver.tick());
    assert_eq!(driver.take_tx(), Vec::<u8>::new());
}

#[test]
fn silence_past_the_window_resends_the_same_line() {
    let mut driver = Driver::new(sta_config(EspIpConfig::Dhcp));
    bring_up_head(&mut driver, b"AT+CWMODE=1\r\n");
    driver.expect_cmd(b"AT+CWJAP=\"net\",\"pass\"\r\n");
    for _ in 0..3 {
        // the window passes with no response: the timestamp is dropped
        driver.now += 10_000_001;
        assert!(!driver.handler.update(driver.now));
        assert_eq!(driver.take_tx(), Vec::<u8>::new());
        // and the identical line goes out once on the next tick
        assert!(!driver.tick());
        assert_eq!(driver.take_tx(), b"AT+CWJAP=\"net\",\"pass\"\r\n".to_vec());
        assert!(!driver.tick());
        assert_eq!(driver.take_tx(), Vec::<u8>::new());
    }
    driver.feed(b"OK\r\n");
    driver.feed(b"WIFI CONNECTED\r\n");
}

#[test]
fn connect_tracks_a_client_exactly_once() {
    let mut driver = ready_sta_dhcp();
    driver.feed(b"0,CONNECT\r\n");
    assert!(driver.handler.client_is_connected(0));
    assert_eq!(driver.handler.connected_count(), 1);
    driver.feed(b"0,CONNECT\r\n");
    assert_eq!(driver.handler.connected_count(), 1);
}

#[test]
fn close_for_an_untracked_client_is_a_no_op() {
    let mut driver = ready_sta_dhcp();
    driver.feed(b"0,CLOSED\r\n");
    assert_eq!(driver.handler.connected_count(), 0);
    assert!(driver.handler.is_ready());
}

#[test]
fn close_untracks_a_connected_client() {
    let mut driver = ready_sta_dhcp();
    driver.feed(b"0,CONNECT\r\n");
    assert!(driver.handler.client_is_connected(0));
    driver.feed(b"0,CLOSED\r\n");
    assert!(!driver.handler.client_is_connected(0));
}

#[test]
fn client_message_reaches_the_caller_once() {
    let mut driver = ready_sta_dhcp();
    driver.feed(b"0,CONNECT\r\n");
    driver.feed(b"\r\n+IPD,0,5:hello");
    let msg = driver.handler.get_client_next_msg(0).expect("queued payload");
    assert_eq!(msg.get_buff_slice(), b"hello");
    assert!(driver.handler.get_client_next_msg(0).is_none());
}

#[test]
fn send_handshake_walks_both_phases() {
    let mut driver = ready_sta_dhcp();
    driver.feed(b"0,CONNECT\r\n");
    driver.handler.send_buff_to_client(0, b"hi");
    assert!(!driver.handler.is_ready());
    driver.expect_cmd(b"AT+CIPSEND=0,2\r\n");
    // the acknowledgment opens phase two: the raw payload goes out verbatim
    driver.feed_expect_write(b"OK\r\n", b"hi");
    driver.feed(b"SEND OK\r\n");
    assert!(driver.handler.is_ready());
}

#[test]
fn error_while_ready_resets_the_session() {
    let mut driver = ready_sta_dhcp();
    driver.feed(b"ERROR\r\n");
    assert!(!driver.handler.is_ready());
    driver.expect_cmd(b"AT+RST\r\n");
}

#[test]
fn station_loss_while_ready_resets_the_session() {
    let mut driver = ready_sta_dhcp();
    driver.feed(b"WIFI DISCONNECT\r\n");
    assert!(!driver.handler.is_ready());
    driver.expect_cmd(b"AT+RST\r\n");
}

#[test]
fn failure_while_awaiting_the_ready_banner_restarts_the_reset() {
    let mut driver = Driver::new(sta_config(EspIpConfig::Dhcp));
    driver.expect_cmd(b"AT+RST\r\n");
    driver.feed(b"OK\r\n");
    driver.feed(b"ERROR\r\n");
    driver.expect_cmd(b"AT+RST\r\n");
}

#[test]
fn silence_while_awaiting_the_ready_banner_restarts_the_reset() {
    let mut driver = Driver::new(sta_config(EspIpConfig::Dhcp));
    driver.expect_cmd(b"AT+RST\r\n");
    driver.feed(b"OK\r\n");
    driver.now += 10_000_001;
    assert!(driver.handler.update(driver.now));
    driver.expect_cmd(b"AT+RST\r\n");
}
