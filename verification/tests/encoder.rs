use esp01::cmd::{encode, EspCmd};
use esp01::ip::{EspIp, EspIpConfig};
use esp01::serial::{EspSerial, ScriptedSerial};
use esp01::wifi::{EspApConfig, EspWifiConfig, SsidPassword, WifiEncryption};

fn sta_config(ip: EspIpConfig) -> EspWifiConfig {
    EspWifiConfig::Sta {
        ssid_password: SsidPassword { ssid: String::from("net"), password: String::from("pass") },
        ip,
        tcp_port: 1080,
    }
}

fn ap_config(ip: EspIpConfig) -> EspWifiConfig {
    EspWifiConfig::Ap {
        ap_config: EspApConfig {
            wifi: SsidPassword { ssid: String::from("host"), password: String::from("secret12") },
            chanel_id: 5,
            encryption: WifiEncryption::Wpa2Psk,
            max_sta_nb: 4,
            hide_ssid: false,
        },
        ip,
        tcp_port: 333,
    }
}

fn static_ip() -> EspIpConfig {
    EspIpConfig::Static {
        ip: EspIp {
            ip: [192, 168, 4, 1],
            gw: [192, 168, 4, 254],
            mask: [255, 255, 255, 0],
        },
    }
}

#[test]
fn join_network_line_round_trip() {
    let cfg = sta_config(EspIpConfig::Dhcp);
    let line = encode(&EspCmd::StaJoinAp, &cfg).unwrap();
    assert_eq!(line, b"AT+CWJAP=\"net\",\"pass\"\r\n".to_vec());
}

#[test]
fn reset_line() {
    let cfg = sta_config(EspIpConfig::Dhcp);
    assert_eq!(encode(&EspCmd::Reset, &cfg).unwrap(), b"AT+RST\r\n".to_vec());
}

#[test]
fn mode_line_follows_variant() {
    assert_eq!(
        encode(&EspCmd::WifiMode, &sta_config(EspIpConfig::Dhcp)).unwrap(),
        b"AT+CWMODE=1\r\n".to_vec()
    );
    assert_eq!(
        encode(&EspCmd::WifiMode, &ap_config(EspIpConfig::Dhcp)).unwrap(),
        b"AT+CWMODE=2\r\n".to_vec()
    );
    let both = EspWifiConfig::ApSta {
        sta_config: SsidPassword { ssid: String::from("n"), password: String::from("p") },
        sta_ip: EspIpConfig::Dhcp,
        ap_config: EspApConfig {
            wifi: SsidPassword { ssid: String::from("h"), password: String::from("q") },
            chanel_id: 1,
            encryption: WifiEncryption::Open,
            max_sta_nb: 1,
            hide_ssid: true,
        },
        ap_ip: EspIpConfig::Dhcp,
        tcp_port: 1,
    };
    assert_eq!(encode(&EspCmd::WifiMode, &both).unwrap(), b"AT+CWMODE=3\r\n".to_vec());
}

#[test]
fn host_network_line() {
    let cfg = ap_config(EspIpConfig::Dhcp);
    assert_eq!(
        encode(&EspCmd::ApConfig, &cfg).unwrap(),
        b"AT+CWSAP=\"host\",\"secret12\",5,3,4,0\r\n".to_vec()
    );
}

#[test]
fn hidden_ssid_renders_one() {
    let cfg = EspWifiConfig::Ap {
        ap_config: EspApConfig {
            wifi: SsidPassword { ssid: String::from("h"), password: String::from("pw") },
            chanel_id: 11,
            encryption: WifiEncryption::WpaWpa2Psk,
            max_sta_nb: 2,
            hide_ssid: true,
        },
        ip: EspIpConfig::Dhcp,
        tcp_port: 9,
    };
    assert_eq!(
        encode(&EspCmd::ApConfig, &cfg).unwrap(),
        b"AT+CWSAP=\"h\",\"pw\",11,4,2,1\r\n".to_vec()
    );
}

#[test]
fn station_static_ip_line() {
    let cfg = sta_config(static_ip());
    assert_eq!(
        encode(&EspCmd::StaIpConfig, &cfg).unwrap(),
        b"AT+CIPSTA=\"192.168.4.1\",\"192.168.4.254\",\"255.255.255.0\"\r\n".to_vec()
    );
}

#[test]
fn access_point_static_ip_line() {
    let cfg = ap_config(static_ip());
    assert_eq!(
        encode(&EspCmd::ApIpConfig, &cfg).unwrap(),
        b"AT+CIPAP=\"192.168.4.1\",\"192.168.4.254\",\"255.255.255.0\"\r\n".to_vec()
    );
}

#[test]
fn multiplex_lines() {
    let cfg = sta_config(EspIpConfig::Dhcp);
    assert_eq!(encode(&EspCmd::EnableMultiCnx, &cfg).unwrap(), b"AT+CIPMUX=1\r\n".to_vec());
    assert_eq!(encode(&EspCmd::DisableMultiCnx, &cfg).unwrap(), b"AT+CIPMUX=0\r\n".to_vec());
}

#[test]
fn listener_lines_carry_port() {
    let cfg = sta_config(EspIpConfig::Dhcp);
    assert_eq!(
        encode(&EspCmd::CreateTcpServer, &cfg).unwrap(),
        b"AT+CIPSERVER=1,1080\r\n".to_vec()
    );
    assert_eq!(
        encode(&EspCmd::DeleteTcpServer, &cfg).unwrap(),
        b"AT+CIPSERVER=0,1080\r\n".to_vec()
    );
}

#[test]
fn begin_send_line() {
    let cfg = sta_config(EspIpConfig::Dhcp);
    assert_eq!(
        encode(&EspCmd::StartMsgSend { client_id: 0, msg_len: 5 }, &cfg).unwrap(),
        b"AT+CIPSEND=0,5\r\n".to_vec()
    );
    assert_eq!(
        encode(&EspCmd::StartMsgSend { client_id: 3, msg_len: 200 }, &cfg).unwrap(),
        b"AT+CIPSEND=3,200\r\n".to_vec()
    );
}

#[test]
fn commands_without_their_config_part_encode_nothing() {
    assert!(encode(&EspCmd::StaJoinAp, &ap_config(EspIpConfig::Dhcp)).is_none());
    assert!(encode(&EspCmd::ApConfig, &sta_config(EspIpConfig::Dhcp)).is_none());
    assert!(encode(&EspCmd::StaIpConfig, &sta_config(EspIpConfig::Dhcp)).is_none());
    assert!(encode(&EspCmd::ApIpConfig, &ap_config(EspIpConfig::Dhcp)).is_none());
}

#[test]
fn send_writes_the_line_through_the_transport() {
    let cfg = sta_config(EspIpConfig::Dhcp);
    let mut serial = ScriptedSerial::new();
    assert!(EspCmd::Reset.send(&mut serial, &cfg));
    assert_eq!(serial.tx_data().as_slice(), b"AT+RST\r\n");
}

#[test]
fn refused_write_leaves_the_transport_untouched() {
    let cfg = sta_config(EspIpConfig::Dhcp);
    let mut serial = ScriptedSerial::new();
    serial.set_accept_writes(false);
    assert!(!EspCmd::Reset.send(&mut serial, &cfg));
    assert!(serial.tx_data().is_empty());
}

#[test]
fn scripted_serial_hands_bytes_back_in_order() {
    let mut serial = ScriptedSerial::new();
    serial.push_rx(b"ab");
    assert_eq!(serial.try_get_byte(), Some(b'a'));
    assert_eq!(serial.try_get_byte(), Some(b'b'));
    assert_eq!(serial.try_get_byte(), None);
}
