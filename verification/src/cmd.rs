//! The command encoder: the exact outbound line for each command descriptor,
//! and the write of that line through the transport.

use vstd::prelude::*;
use vstd::string::StringSliceAdditionalSpecFns;
use vstd::utf8::encode_utf8;

use crate::serial::EspSerial;
use crate::wifi::EspWifiConfig;

verus! {

/// A command descriptor: which request to put on the wire.
#[derive(Debug, Clone, Copy, PartialEq, Eq, Structural)]
pub enum EspCmd {
    Reset,
    WifiMode,
    StaJoinAp,
    ApConfig,
    StaIpConfig,
    ApIpConfig,
    EnableMultiCnx,
    DisableMultiCnx,
    CreateTcpServer,
    DeleteTcpServer,
    StartMsgSend { client_id: u8, msg_len: u8 },
}

/// Decimal ASCII digits of `n`, most significant first, no leading zeros.
pub open spec fn dec_digits(n: nat) -> Seq<u8>
    decreases n,
{
    if n < 10 {
        seq![(48 + n) as u8]
    } else {
        dec_digits(n / 10) + seq![(48 + n % 10) as u8]
    }
}

/// The UTF-8 bytes of a piece of text embedded in a command line.
pub open spec fn text_bytes(s: Seq<char>) -> Seq<u8> {
    encode_utf8(s)
}

/// The text wrapped in double quotes, verbatim: nothing inside is escaped.
pub open spec fn quoted(s: Seq<u8>) -> Seq<u8> {
    seq![34u8] + s + seq![34u8]
}

/// Dotted decimal of four octets, as in `192.168.0.1`.
pub open spec fn dotted_quad(q: [u8; 4]) -> Seq<u8> {
    dec_digits(q@[0] as nat) + seq![46u8] + dec_digits(q@[1] as nat) + seq![46u8] + dec_digits(
        q@[2] as nat,
    ) + seq![46u8] + dec_digits(q@[3] as nat)
}

/// The three quoted dotted quads of a static address assignment:
/// `"<ip>","<gw>","<mask>"`.
pub open spec fn ip_triple(ip: crate::ip::EspIp) -> Seq<u8> {
    quoted(dotted_quad(ip.ip)) + seq![44u8] + quoted(dotted_quad(ip.gw)) + seq![44u8] + quoted(
        dotted_quad(ip.mask),
    )
}

/// The exact outbound line for a command under a configuration, ending in
/// CR LF; `None` when the configuration lacks the part the command needs.
pub open spec fn cmd_line(cmd: EspCmd, config: EspWifiConfig) -> Option<Seq<u8>> {
    match cmd {
        EspCmd::Reset => Some("AT+RST\r\n".spec_bytes()),
        EspCmd::WifiMode => Some(
            "AT+CWMODE=".spec_bytes() + dec_digits(config.spec_mode().spec_ordinal() as nat)
                + "\r\n".spec_bytes(),
        ),
        EspCmd::StaJoinAp => match config.spec_sta_wifi_config() {
            Some(sp) => Some(
                "AT+CWJAP=".spec_bytes() + quoted(text_bytes(sp.ssid@)) + seq![44u8] + quoted(
                    text_bytes(sp.password@),
                ) + "\r\n".spec_bytes(),
            ),
            None => None,
        },
        EspCmd::ApConfig => match config.spec_ap_wifi_config() {
            Some(ap) => Some(
                "AT+CWSAP=".spec_bytes() + quoted(text_bytes(ap.wifi.ssid@)) + seq![44u8] + quoted(
                    text_bytes(ap.wifi.password@),
                ) + seq![44u8] + dec_digits(ap.chanel_id as nat) + seq![44u8] + dec_digits(
                    ap.encryption.spec_ordinal() as nat,
                ) + seq![44u8] + dec_digits(ap.max_sta_nb as nat) + seq![44u8] + dec_digits(
                    (if ap.hide_ssid {
                        1nat
                    } else {
                        0nat
                    }),
                ) + "\r\n".spec_bytes(),
            ),
            None => None,
        },
        EspCmd::StaIpConfig => match config.spec_sta_ip() {
            Some(ip) => Some("AT+CIPSTA=".spec_bytes() + ip_triple(ip) + "\r\n".spec_bytes()),
            None => None,
        },
        EspCmd::ApIpConfig => match config.spec_ap_ip() {
            Some(ip) => Some("AT+CIPAP=".spec_bytes() + ip_triple(ip) + "\r\n".spec_bytes()),
            None => None,
        },
        EspCmd::EnableMultiCnx => Some("AT+CIPMUX=1\r\n".spec_bytes()),
        EspCmd::DisableMultiCnx => Some("AT+CIPMUX=0\r\n".spec_bytes()),
        EspCmd::CreateTcpServer => Some(
            "AT+CIPSERVER=1,".spec_bytes() + dec_digits(config.spec_tcp_port() as nat)
                + "\r\n".spec_bytes(),
        ),
        EspCmd::DeleteTcpServer => Some(
            "AT+CIPSERVER=0,".spec_bytes() + dec_digits(config.spec_tcp_port() as nat)
                + "\r\n".spec_bytes(),
        ),
        EspCmd::StartMsgSend { client_id, msg_len } => Some(
            "AT+CIPSEND=".spec_bytes() + dec_digits(client_id as nat) + seq![44u8] + dec_digits(
                msg_len as nat,
            ) + "\r\n".spec_bytes(),
        ),
    }
}

/// Appends the bytes of a string literal.
fn push_lit(out: &mut Vec<u8>, s: &str)
    ensures
        final(out)@ == old(out)@ + s.spec_bytes(),
{
    out.extend_from_slice(s.as_bytes());
}

/// Appends the decimal digits of `n`, no leading zeros.
fn push_dec(out: &mut Vec<u8>, n: u16)
    ensures
        final(out)@ == old(out)@ + dec_digits(n as nat),
    decreases n,
{
    if n < 10 {
        out.push(48 + n as u8);
        assert(final(out)@ =~= old(out)@ + dec_digits(n as nat));
    } else {
        push_dec(out, n / 10);
        out.push(48 + (n % 10) as u8);
        assert(final(out)@ =~= old(out)@ + dec_digits(n as nat));
    }
}

/// Appends the text between double quotes, verbatim.
fn push_quoted(out: &mut Vec<u8>, s: &str)
    ensures
        final(out)@ == old(out)@ + quoted(s.spec_bytes()),
{
    out.push(34);
    push_lit(out, s);
    out.push(34);
    assert(final(out)@ =~= old(out)@ + quoted(s.spec_bytes()));
}

/// Appends four octets in dotted decimal.
fn push_quad(out: &mut Vec<u8>, q: &[u8; 4])
    ensures
        final(out)@ == old(out)@ + dotted_quad(*q),
{
    push_dec(out, q[0] as u16);
    out.push(46);
    push_dec(out, q[1] as u16);
    out.push(46);
    push_dec(out, q[2] as u16);
    out.push(46);
    push_dec(out, q[3] as u16);
    assert(final(out)@ =~= old(out)@ + dotted_quad(*q));
}

/// Appends the three quoted dotted quads of a static assignment.
fn push_ip_triple(out: &mut Vec<u8>, ip: &crate::ip::EspIp)
    ensures
        final(out)@ == old(out)@ + ip_triple(*ip),
{
    out.push(34);
    push_quad(out, &ip.ip);
    out.push(34);
    out.push(44);
    out.push(34);
    push_quad(out, &ip.gw);
    out.push(34);
    out.push(44);
    out.push(34);
    push_quad(out, &ip.mask);
    out.push(34);
    assert(final(out)@ =~= old(out)@ + ip_triple(*ip));
}

/// The encoded line for `cmd` under `config`, `None` when the configuration
/// lacks the part the command needs.
pub fn encode(cmd: &EspCmd, config: &EspWifiConfig) -> (r: Option<Vec<u8>>)
    ensures
        match r {
            Some(v) => cmd_line(*cmd, *config) == Some(v@),
            None => cmd_line(*cmd, *config) is None,
        },
{
    let mut out: Vec<u8> = Vec::new();
    match cmd {
        EspCmd::Reset => {
            push_lit(&mut out, "AT+RST\r\n");
            assert(out@ =~= cmd_line(*cmd, *config).unwrap());
            Some(out)
        },
        EspCmd::WifiMode => {
            push_lit(&mut out, "AT+CWMODE=");
            push_dec(&mut out, config.get_mode().ordinal() as u16);
            push_lit(&mut out, "\r\n");
            assert(out@ =~= cmd_line(*cmd, *config).unwrap());
            Some(out)
        },
        EspCmd::StaJoinAp => {
            match config.get_sta_wifi_config() {
                Some(sp) => {
                    push_lit(&mut out, "AT+CWJAP=");
                    push_quoted(&mut out, sp.ssid.as_str());
                    out.push(44);
                    push_quoted(&mut out, sp.password.as_str());
                    push_lit(&mut out, "\r\n");
                    assert(out@ =~= cmd_line(*cmd, *config).unwrap());
                    Some(out)
                },
                None => None,
            }
        },
        EspCmd::ApConfig => {
            match config.get_ap_wifi_config() {
                Some(ap) => {
                    push_lit(&mut out, "AT+CWSAP=");
                    push_quoted(&mut out, ap.wifi.ssid.as_str());
                    out.push(44);
                    push_quoted(&mut out, ap.wifi.password.as_str());
                    out.push(44);
                    push_dec(&mut out, ap.chanel_id as u16);
                    out.push(44);
                    push_dec(&mut out, ap.encryption.ordinal() as u16);
                    out.push(44);
                    push_dec(&mut out, ap.max_sta_nb as u16);
                    out.push(44);
                    if ap.hide_ssid {
                        push_dec(&mut out, 1);
                    } else {
                        push_dec(&mut out, 0);
                    }
                    push_lit(&mut out, "\r\n");
                    assert(out@ =~= cmd_line(*cmd, *config).unwrap());
                    Some(out)
                },
                None => None,
            }
        },
        EspCmd::StaIpConfig => {
            match config.get_sta_ip() {
                Some(ip) => {
                    push_lit(&mut out, "AT+CIPSTA=");
                    push_ip_triple(&mut out, ip);
                    push_lit(&mut out, "\r\n");
                    assert(out@ =~= cmd_line(*cmd, *config).unwrap());
                    Some(out)
                },
                None => None,
            }
        },
        EspCmd::ApIpConfig => {
            match config.get_ap_ip() {
                Some(ip) => {
                    push_lit(&mut out, "AT+CIPAP=");
                    push_ip_triple(&mut out, ip);
                    push_lit(&mut out, "\r\n");
                    assert(out@ =~= cmd_line(*cmd, *config).unwrap());
                    Some(out)
                },
                None => None,
            }
        },
        EspCmd::EnableMultiCnx => {
            push_lit(&mut out, "AT+CIPMUX=1\r\n");
            assert(out@ =~= cmd_line(*cmd, *config).unwrap());
            Some(out)
        },
        EspCmd::DisableMultiCnx => {
            push_lit(&mut out, "AT+CIPMUX=0\r\n");
            assert(out@ =~= cmd_line(*cmd, *config).unwrap());
            Some(out)
        },
        EspCmd::CreateTcpServer => {
            push_lit(&mut out, "AT+CIPSERVER=1,");
            push_dec(&mut out, config.get_tcp_server_port());
            push_lit(&mut out, "\r\n");
            assert(out@ =~= cmd_line(*cmd, *config).unwrap());
            Some(out)
        },
        EspCmd::DeleteTcpServer => {
            push_lit(&mut out, "AT+CIPSERVER=0,");
            push_dec(&mut out, config.get_tcp_server_port());
            push_lit(&mut out, "\r\n");
            assert(out@ =~= cmd_line(*cmd, *config).unwrap());
            Some(out)
        },
        EspCmd::StartMsgSend { client_id, msg_len } => {
            push_lit(&mut out, "AT+CIPSEND=");
            push_dec(&mut out, *client_id as u16);
            out.push(44);
            push_dec(&mut out, *msg_len as u16);
            push_lit(&mut out, "\r\n");
            assert(out@ =~= cmd_line(*cmd, *config).unwrap());
            Some(out)
        },
    }
}

impl EspCmd {
    /// Encodes the command and writes the line through the transport in one
    /// call. `false` when the configuration lacks the needed part or the
    /// transport refused the write; the caller retries the same descriptor.
    pub fn send<S: EspSerial>(&self, serial_h: &mut S, config: &EspWifiConfig) -> (ok: bool)
        ensures
            match cmd_line(*self, *config) {
                Some(line) => {
                    &&& ok == old(serial_h).accepts_writes()
                    &&& ok ==> final(serial_h).tx_bytes() == old(serial_h).tx_bytes() + line
                    &&& !ok ==> final(serial_h).tx_bytes() == old(serial_h).tx_bytes()
                },
                None => !ok && final(serial_h).tx_bytes() == old(serial_h).tx_bytes(),
            },
            final(serial_h).rx_queued() == old(serial_h).rx_queued(),
            final(serial_h).accepts_writes() == old(serial_h).accepts_writes(),
    {
        match encode(self, config) {
            Some(line) => serial_h.write_bytes(line.as_slice()),
            None => false,
        }
    }
}

} // verus!
