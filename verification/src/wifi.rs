//! The session configuration: station and access-point parameters.

use vstd::prelude::*;

use crate::ip::{EspIp, EspIpConfig};

verus! {

/// Operating mode of the co-processor's radio.
#[derive(Debug, Clone, Copy, PartialEq, Eq, Structural)]
pub enum EspWifiMode {
    Sta,
    SoftAp,
    SoftApAndSta,
}

impl EspWifiMode {
    /// The numeric ordinal the mode-select command carries.
    pub open spec fn spec_ordinal(&self) -> u8 {
        match *self {
            EspWifiMode::Sta => 1,
            EspWifiMode::SoftAp => 2,
            EspWifiMode::SoftApAndSta => 3,
        }
    }

    pub fn ordinal(&self) -> (r: u8)
        ensures
            r == self.spec_ordinal(),
    {
        match *self {
            EspWifiMode::Sta => 1,
            EspWifiMode::SoftAp => 2,
            EspWifiMode::SoftApAndSta => 3,
        }
    }
}

/// Credentials of a network: the name and the passphrase, embedded verbatim
/// in command lines (no escaping of quotes or control characters).
#[derive(Debug, Clone, PartialEq, Eq)]
pub struct SsidPassword {
    pub ssid: String,
    pub password: String,
}

/// Encryption scheme of a hosted network.
#[derive(Debug, Clone, Copy, PartialEq, Eq, Structural)]
pub enum WifiEncryption {
    Open,
    WpaPsk,
    Wpa2Psk,
    /// Both WPA PSK and WPA2 PSK encryption modes.
    WpaWpa2Psk,
}

impl WifiEncryption {
    /// The numeric ordinal the host-network command carries.
    pub open spec fn spec_ordinal(&self) -> u8 {
        match *self {
            WifiEncryption::Open => 0,
            WifiEncryption::WpaPsk => 2,
            WifiEncryption::Wpa2Psk => 3,
            WifiEncryption::WpaWpa2Psk => 4,
        }
    }

    pub fn ordinal(&self) -> (r: u8)
        ensures
            r == self.spec_ordinal(),
    {
        match *self {
            WifiEncryption::Open => 0,
            WifiEncryption::WpaPsk => 2,
            WifiEncryption::Wpa2Psk => 3,
            WifiEncryption::WpaWpa2Psk => 4,
        }
    }
}

/// Parameters of a hosted (access-point) network.
#[derive(Debug, Clone, PartialEq, Eq)]
pub struct EspApConfig {
    pub wifi: SsidPassword,
    pub chanel_id: u8,
    pub encryption: WifiEncryption,
    /// Maximum count of stations allowed to connect to the hosted network.
    pub max_sta_nb: u8,
    pub hide_ssid: bool,
}

/// The configuration of one session: join a network, host one, or both.
/// It is read, never mutated, for the session's lifetime.
#[derive(Debug, PartialEq, Eq)]
pub enum EspWifiConfig {
    Sta { ssid_password: SsidPassword, ip: EspIpConfig, tcp_port: u16 },
    Ap { ap_config: EspApConfig, ip: EspIpConfig, tcp_port: u16 },
    ApSta {
        sta_config: SsidPassword,
        sta_ip: EspIpConfig,
        ap_config: EspApConfig,
        ap_ip: EspIpConfig,
        tcp_port: u16,
    },
}

impl EspWifiConfig {
    /// Whether the configuration has a station side to bring up.
    pub open spec fn has_sta(&self) -> bool {
        !matches!(*self, EspWifiConfig::Ap { .. })
    }

    /// Whether the configuration has an access-point side to bring up.
    pub open spec fn has_ap(&self) -> bool {
        !matches!(*self, EspWifiConfig::Sta { .. })
    }

    /// The station side's IP settings, where there is a station side.
    pub open spec fn spec_sta_ip_config(&self) -> Option<EspIpConfig> {
        match *self {
            EspWifiConfig::Sta { ip, .. } => Some(ip),
            EspWifiConfig::Ap { .. } => None,
            EspWifiConfig::ApSta { sta_ip, .. } => Some(sta_ip),
        }
    }

    /// The access-point side's IP settings, where there is one.
    pub open spec fn spec_ap_ip_config(&self) -> Option<EspIpConfig> {
        match *self {
            EspWifiConfig::Sta { .. } => None,
            EspWifiConfig::Ap { ip, .. } => Some(ip),
            EspWifiConfig::ApSta { ap_ip, .. } => Some(ap_ip),
        }
    }

    pub open spec fn spec_mode(&self) -> EspWifiMode {
        match *self {
            EspWifiConfig::Sta { .. } => EspWifiMode::Sta,
            EspWifiConfig::Ap { .. } => EspWifiMode::SoftAp,
            EspWifiConfig::ApSta { .. } => EspWifiMode::SoftApAndSta,
        }
    }

    pub fn get_mode(&self) -> (r: EspWifiMode)
        ensures
            r == self.spec_mode(),
    {
        match self {
            EspWifiConfig::Sta { .. } => EspWifiMode::Sta,
            EspWifiConfig::Ap { .. } => EspWifiMode::SoftAp,
            EspWifiConfig::ApSta { .. } => EspWifiMode::SoftApAndSta,
        }
    }

    pub open spec fn spec_sta_wifi_config(&self) -> Option<SsidPassword> {
        match *self {
            EspWifiConfig::Sta { ssid_password, .. } => Some(ssid_password),
            EspWifiConfig::Ap { .. } => None,
            EspWifiConfig::ApSta { sta_config, .. } => Some(sta_config),
        }
    }

    /// The credentials of the network to join, for configurations with a
    /// station side.
    pub fn get_sta_wifi_config(&self) -> (r: Option<&SsidPassword>)
        ensures
            match r {
                Some(s) => self.spec_sta_wifi_config() == Some(*s),
                None => self.spec_sta_wifi_config() is None,
            },
    {
        match self {
            EspWifiConfig::Sta { ssid_password, .. } => Some(ssid_password),
            EspWifiConfig::Ap { .. } => None,
            EspWifiConfig::ApSta { sta_config, .. } => Some(sta_config),
        }
    }

    pub open spec fn spec_ap_wifi_config(&self) -> Option<EspApConfig> {
        match *self {
            EspWifiConfig::Sta { .. } => None,
            EspWifiConfig::Ap { ap_config, .. } => Some(ap_config),
            EspWifiConfig::ApSta { ap_config, .. } => Some(ap_config),
        }
    }

    /// The parameters of the hosted network, for configurations with an
    /// access-point side.
    pub fn get_ap_wifi_config(&self) -> (r: Option<&EspApConfig>)
        ensures
            match r {
                Some(a) => self.spec_ap_wifi_config() == Some(*a),
                None => self.spec_ap_wifi_config() is None,
            },
    {
        match self {
            EspWifiConfig::Sta { .. } => None,
            EspWifiConfig::Ap { ap_config, .. } => Some(ap_config),
            EspWifiConfig::ApSta { ap_config, .. } => Some(ap_config),
        }
    }

    pub open spec fn spec_sta_ip(&self) -> Option<EspIp> {
        match self.spec_sta_ip_config() {
            Some(EspIpConfig::Static { ip }) => Some(ip),
            _ => None,
        }
    }

    /// The station side's static address triple, where one is configured.
    pub fn get_sta_ip(&self) -> (r: Option<&EspIp>)
        ensures
            match r {
                Some(ip) => self.spec_sta_ip() == Some(*ip),
                None => self.spec_sta_ip() is None,
            },
    {
        match self {
            EspWifiConfig::Sta { ip, .. } => {
                if let EspIpConfig::Static { ip } = ip {
                    Some(ip)
                } else {
                    None
                }
            },
            EspWifiConfig::Ap { .. } => None,
            EspWifiConfig::ApSta { sta_ip, .. } => {
                if let EspIpConfig::Static { ip } = sta_ip {
                    Some(ip)
                } else {
                    None
                }
            },
        }
    }

    pub open spec fn spec_ap_ip(&self) -> Option<EspIp> {
        match self.spec_ap_ip_config() {
            Some(EspIpConfig::Static { ip }) => Some(ip),
            _ => None,
        }
    }

    /// The access-point side's static address triple, where one is
    /// configured.
    pub fn get_ap_ip(&self) -> (r: Option<&EspIp>)
        ensures
            match r {
                Some(ip) => self.spec_ap_ip() == Some(*ip),
                None => self.spec_ap_ip() is None,
            },
    {
        match self {
            EspWifiConfig::Sta { .. } => None,
            EspWifiConfig::Ap { ip, .. } => {
                if let EspIpConfig::Static { ip } = ip {
                    Some(ip)
                } else {
                    None
                }
            },
            EspWifiConfig::ApSta { ap_ip, .. } => {
                if let EspIpConfig::Static { ip } = ap_ip {
                    Some(ip)
                } else {
                    None
                }
            },
        }
    }

    pub open spec fn spec_tcp_port(&self) -> u16 {
        match *self {
            EspWifiConfig::Sta { tcp_port, .. } => tcp_port,
            EspWifiConfig::Ap { tcp_port, .. } => tcp_port,
            EspWifiConfig::ApSta { tcp_port, .. } => tcp_port,
        }
    }

    /// The port the TCP listener is opened on.
    pub fn get_tcp_server_port(&self) -> (r: u16)
        ensures
            r == self.spec_tcp_port(),
    {
        match self {
            EspWifiConfig::Sta { tcp_port, .. } => *tcp_port,
            EspWifiConfig::Ap { tcp_port, .. } => *tcp_port,
            EspWifiConfig::ApSta { tcp_port, .. } => *tcp_port,
        }
    }
}

} // verus!
