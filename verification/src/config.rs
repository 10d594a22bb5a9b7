//! The immutable configuration consumed at startup. Reading a configuration
//! file and parsing its TOML happen in the surrounding program; the library
//! holds the resulting plain values and their defaults.

use vstd::prelude::*;

verus! {

/// Default TCP accept port.
pub const DEFAULT_TCP_PORT: u16 = 5760;

/// Default serial baud rate.
pub const DEFAULT_BAUD_RATE: u32 = 57600;

/// Default period of the periodic stats log, in seconds; zero disables it.
pub const DEFAULT_STATS_INTERVAL_SECS: u64 = 30;

/// Default window the discovery sniffer listens on a candidate device.
pub const DEFAULT_DETECTION_TIMEOUT_SECS: u64 = 5;

/// Default period between discovery scans.
pub const DEFAULT_RESCAN_INTERVAL_SECS: u64 = 30;

/// Where the TCP listener accepts ground-station connections.
#[derive(Debug, Clone)]
pub struct TcpConfig {
    pub listen_port: u16,
    pub bind_addr: String,
}

impl Default for TcpConfig {
    /// Listen on every interface at the default port.
    fn default() -> (r: Self)
        ensures
            r.listen_port == DEFAULT_TCP_PORT,
            r.bind_addr@ == "0.0.0.0"@,
    {
        TcpConfig { listen_port: DEFAULT_TCP_PORT, bind_addr: "0.0.0.0".to_owned() }
    }
}

/// One statically configured serial endpoint.
#[derive(Debug, Clone)]
pub struct UartConfig {
    pub path: String,
    pub baud_rate: u32,
    pub name: Option<String>,
}

/// How the discovery scanner looks for serial devices carrying MAVLink
/// traffic.
#[derive(Debug, Clone)]
pub struct UartDiscoveryConfig {
    pub enabled: bool,
    pub device_pattern: String,
    pub baud_rate: u32,
    pub detection_timeout_secs: u64,
    pub rescan_interval_secs: u64,
}

impl Default for UartDiscoveryConfig {
    /// Discovery off, scanning modem-style device names when enabled.
    fn default() -> (r: Self)
        ensures
            !r.enabled,
            r.device_pattern@ == "/dev/ttyACM*"@,
            r.baud_rate == DEFAULT_BAUD_RATE,
            r.detection_timeout_secs == DEFAULT_DETECTION_TIMEOUT_SECS,
            r.rescan_interval_secs == DEFAULT_RESCAN_INTERVAL_SECS,
    {
        UartDiscoveryConfig {
            enabled: false,
            device_pattern: "/dev/ttyACM*".to_owned(),
            baud_rate: DEFAULT_BAUD_RATE,
            detection_timeout_secs: DEFAULT_DETECTION_TIMEOUT_SECS,
            rescan_interval_secs: DEFAULT_RESCAN_INTERVAL_SECS,
        }
    }
}

/// The routing policy matrix: one cell per (source kind, destination kind).
#[derive(Debug, Clone, Copy, PartialEq, Eq, Structural)]
pub struct RoutingConfig {
    pub allow_uart_to_uart: bool,
    pub allow_tcp_to_tcp: bool,
    pub allow_uart_to_tcp: bool,
    pub allow_tcp_to_uart: bool,
}

impl Default for RoutingConfig {
    /// Vehicles talk to ground stations and ground stations to each other;
    /// vehicle-to-vehicle traffic is off, preventing forwarding storms when
    /// two vehicles share a ground link.
    fn default() -> (r: Self)
        ensures
            !r.allow_uart_to_uart,
            r.allow_tcp_to_tcp,
            r.allow_uart_to_tcp,
            r.allow_tcp_to_uart,
    {
        RoutingConfig {
            allow_uart_to_uart: false,
            allow_tcp_to_tcp: true,
            allow_uart_to_tcp: true,
            allow_tcp_to_uart: true,
        }
    }
}

/// Everything the router is started with.
#[derive(Debug, Clone)]
pub struct Config {
    pub tcp: TcpConfig,
    pub uart: Vec<UartConfig>,
    pub uart_discovery: UartDiscoveryConfig,
    pub routing: RoutingConfig,
    pub log_level: String,
    pub stats_interval_secs: u64,
}

impl Config {
    /// The built-in example configuration used when no file is given: two
    /// serial vehicles at the default baud, default TCP listener, default
    /// policy, discovery off.
    pub fn example() -> (r: Self)
        ensures
            r.tcp.listen_port == DEFAULT_TCP_PORT,
            r.tcp.bind_addr@ == "0.0.0.0"@,
            r.uart@.len() == 2,
            r.uart@[0].path@ == "/dev/ttyUSB0"@,
            r.uart@[0].baud_rate == DEFAULT_BAUD_RATE,
            r.uart@[0].name matches Some(n) && n@ == "Drone 1"@,
            r.uart@[1].path@ == "/dev/ttyUSB1"@,
            r.uart@[1].baud_rate == DEFAULT_BAUD_RATE,
            r.uart@[1].name matches Some(n) && n@ == "Drone 2"@,
            !r.uart_discovery.enabled,
            !r.routing.allow_uart_to_uart,
            r.routing.allow_tcp_to_tcp,
            r.routing.allow_uart_to_tcp,
            r.routing.allow_tcp_to_uart,
            r.log_level@ == "info"@,
            r.stats_interval_secs == DEFAULT_STATS_INTERVAL_SECS,
    {
        let mut uart: Vec<UartConfig> = Vec::new();
        uart.push(
            UartConfig {
                path: "/dev/ttyUSB0".to_owned(),
                baud_rate: DEFAULT_BAUD_RATE,
                name: Some("Drone 1".to_owned()),
            },
        );
        uart.push(
            UartConfig {
                path: "/dev/ttyUSB1".to_owned(),
                baud_rate: DEFAULT_BAUD_RATE,
                name: Some("Drone 2".to_owned()),
            },
        );
        Config {
            tcp: TcpConfig::default(),
            uart,
            uart_discovery: UartDiscoveryConfig::default(),
            routing: RoutingConfig::default(),
            log_level: "info".to_owned(),
            stats_interval_secs: DEFAULT_STATS_INTERVAL_SECS,
        }
    }
}

} // verus!
