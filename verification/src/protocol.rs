//! The values exchanged with an ESP8266 modem and with the network layer
//! above the driver: AT commands, parsed modem responses, addresses and
//! errors, and the routing of each parsed response.
use vstd::prelude::*;

verus! {

/// The most data bytes asked of the modem in one receive command.
pub const BUFFER_LEN: usize = 512;

/// Errors of the modem adapter.
#[derive(Clone, Copy, Debug, PartialEq, Eq, Structural)]
pub enum AdapterError {
    UnableToInitialize,
    NoAvailableSockets,
    Timeout,
    UnableToOpen,
    UnableToClose,
    WriteError,
    ReadError,
    InvalidSocket,
    OperationNotSupported,
}

/// An IPv4 address, by its four octets.
#[derive(Clone, Copy, Debug, PartialEq, Eq, Structural)]
pub struct Ipv4Addr(pub u8, pub u8, pub u8, pub u8);

/// An IP address.
#[derive(Clone, Copy, Debug, PartialEq, Eq, Structural)]
pub enum IpAddress {
    V4(Ipv4Addr),
}

/// An IP address and a port.
#[derive(Clone, Copy, Debug, PartialEq, Eq, Structural)]
pub struct SocketAddress {
    pub ip: IpAddress,
    pub port: u16,
}

/// The transport protocol of a connection.
#[derive(Clone, Copy, Debug, PartialEq, Eq, Structural)]
pub enum IpProtocol {
    Tcp,
    Udp,
}

/// The kind of connection the modem opens.
#[derive(Clone, Copy, Debug, PartialEq, Eq, Structural)]
pub enum ConnectionType {
    Tcp,
    Udp,
}

/// The WiFi mode of the modem.
#[derive(Clone, Copy, Debug, PartialEq, Eq, Structural)]
pub enum WiFiMode {
    Station,
    SoftAccessPoint,
    SoftAccessPointAndStation,
}

/// Why the modem could not join an access point.
#[derive(Clone, Copy, Debug, PartialEq, Eq, Structural)]
pub enum WifiConnectionFailure {
    Timeout,
    WrongPassword,
    CannotFindTargetAp,
    ConnectionFailed,
}

/// The version of the modem's firmware.
#[derive(Clone, Copy, Debug, PartialEq, Eq, Structural)]
pub struct FirmwareInfo {
    pub major: u8,
    pub minor: u8,
    pub patch: u8,
    pub build: u8,
}

/// The addresses the modem reports for its station interface.
#[derive(Clone, Copy, Debug, PartialEq, Eq, Structural)]
pub struct IpAddresses {
    pub ip: Ipv4Addr,
    pub gateway: Ipv4Addr,
    pub netmask: Ipv4Addr,
}

/// Errors of joining a WiFi network.
#[derive(Clone, Copy, Debug, PartialEq, Eq, Structural)]
pub enum JoinError {
    Unknown,
    UnableToAssociate,
}

/// Errors of TCP operations.
#[derive(Clone, Copy, Debug, PartialEq, Eq, Structural)]
pub enum TcpError {
    ConnectError,
    ReadError,
    WriteError,
    SocketClosed,
}

/// How to join a WiFi network.
#[derive(Clone, Copy, Debug, PartialEq, Eq)]
pub enum Join<'a> {
    Open,
    Wpa { ssid: &'a str, password: &'a str },
}

/// A parsed response of the modem.
#[derive(Clone, Debug, PartialEq, Eq)]
pub enum AtResponse {
    /// `OK`.
    Okay,
    /// `ERROR`.
    Error,
    /// The firmware's version.
    FirmwareInfo(FirmwareInfo),
    /// A connection was opened on a link.
    Connect(usize),
    /// The modem waits for the data of a send.
    ReadyForData,
    /// The modem has taken this many bytes of a send.
    ReceivedDataToSend(usize),
    /// Data received on a link: a buffer and how many of its bytes are data.
    DataReceived([u8; BUFFER_LEN], usize),
    SendOk,
    SendFail,
    WifiConnectionFailure(WifiConnectionFailure),
    IpAddress(Ipv4Addr),
    /// The DNS servers: the first, and the second if there is one.
    Resolvers(Ipv4Addr, Option<Ipv4Addr>),
    DnsFail,
    UnlinkFail,
    IpAddresses(IpAddresses),
    /// A link was closed.
    Closed(usize),
    /// Data waits on a link.
    DataAvailable { link_id: usize, len: usize },
    WifiConnected,
    WifiDisconnect,
    GotIp,
    /// Nothing complete has been parsed yet.
    Nothing,
}

/// An AT command to the modem.
#[derive(Clone, Copy, Debug, PartialEq, Eq)]
pub enum Command<'a> {
    SetMode(WiFiMode),
    JoinAp { ssid: &'a str, password: &'a str },
    QueryIpAddress,
    StartConnection(usize, ConnectionType, SocketAddress),
    Send { link_id: usize, len: usize },
    Receive { link_id: usize, len: usize },
    CloseConnection(usize),
}

/// A change of the WiFi connection that the modem reports.
#[derive(Clone, Copy, Debug, PartialEq, Eq, Structural)]
pub enum WifiEvent {
    Connected,
    Disconnected,
    GotIp,
}

/// Where a parsed response goes.
#[derive(Clone, Copy, Debug, PartialEq, Eq, Structural)]
pub enum Route {
    /// Nowhere: nothing was parsed.
    Discard,
    /// To the controller waiting for the reply to its command.
    Reply,
    /// To the controller's queue of unsolicited notifications.
    Notification,
    /// To the log.
    Event(WifiEvent),
}

/// A response that the modem sends unasked, about a link.
pub open spec fn is_notification(r: AtResponse) -> bool {
    r is Closed || r is DataAvailable
}

/// The connection change that a response reports, if any.
pub open spec fn wifi_event(r: AtResponse) -> Option<WifiEvent> {
    if r is WifiConnected {
        Some(WifiEvent::Connected)
    } else if r is WifiDisconnect {
        Some(WifiEvent::Disconnected)
    } else if r is GotIp {
        Some(WifiEvent::GotIp)
    } else {
        None
    }
}

/// Decides where a parsed response goes: nothing parsed is dropped, link
/// notifications go to the notification queue, connection changes to the
/// log, and every other response is the reply to a command.
pub fn route(response: &AtResponse) -> (r: Route)
    ensures
        (r == Route::Discard) == (*response is Nothing),
        (r == Route::Notification) == is_notification(*response),
        wifi_event(*response) matches Some(e) ==> r == Route::Event(e),
        r matches Route::Event(e) ==> wifi_event(*response) == Some(e),
        (r == Route::Reply) == (!(*response is Nothing) && !is_notification(*response)
            && wifi_event(*response) is None),
        (r == Route::Notification) == (*response is Closed || *response is DataAvailable),
        *response is Connect ==> r == Route::Reply,
{
    match response {
        AtResponse::Nothing => Route::Discard,
        AtResponse::Okay
        | AtResponse::Error
        | AtResponse::FirmwareInfo(..)
        | AtResponse::Connect(..)
        | AtResponse::ReadyForData
        | AtResponse::ReceivedDataToSend(..)
        | AtResponse::DataReceived(..)
        | AtResponse::SendOk
        | AtResponse::SendFail
        | AtResponse::WifiConnectionFailure(..)
        | AtResponse::IpAddress(..)
        | AtResponse::Resolvers(..)
        | AtResponse::DnsFail
        | AtResponse::UnlinkFail
        | AtResponse::IpAddresses(..) => Route::Reply,
        AtResponse::Closed(..) | AtResponse::DataAvailable { .. } => Route::Notification,
        AtResponse::WifiConnected => Route::Event(WifiEvent::Connected),
        AtResponse::WifiDisconnect => Route::Event(WifiEvent::Disconnected),
        AtResponse::GotIp => Route::Event(WifiEvent::GotIp),
    }
}

/// Only the two unsolicited link reports go to the notification queue: a
/// response is a notification exactly when it reports a closed link or data
/// waiting on a link. Every answer to a command, the `CONNECT` of a connect
/// among them, is neither a notification nor a connection change, so it is
/// routed to the command waiting for it.
pub proof fn law_notifications_are_link_reports(r: AtResponse)
    ensures
        is_notification(r) <==> (r is Closed || r is DataAvailable),
        r is Connect ==> !is_notification(r) && wifi_event(r) is None && !(r is Nothing),
        r is Okay || r is Error || r is ReadyForData || r is SendOk || r is SendFail
            || r is UnlinkFail || r is DataReceived || r is IpAddresses ==> !is_notification(r)
            && wifi_event(r) is None && !(r is Nothing),
{
}

} // verus!
