use drogue_device::channel::{Channel, Wake};
use drogue_device::esp8266::{
    advance_init, bytes_end_with, close_command, close_frees_socket, connect_command,
    connect_result, init_command, ip_address_result, join_command, join_ip_result, join_reply,
    process_notifications, query_ip_command, set_mode_command, set_mode_result, InitStage,
    JoinStep, OkStep, OkWatch, ReadOp, ReadStep, ReadyWatch, WriteOp, WriteStep,
};
use drogue_device::protocol::{
    route, AdapterError, AtResponse, Command, FirmwareInfo, ConnectionType, IpAddress, IpAddresses,
    IpProtocol, Ipv4Addr, Join, JoinError, Route, SocketAddress, TcpError, WiFiMode,
    WifiConnectionFailure, WifiEvent, BUFFER_LEN,
};
use drogue_device::queue::ResponseQueue;

fn data(bytes: &[u8]) -> [u8; BUFFER_LEN] {
    let mut buffer = [0u8; BUFFER_LEN];
    buffer[..bytes.len()].copy_from_slice(bytes);
    buffer
}

fn addresses() -> IpAddresses {
    IpAddresses {
        ip: Ipv4Addr(192, 168, 1, 20),
        gateway: Ipv4Addr(192, 168, 1, 1),
        netmask: Ipv4Addr(255, 255, 255, 0),
    }
}

#[test]
fn routes_of_responses() {
    assert_eq!(route(&AtResponse::Nothing), Route::Discard);
    assert_eq!(route(&AtResponse::Okay), Route::Reply);
    assert_eq!(route(&AtResponse::Error), Route::Reply);
    assert_eq!(
        route(&AtResponse::FirmwareInfo(FirmwareInfo { major: 1, minor: 7, patch: 4, build: 0 })),
        Route::Reply
    );
    assert_eq!(route(&AtResponse::DataReceived(data(&[1]), 1)), Route::Reply);
    assert_eq!(route(&AtResponse::IpAddresses(addresses())), Route::Reply);
    assert_eq!(route(&AtResponse::UnlinkFail), Route::Reply);
    assert_eq!(route(&AtResponse::Closed(1)), Route::Notification);
    assert_eq!(route(&AtResponse::DataAvailable { link_id: 0, len: 5 }), Route::Notification);
    assert_eq!(route(&AtResponse::WifiConnected), Route::Event(WifiEvent::Connected));
    assert_eq!(route(&AtResponse::WifiDisconnect), Route::Event(WifiEvent::Disconnected));
    assert_eq!(route(&AtResponse::GotIp), Route::Event(WifiEvent::GotIp));
}

#[test]
fn ready_detected_at_end_of_boot_noise() {
    let mut w = ReadyWatch::new();
    let mut ready_at = None;
    for (i, b) in b"\x00garbage\r\nready\r\n".iter().enumerate() {
        if w.push(*b) {
            ready_at = Some(i);
            break;
        }
    }
    assert_eq!(ready_at, Some(b"\x00garbage\r\nready\r\n".len() - 1));
    assert!(!w.is_full());
}

#[test]
fn ready_not_detected_without_crlf() {
    let mut w = ReadyWatch::new();
    let mut any = false;
    for b in b"ready\nready\r" {
        any |= w.push(*b);
    }
    assert!(!any);
}

#[test]
fn init_commands_in_order() {
    let mut stage = InitStage::DisableEcho;
    let mut lines = Vec::new();
    while stage != InitStage::Done {
        lines.push(init_command(stage));
        stage = advance_init(stage);
    }
    assert_eq!(
        lines,
        vec!["ATE0\r\n", "AT+CIPMUX=1\r\n", "AT+CIPRECVMODE=1\r\n", "AT+CWMODE_CUR=1\r\n"]
    );
    assert_eq!(advance_init(InitStage::Done), InitStage::Done);
}

#[test]
fn ok_watch_success() {
    let mut w = OkWatch::new();
    let mut last = OkStep::Continue;
    for b in b"AT\r\r\n\r\nOK\r\n" {
        last = w.push(Ok(*b));
        if last != OkStep::Continue {
            break;
        }
    }
    assert_eq!(last, OkStep::Done(Ok(())));
}

#[test]
fn ok_watch_error_and_read_error() {
    let mut w = OkWatch::new();
    let mut last = OkStep::Continue;
    for b in b"busy p...\r\nERROR\r\n" {
        last = w.push(Ok(*b));
        if last != OkStep::Continue {
            break;
        }
    }
    assert_eq!(last, OkStep::Done(Err(AdapterError::UnableToInitialize)));
    let mut r = OkWatch::new();
    assert_eq!(r.push(Err(())), OkStep::Done(Err(AdapterError::ReadError)));
    assert!(!r.is_full());
}

#[test]
fn suffix_check() {
    assert!(bytes_end_with(b"xOK\r\n", 5, b"OK\r\n"));
    assert!(!bytes_end_with(b"K\r\n", 3, b"OK\r\n"));
    assert!(!bytes_end_with(b"OK\r\nx", 5, b"OK\r\n"));
    assert!(bytes_end_with(b"OK\r\nx", 4, b"OK\r\n"));
}

#[test]
fn set_mode_outcomes() {
    assert_eq!(set_mode_command(WiFiMode::Station), Command::SetMode(WiFiMode::Station));
    assert_eq!(set_mode_result(&Ok(AtResponse::Okay)), Ok(()));
    assert_eq!(set_mode_result(&Ok(AtResponse::Error)), Err(()));
    assert_eq!(set_mode_result(&Err(AdapterError::WriteError)), Err(()));
}

#[test]
fn ip_address_outcomes() {
    assert_eq!(query_ip_command(), Command::QueryIpAddress);
    assert_eq!(
        ip_address_result(&Ok(AtResponse::IpAddresses(addresses()))),
        Ok(IpAddress::V4(Ipv4Addr(192, 168, 1, 20)))
    );
    assert_eq!(ip_address_result(&Ok(AtResponse::IpAddress(Ipv4Addr(1, 2, 3, 4)))), Err(()));
    assert_eq!(ip_address_result(&Err(AdapterError::WriteError)), Err(()));
}

#[test]
fn join_outcomes() {
    assert_eq!(join_command(&Join::Open), Err(JoinError::Unknown));
    let wpa = Join::Wpa { ssid: "home", password: "secret" };
    assert_eq!(
        join_command(&wpa),
        Ok(Command::JoinAp { ssid: "home", password: "secret" })
    );
    assert_eq!(join_reply(&Ok(AtResponse::Okay)), JoinStep::QueryIp);
    assert_eq!(
        join_reply(&Ok(AtResponse::WifiConnectionFailure(WifiConnectionFailure::WrongPassword))),
        JoinStep::Failed(JoinError::Unknown)
    );
    assert_eq!(join_reply(&Ok(AtResponse::Error)), JoinStep::Failed(JoinError::UnableToAssociate));
    assert_eq!(
        join_reply(&Err(AdapterError::WriteError)),
        JoinStep::Failed(JoinError::UnableToAssociate)
    );
    assert_eq!(
        join_ip_result(&Ok(AtResponse::IpAddresses(addresses()))),
        Ok(IpAddress::V4(Ipv4Addr(192, 168, 1, 20)))
    );
    assert_eq!(join_ip_result(&Ok(AtResponse::Okay)), Err(JoinError::Unknown));
}

#[test]
fn connect_and_close_outcomes() {
    let dst = SocketAddress { ip: IpAddress::V4(Ipv4Addr(192, 168, 1, 2)), port: 12345 };
    assert_eq!(
        connect_command(1, IpProtocol::Udp, dst),
        Command::StartConnection(1, ConnectionType::Tcp, dst)
    );
    assert_eq!(connect_result(&Ok(AtResponse::Connect(1))), Ok(()));
    assert_eq!(connect_result(&Ok(AtResponse::Okay)), Err(TcpError::ConnectError));
    assert_eq!(connect_result(&Err(AdapterError::WriteError)), Err(TcpError::ConnectError));
    assert_eq!(close_command(3), Command::CloseConnection(3));
    assert!(close_frees_socket(&Ok(AtResponse::Okay)));
    assert!(close_frees_socket(&Ok(AtResponse::UnlinkFail)));
    assert!(!close_frees_socket(&Ok(AtResponse::Error)));
    assert!(!close_frees_socket(&Err(AdapterError::WriteError)));
}

#[test]
fn notifications_close_links_in_order() {
    let mut n: Channel<ResponseQueue> = Channel::new();
    let mut a = Some(AtResponse::Closed(3));
    let mut b = Some(AtResponse::DataAvailable { link_id: 1, len: 10 });
    n.poll_enqueue(&mut a);
    n.poll_enqueue(&mut b);
    assert_eq!(n.len(), 2);
    assert!(!n.ready());
    let (closed, count, wake) = process_notifications(&mut n);
    assert_eq!(&closed[..count], &[3u8]);
    assert_eq!(wake, Wake::WakeProducer);
    assert_eq!(n.len(), 0);
    let mut c = Some(AtResponse::Closed(260));
    let mut d = Some(AtResponse::Closed(0));
    n.poll_enqueue(&mut c);
    n.poll_enqueue(&mut d);
    let (closed, count, _) = process_notifications(&mut n);
    assert_eq!(&closed[..count], &[4u8, 0u8]);
    let (_, count, wake) = process_notifications(&mut n);
    assert_eq!((count, wake), (0, Wake::Nothing));
}

#[test]
fn write_reports_last_acknowledged_count() {
    let (mut w, step) = WriteOp::start(2, 10, false);
    assert_eq!(step, WriteStep::SendCommand(Command::Send { link_id: 2, len: 10 }));
    assert_eq!(w.on_reply(Ok(AtResponse::Okay)), WriteStep::AwaitResponse);
    assert_eq!(w.on_response(AtResponse::ReadyForData), WriteStep::WriteData);
    assert_eq!(w.on_written(true), WriteStep::AwaitResponse);
    assert_eq!(w.on_response(AtResponse::ReceivedDataToSend(4)), WriteStep::AwaitResponse);
    assert_eq!(w.on_response(AtResponse::ReceivedDataToSend(10)), WriteStep::AwaitResponse);
    assert_eq!(w.on_response(AtResponse::SendOk), WriteStep::Done(Ok(10)));
}

#[test]
fn write_without_count_reports_zero() {
    let (mut w, _) = WriteOp::start(0, 3, false);
    w.on_reply(Ok(AtResponse::Okay));
    w.on_response(AtResponse::ReadyForData);
    w.on_written(true);
    assert_eq!(w.on_response(AtResponse::SendOk), WriteStep::Done(Ok(0)));
}

#[test]
fn write_errors() {
    let (_, step) = WriteOp::start(1, 3, true);
    assert_eq!(step, WriteStep::Done(Err(TcpError::SocketClosed)));

    let (mut w, _) = WriteOp::start(1, 3, false);
    assert_eq!(w.on_reply(Ok(AtResponse::Error)), WriteStep::Done(Err(TcpError::WriteError)));

    let (mut w, _) = WriteOp::start(1, 3, false);
    assert_eq!(
        w.on_reply(Err(AdapterError::WriteError)),
        WriteStep::Done(Err(TcpError::WriteError))
    );

    let (mut w, _) = WriteOp::start(1, 3, false);
    w.on_reply(Ok(AtResponse::Okay));
    assert_eq!(w.on_response(AtResponse::Okay), WriteStep::Done(Err(TcpError::WriteError)));

    let (mut w, _) = WriteOp::start(1, 3, false);
    w.on_reply(Ok(AtResponse::Okay));
    w.on_response(AtResponse::ReadyForData);
    assert_eq!(w.on_written(false), WriteStep::Done(Err(TcpError::WriteError)));

    let (mut w, _) = WriteOp::start(1, 3, false);
    w.on_reply(Ok(AtResponse::Okay));
    w.on_response(AtResponse::ReadyForData);
    w.on_written(true);
    assert_eq!(w.on_response(AtResponse::SendFail), WriteStep::Done(Err(TcpError::WriteError)));
}

#[test]
fn read_fills_buffer_across_replies() {
    let mut buf = vec![0u8; 5];
    let mut r = ReadOp::new(4, 5);
    assert_eq!(r.begin(false), ReadStep::SendCommand(Command::Receive { link_id: 4, len: 5 }));
    assert_eq!(
        r.on_reply(&mut buf, Ok(AtResponse::DataReceived(data(&[1, 2, 3, 99]), 3))),
        ReadStep::Continue
    );
    assert_eq!(r.bytes_read(), 3);
    assert_eq!(r.begin(false), ReadStep::SendCommand(Command::Receive { link_id: 4, len: 2 }));
    assert_eq!(
        r.on_reply(&mut buf, Ok(AtResponse::DataReceived(data(&[4, 5]), 2))),
        ReadStep::Done(Ok(5))
    );
    assert_eq!(buf, vec![1, 2, 3, 4, 5]);
}

#[test]
fn read_stops_when_no_more_data() {
    let mut buf = vec![0u8; 8];
    let mut r = ReadOp::new(0, 8);
    r.begin(false);
    assert_eq!(r.on_reply(&mut buf, Ok(AtResponse::DataReceived(data(&[7, 7]), 2))), ReadStep::Continue);
    r.begin(false);
    assert_eq!(r.on_reply(&mut buf, Ok(AtResponse::Okay)), ReadStep::Done(Ok(2)));
    assert_eq!(buf, vec![7, 7, 0, 0, 0, 0, 0, 0]);
}

#[test]
fn read_asks_at_most_buffer_len() {
    let mut r = ReadOp::new(1, 2000);
    assert_eq!(
        r.begin(false),
        ReadStep::SendCommand(Command::Receive { link_id: 1, len: BUFFER_LEN })
    );
}

#[test]
fn read_errors() {
    let mut buf = vec![0u8; 4];
    let mut r = ReadOp::new(0, 4);
    assert_eq!(r.begin(true), ReadStep::Done(Err(TcpError::SocketClosed)));

    let mut r = ReadOp::new(0, 4);
    r.begin(false);
    assert_eq!(r.on_reply(&mut buf, Ok(AtResponse::Error)), ReadStep::Done(Err(TcpError::ReadError)));

    let mut r = ReadOp::new(0, 4);
    r.begin(false);
    r.on_reply(&mut buf, Ok(AtResponse::DataReceived(data(&[1]), 1)));
    r.begin(false);
    // an error after some data still reports the data read
    assert_eq!(r.on_reply(&mut buf, Err(AdapterError::WriteError)), ReadStep::Done(Ok(1)));

    let mut r = ReadOp::new(0, 4);
    r.begin(false);
    r.on_reply(&mut buf, Ok(AtResponse::DataReceived(data(&[1]), 1)));
    assert_eq!(r.begin(true), ReadStep::Done(Ok(1)));
}
