//! The decisions of the ESP8266 WiFi driver.
//!
//! The driver talks to the modem over a UART with AT commands. Everything
//! that waits for the UART or for a reply is the caller's; what to send, how
//! to read the bytes and replies that come back, and what to answer the
//! network layer are decided here, one step at a time.
use vstd::prelude::*;
use vstd::slice::SliceAdditionalExecFns;

use crate::queue::ResponseQueue;

use crate::channel::{Channel, Poll, Wake};
use crate::protocol::{
    AdapterError,
    AtResponse,
    Command,
    ConnectionType,
    IpAddress,
    IpProtocol,
    Join,
    JoinError,
    SocketAddress,
    TcpError,
    WiFiMode,
    BUFFER_LEN,
};

verus! {

// ---------------------------------------------------------------------------
// Byte markers
// ---------------------------------------------------------------------------

/// Whether `s` ends with `m`.
pub open spec fn ends_with(s: Seq<u8>, m: Seq<u8>) -> bool {
    m.len() <= s.len() && s.subrange(s.len() - m.len(), s.len() as int) == m
}

/// `ready\r\n`: the modem has started.
pub open spec fn ready_marker() -> Seq<u8> {
    seq![114u8, 101u8, 97u8, 100u8, 121u8, 13u8, 10u8]
}

/// `OK\r\n`: a command succeeded.
pub open spec fn ok_marker() -> Seq<u8> {
    seq![79u8, 75u8, 13u8, 10u8]
}

/// `ERROR\r\n`: a command failed.
pub open spec fn error_marker() -> Seq<u8> {
    seq![69u8, 82u8, 82u8, 79u8, 82u8, 13u8, 10u8]
}

/// Whether the first `len` bytes of `s` end with the bytes of `m`.
pub fn bytes_end_with(s: &[u8], len: usize, m: &[u8]) -> (b: bool)
    requires
        len <= s@.len(),
    ensures
        b == ends_with(s@.take(len as int), m@),
{
    let ghost t = s@.take(len as int);
    if m.len() > len {
        return false;
    }
    let start = len - m.len();
    let mut i: usize = 0;
    while i < m.len()
        invariant
            i <= m@.len(),
            start == len - m@.len(),
            m@.len() <= len,
            len <= s@.len(),
            t == s@.take(len as int),
            forall|j: int| 0 <= j < i ==> t[start + j] == m@[j],
        decreases m@.len() - i,
    {
        if s[start + i] != m[i] {
            assert(t.subrange(start as int, len as int)[i as int] != m@[i as int]);
            return false;
        }
        i = i + 1;
    }
    assert(t.subrange(start as int, len as int) =~= m@);
    true
}

// ---------------------------------------------------------------------------
// Start-up
// ---------------------------------------------------------------------------

/// How many bytes are kept while waiting for the modem to start.
pub const STARTUP_BUFFER_LEN: usize = 1024;

/// Watches the bytes the modem sends after reset for `ready\r\n`, in a
/// buffer of `STARTUP_BUFFER_LEN` bytes.
pub struct ReadyWatch {
    buf: [u8; 1024],
    len: usize,
}

impl ReadyWatch {
    #[verifier::type_invariant]
    spec fn fits(self) -> bool {
        self.len <= STARTUP_BUFFER_LEN
    }

    /// The bytes received so far.
    pub closed spec fn received(&self) -> Seq<u8> {
        self.buf@.take(self.len as int)
    }

    /// A watch that has received nothing.
    pub fn new() -> (w: Self)
        ensures
            w.received() == Seq::<u8>::empty(),
    {
        let w = ReadyWatch { buf: [0u8; 1024], len: 0 };
        assert(w.received() =~= Seq::<u8>::empty());
        w
    }

    /// Whether the buffer is full, so that no more bytes can be taken.
    pub fn is_full(&self) -> (b: bool)
        ensures
            b == (self.received().len() >= STARTUP_BUFFER_LEN),
    {
        proof {
            use_type_invariant(self);
        }
        self.len >= STARTUP_BUFFER_LEN
    }

    /// Takes the next byte; answers whether the bytes so far end with
    /// `ready\r\n`.
    pub fn push(&mut self, byte: u8) -> (ready: bool)
        requires
            old(self).received().len() < STARTUP_BUFFER_LEN,
        ensures
            final(self).received() == old(self).received().push(byte),
            ready == ends_with(final(self).received(), ready_marker()),
    {
        proof {
            use_type_invariant(&*self);
        }
        let ghost before = self.received();
        let pos = self.len;
        let mut buf = self.buf;
        buf.set(pos, byte);
        self.buf = buf;
        self.len = pos + 1;
        assert(self.received() =~= before.push(byte));
        let marker: [u8; 7] = [114u8, 101u8, 97u8, 100u8, 121u8, 13u8, 10u8];
        assert(marker@ =~= ready_marker());
        bytes_end_with(&self.buf, self.len, &marker)
    }
}

/// The configuration steps after the modem has started, in order.
#[derive(Clone, Copy, Debug, PartialEq, Eq, Structural)]
pub enum InitStage {
    DisableEcho,
    EnableMux,
    SetRecvMode,
    SetMode,
    Done,
}

/// The step after `s`.
pub open spec fn next_stage(s: InitStage) -> InitStage {
    match s {
        InitStage::DisableEcho => InitStage::EnableMux,
        InitStage::EnableMux => InitStage::SetRecvMode,
        InitStage::SetRecvMode => InitStage::SetMode,
        InitStage::SetMode => InitStage::Done,
        InitStage::Done => InitStage::Done,
    }
}

/// The command line of a configuration step.
pub open spec fn init_command_text(s: InitStage) -> Seq<char> {
    match s {
        InitStage::DisableEcho => "ATE0\r\n"@,
        InitStage::EnableMux => "AT+CIPMUX=1\r\n"@,
        InitStage::SetRecvMode => "AT+CIPRECVMODE=1\r\n"@,
        InitStage::SetMode => "AT+CWMODE_CUR=1\r\n"@,
        InitStage::Done => Seq::empty(),
    }
}

/// The command line to send for configuration step `stage`: echo off,
/// several connections, passive receive, station mode.
pub fn init_command(stage: InitStage) -> (c: &'static str)
    requires
        stage != InitStage::Done,
    ensures
        c@ == init_command_text(stage),
{
    match stage {
        InitStage::DisableEcho => "ATE0\r\n",
        InitStage::EnableMux => "AT+CIPMUX=1\r\n",
        InitStage::SetRecvMode => "AT+CIPRECVMODE=1\r\n",
        _ => "AT+CWMODE_CUR=1\r\n",
    }
}

/// The step after configuration step `stage`, once its command has been
/// written and acknowledged with `OK`. A failed step is not a step of the
/// configuration: the caller stops there.
pub fn advance_init(stage: InitStage) -> (next: InitStage)
    ensures
        next == next_stage(stage),
{
    match stage {
        InitStage::DisableEcho => InitStage::EnableMux,
        InitStage::EnableMux => InitStage::SetRecvMode,
        InitStage::SetRecvMode => InitStage::SetMode,
        _ => InitStage::Done,
    }
}

// ---------------------------------------------------------------------------
// Waiting for OK
// ---------------------------------------------------------------------------

/// How many bytes are kept while waiting for `OK` or `ERROR`.
pub const REPLY_BUFFER_LEN: usize = 64;

/// What to do after a byte of a reply.
#[derive(Clone, Copy, Debug, PartialEq, Eq)]
pub enum OkStep {
    /// Read another byte.
    Continue,
    /// The reply is complete.
    Done(Result<(), AdapterError>),
}

/// Watches the bytes of a reply for `OK\r\n` or `ERROR\r\n`, in a buffer of
/// `REPLY_BUFFER_LEN` bytes.
pub struct OkWatch {
    buf: [u8; 64],
    len: usize,
}

impl OkWatch {
    #[verifier::type_invariant]
    spec fn fits(self) -> bool {
        self.len <= REPLY_BUFFER_LEN
    }

    /// The bytes received so far.
    pub closed spec fn received(&self) -> Seq<u8> {
        self.buf@.take(self.len as int)
    }

    /// A watch that has received nothing.
    pub fn new() -> (w: Self)
        ensures
            w.received() == Seq::<u8>::empty(),
    {
        let w = OkWatch { buf: [0u8; 64], len: 0 };
        assert(w.received() =~= Seq::<u8>::empty());
        w
    }

    /// Whether the buffer is full, so that no more bytes can be read.
    pub fn is_full(&self) -> (b: bool)
        ensures
            b == (self.received().len() >= REPLY_BUFFER_LEN),
    {
        proof {
            use_type_invariant(self);
        }
        self.len >= REPLY_BUFFER_LEN
    }

    /// Takes the outcome of reading the next byte: a failed read ends the
    /// wait with `ReadError`; a byte that completes `OK\r\n` ends it with
    /// success, one that completes `ERROR\r\n` with `UnableToInitialize`.
    pub fn push(&mut self, read: Result<u8, ()>) -> (r: OkStep)
        requires
            old(self).received().len() < REPLY_BUFFER_LEN,
        ensures
            read is Err ==> r == OkStep::Done(Err(AdapterError::ReadError)) && final(self).received()
                == old(self).received(),
            read matches Ok(b) ==> final(self).received() == old(self).received().push(b),
            read is Ok ==> (r == OkStep::Done(Ok(()))) == ends_with(
                final(self).received(),
                ok_marker(),
            ),
            read is Ok ==> (r == OkStep::Done(Err(AdapterError::UnableToInitialize))) == (!ends_with(
                final(self).received(),
                ok_marker(),
            ) && ends_with(final(self).received(), error_marker())),
            read is Ok ==> (r == OkStep::Continue) == (!ends_with(
                final(self).received(),
                ok_marker(),
            ) && !ends_with(final(self).received(), error_marker())),
    {
        match read {
            Err(()) => OkStep::Done(Err(AdapterError::ReadError)),
            Ok(b) => {
                proof {
                    use_type_invariant(&*self);
                }
                let ghost before = self.received();
                let pos = self.len;
                let mut buf = self.buf;
                buf.set(pos, b);
                self.buf = buf;
                self.len = pos + 1;
                assert(self.received() =~= before.push(b));
                let ok: [u8; 4] = [79u8, 75u8, 13u8, 10u8];
                let error: [u8; 7] = [69u8, 82u8, 82u8, 79u8, 82u8, 13u8, 10u8];
                assert(ok@ =~= ok_marker());
                assert(error@ =~= error_marker());
                if bytes_end_with(&self.buf, self.len, &ok) {
                    OkStep::Done(Ok(()))
                } else if bytes_end_with(&self.buf, self.len, &error) {
                    OkStep::Done(Err(AdapterError::UnableToInitialize))
                } else {
                    OkStep::Continue
                }
            },
        }
    }
}

// ---------------------------------------------------------------------------
// Replies to single commands
// ---------------------------------------------------------------------------

/// The reply `Ok(Okay)`: the command was written and the modem said OK.
pub open spec fn is_okay(reply: Result<AtResponse, AdapterError>) -> bool {
    reply matches Ok(AtResponse::Okay)
}

/// The command that sets the WiFi mode.
pub fn set_mode_command(mode: WiFiMode) -> (c: Command<'static>)
    ensures
        c == Command::SetMode(mode),
{
    Command::SetMode(mode)
}

/// The outcome of setting the WiFi mode: success on `OK` only.
pub fn set_mode_result(reply: &Result<AtResponse, AdapterError>) -> (r: Result<(), ()>)
    ensures
        r is Ok == is_okay(*reply),
{
    match reply {
        Ok(AtResponse::Okay) => Ok(()),
        _ => Err(()),
    }
}

/// The command that asks for the station's addresses.
pub fn query_ip_command() -> (c: Command<'static>)
    ensures
        c == Command::QueryIpAddress,
{
    Command::QueryIpAddress
}

/// The outcome of asking for the addresses: the station's IPv4 address when
/// the modem reported its addresses, an error otherwise.
pub fn ip_address_result(reply: &Result<AtResponse, AdapterError>) -> (r: Result<IpAddress, ()>)
    ensures
        reply matches Ok(AtResponse::IpAddresses(a)) ==> r == Ok::<IpAddress, ()>(
            IpAddress::V4(a.ip),
        ),
        !(reply matches Ok(AtResponse::IpAddresses(_))) ==> r == Err::<IpAddress, ()>(()),
{
    match reply {
        Ok(AtResponse::IpAddresses(addresses)) => Ok(IpAddress::V4(addresses.ip)),
        _ => Err(()),
    }
}

/// The command that joins a WiFi network, or the error of a network the
/// modem cannot join: an open network is refused with `Unknown`.
pub fn join_command<'a>(join: &Join<'a>) -> (r: Result<Command<'a>, JoinError>)
    ensures
        *join is Open ==> r == Err::<Command<'a>, JoinError>(JoinError::Unknown),
        join matches Join::Wpa { ssid, password } ==> r matches Ok(Command::JoinAp { ssid: s, password: p }) && s@ == ssid@ && p@
            == password@,
{
    match join {
        Join::Open => Err(JoinError::Unknown),
        Join::Wpa { ssid, password } => Ok(
            Command::JoinAp { ssid: *ssid, password: *password },
        ),
    }
}

/// What comes after the reply to a join.
#[derive(Clone, Copy, Debug, PartialEq, Eq, Structural)]
pub enum JoinStep {
    /// Joined: ask for the address.
    QueryIp,
    /// Not joined.
    Failed(JoinError),
}

/// The step after the reply to a join: `OK` goes on to ask for the address;
/// a reported connection failure is `Unknown`; anything else is
/// `UnableToAssociate`.
pub fn join_reply(reply: &Result<AtResponse, AdapterError>) -> (r: JoinStep)
    ensures
        is_okay(*reply) ==> r == JoinStep::QueryIp,
        reply matches Ok(AtResponse::WifiConnectionFailure(_)) ==> r == JoinStep::Failed(
            JoinError::Unknown,
        ),
        !is_okay(*reply) && !(reply matches Ok(AtResponse::WifiConnectionFailure(_))) ==> r
            == JoinStep::Failed(JoinError::UnableToAssociate),
{
    match reply {
        Ok(AtResponse::Okay) => JoinStep::QueryIp,
        Ok(AtResponse::WifiConnectionFailure(_)) => JoinStep::Failed(JoinError::Unknown),
        _ => JoinStep::Failed(JoinError::UnableToAssociate),
    }
}

/// The outcome of a join, from the reply to the address query that followed
/// it: the address, or `Unknown`.
pub fn join_ip_result(reply: &Result<AtResponse, AdapterError>) -> (r: Result<IpAddress, JoinError>)
    ensures
        reply matches Ok(AtResponse::IpAddresses(a)) ==> r == Ok::<IpAddress, JoinError>(
            IpAddress::V4(a.ip),
        ),
        !(reply matches Ok(AtResponse::IpAddresses(_))) ==> r == Err::<IpAddress, JoinError>(
            JoinError::Unknown,
        ),
{
    match ip_address_result(reply) {
        Ok(ip) => Ok(ip),
        Err(()) => Err(JoinError::Unknown),
    }
}

/// The command that opens a TCP connection on link `handle` to `dst`. The
/// modem connects over TCP whatever `proto` asks for.
pub fn connect_command(handle: u8, proto: IpProtocol, dst: SocketAddress) -> (c: Command<'static>)
    ensures
        c == Command::StartConnection(handle as usize, ConnectionType::Tcp, dst),
{
    Command::StartConnection(handle as usize, ConnectionType::Tcp, dst)
}

/// The outcome of a connect: success when the modem reported the
/// connection, `ConnectError` otherwise.
pub fn connect_result(reply: &Result<AtResponse, AdapterError>) -> (r: Result<(), TcpError>)
    ensures
        reply matches Ok(AtResponse::Connect(_)) ==> r == Ok::<(), TcpError>(()),
        !(reply matches Ok(AtResponse::Connect(_))) ==> r == Err::<(), TcpError>(
            TcpError::ConnectError,
        ),
{
    match reply {
        Ok(AtResponse::Connect(..)) => Ok(()),
        _ => Err(TcpError::ConnectError),
    }
}

/// The command that closes link `handle`.
pub fn close_command(handle: u8) -> (c: Command<'static>)
    ensures
        c == Command::CloseConnection(handle as usize),
{
    Command::CloseConnection(handle as usize)
}

/// Whether the socket is to be given back after the reply to a close: on
/// `OK`, and on `UNLINK` failure (the link was already gone).
pub fn close_frees_socket(reply: &Result<AtResponse, AdapterError>) -> (b: bool)
    ensures
        b == (is_okay(*reply) || reply matches Ok(AtResponse::UnlinkFail)),
{
    match reply {
        Ok(AtResponse::Okay) | Ok(AtResponse::UnlinkFail) => true,
        _ => false,
    }
}

// ---------------------------------------------------------------------------
// Notifications
// ---------------------------------------------------------------------------

/// The links that notifications `q` report closed, in order, as socket
/// handles.
pub open spec fn closed_links(q: Seq<AtResponse>) -> Seq<u8>
    decreases q.len(),
{
    if q.len() == 0 {
        Seq::empty()
    } else {
        let rest = closed_links(q.drop_first());
        match q[0] {
            AtResponse::Closed(link) => seq![link as u8] + rest,
            _ => rest,
        }
    }
}

/// Whether a notification reports a link closed.
pub open spec fn reports_closed() -> spec_fn(AtResponse) -> bool {
    |r: AtResponse| r is Closed
}

/// The socket handle of the link that a closed-link notification names.
pub open spec fn closed_handle() -> spec_fn(AtResponse) -> u8 {
    |r: AtResponse|
        match r {
            AtResponse::Closed(link) => link as u8,
            _ => 0u8,
        }
}

/// The sockets given back for notifications `q` are exactly those of the
/// notifications that report a link closed, in their order, whatever other
/// notifications stand between them: `q` filtered to its `Closed` entries,
/// each taken as its link's socket handle.
pub proof fn law_closed_links_are_filtered(q: Seq<AtResponse>)
    ensures
        closed_links(q) == q.filter(reports_closed()).map_values(closed_handle()),
    decreases q.len(),
{
    reveal(Seq::filter);
    if q.len() == 0 {
        assert(q.filter(reports_closed()) =~= Seq::<AtResponse>::empty());
        assert(q.filter(reports_closed()).map_values(closed_handle()) =~= Seq::<u8>::empty());
    } else {
        let head = seq![q[0]];
        let tail = q.drop_first();
        law_closed_links_are_filtered(tail);
        assert(q =~= head + tail);
        Seq::filter_distributes_over_add(head, tail, reports_closed());
        assert(head.drop_last() =~= Seq::<AtResponse>::empty());
        assert(head.drop_last().filter(reports_closed()) =~= Seq::<AtResponse>::empty());
        let fh = head.filter(reports_closed());
        let ft = tail.filter(reports_closed());
        assert((fh + ft).map_values(closed_handle()) =~= fh.map_values(closed_handle())
            + ft.map_values(closed_handle()));
        match q[0] {
            AtResponse::Closed(link) => {
                assert(fh =~= head);
                assert(fh.map_values(closed_handle()) =~= seq![link as u8]);
            },
            _ => {
                assert(fh =~= Seq::<AtResponse>::empty());
                assert(fh.map_values(closed_handle()) =~= Seq::<u8>::empty());
            },
        }
    }
}

/// Every notification that reports a link closed gives its socket back,
/// whatever comes before or after it: for each position `i` with
/// `q[i] == Closed(link)`, `link as u8` is among the sockets given back.
pub proof fn law_every_closed_link_is_freed(q: Seq<AtResponse>, i: int)
    requires
        0 <= i < q.len(),
        q[i] is Closed,
    ensures
        closed_links(q).contains(closed_handle()(q[i])),
    decreases q.len(),
{
    if i == 0 {
        match q[0] {
            AtResponse::Closed(link) => {
                assert(closed_links(q)[0] == link as u8);
            },
            _ => {},
        }
    } else {
        law_every_closed_link_is_freed(q.drop_first(), i - 1);
        let rest = closed_links(q.drop_first());
        let k = choose|k: int| 0 <= k < rest.len() && rest[k] == closed_handle()(q[i]);
        match q[0] {
            AtResponse::Closed(link) => {
                assert(closed_links(q)[k + 1] == rest[k]);
            },
            _ => {
                assert(closed_links(q)[k] == rest[k]);
            },
        }
    }
}

/// Takes every queued notification and answers the sockets to give back,
/// one for each link reported closed, in order, as the first `count` bytes
/// of the array answered; other notifications are dropped. When anything
/// was taken, the modem's task is to be woken.
pub fn process_notifications(notifications: &mut Channel<ResponseQueue>) -> (r: (
    [u8; 2],
    usize,
    Wake,
))
    requires
        old(notifications).wf(),
    ensures
        final(notifications).wf(),
        final(notifications).capacity() == old(notifications).capacity(),
        final(notifications)@ == Seq::<AtResponse>::empty(),
        r.1 == closed_links(old(notifications)@).len(),
        r.1 <= 2,
        r.0@.take(r.1 as int) == closed_links(old(notifications)@),
        r.2 == (if old(notifications)@.len() > 0 {
            Wake::WakeProducer
        } else {
            Wake::Nothing
        }),
{
    proof {
        old(notifications).lemma_bounded();
    }
    let mut closed: [u8; 2] = [0u8; 2];
    let mut count: usize = 0;
    let mut wake = Wake::Nothing;
    let receiver = notifications.try_receive();
    loop
        invariant
            notifications.wf(),
            notifications.capacity() == old(notifications).capacity(),
            old(notifications)@.len() <= 2,
            count + notifications@.len() <= old(notifications)@.len(),
            closed@.take(count as int) + closed_links(notifications@) == closed_links(
                old(notifications)@,
            ),
            wake == (if notifications@.len() < old(notifications)@.len() {
                Wake::WakeProducer
            } else {
                Wake::Nothing
            }),
            notifications@.len() <= old(notifications)@.len(),
        ensures
            notifications.wf(),
            notifications.capacity() == old(notifications).capacity(),
            notifications@ == Seq::<AtResponse>::empty(),
            closed@.take(count as int) == closed_links(old(notifications)@),
            wake == (if old(notifications)@.len() > 0 {
                Wake::WakeProducer
            } else {
                Wake::Nothing
            }),
        decreases notifications@.len(),
    {
        let ghost before = notifications@;
        let ghost taken = closed@.take(count as int);
        let (p, w) = receiver.poll(notifications);
        match p {
            Poll::Ready(Some(response)) => {
                wake = w;
                if let AtResponse::Closed(link) = response {
                    closed.set(count, link as u8);
                    count = count + 1;
                    assert(closed@.take(count as int) =~= taken.push(link as u8));
                    assert(closed@.take(count as int) + closed_links(notifications@) =~= closed_links(
                        old(notifications)@,
                    )) by {
                        assert(closed_links(before) == seq![link as u8] + closed_links(
                            before.drop_first(),
                        ));
                    }
                } else {
                    assert(closed_links(before) == closed_links(before.drop_first()));
                }
            },
            _ => {
                assert(closed_links(notifications@) == Seq::<u8>::empty());
                assert(closed@.take(count as int) =~= closed@.take(count as int) + Seq::<u8>::empty());
                return (closed, count, wake);
            },
        }
    }
}

// ---------------------------------------------------------------------------
// Writing to a socket
// ---------------------------------------------------------------------------

/// Where a write stands.
#[derive(Clone, Copy, Debug, PartialEq, Eq, Structural)]
pub enum WriteState {
    /// The send command is out; waiting for its reply.
    AwaitAck,
    /// Waiting for the modem to ask for the data.
    AwaitReady,
    /// The data is being written.
    AwaitWrite,
    /// Waiting for the modem to confirm the send; the count it last
    /// acknowledged.
    AwaitResult(Option<usize>),
    /// Over.
    Finished,
}

/// What the caller does next in a write.
#[derive(Debug, PartialEq, Eq)]
pub enum WriteStep {
    /// Send this command and hand its reply to `on_reply`.
    SendCommand(Command<'static>),
    /// Wait for the next response and hand it to `on_response`.
    AwaitResponse,
    /// Write the data and hand the outcome to `on_written`.
    WriteData,
    /// The write is over with this outcome.
    Done(Result<usize, TcpError>),
}

/// A write of `len` bytes to link `link`.
pub struct WriteOp {
    link: u8,
    len: usize,
    state: WriteState,
}

impl WriteOp {
    /// Where the write stands.
    pub closed spec fn state(&self) -> WriteState {
        self.state
    }

    /// Starts a write of `len` bytes to socket `handle`: a closed socket
    /// ends it with `SocketClosed`; otherwise the send command goes out.
    pub fn start(handle: u8, len: usize, socket_closed: bool) -> (r: (Self, WriteStep))
        ensures
            socket_closed ==> r.0.state() == WriteState::Finished && r.1 == WriteStep::Done(
                Err(TcpError::SocketClosed),
            ),
            !socket_closed ==> r.0.state() == WriteState::AwaitAck && r.1 == WriteStep::SendCommand(
                Command::Send { link_id: handle as usize, len },
            ),
    {
        if socket_closed {
            (WriteOp { link: handle, len, state: WriteState::Finished }, WriteStep::Done(Err(TcpError::SocketClosed)))
        } else {
            (
                WriteOp { link: handle, len, state: WriteState::AwaitAck },
                WriteStep::SendCommand(Command::Send { link_id: handle as usize, len }),
            )
        }
    }

    /// Takes the reply to the send command: `OK` goes on to wait for the
    /// modem; anything else, or a failed command, ends with `WriteError`.
    pub fn on_reply(&mut self, reply: Result<AtResponse, AdapterError>) -> (r: WriteStep)
        requires
            old(self).state() == WriteState::AwaitAck,
        ensures
            is_okay(reply) ==> final(self).state() == WriteState::AwaitReady && r
                == WriteStep::AwaitResponse,
            !is_okay(reply) ==> final(self).state() == WriteState::Finished && r == WriteStep::Done(
                Err(TcpError::WriteError),
            ),
    {
        match reply {
            Ok(AtResponse::Okay) => {
                self.state = WriteState::AwaitReady;
                WriteStep::AwaitResponse
            },
            _ => {
                self.state = WriteState::Finished;
                WriteStep::Done(Err(TcpError::WriteError))
            },
        }
    }

    /// Takes the next response of the modem.
    ///
    /// Waiting for the modem: `ReadyForData` goes on to write the data.
    /// Waiting for the confirmation: a count of bytes taken is remembered
    /// and the wait goes on; `SEND OK` ends the write with the last count
    /// remembered, or 0. Any other response ends it with `WriteError`.
    pub fn on_response(&mut self, response: AtResponse) -> (r: WriteStep)
        requires
            old(self).state() == WriteState::AwaitReady || old(self).state() is AwaitResult,
        ensures
            old(self).state() == WriteState::AwaitReady && response is ReadyForData ==> final(self).state() == WriteState::AwaitWrite && r == WriteStep::WriteData,
            old(self).state() == WriteState::AwaitReady && !(response is ReadyForData) ==> final(self).state() == WriteState::Finished && r == WriteStep::Done(Err(TcpError::WriteError)),
            response matches AtResponse::ReceivedDataToSend(n) ==> (old(self).state() is AwaitResult
                ==> final(self).state() == WriteState::AwaitResult(Some(n)) && r
                == WriteStep::AwaitResponse),
            old(self).state() matches WriteState::AwaitResult(sent) ==> (response is SendOk ==> final(
                self).state() == WriteState::Finished && r == WriteStep::Done(
                Ok(
                    match sent {
                        Some(n) => n,
                        None => 0,
                    },
                ),
            )),
            old(self).state() is AwaitResult && !(response is ReceivedDataToSend) && !(response is SendOk)
                ==> final(self).state() == WriteState::Finished && r == WriteStep::Done(
                Err(TcpError::WriteError),
            ),
    {
        match self.state {
            WriteState::AwaitReady => {
                if let AtResponse::ReadyForData = response {
                    self.state = WriteState::AwaitWrite;
                    WriteStep::WriteData
                } else {
                    self.state = WriteState::Finished;
                    WriteStep::Done(Err(TcpError::WriteError))
                }
            },
            WriteState::AwaitResult(sent) => match response {
                AtResponse::ReceivedDataToSend(n) => {
                    self.state = WriteState::AwaitResult(Some(n));
                    WriteStep::AwaitResponse
                },
                AtResponse::SendOk => {
                    self.state = WriteState::Finished;
                    WriteStep::Done(Ok(sent.unwrap_or(0)))
                },
                _ => {
                    self.state = WriteState::Finished;
                    WriteStep::Done(Err(TcpError::WriteError))
                },
            },
            _ => {
                self.state = WriteState::Finished;
                WriteStep::Done(Err(TcpError::WriteError))
            },
        }
    }

    /// Takes the outcome of writing the data: on success the wait for the
    /// confirmation begins; a failed write ends with `WriteError`.
    pub fn on_written(&mut self, written: bool) -> (r: WriteStep)
        requires
            old(self).state() == WriteState::AwaitWrite,
        ensures
            written ==> final(self).state() == WriteState::AwaitResult(None) && r
                == WriteStep::AwaitResponse,
            !written ==> final(self).state() == WriteState::Finished && r == WriteStep::Done(
                Err(TcpError::WriteError),
            ),
    {
        if written {
            self.state = WriteState::AwaitResult(None);
            WriteStep::AwaitResponse
        } else {
            self.state = WriteState::Finished;
            WriteStep::Done(Err(TcpError::WriteError))
        }
    }
}

// ---------------------------------------------------------------------------
// Reading from a socket
// ---------------------------------------------------------------------------

/// What the caller does next in a read.
#[derive(Debug, PartialEq, Eq)]
pub enum ReadStep {
    /// Send this command and hand its reply to `on_reply`.
    SendCommand(Command<'static>),
    /// Take the notifications, then call `begin` again.
    Continue,
    /// The read is over with this outcome: the number of bytes read.
    Done(Result<usize, TcpError>),
}

/// The number of bytes to ask for when `filled` of `total` are read.
pub open spec fn request_len(total: nat, filled: nat) -> nat {
    if total - filled < BUFFER_LEN {
        (total - filled) as nat
    } else {
        BUFFER_LEN as nat
    }
}

/// `b` with the bytes at `at..at + data.len()` replaced by `data`.
pub open spec fn overwrite(b: Seq<u8>, at: int, data: Seq<u8>) -> Seq<u8> {
    b.subrange(0, at) + data + b.subrange(at + data.len(), b.len() as int)
}

/// A receive command never asks for more than the room left in the buffer,
/// nor for more than `BUFFER_LEN`, and asks for as much as both allow: the
/// smaller of the two.
pub proof fn law_request_len_is_room_capped(total: nat, filled: nat)
    requires
        filled <= total,
    ensures
        request_len(total, filled) <= total - filled,
        request_len(total, filled) <= BUFFER_LEN,
        request_len(total, filled) == total - filled || request_len(total, filled) == BUFFER_LEN,
{
}

/// A read into a buffer of `total` bytes from link `link`, in as many
/// receive commands as it takes.
pub struct ReadOp {
    link: u8,
    total: usize,
    filled: usize,
    done: bool,
}

impl ReadOp {
    /// The size of the buffer.
    pub closed spec fn total(&self) -> nat {
        self.total as nat
    }

    /// The bytes read so far.
    pub closed spec fn filled(&self) -> nat {
        self.filled as nat
    }

    /// Whether the read is over.
    pub closed spec fn is_done(&self) -> bool {
        self.done
    }

    /// The link read from.
    pub closed spec fn link(&self) -> u8 {
        self.link
    }

    /// The read's invariant.
    pub closed spec fn wf(&self) -> bool {
        self.filled <= self.total
    }

    /// A read from socket `handle` into a buffer of `total` bytes.
    pub fn new(handle: u8, total: usize) -> (r: Self)
        ensures
            r.wf(),
            r.link() == handle,
            r.total() == total,
            r.filled() == 0,
            !r.is_done(),
    {
        ReadOp { link: handle, total, filled: 0, done: false }
    }

    /// The bytes read so far.
    pub fn bytes_read(&self) -> (n: usize)
        ensures
            n == self.filled(),
    {
        self.filled
    }

    fn finish(&mut self, attempt: Result<usize, TcpError>) -> (r: ReadStep)
        requires
            old(self).wf(),
            !old(self).is_done(),
            attempt matches Ok(n) ==> old(self).filled() + n <= old(self).total(),
        ensures
            final(self).wf(),
            final(self).total() == old(self).total(),
            final(self).link() == old(self).link(),
            attempt matches Ok(n) ==> final(self).filled() == old(self).filled() + n,
            attempt matches Ok(n) ==> (n == 0 || final(self).filled() == final(self).total()) ==> r
                == ReadStep::Done(Ok(final(self).filled() as usize)) && final(self).is_done(),
            attempt matches Ok(n) ==> !(n == 0 || final(self).filled() == final(self).total()) ==> r
                == ReadStep::Continue && !final(self).is_done(),
            attempt matches Err(e) ==> final(self).filled() == old(self).filled() && final(self).is_done(),
            attempt matches Err(e) ==> old(self).filled() == 0 ==> r == ReadStep::Done(Err(e)),
            attempt matches Err(e) ==> old(self).filled() > 0 ==> r == ReadStep::Done(
                Ok(old(self).filled() as usize),
            ),
    {
        match attempt {
            Ok(n) => {
                self.filled = self.filled + n;
                if n == 0 || self.filled == self.total {
                    self.done = true;
                    ReadStep::Done(Ok(self.filled))
                } else {
                    ReadStep::Continue
                }
            },
            Err(e) => {
                self.done = true;
                if self.filled == 0 {
                    ReadStep::Done(Err(e))
                } else {
                    ReadStep::Done(Ok(self.filled))
                }
            },
        }
    }

    /// Begins the next attempt: on a closed socket the attempt fails with
    /// `SocketClosed`; otherwise a receive command asks for the rest of the
    /// buffer, at most `BUFFER_LEN` bytes. A failed attempt ends the read
    /// with the error when nothing has been read, and with the count read
    /// otherwise.
    pub fn begin(&mut self, socket_closed: bool) -> (r: ReadStep)
        requires
            old(self).wf(),
            !old(self).is_done(),
        ensures
            final(self).wf(),
            final(self).total() == old(self).total(),
            final(self).link() == old(self).link(),
            final(self).filled() == old(self).filled(),
            !socket_closed ==> !final(self).is_done() && r == ReadStep::SendCommand(
                Command::Receive {
                    link_id: old(self).link() as usize,
                    len: request_len(old(self).total(), old(self).filled()) as usize,
                },
            ),
            r matches ReadStep::SendCommand(Command::Receive { link_id, len }) ==> len
                <= old(self).total() - old(self).filled() && len <= BUFFER_LEN && (len
                == old(self).total() - old(self).filled() || len == BUFFER_LEN),
            socket_closed ==> final(self).is_done(),
            socket_closed && old(self).filled() == 0 ==> r == ReadStep::Done(
                Err(TcpError::SocketClosed),
            ),
            socket_closed && old(self).filled() > 0 ==> r == ReadStep::Done(
                Ok(old(self).filled() as usize),
            ),
    {
        if socket_closed {
            self.finish(Err(TcpError::SocketClosed))
        } else {
            let rest = self.total - self.filled;
            let len = if rest < BUFFER_LEN {
                rest
            } else {
                BUFFER_LEN
            };
            ReadStep::SendCommand(Command::Receive { link_id: self.link as usize, len })
        }
    }

    /// Takes the reply to a receive command. Data received is copied into
    /// `buf` after the bytes already read; `OK` alone means no data. Any
    /// other reply, or a failed command, fails the attempt with `ReadError`.
    /// The read is over when an attempt brought nothing, filled the buffer,
    /// or failed.
    pub fn on_reply(&mut self, buf: &mut [u8], reply: Result<AtResponse, AdapterError>) -> (r:
        ReadStep)
        requires
            old(self).wf(),
            !old(self).is_done(),
            old(buf)@.len() == old(self).total(),
            reply matches Ok(AtResponse::DataReceived(inbound, len)) ==> len <= inbound@.len()
                && old(self).filled() + len <= old(self).total(),
        ensures
            final(self).wf(),
            final(self).total() == old(self).total(),
            final(self).link() == old(self).link(),
            reply matches Ok(AtResponse::DataReceived(inbound, len)) ==> final(buf)@ == overwrite(
                old(buf)@,
                old(self).filled() as int,
                inbound@.subrange(0, len as int),
            ) && final(self).filled() == old(self).filled() + len && (len == 0 || final(self).filled() == final(self).total()) == (r == ReadStep::Done(
                Ok(final(self).filled() as usize),
            )) && (r == ReadStep::Done(Ok(final(self).filled() as usize)) || r
                == ReadStep::Continue),
            !(reply matches Ok(AtResponse::DataReceived(_, _))) ==> final(buf)@ == old(buf)@,
            is_okay(reply) ==> final(self).filled() == old(self).filled() && r == ReadStep::Done(
                Ok(old(self).filled() as usize),
            ),
            !is_okay(reply) && !(reply matches Ok(AtResponse::DataReceived(_, _))) ==> final(self).filled() == old(self).filled() && final(self).is_done() && (old(self).filled() == 0
                ==> r == ReadStep::Done(Err(TcpError::ReadError))) && (old(self).filled() > 0
                ==> r == ReadStep::Done(Ok(old(self).filled() as usize))),
            r is Continue == !final(self).is_done(),
    {
        match reply {
            Ok(AtResponse::DataReceived(inbound, len)) => {
                let start = self.filled;
                let ghost before = buf@;
                let mut i: usize = 0;
                while i < len
                    invariant
                        i <= len,
                        len <= inbound@.len(),
                        start + len <= buf@.len(),
                        buf@.len() == buf.len(),
                        buf@.len() == before.len(),
                        forall|j: int| 0 <= j < start ==> buf@[j] == before[j],
                        forall|j: int| start <= j < start + i ==> buf@[j] == inbound@[j - start],
                        forall|j: int| start + len <= j < before.len() ==> buf@[j] == before[j],
                    decreases len - i,
                {
                    buf.set(start + i, inbound[i]);
                    i = i + 1;
                }
                assert(buf@ =~= overwrite(before, start as int, inbound@.subrange(0, len as int)));
                self.finish(Ok(len))
            },
            Ok(AtResponse::Okay) => self.finish(Ok(0)),
            _ => self.finish(Err(TcpError::ReadError)),
        }
    }
}

} // verus!
