//! The messages of the handshake, as plain values.
use vstd::prelude::*;

verus! {

#[verifier::external_type_specification]
#[verifier::external_body]
pub struct ExSystemTime(std::time::SystemTime);

#[verifier::external_type_specification]
#[verifier::external_body]
pub struct ExSystemTimeError(std::time::SystemTimeError);

/// The Bitcoin P2P protocol version that `bitcoin::p2p::PROTOCOL_VERSION` names and that
/// `VersionMessage::new` writes into a version message.
pub const PROTOCOL_VERSION: u32 = 70001;

/// The service bits of `bitcoin::p2p::ServiceFlags::NONE`: no services offered.
pub const SERVICES_NONE: u64 = 0;

/// The user agent this node announces.
pub open spec fn user_agent_text() -> Seq<char> {
    "TEST NODE"@
}

/// A socket address (IP address and port) of a peer.
#[derive(Debug, Clone, Copy, PartialEq, Eq)]
pub enum SocketAddress {
    V4 { ip: [u8; 4], port: u16 },
    V6 { segments: [u16; 8], port: u16 },
}

/// A network address as a Bitcoin message carries it: IPv6 segments (IPv4 mapped into IPv6),
/// port and service bits.
#[derive(Debug, Clone, Copy, PartialEq, Eq)]
pub struct NetAddress {
    pub services: u64,
    pub address: [u16; 8],
    pub port: u16,
}

/// The payload of a `version` message.
#[derive(Debug, Clone, PartialEq, Eq)]
pub struct VersionMessage {
    pub version: u32,
    pub services: u64,
    pub timestamp: i64,
    pub receiver: NetAddress,
    pub sender: NetAddress,
    pub nonce: u64,
    pub user_agent: String,
    pub start_height: i32,
    pub relay: bool,
}

/// The payload of a network message, as far as the handshake tells payloads apart.
#[derive(Debug, Clone, PartialEq, Eq)]
pub enum Payload {
    Version(VersionMessage),
    Verack,
    /// Any other message, by its command name.
    Other(String),
}

/// A network message: the magic bytes of its network and its payload.
#[derive(Debug, Clone, PartialEq, Eq)]
pub struct Message {
    pub magic: [u8; 4],
    pub payload: Payload,
}

/// Failures of the handshake.
#[derive(Debug, Clone, Copy, PartialEq, Eq, Structural)]
pub enum HandshakeError {
    /// The system clock reads a time before the Unix epoch.
    ClockBeforeEpoch,
    /// The seconds since the Unix epoch do not fit in the message's signed timestamp.
    TimestampOutOfRange,
    /// The peer's messages ended before it answered our version message.
    ChannelClosed,
}

/// The magic bytes of the Bitcoin main network.
pub open spec fn spec_bitcoin_magic() -> Seq<u8> {
    seq![0xF9u8, 0xBEu8, 0xB4u8, 0xD9u8]
}

/// Calls `bitcoin::Network::Bitcoin.magic()` and takes its bytes with `Magic::to_bytes`; the
/// crate defines `Magic::BITCOIN` as `[0xF9, 0xBE, 0xB4, 0xD9]`.
#[verifier::external_body]
fn bitcoin_magic() -> (r: [u8; 4])
    ensures
        r@ == spec_bitcoin_magic(),
{
    bitcoin::Network::Bitcoin.magic().to_bytes()
}

/// The IPv6 segments and port under which a Bitcoin message carries a socket address: an IPv4
/// address is mapped into IPv6 (`::ffff:a.b.c.d`).
pub open spec fn spec_segments(addr: SocketAddress) -> Seq<u16> {
    match addr {
        SocketAddress::V4 { ip, .. } => seq![
            0u16,
            0u16,
            0u16,
            0u16,
            0u16,
            0xffffu16,
            (ip@[0] * 256 + ip@[1]) as u16,
            (ip@[2] * 256 + ip@[3]) as u16,
        ],
        SocketAddress::V6 { segments, .. } => segments@,
    }
}

pub open spec fn spec_port(addr: SocketAddress) -> u16 {
    match addr {
        SocketAddress::V4 { port, .. } => port,
        SocketAddress::V6 { port, .. } => port,
    }
}

/// The network address that stands for `addr` with the given services in a message.
pub fn net_address(addr: &SocketAddress, services: u64) -> (r: NetAddress)
    ensures
        r.address@ == spec_segments(*addr),
        r.port == spec_port(*addr),
        r.services == services,
{
    match addr {
        SocketAddress::V4 { ip, port } => {
            let hi: u16 = (ip[0] as u16) * 256 + (ip[1] as u16);
            let lo: u16 = (ip[2] as u16) * 256 + (ip[3] as u16);
            let address: [u16; 8] = [0, 0, 0, 0, 0, 0xffff, hi, lo];
            assert(address@ =~= spec_segments(*addr));
            NetAddress { services, address, port: *port }
        },
        SocketAddress::V6 { segments, port } => NetAddress { services, address: *segments, port: *port },
    }
}

/// Calls `bitcoin::p2p::PROTOCOL_VERSION`, the protocol version that `VersionMessage::new`
/// writes into a version message; the crate defines it as 70001.
#[verifier::external_body]
fn bitcoin_protocol_version() -> (r: u32)
    ensures
        r == PROTOCOL_VERSION,
{
    bitcoin::p2p::PROTOCOL_VERSION
}

/// Calls `ServiceFlags::to_u64` on `bitcoin::p2p::ServiceFlags::NONE`, which the crate defines
/// as `ServiceFlags(0)`.
#[verifier::external_body]
fn services_none() -> (r: u64)
    ensures
        r == SERVICES_NONE,
{
    bitcoin::p2p::ServiceFlags::NONE.to_u64()
}

/// The address of this node in its own version message: all address bits zero, port zero.
pub open spec fn zero_segments() -> Seq<u16> {
    seq![0u16, 0u16, 0u16, 0u16, 0u16, 0u16, 0u16, 0u16]
}

/// What the version message sent to `remote` at `timestamp` holds.
pub open spec fn is_version_message_for(m: VersionMessage, remote: SocketAddress, timestamp: int) -> bool {
    &&& m.version == PROTOCOL_VERSION
    &&& m.services == SERVICES_NONE
    &&& m.timestamp == timestamp
    &&& m.receiver.services == SERVICES_NONE
    &&& m.receiver.address@ == spec_segments(remote)
    &&& m.receiver.port == spec_port(remote)
    &&& m.sender.services == SERVICES_NONE
    &&& m.sender.address@ == zero_segments()
    &&& m.sender.port == 0
    &&& m.nonce == 0
    &&& m.user_agent@ == user_agent_text()
    &&& m.start_height == 0
    &&& !m.relay
}

/// Builds the version message for `remote`, stamped with `unix_secs` seconds since the Unix
/// epoch; the stamp must fit in a signed 64-bit integer.
pub fn build_version_message(remote: &SocketAddress, unix_secs: u64) -> (r: Result<
    VersionMessage,
    HandshakeError,
>)
    ensures
        unix_secs <= i64::MAX ==> (r matches Ok(m) && is_version_message_for(m, *remote, unix_secs as int)),
        unix_secs > i64::MAX ==> r == Err::<VersionMessage, HandshakeError>(HandshakeError::TimestampOutOfRange),
{
    if unix_secs > i64::MAX as u64 {
        return Err(HandshakeError::TimestampOutOfRange);
    }
    let timestamp = unix_secs as i64;
    let none = services_none();
    let receiver = net_address(remote, none);
    let sender = NetAddress { services: none, address: [0, 0, 0, 0, 0, 0, 0, 0], port: 0 };
    assert(sender.address@ =~= zero_segments());
    Ok(VersionMessage {
        version: bitcoin_protocol_version(),
        services: none,
        timestamp,
        receiver,
        sender,
        nonce: 0,
        user_agent: "TEST NODE".to_owned(),
        start_height: 0,
        relay: false,
    })
}

/// Calls `std::time::SystemTime::now`.
#[verifier::external_body]
fn system_time_now() -> std::time::SystemTime {
    std::time::SystemTime::now()
}

/// Calls `SystemTime::duration_since(UNIX_EPOCH)`, which fails where the time lies before the
/// epoch.
#[verifier::external_body]
fn since_unix_epoch(t: &std::time::SystemTime) -> std::result::Result<
    core::time::Duration,
    std::time::SystemTimeError,
> {
    t.duration_since(std::time::UNIX_EPOCH)
}

/// The whole seconds that `Duration::as_secs` gives for a duration.
pub uninterp spec fn duration_secs(d: core::time::Duration) -> u64;

/// Calls `Duration::as_secs`: the whole seconds of the duration.
#[verifier::external_body]
fn whole_seconds(d: &core::time::Duration) -> (r: u64)
    ensures
        r == duration_secs(*d),
{
    d.as_secs()
}

/// The seconds since the Unix epoch that the time elapsed since then stands for: its whole
/// seconds; a clock before the epoch is an error.
pub fn unix_secs_from_elapsed(elapsed: std::result::Result<
    core::time::Duration,
    std::time::SystemTimeError,
>) -> (r: Result<u64, HandshakeError>)
    ensures
        match elapsed {
            Ok(d) => r == Ok::<u64, HandshakeError>(duration_secs(d)),
            Err(_) => r == Err::<u64, HandshakeError>(HandshakeError::ClockBeforeEpoch),
        },
{
    match elapsed {
        Ok(d) => Ok(whole_seconds(&d)),
        Err(_) => Err(HandshakeError::ClockBeforeEpoch),
    }
}

/// Whether `secs` is what the clock gives as seconds since the Unix epoch: the whole seconds
/// (`Duration::as_secs`) of a time elapsed since then, unchanged.
pub open spec fn is_elapsed_seconds(secs: int) -> bool {
    exists|d: core::time::Duration| secs == duration_secs(d)
}

/// Reads the system clock: whole seconds since the Unix epoch, or the error of a clock set
/// before it.
pub fn current_unix_secs() -> (r: Result<u64, HandshakeError>)
    ensures
        r is Err ==> r == Err::<u64, HandshakeError>(HandshakeError::ClockBeforeEpoch),
        r matches Ok(secs) ==> is_elapsed_seconds(secs as int),
{
    let now = system_time_now();
    let elapsed = since_unix_epoch(&now);
    let ghost reading = elapsed;
    let r = unix_secs_from_elapsed(elapsed);
    proof {
        if r is Ok {
            let d = reading->Ok_0;
            assert(r->Ok_0 == duration_secs(d));
        }
    }
    r
}

/// Builds the version message for `remote`, stamped with the current time.
pub fn version_message(remote: &SocketAddress) -> (r: Result<VersionMessage, HandshakeError>)
    ensures
        r matches Ok(m) ==> 0 <= m.timestamp && is_version_message_for(m, *remote, m.timestamp as int),
        r matches Ok(m) ==> is_elapsed_seconds(m.timestamp as int),
        r is Err ==> r == Err::<VersionMessage, HandshakeError>(HandshakeError::ClockBeforeEpoch)
            || r == Err::<VersionMessage, HandshakeError>(HandshakeError::TimestampOutOfRange),
{
    let secs = current_unix_secs()?;
    build_version_message(remote, secs)
}

/// Whether the message carries the magic bytes of the Bitcoin main network.
pub open spec fn is_bitcoin_message(m: Message) -> bool {
    m.magic@ == spec_bitcoin_magic()
}

/// A `verack` message of the Bitcoin main network.
pub fn verack_message() -> (r: Message)
    ensures
        is_bitcoin_message(r),
        r.payload == Payload::Verack,
{
    Message { magic: bitcoin_magic(), payload: Payload::Verack }
}

/// The `version` message of the Bitcoin main network with the given payload.
pub(crate) fn version_packet(version: VersionMessage) -> (r: Message)
    ensures
        is_bitcoin_message(r),
        r.payload == Payload::Version(version),
{
    Message { magic: bitcoin_magic(), payload: Payload::Version(version) }
}

} // verus!
