use vstd::prelude::*;

verus! {

/// Turn indicator: the controller is about to read.
pub const READ: u8 = 60;
/// Turn indicator: the controller is about to write.
pub const WRITE: u8 = 62;
/// Acknowledgement: accepted.
pub const ACK: u8 = 6;
/// Acknowledgement: understood and refused.
pub const NACK: u8 = 21;
/// Acknowledgement: not understood, send again.
pub const READ_FAIL: u8 = 33;

/// A command from the front end.
#[derive(Copy, Clone, Debug, PartialEq, Eq, Structural)]
pub enum ClientMsg {
    Watchdog,
    Vend(u8),
    ConfigChannel(u8, u8, u8),
    ConfigBehavior(u8, u8),
    Shutdown,
}

/// The kind of a command, as its leading byte names it.
#[derive(Copy, Clone, Debug, PartialEq, Eq, Structural)]
pub enum ClientMsgType {
    Watchdog,
    Vend,
    ConfigChannel,
    ConfigBehavior,
    Shutdown,
}

/// An event for the front end.
#[derive(Copy, Clone, Debug, PartialEq, Eq, Structural)]
pub enum ServerMsg {
    VendSucceed,
    VendFailed,
    MoneyAdded(u8),
    Tampering,
}

/// The kind of an event, as its leading byte names it.
#[derive(Copy, Clone, Debug, PartialEq, Eq, Structural)]
pub enum ServerMsgType {
    VendSucceed,
    VendFailed,
    MoneyAdded,
    Tampering,
}

/// The answer to one message.
#[derive(Copy, Clone, Debug, PartialEq, Eq, Structural)]
pub enum Response {
    NACK,
    ACK,
    ReadFail,
}

/// Whose turn a round is, from the controller's side.
#[derive(Copy, Clone, Debug, PartialEq, Eq, Structural)]
pub enum RW {
    Read,
    Write,
}

/// A message whose leading byte names no kind.
#[derive(Copy, Clone, Debug, PartialEq, Eq, Structural)]
pub enum WireError {
    BadHeader(u8),
}

pub open spec fn client_type_of(b: u8) -> Option<ClientMsgType> {
    if b == 119 {
        Some(ClientMsgType::Watchdog)
    } else if b == 118 {
        Some(ClientMsgType::Vend)
    } else if b == 99 {
        Some(ClientMsgType::ConfigChannel)
    } else if b == 98 {
        Some(ClientMsgType::ConfigBehavior)
    } else if b == 115 {
        Some(ClientMsgType::Shutdown)
    } else {
        None
    }
}

pub open spec fn server_type_of(b: u8) -> Option<ServerMsgType> {
    if b == 115 {
        Some(ServerMsgType::VendSucceed)
    } else if b == 102 {
        Some(ServerMsgType::VendFailed)
    } else if b == 109 {
        Some(ServerMsgType::MoneyAdded)
    } else if b == 116 {
        Some(ServerMsgType::Tampering)
    } else {
        None
    }
}

pub open spec fn response_of(b: u8) -> Option<Response> {
    if b == ACK {
        Some(Response::ACK)
    } else if b == NACK {
        Some(Response::NACK)
    } else if b == READ_FAIL {
        Some(Response::ReadFail)
    } else {
        None
    }
}

impl ClientMsgType {
    pub open spec fn spec_tag(self) -> u8 {
        match self {
            ClientMsgType::Watchdog => 119,
            ClientMsgType::Vend => 118,
            ClientMsgType::ConfigChannel => 99,
            ClientMsgType::ConfigBehavior => 98,
            ClientMsgType::Shutdown => 115,
        }
    }

    /// Length of a whole message of this kind, its leading byte included.
    pub open spec fn spec_size(self) -> nat {
        match self {
            ClientMsgType::Watchdog | ClientMsgType::Shutdown => 1,
            ClientMsgType::Vend => 2,
            ClientMsgType::ConfigChannel => 4,
            ClientMsgType::ConfigBehavior => 3,
        }
    }

    pub fn from_u8(b: u8) -> (r: Option<ClientMsgType>)
        ensures
            r == client_type_of(b),
    {
        match b {
            119 => Some(ClientMsgType::Watchdog),
            118 => Some(ClientMsgType::Vend),
            99 => Some(ClientMsgType::ConfigChannel),
            98 => Some(ClientMsgType::ConfigBehavior),
            115 => Some(ClientMsgType::Shutdown),
            _ => None,
        }
    }

    pub fn tag(&self) -> (r: u8)
        ensures
            r == self.spec_tag(),
    {
        match self {
            ClientMsgType::Watchdog => 119,
            ClientMsgType::Vend => 118,
            ClientMsgType::ConfigChannel => 99,
            ClientMsgType::ConfigBehavior => 98,
            ClientMsgType::Shutdown => 115,
        }
    }

    pub fn msg_size(&self) -> (r: usize)
        ensures
            r == self.spec_size(),
    {
        match self {
            ClientMsgType::Watchdog | ClientMsgType::Shutdown => 1,
            ClientMsgType::Vend => 2,
            ClientMsgType::ConfigChannel => 4,
            ClientMsgType::ConfigBehavior => 3,
        }
    }
}

impl ServerMsgType {
    pub open spec fn spec_tag(self) -> u8 {
        match self {
            ServerMsgType::VendSucceed => 115,
            ServerMsgType::VendFailed => 102,
            ServerMsgType::MoneyAdded => 109,
            ServerMsgType::Tampering => 116,
        }
    }

    /// Length of a whole message of this kind, its leading byte included.
    pub open spec fn spec_size(self) -> nat {
        match self {
            ServerMsgType::MoneyAdded => 2,
            _ => 1,
        }
    }

    pub fn from_u8(b: u8) -> (r: Option<ServerMsgType>)
        ensures
            r == server_type_of(b),
    {
        match b {
            115 => Some(ServerMsgType::VendSucceed),
            102 => Some(ServerMsgType::VendFailed),
            109 => Some(ServerMsgType::MoneyAdded),
            116 => Some(ServerMsgType::Tampering),
            _ => None,
        }
    }

    pub fn tag(&self) -> (r: u8)
        ensures
            r == self.spec_tag(),
    {
        match self {
            ServerMsgType::VendSucceed => 115,
            ServerMsgType::VendFailed => 102,
            ServerMsgType::MoneyAdded => 109,
            ServerMsgType::Tampering => 116,
        }
    }

    pub fn msg_size(&self) -> (r: usize)
        ensures
            r == self.spec_size(),
    {
        match self {
            ServerMsgType::MoneyAdded => 2,
            _ => 1,
        }
    }
}

pub open spec fn server_kind(msg: ServerMsg) -> ServerMsgType {
    match msg {
        ServerMsg::VendSucceed => ServerMsgType::VendSucceed,
        ServerMsg::VendFailed => ServerMsgType::VendFailed,
        ServerMsg::MoneyAdded(_) => ServerMsgType::MoneyAdded,
        ServerMsg::Tampering => ServerMsgType::Tampering,
    }
}

impl From<ServerMsg> for ServerMsgType {
    fn from(msg: ServerMsg) -> (r: ServerMsgType) {
        match msg {
            ServerMsg::VendSucceed => ServerMsgType::VendSucceed,
            ServerMsg::VendFailed => ServerMsgType::VendFailed,
            ServerMsg::MoneyAdded(_) => ServerMsgType::MoneyAdded,
            ServerMsg::Tampering => ServerMsgType::Tampering,
        }
    }
}

impl vstd::std_specs::convert::FromSpecImpl<ServerMsg> for ServerMsgType {
    open spec fn obeys_from_spec() -> bool {
        true
    }

    open spec fn from_spec(msg: ServerMsg) -> ServerMsgType {
        server_kind(msg)
    }
}

impl Response {
    pub open spec fn spec_byte(self) -> u8 {
        match self {
            Response::NACK => NACK,
            Response::ACK => ACK,
            Response::ReadFail => READ_FAIL,
        }
    }

    pub fn from_u8(b: u8) -> (r: Option<Response>)
        ensures
            r == response_of(b),
    {
        if b == ACK {
            Some(Response::ACK)
        } else if b == NACK {
            Some(Response::NACK)
        } else if b == READ_FAIL {
            Some(Response::ReadFail)
        } else {
            None
        }
    }

    pub fn byte(&self) -> (r: u8)
        ensures
            r == self.spec_byte(),
    {
        match self {
            Response::NACK => NACK,
            Response::ACK => ACK,
            Response::ReadFail => READ_FAIL,
        }
    }
}

impl RW {
    pub open spec fn spec_byte(self) -> u8 {
        match self {
            RW::Read => READ,
            RW::Write => WRITE,
        }
    }

    pub fn byte(&self) -> (r: u8)
        ensures
            r == self.spec_byte(),
    {
        match self {
            RW::Read => READ,
            RW::Write => WRITE,
        }
    }
}

/// The bytes of a command on the wire.
pub open spec fn client_bytes(msg: ClientMsg) -> Seq<u8> {
    match msg {
        ClientMsg::Watchdog => seq![ClientMsgType::Watchdog.spec_tag()],
        ClientMsg::Vend(slot) => seq![ClientMsgType::Vend.spec_tag(), slot],
        ClientMsg::ConfigChannel(a, b, c) => seq![ClientMsgType::ConfigChannel.spec_tag(), a, b, c],
        ClientMsg::ConfigBehavior(a, b) => seq![ClientMsgType::ConfigBehavior.spec_tag(), a, b],
        ClientMsg::Shutdown => seq![ClientMsgType::Shutdown.spec_tag()],
    }
}

/// The bytes of an event on the wire.
pub open spec fn server_bytes(msg: ServerMsg) -> Seq<u8> {
    match msg {
        ServerMsg::MoneyAdded(n) => seq![ServerMsgType::MoneyAdded.spec_tag(), n],
        _ => seq![server_kind(msg).spec_tag()],
    }
}

/// What the bytes received so far say: nothing yet while the leading byte
/// or the rest of its message is missing, an error for an unknown leading
/// byte, and otherwise the command. Bytes past the message are ignored.
pub open spec fn decode_client(bytes: Seq<u8>) -> Result<Option<ClientMsg>, WireError> {
    if bytes.len() == 0 {
        Ok(None)
    } else {
        match client_type_of(bytes[0]) {
            None => Err(WireError::BadHeader(bytes[0])),
            Some(t) => if bytes.len() < t.spec_size() {
                Ok(None)
            } else {
                Ok(
                    Some(
                        match t {
                            ClientMsgType::Watchdog => ClientMsg::Watchdog,
                            ClientMsgType::Shutdown => ClientMsg::Shutdown,
                            ClientMsgType::Vend => ClientMsg::Vend(bytes[1]),
                            ClientMsgType::ConfigChannel => ClientMsg::ConfigChannel(
                                bytes[1],
                                bytes[2],
                                bytes[3],
                            ),
                            ClientMsgType::ConfigBehavior => ClientMsg::ConfigBehavior(
                                bytes[1],
                                bytes[2],
                            ),
                        },
                    ),
                )
            },
        }
    }
}

/// The same reading for events.
pub open spec fn decode_server(bytes: Seq<u8>) -> Result<Option<ServerMsg>, WireError> {
    if bytes.len() == 0 {
        Ok(None)
    } else {
        match server_type_of(bytes[0]) {
            None => Err(WireError::BadHeader(bytes[0])),
            Some(t) => if bytes.len() < t.spec_size() {
                Ok(None)
            } else {
                Ok(
                    Some(
                        match t {
                            ServerMsgType::VendSucceed => ServerMsg::VendSucceed,
                            ServerMsgType::VendFailed => ServerMsg::VendFailed,
                            ServerMsgType::MoneyAdded => ServerMsg::MoneyAdded(bytes[1]),
                            ServerMsgType::Tampering => ServerMsg::Tampering,
                        },
                    ),
                )
            },
        }
    }
}

/// Reads a command from the first `n` bytes of `buf`.
pub fn parse_client_msg(buf: &[u8], n: usize) -> (r: Result<Option<ClientMsg>, WireError>)
    requires
        n <= buf@.len(),
    ensures
        r == decode_client(buf@.take(n as int)),
{
    if n == 0 {
        return Ok(None);
    }
    let msg_type = match ClientMsgType::from_u8(buf[0]) {
        Some(t) => t,
        None => return Err(WireError::BadHeader(buf[0])),
    };
    if n < msg_type.msg_size() {
        return Ok(None);
    }
    Ok(
        Some(
            match msg_type {
                ClientMsgType::Watchdog => ClientMsg::Watchdog,
                ClientMsgType::Shutdown => ClientMsg::Shutdown,
                ClientMsgType::Vend => ClientMsg::Vend(buf[1]),
                ClientMsgType::ConfigChannel => ClientMsg::ConfigChannel(buf[1], buf[2], buf[3]),
                ClientMsgType::ConfigBehavior => ClientMsg::ConfigBehavior(buf[1], buf[2]),
            },
        ),
    )
}

/// Reads an event from the first `n` bytes of `buf`.
pub fn parse_server_msg(buf: &[u8], n: usize) -> (r: Result<Option<ServerMsg>, WireError>)
    requires
        n <= buf@.len(),
    ensures
        r == decode_server(buf@.take(n as int)),
{
    if n == 0 {
        return Ok(None);
    }
    let msg_type = match ServerMsgType::from_u8(buf[0]) {
        Some(t) => t,
        None => return Err(WireError::BadHeader(buf[0])),
    };
    if n < msg_type.msg_size() {
        return Ok(None);
    }
    Ok(
        Some(
            match msg_type {
                ServerMsgType::VendSucceed => ServerMsg::VendSucceed,
                ServerMsgType::VendFailed => ServerMsg::VendFailed,
                ServerMsgType::MoneyAdded => ServerMsg::MoneyAdded(buf[1]),
                ServerMsgType::Tampering => ServerMsg::Tampering,
            },
        ),
    )
}

/// The bytes that carry an event: its kind's leading byte, then its
/// payload.
pub fn encode_server_msg(msg: &ServerMsg) -> (r: Vec<u8>)
    ensures
        r@ == server_bytes(*msg),
{
    let kind = ServerMsgType::from(*msg);
    let mut r: Vec<u8> = Vec::new();
    r.push(kind.tag());
    match msg {
        ServerMsg::MoneyAdded(n) => r.push(*n),
        _ => {},
    }
    assert(r@ =~= server_bytes(*msg));
    r
}

/// An event read back from its own bytes is the same event.
pub proof fn server_round_trip(msg: ServerMsg)
    ensures
        decode_server(server_bytes(msg)) == Ok::<Option<ServerMsg>, WireError>(Some(msg)),
{
}

/// A command read back from its own bytes is the same command.
pub proof fn client_round_trip(msg: ClientMsg)
    ensures
        decode_client(client_bytes(msg)) == Ok::<Option<ClientMsg>, WireError>(Some(msg)),
{
}

/// No proper prefix of a command's bytes reads as a message.
pub proof fn client_prefix_incomplete(msg: ClientMsg, k: nat)
    requires
        k < client_bytes(msg).len(),
    ensures
        decode_client(client_bytes(msg).take(k as int)) == Ok::<Option<ClientMsg>, WireError>(
            None,
        ),
{
}

/// No proper prefix of an event's bytes reads as a message.
pub proof fn server_prefix_incomplete(msg: ServerMsg, k: nat)
    requires
        k < server_bytes(msg).len(),
    ensures
        decode_server(server_bytes(msg).take(k as int)) == Ok::<Option<ServerMsg>, WireError>(
            None,
        ),
{
}

} // verus!
