//! The messages that a node exchanges with a relay.
use crate::error::{Error, ErrorView};
use vstd::prelude::*;
use vstd::string::StringExecFns;

verus! {

/// The largest message, in bytes, that is exchanged with a relay.
pub const MAX_MESSAGE_SIZE: usize = 4096;

/// The name of the protocol for requests to a relay.
pub open spec fn hop_protocol_name() -> Seq<char> {
    "/libp2p/circuit/relay/0.2.0/hop"@
}

/// `libp2p_relay::HOP_PROTOCOL_NAME`, as text by `StreamProtocol::as_ref`: the name of the
/// protocol for requests to a relay.
#[verifier::external_body]
pub(crate) fn hop_protocol() -> (name: String)
    ensures
        name@ == hop_protocol_name(),
{
    String::from(libp2p_relay::HOP_PROTOCOL_NAME.as_ref())
}

/// What a message is for.
#[derive(Debug, Clone, Copy, PartialEq, Eq)]
pub enum HopMessageType {
    RESERVE,
    CONNECT,
    STATUS,
}

/// The outcome that a relay reports.
#[allow(non_camel_case_types)]
#[derive(Debug, Clone, Copy, PartialEq, Eq)]
pub enum Status {
    OK,
    RESERVATION_REFUSED,
    RESOURCE_LIMIT_EXCEEDED,
    PERMISSION_DENIED,
    CONNECTION_FAILED,
    NO_RESERVATION,
    MALFORMED_MESSAGE,
    UNEXPECTED_MESSAGE,
}

/// A peer that a message speaks of.
#[derive(Debug, PartialEq, Eq)]
pub struct Peer {
    pub id: Vec<u8>,
    pub addrs: Vec<Vec<u8>>,
}

/// A reservation that a relay granted.
#[derive(Debug, PartialEq, Eq)]
pub struct Reservation {
    /// When the reservation ends, in seconds since 1970.
    pub expire: u64,
    /// The binary forms of the addresses under which the relay is reached.
    pub addrs: Vec<Vec<u8>>,
    pub voucher: Option<Vec<u8>>,
}

/// The limits of a relayed connection.
#[derive(Debug, Clone, Copy, PartialEq, Eq)]
pub struct Limit {
    /// In seconds.
    pub duration: Option<u32>,
    /// In bytes.
    pub data: Option<u64>,
}

/// A message between a node and a relay.
#[derive(Debug, PartialEq, Eq)]
pub struct HopMessage {
    pub type_pb: HopMessageType,
    pub peer: Option<Peer>,
    pub reservation: Option<Reservation>,
    pub limit: Option<Limit>,
    pub status: Option<Status>,
}

/// The message that asks a relay for a reservation.
pub open spec fn reserve_message() -> HopMessage {
    HopMessage {
        type_pb: HopMessageType::RESERVE,
        peer: None,
        reservation: None,
        limit: None,
        status: None,
    }
}

/// The name of a status.
pub open spec fn status_name(status: Status) -> Seq<char> {
    match status {
        Status::OK => "OK"@,
        Status::RESERVATION_REFUSED => "RESERVATION_REFUSED"@,
        Status::RESOURCE_LIMIT_EXCEEDED => "RESOURCE_LIMIT_EXCEEDED"@,
        Status::PERMISSION_DENIED => "PERMISSION_DENIED"@,
        Status::CONNECTION_FAILED => "CONNECTION_FAILED"@,
        Status::NO_RESERVATION => "NO_RESERVATION"@,
        Status::MALFORMED_MESSAGE => "MALFORMED_MESSAGE"@,
        Status::UNEXPECTED_MESSAGE => "UNEXPECTED_MESSAGE"@,
    }
}

/// The number that stands for a status in a message.
pub open spec fn status_code(status: Status) -> i32 {
    match status {
        Status::OK => 100,
        Status::RESERVATION_REFUSED => 200,
        Status::RESOURCE_LIMIT_EXCEEDED => 201,
        Status::PERMISSION_DENIED => 202,
        Status::CONNECTION_FAILED => 203,
        Status::NO_RESERVATION => 204,
        Status::MALFORMED_MESSAGE => 400,
        Status::UNEXPECTED_MESSAGE => 401,
    }
}

/// The status that a number stands for.  A number that stands for none counts as
/// [`Status::OK`], the default.
pub open spec fn status_of(code: i32) -> Status {
    if code == 200 {
        Status::RESERVATION_REFUSED
    } else if code == 201 {
        Status::RESOURCE_LIMIT_EXCEEDED
    } else if code == 202 {
        Status::PERMISSION_DENIED
    } else if code == 203 {
        Status::CONNECTION_FAILED
    } else if code == 204 {
        Status::NO_RESERVATION
    } else if code == 400 {
        Status::MALFORMED_MESSAGE
    } else if code == 401 {
        Status::UNEXPECTED_MESSAGE
    } else {
        Status::OK
    }
}

/// The number that stands for the type of a message.
pub open spec fn type_code(kind: HopMessageType) -> i32 {
    match kind {
        HopMessageType::RESERVE => 0,
        HopMessageType::CONNECT => 1,
        HopMessageType::STATUS => 2,
    }
}

/// The type of a message that a number stands for.  A number that stands for none counts as
/// [`HopMessageType::RESERVE`], the default.
pub open spec fn type_of(code: i32) -> HopMessageType {
    if code == 1 {
        HopMessageType::CONNECT
    } else if code == 2 {
        HopMessageType::STATUS
    } else {
        HopMessageType::RESERVE
    }
}

/// What the answer to a request for a reservation means: nothing is wrong only where the
/// status is [`Status::OK`].
pub open spec fn reservation_error(status: Option<Status>) -> Option<ErrorView> {
    match status {
        Some(Status::OK) => None,
        Some(Status::RESERVATION_REFUSED) => Some(
            ErrorView::InvalidMultiaddr("Reservation refused by relay"@),
        ),
        Some(Status::RESOURCE_LIMIT_EXCEEDED) => Some(
            ErrorView::InvalidMultiaddr("Resource limit exceeded on relay"@),
        ),
        Some(other) => Some(
            ErrorView::InvalidMultiaddr("Reservation failed with status: "@ + status_name(other)),
        ),
        None => Some(ErrorView::InvalidMultiaddr("Missing status in relay response"@)),
    }
}

impl Status {
    /// The name of the status.
    pub fn name(self) -> (name: &'static str)
        ensures
            name@ == status_name(self),
    {
        match self {
            Status::OK => "OK",
            Status::RESERVATION_REFUSED => "RESERVATION_REFUSED",
            Status::RESOURCE_LIMIT_EXCEEDED => "RESOURCE_LIMIT_EXCEEDED",
            Status::PERMISSION_DENIED => "PERMISSION_DENIED",
            Status::CONNECTION_FAILED => "CONNECTION_FAILED",
            Status::NO_RESERVATION => "NO_RESERVATION",
            Status::MALFORMED_MESSAGE => "MALFORMED_MESSAGE",
            Status::UNEXPECTED_MESSAGE => "UNEXPECTED_MESSAGE",
        }
    }

    /// The number that stands for the status in a message.
    pub fn code(self) -> (code: i32)
        ensures
            code == status_code(self),
    {
        match self {
            Status::OK => 100,
            Status::RESERVATION_REFUSED => 200,
            Status::RESOURCE_LIMIT_EXCEEDED => 201,
            Status::PERMISSION_DENIED => 202,
            Status::CONNECTION_FAILED => 203,
            Status::NO_RESERVATION => 204,
            Status::MALFORMED_MESSAGE => 400,
            Status::UNEXPECTED_MESSAGE => 401,
        }
    }

    /// The status that a number stands for, and [`Status::OK`] where it stands for none.
    pub fn from_code(code: i32) -> (status: Self)
        ensures
            status == status_of(code),
    {
        match code {
            200 => Status::RESERVATION_REFUSED,
            201 => Status::RESOURCE_LIMIT_EXCEEDED,
            202 => Status::PERMISSION_DENIED,
            203 => Status::CONNECTION_FAILED,
            204 => Status::NO_RESERVATION,
            400 => Status::MALFORMED_MESSAGE,
            401 => Status::UNEXPECTED_MESSAGE,
            _ => Status::OK,
        }
    }
}

impl HopMessageType {
    /// The number that stands for the type in a message.
    pub fn code(self) -> (code: i32)
        ensures
            code == type_code(self),
    {
        match self {
            HopMessageType::RESERVE => 0,
            HopMessageType::CONNECT => 1,
            HopMessageType::STATUS => 2,
        }
    }

    /// The type that a number stands for, and [`HopMessageType::RESERVE`] where it stands for
    /// none.
    pub fn from_code(code: i32) -> (kind: Self)
        ensures
            kind == type_of(code),
    {
        match code {
            1 => HopMessageType::CONNECT,
            2 => HopMessageType::STATUS,
            _ => HopMessageType::RESERVE,
        }
    }
}

impl HopMessage {
    /// The message that asks a relay for a reservation.
    pub fn reserve() -> (message: Self)
        ensures
            message == reserve_message(),
    {
        HopMessage {
            type_pb: HopMessageType::RESERVE,
            peer: None,
            reservation: None,
            limit: None,
            status: None,
        }
    }
}

/// Checks the status in the answer to a request for a reservation.
pub fn check_status(status: Option<Status>) -> (checked: Result<(), Error>)
    ensures
        checked is Ok <==> reservation_error(status) is None,
        checked is Ok <==> status == Some(Status::OK),
        checked matches Err(error) ==> Some(error@) == reservation_error(status),
{
    match status {
        Some(Status::OK) => Ok(()),
        Some(Status::RESERVATION_REFUSED) => Err(
            Error::InvalidMultiaddr(String::from_str("Reservation refused by relay")),
        ),
        Some(Status::RESOURCE_LIMIT_EXCEEDED) => Err(
            Error::InvalidMultiaddr(String::from_str("Resource limit exceeded on relay")),
        ),
        Some(other) => {
            let mut text: String = String::from_str("Reservation failed with status: ");
            text.append(other.name());
            Err(Error::InvalidMultiaddr(text))
        },
        None => Err(Error::InvalidMultiaddr(String::from_str("Missing status in relay response"))),
    }
}

/// The numbers of statuses and of types of messages are read back as they were written.
pub proof fn law_codes_read_back(status: Status, kind: HopMessageType)
    ensures
        status_of(status_code(status)) == status,
        type_of(type_code(kind)) == kind,
{
}

/// Every status but [`Status::OK`] has one number of its own; every other number is read as
/// [`Status::OK`].
pub proof fn law_status_numbers(code: i32)
    ensures
        status_code(Status::OK) == 100,
        status_of(code) == Status::RESERVATION_REFUSED <==> code == 200,
        status_of(code) == Status::RESOURCE_LIMIT_EXCEEDED <==> code == 201,
        status_of(code) == Status::PERMISSION_DENIED <==> code == 202,
        status_of(code) == Status::CONNECTION_FAILED <==> code == 203,
        status_of(code) == Status::NO_RESERVATION <==> code == 204,
        status_of(code) == Status::MALFORMED_MESSAGE <==> code == 400,
        status_of(code) == Status::UNEXPECTED_MESSAGE <==> code == 401,
{
}

/// Requests to connect and messages with a status have one number each; every other number is
/// read as a request for a reservation.
pub proof fn law_type_numbers(code: i32)
    ensures
        type_code(HopMessageType::RESERVE) == 0,
        type_of(code) == HopMessageType::CONNECT <==> code == 1,
        type_of(code) == HopMessageType::STATUS <==> code == 2,
{
}

/// A request for a reservation is nothing but its type.
pub proof fn law_request_holds_only_its_type()
    ensures
        reserve_message().type_pb is RESERVE,
        reserve_message().peer is None,
        reserve_message().reservation is None,
        reserve_message().limit is None,
        reserve_message().status is None,
{
}

/// An answer grants the reservation if and only if its status is [`Status::OK`]; otherwise the
/// error says why it does not, with the name of the status where nothing better is known.
pub proof fn law_only_ok_grants(status: Option<Status>)
    ensures
        reservation_error(status) is None <==> status == Some(Status::OK),
        status is None ==> reservation_error(status) == Some(
            ErrorView::InvalidMultiaddr("Missing status in relay response"@),
        ),
        status == Some(Status::RESERVATION_REFUSED) ==> reservation_error(status) == Some(
            ErrorView::InvalidMultiaddr("Reservation refused by relay"@),
        ),
        status == Some(Status::RESOURCE_LIMIT_EXCEEDED) ==> reservation_error(status) == Some(
            ErrorView::InvalidMultiaddr("Resource limit exceeded on relay"@),
        ),
        status matches Some(other) ==> {
            ||| other is OK
            ||| other is RESERVATION_REFUSED
            ||| other is RESOURCE_LIMIT_EXCEEDED
            ||| reservation_error(status) == Some(
                ErrorView::InvalidMultiaddr(
                    "Reservation failed with status: "@ + status_name(other),
                ),
            )
        },
{
}

} // verus!
