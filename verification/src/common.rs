//! Shared protocol values: command identities, address type indicators, the
//! bind mode, the message state, the error type, and the status-description
//! lookup.

use vstd::prelude::*;

verus! {

// --- Command identities ---
// Each response identity is its request identity with the high bit set.

/// Command identity for a bind-receiver request.
pub const CMD_BIND_RECEIVER: u32 = 0x00000001;
/// Command identity for a bind-receiver response.
pub const CMD_BIND_RECEIVER_RESP: u32 = 0x80000001;

/// Command identity for a bind-transmitter request.
pub const CMD_BIND_TRANSMITTER: u32 = 0x00000002;
/// Command identity for a bind-transmitter response.
pub const CMD_BIND_TRANSMITTER_RESP: u32 = 0x80000002;

/// Command identity for a bind-transceiver request.
pub const CMD_BIND_TRANSCEIVER: u32 = 0x00000009;
/// Command identity for a bind-transceiver response.
pub const CMD_BIND_TRANSCEIVER_RESP: u32 = 0x80000009;

/// Command identity for an outbind request.
pub const CMD_OUTBIND: u32 = 0x0000000B;

/// Command identity for an enquire-link request.
pub const CMD_ENQUIRE_LINK: u32 = 0x00000015;
/// Command identity for an enquire-link response.
pub const CMD_ENQUIRE_LINK_RESP: u32 = 0x80000015;

/// Command identity for a submit-sm request.
pub const CMD_SUBMIT_SM: u32 = 0x00000004;
/// Command identity for a submit-sm response.
pub const CMD_SUBMIT_SM_RESP: u32 = 0x80000004;

/// Command identity for a deliver-sm request.
pub const CMD_DELIVER_SM: u32 = 0x00000005;
/// Command identity for a deliver-sm response.
pub const CMD_DELIVER_SM_RESP: u32 = 0x80000005;

/// Command identity for an unbind request.
pub const CMD_UNBIND: u32 = 0x00000006;
/// Command identity for an unbind response.
pub const CMD_UNBIND_RESP: u32 = 0x80000006;

/// Command identity for a submit-multi request.
pub const CMD_SUBMIT_MULTI_SM: u32 = 0x00000021;
/// Command identity for a submit-multi response.
pub const CMD_SUBMIT_MULTI_SM_RESP: u32 = 0x80000021;

/// Command identity for a query-sm request.
pub const CMD_QUERY_SM: u32 = 0x00000003;
/// Command identity for a query-sm response.
pub const CMD_QUERY_SM_RESP: u32 = 0x80000003;

/// Command identity for a cancel-sm request.
pub const CMD_CANCEL_SM: u32 = 0x00000008;
/// Command identity for a cancel-sm response.
pub const CMD_CANCEL_SM_RESP: u32 = 0x80000008;

/// Command identity for a replace-sm request.
pub const CMD_REPLACE_SM: u32 = 0x00000007;
/// Command identity for a replace-sm response.
pub const CMD_REPLACE_SM_RESP: u32 = 0x80000007;

/// Command identity for a data-sm request.
pub const CMD_DATA_SM: u32 = 0x00000103;
/// Command identity for a data-sm response.
pub const CMD_DATA_SM_RESP: u32 = 0x80000103;

/// Command identity for an alert-notification request.
pub const CMD_ALERT_NOTIFICATION: u32 = 0x00000102;
/// Command identity some implementations use for an alert-notification
/// response, although the protocol defines none.
pub const CMD_ALERT_NOTIFICATION_RESP: u32 = 0x80000102;

/// The generic negative acknowledgement, usable for any malformed or
/// unrecognized request.
pub const GENERIC_NACK: u32 = 0x80000000;

/// Command identity for a broadcast-sm request.
pub const CMD_BROADCAST_SM: u32 = 0x00000111;
/// Command identity for a broadcast-sm response.
pub const CMD_BROADCAST_SM_RESP: u32 = 0x80000112;

/// Command identity for a query-broadcast-sm request.
pub const CMD_QUERY_BROADCAST_SM: u32 = 0x00000112;
/// Command identity for a query-broadcast-sm response.
pub const CMD_QUERY_BROADCAST_SM_RESP: u32 = 0x80000112;

/// Command identity for a cancel-broadcast-sm request.
pub const CMD_CANCEL_BROADCAST_SM: u32 = 0x00000113;
/// Command identity for a cancel-broadcast-sm response.
pub const CMD_CANCEL_BROADCAST_SM_RESP: u32 = 0x80000113;

/// Standard header length in bytes.
pub const HEADER_LEN: usize = 16;

/// Interface version byte of protocol revision 3.4.
pub const SMPP_INTERFACE_VERSION_34: u8 = 0x34;
/// Interface version byte of protocol revision 5.0.
pub const SMPP_INTERFACE_VERSION_50: u8 = 0x50;

/// Command status of a successful operation.
pub const COMMAND_STATUS_OK: u32 = 0x00000000;

// --- Errors ---

/// Error returned by the decoding and splitting operations.
#[derive(Clone, Debug)]
pub enum SmppFfiError {
    /// Generic error with a message.
    Generic {
        /// The error message.
        msg: String,
    },
}

impl SmppFfiError {
    /// The message carried by the error.
    pub open spec fn spec_message(&self) -> Seq<char> {
        match self {
            SmppFfiError::Generic { msg } => msg@,
        }
    }

    /// Returns the message carried by the error.
    pub fn message(&self) -> (m: String)
        ensures
            m@ == self.spec_message(),
    {
        match self {
            SmppFfiError::Generic { msg } => msg.clone(),
        }
    }
}

// --- Address type of number ---

/// Address type of number.
#[derive(Clone, Copy, Debug, PartialEq, Eq, Structural)]
pub enum Ton {
    /// Unknown
    Unknown,
    /// International
    International,
    /// National
    National,
    /// Network specific
    NetworkSpecific,
    /// Subscriber number
    SubscriberNumber,
    /// Alphanumeric
    Alphanumeric,
    /// Abbreviated
    Abbreviated,
}

/// Wire byte of a type-of-number value.
pub open spec fn ton_value(t: Ton) -> u8 {
    match t {
        Ton::Unknown => 0x00,
        Ton::International => 0x01,
        Ton::National => 0x02,
        Ton::NetworkSpecific => 0x03,
        Ton::SubscriberNumber => 0x04,
        Ton::Alphanumeric => 0x05,
        Ton::Abbreviated => 0x06,
    }
}

/// Type-of-number value of a wire byte, if the byte is one.
pub open spec fn ton_of_value(b: u8) -> Option<Ton> {
    if b == 0x00 {
        Some(Ton::Unknown)
    } else if b == 0x01 {
        Some(Ton::International)
    } else if b == 0x02 {
        Some(Ton::National)
    } else if b == 0x03 {
        Some(Ton::NetworkSpecific)
    } else if b == 0x04 {
        Some(Ton::SubscriberNumber)
    } else if b == 0x05 {
        Some(Ton::Alphanumeric)
    } else if b == 0x06 {
        Some(Ton::Abbreviated)
    } else {
        None
    }
}

impl Ton {
    /// Returns the wire byte of this type-of-number value.
    pub fn to_byte(self) -> (b: u8)
        ensures
            b == ton_value(self),
    {
        match self {
            Ton::Unknown => 0x00,
            Ton::International => 0x01,
            Ton::National => 0x02,
            Ton::NetworkSpecific => 0x03,
            Ton::SubscriberNumber => 0x04,
            Ton::Alphanumeric => 0x05,
            Ton::Abbreviated => 0x06,
        }
    }

    /// Reads a type-of-number value from its wire byte.
    pub fn from_byte(b: u8) -> (r: Option<Ton>)
        ensures
            r == ton_of_value(b),
    {
        if b == 0x00 {
            Some(Ton::Unknown)
        } else if b == 0x01 {
            Some(Ton::International)
        } else if b == 0x02 {
            Some(Ton::National)
        } else if b == 0x03 {
            Some(Ton::NetworkSpecific)
        } else if b == 0x04 {
            Some(Ton::SubscriberNumber)
        } else if b == 0x05 {
            Some(Ton::Alphanumeric)
        } else if b == 0x06 {
            Some(Ton::Abbreviated)
        } else {
            None
        }
    }
}

/// Reading back the wire byte of a type-of-number value yields the value.
pub proof fn lemma_ton_roundtrip(t: Ton)
    ensures
        ton_of_value(ton_value(t)) == Some(t),
{
}

// --- Address numbering plan indicator ---

/// Address numbering plan indicator.
#[derive(Clone, Copy, Debug, PartialEq, Eq, Structural)]
pub enum Npi {
    /// Unknown
    Unknown,
    /// ISDN
    Isdn,
    /// Data
    Data,
    /// Telex
    Telex,
    /// Land mobile
    LandMobile,
    /// National
    National,
    /// Private
    Private,
    /// ERMES
    Ermes,
    /// Internet
    Internet,
    /// WAP
    Wap,
}

/// Wire byte of a numbering-plan-indicator value.
pub open spec fn npi_value(n: Npi) -> u8 {
    match n {
        Npi::Unknown => 0x00,
        Npi::Isdn => 0x01,
        Npi::Data => 0x03,
        Npi::Telex => 0x04,
        Npi::LandMobile => 0x06,
        Npi::National => 0x08,
        Npi::Private => 0x09,
        Npi::Ermes => 0x0A,
        Npi::Internet => 0x0E,
        Npi::Wap => 0x12,
    }
}

/// Numbering-plan-indicator value of a wire byte, if the byte is one.
pub open spec fn npi_of_value(b: u8) -> Option<Npi> {
    if b == 0x00 {
        Some(Npi::Unknown)
    } else if b == 0x01 {
        Some(Npi::Isdn)
    } else if b == 0x03 {
        Some(Npi::Data)
    } else if b == 0x04 {
        Some(Npi::Telex)
    } else if b == 0x06 {
        Some(Npi::LandMobile)
    } else if b == 0x08 {
        Some(Npi::National)
    } else if b == 0x09 {
        Some(Npi::Private)
    } else if b == 0x0A {
        Some(Npi::Ermes)
    } else if b == 0x0E {
        Some(Npi::Internet)
    } else if b == 0x12 {
        Some(Npi::Wap)
    } else {
        None
    }
}

impl Npi {
    /// Returns the wire byte of this numbering-plan-indicator value.
    pub fn to_byte(self) -> (b: u8)
        ensures
            b == npi_value(self),
    {
        match self {
            Npi::Unknown => 0x00,
            Npi::Isdn => 0x01,
            Npi::Data => 0x03,
            Npi::Telex => 0x04,
            Npi::LandMobile => 0x06,
            Npi::National => 0x08,
            Npi::Private => 0x09,
            Npi::Ermes => 0x0A,
            Npi::Internet => 0x0E,
            Npi::Wap => 0x12,
        }
    }

    /// Reads a numbering-plan-indicator value from its wire byte.
    pub fn from_byte(b: u8) -> (r: Option<Npi>)
        ensures
            r == npi_of_value(b),
    {
        if b == 0x00 {
            Some(Npi::Unknown)
        } else if b == 0x01 {
            Some(Npi::Isdn)
        } else if b == 0x03 {
            Some(Npi::Data)
        } else if b == 0x04 {
            Some(Npi::Telex)
        } else if b == 0x06 {
            Some(Npi::LandMobile)
        } else if b == 0x08 {
            Some(Npi::National)
        } else if b == 0x09 {
            Some(Npi::Private)
        } else if b == 0x0A {
            Some(Npi::Ermes)
        } else if b == 0x0E {
            Some(Npi::Internet)
        } else if b == 0x12 {
            Some(Npi::Wap)
        } else {
            None
        }
    }
}

/// Reading back the wire byte of a numbering-plan-indicator value yields the
/// value.
pub proof fn lemma_npi_roundtrip(n: Npi)
    ensures
        npi_of_value(npi_value(n)) == Some(n),
{
}

// --- Bind mode ---

/// Bind mode of a session.
#[derive(Clone, Copy, Debug, PartialEq, Eq, Structural)]
pub enum BindMode {
    /// Receiver mode
    Receiver,
    /// Transmitter mode
    Transmitter,
    /// Transceiver mode
    Transceiver,
}

/// Request command identity of a bind mode.
pub open spec fn bind_mode_command(m: BindMode) -> u32 {
    match m {
        BindMode::Receiver => CMD_BIND_RECEIVER,
        BindMode::Transmitter => CMD_BIND_TRANSMITTER,
        BindMode::Transceiver => CMD_BIND_TRANSCEIVER,
    }
}

/// Bind mode of a request command identity, if the identity is a bind.
pub open spec fn bind_mode_of_command(id: u32) -> Option<BindMode> {
    if id == CMD_BIND_RECEIVER {
        Some(BindMode::Receiver)
    } else if id == CMD_BIND_TRANSMITTER {
        Some(BindMode::Transmitter)
    } else if id == CMD_BIND_TRANSCEIVER {
        Some(BindMode::Transceiver)
    } else {
        None
    }
}

impl BindMode {
    /// Returns the request command identity of this bind mode.
    pub fn to_command(self) -> (id: u32)
        ensures
            id == bind_mode_command(self),
    {
        match self {
            BindMode::Receiver => CMD_BIND_RECEIVER,
            BindMode::Transmitter => CMD_BIND_TRANSMITTER,
            BindMode::Transceiver => CMD_BIND_TRANSCEIVER,
        }
    }

    /// Reads a bind mode from a request command identity.
    pub fn from_command(id: u32) -> (r: Option<BindMode>)
        ensures
            r == bind_mode_of_command(id),
    {
        if id == CMD_BIND_RECEIVER {
            Some(BindMode::Receiver)
        } else if id == CMD_BIND_TRANSMITTER {
            Some(BindMode::Transmitter)
        } else if id == CMD_BIND_TRANSCEIVER {
            Some(BindMode::Transceiver)
        } else {
            None
        }
    }
}

/// Reading back the command identity of a bind mode yields the mode.
pub proof fn lemma_bind_mode_roundtrip(m: BindMode)
    ensures
        bind_mode_of_command(bind_mode_command(m)) == Some(m),
{
}

// --- Message state ---

/// State of a previously submitted message.
#[derive(Clone, Copy, Debug, PartialEq, Eq, Structural)]
pub enum MessageState {
    /// Message is in enroute state
    Enroute,
    /// Message is delivered
    Delivered,
    /// Message validity period has expired
    Expired,
    /// Message has been deleted
    Deleted,
    /// Message is undeliverable
    Undeliverable,
    /// Message is in accepted state
    Accepted,
    /// Message is in invalid state
    Unknown,
    /// Message is in rejected state
    Rejected,
}

/// Wire byte of a message state.
pub open spec fn message_state_value(s: MessageState) -> u8 {
    match s {
        MessageState::Enroute => 1,
        MessageState::Delivered => 2,
        MessageState::Expired => 3,
        MessageState::Deleted => 4,
        MessageState::Undeliverable => 5,
        MessageState::Accepted => 6,
        MessageState::Unknown => 7,
        MessageState::Rejected => 8,
    }
}

/// Message state of a wire byte, if the byte is one.
pub open spec fn message_state_of_value(b: u8) -> Option<MessageState> {
    if b == 1 {
        Some(MessageState::Enroute)
    } else if b == 2 {
        Some(MessageState::Delivered)
    } else if b == 3 {
        Some(MessageState::Expired)
    } else if b == 4 {
        Some(MessageState::Deleted)
    } else if b == 5 {
        Some(MessageState::Undeliverable)
    } else if b == 6 {
        Some(MessageState::Accepted)
    } else if b == 7 {
        Some(MessageState::Unknown)
    } else if b == 8 {
        Some(MessageState::Rejected)
    } else {
        None
    }
}

impl MessageState {
    /// Returns the wire byte of this message state.
    pub fn to_byte(self) -> (b: u8)
        ensures
            b == message_state_value(self),
    {
        match self {
            MessageState::Enroute => 1,
            MessageState::Delivered => 2,
            MessageState::Expired => 3,
            MessageState::Deleted => 4,
            MessageState::Undeliverable => 5,
            MessageState::Accepted => 6,
            MessageState::Unknown => 7,
            MessageState::Rejected => 8,
        }
    }

    /// Reads a message state from its wire byte.
    pub fn from_byte(b: u8) -> (r: Option<MessageState>)
        ensures
            r == message_state_of_value(b),
    {
        if b == 1 {
            Some(MessageState::Enroute)
        } else if b == 2 {
            Some(MessageState::Delivered)
        } else if b == 3 {
            Some(MessageState::Expired)
        } else if b == 4 {
            Some(MessageState::Deleted)
        } else if b == 5 {
            Some(MessageState::Undeliverable)
        } else if b == 6 {
            Some(MessageState::Accepted)
        } else if b == 7 {
            Some(MessageState::Unknown)
        } else if b == 8 {
            Some(MessageState::Rejected)
        } else {
            None
        }
    }
}

/// Reading back the wire byte of a message state yields the state.
pub proof fn lemma_message_state_roundtrip(s: MessageState)
    ensures
        message_state_of_value(message_state_value(s)) == Some(s),
{
}

// --- Status descriptions ---

/// Human-readable constant name of a command status code.
pub open spec fn status_text(code: u32) -> Seq<char> {
    if code == 0x00000000 {
        "ESME_ROK"@
    } else if code == 0x00000001 {
        "ESME_RINVMSGLEN"@
    } else if code == 0x00000002 {
        "ESME_RINVCMDLEN"@
    } else if code == 0x00000003 {
        "ESME_RINVCMDID"@
    } else if code == 0x00000004 {
        "ESME_RINVBNDSTS"@
    } else if code == 0x00000005 {
        "ESME_RALYBND"@
    } else if code == 0x00000006 {
        "ESME_RINVPRTFLG"@
    } else if code == 0x00000007 {
        "ESME_RINVREGDLVFLG"@
    } else if code == 0x00000008 {
        "ESME_RSYSERR"@
    } else if code == 0x0000000A {
        "ESME_RINVSRCADR"@
    } else if code == 0x0000000B {
        "ESME_RINVDSTADR"@
    } else if code == 0x0000000C {
        "ESME_RINVMSGID"@
    } else if code == 0x0000000D {
        "ESME_RBINDFAIL"@
    } else if code == 0x0000000E {
        "ESME_RINVPASWD"@
    } else if code == 0x0000000F {
        "ESME_RINVSYSID"@
    } else if code == 0x00000011 {
        "ESME_RCANCELFAIL"@
    } else if code == 0x00000013 {
        "ESME_RREPLACEFAIL"@
    } else if code == 0x00000014 {
        "ESME_RMSGQFUL"@
    } else if code == 0x00000015 {
        "ESME_RINVSERTYP"@
    } else if code == 0x00000058 {
        "ESME_RTHROTTLED"@
    } else {
        "UNKNOWN"@
    }
}

/// Returns the human-readable constant name of a command status code, or
/// `"UNKNOWN"` for a code outside the table.
pub fn get_status_description(code: u32) -> (r: String)
    ensures
        r@ == status_text(code),
{
    if code == 0x00000000 {
        String::from_str("ESME_ROK")
    } else if code == 0x00000001 {
        String::from_str("ESME_RINVMSGLEN")
    } else if code == 0x00000002 {
        String::from_str("ESME_RINVCMDLEN")
    } else if code == 0x00000003 {
        String::from_str("ESME_RINVCMDID")
    } else if code == 0x00000004 {
        String::from_str("ESME_RINVBNDSTS")
    } else if code == 0x00000005 {
        String::from_str("ESME_RALYBND")
    } else if code == 0x00000006 {
        String::from_str("ESME_RINVPRTFLG")
    } else if code == 0x00000007 {
        String::from_str("ESME_RINVREGDLVFLG")
    } else if code == 0x00000008 {
        String::from_str("ESME_RSYSERR")
    } else if code == 0x0000000A {
        String::from_str("ESME_RINVSRCADR")
    } else if code == 0x0000000B {
        String::from_str("ESME_RINVDSTADR")
    } else if code == 0x0000000C {
        String::from_str("ESME_RINVMSGID")
    } else if code == 0x0000000D {
        String::from_str("ESME_RBINDFAIL")
    } else if code == 0x0000000E {
        String::from_str("ESME_RINVPASWD")
    } else if code == 0x0000000F {
        String::from_str("ESME_RINVSYSID")
    } else if code == 0x00000011 {
        String::from_str("ESME_RCANCELFAIL")
    } else if code == 0x00000013 {
        String::from_str("ESME_RREPLACEFAIL")
    } else if code == 0x00000014 {
        String::from_str("ESME_RMSGQFUL")
    } else if code == 0x00000015 {
        String::from_str("ESME_RINVSERTYP")
    } else if code == 0x00000058 {
        String::from_str("ESME_RTHROTTLED")
    } else {
        String::from_str("UNKNOWN")
    }
}

} // verus!
