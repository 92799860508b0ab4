//! Classification of decoded notification envelopes.
//!
//! An envelope is reduced to one of four actionable event kinds or to
//! `Ignored`. The details carried by an event serve diagnostics only: no
//! decision depends on them.

use vstd::prelude::*;

verus! {

/// A destination subnet: the network address as octets (four for IPv4,
/// sixteen for IPv6) and the prefix length in bits.
#[derive(Clone, Debug, PartialEq, Eq)]
pub struct Prefix {
    pub address: Vec<u8>,
    pub length: u8,
}

/// What identifies a changed route.
#[derive(Clone, Debug, PartialEq, Eq)]
pub struct RouteDetail {
    pub destination: Option<Prefix>,
    pub gateway: Option<Vec<u8>>,
}

/// What identifies a changed interface address.
#[derive(Clone, Debug, PartialEq, Eq)]
pub struct AddressDetail {
    pub family: u8,
    pub prefix_len: u8,
    pub flags: u8,
    pub scope: u8,
    pub index: u32,
    pub address: Option<Vec<u8>>,
}

/// A route or address message inside an envelope.
#[derive(Clone, Debug, PartialEq, Eq)]
pub enum InnerMessage {
    NewRoute(RouteDetail),
    DelRoute(RouteDetail),
    NewAddress(AddressDetail),
    DelAddress(AddressDetail),
    /// Any other kind of message, by its message type number.
    Other(u16),
}

/// The payload of a decoded notification envelope.
#[derive(Clone, Debug, PartialEq, Eq)]
pub enum Payload {
    Done,
    Error(i32),
    Ack(i32),
    Noop,
    Overrun,
    Inner(InnerMessage),
}

/// What a notification means to the dispatcher.
#[derive(Clone, Debug, PartialEq, Eq)]
pub enum NotificationEvent {
    RouteAdded(RouteDetail),
    RouteRemoved(RouteDetail),
    AddressAdded(AddressDetail),
    AddressRemoved(AddressDetail),
    Ignored,
}

/// How loudly a notification is reported.
#[derive(Clone, Copy, Debug, PartialEq, Eq, Structural)]
pub enum Severity {
    Error,
    Warning,
    Info,
    Debug,
}

/// The event that a payload stands for.
pub open spec fn classification(payload: Payload) -> NotificationEvent {
    match payload {
        Payload::Inner(InnerMessage::NewRoute(route)) => NotificationEvent::RouteAdded(route),
        Payload::Inner(InnerMessage::DelRoute(route)) => NotificationEvent::RouteRemoved(route),
        Payload::Inner(InnerMessage::NewAddress(address)) => NotificationEvent::AddressAdded(
            address,
        ),
        Payload::Inner(InnerMessage::DelAddress(address)) => NotificationEvent::AddressRemoved(
            address,
        ),
        _ => NotificationEvent::Ignored,
    }
}

/// Whether a payload reports a route or an address that was added or removed.
pub open spec fn reports_change(payload: Payload) -> bool {
    payload matches Payload::Inner(inner) && !(inner is Other)
}

/// The severity at which a payload is reported. Every kind is reported:
/// a change as information; a control kind that tells of trouble or of a
/// request that was never made as an error or a warning, since a socket
/// that only subscribes expects none; the no-op kind and unrelated inner
/// messages for debugging.
pub open spec fn severity_of(payload: Payload) -> Severity {
    match payload {
        Payload::Done => Severity::Error,
        Payload::Error(_) => Severity::Error,
        Payload::Ack(_) => Severity::Warning,
        Payload::Noop => Severity::Debug,
        Payload::Overrun => Severity::Warning,
        Payload::Inner(InnerMessage::Other(_)) => Severity::Debug,
        Payload::Inner(_) => Severity::Info,
    }
}

impl NotificationEvent {
    /// An event that calls for a script run: every kind but `Ignored`.
    pub open spec fn actionable(self) -> bool {
        !(self is Ignored)
    }

    /// Whether the event calls for a script run.
    pub fn is_actionable(&self) -> (yes: bool)
        ensures
            yes == self.actionable(),
    {
        match self {
            NotificationEvent::Ignored => false,
            _ => true,
        }
    }
}

/// Reduces a payload to its event. Control kinds and unrelated inner
/// messages are ignored; the four route and address changes are actionable.
pub fn classify(payload: Payload) -> (event: NotificationEvent)
    ensures
        event == classification(payload),
        event.actionable() <==> reports_change(payload),
{
    match payload {
        Payload::Inner(inner) => match inner {
            InnerMessage::NewRoute(route) => NotificationEvent::RouteAdded(route),
            InnerMessage::DelRoute(route) => NotificationEvent::RouteRemoved(route),
            InnerMessage::NewAddress(address) => NotificationEvent::AddressAdded(address),
            InnerMessage::DelAddress(address) => NotificationEvent::AddressRemoved(address),
            InnerMessage::Other(_) => NotificationEvent::Ignored,
        },
        _ => NotificationEvent::Ignored,
    }
}

/// The severity at which a payload is reported: `Error` for done and
/// error, `Warning` for acknowledgement and overrun, `Debug` for no-op and
/// for unrelated inner messages, `Info` for the four changes.
pub fn severity(payload: &Payload) -> (level: Severity)
    ensures
        level == severity_of(*payload),
{
    match payload {
        Payload::Done => Severity::Error,
        Payload::Error(_) => Severity::Error,
        Payload::Ack(_) => Severity::Warning,
        Payload::Noop => Severity::Debug,
        Payload::Overrun => Severity::Warning,
        Payload::Inner(inner) => match inner {
            InnerMessage::Other(_) => Severity::Debug,
            _ => Severity::Info,
        },
    }
}

/// Exactly the payloads that report a change classify as actionable, and
/// exactly they are reported as information: no control kind and no
/// unrelated message is taken for a change, in the signal or in the log.
pub proof fn changes_are_actionable(payload: Payload)
    ensures
        classification(payload).actionable() <==> reports_change(payload),
        severity_of(payload) == Severity::Info <==> reports_change(payload),
{
}

} // verus!
