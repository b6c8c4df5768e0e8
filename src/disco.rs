//! Finding a bridge on the local network.
//!
//! Discovery asks the local network first (multicast DNS, with a bounded wait) and falls
//! back to the cloud discovery service once, when the local attempt fails for any reason.
//! The network work is done by the caller; this module decides what to do next and reads
//! what came back.
use vstd::prelude::*;
use crate::error::{error_message, HueError};

verus! {

/// The network address of a bridge.
#[derive(Debug, Clone, Copy, PartialEq, Eq, Structural)]
pub enum BridgeAddress {
    /// An IPv4 address, by octets.
    V4(u8, u8, u8, u8),
    /// An IPv6 address, as its 128-bit value.
    V6(u128),
}

/// An address written as text, with the address it denotes as the standard library's
/// `IpAddr::from_str` reads it (IPv4 or IPv6); `None` when the text is no IP address.
#[derive(Debug, Clone, PartialEq, Eq)]
pub struct AddressText {
    pub text: String,
    pub address: Option<BridgeAddress>,
}

/// The `internalipaddress` field of an entry of the cloud discovery answer.
#[derive(Debug, Clone, PartialEq, Eq)]
pub enum AddressField {
    Missing,
    /// Present, but not a JSON string.
    NotText,
    Text(AddressText),
}

/// An entry of the cloud discovery answer, as far as discovery reads it.
#[derive(Debug, Clone, PartialEq, Eq)]
pub struct CloudEntry {
    pub internalipaddress: AddressField,
}

/// What the cloud discovery answer yields: the address of its first entry.
pub open spec fn cloud_outcome(entries: Seq<CloudEntry>) -> Result<BridgeAddress, Seq<char>> {
    if entries.len() == 0 {
        Err("expected non-empty array"@)
    } else {
        match entries[0].internalipaddress {
            AddressField::Missing => Err("Expected internalipaddress"@),
            AddressField::NotText => Err("expect a string in internalipaddress"@),
            AddressField::Text(t) => match t.address {
                Some(a) => Ok(a),
                None => Err("invalid address in internalipaddress"@),
            },
        }
    }
}

/// Reads the cloud discovery answer: the address of its first entry, or a discovery error.
pub fn address_from_cloud(entries: &Vec<CloudEntry>) -> (r: Result<BridgeAddress, HueError>)
    ensures
        match cloud_outcome(entries@) {
            Ok(a) => r == Ok::<BridgeAddress, HueError>(a),
            Err(m) => r matches Err(HueError::DiscoveryError { msg }) && msg@ == m,
        },
{
    if entries.len() == 0 {
        return Err(HueError::discovery_err("expected non-empty array"));
    }
    match &entries[0].internalipaddress {
        AddressField::Missing => Err(HueError::discovery_err("Expected internalipaddress")),
        AddressField::NotText => Err(HueError::discovery_err("expect a string in internalipaddress")),
        AddressField::Text(t) => match t.address {
            Some(a) => Ok(a),
            None => Err(HueError::discovery_err("invalid address in internalipaddress")),
        },
    }
}

/// A record of a multicast DNS answer, as far as discovery reads it.
#[derive(Debug, Clone, Copy, PartialEq, Eq, Structural)]
pub enum MdnsRecord {
    A(u8, u8, u8, u8),
    AAAA(u128),
    Other,
}

pub open spec fn record_address(r: MdnsRecord) -> Option<BridgeAddress> {
    match r {
        MdnsRecord::A(a, b, c, d) => Some(BridgeAddress::V4(a, b, c, d)),
        MdnsRecord::AAAA(v) => Some(BridgeAddress::V6(v)),
        MdnsRecord::Other => None,
    }
}

/// The address that a record carries, if it is an address record.
pub fn to_ip_addr(record: &MdnsRecord) -> (r: Option<BridgeAddress>)
    ensures
        r == record_address(*record),
{
    match record {
        MdnsRecord::A(a, b, c, d) => Some(BridgeAddress::V4(*a, *b, *c, *d)),
        MdnsRecord::AAAA(v) => Some(BridgeAddress::V6(*v)),
        MdnsRecord::Other => None,
    }
}

/// The address of the first address record.
pub open spec fn first_record_address(records: Seq<MdnsRecord>) -> Option<BridgeAddress>
    decreases records.len(),
{
    if records.len() == 0 {
        None
    } else if record_address(records[0]) is Some {
        record_address(records[0])
    } else {
        first_record_address(records.drop_first())
    }
}

/// Reads a multicast DNS answer: the address of its first address record.
pub fn address_from_records(records: &Vec<MdnsRecord>) -> (r: Result<BridgeAddress, HueError>)
    ensures
        match first_record_address(records@) {
            Some(a) => r == Ok::<BridgeAddress, HueError>(a),
            None => r matches Err(HueError::DiscoveryError { msg }) && msg@
                == "No IP address found in response"@,
        },
{
    let mut i: usize = 0;
    proof {
        assert(records@.subrange(0, records@.len() as int) =~= records@);
    }
    while i < records.len()
        invariant
            i <= records@.len(),
            first_record_address(records@) == first_record_address(
                records@.subrange(i as int, records@.len() as int),
            ),
        decreases records@.len() - i,
    {
        proof {
            assert(records@.subrange(i as int, records@.len() as int).drop_first()
                =~= records@.subrange(i + 1, records@.len() as int));
        }
        if let Some(a) = to_ip_addr(&records[i]) {
            return Ok(a);
        }
        i = i + 1;
    }
    Err(HueError::discovery_err("No IP address found in response"))
}

/// Where a discovery run stands.
#[derive(Debug, Clone, PartialEq, Eq)]
pub enum DiscoveryState {
    NotStarted,
    TryingLocal,
    TryingCloud,
    Found(BridgeAddress),
    Failed(HueError),
}

/// What the caller reports back to a discovery run.
#[derive(Debug, PartialEq, Eq)]
pub enum DiscoveryEvent {
    Start,
    /// The outcome of the local attempt; a timeout is an error like any other.
    LocalAnswer(Result<BridgeAddress, HueError>),
    /// The entries of the cloud discovery answer.
    CloudAnswer(Vec<CloudEntry>),
    /// The cloud discovery service could not be reached or read.
    CloudFailed(HueError),
}

/// The network work that a discovery run asks of the caller.
#[derive(Debug, Clone, Copy, PartialEq, Eq, Structural)]
pub enum DiscoveryAction {
    QueryLocal,
    QueryCloud,
    Done,
}

/// The message of the failure when the cloud service could not be reached or read: it
/// names the cloud strategy and carries the cloud error's own message.
pub open spec fn cloud_failure(e: HueError) -> Seq<char> {
    "Could not discover bridge: cloud discovery failed: "@ + error_message(e)
}

/// Whether `s` is a discovery failure carrying the message `m`.
pub open spec fn failed_with_msg(s: DiscoveryState, m: Seq<char>) -> bool {
    s matches DiscoveryState::Failed(HueError::DiscoveryError { msg }) && msg@ == m
}

/// Whether `next` and `action` follow `state` on `event`: local first, then the cloud once
/// when the local attempt fails; events that do not fit the state change nothing.
pub open spec fn discovery_next(
    state: DiscoveryState,
    event: DiscoveryEvent,
    next: DiscoveryState,
    action: DiscoveryAction,
) -> bool {
    match (state, event) {
        (DiscoveryState::NotStarted, DiscoveryEvent::Start) => next == DiscoveryState::TryingLocal
            && action == DiscoveryAction::QueryLocal,
        (DiscoveryState::TryingLocal, DiscoveryEvent::LocalAnswer(Ok(a))) => next
            == DiscoveryState::Found(a) && action == DiscoveryAction::Done,
        (DiscoveryState::TryingLocal, DiscoveryEvent::LocalAnswer(Err(_))) => next
            == DiscoveryState::TryingCloud && action == DiscoveryAction::QueryCloud,
        (DiscoveryState::TryingCloud, DiscoveryEvent::CloudAnswer(entries)) => action
            == DiscoveryAction::Done && match cloud_outcome(entries@) {
            Ok(a) => next == DiscoveryState::Found(a),
            Err(m) => failed_with_msg(next, m),
        },
        (DiscoveryState::TryingCloud, DiscoveryEvent::CloudFailed(e)) => action
            == DiscoveryAction::Done && failed_with_msg(next, cloud_failure(e)),
        (s, _) => next == s && action == action_of(s),
    }
}

/// The action that is outstanding in a state.
pub open spec fn action_of(s: DiscoveryState) -> DiscoveryAction {
    match s {
        DiscoveryState::TryingLocal => DiscoveryAction::QueryLocal,
        DiscoveryState::TryingCloud => DiscoveryAction::QueryCloud,
        _ => DiscoveryAction::Done,
    }
}

/// Advances a discovery run by one event.
pub fn discovery_step(state: DiscoveryState, event: DiscoveryEvent) -> (r: (
    DiscoveryState,
    DiscoveryAction,
))
    ensures
        discovery_next(state, event, r.0, r.1),
{
    match (state, event) {
        (DiscoveryState::NotStarted, DiscoveryEvent::Start) => (
            DiscoveryState::TryingLocal,
            DiscoveryAction::QueryLocal,
        ),
        (DiscoveryState::TryingLocal, DiscoveryEvent::LocalAnswer(Ok(a))) => (
            DiscoveryState::Found(a),
            DiscoveryAction::Done,
        ),
        (DiscoveryState::TryingLocal, DiscoveryEvent::LocalAnswer(Err(_))) => (
            DiscoveryState::TryingCloud,
            DiscoveryAction::QueryCloud,
        ),
        (DiscoveryState::TryingCloud, DiscoveryEvent::CloudAnswer(entries)) => {
            match address_from_cloud(&entries) {
                Ok(a) => (DiscoveryState::Found(a), DiscoveryAction::Done),
                Err(e) => (DiscoveryState::Failed(e), DiscoveryAction::Done),
            }
        },
        (DiscoveryState::TryingCloud, DiscoveryEvent::CloudFailed(e)) => {
            let mut msg = String::from_str("Could not discover bridge: cloud discovery failed: ");
            msg.append(e.message());
            (DiscoveryState::Failed(HueError::DiscoveryError { msg }), DiscoveryAction::Done)
        },
        (s, _) => {
            let a = match s {
                DiscoveryState::TryingLocal => DiscoveryAction::QueryLocal,
                DiscoveryState::TryingCloud => DiscoveryAction::QueryCloud,
                _ => DiscoveryAction::Done,
            };
            (s, a)
        },
    }
}

/// The fallback law of discovery: a run asks the local network first; any failure of the
/// local attempt, a timeout included, leads to exactly one cloud query; an address from
/// either ends the run with that address; a cloud answer without a usable address ends it
/// with a discovery error; and a finished run stays finished.
pub proof fn lemma_discovery_fallback(
    a: BridgeAddress,
    local_error: HueError,
    entries: Seq<CloudEntry>,
    event: DiscoveryEvent,
    next: DiscoveryState,
    action: DiscoveryAction,
)
    ensures
        discovery_next(DiscoveryState::NotStarted, DiscoveryEvent::Start, next, action) ==> next
            == DiscoveryState::TryingLocal && action == DiscoveryAction::QueryLocal,
        discovery_next(
            DiscoveryState::TryingLocal,
            DiscoveryEvent::LocalAnswer(Err(local_error)),
            next,
            action,
        ) ==> next == DiscoveryState::TryingCloud && action == DiscoveryAction::QueryCloud,
        discovery_next(DiscoveryState::TryingLocal, DiscoveryEvent::LocalAnswer(Ok(a)), next, action)
            ==> next == DiscoveryState::Found(a) && action == DiscoveryAction::Done,
        event matches DiscoveryEvent::CloudAnswer(es) ==> (cloud_outcome(es@) == Ok::<
            BridgeAddress,
            Seq<char>,
        >(a) && discovery_next(DiscoveryState::TryingCloud, event, next, action) ==> next
            == DiscoveryState::Found(a) && action == DiscoveryAction::Done),
        event matches DiscoveryEvent::CloudAnswer(es) ==> (es@.len() == 0 && discovery_next(
            DiscoveryState::TryingCloud,
            event,
            next,
            action,
        ) ==> failed_with_msg(next, "expected non-empty array"@) && action
            == DiscoveryAction::Done),
        discovery_next(DiscoveryState::Found(a), event, next, action) ==> next
            == DiscoveryState::Found(a) && action == DiscoveryAction::Done,
        discovery_next(DiscoveryState::Failed(local_error), event, next, action) ==> next
            == DiscoveryState::Failed(local_error) && action == DiscoveryAction::Done,
{
}

} // verus!
