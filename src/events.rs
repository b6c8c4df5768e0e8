//! Live state changes from the bridge's event stream. Each message of the stream carries a
//! list of envelopes, each holding a list of per-resource changes; a message becomes one
//! item holding all of its changes.
use vstd::prelude::*;
use crate::command::{CommandLightColor, On};
use crate::resources::Dimming;

verus! {

#[derive(Debug, Clone, Copy, PartialEq, Eq, Structural)]
pub struct EventColorTemperature {
    pub mirek: Option<u16>,
    pub mirek_valid: bool,
}

/// The change of one resource.
#[derive(Debug, Clone, PartialEq, Eq)]
pub struct Event {
    pub id: String,
    pub id_v1: Option<String>,
    pub on: Option<On>,
    pub dimming: Option<Dimming>,
    pub color_temperature: Option<EventColorTemperature>,
    pub color: Option<CommandLightColor>,
}

/// One envelope of a stream message.
#[derive(Debug, Clone, PartialEq, Eq)]
pub struct EventEnvelope {
    pub data: Vec<Event>,
}

/// An item of the event stream.
#[derive(Debug, Clone, PartialEq, Eq)]
pub enum HueEvent {
    /// The changes that one message carries.
    Event { data: Vec<Event> },
    /// A message that could not be read, or a failure of the stream.
    Error(String),
}

/// The changes of all envelopes, in order.
pub open spec fn all_changes(envelopes: Seq<EventEnvelope>) -> Seq<Event>
    decreases envelopes.len(),
{
    if envelopes.len() == 0 {
        seq![]
    } else {
        all_changes(envelopes.drop_last()) + envelopes.last().data@
    }
}

/// The stream item for a message whose envelopes are `envelopes`.
pub fn message_event(envelopes: Vec<EventEnvelope>) -> (r: HueEvent)
    ensures
        r matches HueEvent::Event { data } && data@ == all_changes(envelopes@),
{
    let ghost orig = envelopes@;
    let mut rest = envelopes;
    let mut data: Vec<Event> = Vec::new();
    proof {
        assert(orig.subrange(0, 0) =~= Seq::<EventEnvelope>::empty());
        assert(rest@ =~= orig.subrange(0, orig.len() as int));
    }
    while rest.len() > 0
        invariant
            rest@.len() <= orig.len(),
            rest@ == orig.subrange(orig.len() - rest@.len(), orig.len() as int),
            data@ == all_changes(orig.subrange(0, orig.len() - rest@.len())),
        decreases rest@.len(),
    {
        let ghost done = orig.len() - rest@.len();
        let mut envelope = rest.remove(0);
        proof {
            assert(orig.subrange(0, done + 1).drop_last() =~= orig.subrange(0, done));
            assert(envelope == orig[done]);
        }
        data.append(&mut envelope.data);
    }
    proof {
        assert(orig.subrange(0, orig.len() as int) =~= orig);
    }
    HueEvent::Event { data }
}

} // verus!
