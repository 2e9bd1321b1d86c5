//! Type-erased envelopes for script messages. A message bus routes payloads
//! by a type id; wrapping a payload in an envelope keeps the routing uniform
//! over statically typed payloads, whose id is fixed by their type, and
//! dynamically typed ones, which carry their own id per value — without
//! growing the statically typed messages' memory footprint.

use vstd::prelude::*;

verus! {

/// The id a message is routed by: either the fixed id of the payload's type,
/// or an id the payload value carries itself.
#[derive(Clone, Copy, PartialEq, Eq, Structural, Debug)]
pub enum MessageTypeId {
    /// The fixed id of a statically typed payload's type.
    Static(u64),
    /// The id a dynamically typed payload value carries.
    Dynamic(u64),
}

/// A payload whose routing id is fixed by its type: every value of the type
/// reports the same id.
pub trait ScriptMessagePayload: Sized {
    /// The fixed id of this payload type.
    spec fn spec_static_type_id() -> u64;

    /// Reports the fixed id of this payload type.
    fn static_type_id(&self) -> (id: u64)
        ensures
            id == Self::spec_static_type_id(),
    ;
}

/// A payload that carries its own routing id per value, on top of the fixed
/// one of its type.
pub trait DynamicallyTypedScriptMessagePayload: ScriptMessagePayload {
    /// The id this payload value carries.
    spec fn spec_dynamic_type_id(&self) -> u64;

    /// Reports the id this payload value carries.
    fn get_dynamic_type_id(&self) -> (id: u64)
        ensures
            id == self.spec_dynamic_type_id(),
    ;
}

/// What every envelope offers the bus: mutable access to the payload, and the
/// id the message is routed by.
pub trait ScriptMessagePayloadEnvelope: Sized {
    /// The payload type the envelope wraps.
    type Payload: ScriptMessagePayload;

    /// The wrapped payload.
    spec fn spec_payload(&self) -> Self::Payload;

    /// The id the enveloped message is routed by.
    spec fn spec_message_type_id(&self) -> MessageTypeId;

    /// Mutable access to the wrapped payload.
    fn as_payload_mut(&mut self) -> (payload: &mut Self::Payload)
        ensures
            *payload == old(self).spec_payload(),
            final(self).spec_payload() == *final(payload),
    ;

    /// Reports the id the enveloped message is routed by.
    fn get_message_type_id(&self) -> (id: MessageTypeId)
        ensures
            id == self.spec_message_type_id(),
    ;
}

/// An envelope around a statically typed payload: routed by the fixed id of
/// the payload's type.
pub struct StaticallyTypedPayloadEnvelope<T: ScriptMessagePayload> {
    /// The wrapped payload.
    pub payload: T,
}

impl<T: ScriptMessagePayload> ScriptMessagePayloadEnvelope for StaticallyTypedPayloadEnvelope<T> {
    type Payload = T;

    open spec fn spec_payload(&self) -> T {
        self.payload
    }

    open spec fn spec_message_type_id(&self) -> MessageTypeId {
        MessageTypeId::Static(T::spec_static_type_id())
    }

    fn as_payload_mut(&mut self) -> (payload: &mut T) {
        &mut self.payload
    }

    fn get_message_type_id(&self) -> (id: MessageTypeId) {
        MessageTypeId::Static(self.payload.static_type_id())
    }
}

/// An envelope around a dynamically typed payload: routed by the id the
/// payload value carries.
pub struct DynamicallyTypedPayloadEnvelope<T: DynamicallyTypedScriptMessagePayload> {
    /// The wrapped payload.
    pub payload: T,
}

impl<T: DynamicallyTypedScriptMessagePayload> ScriptMessagePayloadEnvelope
    for DynamicallyTypedPayloadEnvelope<T> {
    type Payload = T;

    open spec fn spec_payload(&self) -> T {
        self.payload
    }

    open spec fn spec_message_type_id(&self) -> MessageTypeId {
        MessageTypeId::Dynamic(self.payload.spec_dynamic_type_id())
    }

    fn as_payload_mut(&mut self) -> (payload: &mut T) {
        &mut self.payload
    }

    fn get_message_type_id(&self) -> (id: MessageTypeId) {
        MessageTypeId::Dynamic(self.payload.get_dynamic_type_id())
    }
}

} // verus!
