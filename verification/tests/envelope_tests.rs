use searchbar::envelope::{
    DynamicallyTypedPayloadEnvelope, DynamicallyTypedScriptMessagePayload, MessageTypeId,
    ScriptMessagePayload, ScriptMessagePayloadEnvelope, StaticallyTypedPayloadEnvelope,
};

#[derive(Debug, PartialEq)]
struct Ping {
    counter: u64,
}

impl ScriptMessagePayload for Ping {
    fn spec_static_type_id() -> u64 {
        7
    }

    fn static_type_id(&self) -> u64 {
        7
    }
}

impl DynamicallyTypedScriptMessagePayload for Ping {
    fn spec_dynamic_type_id(&self) -> u64 {
        1000 + self.counter
    }

    fn get_dynamic_type_id(&self) -> u64 {
        1000 + self.counter
    }
}

#[test]
fn static_envelope_reports_the_type_id_of_the_payload_type() {
    let envelope = StaticallyTypedPayloadEnvelope { payload: Ping { counter: 1 } };
    assert_eq!(envelope.get_message_type_id(), MessageTypeId::Static(7));
}

#[test]
fn dynamic_envelope_reports_the_id_the_value_carries() {
    let envelope = DynamicallyTypedPayloadEnvelope { payload: Ping { counter: 42 } };
    assert_eq!(envelope.get_message_type_id(), MessageTypeId::Dynamic(1042));
}

#[test]
fn dynamic_ids_differ_per_value_while_static_ones_do_not() {
    let one = DynamicallyTypedPayloadEnvelope { payload: Ping { counter: 1 } };
    let two = DynamicallyTypedPayloadEnvelope { payload: Ping { counter: 2 } };
    assert_ne!(one.get_message_type_id(), two.get_message_type_id());
    let one = StaticallyTypedPayloadEnvelope { payload: Ping { counter: 1 } };
    let two = StaticallyTypedPayloadEnvelope { payload: Ping { counter: 2 } };
    assert_eq!(one.get_message_type_id(), two.get_message_type_id());
}

#[test]
fn payload_is_reachable_and_writable_through_the_envelope() {
    let mut envelope = StaticallyTypedPayloadEnvelope { payload: Ping { counter: 1 } };
    envelope.as_payload_mut().counter = 5;
    assert_eq!(envelope.payload, Ping { counter: 5 });

    let mut envelope = DynamicallyTypedPayloadEnvelope { payload: Ping { counter: 1 } };
    envelope.as_payload_mut().counter = 9;
    assert_eq!(envelope.get_message_type_id(), MessageTypeId::Dynamic(1009));
}
