use acsrs::soap::{
    Body, DeviceId, Envelope, Inform, Kind, ParameterList, ParameterValue, SetParameterValues,
};

fn list(pairs: &[(&str, &str)]) -> ParameterList {
    let mut list = ParameterList::new();
    for (name, value) in pairs {
        list.push(ParameterValue::new(name, "xsd:string", value));
    }
    list
}

#[test]
fn parameter_value_new_copies_its_parts() {
    let value = ParameterValue::new("Device.X", "xsd:int", "3");
    assert_eq!(value.name, "Device.X");
    assert_eq!(value.xsi_type, "xsd:int");
    assert_eq!(value.value, "3");
}

#[test]
fn get_value_finds_the_first_of_a_name() {
    let list = list(&[("a", "1"), ("b", "2"), ("a", "3"), ("", "4")]);
    assert_eq!(list.get_value("a"), Some("1"));
    assert_eq!(list.get_value("b"), Some("2"));
    assert_eq!(list.get_value(""), Some("4"));
    assert_eq!(list.get_value("c"), None);
    assert_eq!(list.get_value("A"), None);
}

#[test]
fn get_value_of_empty_list_is_none() {
    assert_eq!(ParameterList::new().get_value("a"), None);
    assert!(ParameterList::new().parameter_values.is_empty());
}

#[test]
fn default_device_id_is_unknown() {
    let id = DeviceId::default();
    assert_eq!(id.manufacturer, "");
    assert_eq!(id.oui, "");
    assert_eq!(id.product_class, "");
    assert_eq!(id.serial_number, "");
}

#[test]
fn new_envelope_is_empty() {
    let envelope = Envelope::new(12);
    assert_eq!(envelope.id(), 12);
    assert_eq!(envelope.kind(), Kind::Empty);
    assert_eq!(envelope.body, Body::Empty);
    assert!(envelope.inform().is_none());
    assert_eq!(envelope.spv_response(), None);
    assert!(envelope.gpv_response().is_none());
}

#[test]
fn inform_response_keeps_the_id() {
    let mut envelope = Envelope::new(u32::MAX);
    envelope.add_inform_response();
    assert_eq!(envelope.id(), u32::MAX);
    assert_eq!(envelope.kind(), Kind::InformResponse);
    assert_eq!(envelope.body, Body::InformResponse { max_envelopes: 1 });
}

#[test]
fn add_spv_sets_the_directive() {
    let mut envelope = Envelope::new(3);
    envelope.add_spv(1, list(&[("a", "1")]));
    assert_eq!(envelope.id(), 3);
    assert_eq!(envelope.kind(), Kind::SetParameterValues);
    assert_eq!(
        envelope.body,
        Body::SetParameterValues(SetParameterValues {
            parameter_list: list(&[("a", "1")]),
            parameter_key: 1,
        })
    );
}

#[test]
fn add_gpv_sets_the_names() {
    let mut envelope = Envelope::new(3);
    envelope.add_gpv(vec![String::from("Device.")]);
    assert_eq!(envelope.kind(), Kind::GetParameterValues);
    assert_eq!(
        envelope.body,
        Body::GetParameterValues { parameter_names: vec![String::from("Device.")] }
    );
}

#[test]
fn accessors_tell_the_kinds_apart() {
    let inform = Inform {
        device_id: DeviceId::default(),
        event: Vec::new(),
        parameter_list: list(&[("a", "1")]),
    };
    let envelope = Envelope { id: 1, body: Body::Inform(inform.clone()) };
    assert_eq!(envelope.kind(), Kind::Inform);
    assert_eq!(envelope.inform(), Some(&inform));
    assert_eq!(envelope.spv_response(), None);

    let envelope = Envelope { id: 1, body: Body::SetParameterValuesResponse { status: 1 } };
    assert_eq!(envelope.kind(), Kind::SetParameterValuesResponse);
    assert_eq!(envelope.spv_response(), Some(1));
    assert!(envelope.inform().is_none());
    assert!(envelope.gpv_response().is_none());

    let envelope = Envelope {
        id: 1,
        body: Body::GetParameterValuesResponse { parameter_list: list(&[("a", "1")]) },
    };
    assert_eq!(envelope.kind(), Kind::GetParameterValuesResponse);
    assert_eq!(envelope.gpv_response(), Some(&list(&[("a", "1")])));
    assert_eq!(envelope.spv_response(), None);
}
