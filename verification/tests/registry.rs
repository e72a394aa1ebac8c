use acsrs::acs::{Acs, Connreq, Transfer, CPE};
use acsrs::soap::{Body, DeviceId, Envelope, ParameterValue};

fn device_id(serial: &str) -> DeviceId {
    DeviceId {
        manufacturer: String::from("Acme"),
        oui: String::from("00AABB"),
        product_class: String::from("Router"),
        serial_number: String::from(serial),
    }
}

fn numbered(id: u32) -> Transfer<u8> {
    Transfer { msg: Envelope::new(id), observer: None }
}

#[test]
fn new_registry_is_empty() {
    let acs: Acs<u8> = Acs::new(String::from("Basic abc"));
    assert_eq!(acs.basicauth(), "Basic abc");
    assert_eq!(acs.len(), 0);
    assert!(!acs.contains("SN1"));
    assert!(acs.lookup("SN1").is_none());
}

#[test]
fn default_connreq_is_unset() {
    let connreq = Connreq::default();
    assert_eq!(connreq.url, "");
    assert_eq!(connreq.username, "");
    assert_eq!(connreq.password, "");
}

#[test]
fn default_record_is_fresh() {
    let record: CPE<u8> = CPE::default();
    assert_eq!(record.device_id, DeviceId::default());
    assert_eq!(record.connreq, Connreq::default());
    assert!(record.transfers.is_empty());
}

#[test]
fn new_transfer_is_empty_and_unobserved() {
    let transfer: Transfer<u8> = Transfer::new();
    assert_eq!(transfer.msg, Envelope { id: 0, body: Body::Empty });
    assert_eq!(transfer.observer, None);
}

#[test]
fn directive_carries_the_credentials() {
    let connreq = Connreq {
        url: String::from("http://dev/rc"),
        username: String::from("acs"),
        password: String::from("hunter2"),
    };
    let directive = connreq.directive();
    assert_eq!(directive.id, 0);
    match directive.body {
        Body::SetParameterValues(spv) => {
            assert_eq!(spv.parameter_key, 1);
            assert_eq!(
                spv.parameter_list.parameter_values,
                vec![
                    ParameterValue {
                        name: String::from("Device.ManagementServer.ConnectionRequestUsername"),
                        xsi_type: String::from("xsd:string"),
                        value: String::from("acs"),
                    },
                    ParameterValue {
                        name: String::from("Device.ManagementServer.ConnectionRequestPassword"),
                        xsi_type: String::from("xsd:string"),
                        value: String::from("hunter2"),
                    },
                ]
            );
        },
        other => panic!("not a directive: {:?}", other),
    }
}

#[test]
fn resolve_or_create_is_idempotent() {
    let mut acs: Acs<u8> = Acs::new(String::new());
    assert!(acs.resolve_or_create("SN1"));
    assert_eq!(acs.len(), 1);
    assert!(acs.contains("SN1"));
    assert_eq!(acs.lookup("SN1"), Some(&CPE::default()));
    acs.enqueue("SN1", numbered(1)).unwrap();

    assert!(!acs.resolve_or_create("SN1"));
    assert_eq!(acs.len(), 1);
    let record = acs.lookup("SN1").unwrap();
    assert_eq!(record.transfers.len(), 1);
    assert_eq!(record.transfers[0], numbered(1));
}

#[test]
fn resolve_or_create_keeps_devices_apart() {
    let mut acs: Acs<u8> = Acs::new(String::new());
    assert!(acs.resolve_or_create("SN1"));
    assert!(acs.resolve_or_create("SN2"));
    assert!(acs.resolve_or_create(""));
    assert!(!acs.resolve_or_create("SN2"));
    assert_eq!(acs.len(), 3);
    assert!(acs.contains(""));
    assert!(!acs.contains("sn1"));
    acs.enqueue("SN2", numbered(7)).unwrap();
    assert_eq!(acs.lookup("SN1").unwrap().transfers.len(), 0);
    assert_eq!(acs.lookup("SN2").unwrap().transfers.len(), 1);
}

#[test]
fn enqueue_needs_a_known_device() {
    let mut acs: Acs<u8> = Acs::new(String::new());
    let rejected = acs.enqueue("SN1", Transfer { msg: Envelope::new(3), observer: Some(9) });
    assert_eq!(rejected, Err(Transfer { msg: Envelope::new(3), observer: Some(9) }));
    assert_eq!(acs.len(), 0);
}

#[test]
fn next_transfer_is_first_in_first_out() {
    let mut acs: Acs<u8> = Acs::new(String::new());
    acs.resolve_or_create("SN1");
    acs.resolve_or_create("SN2");
    acs.enqueue("SN1", numbered(1)).unwrap();
    acs.enqueue("SN2", numbered(10)).unwrap();
    acs.enqueue("SN1", numbered(2)).unwrap();
    assert_eq!(acs.next_transfer("SN1"), Some(numbered(1)));
    assert_eq!(acs.next_transfer("SN2"), Some(numbered(10)));
    assert_eq!(acs.next_transfer("SN1"), Some(numbered(2)));
    assert_eq!(acs.next_transfer("SN1"), None);
    assert_eq!(acs.next_transfer("SN2"), None);
    assert_eq!(acs.next_transfer("SN3"), None);
    assert_eq!(acs.len(), 2);
}

#[test]
fn insert_replaces_the_record() {
    let mut acs: Acs<u8> = Acs::new(String::new());
    let mut record: CPE<u8> = CPE::default();
    record.connreq.username = String::from("acs");
    acs.insert("SN1", record);
    assert_eq!(acs.len(), 1);
    assert_eq!(acs.lookup("SN1").unwrap().connreq.username, "acs");

    let mut record: CPE<u8> = CPE::default();
    record.enqueue(numbered(4));
    acs.insert("SN1", record);
    assert_eq!(acs.len(), 1);
    let stored = acs.lookup("SN1").unwrap();
    assert_eq!(stored.connreq.username, "");
    assert_eq!(stored.transfers.len(), 1);
}

#[test]
fn reconcile_registers_and_queues_once() {
    let mut acs: Acs<u8> = Acs::new(String::new());
    assert!(acs.reconcile("SN1", device_id("SN1"), "http://dev/rc"));
    assert_eq!(acs.len(), 1);
    assert!(!acs.reconcile("SN1", device_id("SN1"), "http://dev/rc"));
    let record = acs.lookup("SN1").unwrap();
    assert_eq!(record.transfers.len(), 1);
    assert_eq!(record.device_id, device_id("SN1"));
    assert_eq!(record.connreq.url, "http://dev/rc");
}

#[test]
fn reconcile_with_the_stored_address_queues_nothing() {
    let mut acs: Acs<u8> = Acs::new(String::new());
    assert!(!acs.reconcile("SN1", device_id("SN1"), ""));
    assert_eq!(acs.len(), 1);
    assert_eq!(acs.lookup("SN1").unwrap().transfers.len(), 0);
    assert_eq!(acs.lookup("SN1").unwrap().device_id, device_id("SN1"));
}

#[test]
fn record_reconcile_queues_behind_what_is_pending() {
    let mut record: CPE<u8> = CPE::default();
    record.connreq.username = String::from("u");
    record.connreq.password = String::from("p");
    record.enqueue(numbered(1));
    assert!(record.reconcile(device_id("SN1"), "http://a"));
    assert!(!record.reconcile(device_id("SN1"), "http://a"));
    assert!(record.reconcile(device_id("SN1"), "http://b"));
    assert_eq!(record.transfers.len(), 3);
    assert_eq!(record.connreq.url, "http://b");
    assert_eq!(record.next_transfer(), Some(numbered(1)));
    let corrective = record.next_transfer().unwrap();
    assert_eq!(corrective.msg, record.connreq.directive());
    assert_eq!(corrective.observer, None);
    assert!(record.next_transfer().is_some());
    assert_eq!(record.next_transfer(), None);
}
