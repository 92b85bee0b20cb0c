use gpsami::devices::{port_position, Capability, Device, HardwarePort, Manager, Selection};
use gpsami::drivers::{Desc, Port, PortType};

fn device(id: &str, label: &str, ports: Vec<PortType>, erase: bool, only: bool) -> Device {
    Device {
        desc: Desc { id: id.to_string(), label: label.to_string(), ports },
        capability: Capability { can_erase: erase, can_erase_only: only },
    }
}

fn port(id: &str) -> Port {
    Port { id: id.to_string(), label: format!("Port {}", id), path: format!("/dev/{}", id) }
}

fn hw(id: &str, kind: PortType) -> HardwarePort {
    HardwarePort { port: port(id), kind }
}

fn catalog() -> Vec<Device> {
    vec![
        device("m241", "Holux M-241", vec![PortType::UsbSerial, PortType::RfComm], true, false),
        device("bt747", "iBlue 747", vec![PortType::RfComm], false, false),
        device("wiper", "Wiper", vec![PortType::UsbSerial], true, true),
        device("m241", "Shadowed", vec![], false, true),
        device("bare", "No port", vec![], false, false),
    ]
}

fn hardware() -> Vec<HardwarePort> {
    vec![
        hw("ttyUSB0", PortType::UsbSerial),
        hw("rfcomm0", PortType::RfComm),
        hw("ttyUSB1", PortType::UsbSerial),
        hw("odd", PortType::Unset),
    ]
}

#[test]
fn catalog_comes_in_catalog_order_on_every_call() {
    let m = Manager::new(catalog(), hardware());
    let ids: Vec<String> = m.devices_desc().into_iter().map(|d| d.id).collect();
    assert_eq!(ids, vec!["m241", "bt747", "wiper", "m241", "bare"]);
    let first = m.devices_desc();
    let second = m.devices_desc();
    assert_eq!(first, second);
    assert_eq!(first[1].label, "iBlue 747");
    assert_eq!(first[0].ports, vec![PortType::UsbSerial, PortType::RfComm]);
    assert!(Manager::new(vec![], vec![]).devices_desc().is_empty());
}

#[test]
fn capability_is_looked_up_by_id() {
    let m = Manager::new(catalog(), hardware());
    assert_eq!(
        m.device_capability("m241"),
        Some(Capability { can_erase: true, can_erase_only: false })
    );
    assert_eq!(
        m.device_capability("bt747"),
        Some(Capability { can_erase: false, can_erase_only: false })
    );
    assert_eq!(
        m.device_capability("wiper"),
        Some(Capability { can_erase: true, can_erase_only: true })
    );
    assert_eq!(m.device_capability("nope"), None);
    assert_eq!(m.device_capability(""), None);
    assert_eq!(m.device_capability("M241"), None);
}

#[test]
fn ports_of_an_unknown_model() {
    let m = Manager::new(catalog(), hardware());
    assert_eq!(m.get_ports_for_model("nope"), None);
    assert_eq!(Manager::new(vec![], hardware()).get_ports_for_model("m241"), None);
}

#[test]
fn ports_of_a_known_model_without_a_matching_port() {
    let m = Manager::new(catalog(), vec![hw("ttyUSB0", PortType::UsbSerial)]);
    assert_eq!(m.get_ports_for_model("bt747"), Some(vec![]));
    assert_eq!(m.get_ports_for_model("bare"), Some(vec![]));
    let none = Manager::new(catalog(), vec![]);
    assert_eq!(none.get_ports_for_model("m241"), Some(vec![]));
}

#[test]
fn ports_of_a_known_model_come_in_the_order_found() {
    let m = Manager::new(catalog(), hardware());
    assert_eq!(
        m.get_ports_for_model("m241"),
        Some(vec![port("ttyUSB0"), port("rfcomm0"), port("ttyUSB1")])
    );
    assert_eq!(m.get_ports_for_model("bt747"), Some(vec![port("rfcomm0")]));
    assert_eq!(m.get_ports_for_model("wiper"), Some(vec![port("ttyUSB0"), port("ttyUSB1")]));
}

#[test]
fn selection_setters_only_set() {
    let mut m = Manager::new(catalog(), hardware());
    assert_eq!(m.model(), "");
    assert_eq!(m.port(), "");
    m.set_model("nope");
    m.set_port("gone");
    assert_eq!(m.model(), "nope");
    assert_eq!(m.port(), "gone");
    assert_eq!(m.devices_desc().len(), 5);
    assert_eq!(m.get_ports_for_model("bt747"), Some(vec![port("rfcomm0")]));
}

#[test]
fn device_resolves_from_a_full_selection() {
    let mut m = Manager::new(catalog(), hardware());
    assert_eq!(m.get_device(), None);
    m.set_model("m241");
    assert_eq!(m.get_device(), None);
    m.set_port("rfcomm0");
    assert_eq!(
        m.get_device(),
        Some(Selection { model: "m241".to_string(), port: port("rfcomm0") })
    );
}

#[test]
fn device_does_not_resolve_from_a_bad_selection() {
    let mut m = Manager::new(catalog(), hardware());
    m.set_port("ttyUSB0");
    assert_eq!(m.get_device(), None);
    m.set_model("nope");
    assert_eq!(m.get_device(), None);
    m.set_model("bt747");
    assert_eq!(m.get_device(), None);
    m.set_port("gone");
    assert_eq!(m.get_device(), None);
    m.set_port("rfcomm0");
    assert!(m.get_device().is_some());
}

#[test]
fn new_hardware_replaces_the_old() {
    let mut m = Manager::new(catalog(), vec![]);
    m.set_model("bt747");
    m.set_port("rfcomm0");
    assert_eq!(m.get_device(), None);
    m.set_hardware(hardware());
    assert_eq!(
        m.get_device(),
        Some(Selection { model: "bt747".to_string(), port: port("rfcomm0") })
    );
    m.set_hardware(vec![]);
    assert_eq!(m.get_device(), None);
    assert_eq!(m.model(), "bt747");
}

#[test]
fn first_port_with_the_id_is_found() {
    let ports = vec![port("a"), port("b"), port("a")];
    assert_eq!(port_position(&ports, "a"), Some(0));
    assert_eq!(port_position(&ports, "b"), Some(1));
    assert_eq!(port_position(&ports, "c"), None);
    assert_eq!(port_position(&vec![], "a"), None);
}
