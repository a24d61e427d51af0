use mikan_os::usb::descriptor::{find_mouse_endpoint, MouseEndpoint};
use mikan_os::usb::setup::SetupData;
use mikan_os::xhci::context::{
    add_flags, dci_in, endpoint_context, interval_field, slot_context_0, slot_context_1,
    EndpointContext,
};

fn mouse_configuration() -> Vec<u8> {
    vec![
        9, 2, 34, 0, 1, 1, 0, 0xa0, 50, //
        9, 4, 0, 0, 1, 3, 1, 2, 0, //
        9, 0x21, 0x11, 0x01, 0, 1, 0x22, 52, 0, //
        7, 5, 0x81, 3, 8, 0, 10,
    ]
}

#[test]
fn setup_packets_are_composed() {
    let device = SetupData::get_descriptor(1, 0, 18);
    assert_eq!(
        device,
        SetupData { request_type: 0x80, request: 6, value: 0x0100, index: 0, length: 18 }
    );
    assert_eq!(device.parameter(), 0x0012_0000_0100_0680);
    assert!(device.device_to_host());
    let configuration = SetupData::get_descriptor(2, 1, 0x200);
    assert_eq!(configuration.value, 0x0201);
    assert_eq!(configuration.parameter(), 0x0200_0000_0201_0680);
    let select = SetupData::set_configuration(3);
    assert_eq!(
        select,
        SetupData { request_type: 0x00, request: 9, value: 3, index: 0, length: 0 }
    );
    assert_eq!(select.parameter(), 0x0003_0900);
    assert!(!select.device_to_host());
    let boot = SetupData::set_boot_protocol(2);
    assert_eq!(
        boot,
        SetupData { request_type: 0x21, request: 11, value: 0, index: 2, length: 0 }
    );
    assert_eq!(boot.parameter(), 0x0000_0002_0000_0b21);
    let full = SetupData { request_type: 0xff, request: 0xff, value: 0xffff, index: 0xffff, length: 0xffff };
    assert_eq!(full.parameter(), u64::MAX);
}

#[test]
fn mouse_endpoint_is_found_in_its_configuration() {
    assert_eq!(
        find_mouse_endpoint(&mouse_configuration()),
        Some(MouseEndpoint {
            configuration: 1,
            interface: 0,
            endpoint: 1,
            max_packet_size: 8,
            interval: 10,
        })
    );
}

#[test]
fn mouse_endpoint_is_found_behind_other_interfaces() {
    let mut bytes = vec![9, 2, 59, 0, 2, 7, 0, 0xa0, 50];
    // A keyboard interface with its endpoint.
    bytes.extend_from_slice(&[9, 4, 0, 0, 1, 3, 1, 1, 0]);
    bytes.extend_from_slice(&[9, 0x21, 0x11, 0x01, 0, 1, 0x22, 63, 0]);
    bytes.extend_from_slice(&[7, 5, 0x81, 3, 8, 0, 10]);
    // The mouse interface: an endpoint towards the device first, then a
    // bulk endpoint, then the interrupt endpoint towards the host.
    bytes.extend_from_slice(&[9, 4, 1, 0, 3, 3, 1, 2, 0]);
    bytes.extend_from_slice(&[7, 5, 0x02, 3, 8, 0, 10]);
    bytes.extend_from_slice(&[7, 5, 0x83, 2, 64, 0, 0]);
    bytes.extend_from_slice(&[7, 5, 0x84, 0x03, 0x04, 0x01, 4]);
    let total = bytes.len();
    bytes[2] = total as u8;
    assert_eq!(
        find_mouse_endpoint(&bytes),
        Some(MouseEndpoint {
            configuration: 7,
            interface: 1,
            endpoint: 4,
            max_packet_size: 0x0104,
            interval: 4,
        })
    );
}

#[test]
fn configuration_without_a_mouse_yields_nothing() {
    let mut keyboard = mouse_configuration();
    keyboard[16] = 1;
    assert_eq!(find_mouse_endpoint(&keyboard), None);
    let mut report_only = mouse_configuration();
    report_only[15] = 0;
    assert_eq!(find_mouse_endpoint(&report_only), None);
    let mut vendor = mouse_configuration();
    vendor[14] = 0xff;
    assert_eq!(find_mouse_endpoint(&vendor), None);
    let mut bulk = mouse_configuration();
    bulk[30] = 2;
    assert_eq!(find_mouse_endpoint(&bulk), None);
    let mut outward = mouse_configuration();
    outward[29] = 0x01;
    assert_eq!(find_mouse_endpoint(&outward), None);
    let mut endpoint_zero = mouse_configuration();
    endpoint_zero[29] = 0x80;
    assert_eq!(find_mouse_endpoint(&endpoint_zero), None);
}

#[test]
fn malformed_configuration_yields_nothing() {
    assert_eq!(find_mouse_endpoint(&Vec::new()), None);
    assert_eq!(find_mouse_endpoint(&vec![9, 2, 34, 0, 1, 1, 0, 0xa0]), None);
    let mut device = mouse_configuration();
    device[1] = 1;
    assert_eq!(find_mouse_endpoint(&device), None);
    // A descriptor of length 0 would never end.
    let mut stuck = mouse_configuration();
    stuck[9] = 0;
    assert_eq!(find_mouse_endpoint(&stuck), None);
    let mut one = mouse_configuration();
    one[9] = 1;
    assert_eq!(find_mouse_endpoint(&one), None);
    // The endpoint lies beyond the stated total length.
    let mut short = mouse_configuration();
    short[2] = 27;
    assert_eq!(find_mouse_endpoint(&short), None);
    // The total length reaches beyond the data: what is there is searched.
    let mut long = mouse_configuration();
    long[2] = 200;
    assert!(find_mouse_endpoint(&long).is_some());
    // The endpoint descriptor is cut off.
    let mut cut = mouse_configuration();
    cut.truncate(33);
    assert_eq!(find_mouse_endpoint(&cut), None);
}

#[test]
fn contexts_are_composed() {
    assert_eq!(slot_context_0(3, 1), 0x0830_0000);
    assert_eq!(slot_context_0(4, 3), 0x1840_0000);
    assert_eq!(slot_context_0(0xff, 0xff), 0xf8f0_0000);
    assert_eq!(slot_context_1(2), 0x0002_0000);
    assert_eq!(slot_context_1(255), 0x00ff_0000);
    assert_eq!(
        endpoint_context(4, 64, 0, 0x2_0400, 8),
        EndpointContext { d0: 0, d1: 0x0040_0026, d2: 0x0002_0401, d3: 0, d4: 8 }
    );
    assert_eq!(
        endpoint_context(7, 8, 9, 0x1_2345_6780, 8),
        EndpointContext { d0: 0x0009_0000, d1: 0x0008_003e, d2: 0x2345_6781, d3: 1, d4: 8 }
    );
    assert_eq!(dci_in(1), 3);
    assert_eq!(dci_in(15), 31);
    assert_eq!(interval_field(10), 9);
    assert_eq!(interval_field(1), 0);
    assert_eq!(interval_field(0), 0);
    assert_eq!(add_flags(1), 0x3);
    assert_eq!(add_flags(3), 0x9);
    assert_eq!(add_flags(31), 0x8000_0001);
}
