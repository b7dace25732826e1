use hidpp::report::LongReport;
use hidpp::transport::{is_hidpp_interface, normalize_read, select_hidpp, HidInterface, PendingKey, PendingTable};
use hidpp::types::{FeatureIndex, FunctionId, SoftwareId};

fn iface(vendor: u16, page: u16, path: &str) -> HidInterface {
    HidInterface { vendor_id: vendor, product_id: 0xB034, usage_page: page, product_string: Some("MX".to_string()), path: path.to_string() }
}

#[test]
fn hidpp_interfaces_selected() {
    assert!(is_hidpp_interface(0x046D, 0xFF43));
    assert!(is_hidpp_interface(0x046D, 0xFF00));
    assert!(!is_hidpp_interface(0x046D, 0x0001));
    assert!(!is_hidpp_interface(0x1234, 0xFF43));
    let v = select_hidpp(vec![iface(0x046D, 0x0001, "a"), iface(0x046D, 0xFF43, "b"), iface(0x1111, 0xFF00, "c"), iface(0x046D, 0xFF00, "d")]);
    let paths: Vec<&str> = v.iter().map(|d| d.path.as_str()).collect();
    assert_eq!(paths, vec!["b", "d"]);
    assert_eq!(v[0].product_id, 0xB034);
}

#[test]
fn reads_become_long_reports() {
    let mut buf = [0u8; 64];
    for (i, b) in buf.iter_mut().enumerate() {
        *b = i as u8 + 1;
    }
    let r = normalize_read(&buf, 19).unwrap();
    assert_eq!(r.as_bytes()[0], 0x11);
    assert_eq!(r.as_bytes()[1], 1);
    assert_eq!(r.as_bytes()[19], 19);
    assert!(normalize_read(&buf, 20).is_none());
    buf[0] = 0x11;
    let r = normalize_read(&buf, 20).unwrap();
    assert_eq!(r.as_bytes()[19], 20);
    assert!(normalize_read(&buf, 3).is_none());
    assert!(normalize_read(&buf, 10).is_none());
}

fn key(fi: u8, f: u8, sw: u8) -> PendingKey {
    PendingKey { feature_index: FeatureIndex(fi), function_id: FunctionId(f), sw_id: SoftwareId(sw) }
}

#[test]
fn pending_requests_routed() {
    let mut t: PendingTable<&str> = PendingTable::new();
    t.register(key(5, 2, 1), "first");
    t.register(key(6, 1, 1), "second");
    t.register(key(5, 2, 1), "third");

    let resp = LongReport::request(hidpp::types::DeviceIndex(0xFF), FeatureIndex(5), FunctionId(2), SoftwareId(1), &[]);
    assert_eq!(PendingKey::of_request(&resp), key(5, 2, 1));
    assert_eq!(t.route(&resp), Some("first"));
    assert_eq!(t.len(), 2);

    let mut err = LongReport::new();
    err.as_bytes_mut()[2] = 0xFF;
    err.as_bytes_mut()[3] = 6;
    assert_eq!(t.route(&err), Some("second"));

    let other = LongReport::request(hidpp::types::DeviceIndex(0xFF), FeatureIndex(9), FunctionId(0), SoftwareId(0), &[]);
    assert_eq!(t.route(&other), None);
    assert_eq!(t.len(), 1);
    assert!(key(5, 2, 1).matches(&resp));
}

#[test]
fn web_error_reports_routed_by_feature_index_only() {
    let mut t: PendingTable<&str> = PendingTable::new();
    t.register(key(6, 1, 1), "dpi");
    t.register(key(0xFF, 0, 9), "header match");

    // An error naming feature index 9: no request went to index 9.
    let mut err = LongReport::new();
    err.as_bytes_mut()[2] = 0xFF;
    err.as_bytes_mut()[3] = 9;
    assert_eq!(t.route_web(&err), None);
    assert_eq!(t.len(), 2);
    // The native routing falls back to the header and takes a request.
    let mut native = PendingTable::new();
    native.register(key(0xFF, 0, 9), "header match");
    assert_eq!(native.route(&err), Some("header match"));

    err.as_bytes_mut()[3] = 6;
    assert_eq!(t.route_web(&err), Some("dpi"));
    assert_eq!(t.len(), 1);

    t.register(key(7, 1, 2), "wheel");
    let resp = LongReport::request(hidpp::types::DeviceIndex(0xFF), FeatureIndex(7), FunctionId(1), SoftwareId(2), &[]);
    assert_eq!(t.route_web(&resp), Some("wheel"));
    assert_eq!(t.len(), 1);
}
