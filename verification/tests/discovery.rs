use as2p_server::discovery::service_info;

#[test]
fn service_description_is_made() {
    let info = service_info(12345).unwrap();
    assert_eq!(info.get_port(), 12345);
    assert_eq!(info.get_type(), "_as2p._udp.local.");
    assert_eq!(info.get_fullname(), "as2p-pc._as2p._udp.local.");
    assert_eq!(info.get_hostname(), "as2p-pc.local.");
    assert!(info.get_addresses().is_empty());
    assert!(info.get_properties().is_empty());
}
