use wlcontrol::usb::{UsbDeviceOutput, order_usb_devices, read_trimmed, usb_device_from_sysfs};

fn text(value: &str) -> Option<String> {
    Some(value.to_owned())
}

#[test]
fn attributes_are_trimmed() {
    assert_eq!(read_trimmed(text(" Yubico\n")).as_deref(), Some("Yubico"));
    assert_eq!(read_trimmed(text(" \n")), None);
    assert_eq!(read_trimmed(None), None);
}

fn device(
    bus_id: &str,
    vendor_id: &str,
    manufacturer: Option<&str>,
    product: Option<&str>,
) -> UsbDeviceOutput {
    usb_device_from_sysfs(
        bus_id.to_owned(),
        text(vendor_id),
        text("0407"),
        manufacturer.map(str::to_owned),
        product.map(str::to_owned),
    )
    .expect("device")
}

#[test]
fn labels_say_what_is_known() {
    let both = device("1-2", "1050", Some("Yubico"), Some("YubiKey OTP"));
    assert_eq!(both.label, "Yubico YubiKey OTP (1-2)");
    assert_eq!(both.vendor_id, "1050");
    assert_eq!(both.product_id, "0407");
    assert_eq!(both.manufacturer.as_deref(), Some("Yubico"));
    assert_eq!(device("1-2", "1050", None, Some("Key")).label, "Key (1-2)");
    assert_eq!(
        device("1-2", "1050", Some("Yubico"), None).label,
        "1050:0407 (1-2)"
    );
    assert_eq!(device("1-2", "1050", None, None).label, "1050:0407 (1-2)");
}

#[test]
fn hubs_interfaces_and_nameless_entries_are_left_out() {
    for hub in ["USB2.0 Hub", "usb3.0 HUB"] {
        let found =
            usb_device_from_sysfs("1-1".to_owned(), text("0bda"), text("5411"), None, text(hub));
        assert_eq!(found, None);
    }
    assert_eq!(
        usb_device_from_sysfs("1-2:1.0".to_owned(), text("1050"), text("0407"), None, None),
        None
    );
    assert_eq!(
        usb_device_from_sysfs("usb1".to_owned(), None, text("0002"), None, None),
        None
    );
    assert_eq!(
        usb_device_from_sysfs("usb1".to_owned(), text("1d6b"), None, None, None),
        None
    );
}

#[test]
fn yubico_devices_are_listed_first() {
    let listed = order_usb_devices(vec![
        device("2-1", "046d", None, Some("b")),
        device("3-1", "1050", None, Some("key")),
        device("1-10", "046d", None, Some("a")),
        device("1-9", "046d", None, Some("first")),
        device("2-2", "1050", None, Some("key")),
        device("1-9", "046d", None, Some("second")),
    ]);
    let order: Vec<&str> = listed.iter().map(|device| device.label.as_str()).collect();
    assert_eq!(
        order,
        [
            "key (2-2)",
            "key (3-1)",
            "a (1-10)",
            "first (1-9)",
            "second (1-9)",
            "b (2-1)"
        ]
    );
    assert!(order_usb_devices(vec![]).is_empty());
}
