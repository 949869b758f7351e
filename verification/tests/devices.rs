use rusty_zigbee_sniffer::devices::devices::{
    find_supported_device, supported_device, supported_device_match, SUPPORTED_DEVICE_COUNT,
};

#[test]
fn catalog_holds_the_cc2531() {
    assert_eq!(SUPPORTED_DEVICE_COUNT, 1);
    let d = supported_device(0);
    assert_eq!(d.product_name, "CC2531 Dongle");
    assert_eq!(d.manufacturer, "Texas Instruments");
    assert_eq!(d.vendor_id, 0x0451);
    assert_eq!(d.product_id, 0x16ae);
    assert_eq!(d.device, None);
}

#[test]
fn match_finds_the_cc2531() {
    let d = supported_device_match(0x0451, 0x16ae).unwrap();
    assert_eq!(d.product_name, "CC2531 Dongle");
    assert_eq!(d.manufacturer, "Texas Instruments");
    assert_eq!(d.vendor_id, 0x0451);
    assert_eq!(d.product_id, 0x16ae);
    assert_eq!(d.device, None);
}

#[test]
fn match_needs_both_ids() {
    assert!(supported_device_match(0x0451, 0x16af).is_none());
    assert!(supported_device_match(0x0452, 0x16ae).is_none());
    assert!(supported_device_match(0x16ae, 0x0451).is_none());
    assert!(supported_device_match(0, 0).is_none());
}

#[test]
fn scan_of_nothing_finds_nothing() {
    assert!(matches!(find_supported_device(&[]), Ok(None)));
}

#[test]
fn scan_without_a_supported_device_finds_nothing() {
    let descriptors = [Ok((0x1d6b, 0x0002)), Ok((0x0451, 0x0001)), Ok((0x8087, 0x16ae))];
    assert!(matches!(find_supported_device(&descriptors), Ok(None)));
}

#[test]
fn scan_returns_the_first_supported_device_with_its_place() {
    let descriptors =
        [Ok((0x1d6b, 0x0002)), Ok((0x0451, 0x16ae)), Ok((0x0451, 0x16ae)), Ok((1, 2))];
    let d = find_supported_device(&descriptors).unwrap().unwrap();
    assert_eq!(d.device, Some(1));
    assert_eq!(d.product_name, "CC2531 Dongle");
    assert_eq!(d.manufacturer, "Texas Instruments");
    assert_eq!(d.vendor_id, 0x0451);
    assert_eq!(d.product_id, 0x16ae);
}

#[test]
fn scan_fails_on_an_unreadable_descriptor_before_a_match() {
    let descriptors = [Ok((1, 2)), Err(rusb::Error::Access), Ok((0x0451, 0x16ae))];
    assert_eq!(find_supported_device(&descriptors).unwrap_err(), rusb::Error::Access);
}

#[test]
fn scan_does_not_look_behind_a_match() {
    let descriptors = [Ok((0x0451, 0x16ae)), Err(rusb::Error::Io)];
    let d = find_supported_device(&descriptors).unwrap().unwrap();
    assert_eq!(d.device, Some(0));
}
