use vm_manager::VmError;
use vm_manager::usb::DeviceBinding;
use vm_manager::usb::UsbDeviceInfo;
use vm_manager::usb::dev_bus_usb_path;
use vm_manager::usb::find_usb_device;
use vm_manager::usb::prepare;
use vm_manager::usb::process_usb_passthrough_to_qemu_args;
use vm_manager::usb::qemu_usb_args;
use vm_manager::usb::unbind_sysfs_path;
use vm_manager::usb::usb_stub_new_id_value;

fn device(vendor: &str, product: &str, bus: &str, dev: &str) -> UsbDeviceInfo {
    UsbDeviceInfo {
        name: "1-4".to_string(),
        vendor_id: vendor.to_string(),
        product_id: product.to_string(),
        busnum: bus.to_string(),
        devnum: dev.to_string(),
        driver: Some("usbhid".to_string()),
    }
}

#[test]
fn passthrough_absent_device_contributes_nothing() {
    // Requesting a pair with no matching device: empty contribution, no error.
    let r = process_usb_passthrough_to_qemu_args("1234:5678", false);
    assert_eq!(r.unwrap(), Vec::<String>::new());
    let devices: Vec<UsbDeviceInfo> = vec![device("abcd", "ef01", "1", "2")];
    assert!(find_usb_device(&devices, "1234", "5678").is_none());
    let prep = prepare(&devices, "1234", "5678");
    assert!(matches!(prep, Ok(None)));
}

#[test]
fn passthrough_present_device_full_group() {
    let r = process_usb_passthrough_to_qemu_args("1234:5678", true).unwrap();
    let expected: Vec<String> = vec![
        "-device".to_string(),
        "qemu-xhci,id=usb".to_string(),
        "-device".to_string(),
        "usb-host,vendorid=0x1234,productid=0x5678".to_string(),
    ];
    assert_eq!(r, expected);
}

#[test]
fn passthrough_malformed_pair_is_config_error() {
    let r = process_usb_passthrough_to_qemu_args("1234", true);
    assert!(matches!(r, Err(VmError::ConfigInvalid)));
}

#[test]
fn find_device_case_insensitive_and_trimmed() {
    let devices = vec![
        device("abcd", "ef01", "1", "2"),
        device("12AB\n", "34CD\n", "3", "17"),
    ];
    assert_eq!(find_usb_device(&devices, "12ab", "34cd"), Some(1));
    assert_eq!(find_usb_device(&devices, "ABCD", "EF01"), Some(0));
}

#[test]
fn prepare_reads_bus_and_address() {
    let devices = vec![device("12ab", "34cd", "3\n", " 17 ")];
    let b: DeviceBinding = prepare(&devices, "12AB", "34CD").unwrap().unwrap();
    assert_eq!(b.vendor, "12AB");
    assert_eq!(b.product, "34CD");
    assert_eq!(b.host_bus, 3);
    assert_eq!(b.host_addr, 17);
}

#[test]
fn prepare_malformed_bus_is_bind_failure() {
    let devices = vec![device("12ab", "34cd", "bus3", "17")];
    let r = prepare(&devices, "12ab", "34cd");
    assert!(matches!(r, Err(VmError::DeviceBindFailed)));
}

#[test]
fn prepare_overlarge_address_is_bind_failure() {
    let devices = vec![device("12ab", "34cd", "3", "300")];
    let r = prepare(&devices, "12ab", "34cd");
    assert!(matches!(r, Err(VmError::DeviceBindFailed)));
}

#[test]
fn usb_args_for_present_and_absent() {
    let some = qemu_usb_args("1234", "5678", true);
    assert_eq!(some, vec![
        "-device".to_string(),
        "usb-host,vendorid=0x1234,productid=0x5678".to_string(),
    ]);
    assert_eq!(qemu_usb_args("1234", "5678", false), Vec::<String>::new());
}

#[test]
fn sysfs_paths_and_stub_value() {
    assert_eq!(unbind_sysfs_path("usbhid"), "/sys/bus/usb/drivers/usbhid/unbind");
    assert_eq!(dev_bus_usb_path(3, 17), "/dev/bus/usb/003/017");
    assert_eq!(dev_bus_usb_path(120, 7), "/dev/bus/usb/120/007");
    assert_eq!(usb_stub_new_id_value("1234", "5678"), "1234 5678");
}
