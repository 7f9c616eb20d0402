use vm_manager::config::VMBlock;
use vm_manager::disk::disk_image_create_args;
use vm_manager::disk::root_device_path;
use vm_manager::disk::root_drive_arg;
use vm_manager::disk::whole_disk_candidate;
use vm_manager::disk::whole_disk_sibling_path;

fn physical_vm(partuuid: &str) -> VMBlock {
    VMBlock {
        name: "disks".to_string(),
        disk_image: "/dev/null".to_string(),
        disk_image_gb: 0,
        disk_partuuid: partuuid.to_string(),
        mount_windows_virtio_iso: false,
        bios_override: String::new(),
        spice_gl_override: "on".to_string(),
        spice_rendernode_override: String::new(),
        smp_override: "4".to_string(),
        cpu_override: "host".to_string(),
        machine_override: "q35".to_string(),
        root_disk_if_override: String::new(),
        ram_mb: 1024,
        drop_to_serial: false,
        addtl_args: Vec::new(),
        rdp_uname: String::new(),
        rdp_pass: String::new(),
        rdp_pass_env: String::new(),
        addtl_rdp_args: Vec::new(),
        usb_passthrough_devices: Vec::new(),
        preboot_cmds: Vec::new(),
    }
}

#[test]
fn whole_disk_name_from_partition() {
    assert_eq!(whole_disk_candidate("sda2"), "sda");
    assert_eq!(whole_disk_candidate("nvme0n1p3"), "nvme0n1");
    assert_eq!(whole_disk_candidate("sdb10"), "sdb1");
    assert_eq!(whole_disk_candidate(""), "");
    // The NVMe rule looks at the name after the first strip, so a bare
    // controller name loses two characters.
    assert_eq!(whole_disk_candidate("nvme1"), "nvm");
}

#[test]
fn whole_disk_sibling_keeps_directory() {
    assert_eq!(whole_disk_sibling_path("/dev/sda2"), "/dev/sda");
    assert_eq!(whole_disk_sibling_path("/dev/nvme0n1p3"), "/dev/nvme0n1");
}

#[test]
fn root_device_used_only_when_sibling_exists() {
    assert_eq!(root_device_path("/dev/sda2", true), "/dev/sda");
    assert_eq!(root_device_path("/dev/sda2", false), "/dev/sda2");
}

#[test]
fn drive_arg_for_physical_disk() {
    let vm = physical_vm("0a1b2c3d-04");
    assert_eq!(
        root_drive_arg(&vm, "/dev/sda"),
        "id=root_disk,format=raw,cache=unsafe,file=/dev/sda"
    );
    let mut vm2 = physical_vm("0a1b2c3d-04");
    vm2.root_disk_if_override = "virtio".to_string();
    assert_eq!(
        root_drive_arg(&vm2, "/dev/sda"),
        "id=root_disk,format=raw,cache=unsafe,file=/dev/sda,if=virtio"
    );
}

#[test]
fn drive_arg_for_image() {
    let mut vm = physical_vm("");
    vm.disk_image = "/var/lib/vms/a.qcow2".to_string();
    assert_eq!(
        root_drive_arg(&vm, "ignored"),
        "id=root_disk,format=qcow2,cache=unsafe,file=/var/lib/vms/a.qcow2"
    );
}

#[test]
fn image_create_args() {
    let mut vm = physical_vm("");
    vm.disk_image = "/var/lib/vms/a.qcow2".to_string();
    vm.disk_image_gb = 40;
    let expected: Vec<String> = vec!["create", "-f", "qcow2", "/var/lib/vms/a.qcow2", "40G"]
        .into_iter()
        .map(|s| s.to_string())
        .collect();
    assert_eq!(disk_image_create_args(&vm), expected);
}
