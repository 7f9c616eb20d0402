use vm_manager::config::VMBlock;
use vm_manager::config::VMConfig;
use vm_manager::config::VMInstallBlock;
use vm_manager::config::default_bios_override_val;
use vm_manager::config::default_cpu_override;
use vm_manager::config::default_machine_override;
use vm_manager::config::default_smp_override;
use vm_manager::config::default_spice_gl_override;
use vm_manager::config::default_spice_rendernode_override;
use vm_manager::config::dev_null_pathbuf;
use vm_manager::config::empty_string;
use vm_manager::config::empty_vec_string;
use vm_manager::config::false_bool;
use vm_manager::config::zero_usize;

fn image_vm() -> VMBlock {
    VMBlock {
        name: "cfg".to_string(),
        disk_image: "/var/lib/vms/cfg.qcow2".to_string(),
        disk_image_gb: 10,
        disk_partuuid: String::new(),
        mount_windows_virtio_iso: false,
        bios_override: default_bios_override_val(),
        spice_gl_override: default_spice_gl_override(),
        spice_rendernode_override: default_spice_rendernode_override(),
        smp_override: default_smp_override(),
        cpu_override: default_cpu_override(),
        machine_override: default_machine_override(),
        root_disk_if_override: empty_string(),
        ram_mb: 1024,
        drop_to_serial: false_bool(),
        addtl_args: empty_vec_string(),
        rdp_uname: empty_string(),
        rdp_pass: empty_string(),
        rdp_pass_env: empty_string(),
        addtl_rdp_args: empty_vec_string(),
        usb_passthrough_devices: empty_vec_string(),
        preboot_cmds: empty_vec_string(),
    }
}

#[test]
fn default_values() {
    assert_eq!(empty_string(), "");
    assert_eq!(dev_null_pathbuf(), "/dev/null");
    assert_eq!(zero_usize(), 0);
    assert!(!false_bool());
    assert_eq!(empty_vec_string(), Vec::<String>::new());
    assert_eq!(default_bios_override_val(), "/usr/share/edk2-ovmf/x64/OVMF_CODE.fd");
    assert_eq!(default_spice_gl_override(), "on");
    assert_eq!(
        default_spice_rendernode_override(),
        "/dev/dri/by-path/pci-0000:00:02.0-render"
    );
    assert_eq!(default_smp_override(), "4");
    assert_eq!(default_cpu_override(), "host");
    assert_eq!(default_machine_override(), "type=pc,accel=kvm,kernel_irqchip=on");
}

#[test]
fn flag_path_for_image_backed_vm() {
    let vm = image_vm();
    assert_eq!(vm.flag_path(".installed"), "/var/lib/vms/cfg.qcow2.installed");
    assert_eq!(vm.flag_path(".qmp.sock"), "/var/lib/vms/cfg.qcow2.qmp.sock");
    assert_eq!(vm.flag_path(".spice.sock"), "/var/lib/vms/cfg.qcow2.spice.sock");
}

#[test]
fn flag_path_for_physical_vm_inserts_dot() {
    let mut vm = image_vm();
    vm.disk_partuuid = "0a1b-02".to_string();
    assert_eq!(vm.flag_path(".installed"), "/mnt/scratch/vms/_flag_0a1b-02.installed");
    assert_eq!(vm.flag_path("installed"), "/mnt/scratch/vms/_flag_0a1b-02.installed");
}

#[test]
fn flag_path_without_directory_or_file_name() {
    let mut vm = image_vm();
    vm.disk_image = "disk.img".to_string();
    assert_eq!(vm.flag_path(".x"), "disk.img.x");
    // A path ending in a separator falls back to the VM's name.
    vm.disk_image = "/var/lib/vms/".to_string();
    assert_eq!(vm.flag_path(".x"), "/var/lib/vms/cfg.x");
}

#[test]
fn env_overrides_replace_only_nonempty_values() {
    let mut cfg = VMConfig {
        install: VMInstallBlock {
            boot_iso_url: String::new(),
            boot_iso: "/var/lib/vms/os.iso".to_string(),
        },
        vm: image_vm(),
    };
    cfg.apply_env_overrides(Some("off".to_string()), None);
    assert_eq!(cfg.vm.spice_gl_override, "off");
    assert_eq!(cfg.vm.smp_override, "4");
    cfg.apply_env_overrides(Some(String::new()), Some("8".to_string()));
    assert_eq!(cfg.vm.spice_gl_override, "off");
    assert_eq!(cfg.vm.smp_override, "8");
}
