use vm_manager::config::VMBlock;
use vm_manager::config::VMInstallBlock;
use vm_manager::plan::Phase;
use vm_manager::plan::build_install_args;
use vm_manager::plan::build_launch_plan;
use vm_manager::plan::build_run_args;
use vm_manager::plan::sandbox_wrapper_args;
use vm_manager::plan::select_phase;
use vm_manager::resource::decide;

fn sample_vm() -> VMBlock {
    VMBlock {
        name: "testvm".to_string(),
        disk_image: "/var/lib/vms/testvm.qcow2".to_string(),
        disk_image_gb: 40,
        disk_partuuid: String::new(),
        mount_windows_virtio_iso: false,
        bios_override: "/usr/share/edk2-ovmf/x64/OVMF_CODE.fd".to_string(),
        spice_gl_override: "on".to_string(),
        spice_rendernode_override: "/dev/dri/by-path/pci-0000:00:02.0-render".to_string(),
        smp_override: "4".to_string(),
        cpu_override: "host".to_string(),
        machine_override: "type=pc,accel=kvm,kernel_irqchip=on".to_string(),
        root_disk_if_override: String::new(),
        ram_mb: 2048,
        drop_to_serial: false,
        addtl_args: Vec::new(),
        rdp_uname: String::new(),
        rdp_pass: String::new(),
        rdp_pass_env: String::new(),
        addtl_rdp_args: Vec::new(),
        usb_passthrough_devices: Vec::new(),
        preboot_cmds: Vec::new(),
    }
}

fn sample_install() -> VMInstallBlock {
    VMInstallBlock {
        boot_iso_url: "https://example.invalid/os.iso".to_string(),
        boot_iso: "/var/lib/vms/os.iso".to_string(),
    }
}

#[test]
fn install_args_nonempty_firmware_pair_first() {
    let vm = sample_vm();
    let install = sample_install();
    let args = build_install_args(&vm, &install, "id=root_disk,format=qcow2,cache=unsafe,file=/var/lib/vms/testvm.qcow2");
    assert_eq!(args[0], "-bios");
    assert_eq!(args[1], "/usr/share/edk2-ovmf/x64/OVMF_CODE.fd");
}

#[test]
fn install_args_empty_firmware_pair_dropped() {
    let mut vm = sample_vm();
    vm.bios_override = String::new();
    let install = sample_install();
    let args = build_install_args(&vm, &install, "rd");
    assert_eq!(args[0], "-drive");
    assert!(!args.iter().any(|a| a == "-bios"));
}

#[test]
fn install_args_full_token_list() {
    let vm = sample_vm();
    let install = sample_install();
    let args = build_install_args(&vm, &install, "rd");
    let expected: Vec<String> = vec![
        "-bios", "/usr/share/edk2-ovmf/x64/OVMF_CODE.fd",
        "-drive", "rd",
        "-enable-kvm",
        "-m", "2048M",
        "-cpu", "host",
        "-smp", "2",
        "-machine", "type=pc,accel=kvm,kernel_irqchip=on",
        "-audiodev", "id=alsa,driver=alsa",
        "-nic", "user,id=winnet0,id=mynet0,net=192.168.90.0/24,dhcpstart=192.168.90.10",
        "-display", "gtk",
        "-drive", "file=/var/lib/vms/os.iso,if=ide,index=1,media=cdrom,readonly=on",
        "-boot", "d",
    ].into_iter().map(|s| s.to_string()).collect();
    assert_eq!(args, expected);
}

#[test]
fn install_args_omit_admin_socket() {
    let vm = sample_vm();
    let install = sample_install();
    let args = build_install_args(&vm, &install, "rd");
    assert!(!args.iter().any(|a| a == "-qmp"));
}

#[test]
fn run_args_contain_admin_socket() {
    let vm = sample_vm();
    let usb: Vec<String> = Vec::new();
    let args = build_run_args(&vm, "rd", &usb, "/var/lib/vms/testvm.qcow2.qmp.sock", "/var/lib/vms/testvm.qcow2.spice.sock");
    let pos = args.iter().position(|a| a == "-qmp").expect("admin socket flag missing");
    assert_eq!(args[pos + 1], "unix:/var/lib/vms/testvm.qcow2.qmp.sock,server=on,wait=off");
}

#[test]
fn run_args_full_token_list() {
    let vm = sample_vm();
    let usb: Vec<String> = Vec::new();
    let args = build_run_args(&vm, "rd", &usb, "/q.sock", "/s.sock");
    let expected: Vec<String> = vec![
        "-bios", "/usr/share/edk2-ovmf/x64/OVMF_CODE.fd",
        "-drive", "rd",
        "-enable-kvm",
        "-m", "2048M",
        "-cpu", "host",
        "-smp", "4",
        "-machine", "type=pc,accel=kvm,kernel_irqchip=on",
        "-qmp", "unix:/q.sock,server=on,wait=off",
        "-audiodev", "id=alsa,driver=alsa",
        "-device", "intel-hda",
        "-device", "hda-output,audiodev=alsa",
        "-nic", "user,id=winnet0,id=mynet0,net=192.168.90.0/24,dhcpstart=192.168.90.10,hostfwd=tcp:127.0.0.1:3389-:3389,hostfwd=udp:127.0.0.1:3389-:3389,hostfwd=tcp:127.0.0.1:2222-:22",
        "-spice", "unix=on,addr=/s.sock,gl=on,disable-ticketing=on",
        "-device", "virtio-serial-pci",
        "-device", "virtserialport,chardev=spicechannel0,name=com.redhat.spice.0",
        "-chardev", "spicevmc,id=spicechannel0,name=vdagent",
        "-boot", "c",
    ].into_iter().map(|s| s.to_string()).collect();
    assert_eq!(args, expected);
}

#[test]
fn run_args_smp_pair_omitted_when_empty() {
    let mut vm = sample_vm();
    vm.smp_override = String::new();
    let usb: Vec<String> = Vec::new();
    let args = build_run_args(&vm, "rd", &usb, "q", "s");
    assert!(!args.iter().any(|a| a == "-smp"));
}

#[test]
fn run_args_usb_groups_inserted() {
    let vm = sample_vm();
    let usb: Vec<String> = vec![
        "-device".to_string(),
        "qemu-xhci,id=usb".to_string(),
        "-device".to_string(),
        "usb-host,vendorid=0x1234,productid=0x5678".to_string(),
    ];
    let args = build_run_args(&vm, "rd", &usb, "q", "s");
    assert!(args.iter().any(|a| a == "usb-host,vendorid=0x1234,productid=0x5678"));
}

#[test]
fn boot_override_in_extra_args_wins() {
    let mut vm = sample_vm();
    vm.addtl_args = vec!["-boot".to_string(), "menu=on".to_string()];
    let install = sample_install();
    let args = build_install_args(&vm, &install, "rd");
    // The builder's own trailing pair is removed; the caller's stands last.
    let n = args.len();
    assert_eq!(args[n - 2], "-boot");
    assert_eq!(args[n - 1], "menu=on");
    assert_eq!(args.iter().filter(|a| *a == "-boot").count(), 1);
}

#[test]
fn extra_args_appended_verbatim_last() {
    let mut vm = sample_vm();
    vm.addtl_args = vec!["-serial".to_string(), "stdio".to_string()];
    let install = sample_install();
    let args = build_install_args(&vm, &install, "rd");
    let n = args.len();
    assert_eq!(args[n - 2], "-serial");
    assert_eq!(args[n - 1], "stdio");
    assert_eq!(args[n - 4], "-boot");
    assert_eq!(args[n - 3], "d");
}

#[test]
fn select_phase_marker_rules() {
    assert_eq!(select_phase("/var/lib/vms/os.iso", false), Phase::Install);
    assert_eq!(select_phase("/var/lib/vms/os.iso", true), Phase::Run);
    // A one-character medium path never selects the install phase.
    assert_eq!(select_phase("x", false), Phase::Run);
    assert_eq!(select_phase("", false), Phase::Run);
}

#[test]
fn sandbox_wrapper_prefixes_scope() {
    let inner: Vec<String> = vec!["-enable-kvm".to_string()];
    let args = sandbox_wrapper_args(3072, inner);
    let expected: Vec<String> = vec![
        "--scope", "-p", "MemoryHigh=3072M", "-p", "MemorySwapMax=999G", "--user",
        "qemu-system-x86_64", "-enable-kvm",
    ].into_iter().map(|s| s.to_string()).collect();
    assert_eq!(args, expected);
}

#[test]
fn launch_plan_direct_end_to_end() {
    // A 2048 MB request on a 8192 MB host: ceiling 3072, direct launch.
    let vm = sample_vm();
    let install = sample_install();
    let d = decide(vm.ram_mb as u64, 8192);
    assert!(d.direct);
    let phase = select_phase(&install.boot_iso, false);
    assert_eq!(phase, Phase::Install);
    let usb: Vec<String> = Vec::new();
    let plan = build_launch_plan(&vm, &install, phase, &d, "rd", &usb, "q", "s");
    assert_eq!(plan.program, "qemu-system-x86_64");
    assert_eq!(plan.phase, Phase::Install);
    assert!(!plan.args.iter().any(|a| a == "--scope"));
}

#[test]
fn launch_plan_sandboxed_wraps_tokens() {
    let mut vm = sample_vm();
    vm.ram_mb = 6000;
    let install = sample_install();
    let d = decide(vm.ram_mb as u64, 8192);
    assert!(!d.direct);
    let usb: Vec<String> = Vec::new();
    let plan = build_launch_plan(&vm, &install, Phase::Run, &d, "rd", &usb, "q", "s");
    assert_eq!(plan.program, "systemd-run");
    assert_eq!(plan.args[0], "--scope");
    assert_eq!(plan.args[2], "MemoryHigh=3072M");
}
