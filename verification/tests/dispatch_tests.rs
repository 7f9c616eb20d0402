use vm_manager::config::VMBlock;
use vm_manager::dispatch::Command;
use vm_manager::dispatch::build_rdp_args;
use vm_manager::dispatch::freerdp_binary;
use vm_manager::dispatch::guest_info_response_line;
use vm_manager::dispatch::help_text;
use vm_manager::dispatch::parse_command;
use vm_manager::dispatch::spice_viewer_args;
use vm_manager::hostcmd::shell_invocation_args;

fn rdp_vm() -> VMBlock {
    VMBlock {
        name: "rdp".to_string(),
        disk_image: "/var/lib/vms/rdp.qcow2".to_string(),
        disk_image_gb: 10,
        disk_partuuid: String::new(),
        mount_windows_virtio_iso: false,
        bios_override: String::new(),
        spice_gl_override: "on".to_string(),
        spice_rendernode_override: String::new(),
        smp_override: "4".to_string(),
        cpu_override: "host".to_string(),
        machine_override: "q35".to_string(),
        root_disk_if_override: String::new(),
        ram_mb: 1024,
        drop_to_serial: false,
        addtl_args: Vec::new(),
        rdp_uname: "operator".to_string(),
        rdp_pass: "pw".to_string(),
        rdp_pass_env: String::new(),
        addtl_rdp_args: Vec::new(),
        usb_passthrough_devices: Vec::new(),
        preboot_cmds: Vec::new(),
    }
}

#[test]
fn parse_keywords() {
    assert!(matches!(parse_command(""), Command::Empty));
    assert!(matches!(parse_command("   "), Command::Empty));
    assert!(matches!(parse_command("gui"), Command::Gui));
    assert!(matches!(parse_command("  gui \n"), Command::Gui));
    assert!(matches!(parse_command("help"), Command::Help));
    assert!(matches!(parse_command("h"), Command::Help));
    assert!(matches!(parse_command("quit"), Command::Quit));
    assert!(matches!(parse_command("exit"), Command::Quit));
}

#[test]
fn parse_rdp_keeps_line() {
    match parse_command("rdp notepad.exe a b") {
        Command::Rdp { line } => assert_eq!(line, "rdp notepad.exe a b"),
        _ => panic!("expected the remote-desktop command"),
    }
}

#[test]
fn parse_cmd_takes_remainder() {
    match parse_command("cmd ls -l") {
        Command::HostCmd { cmd } => assert_eq!(cmd, "ls -l"),
        _ => panic!("expected host passthrough"),
    }
    match parse_command("cmd") {
        Command::HostCmd { cmd } => assert_eq!(cmd, ""),
        _ => panic!("expected host passthrough"),
    }
    assert_eq!(shell_invocation_args("ls -l"), vec!["-c".to_string(), "ls -l".to_string()]);
}

#[test]
fn parse_forwards_anything_else() {
    match parse_command("  whoami  ") {
        Command::Forward { line } => assert_eq!(line, "whoami"),
        _ => panic!("expected a forwarded line"),
    }
}

#[test]
fn viewer_args_use_display_socket() {
    assert_eq!(
        spice_viewer_args("/var/lib/vms/rdp.qcow2.spice.sock"),
        vec!["--uri=spice+unix:///var/lib/vms/rdp.qcow2.spice.sock".to_string()]
    );
}

#[test]
fn rdp_args_basic_with_credentials() {
    let vm = rdp_vm();
    let args = build_rdp_args(&vm, "rdp", &None);
    let expected: Vec<String> = vec![
        "/cert:ignore",
        "/w:1920",
        "/h:1080",
        "/drive:DOWNLOADS,/j/downloads",
        "/dynamic-resolution",
        "/u:operator",
        "/p:pw",
        "/v:127.0.0.1",
        "/audio-mode:0",
        "/microphone:sys:alsa",
        "/auto-reconnect-max-retries:64",
    ].into_iter().map(|s| s.to_string()).collect();
    assert_eq!(args, expected);
}

#[test]
fn rdp_args_env_password_wins_when_indirection_set() {
    let mut vm = rdp_vm();
    vm.rdp_pass_env = "RDP_PASS".to_string();
    let args = build_rdp_args(&vm, "rdp", &Some("pw".to_string()));
    assert!(args.iter().any(|a| a == "/p:pw"));
    // Without the environment value the configured password stands in.
    let mut vm2 = rdp_vm();
    vm2.rdp_pass = String::new();
    vm2.rdp_pass_env = "RDP_PASS".to_string();
    let args2 = build_rdp_args(&vm2, "rdp", &None);
    assert!(args2.iter().any(|a| a == "/p:"));
}

#[test]
fn rdp_args_program_and_command_line() {
    let mut vm = rdp_vm();
    vm.rdp_uname = String::new();
    vm.rdp_pass = String::new();
    let args = build_rdp_args(&vm, "rdp notepad.exe C:\\a.txt", &None);
    assert!(args.iter().any(|a| a == "/app:notepad.exe"));
    assert!(args.iter().any(|a| a == "/app-cmd:notepad.exe C:\\a.txt"));
}

#[test]
fn rdp_args_extra_appended_last() {
    let mut vm = rdp_vm();
    vm.addtl_rdp_args = vec!["/gfx:avc444".to_string()];
    let args = build_rdp_args(&vm, "rdp", &None);
    assert_eq!(args.last().unwrap(), "/gfx:avc444");
}

#[test]
fn freerdp_binary_follows_display_server() {
    assert_eq!(freerdp_binary(&Some("wayland-0".to_string())), "wlfreerdp");
    assert_eq!(freerdp_binary(&Some(String::new())), "xfreerdp");
    assert_eq!(freerdp_binary(&None), "xfreerdp");
}

#[test]
fn guest_info_line() {
    assert_eq!(guest_info_response_line("5.2"), "Guest Agent version: 5.2");
}

#[test]
fn help_lists_every_keyword() {
    let h = help_text();
    assert!(h.contains("gui"));
    assert!(h.contains("rdp"));
    assert!(h.contains("cmd"));
    assert!(h.contains("quit"));
}
