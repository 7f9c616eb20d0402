//! The launch-plan builder: the ordered hypervisor argument list for the
//! install and run phases, the positional firmware and boot-order
//! adjustments, and the sandbox wrapper for memory-constrained launches.

use vstd::prelude::*;

use crate::config::VMBlock;
use crate::config::VMInstallBlock;
use crate::resource::ResourceDecision;
use crate::strings::contains_token;
use crate::strings::extend_clone;
use crate::strings::push_lit;
use crate::strings::push_tok;
use crate::strings::spec_contains_token;
use crate::strings::spec_u64_dec;
use crate::strings::u64_to_string;
use crate::strings::views_of;

verus! {

/// The two launch phases: installing from an attached medium, and running
/// from the persistent disk.
#[derive(PartialEq, Eq, Structural, Clone, Copy, Debug)]
pub enum Phase {
    Install,
    Run,
}

/// Decide the phase: install while an install medium is configured and its
/// completion marker is absent; run otherwise.
pub open spec fn spec_select_phase(boot_iso: Seq<char>, marker_exists: bool) -> Phase {
    if boot_iso.len() > 1 && !marker_exists {
        Phase::Install
    } else {
        Phase::Run
    }
}

/// Pick the launch phase.  `marker_exists` reports whether the
/// install-completion marker file exists on the host.
pub fn select_phase(boot_iso: &str, marker_exists: bool) -> (p: Phase)
    ensures
        p == spec_select_phase(boot_iso@, marker_exists),
{
    if boot_iso.unicode_len() > 1 && !marker_exists {
        Phase::Install
    } else {
        Phase::Run
    }
}

/// The memory token: the requested size in MB with the `M` unit.
pub open spec fn spec_mem_token(ram_mb: nat) -> Seq<char> {
    spec_u64_dec(ram_mb) + "M"@
}

/// The full install-phase token list before the structural adjustments:
/// firmware pair first, root drive, KVM, memory, CPU, a fixed two-way SMP,
/// machine, audio, user NIC, local display, the install medium as a
/// read-only optical drive, and boot-from-optical last.
pub open spec fn spec_install_base_tokens(
    vm: VMBlock,
    install: VMInstallBlock,
    root_drive: Seq<char>,
) -> Seq<Seq<char>> {
    seq![
        "-bios"@,
        vm.bios_override@,
        "-drive"@,
        root_drive,
        "-enable-kvm"@,
        "-m"@,
        spec_mem_token(vm.ram_mb as nat),
        "-cpu"@,
        vm.cpu_override@,
        "-smp"@,
        "2"@,
        "-machine"@,
        vm.machine_override@,
        "-audiodev"@,
        "id=alsa,driver=alsa"@,
        "-nic"@,
        "user,id=winnet0,id=mynet0,net=192.168.90.0/24,dhcpstart=192.168.90.10"@,
        "-display"@,
        "gtk"@,
        "-drive"@,
        "file="@ + install.boot_iso@ + ",if=ide,index=1,media=cdrom,readonly=on"@,
        "-boot"@,
        "d"@,
    ]
}

/// The structural adjustments, applied in construction order: an empty
/// firmware override drops the first two tokens (the firmware pair), and a
/// boot-order token among the caller's extra arguments drops the last two
/// (the builder's boot pair).  The extra arguments are then appended
/// verbatim.
pub open spec fn spec_adjusted_tokens(base: Seq<Seq<char>>, vm: VMBlock) -> Seq<Seq<char>> {
    let a = if vm.bios_override@.len() < 1 {
        base.skip(2)
    } else {
        base
    };
    let b = if spec_contains_token(views_of(vm.addtl_args@), "-boot"@) {
        a.take(a.len() - 2)
    } else {
        a
    };
    b + views_of(vm.addtl_args@)
}

/// The install-phase argument list.
pub open spec fn spec_install_tokens(
    vm: VMBlock,
    install: VMInstallBlock,
    root_drive: Seq<char>,
) -> Seq<Seq<char>> {
    spec_adjusted_tokens(spec_install_base_tokens(vm, install, root_drive), vm)
}


/// Apply the two positional adjustments and append the caller's extra
/// arguments, exactly as `spec_adjusted_tokens` describes.
fn apply_adjustments(v: &mut Vec<String>, vm: &VMBlock)
    requires
        views_of(old(v)@).len() >= 4,
    ensures
        views_of(final(v)@) == spec_adjusted_tokens(views_of(old(v)@), *vm),
{
    let ghost base = views_of(old(v)@);
    if vm.bios_override.as_str().unicode_len() < 1 {
        let ghost b0 = v@;
        let _ = v.remove(0);
        proof {
            assert(views_of(v@) =~~= views_of(b0).skip(1));
        }
        let ghost b1 = v@;
        let _ = v.remove(0);
        proof {
            assert(views_of(v@) =~~= views_of(b1).skip(1));
            assert(views_of(v@) =~~= base.skip(2));
        }
    }
    let ghost a = views_of(v@);
    if contains_token(&vm.addtl_args, "-boot") {
        let ghost c0 = v@;
        let _ = v.pop();
        proof {
            assert(views_of(v@) =~~= views_of(c0).drop_last());
        }
        let ghost c1 = v@;
        let _ = v.pop();
        proof {
            assert(views_of(v@) =~~= views_of(c1).drop_last());
            assert(views_of(v@) =~~= a.take(a.len() - 2));
        }
    }
    extend_clone(v, &vm.addtl_args);
}

/// Build the install-phase argument list: install medium attached, minimal
/// devices, no administrative socket, boot forced from the optical drive.
pub fn build_install_args(vm: &VMBlock, install: &VMInstallBlock, root_drive: &str) -> (r: Vec<
    String,
>)
    ensures
        views_of(r@) == spec_install_tokens(*vm, *install, root_drive@),
{
    let mut v: Vec<String> = Vec::new();
    push_lit(&mut v, "-bios");
    push_tok(&mut v, vm.bios_override.clone());
    push_lit(&mut v, "-drive");
    push_lit(&mut v, root_drive);
    push_lit(&mut v, "-enable-kvm");
    push_lit(&mut v, "-m");
    let mut mem = u64_to_string(vm.ram_mb as u64);
    mem.append("M");
    push_tok(&mut v, mem);
    push_lit(&mut v, "-cpu");
    push_tok(&mut v, vm.cpu_override.clone());
    push_lit(&mut v, "-smp");
    push_lit(&mut v, "2");
    push_lit(&mut v, "-machine");
    push_tok(&mut v, vm.machine_override.clone());
    push_lit(&mut v, "-audiodev");
    push_lit(&mut v, "id=alsa,driver=alsa");
    push_lit(&mut v, "-nic");
    push_lit(&mut v, "user,id=winnet0,id=mynet0,net=192.168.90.0/24,dhcpstart=192.168.90.10");
    push_lit(&mut v, "-display");
    push_lit(&mut v, "gtk");
    push_lit(&mut v, "-drive");
    let mut media = String::from_str("file=");
    media.append(install.boot_iso.as_str());
    media.append(",if=ide,index=1,media=cdrom,readonly=on");
    push_tok(&mut v, media);
    push_lit(&mut v, "-boot");
    push_lit(&mut v, "d");
    proof {
        assert(views_of(v@) =~~= spec_install_base_tokens(*vm, *install, root_drive@));
    }
    apply_adjustments(&mut v, vm);
    v
}

/// The head of the run-phase token list: firmware pair, root drive, KVM,
/// memory, CPU.
pub open spec fn spec_run_head_tokens(vm: VMBlock, root_drive: Seq<char>) -> Seq<Seq<char>> {
    seq![
        "-bios"@,
        vm.bios_override@,
        "-drive"@,
        root_drive,
        "-enable-kvm"@,
        "-m"@,
        spec_mem_token(vm.ram_mb as nat),
        "-cpu"@,
        vm.cpu_override@,
    ]
}

/// The administrative-socket token.
pub open spec fn spec_qmp_token(qmp_socket: Seq<char>) -> Seq<char> {
    "unix:"@ + qmp_socket + ",server=on,wait=off"@
}

/// The display-channel token.
pub open spec fn spec_spice_token(vm: VMBlock, spice_socket: Seq<char>) -> Seq<char> {
    "unix=on,addr="@ + spice_socket + ",gl="@ + vm.spice_gl_override@ + ",disable-ticketing=on"@
}

/// The tail of the run-phase token list: machine, administrative socket,
/// audio chain, forwarding NIC, display channel, serial-port device chain,
/// and boot-from-disk last.
pub open spec fn spec_run_tail_tokens(
    vm: VMBlock,
    qmp_socket: Seq<char>,
    spice_socket: Seq<char>,
) -> Seq<Seq<char>> {
    seq![
        "-machine"@,
        vm.machine_override@,
        "-qmp"@,
        spec_qmp_token(qmp_socket),
        "-audiodev"@,
        "id=alsa,driver=alsa"@,
        "-device"@,
        "intel-hda"@,
        "-device"@,
        "hda-output,audiodev=alsa"@,
        "-nic"@,
        "user,id=winnet0,id=mynet0,net=192.168.90.0/24,dhcpstart=192.168.90.10,hostfwd=tcp:127.0.0.1:3389-:3389,hostfwd=udp:127.0.0.1:3389-:3389,hostfwd=tcp:127.0.0.1:2222-:22"@,
        "-spice"@,
        spec_spice_token(vm, spice_socket),
        "-device"@,
        "virtio-serial-pci"@,
        "-device"@,
        "virtserialport,chardev=spicechannel0,name=com.redhat.spice.0"@,
        "-chardev"@,
        "spicevmc,id=spicechannel0,name=vdagent"@,
        "-boot"@,
        "c"@,
    ]
}

/// The full run-phase token list before the structural adjustments: head,
/// then the SMP pair when an SMP override is configured, then one
/// passthrough group per bound USB device, then the tail.
pub open spec fn spec_run_base_tokens(
    vm: VMBlock,
    root_drive: Seq<char>,
    usb_args: Seq<Seq<char>>,
    qmp_socket: Seq<char>,
    spice_socket: Seq<char>,
) -> Seq<Seq<char>> {
    spec_run_head_tokens(vm, root_drive) + (if vm.smp_override@.len() > 0 {
        seq!["-smp"@, vm.smp_override@]
    } else {
        Seq::<Seq<char>>::empty()
    }) + usb_args + spec_run_tail_tokens(vm, qmp_socket, spice_socket)
}

/// The run-phase argument list.
pub open spec fn spec_run_tokens(
    vm: VMBlock,
    root_drive: Seq<char>,
    usb_args: Seq<Seq<char>>,
    qmp_socket: Seq<char>,
    spice_socket: Seq<char>,
) -> Seq<Seq<char>> {
    spec_adjusted_tokens(
        spec_run_base_tokens(vm, root_drive, usb_args, qmp_socket, spice_socket),
        vm,
    )
}

/// Build the run-phase argument list: administrative socket enabled, full
/// device chain attached, boot forced from the primary disk.
pub fn build_run_args(
    vm: &VMBlock,
    root_drive: &str,
    usb_args: &Vec<String>,
    qmp_socket: &str,
    spice_socket: &str,
) -> (r: Vec<String>)
    ensures
        views_of(r@) == spec_run_tokens(
            *vm,
            root_drive@,
            views_of(usb_args@),
            qmp_socket@,
            spice_socket@,
        ),
{
    let mut v: Vec<String> = Vec::new();
    push_lit(&mut v, "-bios");
    push_tok(&mut v, vm.bios_override.clone());
    push_lit(&mut v, "-drive");
    push_lit(&mut v, root_drive);
    push_lit(&mut v, "-enable-kvm");
    push_lit(&mut v, "-m");
    let mut mem = u64_to_string(vm.ram_mb as u64);
    mem.append("M");
    push_tok(&mut v, mem);
    push_lit(&mut v, "-cpu");
    push_tok(&mut v, vm.cpu_override.clone());
    if vm.smp_override.as_str().unicode_len() > 0 {
        push_lit(&mut v, "-smp");
        push_tok(&mut v, vm.smp_override.clone());
    }
    extend_clone(&mut v, usb_args);
    proof {
        assert(views_of(v@) =~~= spec_run_head_tokens(*vm, root_drive@) + (if vm.smp_override@.len()
            > 0 {
            seq!["-smp"@, vm.smp_override@]
        } else {
            Seq::<Seq<char>>::empty()
        }) + views_of(usb_args@));
    }
    let ghost mid = views_of(v@);
    push_lit(&mut v, "-machine");
    push_tok(&mut v, vm.machine_override.clone());
    push_lit(&mut v, "-qmp");
    let mut qmp = String::from_str("unix:");
    qmp.append(qmp_socket);
    qmp.append(",server=on,wait=off");
    push_tok(&mut v, qmp);
    push_lit(&mut v, "-audiodev");
    push_lit(&mut v, "id=alsa,driver=alsa");
    push_lit(&mut v, "-device");
    push_lit(&mut v, "intel-hda");
    push_lit(&mut v, "-device");
    push_lit(&mut v, "hda-output,audiodev=alsa");
    push_lit(&mut v, "-nic");
    push_lit(
        &mut v,
        "user,id=winnet0,id=mynet0,net=192.168.90.0/24,dhcpstart=192.168.90.10,hostfwd=tcp:127.0.0.1:3389-:3389,hostfwd=udp:127.0.0.1:3389-:3389,hostfwd=tcp:127.0.0.1:2222-:22",
    );
    push_lit(&mut v, "-spice");
    let mut spice = String::from_str("unix=on,addr=");
    spice.append(spice_socket);
    spice.append(",gl=");
    spice.append(vm.spice_gl_override.as_str());
    spice.append(",disable-ticketing=on");
    push_tok(&mut v, spice);
    push_lit(&mut v, "-device");
    push_lit(&mut v, "virtio-serial-pci");
    push_lit(&mut v, "-device");
    push_lit(&mut v, "virtserialport,chardev=spicechannel0,name=com.redhat.spice.0");
    push_lit(&mut v, "-chardev");
    push_lit(&mut v, "spicevmc,id=spicechannel0,name=vdagent");
    push_lit(&mut v, "-boot");
    push_lit(&mut v, "c");
    proof {
        assert(views_of(v@) =~~= mid + spec_run_tail_tokens(*vm, qmp_socket@, spice_socket@));
        assert(views_of(v@) =~~= spec_run_base_tokens(
            *vm,
            root_drive@,
            views_of(usb_args@),
            qmp_socket@,
            spice_socket@,
        ));
    }
    apply_adjustments(&mut v, vm);
    v
}

// ---------------------------------------------------------------------------
// Laws of the structural adjustments
// ---------------------------------------------------------------------------

/// A token absent from the base list and from the extra arguments is absent
/// from the adjusted list: the adjustments only remove tokens and append the
/// extra arguments.
pub proof fn lemma_adjusted_not_contains(base: Seq<Seq<char>>, vm: VMBlock, tok: Seq<char>)
    requires
        base.len() >= 4,
        forall|i: int| 0 <= i < base.len() ==> base[i] != tok,
        !spec_contains_token(views_of(vm.addtl_args@), tok),
    ensures
        !spec_contains_token(spec_adjusted_tokens(base, vm), tok),
{
    let a = if vm.bios_override@.len() < 1 {
        base.skip(2)
    } else {
        base
    };
    let b = if spec_contains_token(views_of(vm.addtl_args@), "-boot"@) {
        a.take(a.len() - 2)
    } else {
        a
    };
    let extra = views_of(vm.addtl_args@);
    assert forall|i: int| 0 <= i < spec_adjusted_tokens(base, vm).len() implies spec_adjusted_tokens(
        base,
        vm,
    )[i] != tok by {
        if i < b.len() {
            if vm.bios_override@.len() < 1 {
                assert(b[i] == base[i + 2]);
            } else {
                assert(b[i] == base[i]);
            }
        } else {
            assert(spec_adjusted_tokens(base, vm)[i] == extra[i - b.len()]);
        }
    }
}

/// With a non-empty firmware override, the first two adjusted tokens are
/// still the first two base tokens: the firmware pair stays in front.
pub proof fn lemma_adjusted_keeps_head(base: Seq<Seq<char>>, vm: VMBlock)
    requires
        base.len() >= 4,
        vm.bios_override@.len() >= 1,
    ensures
        spec_adjusted_tokens(base, vm).len() >= 2,
        spec_adjusted_tokens(base, vm)[0] == base[0],
        spec_adjusted_tokens(base, vm)[1] == base[1],
{
}

/// A base token that sits neither in the leading firmware pair nor in the
/// trailing boot pair survives the adjustments.
pub proof fn lemma_adjusted_keeps_mid(base: Seq<Seq<char>>, vm: VMBlock, w: int)
    requires
        2 <= w < base.len() - 2,
    ensures
        spec_contains_token(spec_adjusted_tokens(base, vm), base[w]),
{
    let off: int = if vm.bios_override@.len() < 1 {
        2
    } else {
        0
    };
    assert(spec_adjusted_tokens(base, vm)[w - off] == base[w]);
}

/// With an empty firmware override, a token absent from the base list past
/// the dropped leading pair and absent from the extra arguments is absent
/// from the adjusted list.
pub proof fn lemma_adjusted_not_contains_skipped(
    base: Seq<Seq<char>>,
    vm: VMBlock,
    tok: Seq<char>,
)
    requires
        base.len() >= 4,
        vm.bios_override@.len() < 1,
        forall|i: int| 2 <= i < base.len() ==> base[i] != tok,
        !spec_contains_token(views_of(vm.addtl_args@), tok),
    ensures
        !spec_contains_token(spec_adjusted_tokens(base, vm), tok),
{
    let a = base.skip(2);
    let b = if spec_contains_token(views_of(vm.addtl_args@), "-boot"@) {
        a.take(a.len() - 2)
    } else {
        a
    };
    let extra = views_of(vm.addtl_args@);
    assert forall|i: int| 0 <= i < spec_adjusted_tokens(base, vm).len() implies spec_adjusted_tokens(
        base,
        vm,
    )[i] != tok by {
        if i < b.len() {
            assert(b[i] == base[i + 2]);
        } else {
            assert(spec_adjusted_tokens(base, vm)[i] == extra[i - b.len()]);
        }
    }
}

/// The builder's own flag tokens, with the facts that tell them apart:
/// their lengths and the characters at which they differ.
proof fn lemma_flag_tokens_distinct()
    ensures
        "-bios"@.len() == 5,
        "-bios"@[0] == '-',
        "-qmp"@.len() == 4,
        "-qmp"@[0] == '-',
        "-bios"@ != "-drive"@,
        "-bios"@ != "-enable-kvm"@,
        "-bios"@ != "-m"@,
        "-bios"@ != "-cpu"@,
        "-bios"@ != "-smp"@,
        "-bios"@ != "-machine"@,
        "-bios"@ != "-audiodev"@,
        "-bios"@ != "-nic"@,
        "-bios"@ != "-display"@,
        "-bios"@ != "-boot"@,
        "-qmp"@ != "-bios"@,
        "-qmp"@ != "-drive"@,
        "-qmp"@ != "-enable-kvm"@,
        "-qmp"@ != "-m"@,
        "-qmp"@ != "-cpu"@,
        "-qmp"@ != "-smp"@,
        "-qmp"@ != "-machine"@,
        "-qmp"@ != "-audiodev"@,
        "-qmp"@ != "-nic"@,
        "-qmp"@ != "-display"@,
        "-qmp"@ != "-boot"@,
{
    reveal_strlit("-bios");
    reveal_strlit("-qmp");
    reveal_strlit("-drive");
    reveal_strlit("-enable-kvm");
    reveal_strlit("-m");
    reveal_strlit("-cpu");
    reveal_strlit("-smp");
    reveal_strlit("-machine");
    reveal_strlit("-audiodev");
    reveal_strlit("-nic");
    reveal_strlit("-display");
    reveal_strlit("-boot");
    assert("-bios"@.len() == 5);
    assert("-qmp"@.len() == 4);
    assert("-drive"@.len() == 6);
    assert("-enable-kvm"@.len() == 11);
    assert("-m"@.len() == 2);
    assert("-cpu"@.len() == 4);
    assert("-smp"@.len() == 4);
    assert("-machine"@.len() == 8);
    assert("-audiodev"@.len() == 9);
    assert("-nic"@.len() == 4);
    assert("-display"@.len() == 8);
    assert("-boot"@.len() == 5);
    assert("-bios"@[0] == '-');
    assert("-qmp"@[0] == '-');
    assert("-bios"@[2] == 'i');
    assert("-boot"@[2] == 'o');
    assert("-qmp"@[1] == 'q');
    assert("-cpu"@[1] == 'c');
    assert("-smp"@[1] == 's');
    assert("-nic"@[1] == 'n');
}

/// Every value slot of the install-phase base list differs from `tok`, a
/// flag-shaped token: flags are compared after revealing their text, the
/// memory and install-medium tokens by their leading character, and the
/// free slots by assumption.
proof fn lemma_install_base_values_neq(
    vm: VMBlock,
    install: VMInstallBlock,
    root_drive: Seq<char>,
    tok: Seq<char>,
)
    requires
        tok.len() > 0,
        tok[0] == '-',
        tok != "-drive"@,
        tok != "-enable-kvm"@,
        tok != "-m"@,
        tok != "-cpu"@,
        tok != "-smp"@,
        tok != "-machine"@,
        tok != "-audiodev"@,
        tok != "-nic"@,
        tok != "-display"@,
        tok != "-boot"@,
        root_drive != tok,
        vm.cpu_override@ != tok,
        vm.machine_override@ != tok,
    ensures
        forall|i: int|
            2 <= i < spec_install_base_tokens(vm, install, root_drive).len()
                ==> spec_install_base_tokens(vm, install, root_drive)[i] != tok,
{
    let base = spec_install_base_tokens(vm, install, root_drive);
    reveal_strlit("2");
    reveal_strlit("id=alsa,driver=alsa");
    reveal_strlit("user,id=winnet0,id=mynet0,net=192.168.90.0/24,dhcpstart=192.168.90.10");
    reveal_strlit("gtk");
    reveal_strlit("file=");
    reveal_strlit("d");
    crate::strings::lemma_dec_first_digit(vm.ram_mb as nat);
    let mem = spec_mem_token(vm.ram_mb as nat);
    assert(mem[0] == spec_u64_dec(vm.ram_mb as nat)[0]);
    assert(mem != tok);
    assert("file="@.len() == 5);
    assert("file="@[0] == 'f');
    let media = "file="@ + install.boot_iso@ + ",if=ide,index=1,media=cdrom,readonly=on"@;
    assert(media[0] == 'f');
    assert(media != tok);
    assert("2"@[0] == '2');
    assert("2"@ != tok);
    assert("id=alsa,driver=alsa"@[0] == 'i');
    assert("id=alsa,driver=alsa"@ != tok);
    assert("user,id=winnet0,id=mynet0,net=192.168.90.0/24,dhcpstart=192.168.90.10"@[0] == 'u');
    assert("user,id=winnet0,id=mynet0,net=192.168.90.0/24,dhcpstart=192.168.90.10"@ != tok);
    assert("gtk"@[0] == 'g');
    assert("gtk"@ != tok);
    assert("d"@[0] == 'd');
    assert("d"@ != tok);
    assert forall|i: int| 2 <= i < base.len() implies base[i] != tok by {
        assert(base.len() == 23);
        if i == 6 {
            assert(base[i] == mem);
        } else if i == 20 {
            assert(base[i] == media);
        }
    }
}

/// The firmware rule: with an empty override the install-phase list has no
/// firmware token at all, and with a non-empty override the firmware pair
/// stands first.  The inputs that would smuggle the flag's exact text in
/// through a value slot or the extra arguments are left aside.
pub proof fn lemma_install_firmware_pair(
    vm: VMBlock,
    install: VMInstallBlock,
    root_drive: Seq<char>,
)
    requires
        root_drive != "-bios"@,
        vm.cpu_override@ != "-bios"@,
        vm.machine_override@ != "-bios"@,
        !spec_contains_token(views_of(vm.addtl_args@), "-bios"@),
    ensures
        vm.bios_override@.len() == 0 ==> !spec_contains_token(
            spec_install_tokens(vm, install, root_drive),
            "-bios"@,
        ),
        vm.bios_override@.len() >= 1 ==> spec_install_tokens(vm, install, root_drive).len() >= 2
            && spec_install_tokens(vm, install, root_drive)[0] == "-bios"@ && spec_install_tokens(
            vm,
            install,
            root_drive,
        )[1] == vm.bios_override@,
{
    let base = spec_install_base_tokens(vm, install, root_drive);
    lemma_flag_tokens_distinct();
    if vm.bios_override@.len() == 0 {
        lemma_install_base_values_neq(vm, install, root_drive, "-bios"@);
        lemma_adjusted_not_contains_skipped(base, vm, "-bios"@);
    } else {
        lemma_adjusted_keeps_head(base, vm);
    }
}

/// Every value slot of the run-phase base list differs from `tok`, a
/// flag-shaped token.
proof fn lemma_run_base_values_neq(
    vm: VMBlock,
    root_drive: Seq<char>,
    usb_args: Seq<Seq<char>>,
    qmp_socket: Seq<char>,
    spice_socket: Seq<char>,
    tok: Seq<char>,
)
    requires
        tok.len() > 0,
        tok[0] == '-',
        tok != "-drive"@,
        tok != "-enable-kvm"@,
        tok != "-m"@,
        tok != "-cpu"@,
        tok != "-smp"@,
        tok != "-machine"@,
        tok != "-qmp"@,
        tok != "-audiodev"@,
        tok != "-device"@,
        tok != "-nic"@,
        tok != "-spice"@,
        tok != "-chardev"@,
        tok != "-boot"@,
        root_drive != tok,
        vm.cpu_override@ != tok,
        vm.smp_override@ != tok,
        vm.machine_override@ != tok,
        !spec_contains_token(usb_args, tok),
    ensures
        forall|i: int|
            2 <= i < spec_run_base_tokens(vm, root_drive, usb_args, qmp_socket, spice_socket).len()
                ==> spec_run_base_tokens(vm, root_drive, usb_args, qmp_socket, spice_socket)[i]
                != tok,
{
    let head = spec_run_head_tokens(vm, root_drive);
    let smp: Seq<Seq<char>> = if vm.smp_override@.len() > 0 {
        seq!["-smp"@, vm.smp_override@]
    } else {
        Seq::<Seq<char>>::empty()
    };
    let tail = spec_run_tail_tokens(vm, qmp_socket, spice_socket);
    let base = spec_run_base_tokens(vm, root_drive, usb_args, qmp_socket, spice_socket);
    reveal_strlit("id=alsa,driver=alsa");
    reveal_strlit("intel-hda");
    reveal_strlit("hda-output,audiodev=alsa");
    reveal_strlit(
        "user,id=winnet0,id=mynet0,net=192.168.90.0/24,dhcpstart=192.168.90.10,hostfwd=tcp:127.0.0.1:3389-:3389,hostfwd=udp:127.0.0.1:3389-:3389,hostfwd=tcp:127.0.0.1:2222-:22",
    );
    reveal_strlit("virtio-serial-pci");
    reveal_strlit("virtserialport,chardev=spicechannel0,name=com.redhat.spice.0");
    reveal_strlit("spicevmc,id=spicechannel0,name=vdagent");
    reveal_strlit("unix:");
    reveal_strlit("unix=on,addr=");
    reveal_strlit("c");
    crate::strings::lemma_dec_first_digit(vm.ram_mb as nat);
    let mem = spec_mem_token(vm.ram_mb as nat);
    assert(mem[0] == spec_u64_dec(vm.ram_mb as nat)[0]);
    assert(mem != tok);
    assert("unix:"@.len() == 5);
    assert("unix:"@[0] == 'u');
    assert(spec_qmp_token(qmp_socket)[0] == 'u');
    assert(spec_qmp_token(qmp_socket) != tok);
    assert("unix=on,addr="@.len() == 13);
    assert("unix=on,addr="@[0] == 'u');
    assert(spec_spice_token(vm, spice_socket)[0] == 'u');
    assert(spec_spice_token(vm, spice_socket) != tok);
    assert("id=alsa,driver=alsa"@[0] == 'i');
    assert("id=alsa,driver=alsa"@ != tok);
    assert("intel-hda"@[0] == 'i');
    assert("intel-hda"@ != tok);
    assert("hda-output,audiodev=alsa"@[0] == 'h');
    assert("hda-output,audiodev=alsa"@ != tok);
    assert("user,id=winnet0,id=mynet0,net=192.168.90.0/24,dhcpstart=192.168.90.10,hostfwd=tcp:127.0.0.1:3389-:3389,hostfwd=udp:127.0.0.1:3389-:3389,hostfwd=tcp:127.0.0.1:2222-:22"@[0]
        == 'u');
    assert("user,id=winnet0,id=mynet0,net=192.168.90.0/24,dhcpstart=192.168.90.10,hostfwd=tcp:127.0.0.1:3389-:3389,hostfwd=udp:127.0.0.1:3389-:3389,hostfwd=tcp:127.0.0.1:2222-:22"@
        != tok);
    assert("virtio-serial-pci"@[0] == 'v');
    assert("virtio-serial-pci"@ != tok);
    assert("virtserialport,chardev=spicechannel0,name=com.redhat.spice.0"@[0] == 'v');
    assert("virtserialport,chardev=spicechannel0,name=com.redhat.spice.0"@ != tok);
    assert("spicevmc,id=spicechannel0,name=vdagent"@[0] == 's');
    assert("spicevmc,id=spicechannel0,name=vdagent"@ != tok);
    assert("c"@[0] == 'c');
    assert("c"@ != tok);
    assert forall|i: int| 0 <= i < tail.len() implies tail[i] != tok by {
        assert(tail.len() == 22);
    }
    assert forall|i: int| 2 <= i < base.len() implies base[i] != tok by {
        assert(head.len() == 9);
        if i < 9 {
            assert(base[i] == head[i]);
        } else if i < 9 + smp.len() {
            assert(base[i] == smp[i - 9]);
        } else if i < 9 + smp.len() + usb_args.len() {
            assert(base[i] == usb_args[i - 9 - smp.len()]);
        } else {
            assert(base[i] == tail[i - 9 - smp.len() - usb_args.len()]);
        }
    }
}

/// The firmware rule, run side: with an empty override the run-phase list
/// has no firmware token at all, and with a non-empty override the firmware
/// pair stands first.
pub proof fn lemma_run_firmware_pair(
    vm: VMBlock,
    root_drive: Seq<char>,
    usb_args: Seq<Seq<char>>,
    qmp_socket: Seq<char>,
    spice_socket: Seq<char>,
)
    requires
        root_drive != "-bios"@,
        vm.cpu_override@ != "-bios"@,
        vm.smp_override@ != "-bios"@,
        vm.machine_override@ != "-bios"@,
        !spec_contains_token(usb_args, "-bios"@),
        !spec_contains_token(views_of(vm.addtl_args@), "-bios"@),
    ensures
        vm.bios_override@.len() == 0 ==> !spec_contains_token(
            spec_run_tokens(vm, root_drive, usb_args, qmp_socket, spice_socket),
            "-bios"@,
        ),
        vm.bios_override@.len() >= 1 ==> spec_run_tokens(
            vm,
            root_drive,
            usb_args,
            qmp_socket,
            spice_socket,
        ).len() >= 2 && spec_run_tokens(vm, root_drive, usb_args, qmp_socket, spice_socket)[0]
            == "-bios"@ && spec_run_tokens(vm, root_drive, usb_args, qmp_socket, spice_socket)[1]
            == vm.bios_override@,
{
    let base = spec_run_base_tokens(vm, root_drive, usb_args, qmp_socket, spice_socket);
    lemma_flag_tokens_distinct();
    lemma_more_flag_facts();
    if vm.bios_override@.len() == 0 {
        lemma_run_base_values_neq(vm, root_drive, usb_args, qmp_socket, spice_socket, "-bios"@);
        lemma_adjusted_not_contains_skipped(base, vm, "-bios"@);
    } else {
        lemma_adjusted_keeps_head(base, vm);
    }
}

/// Facts telling the firmware flag apart from the run-phase-only flags.
proof fn lemma_more_flag_facts()
    ensures
        "-bios"@ != "-qmp"@,
        "-bios"@ != "-device"@,
        "-bios"@ != "-spice"@,
        "-bios"@ != "-chardev"@,
{
    reveal_strlit("-bios");
    reveal_strlit("-qmp");
    reveal_strlit("-device");
    reveal_strlit("-spice");
    reveal_strlit("-chardev");
    assert("-bios"@.len() == 5);
    assert("-qmp"@.len() == 4);
    assert("-device"@.len() == 7);
    assert("-spice"@.len() == 6);
    assert("-chardev"@.len() == 8);
}

/// The administrative-socket rule, install side: the install-phase list
/// never carries the socket flag.  The inputs that would smuggle the flag's
/// exact text in through a value slot or the extra arguments are left
/// aside.
pub proof fn lemma_install_omits_admin_socket(
    vm: VMBlock,
    install: VMInstallBlock,
    root_drive: Seq<char>,
)
    requires
        root_drive != "-qmp"@,
        vm.bios_override@ != "-qmp"@,
        vm.cpu_override@ != "-qmp"@,
        vm.machine_override@ != "-qmp"@,
        !spec_contains_token(views_of(vm.addtl_args@), "-qmp"@),
    ensures
        !spec_contains_token(spec_install_tokens(vm, install, root_drive), "-qmp"@),
{
    let base = spec_install_base_tokens(vm, install, root_drive);
    lemma_flag_tokens_distinct();
    lemma_install_base_values_neq(vm, install, root_drive, "-qmp"@);
    assert(base[0] == "-bios"@ && base[0] != "-qmp"@);
    assert(base[1] == vm.bios_override@ && base[1] != "-qmp"@);
    lemma_adjusted_not_contains(base, vm, "-qmp"@);
}

/// The administrative-socket rule, run side: the run-phase list always
/// carries the socket flag, whatever the configuration and adjustments.
pub proof fn lemma_run_has_admin_socket(
    vm: VMBlock,
    root_drive: Seq<char>,
    usb_args: Seq<Seq<char>>,
    qmp_socket: Seq<char>,
    spice_socket: Seq<char>,
)
    ensures
        spec_contains_token(
            spec_run_tokens(vm, root_drive, usb_args, qmp_socket, spice_socket),
            "-qmp"@,
        ),
{
    let base = spec_run_base_tokens(vm, root_drive, usb_args, qmp_socket, spice_socket);
    let s: int = if vm.smp_override@.len() > 0 {
        2
    } else {
        0
    };
    let w: int = 9 + s + usb_args.len() + 2;
    assert(base[w] == "-qmp"@);
    assert(base.len() == 31 + s + usb_args.len());
    lemma_adjusted_keeps_mid(base, vm, w);
}

// ---------------------------------------------------------------------------
// Sandboxed launches and the assembled plan
// ---------------------------------------------------------------------------

/// The wrapper tokens of a sandboxed launch: a transient user scope with the
/// decided memory-high watermark and an effectively unbounded swap
/// allowance, then the hypervisor program whose own arguments follow.
pub open spec fn spec_sandbox_prefix(ceiling_mb: nat) -> Seq<Seq<char>> {
    seq![
        "--scope"@,
        "-p"@,
        "MemoryHigh="@ + spec_u64_dec(ceiling_mb) + "M"@,
        "-p"@,
        "MemorySwapMax=999G"@,
        "--user"@,
        "qemu-system-x86_64"@,
    ]
}

/// Wrap a hypervisor argument list for the resource-scoping supervisor.
pub fn sandbox_wrapper_args(ceiling_mb: u64, inner: Vec<String>) -> (r: Vec<String>)
    ensures
        views_of(r@) == spec_sandbox_prefix(ceiling_mb as nat) + views_of(inner@),
{
    let ghost g = inner@;
    let mut r: Vec<String> = Vec::new();
    push_lit(&mut r, "--scope");
    push_lit(&mut r, "-p");
    let mut mh = String::from_str("MemoryHigh=");
    let ceiling_dec = u64_to_string(ceiling_mb);
    mh.append(ceiling_dec.as_str());
    mh.append("M");
    push_tok(&mut r, mh);
    push_lit(&mut r, "-p");
    push_lit(&mut r, "MemorySwapMax=999G");
    push_lit(&mut r, "--user");
    push_lit(&mut r, "qemu-system-x86_64");
    proof {
        assert(views_of(r@) =~~= spec_sandbox_prefix(ceiling_mb as nat));
    }
    let ghost pre = r@;
    let mut rest = inner;
    r.append(&mut rest);
    proof {
        assert(r@ == pre + g);
        assert(views_of(r@) =~~= views_of(pre) + views_of(g));
        assert(views_of(r@) =~~= spec_sandbox_prefix(ceiling_mb as nat) + views_of(g));
    }
    r
}

/// The ordered external invocation for one launch: the program to spawn and
/// its full argument list, tagged with the phase it serves.
pub struct LaunchPlan {
    pub phase: Phase,
    pub program: String,
    pub args: Vec<String>,
}

/// The argument list a phase asks for.
pub open spec fn spec_phase_tokens(
    vm: VMBlock,
    install: VMInstallBlock,
    phase: Phase,
    root_drive: Seq<char>,
    usb_args: Seq<Seq<char>>,
    qmp_socket: Seq<char>,
    spice_socket: Seq<char>,
) -> Seq<Seq<char>> {
    match phase {
        Phase::Install => spec_install_tokens(vm, install, root_drive),
        Phase::Run => spec_run_tokens(vm, root_drive, usb_args, qmp_socket, spice_socket),
    }
}

/// Assemble the launch plan: the phase's argument list, spawned directly or
/// wrapped in the sandbox according to the resource decision.
pub fn build_launch_plan(
    vm: &VMBlock,
    install: &VMInstallBlock,
    phase: Phase,
    decision: &ResourceDecision,
    root_drive: &str,
    usb_args: &Vec<String>,
    qmp_socket: &str,
    spice_socket: &str,
) -> (p: LaunchPlan)
    requires
        decision.well_formed(),
    ensures
        p.phase == phase,
        decision.direct ==> p.program@ == "qemu-system-x86_64"@ && views_of(p.args@)
            == spec_phase_tokens(
            *vm,
            *install,
            phase,
            root_drive@,
            views_of(usb_args@),
            qmp_socket@,
            spice_socket@,
        ),
        !decision.direct ==> p.program@ == "systemd-run"@ && views_of(p.args@)
            == spec_sandbox_prefix(decision.memory_ceiling_mb->0 as nat) + spec_phase_tokens(
            *vm,
            *install,
            phase,
            root_drive@,
            views_of(usb_args@),
            qmp_socket@,
            spice_socket@,
        ),
{
    let tokens = match phase {
        Phase::Install => build_install_args(vm, install, root_drive),
        Phase::Run => build_run_args(vm, root_drive, usb_args, qmp_socket, spice_socket),
    };
    match decision.memory_ceiling_mb {
        None => LaunchPlan {
            phase,
            program: String::from_str("qemu-system-x86_64"),
            args: tokens,
        },
        Some(c) => LaunchPlan {
            phase,
            program: String::from_str("systemd-run"),
            args: sandbox_wrapper_args(c, tokens),
        },
    }
}

} // verus!
