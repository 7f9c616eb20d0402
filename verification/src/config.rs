//! The declarative VM specification: the install block, the VM block, the
//! default values of optional fields, the flag-file path rule, and the
//! environment-driven overrides.

use vstd::prelude::*;

use crate::strings::spec_override_nonempty;

verus! {

/// The whole configuration: install-phase settings plus the VM itself.
pub struct VMConfig {
    pub install: VMInstallBlock,
    pub vm: VMBlock,
}

/// Install-phase settings: where the install medium comes from and where it
/// is kept.
pub struct VMInstallBlock {
    pub boot_iso_url: String,
    pub boot_iso: String,
}

/// The VM specification.  Exactly one of `disk_image` and `disk_partuuid` is
/// meaningful: a `disk_partuuid` longer than one character selects the
/// physical-disk path.
pub struct VMBlock {
    pub name: String,
    pub disk_image: String,
    pub disk_image_gb: usize,
    pub disk_partuuid: String,
    pub mount_windows_virtio_iso: bool,
    pub bios_override: String,
    pub spice_gl_override: String,
    pub spice_rendernode_override: String,
    pub smp_override: String,
    pub cpu_override: String,
    pub machine_override: String,
    pub root_disk_if_override: String,
    pub ram_mb: usize,
    pub drop_to_serial: bool,
    pub addtl_args: Vec<String>,
    pub rdp_uname: String,
    pub rdp_pass: String,
    pub rdp_pass_env: String,
    pub addtl_rdp_args: Vec<String>,
    pub usb_passthrough_devices: Vec<String>,
    pub preboot_cmds: Vec<String>,
}

impl VMBlock {
    /// The physical-disk path is selected by a meaningful partition
    /// identifier.
    pub open spec fn spec_is_physical_disk(self) -> bool {
        self.disk_partuuid@.len() > 1
    }

    /// Whether this VM boots from a physical disk rather than an image file.
    pub fn is_physical_disk(&self) -> (r: bool)
        ensures
            r == self.spec_is_physical_disk(),
    {
        self.disk_partuuid.as_str().unicode_len() > 1
    }
}

// ---------------------------------------------------------------------------
// Default field values
// ---------------------------------------------------------------------------

/// Default for optional string fields.
pub fn empty_string() -> (r: String)
    ensures
        r@ == Seq::<char>::empty(),
{
    String::new()
}

/// Default disk image path, a placeholder that never names a real image.
pub fn dev_null_pathbuf() -> (r: String)
    ensures
        r@ == "/dev/null"@,
{
    String::from_str("/dev/null")
}

/// Default for optional size fields.
pub fn zero_usize() -> (r: usize)
    ensures
        r == 0,
{
    0
}

/// Default for optional flag fields.
pub fn false_bool() -> (r: bool)
    ensures
        r == false,
{
    false
}

/// Default for optional list fields.
pub fn empty_vec_string() -> (r: Vec<String>)
    ensures
        r@ == Seq::<String>::empty(),
{
    Vec::new()
}

/// Default firmware image.
pub fn default_bios_override_val() -> (r: String)
    ensures
        r@ == "/usr/share/edk2-ovmf/x64/OVMF_CODE.fd"@,
{
    String::from_str("/usr/share/edk2-ovmf/x64/OVMF_CODE.fd")
}

/// Default display-channel GPU acceleration toggle.
pub fn default_spice_gl_override() -> (r: String)
    ensures
        r@ == "on"@,
{
    String::from_str("on")
}

/// Default render node for the display channel.
pub fn default_spice_rendernode_override() -> (r: String)
    ensures
        r@ == "/dev/dri/by-path/pci-0000:00:02.0-render"@,
{
    String::from_str("/dev/dri/by-path/pci-0000:00:02.0-render")
}

/// Default virtual CPU count.
pub fn default_smp_override() -> (r: String)
    ensures
        r@ == "4"@,
{
    String::from_str("4")
}

/// Default CPU model.
pub fn default_cpu_override() -> (r: String)
    ensures
        r@ == "host"@,
{
    String::from_str("host")
}

/// Default machine model.
pub fn default_machine_override() -> (r: String)
    ensures
        r@ == "type=pc,accel=kvm,kernel_irqchip=on"@,
{
    String::from_str("type=pc,accel=kvm,kernel_irqchip=on")
}

// ---------------------------------------------------------------------------
// Flag-file paths
// ---------------------------------------------------------------------------

/// The start of the path component after the last `/`; 0 when there is no
/// `/` at all.
pub open spec fn spec_after_last_slash_start(s: Seq<char>) -> int
    decreases s.len(),
{
    if s.len() == 0 {
        0
    } else if s.last() == '/' {
        s.len() as int
    } else {
        spec_after_last_slash_start(s.drop_last())
    }
}

pub proof fn lemma_after_last_slash_some(s: Seq<char>, i: int)
    requires
        0 <= i < s.len(),
        s[i] == '/',
        forall|j: int| i < j < s.len() ==> s[j] != '/',
    ensures
        spec_after_last_slash_start(s) == i + 1,
    decreases s.len(),
{
    if s.last() == '/' {
        assert(i == s.len() - 1);
    } else {
        lemma_after_last_slash_some(s.drop_last(), i);
    }
}

pub proof fn lemma_after_last_slash_none(s: Seq<char>)
    requires
        forall|j: int| 0 <= j < s.len() ==> s[j] != '/',
    ensures
        spec_after_last_slash_start(s) == 0,
    decreases s.len(),
{
    if s.len() > 0 {
        lemma_after_last_slash_none(s.drop_last());
    }
}

/// The path of a marker ("flag") file derived from the VM's disk identity.
/// A physical-disk VM keeps its markers under a fixed directory, named after
/// the partition identifier; an image-backed VM appends the marker name to
/// the image's file name.
pub open spec fn spec_flag_path(vm: VMBlock, flag: Seq<char>) -> Seq<char> {
    if vm.spec_is_physical_disk() {
        if flag.len() > 0 && flag[0] == '.' {
            "/mnt/scratch/vms/_flag_"@ + vm.disk_partuuid@ + flag
        } else {
            "/mnt/scratch/vms/_flag_"@ + vm.disk_partuuid@ + "."@ + flag
        }
    } else {
        let img = vm.disk_image@;
        let k = spec_after_last_slash_start(img);
        let base = img.subrange(k, img.len() as int);
        if base.len() == 0 {
            img.subrange(0, k) + vm.name@ + flag
        } else {
            img.subrange(0, k) + base + flag
        }
    }
}

impl VMBlock {
    /// Build the path of the marker file named `flag` for this VM.
    pub fn flag_path(&self, flag: &str) -> (r: String)
        ensures
            r@ == spec_flag_path(*self, flag@),
    {
        if self.is_physical_disk() {
            let mut r = String::from_str("/mnt/scratch/vms/_flag_");
            r.append(self.disk_partuuid.as_str());
            let starts_dot = if flag.unicode_len() > 0 {
                flag.get_char(0) == '.'
            } else {
                false
            };
            if !starts_dot {
                r.append(".");
            }
            r.append(flag);
            proof {
                assert(r@ =~= spec_flag_path(*self, flag@));
            }
            r
        } else {
            let img = self.disk_image.as_str();
            let n = img.unicode_len();
            let k: usize = match crate::strings::find_last_char(img, '/') {
                Some(i) => {
                    proof {
                        lemma_after_last_slash_some(img@, i as int);
                    }
                    i + 1
                },
                None => {
                    proof {
                        lemma_after_last_slash_none(img@);
                    }
                    0
                },
            };
            let mut r = String::from_str(img.substring_char(0, k));
            if k == n {
                r.append(self.name.as_str());
            } else {
                r.append(img.substring_char(k, n));
            }
            r.append(flag);
            proof {
                assert(img@.subrange(k as int, img@.len() as int).len() == 0 <==> k == n);
                assert(r@ =~= spec_flag_path(*self, flag@));
            }
            r
        }
    }
}

// ---------------------------------------------------------------------------
// Environment overrides
// ---------------------------------------------------------------------------

impl VMConfig {
    /// Apply the environment-variable overrides for the display-channel GPU
    /// toggle and the CPU count.  A present, non-empty value replaces the
    /// configured one; everything else is kept.
    pub fn apply_env_overrides(&mut self, spice_gl: Option<String>, smp: Option<String>)
        ensures
            final(self).vm.spice_gl_override@ == spec_override_nonempty(
                old(self).vm.spice_gl_override@,
                spice_gl,
            ),
            final(self).vm.smp_override@ == spec_override_nonempty(
                old(self).vm.smp_override@,
                smp,
            ),
            final(self).install == old(self).install,
            final(self).vm == (VMBlock {
                spice_gl_override: final(self).vm.spice_gl_override,
                smp_override: final(self).vm.smp_override,
                ..old(self).vm
            }),
    {
        if let Some(v) = spice_gl {
            if v.as_str().unicode_len() > 0 {
                self.vm.spice_gl_override = v;
            }
        }
        if let Some(v) = smp {
            if v.as_str().unicode_len() > 0 {
                self.vm.smp_override = v;
            }
        }
    }
}

} // verus!
