//! Root-drive resolution: turning a canonical partition device path into the
//! whole-disk device to hand to the hypervisor, and building the drive
//! argument for either disk form.

use vstd::prelude::*;

use crate::config::VMBlock;
use crate::config::spec_after_last_slash_start;
use crate::strings::contains_str;
use crate::strings::spec_contains_seq;
use crate::strings::spec_u64_dec;
use crate::strings::u64_to_string;
use crate::strings::views_of;

verus! {

/// The whole-disk name guessed from a partition name: one trailing character
/// is stripped (the partition numeral), and on NVMe names a second one (the
/// partition separator `p`).
pub open spec fn spec_whole_disk_candidate(part: Seq<char>) -> Seq<char> {
    let d1 = if part.len() > 0 {
        part.drop_last()
    } else {
        part
    };
    if spec_contains_seq(d1, "nvme"@) {
        if d1.len() > 0 {
            d1.drop_last()
        } else {
            d1
        }
    } else {
        d1
    }
}

/// Strip the partition suffix from a partition name: `sda2` becomes `sda`,
/// `nvme0n1p3` becomes `nvme0n1`.
pub fn whole_disk_candidate(part: &str) -> (r: String)
    ensures
        r@ == spec_whole_disk_candidate(part@),
{
    let n = part.unicode_len();
    let d1: &str = if n > 0 {
        part.substring_char(0, n - 1)
    } else {
        part
    };
    proof {
        if part@.len() > 0 {
            assert(part@.subrange(0, part@.len() - 1) =~= part@.drop_last());
        }
    }
    let m = d1.unicode_len();
    if contains_str(d1, "nvme") {
        if m > 0 {
            let r = String::from_str(d1.substring_char(0, m - 1));
            proof {
                assert(d1@.subrange(0, d1@.len() - 1) =~= d1@.drop_last());
            }
            r
        } else {
            String::from_str(d1)
        }
    } else {
        String::from_str(d1)
    }
}

/// The directory part of a canonical path (everything through the last `/`)
/// joined with the whole-disk name guessed from its file part.
pub open spec fn spec_whole_disk_sibling(canonical: Seq<char>) -> Seq<char> {
    let k = spec_after_last_slash_start(canonical);
    canonical.subrange(0, k) + spec_whole_disk_candidate(
        canonical.subrange(k, canonical.len() as int),
    )
}

/// The path at which the whole disk would sit beside the given canonical
/// partition path.  Whether anything exists there is for the caller to test.
pub fn whole_disk_sibling_path(canonical: &str) -> (r: String)
    ensures
        r@ == spec_whole_disk_sibling(canonical@),
{
    let n = canonical.unicode_len();
    let k: usize = match crate::strings::find_last_char(canonical, '/') {
        Some(i) => {
            proof {
                crate::config::lemma_after_last_slash_some(canonical@, i as int);
            }
            i + 1
        },
        None => {
            proof {
                crate::config::lemma_after_last_slash_none(canonical@);
            }
            0
        },
    };
    let cand = whole_disk_candidate(canonical.substring_char(k, n));
    let mut r = String::from_str(canonical.substring_char(0, k));
    r.append(cand.as_str());
    r
}

/// The root device to put in the drive argument: the whole-disk sibling when
/// it actually exists beside the canonical path, the canonical path itself
/// otherwise.
pub open spec fn spec_root_device_path(canonical: Seq<char>, sibling_exists: bool) -> Seq<char> {
    if sibling_exists {
        spec_whole_disk_sibling(canonical)
    } else {
        canonical
    }
}

/// Pick the root device path.  `sibling_exists` reports whether the path
/// `whole_disk_sibling_path(canonical)` exists on the host.
pub fn root_device_path(canonical: &str, sibling_exists: bool) -> (r: String)
    ensures
        r@ == spec_root_device_path(canonical@, sibling_exists),
{
    if sibling_exists {
        whole_disk_sibling_path(canonical)
    } else {
        String::from_str(canonical)
    }
}

/// The root drive argument.  A physical disk is attached raw (with an
/// optional interface override); an image file is attached as qcow2.  Both
/// carry the fixed drive identifier and the throughput-over-durability cache
/// hint.
pub open spec fn spec_root_drive_arg(vm: VMBlock, device: Seq<char>) -> Seq<char> {
    if vm.spec_is_physical_disk() {
        if vm.root_disk_if_override@.len() < 1 {
            "id=root_disk,format=raw,cache=unsafe,file="@ + device
        } else {
            "id=root_disk,format=raw,cache=unsafe,file="@ + device + ",if="@
                + vm.root_disk_if_override@
        }
    } else {
        "id=root_disk,format=qcow2,cache=unsafe,file="@ + vm.disk_image@
    }
}

/// Build the root drive argument.  `device` is the resolved physical device
/// path; it is ignored for an image-backed VM.
pub fn root_drive_arg(vm: &VMBlock, device: &str) -> (r: String)
    ensures
        r@ == spec_root_drive_arg(*vm, device@),
{
    if vm.is_physical_disk() {
        let mut r = String::from_str("id=root_disk,format=raw,cache=unsafe,file=");
        r.append(device);
        if vm.root_disk_if_override.as_str().unicode_len() >= 1 {
            r.append(",if=");
            r.append(vm.root_disk_if_override.as_str());
        }
        r
    } else {
        let mut r = String::from_str("id=root_disk,format=qcow2,cache=unsafe,file=");
        r.append(vm.disk_image.as_str());
        r
    }
}

/// The argument list for creating a fresh qcow2 image of the configured
/// size.
pub fn disk_image_create_args(vm: &VMBlock) -> (r: Vec<String>)
    ensures
        views_of(r@) == seq![
            "create"@,
            "-f"@,
            "qcow2"@,
            vm.disk_image@,
            spec_u64_dec(vm.disk_image_gb as nat) + "G"@,
        ],
{
    let mut r: Vec<String> = Vec::new();
    r.push(String::from_str("create"));
    r.push(String::from_str("-f"));
    r.push(String::from_str("qcow2"));
    r.push(vm.disk_image.clone());
    let mut size = u64_to_string(vm.disk_image_gb as u64);
    size.append("G");
    r.push(size);
    proof {
        assert(views_of(r@) =~= seq![
            "create"@,
            "-f"@,
            "qcow2"@,
            vm.disk_image@,
            spec_u64_dec(vm.disk_image_gb as nat) + "G"@,
        ]);
    }
    r
}

} // verus!
