//! Argument lists for the external host programs the supervisor invokes:
//! the file fetcher, the privileged helper, the swap extents, and generic
//! shell passthrough.  Spawning is done outside the library.

use vstd::prelude::*;

use crate::strings::views_of;

verus! {

/// A download is attempted only for a meaningful source location.
pub fn should_attempt_download(url: &str) -> (r: bool)
    ensures
        r == (url@.len() >= 2),
{
    url.unicode_len() >= 2
}

/// The file fetcher's arguments: resume if partial, write to the local
/// path.
pub fn download_file_args(url: &str, local_file: &str) -> (r: Vec<String>)
    ensures
        views_of(r@) == seq!["--continue"@, url@, "-O"@, local_file@],
{
    let mut r: Vec<String> = Vec::new();
    r.push(String::from_str("--continue"));
    r.push(String::from_str(url));
    r.push(String::from_str("-O"));
    r.push(String::from_str(local_file));
    proof {
        assert(views_of(r@) =~~= seq!["--continue"@, url@, "-O"@, local_file@]);
    }
    r
}

/// The privileged helper's arguments for making a device node
/// world-accessible.
pub fn chmod_world_rw_args(path: &str) -> (r: Vec<String>)
    ensures
        views_of(r@) == seq!["chmod"@, "a+rwx"@, path@],
{
    let mut r: Vec<String> = Vec::new();
    r.push(String::from_str("chmod"));
    r.push(String::from_str("a+rwx"));
    r.push(String::from_str(path));
    proof {
        assert(views_of(r@) =~~= seq!["chmod"@, "a+rwx"@, path@]);
    }
    r
}

/// The privileged helper's arguments for writing a value into a sysfs file
/// through `tee`.
pub fn sudo_tee_args(path: &str) -> (r: Vec<String>)
    ensures
        views_of(r@) == seq!["tee"@, path@],
{
    let mut r: Vec<String> = Vec::new();
    r.push(String::from_str("tee"));
    r.push(String::from_str(path));
    proof {
        assert(views_of(r@) =~~= seq!["tee"@, path@]);
    }
    r
}

/// The privileged helper's arguments for loading the isolating USB driver.
pub fn modprobe_usb_stub_args() -> (r: Vec<String>)
    ensures
        views_of(r@) == seq!["modprobe"@, "usb-stub"@],
{
    let mut r: Vec<String> = Vec::new();
    r.push(String::from_str("modprobe"));
    r.push(String::from_str("usb-stub"));
    proof {
        assert(views_of(r@) =~~= seq!["modprobe"@, "usb-stub"@]);
    }
    r
}

/// The privileged helper's arguments for enabling one swap extent.
pub fn swapon_args(path: &str) -> (r: Vec<String>)
    ensures
        views_of(r@) == seq!["swapon"@, path@],
{
    let mut r: Vec<String> = Vec::new();
    r.push(String::from_str("swapon"));
    r.push(String::from_str(path));
    proof {
        assert(views_of(r@) =~~= seq!["swapon"@, path@]);
    }
    r
}

/// The shell's arguments for running one host command line.
pub fn shell_invocation_args(cmd: &str) -> (r: Vec<String>)
    ensures
        views_of(r@) == seq!["-c"@, cmd@],
{
    let mut r: Vec<String> = Vec::new();
    r.push(String::from_str("-c"));
    r.push(String::from_str(cmd));
    proof {
        assert(views_of(r@) =~~= seq!["-c"@, cmd@]);
    }
    r
}

/// The pre-provisioned swap extents to enable before a sandboxed launch:
/// three numbered extents under each of the two host mount points that are
/// actually present, interleaved in probe order.
pub open spec fn spec_swap_extent_paths(scratch_exists: bool, azure_exists: bool) -> Seq<
    Seq<char>,
> {
    (if scratch_exists {
        seq!["/mnt/scratch/swap-files/swap-1"@]
    } else {
        Seq::<Seq<char>>::empty()
    }) + (if azure_exists {
        seq!["/mnt/azure-data/swap-files/swap-1"@]
    } else {
        Seq::<Seq<char>>::empty()
    }) + (if scratch_exists {
        seq!["/mnt/scratch/swap-files/swap-2"@]
    } else {
        Seq::<Seq<char>>::empty()
    }) + (if azure_exists {
        seq!["/mnt/azure-data/swap-files/swap-2"@]
    } else {
        Seq::<Seq<char>>::empty()
    }) + (if scratch_exists {
        seq!["/mnt/scratch/swap-files/swap-3"@]
    } else {
        Seq::<Seq<char>>::empty()
    }) + (if azure_exists {
        seq!["/mnt/azure-data/swap-files/swap-3"@]
    } else {
        Seq::<Seq<char>>::empty()
    })
}

/// The swap extents to enable, given which of the two host mount points
/// exist.
pub fn swap_extent_paths(scratch_exists: bool, azure_exists: bool) -> (r: Vec<String>)
    ensures
        views_of(r@) == spec_swap_extent_paths(scratch_exists, azure_exists),
{
    let mut r: Vec<String> = Vec::new();
    if scratch_exists {
        r.push(String::from_str("/mnt/scratch/swap-files/swap-1"));
    }
    if azure_exists {
        r.push(String::from_str("/mnt/azure-data/swap-files/swap-1"));
    }
    if scratch_exists {
        r.push(String::from_str("/mnt/scratch/swap-files/swap-2"));
    }
    if azure_exists {
        r.push(String::from_str("/mnt/azure-data/swap-files/swap-2"));
    }
    if scratch_exists {
        r.push(String::from_str("/mnt/scratch/swap-files/swap-3"));
    }
    if azure_exists {
        r.push(String::from_str("/mnt/azure-data/swap-files/swap-3"));
    }
    proof {
        assert(views_of(r@) =~~= spec_swap_extent_paths(scratch_exists, azure_exists));
    }
    r
}

} // verus!
