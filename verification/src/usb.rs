//! USB device passthrough: matching a requested vendor/product pair against
//! the devices found on the host bus, reading their bus/address attributes,
//! and building the hypervisor's passthrough argument group.  Reading sysfs
//! and writing the unbind files happens outside the library; this module
//! works on the attribute values handed in.

use vstd::prelude::*;

use crate::VmError;
use crate::strings::eq_ignore_ascii_case;
use crate::strings::parse_u8_dec;
use crate::strings::spec_all_digits;
use crate::strings::spec_dec_val;
use crate::strings::spec_lower;
use crate::strings::spec_trim;
use crate::strings::spec_u64_pad3;
use crate::strings::split_char;
use crate::strings::spec_split;
use crate::strings::trim_str;
use crate::strings::u64_to_string_pad3;
use crate::strings::views_of;

verus! {

/// One device found on the host's USB bus, as its sysfs attribute files
/// read: the entry name, the vendor and product identifier file contents
/// (possibly with trailing whitespace), the bus and address numbers as
/// written, and the currently bound driver, if any.
pub struct UsbDeviceInfo {
    pub name: String,
    pub vendor_id: String,
    pub product_id: String,
    pub busnum: String,
    pub devnum: String,
    pub driver: Option<String>,
}

/// A prepared passthrough binding: the requested identifier pair and the
/// device's place on the host bus.
pub struct DeviceBinding {
    pub vendor: String,
    pub product: String,
    pub host_bus: u8,
    pub host_addr: u8,
}

/// A device matches when its trimmed vendor and product identifiers equal
/// the requested ones up to ASCII case.
pub open spec fn spec_device_matches(d: UsbDeviceInfo, vendor: Seq<char>, product: Seq<char>) -> bool {
    spec_lower(spec_trim(d.vendor_id@)) == spec_lower(vendor) && spec_lower(spec_trim(d.product_id@))
        == spec_lower(product)
}

/// Index of the first matching device; -1 when none matches.
pub open spec fn spec_first_match(
    ds: Seq<UsbDeviceInfo>,
    vendor: Seq<char>,
    product: Seq<char>,
) -> int
    decreases ds.len(),
{
    if ds.len() == 0 {
        -1
    } else if spec_device_matches(ds[0], vendor, product) {
        0
    } else {
        let r = spec_first_match(ds.drop_first(), vendor, product);
        if r == -1 {
            -1
        } else {
            r + 1
        }
    }
}

proof fn lemma_first_match_at(ds: Seq<UsbDeviceInfo>, vendor: Seq<char>, product: Seq<char>, i: int)
    requires
        0 <= i < ds.len(),
        spec_device_matches(ds[i], vendor, product),
        forall|j: int| 0 <= j < i ==> !spec_device_matches(ds[j], vendor, product),
    ensures
        spec_first_match(ds, vendor, product) == i,
    decreases ds.len(),
{
    if i > 0 {
        lemma_first_match_at(ds.drop_first(), vendor, product, i - 1);
    }
}

proof fn lemma_first_match_none(ds: Seq<UsbDeviceInfo>, vendor: Seq<char>, product: Seq<char>)
    requires
        forall|j: int| 0 <= j < ds.len() ==> !spec_device_matches(ds[j], vendor, product),
    ensures
        spec_first_match(ds, vendor, product) == -1,
    decreases ds.len(),
{
    if ds.len() > 0 {
        lemma_first_match_none(ds.drop_first(), vendor, product);
    }
}

/// Find the first device matching the requested pair.
pub fn find_usb_device(devices: &Vec<UsbDeviceInfo>, vendor: &str, product: &str) -> (r: Option<
    usize,
>)
    ensures
        match r {
            Some(i) => i < devices@.len() && i == spec_first_match(devices@, vendor@, product@),
            None => spec_first_match(devices@, vendor@, product@) == -1,
        },
{
    let n = devices.len();
    let mut i: usize = 0;
    while i < n
        invariant
            n == devices@.len(),
            i <= n,
            forall|j: int| 0 <= j < i ==> !spec_device_matches(devices@[j], vendor@, product@),
        decreases n - i,
    {
        let vid = trim_str(devices[i].vendor_id.as_str());
        let pid = trim_str(devices[i].product_id.as_str());
        if eq_ignore_ascii_case(vid.as_str(), vendor) && eq_ignore_ascii_case(
            pid.as_str(),
            product,
        ) {
            proof {
                lemma_first_match_at(devices@, vendor@, product@, i as int);
            }
            return Some(i);
        }
        i += 1;
    }
    proof {
        lemma_first_match_none(devices@, vendor@, product@);
    }
    None
}

/// The device's bus number parses as a byte after trimming.
pub open spec fn spec_bus_ok(d: UsbDeviceInfo) -> bool {
    spec_all_digits(spec_trim(d.busnum@)) && spec_dec_val(spec_trim(d.busnum@)) <= 255
}

/// The device's address parses as a byte after trimming.
pub open spec fn spec_addr_ok(d: UsbDeviceInfo) -> bool {
    spec_all_digits(spec_trim(d.devnum@)) && spec_dec_val(spec_trim(d.devnum@)) <= 255
}

/// Prepare passthrough of the device matching `vendor:product`.  No matching
/// device is not an error: passthrough of that pair is silently skipped.  A
/// matching device whose bus or address attribute is malformed fails with
/// `DeviceBindFailed`.
pub fn prepare(devices: &Vec<UsbDeviceInfo>, vendor: &str, product: &str) -> (r: Result<
    Option<DeviceBinding>,
    VmError,
>)
    ensures
        ({
            let fm = spec_first_match(devices@, vendor@, product@);
            &&& (r is Ok && r->Ok_0 is None) <==> fm == -1
            &&& (r is Ok && r->Ok_0 is Some) <==> (fm >= 0 && spec_bus_ok(devices@[fm])
                && spec_addr_ok(devices@[fm]))
            &&& (r is Ok && r->Ok_0 is Some) ==> {
                let b = r->Ok_0->0;
                &&& b.vendor@ == vendor@
                &&& b.product@ == product@
                &&& b.host_bus == spec_dec_val(spec_trim(devices@[fm].busnum@))
                &&& b.host_addr == spec_dec_val(spec_trim(devices@[fm].devnum@))
            }
            &&& r is Err ==> r->Err_0 == VmError::DeviceBindFailed
        }),
{
    match find_usb_device(devices, vendor, product) {
        None => Ok(None),
        Some(i) => {
            let bus = trim_str(devices[i].busnum.as_str());
            let addr = trim_str(devices[i].devnum.as_str());
            match (parse_u8_dec(bus.as_str()), parse_u8_dec(addr.as_str())) {
                (Some(host_bus), Some(host_addr)) => Ok(
                    Some(
                        DeviceBinding {
                            vendor: String::from_str(vendor),
                            product: String::from_str(product),
                            host_bus,
                            host_addr,
                        },
                    ),
                ),
                _ => Err(VmError::DeviceBindFailed),
            }
        },
    }
}

/// The path of the sysfs file that unbinds a device from `driver`.
pub fn unbind_sysfs_path(driver: &str) -> (r: String)
    ensures
        r@ == "/sys/bus/usb/drivers/"@ + driver@ + "/unbind"@,
{
    let mut r = String::from_str("/sys/bus/usb/drivers/");
    r.append(driver);
    r.append("/unbind");
    r
}

/// The device node of a bus/address pair, with the three-digit zero padding
/// the host uses.
pub fn dev_bus_usb_path(bus: u8, addr: u8) -> (r: String)
    ensures
        r@ == "/dev/bus/usb/"@ + spec_u64_pad3(bus as nat) + "/"@ + spec_u64_pad3(addr as nat),
{
    let mut r = String::from_str("/dev/bus/usb/");
    let b = u64_to_string_pad3(bus as u64);
    r.append(b.as_str());
    r.append("/");
    let a = u64_to_string_pad3(addr as u64);
    r.append(a.as_str());
    r
}

/// The value written to the isolating driver's identifier file: the vendor
/// and product separated by one space.
pub fn usb_stub_new_id_value(vendor: &str, product: &str) -> (r: String)
    ensures
        r@ == vendor@ + " "@ + product@,
{
    let mut r = String::from_str(vendor);
    r.append(" ");
    r.append(product);
    r
}

/// The passthrough argument pair for one bound device; empty when the device
/// is not present.
pub fn qemu_usb_args(vendor: &str, product: &str, present: bool) -> (r: Vec<String>)
    ensures
        present ==> views_of(r@) == seq![
            "-device"@,
            "usb-host,vendorid=0x"@ + vendor@ + ",productid=0x"@ + product@,
        ],
        !present ==> views_of(r@) == Seq::<Seq<char>>::empty(),
{
    let mut r: Vec<String> = Vec::new();
    if present {
        r.push(String::from_str("-device"));
        let mut arg = String::from_str("usb-host,vendorid=0x");
        arg.append(vendor);
        arg.append(",productid=0x");
        arg.append(product);
        r.push(arg);
        proof {
            assert(views_of(r@) =~~= seq![
                "-device"@,
                "usb-host,vendorid=0x"@ + vendor@ + ",productid=0x"@ + product@,
            ]);
        }
    } else {
        proof {
            assert(views_of(r@) =~~= Seq::<Seq<char>>::empty());
        }
    }
    r
}

/// The whole argument contribution of one requested `vendor:product` pair:
/// the host controller and the passthrough device when the device is bound,
/// nothing when it is absent, and `ConfigInvalid` when the pair itself is
/// malformed.
pub fn process_usb_passthrough_to_qemu_args(vendor_and_product_ids: &str, present: bool) -> (r:
    Result<Vec<String>, VmError>)
    ensures
        ({
            let pieces = spec_split(vendor_and_product_ids@, ':');
            &&& r is Ok <==> pieces.len() >= 2
            &&& r is Err ==> r->Err_0 == VmError::ConfigInvalid
            &&& (r is Ok && present) ==> views_of(r->Ok_0@) == seq![
                "-device"@,
                "qemu-xhci,id=usb"@,
                "-device"@,
                "usb-host,vendorid=0x"@ + pieces[0] + ",productid=0x"@ + pieces[1],
            ]
            &&& (r is Ok && !present) ==> views_of(r->Ok_0@) == Seq::<Seq<char>>::empty()
        }),
{
    let pieces = split_char(vendor_and_product_ids, ':');
    if pieces.len() < 2 {
        return Err(VmError::ConfigInvalid);
    }
    proof {
        assert(views_of(pieces@)[0] == spec_split(vendor_and_product_ids@, ':')[0]);
        assert(views_of(pieces@)[1] == spec_split(vendor_and_product_ids@, ':')[1]);
    }
    let mut r: Vec<String> = Vec::new();
    if present {
        r.push(String::from_str("-device"));
        r.push(String::from_str("qemu-xhci,id=usb"));
        let mut arg = String::from_str("usb-host,vendorid=0x");
        arg.append(pieces[0].as_str());
        arg.append(",productid=0x");
        arg.append(pieces[1].as_str());
        r.push(String::from_str("-device"));
        r.push(arg);
        proof {
            assert(views_of(r@) =~~= seq![
                "-device"@,
                "qemu-xhci,id=usb"@,
                "-device"@,
                "usb-host,vendorid=0x"@ + spec_split(vendor_and_product_ids@, ':')[0]
                    + ",productid=0x"@ + spec_split(vendor_and_product_ids@, ':')[1],
            ]);
        }
    } else {
        proof {
            assert(views_of(r@) =~~= Seq::<Seq<char>>::empty());
        }
    }
    Ok(r)
}

} // verus!
