use vstd::prelude::*;
use vstd::string::*;

use crate::error::{GfxError, GfxErrorView};
use crate::gfx_vendors::GfxVendor;
use crate::pci_device::{device_views, Device, DeviceView};
use crate::text::{
    char_is_numeric, contains, end_trimmed_of, trim_end, is_prefix_of, occurs_in, spec_trim_end, spec_until, starts_with,
    str_eq, trim_end_char, trim_end_numeric, until_char,
};

verus! {

/// What the device manager tells of one PCI function.
#[derive(Debug, Clone, PartialEq, Eq)]
pub struct PciRecord {
    /// System name given by kernel, e.g `0000:01:00.0`
    pub sysname: String,
    /// Where the function is found in sysfs
    pub syspath: String,
    /// The property `PCI_ID`: vendor and device, as in `10DE:2520`
    pub pci_id: Option<String>,
    /// The property `PCI_CLASS`
    pub pci_class: Option<String>,
    /// The attribute `boot_vga`
    pub boot_vga: Option<String>,
    /// The property `ID_MODEL_FROM_DATABASE`
    pub model: Option<String>,
    /// How asking `lspci` for `pci_id` went: what it printed, or what the
    /// system said when it could not be run; `None` where it was not asked
    pub lspci: Option<Result<String, String>>,
    /// The power file of the slot that the function sits in, where the
    /// slot has one
    pub slot_power: Option<String>,
}

pub struct PciRecordView {
    pub sysname: Seq<char>,
    pub syspath: Seq<char>,
    pub pci_id: Option<Seq<char>>,
    pub pci_class: Option<Seq<char>>,
    pub boot_vga: Option<Seq<char>>,
    pub model: Option<Seq<char>>,
    pub lspci: Option<Result<Seq<char>, Seq<char>>>,
    pub slot_power: Option<Seq<char>>,
}

/// The text of an optional `String`.
pub open spec fn text_of(s: Option<String>) -> Option<Seq<char>> {
    match s {
        Some(t) => Some(t@),
        None => None,
    }
}

impl View for PciRecord {
    type V = PciRecordView;

    open spec fn view(&self) -> PciRecordView {
        PciRecordView {
            sysname: self.sysname@,
            syspath: self.syspath@,
            pci_id: text_of(self.pci_id),
            pci_class: text_of(self.pci_class),
            boot_vga: text_of(self.boot_vga),
            model: text_of(self.model),
            lspci: match self.lspci {
                Some(Ok(printed)) => Some(Ok(printed@)),
                Some(Err(said)) => Some(Err(said@)),
                None => None,
            },
            slot_power: text_of(self.slot_power),
        }
    }
}

/// The views of a list of records.
pub open spec fn record_views(records: Seq<PciRecord>) -> Seq<PciRecordView> {
    Seq::new(records.len(), |i: int| records[i]@)
}

/// Does a label from the database of PCI ids name a discrete GPU?
pub open spec fn spec_lscpi_dgpu_check(label: Seq<char>) -> bool {
    ||| occurs_in("Radeon RX"@, label)
    ||| occurs_in("AMD/ATI"@, label)
    ||| occurs_in("GeForce"@, label)
    ||| occurs_in("Geforce"@, label)
    ||| occurs_in("Quadro"@, label)
}

pub fn lscpi_dgpu_check(label: &str) -> (res: bool)
    ensures
        res == spec_lscpi_dgpu_check(label@),
{
    contains(label, "Radeon RX") || contains(label, "AMD/ATI") || contains(label, "GeForce")
        || contains(label, "Geforce") || contains(label, "Quadro")
}

/// The name that the functions of one device share: the system name
/// without the number of the function and the dot before it.
pub open spec fn spec_parent_name(sysname: Seq<char>) -> Seq<char> {
    spec_trim_end(spec_trim_end(sysname, |c: char| char_is_numeric(c)), |c: char| c == '.')
}

pub fn parent_name(sysname: &str) -> (res: &str)
    ensures
        res@ == spec_parent_name(sysname@),
{
    trim_end_char(trim_end_numeric(sysname), '.')
}

/// The failure of a search that needed `lspci` where it was not asked.
pub open spec fn spec_lspci_not_asked() -> GfxErrorView {
    GfxErrorView::Io(Seq::empty(), "lspci was not asked"@)
}

impl PciRecordView {
    /// Only functions of Nvidia and AMD that tell their id and class are
    /// looked at.
    pub open spec fn is_candidate(self) -> bool {
        &&& self.pci_id matches Some(id)
        &&& self.pci_class.is_some()
        &&& (is_prefix_of("10DE"@, id) || is_prefix_of("1002"@, id))
    }

    /// Is the function a discrete GPU? Where the kernel says whether it is
    /// the display of the firmware, a display that is not is one. Else the
    /// label of the model decides, and without one what `lspci` prints.
    /// Where `lspci` is needed and could not be run, the failure is what the
    /// system said of it.
    pub open spec fn is_dgpu(self) -> Result<bool, GfxErrorView>
        recommends
            self.is_candidate(),
    {
        match self.boot_vga {
            Some(boot_vga) => Ok(is_prefix_of("30"@, self.pci_class->0) && boot_vga == "0"@),
            None => match self.model {
                Some(label) => Ok(spec_lscpi_dgpu_check(label)),
                None => match self.lspci {
                    Some(Ok(label)) => Ok(spec_lscpi_dgpu_check(label)),
                    Some(Err(said)) => Err(GfxErrorView::Io(Seq::empty(), said)),
                    None => Err(spec_lspci_not_asked()),
                },
            },
        }
    }

    /// The function as one of the dGPU's.
    pub open spec fn device(self, dgpu: bool) -> DeviceView
        recommends
            self.is_candidate(),
    {
        DeviceView {
            dev_path: self.syspath,
            hotplug_path: if dgpu {
                self.slot_power
            } else {
                None
            },
            vendor: GfxVendor::spec_from_hex(spec_until(self.pci_id->0, ':')),
            is_dgpu: dgpu,
            name: self.sysname,
            pci_id: self.pci_id->0,
        }
    }
}

/// The search from record `i` on, with the functions found so far and the
/// name that the functions of the device found last share.
///
/// A candidate is taken where it is a discrete GPU, and where its name holds
/// the shared name of the function taken before it. The search ends with
/// the first record, looked at or not, whose name does not hold the shared
/// name, once there is one.
pub open spec fn spec_find_from(
    records: Seq<PciRecordView>,
    i: int,
    devices: Seq<DeviceView>,
    parent: Seq<char>,
) -> Result<Seq<DeviceView>, GfxErrorView>
    decreases records.len() - i,
{
    if i < 0 || i >= records.len() {
        Ok(devices)
    } else {
        let record = records[i];
        if record.is_candidate() && record.is_dgpu() is Err {
            Err(record.is_dgpu()->Err_0)
        } else {
            let take = record.is_candidate() && (record.is_dgpu()->Ok_0 || (parent.len() > 0
                && occurs_in(parent, record.sysname)));
            let found = if take {
                devices.push(record.device(record.is_dgpu()->Ok_0))
            } else {
                devices
            };
            let shared = if take {
                spec_parent_name(record.sysname)
            } else {
                parent
            };
            if shared.len() > 0 && !occurs_in(shared, record.sysname) {
                Ok(found)
            } else {
                spec_find_from(records, i + 1, found, shared)
            }
        }
    }
}

/// The functions of the dGPU among `records`, which are in the order the
/// device manager lists them in.
pub open spec fn spec_find(records: Seq<PciRecordView>) -> Result<Seq<DeviceView>, GfxErrorView> {
    match spec_find_from(records, 0, Seq::empty(), Seq::empty()) {
        Ok(devices) => if devices.len() == 0 {
            Err(GfxErrorView::DgpuNotFound)
        } else {
            Ok(devices)
        },
        Err(e) => Err(e),
    }
}

impl PciRecord {
    /// Is the function one that is looked at?
    pub fn is_candidate(&self) -> (res: bool)
        ensures
            res == self@.is_candidate(),
    {
        match (&self.pci_id, &self.pci_class) {
            (Some(id), Some(_)) => starts_with(id.as_str(), "10DE") || starts_with(
                id.as_str(),
                "1002",
            ),
            _ => false,
        }
    }

    /// Does it take `lspci` to tell whether the function is a discrete GPU?
    /// It does for a function that is looked at and tells neither whether
    /// it is the display of the firmware nor its model.
    pub fn needs_lspci(&self) -> (res: bool)
        ensures
            res == (self@.is_candidate() && self@.boot_vga.is_none() && self@.model.is_none()),
    {
        self.is_candidate() && self.boot_vga.is_none() && self.model.is_none()
    }

    /// Is the function a discrete GPU? One that is not looked at is none.
    pub fn is_dgpu(&self) -> (res: Result<bool, GfxError>)
        ensures
            match (if self@.is_candidate() {
                self@.is_dgpu()
            } else {
                Ok(false)
            }) {
                Ok(dgpu) => res == Ok::<bool, GfxError>(dgpu),
                Err(e) => res matches Err(x) && x@ == e,
            },
    {
        if !self.is_candidate() {
            return Ok(false);
        }
        match &self.boot_vga {
            Some(boot_vga) => {
                let class = match &self.pci_class {
                    Some(class) => class.as_str(),
                    None => "",
                };
                Ok(starts_with(class, "30") && str_eq(boot_vga.as_str(), "0"))
            },
            None => match &self.model {
                Some(label) => Ok(lscpi_dgpu_check(label.as_str())),
                None => match &self.lspci {
                    Some(Ok(label)) => Ok(lscpi_dgpu_check(label.as_str())),
                    Some(Err(said)) => Err(GfxError::Io(String::new(), said.clone())),
                    None => Err(GfxError::Io(String::new(), String::from_str("lspci was not asked"))),
                },
            },
        }
    }
}

fn clone_text(s: &Option<String>) -> (res: Option<String>)
    ensures
        text_of(res) == text_of(*s),
{
    match s {
        Some(t) => Some(t.clone()),
        None => None,
    }
}

impl Device {
    /// Finds the functions of the dGPU among the PCI functions of the
    /// machine.
    pub fn find(records: &Vec<PciRecord>) -> (res: Result<Vec<Device>, GfxError>)
        ensures
            match spec_find(record_views(records@)) {
                Ok(devices) => res matches Ok(v) && device_views(v@) == devices,
                Err(e) => res matches Err(x) && x@ == e,
            },
    {
        let ghost views = record_views(records@);
        let mut devices: Vec<Device> = Vec::new();
        let mut parent = String::new();
        let mut i: usize = 0;
        let mut ended = false;
        assert(device_views(devices@) =~= Seq::empty());
        while i < records.len() && !ended
            invariant
                0 <= i <= records.len(),
                views == record_views(records@),
                !ended ==> spec_find_from(views, 0, Seq::empty(), Seq::empty()) == spec_find_from(
                    views,
                    i as int,
                    device_views(devices@),
                    parent@,
                ),
                ended ==> spec_find_from(views, 0, Seq::empty(), Seq::empty()) == Ok::<
                    Seq<DeviceView>,
                    GfxErrorView,
                >(device_views(devices@)),
            decreases records.len() - i + if ended { 0int } else { 1int },
        {
            let record = &records[i];
            let ghost view = views[i as int];
            let ghost before = device_views(devices@);
            assert(view == record@);
            let sysname = record.sysname.as_str();
            if record.is_candidate() {
                let dgpu = match record.is_dgpu() {
                    Ok(dgpu) => dgpu,
                    Err(e) => {
                        return Err(e);
                    },
                };
                if dgpu || (parent.as_str().unicode_len() > 0 && contains(
                    sysname,
                    parent.as_str(),
                )) {
                    let id = match &record.pci_id {
                        Some(id) => id.clone(),
                        None => String::new(),
                    };
                    let vendor = GfxVendor::from(until_char(id.as_str(), ':'));
                    let hotplug_path = if dgpu {
                        clone_text(&record.slot_power)
                    } else {
                        None
                    };
                    parent = String::from_str(parent_name(sysname));
                    devices.push(
                        Device::new(
                            record.syspath.clone(),
                            hotplug_path,
                            vendor,
                            dgpu,
                            record.sysname.clone(),
                            id,
                        ),
                    );
                    assert(device_views(devices@) =~= before.push(view.device(dgpu)));
                }
            }
            if parent.as_str().unicode_len() > 0 && !contains(sysname, parent.as_str()) {
                ended = true;
            }
            i += 1;
        }
        if devices.len() == 0 {
            return Err(GfxError::DgpuNotFound);
        }
        Ok(devices)
    }
}

/// Is the function with the system name `sysname` in the slot with the
/// address `address`? It is where its name holds the address.
pub fn slot_holds_address(sysname: &str, address: &str) -> (res: bool)
    ensures
        res == occurs_in(address@, sysname@),
{
    contains(sysname, address)
}

/// Is the function with the system name `sysname` in the slot whose
/// `address` file holds `address`? The file's content is taken without the
/// white space at its end.
pub fn slot_holds(sysname: &str, address: &str) -> (res: bool)
    ensures
        res == occurs_in(end_trimmed_of(address@), sysname@),
{
    slot_holds_address(sysname, trim_end(address))
}

} // verus!
