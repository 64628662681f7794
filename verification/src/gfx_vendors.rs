use vstd::prelude::*;
use vstd::std_specs::convert::FromSpecImpl;

use crate::error::GfxError;
use crate::text::{lowercase_of, str_eq, to_lowercase, trim, trimmed_of};

verus! {

/// Observed runtime power status of the discrete GPU.
#[derive(Debug, Clone, Copy, PartialEq, Eq, Structural)]
pub enum GfxPower {
    Active,
    Suspended,
    Off,
    AsusDisabled,
    AsusMuxDiscreet,
    Unknown,
}

impl GfxPower {
    /// The status that a lower-case, trimmed text names. Anything but the
    /// three words of the kernel is `Unknown`.
    pub open spec fn spec_from_normalized(s: Seq<char>) -> GfxPower {
        if s == "active"@ {
            GfxPower::Active
        } else if s == "suspended"@ {
            GfxPower::Suspended
        } else if s == "off"@ {
            GfxPower::Off
        } else {
            GfxPower::Unknown
        }
    }

    /// Reads a status from a text that is already lower-case and trimmed.
    pub fn from_normalized(s: &str) -> (res: GfxPower)
        ensures
            res == Self::spec_from_normalized(s@),
    {
        if str_eq(s, "active") {
            GfxPower::Active
        } else if str_eq(s, "suspended") {
            GfxPower::Suspended
        } else if str_eq(s, "off") {
            GfxPower::Off
        } else {
            GfxPower::Unknown
        }
    }

    /// Reads the content of the kernel's `runtime_status` file. Case and
    /// surrounding white space do not matter, and this never fails.
    pub fn from_str(s: &str) -> (res: Result<GfxPower, GfxError>)
        ensures
            res == Ok::<GfxPower, GfxError>(
                Self::spec_from_normalized(trimmed_of(lowercase_of(s@))),
            ),
    {
        let lower = to_lowercase(s);
        Ok(Self::from_normalized(trim(lower.as_str())))
    }

    pub open spec fn spec_name(self) -> &'static str {
        match self {
            GfxPower::Active => "active",
            GfxPower::Suspended => "suspended",
            GfxPower::Off => "off",
            GfxPower::AsusDisabled => "dgpu_disabled",
            GfxPower::AsusMuxDiscreet => "asus_mux_discreet",
            GfxPower::Unknown => "unknown",
        }
    }
}

impl From<&GfxPower> for &'static str {
    fn from(gfx: &GfxPower) -> (res: &'static str)
        ensures
            res == gfx.spec_name(),
    {
        match gfx {
            GfxPower::Active => "active",
            GfxPower::Suspended => "suspended",
            GfxPower::Off => "off",
            GfxPower::AsusDisabled => "dgpu_disabled",
            GfxPower::AsusMuxDiscreet => "asus_mux_discreet",
            GfxPower::Unknown => "unknown",
        }
    }
}

impl FromSpecImpl<&GfxPower> for &'static str {
    open spec fn obeys_from_spec() -> bool {
        true
    }

    open spec fn from_spec(gfx: &GfxPower) -> &'static str {
        gfx.spec_name()
    }
}

/// Who made the discrete GPU, or why there is none to ask.
#[derive(Debug, Clone, Copy, PartialEq, Eq, Structural)]
pub enum GfxVendor {
    Nvidia,
    Amd,
    Intel,
    Unknown,
    AsusDgpuDisabled,
}

impl GfxVendor {
    pub open spec fn spec_from_id(vendor: u16) -> GfxVendor {
        if vendor == 0x1002 {
            GfxVendor::Amd
        } else if vendor == 0x10DE {
            GfxVendor::Nvidia
        } else if vendor == 0x8086 {
            GfxVendor::Intel
        } else {
            GfxVendor::Unknown
        }
    }

    /// The vendor that a PCI vendor id names, written in hexadecimal with
    /// upper-case digits, with or without `0x` in front.
    pub open spec fn spec_from_hex(vendor: Seq<char>) -> GfxVendor {
        if vendor == "0x1002"@ || vendor == "1002"@ {
            GfxVendor::Amd
        } else if vendor == "0x10DE"@ || vendor == "10DE"@ {
            GfxVendor::Nvidia
        } else if vendor == "0x8086"@ || vendor == "8086"@ {
            GfxVendor::Intel
        } else {
            GfxVendor::Unknown
        }
    }

    pub open spec fn spec_name(self) -> &'static str {
        match self {
            GfxVendor::Nvidia => "Nvidia",
            GfxVendor::Amd => "AMD",
            GfxVendor::Intel => "Intel",
            GfxVendor::Unknown => "Unknown",
            GfxVendor::AsusDgpuDisabled => "ASUS dGPU disabled",
        }
    }
}

impl From<u16> for GfxVendor {
    fn from(vendor: u16) -> (res: GfxVendor)
        ensures
            res == GfxVendor::spec_from_id(vendor),
    {
        match vendor {
            0x1002 => GfxVendor::Amd,
            0x10DE => GfxVendor::Nvidia,
            0x8086 => GfxVendor::Intel,
            _ => GfxVendor::Unknown,
        }
    }
}

impl FromSpecImpl<u16> for GfxVendor {
    open spec fn obeys_from_spec() -> bool {
        true
    }

    open spec fn from_spec(vendor: u16) -> GfxVendor {
        GfxVendor::spec_from_id(vendor)
    }
}

impl From<&str> for GfxVendor {
    fn from(vendor: &str) -> (res: GfxVendor)
        ensures
            res == GfxVendor::spec_from_hex(vendor@),
    {
        if str_eq(vendor, "0x1002") || str_eq(vendor, "1002") {
            GfxVendor::Amd
        } else if str_eq(vendor, "0x10DE") || str_eq(vendor, "10DE") {
            GfxVendor::Nvidia
        } else if str_eq(vendor, "0x8086") || str_eq(vendor, "8086") {
            GfxVendor::Intel
        } else {
            GfxVendor::Unknown
        }
    }
}

impl FromSpecImpl<&str> for GfxVendor {
    open spec fn obeys_from_spec() -> bool {
        true
    }

    open spec fn from_spec(vendor: &str) -> GfxVendor {
        GfxVendor::spec_from_hex(vendor@)
    }
}

impl From<GfxVendor> for &'static str {
    fn from(vendor: GfxVendor) -> (res: &'static str)
        ensures
            res == vendor.spec_name(),
    {
        match vendor {
            GfxVendor::Nvidia => "Nvidia",
            GfxVendor::Amd => "AMD",
            GfxVendor::Intel => "Intel",
            GfxVendor::Unknown => "Unknown",
            GfxVendor::AsusDgpuDisabled => "ASUS dGPU disabled",
        }
    }
}

impl FromSpecImpl<GfxVendor> for &'static str {
    open spec fn obeys_from_spec() -> bool {
        true
    }

    open spec fn from_spec(vendor: GfxVendor) -> &'static str {
        vendor.spec_name()
    }
}

/// The operating states the graphics hardware can be put in.
#[derive(Debug, Clone, Copy, PartialEq, Eq, Structural)]
pub enum GfxMode {
    /// The iGPU drives the display, the dGPU is there on demand
    Hybrid,
    /// The dGPU is powered off and gone from the device tree
    Integrated,
    /// As `Hybrid`, with the Nvidia driver loaded without modesetting
    NvidiaNoModeset,
    /// The Nvidia driver is loaded for computing only
    Compute,
    /// The dGPU is bound to vfio, to be passed through
    Vfio,
    /// An external GPU of ASUS is switched on
    AsusEgpu,
    /// The ASUS GPU MUX wires the display to the dGPU
    AsusMuxDgpu,
    /// No mode: nothing is set or nothing is pending
    Unset,
}

impl GfxMode {
    pub open spec fn spec_name(self) -> &'static str {
        match self {
            GfxMode::Hybrid => "hybrid",
            GfxMode::Integrated => "integrated",
            GfxMode::NvidiaNoModeset => "nvidia_no_modeset",
            GfxMode::Compute => "compute",
            GfxMode::Vfio => "vfio",
            GfxMode::AsusEgpu => "egpu",
            GfxMode::AsusMuxDgpu => "asus_mux_discreet",
            GfxMode::Unset => "none",
        }
    }

    /// The mode that a lower-case, trimmed text names: the name of every
    /// mode but `Unset` is read back as that mode, and nothing else is.
    pub open spec fn spec_from_normalized(s: Seq<char>) -> Result<GfxMode, GfxError> {
        if s == "hybrid"@ {
            Ok(GfxMode::Hybrid)
        } else if s == "integrated"@ {
            Ok(GfxMode::Integrated)
        } else if s == "nvidia_no_modeset"@ {
            Ok(GfxMode::NvidiaNoModeset)
        } else if s == "compute"@ {
            Ok(GfxMode::Compute)
        } else if s == "vfio"@ {
            Ok(GfxMode::Vfio)
        } else if s == "egpu"@ {
            Ok(GfxMode::AsusEgpu)
        } else if s == "asus_mux_discreet"@ {
            Ok(GfxMode::AsusMuxDgpu)
        } else {
            Err(GfxError::ParseVendor)
        }
    }

    /// Reads a mode from a text that is already lower-case and trimmed.
    pub fn from_normalized(s: &str) -> (res: Result<GfxMode, GfxError>)
        ensures
            res == Self::spec_from_normalized(s@),
    {
        if str_eq(s, "hybrid") {
            Ok(GfxMode::Hybrid)
        } else if str_eq(s, "integrated") {
            Ok(GfxMode::Integrated)
        } else if str_eq(s, "nvidia_no_modeset") {
            Ok(GfxMode::NvidiaNoModeset)
        } else if str_eq(s, "compute") {
            Ok(GfxMode::Compute)
        } else if str_eq(s, "vfio") {
            Ok(GfxMode::Vfio)
        } else if str_eq(s, "egpu") {
            Ok(GfxMode::AsusEgpu)
        } else if str_eq(s, "asus_mux_discreet") {
            Ok(GfxMode::AsusMuxDgpu)
        } else {
            Err(GfxError::ParseVendor)
        }
    }

    /// Reads a mode name as a user types it: case and surrounding white
    /// space do not matter.
    pub fn from_str(s: &str) -> (res: Result<GfxMode, GfxError>)
        ensures
            res == Self::spec_from_normalized(trimmed_of(lowercase_of(s@))),
    {
        let lower = to_lowercase(s);
        Self::from_normalized(trim(lower.as_str()))
    }

    /// The modes that can be entered and left while a session runs.
    pub open spec fn spec_is_live(self) -> bool {
        self == GfxMode::Integrated || self == GfxMode::Vfio || self == GfxMode::Compute
    }

    #[verifier::when_used_as_spec(spec_is_live)]
    pub fn is_live(self) -> (res: bool)
        ensures
            res == self.spec_is_live(),
    {
        self == GfxMode::Integrated || self == GfxMode::Vfio || self == GfxMode::Compute
    }
}

impl From<GfxMode> for &'static str {
    fn from(gfx: GfxMode) -> (res: &'static str)
        ensures
            res == gfx.spec_name(),
    {
        match gfx {
            GfxMode::Hybrid => "hybrid",
            GfxMode::Integrated => "integrated",
            GfxMode::NvidiaNoModeset => "nvidia_no_modeset",
            GfxMode::Compute => "compute",
            GfxMode::Vfio => "vfio",
            GfxMode::AsusEgpu => "egpu",
            GfxMode::AsusMuxDgpu => "asus_mux_discreet",
            GfxMode::Unset => "none",
        }
    }
}

impl FromSpecImpl<GfxMode> for &'static str {
    open spec fn obeys_from_spec() -> bool {
        true
    }

    open spec fn from_spec(gfx: GfxMode) -> &'static str {
        gfx.spec_name()
    }
}

/// What the user has to do before a requested mode is in effect.
#[derive(Debug, Clone, Copy, PartialEq, Eq, Structural)]
pub enum GfxRequiredUserAction {
    /// Every graphical session has to end
    Logout,
    /// The machine has to be restarted
    Reboot,
    /// The mode can only be reached from `Integrated`
    Integrated,
    /// The GPU MUX has to be set back to Optimus, outside this program
    AsusGpuMuxDisable,
    /// Nothing
    Nothing,
}

impl GfxRequiredUserAction {
    pub open spec fn spec_name(self) -> &'static str {
        match self {
            GfxRequiredUserAction::Logout => "logout",
            GfxRequiredUserAction::Reboot => "reboot",
            GfxRequiredUserAction::Integrated => "switch to integrated first",
            GfxRequiredUserAction::AsusGpuMuxDisable =>
                "The GPU MUX is in Discreet mode, supergfx can not change modes until the MUX is changed back to Optimus mode.",
            GfxRequiredUserAction::Nothing => "none",
        }
    }
}

impl From<GfxRequiredUserAction> for &'static str {
    fn from(gfx: GfxRequiredUserAction) -> (res: &'static str)
        ensures
            res == gfx.spec_name(),
    {
        match gfx {
            GfxRequiredUserAction::Logout => "logout",
            GfxRequiredUserAction::Reboot => "reboot",
            GfxRequiredUserAction::Integrated => "switch to integrated first",
            GfxRequiredUserAction::AsusGpuMuxDisable =>
                "The GPU MUX is in Discreet mode, supergfx can not change modes until the MUX is changed back to Optimus mode.",
            GfxRequiredUserAction::Nothing => "none",
        }
    }
}

impl FromSpecImpl<GfxRequiredUserAction> for &'static str {
    open spec fn obeys_from_spec() -> bool {
        true
    }

    open spec fn from_spec(gfx: GfxRequiredUserAction) -> &'static str {
        gfx.spec_name()
    }
}

} // verus!
