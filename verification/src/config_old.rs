use vstd::prelude::*;
use vstd::std_specs::convert::FromSpecImpl;

use crate::config::{GfxConfig, GfxConfigDbus};
use crate::gfx_vendors::GfxMode;
use crate::pci_device::HotplugType;

verus! {

/// The modes of the first layout of the settings.
#[derive(Debug, Clone, Copy, PartialEq, Eq, Structural)]
pub enum GfxMode300 {
    Hybrid,
    Nvidia,
    Integrated,
    Compute,
    Vfio,
    Egpu,
}

impl GfxMode300 {
    /// The mode of today that an old mode is taken for. The modes that are
    /// gone are taken for `Hybrid`.
    pub open spec fn spec_mode(self) -> GfxMode {
        match self {
            GfxMode300::Hybrid => GfxMode::Hybrid,
            GfxMode300::Nvidia => GfxMode::Hybrid,
            GfxMode300::Integrated => GfxMode::Integrated,
            GfxMode300::Compute => GfxMode::Hybrid,
            GfxMode300::Vfio => GfxMode::Vfio,
            GfxMode300::Egpu => GfxMode::AsusEgpu,
        }
    }
}

impl From<GfxMode300> for GfxMode {
    fn from(m: GfxMode300) -> (res: GfxMode)
        ensures
            res == m.spec_mode(),
    {
        match m {
            GfxMode300::Hybrid => GfxMode::Hybrid,
            GfxMode300::Nvidia => GfxMode::Hybrid,
            GfxMode300::Integrated => GfxMode::Integrated,
            GfxMode300::Compute => GfxMode::Hybrid,
            GfxMode300::Vfio => GfxMode::Vfio,
            GfxMode300::Egpu => GfxMode::AsusEgpu,
        }
    }
}

impl FromSpecImpl<GfxMode300> for GfxMode {
    open spec fn obeys_from_spec() -> bool {
        true
    }

    open spec fn from_spec(m: GfxMode300) -> GfxMode {
        m.spec_mode()
    }
}

/// The settings in their first layout.
#[derive(Debug, Clone, Copy, PartialEq, Eq)]
pub struct GfxConfig300 {
    pub gfx_mode: GfxMode,
    pub gfx_managed: bool,
    pub gfx_vfio_enable: bool,
}

/// The settings in their second layout.
#[derive(Debug, Clone, Copy, PartialEq, Eq)]
pub struct GfxConfig402 {
    pub mode: GfxMode,
    pub vfio_enable: bool,
    pub vfio_save: bool,
    pub compute_save: bool,
    pub always_reboot: bool,
}

/// The settings in their third layout.
#[derive(Debug, Clone, Copy, PartialEq, Eq)]
pub struct GfxConfig405 {
    pub mode: GfxMode,
    pub vfio_enable: bool,
    pub vfio_save: bool,
    pub compute_save: bool,
    pub always_reboot: bool,
    pub no_logind: bool,
    pub logout_timeout_s: u64,
}

/// The settings in their fourth layout.
#[derive(Debug, Clone, Copy, PartialEq, Eq)]
pub struct GfxConfig500 {
    pub mode: GfxMode,
    pub vfio_enable: bool,
    pub vfio_save: bool,
    pub compute_save: bool,
    pub always_reboot: bool,
    pub no_logind: bool,
    pub logout_timeout_s: u64,
    pub hotplug_type: HotplugType,
}

/// What an old layout is taken over as: the mode and the switches it has,
/// with the session manager in use, three minutes to log out and no hotplug.
pub open spec fn spec_migrated(
    mode: GfxMode,
    vfio_enable: bool,
    vfio_save: bool,
    compute_save: bool,
    always_reboot: bool,
) -> GfxConfigDbus {
    GfxConfigDbus {
        mode,
        vfio_enable,
        vfio_save,
        compute_save,
        always_reboot,
        no_logind: false,
        logout_timeout_s: 180,
        hotplug_type: HotplugType::NoHotplug,
    }
}

fn migrated(
    mode: GfxMode,
    vfio_enable: bool,
    vfio_save: bool,
    compute_save: bool,
    always_reboot: bool,
) -> (res: GfxConfig)
    ensures
        res.persisted() == spec_migrated(mode, vfio_enable, vfio_save, compute_save, always_reboot),
        res.is_fresh(),
        res.config_path@ == Seq::<char>::empty(),
{
    GfxConfig {
        config_path: String::new(),
        mode,
        tmp_mode: None,
        pending_mode: None,
        pending_action: None,
        vfio_enable,
        vfio_save,
        compute_save,
        always_reboot,
        no_logind: false,
        logout_timeout_s: 180,
        hotplug_type: HotplugType::NoHotplug,
    }
}

impl GfxConfig300 {
    pub open spec fn spec_settings(self) -> GfxConfigDbus {
        spec_migrated(self.gfx_mode, self.gfx_vfio_enable, false, false, false)
    }
}

impl GfxConfig402 {
    pub open spec fn spec_settings(self) -> GfxConfigDbus {
        spec_migrated(
            self.mode,
            self.vfio_enable,
            self.vfio_save,
            self.compute_save,
            self.always_reboot,
        )
    }
}

impl GfxConfig405 {
    pub open spec fn spec_settings(self) -> GfxConfigDbus {
        spec_migrated(
            self.mode,
            self.vfio_enable,
            self.vfio_save,
            self.compute_save,
            self.always_reboot,
        )
    }
}

impl GfxConfig500 {
    pub open spec fn spec_settings(self) -> GfxConfigDbus {
        spec_migrated(
            self.mode,
            self.vfio_enable,
            self.vfio_save,
            self.compute_save,
            self.always_reboot,
        )
    }
}

impl From<GfxConfig300> for GfxConfig {
    fn from(old: GfxConfig300) -> (res: GfxConfig)
        ensures
            res.persisted() == old.spec_settings(),
            res.is_fresh(),
            res.config_path@ == Seq::<char>::empty(),
    {
        migrated(old.gfx_mode, old.gfx_vfio_enable, false, false, false)
    }
}

impl FromSpecImpl<GfxConfig300> for GfxConfig {
    open spec fn obeys_from_spec() -> bool {
        false
    }

    open spec fn from_spec(old: GfxConfig300) -> GfxConfig {
        arbitrary()
    }
}

impl From<GfxConfig402> for GfxConfig {
    fn from(old: GfxConfig402) -> (res: GfxConfig)
        ensures
            res.persisted() == old.spec_settings(),
            res.is_fresh(),
            res.config_path@ == Seq::<char>::empty(),
    {
        migrated(old.mode, old.vfio_enable, old.vfio_save, old.compute_save, old.always_reboot)
    }
}

impl FromSpecImpl<GfxConfig402> for GfxConfig {
    open spec fn obeys_from_spec() -> bool {
        false
    }

    open spec fn from_spec(old: GfxConfig402) -> GfxConfig {
        arbitrary()
    }
}

impl From<GfxConfig405> for GfxConfig {
    fn from(old: GfxConfig405) -> (res: GfxConfig)
        ensures
            res.persisted() == old.spec_settings(),
            res.is_fresh(),
            res.config_path@ == Seq::<char>::empty(),
    {
        migrated(old.mode, old.vfio_enable, old.vfio_save, old.compute_save, old.always_reboot)
    }
}

impl FromSpecImpl<GfxConfig405> for GfxConfig {
    open spec fn obeys_from_spec() -> bool {
        false
    }

    open spec fn from_spec(old: GfxConfig405) -> GfxConfig {
        arbitrary()
    }
}

impl From<GfxConfig500> for GfxConfig {
    fn from(old: GfxConfig500) -> (res: GfxConfig)
        ensures
            res.persisted() == old.spec_settings(),
            res.is_fresh(),
            res.config_path@ == Seq::<char>::empty(),
    {
        migrated(old.mode, old.vfio_enable, old.vfio_save, old.compute_save, old.always_reboot)
    }
}

impl FromSpecImpl<GfxConfig500> for GfxConfig {
    open spec fn obeys_from_spec() -> bool {
        false
    }

    open spec fn from_spec(old: GfxConfig500) -> GfxConfig {
        arbitrary()
    }
}

/// What the file of the settings turned out to hold.
#[derive(Debug, Clone, Copy, PartialEq, Eq)]
pub enum StoredConfig {
    /// Nothing: the file is empty or cannot be read
    Empty,
    /// The settings in the layout of today
    Current(GfxConfigDbus),
    V500(GfxConfig500),
    V405(GfxConfig405),
    V402(GfxConfig402),
    V300(GfxConfig300),
    /// Something that fits no layout
    Unreadable,
}

impl StoredConfig {
    /// The settings to go on with: those of the file, taken over from an
    /// old layout where need be, and the defaults where the file gives
    /// none.
    pub open spec fn spec_settings(self) -> GfxConfigDbus {
        match self {
            StoredConfig::Current(c) => c,
            StoredConfig::V500(old) => old.spec_settings(),
            StoredConfig::V405(old) => old.spec_settings(),
            StoredConfig::V402(old) => old.spec_settings(),
            StoredConfig::V300(old) => old.spec_settings(),
            StoredConfig::Empty | StoredConfig::Unreadable => GfxConfig::spec_default_settings(),
        }
    }
}

impl GfxConfig {
    /// The settings that the daemon starts with, given what the file at
    /// `config_path` holds. They are to be written back right away.
    pub fn load(config_path: String, stored: StoredConfig) -> (res: GfxConfig)
        ensures
            res.config_path == config_path,
            res.persisted() == stored.spec_settings(),
            res.is_fresh(),
    {
        let mut config = match stored {
            StoredConfig::Current(c) => {
                return GfxConfig::from_stored(config_path, c);
            },
            StoredConfig::V500(old) => GfxConfig::from(old),
            StoredConfig::V405(old) => GfxConfig::from(old),
            StoredConfig::V402(old) => GfxConfig::from(old),
            StoredConfig::V300(old) => GfxConfig::from(old),
            StoredConfig::Empty | StoredConfig::Unreadable => {
                return GfxConfig::new(config_path);
            },
        };
        config.config_path = config_path;
        config
    }
}

} // verus!
