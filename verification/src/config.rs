use vstd::prelude::*;

use vstd::string::*;

use crate::gfx_vendors::{GfxMode, GfxRequiredUserAction, GfxVendor};
use crate::pci_device::{device_views, DeviceView, DiscreetGpu, DiscreetGpuView, HotplugType};
use crate::{MODPROBE_INTEGRATED, MODPROBE_NVIDIA_BASE, MODPROBE_NVIDIA_DRM_MODESET, MODPROBE_VFIO};

verus! {

/// The daemon's settings. `config_path`, `tmp_mode`, `pending_mode` and
/// `pending_action` live in memory only; the rest is what the file holds.
#[derive(Debug, Clone)]
pub struct GfxConfig {
    pub config_path: String,
    /// The current mode set, also applies on boot
    pub mode: GfxMode,
    /// Only for temporary modes like compute or vfio
    pub tmp_mode: Option<GfxMode>,
    /// Just for tracking the requested mode change in rebootless mode
    pub pending_mode: Option<GfxMode>,
    /// Just for tracking the required user action
    pub pending_action: Option<GfxRequiredUserAction>,
    /// Set if vfio option is enabled. This requires the vfio drivers to be built as modules
    pub vfio_enable: bool,
    /// Save the VFIO mode so that it is reloaded on boot
    pub vfio_save: bool,
    /// Save the Compute mode so that it is reloaded on boot
    pub compute_save: bool,
    /// Should always reboot?
    pub always_reboot: bool,
    /// Don't use logind to see if all sessions are logged out and therefore safe to change mode
    pub no_logind: bool,
    /// The timeout in seconds to wait for all user graphical sessions to end. Default is 3 minutes, 0 = infinite. Ignored if `no_logind` or `always_reboot` is set.
    pub logout_timeout_s: u64,
    /// The type of method to use for hotplug. ASUS is... fiddly
    pub hotplug_type: HotplugType,
}

/// Cleaned config for passing over dbus only: the settings that the file
/// holds, and nothing of what lives in memory only.
#[derive(Debug, Clone, Copy, PartialEq, Eq)]
pub struct GfxConfigDbus {
    pub mode: GfxMode,
    pub vfio_enable: bool,
    pub vfio_save: bool,
    pub compute_save: bool,
    pub always_reboot: bool,
    pub no_logind: bool,
    pub logout_timeout_s: u64,
    pub hotplug_type: HotplugType,
}

impl GfxConfig {
    /// The settings of `self` that the file holds.
    pub open spec fn persisted(&self) -> GfxConfigDbus {
        GfxConfigDbus {
            mode: self.mode,
            vfio_enable: self.vfio_enable,
            vfio_save: self.vfio_save,
            compute_save: self.compute_save,
            always_reboot: self.always_reboot,
            no_logind: self.no_logind,
            logout_timeout_s: self.logout_timeout_s,
            hotplug_type: self.hotplug_type,
        }
    }

    /// Nothing is pending and no mode is set for the time being.
    pub open spec fn is_fresh(&self) -> bool {
        self.tmp_mode.is_none() && self.pending_mode.is_none() && self.pending_action.is_none()
    }

    /// The settings of a machine that has none yet.
    pub open spec fn spec_default_settings() -> GfxConfigDbus {
        GfxConfigDbus {
            mode: GfxMode::Hybrid,
            vfio_enable: false,
            vfio_save: false,
            compute_save: false,
            always_reboot: false,
            no_logind: false,
            logout_timeout_s: 180,
            hotplug_type: HotplugType::NoHotplug,
        }
    }

    /// The settings a machine starts with, to be kept in the file at
    /// `config_path`.
    pub fn new(config_path: String) -> (res: GfxConfig)
        ensures
            res.config_path == config_path,
            res.persisted() == Self::spec_default_settings(),
            res.is_fresh(),
    {
        GfxConfig {
            config_path,
            mode: GfxMode::Hybrid,
            tmp_mode: None,
            pending_mode: None,
            pending_action: None,
            vfio_enable: false,
            vfio_save: false,
            compute_save: false,
            always_reboot: false,
            no_logind: false,
            logout_timeout_s: 180,
            hotplug_type: HotplugType::NoHotplug,
        }
    }

    /// The settings that were read from the file at `config_path`. What
    /// lives in memory only starts empty.
    pub open spec fn spec_from_stored(config_path: String, stored: GfxConfigDbus) -> GfxConfig {
        GfxConfig {
            config_path,
            mode: stored.mode,
            tmp_mode: None,
            pending_mode: None,
            pending_action: None,
            vfio_enable: stored.vfio_enable,
            vfio_save: stored.vfio_save,
            compute_save: stored.compute_save,
            always_reboot: stored.always_reboot,
            no_logind: stored.no_logind,
            logout_timeout_s: stored.logout_timeout_s,
            hotplug_type: stored.hotplug_type,
        }
    }

    #[verifier::when_used_as_spec(spec_from_stored)]
    pub fn from_stored(config_path: String, stored: GfxConfigDbus) -> (res: GfxConfig)
        ensures
            res == Self::spec_from_stored(config_path, stored),
    {
        GfxConfig {
            config_path,
            mode: stored.mode,
            tmp_mode: None,
            pending_mode: None,
            pending_action: None,
            vfio_enable: stored.vfio_enable,
            vfio_save: stored.vfio_save,
            compute_save: stored.compute_save,
            always_reboot: stored.always_reboot,
            no_logind: stored.no_logind,
            logout_timeout_s: stored.logout_timeout_s,
            hotplug_type: stored.hotplug_type,
        }
    }

    /// Takes over the settings that were read from the file again; `None`
    /// stands for an empty file, which changes nothing. The mode that is set
    /// for the time being stays, what was pending is forgotten.
    pub fn read(&mut self, stored: Option<GfxConfigDbus>)
        ensures
            final(self).config_path == old(self).config_path,
            stored is None ==> *final(self) == *old(self),
            stored matches Some(x) ==> final(self).persisted() == x && final(self).tmp_mode == old(self).tmp_mode && final(self).pending_mode.is_none() && final(self).pending_action.is_none(),
    {
        match stored {
            Some(x) => {
                self.mode = x.mode;
                self.pending_mode = None;
                self.pending_action = None;
                self.vfio_enable = x.vfio_enable;
                self.vfio_save = x.vfio_save;
                self.compute_save = x.compute_save;
                self.always_reboot = x.always_reboot;
                self.no_logind = x.no_logind;
                self.logout_timeout_s = x.logout_timeout_s;
                self.hotplug_type = x.hotplug_type;
            },
            None => {},
        }
    }

    /// What `write` has to put in the file.
    pub fn write(&self) -> (res: GfxConfigDbus)
        ensures
            res == self.persisted(),
    {
        GfxConfigDbus::from(self)
    }

    /// May `mode` be saved as the mode to start the machine in? `Vfio` and
    /// `Compute` are saved only where the settings say so.
    pub open spec fn spec_saves_mode(&self, mode: GfxMode) -> bool {
        !(mode == GfxMode::Vfio && !self.vfio_save) && !(mode == GfxMode::Compute
            && !self.compute_save)
    }

    #[verifier::when_used_as_spec(spec_saves_mode)]
    pub fn saves_mode(&self, mode: GfxMode) -> (res: bool)
        ensures
            res == self.spec_saves_mode(mode),
    {
        !(mode == GfxMode::Vfio && !self.vfio_save) && !(mode == GfxMode::Compute
            && !self.compute_save)
    }

    /// The mode that is in effect: the one set for the time being, else the
    /// saved one.
    pub open spec fn spec_current_mode(&self) -> GfxMode {
        match self.tmp_mode {
            Some(mode) => mode,
            None => self.mode,
        }
    }

    #[verifier::when_used_as_spec(spec_current_mode)]
    pub fn current_mode(&self) -> (res: GfxMode)
        ensures
            res == self.spec_current_mode(),
    {
        match self.tmp_mode {
            Some(mode) => mode,
            None => self.mode,
        }
    }

    /// The settings once `mode` is in effect. A mode that may be saved
    /// becomes the saved mode; one that may not is set for the time being
    /// only, and the saved mode stays.
    pub open spec fn spec_record_mode(self, mode: GfxMode) -> GfxConfig {
        if self.spec_saves_mode(mode) {
            GfxConfig { mode, tmp_mode: None, ..self }
        } else {
            GfxConfig { tmp_mode: Some(mode), ..self }
        }
    }

    /// Records that `mode` is in effect now.
    pub fn record_mode(&mut self, mode: GfxMode)
        ensures
            *final(self) == old(self).spec_record_mode(mode),
    {
        if self.saves_mode(mode) {
            self.mode = mode;
            self.tmp_mode = None;
        } else {
            self.tmp_mode = Some(mode);
        }
    }

    /// The settings with `mode` saved as the mode to start the machine in,
    /// where it may be saved; else the settings as they are.
    pub open spec fn spec_save_for_boot(self, mode: GfxMode) -> GfxConfig {
        if self.spec_saves_mode(mode) {
            GfxConfig { mode, ..self }
        } else {
            self
        }
    }

    /// Saves `mode` as the mode to start the machine in, where it may be
    /// saved.
    pub fn save_for_boot(&mut self, mode: GfxMode)
        ensures
            *final(self) == old(self).spec_save_for_boot(mode),
    {
        if self.saves_mode(mode) {
            self.mode = mode;
        }
    }

    /// The settings with nothing pending.
    pub open spec fn spec_clear_pending(self) -> GfxConfig {
        GfxConfig { pending_mode: None, pending_action: None, ..self }
    }

    /// The settings with a change to `mode` pending that asks `action` of
    /// the user.
    pub open spec fn spec_set_pending(self, mode: GfxMode, action: GfxRequiredUserAction) -> GfxConfig {
        GfxConfig { pending_mode: Some(mode), pending_action: Some(action), ..self }
    }

    /// The settings with the switches of `tunables` taken over. The mode
    /// and the kind of hotplug are not touched.
    pub open spec fn spec_set_tunables(self, tunables: GfxConfigDbus) -> GfxConfig {
        GfxConfig {
            vfio_enable: tunables.vfio_enable,
            vfio_save: tunables.vfio_save,
            compute_save: tunables.compute_save,
            always_reboot: tunables.always_reboot,
            no_logind: tunables.no_logind,
            logout_timeout_s: tunables.logout_timeout_s,
            ..self
        }
    }

    /// Takes the switches of `tunables` over.
    pub fn set_tunables(&mut self, tunables: &GfxConfigDbus)
        ensures
            *final(self) == old(self).spec_set_tunables(*tunables),
    {
        self.vfio_enable = tunables.vfio_enable;
        self.vfio_save = tunables.vfio_save;
        self.compute_save = tunables.compute_save;
        self.always_reboot = tunables.always_reboot;
        self.no_logind = tunables.no_logind;
        self.logout_timeout_s = tunables.logout_timeout_s;
    }
}

impl From<&GfxConfig> for GfxConfigDbus {
    fn from(c: &GfxConfig) -> (res: GfxConfigDbus)
        ensures
            res == c.persisted(),
    {
        GfxConfigDbus {
            mode: c.mode,
            vfio_enable: c.vfio_enable,
            vfio_save: c.vfio_save,
            compute_save: c.compute_save,
            always_reboot: c.always_reboot,
            no_logind: c.no_logind,
            logout_timeout_s: c.logout_timeout_s,
            hotplug_type: c.hotplug_type,
        }
    }
}

impl vstd::std_specs::convert::FromSpecImpl<&GfxConfig> for GfxConfigDbus {
    open spec fn obeys_from_spec() -> bool {
        true
    }

    open spec fn from_spec(c: &GfxConfig) -> GfxConfigDbus {
        c.persisted()
    }
}

/// Writing the settings out and reading them back gives the same settings,
/// whatever was pending or set for the time being; and nothing of what
/// lives in memory only comes back with them.
pub proof fn lemma_stored_round_trip(config: GfxConfig, config_path: String)
    ensures
        GfxConfig::spec_from_stored(config_path, config.persisted()).persisted()
            == config.persisted(),
        GfxConfig::spec_from_stored(config_path, config.persisted()).is_fresh(),
{
}

/// The device ids of `devices` in bytes, with a comma between them.
pub open spec fn spec_vfio_ids(devices: Seq<DeviceView>) -> Seq<u8>
    decreases devices.len(),
{
    if devices.len() == 0 {
        Seq::empty()
    } else if devices.len() == 1 {
        vstd::utf8::encode_utf8(devices[0].pci_id)
    } else {
        spec_vfio_ids(devices.drop_last()) + seq![0x2Cu8] + vstd::utf8::encode_utf8(
            devices.last().pci_id,
        )
    }
}

/// The module options for vfio pass-through: every driver for Nvidia
/// hardware is kept out, and vfio is given the ids of all functions of the
/// dGPU, each followed by a comma.
pub open spec fn spec_vfio_conf(devices: Seq<DeviceView>) -> Seq<u8> {
    MODPROBE_INTEGRATED.spec_bytes() + MODPROBE_VFIO.spec_bytes() + spec_vfio_ids(devices) + seq![
        0x2Cu8,
    ]
}

/// Creates the full modprobe.conf required for vfio pass-through
pub fn create_vfio_conf(devices: &DiscreetGpu) -> (res: Vec<u8>)
    ensures
        res@ == spec_vfio_conf(devices@.devices),
{
    let functions = devices.devices();
    let ghost views = devices@.devices;
    let mut conf = MODPROBE_INTEGRATED.as_bytes_vec();
    let mut vfio = MODPROBE_VFIO.as_bytes_vec();
    conf.append(&mut vfio);
    let ghost head = conf@;
    let mut i: usize = 0;
    while i < functions.len()
        invariant
            0 <= i <= functions.len(),
            views == device_views(functions@),
            head == MODPROBE_INTEGRATED.spec_bytes() + MODPROBE_VFIO.spec_bytes(),
            conf@ == head + spec_vfio_ids(views.take(i as int)),
        decreases functions.len() - i,
    {
        let ghost before = conf@;
        if i > 0 {
            conf.push(0x2Cu8);
        }
        let mut id = functions[i].pci_id().as_bytes_vec();
        conf.append(&mut id);
        proof {
            let next = views.take(i + 1);
            assert(next.drop_last() =~= views.take(i as int));
            assert(next.last().pci_id == functions[i as int]@.pci_id);
            if i == 0 {
                assert(spec_vfio_ids(views.take(0)) =~= Seq::<u8>::empty());
                assert(next[0] == next.last());
            }
            assert(conf@ =~= head + spec_vfio_ids(next));
        }
        i += 1;
    }
    conf.push(0x2Cu8);
    proof {
        assert(views.take(i as int) =~= views);
        assert(conf@ =~= spec_vfio_conf(views));
    }
    conf
}

/// The module options for `mode`, or `None` where the file is left as it
/// is.
///
/// With `Hybrid`, `Integrated` and the eGPU the Nvidia driver sets the
/// display modes; a dGPU of another vendor needs no options. Without
/// modesetting and for computing the Nvidia driver gets its base options
/// alone. `Vfio` gets the ids of the dGPU's functions. With the MUX on the
/// dGPU, and with no mode, the options are empty.
pub open spec fn spec_modprobe_conf(mode: GfxMode, devices: DiscreetGpuView) -> Option<Seq<u8>> {
    match mode {
        GfxMode::Integrated | GfxMode::Hybrid | GfxMode::AsusEgpu => if devices.vendor
            == GfxVendor::Nvidia {
            Some(MODPROBE_NVIDIA_BASE.spec_bytes() + MODPROBE_NVIDIA_DRM_MODESET.spec_bytes())
        } else {
            None
        },
        GfxMode::NvidiaNoModeset | GfxMode::Compute => Some(MODPROBE_NVIDIA_BASE.spec_bytes()),
        GfxMode::Vfio => Some(spec_vfio_conf(devices.devices)),
        GfxMode::AsusMuxDgpu | GfxMode::Unset => Some(Seq::empty()),
    }
}

/// What is to be written to `MODPROBE_PATH` for `mode`.
pub fn create_modprobe_conf(mode: GfxMode, devices: &DiscreetGpu) -> (res: Option<Vec<u8>>)
    ensures
        match spec_modprobe_conf(mode, devices@) {
            Some(content) => res matches Some(v) && v@ == content,
            None => res is None,
        },
{
    match mode {
        GfxMode::Integrated | GfxMode::Hybrid | GfxMode::AsusEgpu => {
            if devices.is_nvidia() {
                let mut base = MODPROBE_NVIDIA_BASE.as_bytes_vec();
                let mut modeset = MODPROBE_NVIDIA_DRM_MODESET.as_bytes_vec();
                base.append(&mut modeset);
                Some(base)
            } else {
                None
            }
        },
        GfxMode::NvidiaNoModeset | GfxMode::Compute => Some(MODPROBE_NVIDIA_BASE.as_bytes_vec()),
        GfxMode::Vfio => Some(create_vfio_conf(devices)),
        GfxMode::AsusMuxDgpu | GfxMode::Unset => Some(Vec::new()),
    }
}

} // verus!
