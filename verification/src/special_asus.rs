use vstd::prelude::*;
use vstd::std_specs::convert::FromSpecImpl;
use vstd::string::*;

use crate::error::{GfxError, GfxErrorView};
use crate::gfx_vendors::GfxMode;
use crate::pci_device::rescan_pci_bus;
use crate::system::{
    driver_ops, nvidia_drivers, spec_driver_ops, spec_nvidia_drivers, DriverAction, PlatformOp,
    SysFile,
};
use crate::text::contains_char;

verus! {

pub const ASUS_MODULES_LOAD_PATH: &'static str = "/etc/modules-load.d/asus.conf";

pub const ASUS_MODULES_LOAD: &'static str = "\nasus-wmi\nasus-nb-wmi\n";

/// How long a toggle of ASUS is given before it is written, in milliseconds.
pub const ASUS_TOGGLE_SETTLE_MS: u64 = 500;

/// How long the hardware is given to wake before the bus is rescanned, in
/// milliseconds.
pub const ASUS_WAKE_SETTLE_MS: u64 = 50;

/// How often `dgpu_disable` is looked for at the start of the machine, one
/// look every 50 ms.
pub const ASUS_DGPU_DISABLE_POLLS: u32 = 40;

/// Where the GPU MUX of ASUS wires the display to.
#[derive(Debug, Clone, Copy, PartialEq, Eq, Structural)]
pub enum AsusGpuMuxMode {
    Discreet,
    Optimus,
}

impl From<i8> for AsusGpuMuxMode {
    fn from(v: i8) -> (res: AsusGpuMuxMode)
        ensures
            res == (if v != 0 {
                AsusGpuMuxMode::Optimus
            } else {
                AsusGpuMuxMode::Discreet
            }),
    {
        if v != 0 {
            return AsusGpuMuxMode::Optimus;
        }
        AsusGpuMuxMode::Discreet
    }
}

impl FromSpecImpl<i8> for AsusGpuMuxMode {
    open spec fn obeys_from_spec() -> bool {
        true
    }

    open spec fn from_spec(v: i8) -> AsusGpuMuxMode {
        if v != 0 {
            AsusGpuMuxMode::Optimus
        } else {
            AsusGpuMuxMode::Discreet
        }
    }
}

impl From<char> for AsusGpuMuxMode {
    fn from(v: char) -> (res: AsusGpuMuxMode)
        ensures
            res == (if v != '0' {
                AsusGpuMuxMode::Optimus
            } else {
                AsusGpuMuxMode::Discreet
            }),
    {
        if v != '0' {
            return AsusGpuMuxMode::Optimus;
        }
        AsusGpuMuxMode::Discreet
    }
}

impl FromSpecImpl<char> for AsusGpuMuxMode {
    open spec fn obeys_from_spec() -> bool {
        true
    }

    open spec fn from_spec(v: char) -> AsusGpuMuxMode {
        if v != '0' {
            AsusGpuMuxMode::Optimus
        } else {
            AsusGpuMuxMode::Discreet
        }
    }
}

/// What the firmware of an ASUS laptop offers, as it was read last. A field
/// is `None` where the machine does not have the toggle.
#[derive(Debug, Clone, Copy, PartialEq, Eq)]
pub struct AsusQuirks {
    /// Is the dGPU switched off by `dgpu_disable`?
    pub dgpu_disable: Option<bool>,
    /// Is the eGPU switched on by `egpu_enable`?
    pub egpu_enable: Option<bool>,
    /// Where `gpu_mux_mode` wires the display to
    pub gpu_mux: Option<AsusGpuMuxMode>,
    /// The G-Sync switch of older models
    pub gsync_mode: Option<i8>,
}

impl AsusQuirks {
    /// A machine that has none of the toggles.
    pub fn none() -> (res: AsusQuirks)
        ensures
            res == (AsusQuirks {
                dgpu_disable: None,
                egpu_enable: None,
                gpu_mux: None,
                gsync_mode: None,
            }),
    {
        AsusQuirks { dgpu_disable: None, egpu_enable: None, gpu_mux: None, gsync_mode: None }
    }

    /// The MUX is there and wires the display to the dGPU: nothing that
    /// software does can change the mode then.
    pub open spec fn spec_mux_is_discreet(&self) -> bool {
        self.gpu_mux == Some(AsusGpuMuxMode::Discreet)
    }

    #[verifier::when_used_as_spec(spec_mux_is_discreet)]
    pub fn mux_is_discreet(&self) -> (res: bool)
        ensures
            res == self.spec_mux_is_discreet(),
    {
        match self.gpu_mux {
            Some(AsusGpuMuxMode::Discreet) => true,
            _ => false,
        }
    }
}

pub fn has_asus_gsync_gfx_mode(quirks: &AsusQuirks) -> (res: bool)
    ensures
        res == quirks.gsync_mode.is_some(),
{
    quirks.gsync_mode.is_some()
}

pub fn asus_gpu_mux_exists(quirks: &AsusQuirks) -> (res: bool)
    ensures
        res == quirks.gpu_mux.is_some(),
{
    quirks.gpu_mux.is_some()
}

pub fn asus_dgpu_disable_exists(quirks: &AsusQuirks) -> (res: bool)
    ensures
        res == quirks.dgpu_disable.is_some(),
{
    quirks.dgpu_disable.is_some()
}

pub fn asus_egpu_enable_exists(quirks: &AsusQuirks) -> (res: bool)
    ensures
        res == quirks.egpu_enable.is_some(),
{
    quirks.egpu_enable.is_some()
}

/// Reads the content of `dgpu_disable`: the dGPU is off when there is a `1`
/// in it.
pub fn asus_dgpu_disabled(content: &str) -> (res: bool)
    ensures
        res == content@.contains('1'),
{
    contains_char(content, '1')
}

/// Reads the content of `egpu_enable`: the eGPU is on when there is a `1`
/// in it.
pub fn asus_egpu_enabled(content: &str) -> (res: bool)
    ensures
        res == content@.contains('1'),
{
    contains_char(content, '1')
}

/// The state of the G-Sync switch: the last byte of its variable.
pub fn get_asus_gsync_gfx_mode(data: &[u8]) -> (res: Result<i8, GfxError>)
    ensures
        data.len() > 0 ==> res == Ok::<i8, GfxError>(data[data.len() - 1] as i8),
        data.len() == 0 ==> (res matches Err(GfxError::Read(what, why)) && what@
            == "Failed to read AsusSwitchGraphicMode"@ && why@ == "Could not read"@),
{
    if data.len() == 0 {
        return Err(
            GfxError::Read(
                String::from_str("Failed to read AsusSwitchGraphicMode"),
                String::from_str("Could not read"),
            ),
        );
    }
    Ok(data[data.len() - 1] as i8)
}

/// Is `byte` a decimal digit in ASCII?
pub open spec fn is_ascii_digit(byte: u8) -> bool {
    0x30 <= byte <= 0x39
}

/// Reads the content of `gpu_mux_mode`. Its first byte has to be a digit:
/// `0` is the dGPU, every other digit is Optimus.
pub fn asus_gpu_mux_mode(data: &[u8]) -> (res: Result<AsusGpuMuxMode, GfxError>)
    ensures
        data.len() > 0 && data[0] == 0x30 ==> res == Ok::<AsusGpuMuxMode, GfxError>(
            AsusGpuMuxMode::Discreet,
        ),
        data.len() > 0 && is_ascii_digit(data[0]) && data[0] != 0x30 ==> res == Ok::<
            AsusGpuMuxMode,
            GfxError,
        >(AsusGpuMuxMode::Optimus),
        data.len() == 0 || !is_ascii_digit(data[0]) ==> (res matches Err(
            GfxError::Read(what, why),
        ) && what@ == "Failed to read gpu_mux_mode"@ && why@ == "Could not read"@),
{
    if data.len() > 0 && 0x30 <= data[0] && data[0] <= 0x39 {
        let digit: u8 = data[0] - 0x30;
        return Ok(AsusGpuMuxMode::from(digit as i8));
    }
    Err(
        GfxError::Read(
            String::from_str("Failed to read gpu_mux_mode"),
            String::from_str("Could not read"),
        ),
    )
}

/// What a toggle of ASUS is written with.
pub open spec fn spec_toggle_word(on: bool) -> &'static str {
    if on {
        "1"
    } else {
        "0"
    }
}

fn toggle_word(on: bool) -> (res: &'static str)
    ensures
        res == spec_toggle_word(on),
{
    if on {
        "1"
    } else {
        "0"
    }
}

/// The write that points the MUX at the iGPU (`igpu_on`) or at the dGPU.
pub fn asus_gpu_mux_set_igpu(igpu_on: bool) -> (res: PlatformOp)
    ensures
        res == (PlatformOp::Write { file: SysFile::AsusGpuMux, data: spec_toggle_word(igpu_on) }),
{
    PlatformOp::Write { file: SysFile::AsusGpuMux, data: toggle_word(igpu_on) }
}

/// What it takes to bring a power toggle of ASUS from `current` to `wanted`:
/// nothing where it is there already; else a pause, the write, and, where
/// `rescan` says so, a second pause and a rescan of the bus.
pub open spec fn spec_toggle_ops(file: SysFile, current: bool, wanted: bool, rescan: bool) -> Seq<
    PlatformOp,
> {
    if current == wanted {
        Seq::empty()
    } else if rescan {
        seq![
            PlatformOp::Sleep { millis: ASUS_TOGGLE_SETTLE_MS },
            PlatformOp::Write { file, data: spec_toggle_word(wanted) },
            PlatformOp::Sleep { millis: ASUS_WAKE_SETTLE_MS },
            PlatformOp::Write { file: SysFile::PciRescan, data: "1" },
        ]
    } else {
        seq![
            PlatformOp::Sleep { millis: ASUS_TOGGLE_SETTLE_MS },
            PlatformOp::Write { file, data: spec_toggle_word(wanted) },
        ]
    }
}

fn toggle_ops(file: SysFile, current: bool, wanted: bool, rescan: bool) -> (res: Vec<PlatformOp>)
    ensures
        res@ == spec_toggle_ops(file, current, wanted, rescan),
{
    let mut ops: Vec<PlatformOp> = Vec::new();
    if current != wanted {
        ops.push(PlatformOp::Sleep { millis: ASUS_TOGGLE_SETTLE_MS });
        ops.push(PlatformOp::Write { file, data: toggle_word(wanted) });
        if rescan {
            ops.push(PlatformOp::Sleep { millis: ASUS_WAKE_SETTLE_MS });
            ops.push(rescan_pci_bus());
        }
    }
    assert(ops@ =~= spec_toggle_ops(file, current, wanted, rescan));
    ops
}

/// Special ASUS only feature. On toggle to `off` it will rescan the PCI bus.
///
/// `current` is what `dgpu_disable` reads now.
pub fn asus_dgpu_set_disabled(current: bool, disabled: bool) -> (res: Vec<PlatformOp>)
    ensures
        res@ == spec_toggle_ops(SysFile::AsusDgpuDisable, current, disabled, !disabled),
{
    toggle_ops(SysFile::AsusDgpuDisable, current, disabled, !disabled)
}

/// Special ASUS only feature. On toggle to `on` it will rescan the PCI bus.
///
/// `current` is what `egpu_enable` reads now.
pub fn asus_egpu_set_enabled(current: bool, enabled: bool) -> (res: Vec<PlatformOp>)
    ensures
        res@ == spec_toggle_ops(SysFile::AsusEgpuEnable, current, enabled, enabled),
{
    toggle_ops(SysFile::AsusEgpuEnable, current, enabled, enabled)
}

/// Create the config. Returns what has to be written to
/// `ASUS_MODULES_LOAD_PATH`, which is nothing where the file exists.
pub fn create_asus_modules_load_conf(exists: bool) -> (res: Option<&'static str>)
    ensures
        res == (if exists {
            None
        } else {
            Some(ASUS_MODULES_LOAD)
        }),
{
    if exists {
        None
    } else {
        Some(ASUS_MODULES_LOAD)
    }
}

/// At the start of the machine `dgpu_disable` may show up late. Is it worth
/// another look, after `polls_done` of them?
pub fn asus_dgpu_disable_wait(asus_use_dgpu_disable: bool, quirks: &AsusQuirks, polls_done: u32) -> (res:
    bool)
    ensures
        res == (asus_use_dgpu_disable && quirks.dgpu_disable.is_none() && polls_done
            < ASUS_DGPU_DISABLE_POLLS),
{
    asus_use_dgpu_disable && quirks.dgpu_disable.is_none() && polls_done < ASUS_DGPU_DISABLE_POLLS
}

/// The outcome of the check at the start of the machine.
#[derive(Debug, Clone, PartialEq, Eq)]
pub struct BootSafety {
    /// The mode that has to be used
    pub mode: GfxMode,
    /// What has to be done to the toggles before any stage runs
    pub ops: Vec<PlatformOp>,
}

/// The mode that the firmware's state allows at the start of the machine.
///
/// While the MUX wires the display to the dGPU the mode is `AsusMuxDgpu`;
/// with the MUX on Optimus that mode falls back to `Hybrid`. Else, where the
/// dGPU is switched off and `dgpu_disable` is in use, the mode is
/// `Integrated`; else, where the eGPU is switched on, it is `AsusEgpu`; else
/// the mode that was asked for stands.
pub open spec fn spec_boot_safe_mode(
    mode: GfxMode,
    asus_use_dgpu_disable: bool,
    quirks: AsusQuirks,
) -> GfxMode {
    if quirks.gpu_mux == Some(AsusGpuMuxMode::Discreet) {
        GfxMode::AsusMuxDgpu
    } else if quirks.gpu_mux == Some(AsusGpuMuxMode::Optimus) && mode == GfxMode::AsusMuxDgpu {
        GfxMode::Hybrid
    } else if quirks.dgpu_disable == Some(true) && asus_use_dgpu_disable && mode
        != GfxMode::Integrated {
        GfxMode::Integrated
    } else if quirks.egpu_enable == Some(true) && mode != GfxMode::AsusEgpu {
        GfxMode::AsusEgpu
    } else {
        mode
    }
}

/// Must the dGPU be switched on again at the start of the machine? It must
/// where it is off while the MUX wires the display to it, and, with the MUX
/// out of the way, where it is off although `dgpu_disable` is not in use.
pub open spec fn spec_boot_enables_dgpu(
    mode: GfxMode,
    asus_use_dgpu_disable: bool,
    quirks: AsusQuirks,
) -> bool {
    quirks.dgpu_disable == Some(true) && (quirks.gpu_mux == Some(AsusGpuMuxMode::Discreet) || (
    !asus_use_dgpu_disable && !(quirks.gpu_mux == Some(AsusGpuMuxMode::Optimus) && mode
        == GfxMode::AsusMuxDgpu)))
}

/// To be called in main reload code. Specific actions required for asus laptops depending
/// on is dgpu_disable, egpu_enable, or gpu_mux_mode are available.
///
/// The returned mode may be different to the requested mode depending on the bios settings active,
/// the differing value *must* be used.
pub fn asus_boot_safety_check(mode: GfxMode, asus_use_dgpu_disable: bool, quirks: &AsusQuirks) -> (res:
    BootSafety)
    ensures
        res.mode == spec_boot_safe_mode(mode, asus_use_dgpu_disable, *quirks),
        res.ops@ == (if spec_boot_enables_dgpu(mode, asus_use_dgpu_disable, *quirks) {
            spec_toggle_ops(SysFile::AsusDgpuDisable, true, false, true)
        } else {
            Seq::empty()
        }),
{
    match quirks.gpu_mux {
        Some(AsusGpuMuxMode::Discreet) => {
            let ops = match quirks.dgpu_disable {
                Some(true) => asus_dgpu_set_disabled(true, false),
                _ => Vec::new(),
            };
            return BootSafety { mode: GfxMode::AsusMuxDgpu, ops };
        },
        Some(AsusGpuMuxMode::Optimus) => {
            if mode == GfxMode::AsusMuxDgpu {
                return BootSafety { mode: GfxMode::Hybrid, ops: Vec::new() };
            }
        },
        None => {},
    }
    let mut ops: Vec<PlatformOp> = Vec::new();
    match quirks.dgpu_disable {
        Some(true) => {
            if !asus_use_dgpu_disable {
                ops = asus_dgpu_set_disabled(true, false);
            } else if mode != GfxMode::Integrated {
                return BootSafety { mode: GfxMode::Integrated, ops };
            }
        },
        _ => {},
    }
    match quirks.egpu_enable {
        Some(true) => {
            if mode != GfxMode::AsusEgpu {
                return BootSafety { mode: GfxMode::AsusEgpu, ops };
            }
        },
        _ => {},
    }
    BootSafety { mode, ops }
}

/// Is there a GPU besides the integrated one that is switched on? Where the
/// firmware has switched the dGPU off, only an eGPU that is switched on
/// will do.
pub open spec fn spec_is_gpu_enabled(quirks: AsusQuirks) -> Result<bool, GfxErrorView> {
    if quirks.dgpu_disable == Some(true) {
        match quirks.egpu_enable {
            Some(true) => Ok(true),
            Some(false) => Err(GfxErrorView::NotSupported("dGPU and eGPU disabled"@)),
            None => Err(GfxErrorView::NotSupported("dGPU disabled"@)),
        }
    } else {
        Ok(true)
    }
}

pub fn is_gpu_enabled(quirks: &AsusQuirks) -> (res: Result<bool, GfxError>)
    ensures
        match spec_is_gpu_enabled(*quirks) {
            Ok(on) => res == Ok::<bool, GfxError>(on),
            Err(e) => res matches Err(x) && x@ == e,
        },
{
    match quirks.dgpu_disable {
        Some(true) => match quirks.egpu_enable {
            Some(true) => Ok(true),
            Some(false) => Err(GfxError::NotSupported(String::from_str("dGPU and eGPU disabled"))),
            None => Err(GfxError::NotSupported(String::from_str("dGPU disabled"))),
        },
        _ => Ok(true),
    }
}

/// The thorough way to switch the eGPU: the Nvidia driver is removed, the
/// toggle is written, the bus is rescanned, and the toggle is written once
/// more.
pub fn asus_egpu_set_status(status: bool) -> (res: Vec<PlatformOp>)
    ensures
        res@ == spec_driver_ops(DriverAction::Remove, spec_nvidia_drivers()) + seq![
            PlatformOp::Write { file: SysFile::AsusEgpuEnable, data: spec_toggle_word(status) },
            PlatformOp::Write { file: SysFile::PciRescan, data: "1" },
            PlatformOp::Write { file: SysFile::AsusEgpuEnable, data: spec_toggle_word(status) },
        ],
{
    let drivers = nvidia_drivers();
    let mut ops = driver_ops(DriverAction::Remove, &drivers);
    let ghost removed = ops@;
    ops.push(PlatformOp::Write { file: SysFile::AsusEgpuEnable, data: toggle_word(status) });
    ops.push(rescan_pci_bus());
    ops.push(PlatformOp::Write { file: SysFile::AsusEgpuEnable, data: toggle_word(status) });
    assert(ops@ =~= removed + seq![
        PlatformOp::Write { file: SysFile::AsusEgpuEnable, data: spec_toggle_word(status) },
        PlatformOp::Write { file: SysFile::PciRescan, data: "1" },
        PlatformOp::Write { file: SysFile::AsusEgpuEnable, data: spec_toggle_word(status) },
    ]);
    ops
}

} // verus!
