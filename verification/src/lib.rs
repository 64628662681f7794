//! Decision core of a daemon that switches a laptop between graphics modes.
//!
//! Everything in this crate is pure: it decides which primitive operations
//! have to happen, in which order, and what the caller has to tell the user.
//! Touching sysfs, the service manager or the session manager is left to the
//! program that links this library.

use vstd::prelude::*;

/// When a list of stages is in an order that is safe to run.
pub mod action_order;
/// The stages of a mode change and the plans that are made of them.
pub mod actions;
/// What the command line client decides.
pub mod cli;
/// The configuration for graphics. This should be saved and loaded on boot.
pub mod config;
/// The layouts the settings had in the past.
pub mod config_old;
/// Control functions for setting graphics.
pub mod controller;
/// What holds of the controller, whatever is asked of it.
pub mod controller_laws;
/// Telling the functions of the dGPU from the other PCI functions.
pub mod device_find;
/// What can go wrong, and how it is reported.
pub mod error;
/// Mode names, follows what distros defined as common.
pub mod gfx_vendors;
/// Telling from the sessions whether everybody has logged out.
pub mod logind;
/// The PCI functions of the dGPU and what can be asked of them.
pub mod pci_device;
/// What each stage of a plan consists of.
pub mod perform;
/// Special-case functions for check/read/write of key functions on ASUS
/// laptops.
pub mod special_asus;
/// The primitive operations that the library asks of the machine.
pub mod system;
/// Judging what the service manager answers.
pub mod systemd;
/// Small helpers over `str` that the rest of the crate shares.
pub mod text;

verus! {

/// Version of the daemon, as reported over the control interface.
pub const VERSION: &'static str = "5.2.7";

/// Generic path that is used to save the daemon config state
pub const CONFIG_PATH: &'static str = "/etc/supergfxd.conf";

/// Destination name to be used in the daemon when setting up DBUS connection
pub const DBUS_DEST_NAME: &'static str = "org.supergfxctl.Daemon";

/// Interface path name. Should be common across daemon and client.
pub const DBUS_IFACE_PATH: &'static str = "/org/supergfxctl/Gfx";

/// The unit that owns every graphical session.
pub const DISPLAY_MANAGER: &'static str = "display-manager.service";

/// Where the module options for the graphics drivers are written.
pub const MODPROBE_PATH: &'static str = "/etc/modprobe.d/supergfxd.conf";

/// The module options that bring the Nvidia driver up.
pub const MODPROBE_NVIDIA_BASE: &'static str =
    "# Automatically generated by supergfxd\nblacklist nouveau\nalias nouveau off\noptions nvidia NVreg_DynamicPowerManagement=0x02\n";

/// Added to the base where the driver shall set the display modes itself.
pub const MODPROBE_NVIDIA_DRM_MODESET: &'static str = "\noptions nvidia-drm modeset=1\n";

/// The module options that keep every driver for Nvidia hardware out.
pub const MODPROBE_INTEGRATED: &'static str =
    "# Automatically generated by supergfxd\nblacklist i2c_nvidia_gpu\nblacklist nvidia\nblacklist nvidia-drm\nblacklist nvidia-modeset\nblacklist nouveau\nalias nouveau off\n";

/// What the list of device ids for vfio begins with.
pub const MODPROBE_VFIO: &'static str = "options vfio-pci ids=";

} // verus!
