use vstd::prelude::*;
use vstd::string::*;

use crate::actions::StagedAction;

verus! {

/// Every failure the library reports. Where the operating system was the
/// cause, the last `String` of the variant is the system's own message.
#[derive(Debug, Clone, PartialEq, Eq)]
pub enum GfxError {
    ParseVendor,
    ParseMode,
    DgpuNotFound,
    Udev(String, String),
    SystemdUnitAction(String),
    SystemdUnitWaitTimeout(String),
    AsusGpuMuxModeDiscreet,
    VfioBuiltin,
    VfioDisabled,
    LogoutTimeout,
    MissingModule(String),
    Modprobe(String),
    Command(String, String),
    Path(String, String),
    Read(String, String),
    Write(String, String),
    NotSupported(String),
    /// `Io(detail, error)`: the path that was worked on, which may be empty
    Io(String, String),
    Zbus(String),
    ZbusFdo(String),
    /// `IncorrectActionOrder(this_action, last_action)`
    IncorrectActionOrder(StagedAction, StagedAction),
}

/// A `GfxError` with its texts as sequences of characters.
pub enum GfxErrorView {
    ParseVendor,
    ParseMode,
    DgpuNotFound,
    Udev(Seq<char>, Seq<char>),
    SystemdUnitAction(Seq<char>),
    SystemdUnitWaitTimeout(Seq<char>),
    AsusGpuMuxModeDiscreet,
    VfioBuiltin,
    VfioDisabled,
    LogoutTimeout,
    MissingModule(Seq<char>),
    Modprobe(Seq<char>),
    Command(Seq<char>, Seq<char>),
    Path(Seq<char>, Seq<char>),
    Read(Seq<char>, Seq<char>),
    Write(Seq<char>, Seq<char>),
    NotSupported(Seq<char>),
    Io(Seq<char>, Seq<char>),
    Zbus(Seq<char>),
    ZbusFdo(Seq<char>),
    IncorrectActionOrder(StagedAction, StagedAction),
}

impl View for GfxError {
    type V = GfxErrorView;

    open spec fn view(&self) -> GfxErrorView {
        match self {
            GfxError::ParseVendor => GfxErrorView::ParseVendor,
            GfxError::ParseMode => GfxErrorView::ParseMode,
            GfxError::DgpuNotFound => GfxErrorView::DgpuNotFound,
            GfxError::Udev(a, b) => GfxErrorView::Udev(a@, b@),
            GfxError::SystemdUnitAction(a) => GfxErrorView::SystemdUnitAction(a@),
            GfxError::SystemdUnitWaitTimeout(a) => GfxErrorView::SystemdUnitWaitTimeout(a@),
            GfxError::AsusGpuMuxModeDiscreet => GfxErrorView::AsusGpuMuxModeDiscreet,
            GfxError::VfioBuiltin => GfxErrorView::VfioBuiltin,
            GfxError::VfioDisabled => GfxErrorView::VfioDisabled,
            GfxError::LogoutTimeout => GfxErrorView::LogoutTimeout,
            GfxError::MissingModule(a) => GfxErrorView::MissingModule(a@),
            GfxError::Modprobe(a) => GfxErrorView::Modprobe(a@),
            GfxError::Command(a, b) => GfxErrorView::Command(a@, b@),
            GfxError::Path(a, b) => GfxErrorView::Path(a@, b@),
            GfxError::Read(a, b) => GfxErrorView::Read(a@, b@),
            GfxError::Write(a, b) => GfxErrorView::Write(a@, b@),
            GfxError::NotSupported(a) => GfxErrorView::NotSupported(a@),
            GfxError::Io(a, b) => GfxErrorView::Io(a@, b@),
            GfxError::Zbus(a) => GfxErrorView::Zbus(a@),
            GfxError::ZbusFdo(a) => GfxErrorView::ZbusFdo(a@),
            GfxError::IncorrectActionOrder(a, b) => GfxErrorView::IncorrectActionOrder(*a, *b),
        }
    }
}

impl GfxErrorView {
    /// The message for the user.
    pub open spec fn message(self) -> Seq<char> {
        match self {
            GfxErrorView::ParseVendor => "Could not parse vendor name"@,
            GfxErrorView::ParseMode => "Could not parse mode name"@,
            GfxErrorView::DgpuNotFound =>
                "Didn't find dgpu. If this is an ASUS ROG/TUF laptop this is okay"@,
            GfxErrorView::Udev(msg, err) => "udev: "@ + msg + ": "@ + err,
            GfxErrorView::SystemdUnitAction(action) => "systemd unit action "@ + action
                + " failed"@,
            GfxErrorView::SystemdUnitWaitTimeout(state) =>
                "Timed out waiting for systemd unit change "@ + state + " state"@,
            GfxErrorView::AsusGpuMuxModeDiscreet =>
                "Can not switch gfx modes when discreet/G-Sync mode is active"@,
            GfxErrorView::VfioBuiltin =>
                "Can not switch to vfio mode if the modules are built in to kernel"@,
            GfxErrorView::VfioDisabled => "Can not switch to vfio mode if disabled in config file"@,
            GfxErrorView::LogoutTimeout => "Timed out waiting for the graphical sessions to end"@,
            GfxErrorView::MissingModule(m) => "The module "@ + m + " is missing"@,
            GfxErrorView::Modprobe(detail) => "Modprobe error: "@ + detail,
            GfxErrorView::Command(func, error) => "Command exec error: "@ + func + ": "@ + error,
            GfxErrorView::Path(path, error) => "Path "@ + path + ": "@ + error,
            GfxErrorView::Read(path, error) => "Read "@ + path + ": "@ + error,
            GfxErrorView::Write(path, error) => "Write "@ + path + ": "@ + error,
            GfxErrorView::NotSupported(path) => path,
            GfxErrorView::Io(detail, error) => if detail.len() == 0 {
                "std::io error: "@ + error
            } else {
                "std::io error: "@ + error + ", "@ + detail
            },
            GfxErrorView::Zbus(detail) => "Zbus error: "@ + detail,
            GfxErrorView::ZbusFdo(detail) => "Zbus error: "@ + detail,
            GfxErrorView::IncorrectActionOrder(this_action, last_action) =>
                "The order of actions is incorrect: "@ + last_action.spec_name()@
                    + " should not be before "@ + this_action.spec_name()@,
        }
    }
}

fn text1(a: &str, b: &str) -> (res: String)
    ensures
        res@ == a@ + b@,
{
    let mut s = String::from_str(a);
    s.append(b);
    s
}

fn text2(a: &str, b: &str, c: &str) -> (res: String)
    ensures
        res@ == a@ + b@ + c@,
{
    let mut s = text1(a, b);
    s.append(c);
    s
}

fn text3(a: &str, b: &str, c: &str, d: &str) -> (res: String)
    ensures
        res@ == a@ + b@ + c@ + d@,
{
    let mut s = text2(a, b, c);
    s.append(d);
    s
}

impl GfxError {
    /// An error of the operating system, met while working on `detail`.
    pub fn from_io(error: String, detail: String) -> (res: GfxError)
        ensures
            res@ == GfxErrorView::Io(detail@, error@),
    {
        GfxError::Io(detail, error)
    }

    /// The message for the user.
    pub fn message(&self) -> (res: String)
        ensures
            res@ == self@.message(),
    {
        match self {
            GfxError::ParseVendor => String::from_str("Could not parse vendor name"),
            GfxError::ParseMode => String::from_str("Could not parse mode name"),
            GfxError::DgpuNotFound => String::from_str(
                "Didn't find dgpu. If this is an ASUS ROG/TUF laptop this is okay",
            ),
            GfxError::Udev(msg, err) => text3("udev: ", msg.as_str(), ": ", err.as_str()),
            GfxError::SystemdUnitAction(action) => text2(
                "systemd unit action ",
                action.as_str(),
                " failed",
            ),
            GfxError::SystemdUnitWaitTimeout(state) => text2(
                "Timed out waiting for systemd unit change ",
                state.as_str(),
                " state",
            ),
            GfxError::AsusGpuMuxModeDiscreet => String::from_str(
                "Can not switch gfx modes when discreet/G-Sync mode is active",
            ),
            GfxError::VfioBuiltin => String::from_str(
                "Can not switch to vfio mode if the modules are built in to kernel",
            ),
            GfxError::VfioDisabled => String::from_str(
                "Can not switch to vfio mode if disabled in config file",
            ),
            GfxError::LogoutTimeout => String::from_str(
                "Timed out waiting for the graphical sessions to end",
            ),
            GfxError::MissingModule(m) => text2("The module ", m.as_str(), " is missing"),
            GfxError::Modprobe(detail) => text1("Modprobe error: ", detail.as_str()),
            GfxError::Command(func, error) => text3(
                "Command exec error: ",
                func.as_str(),
                ": ",
                error.as_str(),
            ),
            GfxError::Path(path, error) => text3("Path ", path.as_str(), ": ", error.as_str()),
            GfxError::Read(path, error) => text3("Read ", path.as_str(), ": ", error.as_str()),
            GfxError::Write(path, error) => text3("Write ", path.as_str(), ": ", error.as_str()),
            GfxError::NotSupported(path) => path.clone(),
            GfxError::Io(detail, error) => {
                if detail.as_str().unicode_len() == 0 {
                    text1("std::io error: ", error.as_str())
                } else {
                    text3("std::io error: ", error.as_str(), ", ", detail.as_str())
                }
            },
            GfxError::Zbus(detail) => text1("Zbus error: ", detail.as_str()),
            GfxError::ZbusFdo(detail) => text1("Zbus error: ", detail.as_str()),
            GfxError::IncorrectActionOrder(this_action, last_action) => text3(
                "The order of actions is incorrect: ",
                last_action.name(),
                " should not be before ",
                this_action.name(),
            ),
        }
    }
}

} // verus!
