//! Values that the virtual-machine test harness passes to `vmrun`: the
//! machine's configuration file, guest credentials and paths, and the words
//! for its options.
use vstd::prelude::*;

verus! {

/// A user name and password for the guest.
pub struct Credential {
    pub user: String,
    pub pass: String,
}

impl Credential {
    pub fn new(user: String, pass: String) -> (r: Credential)
        ensures
            r.user == user,
            r.pass == pass,
    {
        Credential { user, pass }
    }
}

/// The path of a virtual machine's configuration file on the host.
pub struct VmxFile(pub String);

impl VmxFile {
    pub fn new(path: String) -> (r: VmxFile)
        ensures
            r.0 == path,
    {
        VmxFile(path)
    }
}

/// A path inside the guest.
pub struct GuestPath(pub String);

impl GuestPath {
    pub fn new(path: String) -> (r: GuestPath)
        ensures
            r.0 == path,
    {
        GuestPath(path)
    }
}

/// Whether the machine starts with a window.
#[derive(Clone, Copy, Debug, PartialEq, Eq, Structural)]
pub enum Gui {
    Show,
    Hidden,
}

impl Gui {
    /// The word `vmrun start` takes.
    pub fn as_str(&self) -> (r: &'static str)
        ensures
            r@ == match self {
                Gui::Show => "gui"@,
                Gui::Hidden => "nogui"@,
            },
    {
        match self {
            Gui::Show => "gui",
            Gui::Hidden => "nogui",
        }
    }
}

/// How the machine is stopped.
#[derive(Clone, Copy, Debug, PartialEq, Eq, Structural)]
pub enum PowerControl {
    Normal,
    Force,
}

impl PowerControl {
    /// The word `vmrun stop` takes.
    pub fn as_str(&self) -> (r: &'static str)
        ensures
            r@ == match self {
                PowerControl::Normal => "soft"@,
                PowerControl::Force => "hard"@,
            },
    {
        match self {
            PowerControl::Normal => "soft",
            PowerControl::Force => "hard",
        }
    }
}

/// The build profile of the driver that is installed.
#[derive(Clone, Copy, Debug, PartialEq, Eq, Structural)]
pub enum Profile {
    Dev,
    Release,
}

impl Profile {
    /// The name of the build output directory.
    pub fn as_str(&self) -> (r: &'static str)
        ensures
            r@ == match self {
                Profile::Dev => "debug"@,
                Profile::Release => "release"@,
            },
    {
        match self {
            Profile::Dev => "debug",
            Profile::Release => "release",
        }
    }
}

impl From<bool> for Profile {
    fn from(release: bool) -> (r: Profile) {
        if release {
            Profile::Release
        } else {
            Profile::Dev
        }
    }
}

impl vstd::std_specs::convert::FromSpecImpl<bool> for Profile {
    open spec fn obeys_from_spec() -> bool {
        true
    }

    open spec fn from_spec(release: bool) -> Profile {
        if release {
            Profile::Release
        } else {
            Profile::Dev
        }
    }
}

} // verus!
