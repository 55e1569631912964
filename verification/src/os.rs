use vstd::prelude::*;

use crate::os::pkg::Packager;

pub mod debian;
pub mod pkg;

verus! {

/// The model of an operating system.
pub struct OperatingSystemView {
    pub kind: Kind,
    pub packager: Packager,
}

/// An operating system: its kind and the package manager it uses.
#[derive(Clone, Copy, Debug, PartialEq, Eq)]
pub struct OperatingSystem {
    kind: Kind,
    packager: Packager,
}

impl View for OperatingSystem {
    type V = OperatingSystemView;

    closed spec fn view(&self) -> OperatingSystemView {
        OperatingSystemView { kind: self.kind, packager: self.packager }
    }
}

impl Default for OperatingSystem {
    fn default() -> (r: OperatingSystem)
        ensures
            r@ == (OperatingSystemView { kind: Kind::Unknown, packager: Packager::Unknown }),
    {
        OperatingSystem::unknown()
    }
}

impl OperatingSystem {
    /// The kind of the system.
    pub fn kind(&self) -> (r: Kind)
        ensures
            r == self@.kind,
    {
        self.kind
    }

    /// The package manager of the system.
    pub fn packager(&self) -> (r: Packager)
        ensures
            r == self@.packager,
    {
        self.packager
    }

    /// A system of the given kind with the given package manager.
    pub fn new(kind: Kind, packager: Packager) -> (r: OperatingSystem)
        ensures
            r@ == (OperatingSystemView { kind, packager }),
    {
        OperatingSystem { kind, packager }
    }

    /// A system of unknown kind with an unknown package manager.
    pub fn unknown() -> (r: OperatingSystem)
        ensures
            r@ == (OperatingSystemView { kind: Kind::Unknown, packager: Packager::Unknown }),
    {
        OperatingSystem { kind: Kind::Unknown, packager: Packager::Unknown }
    }
}

/// The kinds of operating system that are told apart.
#[derive(Debug, Clone, Copy, PartialEq, Eq, Structural)]
pub enum Kind {
    Unknown,
    Debian,
}

impl Default for Kind {
    fn default() -> (r: Kind)
        ensures
            r == Kind::Unknown,
    {
        Kind::Unknown
    }
}

} // verus!
