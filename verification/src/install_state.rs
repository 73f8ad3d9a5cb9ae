//! What the markers of an installation say about the VM.

use vstd::prelude::*;

verus! {

#[derive(Clone, Copy, Debug, PartialEq, Eq, Structural)]
pub enum VmInstallation {
    /// There is no VM.
    Absent,
    /// An installation that was started here was not completed.
    Partial,
    /// The VM was provisioned.
    Ready,
    /// The VM was not created here.
    Unmanaged,
}

/// The state of an installation: a VM is ours when it was provisioned or when an
/// installation of it is under way.
pub open spec fn installation(
    vm_exists: bool,
    provisioned: bool,
    installing: bool,
) -> VmInstallation {
    if !vm_exists {
        VmInstallation::Absent
    } else if provisioned {
        VmInstallation::Ready
    } else if installing {
        VmInstallation::Partial
    } else {
        VmInstallation::Unmanaged
    }
}

pub fn classify(vm_exists: bool, provisioned: bool, installing: bool) -> (state: VmInstallation)
    ensures
        state == installation(vm_exists, provisioned, installing),
{
    match (vm_exists, provisioned, installing) {
        (true, true, _) => VmInstallation::Ready,
        (true, false, true) => VmInstallation::Partial,
        (true, false, false) => VmInstallation::Unmanaged,
        (false, _, _) => VmInstallation::Absent,
    }
}

} // verus!
