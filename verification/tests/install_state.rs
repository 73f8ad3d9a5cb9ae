//! The state of an installation.

use gremvm::install_state::{classify, VmInstallation};

#[test]
fn installation_markers_define_every_vm_state() {
    for (vm, provisioned, installing, expected) in [
        (false, false, false, VmInstallation::Absent),
        (false, false, true, VmInstallation::Absent),
        (false, true, false, VmInstallation::Absent),
        (false, true, true, VmInstallation::Absent),
        (true, false, false, VmInstallation::Unmanaged),
        (true, false, true, VmInstallation::Partial),
        (true, true, false, VmInstallation::Ready),
        (true, true, true, VmInstallation::Ready),
    ] {
        assert_eq!(classify(vm, provisioned, installing), expected);
    }
}
