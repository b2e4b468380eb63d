//! The vocabulary of the migration: device types, architectures, and the
//! names of the commands and paths that the probes use.

use vstd::prelude::*;
use vstd::string::StringExecFns;

verus! {

/// The slug of the Intel NUC images.
pub const DEV_TYPE_INTEL_NUC: &'static str = "intel-nuc";

/// The slug of the generic 64-bit x86 images.
pub const DEV_TYPE_GEN_X86_64: &'static str = "genericx86-64-ext";

/// The slug of the Raspberry Pi 3 images.
pub const DEV_TYPE_RPI3: &'static str = "raspberrypi3";

/// The slug of the Raspberry Pi 2 images.
pub const DEV_TYPE_RPI2: &'static str = "raspberry-pi2";

/// The slug of the 64-bit Raspberry Pi 4 images.
pub const DEV_TYPE_RPI4_64: &'static str = "raspberrypi4-64";

/// The file that lists what is mounted.
pub const MTAB_PATH: &'static str = "/etc/mtab";

/// The directory whose presence shows that the machine booted through UEFI.
pub const SYS_UEFI_DIR: &'static str = "/sys/firmware/efi";

/// Prints the machine's hardware name when called with `-m`.
pub const UNAME_CMD: &'static str = "uname";

/// Reports the Secure Boot state when called with `--sb-state`.
pub const MOKUTIL_CMD: &'static str = "mokutil";

/// Lists where a command's binaries are when called with `-b` and its name.
pub const WHEREIS_CMD: &'static str = "whereis";

/// The line by which `mokutil` reports the state, as a regular expression
/// with the state as group 1.
pub const SB_STATE_PATTERN: &'static str = r"^SecureBoot\s+(disabled|enabled)$";

/// Creates a uniquely named file or directory and prints its path.
pub const MKTEMP_CMD: &'static str = "mktemp";

/// The hardware platforms that a migration knows.
#[derive(Debug, Clone, Copy, PartialEq, Eq, Structural)]
pub enum DeviceType {
    BeagleboneGreen,
    BeagleboardXM,
    IntelNuc,
    RaspberryPi2,
    RaspberryPi3,
    RaspberryPi4,
}

impl DeviceType {
    /// The name of the platform for a reader.
    pub open spec fn spec_label(&self) -> Seq<char> {
        match self {
            DeviceType::IntelNuc => "X68_64/Intel Nuc"@,
            DeviceType::BeagleboneGreen => "Beaglebone Green"@,
            DeviceType::BeagleboardXM => "Beagleboard XM"@,
            DeviceType::RaspberryPi2 => "Raspberry Pi 2"@,
            DeviceType::RaspberryPi3 => "Raspberry Pi 3"@,
            DeviceType::RaspberryPi4 => "Raspberry Pi 4"@,
        }
    }

    /// The name of the platform for a reader.
    pub fn label(&self) -> (s: &'static str)
        ensures
            s@ == self.spec_label(),
    {
        match self {
            DeviceType::IntelNuc => "X68_64/Intel Nuc",
            DeviceType::BeagleboneGreen => "Beaglebone Green",
            DeviceType::BeagleboardXM => "Beagleboard XM",
            DeviceType::RaspberryPi2 => "Raspberry Pi 2",
            DeviceType::RaspberryPi3 => "Raspberry Pi 3",
            DeviceType::RaspberryPi4 => "Raspberry Pi 4",
        }
    }

    /// The platform as it is written into a list: its label and a comma.
    pub fn to_string(&self) -> (s: String)
        ensures
            s@ == self.spec_label() + ","@,
    {
        String::from_str(self.label()).concat(",")
    }
}

/// The instruction-set families that a migration supports.
#[derive(Debug, Clone, Copy, PartialEq, Eq, Structural)]
pub enum OSArch {
    AMD64,
    ARMHF,
    I386,
}

} // verus!
