//! Driver model and target architecture.
//!
//! These types hold, as plain values, everything the packaging pipeline reads
//! of a driver's configuration: the CPU architecture the driver was built for
//! and the driver framework (KMDF, UMDF or WDM) with its version numbers.

use vstd::prelude::*;
use vstd::string::StringSliceAdditionalSpecFns;
use vstd::string::StrSliceExecFns;

verus! {

/// The CPU architecture a driver package targets.
#[derive(Clone, Copy, Debug, PartialEq, Eq)]
pub enum CpuArchitecture {
    Amd64,
    Arm64,
}

/// Version configuration of a KMDF driver.
#[derive(Clone, Copy, Debug, PartialEq, Eq)]
pub struct KmdfConfig {
    pub kmdf_version_major: u8,
    pub target_kmdf_version_minor: u8,
    pub minimum_kmdf_version_minor: Option<u8>,
}

/// Version configuration of a UMDF driver.
#[derive(Clone, Copy, Debug, PartialEq, Eq)]
pub struct UmdfConfig {
    pub umdf_version_major: u8,
    pub target_umdf_version_minor: u8,
    pub minimum_umdf_version_minor: Option<u8>,
}

/// The driver framework a driver is written against.
#[derive(Clone, Copy, Debug, PartialEq, Eq)]
pub enum DriverConfig {
    Wdm,
    Kmdf(KmdfConfig),
    Umdf(UmdfConfig),
}

/// The architecture name handed to `stampinf -a`.
pub open spec fn spec_arch_arg(arch: CpuArchitecture) -> Seq<u8> {
    match arch {
        CpuArchitecture::Amd64 => "amd64".spec_bytes(),
        CpuArchitecture::Arm64 => "arm64".spec_bytes(),
    }
}

/// The operating-system mapping handed to `inf2cat /os:`.
pub open spec fn spec_os_mapping(arch: CpuArchitecture) -> Seq<u8> {
    match arch {
        CpuArchitecture::Amd64 => "10_x64".spec_bytes(),
        CpuArchitecture::Arm64 => "Server10_arm64".spec_bytes(),
    }
}

/// The file extension of the packaged driver binary: kernel-mode drivers
/// (KMDF and WDM) ship as `.sys`, user-mode drivers (UMDF) as `.dll`.
pub open spec fn spec_dest_binary_ext(model: DriverConfig) -> Seq<u8> {
    match model {
        DriverConfig::Kmdf(_) => "sys".spec_bytes(),
        DriverConfig::Wdm => "sys".spec_bytes(),
        DriverConfig::Umdf(_) => "dll".spec_bytes(),
    }
}

/// Executable counterpart of `spec_arch_arg`.
pub fn arch_arg(arch: CpuArchitecture) -> (r: Vec<u8>)
    ensures
        r@ == spec_arch_arg(arch),
{
    match arch {
        CpuArchitecture::Amd64 => "amd64".as_bytes_vec(),
        CpuArchitecture::Arm64 => "arm64".as_bytes_vec(),
    }
}

/// Executable counterpart of `spec_os_mapping`.
pub fn os_mapping(arch: CpuArchitecture) -> (r: Vec<u8>)
    ensures
        r@ == spec_os_mapping(arch),
{
    match arch {
        CpuArchitecture::Amd64 => "10_x64".as_bytes_vec(),
        CpuArchitecture::Arm64 => "Server10_arm64".as_bytes_vec(),
    }
}

/// Executable counterpart of `spec_dest_binary_ext`.
pub fn dest_binary_ext(model: &DriverConfig) -> (r: Vec<u8>)
    ensures
        r@ == spec_dest_binary_ext(*model),
{
    match model {
        DriverConfig::Kmdf(_) => "sys".as_bytes_vec(),
        DriverConfig::Wdm => "sys".as_bytes_vec(),
        DriverConfig::Umdf(_) => "dll".as_bytes_vec(),
    }
}

/// The packaged binary extension depends on the driver framework alone:
/// `sys` for kernel-mode models, `dll` for user-mode ones.  No architecture
/// enters the definition.
pub proof fn lemma_dest_binary_ext_by_model(model: DriverConfig)
    ensures
        model is Umdf ==> spec_dest_binary_ext(model) == "dll".spec_bytes(),
        !(model is Umdf) ==> spec_dest_binary_ext(model) == "sys".spec_bytes(),
{
}

/// The operating-system mapping is exactly one of two strings: `10_x64` for
/// amd64 and `Server10_arm64` for arm64.
pub proof fn lemma_os_mapping_values(arch: CpuArchitecture)
    ensures
        arch is Amd64 ==> spec_os_mapping(arch) == "10_x64".spec_bytes(),
        arch is Arm64 ==> spec_os_mapping(arch) == "Server10_arm64".spec_bytes(),
{
}

} // verus!
