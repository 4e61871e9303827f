//! Path and name derivation for one driver packaging run.
//!
//! From a package name, a working directory, a build target directory, a CPU
//! architecture and a driver model, a `PackageTask` derives every source and
//! destination path of the driver package, the `inf2cat` operating-system
//! mapping, and the well-known certificate store and certificate names.  The
//! derivation is pure; the directory that receives the package is created by
//! the first two stages of the pipeline (see the `pipeline` module).

use vstd::prelude::*;
use vstd::string::StringSliceAdditionalSpecFns;
use vstd::string::StrSliceExecFns;
use vstd::slice::slice_to_vec;

use crate::bytestr::push_bytes;
use crate::model::CpuArchitecture;
use crate::model::DriverConfig;
use crate::model::spec_os_mapping;
use crate::model::spec_dest_binary_ext;
use crate::model::os_mapping;
use crate::model::dest_binary_ext;

verus! {

/// Separator between the components of a path.
pub const PATH_SEPARATOR: u8 = 0x5c;

/// Separator between a file stem and its extension.
pub const EXTENSION_SEPARATOR: u8 = 0x2e;

/// The package name with every hyphen replaced by an underscore.
pub open spec fn spec_normalize_name(s: Seq<u8>) -> Seq<u8> {
    s.map_values(|b: u8| if b == 0x2d { 0x5f as u8 } else { b })
}

/// `dir` extended by one path component.
pub open spec fn spec_path_join(dir: Seq<u8>, file: Seq<u8>) -> Seq<u8> {
    if dir.len() == 0 {
        file
    } else {
        dir + seq![PATH_SEPARATOR] + file
    }
}

/// `stem` with the extension `ext`.
pub open spec fn spec_file_name(stem: Seq<u8>, ext: Seq<u8>) -> Seq<u8> {
    stem + seq![EXTENSION_SEPARATOR] + ext
}

/// Executable hyphen-to-underscore normalization of a package name.
pub fn normalize_name(s: &[u8]) -> (r: Vec<u8>)
    ensures
        r@ == spec_normalize_name(s@),
{
    let mut out: Vec<u8> = Vec::new();
    let mut i: usize = 0;
    while i < s.len()
        invariant
            i <= s@.len(),
            out@ == spec_normalize_name(s@.take(i as int)),
        decreases s@.len() - i,
    {
        let b = s[i];
        let nb: u8 = if b == 0x2d {
            0x5f
        } else {
            b
        };
        out.push(nb);
        proof {
            assert(spec_normalize_name(s@.take(i + 1)) =~= spec_normalize_name(
                s@.take(i as int),
            ).push(if s@[i as int] == 0x2d { 0x5f as u8 } else { s@[i as int] }));
        }
        i = i + 1;
    }
    proof {
        assert(s@.take(s@.len() as int) =~= s@);
    }
    out
}

/// Executable path join.
pub fn path_join(dir: &[u8], file: &[u8]) -> (r: Vec<u8>)
    ensures
        r@ == spec_path_join(dir@, file@),
{
    if dir.len() == 0 {
        slice_to_vec(file)
    } else {
        let mut out: Vec<u8> = Vec::new();
        push_bytes(&mut out, dir);
        out.push(PATH_SEPARATOR);
        push_bytes(&mut out, file);
        proof {
            assert(out@ =~= spec_path_join(dir@, file@));
        }
        out
    }
}

/// Executable file-name construction.
pub fn file_name(stem: &[u8], ext: &[u8]) -> (r: Vec<u8>)
    ensures
        r@ == spec_file_name(stem@, ext@),
{
    let mut out: Vec<u8> = Vec::new();
    push_bytes(&mut out, stem);
    out.push(EXTENSION_SEPARATOR);
    push_bytes(&mut out, ext);
    proof {
        assert(out@ =~= spec_file_name(stem@, ext@));
    }
    out
}

/// The inputs of one packaging run.
#[derive(Clone, Debug, PartialEq, Eq)]
pub struct PackageTaskParams {
    /// The raw package name; it may contain hyphens.
    pub package_name: Vec<u8>,
    /// The directory holding the `.inx` source template.
    pub working_dir: Vec<u8>,
    /// The build output directory holding the compiled driver binary.
    pub target_dir: Vec<u8>,
    /// The CPU architecture the driver was built for.
    pub target_arch: CpuArchitecture,
    /// Whether signatures are verified after signing.
    pub verify_signature: bool,
    /// The driver framework and its version numbers.
    pub driver_model: DriverConfig,
}

/// One packaging run: the normalized name, every derived path, and the
/// constants the stages hand to the external tools.
#[derive(Clone, Debug, PartialEq, Eq)]
pub struct PackageTask {
    /// The hyphen-free package name.
    pub package_name: Vec<u8>,
    /// Whether signatures are verified after signing.
    pub verify_signature: bool,
    /// `{working_dir}\{name}.inx`, the INF template.
    pub src_inx_file_path: Vec<u8>,
    /// `{target_dir}\{name}.dll`, the binary as the build produced it.
    pub src_driver_binary_file_path: Vec<u8>,
    /// `{target_dir}\{name}.{ext}`, the binary after renaming.
    pub src_renamed_driver_binary_file_path: Vec<u8>,
    /// `{target_dir}\{name}.pdb`.
    pub src_pdb_file_path: Vec<u8>,
    /// `{target_dir}\deps\{name}.map`.
    pub src_map_file_path: Vec<u8>,
    /// `{target_dir}\{cert name}.cer`, where the certificate file is kept.
    pub src_cert_file_path: Vec<u8>,
    /// `{target_dir}\{name}_package`, the package folder.
    pub dest_root_package_folder: Vec<u8>,
    /// `{package folder}\{name}.inf`.
    pub dest_inf_file_path: Vec<u8>,
    /// `{package folder}\{name}.{ext}`.
    pub dest_driver_binary_path: Vec<u8>,
    /// `{package folder}\{name}.pdb`.
    pub dest_pdb_file_path: Vec<u8>,
    /// `{package folder}\{name}.map`.
    pub dest_map_file_path: Vec<u8>,
    /// `{package folder}\{cert name}.cer`.
    pub dest_cert_file_path: Vec<u8>,
    /// `{package folder}\{name}.cat`.
    pub dest_cat_file_path: Vec<u8>,
    /// The CPU architecture the driver was built for.
    pub arch: CpuArchitecture,
    /// The `inf2cat /os:` mapping derived from the architecture.
    pub os_mapping: Vec<u8>,
    /// The driver framework and its version numbers.
    pub driver_model: DriverConfig,
    /// The well-known certificate store the pipeline works against.
    pub cert_store_name: Vec<u8>,
    /// The well-known certificate name the pipeline works against.
    pub cert_name: Vec<u8>,
}

/// All fields of `task` are derived from `params` by the naming convention:
/// hyphens become underscores, the binary extension follows the driver model,
/// and every artifact of the package keeps the normalized name as its stem.
pub open spec fn spec_derived_from(task: PackageTask, params: PackageTaskParams) -> bool {
    let name = spec_normalize_name(params.package_name@);
    let wd = params.working_dir@;
    let td = params.target_dir@;
    let ext = spec_dest_binary_ext(params.driver_model);
    let root = spec_path_join(td, name + "_package".spec_bytes());
    let cert = spec_file_name("WDRLocalTestCert".spec_bytes(), "cer".spec_bytes());
    &&& task.package_name@ == name
    &&& task.verify_signature == params.verify_signature
    &&& task.src_inx_file_path@ == spec_path_join(wd, spec_file_name(name, "inx".spec_bytes()))
    &&& task.src_driver_binary_file_path@ == spec_path_join(
        td,
        spec_file_name(name, "dll".spec_bytes()),
    )
    &&& task.src_renamed_driver_binary_file_path@ == spec_path_join(td, spec_file_name(name, ext))
    &&& task.src_pdb_file_path@ == spec_path_join(td, spec_file_name(name, "pdb".spec_bytes()))
    &&& task.src_map_file_path@ == spec_path_join(
        spec_path_join(td, "deps".spec_bytes()),
        spec_file_name(name, "map".spec_bytes()),
    )
    &&& task.src_cert_file_path@ == spec_path_join(td, cert)
    &&& task.dest_root_package_folder@ == root
    &&& task.dest_inf_file_path@ == spec_path_join(root, spec_file_name(name, "inf".spec_bytes()))
    &&& task.dest_driver_binary_path@ == spec_path_join(root, spec_file_name(name, ext))
    &&& task.dest_pdb_file_path@ == spec_path_join(root, spec_file_name(name, "pdb".spec_bytes()))
    &&& task.dest_map_file_path@ == spec_path_join(root, spec_file_name(name, "map".spec_bytes()))
    &&& task.dest_cert_file_path@ == spec_path_join(root, cert)
    &&& task.dest_cat_file_path@ == spec_path_join(root, spec_file_name(name, "cat".spec_bytes()))
    &&& task.arch == params.target_arch
    &&& task.os_mapping@ == spec_os_mapping(params.target_arch)
    &&& task.driver_model == params.driver_model
    &&& task.cert_store_name@ == "WDRTestCertStore".spec_bytes()
    &&& task.cert_name@ == "WDRLocalTestCert".spec_bytes()
}

impl PackageTask {
    /// Derives every path of one packaging run from its parameters.
    ///
    /// The derivation itself is pure; the pipeline's opening stages create
    /// the package folder on disk.
    pub fn new(params: &PackageTaskParams) -> (r: PackageTask)
        ensures
            spec_derived_from(r, *params),
    {
        let name = normalize_name(params.package_name.as_slice());
        let ext = dest_binary_ext(&params.driver_model);
        let cert_stem = "WDRLocalTestCert".as_bytes_vec();
        let cert_file = file_name(cert_stem.as_slice(), "cer".as_bytes_vec().as_slice());
        let deps_dir = path_join(params.target_dir.as_slice(), "deps".as_bytes_vec().as_slice());

        let mut root_name = name.clone();
        push_bytes(&mut root_name, "_package".as_bytes_vec().as_slice());
        let root = path_join(params.target_dir.as_slice(), root_name.as_slice());

        let src_inx_file_path = path_join(
            params.working_dir.as_slice(),
            file_name(name.as_slice(), "inx".as_bytes_vec().as_slice()).as_slice(),
        );
        let src_driver_binary_file_path = path_join(
            params.target_dir.as_slice(),
            file_name(name.as_slice(), "dll".as_bytes_vec().as_slice()).as_slice(),
        );
        let src_renamed_driver_binary_file_path = path_join(
            params.target_dir.as_slice(),
            file_name(name.as_slice(), ext.as_slice()).as_slice(),
        );
        let src_pdb_file_path = path_join(
            params.target_dir.as_slice(),
            file_name(name.as_slice(), "pdb".as_bytes_vec().as_slice()).as_slice(),
        );
        let src_map_file_path = path_join(
            deps_dir.as_slice(),
            file_name(name.as_slice(), "map".as_bytes_vec().as_slice()).as_slice(),
        );
        let src_cert_file_path = path_join(params.target_dir.as_slice(), cert_file.as_slice());
        let dest_inf_file_path = path_join(
            root.as_slice(),
            file_name(name.as_slice(), "inf".as_bytes_vec().as_slice()).as_slice(),
        );
        let dest_driver_binary_path = path_join(
            root.as_slice(),
            file_name(name.as_slice(), ext.as_slice()).as_slice(),
        );
        let dest_pdb_file_path = path_join(
            root.as_slice(),
            file_name(name.as_slice(), "pdb".as_bytes_vec().as_slice()).as_slice(),
        );
        let dest_map_file_path = path_join(
            root.as_slice(),
            file_name(name.as_slice(), "map".as_bytes_vec().as_slice()).as_slice(),
        );
        let dest_cert_file_path = path_join(root.as_slice(), cert_file.as_slice());
        let dest_cat_file_path = path_join(
            root.as_slice(),
            file_name(name.as_slice(), "cat".as_bytes_vec().as_slice()).as_slice(),
        );

        PackageTask {
            package_name: name,
            verify_signature: params.verify_signature,
            src_inx_file_path,
            src_driver_binary_file_path,
            src_renamed_driver_binary_file_path,
            src_pdb_file_path,
            src_map_file_path,
            src_cert_file_path,
            dest_root_package_folder: root,
            dest_inf_file_path,
            dest_driver_binary_path,
            dest_pdb_file_path,
            dest_map_file_path,
            dest_cert_file_path,
            dest_cat_file_path,
            arch: params.target_arch,
            os_mapping: os_mapping(params.target_arch),
            driver_model: params.driver_model,
            cert_store_name: "WDRTestCertStore".as_bytes_vec(),
            cert_name: "WDRLocalTestCert".as_bytes_vec(),
        }
    }
}

/// The normalized package name holds no hyphen, whatever the raw name held.
pub proof fn lemma_normalized_name_has_no_hyphen(s: Seq<u8>)
    ensures
        forall|i: int|
            0 <= i < spec_normalize_name(s).len() ==> spec_normalize_name(s)[i] != 0x2d,
{
}

/// Every derived path of a task uses the hyphen-free normalized name as the
/// stem of its file-name component, and the raw name appears nowhere.
pub proof fn lemma_paths_use_normalized_name(task: PackageTask, params: PackageTaskParams)
    requires
        spec_derived_from(task, params),
    ensures
        task.package_name@ == spec_normalize_name(params.package_name@),
        forall|i: int| 0 <= i < task.package_name@.len() ==> task.package_name@[i] != 0x2d,
        task.src_inx_file_path@ == spec_path_join(
            params.working_dir@,
            spec_file_name(task.package_name@, "inx".spec_bytes()),
        ),
        task.src_driver_binary_file_path@ == spec_path_join(
            params.target_dir@,
            spec_file_name(task.package_name@, "dll".spec_bytes()),
        ),
        task.src_renamed_driver_binary_file_path@ == spec_path_join(
            params.target_dir@,
            spec_file_name(task.package_name@, spec_dest_binary_ext(params.driver_model)),
        ),
        task.src_pdb_file_path@ == spec_path_join(
            params.target_dir@,
            spec_file_name(task.package_name@, "pdb".spec_bytes()),
        ),
        task.src_map_file_path@ == spec_path_join(
            spec_path_join(params.target_dir@, "deps".spec_bytes()),
            spec_file_name(task.package_name@, "map".spec_bytes()),
        ),
        task.dest_root_package_folder@ == spec_path_join(
            params.target_dir@,
            task.package_name@ + "_package".spec_bytes(),
        ),
        task.dest_inf_file_path@ == spec_path_join(
            task.dest_root_package_folder@,
            spec_file_name(task.package_name@, "inf".spec_bytes()),
        ),
        task.dest_driver_binary_path@ == spec_path_join(
            task.dest_root_package_folder@,
            spec_file_name(task.package_name@, spec_dest_binary_ext(params.driver_model)),
        ),
        task.dest_pdb_file_path@ == spec_path_join(
            task.dest_root_package_folder@,
            spec_file_name(task.package_name@, "pdb".spec_bytes()),
        ),
        task.dest_map_file_path@ == spec_path_join(
            task.dest_root_package_folder@,
            spec_file_name(task.package_name@, "map".spec_bytes()),
        ),
        task.dest_cat_file_path@ == spec_path_join(
            task.dest_root_package_folder@,
            spec_file_name(task.package_name@, "cat".spec_bytes()),
        ),
{
    lemma_normalized_name_has_no_hyphen(params.package_name@);
}

} // verus!
