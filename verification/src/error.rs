//! The pipeline's error taxonomy and provider outcome types.
//!
//! Every stage of the packaging pipeline translates the failure of a provider
//! call (a file operation, an external tool, the build-metadata lookup) into
//! one typed, terminal error.  Each exec type carries byte strings; its view
//! is the matching `Spec*` value over `Seq<u8>`.

use vstd::prelude::*;

verus! {

/// What a tool wrote when it exited successfully.
#[derive(Clone, Debug, PartialEq, Eq)]
pub struct ToolOutput {
    pub stdout: Vec<u8>,
    pub stderr: Vec<u8>,
}

/// View of `ToolOutput`.
pub struct SpecToolOutput {
    pub stdout: Seq<u8>,
    pub stderr: Seq<u8>,
}

impl View for ToolOutput {
    type V = SpecToolOutput;

    open spec fn view(&self) -> SpecToolOutput {
        SpecToolOutput { stdout: self.stdout@, stderr: self.stderr@ }
    }
}

/// Why a tool invocation failed: it could not be spawned (no exit code) or it
/// exited with a non-zero status, with whatever it wrote captured.
#[derive(Clone, Debug, PartialEq, Eq)]
pub struct ToolFailure {
    pub exit_code: Option<i32>,
    pub stdout: Vec<u8>,
    pub stderr: Vec<u8>,
}

/// View of `ToolFailure`.
pub struct SpecToolFailure {
    pub exit_code: Option<i32>,
    pub stdout: Seq<u8>,
    pub stderr: Seq<u8>,
}

impl View for ToolFailure {
    type V = SpecToolFailure;

    open spec fn view(&self) -> SpecToolFailure {
        SpecToolFailure {
            exit_code: self.exit_code,
            stdout: self.stdout@,
            stderr: self.stderr@,
        }
    }
}

/// Why a file operation failed, as the operating system reported it.
#[derive(Clone, Debug, PartialEq, Eq)]
pub struct FileOpFailure {
    pub message: Vec<u8>,
}

/// View of `FileOpFailure`.
pub struct SpecFileOpFailure {
    pub message: Seq<u8>,
}

impl View for FileOpFailure {
    type V = SpecFileOpFailure;

    open spec fn view(&self) -> SpecFileOpFailure {
        SpecFileOpFailure { message: self.message@ }
    }
}

/// Why the installed WDK build number could not be detected.
#[derive(Clone, Debug, PartialEq, Eq)]
pub struct MetadataFailure {
    pub message: Vec<u8>,
}

/// View of `MetadataFailure`.
pub struct SpecMetadataFailure {
    pub message: Seq<u8>,
}

impl View for MetadataFailure {
    type V = SpecMetadataFailure;

    open spec fn view(&self) -> SpecMetadataFailure {
        SpecMetadataFailure { message: self.message@ }
    }
}

/// The terminal result of a failed packaging run: one variant per stage,
/// each wrapping what the provider reported.
#[derive(Clone, Debug, PartialEq, Eq)]
pub enum PackageTaskError {
    /// The `.inx` source template is absent; no subprocess was attempted.
    MissingInxSrcFile { path: Vec<u8> },
    /// The package folder could not be created.
    Io { path: Vec<u8>, failure: FileOpFailure },
    /// The driver binary could not be renamed.
    RenameFile { from: Vec<u8>, to: Vec<u8>, failure: FileOpFailure },
    /// An artifact could not be copied into the package folder.
    CopyFile { from: Vec<u8>, to: Vec<u8>, failure: FileOpFailure },
    /// The `.inx` source template could not be read.
    FileIo { path: Vec<u8>, failure: FileOpFailure },
    /// `stampinf` failed.
    StampinfCommand { failure: ToolFailure },
    /// `inf2cat` failed.
    Inf2CatCommand { failure: ToolFailure },
    /// `certmgr.exe` failed while looking the certificate up in the store.
    VerifyCertExistsInStoreCommand { failure: ToolFailure },
    /// `certmgr.exe` succeeded but wrote output that is not valid UTF-8.
    VerifyCertExistsInStoreInvalidCommandOutput { stdout: Vec<u8> },
    /// `makecert` failed while generating a certificate into the store.
    CertGenerationInStoreCommand { failure: ToolFailure },
    /// `certmgr.exe` failed while exporting the certificate to a file.
    CreateCertFileFromStoreCommand { failure: ToolFailure },
    /// `signtool sign` failed on the named file.
    DriverBinarySignCommand { file: Vec<u8>, failure: ToolFailure },
    /// `signtool verify` failed on the named file.
    DriverBinarySignVerificationCommand { file: Vec<u8>, failure: ToolFailure },
    /// `infverif` failed.
    InfVerificationCommand { failure: ToolFailure },
    /// The installed WDK build number could not be detected.
    WdkBuildConfig { failure: MetadataFailure },
}

/// View of `PackageTaskError`.
pub enum SpecPackageTaskError {
    MissingInxSrcFile { path: Seq<u8> },
    Io { path: Seq<u8>, failure: SpecFileOpFailure },
    RenameFile { from: Seq<u8>, to: Seq<u8>, failure: SpecFileOpFailure },
    CopyFile { from: Seq<u8>, to: Seq<u8>, failure: SpecFileOpFailure },
    FileIo { path: Seq<u8>, failure: SpecFileOpFailure },
    StampinfCommand { failure: SpecToolFailure },
    Inf2CatCommand { failure: SpecToolFailure },
    VerifyCertExistsInStoreCommand { failure: SpecToolFailure },
    VerifyCertExistsInStoreInvalidCommandOutput { stdout: Seq<u8> },
    CertGenerationInStoreCommand { failure: SpecToolFailure },
    CreateCertFileFromStoreCommand { failure: SpecToolFailure },
    DriverBinarySignCommand { file: Seq<u8>, failure: SpecToolFailure },
    DriverBinarySignVerificationCommand { file: Seq<u8>, failure: SpecToolFailure },
    InfVerificationCommand { failure: SpecToolFailure },
    WdkBuildConfig { failure: SpecMetadataFailure },
}

impl View for PackageTaskError {
    type V = SpecPackageTaskError;

    open spec fn view(&self) -> SpecPackageTaskError {
        match self {
            PackageTaskError::MissingInxSrcFile { path } => {
                SpecPackageTaskError::MissingInxSrcFile { path: path@ }
            },
            PackageTaskError::Io { path, failure } => {
                SpecPackageTaskError::Io { path: path@, failure: failure@ }
            },
            PackageTaskError::RenameFile { from, to, failure } => {
                SpecPackageTaskError::RenameFile { from: from@, to: to@, failure: failure@ }
            },
            PackageTaskError::CopyFile { from, to, failure } => {
                SpecPackageTaskError::CopyFile { from: from@, to: to@, failure: failure@ }
            },
            PackageTaskError::FileIo { path, failure } => {
                SpecPackageTaskError::FileIo { path: path@, failure: failure@ }
            },
            PackageTaskError::StampinfCommand { failure } => {
                SpecPackageTaskError::StampinfCommand { failure: failure@ }
            },
            PackageTaskError::Inf2CatCommand { failure } => {
                SpecPackageTaskError::Inf2CatCommand { failure: failure@ }
            },
            PackageTaskError::VerifyCertExistsInStoreCommand { failure } => {
                SpecPackageTaskError::VerifyCertExistsInStoreCommand { failure: failure@ }
            },
            PackageTaskError::VerifyCertExistsInStoreInvalidCommandOutput { stdout } => {
                SpecPackageTaskError::VerifyCertExistsInStoreInvalidCommandOutput {
                    stdout: stdout@,
                }
            },
            PackageTaskError::CertGenerationInStoreCommand { failure } => {
                SpecPackageTaskError::CertGenerationInStoreCommand { failure: failure@ }
            },
            PackageTaskError::CreateCertFileFromStoreCommand { failure } => {
                SpecPackageTaskError::CreateCertFileFromStoreCommand { failure: failure@ }
            },
            PackageTaskError::DriverBinarySignCommand { file, failure } => {
                SpecPackageTaskError::DriverBinarySignCommand { file: file@, failure: failure@ }
            },
            PackageTaskError::DriverBinarySignVerificationCommand { file, failure } => {
                SpecPackageTaskError::DriverBinarySignVerificationCommand {
                    file: file@,
                    failure: failure@,
                }
            },
            PackageTaskError::InfVerificationCommand { failure } => {
                SpecPackageTaskError::InfVerificationCommand { failure: failure@ }
            },
            PackageTaskError::WdkBuildConfig { failure } => {
                SpecPackageTaskError::WdkBuildConfig { failure: failure@ }
            },
        }
    }
}

} // verus!
