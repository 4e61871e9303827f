//! The packaging pipeline as a state machine.
//!
//! The pipeline never touches the file system or spawns a process itself.
//! Each stage names one `Action` for a driver loop to perform (an existence
//! check, a rename, a copy, a file read, a tool invocation, the WDK build
//! lookup); the driver performs it and hands back an `Event`; `step` decides
//! the next stage and action, a terminal error, or completion.  The stages
//! run in the fixed order of the packaging workflow, and a failed stage is
//! terminal: `step` requests nothing further, so no later stage's provider
//! call can be reached.

use vstd::prelude::*;
use vstd::pervasive::arbitrary;
use vstd::pervasive::unreached;
use vstd::utf8::valid_utf8;

use crate::bytestr::contains_sub;
use crate::bytestr::contains_subslice;
use crate::commands::CommandRequest;
use crate::commands::SpecCommandRequest;
use crate::encoding::is_valid_utf8;
use crate::error::FileOpFailure;
use crate::error::MetadataFailure;
use crate::error::PackageTaskError;
use crate::error::SpecPackageTaskError;
use crate::error::ToolFailure;
use crate::error::ToolOutput;
use crate::inx::ScanOutcome;
use crate::inx::spec_inx_scan;
use crate::inx::spec_invalid_utf8_message;
use crate::task::PackageTask;

verus! {

/// The first WDK build whose `infverif` lacks the samples flag; the range is
/// open-ended until the flag returns.
pub const MISSING_SAMPLE_FLAG_MIN_WDK_BUILD: u32 = 25798;

/// The named workaround predicate: this WDK build's `infverif` cannot check
/// a sample-class driver.
pub open spec fn spec_build_lacks_samples_flag(build: u32) -> bool {
    build >= MISSING_SAMPLE_FLAG_MIN_WDK_BUILD
}

/// Executable counterpart of `spec_build_lacks_samples_flag`.
pub fn build_lacks_samples_flag(build: u32) -> (r: bool)
    ensures
        r == spec_build_lacks_samples_flag(build),
{
    build >= MISSING_SAMPLE_FLAG_MIN_WDK_BUILD
}

/// One request the pipeline hands its driver loop.
#[derive(Clone, Debug, PartialEq, Eq)]
pub enum Action {
    /// Report whether a path exists.
    CheckExists { path: Vec<u8> },
    /// Create a directory.
    CreateDir { path: Vec<u8> },
    /// Move a file.
    Rename { from: Vec<u8>, to: Vec<u8> },
    /// Copy a file.
    Copy { from: Vec<u8>, to: Vec<u8> },
    /// Read a file whole.
    ReadFile { path: Vec<u8> },
    /// Run an external tool and wait for it.
    RunTool { request: CommandRequest },
    /// Detect the installed WDK build number.
    DetectWdkBuildNumber,
}

/// View of `Action`.
pub enum SpecAction {
    CheckExists { path: Seq<u8> },
    CreateDir { path: Seq<u8> },
    Rename { from: Seq<u8>, to: Seq<u8> },
    Copy { from: Seq<u8>, to: Seq<u8> },
    ReadFile { path: Seq<u8> },
    RunTool { request: SpecCommandRequest },
    DetectWdkBuildNumber,
}

impl View for Action {
    type V = SpecAction;

    open spec fn view(&self) -> SpecAction {
        match self {
            Action::CheckExists { path } => SpecAction::CheckExists { path: path@ },
            Action::CreateDir { path } => SpecAction::CreateDir { path: path@ },
            Action::Rename { from, to } => SpecAction::Rename { from: from@, to: to@ },
            Action::Copy { from, to } => SpecAction::Copy { from: from@, to: to@ },
            Action::ReadFile { path } => SpecAction::ReadFile { path: path@ },
            Action::RunTool { request } => SpecAction::RunTool { request: request@ },
            Action::DetectWdkBuildNumber => SpecAction::DetectWdkBuildNumber,
        }
    }
}

/// What the driver loop hands back after performing an action.
#[derive(Debug, PartialEq, Eq)]
pub enum Event {
    /// Outcome of `CheckExists`.
    Exists { yes: bool },
    /// Outcome of `CreateDir`, `Rename` or `Copy`.
    FileOp { outcome: Result<(), FileOpFailure> },
    /// Outcome of `ReadFile`: the file's bytes.
    FileRead { outcome: Result<Vec<u8>, FileOpFailure> },
    /// Outcome of `RunTool`: captured output on exit status zero, a
    /// `ToolFailure` when the tool could not be spawned or exited non-zero.
    ToolRun { outcome: Result<ToolOutput, ToolFailure> },
    /// Outcome of `DetectWdkBuildNumber`.
    BuildNumber { outcome: Result<u32, MetadataFailure> },
}

/// The stages of the pipeline, in the order they run.
#[derive(Clone, Copy, Debug, PartialEq, Eq)]
pub enum Stage {
    /// Does the package folder exist yet?
    CheckPackageDir,
    /// Create the package folder.
    CreatePackageDir,
    /// Fail early when the `.inx` template is absent.
    CheckInx,
    /// Rename the built `.dll` to the packaged extension.
    RenameBinary,
    /// Copy the renamed binary into the package folder.
    CopyBinary,
    /// Copy the `.pdb` into the package folder.
    CopyPdb,
    /// Copy the `.inx` into the package folder as the `.inf`.
    CopyInf,
    /// Copy the `.map` into the package folder.
    CopyMap,
    /// Stamp version, catalog and architecture metadata into the `.inf`.
    RunStampinf,
    /// Generate the catalog file from the package folder.
    RunInf2Cat,
    /// Does the certificate file already exist beside the build output?
    CheckCertFile,
    /// List the certificate store to see whether the certificate is in it.
    CheckCertStore,
    /// Export the certificate from the store to the certificate file.
    ExportCertFromStore,
    /// Generate a self-signed certificate into the store and the file.
    GenerateCertInStore,
    /// Copy the certificate file into the package folder.
    CopyCert,
    /// Sign the packaged driver binary.
    SignBinary,
    /// Sign the catalog file.
    SignCat,
    /// Read the `.inx` template to detect a sample-class driver.
    ReadInxForVerif,
    /// Look the WDK build number up (sample-class drivers only).
    DetectWdkBuild,
    /// Verify the packaged `.inf`.
    RunInfVerif { sample_class: bool },
    /// Verify the driver binary's signature (optional).
    VerifySignatureBinary,
    /// Verify the catalog file's signature (optional).
    VerifySignatureCat,
}

/// What one step of the pipeline decides.
#[derive(Debug, PartialEq, Eq)]
pub enum StepOutcome {
    /// Enter `next` and ask the driver to perform `action`.
    Continue { next: Stage, action: Action },
    /// The run is over and failed; nothing further is requested.
    Failed { error: PackageTaskError },
    /// The run is over and succeeded; nothing further is requested.
    Complete,
}

/// View of `StepOutcome`.
pub enum SpecStepOutcome {
    Continue { next: Stage, action: SpecAction },
    Failed { error: SpecPackageTaskError },
    Complete,
}

impl View for StepOutcome {
    type V = SpecStepOutcome;

    open spec fn view(&self) -> SpecStepOutcome {
        match self {
            StepOutcome::Continue { next, action } => {
                SpecStepOutcome::Continue { next: *next, action: action@ }
            },
            StepOutcome::Failed { error } => SpecStepOutcome::Failed { error: error@ },
            StepOutcome::Complete => SpecStepOutcome::Complete,
        }
    }
}

/// The action the driver loop performs while the pipeline sits in `stage`.
pub open spec fn spec_action_for(task: PackageTask, stage: Stage) -> SpecAction {
    match stage {
        Stage::CheckPackageDir => SpecAction::CheckExists {
            path: task.dest_root_package_folder@,
        },
        Stage::CreatePackageDir => SpecAction::CreateDir {
            path: task.dest_root_package_folder@,
        },
        Stage::CheckInx => SpecAction::CheckExists { path: task.src_inx_file_path@ },
        Stage::RenameBinary => SpecAction::Rename {
            from: task.src_driver_binary_file_path@,
            to: task.src_renamed_driver_binary_file_path@,
        },
        Stage::CopyBinary => SpecAction::Copy {
            from: task.src_renamed_driver_binary_file_path@,
            to: task.dest_driver_binary_path@,
        },
        Stage::CopyPdb => SpecAction::Copy {
            from: task.src_pdb_file_path@,
            to: task.dest_pdb_file_path@,
        },
        Stage::CopyInf => SpecAction::Copy {
            from: task.src_inx_file_path@,
            to: task.dest_inf_file_path@,
        },
        Stage::CopyMap => SpecAction::Copy {
            from: task.src_map_file_path@,
            to: task.dest_map_file_path@,
        },
        Stage::RunStampinf => SpecAction::RunTool { request: task.spec_stampinf_request() },
        Stage::RunInf2Cat => SpecAction::RunTool { request: task.spec_inf2cat_request() },
        Stage::CheckCertFile => SpecAction::CheckExists { path: task.src_cert_file_path@ },
        Stage::CheckCertStore => SpecAction::RunTool {
            request: task.spec_cert_store_list_request(),
        },
        Stage::ExportCertFromStore => SpecAction::RunTool {
            request: task.spec_cert_export_request(),
        },
        Stage::GenerateCertInStore => SpecAction::RunTool {
            request: task.spec_cert_generate_request(),
        },
        Stage::CopyCert => SpecAction::Copy {
            from: task.src_cert_file_path@,
            to: task.dest_cert_file_path@,
        },
        Stage::SignBinary => SpecAction::RunTool {
            request: task.spec_sign_request(task.dest_driver_binary_path@),
        },
        Stage::SignCat => SpecAction::RunTool {
            request: task.spec_sign_request(task.dest_cat_file_path@),
        },
        Stage::ReadInxForVerif => SpecAction::ReadFile { path: task.src_inx_file_path@ },
        Stage::DetectWdkBuild => SpecAction::DetectWdkBuildNumber,
        Stage::RunInfVerif { sample_class } => SpecAction::RunTool {
            request: task.spec_infverif_request(sample_class),
        },
        Stage::VerifySignatureBinary => SpecAction::RunTool {
            request: task.spec_verify_request(task.dest_driver_binary_path@),
        },
        Stage::VerifySignatureCat => SpecAction::RunTool {
            request: task.spec_verify_request(task.dest_cat_file_path@),
        },
    }
}

/// The kind of event each stage's action reports back.
pub open spec fn spec_expects(stage: Stage, event: Event) -> bool {
    match stage {
        Stage::CheckPackageDir | Stage::CheckInx | Stage::CheckCertFile => event is Exists,
        Stage::CreatePackageDir | Stage::RenameBinary | Stage::CopyBinary | Stage::CopyPdb
            | Stage::CopyInf | Stage::CopyMap | Stage::CopyCert => event is FileOp,
        Stage::RunStampinf | Stage::RunInf2Cat | Stage::CheckCertStore
            | Stage::ExportCertFromStore | Stage::GenerateCertInStore | Stage::SignBinary
            | Stage::SignCat | Stage::RunInfVerif { .. } | Stage::VerifySignatureBinary
            | Stage::VerifySignatureCat => event is ToolRun,
        Stage::ReadInxForVerif => event is FileRead,
        Stage::DetectWdkBuild => event is BuildNumber,
    }
}

/// Continuation into `stage`: the driver is asked to perform its action.
pub open spec fn spec_goto(task: PackageTask, stage: Stage) -> SpecStepOutcome {
    SpecStepOutcome::Continue { next: stage, action: spec_action_for(task, stage) }
}

/// What follows INF verification: optional signature verification, else
/// completion.
pub open spec fn spec_after_inf_verification(task: PackageTask) -> SpecStepOutcome {
    if task.verify_signature {
        spec_goto(task, Stage::VerifySignatureBinary)
    } else {
        SpecStepOutcome::Complete
    }
}

/// The full transition relation of the pipeline: what `step` decides in
/// `stage` when the driver reports `event`.
pub open spec fn spec_step(task: PackageTask, stage: Stage, event: Event) -> SpecStepOutcome
    recommends
        spec_expects(stage, event),
{
    match stage {
        Stage::CheckPackageDir => match event {
            Event::Exists { yes } => {
                if yes {
                    spec_goto(task, Stage::CheckInx)
                } else {
                    spec_goto(task, Stage::CreatePackageDir)
                }
            },
            _ => arbitrary(),
        },
        Stage::CreatePackageDir => match event {
            Event::FileOp { outcome } => match outcome {
                Ok(_) => spec_goto(task, Stage::CheckInx),
                Err(f) => SpecStepOutcome::Failed {
                    error: SpecPackageTaskError::Io {
                        path: task.dest_root_package_folder@,
                        failure: f@,
                    },
                },
            },
            _ => arbitrary(),
        },
        Stage::CheckInx => match event {
            Event::Exists { yes } => {
                if yes {
                    spec_goto(task, Stage::RenameBinary)
                } else {
                    SpecStepOutcome::Failed {
                        error: SpecPackageTaskError::MissingInxSrcFile {
                            path: task.src_inx_file_path@,
                        },
                    }
                }
            },
            _ => arbitrary(),
        },
        Stage::RenameBinary => match event {
            Event::FileOp { outcome } => match outcome {
                Ok(_) => spec_goto(task, Stage::CopyBinary),
                Err(f) => SpecStepOutcome::Failed {
                    error: SpecPackageTaskError::RenameFile {
                        from: task.src_driver_binary_file_path@,
                        to: task.src_renamed_driver_binary_file_path@,
                        failure: f@,
                    },
                },
            },
            _ => arbitrary(),
        },
        Stage::CopyBinary => match event {
            Event::FileOp { outcome } => match outcome {
                Ok(_) => spec_goto(task, Stage::CopyPdb),
                Err(f) => SpecStepOutcome::Failed {
                    error: SpecPackageTaskError::CopyFile {
                        from: task.src_renamed_driver_binary_file_path@,
                        to: task.dest_driver_binary_path@,
                        failure: f@,
                    },
                },
            },
            _ => arbitrary(),
        },
        Stage::CopyPdb => match event {
            Event::FileOp { outcome } => match outcome {
                Ok(_) => spec_goto(task, Stage::CopyInf),
                Err(f) => SpecStepOutcome::Failed {
                    error: SpecPackageTaskError::CopyFile {
                        from: task.src_pdb_file_path@,
                        to: task.dest_pdb_file_path@,
                        failure: f@,
                    },
                },
            },
            _ => arbitrary(),
        },
        Stage::CopyInf => match event {
            Event::FileOp { outcome } => match outcome {
                Ok(_) => spec_goto(task, Stage::CopyMap),
                Err(f) => SpecStepOutcome::Failed {
                    error: SpecPackageTaskError::CopyFile {
                        from: task.src_inx_file_path@,
                        to: task.dest_inf_file_path@,
                        failure: f@,
                    },
                },
            },
            _ => arbitrary(),
        },
        Stage::CopyMap => match event {
            Event::FileOp { outcome } => match outcome {
                Ok(_) => spec_goto(task, Stage::RunStampinf),
                Err(f) => SpecStepOutcome::Failed {
                    error: SpecPackageTaskError::CopyFile {
                        from: task.src_map_file_path@,
                        to: task.dest_map_file_path@,
                        failure: f@,
                    },
                },
            },
            _ => arbitrary(),
        },
        Stage::RunStampinf => match event {
            Event::ToolRun { outcome } => match outcome {
                Ok(_) => spec_goto(task, Stage::RunInf2Cat),
                Err(f) => SpecStepOutcome::Failed {
                    error: SpecPackageTaskError::StampinfCommand { failure: f@ },
                },
            },
            _ => arbitrary(),
        },
        Stage::RunInf2Cat => match event {
            Event::ToolRun { outcome } => match outcome {
                Ok(_) => spec_goto(task, Stage::CheckCertFile),
                Err(f) => SpecStepOutcome::Failed {
                    error: SpecPackageTaskError::Inf2CatCommand { failure: f@ },
                },
            },
            _ => arbitrary(),
        },
        Stage::CheckCertFile => match event {
            Event::Exists { yes } => {
                if yes {
                    spec_goto(task, Stage::CopyCert)
                } else {
                    spec_goto(task, Stage::CheckCertStore)
                }
            },
            _ => arbitrary(),
        },
        Stage::CheckCertStore => match event {
            Event::ToolRun { outcome } => match outcome {
                Ok(out) => {
                    if !valid_utf8(out.stdout@) {
                        SpecStepOutcome::Failed {
                            error:
                                SpecPackageTaskError::VerifyCertExistsInStoreInvalidCommandOutput {
                                stdout: out.stdout@,
                            },
                        }
                    } else if contains_sub(out.stdout@, task.cert_name@) {
                        spec_goto(task, Stage::ExportCertFromStore)
                    } else {
                        spec_goto(task, Stage::GenerateCertInStore)
                    }
                },
                Err(f) => SpecStepOutcome::Failed {
                    error: SpecPackageTaskError::VerifyCertExistsInStoreCommand { failure: f@ },
                },
            },
            _ => arbitrary(),
        },
        Stage::ExportCertFromStore => match event {
            Event::ToolRun { outcome } => match outcome {
                Ok(_) => spec_goto(task, Stage::CopyCert),
                Err(f) => SpecStepOutcome::Failed {
                    error: SpecPackageTaskError::CreateCertFileFromStoreCommand { failure: f@ },
                },
            },
            _ => arbitrary(),
        },
        Stage::GenerateCertInStore => match event {
            Event::ToolRun { outcome } => match outcome {
                Ok(_) => spec_goto(task, Stage::CopyCert),
                Err(f) => SpecStepOutcome::Failed {
                    error: SpecPackageTaskError::CertGenerationInStoreCommand { failure: f@ },
                },
            },
            _ => arbitrary(),
        },
        Stage::CopyCert => match event {
            Event::FileOp { outcome } => match outcome {
                Ok(_) => spec_goto(task, Stage::SignBinary),
                Err(f) => SpecStepOutcome::Failed {
                    error: SpecPackageTaskError::CopyFile {
                        from: task.src_cert_file_path@,
                        to: task.dest_cert_file_path@,
                        failure: f@,
                    },
                },
            },
            _ => arbitrary(),
        },
        Stage::SignBinary => match event {
            Event::ToolRun { outcome } => match outcome {
                Ok(_) => spec_goto(task, Stage::SignCat),
                Err(f) => SpecStepOutcome::Failed {
                    error: SpecPackageTaskError::DriverBinarySignCommand {
                        file: task.dest_driver_binary_path@,
                        failure: f@,
                    },
                },
            },
            _ => arbitrary(),
        },
        Stage::SignCat => match event {
            Event::ToolRun { outcome } => match outcome {
                Ok(_) => spec_goto(task, Stage::ReadInxForVerif),
                Err(f) => SpecStepOutcome::Failed {
                    error: SpecPackageTaskError::DriverBinarySignCommand {
                        file: task.dest_cat_file_path@,
                        failure: f@,
                    },
                },
            },
            _ => arbitrary(),
        },
        Stage::ReadInxForVerif => match event {
            Event::FileRead { outcome } => match outcome {
                Ok(content) => match spec_inx_scan(content@) {
                    ScanOutcome::Sample => spec_goto(task, Stage::DetectWdkBuild),
                    ScanOutcome::NoSample => spec_goto(
                        task,
                        Stage::RunInfVerif { sample_class: false },
                    ),
                    ScanOutcome::InvalidLine => SpecStepOutcome::Failed {
                        error: SpecPackageTaskError::FileIo {
                            path: task.src_inx_file_path@,
                            failure: crate::error::SpecFileOpFailure {
                                message: spec_invalid_utf8_message(),
                            },
                        },
                    },
                },
                Err(f) => SpecStepOutcome::Failed {
                    error: SpecPackageTaskError::FileIo {
                        path: task.src_inx_file_path@,
                        failure: f@,
                    },
                },
            },
            _ => arbitrary(),
        },
        Stage::DetectWdkBuild => match event {
            Event::BuildNumber { outcome } => match outcome {
                Ok(build) => {
                    if spec_build_lacks_samples_flag(build) {
                        spec_after_inf_verification(task)
                    } else {
                        spec_goto(task, Stage::RunInfVerif { sample_class: true })
                    }
                },
                Err(f) => SpecStepOutcome::Failed {
                    error: SpecPackageTaskError::WdkBuildConfig { failure: f@ },
                },
            },
            _ => arbitrary(),
        },
        Stage::RunInfVerif { .. } => match event {
            Event::ToolRun { outcome } => match outcome {
                Ok(_) => spec_after_inf_verification(task),
                Err(f) => SpecStepOutcome::Failed {
                    error: SpecPackageTaskError::InfVerificationCommand { failure: f@ },
                },
            },
            _ => arbitrary(),
        },
        Stage::VerifySignatureBinary => match event {
            Event::ToolRun { outcome } => match outcome {
                Ok(_) => spec_goto(task, Stage::VerifySignatureCat),
                Err(f) => SpecStepOutcome::Failed {
                    error: SpecPackageTaskError::DriverBinarySignVerificationCommand {
                        file: task.dest_driver_binary_path@,
                        failure: f@,
                    },
                },
            },
            _ => arbitrary(),
        },
        Stage::VerifySignatureCat => match event {
            Event::ToolRun { outcome } => match outcome {
                Ok(_) => SpecStepOutcome::Complete,
                Err(f) => SpecStepOutcome::Failed {
                    error: SpecPackageTaskError::DriverBinarySignVerificationCommand {
                        file: task.dest_cat_file_path@,
                        failure: f@,
                    },
                },
            },
            _ => arbitrary(),
        },
    }
}

impl PackageTask {
    /// Builds the action the driver loop performs for `stage`.
    pub fn action_for(&self, stage: Stage) -> (a: Action)
        ensures
            a@ == spec_action_for(*self, stage),
    {
        match stage {
            Stage::CheckPackageDir => Action::CheckExists {
                path: self.dest_root_package_folder.clone(),
            },
            Stage::CreatePackageDir => Action::CreateDir {
                path: self.dest_root_package_folder.clone(),
            },
            Stage::CheckInx => Action::CheckExists { path: self.src_inx_file_path.clone() },
            Stage::RenameBinary => Action::Rename {
                from: self.src_driver_binary_file_path.clone(),
                to: self.src_renamed_driver_binary_file_path.clone(),
            },
            Stage::CopyBinary => Action::Copy {
                from: self.src_renamed_driver_binary_file_path.clone(),
                to: self.dest_driver_binary_path.clone(),
            },
            Stage::CopyPdb => Action::Copy {
                from: self.src_pdb_file_path.clone(),
                to: self.dest_pdb_file_path.clone(),
            },
            Stage::CopyInf => Action::Copy {
                from: self.src_inx_file_path.clone(),
                to: self.dest_inf_file_path.clone(),
            },
            Stage::CopyMap => Action::Copy {
                from: self.src_map_file_path.clone(),
                to: self.dest_map_file_path.clone(),
            },
            Stage::RunStampinf => Action::RunTool { request: self.stampinf_request() },
            Stage::RunInf2Cat => Action::RunTool { request: self.inf2cat_request() },
            Stage::CheckCertFile => Action::CheckExists { path: self.src_cert_file_path.clone() },
            Stage::CheckCertStore => Action::RunTool { request: self.cert_store_list_request() },
            Stage::ExportCertFromStore => Action::RunTool { request: self.cert_export_request() },
            Stage::GenerateCertInStore => Action::RunTool {
                request: self.cert_generate_request(),
            },
            Stage::CopyCert => Action::Copy {
                from: self.src_cert_file_path.clone(),
                to: self.dest_cert_file_path.clone(),
            },
            Stage::SignBinary => Action::RunTool {
                request: self.sign_request(&self.dest_driver_binary_path),
            },
            Stage::SignCat => Action::RunTool {
                request: self.sign_request(&self.dest_cat_file_path),
            },
            Stage::ReadInxForVerif => Action::ReadFile { path: self.src_inx_file_path.clone() },
            Stage::DetectWdkBuild => Action::DetectWdkBuildNumber,
            Stage::RunInfVerif { sample_class } => Action::RunTool {
                request: self.infverif_request(sample_class),
            },
            Stage::VerifySignatureBinary => Action::RunTool {
                request: self.verify_request(&self.dest_driver_binary_path),
            },
            Stage::VerifySignatureCat => Action::RunTool {
                request: self.verify_request(&self.dest_cat_file_path),
            },
        }
    }

    /// Opens a packaging run: the first stage and its action.
    pub fn start(&self) -> (r: (Stage, Action))
        ensures
            r.0 == Stage::CheckPackageDir,
            r.1@ == spec_action_for(*self, Stage::CheckPackageDir),
    {
        (Stage::CheckPackageDir, self.action_for(Stage::CheckPackageDir))
    }

    /// Continues into `stage`.
    fn goto(&self, stage: Stage) -> (r: StepOutcome)
        ensures
            r@ == spec_goto(*self, stage),
    {
        StepOutcome::Continue { next: stage, action: self.action_for(stage) }
    }

    /// What follows INF verification.
    fn after_inf_verification(&self) -> (r: StepOutcome)
        ensures
            r@ == spec_after_inf_verification(*self),
    {
        if self.verify_signature {
            self.goto(Stage::VerifySignatureBinary)
        } else {
            StepOutcome::Complete
        }
    }

    /// One step of the pipeline: in `stage`, with the driver's report of the
    /// stage's action, decide the next stage and action, a terminal error,
    /// or completion.
    pub fn step(&self, stage: Stage, event: Event) -> (r: StepOutcome)
        requires
            spec_expects(stage, event),
        ensures
            r@ == spec_step(*self, stage, event),
    {
        match stage {
            Stage::CheckPackageDir => match event {
                Event::Exists { yes } => {
                    if yes {
                        self.goto(Stage::CheckInx)
                    } else {
                        self.goto(Stage::CreatePackageDir)
                    }
                },
                _ => unreached(),
            },
            Stage::CreatePackageDir => match event {
                Event::FileOp { outcome } => match outcome {
                    Ok(_) => self.goto(Stage::CheckInx),
                    Err(f) => StepOutcome::Failed {
                        error: PackageTaskError::Io {
                            path: self.dest_root_package_folder.clone(),
                            failure: f,
                        },
                    },
                },
                _ => unreached(),
            },
            Stage::CheckInx => match event {
                Event::Exists { yes } => {
                    if yes {
                        self.goto(Stage::RenameBinary)
                    } else {
                        StepOutcome::Failed {
                            error: PackageTaskError::MissingInxSrcFile {
                                path: self.src_inx_file_path.clone(),
                            },
                        }
                    }
                },
                _ => unreached(),
            },
            Stage::RenameBinary => match event {
                Event::FileOp { outcome } => match outcome {
                    Ok(_) => self.goto(Stage::CopyBinary),
                    Err(f) => StepOutcome::Failed {
                        error: PackageTaskError::RenameFile {
                            from: self.src_driver_binary_file_path.clone(),
                            to: self.src_renamed_driver_binary_file_path.clone(),
                            failure: f,
                        },
                    },
                },
                _ => unreached(),
            },
            Stage::CopyBinary => match event {
                Event::FileOp { outcome } => match outcome {
                    Ok(_) => self.goto(Stage::CopyPdb),
                    Err(f) => StepOutcome::Failed {
                        error: PackageTaskError::CopyFile {
                            from: self.src_renamed_driver_binary_file_path.clone(),
                            to: self.dest_driver_binary_path.clone(),
                            failure: f,
                        },
                    },
                },
                _ => unreached(),
            },
            Stage::CopyPdb => match event {
                Event::FileOp { outcome } => match outcome {
                    Ok(_) => self.goto(Stage::CopyInf),
                    Err(f) => StepOutcome::Failed {
                        error: PackageTaskError::CopyFile {
                            from: self.src_pdb_file_path.clone(),
                            to: self.dest_pdb_file_path.clone(),
                            failure: f,
                        },
                    },
                },
                _ => unreached(),
            },
            Stage::CopyInf => match event {
                Event::FileOp { outcome } => match outcome {
                    Ok(_) => self.goto(Stage::CopyMap),
                    Err(f) => StepOutcome::Failed {
                        error: PackageTaskError::CopyFile {
                            from: self.src_inx_file_path.clone(),
                            to: self.dest_inf_file_path.clone(),
                            failure: f,
                        },
                    },
                },
                _ => unreached(),
            },
            Stage::CopyMap => match event {
                Event::FileOp { outcome } => match outcome {
                    Ok(_) => self.goto(Stage::RunStampinf),
                    Err(f) => StepOutcome::Failed {
                        error: PackageTaskError::CopyFile {
                            from: self.src_map_file_path.clone(),
                            to: self.dest_map_file_path.clone(),
                            failure: f,
                        },
                    },
                },
                _ => unreached(),
            },
            Stage::RunStampinf => match event {
                Event::ToolRun { outcome } => match outcome {
                    Ok(_) => self.goto(Stage::RunInf2Cat),
                    Err(f) => StepOutcome::Failed {
                        error: PackageTaskError::StampinfCommand { failure: f },
                    },
                },
                _ => unreached(),
            },
            Stage::RunInf2Cat => match event {
                Event::ToolRun { outcome } => match outcome {
                    Ok(_) => self.goto(Stage::CheckCertFile),
                    Err(f) => StepOutcome::Failed {
                        error: PackageTaskError::Inf2CatCommand { failure: f },
                    },
                },
                _ => unreached(),
            },
            Stage::CheckCertFile => match event {
                Event::Exists { yes } => {
                    if yes {
                        self.goto(Stage::CopyCert)
                    } else {
                        self.goto(Stage::CheckCertStore)
                    }
                },
                _ => unreached(),
            },
            Stage::CheckCertStore => match event {
                Event::ToolRun { outcome } => match outcome {
                    Ok(out) => {
                        if !is_valid_utf8(out.stdout.as_slice()) {
                            StepOutcome::Failed {
                                error:
                                    PackageTaskError::VerifyCertExistsInStoreInvalidCommandOutput {
                                    stdout: out.stdout,
                                },
                            }
                        } else if contains_subslice(
                            out.stdout.as_slice(),
                            self.cert_name.as_slice(),
                        ) {
                            self.goto(Stage::ExportCertFromStore)
                        } else {
                            self.goto(Stage::GenerateCertInStore)
                        }
                    },
                    Err(f) => StepOutcome::Failed {
                        error: PackageTaskError::VerifyCertExistsInStoreCommand { failure: f },
                    },
                },
                _ => unreached(),
            },
            Stage::ExportCertFromStore => match event {
                Event::ToolRun { outcome } => match outcome {
                    Ok(_) => self.goto(Stage::CopyCert),
                    Err(f) => StepOutcome::Failed {
                        error: PackageTaskError::CreateCertFileFromStoreCommand { failure: f },
                    },
                },
                _ => unreached(),
            },
            Stage::GenerateCertInStore => match event {
                Event::ToolRun { outcome } => match outcome {
                    Ok(_) => self.goto(Stage::CopyCert),
                    Err(f) => StepOutcome::Failed {
                        error: PackageTaskError::CertGenerationInStoreCommand { failure: f },
                    },
                },
                _ => unreached(),
            },
            Stage::CopyCert => match event {
                Event::FileOp { outcome } => match outcome {
                    Ok(_) => self.goto(Stage::SignBinary),
                    Err(f) => StepOutcome::Failed {
                        error: PackageTaskError::CopyFile {
                            from: self.src_cert_file_path.clone(),
                            to: self.dest_cert_file_path.clone(),
                            failure: f,
                        },
                    },
                },
                _ => unreached(),
            },
            Stage::SignBinary => match event {
                Event::ToolRun { outcome } => match outcome {
                    Ok(_) => self.goto(Stage::SignCat),
                    Err(f) => StepOutcome::Failed {
                        error: PackageTaskError::DriverBinarySignCommand {
                            file: self.dest_driver_binary_path.clone(),
                            failure: f,
                        },
                    },
                },
                _ => unreached(),
            },
            Stage::SignCat => match event {
                Event::ToolRun { outcome } => match outcome {
                    Ok(_) => self.goto(Stage::ReadInxForVerif),
                    Err(f) => StepOutcome::Failed {
                        error: PackageTaskError::DriverBinarySignCommand {
                            file: self.dest_cat_file_path.clone(),
                            failure: f,
                        },
                    },
                },
                _ => unreached(),
            },
            Stage::ReadInxForVerif => match event {
                Event::FileRead { outcome } => match outcome {
                    Ok(content) => match Self::inx_has_sample_class(content.as_slice()) {
                        Ok(true) => self.goto(Stage::DetectWdkBuild),
                        Ok(false) => self.goto(Stage::RunInfVerif { sample_class: false }),
                        Err(f) => StepOutcome::Failed {
                            error: PackageTaskError::FileIo {
                                path: self.src_inx_file_path.clone(),
                                failure: f,
                            },
                        },
                    },
                    Err(f) => StepOutcome::Failed {
                        error: PackageTaskError::FileIo {
                            path: self.src_inx_file_path.clone(),
                            failure: f,
                        },
                    },
                },
                _ => unreached(),
            },
            Stage::DetectWdkBuild => match event {
                Event::BuildNumber { outcome } => match outcome {
                    Ok(build) => {
                        if build_lacks_samples_flag(build) {
                            self.after_inf_verification()
                        } else {
                            self.goto(Stage::RunInfVerif { sample_class: true })
                        }
                    },
                    Err(f) => StepOutcome::Failed {
                        error: PackageTaskError::WdkBuildConfig { failure: f },
                    },
                },
                _ => unreached(),
            },
            Stage::RunInfVerif { .. } => match event {
                Event::ToolRun { outcome } => match outcome {
                    Ok(_) => self.after_inf_verification(),
                    Err(f) => StepOutcome::Failed {
                        error: PackageTaskError::InfVerificationCommand { failure: f },
                    },
                },
                _ => unreached(),
            },
            Stage::VerifySignatureBinary => match event {
                Event::ToolRun { outcome } => match outcome {
                    Ok(_) => self.goto(Stage::VerifySignatureCat),
                    Err(f) => StepOutcome::Failed {
                        error: PackageTaskError::DriverBinarySignVerificationCommand {
                            file: self.dest_driver_binary_path.clone(),
                            failure: f,
                        },
                    },
                },
                _ => unreached(),
            },
            Stage::VerifySignatureCat => match event {
                Event::ToolRun { outcome } => match outcome {
                    Ok(_) => StepOutcome::Complete,
                    Err(f) => StepOutcome::Failed {
                        error: PackageTaskError::DriverBinarySignVerificationCommand {
                            file: self.dest_cat_file_path.clone(),
                            failure: f,
                        },
                    },
                },
                _ => unreached(),
            },
        }
    }
}

} // verus!
