//! Tests of the packaging pipeline state machine.

use wdk_packager::commands::CommandRequest;
use wdk_packager::commands::Tool;
use wdk_packager::error::FileOpFailure;
use wdk_packager::error::MetadataFailure;
use wdk_packager::error::PackageTaskError;
use wdk_packager::error::ToolFailure;
use wdk_packager::error::ToolOutput;
use wdk_packager::model::CpuArchitecture;
use wdk_packager::model::DriverConfig;
use wdk_packager::model::KmdfConfig;
use wdk_packager::pipeline::Action;
use wdk_packager::pipeline::Event;
use wdk_packager::pipeline::Stage;
use wdk_packager::pipeline::StepOutcome;
use wdk_packager::task::PackageTask;
use wdk_packager::task::PackageTaskParams;

fn kmdf_task(verify_signature: bool) -> PackageTask {
    PackageTask::new(&PackageTaskParams {
        package_name: b"sample-driver".to_vec(),
        working_dir: b"C:\\tmp\\sample-driver".to_vec(),
        target_dir: b"C:\\tmp\\sample-driver\\target\\debug".to_vec(),
        target_arch: CpuArchitecture::Amd64,
        verify_signature,
        driver_model: DriverConfig::Kmdf(KmdfConfig {
            kmdf_version_major: 1,
            target_kmdf_version_minor: 33,
            minimum_kmdf_version_minor: None,
        }),
    })
}

fn found(yes: bool) -> Event {
    Event::Exists { yes }
}

fn file_ok() -> Event {
    Event::FileOp { outcome: Ok(()) }
}

fn file_err(message: &str) -> Event {
    Event::FileOp {
        outcome: Err(FileOpFailure {
            message: message.as_bytes().to_vec(),
        }),
    }
}

fn tool_ok() -> Event {
    Event::ToolRun {
        outcome: Ok(ToolOutput {
            stdout: Vec::new(),
            stderr: Vec::new(),
        }),
    }
}

fn tool_ok_stdout(stdout: &[u8]) -> Event {
    Event::ToolRun {
        outcome: Ok(ToolOutput {
            stdout: stdout.to_vec(),
            stderr: Vec::new(),
        }),
    }
}

fn tool_err() -> Event {
    Event::ToolRun {
        outcome: Err(sample_tool_failure()),
    }
}

fn sample_tool_failure() -> ToolFailure {
    ToolFailure {
        exit_code: Some(1),
        stdout: b"boom".to_vec(),
        stderr: Vec::new(),
    }
}

fn run_tool(tool: Tool, args: &[&[u8]]) -> Action {
    Action::RunTool {
        request: CommandRequest {
            tool,
            args: args.iter().map(|a| a.to_vec()).collect(),
        },
    }
}

const ROOT: &[u8] = b"C:\\tmp\\sample-driver\\target\\debug\\sample_driver_package";
const INX: &[u8] = b"C:\\tmp\\sample-driver\\sample_driver.inx";
const DLL: &[u8] = b"C:\\tmp\\sample-driver\\target\\debug\\sample_driver.dll";
const SYS: &[u8] = b"C:\\tmp\\sample-driver\\target\\debug\\sample_driver.sys";
const PDB: &[u8] = b"C:\\tmp\\sample-driver\\target\\debug\\sample_driver.pdb";
const MAP: &[u8] = b"C:\\tmp\\sample-driver\\target\\debug\\deps\\sample_driver.map";
const CERT: &[u8] = b"C:\\tmp\\sample-driver\\target\\debug\\WDRLocalTestCert.cer";
const DEST_INF: &[u8] =
    b"C:\\tmp\\sample-driver\\target\\debug\\sample_driver_package\\sample_driver.inf";
const DEST_SYS: &[u8] =
    b"C:\\tmp\\sample-driver\\target\\debug\\sample_driver_package\\sample_driver.sys";
const DEST_PDB: &[u8] =
    b"C:\\tmp\\sample-driver\\target\\debug\\sample_driver_package\\sample_driver.pdb";
const DEST_MAP: &[u8] =
    b"C:\\tmp\\sample-driver\\target\\debug\\sample_driver_package\\sample_driver.map";
const DEST_CERT: &[u8] =
    b"C:\\tmp\\sample-driver\\target\\debug\\sample_driver_package\\WDRLocalTestCert.cer";
const DEST_CAT: &[u8] =
    b"C:\\tmp\\sample-driver\\target\\debug\\sample_driver_package\\sample_driver.cat";
const TIMESTAMP_URL: &[u8] = b"http://timestamp.digicert.com";

#[test]
fn end_to_end_kmdf_package_run_succeeds_in_order() {
    let task = kmdf_task(true);
    let events = vec![
        found(false), // package folder absent
        file_ok(),     // created
        found(true),  // .inx present
        file_ok(),     // rename
        file_ok(),     // copy binary
        file_ok(),     // copy pdb
        file_ok(),     // copy inf
        file_ok(),     // copy map
        tool_ok(),     // stampinf
        tool_ok(),     // inf2cat
        found(false), // cert file absent
        tool_ok_stdout(b"CertMgr Succeeded"), // store holds no such cert
        tool_ok(),     // makecert
        file_ok(),     // copy cert
        tool_ok(),     // sign binary
        tool_ok(),     // sign cat
        Event::FileRead {
            outcome: Ok(b"[Version]\nClass = Display\n".to_vec()),
        },
        tool_ok(),     // infverif
        tool_ok(),     // verify binary
        tool_ok(),     // verify cat
    ];
    let run = task.run_scripted(events);
    assert_eq!(run.outcome, Some(Ok(())));

    let expected: Vec<Action> = vec![
        Action::CheckExists { path: ROOT.to_vec() },
        Action::CreateDir { path: ROOT.to_vec() },
        Action::CheckExists { path: INX.to_vec() },
        Action::Rename { from: DLL.to_vec(), to: SYS.to_vec() },
        Action::Copy { from: SYS.to_vec(), to: DEST_SYS.to_vec() },
        Action::Copy { from: PDB.to_vec(), to: DEST_PDB.to_vec() },
        Action::Copy { from: INX.to_vec(), to: DEST_INF.to_vec() },
        Action::Copy { from: MAP.to_vec(), to: DEST_MAP.to_vec() },
        run_tool(
            Tool::StampInf,
            &[
                b"-f", DEST_INF, b"-d", b"*", b"-a", b"amd64", b"-c", b"sample_driver.cat",
                b"-v", b"*", b"-k", b"1.33",
            ],
        ),
        run_tool(
            Tool::Inf2Cat,
            &[
                b"/driver:C:\\tmp\\sample-driver\\target\\debug\\sample_driver_package",
                b"/os:10_x64",
                b"/uselocaltime",
            ],
        ),
        Action::CheckExists { path: CERT.to_vec() },
        run_tool(Tool::CertMgr, &[b"-s", b"WDRTestCertStore"]),
        run_tool(
            Tool::MakeCert,
            &[
                b"-r", b"-pe", b"-a", b"SHA256", b"-eku", b"1.3.6.1.5.5.7.3.3", b"-ss",
                b"WDRTestCertStore", b"-n", b"CN=WDRLocalTestCert", CERT,
            ],
        ),
        Action::Copy { from: CERT.to_vec(), to: DEST_CERT.to_vec() },
        run_tool(
            Tool::SignTool,
            &[
                b"sign", b"/v", b"/s", b"WDRTestCertStore", b"/n", b"WDRLocalTestCert", b"/t",
                TIMESTAMP_URL, b"/fd", b"SHA256", DEST_SYS,
            ],
        ),
        run_tool(
            Tool::SignTool,
            &[
                b"sign", b"/v", b"/s", b"WDRTestCertStore", b"/n", b"WDRLocalTestCert", b"/t",
                TIMESTAMP_URL, b"/fd", b"SHA256", DEST_CAT,
            ],
        ),
        Action::ReadFile { path: INX.to_vec() },
        run_tool(Tool::InfVerif, &[b"/v", b"/w", DEST_INF]),
        run_tool(Tool::SignTool, &[b"verify", b"/v", b"/pa", DEST_SYS]),
        run_tool(Tool::SignTool, &[b"verify", b"/v", b"/pa", DEST_CAT]),
    ];
    assert_eq!(run.actions, expected);
}

#[test]
fn a_failed_stage_requests_nothing_further() {
    let task = kmdf_task(true);
    let up_to_stampinf = vec![
        found(true), // package folder already there
        found(true), // .inx present
        file_ok(),    // rename
        file_ok(),    // copy binary
        file_ok(),    // copy pdb
        file_ok(),    // copy inf
        file_ok(),    // copy map
        tool_err(),   // stampinf fails
    ];
    let mut with_noise = clone_events(&up_to_stampinf);
    with_noise.push(tool_ok());
    with_noise.push(file_ok());
    with_noise.push(found(true));

    let run = task.run_scripted(up_to_stampinf);
    assert_eq!(run.actions.len(), 8);
    assert!(matches!(
        run.outcome,
        Some(Err(PackageTaskError::StampinfCommand { .. }))
    ));

    // Later provider responses change nothing once the run has failed.
    let noisy = task.run_scripted(with_noise);
    assert_eq!(noisy.actions, run.actions);
    assert_eq!(noisy.outcome, run.outcome);
}

fn clone_events(events: &[Event]) -> Vec<Event> {
    events
        .iter()
        .map(|e| match e {
            Event::Exists { yes } => Event::Exists { yes: *yes },
            Event::FileOp { outcome } => Event::FileOp {
                outcome: outcome.clone(),
            },
            Event::FileRead { outcome } => Event::FileRead {
                outcome: outcome.clone(),
            },
            Event::ToolRun { outcome } => Event::ToolRun {
                outcome: outcome.clone(),
            },
            Event::BuildNumber { outcome } => Event::BuildNumber {
                outcome: outcome.clone(),
            },
        })
        .collect()
}

#[test]
fn an_existing_certificate_file_skips_every_certificate_tool() {
    let task = kmdf_task(false);
    let outcome = task.step(Stage::CheckCertFile, found(true));
    match outcome {
        StepOutcome::Continue { next, action } => {
            assert_eq!(next, Stage::CopyCert);
            assert_eq!(
                action,
                Action::Copy { from: CERT.to_vec(), to: DEST_CERT.to_vec() }
            );
        }
        other => panic!("expected a continuation, got {:?}", other),
    }
}

#[test]
fn a_certificate_found_in_the_store_is_exported_not_regenerated() {
    let task = kmdf_task(false);
    let outcome = task.step(
        Stage::CheckCertStore,
        tool_ok_stdout(b"1 WDRLocalTestCert\nCertMgr Succeeded"),
    );
    match outcome {
        StepOutcome::Continue { next, action } => {
            assert_eq!(next, Stage::ExportCertFromStore);
            assert_eq!(
                action,
                run_tool(
                    Tool::CertMgr,
                    &[
                        b"-put", b"-s", b"WDRTestCertStore", b"-c", b"-n", b"WDRLocalTestCert",
                        CERT,
                    ],
                )
            );
        }
        other => panic!("expected a continuation, got {:?}", other),
    }
}

#[test]
fn certmgr_output_that_is_not_utf8_is_its_own_error() {
    let task = kmdf_task(false);
    let outcome = task.step(Stage::CheckCertStore, tool_ok_stdout(&[0xff, 0xfe, 0x00]));
    match outcome {
        StepOutcome::Failed {
            error: PackageTaskError::VerifyCertExistsInStoreInvalidCommandOutput { stdout },
        } => {
            assert_eq!(stdout, vec![0xff, 0xfe, 0x00]);
        }
        other => panic!("expected the invalid-output error, got {:?}", other),
    }
}

#[test]
fn sample_class_on_a_buggy_wdk_build_skips_infverif_and_succeeds() {
    let task = kmdf_task(false);
    let events = vec![
        found(true), // package folder
        found(true), // .inx present
        file_ok(),
        file_ok(),
        file_ok(),
        file_ok(),
        file_ok(),
        tool_ok(), // stampinf
        tool_ok(), // inf2cat
        found(true), // cert file already there
        file_ok(), // copy cert
        tool_ok(), // sign binary
        tool_ok(), // sign cat
        Event::FileRead {
            outcome: Ok(b"[Version]\nClass = Sample\n".to_vec()),
        },
        Event::BuildNumber { outcome: Ok(25798) },
    ];
    let run = task.run_scripted(events);
    assert_eq!(run.outcome, Some(Ok(())));
    // The last requested action is the WDK build lookup: infverif never runs.
    assert_eq!(run.actions.last(), Some(&Action::DetectWdkBuildNumber));
    let infverif_requested = run.actions.iter().any(|a| match a {
        Action::RunTool { request } => request.tool == Tool::InfVerif,
        _ => false,
    });
    assert!(!infverif_requested);
}

#[test]
fn sample_class_on_a_good_wdk_build_adds_the_msft_flag() {
    let task = kmdf_task(false);
    let outcome = task.step(Stage::DetectWdkBuild, Event::BuildNumber { outcome: Ok(25100) });
    match outcome {
        StepOutcome::Continue { next, action } => {
            assert_eq!(next, Stage::RunInfVerif { sample_class: true });
            assert_eq!(
                action,
                run_tool(Tool::InfVerif, &[b"/v", b"/w", b"/msft", DEST_INF])
            );
        }
        other => panic!("expected a continuation, got {:?}", other),
    }
}

#[test]
fn a_missing_inx_file_fails_before_any_subprocess() {
    let task = kmdf_task(false);
    let run = task.run_scripted(vec![found(true), found(false)]);
    assert_eq!(
        run.outcome,
        Some(Err(PackageTaskError::MissingInxSrcFile { path: INX.to_vec() }))
    );
    let any_tool = run.actions.iter().any(|a| matches!(a, Action::RunTool { .. }));
    assert!(!any_tool);
}

#[test]
fn each_failing_stage_reports_its_own_error() {
    let task = kmdf_task(true);

    let r = task.step(Stage::CreatePackageDir, file_err("denied"));
    assert!(matches!(
        r,
        StepOutcome::Failed { error: PackageTaskError::Io { .. } }
    ));

    let r = task.step(Stage::RenameBinary, file_err("missing"));
    match r {
        StepOutcome::Failed {
            error: PackageTaskError::RenameFile { from, to, failure },
        } => {
            assert_eq!(from, DLL.to_vec());
            assert_eq!(to, SYS.to_vec());
            assert_eq!(failure.message, b"missing".to_vec());
        }
        other => panic!("expected the rename error, got {:?}", other),
    }

    let r = task.step(Stage::CopyPdb, file_err("no pdb"));
    match r {
        StepOutcome::Failed {
            error: PackageTaskError::CopyFile { from, to, .. },
        } => {
            assert_eq!(from, PDB.to_vec());
            assert_eq!(to, DEST_PDB.to_vec());
        }
        other => panic!("expected the copy error, got {:?}", other),
    }

    let r = task.step(Stage::RunInf2Cat, tool_err());
    assert!(matches!(
        r,
        StepOutcome::Failed { error: PackageTaskError::Inf2CatCommand { .. } }
    ));

    let r = task.step(Stage::CheckCertStore, tool_err());
    assert!(matches!(
        r,
        StepOutcome::Failed { error: PackageTaskError::VerifyCertExistsInStoreCommand { .. } }
    ));

    let r = task.step(Stage::ExportCertFromStore, tool_err());
    assert!(matches!(
        r,
        StepOutcome::Failed { error: PackageTaskError::CreateCertFileFromStoreCommand { .. } }
    ));

    let r = task.step(Stage::GenerateCertInStore, tool_err());
    assert!(matches!(
        r,
        StepOutcome::Failed { error: PackageTaskError::CertGenerationInStoreCommand { .. } }
    ));

    let r = task.step(Stage::SignBinary, tool_err());
    match r {
        StepOutcome::Failed {
            error: PackageTaskError::DriverBinarySignCommand { file, .. },
        } => assert_eq!(file, DEST_SYS.to_vec()),
        other => panic!("expected the sign error, got {:?}", other),
    }

    let r = task.step(Stage::SignCat, tool_err());
    match r {
        StepOutcome::Failed {
            error: PackageTaskError::DriverBinarySignCommand { file, .. },
        } => assert_eq!(file, DEST_CAT.to_vec()),
        other => panic!("expected the sign error, got {:?}", other),
    }

    let r = task.step(
        Stage::ReadInxForVerif,
        Event::FileRead {
            outcome: Err(FileOpFailure { message: b"gone".to_vec() }),
        },
    );
    assert!(matches!(
        r,
        StepOutcome::Failed { error: PackageTaskError::FileIo { .. } }
    ));

    let r = task.step(
        Stage::DetectWdkBuild,
        Event::BuildNumber {
            outcome: Err(MetadataFailure { message: b"no wdk".to_vec() }),
        },
    );
    assert!(matches!(
        r,
        StepOutcome::Failed { error: PackageTaskError::WdkBuildConfig { .. } }
    ));

    let r = task.step(Stage::RunInfVerif { sample_class: false }, tool_err());
    assert!(matches!(
        r,
        StepOutcome::Failed { error: PackageTaskError::InfVerificationCommand { .. } }
    ));

    let r = task.step(Stage::VerifySignatureBinary, tool_err());
    match r {
        StepOutcome::Failed {
            error: PackageTaskError::DriverBinarySignVerificationCommand { file, .. },
        } => assert_eq!(file, DEST_SYS.to_vec()),
        other => panic!("expected the verification error, got {:?}", other),
    }
}

#[test]
fn skipping_signature_verification_completes_after_infverif() {
    let task = kmdf_task(false);
    let r = task.step(Stage::RunInfVerif { sample_class: false }, tool_ok());
    assert!(matches!(r, StepOutcome::Complete));

    let with_verify = kmdf_task(true);
    let r = with_verify.step(Stage::RunInfVerif { sample_class: false }, tool_ok());
    match r {
        StepOutcome::Continue { next, .. } => assert_eq!(next, Stage::VerifySignatureBinary),
        other => panic!("expected a continuation, got {:?}", other),
    }
}
