//! Tests of the INX sample-class scanner.

use wdk_packager::inx::InxUtf8Error;
use wdk_packager::task::PackageTask;

fn run_scanner_case(content: &str, i: usize, expected: Result<bool, InxUtf8Error>) {
    let result = PackageTask::reader_has_sample_class(content.as_bytes());
    assert_eq!(
        result, expected,
        "Expected {:?}, got {:?}. Test case: {}, content:\n{}",
        expected, result, i, content
    );
}

#[test]
fn for_inx_containing_sample_class_returns_true() {
    const SAMPLE_CLASS_INX_FILES: &[&str] = &[
        // Basic sample class
        r#"[Version]
Signature   = "$WINDOWS NT$"
Class       = Sample
ClassGuid   = {78A1C341-4539-11d3-B88D-00C04FAD5171}
Provider    = %ProviderString%"#,
        // Case insensitive
        r#"[version]
Signature   = "$WINDOWS NT$"
CLASS       = SAMPLE
Provider    = %ProviderString%"#,
        // With whitespace
        r#"[Version]
Signature   = "$WINDOWS NT$"
  Class   =   Sample
Provider    = %ProviderString%"#,
        // With comments and empty lines
        r#"; This is a comment
[Version]
; Another comment
Signature   = "$WINDOWS NT$"

Class       = Sample
; Final comment
Provider    = %ProviderString%"#,
        // Multiple sections - only check Version section
        r#"[SomeOtherSection]
Class = NotSample

[Version]
Signature   = "$WINDOWS NT$"
Class       = Sample
Provider    = %ProviderString%

[AnotherSection]
Class = AlsoNotSample"#,
        // Complex real-world example
        r#";===================================================================
; Sample KMDF Driver
; Copyright (c) Microsoft Corporation
;===================================================================

[Version]
Signature   = "$WINDOWS NT$"
Class       = Sample
ClassGuid   = {78A1C341-4539-11d3-B88D-00C04FAD5171}
Provider    = %ProviderString%
PnpLockDown = 1

[DestinationDirs]
DefaultDestDir = 13

[SourceDisksNames]
1 = %DiskId1%,,,""

[SourceDisksFiles]
sample_kmdf_driver.sys = 1,,"#,
    ];

    for (i, content) in SAMPLE_CLASS_INX_FILES.iter().enumerate() {
        run_scanner_case(content, i, Ok(true));
    }
}

#[test]
fn for_inx_not_containing_sample_class_returns_false() {
    const NON_SAMPLE_CLASS_CONTENT: &[&str] = &[
        // Different class name
        r#"[Version]
Signature   = "$WINDOWS NT$"
Class       = Custom Sample Device Class
ClassGuid   = {C5D55F57-9A34-4E34-B1A0-8A10BDE938D6}
Provider    = %ManufacturerName%"#,
        // No version section
        r#"[SomeSection]
Signature   = "$WINDOWS NT$"
Class       = Sample
Provider    = %ProviderString%"#,
        // No class in version
        r#"[Version]
Signature   = "$WINDOWS NT$"
Provider    = %ProviderString%"#,
        // Empty content
        "",
        // Only comments
        r#";Only comments
; No actual content
; Just comments everywhere"#,
        // Class without value
        r#"[Version]
Signature   = "$WINDOWS NT$"
Class =
Provider    = %ProviderString%"#,
        // Class with 'Sample' as substring but not exact match
        r#"[Version]
Signature   = "$WINDOWS NT$"
Class = SampleDevice
Provider    = %ProviderString%"#,
        // Complex non-sample example
        r#";
; kmdf_driver.inf
;

[Version]
Signature   = "$WINDOWS NT$"
Class       = Custom Sample Device Class
ClassGuid   = {C5D55F57-9A34-4E34-B1A0-8A10BDE938D6}
Provider    = %ManufacturerName%
CatalogFile = kmdf_driver.cat
DriverVer   = ; TODO: set DriverVer in stampinf property pages
PnpLockdown = 1"#,
    ];

    for (i, content) in NON_SAMPLE_CLASS_CONTENT.iter().enumerate() {
        run_scanner_case(content, i, Ok(false));
    }
}

#[test]
fn for_malformed_inx_returns_false() {
    const MALFORMED_CONTENT: &[&str] = &[
        // Malformed key-value but valid Class=Sample later
        r#"[Version]
Signature   = "$WINDOWS NT$"
Class
Provider    = %ProviderString%
Class = Sample"#,
        // Multiple equals signs (should not match because value becomes "Sample = Extra")
        r#"[Version]
Signature   = "$WINDOWS NT$"
Class = Sample = Extra
Provider    = %ProviderString%"#,
        // Nested brackets (malformed but should still parse)
        r#"[Version]
Signature   = "$WINDOWS NT$"
Class = Sample
[Nested]
Provider    = %ProviderString%"#,
        // Missing closing bracket
        r#"[Version
Signature   = "$WINDOWS NT$"
Class = Sample
Provider    = %ProviderString%"#,
        // Multiple Version sections (should use first one)
        r#"[Version]
Class = Sample

[Version]
Class = NotSample"#,
    ];

    // For malformed content, we expect specific behaviors:
    let expected_results = [
        true,  // Should find valid Class=Sample despite malformed line
        false, // Multiple equals should not match
        true,  // Should still find Class=Sample despite nested section
        false, // A header without its closing bracket opens no version section
        true,  // Should use first Version section
    ];

    for (i, (content, expected)) in MALFORMED_CONTENT
        .iter()
        .zip(expected_results.iter())
        .enumerate()
    {
        run_scanner_case(content, i, Ok(*expected));
    }
}

#[test]
fn scanner_reports_invalid_utf8_only_when_reached() {
    // The scan is lazy: a match before the bad line wins ...
    let mut early_match = b"[Version]\nClass = Sample\n".to_vec();
    early_match.extend_from_slice(&[0xff, 0xfe, b'\n']);
    assert_eq!(
        PackageTask::reader_has_sample_class(&early_match),
        Ok(true)
    );

    // ... while a bad line before any match stops the scan.
    let mut early_garbage = vec![0xff, 0xfe, b'\n'];
    early_garbage.extend_from_slice(b"[Version]\nClass = Sample\n");
    assert_eq!(
        PackageTask::reader_has_sample_class(&early_garbage),
        Err(InxUtf8Error {})
    );
}

#[test]
fn scanner_handles_crlf_line_endings() {
    let content = b"[Version]\r\nClass = Sample\r\n";
    assert_eq!(PackageTask::reader_has_sample_class(content), Ok(true));
}

#[test]
fn inx_has_sample_class_maps_utf8_failure_to_file_error() {
    let garbage = [0x80u8, 0x80, 0x80];
    let result = PackageTask::inx_has_sample_class(&garbage);
    let failure = result.expect_err("expected a file-level error");
    assert_eq!(
        failure.message,
        b"stream did not contain valid UTF-8".to_vec()
    );
}
