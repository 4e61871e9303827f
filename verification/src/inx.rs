//! The INX sample-class scanner.
//!
//! An INF-style template is scanned line by line for a `Class = Sample`
//! declaration inside the first `[Version]` section.  Keys, values and the
//! section name are compared ASCII case-insensitively after trimming; blank
//! lines and `;` comments are skipped; any other `[...]` header leaves the
//! version section.  The first match wins.  A line that is not valid UTF-8
//! text stops the scan with an error, but only when the scan reaches it.

use vstd::prelude::*;
use vstd::slice::slice_subrange;
use vstd::string::StringSliceAdditionalSpecFns;
use vstd::string::StrSliceExecFns;
use vstd::utf8::valid_utf8;

use crate::bytestr::find_byte;
use crate::bytestr::find_byte_in;
use crate::bytestr::lemma_find_byte;
use crate::bytestr::lower;
use crate::bytestr::slice_eq;
use crate::bytestr::to_lower;
use crate::bytestr::trim;
use crate::bytestr::trim_slice;
use crate::bytestr::views_of;
use crate::encoding::is_valid_utf8;
use crate::error::FileOpFailure;
use crate::task::PackageTask;

verus! {

/// The lines of `s` with the open line `cur` in front: lines are separated
/// by line feeds, and a trailing line feed opens no empty final line.
pub open spec fn spec_lines_from(s: Seq<u8>, cur: Seq<u8>) -> Seq<Seq<u8>>
    decreases s.len(),
{
    if s.len() == 0 {
        if cur.len() == 0 {
            seq![]
        } else {
            seq![cur]
        }
    } else if s[0] == 0x0a {
        seq![cur] + spec_lines_from(s.skip(1), seq![])
    } else {
        spec_lines_from(s.skip(1), cur.push(s[0]))
    }
}

/// The lines of a byte string.
pub open spec fn spec_lines(s: Seq<u8>) -> Seq<Seq<u8>> {
    spec_lines_from(s, seq![])
}

/// The line is blank or a `;` comment after trimming.
pub open spec fn spec_line_is_blank_or_comment(line: Seq<u8>) -> bool {
    trim(line).len() == 0 || trim(line)[0] == 0x3b
}

/// The trimmed line equals `[version]` ASCII case-insensitively.
pub open spec fn spec_line_is_version_header(line: Seq<u8>) -> bool {
    lower(trim(line)) == "[version]".spec_bytes()
}

/// The trimmed line is a `[...]` section header.
pub open spec fn spec_line_is_section_header(line: Seq<u8>) -> bool {
    let t = trim(line);
    t.len() > 0 && t[0] == 0x5b && t[t.len() - 1] == 0x5d
}

/// The trimmed line is `key = value` on the first `=`, with key `class` and
/// value `sample` ASCII case-insensitively.
pub open spec fn spec_line_declares_sample_class(line: Seq<u8>) -> bool {
    let t = trim(line);
    let k = find_byte(t, 0x3d);
    &&& k >= 0
    &&& lower(trim(t.take(k))) == "class".spec_bytes()
    &&& lower(trim(t.skip(k + 1))) == "sample".spec_bytes()
}

/// What scanning a template yields.
#[derive(Clone, Copy, Debug, PartialEq, Eq)]
pub enum ScanOutcome {
    /// A sample-class declaration stands in the first version section.
    Sample,
    /// The input ended without a match.
    NoSample,
    /// The scan reached a line that is not valid UTF-8 text.
    InvalidLine,
}

/// The scan over a sequence of lines, entered with the section state
/// `in_version`.  The checks apply in order: line validity, blank or
/// comment, version header, any other section header, key-value match.
pub open spec fn spec_scan(lines: Seq<Seq<u8>>, in_version: bool) -> ScanOutcome
    decreases lines.len(),
{
    if lines.len() == 0 {
        ScanOutcome::NoSample
    } else {
        let line = lines[0];
        let rest = lines.skip(1);
        if !valid_utf8(line) {
            ScanOutcome::InvalidLine
        } else if spec_line_is_blank_or_comment(line) {
            spec_scan(rest, in_version)
        } else if spec_line_is_version_header(line) {
            spec_scan(rest, true)
        } else if spec_line_is_section_header(line) {
            spec_scan(rest, false)
        } else if in_version && spec_line_declares_sample_class(line) {
            ScanOutcome::Sample
        } else {
            spec_scan(rest, in_version)
        }
    }
}

/// The scan over a whole template.
pub open spec fn spec_inx_scan(content: Seq<u8>) -> ScanOutcome {
    spec_scan(spec_lines(content), false)
}

/// A line of the template was not valid UTF-8 text.
#[derive(Clone, Copy, Debug, PartialEq, Eq)]
pub struct InxUtf8Error {}

/// `spec_inx_scan` as the result type the scanner returns.
pub open spec fn spec_scan_result(content: Seq<u8>) -> Result<bool, InxUtf8Error> {
    match spec_inx_scan(content) {
        ScanOutcome::Sample => Ok(true),
        ScanOutcome::NoSample => Ok(false),
        ScanOutcome::InvalidLine => Err(InxUtf8Error {  }),
    }
}

/// Splits a byte string into its lines.
pub fn split_lines(s: &[u8]) -> (r: Vec<Vec<u8>>)
    ensures
        views_of(r@) == spec_lines(s@),
{
    proof {
        assert(s@.skip(0) =~= s@);
    }
    let mut lines: Vec<Vec<u8>> = Vec::new();
    let mut cur: Vec<u8> = Vec::new();
    let mut i: usize = 0;
    while i < s.len()
        invariant
            i <= s@.len(),
            spec_lines(s@) == views_of(lines@) + spec_lines_from(s@.skip(i as int), cur@),
        decreases s@.len() - i,
    {
        proof {
            assert(s@.skip(i as int)[0] == s@[i as int]);
            assert(s@.skip(i as int).skip(1) =~= s@.skip(i + 1));
        }
        if s[i] == 0x0a {
            let ghost prev = views_of(lines@);
            let ghost line = cur@;
            lines.push(cur);
            cur = Vec::new();
            proof {
                assert(views_of(lines@) =~= prev.push(line));
                assert(prev + (seq![line] + spec_lines_from(s@.skip(i + 1), seq![])) =~= prev.push(
                    line,
                ) + spec_lines_from(s@.skip(i + 1), seq![]));
            }
        } else {
            cur.push(s[i]);
        }
        i = i + 1;
    }
    proof {
        assert(s@.skip(i as int).len() == 0);
    }
    if cur.len() > 0 {
        let ghost prev = views_of(lines@);
        let ghost line = cur@;
        lines.push(cur);
        proof {
            assert(views_of(lines@) =~= prev.push(line));
            assert(prev + seq![line] =~= prev.push(line));
        }
    } else {
        proof {
            assert(views_of(lines@) + seq![] =~= views_of(lines@));
        }
    }
    lines
}

/// Executable counterpart of `spec_line_is_blank_or_comment`.
pub fn line_is_blank_or_comment(line: &[u8]) -> (r: bool)
    ensures
        r == spec_line_is_blank_or_comment(line@),
{
    let t = trim_slice(line);
    t.len() == 0 || t[0] == 0x3b
}

/// Executable counterpart of `spec_line_is_version_header`.
pub fn line_is_version_header(line: &[u8]) -> (r: bool)
    ensures
        r == spec_line_is_version_header(line@),
{
    let lowered = to_lower(trim_slice(line));
    let header = "[version]".as_bytes_vec();
    slice_eq(lowered.as_slice(), header.as_slice())
}

/// Executable counterpart of `spec_line_is_section_header`.
pub fn line_is_section_header(line: &[u8]) -> (r: bool)
    ensures
        r == spec_line_is_section_header(line@),
{
    let t = trim_slice(line);
    t.len() > 0 && t[0] == 0x5b && t[t.len() - 1] == 0x5d
}

/// Executable counterpart of `spec_line_declares_sample_class`.
pub fn line_declares_sample_class(line: &[u8]) -> (r: bool)
    ensures
        r == spec_line_declares_sample_class(line@),
{
    let t = trim_slice(line);
    match find_byte_in(t, 0x3d) {
        None => false,
        Some(k) => {
            let tlen = t.len();
            proof {
                lemma_find_byte(t@, 0x3d);
                assert(k < tlen);
                assert(t@.subrange(0, k as int) =~= t@.take(k as int));
                assert(t@.subrange(k + 1, t@.len() as int) =~= t@.skip(k + 1));
            }
            let key = to_lower(trim_slice(slice_subrange(t, 0, k)));
            let value = to_lower(trim_slice(slice_subrange(t, k + 1, tlen)));
            let class_lit = "class".as_bytes_vec();
            let sample_lit = "sample".as_bytes_vec();
            slice_eq(key.as_slice(), class_lit.as_slice()) && slice_eq(
                value.as_slice(),
                sample_lit.as_slice(),
            )
        },
    }
}

/// Scans a sequence of lines for a sample-class declaration.
pub fn scan_lines(lines: &Vec<Vec<u8>>) -> (r: Result<bool, InxUtf8Error>)
    ensures
        r == (match spec_scan(views_of(lines@), false) {
            ScanOutcome::Sample => Ok::<bool, InxUtf8Error>(true),
            ScanOutcome::NoSample => Ok::<bool, InxUtf8Error>(false),
            ScanOutcome::InvalidLine => Err::<bool, InxUtf8Error>(InxUtf8Error {  }),
        }),
{
    proof {
        assert(views_of(lines@).skip(0) =~= views_of(lines@));
    }
    let mut in_version: bool = false;
    let mut i: usize = 0;
    while i < lines.len()
        invariant
            i <= lines@.len(),
            spec_scan(views_of(lines@), false) == spec_scan(
                views_of(lines@).skip(i as int),
                in_version,
            ),
        decreases lines@.len() - i,
    {
        let ghost rest = views_of(lines@).skip(i as int);
        proof {
            assert(rest[0] == lines@[i as int]@);
            assert(rest.skip(1) =~= views_of(lines@).skip(i + 1));
        }
        let line = lines[i].as_slice();
        if !is_valid_utf8(line) {
            return Err(InxUtf8Error {  });
        }
        if line_is_blank_or_comment(line) {
        } else if line_is_version_header(line) {
            in_version = true;
        } else if line_is_section_header(line) {
            in_version = false;
        } else if in_version && line_declares_sample_class(line) {
            return Ok(true);
        }
        i = i + 1;
    }
    proof {
        assert(views_of(lines@).skip(i as int).len() == 0);
    }
    Ok(false)
}

impl PackageTask {
    /// Scans template text, already read into memory, for a `Class = Sample`
    /// declaration inside the first `[Version]` section.
    pub fn reader_has_sample_class(content: &[u8]) -> (r: Result<bool, InxUtf8Error>)
        ensures
            r == spec_scan_result(content@),
    {
        let lines = split_lines(content);
        scan_lines(&lines)
    }

    /// Like `reader_has_sample_class`, with the UTF-8 failure reported as
    /// the file-level error the pipeline wraps.
    pub fn inx_has_sample_class(content: &[u8]) -> (r: Result<bool, FileOpFailure>)
        ensures
            spec_inx_scan(content@) == ScanOutcome::Sample ==> r == Ok::<bool, FileOpFailure>(
                true,
            ),
            spec_inx_scan(content@) == ScanOutcome::NoSample ==> r == Ok::<bool, FileOpFailure>(
                false,
            ),
            spec_inx_scan(content@) == ScanOutcome::InvalidLine ==> (r matches Err(f)
                && f.message@ == spec_invalid_utf8_message()),
    {
        match Self::reader_has_sample_class(content) {
            Ok(b) => Ok(b),
            Err(_) => Err(
                FileOpFailure { message: "stream did not contain valid UTF-8".as_bytes_vec() },
            ),
        }
    }
}

/// Empty input holds no sample-class declaration.
pub proof fn lemma_empty_input_has_no_sample_class()
    ensures
        spec_inx_scan(seq![]) == ScanOutcome::NoSample,
{
}

/// Without a `[version]` header anywhere, the scan of well-formed text
/// never finds a sample-class declaration: the key-value test is reached
/// only inside a version section.
pub proof fn lemma_no_version_section_means_no_sample(lines: Seq<Seq<u8>>)
    requires
        forall|i: int| 0 <= i < lines.len() ==> valid_utf8(#[trigger] lines[i]),
        forall|i: int| 0 <= i < lines.len() ==> !spec_line_is_version_header(#[trigger] lines[i]),
    ensures
        spec_scan(lines, false) == ScanOutcome::NoSample,
    decreases lines.len(),
{
    if lines.len() > 0 {
        let rest = lines.skip(1);
        assert forall|i: int| 0 <= i < rest.len() implies valid_utf8(#[trigger] rest[i])
            && !spec_line_is_version_header(rest[i]) by {
            assert(rest[i] == lines[i + 1]);
        }
        lemma_no_version_section_means_no_sample(rest);
    }
}

/// The message a text stream that is not valid UTF-8 is reported with.
pub open spec fn spec_invalid_utf8_message() -> Seq<u8> {
    "stream did not contain valid UTF-8".spec_bytes()
}

} // verus!
