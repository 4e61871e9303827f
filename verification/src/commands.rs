//! The external tool invocations of the packaging pipeline.
//!
//! Each stage that runs an external tool builds a `CommandRequest`: the tool
//! and its argument list, both as plain byte strings.  The builders are pure
//! and fully specified; argument order is fixed and significant.

use vstd::prelude::*;
use vstd::string::StringSliceAdditionalSpecFns;
use vstd::string::StrSliceExecFns;

use crate::bytestr::dec_rep;
use crate::bytestr::push_bytes;
use crate::bytestr::u8_to_dec;
use crate::bytestr::views_of;
use crate::model::CpuArchitecture;
use crate::model::DriverConfig;
use crate::model::KmdfConfig;
use crate::model::UmdfConfig;
use crate::model::arch_arg;
use crate::model::spec_arch_arg;
use crate::task::EXTENSION_SEPARATOR;
use crate::task::PackageTask;
use crate::task::file_name;
use crate::task::spec_file_name;

verus! {

/// An external tool the pipeline invokes.
#[derive(Clone, Copy, Debug, PartialEq, Eq)]
pub enum Tool {
    StampInf,
    Inf2Cat,
    CertMgr,
    MakeCert,
    SignTool,
    InfVerif,
}

/// The program name a tool is invoked under.
pub open spec fn spec_tool_program(tool: Tool) -> Seq<u8> {
    match tool {
        Tool::StampInf => "stampinf".spec_bytes(),
        Tool::Inf2Cat => "inf2cat".spec_bytes(),
        Tool::CertMgr => "certmgr.exe".spec_bytes(),
        Tool::MakeCert => "makecert".spec_bytes(),
        Tool::SignTool => "signtool".spec_bytes(),
        Tool::InfVerif => "infverif".spec_bytes(),
    }
}

/// Executable counterpart of `spec_tool_program`.
pub fn tool_program(tool: Tool) -> (r: Vec<u8>)
    ensures
        r@ == spec_tool_program(tool),
{
    match tool {
        Tool::StampInf => "stampinf".as_bytes_vec(),
        Tool::Inf2Cat => "inf2cat".as_bytes_vec(),
        Tool::CertMgr => "certmgr.exe".as_bytes_vec(),
        Tool::MakeCert => "makecert".as_bytes_vec(),
        Tool::SignTool => "signtool".as_bytes_vec(),
        Tool::InfVerif => "infverif".as_bytes_vec(),
    }
}

/// One external tool invocation: the tool and its ordered argument list.
#[derive(Clone, Debug, PartialEq, Eq)]
pub struct CommandRequest {
    pub tool: Tool,
    pub args: Vec<Vec<u8>>,
}

/// View of `CommandRequest`.
pub struct SpecCommandRequest {
    pub tool: Tool,
    pub args: Seq<Seq<u8>>,
}

impl View for CommandRequest {
    type V = SpecCommandRequest;

    open spec fn view(&self) -> SpecCommandRequest {
        SpecCommandRequest { tool: self.tool, args: views_of(self.args@) }
    }
}

/// The `maj.min` version argument of `stampinf -k`.
pub open spec fn spec_kmdf_version_arg(c: KmdfConfig) -> Seq<u8> {
    dec_rep(c.kmdf_version_major as nat) + seq![EXTENSION_SEPARATOR] + dec_rep(
        c.target_kmdf_version_minor as nat,
    )
}

/// The `maj.min.0` version argument of `stampinf -u`.
pub open spec fn spec_umdf_version_arg(c: UmdfConfig) -> Seq<u8> {
    dec_rep(c.umdf_version_major as nat) + seq![EXTENSION_SEPARATOR] + dec_rep(
        c.target_umdf_version_minor as nat,
    ) + seq![EXTENSION_SEPARATOR, 0x30]
}

/// Executable counterpart of `spec_kmdf_version_arg`.
pub fn kmdf_version_arg(c: &KmdfConfig) -> (r: Vec<u8>)
    ensures
        r@ == spec_kmdf_version_arg(*c),
{
    let mut out = u8_to_dec(c.kmdf_version_major);
    out.push(EXTENSION_SEPARATOR);
    let minor = u8_to_dec(c.target_kmdf_version_minor);
    push_bytes(&mut out, minor.as_slice());
    proof {
        assert(out@ =~= spec_kmdf_version_arg(*c));
    }
    out
}

/// Executable counterpart of `spec_umdf_version_arg`.
pub fn umdf_version_arg(c: &UmdfConfig) -> (r: Vec<u8>)
    ensures
        r@ == spec_umdf_version_arg(*c),
{
    let mut out = u8_to_dec(c.umdf_version_major);
    out.push(EXTENSION_SEPARATOR);
    let minor = u8_to_dec(c.target_umdf_version_minor);
    push_bytes(&mut out, minor.as_slice());
    out.push(EXTENSION_SEPARATOR);
    out.push(0x30);
    proof {
        assert(out@ =~= spec_umdf_version_arg(*c));
    }
    out
}

/// `path` with every leading `\\?\` long-path prefix removed.
pub open spec fn spec_strip_long_path_prefix(p: Seq<u8>) -> Seq<u8>
    decreases p.len(),
{
    if p.len() >= 4 && p[0] == 0x5c && p[1] == 0x5c && p[2] == 0x3f && p[3] == 0x5c {
        spec_strip_long_path_prefix(p.skip(4))
    } else {
        p
    }
}

/// Executable counterpart of `spec_strip_long_path_prefix`.
pub fn strip_long_path_prefix(p: &[u8]) -> (r: Vec<u8>)
    ensures
        r@ == spec_strip_long_path_prefix(p@),
{
    proof {
        assert(p@.skip(0) =~= p@);
    }
    let mut off: usize = 0;
    while off < p.len() && p.len() - off >= 4 && p[off] == 0x5c && p[off + 1] == 0x5c && p[off + 2]
        == 0x3f && p[off + 3] == 0x5c
        invariant
            off <= p@.len(),
            spec_strip_long_path_prefix(p@) == spec_strip_long_path_prefix(p@.skip(off as int)),
        decreases p@.len() - off,
    {
        proof {
            assert(p@.skip(off as int).skip(4) =~= p@.skip(off + 4));
        }
        off = off + 4;
    }
    let mut head: Vec<u8> = Vec::new();
    let mut i: usize = off;
    while i < p.len()
        invariant
            off <= i <= p@.len(),
            head@ == p@.subrange(off as int, i as int),
        decreases p@.len() - i,
    {
        head.push(p[i]);
        proof {
            assert(p@.subrange(off as int, i + 1) =~= p@.subrange(off as int, i as int).push(
                p@[i as int],
            ));
        }
        i = i + 1;
    }
    proof {
        assert(p@.subrange(off as int, p@.len() as int) =~= p@.skip(off as int));
        assert(spec_strip_long_path_prefix(p@.skip(off as int)) == p@.skip(off as int));
    }
    head
}

impl PackageTask {
    /// The `stampinf` invocation of the stamp stage:
    /// `-f <inf> -d * -a <arch> -c <cat file name> -v *`, then `-k maj.min`
    /// for KMDF, `-u maj.min.0` for UMDF, and nothing more for WDM.
    pub open spec fn spec_stampinf_request(self) -> SpecCommandRequest {
        let base = seq![
            "-f".spec_bytes(),
            self.dest_inf_file_path@,
            "-d".spec_bytes(),
            "*".spec_bytes(),
            "-a".spec_bytes(),
            spec_arch_arg(self.arch),
            "-c".spec_bytes(),
            spec_file_name(self.package_name@, "cat".spec_bytes()),
            "-v".spec_bytes(),
            "*".spec_bytes(),
        ];
        let args = match self.driver_model {
            DriverConfig::Kmdf(c) => base + seq!["-k".spec_bytes(), spec_kmdf_version_arg(c)],
            DriverConfig::Umdf(c) => base + seq!["-u".spec_bytes(), spec_umdf_version_arg(c)],
            DriverConfig::Wdm => base,
        };
        SpecCommandRequest { tool: Tool::StampInf, args }
    }

    /// Builds the `stampinf` invocation.
    pub fn stampinf_request(&self) -> (r: CommandRequest)
        ensures
            r@ == self.spec_stampinf_request(),
    {
        let mut args: Vec<Vec<u8>> = Vec::new();
        args.push("-f".as_bytes_vec());
        args.push(self.dest_inf_file_path.clone());
        args.push("-d".as_bytes_vec());
        args.push("*".as_bytes_vec());
        args.push("-a".as_bytes_vec());
        args.push(arch_arg(self.arch));
        args.push("-c".as_bytes_vec());
        args.push(file_name(self.package_name.as_slice(), "cat".as_bytes_vec().as_slice()));
        args.push("-v".as_bytes_vec());
        args.push("*".as_bytes_vec());
        match &self.driver_model {
            DriverConfig::Kmdf(c) => {
                args.push("-k".as_bytes_vec());
                args.push(kmdf_version_arg(c));
            },
            DriverConfig::Umdf(c) => {
                args.push("-u".as_bytes_vec());
                args.push(umdf_version_arg(c));
            },
            DriverConfig::Wdm => {},
        }
        proof {
            assert(views_of(args@) =~= self.spec_stampinf_request().args);
        }
        CommandRequest { tool: Tool::StampInf, args }
    }

    /// The `inf2cat` invocation of the catalog stage:
    /// `/driver:<package folder, long-path prefix stripped> /os:<mapping>
    /// /uselocaltime`.
    pub open spec fn spec_inf2cat_request(self) -> SpecCommandRequest {
        SpecCommandRequest {
            tool: Tool::Inf2Cat,
            args: seq![
                "/driver:".spec_bytes() + spec_strip_long_path_prefix(
                    self.dest_root_package_folder@,
                ),
                "/os:".spec_bytes() + self.os_mapping@,
                "/uselocaltime".spec_bytes(),
            ],
        }
    }

    /// Builds the `inf2cat` invocation.
    pub fn inf2cat_request(&self) -> (r: CommandRequest)
        ensures
            r@ == self.spec_inf2cat_request(),
    {
        let stripped = strip_long_path_prefix(self.dest_root_package_folder.as_slice());
        let mut driver_arg = "/driver:".as_bytes_vec();
        push_bytes(&mut driver_arg, stripped.as_slice());
        let mut os_arg = "/os:".as_bytes_vec();
        push_bytes(&mut os_arg, self.os_mapping.as_slice());
        let mut args: Vec<Vec<u8>> = Vec::new();
        args.push(driver_arg);
        args.push(os_arg);
        args.push("/uselocaltime".as_bytes_vec());
        proof {
            assert(views_of(args@) =~= self.spec_inf2cat_request().args);
        }
        CommandRequest { tool: Tool::Inf2Cat, args }
    }

    /// The `certmgr.exe` invocation that lists the certificate store:
    /// `-s <store>`.
    pub open spec fn spec_cert_store_list_request(self) -> SpecCommandRequest {
        SpecCommandRequest {
            tool: Tool::CertMgr,
            args: seq!["-s".spec_bytes(), self.cert_store_name@],
        }
    }

    /// Builds the store-listing `certmgr.exe` invocation.
    pub fn cert_store_list_request(&self) -> (r: CommandRequest)
        ensures
            r@ == self.spec_cert_store_list_request(),
    {
        let mut args: Vec<Vec<u8>> = Vec::new();
        args.push("-s".as_bytes_vec());
        args.push(self.cert_store_name.clone());
        proof {
            assert(views_of(args@) =~= self.spec_cert_store_list_request().args);
        }
        CommandRequest { tool: Tool::CertMgr, args }
    }

    /// The `certmgr.exe` invocation that exports the certificate to a file:
    /// `-put -s <store> -c -n <name> <cert path>`.
    pub open spec fn spec_cert_export_request(self) -> SpecCommandRequest {
        SpecCommandRequest {
            tool: Tool::CertMgr,
            args: seq![
                "-put".spec_bytes(),
                "-s".spec_bytes(),
                self.cert_store_name@,
                "-c".spec_bytes(),
                "-n".spec_bytes(),
                self.cert_name@,
                self.src_cert_file_path@,
            ],
        }
    }

    /// Builds the certificate-export `certmgr.exe` invocation.
    pub fn cert_export_request(&self) -> (r: CommandRequest)
        ensures
            r@ == self.spec_cert_export_request(),
    {
        let mut args: Vec<Vec<u8>> = Vec::new();
        args.push("-put".as_bytes_vec());
        args.push("-s".as_bytes_vec());
        args.push(self.cert_store_name.clone());
        args.push("-c".as_bytes_vec());
        args.push("-n".as_bytes_vec());
        args.push(self.cert_name.clone());
        args.push(self.src_cert_file_path.clone());
        proof {
            assert(views_of(args@) =~= self.spec_cert_export_request().args);
        }
        CommandRequest { tool: Tool::CertMgr, args }
    }

    /// The `makecert` invocation that generates a self-signed certificate
    /// into the store and the certificate file:
    /// `-r -pe -a SHA256 -eku 1.3.6.1.5.5.7.3.3 -ss <store> -n CN=<name>
    /// <cert path>`.
    pub open spec fn spec_cert_generate_request(self) -> SpecCommandRequest {
        SpecCommandRequest {
            tool: Tool::MakeCert,
            args: seq![
                "-r".spec_bytes(),
                "-pe".spec_bytes(),
                "-a".spec_bytes(),
                "SHA256".spec_bytes(),
                "-eku".spec_bytes(),
                "1.3.6.1.5.5.7.3.3".spec_bytes(),
                "-ss".spec_bytes(),
                self.cert_store_name@,
                "-n".spec_bytes(),
                "CN=".spec_bytes() + self.cert_name@,
                self.src_cert_file_path@,
            ],
        }
    }

    /// Builds the `makecert` invocation.
    pub fn cert_generate_request(&self) -> (r: CommandRequest)
        ensures
            r@ == self.spec_cert_generate_request(),
    {
        let mut subject = "CN=".as_bytes_vec();
        push_bytes(&mut subject, self.cert_name.as_slice());
        let mut args: Vec<Vec<u8>> = Vec::new();
        args.push("-r".as_bytes_vec());
        args.push("-pe".as_bytes_vec());
        args.push("-a".as_bytes_vec());
        args.push("SHA256".as_bytes_vec());
        args.push("-eku".as_bytes_vec());
        args.push("1.3.6.1.5.5.7.3.3".as_bytes_vec());
        args.push("-ss".as_bytes_vec());
        args.push(self.cert_store_name.clone());
        args.push("-n".as_bytes_vec());
        args.push(subject);
        args.push(self.src_cert_file_path.clone());
        proof {
            assert(views_of(args@) =~= self.spec_cert_generate_request().args);
        }
        CommandRequest { tool: Tool::MakeCert, args }
    }

    /// The `signtool sign` invocation for one file:
    /// `sign /v /s <store> /n <name> /t http://timestamp.digicert.com
    /// /fd SHA256 <file>`.
    pub open spec fn spec_sign_request(self, file: Seq<u8>) -> SpecCommandRequest {
        SpecCommandRequest {
            tool: Tool::SignTool,
            args: seq![
                "sign".spec_bytes(),
                "/v".spec_bytes(),
                "/s".spec_bytes(),
                self.cert_store_name@,
                "/n".spec_bytes(),
                self.cert_name@,
                "/t".spec_bytes(),
                "http://timestamp.digicert.com".spec_bytes(),
                "/fd".spec_bytes(),
                "SHA256".spec_bytes(),
                file,
            ],
        }
    }

    /// Builds a `signtool sign` invocation.
    pub fn sign_request(&self, file: &Vec<u8>) -> (r: CommandRequest)
        ensures
            r@ == self.spec_sign_request(file@),
    {
        let mut args: Vec<Vec<u8>> = Vec::new();
        args.push("sign".as_bytes_vec());
        args.push("/v".as_bytes_vec());
        args.push("/s".as_bytes_vec());
        args.push(self.cert_store_name.clone());
        args.push("/n".as_bytes_vec());
        args.push(self.cert_name.clone());
        args.push("/t".as_bytes_vec());
        args.push("http://timestamp.digicert.com".as_bytes_vec());
        args.push("/fd".as_bytes_vec());
        args.push("SHA256".as_bytes_vec());
        args.push(file.clone());
        proof {
            assert(views_of(args@) =~= self.spec_sign_request(file@).args);
        }
        CommandRequest { tool: Tool::SignTool, args }
    }

    /// The `signtool verify` invocation for one file: `verify /v /pa <file>`.
    pub open spec fn spec_verify_request(self, file: Seq<u8>) -> SpecCommandRequest {
        SpecCommandRequest {
            tool: Tool::SignTool,
            args: seq!["verify".spec_bytes(), "/v".spec_bytes(), "/pa".spec_bytes(), file],
        }
    }

    /// Builds a `signtool verify` invocation.
    pub fn verify_request(&self, file: &Vec<u8>) -> (r: CommandRequest)
        ensures
            r@ == self.spec_verify_request(file@),
    {
        let mut args: Vec<Vec<u8>> = Vec::new();
        args.push("verify".as_bytes_vec());
        args.push("/v".as_bytes_vec());
        args.push("/pa".as_bytes_vec());
        args.push(file.clone());
        proof {
            assert(views_of(args@) =~= self.spec_verify_request(file@).args);
        }
        CommandRequest { tool: Tool::SignTool, args }
    }

    /// The `infverif` invocation: `/v`, then `/w` for kernel-mode models or
    /// `/u` for UMDF, then `/msft` for a sample-class driver, then the
    /// packaged `.inf` path.
    pub open spec fn spec_infverif_request(self, sample_class: bool) -> SpecCommandRequest {
        let mode = if self.driver_model is Umdf {
            "/u".spec_bytes()
        } else {
            "/w".spec_bytes()
        };
        let base = seq!["/v".spec_bytes(), mode];
        let args = if sample_class {
            base + seq!["/msft".spec_bytes(), self.dest_inf_file_path@]
        } else {
            base + seq![self.dest_inf_file_path@]
        };
        SpecCommandRequest { tool: Tool::InfVerif, args }
    }

    /// Builds the `infverif` invocation.
    pub fn infverif_request(&self, sample_class: bool) -> (r: CommandRequest)
        ensures
            r@ == self.spec_infverif_request(sample_class),
    {
        let mut args: Vec<Vec<u8>> = Vec::new();
        args.push("/v".as_bytes_vec());
        match &self.driver_model {
            DriverConfig::Umdf(_) => args.push("/u".as_bytes_vec()),
            DriverConfig::Kmdf(_) => args.push("/w".as_bytes_vec()),
            DriverConfig::Wdm => args.push("/w".as_bytes_vec()),
        }
        if sample_class {
            args.push("/msft".as_bytes_vec());
        }
        args.push(self.dest_inf_file_path.clone());
        proof {
            assert(views_of(args@) =~= self.spec_infverif_request(sample_class).args);
        }
        CommandRequest { tool: Tool::InfVerif, args }
    }
}

} // verus!
