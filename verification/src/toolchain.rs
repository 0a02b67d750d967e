//! Invocation builders for the four external packaging tools.
//!
//! Each builder owns the values one tool invocation needs and computes the
//! exact argument list to hand to the tool, specified argument by argument.
//! Spawning the tool and waiting for its exit status is I/O and happens
//! outside this library; mapping the observed exit status back to a verdict
//! is [`exit_outcome`].

use vstd::prelude::*;

use crate::strutil::{dec_rep, u32_to_dec, u64_to_dec};

verus! {

/// The view of an argument vector: each argument as its character sequence.
pub open spec fn strs_view(v: Seq<String>) -> Seq<Seq<char>> {
    v.map_values(|s: String| s@)
}

/// The directory, below the toolchain installation root, that holds the
/// packaging tools, and the path of one entry in it.
pub open spec fn bin_path_spec(root: Seq<char>, tool: Seq<char>) -> Seq<char> {
    root + "/bin/"@ + tool
}

/// The path under the toolchain installation root at which `subpath` lives.
pub fn get_vitasdk_subpath(root: &str, subpath: &str) -> (r: String)
    ensures
        r@ == root@ + "/"@ + subpath@,
{
    let mut r = root.to_owned();
    r.append("/");
    r.append(subpath);
    r
}

/// The toolchain installation root, resolved once at process start and
/// passed to everything that locates a packaging tool.
#[derive(Clone, Debug)]
pub struct Toolchain {
    pub root: String,
}

impl Toolchain {
    pub fn new(root: String) -> (r: Toolchain)
        ensures
            r.root == root,
    {
        Toolchain { root }
    }

    /// The full path of the packaging tool named `tool`.
    pub fn tool_path(&self, tool: &str) -> (r: String)
        ensures
            r@ == bin_path_spec(self.root@, tool@),
    {
        let mut r = self.root.clone();
        r.append("/bin/");
        r.append(tool);
        assert(r@ =~= bin_path_spec(self.root@, tool@));
        r
    }
}

/// The verdict on one finished tool invocation: exit code zero is success,
/// anything else fails the stage, whatever the tool printed.
pub fn handle_exit_status(code: Option<i32>) -> (r: Result<(), Option<i32>>)
    ensures
        code == Some(0i32) <==> r is Ok,
        r is Err ==> r->Err_0 == code,
{
    match code {
        Some(c) => if c == 0 {
            Ok(())
        } else {
            Err(Some(c))
        },
        None => Err(None),
    }
}

/// Logging verbosity of the executable converter (more `v` is more verbose).
#[derive(Copy, Clone, Debug, PartialEq, Eq, PartialOrd, Ord, Structural)]
pub enum LoggingVerbosity {
    V,
    VV,
    VVV,
}

/// The command-line flag for one verbosity level.
pub open spec fn verbosity_flag(v: LoggingVerbosity) -> Seq<char> {
    match v {
        LoggingVerbosity::V => "-v"@,
        LoggingVerbosity::VV => "-vv"@,
        LoggingVerbosity::VVV => "-vvv"@,
    }
}

impl LoggingVerbosity {
    pub fn as_str(self) -> (r: &'static str)
        ensures
            r@ == verbosity_flag(self),
    {
        match self {
            LoggingVerbosity::V => "-v",
            LoggingVerbosity::VV => "-vv",
            LoggingVerbosity::VVV => "-vvv",
        }
    }
}

/// Invocation of the ELF-to-native-executable converter.
#[derive(Clone, Debug)]
pub struct VitaElfCreate {
    pub verbosity: Option<LoggingVerbosity>,
    pub allow_empty_imports: bool,
    /// Path to a configuration file with extra options, if any.
    pub config_options: Option<String>,
    /// Input executable produced by the build.
    pub input_elf: String,
    /// Output executable in the platform's loadable format.
    pub output_velf: String,
}

impl VitaElfCreate {
    /// The exact argument list of this invocation.
    pub open spec fn spec_args(self) -> Seq<Seq<char>> {
        (if self.verbosity is Some {
            seq![verbosity_flag(self.verbosity->0)]
        } else {
            Seq::empty()
        }) + (if self.allow_empty_imports {
            seq!["-n"@]
        } else {
            Seq::empty()
        }) + (if self.config_options is Some {
            seq!["-e"@, self.config_options->0@]
        } else {
            Seq::empty()
        }) + seq![self.input_elf@, self.output_velf@]
    }

    pub fn new(input_elf: &str, output_velf: &str) -> (r: VitaElfCreate)
        ensures
            r.verbosity is None,
            !r.allow_empty_imports,
            r.config_options is None,
            r.input_elf@ == input_elf@,
            r.output_velf@ == output_velf@,
    {
        VitaElfCreate {
            verbosity: None,
            allow_empty_imports: false,
            config_options: None,
            input_elf: input_elf.to_owned(),
            output_velf: output_velf.to_owned(),
        }
    }

    /// Builds the converter's argument list.
    pub fn args(&self) -> (r: Vec<String>)
        ensures
            strs_view(r@) == self.spec_args(),
    {
        let mut args: Vec<String> = Vec::new();
        match &self.verbosity {
            Some(v) => args.push(v.as_str().to_owned()),
            None => (),
        }
        if self.allow_empty_imports {
            args.push("-n".to_owned());
        }
        match &self.config_options {
            Some(c) => {
                args.push("-e".to_owned());
                args.push(c.clone());
            },
            None => (),
        }
        args.push(self.input_elf.clone());
        args.push(self.output_velf.clone());
        assert(strs_view(args@) =~= self.spec_args());
        args
    }
}

/// One `name=value` argument pair.
pub open spec fn kv_arg(name: Seq<char>, value: Seq<char>) -> Seq<char> {
    name + "="@ + value
}

/// The `-d name=value` arguments for a list of DWORD values.
pub open spec fn dword_args(s: Seq<(String, u32)>) -> Seq<Seq<char>>
    decreases s.len(),
{
    if s.len() == 0 {
        Seq::empty()
    } else {
        dword_args(s.drop_last()) + seq!["-d"@, kv_arg(s.last().0@, dec_rep(s.last().1 as nat))]
    }
}

/// The `-s name=value` arguments for a list of string values.
pub open spec fn string_args(s: Seq<(String, String)>) -> Seq<Seq<char>>
    decreases s.len(),
{
    if s.len() == 0 {
        Seq::empty()
    } else {
        string_args(s.drop_last()) + seq!["-s"@, kv_arg(s.last().0@, s.last().1@)]
    }
}

/// Invocation of the package metadata generator.
#[derive(Clone, Debug)]
pub struct VitaMksfoex {
    /// Extra DWORD entries to put in the metadata file.
    pub dword_values: Vec<(String, u32)>,
    /// Extra string entries to put in the metadata file.
    pub string_values: Vec<(String, String)>,
    /// The package title, derived from the executable's file stem.
    pub title: String,
    pub output_sfo: String,
}

impl VitaMksfoex {
    /// The exact argument list of this invocation.
    pub open spec fn spec_args(self) -> Seq<Seq<char>> {
        dword_args(self.dword_values@) + string_args(self.string_values@) + seq![
            self.title@,
            self.output_sfo@,
        ]
    }

    pub fn new(title: &str, output_sfo: &str) -> (r: VitaMksfoex)
        ensures
            r.dword_values@.len() == 0,
            r.string_values@.len() == 0,
            r.title@ == title@,
            r.output_sfo@ == output_sfo@,
    {
        VitaMksfoex {
            dword_values: Vec::new(),
            string_values: Vec::new(),
            title: title.to_owned(),
            output_sfo: output_sfo.to_owned(),
        }
    }

    /// Builds the generator's argument list.
    pub fn args(&self) -> (r: Vec<String>)
        ensures
            strs_view(r@) == self.spec_args(),
    {
        let mut args: Vec<String> = Vec::new();
        let mut i: usize = 0;
        assert(strs_view(args@) =~= dword_args(self.dword_values@.take(0int)));
        while i < self.dword_values.len()
            invariant
                i <= self.dword_values@.len(),
                strs_view(args@) == dword_args(self.dword_values@.take(i as int)),
            decreases self.dword_values@.len() - i,
        {
            let pair = &self.dword_values[i];
            args.push("-d".to_owned());
            let mut kv = pair.0.clone();
            kv.append("=");
            let dec = u32_to_dec(pair.1);
            kv.append(dec.as_str());
            args.push(kv);
            proof {
                assert(self.dword_values@.take(i + 1).drop_last() =~= self.dword_values@.take(
                    i as int,
                ));
                assert(strs_view(args@) =~= dword_args(self.dword_values@.take(i + 1)));
            }
            i += 1;
        }
        assert(self.dword_values@.take(self.dword_values@.len() as int) =~= self.dword_values@);
        let ghost dwords_done = strs_view(args@);
        let mut j: usize = 0;
        assert(strs_view(args@) =~= dwords_done + string_args(self.string_values@.take(0int)));
        while j < self.string_values.len()
            invariant
                j <= self.string_values@.len(),
                dwords_done == dword_args(self.dword_values@),
                strs_view(args@) == dwords_done + string_args(self.string_values@.take(j as int)),
            decreases self.string_values@.len() - j,
        {
            let ghost pre = args@;
            let pair = &self.string_values[j];
            args.push("-s".to_owned());
            let mut kv = pair.0.clone();
            kv.append("=");
            kv.append(pair.1.as_str());
            let ghost kvv = kv@;
            args.push(kv);
            proof {
                assert(strs_view(args@) =~= strs_view(pre) + seq!["-s"@, kvv]);
                assert(self.string_values@.take(j + 1).drop_last() =~= self.string_values@.take(
                    j as int,
                ));
                assert(self.string_values@.take(j + 1).last() == self.string_values@[j as int]);
                assert(string_args(self.string_values@.take(j + 1)) == string_args(
                    self.string_values@.take(j as int),
                ) + seq!["-s"@, kv_arg(self.string_values@[j as int].0@, self.string_values@[j as int].1@)]);
                assert(strs_view(args@) =~= dwords_done + string_args(
                    self.string_values@.take(j + 1),
                ));
            }
            j += 1;
        }
        assert(self.string_values@.take(self.string_values@.len() as int) =~= self.string_values@);
        args.push(self.title.clone());
        args.push(self.output_sfo.clone());
        assert(strs_view(args@) =~= self.spec_args());
        args
    }
}

/// Authorization identity presets for the signer (which permissions the
/// signed executable runs with).
pub const AUTHID_DEFAULT: u64 = 0x2F00000000000001;

pub const AUTHID_SAFE: u64 = 0x2F00000000000002;

pub const AUTHID_SECRET_SAFE: u64 = 0x2F00000000000003;

/// Invocation of the executable signer/compressor.
#[derive(Clone, Debug)]
pub struct VitaMakeFself {
    /// Authorization identity for permissions (see the `AUTHID_` presets).
    pub authid: u64,
    pub enable_compression: bool,
    /// Memory budget for the application in kilobytes.
    pub memory_budget: Option<u32>,
    /// Physically contiguous memory budget in kilobytes, subtracted from
    /// the standard budget.
    pub physically_contiguous_memory_budget: Option<u32>,
    /// ATTRIBUTE word of the control-info section.
    pub attrinbute_cinfo: Option<u32>,
    pub disable_aslr: bool,
    pub input_velf: String,
    pub output_eboot_bin: String,
}

impl VitaMakeFself {
    /// The exact argument list of this invocation.
    pub open spec fn spec_args(self) -> Seq<Seq<char>> {
        seq!["-a"@, dec_rep(self.authid as nat)] + (if self.enable_compression {
            seq!["-c"@]
        } else {
            Seq::empty()
        }) + (if self.memory_budget is Some {
            seq!["-m"@, dec_rep(self.memory_budget->0 as nat)]
        } else {
            Seq::empty()
        }) + (if self.physically_contiguous_memory_budget is Some {
            seq!["-pm"@, dec_rep(self.physically_contiguous_memory_budget->0 as nat)]
        } else {
            Seq::empty()
        }) + (if self.attrinbute_cinfo is Some {
            seq!["-at"@, dec_rep(self.attrinbute_cinfo->0 as nat)]
        } else {
            Seq::empty()
        }) + (if self.disable_aslr {
            seq!["-na"@]
        } else {
            Seq::empty()
        }) + seq![self.input_velf@, self.output_eboot_bin@]
    }

    pub fn new(input_velf: &str, output_eboot_bin: &str) -> (r: VitaMakeFself)
        ensures
            r.authid == AUTHID_DEFAULT,
            !r.enable_compression,
            r.memory_budget is None,
            r.physically_contiguous_memory_budget is None,
            r.attrinbute_cinfo is None,
            !r.disable_aslr,
            r.input_velf@ == input_velf@,
            r.output_eboot_bin@ == output_eboot_bin@,
    {
        VitaMakeFself {
            authid: AUTHID_DEFAULT,
            enable_compression: false,
            memory_budget: None,
            physically_contiguous_memory_budget: None,
            attrinbute_cinfo: None,
            disable_aslr: false,
            input_velf: input_velf.to_owned(),
            output_eboot_bin: output_eboot_bin.to_owned(),
        }
    }

    /// Builds the signer's argument list.
    pub fn args(&self) -> (r: Vec<String>)
        ensures
            strs_view(r@) == self.spec_args(),
    {
        let mut args: Vec<String> = Vec::new();
        args.push("-a".to_owned());
        args.push(u64_to_dec(self.authid));
        if self.enable_compression {
            args.push("-c".to_owned());
        }
        match &self.memory_budget {
            Some(m) => {
                args.push("-m".to_owned());
                args.push(u32_to_dec(*m));
            },
            None => (),
        }
        match &self.physically_contiguous_memory_budget {
            Some(m) => {
                args.push("-pm".to_owned());
                args.push(u32_to_dec(*m));
            },
            None => (),
        }
        match &self.attrinbute_cinfo {
            Some(a) => {
                args.push("-at".to_owned());
                args.push(u32_to_dec(*a));
            },
            None => (),
        }
        if self.disable_aslr {
            args.push("-na".to_owned());
        }
        args.push(self.input_velf.clone());
        args.push(self.output_eboot_bin.clone());
        assert(strs_view(args@) =~= self.spec_args());
        args
    }
}

/// The `--add src=dst` arguments for the extra files packed into the
/// package.
pub open spec fn add_args(s: Seq<(String, String)>) -> Seq<Seq<char>>
    decreases s.len(),
{
    if s.len() == 0 {
        Seq::empty()
    } else {
        add_args(s.drop_last()) + seq!["--add"@, kv_arg(s.last().0@, s.last().1@)]
    }
}

/// Invocation of the final package packer.
#[derive(Clone, Debug)]
pub struct VitaPackVpk {
    /// The package metadata file.
    pub param_sfo: String,
    /// The signed executable.
    pub eboot_bin: String,
    /// Extra files to pack, as `(source, destination in the package)` pairs.
    pub additional_data: Vec<(String, String)>,
    pub output_vpk: String,
}

impl VitaPackVpk {
    /// The exact argument list of this invocation.
    pub open spec fn spec_args(self) -> Seq<Seq<char>> {
        seq!["--sfo"@, self.param_sfo@, "--eboot"@, self.eboot_bin@] + add_args(
            self.additional_data@,
        ) + seq![self.output_vpk@]
    }

    pub fn new(param_sfo: &str, eboot_bin: &str, output_vpk: &str) -> (r: VitaPackVpk)
        ensures
            r.param_sfo@ == param_sfo@,
            r.eboot_bin@ == eboot_bin@,
            r.additional_data@.len() == 0,
            r.output_vpk@ == output_vpk@,
    {
        VitaPackVpk {
            param_sfo: param_sfo.to_owned(),
            eboot_bin: eboot_bin.to_owned(),
            additional_data: Vec::new(),
            output_vpk: output_vpk.to_owned(),
        }
    }

    /// Builds the packer's argument list.
    pub fn args(&self) -> (r: Vec<String>)
        ensures
            strs_view(r@) == self.spec_args(),
    {
        let mut args: Vec<String> = Vec::new();
        args.push("--sfo".to_owned());
        args.push(self.param_sfo.clone());
        args.push("--eboot".to_owned());
        args.push(self.eboot_bin.clone());
        let ghost head = strs_view(args@);
        let mut i: usize = 0;
        assert(strs_view(args@) =~= head + add_args(self.additional_data@.take(0int)));
        while i < self.additional_data.len()
            invariant
                i <= self.additional_data@.len(),
                head == seq!["--sfo"@, self.param_sfo@, "--eboot"@, self.eboot_bin@],
                strs_view(args@) == head + add_args(self.additional_data@.take(i as int)),
            decreases self.additional_data@.len() - i,
        {
            let ghost pre = args@;
            let pair = &self.additional_data[i];
            args.push("--add".to_owned());
            let mut kv = pair.0.clone();
            kv.append("=");
            kv.append(pair.1.as_str());
            let ghost kvv = kv@;
            args.push(kv);
            proof {
                assert(strs_view(args@) =~= strs_view(pre) + seq!["--add"@, kvv]);
                assert(self.additional_data@.take(i + 1).drop_last() =~= self.additional_data@.take(
                    i as int,
                ));
                assert(self.additional_data@.take(i + 1).last() == self.additional_data@[i as int]);
                assert(add_args(self.additional_data@.take(i + 1)) == add_args(
                    self.additional_data@.take(i as int),
                ) + seq!["--add"@, kv_arg(self.additional_data@[i as int].0@, self.additional_data@[i as int].1@)]);
                assert(strs_view(args@) =~= head + add_args(self.additional_data@.take(i + 1)));
            }
            i += 1;
        }
        assert(self.additional_data@.take(self.additional_data@.len() as int)
            =~= self.additional_data@);
        args.push(self.output_vpk.clone());
        assert(strs_view(args@) =~= self.spec_args());
        args
    }
}

} // verus!
