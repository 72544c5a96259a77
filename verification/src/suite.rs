//! Suite declarations and the per-suite execution pipeline: the leaf
//! condition types, the two-stage (raw, then ready) declaration record, the
//! error taxonomy, and the classification rules for probe, compile and run
//! outcomes.

use core::marker::PhantomData;
use vstd::prelude::*;

use crate::conditions::AnyOneOf;
use crate::conditions::Condition;
use crate::conditions::ConditionCollection;
use crate::config::OptimizationLevel;
use crate::text::str_eq;

verus! {

/// Which flavour of the compiler's standard library a compiler binary
/// implements.
#[derive(Debug, Eq, Clone, Copy, Hash)]
pub enum StdlibVariant {
    Official,
    Another,
}

impl PartialEq for StdlibVariant {
    fn eq(&self, other: &Self) -> (r: bool) {
        match (self, other) {
            (StdlibVariant::Official, StdlibVariant::Official) => true,
            (StdlibVariant::Another, StdlibVariant::Another) => true,
            _ => false,
        }
    }
}

impl vstd::std_specs::cmp::PartialEqSpecImpl for StdlibVariant {
    open spec fn obeys_eq_spec() -> bool {
        true
    }

    open spec fn eq_spec(&self, other: &Self) -> bool {
        self == other
    }
}

/// The operating system a suite runs on.
#[derive(Debug, Eq, Clone, Copy, Hash)]
pub enum Platform {
    Linux,
    MacOs,
    Windows,
}

impl PartialEq for Platform {
    fn eq(&self, other: &Self) -> (r: bool) {
        match (self, other) {
            (Platform::Linux, Platform::Linux) => true,
            (Platform::MacOs, Platform::MacOs) => true,
            (Platform::Windows, Platform::Windows) => true,
            _ => false,
        }
    }
}

impl vstd::std_specs::cmp::PartialEqSpecImpl for Platform {
    open spec fn obeys_eq_spec() -> bool {
        true
    }

    open spec fn eq_spec(&self, other: &Self) -> bool {
        self == other
    }
}

/// The facts a run-time condition leaf is evaluated against.
pub struct RunFailsIfAllFacts {
    pub opt_level: OptimizationLevel,
    pub stdlib_variant: StdlibVariant,
    pub platform: Platform,
}

/// The facts a compile-time condition leaf is evaluated against.
pub struct CompileFailsIfAllFacts {
    pub opt_level: OptimizationLevel,
    pub platform: Platform,
}

/// A run-time condition leaf: every present constraint must admit the
/// corresponding fact.
pub struct RunFailsIfAll {
    pub stdlib_variant: AnyOneOf<StdlibVariant>,
    pub opt_level: AnyOneOf<OptimizationLevel>,
    pub platform: AnyOneOf<Platform>,
}

impl Condition<RunFailsIfAllFacts> for RunFailsIfAll {
    open spec fn spec_is_met(&self, f: &RunFailsIfAllFacts) -> bool {
        &&& self.opt_level.spec_matches(&f.opt_level)
        &&& self.stdlib_variant.spec_matches(&f.stdlib_variant)
        &&& self.platform.spec_matches(&f.platform)
    }

    fn is_met(&self, f: &RunFailsIfAllFacts) -> (r: bool) {
        self.opt_level.matches(&f.opt_level) && self.stdlib_variant.matches(&f.stdlib_variant)
            && self.platform.matches(&f.platform)
    }
}

/// A compile-time condition leaf: only the optimization level and the
/// platform are known before compiling.
pub struct CompileFailsIfAll {
    pub opt_level: AnyOneOf<OptimizationLevel>,
    pub platform: AnyOneOf<Platform>,
}

impl Condition<CompileFailsIfAllFacts> for CompileFailsIfAll {
    open spec fn spec_is_met(&self, f: &CompileFailsIfAllFacts) -> bool {
        &&& self.opt_level.spec_matches(&f.opt_level)
        &&& self.platform.spec_matches(&f.platform)
    }

    fn is_met(&self, f: &CompileFailsIfAllFacts) -> (r: bool) {
        self.opt_level.matches(&f.opt_level) && self.platform.matches(&f.platform)
    }
}

/// Whether a port carries data out of or into the running program.
#[derive(Debug, Eq, Clone, Copy, Hash)]
pub enum PortType {
    Command,
    Subscription,
}

impl PartialEq for PortType {
    fn eq(&self, other: &Self) -> (r: bool) {
        match (self, other) {
            (PortType::Command, PortType::Command) => true,
            (PortType::Subscription, PortType::Subscription) => true,
            _ => false,
        }
    }
}

impl vstd::std_specs::cmp::PartialEqSpecImpl for PortType {
    open spec fn obeys_eq_spec() -> bool {
        true
    }

    open spec fn eq_spec(&self, other: &Self) -> bool {
        self == other
    }
}

/// The name of a declared port.
#[derive(Debug)]
pub struct PortName(pub String);

/// The argument a declared port is exercised with, kept as raw declaration
/// text.
#[derive(Debug)]
pub struct PortArg(pub String);

/// One scripted request: the declaration only ever scripts GET requests to
/// a path.
#[derive(Debug)]
pub enum Request {
    Get { url: String },
}

/// The scripted body sent back for the matching request.
#[derive(Debug)]
pub struct Response(pub String);

/// One request/response pair of a suite's network script.
#[derive(Debug)]
pub struct NetworkItem {
    pub request: Request,
    pub response: Response,
}

/// The value a flag carries: either raw declaration text, or the record of
/// the mock server injected under the reserved key.
#[derive(Debug)]
pub enum FlagValue {
    Json(String),
    SuiteParams { url: String, protocol: String },
}

/// The flags object handed to the running program: ordered key/value pairs
/// with pairwise distinct keys.
#[derive(Debug)]
pub struct Flags(pub Vec<(String, FlagValue)>);

/// Whether `flags` hold an entry under `key`.
pub open spec fn spec_flags_contain(flags: Seq<(String, FlagValue)>, key: Seq<char>) -> bool {
    exists|i: int| 0 <= i < flags.len() && (#[trigger] flags[i]).0@ == key
}

/// Marks a declaration as parsed but not yet staged for running.
pub struct Raw;

/// Marks a declaration as staged: the mock server record, when one is due,
/// has been folded into the flags.
pub struct Ready;

/// A suite's declaration of its expected behaviour.  `Readiness` is `Raw`
/// when freshly parsed and `Ready` once `make_ready` has injected the mock
/// server record; only a ready declaration reaches the run stage.
pub struct SuiteConfig<Readiness> {
    pub ports: Option<Vec<(PortType, PortName, PortArg)>>,
    pub flags: Option<Flags>,
    pub network: Option<Vec<NetworkItem>>,
    pub logs: Option<String>,
    pub compile_fails_if: Option<ConditionCollection<CompileFailsIfAll>>,
    pub run_fails_if: Option<ConditionCollection<RunFailsIfAll>>,
    pub skip_run_if: Option<ConditionCollection<RunFailsIfAll>>,
    pub readiness: PhantomData<Readiness>,
}

/// The reserved flags key under which the mock server record is injected.
pub fn reserved_flags_key() -> (r: &'static str)
    ensures
        r@ == "suite"@,
{
    "suite"
}

/// A suite whose own flags already use the reserved key; this is a defect
/// of the suite's declaration, not a test failure.
#[derive(Debug)]
pub struct FlagsConflict;

impl SuiteConfig<Raw> {
    /// A raw declaration from its parsed parts.
    pub fn new(
        ports: Option<Vec<(PortType, PortName, PortArg)>>,
        flags: Option<Flags>,
        network: Option<Vec<NetworkItem>>,
        logs: Option<String>,
        compile_fails_if: Option<ConditionCollection<CompileFailsIfAll>>,
        run_fails_if: Option<ConditionCollection<RunFailsIfAll>>,
        skip_run_if: Option<ConditionCollection<RunFailsIfAll>>,
    ) -> (r: SuiteConfig<Raw>)
        ensures
            r.ports == ports,
            r.flags == flags,
            r.network == network,
            r.logs == logs,
            r.compile_fails_if == compile_fails_if,
            r.run_fails_if == run_fails_if,
            r.skip_run_if == skip_run_if,
    {
        SuiteConfig {
            ports,
            flags,
            network,
            logs,
            compile_fails_if,
            run_fails_if,
            skip_run_if,
            readiness: PhantomData,
        }
    }

    /// The suite's own flags as a sequence of entries; an absent flags
    /// object counts as empty.
    pub open spec fn spec_own_flags(self) -> Seq<(String, FlagValue)> {
        match self.flags {
            Some(f) => f.0@,
            None => Seq::empty(),
        }
    }

    /// Stages the declaration for running.  The reserved key must not be
    /// used by the suite's own flags; when a mock server was started its
    /// address and protocol scheme are appended under the reserved key.
    pub fn make_ready(self, url_and_protocol: Option<(String, String)>) -> (r: Result<
        SuiteConfig<Ready>,
        FlagsConflict,
    >)
        ensures
            r is Err <==> spec_flags_contain(self.spec_own_flags(), "suite"@),
            r matches Ok(ready) ==> {
                &&& ready.ports == self.ports
                &&& ready.network == self.network
                &&& ready.logs == self.logs
                &&& ready.compile_fails_if == self.compile_fails_if
                &&& ready.run_fails_if == self.run_fails_if
                &&& ready.skip_run_if == self.skip_run_if
                &&& ready.flags matches Some(fl)
                &&& (match url_and_protocol {
                    Some(up) => {
                        &&& fl.0@.len() == self.spec_own_flags().len() + 1
                        &&& fl.0@.subrange(0, self.spec_own_flags().len() as int)
                            == self.spec_own_flags()
                        &&& fl.0@.last().0@ == "suite"@
                        &&& fl.0@.last().1 == (FlagValue::SuiteParams {
                            url: up.0,
                            protocol: up.1,
                        })
                    },
                    None => fl.0@ == self.spec_own_flags(),
                })
            },
    {
        let SuiteConfig {
            ports,
            flags,
            network,
            logs,
            compile_fails_if,
            run_fails_if,
            skip_run_if,
            readiness: _,
        } = self;
        let mut entries: Vec<(String, FlagValue)> = match flags {
            Some(f) => f.0,
            None => Vec::new(),
        };
        let mut i: usize = 0;
        while i < entries.len()
            invariant
                0 <= i <= entries@.len(),
                entries@ == self.spec_own_flags(),
                forall|j: int| 0 <= j < i ==> (#[trigger] entries@[j]).0@ != "suite"@,
        decreases entries@.len() - i,
        {
            if str_eq(entries[i].0.as_str(), "suite") {
                proof {
                    assert((self.spec_own_flags()[i as int]).0@ == "suite"@);
                }
                return Err(FlagsConflict);
            }
            i += 1;
        }
        if let Some((url, protocol)) = url_and_protocol {
            entries.push((String::from_str("suite"), FlagValue::SuiteParams { url, protocol }));
        }
        Ok(
            SuiteConfig {
                ports,
                flags: Some(Flags(entries)),
                network,
                logs,
                compile_fails_if,
                run_fails_if,
                skip_run_if,
                readiness: PhantomData,
            },
        )
    }
}

/// What a finished process left behind: its exit status and the two byte
/// streams it produced.
#[derive(Debug)]
pub struct ProcessOutput {
    pub status_success: bool,
    pub status_code: Option<i32>,
    pub stdout: Vec<u8>,
    pub stderr: Vec<u8>,
}

/// Why a compile attempt failed.
#[derive(Debug)]
pub enum CompileError {
    Process(String),
    Compiler(ProcessOutput),
    CompilerStdErrNotEmpty(ProcessOutput),
    ReadingTargets(String),
    DeletingElmStuff(String),
    SuiteDoesNotExist,
}

/// Why the compiler's toolchain variant could not be detected.
#[derive(Debug)]
pub enum DetectStdlibError {
    Io(String),
    LocatingCompiler(String),
    Parsing(Vec<u8>),
}

/// Why a suite's declaration could not be loaded.
#[derive(Debug)]
pub enum GetSuiteConfigError {
    CannotRead(String),
    Parse(String),
}

/// Why a run of a compiled suite failed.
#[derive(Debug)]
pub enum RunError {
    NodeNotFound(String),
    SuiteDoesNotExist,
    NodeProcess(String),
    WritingHarness(String),
    CopyingExpectedOutput(String),
    Runtime(ProcessOutput),
    WritingExpectedOutput(String),
    ExpectedOutputNotUtf8(Vec<u8>),
    OutputProduced(ProcessOutput),
    /// The run was stopped after `after` milliseconds, with whatever
    /// output had been drained by then.
    Timeout { after: u64, stdout: Vec<u8>, stderr: Vec<u8> },
}

/// The outcome of one matrix cell, as reported to the caller.
#[derive(Debug)]
pub enum CompileAndRunError {
    SuiteNotExist,
    SuiteNotDir,
    SuiteNotElm,
    OutDirIsNotDir,
    CannotGetSuiteConfig(GetSuiteConfigError),
    CompileFailure { allowed: bool, reason: CompileError },
    RunFailure { allowed: bool, reason: RunError },
    ExpectedCompileFailure,
    ExpectedRunFailure,
    Server(String),
}

/// Why no suite could be run at all.
#[derive(Debug)]
pub enum SuitesError {
    ResolvingCompiler(DetectStdlibError),
}

/// The marker the variant probe prints when the compiler implements the
/// alternate standard library.
pub fn another_stdlib_marker() -> (r: &'static str)
    ensures
        r@ == "another-elm"@,
{
    "another-elm"
}

/// Classifies the outcome of the variant probe.  A probe that failed marks
/// the baseline toolchain: absence of the probe flag is the signal for the
/// official compiler, not a version check.  A probe that succeeded must
/// print the alternate marker (after surrounding whitespace is ignored);
/// any other output is a parse error.
pub fn detect_stdlib_variant(probe_success: bool, probe_stdout: Vec<u8>) -> (r: Result<
    StdlibVariant,
    DetectStdlibError,
>)
    ensures
        !probe_success ==> r == Ok::<StdlibVariant, DetectStdlibError>(StdlibVariant::Official),
        probe_success && crate::text::spec_starts_with(
            crate::text::spec_trim(probe_stdout@),
            vstd::utf8::encode_utf8("another-elm"@),
        ) ==> r == Ok::<StdlibVariant, DetectStdlibError>(StdlibVariant::Another),
        probe_success && !crate::text::spec_starts_with(
            crate::text::spec_trim(probe_stdout@),
            vstd::utf8::encode_utf8("another-elm"@),
        ) ==> r == Err::<StdlibVariant, DetectStdlibError>(
            DetectStdlibError::Parsing(probe_stdout),
        ),
{
    if !probe_success {
        return Ok(StdlibVariant::Official);
    }
    let marker = another_stdlib_marker().as_bytes_vec();
    let trimmed = crate::text::trim_ascii_ws(probe_stdout.as_slice());
    if crate::text::bytes_starts_with(trimmed, marker.as_slice()) {
        Ok(StdlibVariant::Another)
    } else {
        Err(DetectStdlibError::Parsing(probe_stdout))
    }
}

/// A compiler binary, resolved once and shared across all matrix cells: the
/// name the user gave, the absolute path it resolved to, and the detected
/// toolchain variant.
#[derive(Debug)]
pub struct ElmCompilerPath {
    pub unresolved: String,
    pub path: String,
    pub stdlib_variant: StdlibVariant,
}

impl ElmCompilerPath {
    /// A resolved compiler from the name the user gave, the path the search
    /// found for it, and what the variant probe of that binary produced.
    /// The caller performs the search and the probe; a failed search or an
    /// unreadable probe is its own error (`LocatingCompiler`, `Io`) and
    /// never reaches this point.
    pub fn new_resolved(
        binary_name: String,
        path: String,
        probe_success: bool,
        probe_stdout: Vec<u8>,
    ) -> (r: Result<ElmCompilerPath, DetectStdlibError>)
        ensures
            (match spec_variant_of(probe_success, probe_stdout@) {
                Some(v) => r matches Ok(c) && c.unresolved == binary_name && c.path == path
                    && c.stdlib_variant == v,
                None => r == Err::<ElmCompilerPath, DetectStdlibError>(
                    DetectStdlibError::Parsing(probe_stdout),
                ),
            }),
    {
        match detect_stdlib_variant(probe_success, probe_stdout) {
            Ok(stdlib_variant) => Ok(
                ElmCompilerPath { unresolved: binary_name, path, stdlib_variant },
            ),
            Err(e) => Err(e),
        }
    }
}

/// The variant the probe outcome denotes, or nothing when the probe output
/// could not be understood.
pub open spec fn spec_variant_of(probe_success: bool, probe_stdout: Seq<u8>) -> Option<
    StdlibVariant,
> {
    if !probe_success {
        Some(StdlibVariant::Official)
    } else if crate::text::spec_starts_with(
        crate::text::spec_trim(probe_stdout),
        vstd::utf8::encode_utf8("another-elm"@),
    ) {
        Some(StdlibVariant::Another)
    } else {
        None
    }
}

/// Classifies what the compiler left behind.  A non-zero exit is a compiler
/// failure; an exit of zero with anything on standard error is also a
/// failure, since compilation must be silent; only a silent, successful
/// exit passes.
pub fn classify_compile_output(output: ProcessOutput) -> (r: Result<(), CompileError>)
    ensures
        !output.status_success ==> r == Err::<(), CompileError>(CompileError::Compiler(output)),
        output.status_success && output.stderr@.len() > 0 ==> r == Err::<(), CompileError>(
            CompileError::CompilerStdErrNotEmpty(output),
        ),
        output.status_success && output.stderr@.len() == 0 ==> r == Ok::<(), CompileError>(()),
{
    if !output.status_success {
        Err(CompileError::Compiler(output))
    } else if output.stderr.len() > 0 {
        Err(CompileError::CompilerStdErrNotEmpty(output))
    } else {
        Ok(())
    }
}

/// The advisory line the generated program prints on start-up in the given
/// mode.
pub open spec fn spec_mode_advisory(mode: Seq<char>) -> Seq<char> {
    "Compiled in "@ + mode
        + " mode. Follow the advice at https://elm-lang.org/0.19.1/optimize for better performance and smaller assets.\n"@
}

/// The bytes of the advisory line for the given mode.
pub open spec fn spec_mode_advisory_bytes(mode: Seq<char>) -> Seq<u8> {
    vstd::utf8::encode_utf8(spec_mode_advisory(mode))
}

/// Builds the advisory line the generated program prints on start-up in
/// the given mode.
pub fn mode_advisory(mode: &str) -> (r: String)
    ensures
        r@ == spec_mode_advisory(mode@),
{
    let mut s = String::from_str("Compiled in ");
    s.append(mode);
    s.append(
        " mode. Follow the advice at https://elm-lang.org/0.19.1/optimize for better performance and smaller assets.\n",
    );
    s
}

/// The root source files to hand the compiler: the lines of the suite's
/// optional manifest, or the single conventional entry file when there is
/// none.
pub fn compile_targets(targets_manifest: Option<&str>) -> (r: Vec<String>)
    ensures
        (match targets_manifest {
            Some(m) => {
                &&& r@.len() >= 1
                &&& forall|k: int|
                    0 <= k < r@.len() ==> !crate::text::spec_has_newline((#[trigger] r@[k])@)
                &&& crate::text::spec_join_lines(r.deep_view()) == m@
            },
            None => r@.len() == 1 && r@[0]@ == "Main.elm"@,
        }),
{
    match targets_manifest {
        Some(m) => crate::text::split_lines(m),
        None => {
            let mut v: Vec<String> = Vec::new();
            v.push(String::from_str("Main.elm"));
            v
        }
    }
}

/// The argument list of one compiler invocation: the build command, the
/// root files, the optimization level's flags, and where to put the
/// output.
pub fn compile_command_args(
    root_files: &Vec<String>,
    opt_level: OptimizationLevel,
    out_file: &str,
) -> (r: Vec<String>)
    ensures
        r@.len() == 3 + root_files@.len() + opt_level.spec_args().len(),
        r@[0]@ == "make"@,
        forall|i: int|
            0 <= i < root_files@.len() ==> (#[trigger] r@[1 + i])@ == root_files@[i]@,
        forall|i: int|
            0 <= i < opt_level.spec_args().len() ==> (#[trigger] r@[1 + root_files@.len() + i])@
                == opt_level.spec_args()[i],
        r@[r@.len() - 2]@ == "--output"@,
        r@[r@.len() - 1]@ == out_file@,
{
    let mut r: Vec<String> = Vec::new();
    r.push(String::from_str("make"));
    let mut i: usize = 0;
    while i < root_files.len()
        invariant
            0 <= i <= root_files@.len(),
            r@.len() == 1 + i,
            r@[0]@ == "make"@,
            forall|k: int| 0 <= k < i ==> (#[trigger] r@[1 + k])@ == root_files@[k]@,
        decreases root_files@.len() - i,
    {
        r.push(root_files[i].clone());
        i += 1;
    }
    let level_args = opt_level.args();
    let mut j: usize = 0;
    while j < level_args.len()
        invariant
            0 <= j <= level_args@.len(),
            level_args@.len() == opt_level.spec_args().len(),
            forall|k: int|
                0 <= k < level_args@.len() ==> (#[trigger] level_args@[k])@
                    == opt_level.spec_args()[k],
            r@.len() == 1 + root_files@.len() + j,
            r@[0]@ == "make"@,
            forall|k: int|
                0 <= k < root_files@.len() ==> (#[trigger] r@[1 + k])@ == root_files@[k]@,
            forall|k: int|
                0 <= k < j ==> (#[trigger] r@[1 + root_files@.len() + k])@
                    == opt_level.spec_args()[k],
        decreases level_args@.len() - j,
    {
        r.push(String::from_str(level_args[j]));
        j += 1;
    }
    r.push(String::from_str("--output"));
    r.push(String::from_str(out_file));
    r
}

/// The name of the compiled artifact for this optimization level.
pub fn compiled_artifact_name(opt_level: OptimizationLevel) -> (r: String)
    ensures
        r@ == "elm-"@ + opt_level.spec_id() + ".js"@,
{
    let mut s = String::from_str("elm-");
    s.append(opt_level.id());
    s.append(".js");
    s
}

/// The entry-point script written into the output directory: it wires the
/// harness, the compatibility shim, the compiled artifact of this
/// optimization level and the expected output together.
pub fn main_file_contents(opt_level: OptimizationLevel) -> (r: String)
    ensures
        r@ == "\nconst harness = require('./harness.js');\nglobal.XMLHttpRequest = require('./xmlhttprequest.js').XMLHttpRequest;\nconst generated = require('./elm-"@
            + opt_level.spec_id()
            + ".js');\nconst expectedOutput = require('./output.json');\n\nharness(generated, expectedOutput);\n"@,
{
    let mut s = String::from_str(
        "\nconst harness = require('./harness.js');\nglobal.XMLHttpRequest = require('./xmlhttprequest.js').XMLHttpRequest;\nconst generated = require('./elm-",
    );
    s.append(opt_level.id());
    s.append(
        ".js');\nconst expectedOutput = require('./output.json');\n\nharness(generated, expectedOutput);\n",
    );
    s
}

/// The timezone the runtime is pinned to: one without daylight-saving
/// changes, for reproducible date and time behaviour.
pub fn run_timezone() -> (r: &'static str)
    ensures
        r@ == "Asia/Bahrain"@,
{
    "Asia/Bahrain"
}

/// The argument list of the runtime invocation: unhandled promise
/// rejections abort the program, which runs the entry-point script.
pub fn node_args(main_file: &str) -> (r: Vec<String>)
    ensures
        r@.len() == 2,
        r@[0]@ == "--unhandled-rejections=strict"@,
        r@[1]@ == main_file@,
{
    let mut r: Vec<String> = Vec::new();
    r.push(String::from_str("--unhandled-rejections=strict"));
    r.push(String::from_str(main_file));
    r
}

/// How one run of a compiled suite ended: either the wall-clock bound
/// expired and the process was killed, with whatever output had been
/// buffered by then, or the process exited on its own.
#[derive(Debug)]
pub enum RunOutcome {
    TimedOut { after: u64, stdout: Vec<u8>, stderr: Vec<u8> },
    Exited(ProcessOutput),
}

/// Whether this standard-error content is tolerated on an otherwise silent,
/// successful run: nothing at all, or exactly the advisory line of the
/// development or the debug mode.
pub open spec fn spec_benign_stderr(stderr: Seq<u8>) -> bool {
    ||| stderr.len() == 0
    ||| stderr == spec_mode_advisory_bytes("DEV"@)
    ||| stderr == spec_mode_advisory_bytes("DEBUG"@)
}

/// Classifies how a run ended.  A timeout is always reported as `Timeout`
/// carrying exactly the output drained before the kill — never as a
/// runtime failure or as produced output.  A process that exited reports
/// `Runtime` on a non-zero status; otherwise anything on standard output,
/// or anything but a benign advisory line on standard error, is
/// `OutputProduced`; anything else passes.
pub fn classify_run_outcome(outcome: RunOutcome) -> (r: Result<(), RunError>)
    ensures
        (match outcome {
            RunOutcome::TimedOut { after, stdout, stderr } => r == Err::<(), RunError>(
                RunError::Timeout { after, stdout, stderr },
            ),
            RunOutcome::Exited(o) => {
                &&& !o.status_success ==> r == Err::<(), RunError>(RunError::Runtime(o))
                &&& o.status_success && o.stdout@.len() > 0 ==> r == Err::<(), RunError>(
                    RunError::OutputProduced(o),
                )
                &&& o.status_success && o.stdout@.len() == 0 && !spec_benign_stderr(o.stderr@)
                    ==> r == Err::<(), RunError>(RunError::OutputProduced(o))
                &&& o.status_success && o.stdout@.len() == 0 && spec_benign_stderr(o.stderr@)
                    ==> r == Ok::<(), RunError>(())
            },
        }),
{
    match outcome {
        RunOutcome::TimedOut { after, stdout, stderr } => Err(
            RunError::Timeout { after, stdout, stderr },
        ),
        RunOutcome::Exited(output) => {
            if !output.status_success {
                return Err(RunError::Runtime(output));
            }
            if output.stdout.len() > 0 {
                return Err(RunError::OutputProduced(output));
            }
            if output.stderr.len() > 0 {
                let dev = mode_advisory("DEV");
                let debug = mode_advisory("DEBUG");
                let dev_bytes = dev.as_str().as_bytes_vec();
                let debug_bytes = debug.as_str().as_bytes_vec();
                let benign = crate::text::bytes_eq(
                    output.stderr.as_slice(),
                    dev_bytes.as_slice(),
                ) || crate::text::bytes_eq(output.stderr.as_slice(), debug_bytes.as_slice());
                if !benign {
                    return Err(RunError::OutputProduced(output));
                }
            }
            Ok(())
        }
    }
}

} // verus!
