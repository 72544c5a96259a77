//! Runner configuration: optimization levels and the merged runtime
//! configuration (compiler names, runtime name, optimization levels, compile
//! retries, run timeout, output directory).

use vstd::prelude::*;

use crate::text::str_eq;

verus! {

/// One of the small fixed set of compile modes affecting the flags handed to
/// the compiler.
#[derive(Debug, Eq, Clone, Copy, Hash)]
pub enum OptimizationLevel {
    Debug,
    Dev,
    Optimize,
}

impl PartialEq for OptimizationLevel {
    fn eq(&self, other: &Self) -> (r: bool) {
        match (self, other) {
            (OptimizationLevel::Debug, OptimizationLevel::Debug) => true,
            (OptimizationLevel::Dev, OptimizationLevel::Dev) => true,
            (OptimizationLevel::Optimize, OptimizationLevel::Optimize) => true,
            _ => false,
        }
    }
}

impl vstd::std_specs::cmp::PartialEqSpecImpl for OptimizationLevel {
    open spec fn obeys_eq_spec() -> bool {
        true
    }

    open spec fn eq_spec(&self, other: &Self) -> bool {
        self == other
    }
}

impl OptimizationLevel {
    /// The compiler flags selecting this optimization level.
    pub open spec fn spec_args(self) -> Seq<Seq<char>> {
        match self {
            OptimizationLevel::Debug => seq!["--debug"@],
            OptimizationLevel::Dev => seq![],
            OptimizationLevel::Optimize => seq!["--optimize"@],
        }
    }

    /// The compiler flags selecting this optimization level.
    pub fn args(self) -> (r: Vec<&'static str>)
        ensures
            r@.len() == self.spec_args().len(),
            forall|i: int| 0 <= i < r@.len() ==> (#[trigger] r@[i])@ == self.spec_args()[i],
    {
        let mut v: Vec<&'static str> = Vec::new();
        match self {
            OptimizationLevel::Debug => v.push("--debug"),
            OptimizationLevel::Dev => {}
            OptimizationLevel::Optimize => v.push("--optimize"),
        }
        v
    }

    /// The identifier of this level, as written in declarations and in
    /// generated file names.
    pub fn id(self) -> (r: &'static str)
        ensures
            r@ == self.spec_id(),
    {
        match self {
            OptimizationLevel::Debug => "debug",
            OptimizationLevel::Dev => "dev",
            OptimizationLevel::Optimize => "optimize",
        }
    }

    /// The identifier of this level.
    pub open spec fn spec_id(self) -> Seq<char> {
        match self {
            OptimizationLevel::Debug => "debug"@,
            OptimizationLevel::Dev => "dev"@,
            OptimizationLevel::Optimize => "optimize"@,
        }
    }

    /// The name of this level as shown to a person; the default level says
    /// so.
    pub fn display_name(self) -> (r: &'static str)
        ensures
            self is Debug ==> r@ == "debug"@,
            self is Dev ==> r@ == "dev (default)"@,
            self is Optimize ==> r@ == "optimize"@,
    {
        match self {
            OptimizationLevel::Debug => "debug",
            OptimizationLevel::Dev => "dev (default)",
            OptimizationLevel::Optimize => "optimize",
        }
    }

    /// Parses a level from its identifier; any other text is rejected.
    pub fn from_id(s: &str) -> (r: Result<OptimizationLevel, InvalidOptimizationLevel>)
        ensures
            match r {
                Ok(level) => s@ == level.spec_id(),
                Err(e) => {
                    &&& s@ != "debug"@
                    &&& s@ != "dev"@
                    &&& s@ != "optimize"@
                    &&& e.text@ == s@
                },
            },
    {
        if str_eq(s, "debug") {
            Ok(OptimizationLevel::Debug)
        } else if str_eq(s, "dev") {
            Ok(OptimizationLevel::Dev)
        } else if str_eq(s, "optimize") {
            Ok(OptimizationLevel::Optimize)
        } else {
            Err(InvalidOptimizationLevel { text: String::from_str(s) })
        }
    }
}

/// The rejected text of an optimization level that could not be parsed.
pub struct InvalidOptimizationLevel {
    pub text: String,
}

impl InvalidOptimizationLevel {
    /// The message shown for this rejection.
    pub fn message(&self) -> (r: String)
        ensures
            r@ == "Invalid optimization level: "@ + self.text@,
    {
        let mut s = String::from_str("Invalid optimization level: ");
        s.append(self.text.as_str());
        s
    }
}

/// In a configuration every field is optional; an absent field falls back to
/// a default at the point of use.
pub struct Config {
    pub elm_compilers: Option<Vec<String>>,
    pub node: Option<String>,
    pub opt_levels: Option<Vec<OptimizationLevel>>,
    pub compiler_max_retries: Option<usize>,
    pub run_timeout: Option<u64>,
    pub out_dir: Option<String>,
}

/// The second option where it is present, otherwise the first.
pub open spec fn spec_or<T>(first: Option<T>, second: Option<T>) -> Option<T> {
    match second {
        Some(v) => Some(v),
        None => first,
    }
}

/// The second option where it is present, otherwise the first.
fn merge_option<T>(first: Option<T>, second: Option<T>) -> (r: Option<T>)
    ensures
        r == spec_or(first, second),
{
    match second {
        Some(v) => Some(v),
        None => first,
    }
}

impl Config {
    /// A configuration from explicit fields.
    pub fn new(
        elm_compilers: Option<Vec<String>>,
        node: Option<String>,
        opt_levels: Option<Vec<OptimizationLevel>>,
        compiler_max_retries: Option<usize>,
        run_timeout: Option<u64>,
        out_dir: Option<String>,
    ) -> (r: Config)
        ensures
            r.elm_compilers == elm_compilers,
            r.node == node,
            r.opt_levels == opt_levels,
            r.compiler_max_retries == compiler_max_retries,
            r.run_timeout == run_timeout,
            r.out_dir == out_dir,
    {
        Config { elm_compilers, node, opt_levels, compiler_max_retries, run_timeout, out_dir }
    }

    /// Overrides every field of `self` that `other` sets; fields that
    /// `other` leaves unset keep the value from `self`.
    pub fn overwrite_with(self, other: Config) -> (r: Config)
        ensures
            r.elm_compilers == spec_or(self.elm_compilers, other.elm_compilers),
            r.node == spec_or(self.node, other.node),
            r.opt_levels == spec_or(self.opt_levels, other.opt_levels),
            r.compiler_max_retries == spec_or(self.compiler_max_retries, other.compiler_max_retries),
            r.run_timeout == spec_or(self.run_timeout, other.run_timeout),
            r.out_dir == spec_or(self.out_dir, other.out_dir),
    {
        Config {
            elm_compilers: merge_option(self.elm_compilers, other.elm_compilers),
            node: merge_option(self.node, other.node),
            opt_levels: merge_option(self.opt_levels, other.opt_levels),
            compiler_max_retries: merge_option(
                self.compiler_max_retries,
                other.compiler_max_retries,
            ),
            run_timeout: merge_option(self.run_timeout, other.run_timeout),
            out_dir: merge_option(self.out_dir, other.out_dir),
        }
    }

    /// The configured compiler names; by default the single conventional
    /// compiler name.
    pub fn elm_compilers(&self) -> (r: Vec<String>)
        ensures
            match self.elm_compilers {
                Some(cs) => r@ == cs@,
                None => r@.len() == 1 && r@[0]@ == "elm"@,
            },
    {
        match &self.elm_compilers {
            Some(cs) => crate::text::clone_strings(cs),
            None => {
                let mut v: Vec<String> = Vec::new();
                v.push(String::from_str("elm"));
                v
            }
        }
    }

    /// The configured runtime name, by default the conventional one.
    pub fn node(&self) -> (r: &str)
        ensures
            match self.node {
                Some(n) => r@ == n@,
                None => r@ == "node"@,
            },
    {
        match &self.node {
            Some(n) => n.as_str(),
            None => "node",
        }
    }

    /// The configured optimization levels, by default the development level
    /// alone.
    pub fn opt_levels(&self) -> (r: Vec<OptimizationLevel>)
        ensures
            match self.opt_levels {
                Some(levels) => r@ == levels@,
                None => r@ =~= seq![OptimizationLevel::Dev],
            },
    {
        match &self.opt_levels {
            Some(levels) => crate::text::clone_copies(levels),
            None => {
                let mut v: Vec<OptimizationLevel> = Vec::new();
                v.push(OptimizationLevel::Dev);
                v
            }
        }
    }

    /// How many times a failing compile is attempted before the failure is
    /// reported; at least one attempt is always made.
    pub fn compiler_max_retries(&self) -> (r: usize)
        ensures
            r == (match self.compiler_max_retries {
                Some(n) => n,
                None => 1usize,
            }),
    {
        match self.compiler_max_retries {
            Some(n) => n,
            None => 1,
        }
    }

    /// The wall-clock bound on one run of a compiled suite, in milliseconds.
    pub fn run_timeout(&self) -> (r: u64)
        ensures
            r == (match self.run_timeout {
                Some(ms) => ms,
                None => 10_000u64,
            }),
    {
        match self.run_timeout {
            Some(ms) => ms,
            None => 10_000,
        }
    }
}

impl Default for Config {
    /// A configuration with every field unset.
    fn default() -> (r: Config)
        ensures
            r.elm_compilers is None,
            r.node is None,
            r.opt_levels is None,
            r.compiler_max_retries is None,
            r.run_timeout is None,
            r.out_dir is None,
    {
        Config {
            elm_compilers: None,
            node: None,
            opt_levels: None,
            compiler_max_retries: None,
            run_timeout: None,
            out_dir: None,
        }
    }
}

} // verus!
