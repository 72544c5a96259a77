//! The matrix orchestrator's decision rules: the compiler-by-level
//! product, what each cell reports after its compile and run stages, the
//! process exit code, the monotonic fail-fast flag, and the artifact
//! retention policy.  The embedding program walks the suites and performs
//! the process work; every decision along the way is taken here.

use vstd::prelude::*;

use crate::conditions::Condition;
use crate::config::OptimizationLevel;
use crate::suite::CompileAndRunError;
use crate::suite::CompileError;
use crate::suite::CompileFailsIfAllFacts;
use crate::suite::Ready;
use crate::suite::RunError;
use crate::suite::RunFailsIfAllFacts;
use crate::suite::SuiteConfig;

verus! {

/// The exit code contributed by an unexpected compile failure.
pub const COMPILE_FAILURE_EXIT_CODE: i32 = 0x21;

/// The exit code contributed by an unexpected run failure.
pub const RUN_FAILURE_EXIT_CODE: i32 = 0x22;

/// The exit code contributed by a declared-expected failure that did not
/// occur.
pub const EXPECTED_FAILURE_EXIT_CODE: i32 = 0x24;

/// The exit code contributed by an infrastructure-level error: an
/// unresolvable suite path, an unreadable or unparsable declaration, or a
/// server that could not be set up.
pub const CATCH_ALL_ERROR_CODE: i32 = 0x28;

/// A flat index below the current row stays below the rows already
/// filled.
proof fn lemma_mul_index_bound(a: int, i: int, b: int, l: int)
    requires
        0 <= a < i,
        0 <= b < l,
    ensures
        a * l + b < i * l,
{
    assert(a * l + b < (a + 1) * l) by (nonlinear_arith)
        requires
            0 <= b < l,
            a >= 0,
    ;
    assert((a + 1) * l <= i * l) by (nonlinear_arith)
        requires
            a + 1 <= i,
            l >= 0,
    ;
}

/// The full cartesian product of the configured compilers (by index) and
/// optimization levels: one matrix key per executable configuration of a
/// suite, compilers outermost, in order.
pub fn matrix_keys(n_compilers: usize, opt_levels: &Vec<OptimizationLevel>) -> (r: Vec<
    (usize, OptimizationLevel),
>)
    requires
        n_compilers * opt_levels@.len() <= usize::MAX,
    ensures
        r@.len() == n_compilers * opt_levels@.len(),
        forall|i: int, j: int|
            0 <= i < n_compilers && 0 <= j < opt_levels@.len() ==> #[trigger] r@[i
                * opt_levels@.len() + j] == (i as usize, opt_levels@[j]),
{
    let mut r: Vec<(usize, OptimizationLevel)> = Vec::new();
    let mut i: usize = 0;
    while i < n_compilers
        invariant
            0 <= i <= n_compilers,
            n_compilers * opt_levels@.len() <= usize::MAX,
            r@.len() == i * opt_levels@.len(),
            forall|a: int, b: int|
                0 <= a < i && 0 <= b < opt_levels@.len() ==> #[trigger] r@[a * opt_levels@.len()
                    + b] == (a as usize, opt_levels@[b]),
        decreases n_compilers - i,
    {
        proof {
            assert((i + 1) * opt_levels@.len() <= n_compilers * opt_levels@.len()) by (nonlinear_arith)
                requires
                    i + 1 <= n_compilers,
                    opt_levels@.len() >= 0,
            ;
        }
        let mut j: usize = 0;
        while j < opt_levels.len()
            invariant
                0 <= i < n_compilers,
                0 <= j <= opt_levels@.len(),
                n_compilers * opt_levels@.len() <= usize::MAX,
                (i + 1) * opt_levels@.len() <= n_compilers * opt_levels@.len(),
                r@.len() == i * opt_levels@.len() + j,
                forall|a: int, b: int|
                    0 <= a < i && 0 <= b < opt_levels@.len() ==> #[trigger] r@[a
                        * opt_levels@.len() + b] == (a as usize, opt_levels@[b]),
                forall|b: int|
                    0 <= b < j ==> #[trigger] r@[i * opt_levels@.len() + b] == (
                        i as usize,
                        opt_levels@[b],
                    ),
            decreases opt_levels@.len() - j,
        {
            proof {
                assert(i * opt_levels@.len() + j < (i + 1) * opt_levels@.len()) by (nonlinear_arith)
                    requires
                        j < opt_levels@.len(),
                        i >= 0,
                ;
            }
            r.push((i, opt_levels[j]));
            j += 1;
            proof {
                assert forall|a: int, b: int| #![trigger a * opt_levels@.len() + b]
                    0 <= a < i && 0 <= b < opt_levels@.len() implies a * opt_levels@.len() + b < i
                    * opt_levels@.len() by {
                    lemma_mul_index_bound(a, i as int, b, opt_levels@.len() as int);
                }
            }
        }
        proof {
            assert(i * opt_levels@.len() + opt_levels@.len() == (i + 1) * opt_levels@.len())
                by (nonlinear_arith);
            assert forall|a: int, b: int| #![trigger a * opt_levels@.len() + b]
                0 <= a < i && 0 <= b < opt_levels@.len() implies a * opt_levels@.len() + b < i
                * opt_levels@.len() by {
                lemma_mul_index_bound(a, i as int, b, opt_levels@.len() as int);
            }
        }
        i += 1;
    }
    r
}

/// Whether this suite asks for a mock network server.
pub fn needs_server(cfg: &SuiteConfig<crate::suite::Raw>) -> (r: bool)
    ensures
        r == (cfg.network is Some),
{
    cfg.network.is_some()
}

/// Whether a compile failure of this cell is allowed: the declared
/// compile-failure condition, evaluated against the compile-time facts;
/// an absent condition allows nothing.
pub fn compile_failure_allowed(cfg: &SuiteConfig<Ready>, facts: &CompileFailsIfAllFacts) -> (r:
    bool)
    ensures
        r == cfg.compile_fails_if.spec_is_met(facts),
{
    cfg.compile_fails_if.is_met(facts)
}

/// What a cell does once the compile stage has finished.
#[derive(Debug)]
pub enum CellAfterCompile {
    /// The cell is decided without running the suite.
    Done(Result<(), CompileAndRunError>),
    /// Run the suite; a run failure would be allowed exactly when
    /// `run_failure_required` holds.
    RunSuite { run_failure_required: bool },
}

/// Decides the cell after the compile stage.  A compile failure reports
/// `CompileFailure` with the allowance that was computed beforehand; a
/// success under an allowed-failure declaration is itself an error,
/// `ExpectedCompileFailure`; otherwise the declared skip condition may end
/// the cell successfully without a run, and else the suite is run, with
/// the declared run-failure condition deciding what a failure will mean.
pub fn after_compile(
    cfg: &SuiteConfig<Ready>,
    compile_allowed: bool,
    run_facts: &RunFailsIfAllFacts,
    compile_result: Result<(), CompileError>,
) -> (r: CellAfterCompile)
    ensures
        (match compile_result {
            Err(e) => r == CellAfterCompile::Done(
                Err(CompileAndRunError::CompileFailure { allowed: compile_allowed, reason: e }),
            ),
            Ok(_) => {
                &&& compile_allowed ==> r == CellAfterCompile::Done(
                    Err(CompileAndRunError::ExpectedCompileFailure),
                )
                &&& !compile_allowed && cfg.skip_run_if.spec_is_met(run_facts) ==> r
                    == CellAfterCompile::Done(Ok(()))
                &&& !compile_allowed && !cfg.skip_run_if.spec_is_met(run_facts) ==> r == (
                CellAfterCompile::RunSuite {
                    run_failure_required: cfg.run_fails_if.spec_is_met(run_facts),
                })
            },
        }),
{
    match compile_result {
        Err(e) => CellAfterCompile::Done(
            Err(CompileAndRunError::CompileFailure { allowed: compile_allowed, reason: e }),
        ),
        Ok(_) => {
            if compile_allowed {
                CellAfterCompile::Done(Err(CompileAndRunError::ExpectedCompileFailure))
            } else if cfg.skip_run_if.is_met(run_facts) {
                CellAfterCompile::Done(Ok(()))
            } else {
                CellAfterCompile::RunSuite {
                    run_failure_required: cfg.run_fails_if.is_met(run_facts),
                }
            }
        }
    }
}

/// Decides the cell after the run stage.  A run failure reports
/// `RunFailure`, allowed exactly when the declaration required a failure;
/// a success where a failure was required is itself an error,
/// `ExpectedRunFailure`; otherwise the cell succeeds.
pub fn after_run(run_failure_required: bool, run_result: Result<(), RunError>) -> (r: Result<
    (),
    CompileAndRunError,
>)
    ensures
        (match run_result {
            Err(e) => r == Err::<(), CompileAndRunError>(
                CompileAndRunError::RunFailure { allowed: run_failure_required, reason: e },
            ),
            Ok(_) => {
                &&& run_failure_required ==> r == Err::<(), CompileAndRunError>(
                    CompileAndRunError::ExpectedRunFailure,
                )
                &&& !run_failure_required ==> r == Ok::<(), CompileAndRunError>(())
            },
        }),
{
    match run_result {
        Err(e) => Err(CompileAndRunError::RunFailure { allowed: run_failure_required, reason: e }),
        Ok(_) => {
            if run_failure_required {
                Err(CompileAndRunError::ExpectedRunFailure)
            } else {
                Ok(())
            }
        }
    }
}

/// The exit code one cell outcome contributes: nothing for an allowed
/// failure, a per-kind code for an unexpected compile failure, an
/// unexpected run failure, a declared-but-unobserved failure, and a
/// catch-all for infrastructure errors.
pub open spec fn spec_error_code(err: CompileAndRunError) -> i32 {
    match err {
        CompileAndRunError::SuiteNotExist => CATCH_ALL_ERROR_CODE,
        CompileAndRunError::SuiteNotDir => CATCH_ALL_ERROR_CODE,
        CompileAndRunError::SuiteNotElm => CATCH_ALL_ERROR_CODE,
        CompileAndRunError::OutDirIsNotDir => CATCH_ALL_ERROR_CODE,
        CompileAndRunError::CannotGetSuiteConfig(_) => CATCH_ALL_ERROR_CODE,
        CompileAndRunError::Server(_) => CATCH_ALL_ERROR_CODE,
        CompileAndRunError::CompileFailure { allowed, .. } => if allowed {
            0
        } else {
            COMPILE_FAILURE_EXIT_CODE
        },
        CompileAndRunError::RunFailure { allowed, .. } => if allowed {
            0
        } else {
            RUN_FAILURE_EXIT_CODE
        },
        CompileAndRunError::ExpectedCompileFailure => EXPECTED_FAILURE_EXIT_CODE,
        CompileAndRunError::ExpectedRunFailure => EXPECTED_FAILURE_EXIT_CODE,
    }
}

/// The exit code one cell outcome contributes.
pub fn get_exit_code(err: &CompileAndRunError) -> (r: i32)
    ensures
        r == spec_error_code(*err),
{
    match err {
        CompileAndRunError::SuiteNotExist => CATCH_ALL_ERROR_CODE,
        CompileAndRunError::SuiteNotDir => CATCH_ALL_ERROR_CODE,
        CompileAndRunError::SuiteNotElm => CATCH_ALL_ERROR_CODE,
        CompileAndRunError::OutDirIsNotDir => CATCH_ALL_ERROR_CODE,
        CompileAndRunError::CannotGetSuiteConfig(_) => CATCH_ALL_ERROR_CODE,
        CompileAndRunError::Server(_) => CATCH_ALL_ERROR_CODE,
        CompileAndRunError::CompileFailure { allowed, .. } => if *allowed {
            0
        } else {
            COMPILE_FAILURE_EXIT_CODE
        },
        CompileAndRunError::RunFailure { allowed, .. } => if *allowed {
            0
        } else {
            RUN_FAILURE_EXIT_CODE
        },
        CompileAndRunError::ExpectedCompileFailure => EXPECTED_FAILURE_EXIT_CODE,
        CompileAndRunError::ExpectedRunFailure => EXPECTED_FAILURE_EXIT_CODE,
    }
}

/// The process exit code for a whole batch: the bitwise or, over every
/// reported outcome, of the per-outcome codes.
pub open spec fn spec_aggregate_exit_code(errs: Seq<CompileAndRunError>) -> i32
    decreases errs.len(),
{
    if errs.len() == 0 {
        0
    } else {
        spec_aggregate_exit_code(errs.drop_last()) | spec_error_code(errs.last())
    }
}

/// Folds every reported outcome's code into the batch exit code with
/// bitwise or.
pub fn aggregate_exit_code(errs: &Vec<CompileAndRunError>) -> (r: i32)
    ensures
        r == spec_aggregate_exit_code(errs@),
{
    let mut code: i32 = 0;
    let mut i: usize = 0;
    while i < errs.len()
        invariant
            0 <= i <= errs@.len(),
            code == spec_aggregate_exit_code(errs@.subrange(0, i as int)),
        decreases errs@.len() - i,
    {
        proof {
            assert(errs@.subrange(0, i + 1).drop_last() =~= errs@.subrange(0, i as int));
            assert(errs@.subrange(0, i + 1).last() == errs@[i as int]);
        }
        code = code | get_exit_code(&errs[i]);
        i += 1;
    }
    proof {
        assert(errs@.subrange(0, errs@.len() as int) =~= errs@);
    }
    code
}

/// Whether some outcome in the batch contributes this code.
pub open spec fn spec_has_code(errs: Seq<CompileAndRunError>, code: i32) -> bool {
    exists|i: int| 0 <= i < errs.len() && spec_error_code(#[trigger] errs[i]) == code
}

/// Law: in a batch whose outcomes are successes or allowed failures apart
/// from at least one unexpected compile failure and at least one
/// unexpected run failure, the exit code is exactly the bitwise or of
/// those two codes.
pub proof fn lemma_exit_code_or_of_two_failures(errs: Seq<CompileAndRunError>)
    requires
        forall|i: int|
            0 <= i < errs.len() ==> spec_error_code(#[trigger] errs[i]) == 0 || spec_error_code(
                errs[i],
            ) == COMPILE_FAILURE_EXIT_CODE || spec_error_code(errs[i]) == RUN_FAILURE_EXIT_CODE,
        spec_has_code(errs, COMPILE_FAILURE_EXIT_CODE),
        spec_has_code(errs, RUN_FAILURE_EXIT_CODE),
    ensures
        spec_aggregate_exit_code(errs) == (COMPILE_FAILURE_EXIT_CODE | RUN_FAILURE_EXIT_CODE),
{
    lemma_aggregate_three_codes(errs);
    assert((0x21i32 | 0x22i32) == 0x23i32) by (bit_vector);
}

/// Law: a batch whose outcomes are all successes or allowed failures
/// exits with code zero.
pub proof fn lemma_exit_code_zero_for_clean_batch(errs: Seq<CompileAndRunError>)
    requires
        forall|i: int| 0 <= i < errs.len() ==> spec_error_code(#[trigger] errs[i]) == 0,
    ensures
        spec_aggregate_exit_code(errs) == 0,
    decreases errs.len(),
{
    assert(forall|x: i32| #![trigger (x | 0i32)] (x | 0i32) == x) by (bit_vector);
    if errs.len() > 0 {
        lemma_exit_code_zero_for_clean_batch(errs.drop_last());
    }
}

/// The or of the codes that are present.
spec fn spec_code_of_presence(has_compile: bool, has_run: bool) -> i32 {
    (if has_compile {
        COMPILE_FAILURE_EXIT_CODE
    } else {
        0
    }) | (if has_run {
        RUN_FAILURE_EXIT_CODE
    } else {
        0
    })
}

/// In a batch whose outcomes contribute only these two codes or nothing,
/// the exit code is the or of the codes that occur.
proof fn lemma_aggregate_three_codes(errs: Seq<CompileAndRunError>)
    requires
        forall|i: int|
            0 <= i < errs.len() ==> spec_error_code(#[trigger] errs[i]) == 0 || spec_error_code(
                errs[i],
            ) == COMPILE_FAILURE_EXIT_CODE || spec_error_code(errs[i]) == RUN_FAILURE_EXIT_CODE,
    ensures
        spec_aggregate_exit_code(errs) == spec_code_of_presence(
            spec_has_code(errs, COMPILE_FAILURE_EXIT_CODE),
            spec_has_code(errs, RUN_FAILURE_EXIT_CODE),
        ),
    decreases errs.len(),
{
    assert((0x21i32 | 0x22i32) == 0x23i32) by (bit_vector);
    assert((0x22i32 | 0x21i32) == 0x23i32) by (bit_vector);
    assert((0x23i32 | 0x21i32) == 0x23i32) by (bit_vector);
    assert((0x23i32 | 0x22i32) == 0x23i32) by (bit_vector);
    assert((0x21i32 | 0x21i32) == 0x21i32) by (bit_vector);
    assert((0x22i32 | 0x22i32) == 0x22i32) by (bit_vector);
    assert(forall|x: i32| #![trigger (x | 0i32)] (x | 0i32) == x) by (bit_vector);
    assert(forall|x: i32| #![trigger (0i32 | x)] (0i32 | x) == x) by (bit_vector);
    if errs.len() == 0 {
    } else {
        let rest = errs.drop_last();
        lemma_aggregate_three_codes(rest);
        let c = spec_error_code(errs.last());
        assert forall|code: i32| spec_has_code(errs, code) implies spec_has_code(rest, code) || c
            == code by {
            let i = choose|i: int|
                0 <= i < errs.len() && spec_error_code(#[trigger] errs[i]) == code;
            if i < errs.len() - 1 {
                assert(rest[i] == errs[i]);
            }
        }
        assert forall|code: i32| spec_has_code(rest, code) implies spec_has_code(errs, code) by {
            let i = choose|i: int|
                0 <= i < rest.len() && spec_error_code(#[trigger] rest[i]) == code;
            assert(errs[i] == rest[i]);
        }
        if c != 0 {
            assert(spec_has_code(errs, c)) by {
                assert(spec_error_code(errs[errs.len() - 1]) == c);
            }
        }
    }
}

/// Whether a cell outcome counts as a failure for the fail-fast flag:
/// every error but an allowed compile or run failure.
pub open spec fn spec_counts_as_failure(res: Result<(), CompileAndRunError>) -> bool {
    match res {
        Ok(_) => false,
        Err(CompileAndRunError::CompileFailure { allowed, .. }) => !allowed,
        Err(CompileAndRunError::RunFailure { allowed, .. }) => !allowed,
        Err(_) => true,
    }
}

/// Decides whether a cell outcome counts as a failure for the fail-fast
/// flag.
pub fn counts_as_failure(res: &Result<(), CompileAndRunError>) -> (r: bool)
    ensures
        r == spec_counts_as_failure(*res),
{
    match res {
        Ok(_) => false,
        Err(CompileAndRunError::CompileFailure { allowed, .. }) => !*allowed,
        Err(CompileAndRunError::RunFailure { allowed, .. }) => !*allowed,
        Err(_) => true,
    }
}

/// Law: an outcome counts as a failure exactly when it contributes a
/// non-zero exit code.
pub proof fn lemma_failure_iff_nonzero_code(res: Result<(), CompileAndRunError>)
    ensures
        spec_counts_as_failure(res) <==> (res matches Err(e) && spec_error_code(e) != 0),
{
}

/// The fail-fast flag after one more cell: set once a failure is seen and
/// never cleared.
pub fn update_prev_runs_failed(prev: bool, res: &Result<(), CompileAndRunError>) -> (r: bool)
    ensures
        r == (prev || spec_counts_as_failure(*res)),
        prev ==> r,
{
    prev || counts_as_failure(res)
}

/// Whether the orchestrator skips a suite before starting it: only in
/// fail-fast mode, and only once a previous cell has failed.  Work that
/// has already started always runs to completion.
pub fn should_skip_suite(fail_fast: bool, prev_runs_failed: bool) -> (r: bool)
    ensures
        r == (fail_fast && prev_runs_failed),
{
    fail_fast && prev_runs_failed
}

/// Whether the suite's working directory — and the temporary directory
/// backing it, where no explicit output directory was configured — is
/// preserved for postmortem inspection: only after a run failure that was
/// not allowed.
pub open spec fn spec_retain_artifacts(res: Result<(), CompileAndRunError>) -> bool {
    match res {
        Err(CompileAndRunError::RunFailure { allowed, .. }) => !allowed,
        _ => false,
    }
}

/// Decides whether the cell's artifacts are preserved; everything else
/// has the suite's output directory removed.
pub fn retain_artifacts(res: &Result<(), CompileAndRunError>) -> (r: bool)
    ensures
        r == spec_retain_artifacts(*res),
{
    match res {
        Err(CompileAndRunError::RunFailure { allowed, .. }) => !*allowed,
        _ => false,
    }
}

} // verus!
