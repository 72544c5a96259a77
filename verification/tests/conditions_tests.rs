use elm_torture::conditions::AnyOneOf;
use elm_torture::conditions::Condition;
use elm_torture::conditions::ConditionCollection;
use elm_torture::conditions::ConditionCollectionHelper;
use elm_torture::config::OptimizationLevel;
use elm_torture::suite::CompileFailsIfAll;
use elm_torture::suite::CompileFailsIfAllFacts;
use elm_torture::suite::Platform;
use elm_torture::suite::RunFailsIfAll;
use elm_torture::suite::RunFailsIfAllFacts;
use elm_torture::suite::StdlibVariant;

fn compile_facts(opt_level: OptimizationLevel) -> CompileFailsIfAllFacts {
    CompileFailsIfAllFacts { opt_level, platform: Platform::Linux }
}

fn run_facts(opt_level: OptimizationLevel, stdlib_variant: StdlibVariant) -> RunFailsIfAllFacts {
    RunFailsIfAllFacts { opt_level, stdlib_variant, platform: Platform::Linux }
}

fn optimize_leaf() -> CompileFailsIfAll {
    CompileFailsIfAll {
        opt_level: AnyOneOf(Some(vec![OptimizationLevel::Optimize])),
        platform: AnyOneOf(None),
    }
}

#[test]
fn any_one_of_absent_matches_every_value() {
    let wildcard: AnyOneOf<OptimizationLevel> = AnyOneOf(None);
    assert!(wildcard.matches(&OptimizationLevel::Debug));
    assert!(wildcard.matches(&OptimizationLevel::Dev));
    assert!(wildcard.matches(&OptimizationLevel::Optimize));
}

#[test]
fn any_one_of_empty_matches_no_value() {
    let empty: AnyOneOf<OptimizationLevel> = AnyOneOf(Some(vec![]));
    assert!(!empty.matches(&OptimizationLevel::Debug));
    assert!(!empty.matches(&OptimizationLevel::Dev));
    assert!(!empty.matches(&OptimizationLevel::Optimize));
}

#[test]
fn any_one_of_matches_exactly_its_members() {
    let set = AnyOneOf(Some(vec![OptimizationLevel::Dev, OptimizationLevel::Optimize]));
    assert!(set.matches(&OptimizationLevel::Dev));
    assert!(set.matches(&OptimizationLevel::Optimize));
    assert!(!set.matches(&OptimizationLevel::Debug));
}

#[test]
fn all_of_no_children_is_true() {
    let tree: ConditionCollection<CompileFailsIfAll> =
        ConditionCollection::Collection(ConditionCollectionHelper::All(vec![]));
    assert!(tree.is_met(&compile_facts(OptimizationLevel::Dev)));
}

#[test]
fn any_of_no_children_is_false() {
    let tree: ConditionCollection<CompileFailsIfAll> =
        ConditionCollection::Collection(ConditionCollectionHelper::Any(vec![]));
    assert!(!tree.is_met(&compile_facts(OptimizationLevel::Dev)));
}

#[test]
fn absent_tree_is_false() {
    let tree: Option<ConditionCollection<CompileFailsIfAll>> = None;
    assert!(!tree.is_met(&compile_facts(OptimizationLevel::Optimize)));
}

#[test]
fn leaf_condition_goes_by_its_constraints() {
    let tree = ConditionCollection::Cond(optimize_leaf());
    assert!(tree.is_met(&compile_facts(OptimizationLevel::Optimize)));
    assert!(!tree.is_met(&compile_facts(OptimizationLevel::Dev)));
}

#[test]
fn nested_all_and_any_combine() {
    let tree: ConditionCollection<CompileFailsIfAll> =
        ConditionCollection::Collection(ConditionCollectionHelper::All(vec![
            ConditionCollection::Cond(optimize_leaf()),
            ConditionCollection::Collection(ConditionCollectionHelper::Any(vec![
                ConditionCollection::Cond(optimize_leaf()),
                ConditionCollection::Collection(ConditionCollectionHelper::All(vec![])),
            ])),
        ]));
    assert!(tree.is_met(&compile_facts(OptimizationLevel::Optimize)));
    assert!(!tree.is_met(&compile_facts(OptimizationLevel::Debug)));
}

#[test]
fn run_leaf_checks_all_three_facts() {
    let leaf = RunFailsIfAll {
        stdlib_variant: AnyOneOf(Some(vec![StdlibVariant::Another])),
        opt_level: AnyOneOf(None),
        platform: AnyOneOf(Some(vec![Platform::Linux, Platform::MacOs])),
    };
    assert!(leaf.is_met(&run_facts(OptimizationLevel::Dev, StdlibVariant::Another)));
    assert!(!leaf.is_met(&run_facts(OptimizationLevel::Dev, StdlibVariant::Official)));
}
