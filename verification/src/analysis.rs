//! The violation aggregator: analyzes every module of the input set and
//! concatenates the per-module violation lists in input order.  No sorting,
//! no deduplication, no filtering.

use vstd::prelude::*;

verus! {

use crate::ast::ParsedModule;
use crate::discovery::{spec_module_violations, visit_module};
use crate::validation::ValidationRuleSet;
use crate::violation::{Violation, ViolationData};

/// The violations of the modules of `ms` from index `i` on, each module's
/// list in traversal order, concatenated in input order.
pub open spec fn spec_analyze_from(
    ms: Seq<ParsedModule>,
    rules: ValidationRuleSet,
    i: int,
) -> Seq<ViolationData>
    decreases ms.len() - i,
{
    if i < 0 || i >= ms.len() {
        Seq::empty()
    } else {
        spec_module_violations(ms[i], rules) + spec_analyze_from(ms, rules, i + 1)
    }
}

/// All violations of an input set of modules, in input order.
pub open spec fn spec_analyze(ms: Seq<ParsedModule>, rules: ValidationRuleSet) -> Seq<
    ViolationData,
> {
    spec_analyze_from(ms, rules, 0)
}

proof fn lemma_analyze_from_push(
    ms: Seq<ParsedModule>,
    rules: ValidationRuleSet,
    m: ParsedModule,
    i: int,
)
    requires
        0 <= i <= ms.len(),
    ensures
        spec_analyze_from(ms.push(m), rules, i) == spec_analyze_from(ms, rules, i)
            + spec_module_violations(m, rules),
    decreases ms.len() - i,
{
    let mv = spec_module_violations(m, rules);
    if i == ms.len() {
        assert(ms.push(m)[i] == m);
        assert(spec_analyze_from(ms.push(m), rules, i + 1) == Seq::<ViolationData>::empty());
        assert(mv + Seq::<ViolationData>::empty() =~= mv);
        assert(Seq::<ViolationData>::empty() + mv =~= mv);
    } else {
        assert(ms.push(m)[i] == ms[i]);
        lemma_analyze_from_push(ms, rules, m, i + 1);
        assert(spec_module_violations(ms[i], rules) + (spec_analyze_from(ms, rules, i + 1) + mv)
            =~= (spec_module_violations(ms[i], rules) + spec_analyze_from(ms, rules, i + 1)) + mv);
    }
}

/// Law: the aggregate is a plain concatenation in input order.  Analyzing
/// one more module appends exactly that module's violations, after
/// everything the earlier modules reported and in their order.
pub proof fn lemma_analyze_push(ms: Seq<ParsedModule>, rules: ValidationRuleSet, m: ParsedModule)
    ensures
        spec_analyze(ms.push(m), rules) == spec_analyze(ms, rules) + spec_module_violations(
            m,
            rules,
        ),
{
    lemma_analyze_from_push(ms, rules, m, 0);
}

/// Law: the analysis is deterministic.  Two runs over an unmodified module
/// set yield the same violation sequence, element for element and in the
/// same order: the result is a function of the modules and the rule set
/// alone, with no incidental nondeterminism from internal storage.
pub proof fn lemma_analysis_deterministic(
    ms: Seq<ParsedModule>,
    rules: ValidationRuleSet,
    first: Seq<ViolationData>,
    second: Seq<ViolationData>,
)
    requires
        first == spec_analyze(ms, rules),
        second == spec_analyze(ms, rules),
    ensures
        first == second,
{
}

fn analyze_from(modules: &Vec<ParsedModule>, rules: ValidationRuleSet, i: usize) -> (r: Vec<
    Violation,
>)
    requires
        i <= modules.len(),
    ensures
        r.deep_view() == spec_analyze_from(modules@, rules, i as int),
    decreases modules@.len() - i,
{
    if i < modules.len() {
        let mut head = visit_module(&modules[i], rules);
        let mut rest = analyze_from(modules, rules, i + 1);
        let ghost pre = head.deep_view();
        let ghost add = rest.deep_view();
        head.append(&mut rest);
        proof {
            assert(head.deep_view() =~= pre + add);
        }
        head
    } else {
        let r: Vec<Violation> = Vec::new();
        proof {
            assert(r.deep_view() =~= Seq::<ViolationData>::empty());
        }
        r
    }
}

/// Analyzes parsed modules and returns a list of violations: each module's
/// violations in traversal order, modules in input order.
pub fn analyze_modules(modules: Vec<ParsedModule>, rules: ValidationRuleSet) -> (r: Vec<Violation>)
    ensures
        r.deep_view() == spec_analyze(modules@, rules),
{
    analyze_from(&modules, rules, 0)
}

} // verus!
