//! The validation classifier: decides whether an expression is a call that
//! counts as validating request input under the active rule set.

use vstd::prelude::*;

verus! {

use crate::ast::{Expr, MemberProp};
use crate::utils::text_eq;

/// Which call names count as evidence of validation.
#[derive(Debug, Clone, Copy)]
pub enum ValidationRuleSet {
    /// Only `.parse(...)`.
    ZodStrict,
    /// `.parse(...)` or `.safeParse(...)`.
    ZodLenient,
    /// `.parse(...)` or `.validate(...)`.
    Custom,
}

/// True iff `name` is one of the call names the rule set accepts.
pub open spec fn spec_rule_accepts(rules: ValidationRuleSet, name: Seq<char>) -> bool {
    match rules {
        ValidationRuleSet::ZodStrict => name == "parse"@,
        ValidationRuleSet::ZodLenient => name == "parse"@ || name == "safeParse"@,
        ValidationRuleSet::Custom => name == "parse"@ || name == "validate"@,
    }
}

/// True iff `e` is a call whose callee is a property access with a plain
/// property name accepted by the rule set.  The receiver of the call is
/// ignored entirely: any object's `.parse(...)` qualifies.
pub open spec fn spec_is_validation_call(e: Expr, rules: ValidationRuleSet) -> bool {
    match e {
        Expr::Call { callee: Option::Some(c), .. } => match *c {
            Expr::Member { prop: MemberProp::Named { name }, .. } => spec_rule_accepts(
                rules,
                name@,
            ),
            _ => false,
        },
        _ => false,
    }
}

/// Law: which names validate under which rule set.  `parse` validates under
/// every rule set; `safeParse` only under the lenient set; `validate` only
/// under the custom set.  Classification of a call through a plain property
/// name depends on that name and the rule set alone.
pub proof fn lemma_rule_set_names()
    ensures
        spec_rule_accepts(ValidationRuleSet::ZodStrict, "parse"@),
        spec_rule_accepts(ValidationRuleSet::ZodLenient, "parse"@),
        spec_rule_accepts(ValidationRuleSet::Custom, "parse"@),
        !spec_rule_accepts(ValidationRuleSet::ZodStrict, "safeParse"@),
        spec_rule_accepts(ValidationRuleSet::ZodLenient, "safeParse"@),
        !spec_rule_accepts(ValidationRuleSet::Custom, "safeParse"@),
        !spec_rule_accepts(ValidationRuleSet::ZodStrict, "validate"@),
        !spec_rule_accepts(ValidationRuleSet::ZodLenient, "validate"@),
        spec_rule_accepts(ValidationRuleSet::Custom, "validate"@),
{
    reveal_strlit("parse");
    reveal_strlit("safeParse");
    reveal_strlit("validate");
    assert("parse"@.len() == 5);
    assert("safeParse"@.len() == 9);
    assert("validate"@.len() == 8);
}

/// Returns true if the expression looks like a validation call (for example
/// `.parse(...)`) under the given rule set.
pub fn is_validation_call(expr: &Expr, rules: ValidationRuleSet) -> (r: bool)
    ensures
        r == spec_is_validation_call(*expr, rules),
{
    match expr {
        Expr::Call { callee: Option::Some(c), .. } => match &**c {
            Expr::Member { prop: MemberProp::Named { name }, .. } => match rules {
                ValidationRuleSet::ZodStrict => text_eq(name.as_str(), "parse"),
                ValidationRuleSet::ZodLenient => text_eq(name.as_str(), "parse") || text_eq(
                    name.as_str(),
                    "safeParse",
                ),
                ValidationRuleSet::Custom => text_eq(name.as_str(), "parse") || text_eq(
                    name.as_str(),
                    "validate",
                ),
            },
            _ => false,
        },
        _ => false,
    }
}

} // verus!
