//! The handler-body scanner: one depth-first pre-order traversal of a
//! handler's body that marks validation calls, tracks aliases of request
//! fields, and appends a violation for every use of unvalidated request
//! input, in traversal (document) order.
//!
//! The `validated` flag is read and written during the same single pass, so
//! a validation call that occurs later in the syntax tree than a tainted
//! access does not suppress that access's violation.  This traversal-order
//! sensitivity is deliberate and is pinned down by the specification
//! functions here.

use vstd::prelude::*;

verus! {

use crate::alias::AliasMap;
use crate::ast::{Expr, MemberProp, Pat, Pos, Stmt, VarDeclarator};
use crate::utils::text_eq;
use crate::validation::{is_validation_call, spec_is_validation_call, ValidationRuleSet};
use crate::violation::{
    alias_access_message, direct_access_message, indirect_access_message,
    spec_alias_access_message, spec_direct_access_message, spec_indirect_access_message, Violation,
    ViolationData, ViolationKind,
};

/// The mathematical state of one handler scope: the alias mapping, whether a
/// validation call has been seen yet, and the violations appended so far.
pub struct ScopeModel {
    pub aliases: Map<Seq<char>, Seq<char>>,
    pub validated: bool,
    pub violations: Seq<ViolationData>,
}

/// The state a freshly opened handler scope starts in.
pub open spec fn spec_fresh_scope() -> ScopeModel {
    ScopeModel { aliases: Map::empty(), validated: false, violations: Seq::empty() }
}

/// The three tracked request-input categories.
pub open spec fn spec_is_request_field(name: Seq<char>) -> bool {
    name == "body"@ || name == "params"@ || name == "query"@
}

/// True iff `name` names one of the tracked request-input categories.
pub fn is_request_field(name: &str) -> (r: bool)
    ensures
        r == spec_is_request_field(name@),
{
    text_eq(name, "body") || text_eq(name, "params") || text_eq(name, "query")
}

/// How a property is rendered inside an indirect-access message: a plain
/// name verbatim; a computed literal as `[computed: <literal-debug>]`; a
/// computed identifier as `[computed: <name>]`; any other computed
/// expression as `[computed]`; any other property form as `[unsupported]`.
pub open spec fn spec_member_name(prop: MemberProp) -> Seq<char> {
    match prop {
        MemberProp::Named { name } => name@,
        MemberProp::Computed { index } => match *index {
            Expr::Lit { debug, .. } => "[computed: "@ + debug@ + "]"@,
            Expr::Ident { name, .. } => "[computed: "@ + name@ + "]"@,
            _ => "[computed]"@,
        },
        MemberProp::Unsupported => "[unsupported]"@,
    }
}

/// Renders a property for display inside a violation message.
pub fn member_name(prop: &MemberProp) -> (r: String)
    ensures
        r@ == spec_member_name(*prop),
{
    match prop {
        MemberProp::Named { name } => name.clone(),
        MemberProp::Computed { index } => match &**index {
            Expr::Lit { debug, .. } => {
                let mut r = String::from_str("[computed: ");
                r.append(debug.as_str());
                r.append("]");
                r
            },
            Expr::Ident { name, .. } => {
                let mut r = String::from_str("[computed: ");
                r.append(name.as_str());
                r.append("]");
                r
            },
            _ => String::from_str("[computed]"),
        },
        MemberProp::Unsupported => String::from_str("[unsupported]"),
    }
}

/// The violation record appended for a node at `pos` of the module `file`.
pub open spec fn spec_violation(
    file: Seq<char>,
    pos: Pos,
    kind: ViolationKind,
    message: Seq<char>,
) -> ViolationData {
    ViolationData {
        file: file,
        line: pos.line as int,
        column: pos.col as int,
        kind: kind,
        message: message,
    }
}

/// Appends one violation to the scope.
pub open spec fn spec_append(s: ScopeModel, v: ViolationData) -> ScopeModel {
    ScopeModel { violations: s.violations.push(v), ..s }
}

/// Step one of a node visit: a validation call sets the `validated` flag
/// (idempotently); every other node leaves the scope unchanged.
pub open spec fn spec_mark_validation(rules: ValidationRuleSet, e: Expr, s: ScopeModel) -> ScopeModel {
    if spec_is_validation_call(e, rules) {
        ScopeModel { validated: true, ..s }
    } else {
        s
    }
}

/// Step two of a node visit: a property access on the identifier `req` or on
/// a tracked alias appends a violation while the scope is unvalidated.
pub open spec fn spec_check_member(file: Seq<char>, e: Expr, s: ScopeModel) -> ScopeModel {
    match e {
        Expr::Member { obj, prop, pos } => match *obj {
            Expr::Ident { name: obj_name, .. } => {
                if obj_name@ == "req"@ {
                    match prop {
                        MemberProp::Named { name: p } => {
                            if spec_is_request_field(p@) && !s.validated {
                                spec_append(
                                    s,
                                    spec_violation(
                                        file,
                                        pos,
                                        ViolationKind::DirectAccess,
                                        spec_direct_access_message(p@),
                                    ),
                                )
                            } else {
                                s
                            }
                        },
                        _ => s,
                    }
                } else if s.aliases.contains_key(obj_name@) {
                    if !s.validated {
                        spec_append(
                            s,
                            spec_violation(
                                file,
                                pos,
                                ViolationKind::IndirectAccess,
                                spec_indirect_access_message(
                                    obj_name@,
                                    spec_member_name(prop),
                                    s.aliases[obj_name@],
                                ),
                            ),
                        )
                    } else {
                        s
                    }
                } else {
                    s
                }
            },
            _ => s,
        },
        _ => s,
    }
}

/// Step three of a node visit: a bare identifier matching a tracked alias
/// appends a violation while the scope is unvalidated.
pub open spec fn spec_check_ident(file: Seq<char>, e: Expr, s: ScopeModel) -> ScopeModel {
    match e {
        Expr::Ident { name, pos } => {
            if s.aliases.contains_key(name@) && !s.validated {
                spec_append(
                    s,
                    spec_violation(
                        file,
                        pos,
                        ViolationKind::Alias,
                        spec_alias_access_message(s.aliases[name@], name@),
                    ),
                )
            } else {
                s
            }
        },
        _ => s,
    }
}

/// Everything a visit does at one expression node before descending into the
/// node's children, in order: mark validation, check property accesses,
/// check bare identifiers.
pub open spec fn spec_visit_node(
    file: Seq<char>,
    rules: ValidationRuleSet,
    e: Expr,
    s: ScopeModel,
) -> ScopeModel {
    spec_check_ident(file, e, spec_check_member(file, e, spec_mark_validation(rules, e, s)))
}

/// What a local-binding declarator does to the alias mapping:
/// `<name> = req.<field>` binds the name to the field, and object
/// destructuring from the identifier `req` binds each destructured key to
/// itself.  Any other declaration shape changes nothing.
pub open spec fn spec_declare(d: VarDeclarator, m: Map<Seq<char>, Seq<char>>) -> Map<
    Seq<char>,
    Seq<char>,
> {
    match d.name {
        Pat::Ident { name } => match d.init {
            Option::Some(init) => match init {
                Expr::Member { obj, prop: MemberProp::Named { name: p }, .. } => match *obj {
                    Expr::Ident { name: o, .. } => {
                        if o@ == "req"@ && spec_is_request_field(p@) {
                            m.insert(name@, p@)
                        } else {
                            m
                        }
                    },
                    _ => m,
                },
                _ => m,
            },
            Option::None => m,
        },
        Pat::Object { keys } => match d.init {
            Option::Some(init) => match init {
                Expr::Ident { name: o, .. } => {
                    if o@ == "req"@ {
                        spec_declare_keys(keys@, 0, m)
                    } else {
                        m
                    }
                },
                _ => m,
            },
            Option::None => m,
        },
        Pat::Other => m,
    }
}

/// Binds each destructured key from index `i` on to itself, in order.
pub open spec fn spec_declare_keys(keys: Seq<String>, i: int, m: Map<Seq<char>, Seq<char>>) -> Map<
    Seq<char>,
    Seq<char>,
>
    decreases keys.len() - i,
{
    if i < 0 || i >= keys.len() {
        m
    } else {
        spec_declare_keys(keys, i + 1, m.insert(keys[i]@, keys[i]@))
    }
}

/// The scanner's depth-first pre-order pass over one expression: visit the
/// node itself, then recurse into all children in document order.
pub open spec fn spec_scan_expr(
    file: Seq<char>,
    rules: ValidationRuleSet,
    e: Expr,
    s: ScopeModel,
) -> ScopeModel
    decreases e,
{
    let s1 = spec_visit_node(file, rules, e, s);
    match e {
        Expr::Ident { .. } => s1,
        Expr::Lit { .. } => s1,
        Expr::Member { obj, prop, .. } => {
            let s2 = spec_scan_expr(file, rules, *obj, s1);
            match prop {
                MemberProp::Computed { index } => spec_scan_expr(file, rules, *index, s2),
                _ => s2,
            }
        },
        Expr::Call { callee, args, .. } => {
            let s2 = match callee {
                Option::Some(c) => spec_scan_expr(file, rules, *c, s1),
                Option::None => s1,
            };
            spec_scan_exprs(file, rules, args@, 0, s2)
        },
        Expr::Arrow { body, .. } => spec_scan_stmts(file, rules, body@, 0, s1),
        Expr::Other { exprs, stmts, .. } => spec_scan_stmts(
            file,
            rules,
            stmts@,
            0,
            spec_scan_exprs(file, rules, exprs@, 0, s1),
        ),
    }
}

/// Scans the expressions of `es` from index `i` on, left to right.
pub open spec fn spec_scan_exprs(
    file: Seq<char>,
    rules: ValidationRuleSet,
    es: Seq<Expr>,
    i: int,
    s: ScopeModel,
) -> ScopeModel
    decreases es, es.len() - i,
{
    if i < 0 || i >= es.len() {
        s
    } else {
        spec_scan_exprs(file, rules, es, i + 1, spec_scan_expr(file, rules, es[i], s))
    }
}

/// The scanner's pass over one statement.
pub open spec fn spec_scan_stmt(
    file: Seq<char>,
    rules: ValidationRuleSet,
    st: Stmt,
    s: ScopeModel,
) -> ScopeModel
    decreases st,
{
    match st {
        Stmt::Expr { expr } => spec_scan_expr(file, rules, expr, s),
        Stmt::VarDecl { decls } => spec_scan_decls(file, rules, decls@, 0, s),
        Stmt::Other { exprs, stmts } => spec_scan_stmts(
            file,
            rules,
            stmts@,
            0,
            spec_scan_exprs(file, rules, exprs@, 0, s),
        ),
    }
}

/// Scans the statements of `ss` from index `i` on, in order.
pub open spec fn spec_scan_stmts(
    file: Seq<char>,
    rules: ValidationRuleSet,
    ss: Seq<Stmt>,
    i: int,
    s: ScopeModel,
) -> ScopeModel
    decreases ss, ss.len() - i,
{
    if i < 0 || i >= ss.len() {
        s
    } else {
        spec_scan_stmts(file, rules, ss, i + 1, spec_scan_stmt(file, rules, ss[i], s))
    }
}

/// The scanner's pass over one declarator: first record any alias the
/// declarator introduces, then descend into its initializer.
pub open spec fn spec_scan_decl(
    file: Seq<char>,
    rules: ValidationRuleSet,
    d: VarDeclarator,
    s: ScopeModel,
) -> ScopeModel
    decreases d,
{
    let s1 = ScopeModel { aliases: spec_declare(d, s.aliases), ..s };
    match d.init {
        Option::Some(init) => spec_scan_expr(file, rules, init, s1),
        Option::None => s1,
    }
}

/// Scans the declarators of `ds` from index `i` on, in order.
pub open spec fn spec_scan_decls(
    file: Seq<char>,
    rules: ValidationRuleSet,
    ds: Seq<VarDeclarator>,
    i: int,
    s: ScopeModel,
) -> ScopeModel
    decreases ds, ds.len() - i,
{
    if i < 0 || i >= ds.len() {
        s
    } else {
        spec_scan_decls(file, rules, ds, i + 1, spec_scan_decl(file, rules, ds[i], s))
    }
}

/// Law: the `validated` flag is monotonic — it can transition false to true
/// and never back — and, once set, it suppresses every violation: scanning
/// any expression from a validated scope leaves the violation list exactly
/// as it was (declarations are still recorded, but nothing is reported).
pub proof fn lemma_validated_scope_expr(
    file: Seq<char>,
    rules: ValidationRuleSet,
    e: Expr,
    s: ScopeModel,
)
    requires
        s.validated,
    ensures
        spec_scan_expr(file, rules, e, s).validated,
        spec_scan_expr(file, rules, e, s).violations == s.violations,
    decreases e,
{
    let s1 = spec_visit_node(file, rules, e, s);
    assert(s1.validated && s1.violations == s.violations);
    match e {
        Expr::Ident { .. } => {},
        Expr::Lit { .. } => {},
        Expr::Member { obj, prop, .. } => {
            lemma_validated_scope_expr(file, rules, *obj, s1);
            match prop {
                MemberProp::Computed { index } => {
                    lemma_validated_scope_expr(file, rules, *index, spec_scan_expr(file, rules, *obj, s1));
                },
                _ => {},
            }
        },
        Expr::Call { callee, args, .. } => {
            let s2 = match callee {
                Option::Some(c) => spec_scan_expr(file, rules, *c, s1),
                Option::None => s1,
            };
            match callee {
                Option::Some(c) => {
                    lemma_validated_scope_expr(file, rules, *c, s1);
                },
                Option::None => {},
            }
            lemma_validated_scope_exprs(file, rules, args@, 0, s2);
        },
        Expr::Arrow { body, .. } => {
            lemma_validated_scope_stmts(file, rules, body@, 0, s1);
        },
        Expr::Other { exprs, stmts, .. } => {
            lemma_validated_scope_exprs(file, rules, exprs@, 0, s1);
            lemma_validated_scope_stmts(file, rules, stmts@, 0, spec_scan_exprs(file, rules, exprs@, 0, s1));
        },
    }
}

/// The expression-list case of the validated-scope law.
pub proof fn lemma_validated_scope_exprs(
    file: Seq<char>,
    rules: ValidationRuleSet,
    es: Seq<Expr>,
    i: int,
    s: ScopeModel,
)
    requires
        s.validated,
    ensures
        spec_scan_exprs(file, rules, es, i, s).validated,
        spec_scan_exprs(file, rules, es, i, s).violations == s.violations,
    decreases es, es.len() - i,
{
    if 0 <= i < es.len() {
        lemma_validated_scope_expr(file, rules, es[i], s);
        lemma_validated_scope_exprs(file, rules, es, i + 1, spec_scan_expr(file, rules, es[i], s));
    }
}

/// The statement case of the validated-scope law.
pub proof fn lemma_validated_scope_stmt(
    file: Seq<char>,
    rules: ValidationRuleSet,
    st: Stmt,
    s: ScopeModel,
)
    requires
        s.validated,
    ensures
        spec_scan_stmt(file, rules, st, s).validated,
        spec_scan_stmt(file, rules, st, s).violations == s.violations,
    decreases st,
{
    match st {
        Stmt::Expr { expr } => {
            lemma_validated_scope_expr(file, rules, expr, s);
        },
        Stmt::VarDecl { decls } => {
            lemma_validated_scope_decls(file, rules, decls@, 0, s);
        },
        Stmt::Other { exprs, stmts } => {
            lemma_validated_scope_exprs(file, rules, exprs@, 0, s);
            lemma_validated_scope_stmts(file, rules, stmts@, 0, spec_scan_exprs(file, rules, exprs@, 0, s));
        },
    }
}

/// The statement-list case of the validated-scope law.
pub proof fn lemma_validated_scope_stmts(
    file: Seq<char>,
    rules: ValidationRuleSet,
    ss: Seq<Stmt>,
    i: int,
    s: ScopeModel,
)
    requires
        s.validated,
    ensures
        spec_scan_stmts(file, rules, ss, i, s).validated,
        spec_scan_stmts(file, rules, ss, i, s).violations == s.violations,
    decreases ss, ss.len() - i,
{
    if 0 <= i < ss.len() {
        lemma_validated_scope_stmt(file, rules, ss[i], s);
        lemma_validated_scope_stmts(file, rules, ss, i + 1, spec_scan_stmt(file, rules, ss[i], s));
    }
}

/// The declarator case of the validated-scope law.
pub proof fn lemma_validated_scope_decl(
    file: Seq<char>,
    rules: ValidationRuleSet,
    d: VarDeclarator,
    s: ScopeModel,
)
    requires
        s.validated,
    ensures
        spec_scan_decl(file, rules, d, s).validated,
        spec_scan_decl(file, rules, d, s).violations == s.violations,
    decreases d,
{
    let s1 = ScopeModel { aliases: spec_declare(d, s.aliases), ..s };
    match d.init {
        Option::Some(init) => {
            lemma_validated_scope_expr(file, rules, init, s1);
        },
        Option::None => {},
    }
}

/// The declarator-list case of the validated-scope law.
pub proof fn lemma_validated_scope_decls(
    file: Seq<char>,
    rules: ValidationRuleSet,
    ds: Seq<VarDeclarator>,
    i: int,
    s: ScopeModel,
)
    requires
        s.validated,
    ensures
        spec_scan_decls(file, rules, ds, i, s).validated,
        spec_scan_decls(file, rules, ds, i, s).violations == s.violations,
    decreases ds, ds.len() - i,
{
    if 0 <= i < ds.len() {
        lemma_validated_scope_decl(file, rules, ds[i], s);
        lemma_validated_scope_decls(file, rules, ds, i + 1, spec_scan_decl(file, rules, ds[i], s));
    }
}

/// Law: the scanner only appends.  Violations already in the scope when a
/// subtree's scan starts stay in front, unchanged and in order, and what the
/// subtree contributes does not depend on them: the list accumulates in
/// traversal order and nothing is ever removed or reordered.
pub proof fn lemma_scan_expr_frame(
    file: Seq<char>,
    rules: ValidationRuleSet,
    e: Expr,
    p: Seq<ViolationData>,
    s: ScopeModel,
)
    ensures
        spec_scan_expr(file, rules, e, ScopeModel { violations: p + s.violations, ..s })
            == (ScopeModel {
            violations: p + spec_scan_expr(file, rules, e, s).violations,
            ..spec_scan_expr(file, rules, e, s)
        }),
    decreases e,
{
    let sp = ScopeModel { violations: p + s.violations, ..s };
    let s1 = spec_visit_node(file, rules, e, s);
    let sp1 = spec_visit_node(file, rules, e, sp);
    assert(sp1 == (ScopeModel { violations: p + s1.violations, ..s1 })) by {
        let sm = spec_mark_validation(rules, e, s);
        let spm = spec_mark_validation(rules, e, sp);
        assert(spm == (ScopeModel { violations: p + sm.violations, ..sm }));
        assert forall|v: ViolationData| #[trigger] ((p + sm.violations).push(v)) =~= p
            + sm.violations.push(v) by {}
        let sc = spec_check_member(file, e, sm);
        let spc = spec_check_member(file, e, spm);
        assert(spc == (ScopeModel { violations: p + sc.violations, ..sc }));
        assert forall|v: ViolationData| #[trigger] ((p + sc.violations).push(v)) =~= p
            + sc.violations.push(v) by {}
    }
    match e {
        Expr::Ident { .. } => {},
        Expr::Lit { .. } => {},
        Expr::Member { obj, prop, .. } => {
            lemma_scan_expr_frame(file, rules, *obj, p, s1);
            match prop {
                MemberProp::Computed { index } => {
                    lemma_scan_expr_frame(file, rules, *index, p, spec_scan_expr(file, rules, *obj, s1));
                },
                _ => {},
            }
        },
        Expr::Call { callee, args, .. } => {
            let s2 = match callee {
                Option::Some(c) => spec_scan_expr(file, rules, *c, s1),
                Option::None => s1,
            };
            match callee {
                Option::Some(c) => {
                    lemma_scan_expr_frame(file, rules, *c, p, s1);
                },
                Option::None => {},
            }
            lemma_scan_exprs_frame(file, rules, args@, 0, p, s2);
        },
        Expr::Arrow { body, .. } => {
            lemma_scan_stmts_frame(file, rules, body@, 0, p, s1);
        },
        Expr::Other { exprs, stmts, .. } => {
            lemma_scan_exprs_frame(file, rules, exprs@, 0, p, s1);
            lemma_scan_stmts_frame(
                file,
                rules,
                stmts@,
                0,
                p,
                spec_scan_exprs(file, rules, exprs@, 0, s1),
            );
        },
    }
}

/// The expression-list case of the scanner frame law.
pub proof fn lemma_scan_exprs_frame(
    file: Seq<char>,
    rules: ValidationRuleSet,
    es: Seq<Expr>,
    i: int,
    p: Seq<ViolationData>,
    s: ScopeModel,
)
    ensures
        spec_scan_exprs(file, rules, es, i, ScopeModel { violations: p + s.violations, ..s })
            == (ScopeModel {
            violations: p + spec_scan_exprs(file, rules, es, i, s).violations,
            ..spec_scan_exprs(file, rules, es, i, s)
        }),
    decreases es, es.len() - i,
{
    if 0 <= i < es.len() {
        lemma_scan_expr_frame(file, rules, es[i], p, s);
        lemma_scan_exprs_frame(file, rules, es, i + 1, p, spec_scan_expr(file, rules, es[i], s));
    }
}

/// The statement case of the scanner frame law.
pub proof fn lemma_scan_stmt_frame(
    file: Seq<char>,
    rules: ValidationRuleSet,
    st: Stmt,
    p: Seq<ViolationData>,
    s: ScopeModel,
)
    ensures
        spec_scan_stmt(file, rules, st, ScopeModel { violations: p + s.violations, ..s })
            == (ScopeModel {
            violations: p + spec_scan_stmt(file, rules, st, s).violations,
            ..spec_scan_stmt(file, rules, st, s)
        }),
    decreases st,
{
    match st {
        Stmt::Expr { expr } => {
            lemma_scan_expr_frame(file, rules, expr, p, s);
        },
        Stmt::VarDecl { decls } => {
            lemma_scan_decls_frame(file, rules, decls@, 0, p, s);
        },
        Stmt::Other { exprs, stmts } => {
            lemma_scan_exprs_frame(file, rules, exprs@, 0, p, s);
            lemma_scan_stmts_frame(
                file,
                rules,
                stmts@,
                0,
                p,
                spec_scan_exprs(file, rules, exprs@, 0, s),
            );
        },
    }
}

/// The statement-list case of the scanner frame law.
pub proof fn lemma_scan_stmts_frame(
    file: Seq<char>,
    rules: ValidationRuleSet,
    ss: Seq<Stmt>,
    i: int,
    p: Seq<ViolationData>,
    s: ScopeModel,
)
    ensures
        spec_scan_stmts(file, rules, ss, i, ScopeModel { violations: p + s.violations, ..s })
            == (ScopeModel {
            violations: p + spec_scan_stmts(file, rules, ss, i, s).violations,
            ..spec_scan_stmts(file, rules, ss, i, s)
        }),
    decreases ss, ss.len() - i,
{
    if 0 <= i < ss.len() {
        lemma_scan_stmt_frame(file, rules, ss[i], p, s);
        lemma_scan_stmts_frame(file, rules, ss, i + 1, p, spec_scan_stmt(file, rules, ss[i], s));
    }
}

/// The declarator case of the scanner frame law.
pub proof fn lemma_scan_decl_frame(
    file: Seq<char>,
    rules: ValidationRuleSet,
    d: VarDeclarator,
    p: Seq<ViolationData>,
    s: ScopeModel,
)
    ensures
        spec_scan_decl(file, rules, d, ScopeModel { violations: p + s.violations, ..s })
            == (ScopeModel {
            violations: p + spec_scan_decl(file, rules, d, s).violations,
            ..spec_scan_decl(file, rules, d, s)
        }),
    decreases d,
{
    let s1 = ScopeModel { aliases: spec_declare(d, s.aliases), ..s };
    match d.init {
        Option::Some(init) => {
            lemma_scan_expr_frame(file, rules, init, p, s1);
        },
        Option::None => {},
    }
}

/// The declarator-list case of the scanner frame law.
pub proof fn lemma_scan_decls_frame(
    file: Seq<char>,
    rules: ValidationRuleSet,
    ds: Seq<VarDeclarator>,
    i: int,
    p: Seq<ViolationData>,
    s: ScopeModel,
)
    ensures
        spec_scan_decls(file, rules, ds, i, ScopeModel { violations: p + s.violations, ..s })
            == (ScopeModel {
            violations: p + spec_scan_decls(file, rules, ds, i, s).violations,
            ..spec_scan_decls(file, rules, ds, i, s)
        }),
    decreases ds, ds.len() - i,
{
    if 0 <= i < ds.len() {
        lemma_scan_decl_frame(file, rules, ds[i], p, s);
        lemma_scan_decls_frame(file, rules, ds, i + 1, p, spec_scan_decl(file, rules, ds[i], s));
    }
}

/// Scanning a body extended by one statement first scans the shorter body,
/// then the added statement, from wherever the first scan left off.
pub proof fn lemma_scan_stmts_push(
    file: Seq<char>,
    rules: ValidationRuleSet,
    ss: Seq<Stmt>,
    t: Stmt,
    i: int,
    s: ScopeModel,
)
    requires
        0 <= i <= ss.len(),
    ensures
        spec_scan_stmts(file, rules, ss.push(t), i, s) == spec_scan_stmt(
            file,
            rules,
            t,
            spec_scan_stmts(file, rules, ss, i, s),
        ),
    decreases ss.len() - i,
{
    if i == ss.len() {
        assert(ss.push(t)[i] == t);
        let s1 = spec_scan_stmt(file, rules, t, s);
        assert(spec_scan_stmts(file, rules, ss.push(t), i + 1, s1) == s1);
        assert(spec_scan_stmts(file, rules, ss.push(t), i, s) == spec_scan_stmts(
            file,
            rules,
            ss.push(t),
            i + 1,
            s1,
        ));
        assert(spec_scan_stmts(file, rules, ss, i, s) == s);
    } else {
        assert(ss.push(t)[i] == ss[i]);
        lemma_scan_stmts_push(file, rules, ss, t, i + 1, spec_scan_stmt(file, rules, ss[i], s));
    }
}

/// Law: the scan is traversal-order sensitive, not execution-order
/// sensitive.  If scanning a handler body from a fresh scope has seen a
/// validation call (the scope ends validated), then any statement appended
/// after that body — however tainted — adds no violation at all.  A
/// validation call that occurs later in the tree than a tainted access does
/// not enjoy this: the violation list of the unextended body stays as it is.
pub proof fn lemma_validation_before_access_suppresses(
    file: Seq<char>,
    rules: ValidationRuleSet,
    body: Seq<Stmt>,
    t: Stmt,
)
    requires
        spec_scan_stmts(file, rules, body, 0, spec_fresh_scope()).validated,
    ensures
        spec_scan_stmts(file, rules, body.push(t), 0, spec_fresh_scope()).violations
            == spec_scan_stmts(file, rules, body, 0, spec_fresh_scope()).violations,
{
    lemma_scan_stmts_push(file, rules, body, t, 0, spec_fresh_scope());
    lemma_validated_scope_stmt(
        file,
        rules,
        t,
        spec_scan_stmts(file, rules, body, 0, spec_fresh_scope()),
    );
}

/// The mutable state of one handler scope while its body is scanned: the
/// alias tracker, the validation flag, and the violations found so far, plus
/// the file name and rule set the scan runs under.  Created fresh for each
/// handler registration and discarded once the body has been traversed.
pub struct ControllerVisitor {
    pub file: String,
    pub aliases: AliasMap,
    pub found_validation: bool,
    pub violations: Vec<Violation>,
    pub rules: ValidationRuleSet,
}

impl View for ControllerVisitor {
    type V = ScopeModel;

    open spec fn view(&self) -> ScopeModel {
        ScopeModel {
            aliases: self.aliases@,
            validated: self.found_validation,
            violations: self.violations.deep_view(),
        }
    }
}

impl ControllerVisitor {
    /// A fresh scope for one handler of `file` under `rules`.
    pub fn new(file: String, rules: ValidationRuleSet) -> (r: ControllerVisitor)
        ensures
            r@ == spec_fresh_scope(),
            r.file == file,
            r.rules == rules,
    {
        let r = ControllerVisitor {
            file: file,
            aliases: AliasMap::new(),
            found_validation: false,
            violations: Vec::new(),
            rules: rules,
        };
        proof {
            assert(r.violations.deep_view() =~= Seq::<ViolationData>::empty());
        }
        r
    }

    fn push_violation(&mut self, v: Violation)
        ensures
            final(self)@ == spec_append(old(self)@, v@),
            final(self).file == old(self).file,
            final(self).rules == old(self).rules,
    {
        self.violations.push(v);
        proof {
            assert(self.violations.deep_view() =~= old(self).violations.deep_view().push(v@));
        }
    }

    /// One pre-order visit of an expression node and everything below it.
    pub fn visit_expr(&mut self, e: &Expr)
        ensures
            final(self)@ == spec_scan_expr(old(self).file@, old(self).rules, *e, old(self)@),
            final(self).file == old(self).file,
            final(self).rules == old(self).rules,
        decreases *e,
    {
        let ghost s0 = self@;
        if is_validation_call(e, self.rules) {
            self.found_validation = true;
        }
        assert(self@ == spec_mark_validation(old(self).rules, *e, s0));
        let ghost s1 = self@;
        match e {
            Expr::Member { obj, prop, pos } => match &**obj {
                Expr::Ident { name: obj_name, .. } => {
                    if text_eq(obj_name.as_str(), "req") {
                        if let MemberProp::Named { name: p } = prop {
                            if is_request_field(p.as_str()) && !self.found_validation {
                                let message = direct_access_message(p.as_str());
                                self.push_violation(
                                    Violation {
                                        file: self.file.clone(),
                                        line: pos.line,
                                        column: pos.col,
                                        kind: ViolationKind::DirectAccess,
                                        message: message,
                                    },
                                );
                            }
                        }
                    } else {
                        let found = self.aliases.get(obj_name.as_str());
                        if let Option::Some(field) = found {
                            if !self.found_validation {
                                let shown = member_name(prop);
                                let message = indirect_access_message(
                                    obj_name.as_str(),
                                    shown.as_str(),
                                    field.as_str(),
                                );
                                self.push_violation(
                                    Violation {
                                        file: self.file.clone(),
                                        line: pos.line,
                                        column: pos.col,
                                        kind: ViolationKind::IndirectAccess,
                                        message: message,
                                    },
                                );
                            }
                        }
                    }
                },
                _ => {},
            },
            _ => {},
        }
        assert(self@ == spec_check_member(old(self).file@, *e, s1));
        let ghost s2 = self@;
        match e {
            Expr::Ident { name, pos } => {
                let found = self.aliases.get(name.as_str());
                if let Option::Some(field) = found {
                    if !self.found_validation {
                        let message = alias_access_message(field.as_str(), name.as_str());
                        self.push_violation(
                            Violation {
                                file: self.file.clone(),
                                line: pos.line,
                                column: pos.col,
                                kind: ViolationKind::Alias,
                                message: message,
                            },
                        );
                    }
                }
            },
            _ => {},
        }
        assert(self@ == spec_check_ident(old(self).file@, *e, s2));
        match e {
            Expr::Ident { .. } => {},
            Expr::Lit { .. } => {},
            Expr::Member { obj, prop, .. } => {
                self.visit_expr(obj);
                if let MemberProp::Computed { index } = prop {
                    self.visit_expr(index);
                }
            },
            Expr::Call { callee, args, .. } => {
                if let Option::Some(c) = callee {
                    self.visit_expr(c);
                }
                self.visit_exprs(args, 0);
            },
            Expr::Arrow { body, .. } => {
                self.visit_stmts(body, 0);
            },
            Expr::Other { exprs, stmts, .. } => {
                self.visit_exprs(exprs, 0);
                self.visit_stmts(stmts, 0);
            },
        }
    }

    fn visit_exprs(&mut self, es: &Vec<Expr>, i: usize)
        requires
            i <= es.len(),
        ensures
            final(self)@ == spec_scan_exprs(
                old(self).file@,
                old(self).rules,
                es@,
                i as int,
                old(self)@,
            ),
            final(self).file == old(self).file,
            final(self).rules == old(self).rules,
        decreases es@, es@.len() - i,
    {
        if i < es.len() {
            self.visit_expr(&es[i]);
            self.visit_exprs(es, i + 1);
        }
    }

    /// One pre-order visit of a statement node and everything below it.
    pub fn visit_stmt(&mut self, st: &Stmt)
        ensures
            final(self)@ == spec_scan_stmt(old(self).file@, old(self).rules, *st, old(self)@),
            final(self).file == old(self).file,
            final(self).rules == old(self).rules,
        decreases *st,
    {
        match st {
            Stmt::Expr { expr } => {
                self.visit_expr(expr);
            },
            Stmt::VarDecl { decls } => {
                self.visit_decls(decls, 0);
            },
            Stmt::Other { exprs, stmts } => {
                self.visit_exprs(exprs, 0);
                self.visit_stmts(stmts, 0);
            },
        }
    }

    /// Scans a whole handler body, statement by statement.
    pub fn visit_stmts(&mut self, ss: &Vec<Stmt>, i: usize)
        requires
            i <= ss.len(),
        ensures
            final(self)@ == spec_scan_stmts(
                old(self).file@,
                old(self).rules,
                ss@,
                i as int,
                old(self)@,
            ),
            final(self).file == old(self).file,
            final(self).rules == old(self).rules,
        decreases ss@, ss@.len() - i,
    {
        if i < ss.len() {
            self.visit_stmt(&ss[i]);
            self.visit_stmts(ss, i + 1);
        }
    }

    /// One visit of a local-binding declarator: record any alias it
    /// introduces, then descend into its initializer.
    pub fn visit_var_declarator(&mut self, d: &VarDeclarator)
        ensures
            final(self)@ == spec_scan_decl(old(self).file@, old(self).rules, *d, old(self)@),
            final(self).file == old(self).file,
            final(self).rules == old(self).rules,
        decreases *d,
    {
        let ghost s0 = self@;
        match &d.name {
            Pat::Ident { name } => {
                if let Option::Some(init) = &d.init {
                    if let Expr::Member { obj, prop, .. } = init {
                        if let Expr::Ident { name: o, .. } = &**obj {
                            if let MemberProp::Named { name: p } = prop {
                                if text_eq(o.as_str(), "req") && is_request_field(p.as_str()) {
                                    self.aliases.insert(name.clone(), p.clone());
                                }
                            }
                        }
                    }
                }
            },
            Pat::Object { keys } => {
                if let Option::Some(init) = &d.init {
                    if let Expr::Ident { name: o, .. } = init {
                        if text_eq(o.as_str(), "req") {
                            self.declare_keys(keys, 0);
                        }
                    }
                }
            },
            Pat::Other => {},
        }
        assert(self@ == (ScopeModel { aliases: spec_declare(*d, s0.aliases), ..s0 }));
        if let Option::Some(init) = &d.init {
            self.visit_expr(init);
        }
    }

    fn visit_decls(&mut self, ds: &Vec<VarDeclarator>, i: usize)
        requires
            i <= ds.len(),
        ensures
            final(self)@ == spec_scan_decls(
                old(self).file@,
                old(self).rules,
                ds@,
                i as int,
                old(self)@,
            ),
            final(self).file == old(self).file,
            final(self).rules == old(self).rules,
        decreases ds@, ds@.len() - i,
    {
        if i < ds.len() {
            self.visit_var_declarator(&ds[i]);
            self.visit_decls(ds, i + 1);
        }
    }

    fn declare_keys(&mut self, keys: &Vec<String>, i: usize)
        requires
            i <= keys.len(),
        ensures
            final(self)@ == (ScopeModel {
                aliases: spec_declare_keys(keys@, i as int, old(self)@.aliases),
                ..old(self)@
            }),
            final(self).file == old(self).file,
            final(self).rules == old(self).rules,
        decreases keys@.len() - i,
    {
        if i < keys.len() {
            self.aliases.insert(keys[i].clone(), keys[i].clone());
            self.declare_keys(keys, i + 1);
        }
    }
}

} // verus!
