//! Controller discovery: a depth-first pre-order traversal of a whole module
//! that recognizes route-handler registrations and hands each handler body to
//! the scanner with a fresh scope, plus the lighter traversal that only
//! counts such registrations.
//!
//! A registration is a call whose callee is a property access with a plain
//! property name among `get`, `post`, `put` and `delete`, and whose last
//! argument is an arrow-function literal.  Handlers nested inside other
//! expressions, or inside other handlers, are each matched and scanned
//! independently, once each, by their own fresh scope.

use vstd::prelude::*;

verus! {

use crate::ast::{Expr, MemberProp, ParsedModule, Pos, Stmt, VarDeclarator};
use crate::scanner::{spec_fresh_scope, spec_scan_stmts, ControllerVisitor};
use crate::utils::text_eq;
use crate::validation::ValidationRuleSet;
use crate::violation::{Violation, ViolationData};

/// The HTTP-verb method names whose calls register a route handler.
pub open spec fn spec_is_verb(name: Seq<char>) -> bool {
    name == "get"@ || name == "post"@ || name == "put"@ || name == "delete"@
}

/// True iff `name` is one of the registration verbs.
pub fn is_verb(name: &str) -> (r: bool)
    ensures
        r == spec_is_verb(name@),
{
    text_eq(name, "get") || text_eq(name, "post") || text_eq(name, "put") || text_eq(
        name,
        "delete",
    )
}

/// True iff `e` is a handler registration: a call through a plain verb
/// property whose last argument is an arrow-function literal.
pub open spec fn spec_is_registration(e: Expr) -> bool {
    match e {
        Expr::Call { callee: Option::Some(c), args, .. } => (match *c {
            Expr::Member { prop: MemberProp::Named { name }, .. } => spec_is_verb(name@),
            _ => false,
        }) && args.len() > 0 && (match args@.last() {
            Expr::Arrow { .. } => true,
            _ => false,
        }),
        _ => false,
    }
}

/// The body of the handler registered by `e`.
pub open spec fn spec_handler_body(e: Expr) -> Seq<Stmt>
    recommends
        spec_is_registration(e),
{
    match e {
        Expr::Call { args, .. } => match args@.last() {
            Expr::Arrow { body, .. } => body@,
            _ => Seq::empty(),
        },
        _ => Seq::empty(),
    }
}

/// The violations one handler body yields when scanned from a fresh scope.
/// Nothing of the surrounding module flows in: the scope starts with an
/// empty alias map and an unset validation flag.
pub open spec fn spec_handler_violations(
    file: Seq<char>,
    rules: ValidationRuleSet,
    body: Seq<Stmt>,
) -> Seq<ViolationData> {
    spec_scan_stmts(file, rules, body, 0, spec_fresh_scope()).violations
}

/// Discovery over one expression: scan the handler if the node registers
/// one, then keep descending into all children, so that nested registrations
/// are found too.
pub open spec fn spec_find_expr(
    file: Seq<char>,
    rules: ValidationRuleSet,
    e: Expr,
    acc: Seq<ViolationData>,
) -> Seq<ViolationData>
    decreases e,
{
    let acc1 = if spec_is_registration(e) {
        acc + spec_handler_violations(file, rules, spec_handler_body(e))
    } else {
        acc
    };
    match e {
        Expr::Ident { .. } => acc1,
        Expr::Lit { .. } => acc1,
        Expr::Member { obj, prop, .. } => {
            let acc2 = spec_find_expr(file, rules, *obj, acc1);
            match prop {
                MemberProp::Computed { index } => spec_find_expr(file, rules, *index, acc2),
                _ => acc2,
            }
        },
        Expr::Call { callee, args, .. } => {
            let acc2 = match callee {
                Option::Some(c) => spec_find_expr(file, rules, *c, acc1),
                Option::None => acc1,
            };
            spec_find_exprs(file, rules, args@, 0, acc2)
        },
        Expr::Arrow { body, .. } => spec_find_stmts(file, rules, body@, 0, acc1),
        Expr::Other { exprs, stmts, .. } => spec_find_stmts(
            file,
            rules,
            stmts@,
            0,
            spec_find_exprs(file, rules, exprs@, 0, acc1),
        ),
    }
}

/// Discovery over the expressions of `es` from index `i` on.
pub open spec fn spec_find_exprs(
    file: Seq<char>,
    rules: ValidationRuleSet,
    es: Seq<Expr>,
    i: int,
    acc: Seq<ViolationData>,
) -> Seq<ViolationData>
    decreases es, es.len() - i,
{
    if i < 0 || i >= es.len() {
        acc
    } else {
        spec_find_exprs(file, rules, es, i + 1, spec_find_expr(file, rules, es[i], acc))
    }
}

/// Discovery over one statement.
pub open spec fn spec_find_stmt(
    file: Seq<char>,
    rules: ValidationRuleSet,
    st: Stmt,
    acc: Seq<ViolationData>,
) -> Seq<ViolationData>
    decreases st,
{
    match st {
        Stmt::Expr { expr } => spec_find_expr(file, rules, expr, acc),
        Stmt::VarDecl { decls } => spec_find_decls(file, rules, decls@, 0, acc),
        Stmt::Other { exprs, stmts } => spec_find_stmts(
            file,
            rules,
            stmts@,
            0,
            spec_find_exprs(file, rules, exprs@, 0, acc),
        ),
    }
}

/// Discovery over the statements of `ss` from index `i` on.
pub open spec fn spec_find_stmts(
    file: Seq<char>,
    rules: ValidationRuleSet,
    ss: Seq<Stmt>,
    i: int,
    acc: Seq<ViolationData>,
) -> Seq<ViolationData>
    decreases ss, ss.len() - i,
{
    if i < 0 || i >= ss.len() {
        acc
    } else {
        spec_find_stmts(file, rules, ss, i + 1, spec_find_stmt(file, rules, ss[i], acc))
    }
}

/// Discovery over one declarator: only its initializer can hold more nodes.
pub open spec fn spec_find_decl(
    file: Seq<char>,
    rules: ValidationRuleSet,
    d: VarDeclarator,
    acc: Seq<ViolationData>,
) -> Seq<ViolationData>
    decreases d,
{
    match d.init {
        Option::Some(init) => spec_find_expr(file, rules, init, acc),
        Option::None => acc,
    }
}

/// Discovery over the declarators of `ds` from index `i` on.
pub open spec fn spec_find_decls(
    file: Seq<char>,
    rules: ValidationRuleSet,
    ds: Seq<VarDeclarator>,
    i: int,
    acc: Seq<ViolationData>,
) -> Seq<ViolationData>
    decreases ds, ds.len() - i,
{
    if i < 0 || i >= ds.len() {
        acc
    } else {
        spec_find_decls(file, rules, ds, i + 1, spec_find_decl(file, rules, ds[i], acc))
    }
}

/// All violations of one module, in traversal order.
pub open spec fn spec_module_violations(m: ParsedModule, rules: ValidationRuleSet) -> Seq<
    ViolationData,
> {
    spec_find_stmts(m.path@, rules, m.body@, 0, Seq::empty())
}

/// Law: discovery only appends.  Violations already collected pass through
/// any further discovery unchanged and in front: what a subtree contributes
/// does not depend on what was collected before it.
pub proof fn lemma_find_expr_frame(
    file: Seq<char>,
    rules: ValidationRuleSet,
    e: Expr,
    p: Seq<ViolationData>,
    acc: Seq<ViolationData>,
)
    ensures
        spec_find_expr(file, rules, e, p + acc) == p + spec_find_expr(file, rules, e, acc),
    decreases e,
{
    let acc1 = if spec_is_registration(e) {
        acc + spec_handler_violations(file, rules, spec_handler_body(e))
    } else {
        acc
    };
    if spec_is_registration(e) {
        assert((p + acc) + spec_handler_violations(file, rules, spec_handler_body(e)) =~= p
            + acc1);
    }
    match e {
        Expr::Ident { .. } => {},
        Expr::Lit { .. } => {},
        Expr::Member { obj, prop, .. } => {
            lemma_find_expr_frame(file, rules, *obj, p, acc1);
            match prop {
                MemberProp::Computed { index } => {
                    lemma_find_expr_frame(file, rules, *index, p, spec_find_expr(file, rules, *obj, acc1));
                },
                _ => {},
            }
        },
        Expr::Call { callee, args, .. } => {
            let acc2 = match callee {
                Option::Some(c) => spec_find_expr(file, rules, *c, acc1),
                Option::None => acc1,
            };
            match callee {
                Option::Some(c) => {
                    lemma_find_expr_frame(file, rules, *c, p, acc1);
                },
                Option::None => {},
            }
            lemma_find_exprs_frame(file, rules, args@, 0, p, acc2);
        },
        Expr::Arrow { body, .. } => {
            lemma_find_stmts_frame(file, rules, body@, 0, p, acc1);
        },
        Expr::Other { exprs, stmts, .. } => {
            lemma_find_exprs_frame(file, rules, exprs@, 0, p, acc1);
            lemma_find_stmts_frame(
                file,
                rules,
                stmts@,
                0,
                p,
                spec_find_exprs(file, rules, exprs@, 0, acc1),
            );
        },
    }
}

/// The expression-list case of the frame law.
pub proof fn lemma_find_exprs_frame(
    file: Seq<char>,
    rules: ValidationRuleSet,
    es: Seq<Expr>,
    i: int,
    p: Seq<ViolationData>,
    acc: Seq<ViolationData>,
)
    ensures
        spec_find_exprs(file, rules, es, i, p + acc) == p + spec_find_exprs(file, rules, es, i, acc),
    decreases es, es.len() - i,
{
    if 0 <= i < es.len() {
        lemma_find_expr_frame(file, rules, es[i], p, acc);
        lemma_find_exprs_frame(file, rules, es, i + 1, p, spec_find_expr(file, rules, es[i], acc));
    }
}

/// The statement case of the frame law.
pub proof fn lemma_find_stmt_frame(
    file: Seq<char>,
    rules: ValidationRuleSet,
    st: Stmt,
    p: Seq<ViolationData>,
    acc: Seq<ViolationData>,
)
    ensures
        spec_find_stmt(file, rules, st, p + acc) == p + spec_find_stmt(file, rules, st, acc),
    decreases st,
{
    match st {
        Stmt::Expr { expr } => {
            lemma_find_expr_frame(file, rules, expr, p, acc);
        },
        Stmt::VarDecl { decls } => {
            lemma_find_decls_frame(file, rules, decls@, 0, p, acc);
        },
        Stmt::Other { exprs, stmts } => {
            lemma_find_exprs_frame(file, rules, exprs@, 0, p, acc);
            lemma_find_stmts_frame(
                file,
                rules,
                stmts@,
                0,
                p,
                spec_find_exprs(file, rules, exprs@, 0, acc),
            );
        },
    }
}

/// The statement-list case of the frame law.
pub proof fn lemma_find_stmts_frame(
    file: Seq<char>,
    rules: ValidationRuleSet,
    ss: Seq<Stmt>,
    i: int,
    p: Seq<ViolationData>,
    acc: Seq<ViolationData>,
)
    ensures
        spec_find_stmts(file, rules, ss, i, p + acc) == p + spec_find_stmts(file, rules, ss, i, acc),
    decreases ss, ss.len() - i,
{
    if 0 <= i < ss.len() {
        lemma_find_stmt_frame(file, rules, ss[i], p, acc);
        lemma_find_stmts_frame(file, rules, ss, i + 1, p, spec_find_stmt(file, rules, ss[i], acc));
    }
}

/// The declarator case of the frame law.
pub proof fn lemma_find_decl_frame(
    file: Seq<char>,
    rules: ValidationRuleSet,
    d: VarDeclarator,
    p: Seq<ViolationData>,
    acc: Seq<ViolationData>,
)
    ensures
        spec_find_decl(file, rules, d, p + acc) == p + spec_find_decl(file, rules, d, acc),
    decreases d,
{
    match d.init {
        Option::Some(init) => {
            lemma_find_expr_frame(file, rules, init, p, acc);
        },
        Option::None => {},
    }
}

/// The declarator-list case of the frame law.
pub proof fn lemma_find_decls_frame(
    file: Seq<char>,
    rules: ValidationRuleSet,
    ds: Seq<VarDeclarator>,
    i: int,
    p: Seq<ViolationData>,
    acc: Seq<ViolationData>,
)
    ensures
        spec_find_decls(file, rules, ds, i, p + acc) == p + spec_find_decls(file, rules, ds, i, acc),
    decreases ds, ds.len() - i,
{
    if 0 <= i < ds.len() {
        lemma_find_decl_frame(file, rules, ds[i], p, acc);
        lemma_find_decls_frame(file, rules, ds, i + 1, p, spec_find_decl(file, rules, ds[i], acc));
    }
}

/// Law: handler scopes are independent.  A module body made of two
/// statements reports exactly what each statement reports alone, in order:
/// every handler is scanned by its own fresh scope, so aliases declared
/// inside one handler are not visible inside another, and nothing a handler
/// does can change what a sibling reports.
pub proof fn lemma_handlers_independent(
    file: Seq<char>,
    rules: ValidationRuleSet,
    e1: Expr,
    e2: Expr,
)
    ensures
        spec_find_stmts(
            file,
            rules,
            seq![Stmt::Expr { expr: e1 }, Stmt::Expr { expr: e2 }],
            0,
            Seq::empty(),
        ) == spec_find_expr(file, rules, e1, Seq::empty()) + spec_find_expr(
            file,
            rules,
            e2,
            Seq::empty(),
        ),
{
    let ss = seq![Stmt::Expr { expr: e1 }, Stmt::Expr { expr: e2 }];
    let v1 = spec_find_expr(file, rules, e1, Seq::empty());
    let v2 = spec_find_expr(file, rules, e2, Seq::empty());
    assert(ss.len() == 2);
    assert(ss[0] == Stmt::Expr { expr: e1 });
    assert(ss[1] == Stmt::Expr { expr: e2 });
    assert(spec_find_stmt(file, rules, ss[0], Seq::empty()) == v1);
    assert(v1 + Seq::<ViolationData>::empty() =~= v1);
    lemma_find_expr_frame(file, rules, e2, v1, Seq::empty());
    assert(spec_find_stmt(file, rules, ss[1], v1) == v1 + v2);
    assert(spec_find_stmts(file, rules, ss, 0, Seq::empty()) == spec_find_stmts(
        file,
        rules,
        ss,
        1,
        v1,
    ));
    assert(spec_find_stmts(file, rules, ss, 1, v1) == spec_find_stmts(file, rules, ss, 2, v1 + v2));
    assert(spec_find_stmts(file, rules, ss, 2, v1 + v2) == v1 + v2);
}

/// Walks a whole module, opening a fresh handler scope for every
/// registration it discovers and collecting the scanned violations.
pub struct AnalyzerVisitor {
    pub file: String,
    pub violations: Vec<Violation>,
    pub rules: ValidationRuleSet,
}

impl AnalyzerVisitor {
    /// A discovery pass over the module of `file` under `rules`, with no
    /// violations collected yet.
    pub fn new(file: String, rules: ValidationRuleSet) -> (r: AnalyzerVisitor)
        ensures
            r.violations.deep_view() == Seq::<ViolationData>::empty(),
            r.file == file,
            r.rules == rules,
    {
        let r = AnalyzerVisitor { file: file, violations: Vec::new(), rules: rules };
        proof {
            assert(r.violations.deep_view() =~= Seq::<ViolationData>::empty());
        }
        r
    }

    fn check_registration(&mut self, e: &Expr)
        ensures
            final(self).violations.deep_view() == (if spec_is_registration(*e) {
                old(self).violations.deep_view() + spec_handler_violations(
                    old(self).file@,
                    old(self).rules,
                    spec_handler_body(*e),
                )
            } else {
                old(self).violations.deep_view()
            }),
            final(self).file == old(self).file,
            final(self).rules == old(self).rules,
    {
        if let Expr::Call { callee, args, .. } = e {
            let mut verb = false;
            if let Option::Some(c) = callee {
                if let Expr::Member { prop, .. } = &**c {
                    if let MemberProp::Named { name } = prop {
                        if is_verb(name.as_str()) {
                            verb = true;
                        }
                    }
                }
            }
            if verb && args.len() > 0 {
                if let Expr::Arrow { body, .. } = &args[args.len() - 1] {
                    let mut controller = ControllerVisitor::new(self.file.clone(), self.rules);
                    controller.visit_stmts(body, 0);
                    let mut found = controller.violations;
                    let ghost pre = self.violations.deep_view();
                    let ghost add = found.deep_view();
                    self.violations.append(&mut found);
                    proof {
                        assert(self.violations.deep_view() =~= pre + add);
                    }
                }
            }
        }
    }

    /// One discovery visit of an expression node and everything below it.
    pub fn visit_expr(&mut self, e: &Expr)
        ensures
            final(self).violations.deep_view() == spec_find_expr(
                old(self).file@,
                old(self).rules,
                *e,
                old(self).violations.deep_view(),
            ),
            final(self).file == old(self).file,
            final(self).rules == old(self).rules,
        decreases *e,
    {
        self.check_registration(e);
        match e {
            Expr::Ident { .. } => {},
            Expr::Lit { .. } => {},
            Expr::Member { obj, prop, .. } => {
                self.visit_expr(obj);
                if let MemberProp::Computed { index } = prop {
                    self.visit_expr(index);
                }
            },
            Expr::Call { callee, args, .. } => {
                if let Option::Some(c) = callee {
                    self.visit_expr(c);
                }
                self.visit_exprs(args, 0);
            },
            Expr::Arrow { body, .. } => {
                self.visit_stmts(body, 0);
            },
            Expr::Other { exprs, stmts, .. } => {
                self.visit_exprs(exprs, 0);
                self.visit_stmts(stmts, 0);
            },
        }
    }

    fn visit_exprs(&mut self, es: &Vec<Expr>, i: usize)
        requires
            i <= es.len(),
        ensures
            final(self).violations.deep_view() == spec_find_exprs(
                old(self).file@,
                old(self).rules,
                es@,
                i as int,
                old(self).violations.deep_view(),
            ),
            final(self).file == old(self).file,
            final(self).rules == old(self).rules,
        decreases es@, es@.len() - i,
    {
        if i < es.len() {
            self.visit_expr(&es[i]);
            self.visit_exprs(es, i + 1);
        }
    }

    /// One discovery visit of a statement node and everything below it.
    pub fn visit_stmt(&mut self, st: &Stmt)
        ensures
            final(self).violations.deep_view() == spec_find_stmt(
                old(self).file@,
                old(self).rules,
                *st,
                old(self).violations.deep_view(),
            ),
            final(self).file == old(self).file,
            final(self).rules == old(self).rules,
        decreases *st,
    {
        match st {
            Stmt::Expr { expr } => {
                self.visit_expr(expr);
            },
            Stmt::VarDecl { decls } => {
                self.visit_decls(decls, 0);
            },
            Stmt::Other { exprs, stmts } => {
                self.visit_exprs(exprs, 0);
                self.visit_stmts(stmts, 0);
            },
        }
    }

    /// Discovery over a module body, statement by statement.
    pub fn visit_stmts(&mut self, ss: &Vec<Stmt>, i: usize)
        requires
            i <= ss.len(),
        ensures
            final(self).violations.deep_view() == spec_find_stmts(
                old(self).file@,
                old(self).rules,
                ss@,
                i as int,
                old(self).violations.deep_view(),
            ),
            final(self).file == old(self).file,
            final(self).rules == old(self).rules,
        decreases ss@, ss@.len() - i,
    {
        if i < ss.len() {
            self.visit_stmt(&ss[i]);
            self.visit_stmts(ss, i + 1);
        }
    }

    fn visit_decls(&mut self, ds: &Vec<VarDeclarator>, i: usize)
        requires
            i <= ds.len(),
        ensures
            final(self).violations.deep_view() == spec_find_decls(
                old(self).file@,
                old(self).rules,
                ds@,
                i as int,
                old(self).violations.deep_view(),
            ),
            final(self).file == old(self).file,
            final(self).rules == old(self).rules,
        decreases ds@, ds@.len() - i,
    {
        if i < ds.len() {
            let d = &ds[i];
            if let Option::Some(init) = &d.init {
                self.visit_expr(init);
            }
            assert(self.violations.deep_view() == spec_find_decl(
                old(self).file@,
                old(self).rules,
                ds@[i as int],
                old(self).violations.deep_view(),
            ));
            self.visit_decls(ds, i + 1);
        }
    }
}

/// Counting pass over one expression: the position of every registration, in
/// the same traversal order as discovery, ignoring handler bodies' content.
pub open spec fn spec_regs_expr(e: Expr, acc: Seq<Pos>) -> Seq<Pos>
    decreases e,
{
    let acc1 = match e {
        Expr::Call { pos, .. } => {
            if spec_is_registration(e) {
                acc.push(pos)
            } else {
                acc
            }
        },
        _ => acc,
    };
    match e {
        Expr::Ident { .. } => acc1,
        Expr::Lit { .. } => acc1,
        Expr::Member { obj, prop, .. } => {
            let acc2 = spec_regs_expr(*obj, acc1);
            match prop {
                MemberProp::Computed { index } => spec_regs_expr(*index, acc2),
                _ => acc2,
            }
        },
        Expr::Call { callee, args, .. } => {
            let acc2 = match callee {
                Option::Some(c) => spec_regs_expr(*c, acc1),
                Option::None => acc1,
            };
            spec_regs_exprs(args@, 0, acc2)
        },
        Expr::Arrow { body, .. } => spec_regs_stmts(body@, 0, acc1),
        Expr::Other { exprs, stmts, .. } => spec_regs_stmts(
            stmts@,
            0,
            spec_regs_exprs(exprs@, 0, acc1),
        ),
    }
}

/// Counting pass over the expressions of `es` from index `i` on.
pub open spec fn spec_regs_exprs(es: Seq<Expr>, i: int, acc: Seq<Pos>) -> Seq<Pos>
    decreases es, es.len() - i,
{
    if i < 0 || i >= es.len() {
        acc
    } else {
        spec_regs_exprs(es, i + 1, spec_regs_expr(es[i], acc))
    }
}

/// Counting pass over one statement.
pub open spec fn spec_regs_stmt(st: Stmt, acc: Seq<Pos>) -> Seq<Pos>
    decreases st,
{
    match st {
        Stmt::Expr { expr } => spec_regs_expr(expr, acc),
        Stmt::VarDecl { decls } => spec_regs_decls(decls@, 0, acc),
        Stmt::Other { exprs, stmts } => spec_regs_stmts(stmts@, 0, spec_regs_exprs(exprs@, 0, acc)),
    }
}

/// Counting pass over the statements of `ss` from index `i` on.
pub open spec fn spec_regs_stmts(ss: Seq<Stmt>, i: int, acc: Seq<Pos>) -> Seq<Pos>
    decreases ss, ss.len() - i,
{
    if i < 0 || i >= ss.len() {
        acc
    } else {
        spec_regs_stmts(ss, i + 1, spec_regs_stmt(ss[i], acc))
    }
}

/// Counting pass over one declarator.
pub open spec fn spec_regs_decl(d: VarDeclarator, acc: Seq<Pos>) -> Seq<Pos>
    decreases d,
{
    match d.init {
        Option::Some(init) => spec_regs_expr(init, acc),
        Option::None => acc,
    }
}

/// Counting pass over the declarators of `ds` from index `i` on.
pub open spec fn spec_regs_decls(ds: Seq<VarDeclarator>, i: int, acc: Seq<Pos>) -> Seq<Pos>
    decreases ds, ds.len() - i,
{
    if i < 0 || i >= ds.len() {
        acc
    } else {
        spec_regs_decls(ds, i + 1, spec_regs_decl(ds[i], acc))
    }
}

/// The positions of all handler registrations of a module, in traversal
/// order.
pub open spec fn spec_module_registrations(m: ParsedModule) -> Seq<Pos> {
    spec_regs_stmts(m.body@, 0, Seq::empty())
}

fn regs_expr(e: &Expr, out: &mut Vec<Pos>)
    ensures
        final(out)@ == spec_regs_expr(*e, old(out)@),
    decreases *e,
{
    if let Expr::Call { callee, args, pos } = e {
        let mut verb = false;
        if let Option::Some(c) = callee {
            if let Expr::Member { prop, .. } = &**c {
                if let MemberProp::Named { name } = prop {
                    if is_verb(name.as_str()) {
                        verb = true;
                    }
                }
            }
        }
        if verb && args.len() > 0 {
            if let Expr::Arrow { .. } = &args[args.len() - 1] {
                out.push(*pos);
            }
        }
    }
    match e {
        Expr::Ident { .. } => {},
        Expr::Lit { .. } => {},
        Expr::Member { obj, prop, .. } => {
            regs_expr(obj, out);
            if let MemberProp::Computed { index } = prop {
                regs_expr(index, out);
            }
        },
        Expr::Call { callee, args, .. } => {
            if let Option::Some(c) = callee {
                regs_expr(c, out);
            }
            regs_exprs(args, 0, out);
        },
        Expr::Arrow { body, .. } => {
            regs_stmts(body, 0, out);
        },
        Expr::Other { exprs, stmts, .. } => {
            regs_exprs(exprs, 0, out);
            regs_stmts(stmts, 0, out);
        },
    }
}

fn regs_exprs(es: &Vec<Expr>, i: usize, out: &mut Vec<Pos>)
    requires
        i <= es.len(),
    ensures
        final(out)@ == spec_regs_exprs(es@, i as int, old(out)@),
    decreases es@, es@.len() - i,
{
    if i < es.len() {
        regs_expr(&es[i], out);
        regs_exprs(es, i + 1, out);
    }
}

fn regs_stmt(st: &Stmt, out: &mut Vec<Pos>)
    ensures
        final(out)@ == spec_regs_stmt(*st, old(out)@),
    decreases *st,
{
    match st {
        Stmt::Expr { expr } => {
            regs_expr(expr, out);
        },
        Stmt::VarDecl { decls } => {
            regs_decls(decls, 0, out);
        },
        Stmt::Other { exprs, stmts } => {
            regs_exprs(exprs, 0, out);
            regs_stmts(stmts, 0, out);
        },
    }
}

fn regs_stmts(ss: &Vec<Stmt>, i: usize, out: &mut Vec<Pos>)
    requires
        i <= ss.len(),
    ensures
        final(out)@ == spec_regs_stmts(ss@, i as int, old(out)@),
    decreases ss@, ss@.len() - i,
{
    if i < ss.len() {
        regs_stmt(&ss[i], out);
        regs_stmts(ss, i + 1, out);
    }
}

fn regs_decls(ds: &Vec<VarDeclarator>, i: usize, out: &mut Vec<Pos>)
    requires
        i <= ds.len(),
    ensures
        final(out)@ == spec_regs_decls(ds@, i as int, old(out)@),
    decreases ds@, ds@.len() - i,
{
    if i < ds.len() {
        let d = &ds[i];
        if let Option::Some(init) = &d.init {
            regs_expr(init, out);
        }
        assert(out@ == spec_regs_decl(ds@[i as int], old(out)@));
        regs_decls(ds, i + 1, out);
    }
}

/// The positions of the handler registrations of a module, in traversal
/// order: one entry per registration, at the position of the registering
/// call.
pub fn controller_positions(m: &ParsedModule) -> (r: Vec<Pos>)
    ensures
        r@ == spec_module_registrations(*m),
{
    let mut out: Vec<Pos> = Vec::new();
    proof {
        assert(out@ =~= Seq::<Pos>::empty());
    }
    regs_stmts(&m.body, 0, &mut out);
    out
}

/// Counts the number of controller functions (route handlers) in a module.
pub fn count_controllers(m: &ParsedModule) -> (r: usize)
    ensures
        r == spec_module_registrations(*m).len(),
{
    let positions = controller_positions(m);
    positions.len()
}

/// Analyzes one module: every handler registration found in a depth-first
/// pre-order walk is scanned with a fresh scope, and the handlers'
/// violations are concatenated in discovery order.
pub fn visit_module(m: &ParsedModule, rules: ValidationRuleSet) -> (r: Vec<Violation>)
    ensures
        r.deep_view() == spec_module_violations(*m, rules),
{
    let mut visitor = AnalyzerVisitor::new(m.path.clone(), rules);
    visitor.visit_stmts(&m.body, 0);
    visitor.violations
}

} // verus!
