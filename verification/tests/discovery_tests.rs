use ts_validator::ast::{Expr, MemberProp, Pat, Pos, Stmt, VarDeclarator};
use ts_validator::discovery::{controller_positions, count_controllers, visit_module, AnalyzerVisitor};
use ts_validator::ast::ParsedModule;
use ts_validator::validation::ValidationRuleSet;
use ts_validator::violation::ViolationKind;

fn pos() -> Pos {
    Pos { line: 1, col: 1 }
}

fn ident(name: &str) -> Expr {
    Expr::Ident { name: name.to_string(), pos: pos() }
}

fn named(name: &str) -> MemberProp {
    MemberProp::Named { name: name.to_string() }
}

fn member(obj: Expr, prop: MemberProp) -> Expr {
    Expr::Member { obj: Box::new(obj), prop, pos: pos() }
}

fn call(callee: Expr, args: Vec<Expr>) -> Expr {
    Expr::Call { callee: Some(Box::new(callee)), args, pos: pos() }
}

fn str_lit(value: &str) -> Expr {
    Expr::Lit { debug: format!("Str({})", value), pos: pos() }
}

fn arrow(body: Vec<Stmt>) -> Expr {
    Expr::Arrow { body, pos: pos() }
}

/// `app.<verb>('/route', (req, res) => { <body> })`
fn registration(verb: &str, body: Vec<Stmt>) -> Expr {
    call(member(ident("app"), named(verb)), vec![str_lit("/route"), arrow(body)])
}

fn module(path: &str, body: Vec<Stmt>) -> ParsedModule {
    ParsedModule { path: path.to_string(), body }
}

fn tainted_stmt() -> Stmt {
    Stmt::Expr { expr: member(ident("req"), named("body")) }
}

fn validation_stmt() -> Stmt {
    Stmt::Expr { expr: call(member(ident("schema"), named("parse")), vec![ident("input")]) }
}

#[test]
fn test_analyzer_visitor_router_detection() {
    let mut visitor = AnalyzerVisitor::new("test-file.ts".to_string(), ValidationRuleSet::ZodStrict);

    // Valid route methods: get and post without validation, put and delete
    // with a validation call ahead of the access.
    visitor.visit_expr(&registration("get", vec![tainted_stmt()]));
    visitor.visit_expr(&registration("post", vec![tainted_stmt()]));
    visitor.visit_expr(&registration("put", vec![validation_stmt(), tainted_stmt()]));
    visitor.visit_expr(&registration("delete", vec![validation_stmt(), tainted_stmt()]));

    // Invalid route method: never a handler, so never any violations.
    visitor.visit_expr(&registration("patch", vec![tainted_stmt()]));

    // Check violations only added for unvalidated routes
    assert_eq!(visitor.violations.len(), 2);

    // Registration counting agrees: patch is ignored entirely.
    let m = module(
        "test-file.ts",
        vec![
            Stmt::Expr { expr: registration("get", vec![]) },
            Stmt::Expr { expr: registration("post", vec![]) },
            Stmt::Expr { expr: registration("put", vec![]) },
            Stmt::Expr { expr: registration("delete", vec![]) },
            Stmt::Expr { expr: registration("patch", vec![]) },
        ],
    );
    assert_eq!(count_controllers(&m), 4);
}

#[test]
fn test_count_controllers() {
    // A module with a single route handler:
    // app.get('/route', (req, res) => { ... })
    let m = module("test.ts", vec![Stmt::Expr { expr: registration("get", vec![]) }]);
    let count = count_controllers(&m);
    assert_eq!(count, 1);
}

#[test]
fn direct_access_in_handler() {
    // app.get(path, (req, res) => { req.body.y }) under ZodStrict:
    // exactly one DirectAccess violation naming req.body.
    let body = vec![Stmt::Expr {
        expr: member(member(ident("req"), named("body")), named("y")),
    }];
    let m = module("routes.ts", vec![Stmt::Expr { expr: registration("get", body) }]);
    let violations = visit_module(&m, ValidationRuleSet::ZodStrict);
    assert_eq!(violations.len(), 1);
    assert!(matches!(violations[0].kind, ViolationKind::DirectAccess));
    assert!(violations[0].message.contains("req.body"));
    assert_eq!(violations[0].file, "routes.ts");
}

#[test]
fn handler_scopes_are_independent() {
    // The first handler declares an alias; the second uses the same name.
    // The alias must not leak: the second handler reports nothing for it.
    let first_body = vec![Stmt::VarDecl {
        decls: vec![VarDeclarator {
            name: Pat::Ident { name: "data".to_string() },
            init: Some(member(ident("req"), named("body"))),
        }],
    }];
    let second_body = vec![Stmt::Expr { expr: ident("data") }];
    let m = module(
        "routes.ts",
        vec![
            Stmt::Expr { expr: registration("get", first_body) },
            Stmt::Expr { expr: registration("post", second_body) },
        ],
    );
    let violations = visit_module(&m, ValidationRuleSet::ZodStrict);
    // Only the initializer of the first handler is flagged; the bare `data`
    // in the second handler matches no alias there.
    assert_eq!(violations.len(), 1);
    assert!(matches!(violations[0].kind, ViolationKind::DirectAccess));
    assert!(violations[0].message.contains("req.body"));
}

#[test]
fn nested_handlers_each_scanned() {
    // A handler registered inside another handler's body is matched and
    // scanned independently; both accesses are reported, and the outer scan
    // additionally sees the nested handler's body with its own scope.
    let inner = registration("post", vec![tainted_stmt()]);
    let outer_body = vec![tainted_stmt(), Stmt::Expr { expr: inner }];
    let m = module("routes.ts", vec![Stmt::Expr { expr: registration("get", outer_body) }]);
    assert_eq!(count_controllers(&m), 2);
    let violations = visit_module(&m, ValidationRuleSet::ZodStrict);
    // The outer scope reports its own access and, descending into the nested
    // arrow with the same scope, the nested access too; the nested handler's
    // fresh scope then reports its access once more.
    assert_eq!(violations.len(), 3);
    for v in &violations {
        assert!(matches!(v.kind, ViolationKind::DirectAccess));
        assert!(v.message.contains("req.body"));
    }
}

#[test]
fn controller_positions_follow_traversal_order() {
    let first = Expr::Call {
        callee: Some(Box::new(member(ident("app"), named("get")))),
        args: vec![str_lit("/a"), arrow(vec![])],
        pos: Pos { line: 3, col: 0 },
    };
    let second = Expr::Call {
        callee: Some(Box::new(member(ident("app"), named("post")))),
        args: vec![str_lit("/b"), arrow(vec![])],
        pos: Pos { line: 9, col: 2 },
    };
    let m = module(
        "routes.ts",
        vec![Stmt::Expr { expr: first }, Stmt::Expr { expr: second }],
    );
    let positions = controller_positions(&m);
    assert_eq!(positions.len(), 2);
    assert_eq!(positions[0].line, 3);
    assert_eq!(positions[0].col, 0);
    assert_eq!(positions[1].line, 9);
    assert_eq!(positions[1].col, 2);
}

#[test]
fn empty_module_reports_nothing() {
    let m = module("empty.ts", vec![]);
    assert_eq!(count_controllers(&m), 0);
    let violations = visit_module(&m, ValidationRuleSet::ZodStrict);
    assert!(violations.is_empty());
}

#[test]
fn named_function_argument_is_not_a_handler() {
    // Only an arrow-function literal as last argument registers a handler.
    let e = call(
        member(ident("app"), named("get")),
        vec![str_lit("/route"), ident("handlerRef")],
    );
    let m = module("routes.ts", vec![Stmt::Expr { expr: e }]);
    assert_eq!(count_controllers(&m), 0);
    assert!(visit_module(&m, ValidationRuleSet::ZodStrict).is_empty());
}
