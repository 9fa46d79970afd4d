use ts_validator::ast::{Expr, MemberProp, Pat, Pos, Stmt, VarDeclarator};
use ts_validator::scanner::{member_name, ControllerVisitor};
use ts_validator::validation::ValidationRuleSet;
use ts_validator::violation::ViolationKind;

fn pos() -> Pos {
    Pos { line: 1, col: 1 }
}

fn ident(name: &str) -> Expr {
    Expr::Ident { name: name.to_string(), pos: pos() }
}

fn named(name: &str) -> MemberProp {
    MemberProp::Named { name: name.to_string() }
}

fn member(obj: Expr, prop: MemberProp) -> Expr {
    Expr::Member { obj: Box::new(obj), prop, pos: pos() }
}

fn call(callee: Expr, args: Vec<Expr>) -> Expr {
    Expr::Call { callee: Some(Box::new(callee)), args, pos: pos() }
}

fn fresh_visitor(file: &str) -> ControllerVisitor {
    ControllerVisitor::new(file.to_string(), ValidationRuleSet::ZodStrict)
}

fn simple_decl(name: &str, init: Expr) -> VarDeclarator {
    VarDeclarator { name: Pat::Ident { name: name.to_string() }, init: Some(init) }
}

#[test]
fn test_member_name_ident() {
    let prop = named("testProp");
    assert_eq!(member_name(&prop), "testProp");
}

#[test]
fn test_member_name_computed_lit() {
    let debug = r#"Str(Str { span: 0..0, value: "computedProp", raw: None })"#;
    let prop = MemberProp::Computed {
        index: Box::new(Expr::Lit { debug: debug.to_string(), pos: pos() }),
    };
    assert_eq!(
        member_name(&prop),
        r#"[computed: Str(Str { span: 0..0, value: "computedProp", raw: None })]"#
    );
}

#[test]
fn test_member_name_computed_ident() {
    let prop = MemberProp::Computed { index: Box::new(ident("varName")) };
    assert_eq!(member_name(&prop), "[computed: varName]");
}

#[test]
fn test_member_name_computed_other() {
    let call_expr = call(ident("someFunc"), vec![]);
    let prop = MemberProp::Computed { index: Box::new(call_expr) };
    assert_eq!(member_name(&prop), "[computed]");
}

#[test]
fn test_member_name_private_name() {
    // A private-name property such as `#privateField` has no supported shape.
    let prop = MemberProp::Unsupported;
    assert_eq!(member_name(&prop), "[unsupported]");
}

#[test]
fn test_unvalidated_alias() {
    let mut visitor = fresh_visitor("test-file.ts");

    // Add an alias 'data' -> 'body'
    visitor.aliases.insert("data".to_string(), "body".to_string());

    // Visit a bare identifier reference to the alias
    visitor.visit_expr(&ident("data"));

    // Assert that a violation was created
    assert_eq!(visitor.violations.len(), 1);
    let violation = &visitor.violations[0];
    assert!(matches!(violation.kind, ViolationKind::Alias));
    assert_eq!(violation.message, "Unvalidated aliased access to req.body via `data`");
}

#[test]
fn test_indirect_access() {
    let mut visitor = fresh_visitor("test-file.ts");

    // Add an alias 'data' -> 'body'
    visitor.aliases.insert("data".to_string(), "body".to_string());

    // Visit a member expression on the aliased object: data.field
    visitor.visit_expr(&member(ident("data"), named("field")));

    // The property access itself is the indirect-access violation; the bare
    // `data` underneath it is additionally reported as an aliased access.
    let indirect: Vec<_> = visitor
        .violations
        .iter()
        .filter(|v| matches!(v.kind, ViolationKind::IndirectAccess))
        .collect();
    assert_eq!(indirect.len(), 1);
    assert_eq!(indirect[0].message, "Unvalidated indirect access: data.field → req.body");
    assert_eq!(indirect[0].file, "test-file.ts");
}

#[test]
fn test_validation_found() {
    let mut visitor = fresh_visitor("test-file.ts");
    visitor.found_validation = true;  // Validation found

    // Add an alias 'data' -> 'body'
    visitor.aliases.insert("data".to_string(), "body".to_string());

    // Visit the identifier
    visitor.visit_expr(&ident("data"));

    // No violation should be created since validation was found
    assert_eq!(visitor.violations.len(), 0);
}

#[test]
fn test_mock_controller_visitor() {
    // ---- Test case 1: No validation ----
    let mut visitor = fresh_visitor("mock-file.ts");
    visitor.aliases.insert("data".to_string(), "body".to_string());

    // Visiting data.field checks the member expression (data.field) first,
    // then the identifier (data) underneath it.
    visitor.visit_expr(&member(ident("data"), named("field")));

    // Verify violations
    assert_eq!(visitor.violations.len(), 2);

    // Verify the indirect access violation details
    let indirect_violation = &visitor.violations[0];
    assert!(matches!(indirect_violation.kind, ViolationKind::IndirectAccess));
    assert!(indirect_violation.message.contains("data.field → req.body"));

    // Verify the aliased access violation details
    let alias_violation = &visitor.violations[1];
    assert!(matches!(alias_violation.kind, ViolationKind::Alias));
    assert!(alias_violation.message.contains("req.body via `data`"));

    // ---- Test case 2: With validation ----
    let mut validator = fresh_visitor("mock-file.ts");
    validator.found_validation = true;  // Validation found
    validator.aliases.insert("data".to_string(), "body".to_string());

    validator.visit_expr(&member(ident("data"), named("field")));

    // Verify no violations when validation is found
    assert_eq!(validator.violations.len(), 0);
}

#[test]
fn test_var_declarator_direct_alias() {
    let mut visitor = fresh_visitor("test-file.ts");

    // Simulate const data = req.body
    visitor.visit_var_declarator(&simple_decl("data", member(ident("req"), named("body"))));

    // Check that the alias was added
    assert_eq!(visitor.aliases.len(), 1);
    assert_eq!(visitor.aliases.get("data"), Some(&"body".to_string()));
}

#[test]
fn test_var_declarator_object_pattern() {
    let mut visitor = fresh_visitor("test-file.ts");

    // Simulate const { body, params } = req
    visitor.visit_var_declarator(&VarDeclarator {
        name: Pat::Object { keys: vec!["body".to_string(), "params".to_string()] },
        init: Some(ident("req")),
    });

    // Check that the aliases were added
    assert_eq!(visitor.aliases.len(), 2);
    assert_eq!(visitor.aliases.get("body"), Some(&"body".to_string()));
    assert_eq!(visitor.aliases.get("params"), Some(&"params".to_string()));
}

#[test]
fn test_var_declarator_req_member() {
    let mut visitor = fresh_visitor("test-file.ts");

    // Test valid case: const userData = req.body
    visitor.visit_var_declarator(&simple_decl("userData", member(ident("req"), named("body"))));

    // Test invalid property: const invalidProp = req.headers
    visitor.visit_var_declarator(&simple_decl(
        "invalidProp",
        member(ident("req"), named("headers")),
    ));

    // Test invalid object: const notReq = request.body
    visitor.visit_var_declarator(&simple_decl("notReq", member(ident("request"), named("body"))));

    // Check the aliases
    assert_eq!(visitor.aliases.len(), 1);
    assert_eq!(visitor.aliases.get("userData"), Some(&"body".to_string()));
    assert!(visitor.aliases.get("invalidProp").is_none());
    assert!(visitor.aliases.get("notReq").is_none());
}

#[test]
fn test_object_pattern_destructuring() {
    let mut visitor = fresh_visitor("test-file.ts");

    // Test valid destructuring from req: const { body, query, params } = req
    visitor.visit_var_declarator(&VarDeclarator {
        name: Pat::Object {
            keys: vec!["body".to_string(), "query".to_string(), "params".to_string()],
        },
        init: Some(ident("req")),
    });

    // Test destructuring from wrong object: const { headers } = request
    visitor.visit_var_declarator(&VarDeclarator {
        name: Pat::Object { keys: vec!["headers".to_string()] },
        init: Some(ident("request")),
    });

    // Check that only the valid aliases were created
    assert_eq!(visitor.aliases.len(), 3);
    assert_eq!(visitor.aliases.get("body"), Some(&"body".to_string()));
    assert_eq!(visitor.aliases.get("params"), Some(&"params".to_string()));
    assert_eq!(visitor.aliases.get("query"), Some(&"query".to_string()));
    assert!(visitor.aliases.get("headers").is_none());
}

#[test]
fn test_direct_req_access() {
    // Test without validation
    let mut visitor = fresh_visitor("test-file.ts");

    visitor.visit_expr(&member(ident("req"), named("body")));
    visitor.visit_expr(&member(ident("req"), named("params")));
    visitor.visit_expr(&member(ident("req"), named("cookies")));  // Not a tracked property

    assert_eq!(visitor.violations.len(), 2);
    assert!(visitor.violations[0].message.contains("req.body"));
    assert!(visitor.violations[1].message.contains("req.params"));
    assert!(matches!(visitor.violations[0].kind, ViolationKind::DirectAccess));
    assert!(matches!(visitor.violations[1].kind, ViolationKind::DirectAccess));

    // Test with validation
    let mut validated = fresh_visitor("test-file.ts");
    validated.found_validation = true;

    validated.visit_expr(&member(ident("req"), named("body")));
    validated.visit_expr(&member(ident("req"), named("params")));

    assert_eq!(validated.violations.len(), 0);
}

#[test]
fn alias_redeclaration_last_wins() {
    let mut visitor = fresh_visitor("test-file.ts");

    // const data = req.body; then const data = req.query;
    visitor.aliases.insert("data".to_string(), "body".to_string());
    visitor.aliases.insert("data".to_string(), "query".to_string());

    assert_eq!(visitor.aliases.len(), 1);
    assert_eq!(visitor.aliases.get("data"), Some(&"query".to_string()));

    visitor.visit_expr(&ident("data"));
    assert_eq!(visitor.violations.len(), 1);
    assert_eq!(visitor.violations[0].message, "Unvalidated aliased access to req.query via `data`");
}

#[test]
fn validation_seen_before_access_suppresses() {
    // schema.parse(input) visited before req.body: no violation.
    let mut visitor = fresh_visitor("test-file.ts");
    let validation = call(member(ident("schema"), named("parse")), vec![ident("input")]);
    visitor.visit_stmt(&Stmt::Expr { expr: validation });
    visitor.visit_stmt(&Stmt::Expr { expr: member(ident("req"), named("body")) });
    assert_eq!(visitor.violations.len(), 0);
    assert!(visitor.found_validation);
}

#[test]
fn validation_seen_after_access_does_not_suppress() {
    // req.body visited before schema.parse(input): the violation stays,
    // even though both stand in the same handler.
    let mut visitor = fresh_visitor("test-file.ts");
    visitor.visit_stmt(&Stmt::Expr { expr: member(ident("req"), named("body")) });
    let validation = call(member(ident("schema"), named("parse")), vec![ident("input")]);
    visitor.visit_stmt(&Stmt::Expr { expr: validation });
    assert_eq!(visitor.violations.len(), 1);
    assert!(matches!(visitor.violations[0].kind, ViolationKind::DirectAccess));
    assert_eq!(visitor.violations[0].message, "Unvalidated direct access: req.body");
    assert!(visitor.found_validation);
}

#[test]
fn computed_property_rendering_in_messages() {
    let mut visitor = fresh_visitor("test-file.ts");
    visitor.aliases.insert("data".to_string(), "body".to_string());

    // data[0] with a literal index
    visitor.visit_expr(&Expr::Member {
        obj: Box::new(ident("data")),
        prop: MemberProp::Computed {
            index: Box::new(Expr::Lit { debug: "Num(0.0)".to_string(), pos: pos() }),
        },
        pos: pos(),
    });
    // data[key] with an identifier index
    visitor.visit_expr(&Expr::Member {
        obj: Box::new(ident("data")),
        prop: MemberProp::Computed { index: Box::new(ident("key")) },
        pos: pos(),
    });
    // data[f()] with any other computed index
    visitor.visit_expr(&Expr::Member {
        obj: Box::new(ident("data")),
        prop: MemberProp::Computed { index: Box::new(call(ident("f"), vec![])) },
        pos: pos(),
    });

    let indirect: Vec<_> = visitor
        .violations
        .iter()
        .filter(|v| matches!(v.kind, ViolationKind::IndirectAccess))
        .collect();
    assert_eq!(indirect.len(), 3);
    assert_eq!(indirect[0].message, "Unvalidated indirect access: data.[computed: Num(0.0)] → req.body");
    assert_eq!(indirect[1].message, "Unvalidated indirect access: data.[computed: key] → req.body");
    assert_eq!(indirect[2].message, "Unvalidated indirect access: data.[computed] → req.body");
}
