use lino_core::no_implicit_any::NoImplicitAnyRule;
use lino_core::no_implicit_any::get_line_col;
use lino_core::tree::FunctionNode;
use lino_core::tree::ParamKind;
use lino_core::tree::ParamNode;
use lino_core::tree::SyntaxTree;
use lino_core::types::Severity;

fn param(kind: ParamKind, name: &str, has_annotation: bool, offset: usize) -> ParamNode {
    ParamNode { kind, name: name.to_string(), has_annotation, offset }
}

#[test]
fn rule_name() {
    let rule = NoImplicitAnyRule;
    assert_eq!(rule.name(), "no-implicit-any");
}

#[test]
fn four_unannotated_parameter_kinds_give_four_issues() {
    // Model of: function f(a, [b], {c}, ...d) {}
    let source = "function f(a, [b], {c}, ...d) {}";
    let tree = SyntaxTree {
        functions: vec![FunctionNode {
            params: vec![
                param(ParamKind::Simple, "a", false, 11),
                param(ParamKind::ArrayPattern, "", false, 14),
                param(ParamKind::ObjectPattern, "", false, 19),
                param(ParamKind::Rest, "", false, 24),
            ],
        }],
    };
    let rule = NoImplicitAnyRule;
    let issues = rule.check(&tree, &"f.ts".to_string(), source);
    assert_eq!(issues.len(), 4);
    for i in &issues {
        assert_eq!(i.rule, "no-implicit-any");
        assert_eq!(i.file, "f.ts");
        assert_eq!(i.line, 1);
        assert!(matches!(i.severity, Severity::Error));
    }
    assert_eq!(issues[0].column, 12);
    assert_eq!(
        issues[0].message,
        "Parameter 'a' implicitly has 'any' type. Add type annotation."
    );
    assert_eq!(issues[1].column, 15);
    assert_eq!(
        issues[1].message,
        "Destructured parameter implicitly has 'any' type. Add type annotation."
    );
    assert_eq!(issues[2].column, 20);
    assert_eq!(
        issues[2].message,
        "Destructured parameter implicitly has 'any' type. Add type annotation."
    );
    assert_eq!(issues[3].column, 25);
    assert_eq!(
        issues[3].message,
        "Rest parameter implicitly has 'any' type. Add type annotation."
    );
}

#[test]
fn annotated_parameter_gives_no_issue() {
    let source = "function f(a: number, b) {}";
    let tree = SyntaxTree {
        functions: vec![FunctionNode {
            params: vec![
                param(ParamKind::Simple, "a", true, 11),
                param(ParamKind::Simple, "b", false, 22),
            ],
        }],
    };
    let rule = NoImplicitAnyRule;
    let issues = rule.check(&tree, &"f.ts".to_string(), source);
    assert_eq!(issues.len(), 1);
    assert_eq!(
        issues[0].message,
        "Parameter 'b' implicitly has 'any' type. Add type annotation."
    );
    assert_eq!(issues[0].column, 23);
}

#[test]
fn nested_functions_all_contribute() {
    let source = "function o(x) { const i = (y) => y; }";
    let tree = SyntaxTree {
        functions: vec![
            FunctionNode { params: vec![param(ParamKind::Simple, "x", false, 11)] },
            FunctionNode { params: vec![param(ParamKind::Simple, "y", false, 27)] },
        ],
    };
    let rule = NoImplicitAnyRule;
    let issues = rule.check(&tree, &"n.ts".to_string(), source);
    assert_eq!(issues.len(), 2);
    assert_eq!(issues[0].column, 12);
    assert_eq!(issues[1].column, 28);
}

#[test]
fn empty_tree_gives_no_issues() {
    let rule = NoImplicitAnyRule;
    let issues = rule.check(
        &SyntaxTree { functions: vec![] },
        &"e.ts".to_string(),
        "const x = 1;",
    );
    assert!(issues.is_empty());
}

#[test]
fn line_col_counts_newlines() {
    let source = "ab\ncd\n\nef";
    assert_eq!(get_line_col(source, 0), (1, 1));
    assert_eq!(get_line_col(source, 1), (1, 2));
    assert_eq!(get_line_col(source, 2), (1, 3));
    assert_eq!(get_line_col(source, 3), (2, 1));
    assert_eq!(get_line_col(source, 4), (2, 2));
    assert_eq!(get_line_col(source, 6), (3, 1));
    assert_eq!(get_line_col(source, 7), (4, 1));
    assert_eq!(get_line_col(source, 8), (4, 2));
    // positions past the end clamp to the end of the text
    assert_eq!(get_line_col(source, 100), (4, 3));
}

#[test]
fn issue_on_later_line_has_correct_position() {
    let source = "const x = 1;\nfunction g(p) {}";
    let tree = SyntaxTree {
        functions: vec![FunctionNode { params: vec![param(ParamKind::Simple, "p", false, 24)] }],
    };
    let rule = NoImplicitAnyRule;
    let issues = rule.check(&tree, &"g.ts".to_string(), source);
    assert_eq!(issues.len(), 1);
    assert_eq!(issues[0].line, 2);
    assert_eq!(issues[0].column, 12);
}
