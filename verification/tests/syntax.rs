use gleam_lsp::ast::{
    find_node_in, DefinitionLocation, Function, Import, Located, SrcSpan, Statement, TypedExpr,
    TypedModule,
};
use gleam_lsp::type_::Type;

fn int_type() -> Type {
    Type {
        printed: "Int".to_string(),
        variable: false,
    }
}

fn leaf(start: usize, end: usize) -> TypedExpr {
    TypedExpr {
        location: SrcSpan { start, end },
        type_: int_type(),
        definition: None,
        children: vec![],
    }
}

fn node(start: usize, end: usize, children: Vec<TypedExpr>) -> TypedExpr {
    TypedExpr {
        location: SrcSpan { start, end },
        type_: int_type(),
        definition: None,
        children,
    }
}

#[test]
fn span_holds_its_start_but_not_its_end() {
    let span = SrcSpan::new(3, 6);
    assert!(!span.contains(2));
    assert!(span.contains(3));
    assert!(span.contains(5));
    assert!(!span.contains(6));
    assert!(!SrcSpan::new(4, 4).contains(4));
}

#[test]
fn find_node_gives_the_innermost_expression() {
    // 10..30 holds 12..20 which holds 14..16
    let tree = node(10, 30, vec![node(12, 20, vec![leaf(14, 16)]), leaf(22, 28)]);
    assert_eq!(tree.find_node(15).map(|e| e.location), Some(SrcSpan { start: 14, end: 16 }));
    assert_eq!(tree.find_node(13).map(|e| e.location), Some(SrcSpan { start: 12, end: 20 }));
    assert_eq!(tree.find_node(25).map(|e| e.location), Some(SrcSpan { start: 22, end: 28 }));
    assert_eq!(tree.find_node(21).map(|e| e.location), Some(SrcSpan { start: 10, end: 30 }));
    assert_eq!(tree.find_node(30), None);
    assert_eq!(tree.find_node(9), None);
}

#[test]
fn nodes_that_share_a_boundary_give_the_inner_one() {
    let tree = node(10, 30, vec![node(10, 20, vec![leaf(10, 12)]), leaf(20, 30)]);
    assert_eq!(tree.find_node(10).map(|e| e.location), Some(SrcSpan { start: 10, end: 12 }));
    assert_eq!(tree.find_node(29).map(|e| e.location), Some(SrcSpan { start: 20, end: 30 }));
    assert_eq!(tree.find_node(19).map(|e| e.location), Some(SrcSpan { start: 10, end: 20 }));
}

#[test]
fn find_node_in_a_list_takes_the_first_that_has_one() {
    let list = vec![leaf(0, 4), node(6, 12, vec![leaf(8, 10)]), leaf(8, 20)];
    assert_eq!(find_node_in(&list, 9).map(|e| e.location), Some(SrcSpan { start: 8, end: 10 }));
    assert_eq!(find_node_in(&list, 15).map(|e| e.location), Some(SrcSpan { start: 8, end: 20 }));
    assert_eq!(find_node_in(&list, 5), None);
    assert_eq!(find_node_in(&vec![], 5), None);
}

fn module() -> TypedModule {
    TypedModule {
        statements: vec![
            Statement::Import(Import {
                location: SrcSpan { start: 0, end: 15 },
                module: "gleam/io".to_string(),
            }),
            Statement::Function(Function {
                location: SrcSpan { start: 17, end: 60 },
                name: "main".to_string(),
                body: vec![node(35, 50, vec![leaf(40, 45)]), leaf(52, 58)],
            }),
            Statement::ModuleConstant {
                location: SrcSpan { start: 62, end: 80 },
            },
        ],
    }
}

#[test]
fn module_find_node_tells_statements_from_expressions() {
    let module = module();
    match module.find_node(3) {
        Some(Located::Statement(Statement::Import(import))) => assert_eq!(import.module, "gleam/io"),
        other => panic!("not the import: {:?}", other),
    }
    match module.find_node(20) {
        Some(Located::Statement(Statement::Function(function))) => assert_eq!(function.name, "main"),
        other => panic!("not the function: {:?}", other),
    }
    match module.find_node(42) {
        Some(Located::Expression(expression)) => {
            assert_eq!(expression.location, SrcSpan { start: 40, end: 45 })
        }
        other => panic!("not the inner expression: {:?}", other),
    }
    match module.find_node(55) {
        Some(Located::Expression(expression)) => {
            assert_eq!(expression.location, SrcSpan { start: 52, end: 58 })
        }
        other => panic!("not the second expression: {:?}", other),
    }
    match module.find_node(70) {
        Some(Located::Statement(Statement::ModuleConstant { location })) => {
            assert_eq!(*location, SrcSpan { start: 62, end: 80 })
        }
        other => panic!("not the constant: {:?}", other),
    }
    assert_eq!(module.find_node(16), None);
    assert_eq!(module.find_node(200), None);
}

#[test]
fn only_expressions_have_definitions() {
    let module = module();
    let statement = module.find_node(3).expect("the import");
    assert_eq!(statement.definition_location(), None);

    let named = TypedExpr {
        location: SrcSpan { start: 1, end: 4 },
        type_: int_type(),
        definition: Some(DefinitionLocation {
            module: Some("gleam/io".to_string()),
            span: SrcSpan { start: 7, end: 9 },
        }),
        children: vec![],
    };
    assert_eq!(
        Located::Expression(&named).definition_location(),
        Some(&DefinitionLocation {
            module: Some("gleam/io".to_string()),
            span: SrcSpan { start: 7, end: 9 },
        })
    );
    let literal = leaf(1, 4);
    assert_eq!(Located::Expression(&literal).definition_location(), None);
}

#[test]
fn statement_locations() {
    assert_eq!(module().statements[0].location(), SrcSpan { start: 0, end: 15 });
    assert_eq!(module().statements[1].location(), SrcSpan { start: 17, end: 60 });
    assert_eq!(
        Statement::TypeAlias { location: SrcSpan { start: 1, end: 2 } }.location(),
        SrcSpan { start: 1, end: 2 }
    );
}
