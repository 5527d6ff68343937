use gleam_lsp::ast::{SrcSpan, TodoKind};
use gleam_lsp::diagnostic::{Diagnostic, Label, Level, Location};
use gleam_lsp::type_::{self, Type};
use gleam_lsp::warning::{
    NullWarningEmitterIO, TypeWarningEmitter, VectorWarningEmitterIO, Warning, WarningEmitter,
    WarningEmitterIO,
};
use smol_str::SmolStr;

fn span() -> SrcSpan {
    SrcSpan { start: 3, end: 9 }
}

fn tied(warning: type_::Warning) -> Warning {
    Warning::Type {
        path: "src/app.gleam".to_string(),
        src: SmolStr::new("pub fn main() { todo }"),
        warning,
    }
}

fn expected(title: &str, text: &str, hint: Option<&str>, label: &str) -> Diagnostic {
    Diagnostic {
        title: title.to_string(),
        text: text.to_string(),
        level: Level::Warning,
        location: Some(Location {
            path: "src/app.gleam".to_string(),
            src: SmolStr::new("pub fn main() { todo }"),
            label: Label {
                text: Some(label.to_string()),
                span: span(),
            },
            extra_labels: vec![],
        }),
        hint: hint.map(|h| h.to_string()),
    }
}

fn int_type() -> Type {
    Type {
        printed: "Int".to_string(),
        variable: false,
    }
}

fn open_type() -> Type {
    Type {
        printed: "a".to_string(),
        variable: true,
    }
}

#[test]
fn todo_keyword_with_known_type() {
    let warning = tied(type_::Warning::Todo {
        kind: TodoKind::Keyword,
        location: span(),
        typ: int_type(),
    });
    assert_eq!(
        warning.to_diagnostic(),
        expected(
            "Todo found",
            "This code will crash if it is run. Be sure to finish it before\nrunning your program.\n\nHint: I think its type is `Int`.\n",
            None,
            "This code is incomplete",
        )
    );
}

#[test]
fn todo_with_unresolved_type_has_no_type_hint() {
    let warning = tied(type_::Warning::Todo {
        kind: TodoKind::EmptyFunction,
        location: span(),
        typ: open_type(),
    });
    assert_eq!(
        warning.to_diagnostic(),
        expected(
            "Unimplemented function",
            "This code will crash if it is run. Be sure to finish it before\nrunning your program.",
            None,
            "This code is incomplete",
        )
    );
}

#[test]
fn todo_incomplete_use() {
    let warning = tied(type_::Warning::Todo {
        kind: TodoKind::IncompleteUse,
        location: span(),
        typ: int_type(),
    });
    assert_eq!(
        warning.to_diagnostic(),
        expected(
            "Incomplete use expression",
            "This code will crash if it is run. Be sure to finish it before\nrunning your program.\nA use expression must always be followed by at least one more\nexpression.\n\nHint: I think its type is `Int`.\n",
            None,
            "This code is incomplete",
        )
    );
}

#[test]
fn discarded_result() {
    let warning = tied(type_::Warning::ImplicitlyDiscardedResult { location: span() });
    assert_eq!(
        warning.to_diagnostic(),
        expected(
            "Unused result value",
            "",
            Some("If you are sure you don't need it you can assign it to `_`"),
            "The Result value created here is unused",
        )
    );
}

#[test]
fn unused_literal() {
    let warning = tied(type_::Warning::UnusedLiteral { location: span() });
    assert_eq!(
        warning.to_diagnostic(),
        expected(
            "Unused literal",
            "",
            Some("You can safely remove it."),
            "This value is never used",
        )
    );
}

#[test]
fn record_updates() {
    let none = tied(type_::Warning::NoFieldsRecordUpdate { location: span() });
    assert_eq!(
        none.to_diagnostic(),
        expected(
            "Fieldless record update",
            "",
            Some("Add some fields to change or replace it with the record itself."),
            "This record update doesn't change any fields.",
        )
    );
    let all = tied(type_::Warning::AllFieldsRecordUpdate { location: span() });
    assert_eq!(
        all.to_diagnostic(),
        expected(
            "Redundant record update",
            "",
            Some("It is better style to use the record creation syntax."),
            "This record update specifies all fields",
        )
    );
}

#[test]
fn unused_type_imported_and_private() {
    let imported = tied(type_::Warning::UnusedType {
        location: span(),
        imported: true,
        name: "Wibble".to_string(),
    });
    assert_eq!(
        imported.to_diagnostic(),
        expected(
            "Unused imported type",
            "",
            Some("You can safely remove it."),
            "This imported type is never used.",
        )
    );
    let private = tied(type_::Warning::UnusedType {
        location: span(),
        imported: false,
        name: "Wibble".to_string(),
    });
    assert_eq!(
        private.to_diagnostic(),
        expected(
            "Unused private type",
            "",
            Some("You can safely remove it."),
            "This private type is never used.",
        )
    );
}

#[test]
fn unused_constructor_imported_and_private() {
    let imported = tied(type_::Warning::UnusedConstructor {
        location: span(),
        imported: true,
        name: "Wibble".to_string(),
    });
    assert_eq!(
        imported.to_diagnostic(),
        expected(
            "Unused imported item",
            "",
            Some("You can safely remove it."),
            "This imported constructor is never used.",
        )
    );
    let private = tied(type_::Warning::UnusedConstructor {
        location: span(),
        imported: false,
        name: "Wibble".to_string(),
    });
    assert_eq!(
        private.to_diagnostic(),
        expected(
            "Unused private constructor",
            "",
            Some("You can safely remove it."),
            "This private constructor is never used.",
        )
    );
}

#[test]
fn unused_imports_constants_and_functions() {
    let name = "wobble".to_string();
    let cases = vec![
        (
            type_::Warning::UnusedImportedModule {
                location: span(),
                name: name.clone(),
            },
            "Unused imported module",
            "This imported module is never used.",
        ),
        (
            type_::Warning::UnusedImportedValue {
                location: span(),
                name: name.clone(),
            },
            "Unused imported value",
            "This imported value is never used.",
        ),
        (
            type_::Warning::UnusedPrivateModuleConstant {
                location: span(),
                name: name.clone(),
            },
            "Unused private constant",
            "This private constant is never used.",
        ),
        (
            type_::Warning::UnusedPrivateFunction {
                location: span(),
                name: name.clone(),
            },
            "Unused private function",
            "This private function is never used.",
        ),
    ];
    for (warning, title, label) in cases {
        assert_eq!(
            tied(warning).to_diagnostic(),
            expected(title, "", Some("You can safely remove it."), label)
        );
    }
}

#[test]
fn unused_variable_names_the_variable() {
    let warning = tied(type_::Warning::UnusedVariable {
        location: span(),
        name: "count".to_string(),
    });
    assert_eq!(
        warning.to_diagnostic(),
        expected(
            "Unused variable",
            "",
            Some("You can ignore it with an underscore: `_count`."),
            "This variable is never used.",
        )
    );
}

#[test]
fn diagnostic_carries_path_source_and_span_through() {
    let warning = Warning::Type {
        path: "test/other_test.gleam".to_string(),
        src: SmolStr::new("import gleam/io\n"),
        warning: type_::Warning::UnusedImportedModule {
            location: SrcSpan { start: 0, end: 15 },
            name: "io".to_string(),
        },
    };
    let location = warning.to_diagnostic().location.expect("a location");
    assert_eq!(location.path, "test/other_test.gleam");
    assert_eq!(location.src.as_str(), "import gleam/io\n");
    assert_eq!(location.label.span, SrcSpan { start: 0, end: 15 });
    assert!(location.extra_labels.is_empty());
}

#[test]
fn vector_sink_keeps_and_hands_out_once() {
    let mut sink = VectorWarningEmitterIO::new();
    let first = tied(type_::Warning::UnusedLiteral { location: span() });
    let second = tied(type_::Warning::ImplicitlyDiscardedResult { location: span() });
    sink.emit_warning(first.clone());
    sink.emit_warning(second.clone());
    assert_eq!(sink.take(), vec![first, second.clone()]);
    assert_eq!(sink.take(), vec![]);
    sink.emit_warning(second.clone());
    assert_eq!(sink.drain(), vec![second]);
    assert_eq!(sink.drain(), vec![]);
}

#[test]
fn null_sink_keeps_nothing() {
    let mut sink = NullWarningEmitterIO;
    sink.emit_warning(tied(type_::Warning::UnusedLiteral { location: span() }));
    let mut emitter = WarningEmitter::new(sink);
    emitter.emit(tied(type_::Warning::UnusedLiteral { location: span() }));
    assert_eq!(emitter.count(), 1);
}

#[test]
fn emitter_counts_and_resets() {
    let mut emitter = WarningEmitter::new(VectorWarningEmitterIO::new());
    assert_eq!(emitter.count(), 0);
    emitter.emit(tied(type_::Warning::UnusedLiteral { location: span() }));
    emitter.emit(tied(type_::Warning::UnusedLiteral { location: span() }));
    assert_eq!(emitter.count(), 2);
    assert_eq!(emitter.emitter.warnings.len(), 2);
    emitter.reset_count();
    assert_eq!(emitter.count(), 0);
    assert_eq!(emitter.emitter.warnings.len(), 2);
}

#[test]
fn emitter_count_wraps_round() {
    let mut emitter = WarningEmitter::new(NullWarningEmitterIO);
    emitter.count = usize::MAX;
    emitter.emit(tied(type_::Warning::UnusedLiteral { location: span() }));
    assert_eq!(emitter.count(), 0);
}

#[test]
fn type_emitter_ties_warning_to_its_module() {
    let mut emitter = TypeWarningEmitter::new(
        "src/app.gleam".to_string(),
        SmolStr::new("pub fn main() { todo }"),
        WarningEmitter::new(VectorWarningEmitterIO::new()),
    );
    emitter.emit(type_::Warning::UnusedLiteral { location: span() });
    assert_eq!(emitter.emitter.count(), 1);
    assert_eq!(
        emitter.emitter.emitter.warnings,
        vec![tied(type_::Warning::UnusedLiteral { location: span() })]
    );
}

#[test]
fn null_type_emitter() {
    let mut emitter = TypeWarningEmitter::null();
    assert_eq!(emitter.path, "");
    assert_eq!(emitter.src.as_str(), "");
    emitter.emit(type_::Warning::UnusedLiteral { location: span() });
    assert_eq!(emitter.emitter.count(), 1);
}

#[test]
fn pretty_string_of_a_warning() {
    let warning = tied(type_::Warning::UnusedVariable {
        location: span(),
        name: "x".to_string(),
    });
    assert_eq!(
        warning.to_pretty_string(),
        "\nwarning: Unused variable\n  --> src/app.gleam\n      This variable is never used.\n\nHint: You can ignore it with an underscore: `_x`.\n"
    );
}

#[test]
fn pretty_string_with_body_text() {
    let warning = tied(type_::Warning::Todo {
        kind: TodoKind::Keyword,
        location: span(),
        typ: open_type(),
    });
    assert_eq!(
        warning.to_pretty_string(),
        "\nwarning: Todo found\n  --> src/app.gleam\n      This code is incomplete\n\nThis code will crash if it is run. Be sure to finish it before\nrunning your program.\n"
    );
}

#[test]
fn pretty_adds_to_the_buffer() {
    let warning = tied(type_::Warning::UnusedLiteral { location: span() });
    let mut buffer = termcolor::Buffer::no_color();
    std::io::Write::write_all(&mut buffer, b"before").expect("write");
    warning.pretty(&mut buffer);
    let mut wanted = b"before".to_vec();
    wanted.extend_from_slice(warning.to_pretty_string().as_bytes());
    assert_eq!(buffer.into_inner(), wanted);
}

#[test]
fn pretty_string_keeps_text_beyond_ascii() {
    let warning = Warning::Type {
        path: "src/caf\u{e9}.gleam".to_string(),
        src: SmolStr::new(""),
        warning: type_::Warning::UnusedVariable {
            location: span(),
            name: "\u{65e5}\u{672c}".to_string(),
        },
    };
    assert_eq!(
        warning.to_pretty_string(),
        "\nwarning: Unused variable\n  --> src/caf\u{e9}.gleam\n      This variable is never used.\n\nHint: You can ignore it with an underscore: `_\u{65e5}\u{672c}`.\n"
    );
}
