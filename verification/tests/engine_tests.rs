//! Scenario tests for the extraction engine and its renderers.

use chatimpl::{
    get_args, get_docstring, parse_def, parse_defs, AsString, Located, Location, PyArgument,
    PyConstant, PyExpr, PyFunction, PyParam, PyStmt, PyStmtKind, PySourceFile,
};

const SOURCE_FIB: &str = r#"
def fibonacci(n: int, a: float = 1.0, b: float = None) -> int:
    """
    Return the n-th fibonacci number.
    """
"#;

#[test]
fn test_fibonacci_descriptor_fields() {
    let defs = parse_defs(SOURCE_FIB).unwrap();
    assert_eq!(defs.len(), 1);
    let f = &defs[0];
    assert_eq!(f.name, "fibonacci");
    assert_eq!(f.return_type.as_deref(), Some("int"));
    assert_eq!(f.args.len(), 3);
    assert_eq!(f.args[0].name, "n");
    assert_eq!(f.args[0].ty.as_deref(), Some("int"));
    assert_eq!(f.args[0].default_value, None);
    assert_eq!(f.args[1].name, "a");
    assert_eq!(f.args[1].ty.as_deref(), Some("float"));
    assert_eq!(f.args[1].default_value.as_deref(), Some("1"));
    assert_eq!(f.args[2].name, "b");
    assert_eq!(f.args[2].ty.as_deref(), Some("float"));
    assert_eq!(f.args[2].default_value.as_deref(), Some("None"));
    let doc = f.doc_string.as_ref().unwrap();
    assert_eq!(doc.node, "Return the n-th fibonacci number.");
}

#[test]
fn test_unannotated_parameter_is_dropped() {
    let defs = parse_defs("def g(x, y: int) -> None:\n    pass\n").unwrap();
    assert_eq!(defs.len(), 1);
    let g = &defs[0];
    assert_eq!(g.args.len(), 1);
    assert_eq!(g.args[0].name, "y");
    assert_eq!(g.args[0].ty.as_deref(), Some("int"));
    assert_eq!(g.args[0].default_value, None);
    // `-> None` is a constant annotation, not a bare name: left unset.
    assert_eq!(g.return_type, None);
}

#[test]
fn test_import_statement_is_skipped() {
    let defs = parse_defs("import typing\ndef f(n: int) -> int:\n    pass\n").unwrap();
    assert_eq!(defs.len(), 1);
    assert_eq!(defs[0].name, "f");
}

#[test]
fn test_tuple_default_rendering() {
    let defs = parse_defs("def h(t: float = (\"1\", \"2\")) -> int:\n    pass\n").unwrap();
    assert_eq!(defs[0].args[0].default_value.as_deref(), Some("(1, 2)"));
}

#[test]
fn test_tuple_default_with_non_constant_member_left_unset() {
    let defs = parse_defs("def h(t: float = (\"1\", y)) -> int:\n    pass\n").unwrap();
    assert_eq!(defs[0].args[0].name, "t");
    assert_eq!(defs[0].args[0].default_value, None);
}

#[test]
fn test_nested_tuple_default_rendering() {
    let defs = parse_defs("def h(t: float = (1, (2, 3))):\n    pass\n").unwrap();
    assert_eq!(defs[0].args[0].default_value.as_deref(), Some("(1, (2, 3))"));
}

#[test]
fn test_extraction_order_matches_declaration_order() {
    let source = "def first(a: int):\n    pass\nx = 3\ndef second(b: str):\n    pass\n";
    let defs = parse_defs(source).unwrap();
    assert_eq!(defs.len(), 2);
    assert_eq!(defs[0].name, "first");
    assert_eq!(defs[1].name, "second");
}

#[test]
fn test_docstring_only_for_bare_string_first_statement() {
    let with_doc = parse_defs("def f(n: int):\n    \"  spaced doc  \"\n").unwrap();
    assert_eq!(with_doc[0].doc_string.as_ref().unwrap().node, "spaced doc");
    let with_stmt = parse_defs("def f(n: int):\n    n = 3\n").unwrap();
    assert!(with_stmt[0].doc_string.is_none());
    let with_number = parse_defs("def f(n: int):\n    3\n").unwrap();
    assert!(with_number[0].doc_string.is_none());
}

#[test]
fn test_docstring_span_is_statement_span() {
    let defs = parse_defs("def f(n: int):\n    \"doc\"\n").unwrap();
    let doc = defs[0].doc_string.as_ref().unwrap();
    assert_eq!(doc.location.row, 2);
    assert_eq!(doc.location.column, 5);
    let def_location = defs[0].location;
    assert_eq!(def_location.row, 1);
    assert_eq!(def_location.column, 1);
}

#[test]
fn test_constant_renderings() {
    assert_eq!(PyConstant::NoneLit.as_string(), "None");
    assert_eq!(PyConstant::Bool(true).as_string(), "True");
    assert_eq!(PyConstant::Bool(false).as_string(), "False");
    assert_eq!(PyConstant::Int(String::from("42")).as_string(), "42");
    assert_eq!(PyConstant::Float(String::from("1.5")).as_string(), "1.5");
    assert_eq!(PyConstant::Str(String::from("hi")).as_string(), "hi");
    assert_eq!(PyConstant::Bytes(vec![0, 97, 255]).as_string(), "[0, 97, 255]");
    assert_eq!(
        PyConstant::Complex { re: String::from("1"), im: String::from("2") }.as_string(),
        "1 + 2i"
    );
    assert_eq!(PyConstant::Ellipsis.as_string(), "...");
    let tuple = PyConstant::Tuple(vec![
        PyConstant::NoneLit,
        PyConstant::Bool(true),
        PyConstant::Int(String::from("7")),
    ]);
    assert_eq!(tuple.as_string(), "(None, True, 7)");
    assert_eq!(PyConstant::Tuple(vec![]).as_string(), "()");
}

#[test]
fn test_bytes_constant_through_parse() {
    let defs = parse_defs("def f(b: bytes = b\"ab\"):\n    pass\n").unwrap();
    assert_eq!(defs[0].args[0].default_value.as_deref(), Some("[97, 98]"));
}

#[test]
fn test_name_default_renders_as_identifier() {
    let defs = parse_defs("def f(x: int = SENTINEL):\n    pass\n").unwrap();
    assert_eq!(defs[0].args[0].default_value.as_deref(), Some("SENTINEL"));
}

#[test]
fn test_complex_default_expression_left_unset() {
    let defs = parse_defs("def f(x: int = 1 + 2):\n    pass\n").unwrap();
    assert_eq!(defs[0].args[0].name, "x");
    assert_eq!(defs[0].args[0].default_value, None);
}

#[test]
fn test_snippet_roundtrip() {
    let defs = parse_defs(SOURCE_FIB).unwrap();
    let snippet = defs[0].as_snippet();
    assert_eq!(
        snippet,
        "def fibonacci(n: int, a: float = 1, b: float = None) -> int:\n    \"\"\"\n    Return the n-th fibonacci number.\n    \"\"\""
    );
}

#[test]
fn test_snippet_without_args_or_doc() {
    let defs = parse_defs("def nothing():\n    pass\n").unwrap();
    assert_eq!(defs[0].as_snippet(), "def nothing():\n");
}

#[test]
fn test_parse_error_is_reported() {
    let r = parse_defs("def (:\n");
    let e = r.err().unwrap();
    assert!(!e.message.is_empty());
}

#[test]
fn test_source_file_parse_and_error_keeps_functions() {
    let mut model = PySourceFile::new(SOURCE_FIB);
    assert_eq!(model.src, SOURCE_FIB);
    assert!(model.functions.is_empty());
    assert!(model.parse().is_ok());
    assert_eq!(model.functions.len(), 1);
    model.src = String::from("def (:\n");
    assert!(model.parse().is_err());
    assert_eq!(model.functions.len(), 1);
}

#[test]
fn test_set_implementation_leaves_descriptor() {
    let mut model = PySourceFile::new(SOURCE_FIB);
    model.parse().unwrap();
    let defn = &mut model.functions[0];
    let name_before = defn.name.clone();
    assert!(defn.set_implementation("def fibonacci(n: int) -> int:\n    return n\n").is_ok());
    assert!(defn.set_implementation("def (:\n").is_err());
    assert_eq!(defn.name, name_before);
    parse_def(defn, "def fibonacci(n: int) -> int:\n    return n\n");
    assert_eq!(defn.name, name_before);
}

#[test]
fn test_get_args_alignment_with_dropped_parameter() {
    // `x` is dropped before alignment, so the defaults of the kept list are
    // counted from the end of the filtered parameters.
    let params = vec![
        PyParam { name: String::from("x"), annotation: None, default: None },
        PyParam {
            name: String::from("y"),
            annotation: Some(PyExpr::Name(String::from("int"))),
            default: Some(PyExpr::Constant(PyConstant::Int(String::from("1")))),
        },
        PyParam {
            name: String::from("z"),
            annotation: Some(PyExpr::Name(String::from("int"))),
            default: Some(PyExpr::Constant(PyConstant::Int(String::from("2")))),
        },
    ];
    let args = get_args(&params);
    assert_eq!(args.len(), 2);
    assert_eq!(args[0].name, "y");
    assert_eq!(args[0].default_value.as_deref(), Some("1"));
    assert_eq!(args[1].name, "z");
    assert_eq!(args[1].default_value.as_deref(), Some("2"));
}

#[test]
fn test_get_args_excess_defaults_are_ignored() {
    // Both defaults belong to unkept or missing slots beyond the single kept
    // parameter: only the last default can attach, the earlier one is
    // dropped rather than panicking.
    let params = vec![
        PyParam { name: String::from("x"), annotation: None, default: Some(PyExpr::Name(String::from("a"))) },
        PyParam {
            name: String::from("y"),
            annotation: Some(PyExpr::Name(String::from("int"))),
            default: Some(PyExpr::Name(String::from("b"))),
        },
    ];
    let args = get_args(&params);
    assert_eq!(args.len(), 1);
    assert_eq!(args[0].name, "y");
    assert_eq!(args[0].default_value.as_deref(), Some("b"));
}

#[test]
fn test_get_docstring_directly() {
    let stmt = PyStmt {
        location: Location { row: 3, column: 5 },
        end_location: Some(Location { row: 3, column: 12 }),
        kind: PyStmtKind::Expr {
            value: PyExpr::Constant(PyConstant::Str(String::from("  doc  "))),
        },
    };
    let doc: Located<String> = get_docstring(&stmt).unwrap();
    assert_eq!(doc.node, "doc");
    assert_eq!(doc.location.row, 3);
    assert_eq!(doc.end_location.unwrap().column, 12);
    let other = PyStmt {
        location: Location { row: 1, column: 1 },
        end_location: None,
        kind: PyStmtKind::Other,
    };
    assert!(get_docstring(&other).is_none());
}

#[test]
fn test_describe_argument() {
    let arg = PyArgument {
        ty: Some(String::from("int")),
        name: String::from("n"),
        default_value: Some(String::from("3")),
    };
    assert_eq!(arg.describe(), "`n` that is of type `int` with a default value of `3`,");
    let bare = PyArgument { ty: None, name: String::from("n"), default_value: None };
    assert_eq!(bare.describe(), "`n`");
}

#[test]
fn test_describe_without_sections() {
    let f = PyFunction {
        name: String::from("empty"),
        args: vec![],
        doc_string: None,
        return_type: None,
        location: Location { row: 1, column: 1 },
        end_location: None,
    };
    let expected = "Can you implement exactly one function for me in Python whose name is `empty` that takes in the arguments specified below and returns the type specified below. This function should do exactly as the docstring says which is also described below.\n\nCan you please only return the function implementation and not return any other text other than that? (Not even the \"Sure, here's the implementation\")";
    assert_eq!(f.describe(), expected);
}
