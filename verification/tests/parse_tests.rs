//! The original parsing and description tests of the engine.

use chatimpl::parse_defs;

const SOURCE_FIB_PLAIN: &str = r#"
def fibonacci(n: int, a: float) -> int:
    """
    Return the n-th fibonacci number.
    """
"#;

const SOURCE_FIB: &str = r#"
def fibonacci(n: int, a: float = 1.0, b: float = None) -> int:
    """
    Return the n-th fibonacci number.
    """
"#;

#[test]
fn implement_test_parse() {
    let suite = parse_defs(SOURCE_FIB_PLAIN);
    assert!(suite.is_ok());
}

#[test]
fn implement_test_implement_function() {
    let stuff = parse_defs(SOURCE_FIB_PLAIN).unwrap();
    for defn in &stuff {
        println!("{}", defn.as_snippet());
    }
    println!("{}", SOURCE_FIB_PLAIN);
}

#[test]
fn parse_test_parse() {
    let suite = parse_defs(SOURCE_FIB);
    assert!(suite.is_ok());
}

#[test]
fn parse_test_implement_function() {
    let stuff = parse_defs(SOURCE_FIB).unwrap();
    for defn in &stuff {
        println!("{}", defn.as_snippet());
    }
    println!("{}", SOURCE_FIB);
}

#[test]
fn test_describe_single() {
    const SOURCE: &str = r#"
def fibonacci(n: int, a: float = 1.0, b: float = None) -> int:
    """
    Return the n-th fibonacci number.
    """
"#;

    let expected = r#"Can you implement exactly one function for me in Python whose name is `fibonacci` that takes in the arguments specified below and returns the type specified below. This function should do exactly as the docstring says which is also described below.

Arguments:
- `n` that is of type `int`
- `a` that is of type `float` with a default value of `1`,
- `b` that is of type `float` with a default value of `None`,


Return type:
- `int`

Docstring:
"Return the n-th fibonacci number."

Can you please only return the function implementation and not return any other text other than that? (Not even the "Sure, here's the implementation")"#;

    let definitions = parse_defs(SOURCE).unwrap();
    let fib = definitions.first().unwrap();
    let observed = fib.describe();
    assert_eq!(expected, observed);
}

#[test]
fn test_describe() {
    const SOURCE: &str = r#"
import typing
def fibonacci(n: int, x: float = None, t: float = ("1", "2")) -> int:
    """
    Return the (n+2)-th fibonacci number.
    foobar
    """
"#;
    let definitions = parse_defs(SOURCE).unwrap();
    let descriptions = definitions.iter().map(|defn| defn.describe()).collect::<Vec<_>>();
    for description in &descriptions {
        println!("{}", description);
    }
    println!("{}", definitions.first().unwrap().as_snippet());
}

#[test]
fn test_function_body_injection() {
    let s = "\ndef fibonacci(n: int) -> int:\n    if n <= 1:\n        return n\n    else:\n        return fibonacci(n-1) + fibonacci(n-2)\n";
    println!("{}", s);
}
