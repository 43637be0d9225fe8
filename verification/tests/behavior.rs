use minilisp::builtins::init_toplevel;
use minilisp::env::Env;
use minilisp::err::LispError;
use minilisp::eval::eval;
use minilisp::exp::{Exp, Kind, MacroKind};
use minilisp::list::next;
use minilisp::err::ParseFault;
use minilisp::parser::parse_tokens;
use minilisp::render::render;
use minilisp::table::Table;
use minilisp::tokenizer::tokenize;
use std::sync::Arc;

const FUEL: u64 = 100_000;

fn run(program: &str) -> Result<Exp, LispError> {
    let (res, _) = run_with_output(program);
    res
}

fn run_with_output(program: &str) -> (Result<Exp, LispError>, Vec<String>) {
    let tokens = tokenize(program.to_string());
    let mut pos: usize = 0;
    let tree = parse_tokens(&tokens, &mut pos).unwrap();
    let mut globals = init_toplevel();
    let mut output: Vec<String> = Vec::new();
    let res = eval(&tree, &Arc::new(Env::new()), &mut globals, &mut output, FUEL);
    (res, output)
}

fn expect_num(program: &str, want: i64) {
    match run(program) {
        Ok(Exp::Num(n)) => assert_eq!(n, want),
        other => panic!("expected {want}, got {other:?}"),
    }
}

#[test]
fn test_addition_folds() {
    expect_num("(+ 1 2 3)", 6);
    expect_num("(+)", 0);
    expect_num("(+ -5 5)", 0);
}

#[test]
fn test_multiplication_folds() {
    expect_num("(* 2 3 4)", 24);
    expect_num("(*)", 1);
}

#[test]
fn test_subtraction_folds() {
    expect_num("(- 10 1 2)", 7);
    expect_num("(- 5)", 5);
    assert!(matches!(run("(-)"), Err(LispError::ArityMismatch)));
}

#[test]
fn test_numeric_equality() {
    assert!(matches!(run("(= 3 3 3)"), Ok(Exp::Bool(true))));
    assert!(matches!(run("(= 3 4)"), Ok(Exp::Bool(false))));
    assert!(matches!(run("(= 1)"), Ok(Exp::Bool(true))));
}

#[test]
fn test_car_cdr_of_cons() {
    expect_num("(car (cons 1 2))", 1);
    expect_num("(cdr (cons 1 2))", 2);
}

#[test]
fn test_empty_form_and_empty_sequence_are_nil() {
    // A literal `()` and an empty body both evaluate to nil, the
    // canonical falsy value, not to a truthy empty vector.
    assert!(matches!(run("()"), Ok(Exp::List(None))));
    assert!(matches!(run("(progn)"), Ok(Exp::List(None))));
    assert!(matches!(run("(progn (def ignored 1))"), Ok(Exp::List(None))));
    expect_num("(if () 1 2)", 2);
}

#[test]
fn test_next_returns_the_tail() {
    let three = match run("(list 1 2 3)") {
        Ok(Exp::List(l)) => l,
        other => panic!("expected a list, got {other:?}"),
    };
    let tail = next(&three);
    assert_eq!(render(&Exp::List(tail)), "(2 3 )");
    let improper = match run("(cons 1 2)") {
        Ok(Exp::List(l)) => l,
        other => panic!("expected a list, got {other:?}"),
    };
    assert!(next(&improper).is_none());
    assert!(next(&None).is_none());
}

#[test]
fn test_car_cdr_of_nil() {
    assert!(matches!(run("(car nil)"), Ok(Exp::List(None))));
    assert!(matches!(run("(cdr nil)"), Ok(Exp::List(None))));
}

#[test]
fn test_if_true_runs_only_then_branch() {
    // The chosen branch's definition lands in the global table; the
    // other branch is never evaluated, so its name stays unbound.
    expect_num("(progn (if true (def yes 1) (def no 2)) yes)", 1);
    match run("(progn (if true (def yes 1) (def no 2)) no)") {
        Err(LispError::UnboundSymbol(name)) => assert_eq!(name, "no"),
        other => panic!("expected unbound symbol, got {other:?}"),
    }
}

#[test]
fn test_if_false_runs_only_else_branch() {
    expect_num("(progn (if false (def yes 1) (def no 2)) no)", 2);
    match run("(progn (if false (def yes 1) (def no 2)) yes)") {
        Err(LispError::UnboundSymbol(name)) => assert_eq!(name, "yes"),
        other => panic!("expected unbound symbol, got {other:?}"),
    }
}

#[test]
fn test_if_truthiness_of_zero() {
    // Zero is true; only Bool(false) and the empty list are false.
    expect_num("(if 0 1 2)", 1);
    expect_num("(if nil 1 2)", 2);
}

#[test]
fn test_let_bindings_are_simultaneous() {
    match run("(let ((a 1) (b a)) b)") {
        Err(LispError::UnboundSymbol(name)) => assert_eq!(name, "a"),
        other => panic!("expected unbound symbol, got {other:?}"),
    }
}

#[test]
fn test_let_shadowing_is_local() {
    expect_num("(progn (def x 1) (let ((x 2)) x))", 2);
    expect_num("(progn (def x 1) (let ((x 2)) 0) x)", 1);
}

#[test]
fn test_lambda_does_not_capture_definition_scope() {
    let program = "(progn (let ((x 42)) (def f (lambda () x))) (f))";
    match run(program) {
        Err(LispError::UnboundSymbol(name)) => assert_eq!(name, "x"),
        other => panic!("expected unbound symbol, got {other:?}"),
    }
}

#[test]
fn test_lambda_sees_call_site_bindings() {
    // The flip side of no capture: the body resolves free variables
    // against the chain of the call site.
    let program = "(progn (def f (lambda () x)) (let ((x 7)) (f)))";
    expect_num(program, 7);
}

#[test]
fn test_lambda_arity_is_checked() {
    let program = "(progn (defun id (x) x) (id 1 2))";
    assert!(matches!(run(program), Err(LispError::ArityMismatch)));
}

#[test]
fn test_arithmetic_type_errors() {
    assert!(matches!(
        run("(+ 1 true)"),
        Err(LispError::TypeMismatch(Kind::Num, Kind::Bool))
    ));
    assert!(matches!(
        run("(car 5)"),
        Err(LispError::TypeMismatch(Kind::List, Kind::Num))
    ));
}

#[test]
fn test_head_must_be_callable() {
    assert!(matches!(run("(1 2)"), Err(LispError::NotCallable)));
    assert!(matches!(run("(progn (def x 5) (x))"), Err(LispError::NotCallable)));
}

#[test]
fn test_unbound_symbol_reported() {
    match run("missing") {
        Err(LispError::UnboundSymbol(name)) => assert_eq!(name, "missing"),
        other => panic!("expected unbound symbol, got {other:?}"),
    }
}

#[test]
fn test_malformed_let_bindings() {
    assert!(matches!(
        run("(let 5 2)"),
        Err(LispError::MalformedForm(MacroKind::Let))
    ));
    assert!(matches!(
        run("(let ((a 1 2)) a)"),
        Err(LispError::MalformedForm(MacroKind::Let))
    ));
}

#[test]
fn test_assert_builtin() {
    assert!(matches!(run("(assert true (= 1 1))"), Ok(Exp::List(None))));
    assert!(matches!(run("(assert false)"), Err(LispError::AssertionFailed)));
}

#[test]
fn test_or_walks_all_values() {
    assert!(matches!(run("(or false true)"), Ok(Exp::Bool(true))));
    assert!(matches!(run("(or false false)"), Ok(Exp::Bool(false))));
    assert!(matches!(run("(or 1)"), Ok(Exp::Bool(true))));
    assert!(matches!(run("(or)"), Err(LispError::ArityMismatch)));
}

#[test]
fn test_dotimes_counts_through_globals() {
    // `def` evaluates its value in a fresh environment, so the body can
    // read the global count but never the loop variable.
    let program =
        "(progn (def total 0) (dotimes 4 (lambda (i) (def total (+ total 1)))) total)";
    expect_num(program, 4);
}

#[test]
fn test_dotimes_passes_the_count() {
    let (res, output) = run_with_output("(dotimes 3 (lambda (i) (print i)))");
    assert!(matches!(res, Ok(Exp::List(None))));
    assert_eq!(output, vec!["0", "1", "2"]);
}

#[test]
fn test_print_appends_renderings() {
    let (res, output) = run_with_output("(progn (print 12 -3) (print nil))");
    assert!(matches!(res, Ok(Exp::Vector(v)) if v.is_empty()));
    assert_eq!(output, vec!["12", "-3", "()"]);
}

#[test]
fn test_render_of_lambda_names_parameters() {
    let res = run("(lambda (t) t)").unwrap();
    assert_eq!(render(&res), "Lambda with arguments: [\"t\"]");
}

#[test]
fn test_render_of_booleans() {
    let res = run("(= 1 1)").unwrap();
    assert_eq!(render(&res), "Bool(true)");
}

#[test]
fn test_depth_budget_exhaustion() {
    // A small budget keeps the host stack safe while the runaway
    // recursion exhausts the interpreter's own depth bound.
    let program = "(progn (defun spin (n) (spin (+ n 1))) (spin 0))";
    let tokens = tokenize(program.to_string());
    let mut pos: usize = 0;
    let tree = parse_tokens(&tokens, &mut pos).unwrap();
    let mut globals = init_toplevel();
    let mut output: Vec<String> = Vec::new();
    let res = eval(&tree, &Arc::new(Env::new()), &mut globals, &mut output, 256);
    assert!(matches!(res, Err(LispError::StackOverflow)));
}

#[test]
fn test_error_messages() {
    let e = LispError::UnboundSymbol("foo".to_string());
    assert_eq!(e.message(), "Symbol foo is unbound");
    assert_eq!(LispError::NotCallable.message(), "Attempted to call non-callable object");
}

#[test]
fn test_table_latest_binding_wins() {
    let mut t = Table::new();
    assert!(t.get("x").is_none());
    t.insert("x", Exp::Num(1));
    t.insert("x", Exp::Num(2));
    match t.get("x") {
        Some(Exp::Num(n)) => assert_eq!(n, 2),
        other => panic!("expected 2, got {other:?}"),
    }
}

#[test]
fn test_env_chain_falls_through() {
    let globals = {
        let mut g = Table::new();
        g.insert("g", Exp::Num(3));
        g
    };
    let mut parent = Env::new();
    parent.insert("p", Exp::Num(1));
    let parent = Arc::new(parent);
    let mut child = Env::from_upper(&parent);
    child.insert("c", Exp::Num(2));
    assert!(matches!(child.get("c", &globals), Ok(Exp::Num(2))));
    assert!(matches!(child.get("p", &globals), Ok(Exp::Num(1))));
    assert!(matches!(child.get("g", &globals), Ok(Exp::Num(3))));
    match child.get("absent", &globals) {
        Err(LispError::UnboundSymbol(name)) => assert_eq!(name, "absent"),
        other => panic!("expected unbound symbol, got {other:?}"),
    }
}

#[test]
fn test_parse_errors() {
    let tokens = tokenize("(+ 1".to_string());
    let mut pos: usize = 0;
    assert!(matches!(
        parse_tokens(&tokens, &mut pos),
        Err(LispError::ParseError(ParseFault::UnexpectedEof))
    ));
    let tokens = tokenize(")".to_string());
    let mut pos: usize = 0;
    assert!(matches!(
        parse_tokens(&tokens, &mut pos),
        Err(LispError::ParseError(ParseFault::UnexpectedClose))
    ));
}

#[test]
fn test_string_literal_parsing() {
    let tokens = tokenize("\" hello there \"".to_string());
    let mut pos: usize = 0;
    match parse_tokens(&tokens, &mut pos) {
        Ok(Exp::Str(s)) => assert_eq!(s, "hello there"),
        other => panic!("expected string, got {other:?}"),
    }
}

#[test]
fn test_tokenize_pads_parens_and_deletes_newlines() {
    assert_eq!(tokenize("(+ 1 2)".to_string()), vec!["(", "+", "1", "2", ")"]);
    // A line break is deleted outright, joining the text around it.
    assert_eq!(tokenize("ab\ncd".to_string()), vec!["abcd"]);
    assert_eq!(tokenize("  \t ".to_string()), Vec::<String>::new());
    // Vertical tab and form feed separate tokens like any other blank.
    assert_eq!(tokenize("a\u{b}b\u{c}c".to_string()), vec!["a", "b", "c"]);
}

#[test]
fn test_atoms_read_as_numbers_or_symbols() {
    expect_num("-5", -5);
    expect_num("(+ -5 +7)", 2);
    expect_num("9223372036854775807", i64::MAX);
    expect_num("-9223372036854775808", i64::MIN);
    // One digit past the 64-bit range reads as a symbol, not a number.
    match run("9223372036854775808") {
        Err(LispError::UnboundSymbol(name)) => assert_eq!(name, "9223372036854775808"),
        other => panic!("expected unbound symbol, got {other:?}"),
    }
}

#[test]
fn test_list_is_right_nested_cons_chain() {
    expect_num("(car (list 1 2 3))", 1);
    let rest = run("(cdr (list 1 2 3))").unwrap();
    assert_eq!(render(&rest), "(2 3 )");
    assert!(matches!(run("(cdr (list 1))"), Ok(Exp::List(None))));
}

#[test]
fn test_wrapping_arithmetic() {
    // Sums wrap around the 64-bit signed range rather than failing.
    expect_num("(+ 9223372036854775807 1)", i64::MIN);
}
