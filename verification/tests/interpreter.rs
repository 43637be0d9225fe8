use minilisp::builtins::init_toplevel;
use minilisp::env::Env;
use minilisp::err::LispError;
use minilisp::eval::eval;
use minilisp::exp::Exp;
use minilisp::parser::parse_tokens;
use minilisp::render::render;
use minilisp::tokenizer::tokenize;
use std::sync::Arc;

const FUEL: u64 = 100_000;

fn run(program: &str) -> Result<Exp, LispError> {
    let tokens = tokenize(program.to_string());
    let mut pos: usize = 0;
    let tree = parse_tokens(&tokens, &mut pos).unwrap();
    let mut globals = init_toplevel();
    let mut output: Vec<String> = Vec::new();
    eval(&tree, &Arc::new(Env::new()), &mut globals, &mut output, FUEL)
}

#[test]
fn tests_test_fib() {
    let program = "(progn

   (defun fibonacci (N)
       (if (or (= N 0) (= N 1))
           1
           (+ (fibonacci (- N 1)) (fibonacci (- N 2)))))

   (fibonacci 5)

   )";

    let res = run(program).unwrap();

    if let Exp::Num(res) = res {
        assert_eq!(res, 8);
    } else {
        panic!("Unexpected result.");
    }
}

#[test]
fn tests_test_deflambda() {
    let program = "(progn\n   (def identity (lambda (t) t))\n   )";

    let res = run(program).unwrap();

    if let Exp::List(nil) = res {
        assert!(nil.is_none());
    } else {
        panic!("Unexpected result.");
    }
}

#[test]
fn test_let_no_bindings() {
    let program = "(progn\n         (let ()\n            2)\n         )";

    let res = run(program).unwrap();

    if let Exp::Num(two) = res {
        assert_eq!(two, 2);
    } else {
        panic!("Unexpected result.");
    }
}

#[test]
fn test_let_bindings() {
    let program = "(let ((a 10) (b 100))\n                                (+ a b))";

    let res = run(program).unwrap();

    if let Exp::Num(num) = res {
        assert_eq!(num, 110);
    } else {
        panic!("Unexpected result.");
    }
}

#[test]
fn test_nil() {
    let program = "(print nil)";

    let res = run(program).unwrap();
    println!("{res:?}");
}

#[test]
fn test_cons() {
    let program = "(cons 1 2)";

    let res = run(program).unwrap();
    assert_eq!(render(&res), "(1 PRINTING CONS IS UNIMPLEMENTED)");
}

#[test]
fn test_list() {
    let program = "(list 1 2 3 4 5 6)";

    let res = run(program).unwrap();
    assert_eq!(render(&res), "(1 2 3 4 5 6 )");
}

#[test]
fn test_lists_bindings() {
    let program = "(let ((a 10) (b 100))\n                                (+ a b))";

    let res = run(program).unwrap();

    if let Exp::Num(num) = res {
        assert_eq!(num, 110);
    } else {
        panic!("Unexpected result.");
    }
}
