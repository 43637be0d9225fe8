use minilisp::builtins::init_toplevel;
use minilisp::env::Env;
use minilisp::err::LispError;
use minilisp::eval::eval;
use minilisp::exp::Exp;
use minilisp::parser::parse_tokens;
use minilisp::tokenizer::tokenize;
use std::sync::Arc;

const FUEL: u64 = 100_000;

fn run(program: &str) -> Result<Exp, LispError> {
    let tokens = tokenize(program.to_string());
    let mut pos: usize = 0;
    let tree = parse_tokens(&tokens, &mut pos).unwrap();
    let mut globals = init_toplevel();
    let mut output: Vec<String> = Vec::new();
    eval(&tree, &Arc::new(Env::new()), &mut globals, &mut output, FUEL)
}

#[test]
fn main_test_fib() {
    let program = "(progn

   (defun fibonacci (N)
       (if (or (= N 0) (= N 1))
           1
           (+ (fibonacci (- N 1)) (fibonacci (- N 2)))))

   (fibonacci 5)

   )";

    let res = run(program).unwrap();

    if let Exp::Num(res) = res {
        assert_eq!(res, 8);
    } else {
        panic!("Unexpected result.");
    }
}

#[test]
fn main_test_deflambda() {
    let program = "(progn\n   (def identity (lambda (t) t))\n   )";

    let res = run(program).unwrap();

    if let Exp::List(nil) = res {
        assert!(nil.is_none());
    } else {
        panic!("Unexpected result.");
    }
}
