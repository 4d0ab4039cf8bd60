use std::collections::HashMap;

use ema::environment::Environment;
use ema::error::Error;
use ema::expression::Expression;
use ema::lexer::{scan, tokenize, Token};
use ema::machine::{Action, Evaluator, Event};
use ema::operator::Operator;
use ema::environment::Arena;
use ema::operator::{apply, decide, Combination};
use ema::parser::{parse, parse_tokens};
use ema::printer::Piece;
use ema::transform::{
    transform_compound_assign, transform_decreament, transform_decreament_assign,
    transform_def_to_var_lambda, transform_for_to_while, transform_incdec, transform_increament,
    transform_increament_assign, transform_module_to_class, transform_switch_to_if,
};
use ema::text::Order;

#[allow(dead_code)]
const MATH: &str = "
(begin
    (def abs (val)
        (if (< val 0)
            (- 0 val)
            val
        )
    )

    (def square (x) (* x x))

    (var MAX_VAL 1000)
)
";

#[allow(dead_code)]
fn bits(x: f64) -> u64 {
    x.to_bits()
}

#[allow(dead_code)]
fn numbers_of(raw: &[Token]) -> Vec<Option<u64>> {
    raw.iter()
        .map(|token| match token {
            Token::Symbol(word) => word.parse::<f64>().ok().map(f64::to_bits),
            _ => None,
        })
        .collect()
}

#[allow(dead_code)]
fn lex(text: &str) -> Result<Vec<Token>, Error> {
    let raw = scan(text)?;
    tokenize(text, &numbers_of(&raw))
}

#[allow(dead_code)]
fn read(text: &str) -> Result<Expression, Error> {
    let raw = scan(text)?;
    parse(text, &numbers_of(&raw))
}

#[allow(dead_code)]
fn load(path: &str) -> Result<Expression, Error> {
    if path == "./Math.eva" {
        read(MATH)
    } else {
        Err(Error::Reason(format!("{}: no such file", path)))
    }
}

#[allow(dead_code)]
fn calculate(op: Operator, a: u64, b: u64) -> u64 {
    let x = f64::from_bits(a);
    let y = f64::from_bits(b);
    let z = match op {
        Operator::Add => x + y,
        Operator::Sub => x - y,
        Operator::Mul => x * y,
        Operator::Div => x / y,
        Operator::Rem => x % y,
        _ => f64::NAN,
    };
    z.to_bits()
}

#[allow(dead_code)]
fn order(a: u64, b: u64) -> Order {
    let x = f64::from_bits(a);
    let y = f64::from_bits(b);
    if x < y {
        Order::Less
    } else if x == y {
        Order::Equal
    } else if x > y {
        Order::Greater
    } else {
        Order::Unordered
    }
}

#[allow(dead_code)]
fn run(eval: &mut Evaluator, exp: &Expression, env: usize) -> Result<Expression, Error> {
    let mut action = eval.eval_exp(exp, env);
    loop {
        let event = match action {
            Action::Done(result) => return result,
            Action::Continue => Event::Continue,
            Action::Calculate(op, a, b) => Event::Number(calculate(op, a, b)),
            Action::Compare(a, b) => Event::Order(order(a, b)),
            Action::Print(_) => Event::Continue,
            Action::Import(path) => Event::Module(load(&path)),
        };
        action = eval.resume(event);
    }
}

#[allow(dead_code)]
fn record(eval: &Evaluator, env: usize) -> HashMap<std::string::String, Expression> {
    let frame = &eval.env_arena.frames[env];
    frame
        .names
        .iter()
        .zip(frame.values.iter())
        .map(|(name, value)| (name.clone(), value.copy()))
        .collect()
}


fn sym(name: &str) -> Expression {
    Expression::Symbol(name.to_string())
}

fn num(x: f64) -> Expression {
    Expression::Number(bits(x))
}

fn list(items: Vec<Expression>) -> Expression {
    Expression::List(items)
}

fn eval_text(text: &str) -> Result<Expression, Error> {
    let mut eval = Evaluator::default();
    let env = eval.scope(Environment::new()).unwrap();
    run(&mut eval, &read(text).unwrap(), env)
}

fn render(value: &Expression) -> std::string::String {
    value
        .pieces()
        .into_iter()
        .map(|piece| match piece {
            Piece::Text(text) => text,
            Piece::Number(n) => f64::from_bits(n).to_string(),
        })
        .collect()
}

#[test]
fn defined_name_is_found_from_inner_scopes() {
    let mut arena = Arena::new();
    let outer = arena.insert(Environment::new()).unwrap();
    let middle = arena.extend(outer).unwrap();
    let inner = arena.extend(middle).unwrap();
    assert_eq!((outer, middle, inner), (0, 1, 2));

    assert_eq!(arena.define(middle, "n", num(7.0)), Ok(num(7.0)));
    assert_eq!(arena.lookup(middle, "n"), Ok(num(7.0)));
    assert_eq!(arena.lookup(inner, "n"), Ok(num(7.0)));
    assert_eq!(
        arena.lookup(outer, "n"),
        Err(Error::Reference("n is not defined".to_string()))
    );

    assert_eq!(arena.define(inner, "n", num(8.0)), Ok(num(8.0)));
    assert_eq!(arena.lookup(inner, "n"), Ok(num(8.0)));
    assert_eq!(arena.lookup(middle, "n"), Ok(num(7.0)));
}

#[test]
fn assign_changes_the_innermost_binding_only() {
    let mut arena = Arena::new();
    let outer = arena.insert(Environment::new()).unwrap();
    let inner = arena.extend(outer).unwrap();
    arena.define(outer, "n", num(1.0)).unwrap();

    assert_eq!(arena.assign(inner, "n", num(2.0)), Ok(num(2.0)));
    assert_eq!(arena.lookup(outer, "n"), Ok(num(2.0)));
    assert_eq!(arena.frames[inner].get("n"), None);

    assert_eq!(
        arena.assign(inner, "missing", num(3.0)),
        Err(Error::Reference("missing is not defined".to_string()))
    );
    assert_eq!(arena.frames[inner].get("missing"), None);
    assert_eq!(arena.frames[outer].get("missing"), None);
}

#[test]
fn arena_refuses_unknown_handles() {
    let mut arena = Arena::new();
    assert_eq!(arena.len(), 0);
    assert_eq!(
        arena.extend(0),
        Err(Error::Reason("unexpected error".to_string()))
    );
    assert_eq!(
        arena.define(3, "n", num(1.0)),
        Err(Error::Reason("unexpected error".to_string()))
    );
    assert_eq!(
        arena.lookup(3, "n"),
        Err(Error::Reference("n is not defined".to_string()))
    );
    assert_eq!(
        arena.insert(Environment::extend(5)),
        Err(Error::Reason("unexpected error".to_string()))
    );
    assert_eq!(arena.len(), 0);
}

#[test]
fn environment_of_its_own_looks_into_the_arena() {
    let mut arena = Arena::new();
    let outer = arena.insert(Environment::new()).unwrap();
    arena.define(outer, "n", num(1.0)).unwrap();

    let mut env = Environment::extend(outer);
    assert_eq!(env.lookup("n", &arena), Ok(num(1.0)));
    assert_eq!(env.lookup("nil", &arena), Ok(Expression::Void));
    assert_eq!(env.define("m", num(5.0)), Ok(num(5.0)));
    assert_eq!(env.lookup("m", &arena), Ok(num(5.0)));
    assert_eq!(
        env.lookup("z", &arena),
        Err(Error::Reference("z is not defined".to_string()))
    );

    assert_eq!(env.assign("n", num(2.0), &mut arena), Ok(num(2.0)));
    assert_eq!(arena.lookup(outer, "n"), Ok(num(2.0)));
    assert_eq!(env.get("n"), None);
    assert_eq!(env.assign("m", num(6.0), &mut arena), Ok(num(6.0)));
    assert_eq!(env.get("m"), Some(num(6.0)));
    assert_eq!(
        env.assign("z", num(0.0), &mut arena),
        Err(Error::Reference("z is not defined".to_string()))
    );
}

#[test]
fn environment_from_pairs_keeps_the_later_binding() {
    let env = Environment::from(vec![
        ("a".to_string(), num(1.0)),
        ("b".to_string(), num(2.0)),
        ("a".to_string(), num(3.0)),
    ]);
    assert_eq!(env.parent, None);
    assert_eq!(env.get("a"), Some(num(3.0)));
    assert_eq!(env.get("b"), Some(num(2.0)));
    assert_eq!(env.names.len(), 2);
    assert_eq!(Environment::default().names.len(), 0);
    assert_eq!(Environment::extend(4).parent, Some(4));
}

#[test]
fn closure_sees_the_scope_of_its_creation() {
    let mut eval = Evaluator::default();
    let root = eval.scope(Environment::new()).unwrap();
    let a = eval.env_arena.extend(root).unwrap();
    let b = eval.env_arena.extend(root).unwrap();
    eval.env_arena.define(a, "x", num(1.0)).unwrap();
    eval.env_arena.define(b, "x", num(2.0)).unwrap();

    let f = run(&mut eval, &read("(lambda () x)").unwrap().copy(), a);
    let f = match f {
        Ok(Expression::List(_)) => panic!("a lambda gives a function"),
        Ok(other) => other,
        Err(e) => panic!("{:?}", e),
    };
    eval.env_arena.define(b, "f", f).unwrap();
    assert_eq!(run(&mut eval, &list(vec![sym("f")]), b), Ok(num(1.0)));
    assert_eq!(run(&mut eval, &sym("x"), b), Ok(num(2.0)));
}

#[test]
fn lambda_keeps_the_handle_of_its_scope() {
    let mut eval = Evaluator::default();
    let root = eval.scope(Environment::new()).unwrap();
    let exp = list(vec![sym("lambda"), list(vec![sym("a"), sym("b")]), sym("a")]);
    assert_eq!(
        run(&mut eval, &exp, root),
        Ok(Expression::Function(
            vec!["a".to_string(), "b".to_string()],
            Box::new(sym("a")),
            root
        ))
    );
    let f = Expression::Function(vec!["a".to_string()], Box::new(sym("a")), root);
    assert_eq!(run(&mut eval, &f, root), Ok(f.copy()));
}

#[test]
fn block_bindings_do_not_leave_the_block() {
    let mut eval = Evaluator::default();
    let env = eval.scope(Environment::new()).unwrap();
    let block = list(vec![
        sym("begin"),
        list(vec![sym("var"), sym("x"), num(1.0)]),
        sym("x"),
    ]);
    assert_eq!(run(&mut eval, &block, env), Ok(num(1.0)));
    assert_eq!(
        run(&mut eval, &sym("x"), env),
        Err(Error::Reference("x is not defined".to_string()))
    );
}

#[test]
fn inner_shadow_does_not_leak() {
    assert_eq!(
        eval_text("(begin (var x 10) (begin (var x 20) x) x)"),
        Ok(num(10.0))
    );
}

#[test]
fn sum_of_two_numbers() {
    assert_eq!(eval_text("(+ 2 5)"), Ok(num(7.0)));
}

#[test]
fn arithmetic_gives_exact_values() {
    assert_eq!(eval_text("(/ 1 2)"), Ok(num(0.5)));
    assert_eq!(eval_text("(% 7 3)"), Ok(num(1.0)));
    assert_eq!(eval_text("(* 1.5 4)"), Ok(num(6.0)));
    assert_eq!(eval_text("(- 2 5)"), Ok(num(-3.0)));
    assert_eq!(eval_text("(+ 1 2 100)"), Ok(num(3.0)));
}

#[test]
fn truth_values_count_as_numbers() {
    assert_eq!(eval_text("(+ true 1)"), Ok(num(2.0)));
    assert_eq!(eval_text("(+ 1 false)"), Ok(num(1.0)));
    assert_eq!(eval_text("(* true true)"), Ok(num(1.0)));
    assert_eq!(eval_text("(- false true)"), Ok(num(-1.0)));
    assert_eq!(eval_text("(< false 1)"), Ok(Expression::Boolean(true)));
    assert_eq!(eval_text("(= true 1)"), Ok(Expression::Boolean(true)));
    assert_eq!(eval_text("(>= false true)"), Ok(Expression::Boolean(false)));
    assert_eq!(eval_text("(!= true false)"), Ok(Expression::Boolean(true)));
}

#[test]
fn comparisons_of_numbers() {
    assert_eq!(eval_text("(< 1 2)"), Ok(Expression::Boolean(true)));
    assert_eq!(eval_text("(<= 2 2)"), Ok(Expression::Boolean(true)));
    assert_eq!(eval_text("(> 1 2)"), Ok(Expression::Boolean(false)));
    assert_eq!(eval_text("(>= 1 2)"), Ok(Expression::Boolean(false)));
    assert_eq!(eval_text("(= 3 3)"), Ok(Expression::Boolean(true)));
    assert_eq!(eval_text("(!= 3 3)"), Ok(Expression::Boolean(false)));
    assert_eq!(eval_text("(= NaN NaN)"), Ok(Expression::Boolean(false)));
    assert_eq!(eval_text("(!= NaN NaN)"), Ok(Expression::Boolean(true)));
    assert_eq!(eval_text("(<= NaN 1)"), Ok(Expression::Boolean(false)));
}

#[test]
fn logical_operators_take_truth_values_only() {
    assert_eq!(eval_text("(& true false)"), Ok(Expression::Boolean(false)));
    assert_eq!(eval_text("(& true true)"), Ok(Expression::Boolean(true)));
    assert_eq!(eval_text("(| true false)"), Ok(Expression::Boolean(true)));
    assert_eq!(eval_text("(| false false)"), Ok(Expression::Boolean(false)));
    assert_eq!(
        eval_text("(& true 1)"),
        Err(Error::Invalid("invalid type for & operator".to_string()))
    );
    assert_eq!(
        eval_text("(| 0 false)"),
        Err(Error::Invalid("invalid type for | operator".to_string()))
    );
    assert_eq!(
        eval_text("(& \"a\" \"b\")"),
        Err(Error::Invalid("invalid type for & operator".to_string()))
    );
}

#[test]
fn texts_are_joined_and_compared() {
    assert_eq!(
        eval_text("(+ \"Hello\" \"World\")"),
        Ok(Expression::String("HelloWorld".to_string()))
    );
    assert_eq!(eval_text("(< \"abc\" \"abd\")"), Ok(Expression::Boolean(true)));
    assert_eq!(eval_text("(< \"ab\" \"abc\")"), Ok(Expression::Boolean(true)));
    assert_eq!(eval_text("(> \"b\" \"abc\")"), Ok(Expression::Boolean(true)));
    assert_eq!(eval_text("(<= \"abc\" \"abc\")"), Ok(Expression::Boolean(true)));
    assert_eq!(eval_text("(>= \"abc\" \"abd\")"), Ok(Expression::Boolean(false)));
    assert_eq!(eval_text("(= \"abc\" \"abc\")"), Ok(Expression::Boolean(true)));
    assert_eq!(eval_text("(!= \"abc\" \"abc\")"), Ok(Expression::Boolean(false)));
    assert_eq!(
        eval_text("(- \"abc\" \"abc\")"),
        Err(Error::Invalid("invalid type for - operator".to_string()))
    );
    assert_eq!(
        eval_text("(+ \"abc\" 1)"),
        Err(Error::Invalid("invalid type for + operator".to_string()))
    );
    assert_eq!(
        eval_text("(< nil 1)"),
        Err(Error::Invalid("invalid type for < operator".to_string()))
    );
}

#[test]
fn apply_names_the_work_to_be_done() {
    assert_eq!(
        apply(Operator::Add, &Expression::Boolean(true), &num(5.0)),
        Combination::Calculate(Operator::Add, bits(1.0), bits(5.0))
    );
    assert_eq!(
        apply(Operator::Less, &num(5.0), &Expression::Boolean(false)),
        Combination::Compare(Operator::Less, bits(5.0), bits(0.0))
    );
    assert_eq!(
        apply(Operator::Or, &Expression::Boolean(false), &Expression::Boolean(true)),
        Combination::Value(Expression::Boolean(true))
    );
    assert_eq!(
        apply(Operator::Mul, &Expression::Void, &num(5.0)),
        Combination::Fail(Error::Invalid("invalid type for * operator".to_string()))
    );
    assert_eq!(Operator::from_symbol(&"<=".to_string()), Some(Operator::LessEqual));
    assert_eq!(Operator::from_symbol(&"==".to_string()), None);
    assert_eq!(Operator::GreaterEqual.name(), ">=");
}

#[test]
fn decide_reads_the_order() {
    assert!(decide(Operator::Less, Order::Less));
    assert!(!decide(Operator::Less, Order::Equal));
    assert!(decide(Operator::LessEqual, Order::Equal));
    assert!(decide(Operator::Greater, Order::Greater));
    assert!(decide(Operator::GreaterEqual, Order::Equal));
    assert!(!decide(Operator::GreaterEqual, Order::Unordered));
    assert!(decide(Operator::Equal, Order::Equal));
    assert!(decide(Operator::NotEqual, Order::Unordered));
    assert!(!decide(Operator::NotEqual, Order::Equal));
    assert!(!decide(Operator::Add, Order::Equal));
}

#[test]
fn operator_needs_two_operands() {
    assert_eq!(
        eval_text("(+ 1)"),
        Err(Error::Invalid("invalid number of operands".to_string()))
    );
}

#[test]
fn while_loop_adds_up() {
    assert_eq!(
        eval_text(
            "(begin
                (var counter 0)
                (var result 0)
                (while (< counter 10)
                    (begin
                        (set result (+ result 20))
                        (set counter (+ counter 1))
                    )
                )
                result
            )"
        ),
        Ok(num(200.0))
    );
    assert_eq!(eval_text("(while false 1)"), Ok(Expression::Void));
    assert_eq!(
        eval_text("(while 1 1)"),
        Err(Error::Invalid("invalid while statement".to_string()))
    );
    assert_eq!(
        eval_text("(while true)"),
        Err(Error::Invalid("invalid while statement".to_string()))
    );
}

#[test]
fn for_loop_and_compound_assignments() {
    assert_eq!(
        eval_text(
            "(begin
                (var sum 0)
                (for (var i 0) (< i 5) (++ i) (+= sum i))
                sum
            )"
        ),
        Ok(num(10.0))
    );
    assert_eq!(eval_text("(begin (var x 6) (*= x 7))"), Ok(num(42.0)));
    assert_eq!(eval_text("(begin (var x 6) (/= x 4))"), Ok(num(1.5)));
    assert_eq!(eval_text("(begin (var x 7) (%= x 4))"), Ok(num(3.0)));
    assert_eq!(eval_text("(begin (var x 7) (-- x) x)"), Ok(num(6.0)));
}

#[test]
fn if_needs_a_truth_value() {
    assert_eq!(eval_text("(if true 1 2)"), Ok(num(1.0)));
    assert_eq!(eval_text("(if false 1 2)"), Ok(num(2.0)));
    assert_eq!(
        eval_text("(if 1 1 2)"),
        Err(Error::Invalid("invalid if statement".to_string()))
    );
    assert_eq!(
        eval_text("(if true 1)"),
        Err(Error::Invalid("invalid if statement".to_string()))
    );
}

#[test]
fn switch_picks_the_first_true_case() {
    assert_eq!(
        eval_text("(begin (var x 10) (switch ((= x 10) 100) ((> x 10) 200) (else 300)))"),
        Ok(num(100.0))
    );
    assert_eq!(
        eval_text("(begin (var x 11) (switch ((= x 10) 100) ((> x 10) 200) (else 300)))"),
        Ok(num(200.0))
    );
    assert_eq!(
        eval_text("(begin (var x 9) (switch ((= x 10) 100) ((> x 10) 200) (else 300)))"),
        Ok(num(300.0))
    );
}

#[test]
fn switch_becomes_nested_ifs() {
    let form = vec![
        sym("switch"),
        list(vec![sym("a"), num(1.0)]),
        list(vec![sym("b"), num(2.0)]),
        list(vec![sym("else"), num(3.0)]),
    ];
    assert_eq!(
        transform_switch_to_if(&form),
        Ok(list(vec![
            sym("if"),
            sym("a"),
            num(1.0),
            list(vec![sym("if"), sym("b"), num(2.0), num(3.0)]),
        ]))
    );
}

#[test]
fn switch_of_the_wrong_shape_is_refused() {
    assert_eq!(
        transform_switch_to_if(&[]),
        Err(Error::Invalid("invalid syntax for switch".to_string()))
    );
    assert_eq!(
        transform_switch_to_if(&[sym("switch"), list(vec![sym("else"), num(1.0)])]),
        Err(Error::Invalid(
            "switch statement must have at least 1 condition followed by else statement"
                .to_string()
        ))
    );
    let case = list(vec![sym("a"), num(1.0)]);
    assert_eq!(
        transform_switch_to_if(&[sym("switch"), case.copy(), num(1.0)]),
        Err(Error::Invalid("invalid syntax for switch statement".to_string()))
    );
    assert_eq!(
        transform_switch_to_if(&[sym("switch"), case.copy(), list(vec![sym("else")])]),
        Err(Error::Invalid(
            "else case of switch statement must followed by 1 block expression".to_string()
        ))
    );
    assert_eq!(
        transform_switch_to_if(&[sym("switch"), case.copy(), case.copy()]),
        Err(Error::Invalid(
            "consider providing else case for switch statement".to_string()
        ))
    );
    let otherwise = list(vec![sym("else"), num(3.0)]);
    assert_eq!(
        transform_switch_to_if(&[sym("switch"), num(1.0), otherwise.copy()]),
        Err(Error::Invalid("invalid syntax for switch".to_string()))
    );
    assert_eq!(
        transform_switch_to_if(&[sym("switch"), list(vec![sym("a")]), otherwise.copy()]),
        Err(Error::Invalid(
            "each case of switch statement must followed by 1 block expression".to_string()
        ))
    );
}

#[test]
fn sugar_is_rewritten_exactly() {
    assert_eq!(
        transform_def_to_var_lambda(&[sym("def"), sym("f"), list(vec![sym("x")]), sym("x")]),
        Ok(list(vec![
            sym("var"),
            sym("f"),
            list(vec![sym("lambda"), list(vec![sym("x")]), sym("x")]),
        ]))
    );
    assert_eq!(
        transform_def_to_var_lambda(&[sym("def"), sym("f")]),
        Err(Error::Invalid("invalid defining function.".to_string()))
    );
    assert_eq!(
        transform_def_to_var_lambda(&[sym("def"), num(1.0), sym("x"), sym("x")]),
        Err(Error::Invalid("invalid function name".to_string()))
    );
    assert_eq!(
        transform_for_to_while(&[sym("for"), sym("i"), sym("c"), sym("s"), sym("b")]),
        Ok(list(vec![
            sym("begin"),
            sym("i"),
            list(vec![
                sym("while"),
                sym("c"),
                list(vec![sym("begin"), sym("b"), sym("s")]),
            ]),
        ]))
    );
    assert_eq!(
        transform_for_to_while(&[sym("for")]),
        Err(Error::Invalid("invalid syntax for for-loop".to_string()))
    );
    let plus_one = list(vec![
        sym("set"),
        sym("x"),
        list(vec![sym("+"), sym("x"), num(1.0)]),
    ]);
    let minus_one = list(vec![
        sym("set"),
        sym("x"),
        list(vec![sym("-"), sym("x"), num(1.0)]),
    ]);
    assert_eq!(transform_increament(&[sym("++"), sym("x")]), Ok(plus_one.copy()));
    assert_eq!(transform_decreament(&[sym("--"), sym("x")]), Ok(minus_one.copy()));
    assert_eq!(transform_incdec(&[sym("++"), sym("x")]), Ok(plus_one));
    assert_eq!(transform_incdec(&[sym("--"), sym("x")]), Ok(minus_one));
    assert_eq!(
        transform_increament(&[sym("++")]),
        Err(Error::Invalid("invalid syntax for ++".to_string()))
    );
    assert_eq!(
        transform_decreament(&[sym("--"), sym("x"), sym("y")]),
        Err(Error::Invalid("invalid syntax for --".to_string()))
    );
    assert_eq!(
        transform_incdec(&[sym("+"), sym("x")]),
        Err(Error::Invalid("invalid syntax for increment".to_string()))
    );
    let times = list(vec![
        sym("set"),
        sym("x"),
        list(vec![sym("*"), sym("x"), sym("y")]),
    ]);
    assert_eq!(
        transform_compound_assign(&[sym("*="), sym("x"), sym("y")]),
        Ok(times)
    );
    assert_eq!(
        transform_increament_assign(&[sym("+="), sym("x"), sym("y")]),
        Ok(list(vec![
            sym("set"),
            sym("x"),
            list(vec![sym("+"), sym("x"), sym("y")]),
        ]))
    );
    assert_eq!(
        transform_decreament_assign(&[sym("-="), sym("x"), sym("y")]),
        Ok(list(vec![
            sym("set"),
            sym("x"),
            list(vec![sym("-"), sym("x"), sym("y")]),
        ]))
    );
    assert_eq!(
        transform_increament_assign(&[sym("+="), sym("x")]),
        Err(Error::Invalid("invalid syntax for +=".to_string()))
    );
    assert_eq!(
        transform_decreament_assign(&[sym("-=")]),
        Err(Error::Invalid("invalid syntax for -=".to_string()))
    );
    assert_eq!(
        transform_compound_assign(&[sym("%="), sym("x")]),
        Err(Error::Invalid("invalid syntax for %=".to_string()))
    );
    assert_eq!(
        transform_compound_assign(&[sym("="), sym("x"), sym("y")]),
        Err(Error::Invalid("invalid syntax for compound assignment".to_string()))
    );
    assert_eq!(
        transform_module_to_class(&[sym("module"), sym("M"), sym("b")]),
        Ok(list(vec![sym("class"), sym("M"), sym("nil"), sym("b")]))
    );
    assert_eq!(
        transform_module_to_class(&[sym("module"), sym("M")]),
        Err(Error::Invalid("invalid class/module definition".to_string()))
    );
}

#[test]
fn factorial_of_four() {
    assert_eq!(
        eval_text(
            "(begin
                (def factorial (x)
                    (if (= x 1) 1 (* x (factorial (- x 1))))
                )
                (factorial 4)
            )"
        ),
        Ok(num(24.0))
    );
}

#[test]
fn wrong_number_of_arguments_is_refused() {
    assert_eq!(
        eval_text("(begin (def f (a b) a) (f 1))"),
        Err(Error::Reason(
            "function f took 2 argurments you provide 1".to_string()
        ))
    );
    assert_eq!(
        eval_text("(begin (def f () 1) (f 1 2 3 4 5 6 7 8 9 10 11 12))"),
        Err(Error::Reason(
            "function f took 0 argurments you provide 12".to_string()
        ))
    );
    assert_eq!(
        eval_text("((lambda (a) a))"),
        Err(Error::Reason(
            "function lambda took 1 argurments you provide 0".to_string()
        ))
    );
}

#[test]
fn function_with_an_unknown_frame_is_refused() {
    let mut eval = Evaluator::default();
    let env = eval.scope(Environment::new()).unwrap();
    let f = Expression::Function(vec![], Box::new(num(1.0)), 99);
    eval.env_arena.define(env, "f", f).unwrap();
    assert_eq!(
        run(&mut eval, &list(vec![sym("f")]), env),
        Err(Error::Reason("unexpected error".to_string()))
    );
    assert_eq!(
        run(&mut eval, &sym("nil"), 42),
        Err(Error::Reference("nil is not defined".to_string()))
    );
}

#[test]
fn a_name_that_is_no_function_gives_its_value() {
    assert_eq!(eval_text("(begin (var x 5) (x))"), Ok(num(5.0)));
    assert_eq!(eval_text("(begin (var x 5) (x 1 2))"), Ok(num(5.0)));
    assert_eq!(
        eval_text("(y)"),
        Err(Error::Reference("y is not defined".to_string()))
    );
}

#[test]
fn a_list_of_forms_is_a_sequence() {
    assert_eq!(eval_text("(var x 1) (var y 2) (+ x y)"), Ok(num(3.0)));
    assert_eq!(eval_text(""), Ok(Expression::Void));
    assert_eq!(eval_text("()"), Ok(Expression::Void));
    assert_eq!(eval_text("(1 2 3)"), Ok(num(3.0)));
    assert_eq!(eval_text("(begin)"), Ok(Expression::Void));
}

#[test]
fn definitions_of_the_wrong_shape_are_refused() {
    assert_eq!(
        eval_text("(var x)"),
        Err(Error::Invalid("Invalid number of argurments".to_string()))
    );
    assert_eq!(
        eval_text("(var 1 2)"),
        Err(Error::Invalid("Invalid defining variable".to_string()))
    );
    assert_eq!(
        eval_text("(set x)"),
        Err(Error::Invalid("invalid set statement".to_string()))
    );
    assert_eq!(
        eval_text("(set 1 2)"),
        Err(Error::Invalid("Invalid assigning variable".to_string()))
    );
    assert_eq!(
        eval_text("(set (x y) 2)"),
        Err(Error::Invalid("Invalid assigning variable".to_string()))
    );
    assert_eq!(
        eval_text("(set (prop x) 2)"),
        Err(Error::Invalid("invalid access to class properties".to_string()))
    );
    assert_eq!(
        eval_text("(set (prop x 1) 2)"),
        Err(Error::Invalid("invalid property name".to_string()))
    );
    assert_eq!(
        eval_text("(set x 2)"),
        Err(Error::Reference("x is not defined".to_string()))
    );
    assert_eq!(
        eval_text("(lambda x)"),
        Err(Error::Invalid("invalid defining lambda.".to_string()))
    );
    assert_eq!(
        eval_text("(lambda (x 1) x)"),
        Err(Error::Invalid("invalid params for lambda".to_string()))
    );
    assert_eq!(
        eval_text("(lambda 1 x)"),
        Err(Error::Invalid("invalid params for lambda".to_string()))
    );
}

#[test]
fn classes_of_the_wrong_shape_are_refused() {
    assert_eq!(
        eval_text("(class A nil)"),
        Err(Error::Invalid("invalid class/module definition".to_string()))
    );
    assert_eq!(
        eval_text("(class 1 nil (begin))"),
        Err(Error::Invalid("invalid class/module name".to_string()))
    );
    assert_eq!(
        eval_text("(class A 1 (begin))"),
        Err(Error::Invalid("parent of class A has invalid type".to_string()))
    );
    assert_eq!(
        eval_text("(new)"),
        Err(Error::Invalid(
            "invalid creating new instance of class".to_string()
        ))
    );
    assert_eq!(
        eval_text("(new 1)"),
        Err(Error::Invalid(
            "invalid creating new instance of class".to_string()
        ))
    );
    assert_eq!(
        eval_text("(begin (class A nil (begin)) (new A))"),
        Err(Error::Reference("constructor is not defined".to_string()))
    );
    assert_eq!(
        eval_text("(begin (class A nil (begin (var constructor 1))) (new A))"),
        Err(Error::Reason(
            "cannot get valid constructor for class".to_string()
        ))
    );
    assert_eq!(
        eval_text("(begin (class A nil (begin (def constructor (self) 1))) (new A 1))"),
        Err(Error::Reason(
            "function constructor took 1 argurments you provide 2".to_string()
        ))
    );
    assert_eq!(
        eval_text("(prop 1)"),
        Err(Error::Invalid("invalid access to class properties".to_string()))
    );
    assert_eq!(
        eval_text("(prop 1 x)"),
        Err(Error::Reason("not a instance of a class".to_string()))
    );
    assert_eq!(
        eval_text("(begin (var o 1) (set (prop o x) 2))"),
        Err(Error::Reason("not a instance of a class".to_string()))
    );
    assert_eq!(
        eval_text("(begin (class A nil (begin)) (prop A x))"),
        Err(Error::Reference("x is not defined".to_string()))
    );
    assert_eq!(
        eval_text("(super)"),
        Err(Error::Invalid("invalid super call".to_string()))
    );
    assert_eq!(
        eval_text("(super 1)"),
        Err(Error::Invalid("invalid super call on non class".to_string()))
    );
    assert_eq!(
        eval_text("(begin (class A nil (begin)) (super A))"),
        Err(Error::Reason("cannot find parent".to_string()))
    );
}

#[test]
fn inherited_members_are_found_through_the_class() {
    assert_eq!(
        eval_text(
            "(begin
                (class A nil (begin
                    (def constructor (self) 0)
                    (def seven (self) 7)
                    (var shared 5)
                ))
                (class B A (begin
                    (def constructor (self) 0)
                ))
                (var b (new B))
                (+ ((prop b seven) b) (prop b shared))
            )"
        ),
        Ok(num(12.0))
    );
}

#[test]
fn objects_carry_their_frame_and_parent() {
    let mut eval = Evaluator::default();
    let env = eval.scope(Environment::new()).unwrap();
    let class = run(
        &mut eval,
        &read("(class A nil (begin (def constructor (self) 0)))").unwrap().copy(),
        env,
    );
    let class = match class {
        Ok(Expression::List(_)) => panic!("a class gives an object"),
        Ok(other) => other,
        Err(e) => panic!("{:?}", e),
    };
    match &class {
        Expression::Object(o) => {
            assert_eq!(o.parent, None);
            assert_eq!(eval.env_arena.frames[o.idx].parent.is_some(), true);
        }
        other => panic!("{:?}", other),
    }
}

#[test]
fn module_is_a_class_without_parent() {
    assert_eq!(
        eval_text(
            "(begin
                (module M (begin (var a 1) (def twice (x) (* x 2))))
                ((prop M twice) (prop M a))
            )"
        ),
        Ok(num(2.0))
    );
}

#[test]
fn import_binds_the_names_asked_for() {
    assert_eq!(
        eval_text("(begin (import (square abs) Math) (square (- (abs -10) (square 2))))"),
        Ok(num(36.0))
    );
    assert_eq!(
        eval_text("(begin (import abs Math) (abs -3))"),
        Ok(num(3.0))
    );
    assert_eq!(
        eval_text("(begin (import Math) (prop Math MAX_VAL))"),
        Ok(num(1000.0))
    );
    assert_eq!(eval_text("(import () Math)"), Ok(Expression::Void));
    assert_eq!(
        eval_text("(begin (import (abs) Math) (square 2))"),
        Err(Error::Reference("square is not defined".to_string()))
    );
}

#[test]
fn import_of_the_wrong_shape_is_refused() {
    assert_eq!(
        eval_text("(import)"),
        Err(Error::Reason("invalid import".to_string()))
    );
    assert_eq!(
        eval_text("(import a b Math)"),
        Err(Error::Reason("invalid import".to_string()))
    );
    assert_eq!(
        eval_text("(import 1)"),
        Err(Error::Reason("invalid import".to_string()))
    );
    assert_eq!(
        eval_text("(import Other)"),
        Err(Error::Reason("./Other.eva: no such file".to_string()))
    );
}

#[test]
fn import_asks_for_the_file_beside_the_running_one() {
    let mut eval = Evaluator::default();
    let env = eval.scope(Environment::new()).unwrap();
    let form = list(vec![sym("import"), sym("Math")]);
    assert_eq!(
        eval.eval_exp(&form, env),
        Action::Import("./Math.eva".to_string())
    );
    eval.set_cwf_path("/home/code".to_string());
    assert_eq!(
        eval.eval_exp(&form, env),
        Action::Import("/home/code/Math.eva".to_string())
    );
    assert_eq!(
        eval.resume(Event::Module(Ok(list(vec![num(1.0), num(2.0)])))),
        Action::Done(Err(Error::Reason(
            "a module only contains one body".to_string()
        )))
    );
    assert_eq!(eval.eval_exp(&form, env), Action::Import("/home/code/Math.eva".to_string()));
    assert_eq!(
        eval.resume(Event::Module(Ok(num(1.0)))),
        Action::Done(Err(Error::Reason(
            "a module only contains one body".to_string()
        )))
    );
    assert_eq!(eval.eval_exp(&form, env), Action::Import("/home/code/Math.eva".to_string()));
    assert_eq!(
        eval.resume(Event::Number(1)),
        Action::Done(Err(Error::Reason("unexpected answer".to_string())))
    );
}

#[test]
fn print_hands_out_the_values() {
    let mut eval = Evaluator::default();
    let env = eval.scope(Environment::new()).unwrap();
    let form = read("(print \"a\" (+ 1 2) nil)").unwrap();
    let mut action = eval.eval_exp(&form, env);
    let mut printed = Vec::new();
    let result = loop {
        let event = match action {
            Action::Done(result) => break result,
            Action::Calculate(op, a, b) => Event::Number(calculate(op, a, b)),
            Action::Print(values) => {
                printed.push(values);
                Event::Continue
            }
            _ => Event::Continue,
        };
        action = eval.resume(event);
    };
    assert_eq!(result, Ok(Expression::Void));
    assert_eq!(
        printed,
        vec![vec![
            Expression::String("a".to_string()),
            num(3.0),
            Expression::Void
        ]]
    );
}

#[test]
fn steps_can_be_counted() {
    let mut eval = Evaluator::default();
    let env = eval.scope(Environment::new()).unwrap();
    assert_eq!(
        eval.resume(Event::Continue),
        Action::Done(Err(Error::Reason("nothing to evaluate".to_string())))
    );
    assert_eq!(eval.eval_exp(&num(4.0), env), Action::Continue);
    assert_eq!(eval.run(Event::Continue, 0), Action::Continue);
    assert_eq!(eval.run(Event::Continue, 10), Action::Done(Ok(num(4.0))));

    let looping = read("(while true 1)").unwrap();
    assert_eq!(eval.eval_exp(&looping, env), Action::Continue);
    assert_eq!(eval.run(Event::Continue, 1000), Action::Continue);

    let sum = list(vec![sym("+"), num(1.0), num(2.0)]);
    assert_eq!(eval.eval_exp(&sum, env), Action::Continue);
    assert_eq!(
        eval.run(Event::Continue, 100),
        Action::Calculate(Operator::Add, bits(1.0), bits(2.0))
    );
    assert_eq!(eval.run(Event::Number(bits(3.0)), 100), Action::Done(Ok(num(3.0))));

    let less = list(vec![sym("<"), num(1.0), num(2.0)]);
    assert_eq!(eval.eval_exp(&less, env), Action::Continue);
    assert_eq!(eval.run(Event::Continue, 100), Action::Compare(bits(1.0), bits(2.0)));
    assert_eq!(
        eval.run(Event::Continue, 100),
        Action::Done(Err(Error::Reason("unexpected answer".to_string())))
    );
}

#[test]
fn unbalanced_input_is_a_parse_error() {
    assert_eq!(
        read("("),
        Err(Error::Parse("could not find closing ')'".to_string()))
    );
    assert_eq!(read(")"), Err(Error::Parse("unexpected ')'".to_string())));
    assert_eq!(
        parse_tokens(&vec![Token::LParen, Token::LParen, Token::RParen]),
        Err(Error::Parse("could not find closing ')'".to_string()))
    );
    assert_eq!(
        parse_tokens(&vec![Token::Number(bits(1.0)), Token::String("s".to_string())]),
        Ok(list(vec![num(1.0), Expression::String("s".to_string())]))
    );
}

#[test]
fn scanning_cuts_texts_comments_and_words() {
    assert_eq!(
        lex("(print \"a b\" x;rest\n 1.5)"),
        Ok(vec![
            Token::LParen,
            Token::Symbol("print".to_string()),
            Token::String("a b".to_string()),
            Token::Symbol("x".to_string()),
            Token::Number(bits(1.5)),
            Token::RParen,
        ])
    );
    assert_eq!(
        scan("12 ab\"c"),
        Ok(vec![
            Token::Symbol("12".to_string()),
            Token::Symbol("ab\"c".to_string()),
        ])
    );
    assert_eq!(
        tokenize("12 x", &vec![None, Some(7)]),
        Ok(vec![Token::Symbol("12".to_string()), Token::Number(7)])
    );
    assert_eq!(
        tokenize("12 x", &vec![]),
        Ok(vec![
            Token::Symbol("12".to_string()),
            Token::Symbol("x".to_string())
        ])
    );
    assert_eq!(lex("\"\""), Ok(vec![Token::String("".to_string())]));
    assert_eq!(lex("; only a comment"), Ok(vec![]));
    assert_eq!(lex(" \t\n\u{3000}"), Ok(vec![]));
    assert_eq!(
        lex("(\"open"),
        Err(Error::Token("suspended string definition".to_string()))
    );
    assert_eq!(
        read("\"open"),
        Err(Error::Token("suspended string definition".to_string()))
    );
}

#[test]
fn errors_are_reported_with_their_kind() {
    assert_eq!(
        Error::Invalid("x".to_string()).message(),
        "invalid statement: x"
    );
    assert_eq!(Error::Parse("x".to_string()).message(), "parsing error: x");
    assert_eq!(Error::Reason("x".to_string()).message(), "x");
    assert_eq!(
        Error::Reference("x".to_string()).message(),
        "reference error: x"
    );
    assert_eq!(Error::Token("x".to_string()).message(), "missing token: x");
    assert_eq!(Error::Token("x".to_string()).copy(), Error::Token("x".to_string()));
}

#[test]
fn values_are_printed_in_pieces() {
    assert_eq!(render(&Expression::Void), "nil");
    assert_eq!(render(&Expression::Boolean(true)), "true");
    assert_eq!(render(&Expression::Boolean(false)), "false");
    assert_eq!(render(&num(1.5)), "1.5");
    assert_eq!(render(&num(10.0)), "10");
    assert_eq!(render(&Expression::String("a b".to_string())), "a b");
    assert_eq!(render(&sym("x")), "x");
    assert_eq!(render(&list(vec![])), "()");
    assert_eq!(
        render(&read("(var x (+ 1 \"s\"))").unwrap()),
        "((var x (+ 1 s)))"
    );
    assert_eq!(
        render(&Expression::Function(
            vec!["a".to_string(), "b".to_string()],
            Box::new(Expression::Void),
            0
        )),
        "fn(a, b)"
    );
    assert_eq!(
        render(&Expression::Function(vec![], Box::new(Expression::Void), 0)),
        "fn()"
    );
    assert_eq!(
        render(&Expression::Object(ema::expression::Object {
            idx: 0,
            parent: None
        })),
        "class "
    );
    assert_eq!(
        list(vec![num(1.0), sym("x")]).pieces(),
        vec![
            Piece::Text("(".to_string()),
            Piece::Number(bits(1.0)),
            Piece::Text(" ".to_string()),
            Piece::Text("x".to_string()),
            Piece::Text(")".to_string()),
        ]
    );
}

#[test]
fn copies_are_equal_to_what_they_copy() {
    let exp = read("(def f (a b) (+ a \"text\"))").unwrap();
    assert_eq!(exp.copy(), exp);
    let object = ema::expression::Object {
        idx: 3,
        parent: Some(Box::new(ema::expression::Object {
            idx: 1,
            parent: None,
        })),
    };
    assert_eq!(object.copy(), object);
    let f = Expression::Function(vec!["a".to_string()], Box::new(sym("a")), 2);
    assert_eq!(f.copy(), f);
}

#[test]
fn white_space_is_what_the_standard_library_says() {
    for c in '\0'..=char::MAX {
        assert_eq!(ema::text::is_white(c), c.is_whitespace(), "{:?}", c);
    }
}

#[test]
fn texts_are_ordered_by_code_point() {
    let samples = [
        "", "a", "ab", "abc", "abd", "b", "B", "é", "z", "\u{10000}", "\u{ffff}", "aé", "az",
    ];
    for a in samples {
        for b in samples {
            let expected = if a < b {
                Order::Less
            } else if a == b {
                Order::Equal
            } else {
                Order::Greater
            };
            assert_eq!(ema::text::order_texts(a, b), expected, "{:?} {:?}", a, b);
        }
    }
}

#[test]
fn numbers_are_written_in_decimal() {
    for n in [0usize, 1, 9, 10, 11, 99, 100, 101, 12345, 1000000, usize::MAX] {
        assert_eq!(ema::text::decimal(n), n.to_string());
    }
}

#[test]
fn characters_and_slices_of_a_text() {
    let chars = ema::text::chars_of("aé\u{10000}b");
    assert_eq!(chars, vec!['a', 'é', '\u{10000}', 'b']);
    assert_eq!(ema::text::text_between(&chars, 1, 3), "é\u{10000}");
    assert_eq!(ema::text::text_between(&chars, 2, 2), "");
    assert!(ema::text::same(&"var".to_string(), "var"));
    assert!(!ema::text::same(&"var".to_string(), "va"));
}

#[test]
fn instances_keep_their_own_fields() {
    let program = "(begin
        (class Point nil (begin
            (def constructor (self x y) (set (prop self last) x))
            (def sum (self) (+ (prop self x) (prop self y)))
        ))
        (var p (new Point 1 2))
        (var q (new Point 30 40))
        (set (prop p y) 5)
        RESULT
    )";
    assert_eq!(
        eval_text(&program.replace("RESULT", "((prop p sum) p)")),
        Ok(num(6.0))
    );
    assert_eq!(
        eval_text(&program.replace("RESULT", "((prop q sum) q)")),
        Ok(num(70.0))
    );
    assert_eq!(
        eval_text(&program.replace("RESULT", "(prop Point last)")),
        Ok(num(30.0))
    );
    assert_eq!(
        eval_text(&program.replace("RESULT", "(prop p last)")),
        Ok(num(30.0))
    );
    assert_eq!(
        eval_text(&program.replace("RESULT", "(prop Point y)")),
        Err(Error::Reference("y is not defined".to_string()))
    );
}

#[test]
fn inherited_constructor_gets_the_class_that_is_instantiated() {
    assert_eq!(
        eval_text(
            "(begin
                (class A nil (begin
                    (def constructor (self v) (set (prop self kept) v))
                ))
                (class B A (begin (var own 1)))
                (var b (new B 7))
                (prop B kept)
            )"
        ),
        Ok(num(7.0))
    );
    assert_eq!(
        eval_text(
            "(begin
                (class A nil (begin
                    (def constructor (self v) (set (prop self kept) v))
                ))
                (class B A (begin (var own 1)))
                (var b (new B 7))
                (prop A kept)
            )"
        ),
        Err(Error::Reference("kept is not defined".to_string()))
    );
}

#[test]
fn class_body_of_one_form_runs_in_the_class_frame() {
    assert_eq!(
        eval_text("(begin (class A nil (var a 3)) (prop A a))"),
        Ok(num(3.0))
    );
    assert_eq!(
        eval_text("(begin (class A nil 5) (class B A (var b 4)) (+ (prop B b) 1))"),
        Ok(num(5.0))
    );
}
