use vstd::prelude::*;
use vstd::string::StringExecFns;
use crate::error::{Error, Fault};
use crate::expression::{agrees, is_symbol, list3, list4, terms, Expression, Term, ONE};

verus! {

/// The form `(set left (op left right))`.
pub open spec fn shorthand(op: Seq<char>, left: Term, right: Term) -> Term {
    Term::List(seq![Term::Symbol("set"@), left, Term::List(seq![Term::Symbol(op), left, right])])
}

/// `(def name params body)` as `(var name (lambda params body))`.
pub open spec fn def_to_var_lambda(list: Seq<Term>) -> Result<Term, Fault> {
    if list.len() != 4 {
        Err(Fault::Invalid("invalid defining function."@))
    } else {
        match list[1] {
            Term::Symbol(name) => Ok(
                Term::List(
                    seq![
                        Term::Symbol("var"@),
                        Term::Symbol(name),
                        Term::List(seq![Term::Symbol("lambda"@), list[2], list[3]]),
                    ],
                ),
            ),
            _ => Err(Fault::Invalid("invalid function name"@)),
        }
    }
}

/// The clauses `cases[0]` to `cases[k - 1]` wrapped round `inner`, the last of
/// them innermost: each `(cond block)` becomes `(if cond block <what follows>)`.
pub open spec fn fold_cases(cases: Seq<Term>, k: int, inner: Term) -> Result<Term, Fault>
    decreases k,
{
    if k <= 0 || k > cases.len() {
        Ok(inner)
    } else {
        match cases[k - 1] {
            Term::List(clause) => if clause.len() == 2 {
                fold_cases(
                    cases,
                    k - 1,
                    Term::List(seq![Term::Symbol("if"@), clause[0], clause[1], inner]),
                )
            } else {
                Err(
                    Fault::Invalid(
                        "each case of switch statement must followed by 1 block expression"@,
                    ),
                )
            },
            _ => Err(Fault::Invalid("invalid syntax for switch"@)),
        }
    }
}

/// The block of a closing clause `(else block)`.
pub open spec fn else_block(clause: Term) -> Result<Term, Fault> {
    match clause {
        Term::List(alt) => if alt.len() != 2 {
            Err(
                Fault::Invalid(
                    "else case of switch statement must followed by 1 block expression"@,
                ),
            )
        } else if alt[0] == Term::Symbol("else"@) {
            Ok(alt[1])
        } else {
            Err(Fault::Invalid("consider providing else case for switch statement"@))
        },
        _ => Err(Fault::Invalid("invalid syntax for switch statement"@)),
    }
}

/// `(switch (c1 b1) .. (else bn))` as nested `if` forms, `bn` innermost.
pub open spec fn switch_to_if(list: Seq<Term>) -> Result<Term, Fault> {
    if list.len() == 0 {
        Err(Fault::Invalid("invalid syntax for switch"@))
    } else if list.len() < 3 {
        Err(
            Fault::Invalid(
                "switch statement must have at least 1 condition followed by else statement"@,
            ),
        )
    } else {
        match else_block(list.last()) {
            Ok(block) => fold_cases(list.subrange(1, list.len() - 1), list.len() - 2, block),
            Err(e) => Err(e),
        }
    }
}

/// `(for init cond step body)` as `(begin init (while cond (begin body step)))`.
pub open spec fn for_to_while(list: Seq<Term>) -> Result<Term, Fault> {
    if list.len() != 5 {
        Err(Fault::Invalid("invalid syntax for for-loop"@))
    } else {
        Ok(
            Term::List(
                seq![
                    Term::Symbol("begin"@),
                    list[1],
                    Term::List(
                        seq![
                            Term::Symbol("while"@),
                            list[2],
                            Term::List(seq![Term::Symbol("begin"@), list[4], list[3]]),
                        ],
                    ),
                ],
            ),
        )
    }
}

/// `(tag x)` as `(set x (op x 1))`.
pub open spec fn step_by_one(list: Seq<Term>, op: Seq<char>, tag: Seq<char>) -> Result<
    Term,
    Fault,
> {
    if list.len() != 2 {
        Err(Fault::Invalid("invalid syntax for "@ + tag))
    } else {
        Ok(shorthand(op, list[1], Term::Number(ONE)))
    }
}

/// `(tag x y)` as `(set x (op x y))`.
pub open spec fn compound(list: Seq<Term>, op: Seq<char>, tag: Seq<char>) -> Result<Term, Fault> {
    if list.len() != 3 {
        Err(Fault::Invalid("invalid syntax for "@ + tag))
    } else {
        Ok(shorthand(op, list[1], list[2]))
    }
}

/// `(++ x)` and `(-- x)` as assignments; any other form is refused.
pub open spec fn incdec(list: Seq<Term>) -> Result<Term, Fault> {
    if list.len() > 0 && list[0] == Term::Symbol("++"@) {
        step_by_one(list, "+"@, "++"@)
    } else if list.len() > 0 && list[0] == Term::Symbol("--"@) {
        step_by_one(list, "-"@, "--"@)
    } else {
        Err(Fault::Invalid("invalid syntax for increment"@))
    }
}

/// `(+= x y)`, `(-= x y)`, `(*= x y)`, `(/= x y)` and `(%= x y)` as assignments;
/// any other form is refused.
pub open spec fn compound_assign(list: Seq<Term>) -> Result<Term, Fault> {
    if list.len() > 0 && list[0] == Term::Symbol("+="@) {
        compound(list, "+"@, "+="@)
    } else if list.len() > 0 && list[0] == Term::Symbol("-="@) {
        compound(list, "-"@, "-="@)
    } else if list.len() > 0 && list[0] == Term::Symbol("*="@) {
        compound(list, "*"@, "*="@)
    } else if list.len() > 0 && list[0] == Term::Symbol("/="@) {
        compound(list, "/"@, "/="@)
    } else if list.len() > 0 && list[0] == Term::Symbol("%="@) {
        compound(list, "%"@, "%="@)
    } else {
        Err(Fault::Invalid("invalid syntax for compound assignment"@))
    }
}

/// `(module name body)` as `(class name nil body)`.
pub open spec fn module_to_class(list: Seq<Term>) -> Result<Term, Fault> {
    if list.len() != 3 {
        Err(Fault::Invalid("invalid class/module definition"@))
    } else {
        Ok(Term::List(seq![Term::Symbol("class"@), list[1], Term::Symbol("nil"@), list[2]]))
    }
}

/// Builds `(set left (op left right))`.
fn transform_shorthand_assignment(op: Expression, left: Expression, right: Expression) -> (r:
    Expression)
    requires
        op@ is Symbol,
    ensures
        r@ == shorthand(op@->Symbol_0, left@, right@),
{
    let target = left.copy();
    list3(Expression::symbol("set"), target, list3(op, left, right))
}

/// Rewrites a function definition into the definition of a variable that holds
/// a lambda.
pub fn transform_def_to_var_lambda(list: &[Expression]) -> (r: Result<Expression, Error>)
    ensures
        agrees(r, def_to_var_lambda(terms(list@))),
{
    if list.len() != 4 {
        return Err(Error::invalid("invalid defining function."));
    }
    match &list[1] {
        Expression::Symbol(name) => Ok(
            list3(
                Expression::symbol("var"),
                Expression::Symbol(name.clone()),
                list3(Expression::symbol("lambda"), list[2].copy(), list[3].copy()),
            ),
        ),
        _ => Err(Error::invalid("invalid function name")),
    }
}

/// Rewrites a `switch` into nested `if` forms, folding the clauses from the
/// last to the first.
pub fn transform_switch_to_if(list: &[Expression]) -> (r: Result<Expression, Error>)
    ensures
        agrees(r, switch_to_if(terms(list@))),
{
    if list.len() == 0 {
        return Err(Error::invalid("invalid syntax for switch"));
    }
    if list.len() < 3 {
        return Err(
            Error::invalid(
                "switch statement must have at least 1 condition followed by else statement",
            ),
        );
    }
    let last = list.len() - 1;
    let mut result = match &list[last] {
        Expression::List(alt) => {
            proof {
                crate::expression::lemma_list_term(*alt);
            }
            if alt.len() != 2 {
                return Err(
                    Error::invalid(
                        "else case of switch statement must followed by 1 block expression",
                    ),
                );
            }
            if is_symbol(&alt[0], "else") {
                alt[1].copy()
            } else {
                return Err(Error::invalid("consider providing else case for switch statement"));
            }
        },
        _ => {
            return Err(Error::invalid("invalid syntax for switch statement"));
        },
    };
    let ghost cases = terms(list@).subrange(1, list.len() - 1);
    let mut k: usize = last - 1;
    while k > 0
        invariant
            k <= last - 1,
            last == list.len() - 1,
            cases == terms(list@).subrange(1, list.len() - 1),
            switch_to_if(terms(list@)) == fold_cases(cases, k as int, result@),
        decreases k,
    {
        match &list[k] {
            Expression::List(clause) => {
                proof {
                    crate::expression::lemma_list_term(*clause);
                }
                if clause.len() != 2 {
                    return Err(
                        Error::invalid(
                            "each case of switch statement must followed by 1 block expression",
                        ),
                    );
                }
                result =
                list4(Expression::symbol("if"), clause[0].copy(), clause[1].copy(), result);
            },
            _ => {
                return Err(Error::invalid("invalid syntax for switch"));
            },
        }
        k -= 1;
    }
    Ok(result)
}

/// Rewrites a `for` loop into a block that holds the initialisation and a
/// `while` loop.
pub fn transform_for_to_while(list: &[Expression]) -> (r: Result<Expression, Error>)
    ensures
        agrees(r, for_to_while(terms(list@))),
{
    if list.len() != 5 {
        return Err(Error::invalid("invalid syntax for for-loop"));
    }
    Ok(
        list3(
            Expression::symbol("begin"),
            list[1].copy(),
            list3(
                Expression::symbol("while"),
                list[2].copy(),
                list3(Expression::symbol("begin"), list[4].copy(), list[3].copy()),
            ),
        ),
    )
}

/// Rewrites `(++ x)` into `(set x (+ x 1))`.
pub fn transform_increament(list: &[Expression]) -> (r: Result<Expression, Error>)
    ensures
        agrees(r, step_by_one(terms(list@), "+"@, "++"@)),
{
    if list.len() != 2 {
        return Err(Error::Invalid(String::from_str("invalid syntax for ").concat("++")));
    }
    Ok(
        transform_shorthand_assignment(
            Expression::symbol("+"),
            list[1].copy(),
            Expression::Number(ONE),
        ),
    )
}

/// Rewrites `(-- x)` into `(set x (- x 1))`.
pub fn transform_decreament(list: &[Expression]) -> (r: Result<Expression, Error>)
    ensures
        agrees(r, step_by_one(terms(list@), "-"@, "--"@)),
{
    if list.len() != 2 {
        return Err(Error::Invalid(String::from_str("invalid syntax for ").concat("--")));
    }
    Ok(
        transform_shorthand_assignment(
            Expression::symbol("-"),
            list[1].copy(),
            Expression::Number(ONE),
        ),
    )
}

/// Rewrites `(tag x y)` into `(set x (op x y))`.
fn transform_with_operator(list: &[Expression], op: &str, tag: &str) -> (r: Result<
    Expression,
    Error,
>)
    ensures
        agrees(r, compound(terms(list@), op@, tag@)),
{
    if list.len() != 3 {
        return Err(Error::Invalid(String::from_str("invalid syntax for ").concat(tag)));
    }
    Ok(transform_shorthand_assignment(Expression::symbol(op), list[1].copy(), list[2].copy()))
}

/// Rewrites `(+= x y)` into `(set x (+ x y))`.
pub fn transform_increament_assign(list: &[Expression]) -> (r: Result<Expression, Error>)
    ensures
        agrees(r, compound(terms(list@), "+"@, "+="@)),
{
    transform_with_operator(list, "+", "+=")
}

/// Rewrites `(-= x y)` into `(set x (- x y))`.
pub fn transform_decreament_assign(list: &[Expression]) -> (r: Result<Expression, Error>)
    ensures
        agrees(r, compound(terms(list@), "-"@, "-="@)),
{
    transform_with_operator(list, "-", "-=")
}

/// Rewrites `(++ x)` or `(-- x)`, whichever the head says.
pub fn transform_incdec(list: &[Expression]) -> (r: Result<Expression, Error>)
    ensures
        agrees(r, incdec(terms(list@))),
{
    if list.len() > 0 && is_symbol(&list[0], "++") {
        transform_increament(list)
    } else if list.len() > 0 && is_symbol(&list[0], "--") {
        transform_decreament(list)
    } else {
        Err(Error::invalid("invalid syntax for increment"))
    }
}

/// Rewrites a compound assignment with the operator that the head names.
pub fn transform_compound_assign(list: &[Expression]) -> (r: Result<Expression, Error>)
    ensures
        agrees(r, compound_assign(terms(list@))),
{
    if list.len() > 0 && is_symbol(&list[0], "+=") {
        transform_with_operator(list, "+", "+=")
    } else if list.len() > 0 && is_symbol(&list[0], "-=") {
        transform_with_operator(list, "-", "-=")
    } else if list.len() > 0 && is_symbol(&list[0], "*=") {
        transform_with_operator(list, "*", "*=")
    } else if list.len() > 0 && is_symbol(&list[0], "/=") {
        transform_with_operator(list, "/", "/=")
    } else if list.len() > 0 && is_symbol(&list[0], "%=") {
        transform_with_operator(list, "%", "%=")
    } else {
        Err(Error::invalid("invalid syntax for compound assignment"))
    }
}

/// Rewrites a module declaration into the declaration of a class without a
/// parent.
pub fn transform_module_to_class(list: &[Expression]) -> (r: Result<Expression, Error>)
    ensures
        agrees(r, module_to_class(terms(list@))),
{
    if list.len() != 3 {
        return Err(Error::invalid("invalid class/module definition"));
    }
    Ok(
        list4(
            Expression::symbol("class"),
            list[1].copy(),
            Expression::symbol("nil"),
            list[2].copy(),
        ),
    )
}

} // verus!
