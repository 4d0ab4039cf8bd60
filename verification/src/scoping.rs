use vstd::prelude::*;
use crate::environment::{
    lemma_inner_define_invisible, lemma_push_keeps_lookup, lookup, Frame,
};
use crate::error::Fault;
use crate::expression::Term;
use crate::machine::{ActionModel, ControlModel, EventModel, Machine};
use crate::semantics::{eval_named, run, start};

verus! {

/// A value that is neither a name nor a form, and so evaluates to itself.
pub open spec fn atomic(t: Term) -> bool {
    !(t is Symbol) && !(t is List)
}

/// The form `(begin (var name value) name)`.
pub open spec fn block_with_binding(name: Seq<char>, value: Term) -> Term {
    Term::List(
        seq![
            Term::Symbol("begin"@),
            Term::List(seq![Term::Symbol("var"@), Term::Symbol(name), value]),
            Term::Symbol(name),
        ],
    )
}

/// The texts that name a special form, revealed.
proof fn reveal_form_names()
    ensures
        "begin"@ =~= seq!['b', 'e', 'g', 'i', 'n'],
        "var"@ =~= seq!['v', 'a', 'r'],
        "set"@ =~= seq!['s', 'e', 't'],
        "if"@ =~= seq!['i', 'f'],
        "switch"@ =~= seq!['s', 'w', 'i', 't', 'c', 'h'],
        "while"@ =~= seq!['w', 'h', 'i', 'l', 'e'],
        "for"@ =~= seq!['f', 'o', 'r'],
        "def"@ =~= seq!['d', 'e', 'f'],
        "++"@ =~= seq!['+', '+'],
        "--"@ =~= seq!['-', '-'],
        "+="@ =~= seq!['+', '='],
        "-="@ =~= seq!['-', '='],
        "*="@ =~= seq!['*', '='],
        "/="@ =~= seq!['/', '='],
        "%="@ =~= seq!['%', '='],
        "+"@ =~= seq!['+'],
        "-"@ =~= seq!['-'],
        "*"@ =~= seq!['*'],
        "/"@ =~= seq!['/'],
        "%"@ =~= seq!['%'],
        "<"@ =~= seq!['<'],
        "<="@ =~= seq!['<', '='],
        ">"@ =~= seq!['>'],
        ">="@ =~= seq!['>', '='],
        "="@ =~= seq!['='],
        "!="@ =~= seq!['!', '='],
        "&"@ =~= seq!['&'],
        "|"@ =~= seq!['|'],
{
    reveal_strlit("begin");
    reveal_strlit("var");
    reveal_strlit("set");
    reveal_strlit("if");
    reveal_strlit("switch");
    reveal_strlit("while");
    reveal_strlit("for");
    reveal_strlit("def");
    reveal_strlit("++");
    reveal_strlit("--");
    reveal_strlit("+=");
    reveal_strlit("-=");
    reveal_strlit("*=");
    reveal_strlit("/=");
    reveal_strlit("%=");
    reveal_strlit("+");
    reveal_strlit("-");
    reveal_strlit("*");
    reveal_strlit("/");
    reveal_strlit("%");
    reveal_strlit("<");
    reveal_strlit("<=");
    reveal_strlit(">");
    reveal_strlit(">=");
    reveal_strlit("=");
    reveal_strlit("!=");
    reveal_strlit("&");
    reveal_strlit("|");
}

/// A block that binds a name and reads it gives the value in seven steps, and
/// the binding is gone with the block: from every scope that was there before,
/// every name means what it meant.
pub proof fn lemma_block_leaves_no_binding(
    m: Machine,
    env: usize,
    name: Seq<char>,
    value: Term,
    from: usize,
    other: Seq<char>,
)
    requires
        env < m.frames.len() < usize::MAX,
        from < m.frames.len(),
        atomic(value),
    ensures
        start(m, block_with_binding(name, value), env).1 == ActionModel::Continue,
        run(start(m, block_with_binding(name, value), env).0, EventModel::Continue, 7).1
            == ActionModel::Done(Ok(value)),
        lookup(
            run(start(m, block_with_binding(name, value), env).0, EventModel::Continue, 7).0.frames,
            from,
            other,
        ) == lookup(m.frames, from, other),
{
    reveal_form_names();
    reveal_with_fuel(run, 8);
    let frame = m.frames.len() as usize;
    let block = Frame { parent: Some(env), record: Map::empty() };
    let entered = m.frames.push(block);
    let bound = crate::environment::defined(entered, frame, name, value);
    let m0 = start(m, block_with_binding(name, value), env).0;
    assert(m0.frames == entered);
    let (m1, a1) = crate::semantics::step(m0, EventModel::Continue);
    assert(a1 is Continue);
    let (m2, a2) = crate::semantics::step(m1, EventModel::Continue);
    assert(m2.control == ControlModel::Return(value));
    let (m3, a3) = crate::semantics::step(m2, EventModel::Continue);
    assert(m3.frames == bound);
    assert(m3.control == ControlModel::Return(value));
    let (m4, a4) = crate::semantics::step(m3, EventModel::Continue);
    assert(m4.control == ControlModel::Eval(Term::Symbol(name), frame));
    let (m5, a5) = crate::semantics::step(m4, EventModel::Continue);
    assert(bound[frame as int].record.contains_key(name));
    assert(m5.control == ControlModel::Return(value));
    let (m6, a6) = crate::semantics::step(m5, EventModel::Continue);
    assert(m6.control == ControlModel::Return(value));
    assert(m6.stack.len() == 0);
    let (m7, a7) = crate::semantics::step(m6, EventModel::Continue);
    assert(a7 == ActionModel::Done(Ok(value)));
    assert(m7.frames == bound);
    lemma_inner_define_invisible(entered, frame, from, name, value, other);
    lemma_push_keeps_lookup(m.frames, block, from, other);
}

/// A function without parameters whose body is a name gives what the name means
/// in the scope that the function kept, from whichever scope it is called: the
/// scope of the call only says which function is meant.
pub proof fn lemma_closure_reads_its_own_scope(
    m: Machine,
    function: Seq<char>,
    caller: usize,
    kept: usize,
    name: Seq<char>,
)
    requires
        m.frames.len() < usize::MAX,
        kept < m.frames.len(),
        m.stack.len() == 0,
        lookup(m.frames, caller, function) == Ok::<Term, Fault>(
            Term::Function(Seq::empty(), Box::new(Term::Symbol(name)), kept),
        ),
    ensures
        run(
            eval_named(m, function, seq![Term::Symbol(function)], caller).0,
            EventModel::Continue,
            2,
        ).1 == ActionModel::Done(lookup(m.frames, kept, name)),
{
    reveal_with_fuel(run, 3);
    let activation = Frame { parent: Some(kept), record: Map::empty() };
    lemma_push_keeps_lookup(m.frames, activation, kept, name);
    let m0 = eval_named(m, function, seq![Term::Symbol(function)], caller).0;
    assert(m0.control == ControlModel::Eval(Term::Symbol(name), m.frames.len() as usize));
    assert(m0.frames == m.frames.push(activation));
    assert(lookup(m0.frames, m.frames.len() as usize, name) == lookup(m.frames, kept, name));
    let (m1, a1) = crate::semantics::step(m0, EventModel::Continue);
    match lookup(m.frames, kept, name) {
        Ok(v) => {
            assert(m1.control == ControlModel::Return(v));
            assert(m1.stack.len() == 0);
        },
        Err(f) => {
            assert(a1 == ActionModel::Done(Err(f)));
        },
    }
}

} // verus!
