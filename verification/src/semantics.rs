use vstd::prelude::*;
use crate::environment::{assigned, defined, lookup, resolve, undefined, Frame};
use crate::error::Fault;
use crate::expression::{ObjectModel, Term};
use crate::machine::{
    asking, failed, given, going, pushed, with_frames, ActionModel, ControlModel, EventModel,
    Machine, PendingModel,
};
use crate::operator::{combine, holds, Operator, Verdict};
use crate::text::decimal_text;
use crate::transform::{
    compound_assign, def_to_var_lambda, for_to_while, incdec, module_to_class, switch_to_if,
};

verus! {

/// The fault for a handle that is no frame of the arena.
pub open spec fn unexpected() -> Fault {
    Fault::Reason("unexpected error"@)
}

/// The fault for a value that is used as an object and is none.
pub open spec fn not_an_object() -> Fault {
    Fault::Reason("not a instance of a class"@)
}

/// The fault for a call with the wrong number of arguments.
pub open spec fn arity_fault(label: Seq<char>, expected: nat, provided: nat) -> Fault {
    Fault::Reason(
        "function "@ + label + " took "@ + decimal_text(expected) + " argurments you provide "@
            + decimal_text(provided),
    )
}

/// How a call names its function: by the symbol at the head, and as `lambda`
/// where the head is no symbol.
pub open spec fn label(list: Seq<Term>) -> Seq<char> {
    if list.len() > 0 {
        match list[0] {
            Term::Symbol(s) => s,
            _ => "lambda"@,
        }
    } else {
        "lambda"@
    }
}

/// The number of arguments of a call: the items behind the head.
pub open spec fn arguments(list: Seq<Term>) -> nat {
    if list.len() > 0 {
        (list.len() - 1) as nat
    } else {
        0
    }
}

/// The frames with a new, empty scope inside `parent`; its handle is the
/// number of frames before.
pub open spec fn extended(frames: Seq<Frame>, parent: usize) -> Seq<Frame> {
    frames.push(Frame { parent: Some(parent), record: Map::empty() })
}

/// The machine in which `p` waits too.
pub open spec fn waiting(m: Machine, p: PendingModel) -> Machine {
    Machine { stack: m.stack.push(p), ..m }
}

/// Goes on with the rewritten form, or stops with the rewriter's fault.
pub open spec fn rewritten(m: Machine, form: Result<Term, Fault>, env: usize) -> (
    Machine,
    ActionModel,
) {
    match form {
        Ok(t) => going(m, t, env),
        Err(f) => failed(m, f),
    }
}

/// Evaluates `items[start]` and what follows it, one after the other in `env`;
/// the value is that of the last item, and `last` where there is none.
pub open spec fn sequence(m: Machine, items: Seq<Term>, start: usize, env: usize, last: Term) -> (
    Machine,
    ActionModel,
) {
    if start < items.len() {
        pushed(
            m,
            PendingModel::Sequence { items, next: (start + 1) as usize, env },
            items[start as int],
            env,
        )
    } else {
        given(m, last)
    }
}

/// `begin`: the items after the head, in a new scope inside `env`.
pub open spec fn eval_begin(m: Machine, list: Seq<Term>, env: usize) -> (Machine, ActionModel) {
    if env < m.frames.len() {
        sequence(
            with_frames(m, extended(m.frames, env)),
            list,
            1,
            m.frames.len() as usize,
            Term::Void,
        )
    } else {
        failed(m, unexpected())
    }
}

/// `var`: the form needs a name and an expression, whose value is bound next.
pub open spec fn eval_define_variable(m: Machine, list: Seq<Term>, env: usize) -> (
    Machine,
    ActionModel,
) {
    if list.len() != 3 {
        failed(m, Fault::Invalid("Invalid number of argurments"@))
    } else {
        match list[1] {
            Term::Symbol(name) => pushed(m, PendingModel::Define { name, env }, list[2], env),
            _ => failed(m, Fault::Invalid("Invalid defining variable"@)),
        }
    }
}

/// `set`: the target is a name or a property `(prop object name)`; the value is
/// evaluated first.
pub open spec fn eval_assign_variable(m: Machine, list: Seq<Term>, env: usize) -> (
    Machine,
    ActionModel,
) {
    if list.len() != 3 {
        failed(m, Fault::Invalid("invalid set statement"@))
    } else {
        match list[1] {
            Term::Symbol(name) => pushed(m, PendingModel::Assign { name, env }, list[2], env),
            Term::List(target) => if target.len() > 0 && target[0] == Term::Symbol("prop"@) {
                if target.len() != 3 {
                    failed(m, Fault::Invalid("invalid access to class properties"@))
                } else {
                    match target[2] {
                        Term::Symbol(name) => pushed(
                            m,
                            PendingModel::Field { instance: target[1], name, env },
                            list[2],
                            env,
                        ),
                        _ => failed(m, Fault::Invalid("invalid property name"@)),
                    }
                }
            } else {
                failed(m, Fault::Invalid("Invalid assigning variable"@))
            },
            _ => failed(m, Fault::Invalid("Invalid assigning variable"@)),
        }
    }
}

/// `if`: the condition is evaluated first.
pub open spec fn eval_if(m: Machine, list: Seq<Term>, env: usize) -> (Machine, ActionModel) {
    if list.len() != 4 {
        failed(m, Fault::Invalid("invalid if statement"@))
    } else {
        pushed(
            m,
            PendingModel::Branch { consequent: list[2], alternate: list[3], env },
            list[1],
            env,
        )
    }
}

/// `while`: the condition is evaluated first; a loop that never runs gives
/// `Void`.
pub open spec fn eval_while(m: Machine, list: Seq<Term>, env: usize) -> (Machine, ActionModel) {
    if list.len() != 3 {
        failed(m, Fault::Invalid("invalid while statement"@))
    } else {
        pushed(
            m,
            PendingModel::Test { condition: list[1], body: list[2], env, last: Term::Void },
            list[1],
            env,
        )
    }
}

/// The names that a parameter list holds: one name, or a list of names.
pub open spec fn parameters(t: Term) -> Option<Seq<Seq<char>>> {
    match t {
        Term::Symbol(name) => Some(seq![name]),
        Term::List(items) => if forall|i: int| 0 <= i < items.len() ==> items[i] is Symbol {
            Some(Seq::new(items.len(), |i: int| items[i]->Symbol_0))
        } else {
            None
        },
        _ => None,
    }
}

/// `lambda`: a function that keeps the scope in which it is made.
pub open spec fn eval_define_lambda(m: Machine, list: Seq<Term>, env: usize) -> (
    Machine,
    ActionModel,
) {
    if list.len() != 3 {
        failed(m, Fault::Invalid("invalid defining lambda."@))
    } else {
        match parameters(list[1]) {
            Some(params) => given(m, Term::Function(params, Box::new(list[2]), env)),
            None => failed(m, Fault::Invalid("invalid params for lambda"@)),
        }
    }
}

/// `class`: the parent is evaluated first.
pub open spec fn eval_define_class(m: Machine, list: Seq<Term>, env: usize) -> (
    Machine,
    ActionModel,
) {
    if list.len() != 4 {
        failed(m, Fault::Invalid("invalid class/module definition"@))
    } else {
        match list[1] {
            Term::Symbol(name) => pushed(
                m,
                PendingModel::Parent { name, body: list[3], env },
                list[2],
                env,
            ),
            _ => failed(m, Fault::Invalid("invalid class/module name"@)),
        }
    }
}

/// `new`: the class is evaluated first.
pub open spec fn eval_new(m: Machine, list: Seq<Term>, env: usize) -> (Machine, ActionModel) {
    if list.len() < 2 {
        failed(m, Fault::Invalid("invalid creating new instance of class"@))
    } else {
        pushed(m, PendingModel::Instantiate { list, env }, list[1], env)
    }
}

/// `prop`: the object is evaluated first.
pub open spec fn eval_prop(m: Machine, list: Seq<Term>, env: usize) -> (Machine, ActionModel) {
    if list.len() != 3 {
        failed(m, Fault::Invalid("invalid access to class properties"@))
    } else {
        match list[2] {
            Term::Symbol(name) => pushed(m, PendingModel::Member { name }, list[1], env),
            _ => failed(m, Fault::Invalid("invalid property name"@)),
        }
    }
}

/// `super`: the object is evaluated first.
pub open spec fn eval_super(m: Machine, list: Seq<Term>, env: usize) -> (Machine, ActionModel) {
    if list.len() != 2 {
        failed(m, Fault::Invalid("invalid super call"@))
    } else {
        pushed(m, PendingModel::Super, list[1], env)
    }
}

/// Evaluates `items[next]` for printing, or has `shown` printed where no item
/// is left.
pub open spec fn show(m: Machine, items: Seq<Term>, next: usize, env: usize, shown: Seq<Term>) -> (
    Machine,
    ActionModel,
) {
    if next < items.len() {
        pushed(
            m,
            PendingModel::Show { items, next: (next + 1) as usize, env, shown },
            items[next as int],
            env,
        )
    } else {
        asking(m, ControlModel::Printed, ActionModel::Print(shown))
    }
}

/// `print`: the items after the head are evaluated from left to right.
pub open spec fn eval_print(m: Machine, list: Seq<Term>, env: usize) -> (Machine, ActionModel) {
    show(m, list, 1, env, Seq::empty())
}

/// Where the file of a module is looked for.
pub open spec fn file_of_module(directory: Seq<char>, name: Seq<char>) -> Seq<char> {
    if directory.len() == 0 {
        "./"@ + name + ".eva"@
    } else {
        directory + "/"@ + name + ".eva"@
    }
}

/// `import`: the last item names the module, whose file is asked for.
pub open spec fn eval_import(m: Machine, list: Seq<Term>, env: usize) -> (Machine, ActionModel) {
    if list.len() == 2 || list.len() == 3 {
        match list.last() {
            Term::Symbol(name) => asking(
                m,
                ControlModel::Module(list, env),
                ActionModel::Import(file_of_module(m.path, name)),
            ),
            _ => failed(m, Fault::Reason("invalid import"@)),
        }
    } else {
        failed(m, Fault::Reason("invalid import"@))
    }
}

/// An operator: the left operand is evaluated first. Operands behind the second
/// are not looked at.
pub open spec fn eval_binary_op(m: Machine, op: Operator, list: Seq<Term>, env: usize) -> (
    Machine,
    ActionModel,
) {
    if list.len() < 3 {
        failed(m, Fault::Invalid("invalid number of operands"@))
    } else {
        pushed(m, PendingModel::Left { op, right: list[2], env }, list[1], env)
    }
}

/// Evaluates `list[next]` in the caller's scope to bind it in the activation
/// frame, or goes on with the body where no argument is left.
pub open spec fn bind_next(
    m: Machine,
    params: Seq<Seq<char>>,
    list: Seq<Term>,
    next: usize,
    caller: usize,
    activation: usize,
    body: Term,
) -> (Machine, ActionModel) {
    if next < list.len() {
        pushed(
            m,
            PendingModel::Argument { params, list, next, caller, activation, body },
            list[next as int],
            caller,
        )
    } else {
        going(m, body, activation)
    }
}

/// A call of a function with the items after the head of `list` as arguments.
///
/// The number of arguments must be the number of parameters. The activation
/// frame is a new scope inside the scope that the function kept when it was
/// made, whatever the caller's scope is; the arguments are evaluated in the
/// caller's scope.
pub open spec fn call(
    m: Machine,
    params: Seq<Seq<char>>,
    body: Term,
    captured: usize,
    list: Seq<Term>,
    caller: usize,
) -> (Machine, ActionModel) {
    if params.len() + 1 != list.len() {
        failed(m, arity_fault(label(list), params.len(), arguments(list)))
    } else if captured >= m.frames.len() {
        failed(m, unexpected())
    } else {
        bind_next(
            with_frames(m, extended(m.frames, captured)),
            params,
            list,
            1,
            caller,
            m.frames.len() as usize,
            body,
        )
    }
}

/// A form whose head is a symbol that names no special form: a call where the
/// symbol is bound to a function, and the symbol's value otherwise.
pub open spec fn eval_named(m: Machine, name: Seq<char>, list: Seq<Term>, env: usize) -> (
    Machine,
    ActionModel,
) {
    match lookup(m.frames, env, name) {
        Ok(Term::Function(params, body, captured)) => call(m, params, *body, captured, list, env),
        Ok(v) => given(m, v),
        Err(f) => failed(m, f),
    }
}

/// A form whose head is the symbol `name`.
pub open spec fn eval_form(m: Machine, name: Seq<char>, list: Seq<Term>, env: usize) -> (
    Machine,
    ActionModel,
) {
    if Operator::named(name) is Some {
        eval_binary_op(m, Operator::named(name)->Some_0, list, env)
    } else if name == "++"@ || name == "--"@ {
        rewritten(m, incdec(list), env)
    } else if name == "+="@ || name == "-="@ || name == "*="@ || name == "/="@ || name == "%="@ {
        rewritten(m, compound_assign(list), env)
    } else if name == "var"@ {
        eval_define_variable(m, list, env)
    } else if name == "set"@ {
        eval_assign_variable(m, list, env)
    } else if name == "if"@ {
        eval_if(m, list, env)
    } else if name == "switch"@ {
        rewritten(m, switch_to_if(list), env)
    } else if name == "while"@ {
        eval_while(m, list, env)
    } else if name == "for"@ {
        rewritten(m, for_to_while(list), env)
    } else if name == "def"@ {
        rewritten(m, def_to_var_lambda(list), env)
    } else if name == "begin"@ {
        eval_begin(m, list, env)
    } else if name == "lambda"@ {
        eval_define_lambda(m, list, env)
    } else if name == "class"@ {
        eval_define_class(m, list, env)
    } else if name == "new"@ {
        eval_new(m, list, env)
    } else if name == "prop"@ {
        eval_prop(m, list, env)
    } else if name == "super"@ {
        eval_super(m, list, env)
    } else if name == "module"@ {
        rewritten(m, module_to_class(list), env)
    } else if name == "import"@ {
        eval_import(m, list, env)
    } else if name == "print"@ {
        eval_print(m, list, env)
    } else {
        eval_named(m, name, list, env)
    }
}

/// A list: nothing gives `Void`; a symbol at the head picks the form; any other
/// head is evaluated first, in a new scope inside `env`.
pub open spec fn eval_list(m: Machine, list: Seq<Term>, env: usize) -> (Machine, ActionModel) {
    if list.len() == 0 {
        given(m, Term::Void)
    } else {
        match list[0] {
            Term::Symbol(name) => eval_form(m, name, list, env),
            head => if env < m.frames.len() {
                pushed(
                    with_frames(m, extended(m.frames, env)),
                    PendingModel::Head { list, env, frame: m.frames.len() as usize },
                    head,
                    m.frames.len() as usize,
                )
            } else {
                failed(m, unexpected())
            },
        }
    }
}

/// One expression: a symbol is looked up, a list is a form, and everything else
/// is its own value.
pub open spec fn eval_exp(m: Machine, e: Term, env: usize) -> (Machine, ActionModel) {
    match e {
        Term::Symbol(name) => match lookup(m.frames, env, name) {
            Ok(v) => given(m, v),
            Err(f) => failed(m, f),
        },
        Term::List(list) => eval_list(m, list, env),
        other => given(m, other),
    }
}

/// Goes on with the body of a class in its frame, with the class waiting for
/// it: a body `(begin ..)` runs in the frame itself.
pub open spec fn class_body(
    m: Machine,
    name: Seq<char>,
    body: Term,
    env: usize,
    frame: usize,
    parent: Option<ObjectModel>,
) -> (Machine, ActionModel) {
    let m1 = waiting(m, PendingModel::Class { name, env, frame, parent });
    match body {
        Term::List(items) => if items.len() > 0 && items[0] == Term::Symbol("begin"@) {
            sequence(m1, items, 1, frame, Term::Void)
        } else {
            going(m1, body, frame)
        },
        _ => going(m1, body, frame),
    }
}

/// The arguments of a constructor call: the name, the object that stands for
/// `self`, which refers to the frame of the class, and the items of the `new`
/// form behind the class.
pub open spec fn constructor_call(list: Seq<Term>, class: usize) -> Seq<Term> {
    seq![
        Term::Symbol("constructor"@),
        Term::Object(ObjectModel { idx: class, parent: None }),
    ] + list.subrange(2, list.len() as int)
}

/// `new` on an object: the instance frame is a new scope inside the class's
/// frame; `constructor`, looked up from it, is called with that frame as its
/// activation frame and with an object of the class's frame as `self`.
pub open spec fn instantiate(m: Machine, class: ObjectModel, list: Seq<Term>, env: usize) -> (
    Machine,
    ActionModel,
) {
    if class.idx >= m.frames.len() || list.len() < 2 {
        failed(m, unexpected())
    } else {
        let m1 = with_frames(m, extended(m.frames, class.idx));
        let frame = m.frames.len() as usize;
        match lookup(m1.frames, frame, "constructor"@) {
            Ok(Term::Function(params, body, captured)) => {
                let call_list = constructor_call(list, class.idx);
                if params.len() + 1 != call_list.len() {
                    failed(
                        m1,
                        arity_fault("constructor"@, params.len(), arguments(call_list)),
                    )
                } else {
                    bind_next(
                        waiting(
                            m1,
                            PendingModel::Instance { frame, parent: unboxed(class.parent) },
                        ),
                        params,
                        call_list,
                        1,
                        env,
                        frame,
                        *body,
                    )
                }
            },
            Ok(_) => failed(m1, Fault::Reason("cannot get valid constructor for class"@)),
            Err(f) => failed(m1, f),
        }
    }
}

/// The object in the box, if there is one.
pub open spec fn unboxed(o: Option<Box<ObjectModel>>) -> Option<ObjectModel> {
    match o {
        Some(b) => Some(*b),
        None => None,
    }
}

/// The object in a box, if there is one.
pub open spec fn boxed(o: Option<ObjectModel>) -> Option<Box<ObjectModel>> {
    match o {
        Some(b) => Some(Box::new(b)),
        None => None,
    }
}

/// What happens when the value `v` reaches what waited for it.
pub open spec fn resume_with(m: Machine, p: PendingModel, v: Term) -> (Machine, ActionModel) {
    match p {
        PendingModel::Define { name, env } => if env < m.frames.len() {
            given(with_frames(m, defined(m.frames, env, name, v)), v)
        } else {
            failed(m, unexpected())
        },
        PendingModel::Assign { name, env } => match resolve(m.frames, env, name) {
            Some(_) => given(with_frames(m, assigned(m.frames, env, name, v)), v),
            None => failed(m, undefined(name)),
        },
        PendingModel::Field { instance, name, env } => pushed(
            m,
            PendingModel::Store { name, value: v },
            instance,
            env,
        ),
        PendingModel::Store { name, value } => match v {
            Term::Object(o) => if o.idx < m.frames.len() {
                given(with_frames(m, defined(m.frames, o.idx, name, value)), value)
            } else {
                failed(m, unexpected())
            },
            _ => failed(m, not_an_object()),
        },
        PendingModel::Branch { consequent, alternate, env } => match v {
            Term::Boolean(b) => going(m, if b { consequent } else { alternate }, env),
            _ => failed(m, Fault::Invalid("invalid if statement"@)),
        },
        PendingModel::Test { condition, body, env, last } => match v {
            Term::Boolean(b) => if b {
                pushed(m, PendingModel::Again { condition, body, env }, body, env)
            } else {
                given(m, last)
            },
            _ => failed(m, Fault::Invalid("invalid while statement"@)),
        },
        PendingModel::Again { condition, body, env } => pushed(
            m,
            PendingModel::Test { condition, body, env, last: v },
            condition,
            env,
        ),
        PendingModel::Sequence { items, next, env } => sequence(m, items, next, env, v),
        PendingModel::Left { op, right, env } => pushed(
            m,
            PendingModel::Right { op, left: v },
            right,
            env,
        ),
        PendingModel::Right { op, left } => match combine(op, left, v) {
            Verdict::Value(x) => given(m, x),
            Verdict::Calculate(o, a, b) => asking(
                m,
                ControlModel::Number,
                ActionModel::Calculate(o, a, b),
            ),
            Verdict::Compare(o, a, b) => asking(
                m,
                ControlModel::Comparison(o),
                ActionModel::Compare(a, b),
            ),
            Verdict::Fail(f) => failed(m, f),
        },
        PendingModel::Head { list, env, frame } => match v {
            Term::Function(params, body, captured) => call(m, params, *body, captured, list, env),
            _ => sequence(m, list, 1, frame, v),
        },
        PendingModel::Argument { params, list, next, caller, activation, body } => if 1 <= next
            <= params.len() && next < usize::MAX && activation < m.frames.len() {
            bind_next(
                with_frames(m, defined(m.frames, activation, params[next - 1], v)),
                params,
                list,
                (next + 1) as usize,
                caller,
                activation,
                body,
            )
        } else {
            failed(m, unexpected())
        },
        PendingModel::Parent { name, body, env } => match v {
            Term::Object(o) => if o.idx < m.frames.len() {
                class_body(
                    with_frames(m, extended(m.frames, o.idx)),
                    name,
                    body,
                    env,
                    m.frames.len() as usize,
                    Some(o),
                )
            } else {
                failed(m, Fault::Reason("cannot get parent for class "@ + name))
            },
            Term::Void => if env < m.frames.len() {
                class_body(
                    with_frames(m, extended(m.frames, env)),
                    name,
                    body,
                    env,
                    m.frames.len() as usize,
                    None,
                )
            } else {
                failed(m, unexpected())
            },
            _ => failed(
                m,
                Fault::Invalid("parent of class "@ + name + " has invalid type"@),
            ),
        },
        PendingModel::Class { name, env, frame, parent } => {
            let object = Term::Object(ObjectModel { idx: frame, parent: boxed(parent) });
            if env < m.frames.len() {
                given(with_frames(m, defined(m.frames, env, name, object)), object)
            } else {
                failed(m, unexpected())
            }
        },
        PendingModel::Instantiate { list, env } => match v {
            Term::Object(o) => instantiate(m, o, list, env),
            _ => failed(m, Fault::Invalid("invalid creating new instance of class"@)),
        },
        PendingModel::Instance { frame, parent } => given(
            m,
            Term::Object(ObjectModel { idx: frame, parent: boxed(parent) }),
        ),
        PendingModel::Member { name } => match v {
            Term::Object(o) => match lookup(m.frames, o.idx, name) {
                Ok(x) => given(m, x),
                Err(f) => failed(m, f),
            },
            _ => failed(m, not_an_object()),
        },
        PendingModel::Super => match v {
            Term::Object(o) => match o.parent {
                Some(p) => given(m, Term::Object(*p)),
                None => failed(m, Fault::Reason("cannot find parent"@)),
            },
            _ => failed(m, Fault::Invalid("invalid super call on non class"@)),
        },
        PendingModel::Show { items, next, env, shown } => show(m, items, next, env, shown.push(v)),
    }
}

/// The form that binds `name` to the member `name` of `module`.
pub open spec fn member_binding(name: Term, module: Term) -> Term {
    Term::List(
        seq![Term::Symbol("var"@), name, Term::List(seq![Term::Symbol("prop"@), module, name])],
    )
}

/// The forms that an `import` stands for, given the one form that the module's
/// file holds: the declaration of the module, then a binding for each name
/// asked for. Where a list of names is given and is empty, `Void` comes last.
pub open spec fn import_forms(list: Seq<Term>, body: Term) -> Seq<Term> {
    let module = list.last();
    let declaration = Term::List(seq![Term::Symbol("module"@), module, body]);
    if list.len() != 3 {
        seq![declaration]
    } else {
        match list[1] {
            Term::List(names) => if names.len() == 0 {
                seq![declaration, Term::Void]
            } else {
                seq![declaration] + Seq::new(
                    names.len(),
                    |i: int| member_binding(names[i], module),
                )
            },
            name => seq![declaration, member_binding(name, module)],
        }
    }
}

/// The fault for a module file that does not hold exactly one form.
pub open spec fn not_one_body() -> Fault {
    Fault::Reason("a module only contains one body"@)
}

/// What happens when the parsed text of a module comes in.
pub open spec fn import_module(m: Machine, list: Seq<Term>, env: usize, parsed: Term) -> (
    Machine,
    ActionModel,
) {
    match parsed {
        Term::List(forms) => if forms.len() != 1 || list.len() == 0 {
            failed(m, not_one_body())
        } else {
            sequence(m, import_forms(list, forms[0]), 0, env, Term::Void)
        },
        _ => failed(m, not_one_body()),
    }
}

/// The fault for an answer that was not asked for.
pub open spec fn unexpected_answer() -> Fault {
    Fault::Reason("unexpected answer"@)
}

/// The machine with nothing in its hands.
pub open spec fn idle(m: Machine) -> Machine {
    Machine { control: ControlModel::Idle, ..m }
}

/// One step of the machine, on the answer to what the step before asked.
pub open spec fn step(m: Machine, event: EventModel) -> (Machine, ActionModel) {
    match m.control {
        ControlModel::Idle => failed(m, Fault::Reason("nothing to evaluate"@)),
        ControlModel::Eval(e, env) => eval_exp(idle(m), e, env),
        ControlModel::Return(v) => if m.stack.len() == 0 {
            (idle(m), ActionModel::Done(Ok(v)))
        } else {
            resume_with(
                Machine { stack: m.stack.drop_last(), control: ControlModel::Idle, ..m },
                m.stack.last(),
                v,
            )
        },
        ControlModel::Number => match event {
            EventModel::Number(n) => given(idle(m), Term::Number(n)),
            _ => failed(idle(m), unexpected_answer()),
        },
        ControlModel::Comparison(op) => match event {
            EventModel::Order(o) => given(idle(m), Term::Boolean(holds(op, o))),
            _ => failed(idle(m), unexpected_answer()),
        },
        ControlModel::Printed => given(idle(m), Term::Void),
        ControlModel::Module(list, env) => match event {
            EventModel::Module(Ok(parsed)) => import_module(idle(m), list, env, parsed),
            EventModel::Module(Err(f)) => failed(idle(m), f),
            _ => failed(idle(m), unexpected_answer()),
        },
    }
}

/// The machine that starts on `e` in `env`, with nothing waiting.
pub open spec fn start(m: Machine, e: Term, env: usize) -> (Machine, ActionModel) {
    eval_exp(Machine { stack: Seq::empty(), control: ControlModel::Idle, ..m }, e, env)
}

/// Up to `limit` steps, one after the other, until a step asks something of
/// the caller or ends the evaluation.
pub open spec fn run(m: Machine, event: EventModel, limit: nat) -> (Machine, ActionModel)
    decreases limit,
{
    if limit == 0 {
        (m, ActionModel::Continue)
    } else {
        let (next, action) = step(m, event);
        if action is Continue {
            run(next, EventModel::Continue, (limit - 1) as nat)
        } else {
            (next, action)
        }
    }
}

/// A function keeps the scope in which it is made: `lambda` in the scope `env`
/// gives a function whose frame is `env`.
pub proof fn lemma_lambda_keeps_scope(m: Machine, list: Seq<Term>, env: usize)
    requires
        list.len() == 3,
        parameters(list[1]) is Some,
    ensures
        eval_define_lambda(m, list, env).0.control == ControlModel::Return(
            Term::Function(parameters(list[1])->Some_0, Box::new(list[2]), env),
        ),
{
}

/// A call runs the body in a new scope inside the scope that the function
/// kept, from whichever scope it is called: the frames after the call, and the
/// activation frame, do not depend on the caller.
pub proof fn lemma_call_extends_kept_scope(
    m: Machine,
    params: Seq<Seq<char>>,
    body: Term,
    captured: usize,
    list: Seq<Term>,
    caller: usize,
    other: usize,
)
    requires
        params.len() + 1 == list.len(),
        captured < m.frames.len(),
    ensures
        call(m, params, body, captured, list, caller).0.frames == extended(m.frames, captured),
        call(m, params, body, captured, list, caller).0.frames == call(
            m,
            params,
            body,
            captured,
            list,
            other,
        ).0.frames,
        list.len() == 1 ==> call(m, params, body, captured, list, caller).0.control
            == ControlModel::Eval(body, m.frames.len() as usize),
{
}

/// In the activation frame of a call, a name means what it means in the scope
/// that the function kept, until a parameter of that name is bound.
pub proof fn lemma_activation_sees_kept_scope(frames: Seq<Frame>, captured: usize, name: Seq<char>)
    requires
        captured < frames.len() <= usize::MAX,
    ensures
        lookup(extended(frames, captured), frames.len() as usize, name) == lookup(
            frames,
            captured,
            name,
        ),
{
    crate::environment::lemma_push_keeps_lookup(
        frames,
        Frame { parent: Some(captured), record: Map::empty() },
        captured,
        name,
    );
}

/// What a block binds is not seen after the block: a binding in the block's
/// frame, which is newer than every scope around it, changes no lookup from a
/// scope that was there before.
pub proof fn lemma_block_binding_is_local(
    frames: Seq<Frame>,
    env: usize,
    name: Seq<char>,
    value: Term,
    from: usize,
    other: Seq<char>,
)
    requires
        env < frames.len() <= usize::MAX,
        from < frames.len(),
    ensures
        lookup(
            defined(extended(frames, env), frames.len() as usize, name, value),
            from,
            other,
        ) == lookup(frames, from, other),
{
    let frame = Frame { parent: Some(env), record: Map::empty() };
    crate::environment::lemma_inner_define_invisible(
        extended(frames, env),
        frames.len() as usize,
        from,
        name,
        value,
        other,
    );
    crate::environment::lemma_push_keeps_lookup(frames, frame, from, other);
}

} // verus!
