use vstd::prelude::*;
use vstd::string::StringExecFns;
use crate::error::Error;
use crate::expression::{
    copy_list, lemma_function_term, lemma_list_term, list3, terms, texts, Expression, Object,
    Term,
};
pub use crate::machine::Evaluator;
use crate::machine::{object_model, pendings, Action, Control, Event, Pending};
use crate::operator::{apply, decide, Combination, Operator};
use crate::semantics;
use crate::text::{decimal, same};
use crate::transform::{
    transform_compound_assign, transform_def_to_var_lambda, transform_for_to_while,
    transform_incdec, transform_module_to_class, transform_switch_to_if,
};

verus! {

/// The error for a handle that is no frame of the arena.
pub fn unexpected_error() -> (r: Error)
    ensures
        r@ == semantics::unexpected(),
{
    Error::reason("unexpected error")
}

/// The error for a call with the wrong number of arguments.
pub fn arity_error(label: &str, expected: usize, provided: usize) -> (r: Error)
    ensures
        r@ == semantics::arity_fault(label@, expected as nat, provided as nat),
{
    Error::Reason(
        String::from_str("function ").concat(label).concat(" took ").concat(
            decimal(expected).as_str(),
        ).concat(" argurments you provide ").concat(decimal(provided).as_str()),
    )
}

/// How a call names its function.
pub fn label_of(list: &Vec<Expression>) -> (r: String)
    ensures
        r@ == semantics::label(terms(list@)),
{
    if list.len() > 0 {
        match &list[0] {
            Expression::Symbol(s) => s.clone(),
            _ => String::from_str("lambda"),
        }
    } else {
        String::from_str("lambda")
    }
}

/// The names that a parameter list holds.
pub fn parameters(e: &Expression) -> (r: Option<Vec<String>>)
    ensures
        match r {
            Some(names) => semantics::parameters(e@) == Some(texts(names@)),
            None => semantics::parameters(e@) is None,
        },
{
    match e {
        Expression::Symbol(name) => {
            let names = vec![name.clone()];
            assert(texts(names@) =~= seq![name@]);
            Some(names)
        },
        Expression::List(items) => {
            proof {
                lemma_list_term(*items);
            }
            let mut names: Vec<String> = Vec::new();
            let mut i: usize = 0;
            while i < items.len()
                invariant
                    e@ == Term::List(terms(items@)),
                    i <= items@.len(),
                    names@.len() == i,
                    forall|j: int| 0 <= j < i ==> terms(items@)[j] == Term::Symbol(names@[j]@),
                decreases items.len() - i,
            {
                match &items[i] {
                    Expression::Symbol(name) => {
                        names.push(name.clone());
                    },
                    _ => {
                        assert(!(terms(items@)[i as int] is Symbol));
                        assert(!(forall|j: int|
                            0 <= j < terms(items@).len() ==> terms(items@)[j] is Symbol));
                        return None;
                    },
                }
                i += 1;
            }
            assert(texts(names@) =~= Seq::new(
                terms(items@).len(),
                |i: int| terms(items@)[i]->Symbol_0,
            ));
            Some(names)
        },
        _ => None,
    }
}

impl Evaluator {
    /// Goes on with a rewritten form, or stops with the rewriter's error.
    pub fn rewritten(&mut self, form: Result<Expression, Error>, env: usize) -> (r: Action)
        requires
            old(self).wf(),
        ensures
            final(self).wf(),
            (final(self)@, r@) == semantics::rewritten(
                old(self)@,
                crate::expression::outcome(form),
                env,
            ),
    {
        match form {
            Ok(e) => self.go(e, env),
            Err(e) => self.fail(e),
        }
    }

    /// Evaluates `items[start]` and what follows it, one after the other.
    pub fn sequence(&mut self, items: Vec<Expression>, start: usize, env: usize, last: Expression)
        -> (r: Action)
        requires
            old(self).wf(),
        ensures
            final(self).wf(),
            (final(self)@, r@) == semantics::sequence(
                old(self)@,
                terms(items@),
                start,
                env,
                last@,
            ),
    {
        if start < items.len() {
            let e = items[start].copy();
            self.push(Pending::Sequence { items, next: start + 1, env }, e, env)
        } else {
            self.give(last)
        }
    }

    /// Starts a block in a new scope inside `env`.
    pub fn eval_begin(&mut self, list: &Vec<Expression>, env: usize) -> (r: Action)
        requires
            old(self).wf(),
        ensures
            final(self).wf(),
            (final(self)@, r@) == semantics::eval_begin(old(self)@, terms(list@), env),
    {
        match self.env_arena.extend(env) {
            Ok(frame) => self.sequence(copy_list(list), 1, frame, Expression::Void),
            Err(e) => self.fail(e),
        }
    }

    /// Starts the definition of a variable.
    pub fn eval_define_variable(&mut self, list: &Vec<Expression>, env: usize) -> (r: Action)
        requires
            old(self).wf(),
        ensures
            final(self).wf(),
            (final(self)@, r@) == semantics::eval_define_variable(old(self)@, terms(list@), env),
    {
        if list.len() != 3 {
            return self.fail(Error::invalid("Invalid number of argurments"));
        }
        match &list[1] {
            Expression::Symbol(name) => self.push(
                Pending::Define { name: name.clone(), env },
                list[2].copy(),
                env,
            ),
            _ => self.fail(Error::invalid("Invalid defining variable")),
        }
    }

    /// Starts an assignment to a name or to a property of an object.
    pub fn eval_assign_variable(&mut self, list: &Vec<Expression>, env: usize) -> (r: Action)
        requires
            old(self).wf(),
        ensures
            final(self).wf(),
            (final(self)@, r@) == semantics::eval_assign_variable(old(self)@, terms(list@), env),
    {
        if list.len() != 3 {
            return self.fail(Error::invalid("invalid set statement"));
        }
        match &list[1] {
            Expression::Symbol(name) => self.push(
                Pending::Assign { name: name.clone(), env },
                list[2].copy(),
                env,
            ),
            Expression::List(target) => {
                proof {
                    lemma_list_term(*target);
                }
                if target.len() > 0 && crate::expression::is_symbol(&target[0], "prop") {
                    if target.len() != 3 {
                        return self.fail(Error::invalid("invalid access to class properties"));
                    }
                    match &target[2] {
                        Expression::Symbol(name) => self.push(
                            Pending::Field {
                                instance: target[1].copy(),
                                name: name.clone(),
                                env,
                            },
                            list[2].copy(),
                            env,
                        ),
                        _ => self.fail(Error::invalid("invalid property name")),
                    }
                } else {
                    self.fail(Error::invalid("Invalid assigning variable"))
                }
            },
            _ => self.fail(Error::invalid("Invalid assigning variable")),
        }
    }

    /// Starts a conditional.
    pub fn eval_if(&mut self, list: &Vec<Expression>, env: usize) -> (r: Action)
        requires
            old(self).wf(),
        ensures
            final(self).wf(),
            (final(self)@, r@) == semantics::eval_if(old(self)@, terms(list@), env),
    {
        if list.len() != 4 {
            return self.fail(Error::invalid("invalid if statement"));
        }
        self.push(
            Pending::Branch { consequent: list[2].copy(), alternate: list[3].copy(), env },
            list[1].copy(),
            env,
        )
    }

    /// Starts a loop.
    pub fn eval_while(&mut self, list: &Vec<Expression>, env: usize) -> (r: Action)
        requires
            old(self).wf(),
        ensures
            final(self).wf(),
            (final(self)@, r@) == semantics::eval_while(old(self)@, terms(list@), env),
    {
        if list.len() != 3 {
            return self.fail(Error::invalid("invalid while statement"));
        }
        self.push(
            Pending::Test {
                condition: list[1].copy(),
                body: list[2].copy(),
                env,
                last: Expression::Void,
            },
            list[1].copy(),
            env,
        )
    }

    /// Makes a function that keeps the scope `env`.
    pub fn eval_define_lambda(&mut self, list: &Vec<Expression>, env: usize) -> (r: Action)
        requires
            old(self).wf(),
        ensures
            final(self).wf(),
            (final(self)@, r@) == semantics::eval_define_lambda(old(self)@, terms(list@), env),
    {
        if list.len() != 3 {
            return self.fail(Error::invalid("invalid defining lambda."));
        }
        match parameters(&list[1]) {
            Some(params) => {
                let body = Box::new(list[2].copy());
                proof {
                    lemma_function_term(params, body, env);
                }
                self.give(Expression::Function(params, body, env))
            },
            None => self.fail(Error::invalid("invalid params for lambda")),
        }
    }

    /// Rewrites a function definition and goes on with the result.
    pub fn eval_define_function(&mut self, list: &Vec<Expression>, env: usize) -> (r: Action)
        requires
            old(self).wf(),
        ensures
            final(self).wf(),
            (final(self)@, r@) == semantics::rewritten(
                old(self)@,
                crate::transform::def_to_var_lambda(terms(list@)),
                env,
            ),
    {
        self.rewritten(transform_def_to_var_lambda(list.as_slice()), env)
    }

    /// Rewrites a module declaration and goes on with the result.
    pub fn eval_module(&mut self, list: &Vec<Expression>, env: usize) -> (r: Action)
        requires
            old(self).wf(),
        ensures
            final(self).wf(),
            (final(self)@, r@) == semantics::rewritten(
                old(self)@,
                crate::transform::module_to_class(terms(list@)),
                env,
            ),
    {
        self.rewritten(transform_module_to_class(list.as_slice()), env)
    }

    /// Starts the declaration of a class.
    pub fn eval_define_class(&mut self, list: &Vec<Expression>, env: usize) -> (r: Action)
        requires
            old(self).wf(),
        ensures
            final(self).wf(),
            (final(self)@, r@) == semantics::eval_define_class(old(self)@, terms(list@), env),
    {
        if list.len() != 4 {
            return self.fail(Error::invalid("invalid class/module definition"));
        }
        match &list[1] {
            Expression::Symbol(name) => self.push(
                Pending::Parent { name: name.clone(), body: list[3].copy(), env },
                list[2].copy(),
                env,
            ),
            _ => self.fail(Error::invalid("invalid class/module name")),
        }
    }

    /// Starts the making of an instance.
    pub fn eval_new(&mut self, list: &Vec<Expression>, env: usize) -> (r: Action)
        requires
            old(self).wf(),
        ensures
            final(self).wf(),
            (final(self)@, r@) == semantics::eval_new(old(self)@, terms(list@), env),
    {
        if list.len() < 2 {
            return self.fail(Error::invalid("invalid creating new instance of class"));
        }
        self.push(Pending::Instantiate { list: copy_list(list), env }, list[1].copy(), env)
    }

    /// Starts the reading of a property.
    pub fn eval_prop(&mut self, list: &Vec<Expression>, env: usize) -> (r: Action)
        requires
            old(self).wf(),
        ensures
            final(self).wf(),
            (final(self)@, r@) == semantics::eval_prop(old(self)@, terms(list@), env),
    {
        if list.len() != 3 {
            return self.fail(Error::invalid("invalid access to class properties"));
        }
        match &list[2] {
            Expression::Symbol(name) => self.push(
                Pending::Member { name: name.clone() },
                list[1].copy(),
                env,
            ),
            _ => self.fail(Error::invalid("invalid property name")),
        }
    }

    /// Starts the reading of an object's parent.
    pub fn eval_super(&mut self, list: &Vec<Expression>, env: usize) -> (r: Action)
        requires
            old(self).wf(),
        ensures
            final(self).wf(),
            (final(self)@, r@) == semantics::eval_super(old(self)@, terms(list@), env),
    {
        if list.len() != 2 {
            return self.fail(Error::invalid("invalid super call"));
        }
        self.push(Pending::Super, list[1].copy(), env)
    }

    /// Evaluates the next item to print, or has the values printed.
    pub fn show(
        &mut self,
        items: Vec<Expression>,
        next: usize,
        env: usize,
        shown: Vec<Expression>,
    ) -> (r: Action)
        requires
            old(self).wf(),
        ensures
            final(self).wf(),
            (final(self)@, r@) == semantics::show(
                old(self)@,
                terms(items@),
                next,
                env,
                terms(shown@),
            ),
    {
        if next < items.len() {
            let e = items[next].copy();
            self.push(Pending::Show { items, next: next + 1, env, shown }, e, env)
        } else {
            self.ask(Control::Printed, Action::Print(shown))
        }
    }

    /// Starts a `print`.
    pub fn eval_print(&mut self, list: &Vec<Expression>, env: usize) -> (r: Action)
        requires
            old(self).wf(),
        ensures
            final(self).wf(),
            (final(self)@, r@) == semantics::eval_print(old(self)@, terms(list@), env),
    {
        let shown: Vec<Expression> = Vec::new();
        assert(terms(shown@) =~= Seq::<Term>::empty());
        self.show(copy_list(list), 1, env, shown)
    }

    /// Asks for the file of the module that an `import` names.
    pub fn eval_import(&mut self, list: &Vec<Expression>, env: usize) -> (r: Action)
        requires
            old(self).wf(),
        ensures
            final(self).wf(),
            (final(self)@, r@) == semantics::eval_import(old(self)@, terms(list@), env),
    {
        if list.len() == 2 || list.len() == 3 {
            match &list[list.len() - 1] {
                Expression::Symbol(name) => {
                    let path = if self.cwf_path.as_str().unicode_len() == 0 {
                        String::from_str("./").concat(name.as_str()).concat(".eva")
                    } else {
                        self.cwf_path.clone().concat("/").concat(name.as_str()).concat(".eva")
                    };
                    self.ask(Control::Module(copy_list(list), env), Action::Import(path))
                },
                _ => self.fail(Error::reason("invalid import")),
            }
        } else {
            self.fail(Error::reason("invalid import"))
        }
    }

    /// Starts a binary operation.
    pub fn eval_binary_op(&mut self, op: Operator, list: &Vec<Expression>, env: usize) -> (r:
        Action)
        requires
            old(self).wf(),
        ensures
            final(self).wf(),
            (final(self)@, r@) == semantics::eval_binary_op(old(self)@, op, terms(list@), env),
    {
        if list.len() < 3 {
            return self.fail(Error::invalid("invalid number of operands"));
        }
        self.push(Pending::Left { op, right: list[2].copy(), env }, list[1].copy(), env)
    }

    /// Evaluates the next argument of a call, or goes on with the body.
    pub fn bind_next(
        &mut self,
        params: Vec<String>,
        list: Vec<Expression>,
        next: usize,
        caller: usize,
        activation: usize,
        body: Expression,
    ) -> (r: Action)
        requires
            old(self).wf(),
        ensures
            final(self).wf(),
            (final(self)@, r@) == semantics::bind_next(
                old(self)@,
                texts(params@),
                terms(list@),
                next,
                caller,
                activation,
                body@,
            ),
    {
        if next < list.len() {
            let e = list[next].copy();
            self.push(
                Pending::Argument { params, list, next, caller, activation, body },
                e,
                caller,
            )
        } else {
            self.go(body, activation)
        }
    }

    /// Checks the number of arguments, makes the activation frame inside the
    /// scope that the function kept, and starts on the arguments.
    pub fn eval_function_body(
        &mut self,
        list: Vec<Expression>,
        params: Vec<String>,
        body: Expression,
        captured: usize,
        caller: usize,
    ) -> (r: Action)
        requires
            old(self).wf(),
        ensures
            final(self).wf(),
            (final(self)@, r@) == semantics::call(
                old(self)@,
                texts(params@),
                body@,
                captured,
                terms(list@),
                caller,
            ),
    {
        if list.len() == 0 || params.len() != list.len() - 1 {
            let provided = if list.len() == 0 {
                0
            } else {
                list.len() - 1
            };
            let label = label_of(&list);
            return self.fail(arity_error(label.as_str(), params.len(), provided));
        }
        match self.env_arena.extend(captured) {
            Ok(activation) => self.bind_next(params, list, 1, caller, activation, body),
            Err(e) => self.fail(e),
        }
    }
}

impl Evaluator {
    /// A form whose head is a symbol that names no special form.
    pub fn eval_named(&mut self, name: &String, list: Vec<Expression>, env: usize) -> (r: Action)
        requires
            old(self).wf(),
        ensures
            final(self).wf(),
            (final(self)@, r@) == semantics::eval_named(old(self)@, name@, terms(list@), env),
    {
        match self.env_arena.lookup(env, name.as_str()) {
            Ok(Expression::Function(params, body, captured)) => {
                proof {
                    lemma_function_term(params, body, captured);
                }
                self.eval_function_body(list, params, *body, captured, env)
            },
            Ok(v) => self.give(v),
            Err(e) => self.fail(e),
        }
    }

    /// A form whose head is the symbol `name`.
    pub fn eval_form(&mut self, name: &String, list: Vec<Expression>, env: usize) -> (r: Action)
        requires
            old(self).wf(),
        ensures
            final(self).wf(),
            (final(self)@, r@) == semantics::eval_form(old(self)@, name@, terms(list@), env),
    {
        match Operator::from_symbol(name) {
            Some(op) => {
                return self.eval_binary_op(op, &list, env);
            },
            None => {},
        }
        if same(name, "++") || same(name, "--") {
            self.rewritten(transform_incdec(list.as_slice()), env)
        } else if same(name, "+=") || same(name, "-=") || same(name, "*=") || same(name, "/=")
            || same(name, "%=") {
            self.rewritten(transform_compound_assign(list.as_slice()), env)
        } else if same(name, "var") {
            self.eval_define_variable(&list, env)
        } else if same(name, "set") {
            self.eval_assign_variable(&list, env)
        } else if same(name, "if") {
            self.eval_if(&list, env)
        } else if same(name, "switch") {
            self.rewritten(transform_switch_to_if(list.as_slice()), env)
        } else if same(name, "while") {
            self.eval_while(&list, env)
        } else if same(name, "for") {
            self.rewritten(transform_for_to_while(list.as_slice()), env)
        } else if same(name, "def") {
            self.eval_define_function(&list, env)
        } else if same(name, "begin") {
            self.eval_begin(&list, env)
        } else if same(name, "lambda") {
            self.eval_define_lambda(&list, env)
        } else if same(name, "class") {
            self.eval_define_class(&list, env)
        } else if same(name, "new") {
            self.eval_new(&list, env)
        } else if same(name, "prop") {
            self.eval_prop(&list, env)
        } else if same(name, "super") {
            self.eval_super(&list, env)
        } else if same(name, "module") {
            self.eval_module(&list, env)
        } else if same(name, "import") {
            self.eval_import(&list, env)
        } else if same(name, "print") {
            self.eval_print(&list, env)
        } else {
            self.eval_named(name, list, env)
        }
    }

    /// A list: a symbol at the head picks the form; any other head is
    /// evaluated first.
    pub fn eval_list(&mut self, list: Vec<Expression>, env: usize) -> (r: Action)
        requires
            old(self).wf(),
        ensures
            final(self).wf(),
            (final(self)@, r@) == semantics::eval_list(old(self)@, terms(list@), env),
    {
        if list.len() == 0 {
            return self.give(Expression::Void);
        }
        match &list[0] {
            Expression::Symbol(name) => {
                let name = name.clone();
                self.eval_form(&name, list, env)
            },
            _ => {
                let head = list[0].copy();
                match self.env_arena.extend(env) {
                    Ok(frame) => self.push(Pending::Head { list, env, frame }, head, frame),
                    Err(e) => self.fail(e),
                }
            },
        }
    }

    /// One expression: a symbol is looked up, a list is a form, and everything
    /// else is its own value.
    pub fn dispatch(&mut self, e: Expression, env: usize) -> (r: Action)
        requires
            old(self).wf(),
        ensures
            final(self).wf(),
            (final(self)@, r@) == semantics::eval_exp(old(self)@, e@, env),
    {
        match e {
            Expression::Symbol(name) => match self.env_arena.lookup(env, name.as_str()) {
                Ok(v) => self.give(v),
                Err(e) => self.fail(e),
            },
            Expression::List(list) => {
                proof {
                    lemma_list_term(list);
                }
                self.eval_list(list, env)
            },
            other => self.give(other),
        }
    }
}

/// The form that binds `name` to the member `name` of `module`.
pub fn member_binding(name: &Expression, module: &Expression) -> (r: Expression)
    ensures
        r@ == semantics::member_binding(name@, module@),
{
    list3(
        Expression::symbol("var"),
        name.copy(),
        list3(Expression::symbol("prop"), module.copy(), name.copy()),
    )
}

/// The forms that an `import` stands for, given the one form that the module's
/// file holds.
fn import_forms(list: &Vec<Expression>, body: Expression) -> (r: Vec<Expression>)
    requires
        list@.len() > 0,
    ensures
        terms(r@) == semantics::import_forms(terms(list@), body@),
{
    let module = &list[list.len() - 1];
    let declaration = list3(Expression::symbol("module"), module.copy(), body);
    if list.len() != 3 {
        let forms = vec![declaration];
        assert(terms(forms@) =~= seq![declaration@]);
        return forms;
    }
    match &list[1] {
        Expression::List(names) => {
            proof {
                lemma_list_term(*names);
            }
            if names.len() == 0 {
                let forms = vec![declaration, Expression::Void];
                assert(terms(forms@) =~= seq![declaration@, Term::Void]);
                forms
            } else {
                let mut forms = vec![declaration];
                let mut i: usize = 0;
                while i < names.len()
                    invariant
                        i <= names@.len(),
                        forms@.len() == i + 1,
                        forms@[0]@ == declaration@,
                        module@ == terms(list@).last(),
                        forall|j: int|
                            0 <= j < i ==> forms@[j + 1]@ == semantics::member_binding(
                                terms(names@)[j],
                                module@,
                            ),
                    decreases names.len() - i,
                {
                    forms.push(member_binding(&names[i], module));
                    i += 1;
                }
                assert(terms(forms@) =~= seq![declaration@] + Seq::new(
                    terms(names@).len(),
                    |i: int| semantics::member_binding(terms(names@)[i], module@),
                ));
                forms
            }
        },
        name => {
            let binding = member_binding(name, module);
            let forms = vec![declaration, binding];
            assert(terms(forms@) =~= seq![declaration@, binding@]);
            forms
        },
    }
}

/// The arguments of a constructor call.
fn constructor_call(list: &Vec<Expression>, class: usize) -> (r: Vec<Expression>)
    requires
        list@.len() >= 2,
    ensures
        terms(r@) == semantics::constructor_call(terms(list@), class),
        r@.len() >= 2,
{
    let this = Expression::Object(Object { idx: class, parent: None });
    let mut arguments = vec![Expression::symbol("constructor"), this];
    let mut i: usize = 2;
    while i < list.len()
        invariant
            2 <= i <= list@.len(),
            arguments@.len() == i,
            arguments@[0]@ == Term::Symbol("constructor"@),
            arguments@[1]@ == this@,
            forall|j: int| 2 <= j < i ==> arguments@[j]@ == list@[j]@,
        decreases list.len() - i,
    {
        arguments.push(list[i].copy());
        i += 1;
    }
    assert(terms(arguments@) =~= semantics::constructor_call(terms(list@), class));
    arguments
}

/// An object with the given frame and parent.
pub fn object_of(frame: usize, parent: Option<Object>) -> (r: Expression)
    ensures
        r@ == Term::Object(
            crate::expression::ObjectModel {
                idx: frame,
                parent: semantics::boxed(object_model(parent)),
            },
        ),
{
    let parent = match parent {
        Some(o) => Some(Box::new(o)),
        None => None,
    };
    Expression::Object(Object { idx: frame, parent })
}

impl Evaluator {
    /// Goes on with the body of a class in its frame, with the class waiting
    /// for it.
    pub fn class_body(
        &mut self,
        name: String,
        body: Expression,
        env: usize,
        frame: usize,
        parent: Option<Object>,
    ) -> (r: Action)
        requires
            old(self).wf(),
        ensures
            final(self).wf(),
            (final(self)@, r@) == semantics::class_body(
                old(self)@,
                name@,
                body@,
                env,
                frame,
                object_model(parent),
            ),
    {
        let waits = Pending::Class { name, env, frame, parent };
        self.stack.push(waits);
        assert(pendings(self.stack@) =~= pendings(old(self).stack@).push(waits@));
        match body {
            Expression::List(items) => {
                proof {
                    lemma_list_term(items);
                }
                if items.len() > 0 && crate::expression::is_symbol(&items[0], "begin") {
                    self.sequence(items, 1, frame, Expression::Void)
                } else {
                    self.go(Expression::List(items), frame)
                }
            },
            other => self.go(other, frame),
        }
    }

    /// Makes the instance frame of a class and starts its constructor.
    pub fn eval_instantiate(&mut self, class: Object, list: Vec<Expression>, env: usize) -> (r:
        Action)
        requires
            old(self).wf(),
        ensures
            final(self).wf(),
            (final(self)@, r@) == semantics::instantiate(old(self)@, class@, terms(list@), env),
    {
        if class.idx >= self.env_arena.len() || list.len() < 2 {
            return self.fail(unexpected_error());
        }
        let frame = match self.env_arena.extend(class.idx) {
            Ok(frame) => frame,
            Err(e) => {
                return self.fail(e);
            },
        };
        match self.env_arena.lookup(frame, "constructor") {
            Ok(Expression::Function(params, body, captured)) => {
                proof {
                    lemma_function_term(params, body, captured);
                }
                let arguments = constructor_call(&list, class.idx);
                if params.len() != arguments.len() - 1 {
                    return self.fail(
                        arity_error("constructor", params.len(), arguments.len() - 1),
                    );
                }
                let parent = match class.parent {
                    Some(b) => Some(*b),
                    None => None,
                };
                let waits = Pending::Instance { frame, parent };
                let ghost before = self.stack@;
                self.stack.push(waits);
                assert(pendings(self.stack@) =~= pendings(before).push(waits@));
                self.bind_next(params, arguments, 1, env, frame, *body)
            },
            Ok(_) => self.fail(Error::reason("cannot get valid constructor for class")),
            Err(e) => self.fail(e),
        }
    }

    /// What happens when the value `v` reaches what waited for it.
    pub fn resume_with(&mut self, p: Pending, v: Expression) -> (r: Action)
        requires
            old(self).wf(),
        ensures
            final(self).wf(),
            (final(self)@, r@) == semantics::resume_with(old(self)@, p@, v@),
    {
        match p {
            Pending::Define { name, env } => {
                match self.env_arena.define(env, name.as_str(), v) {
                    Ok(value) => self.give(value),
                    Err(e) => self.fail(e),
                }
            },
            Pending::Assign { name, env } => {
                match self.env_arena.assign(env, name.as_str(), v) {
                    Ok(value) => self.give(value),
                    Err(e) => self.fail(e),
                }
            },
            Pending::Field { instance, name, env } => self.push(
                Pending::Store { name, value: v },
                instance,
                env,
            ),
            Pending::Store { name, value } => match v {
                Expression::Object(o) => {
                    match self.env_arena.define(o.idx, name.as_str(), value) {
                        Ok(kept) => self.give(kept),
                        Err(e) => self.fail(e),
                    }
                },
                _ => self.fail(Error::reason("not a instance of a class")),
            },
            Pending::Branch { consequent, alternate, env } => match v {
                Expression::Boolean(b) => if b {
                    self.go(consequent, env)
                } else {
                    self.go(alternate, env)
                },
                _ => self.fail(Error::invalid("invalid if statement")),
            },
            Pending::Test { condition, body, env, last } => match v {
                Expression::Boolean(b) => if b {
                    let next = body.copy();
                    self.push(Pending::Again { condition, body, env }, next, env)
                } else {
                    self.give(last)
                },
                _ => self.fail(Error::invalid("invalid while statement")),
            },
            Pending::Again { condition, body, env } => {
                let next = condition.copy();
                self.push(Pending::Test { condition, body, env, last: v }, next, env)
            },
            Pending::Sequence { items, next, env } => self.sequence(items, next, env, v),
            Pending::Left { op, right, env } => self.push(
                Pending::Right { op, left: v },
                right,
                env,
            ),
            Pending::Right { op, left } => match apply(op, &left, &v) {
                Combination::Value(x) => self.give(x),
                Combination::Calculate(o, a, b) => self.ask(
                    Control::Number,
                    Action::Calculate(o, a, b),
                ),
                Combination::Compare(o, a, b) => self.ask(
                    Control::Comparison(o),
                    Action::Compare(a, b),
                ),
                Combination::Fail(e) => self.fail(e),
            },
            Pending::Head { list, env, frame } => match v {
                Expression::Function(params, body, captured) => {
                    proof {
                        lemma_function_term(params, body, captured);
                    }
                    self.eval_function_body(list, params, *body, captured, env)
                },
                other => self.sequence(list, 1, frame, other),
            },
            Pending::Argument { params, list, next, caller, activation, body } => {
                if 1 <= next && next <= params.len() && next < usize::MAX && activation
                    < self.env_arena.len() {
                    let _ = self.env_arena.define(activation, params[next - 1].as_str(), v);
                    self.bind_next(params, list, next + 1, caller, activation, body)
                } else {
                    self.fail(unexpected_error())
                }
            },
            Pending::Parent { name, body, env } => match v {
                Expression::Object(o) => {
                    match self.env_arena.extend(o.idx) {
                        Ok(frame) => self.class_body(name, body, env, frame, Some(o)),
                        Err(_) => self.fail(
                            Error::Reason(
                                String::from_str("cannot get parent for class ").concat(
                                    name.as_str(),
                                ),
                            ),
                        ),
                    }
                },
                Expression::Void => {
                    match self.env_arena.extend(env) {
                        Ok(frame) => self.class_body(name, body, env, frame, None),
                        Err(e) => self.fail(e),
                    }
                },
                _ => self.fail(
                    Error::Invalid(
                        String::from_str("parent of class ").concat(name.as_str()).concat(
                            " has invalid type",
                        ),
                    ),
                ),
            },
            Pending::Class { name, env, frame, parent } => {
                let object = object_of(frame, parent);
                match self.env_arena.define(env, name.as_str(), object) {
                    Ok(value) => self.give(value),
                    Err(e) => self.fail(e),
                }
            },
            Pending::Instantiate { list, env } => match v {
                Expression::Object(o) => self.eval_instantiate(o, list, env),
                _ => self.fail(Error::invalid("invalid creating new instance of class")),
            },
            Pending::Instance { frame, parent } => self.give(object_of(frame, parent)),
            Pending::Member { name } => match v {
                Expression::Object(o) => match self.env_arena.lookup(o.idx, name.as_str()) {
                    Ok(x) => self.give(x),
                    Err(e) => self.fail(e),
                },
                _ => self.fail(Error::reason("not a instance of a class")),
            },
            Pending::Super => match v {
                Expression::Object(o) => match o.parent {
                    Some(p) => self.give(Expression::Object(*p)),
                    None => self.fail(Error::reason("cannot find parent")),
                },
                _ => self.fail(Error::invalid("invalid super call on non class")),
            },
            Pending::Show { items, next, env, shown } => {
                let mut shown = shown;
                let ghost before = shown@;
                shown.push(v);
                assert(terms(shown@) =~= terms(before).push(v@));
                self.show(items, next, env, shown)
            },
        }
    }

    /// What happens when the parsed text of a module comes in.
    pub fn import_module(&mut self, list: Vec<Expression>, env: usize, parsed: Expression) -> (r:
        Action)
        requires
            old(self).wf(),
        ensures
            final(self).wf(),
            (final(self)@, r@) == semantics::import_module(
                old(self)@,
                terms(list@),
                env,
                parsed@,
            ),
    {
        match parsed {
            Expression::List(forms) => {
                proof {
                    lemma_list_term(forms);
                }
                if forms.len() != 1 || list.len() == 0 {
                    self.fail(Error::reason("a module only contains one body"))
                } else {
                    let body = forms[0].copy();
                    let items = import_forms(&list, body);
                    self.sequence(items, 0, env, Expression::Void)
                }
            },
            _ => self.fail(Error::reason("a module only contains one body")),
        }
    }

    /// Takes one step, on the answer to what the step before asked.
    pub fn resume(&mut self, event: Event) -> (r: Action)
        requires
            old(self).wf(),
        ensures
            final(self).wf(),
            (final(self)@, r@) == semantics::step(old(self)@, event@),
    {
        let mut control = Control::Idle;
        core::mem::swap(&mut self.control, &mut control);
        match control {
            Control::Idle => self.fail(Error::reason("nothing to evaluate")),
            Control::Eval(e, env) => self.dispatch(e, env),
            Control::Return(v) => {
                let ghost before = self.stack@;
                match self.stack.pop() {
                    Some(p) => {
                        assert(pendings(self.stack@) =~= pendings(before).drop_last());
                        self.resume_with(p, v)
                    },
                    None => {
                        assert(pendings(before).len() == 0);
                        Action::Done(Ok(v))
                    },
                }
            },
            Control::Number => match event {
                Event::Number(n) => self.give(Expression::Number(n)),
                _ => self.fail(Error::reason("unexpected answer")),
            },
            Control::Comparison(op) => match event {
                Event::Order(o) => self.give(Expression::Boolean(decide(op, o))),
                _ => self.fail(Error::reason("unexpected answer")),
            },
            Control::Printed => self.give(Expression::Void),
            Control::Module(list, env) => match event {
                Event::Module(Ok(parsed)) => self.import_module(list, env, parsed),
                Event::Module(Err(e)) => self.fail(e),
                _ => self.fail(Error::reason("unexpected answer")),
            },
        }
    }

    /// Starts the evaluation of `exp` in the scope `env`, with nothing waiting,
    /// and takes its first step.
    pub fn eval_exp(&mut self, exp: &Expression, env: usize) -> (r: Action)
        requires
            old(self).wf(),
        ensures
            final(self).wf(),
            (final(self)@, r@) == semantics::start(old(self)@, exp@, env),
    {
        self.stack = Vec::new();
        self.control = Control::Idle;
        assert(pendings(self.stack@) =~= Seq::empty());
        self.dispatch(exp.copy(), env)
    }

    /// Takes up to `limit` steps, until one asks something of the caller or
    /// ends the evaluation.
    pub fn run(&mut self, event: Event, limit: usize) -> (r: Action)
        requires
            old(self).wf(),
        ensures
            final(self).wf(),
            (final(self)@, r@) == semantics::run(old(self)@, event@, limit as nat),
    {
        let mut left: usize = limit;
        let mut answer = event;
        while left > 0
            invariant
                self.wf(),
                semantics::run(old(self)@, event@, limit as nat) == semantics::run(
                    self@,
                    answer@,
                    left as nat,
                ),
            decreases left,
        {
            let ghost before = self@;
            let ghost given = answer@;
            let action = self.resume(answer);
            proof {
                assert(semantics::run(before, given, left as nat) == if action@ is Continue {
                    semantics::run(self@, crate::machine::EventModel::Continue, (left - 1) as nat)
                } else {
                    (self@, action@)
                });
            }
            match action {
                Action::Continue => {
                    answer = Event::Continue;
                    left -= 1;
                },
                _ => {
                    return action;
                },
            }
        }
        Action::Continue
    }

    /// Takes `env` into the arena as a scope of its own and returns its handle.
    pub fn scope(&mut self, env: crate::environment::Environment) -> (r: Result<usize, Error>)
        requires
            old(self).wf(),
            env.wf(),
        ensures
            final(self).wf(),
            match env@.parent {
                Some(p) => p < old(self)@.frames.len(),
                None => true,
            } ==> r == Ok::<usize, Error>(old(self)@.frames.len() as usize) && final(self)@ == (
            crate::machine::Machine { frames: old(self)@.frames.push(env@), ..old(self)@ }),
            match env@.parent {
                Some(p) => p >= old(self)@.frames.len(),
                None => false,
            } ==> r is Err && r->Err_0@ == semantics::unexpected() && final(self)@ == old(self)@,
    {
        self.env_arena.insert(env)
    }
}

} // verus!
