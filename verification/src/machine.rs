use vstd::prelude::*;
use crate::environment::{Arena, Frame};
use crate::error::{Error, Fault};
use crate::expression::{terms, texts, Expression, Object, ObjectModel, Term};
use crate::operator::Operator;
use crate::text::Order;

verus! {

/// What waits for the value of the expression that is being evaluated.
#[derive(Debug, PartialEq)]
pub enum Pending {
    /// `var`: the value is bound to `name` in `env` itself.
    Define { name: String, env: usize },
    /// `set` on a name: the value replaces the innermost binding of `name`.
    Assign { name: String, env: usize },
    /// `set` on a property: the value is at hand next, and then the object.
    Field { instance: Expression, name: String, env: usize },
    /// `set` on a property: the object comes, and `value` goes into its frame.
    Store { name: String, value: Expression },
    /// `if`: the condition's value picks one of the two.
    Branch { consequent: Expression, alternate: Expression, env: usize },
    /// `while`: the condition's value says whether the body runs once more;
    /// `last` is what the body gave last.
    Test { condition: Expression, body: Expression, env: usize, last: Expression },
    /// `while`: the body's value is kept, and the condition is asked again.
    Again { condition: Expression, body: Expression, env: usize },
    /// A sequence: `items[next]` is evaluated next, in `env`.
    Sequence { items: Vec<Expression>, next: usize, env: usize },
    /// An operator: the left operand's value comes, the right one is next.
    Left { op: Operator, right: Expression, env: usize },
    /// An operator: the right operand's value comes.
    Right { op: Operator, left: Expression },
    /// A form whose head is no symbol: the head's value says whether it is a
    /// call from `env`, or a sequence that goes on in `frame`.
    Head { list: Vec<Expression>, env: usize, frame: usize },
    /// A call: the value of `list[next]` comes and is bound to its parameter in
    /// the frame `activation`.
    Argument {
        params: Vec<String>,
        list: Vec<Expression>,
        next: usize,
        caller: usize,
        activation: usize,
        body: Expression,
    },
    /// `class`: the parent's value comes.
    Parent { name: String, body: Expression, env: usize },
    /// `class`: the body has been evaluated in `frame`.
    Class { name: String, env: usize, frame: usize, parent: Option<Object> },
    /// `new`: the class's value comes.
    Instantiate { list: Vec<Expression>, env: usize },
    /// `new`: the constructor has run in `frame`.
    Instance { frame: usize, parent: Option<Object> },
    /// `prop`: the object comes, and `name` is looked up from its frame.
    Member { name: String },
    /// `super`: the object comes, and its parent is the result.
    Super,
    /// `print`: the value of `items[next - 1]` comes and joins `shown`.
    Show { items: Vec<Expression>, next: usize, env: usize, shown: Vec<Expression> },
}

/// The mathematical value of an optional [`Object`].
pub open spec fn object_model(o: Option<Object>) -> Option<ObjectModel> {
    match o {
        Some(obj) => Some(obj@),
        None => None,
    }
}

/// The mathematical value of a [`Pending`].
pub enum PendingModel {
    Define { name: Seq<char>, env: usize },
    Assign { name: Seq<char>, env: usize },
    Field { instance: Term, name: Seq<char>, env: usize },
    Store { name: Seq<char>, value: Term },
    Branch { consequent: Term, alternate: Term, env: usize },
    Test { condition: Term, body: Term, env: usize, last: Term },
    Again { condition: Term, body: Term, env: usize },
    Sequence { items: Seq<Term>, next: usize, env: usize },
    Left { op: Operator, right: Term, env: usize },
    Right { op: Operator, left: Term },
    Head { list: Seq<Term>, env: usize, frame: usize },
    Argument {
        params: Seq<Seq<char>>,
        list: Seq<Term>,
        next: usize,
        caller: usize,
        activation: usize,
        body: Term,
    },
    Parent { name: Seq<char>, body: Term, env: usize },
    Class { name: Seq<char>, env: usize, frame: usize, parent: Option<ObjectModel> },
    Instantiate { list: Seq<Term>, env: usize },
    Instance { frame: usize, parent: Option<ObjectModel> },
    Member { name: Seq<char> },
    Super,
    Show { items: Seq<Term>, next: usize, env: usize, shown: Seq<Term> },
}

impl View for Pending {
    type V = PendingModel;

    open spec fn view(&self) -> PendingModel {
        match self {
            Pending::Define { name, env } => PendingModel::Define { name: name@, env: *env },
            Pending::Assign { name, env } => PendingModel::Assign { name: name@, env: *env },
            Pending::Field { instance, name, env } => PendingModel::Field {
                instance: instance@,
                name: name@,
                env: *env,
            },
            Pending::Store { name, value } => PendingModel::Store { name: name@, value: value@ },
            Pending::Branch { consequent, alternate, env } => PendingModel::Branch {
                consequent: consequent@,
                alternate: alternate@,
                env: *env,
            },
            Pending::Test { condition, body, env, last } => PendingModel::Test {
                condition: condition@,
                body: body@,
                env: *env,
                last: last@,
            },
            Pending::Again { condition, body, env } => PendingModel::Again {
                condition: condition@,
                body: body@,
                env: *env,
            },
            Pending::Sequence { items, next, env } => PendingModel::Sequence {
                items: terms(items@),
                next: *next,
                env: *env,
            },
            Pending::Left { op, right, env } => PendingModel::Left {
                op: *op,
                right: right@,
                env: *env,
            },
            Pending::Right { op, left } => PendingModel::Right { op: *op, left: left@ },
            Pending::Head { list, env, frame } => PendingModel::Head {
                list: terms(list@),
                env: *env,
                frame: *frame,
            },
            Pending::Argument { params, list, next, caller, activation, body } => {
                PendingModel::Argument {
                    params: texts(params@),
                    list: terms(list@),
                    next: *next,
                    caller: *caller,
                    activation: *activation,
                    body: body@,
                }
            },
            Pending::Parent { name, body, env } => PendingModel::Parent {
                name: name@,
                body: body@,
                env: *env,
            },
            Pending::Class { name, env, frame, parent } => PendingModel::Class {
                name: name@,
                env: *env,
                frame: *frame,
                parent: object_model(*parent),
            },
            Pending::Instantiate { list, env } => PendingModel::Instantiate {
                list: terms(list@),
                env: *env,
            },
            Pending::Instance { frame, parent } => PendingModel::Instance {
                frame: *frame,
                parent: object_model(*parent),
            },
            Pending::Member { name } => PendingModel::Member { name: name@ },
            Pending::Super => PendingModel::Super,
            Pending::Show { items, next, env, shown } => PendingModel::Show {
                items: terms(items@),
                next: *next,
                env: *env,
                shown: terms(shown@),
            },
        }
    }
}

/// What the evaluator does next.
#[derive(Debug, PartialEq)]
pub enum Control {
    /// Nothing is being evaluated.
    Idle,
    /// The expression is to be evaluated in the scope.
    Eval(Expression, usize),
    /// The value goes to whatever waits for it.
    Return(Expression),
    /// The result of an arithmetic operation is awaited from outside.
    Number,
    /// The order of two numbers is awaited from outside, for the operator.
    Comparison(Operator),
    /// Values are being printed outside.
    Printed,
    /// The parsed text of a module is awaited from outside, for the `import`
    /// form in the scope.
    Module(Vec<Expression>, usize),
}

/// The mathematical value of a [`Control`].
pub enum ControlModel {
    Idle,
    Eval(Term, usize),
    Return(Term),
    Number,
    Comparison(Operator),
    Printed,
    Module(Seq<Term>, usize),
}

impl View for Control {
    type V = ControlModel;

    open spec fn view(&self) -> ControlModel {
        match self {
            Control::Idle => ControlModel::Idle,
            Control::Eval(e, env) => ControlModel::Eval(e@, *env),
            Control::Return(e) => ControlModel::Return(e@),
            Control::Number => ControlModel::Number,
            Control::Comparison(op) => ControlModel::Comparison(*op),
            Control::Printed => ControlModel::Printed,
            Control::Module(list, env) => ControlModel::Module(terms(list@), *env),
        }
    }
}

/// What a step of the evaluator asks of its caller.
#[derive(Debug, PartialEq)]
pub enum Action {
    /// Nothing: take the next step.
    Continue,
    /// The evaluation has ended with this result.
    Done(Result<Expression, Error>),
    /// Combine the two numbers with the arithmetic operator and answer with the
    /// result.
    Calculate(Operator, u64, u64),
    /// Answer with the order of the two numbers.
    Compare(u64, u64),
    /// Print the values one after the other and end the line.
    Print(Vec<Expression>),
    /// Read and parse the module file at this path and answer with what it
    /// holds.
    Import(String),
}

/// The mathematical value of an [`Action`].
pub enum ActionModel {
    Continue,
    Done(Result<Term, Fault>),
    Calculate(Operator, u64, u64),
    Compare(u64, u64),
    Print(Seq<Term>),
    Import(Seq<char>),
}

impl View for Action {
    type V = ActionModel;

    open spec fn view(&self) -> ActionModel {
        match self {
            Action::Continue => ActionModel::Continue,
            Action::Done(r) => ActionModel::Done(
                match r {
                    Ok(e) => Ok(e@),
                    Err(e) => Err(e@),
                },
            ),
            Action::Calculate(op, a, b) => ActionModel::Calculate(*op, *a, *b),
            Action::Compare(a, b) => ActionModel::Compare(*a, *b),
            Action::Print(values) => ActionModel::Print(terms(values@)),
            Action::Import(path) => ActionModel::Import(path@),
        }
    }
}

/// What the caller answers to an [`Action`].
#[derive(Debug, PartialEq)]
pub enum Event {
    /// Nothing was asked.
    Continue,
    /// The result of the arithmetic operation.
    Number(u64),
    /// The order of the two numbers.
    Order(Order),
    /// What the module file holds, parsed; or why it could not be had.
    Module(Result<Expression, Error>),
}

/// The mathematical value of an [`Event`].
pub enum EventModel {
    Continue,
    Number(u64),
    Order(Order),
    Module(Result<Term, Fault>),
}

impl View for Event {
    type V = EventModel;

    open spec fn view(&self) -> EventModel {
        match self {
            Event::Continue => EventModel::Continue,
            Event::Number(n) => EventModel::Number(*n),
            Event::Order(o) => EventModel::Order(*o),
            Event::Module(r) => EventModel::Module(
                match r {
                    Ok(e) => Ok(e@),
                    Err(e) => Err(e@),
                },
            ),
        }
    }
}

/// The mathematical value of an [`Evaluator`]: the frames, what waits, and what
/// is done next.
pub struct Machine {
    pub path: Seq<char>,
    pub frames: Seq<Frame>,
    pub stack: Seq<PendingModel>,
    pub control: ControlModel,
}

/// The values of what waits, outermost first.
pub open spec fn pendings(stack: Seq<Pending>) -> Seq<PendingModel> {
    Seq::new(stack.len(), |i: int| stack[i]@)
}

/// The interpreter's state between two steps.
#[derive(Debug, PartialEq)]
pub struct Evaluator {
    /// The directory of the file that is being run; module files are looked
    /// for there.
    pub cwf_path: String,
    /// Every scope made so far.
    pub env_arena: Arena,
    /// What waits for a value, outermost first.
    pub stack: Vec<Pending>,
    /// What is done next.
    pub control: Control,
}

impl View for Evaluator {
    type V = Machine;

    open spec fn view(&self) -> Machine {
        Machine {
            path: self.cwf_path@,
            frames: self.env_arena@,
            stack: pendings(self.stack@),
            control: self.control@,
        }
    }
}

/// The machine that stops with a fault: nothing waits any more.
pub open spec fn failed(m: Machine, fault: Fault) -> (Machine, ActionModel) {
    (
        Machine { stack: Seq::empty(), control: ControlModel::Idle, ..m },
        ActionModel::Done(Err(fault)),
    )
}

/// The machine that hands a value to what waits.
pub open spec fn given(m: Machine, value: Term) -> (Machine, ActionModel) {
    (Machine { control: ControlModel::Return(value), ..m }, ActionModel::Continue)
}

/// The machine that evaluates `e` in `env` next.
pub open spec fn going(m: Machine, e: Term, env: usize) -> (Machine, ActionModel) {
    (Machine { control: ControlModel::Eval(e, env), ..m }, ActionModel::Continue)
}

/// The machine that lets `p` wait and evaluates `e` in `env` next.
pub open spec fn pushed(m: Machine, p: PendingModel, e: Term, env: usize) -> (
    Machine,
    ActionModel,
) {
    (
        Machine { stack: m.stack.push(p), control: ControlModel::Eval(e, env), ..m },
        ActionModel::Continue,
    )
}

/// The machine that waits for an answer to `action`.
pub open spec fn asking(m: Machine, control: ControlModel, action: ActionModel) -> (
    Machine,
    ActionModel,
) {
    (Machine { control, ..m }, action)
}

/// The machine with other frames.
pub open spec fn with_frames(m: Machine, frames: Seq<Frame>) -> Machine {
    Machine { frames, ..m }
}

impl Evaluator {
    /// Every scope is well formed.
    pub open spec fn wf(&self) -> bool {
        self.env_arena.wf()
    }

    /// An evaluator without scopes that evaluates nothing.
    pub fn new() -> (r: Evaluator)
        ensures
            r.wf(),
            r@ == (Machine {
                path: Seq::empty(),
                frames: Seq::empty(),
                stack: Seq::empty(),
                control: ControlModel::Idle,
            }),
    {
        let r = Evaluator {
            cwf_path: String::new(),
            env_arena: Arena::new(),
            stack: Vec::new(),
            control: Control::Idle,
        };
        assert(pendings(r.stack@) =~= Seq::empty());
        r
    }

    /// Sets the directory in which module files are looked for.
    pub fn set_cwf_path(&mut self, cwf_path: String)
        ensures
            final(self)@ == (Machine { path: cwf_path@, ..old(self)@ }),
            old(self).wf() ==> final(self).wf(),
    {
        self.cwf_path = cwf_path;
    }

    /// Stops with an error: nothing waits any more.
    pub fn fail(&mut self, error: Error) -> (r: Action)
        ensures
            (final(self)@, r@) == failed(old(self)@, error@),
            final(self).env_arena == old(self).env_arena,
    {
        self.stack = Vec::new();
        self.control = Control::Idle;
        assert(pendings(self.stack@) =~= Seq::empty());
        Action::Done(Err(error))
    }

    /// Hands a value to what waits.
    pub fn give(&mut self, value: Expression) -> (r: Action)
        ensures
            (final(self)@, r@) == given(old(self)@, value@),
            final(self).env_arena == old(self).env_arena,
    {
        self.control = Control::Return(value);
        Action::Continue
    }

    /// Evaluates `e` in `env` next.
    pub fn go(&mut self, e: Expression, env: usize) -> (r: Action)
        ensures
            (final(self)@, r@) == going(old(self)@, e@, env),
            final(self).env_arena == old(self).env_arena,
    {
        self.control = Control::Eval(e, env);
        Action::Continue
    }

    /// Lets `p` wait and evaluates `e` in `env` next.
    pub fn push(&mut self, p: Pending, e: Expression, env: usize) -> (r: Action)
        ensures
            (final(self)@, r@) == pushed(old(self)@, p@, e@, env),
            final(self).env_arena == old(self).env_arena,
    {
        self.stack.push(p);
        self.control = Control::Eval(e, env);
        assert(pendings(self.stack@) =~= pendings(old(self).stack@).push(p@));
        Action::Continue
    }

    /// Waits for an answer to `action`.
    pub fn ask(&mut self, control: Control, action: Action) -> (r: Action)
        ensures
            (final(self)@, r@) == asking(old(self)@, control@, action@),
            final(self).env_arena == old(self).env_arena,
    {
        self.control = control;
        action
    }
}

impl Default for Evaluator {
    /// An evaluator without scopes that evaluates nothing.
    fn default() -> (r: Evaluator)
        ensures
            r.wf(),
            r@ == (Machine {
                path: Seq::empty(),
                frames: Seq::empty(),
                stack: Seq::empty(),
                control: ControlModel::Idle,
            }),
    {
        Evaluator::new()
    }
}

} // verus!
