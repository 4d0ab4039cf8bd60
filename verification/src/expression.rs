use vstd::prelude::*;
use vstd::string::StringExecFns;

verus! {

/// An object handle: the frame that holds the object's members, and the object
/// that `super` yields for it.
#[derive(Debug, PartialEq)]
pub struct Object {
    pub idx: usize,
    pub parent: Option<Box<Object>>,
}

/// The mathematical value of an [`Object`].
pub struct ObjectModel {
    pub idx: usize,
    pub parent: Option<Box<ObjectModel>>,
}

impl Object {
    /// The value of this object, parents included.
    pub open spec fn model(&self) -> ObjectModel
        decreases self,
    {
        ObjectModel {
            idx: self.idx,
            parent: match self.parent {
                Some(p) => Some(Box::new(p.model())),
                None => None,
            },
        }
    }
}

impl View for Object {
    type V = ObjectModel;

    open spec fn view(&self) -> ObjectModel {
        self.model()
    }
}

/// Syntax and runtime values alike.
#[derive(Debug, PartialEq)]
pub enum Expression {
    Void,
    Boolean(bool),
    Number(u64),
    String(String),
    Symbol(String),
    List(Vec<Expression>),
    Function(Vec<String>, Box<Expression>, usize),
    Object(Object),
}

/// The mathematical value of an [`Expression`].
pub enum Term {
    Void,
    Boolean(bool),
    Number(u64),
    Text(Seq<char>),
    Symbol(Seq<char>),
    List(Seq<Term>),
    Function(Seq<Seq<char>>, Box<Term>, usize),
    Object(ObjectModel),
}

impl Expression {
    /// The value of this expression, with every text and list by its contents.
    pub open spec fn term(&self) -> Term
        decreases self,
    {
        match self {
            Expression::Void => Term::Void,
            Expression::Boolean(b) => Term::Boolean(*b),
            Expression::Number(n) => Term::Number(*n),
            Expression::String(s) => Term::Text(s@),
            Expression::Symbol(s) => Term::Symbol(s@),
            Expression::List(items) => Term::List(
                Seq::new(
                    items@.len(),
                    |i: int|
                        if 0 <= i < items@.len() {
                            items@[i].term()
                        } else {
                            Term::Void
                        },
                ),
            ),
            Expression::Function(params, body, env) => Term::Function(
                Seq::new(params@.len(), |i: int| params@[i]@),
                Box::new(body.term()),
                *env,
            ),
            Expression::Object(o) => Term::Object(o.model()),
        }
    }
}

impl View for Expression {
    type V = Term;

    open spec fn view(&self) -> Term {
        self.term()
    }
}

/// The values of a list's items, in order.
pub open spec fn terms(items: Seq<Expression>) -> Seq<Term> {
    Seq::new(items.len(), |i: int| items[i]@)
}

/// The contents of each text of a list, in order.
pub open spec fn texts(names: Seq<String>) -> Seq<Seq<char>> {
    Seq::new(names.len(), |i: int| names[i]@)
}

/// A list's value is the list of its items' values.
pub proof fn lemma_list_term(items: Vec<Expression>)
    ensures
        Expression::List(items)@ == Term::List(terms(items@)),
{
    assert(Expression::List(items).term().arrow_List_0() =~= terms(items@));
}

/// A function's value holds its parameters' names, its body's value and its frame.
pub proof fn lemma_function_term(params: Vec<String>, body: Box<Expression>, env: usize)
    ensures
        Expression::Function(params, body, env)@ == Term::Function(
            texts(params@),
            Box::new(body@),
            env,
        ),
{
    assert(Expression::Function(params, body, env).term().arrow_Function_0() =~= texts(params@));
}

/// A copy of a list of names.
pub fn copy_names(names: &Vec<String>) -> (r: Vec<String>)
    ensures
        texts(r@) == texts(names@),
{
    let mut out: Vec<String> = Vec::new();
    let mut i: usize = 0;
    while i < names.len()
        invariant
            i <= names.len(),
            out@.len() == i,
            forall|j: int| 0 <= j < i ==> out@[j]@ == names@[j]@,
        decreases names.len() - i,
    {
        out.push(names[i].clone());
        i += 1;
    }
    assert(texts(out@) =~= texts(names@));
    out
}

/// A copy of a list of expressions.
pub fn copy_list(items: &Vec<Expression>) -> (r: Vec<Expression>)
    ensures
        terms(r@) == terms(items@),
    decreases items,
{
    let mut out: Vec<Expression> = Vec::new();
    let mut i: usize = 0;
    while i < items.len()
        invariant
            i <= items.len(),
            out@.len() == i,
            forall|j: int| 0 <= j < i ==> out@[j]@ == items@[j]@,
        decreases items.len() - i,
    {
        out.push(items[i].copy());
        i += 1;
    }
    assert(terms(out@) =~= terms(items@));
    out
}

impl Object {
    /// A copy with the same value.
    pub fn copy(&self) -> (r: Object)
        ensures
            r@ == self@,
        decreases self,
    {
        let parent = match &self.parent {
            Some(p) => Some(Box::new(p.copy())),
            None => None,
        };
        Object { idx: self.idx, parent }
    }
}

impl Expression {
    /// A copy with the same value.
    pub fn copy(&self) -> (r: Expression)
        ensures
            r@ == self@,
        decreases self,
    {
        match self {
            Expression::Void => Expression::Void,
            Expression::Boolean(b) => Expression::Boolean(*b),
            Expression::Number(n) => Expression::Number(*n),
            Expression::String(s) => Expression::String(s.clone()),
            Expression::Symbol(s) => Expression::Symbol(s.clone()),
            Expression::List(items) => {
                let out = copy_list(items);
                proof {
                    lemma_list_term(out);
                    lemma_list_term(*items);
                }
                Expression::List(out)
            },
            Expression::Function(params, body, env) => {
                let names = copy_names(params);
                let inner = Box::new(body.copy());
                proof {
                    lemma_function_term(names, inner, *env);
                    lemma_function_term(*params, *body, *env);
                }
                Expression::Function(names, inner, *env)
            },
            Expression::Object(o) => Expression::Object(o.copy()),
        }
    }

    /// The symbol with the given name.
    pub fn symbol(name: &str) -> (r: Expression)
        ensures
            r@ == Term::Symbol(name@),
    {
        Expression::Symbol(String::from_str(name))
    }
}

/// The bits of the number one.
pub const ONE: u64 = 0x3FF0_0000_0000_0000u64;

/// The bits of the number zero.
pub const ZERO: u64 = 0u64;

/// The mathematical value of a result of the library.
pub open spec fn outcome(r: Result<Expression, crate::error::Error>) -> Result<
    Term,
    crate::error::Fault,
> {
    match r {
        Ok(e) => Ok(e@),
        Err(e) => Err(e@),
    }
}

/// How a result of the library stands for a result over values.
pub open spec fn agrees(r: Result<Expression, crate::error::Error>, m: Result<
    Term,
    crate::error::Fault,
>) -> bool {
    match r {
        Ok(e) => m == Ok::<Term, crate::error::Fault>(e@),
        Err(e) => m == Err::<Term, crate::error::Fault>(e@),
    }
}

/// The list of the given items.
pub fn list_of(items: Vec<Expression>) -> (r: Expression)
    ensures
        r@ == Term::List(terms(items@)),
{
    proof {
        lemma_list_term(items);
    }
    Expression::List(items)
}

/// The list of three items.
pub fn list3(a: Expression, b: Expression, c: Expression) -> (r: Expression)
    ensures
        r@ == Term::List(seq![a@, b@, c@]),
{
    let items = vec![a, b, c];
    assert(terms(items@) =~= seq![a@, b@, c@]);
    list_of(items)
}

/// The list of four items.
pub fn list4(a: Expression, b: Expression, c: Expression, d: Expression) -> (r: Expression)
    ensures
        r@ == Term::List(seq![a@, b@, c@, d@]),
{
    let items = vec![a, b, c, d];
    assert(terms(items@) =~= seq![a@, b@, c@, d@]);
    list_of(items)
}

/// Whether `e` is the symbol `name`.
pub fn is_symbol(e: &Expression, name: &str) -> (r: bool)
    ensures
        r == (e@ == Term::Symbol(name@)),
{
    match e {
        Expression::Symbol(s) => *s == String::from_str(name),
        _ => false,
    }
}

impl Clone for Object {
    fn clone(&self) -> (r: Object)
        ensures
            r@ == self@,
    {
        self.copy()
    }
}

impl Clone for Expression {
    fn clone(&self) -> (r: Expression)
        ensures
            r@ == self@,
    {
        self.copy()
    }
}

} // verus!
