use vstd::prelude::*;
use vstd::string::StringExecFns;
use crate::error::{Error, Fault};
use crate::expression::{Expression, Term};

verus! {

/// The mathematical value of an [`Environment`]: what each name is bound to, and
/// the handle of the enclosing scope.
pub struct Frame {
    pub parent: Option<usize>,
    pub record: Map<Seq<char>, Term>,
}

/// The map that a list of bindings stands for; of two bindings of one name, the
/// later one counts.
pub open spec fn record_of(names: Seq<String>, values: Seq<Expression>) -> Map<Seq<char>, Term>
    decreases names.len(),
{
    if names.len() == 0 || values.len() != names.len() {
        Map::empty()
    } else {
        record_of(names.drop_last(), values.drop_last()).insert(names.last()@, values.last()@)
    }
}

/// The map that a list of pairs stands for; of two pairs with one name, the later
/// one counts.
pub open spec fn record_of_pairs(pairs: Seq<(String, Expression)>) -> Map<Seq<char>, Term>
    decreases pairs.len(),
{
    if pairs.len() == 0 {
        Map::empty()
    } else {
        record_of_pairs(pairs.drop_last()).insert(pairs.last().0@, pairs.last().1@)
    }
}

/// No two of the names are equal.
pub open spec fn distinct(names: Seq<String>) -> bool {
    forall|i: int, j: int| 0 <= i < j < names.len() ==> names[i]@ != names[j]@
}

/// A name that stands at index `i` is bound to the value at index `i`.
pub proof fn lemma_record_at(names: Seq<String>, values: Seq<Expression>, i: int)
    requires
        names.len() == values.len(),
        distinct(names),
        0 <= i < names.len(),
    ensures
        record_of(names, values).contains_key(names[i]@),
        record_of(names, values)[names[i]@] == values[i]@,
    decreases names.len(),
{
    if i < names.len() - 1 {
        lemma_record_at(names.drop_last(), values.drop_last(), i);
    }
}

/// A name that stands at no index is not bound.
pub proof fn lemma_record_absent(names: Seq<String>, values: Seq<Expression>, name: Seq<char>)
    requires
        names.len() == values.len(),
        forall|i: int| 0 <= i < names.len() ==> names[i]@ != name,
    ensures
        !record_of(names, values).contains_key(name),
    decreases names.len(),
{
    if names.len() > 0 {
        lemma_record_absent(names.drop_last(), values.drop_last(), name);
    }
}

/// Replacing the value at index `i` rebinds the name at index `i`, and nothing else.
pub proof fn lemma_record_update(
    names: Seq<String>,
    values: Seq<Expression>,
    i: int,
    value: Expression,
)
    requires
        names.len() == values.len(),
        distinct(names),
        0 <= i < names.len(),
    ensures
        record_of(names, values.update(i, value)) == record_of(names, values).insert(
            names[i]@,
            value@,
        ),
    decreases names.len(),
{
    let after = values.update(i, value);
    if i < names.len() - 1 {
        lemma_record_update(names.drop_last(), values.drop_last(), i, value);
        assert(after.drop_last() =~= values.drop_last().update(i, value));
        assert(record_of(names, after) =~= record_of(names, values).insert(names[i]@, value@));
    } else {
        assert(after.drop_last() =~= values.drop_last());
        assert(record_of(names, after) =~= record_of(names, values).insert(names[i]@, value@));
    }
}

/// One scope: its own bindings, and the handle of the scope around it.
#[derive(Debug, PartialEq)]
pub struct Environment {
    pub parent: Option<usize>,
    pub names: Vec<String>,
    pub values: Vec<Expression>,
}

impl View for Environment {
    type V = Frame;

    open spec fn view(&self) -> Frame {
        Frame { parent: self.parent, record: record_of(self.names@, self.values@) }
    }
}

impl Environment {
    /// Each name has its value, and no name stands twice.
    pub open spec fn wf(&self) -> bool {
        &&& self.names@.len() == self.values@.len()
        &&& distinct(self.names@)
    }

    /// The index at which `name` stands, if it is bound here.
    pub fn position(&self, name: &String) -> (r: Option<usize>)
        requires
            self.wf(),
        ensures
            match r {
                Some(i) => i < self.names@.len() && self.names@[i as int]@ == name@,
                None => forall|i: int| 0 <= i < self.names@.len() ==> self.names@[i]@ != name@,
            },
            r is Some <==> self@.record.contains_key(name@),
            r is Some ==> self@.record[name@] == self.values@[r.unwrap() as int]@,
    {
        let mut i: usize = 0;
        while i < self.names.len()
            invariant
                self.wf(),
                i <= self.names@.len(),
                forall|j: int| 0 <= j < i ==> self.names@[j]@ != name@,
            decreases self.names.len() - i,
        {
            if self.names[i] == *name {
                proof {
                    lemma_record_at(self.names@, self.values@, i as int);
                }
                return Some(i);
            }
            i += 1;
        }
        proof {
            lemma_record_absent(self.names@, self.values@, name@);
        }
        None
    }

    /// A scope without a parent that binds nothing.
    pub fn empty() -> (r: Environment)
        ensures
            r.wf(),
            r@ == (Frame { parent: None, record: Map::empty() }),
    {
        Environment { parent: None, names: Vec::new(), values: Vec::new() }
    }

    /// The outermost scope, in which `nil`, `true` and `false` are bound.
    pub fn new() -> (r: Environment)
        ensures
            r.wf(),
            r@.parent is None,
            r@.record == Map::<Seq<char>, Term>::empty().insert("nil"@, Term::Void).insert(
                "true"@,
                Term::Boolean(true),
            ).insert("false"@, Term::Boolean(false)),
    {
        let mut env = Environment::empty();
        env.bind(String::from_str("nil"), Expression::Void);
        env.bind(String::from_str("true"), Expression::Boolean(true));
        env.bind(String::from_str("false"), Expression::Boolean(false));
        env
    }

    /// An empty scope inside the scope with handle `parent`.
    pub fn extend(parent: usize) -> (r: Environment)
        ensures
            r.wf(),
            r@ == (Frame { parent: Some(parent), record: Map::empty() }),
    {
        Environment { parent: Some(parent), names: Vec::new(), values: Vec::new() }
    }

    /// A scope without a parent that holds the given bindings; of two bindings of
    /// one name, the later one counts.
    pub fn from(record: Vec<(String, Expression)>) -> (r: Environment)
        ensures
            r.wf(),
            r@ == (Frame { parent: None, record: record_of_pairs(record@) }),
    {
        let mut env = Environment::empty();
        let mut i: usize = 0;
        while i < record.len()
            invariant
                i <= record@.len(),
                env.wf(),
                env.parent is None,
                env@.record == record_of_pairs(record@.take(i as int)),
            decreases record.len() - i,
        {
            proof {
                assert(record@.take(i + 1).drop_last() =~= record@.take(i as int));
            }
            env.bind(record[i].0.clone(), record[i].1.copy());
            i += 1;
        }
        proof {
            assert(record@.take(i as int) =~= record@);
        }
        env
    }

    /// Binds `name` to `value` in this scope, replacing what it was bound to.
    pub fn bind(&mut self, name: String, value: Expression)
        requires
            old(self).wf(),
        ensures
            final(self).wf(),
            final(self)@.parent == old(self)@.parent,
            final(self)@.record == old(self)@.record.insert(name@, value@),
    {
        match self.position(&name) {
            Some(i) => {
                proof {
                    lemma_record_update(self.names@, self.values@, i as int, value);
                }
                self.values[i] = value;
            },
            None => {
                proof {
                    assert(self.names@.push(name).drop_last() =~= self.names@);
                    assert(self.values@.push(value).drop_last() =~= self.values@);
                }
                self.names.push(name);
                self.values.push(value);
            },
        }
    }

    /// Binds `name` to `value` in this scope, whatever the scopes around it hold,
    /// and returns the value.
    pub fn define(&mut self, name: &str, value: Expression) -> (r: Result<Expression, Error>)
        requires
            old(self).wf(),
        ensures
            final(self).wf(),
            final(self)@.parent == old(self)@.parent,
            final(self)@.record == old(self)@.record.insert(name@, value@),
            r is Ok,
            r->Ok_0@ == value@,
    {
        let kept = value.copy();
        self.bind(String::from_str(name), value);
        Ok(kept)
    }

    /// What `name` is bound to in this scope itself.
    pub fn get(&self, name: &str) -> (r: Option<Expression>)
        requires
            self.wf(),
        ensures
            r is Some <==> self@.record.contains_key(name@),
            r is Some ==> r->Some_0@ == self@.record[name@],
    {
        let key = String::from_str(name);
        match self.position(&key) {
            Some(i) => Some(self.values[i].copy()),
            None => None,
        }
    }
}

impl Default for Environment {
    /// A scope without a parent that binds nothing.
    fn default() -> (r: Environment)
        ensures
            r.wf(),
            r@ == (Frame { parent: None, record: Map::empty() }),
    {
        Environment::empty()
    }
}

/// In every frame the parent's handle is smaller than the frame's own: each scope
/// was made inside one that was there before it.
pub open spec fn rooted(frames: Seq<Frame>) -> bool {
    forall|i: int|
        0 <= i < frames.len() ==> match (#[trigger] frames[i]).parent {
            Some(p) => p < i,
            None => true,
        }
}

/// The innermost scope that binds `name`, going outward from `env`.
pub open spec fn resolve(frames: Seq<Frame>, env: usize, name: Seq<char>) -> Option<usize>
    decreases env,
{
    if env >= frames.len() {
        None
    } else if frames[env as int].record.contains_key(name) {
        Some(env)
    } else {
        match frames[env as int].parent {
            Some(p) => if p < env {
                resolve(frames, p, name)
            } else {
                None
            },
            None => None,
        }
    }
}

/// The fault for a name that no reachable scope binds.
pub open spec fn undefined(name: Seq<char>) -> Fault {
    Fault::Reference(name + " is not defined"@)
}

/// What `name` means in the scope `env`: its binding in the innermost scope that
/// has one.
pub open spec fn lookup(frames: Seq<Frame>, env: usize, name: Seq<char>) -> Result<Term, Fault> {
    match resolve(frames, env, name) {
        Some(scope) => Ok(frames[scope as int].record[name]),
        None => Err(undefined(name)),
    }
}

/// The frames after `name` is bound to `value` in the scope `env` itself.
pub open spec fn defined(frames: Seq<Frame>, env: usize, name: Seq<char>, value: Term) -> Seq<
    Frame,
> {
    if env < frames.len() {
        frames.update(
            env as int,
            Frame {
                parent: frames[env as int].parent,
                record: frames[env as int].record.insert(name, value),
            },
        )
    } else {
        frames
    }
}

/// The frames after `name` is rebound in the innermost scope that binds it; the
/// same frames where no scope does.
pub open spec fn assigned(frames: Seq<Frame>, env: usize, name: Seq<char>, value: Term) -> Seq<
    Frame,
> {
    match resolve(frames, env, name) {
        Some(scope) => defined(frames, scope, name, value),
        None => frames,
    }
}

/// The scope `outer` is `inner` itself or lies on its chain of parents.
pub open spec fn encloses(frames: Seq<Frame>, outer: usize, inner: usize) -> bool
    decreases inner,
{
    inner < frames.len() && (inner == outer || match frames[inner as int].parent {
        Some(p) => p < inner && encloses(frames, outer, p),
        None => false,
    })
}

/// Some scope from `inner` outward, before `outer` is reached, binds `name`.
pub open spec fn shadowed(frames: Seq<Frame>, outer: usize, inner: usize, name: Seq<char>) -> bool
    decreases inner,
{
    inner < frames.len() && inner != outer && (frames[inner as int].record.contains_key(name)
        || match frames[inner as int].parent {
        Some(p) => p < inner && shadowed(frames, outer, p, name),
        None => false,
    })
}

/// A name defined in a scope is found with that value from the scope itself and
/// from every scope inside it, as long as no scope in between binds the name.
pub proof fn lemma_define_then_lookup(
    frames: Seq<Frame>,
    scope: usize,
    from: usize,
    name: Seq<char>,
    value: Term,
)
    requires
        encloses(frames, scope, from),
        !shadowed(frames, scope, from, name),
    ensures
        lookup(defined(frames, scope, name, value), from, name) == Ok::<Term, Fault>(value),
    decreases from,
{
    let after = defined(frames, scope, name, value);
    lemma_encloses_bound(frames, scope, from);
    if from != scope {
        let p = frames[from as int].parent->Some_0;
        lemma_define_then_lookup(frames, scope, p, name, value);
        assert(after[from as int] == frames[from as int]);
    }
}

/// A scope that encloses another is a frame of the arena.
pub proof fn lemma_encloses_bound(frames: Seq<Frame>, outer: usize, inner: usize)
    requires
        encloses(frames, outer, inner),
    ensures
        outer < frames.len(),
        outer <= inner,
    decreases inner,
{
    if inner != outer {
        lemma_encloses_bound(frames, outer, frames[inner as int].parent->Some_0);
    }
}

/// A binding made in one scope changes no lookup of another name.
pub proof fn lemma_define_keeps_others(
    frames: Seq<Frame>,
    scope: usize,
    from: usize,
    name: Seq<char>,
    value: Term,
    other: Seq<char>,
)
    requires
        other != name,
    ensures
        lookup(defined(frames, scope, name, value), from, other) == lookup(frames, from, other),
    decreases from,
{
    let after = defined(frames, scope, name, value);
    if from < frames.len() {
        if !frames[from as int].record.contains_key(other) {
            match frames[from as int].parent {
                Some(p) => {
                    if p < from {
                        lemma_define_keeps_others(frames, scope, p, name, value, other);
                    }
                },
                None => {},
            }
        }
    }
}

/// A binding made in a scope is not seen from a scope that was made before it:
/// what a block defines is gone for the scopes around the block.
pub proof fn lemma_inner_define_invisible(
    frames: Seq<Frame>,
    inner: usize,
    from: usize,
    name: Seq<char>,
    value: Term,
    other: Seq<char>,
)
    requires
        from < inner,
    ensures
        lookup(defined(frames, inner, name, value), from, other) == lookup(frames, from, other),
    decreases from,
{
    if from < frames.len() {
        if !frames[from as int].record.contains_key(other) {
            match frames[from as int].parent {
                Some(p) => {
                    if p < from {
                        lemma_inner_define_invisible(frames, inner, p, name, value, other);
                    }
                },
                None => {},
            }
        }
    }
}

/// A new frame changes no lookup from the scopes that were there before.
pub proof fn lemma_push_keeps_lookup(frames: Seq<Frame>, frame: Frame, from: usize, name: Seq<char>)
    requires
        from < frames.len(),
    ensures
        lookup(frames.push(frame), from, name) == lookup(frames, from, name),
        resolve(frames.push(frame), from, name) == resolve(frames, from, name),
    decreases from,
{
    if !frames[from as int].record.contains_key(name) {
        match frames[from as int].parent {
            Some(p) => {
                if p < from {
                    lemma_push_keeps_lookup(frames, frame, p, name);
                }
            },
            None => {},
        }
    }
}

/// Every scope ever made, each under the handle it was given: closures and
/// objects refer to their scopes by handle, and a handle is never taken back.
#[derive(Debug, PartialEq)]
pub struct Arena {
    pub frames: Vec<Environment>,
}

impl View for Arena {
    type V = Seq<Frame>;

    open spec fn view(&self) -> Seq<Frame> {
        Seq::new(self.frames@.len(), |i: int| self.frames@[i]@)
    }
}

impl Arena {
    /// Every frame is well formed, and parents precede their children.
    pub open spec fn wf(&self) -> bool {
        &&& forall|i: int| 0 <= i < self.frames@.len() ==> (#[trigger] self.frames@[i]).wf()
        &&& rooted(self@)
    }

    /// An arena without frames.
    pub fn new() -> (r: Arena)
        ensures
            r.wf(),
            r@ == Seq::<Frame>::empty(),
    {
        let r = Arena { frames: Vec::new() };
        assert(r@ =~= Seq::<Frame>::empty());
        r
    }

    /// The number of frames, which is the handle that the next frame gets.
    pub fn len(&self) -> (r: usize)
        ensures
            r == self@.len(),
    {
        self.frames.len()
    }

    /// Takes `env` in and returns its handle; refuses a scope whose parent is no
    /// frame of this arena.
    pub fn insert(&mut self, env: Environment) -> (r: Result<usize, Error>)
        requires
            old(self).wf(),
            env.wf(),
        ensures
            final(self).wf(),
            match env@.parent {
                Some(p) => p < old(self)@.len(),
                None => true,
            } ==> r == Ok::<usize, Error>(old(self)@.len() as usize) && final(self)@ == old(
                self,
            )@.push(env@),
            match env@.parent {
                Some(p) => p >= old(self)@.len(),
                None => false,
            } ==> r is Err && r->Err_0@ == Fault::Reason("unexpected error"@) && final(self)@
                == old(self)@,
    {
        let known = match env.parent {
            Some(p) => p < self.frames.len(),
            None => true,
        };
        if known {
            let handle = self.frames.len();
            self.frames.push(env);
            proof {
                assert(self@ =~= old(self)@.push(env@));
            }
            Ok(handle)
        } else {
            Err(Error::reason("unexpected error"))
        }
    }

    /// Makes an empty scope inside the scope `parent` and returns its handle;
    /// refuses a parent that is no frame of this arena.
    pub fn extend(&mut self, parent: usize) -> (r: Result<usize, Error>)
        requires
            old(self).wf(),
        ensures
            final(self).wf(),
            parent < old(self)@.len() ==> r == Ok::<usize, Error>(old(self)@.len() as usize)
                && final(self)@ == old(self)@.push(
                Frame { parent: Some(parent), record: Map::empty() },
            ),
            parent >= old(self)@.len() ==> r is Err && r->Err_0@ == Fault::Reason(
                "unexpected error"@,
            ) && final(self)@ == old(self)@,
    {
        self.insert(Environment::extend(parent))
    }

    /// The innermost scope that binds `name`, going outward from `env`.
    pub fn resolve(&self, env: usize, name: &String) -> (r: Option<usize>)
        requires
            self.wf(),
        ensures
            r == resolve(self@, env, name@),
            r is Some ==> r->Some_0 < self@.len() && self@[r->Some_0 as int].record.contains_key(
                name@,
            ),
    {
        let mut current = env;
        loop
            invariant
                self.wf(),
                resolve(self@, env, name@) == resolve(self@, current, name@),
            decreases current,
        {
            if current >= self.frames.len() {
                return None;
            }
            if self.frames[current].position(name).is_some() {
                return Some(current);
            }
            match self.frames[current].parent {
                Some(p) => {
                    if p < current {
                        current = p;
                    } else {
                        return None;
                    }
                },
                None => {
                    return None;
                },
            }
        }
    }

    /// What `name` means in the scope `env`; a reference error where no scope from
    /// `env` outward binds it.
    pub fn lookup(&self, env: usize, name: &str) -> (r: Result<Expression, Error>)
        requires
            self.wf(),
        ensures
            match r {
                Ok(value) => lookup(self@, env, name@) == Ok::<Term, Fault>(value@),
                Err(e) => lookup(self@, env, name@) == Err::<Term, Fault>(e@),
            },
    {
        let key = String::from_str(name);
        match self.resolve(env, &key) {
            Some(scope) => {
                assert(self@[scope as int] == self.frames@[scope as int]@);
                match self.frames[scope].position(&key) {
                    Some(i) => Ok(self.frames[scope].values[i].copy()),
                    None => Err(Error::undefined(name)),
                }
            },
            None => Err(Error::undefined(name)),
        }
    }

    /// Binds `name` to `value` in the scope `env` itself and returns the value;
    /// refuses a handle that is no frame of this arena.
    pub fn define(&mut self, env: usize, name: &str, value: Expression) -> (r: Result<
        Expression,
        Error,
    >)
        requires
            old(self).wf(),
        ensures
            final(self).wf(),
            final(self)@ == defined(old(self)@, env, name@, value@),
            env < old(self)@.len() ==> r is Ok && r->Ok_0@ == value@,
            env >= old(self)@.len() ==> r is Err && r->Err_0@ == Fault::Reason(
                "unexpected error"@,
            ),
    {
        if env < self.frames.len() {
            let kept = value.copy();
            self.frames[env].bind(String::from_str(name), value);
            proof {
                assert(self@ =~= defined(old(self)@, env, name@, value@));
                assert forall|i: int| 0 <= i < self.frames@.len() implies (
                #[trigger] self.frames@[i]).wf() by {
                    if i != env {
                        assert(self.frames@[i] == old(self).frames@[i]);
                    }
                }
            }
            Ok(kept)
        } else {
            Err(Error::reason("unexpected error"))
        }
    }

    /// Rebinds `name` to `value` in the innermost scope from `env` outward that
    /// binds it, and returns the value; where none does, nothing changes and a
    /// reference error comes back.
    pub fn assign(&mut self, env: usize, name: &str, value: Expression) -> (r: Result<
        Expression,
        Error,
    >)
        requires
            old(self).wf(),
        ensures
            final(self).wf(),
            final(self)@ == assigned(old(self)@, env, name@, value@),
            resolve(old(self)@, env, name@) is Some ==> r is Ok && r->Ok_0@ == value@,
            resolve(old(self)@, env, name@) is None ==> r is Err && r->Err_0@ == undefined(name@),
    {
        let key = String::from_str(name);
        match self.resolve(env, &key) {
            Some(scope) => self.define(scope, name, value),
            None => Err(Error::undefined(name)),
        }
    }
}

/// What `name` means in a scope that holds `frame` and whose parents are frames
/// of `frames`.
pub open spec fn lookup_from(frame: Frame, frames: Seq<Frame>, name: Seq<char>) -> Result<
    Term,
    Fault,
> {
    if frame.record.contains_key(name) {
        Ok(frame.record[name])
    } else {
        match frame.parent {
            Some(p) => lookup(frames, p, name),
            None => Err(undefined(name)),
        }
    }
}

/// The scope and the frames around it after `name` is rebound in the innermost
/// scope that binds it; both unchanged where none does.
pub open spec fn assigned_from(frame: Frame, frames: Seq<Frame>, name: Seq<char>, value: Term) -> (
    Frame,
    Seq<Frame>,
) {
    if frame.record.contains_key(name) {
        (Frame { parent: frame.parent, record: frame.record.insert(name, value) }, frames)
    } else {
        match frame.parent {
            Some(p) => (frame, assigned(frames, p, name, value)),
            None => (frame, frames),
        }
    }
}

impl Environment {
    /// What `name` means in this scope: its binding here, or else in the
    /// innermost scope around this one that has one; a reference error where
    /// none has.
    pub fn lookup(&self, name: &str, arena: &Arena) -> (r: Result<Expression, Error>)
        requires
            self.wf(),
            arena.wf(),
        ensures
            match r {
                Ok(value) => lookup_from(self@, arena@, name@) == Ok::<Term, Fault>(value@),
                Err(e) => lookup_from(self@, arena@, name@) == Err::<Term, Fault>(e@),
            },
    {
        match self.get(name) {
            Some(value) => Ok(value),
            None => match self.parent {
                Some(p) => arena.lookup(p, name),
                None => Err(Error::undefined(name)),
            },
        }
    }

    /// Rebinds `name` to `value` in the innermost scope that binds it, this one
    /// or one around it, and returns the value; where none does, nothing
    /// changes and a reference error comes back.
    pub fn assign(&mut self, name: &str, value: Expression, arena: &mut Arena) -> (r: Result<
        Expression,
        Error,
    >)
        requires
            old(self).wf(),
            old(arena).wf(),
        ensures
            final(self).wf(),
            final(arena).wf(),
            (final(self)@, final(arena)@) == assigned_from(
                old(self)@,
                old(arena)@,
                name@,
                value@,
            ),
            match lookup_from(old(self)@, old(arena)@, name@) {
                Ok(_) => r is Ok && r->Ok_0@ == value@,
                Err(e) => r is Err && r->Err_0@ == e,
            },
    {
        let key = String::from_str(name);
        if self.position(&key).is_some() {
            self.define(name, value)
        } else {
            match self.parent {
                Some(p) => arena.assign(p, name, value),
                None => Err(Error::undefined(name)),
            }
        }
    }
}

} // verus!
