use vstd::prelude::*;
use crate::environment::{assigned, defined, resolve, Frame};
use crate::expression::Term;
use crate::machine::{ControlModel, EventModel, Machine, PendingModel};
use crate::semantics::{eval_exp, eval_form, extended, idle, resume_with, run, start, step};

verus! {

/// The frames `after` keep all that `before` held: every handle still names a
/// frame, with the parent it had, and every name that was bound is bound.
pub open spec fn keeps(before: Seq<Frame>, after: Seq<Frame>) -> bool {
    &&& before.len() <= after.len()
    &&& forall|i: int|
        0 <= i < before.len() ==> (#[trigger] after[i]).parent == before[i].parent
            && before[i].record.dom().subset_of(after[i].record.dom())
}

/// A new scope keeps all frames.
pub proof fn lemma_extended_keeps(frames: Seq<Frame>, parent: usize)
    ensures
        keeps(frames, extended(frames, parent)),
{
}

/// A binding keeps all frames.
pub proof fn lemma_defined_keeps(frames: Seq<Frame>, env: usize, name: Seq<char>, value: Term)
    ensures
        keeps(frames, defined(frames, env, name, value)),
{
}

/// An assignment keeps all frames.
pub proof fn lemma_assigned_keeps(frames: Seq<Frame>, env: usize, name: Seq<char>, value: Term)
    ensures
        keeps(frames, assigned(frames, env, name, value)),
{
    match resolve(frames, env, name) {
        Some(scope) => lemma_defined_keeps(frames, scope, name, value),
        None => {},
    }
}

/// Keeping is transitive.
pub proof fn lemma_keeps_twice(a: Seq<Frame>, b: Seq<Frame>, c: Seq<Frame>)
    requires
        keeps(a, b),
        keeps(b, c),
    ensures
        keeps(a, c),
{
    assert forall|i: int| 0 <= i < a.len() implies (#[trigger] c[i]).parent == a[i].parent
        && a[i].record.dom().subset_of(c[i].record.dom()) by {
        assert(b[i].parent == a[i].parent);
    }
}

/// Evaluating one expression keeps all frames.
pub proof fn lemma_eval_exp_keeps(m: Machine, e: Term, env: usize)
    ensures
        keeps(m.frames, eval_exp(m, e, env).0.frames),
{
    match e {
        Term::List(list) => {
            if list.len() > 0 {
                match list[0] {
                    Term::Symbol(name) => {
                        lemma_eval_form_keeps(m, name, list, env);
                    },
                    _ => {},
                }
            }
        },
        _ => {},
    }
}

/// Evaluating a form keeps all frames.
pub proof fn lemma_eval_form_keeps(m: Machine, name: Seq<char>, list: Seq<Term>, env: usize)
    ensures
        keeps(m.frames, eval_form(m, name, list, env).0.frames),
{
}

/// Handing a value to what waited for it keeps all frames.
pub proof fn lemma_resume_keeps(m: Machine, p: PendingModel, v: Term)
    ensures
        keeps(m.frames, resume_with(m, p, v).0.frames),
{
    match p {
        PendingModel::Assign { name, env } => {
            lemma_assigned_keeps(m.frames, env, name, v);
        },
        _ => {},
    }
}

/// A step never takes a frame away, never changes the parent of a frame, and
/// never unbinds a name: handles stay good for as long as the evaluator lives.
pub proof fn lemma_step_keeps(m: Machine, event: EventModel)
    ensures
        keeps(m.frames, step(m, event).0.frames),
{
    match m.control {
        ControlModel::Eval(e, env) => {
            lemma_eval_exp_keeps(idle(m), e, env);
        },
        ControlModel::Return(v) => {
            if m.stack.len() > 0 {
                lemma_resume_keeps(
                    Machine { stack: m.stack.drop_last(), control: ControlModel::Idle, ..m },
                    m.stack.last(),
                    v,
                );
            }
        },
        _ => {},
    }
}

/// Starting an evaluation keeps all frames.
pub proof fn lemma_start_keeps(m: Machine, e: Term, env: usize)
    ensures
        keeps(m.frames, start(m, e, env).0.frames),
{
    lemma_eval_exp_keeps(
        Machine { stack: Seq::empty(), control: ControlModel::Idle, ..m },
        e,
        env,
    );
}

/// However many steps are taken, all frames are kept.
pub proof fn lemma_run_keeps(m: Machine, event: EventModel, limit: nat)
    ensures
        keeps(m.frames, run(m, event, limit).0.frames),
    decreases limit,
{
    if limit > 0 {
        let (next, action) = step(m, event);
        lemma_step_keeps(m, event);
        if action is Continue {
            lemma_run_keeps(next, EventModel::Continue, (limit - 1) as nat);
            lemma_keeps_twice(
                m.frames,
                next.frames,
                run(next, EventModel::Continue, (limit - 1) as nat).0.frames,
            );
        }
    }
}

} // verus!
