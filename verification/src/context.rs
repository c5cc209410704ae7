//! Reversible operations on a machine, undone last in, first out.
//!
//! A context is a pair of actions on a machine: one that changes its state
//! when the context is entered, and one that restores it when the context is
//! left. A `ContextMachine` keeps the contexts that were entered on a stack
//! and leaves them in the opposite order. A `ContextGuard` ties one context
//! to a scope of the program.
use vstd::prelude::*;

verus! {

/// The error of `r`, if it has one.
pub open spec fn failure<E>(r: Result<(), E>) -> Option<E> {
    match r {
        Ok(_) => None,
        Err(e) => Some(e),
    }
}

/// A reversible operation on a machine of type `T`.
pub trait Context<T>: Sized {
    /// What can go wrong when the context is entered or left.
    type Error;

    /// Whether entering the context `before` on the machine `machine` may
    /// leave the context as `after` and the machine as `changed`, failing
    /// with `failed` or succeeding where that is `None`.
    open spec fn enters(
        before: &Self,
        machine: &T,
        after: &Self,
        changed: &T,
        failed: Option<Self::Error>,
    ) -> bool {
        true
    }

    /// Whether leaving the context `before` on the machine `machine` may
    /// leave the context as `after` and the machine as `changed`, failing
    /// with `failed` or succeeding where that is `None`.
    open spec fn leaves(
        before: &Self,
        machine: &T,
        after: &Self,
        changed: &T,
        failed: Option<Self::Error>,
    ) -> bool {
        true
    }

    /// Changes the machine; runs when the context is entered.
    fn context_enter(&mut self, machine: &mut T) -> (r: Result<(), Self::Error>)
        ensures
            Self::enters(old(self), old(machine), final(self), final(machine), failure(r)),
    ;

    /// Restores the machine; runs when the context is left.
    fn context_drop(&mut self, machine: &mut T) -> (r: Result<(), Self::Error>)
        ensures
            Self::leaves(old(self), old(machine), final(self), final(machine), failure(r)),
    ;

    /// Whether `label` is the name of this context.
    open spec fn named(&self, label: Seq<char>) -> bool {
        true
    }

    /// A name for this context that a person can read.
    fn label(&self) -> (s: String)
        ensures
            self.named(s@),
    ;
}

/// What can go wrong when a context is left.
#[derive(Debug)]
pub enum ContextStackError<E> {
    /// No context is entered.
    NoContextToExit,
    /// The context was left, but restoring the machine failed.
    Failed(E),
}

/// The error of the leaving action, from what `exit` reports.
pub open spec fn leaving_failure<E>(r: Result<(), ContextStackError<E>>) -> Option<E> {
    match r {
        Err(ContextStackError::Failed(e)) => Some(e),
        _ => None,
    }
}

/// Whether entering `op` on `machine` may fail with `e` and leave the
/// machine as `changed`.
pub open spec fn fails_entering<T, C: Context<T>>(
    op: &C,
    machine: &T,
    changed: &T,
    e: C::Error,
) -> bool {
    exists|dropped: C| C::enters(op, machine, &dropped, changed, Some(e))
}

/// Whether leaving `op` on `machine` may leave the machine as `changed`,
/// failing with `failed` or succeeding where that is `None`.
pub open spec fn may_leave<T, C: Context<T>>(
    op: &C,
    machine: &T,
    changed: &T,
    failed: Option<C::Error>,
) -> bool {
    exists|dropped: C| C::leaves(op, machine, &dropped, changed, failed)
}

/// A machine together with the contexts that are entered on it, the one
/// entered last on top.
pub struct ContextMachine<T, C: Context<T>> {
    pub machine: T,
    pub stack: Vec<C>,
}

impl<T, C: Context<T>> ContextMachine<T, C> {
    /// A machine with no context entered.
    pub fn new(machine: T) -> (r: Self)
        ensures
            r.machine == machine,
            r.stack@ == Seq::<C>::empty(),
    {
        ContextMachine { machine, stack: Vec::new() }
    }

    /// How many contexts are entered.
    pub fn depth(&self) -> (n: usize)
        ensures
            n == self.stack@.len(),
    {
        self.stack.len()
    }

    /// Enters `op`: runs its entering action and, only if that succeeds, puts
    /// it on the stack. If it fails, nothing is put on the stack and the
    /// error is returned.
    pub fn enter(&mut self, op: C) -> (r: Result<(), C::Error>)
        ensures
            match r {
                Ok(_) => {
                    &&& final(self).stack@ == old(self).stack@.push(final(self).stack@.last())
                    &&& C::enters(
                        &op,
                        &old(self).machine,
                        &final(self).stack@.last(),
                        &final(self).machine,
                        None,
                    )
                },
                Err(e) => {
                    &&& final(self).stack@ == old(self).stack@
                    &&& fails_entering(&op, &old(self).machine, &final(self).machine, e)
                },
            },
    {
        let mut entering = op;
        let r = entering.context_enter(&mut self.machine);
        match r {
            Ok(done) => {
                self.stack.push(entering);
                Ok(done)
            },
            Err(e) => {
                Err(e)
            },
        }
    }

    /// Leaves the context entered last: takes it off the stack and runs its
    /// leaving action. The context is off the stack whether or not that
    /// action succeeds; its error is returned. With no context entered the
    /// error is `NoContextToExit` and nothing changes.
    pub fn exit(&mut self) -> (r: Result<(), ContextStackError<C::Error>>)
        ensures
            r matches Err(ContextStackError::NoContextToExit) <==> old(self).stack@.len() == 0,
            old(self).stack@.len() == 0 ==> {
                &&& final(self).stack@ == old(self).stack@
                &&& final(self).machine == old(self).machine
            },
            old(self).stack@.len() > 0 ==> {
                &&& final(self).stack@ == old(self).stack@.drop_last()
                &&& may_leave(
                    &old(self).stack@.last(),
                    &old(self).machine,
                    &final(self).machine,
                    leaving_failure(r),
                )
            },
    {
        match self.stack.pop() {
            None => Err(ContextStackError::NoContextToExit),
            Some(op) => {
                let mut leaving = op;
                let r = leaving.context_drop(&mut self.machine);
                let out = match r {
                    Ok(done) => Ok(done),
                    Err(e) => Err(ContextStackError::Failed(e)),
                };
                out
            },
        }
    }

    /// Enters `op` for the length of a scope: the guard that is returned
    /// holds this machine, and closing it leaves the context.
    pub fn scoped(&mut self, op: C) -> (r: Result<Scope<'_, T, C>, C::Error>)
        ensures
            r matches Ok(scope) ==> {
                &&& scope.machine.stack@ == old(self).stack@.push(scope.machine.stack@.last())
                &&& C::enters(
                    &op,
                    &old(self).machine,
                    &scope.machine.stack@.last(),
                    &scope.machine.machine,
                    None,
                )
                &&& *final(scope.machine) == *final(self)
            },
            r matches Err(e) ==> final(self).stack@ == old(self).stack@,
            r matches Err(e) ==> fails_entering(
                &op,
                &old(self).machine,
                &final(self).machine,
                e,
            ),
    {
        match self.enter(op) {
            Ok(_) => Ok(Scope { machine: self }),
            Err(e) => Err(e),
        }
    }
}

/// A context that is entered on a `ContextMachine` for the length of a
/// scope. The machine is reached through the guard while it is open, so the
/// scopes that are opened inside it close before it does.
pub struct Scope<'a, T, C: Context<T>> {
    pub machine: &'a mut ContextMachine<T, C>,
}

impl<'a, T, C: Context<T>> Scope<'a, T, C> {
    /// Closes the scope: leaves the context on top of the machine's stack.
    /// The guard is used up, so this happens once.
    pub fn close(self) -> (r: Result<(), ContextStackError<C::Error>>)
        ensures
            r matches Err(ContextStackError::NoContextToExit) <==> old(self.machine).stack@.len()
                == 0,
            old(self.machine).stack@.len() > 0 ==> {
                &&& final(self.machine).stack@ == old(self.machine).stack@.drop_last()
                &&& may_leave(
                    &old(self.machine).stack@.last(),
                    &old(self.machine).machine,
                    &final(self.machine).machine,
                    leaving_failure(r),
                )
            },
    {
        self.machine.exit()
    }
}

/// A context that is entered on a machine for the length of a scope. The
/// guard holds the machine while it is open.
pub struct ContextGuard<'a, T, C: Context<T>> {
    pub guard: &'a mut T,
    pub context: C,
}

impl<'a, T, C: Context<T>> ContextGuard<'a, T, C> {
    /// Enters `context` on the machine `guard` and returns the guard that
    /// holds both. If entering fails its error is returned and there is no
    /// guard.
    pub fn new(guard: &'a mut T, context: C) -> (r: Result<Self, C::Error>)
        ensures
            r matches Ok(g) ==> {
                &&& C::enters(&context, old(guard), &g.context, g.guard, None)
                &&& *final(g.guard) == *final(guard)
            },
            r matches Err(e) ==> fails_entering(&context, old(guard), final(guard), e),
    {
        let mut entering = context;
        match entering.context_enter(guard) {
            Ok(_) => Ok(ContextGuard { guard, context: entering }),
            Err(e) => {
                Err(e)
            },
        }
    }

    /// Closes the guard: leaves the context. The guard is used up, so this
    /// happens once.
    pub fn close(self) -> (r: Result<(), C::Error>)
        ensures
            may_leave(&self.context, old(self.guard), final(self.guard), failure(r)),
    {
        let mut leaving = self.context;
        let r = leaving.context_drop(self.guard);
        r
    }
}

/// Contexts are left in the opposite order of their entering: after `a` and
/// then `b` are put on a stack, the first to come off is `b`, the second is
/// `a`, and the stack is then what it was.
pub proof fn lemma_last_in_first_out<C>(stack: Seq<C>, a: C, b: C)
    ensures
        stack.push(a).push(b).last() == b,
        stack.push(a).push(b).drop_last().last() == a,
        stack.push(a).push(b).drop_last().drop_last() == stack,
{
}

} // verus!
