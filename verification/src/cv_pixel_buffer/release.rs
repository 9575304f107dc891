//! The captured context of a release registration: the caller's memory together
//! with what is to happen when the foreign runtime lets go of it.
//!
//! A context is single-shot. It leaves the armed state by one of two routes,
//! being fired by the foreign runtime or being destroyed after a creation that
//! failed, and whichever comes first makes every later attempt do nothing.

use vstd::prelude::*;

verus! {

/// What is done with the caller's memory when it is released.
pub trait ReleaseHandler<D>: Sized {
    /// Whether the handler may be run on `data`.
    spec fn accepts(&self, data: D) -> bool;

    /// What is known once the handler has run on `data`.
    spec fn released(&self, data: D) -> bool;

    /// Runs the handler, which consumes it together with the memory.
    fn release(self, data: D)
        requires
            self.accepts(data),
        ensures
            self.released(data),
    ;
}

/// No callback was supplied: the memory is dropped and nobody is told.
#[derive(Debug)]
pub struct Silent;

impl<D> ReleaseHandler<D> for Silent {
    open spec fn accepts(&self, data: D) -> bool {
        true
    }

    open spec fn released(&self, data: D) -> bool {
        true
    }

    fn release(self, data: D) {
    }
}

/// A callback that takes back the memory.
pub struct Callback<F>(pub F);

impl<D, F: FnOnce(D)> ReleaseHandler<D> for Callback<F> {
    open spec fn accepts(&self, data: D) -> bool {
        self.0.requires((data,))
    }

    open spec fn released(&self, data: D) -> bool {
        self.0.ensures((data,), ())
    }

    fn release(self, data: D) {
        (self.0)(data)
    }
}

/// A callback that takes a context of the caller's besides the memory.
pub struct CallbackWithContext<C, F> {
    pub callback: F,
    pub context: C,
}

impl<C, D, F: FnOnce(C, D)> ReleaseHandler<D> for CallbackWithContext<C, F> {
    open spec fn accepts(&self, data: D) -> bool {
        self.callback.requires((self.context, data))
    }

    open spec fn released(&self, data: D) -> bool {
        self.callback.ensures((self.context, data), ())
    }

    fn release(self, data: D) {
        (self.callback)(self.context, data)
    }
}

/// Where a release context stands.
#[derive(Debug, Clone, Copy, PartialEq, Eq, Structural)]
pub enum ReleaseState {
    /// The memory is held and the handler has not run.
    Armed,
    /// The handler has run on the memory.
    Fired,
    /// The memory was dropped without the handler running.
    Destroyed,
}

/// The two routes out of the armed state.
#[derive(Debug, Clone, Copy, PartialEq, Eq, Structural)]
pub enum ReleaseOp {
    /// The foreign runtime calls the registered function.
    Fire,
    /// The bridge reclaims the context of a registration that did not complete.
    Destroy,
}

/// The state after one operation: the first one decides, every later one leaves
/// the state as it is.
pub open spec fn release_step(state: ReleaseState, op: ReleaseOp) -> ReleaseState {
    match state {
        ReleaseState::Armed => match op {
            ReleaseOp::Fire => ReleaseState::Fired,
            ReleaseOp::Destroy => ReleaseState::Destroyed,
        },
        _ => state,
    }
}

/// Whether an operation runs the handler: only firing an armed context does.
pub open spec fn release_invokes(state: ReleaseState, op: ReleaseOp) -> bool {
    state == ReleaseState::Armed && op == ReleaseOp::Fire
}

/// The state after a run of operations.
pub open spec fn release_run(state: ReleaseState, ops: Seq<ReleaseOp>) -> ReleaseState
    decreases ops.len(),
{
    if ops.len() == 0 {
        state
    } else {
        release_step(release_run(state, ops.drop_last()), ops.last())
    }
}

/// How often a run of operations runs the handler.
pub open spec fn release_invocations(state: ReleaseState, ops: Seq<ReleaseOp>) -> nat
    decreases ops.len(),
{
    if ops.len() == 0 {
        0
    } else {
        let before = release_invocations(state, ops.drop_last());
        if release_invokes(release_run(state, ops.drop_last()), ops.last()) {
            before + 1
        } else {
            before
        }
    }
}

/// The model of a release context: while armed, the handler and the memory it holds.
pub ghost enum ReleaseModel<D, H> {
    Armed { handler: H, data: D },
    Fired,
    Destroyed,
}

impl<D, H> ReleaseModel<D, H> {
    pub open spec fn state(self) -> ReleaseState {
        match self {
            ReleaseModel::Armed { .. } => ReleaseState::Armed,
            ReleaseModel::Fired => ReleaseState::Fired,
            ReleaseModel::Destroyed => ReleaseState::Destroyed,
        }
    }
}

struct Captured<D, H> {
    handler: H,
    data: D,
}

/// The captured context of one release registration.
pub struct ReleaseContext<D, H> {
    captured: Option<Captured<D, H>>,
    fired: bool,
}

impl<D, H> View for ReleaseContext<D, H> {
    type V = ReleaseModel<D, H>;

    closed spec fn view(&self) -> ReleaseModel<D, H> {
        match self.captured {
            Some(captured) => ReleaseModel::Armed { handler: captured.handler, data: captured.data },
            None => if self.fired {
                ReleaseModel::Fired
            } else {
                ReleaseModel::Destroyed
            },
        }
    }
}

impl<D, H: ReleaseHandler<D>> ReleaseContext<D, H> {
    /// Captures the memory and the handler in an armed context.
    pub fn make(handler: H, data: D) -> (context: Self)
        ensures
            context@ == (ReleaseModel::Armed { handler, data }),
    {
        ReleaseContext { captured: Some(Captured { handler, data }), fired: false }
    }

    /// Where the context stands.
    pub fn state(&self) -> (state: ReleaseState)
        ensures
            state == self@.state(),
    {
        match &self.captured {
            Some(_) => ReleaseState::Armed,
            None => if self.fired {
                ReleaseState::Fired
            } else {
                ReleaseState::Destroyed
            },
        }
    }

    /// The captured memory, for as long as the context is armed.
    pub fn data(&self) -> (data: Option<&D>)
        ensures
            match data {
                Some(held) => self@ is Armed && self@->data == *held,
                None => !(self@ is Armed),
            },
    {
        match &self.captured {
            Some(captured) => Some(&captured.data),
            None => None,
        }
    }

    /// The route of the foreign runtime: runs the handler on the captured memory
    /// if the context is armed, and does nothing otherwise. Returns whether the
    /// handler ran.
    pub fn fire(&mut self) -> (ran: bool)
        requires
            old(self)@ matches ReleaseModel::Armed { handler, data } ==> handler.accepts(data),
        ensures
            final(self)@.state() == release_step(old(self)@.state(), ReleaseOp::Fire),
            ran == release_invokes(old(self)@.state(), ReleaseOp::Fire),
            old(self)@ matches ReleaseModel::Armed { handler, data } ==> handler.released(data),
    {
        match self.captured.take() {
            Some(captured) => {
                self.fired = true;
                captured.handler.release(captured.data);
                true
            },
            None => false,
        }
    }

    /// The route of a creation that failed: drops the captured memory and the
    /// handler, without running it, if the context is armed, and does nothing
    /// otherwise. Returns whether anything was dropped.
    pub fn destroy(&mut self) -> (dropped: bool)
        ensures
            final(self)@.state() == release_step(old(self)@.state(), ReleaseOp::Destroy),
            dropped == (old(self)@.state() == ReleaseState::Armed),
    {
        match self.captured.take() {
            Some(_) => {
                self.fired = false;
                true
            },
            None => false,
        }
    }
}

/// Single fire: whatever operations reach a context that starts armed, and in
/// whatever order, the handler runs at most once. It runs exactly when the first
/// operation is a fire, and the context is then fired for good; it never runs
/// when the first operation is a destroy, and the context is then destroyed for
/// good.
pub proof fn lemma_single_fire(ops: Seq<ReleaseOp>)
    ensures
        release_invocations(ReleaseState::Armed, ops) <= 1,
        ops.len() == 0 ==> release_run(ReleaseState::Armed, ops) == ReleaseState::Armed,
        ops.len() > 0 && ops[0] == ReleaseOp::Fire ==> release_invocations(
            ReleaseState::Armed,
            ops,
        ) == 1 && release_run(ReleaseState::Armed, ops) == ReleaseState::Fired,
        ops.len() > 0 && ops[0] == ReleaseOp::Destroy ==> release_invocations(
            ReleaseState::Armed,
            ops,
        ) == 0 && release_run(ReleaseState::Armed, ops) == ReleaseState::Destroyed,
    decreases ops.len(),
{
    if ops.len() > 0 {
        lemma_single_fire(ops.drop_last());
        if ops.len() > 1 {
            assert(ops.drop_last()[0] == ops[0]);
        }
    }
}

/// A context that is no longer armed stays as it is and runs nothing.
pub proof fn lemma_spent_stays_spent(state: ReleaseState, ops: Seq<ReleaseOp>)
    requires
        state != ReleaseState::Armed,
    ensures
        release_run(state, ops) == state,
        release_invocations(state, ops) == 0,
    decreases ops.len(),
{
    if ops.len() > 0 {
        lemma_spent_stays_spent(state, ops.drop_last());
    }
}

} // verus!
