use vstd::prelude::*;

verus! {

/// One access to a cell, as far as the cell's state is concerned.
pub enum Access<T> {
    /// A shared borrow or a copy: the stored value stays as it is.
    Read,
    /// An exclusive borrow that held the given value when it ended.
    Write(T),
}

/// What a cell is, as a mathematical value: its two slots, and how often its
/// recipe has run.
pub struct State<T, Eval> {
    /// The recipe, as long as it has not run.
    pub recipe: Option<Eval>,
    /// The stored value, once there is one.
    pub cached: Option<T>,
    /// The number of times the recipe has been called.
    pub runs: nat,
}

impl<T, Eval: FnOnce() -> T> State<T, Eval> {
    /// The state of a cell that has just been created from `recipe`.
    pub open spec fn fresh(recipe: Eval) -> Self {
        State { recipe: Some(recipe), cached: None, runs: 0 }
    }

    /// The recipe is stored and has not run; no value is stored.
    pub open spec fn is_pending(self) -> bool {
        self.recipe is Some && self.cached is None && self.runs == 0
    }

    /// The recipe has run exactly once and is gone; a value is stored.
    pub open spec fn is_ready(self) -> bool {
        self.recipe is None && self.cached is Some && self.runs == 1
    }

    /// The states a cell can be in between two operations: exactly one of the
    /// two slots is filled, and a stored recipe may be called.
    pub open spec fn valid(self) -> bool {
        ||| self.is_pending() && self.recipe->0.requires(())
        ||| self.is_ready()
    }

    /// Whether an access to a cell in this state may find the value `v`: the
    /// stored value if there is one, else anything the recipe may return.
    pub open spec fn admits(self, v: T) -> bool {
        match self.cached {
            Some(stored) => v == stored,
            None => self.recipe matches Some(recipe) && recipe.ensures((), v),
        }
    }

    /// The state after an access has made sure that a value is stored, where
    /// `yielded` is what the recipe returns if that access has to run it.
    pub open spec fn forced(self, yielded: T) -> Self {
        match self.cached {
            Some(_) => self,
            None => State { recipe: None, cached: Some(yielded), runs: self.runs + 1 },
        }
    }

    /// The state after `v` has been written over the stored value.
    pub open spec fn written(self, v: T) -> Self {
        State { recipe: self.recipe, cached: Some(v), runs: self.runs }
    }

    /// The state after one access, where `yielded` is what the recipe returns
    /// if that access has to run it.
    pub open spec fn after(self, yielded: T, access: Access<T>) -> Self {
        match access {
            Access::Read => self.forced(yielded),
            Access::Write(v) => self.forced(yielded).written(v),
        }
    }

    /// The state after the given accesses, first to last.
    pub open spec fn after_all(self, yielded: T, accesses: Seq<Access<T>>) -> Self
        decreases accesses.len(),
    {
        if accesses.len() == 0 {
            self
        } else {
            self.after_all(yielded, accesses.drop_last()).after(yielded, accesses.last())
        }
    }
}

/// An access leaves a valid cell valid and ready, whatever kind of access it is.
pub proof fn lemma_access_makes_ready<T, Eval: FnOnce() -> T>(
    state: State<T, Eval>,
    yielded: T,
    access: Access<T>,
)
    requires
        state.valid(),
    ensures
        state.after(yielded, access).valid(),
        state.after(yielded, access).is_ready(),
{
}

/// However many accesses a new cell has seen, and of whatever kinds, its recipe
/// has run exactly once, unless there was no access at all: then it has not run.
pub proof fn lemma_recipe_runs_once<T, Eval: FnOnce() -> T>(
    recipe: Eval,
    yielded: T,
    accesses: Seq<Access<T>>,
)
    ensures
        State::fresh(recipe).after_all(yielded, accesses).runs == (if accesses.len() == 0 {
            0nat
        } else {
            1nat
        }),
        accesses.len() > 0 ==> State::fresh(recipe).after_all(yielded, accesses).is_ready(),
    decreases accesses.len(),
{
    if accesses.len() > 0 {
        lemma_recipe_runs_once(recipe, yielded, accesses.drop_last());
    }
}

/// Once an access has found the value `found`, every later access finds it too,
/// as long as none of them writes.
pub proof fn lemma_reads_agree<T, Eval: FnOnce() -> T>(
    state: State<T, Eval>,
    found: T,
    later: T,
    accesses: Seq<Access<T>>,
)
    requires
        state.valid(),
        state.admits(found),
        forall|i: int| 0 <= i < accesses.len() ==> accesses[i] is Read,
    ensures
        state.forced(found).after_all(later, accesses) == state.forced(found),
        forall|v: T| state.forced(found).after_all(later, accesses).admits(v) <==> v == found,
    decreases accesses.len(),
{
    if accesses.len() > 0 {
        lemma_reads_agree(state, found, later, accesses.drop_last());
    }
}

/// Once an exclusive borrow has left the value `written`, every later access
/// finds it, as long as none of them writes, and the recipe has still run once.
pub proof fn lemma_write_sticks<T, Eval: FnOnce() -> T>(
    state: State<T, Eval>,
    found: T,
    written: T,
    later: T,
    accesses: Seq<Access<T>>,
)
    requires
        state.valid(),
        forall|i: int| 0 <= i < accesses.len() ==> accesses[i] is Read,
    ensures
        forall|v: T|
            state.forced(found).written(written).after_all(later, accesses).admits(v) <==> v
                == written,
        state.forced(found).written(written).after_all(later, accesses).runs == 1,
    decreases accesses.len(),
{
    if accesses.len() > 0 {
        lemma_write_sticks(state, found, written, later, accesses.drop_last());
    }
}

} // verus!
