use vstd::prelude::*;
use crate::state::State;

verus! {

const EXPECT_VALUE_STORED: &'static str = "a value must be stored at this point";

const EXPECT_RECIPE_STILL_PRESENT: &'static str = "the recipe must still be present at this point";

/// A value of type `T` that is built on first access by a recipe of type `Eval`
/// and kept from then on.
#[verifier::reject_recursive_types(T)]
pub struct Lazy<T, Eval> where Eval: FnOnce() -> T {
    evaluator: Option<Eval>,
    value: Option<T>,
    runs: Ghost<nat>,
}

impl<T, Eval> Lazy<T, Eval> where Eval: FnOnce() -> T {
    /// The cell as a mathematical value.
    pub closed spec fn view(&self) -> State<T, Eval> {
        State { recipe: self.evaluator, cached: self.value, runs: self.runs@ }
    }

    /// The cell is in a state that it can be in between two operations. Every
    /// cell that this library makes is, and every operation keeps it so.
    pub open spec fn wf(&self) -> bool {
        self@.valid()
    }

    /// Stores `evaluator` without calling it.
    pub fn new(evaluator: Eval) -> (cell: Self)
        requires
            evaluator.requires(()),
        ensures
            cell@ == State::fresh(evaluator),
            cell.wf(),
    {
        Lazy { evaluator: Some(evaluator), value: None, runs: Ghost(0) }
    }

    /// Borrows the stored value, after running the recipe if it has not run.
    #[must_use]
    pub fn value_ref(&mut self) -> (r: &T)
        requires
            old(self).wf(),
        ensures
            final(self).wf(),
            old(self)@.admits(*r),
            final(self)@ == old(self)@.forced(*r),
    {
        self.init_once();
        self.value.as_ref().expect(EXPECT_VALUE_STORED)
    }

    /// Borrows the stored value for writing, after running the recipe if it
    /// has not run. What the borrow holds when it ends is the stored value.
    #[must_use]
    pub fn value_mut(&mut self) -> (r: &mut T)
        requires
            old(self).wf(),
        ensures
            final(self).wf(),
            old(self)@.admits(*r),
            final(self)@ == old(self)@.forced(*r).written(*final(r)),
    {
        self.init_once();
        self.value.as_mut().expect(EXPECT_VALUE_STORED)
    }

    /// Gives up the cell for its value, after running the recipe if it has not
    /// run.
    #[must_use]
    pub fn unwrap(self) -> (value: T)
        requires
            self.wf(),
        ensures
            self@.admits(value),
    {
        let mut cell = self;
        cell.init_once();
        cell.value.expect(EXPECT_VALUE_STORED)
    }

    /// Borrows the stored value if there is one. The recipe is not run.
    pub fn get(&self) -> (r: Option<&T>)
        ensures
            match r {
                Some(value) => self@.cached == Some(*value),
                None => self@.cached is None,
            },
    {
        self.value.as_ref()
    }

    /// Same as [`Lazy::value_ref`].
    pub fn as_ref(&mut self) -> (r: &T)
        requires
            old(self).wf(),
        ensures
            final(self).wf(),
            old(self)@.admits(*r),
            final(self)@ == old(self)@.forced(*r),
    {
        self.as_ref_impl()
    }

    /// Same as [`Lazy::value_mut`].
    pub fn as_mut(&mut self) -> (r: &mut T)
        requires
            old(self).wf(),
        ensures
            final(self).wf(),
            old(self)@.admits(*r),
            final(self)@ == old(self)@.forced(*r).written(*final(r)),
    {
        self.as_mut_impl()
    }

    /// Same as [`Lazy::value_ref`].
    pub fn deref(&mut self) -> (r: &T)
        requires
            old(self).wf(),
        ensures
            final(self).wf(),
            old(self)@.admits(*r),
            final(self)@ == old(self)@.forced(*r),
    {
        self.as_ref_impl()
    }

    /// Same as [`Lazy::value_mut`].
    pub fn deref_mut(&mut self) -> (r: &mut T)
        requires
            old(self).wf(),
        ensures
            final(self).wf(),
            old(self)@.admits(*r),
            final(self)@ == old(self)@.forced(*r).written(*final(r)),
    {
        self.as_mut_impl()
    }

    /// Same as [`Lazy::value_ref`].
    pub fn borrow(&mut self) -> (r: &T)
        requires
            old(self).wf(),
        ensures
            final(self).wf(),
            old(self)@.admits(*r),
            final(self)@ == old(self)@.forced(*r),
    {
        self.as_ref_impl()
    }

    /// Same as [`Lazy::value_mut`].
    pub fn borrow_mut(&mut self) -> (r: &mut T)
        requires
            old(self).wf(),
        ensures
            final(self).wf(),
            old(self)@.admits(*r),
            final(self)@ == old(self)@.forced(*r).written(*final(r)),
    {
        self.as_mut_impl()
    }

    /// What every shared-style accessor does: store a value if none is, then
    /// lend it.
    fn as_ref_impl(&mut self) -> (r: &T)
        requires
            old(self).wf(),
        ensures
            final(self).wf(),
            old(self)@.admits(*r),
            final(self)@ == old(self)@.forced(*r),
    {
        self.init_once();
        self.value.as_ref().expect(EXPECT_VALUE_STORED)
    }

    /// What every exclusive-style accessor does: store a value if none is, then
    /// lend it for writing.
    fn as_mut_impl(&mut self) -> (r: &mut T)
        requires
            old(self).wf(),
        ensures
            final(self).wf(),
            old(self)@.admits(*r),
            final(self)@ == old(self)@.forced(*r).written(*final(r)),
    {
        self.init_once();
        self.value.as_mut().expect(EXPECT_VALUE_STORED)
    }

    /// Makes sure that a value is stored: runs the recipe if none is, and does
    /// nothing otherwise.
    fn init_once(&mut self)
        requires
            old(self).wf(),
        ensures
            final(self).wf(),
            final(self)@.is_ready(),
            old(self)@.admits(final(self)@.cached->0),
            final(self)@ == old(self)@.forced(final(self)@.cached->0),
    {
        if self.value.is_none() {
            let value = self.evaluate();
            self.value = Some(value);
        }
    }

    /// Takes the recipe out of its slot and calls it.
    fn evaluate(&mut self) -> (value: T)
        requires
            old(self)@.is_pending(),
            old(self)@.recipe->0.requires(()),
        ensures
            old(self)@.recipe->0.ensures((), value),
            final(self)@.recipe is None,
            final(self)@.cached is None,
            final(self)@.runs == 1,
    {
        let evaluator = self.evaluator.take().expect(EXPECT_RECIPE_STILL_PRESENT);
        proof {
            self.runs@ = self.runs@ + 1;
        }
        evaluator()
    }
}

impl<T, Eval> Lazy<T, Eval> where T: Copy, Eval: FnOnce() -> T {
    /// Returns a copy of the stored value, after running the recipe if it has
    /// not run.
    #[must_use]
    pub fn value(&mut self) -> (value: T)
        requires
            old(self).wf(),
        ensures
            final(self).wf(),
            old(self)@.admits(value),
            final(self)@ == old(self)@.forced(value),
    {
        self.init_once();
        self.value.expect(EXPECT_VALUE_STORED)
    }
}

} // verus!
