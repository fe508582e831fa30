//! The repeatable-mutating wrapper: a callable value that borrows its
//! captured state exclusively and hands the implementation function a fresh
//! exclusive reference on every invocation.

use vstd::prelude::*;

verus! {

/// A closure-like value built from an exclusive borrow of captured state and
/// an implementation function.
///
/// The wrapper holds the one mutable reference to the caller's data for its
/// whole lifetime, so no one else can observe or change that data while the
/// wrapper lives. Each call of [`Self::invoke_mut`] re-derives a fresh
/// exclusive reference into the held data and forwards it, together with the
/// argument tuple, to the implementation function; calls may repeat, and the
/// caller's variable carries the accumulated mutations once the wrapper is
/// dropped. [`Self::invoke_once`] is the consuming single-call form: it
/// performs one such call and gives the wrapper (and with it the borrow) up.
pub struct ConstFnMutClosure<'a, State, F> {
    /// The captured environment data, borrowed exclusively for the wrapper's
    /// whole lifetime.
    pub data: &'a mut State,
    /// The implementation function, called as `func(&mut data, args)`.
    pub func: F,
}

impl<'a, State, F> ConstFnMutClosure<'a, State, F> {
    /// Builds a wrapper from an exclusive borrow of the captured state and an
    /// implementation function.
    pub fn new(data: &'a mut State, func: F) -> (r: Self)
        ensures
            mut_ref_current(r.data) == mut_ref_current(data),
            mut_ref_future(r.data) == mut_ref_future(data),
            r.func == func,
    {
        ConstFnMutClosure { data, func }
    }

    /// The repeatable mutating call: re-borrows the held data and forwards
    /// the fresh exclusive reference together with the argument tuple to the
    /// implementation function.
    ///
    /// The precondition asks that the implementation function accept any
    /// exclusive reference whose present value is the state the wrapper
    /// currently holds; the postcondition says that one call of the function
    /// on exactly such a reference took the held state to its new value and
    /// produced the result.
    pub fn invoke_mut<Args, Ret>(&mut self, args: Args) -> (r: Ret) where
        F: Fn(&mut State, Args) -> Ret,

        requires
            forall|m: &mut State|
                mut_ref_current(m) == mut_ref_current(old(self).data) ==> call_requires(
                    old(self).func,
                    (m, args),
                ),
        ensures
            final(self).func == old(self).func,
            mut_ref_future(final(self).data) == mut_ref_future(old(self).data),
            exists|m: &mut State|
                mut_ref_current(m) == mut_ref_current(old(self).data)
                    && mut_ref_future(m) == mut_ref_current(final(self).data)
                    && call_ensures(old(self).func, (m, args), r),
    {
        (self.func)(&mut *self.data, args)
    }

    /// The consuming single-call form: delegates to the repeatable call once
    /// and gives the wrapper up, releasing the exclusive borrow.
    ///
    /// Because nothing touches the held data after that one call, the value
    /// the implementation function leaves behind is the value the caller's
    /// data settles at.
    pub fn invoke_once<Args, Ret>(self, args: Args) -> (r: Ret) where
        F: Fn(&mut State, Args) -> Ret,

        requires
            forall|m: &mut State|
                mut_ref_current(m) == mut_ref_current(self.data) ==> call_requires(
                    self.func,
                    (m, args),
                ),
        ensures
            exists|m: &mut State|
                mut_ref_current(m) == mut_ref_current(self.data)
                    && mut_ref_future(m) == mut_ref_future(self.data)
                    && call_ensures(self.func, (m, args), r),
    {
        let mut this = self;
        this.invoke_mut(args)
    }
}

} // verus!
