//! The consume-once wrapper: a callable value that owns its captured state
//! outright and hands it over on the single invocation.

use vstd::prelude::*;

verus! {

/// A closure-like value built from owned captured state and an implementation
/// function.
///
/// The wrapper is a pure routing shim: invoking it forwards the captured state
/// and the argument tuple to the implementation function and returns whatever
/// that function returns. Because [`Self::invoke`] takes `self` by value, a
/// second invocation is unrepresentable: once the state has been consumed the
/// wrapper is gone, and reuse is ruled out by ownership rather than by any
/// run-time flag.
pub struct ConstFnOnceClosure<State, F> {
    /// The captured environment data, owned by the wrapper.
    pub data: State,
    /// The implementation function, called as `func(data, args)`.
    pub func: F,
}

impl<State, F> ConstFnOnceClosure<State, F> {
    /// Builds a wrapper from owned captured state and an implementation
    /// function.
    pub fn new(data: State, func: F) -> (r: Self)
        ensures
            r.data == data,
            r.func == func,
    {
        ConstFnOnceClosure { data, func }
    }

    /// Consumes the wrapper, forwarding the captured state together with the
    /// argument tuple to the implementation function.
    ///
    /// The result is exactly a result of `func(data, args)`: the dispatch
    /// layer adds nothing and takes nothing away.
    pub fn invoke<Args, Ret>(self, args: Args) -> (r: Ret) where F: FnOnce(State, Args) -> Ret
        requires
            call_requires(self.func, (self.data, args)),
        ensures
            call_ensures(self.func, (self.data, args), r),
    {
        (self.func)(self.data, args)
    }
}

} // verus!
