//! The repeatable-reading wrapper: a callable value that borrows its captured
//! state immutably and may be invoked any number of times.

use vstd::prelude::*;

verus! {

/// A closure-like value built from a shared borrow of captured state and an
/// implementation function.
///
/// Every invocation hands the implementation function the same read-only
/// reference, so the captured data is never mutated and the wrapper may be
/// invoked freely and repeatedly.
///
/// Besides the primary shared call [`Self::invoke`], the wrapper offers a
/// mutating-call form and a consuming-call form that merely re-delegate to the
/// shared call. They exist so that a value of this type can stand wherever
/// only the weaker repeatable-mutating or consume-once calling convention is
/// asked for: the shared-read capability subsumes both.
pub struct ConstFnClosure<'a, State, F> {
    /// The captured environment data, borrowed immutably for the wrapper's
    /// whole lifetime.
    pub data: &'a State,
    /// The implementation function, called as `func(data, args)`.
    pub func: F,
}

/// What the shared call promises of its result: the result is exactly a
/// result of `func(data, args)`.
pub open spec fn read_call_post<'a, State, F, Args, Ret>(
    w: ConstFnClosure<'a, State, F>,
    args: Args,
    r: Ret,
) -> bool where F: Fn(&'a State, Args) -> Ret {
    call_ensures(w.func, (w.data, args), r)
}

/// What the mutating-call form promises: the wrapper comes out unchanged and
/// the result satisfies the shared call's promise.
pub open spec fn mutating_call_post<'a, State, F, Args, Ret>(
    pre: ConstFnClosure<'a, State, F>,
    post: ConstFnClosure<'a, State, F>,
    args: Args,
    r: Ret,
) -> bool where F: Fn(&'a State, Args) -> Ret {
    post == pre && read_call_post(pre, args, r)
}

/// What the consuming-call form promises: the result satisfies the shared
/// call's promise.
pub open spec fn consuming_call_post<'a, State, F, Args, Ret>(
    w: ConstFnClosure<'a, State, F>,
    args: Args,
    r: Ret,
) -> bool where F: Fn(&'a State, Args) -> Ret {
    read_call_post(w, args, r)
}

impl<'a, State, F> ConstFnClosure<'a, State, F> {
    /// Builds a wrapper from a shared borrow of the captured state and an
    /// implementation function.
    pub fn new(data: &'a State, func: F) -> (r: Self)
        ensures
            r.data == data,
            r.func == func,
    {
        ConstFnClosure { data, func }
    }

    /// The primary, freely repeatable shared call: forwards the borrowed
    /// state together with the argument tuple to the implementation function.
    pub fn invoke<Args, Ret>(&self, args: Args) -> (r: Ret) where F: Fn(&'a State, Args) -> Ret
        requires
            call_requires(self.func, (self.data, args)),
        ensures
            read_call_post(*self, args, r),
    {
        (self.func)(self.data, args)
    }

    /// The mutating-call form, offered only for substitutability: it
    /// re-delegates to [`Self::invoke`] and leaves the wrapper untouched.
    pub fn invoke_mut<Args, Ret>(&mut self, args: Args) -> (r: Ret) where
        F: Fn(&'a State, Args) -> Ret,

        requires
            call_requires(old(self).func, (old(self).data, args)),
        ensures
            mutating_call_post(*old(self), *final(self), args, r),
    {
        self.invoke(args)
    }

    /// The consuming-call form, offered only for substitutability: it
    /// re-delegates to the mutating-call form and gives the wrapper up.
    pub fn invoke_once<Args, Ret>(self, args: Args) -> (r: Ret) where
        F: Fn(&'a State, Args) -> Ret,

        requires
            call_requires(self.func, (self.data, args)),
        ensures
            consuming_call_post(self, args, r),
    {
        let mut this = self;
        this.invoke_mut(args)
    }
}

} // verus!
