//! The tuple-capture wrapper: one generic closure-like type whose captured
//! state is a tuple, the calling discipline chosen by the shape of the
//! tuple's elements.
//!
//! A tuple of owned elements allows only the consuming call. A tuple of
//! exclusive references allows the repeatable mutating call, and, because the
//! consuming call is generic in the capture shape, the consuming call as
//! well. A tuple of shared references allows the repeatable reading call and,
//! through the same generality, both weaker calls.
//!
//! The reference-shaped calls must destructure the tuple element by element,
//! so they are written out once per arity; this module carries them for
//! tuples of up to four captures, which is the practical bound here.
//! The consuming call needs no destructuring and is a single generic
//! function, whatever the arity.

use vstd::prelude::*;

verus! {

/// A closure-like value pairing a tuple of captured data with an
/// implementation function.
///
/// The calling discipline is not fixed by this type but by the shape of
/// `Data`: see the module documentation.
pub struct ConstClosure<Data, F> {
    /// The captured environment data, a tuple of owned values, of exclusive
    /// references, or of shared references.
    pub data: Data,
    /// The implementation function, called as `func(data, args)`.
    pub func: F,
}

impl<Data, F> ConstClosure<Data, F> {
    /// Builds a wrapper from the captured data tuple and an implementation
    /// function.
    ///
    /// `data` is the data captured from the environment; `func` receives that
    /// data and the tuple of call arguments and returns the call's result.
    pub fn new(data: Data, func: F) -> (r: Self)
        ensures
            r.data == data,
            r.func == func,
    {
        ConstClosure { data, func }
    }

    /// The consuming call, available for every capture shape: hands the whole
    /// captured tuple, owned elements and references alike, to the
    /// implementation function and gives the wrapper up.
    pub fn invoke<Args, Ret>(self, args: Args) -> (r: Ret) where F: FnOnce(Data, Args) -> Ret
        requires
            call_requires(self.func, (self.data, args)),
        ensures
            call_ensures(self.func, (self.data, args), r),
    {
        (self.func)(self.data, args)
    }
}

impl<'a, A, F> ConstClosure<(&'a mut A,), F> {
    /// The repeatable mutating call over one exclusively-borrowed capture:
    /// re-borrows the held element and forwards the fresh exclusive reference
    /// to the implementation function.
    pub fn invoke_mut<Args, Ret>(&mut self, args: Args) -> (r: Ret) where
        F: Fn((&mut A,), Args) -> Ret,

        requires
            forall|m: &mut A|
                mut_ref_current(m) == mut_ref_current(old(self).data.0) ==> call_requires(
                    old(self).func,
                    ((m,), args),
                ),
        ensures
            final(self).func == old(self).func,
            mut_ref_future(final(self).data.0) == mut_ref_future(old(self).data.0),
            exists|m: &mut A|
                mut_ref_current(m) == mut_ref_current(old(self).data.0)
                    && mut_ref_future(m) == mut_ref_current(final(self).data.0)
                    && call_ensures(old(self).func, ((m,), args), r),
    {
        let (a,) = &mut self.data;
        (self.func)((&mut **a,), args)
    }
}

impl<'a, A, B, F> ConstClosure<(&'a mut A, &'a mut B), F> {
    /// The repeatable mutating call over two exclusively-borrowed captures.
    pub fn invoke_mut<Args, Ret>(&mut self, args: Args) -> (r: Ret) where
        F: Fn((&mut A, &mut B), Args) -> Ret,

        requires
            forall|ma: &mut A, mb: &mut B|
                mut_ref_current(ma) == mut_ref_current(old(self).data.0) && mut_ref_current(mb)
                    == mut_ref_current(old(self).data.1) ==> call_requires(
                    old(self).func,
                    ((ma, mb), args),
                ),
        ensures
            final(self).func == old(self).func,
            mut_ref_future(final(self).data.0) == mut_ref_future(old(self).data.0),
            mut_ref_future(final(self).data.1) == mut_ref_future(old(self).data.1),
            exists|ma: &mut A, mb: &mut B|
                mut_ref_current(ma) == mut_ref_current(old(self).data.0)
                    && mut_ref_current(mb) == mut_ref_current(old(self).data.1)
                    && mut_ref_future(ma) == mut_ref_current(final(self).data.0)
                    && mut_ref_future(mb) == mut_ref_current(final(self).data.1)
                    && call_ensures(old(self).func, ((ma, mb), args), r),
    {
        let (a, b) = &mut self.data;
        (self.func)((&mut **a, &mut **b), args)
    }
}

impl<'a, A, B, C, F> ConstClosure<(&'a mut A, &'a mut B, &'a mut C), F> {
    /// The repeatable mutating call over three exclusively-borrowed captures.
    pub fn invoke_mut<Args, Ret>(&mut self, args: Args) -> (r: Ret) where
        F: Fn((&mut A, &mut B, &mut C), Args) -> Ret,

        requires
            forall|ma: &mut A, mb: &mut B, mc: &mut C|
                mut_ref_current(ma) == mut_ref_current(old(self).data.0) && mut_ref_current(mb)
                    == mut_ref_current(old(self).data.1) && mut_ref_current(mc)
                    == mut_ref_current(old(self).data.2) ==> call_requires(
                    old(self).func,
                    ((ma, mb, mc), args),
                ),
        ensures
            final(self).func == old(self).func,
            mut_ref_future(final(self).data.0) == mut_ref_future(old(self).data.0),
            mut_ref_future(final(self).data.1) == mut_ref_future(old(self).data.1),
            mut_ref_future(final(self).data.2) == mut_ref_future(old(self).data.2),
            exists|ma: &mut A, mb: &mut B, mc: &mut C|
                mut_ref_current(ma) == mut_ref_current(old(self).data.0)
                    && mut_ref_current(mb) == mut_ref_current(old(self).data.1)
                    && mut_ref_current(mc) == mut_ref_current(old(self).data.2)
                    && mut_ref_future(ma) == mut_ref_current(final(self).data.0)
                    && mut_ref_future(mb) == mut_ref_current(final(self).data.1)
                    && mut_ref_future(mc) == mut_ref_current(final(self).data.2)
                    && call_ensures(old(self).func, ((ma, mb, mc), args), r),
    {
        let (a, b, c) = &mut self.data;
        (self.func)((&mut **a, &mut **b, &mut **c), args)
    }
}

impl<'a, A, B, C, D, F> ConstClosure<(&'a mut A, &'a mut B, &'a mut C, &'a mut D), F> {
    /// The repeatable mutating call over four exclusively-borrowed captures.
    pub fn invoke_mut<Args, Ret>(&mut self, args: Args) -> (r: Ret) where
        F: Fn((&mut A, &mut B, &mut C, &mut D), Args) -> Ret,

        requires
            forall|ma: &mut A, mb: &mut B, mc: &mut C, md: &mut D|
                mut_ref_current(ma) == mut_ref_current(old(self).data.0) && mut_ref_current(mb)
                    == mut_ref_current(old(self).data.1) && mut_ref_current(mc)
                    == mut_ref_current(old(self).data.2) && mut_ref_current(md)
                    == mut_ref_current(old(self).data.3) ==> call_requires(
                    old(self).func,
                    ((ma, mb, mc, md), args),
                ),
        ensures
            final(self).func == old(self).func,
            mut_ref_future(final(self).data.0) == mut_ref_future(old(self).data.0),
            mut_ref_future(final(self).data.1) == mut_ref_future(old(self).data.1),
            mut_ref_future(final(self).data.2) == mut_ref_future(old(self).data.2),
            mut_ref_future(final(self).data.3) == mut_ref_future(old(self).data.3),
            exists|ma: &mut A, mb: &mut B, mc: &mut C, md: &mut D|
                mut_ref_current(ma) == mut_ref_current(old(self).data.0)
                    && mut_ref_current(mb) == mut_ref_current(old(self).data.1)
                    && mut_ref_current(mc) == mut_ref_current(old(self).data.2)
                    && mut_ref_current(md) == mut_ref_current(old(self).data.3)
                    && mut_ref_future(ma) == mut_ref_current(final(self).data.0)
                    && mut_ref_future(mb) == mut_ref_current(final(self).data.1)
                    && mut_ref_future(mc) == mut_ref_current(final(self).data.2)
                    && mut_ref_future(md) == mut_ref_current(final(self).data.3)
                    && call_ensures(old(self).func, ((ma, mb, mc, md), args), r),
    {
        let (a, b, c, d) = &mut self.data;
        (self.func)((&mut **a, &mut **b, &mut **c, &mut **d), args)
    }
}

impl<'a, A, F> ConstClosure<(&'a A,), F> {
    /// The repeatable reading call over one shared-borrowed capture: forwards
    /// the held reference to the implementation function and never changes
    /// anything.
    pub fn invoke_ref<Args, Ret>(&self, args: Args) -> (r: Ret) where F: Fn((&'a A,), Args) -> Ret
        requires
            call_requires(self.func, (self.data, args)),
        ensures
            call_ensures(self.func, (self.data, args), r),
    {
        (self.func)(self.data, args)
    }

    /// The mutating call over one shared-borrowed capture, offered only for
    /// substitutability: it re-delegates to [`Self::invoke_ref`] and leaves
    /// the wrapper untouched.
    pub fn invoke_mut<Args, Ret>(&mut self, args: Args) -> (r: Ret) where
        F: Fn((&'a A,), Args) -> Ret,

        requires
            call_requires(old(self).func, (old(self).data, args)),
        ensures
            *final(self) == *old(self),
            call_ensures(old(self).func, (old(self).data, args), r),
    {
        self.invoke_ref(args)
    }
}

impl<'a, A, B, F> ConstClosure<(&'a A, &'a B), F> {
    /// The repeatable reading call over two shared-borrowed captures.
    pub fn invoke_ref<Args, Ret>(&self, args: Args) -> (r: Ret) where
        F: Fn((&'a A, &'a B), Args) -> Ret,

        requires
            call_requires(self.func, (self.data, args)),
        ensures
            call_ensures(self.func, (self.data, args), r),
    {
        (self.func)(self.data, args)
    }

    /// The mutating call over two shared-borrowed captures, offered only for
    /// substitutability.
    pub fn invoke_mut<Args, Ret>(&mut self, args: Args) -> (r: Ret) where
        F: Fn((&'a A, &'a B), Args) -> Ret,

        requires
            call_requires(old(self).func, (old(self).data, args)),
        ensures
            *final(self) == *old(self),
            call_ensures(old(self).func, (old(self).data, args), r),
    {
        self.invoke_ref(args)
    }
}

impl<'a, A, B, C, F> ConstClosure<(&'a A, &'a B, &'a C), F> {
    /// The repeatable reading call over three shared-borrowed captures.
    pub fn invoke_ref<Args, Ret>(&self, args: Args) -> (r: Ret) where
        F: Fn((&'a A, &'a B, &'a C), Args) -> Ret,

        requires
            call_requires(self.func, (self.data, args)),
        ensures
            call_ensures(self.func, (self.data, args), r),
    {
        (self.func)(self.data, args)
    }

    /// The mutating call over three shared-borrowed captures, offered only
    /// for substitutability.
    pub fn invoke_mut<Args, Ret>(&mut self, args: Args) -> (r: Ret) where
        F: Fn((&'a A, &'a B, &'a C), Args) -> Ret,

        requires
            call_requires(old(self).func, (old(self).data, args)),
        ensures
            *final(self) == *old(self),
            call_ensures(old(self).func, (old(self).data, args), r),
    {
        self.invoke_ref(args)
    }
}

impl<'a, A, B, C, D, F> ConstClosure<(&'a A, &'a B, &'a C, &'a D), F> {
    /// The repeatable reading call over four shared-borrowed captures.
    pub fn invoke_ref<Args, Ret>(&self, args: Args) -> (r: Ret) where
        F: Fn((&'a A, &'a B, &'a C, &'a D), Args) -> Ret,

        requires
            call_requires(self.func, (self.data, args)),
        ensures
            call_ensures(self.func, (self.data, args), r),
    {
        (self.func)(self.data, args)
    }

    /// The mutating call over four shared-borrowed captures, offered only
    /// for substitutability.
    pub fn invoke_mut<Args, Ret>(&mut self, args: Args) -> (r: Ret) where
        F: Fn((&'a A, &'a B, &'a C, &'a D), Args) -> Ret,

        requires
            call_requires(old(self).func, (old(self).data, args)),
        ensures
            *final(self) == *old(self),
            call_ensures(old(self).func, (old(self).data, args), r),
    {
        self.invoke_ref(args)
    }
}

} // verus!
