//! The laws the wrappers obey, stated and proved as public proof functions.

use vstd::prelude::*;

use crate::consuming::ConstFnOnceClosure;
use crate::reading::ConstFnClosure;
use crate::reading::consuming_call_post;
use crate::reading::mutating_call_post;
use crate::reading::read_call_post;

verus! {

/// The implementation function is pure at one input: its contract admits
/// exactly one result there.
pub open spec fn pure_at<F, In, Ret>(f: F, input: In, value: Ret) -> bool where
    F: FnOnce<In, Output = Ret>,
    In: core::marker::Tuple,
 {
    forall|out: Ret| #[trigger] call_ensures(f, input, out) ==> out == value
}

/// For owned state and a pure implementation function, the one invocation of
/// the consume-once wrapper returns exactly the function's value on the
/// captured state and the arguments.
///
/// `r` is a result the wrapper's invocation admits; `value` is the one value
/// the function's contract admits there.
pub proof fn lemma_consuming_invoke_exact<State, F, Args, Ret>(
    w: ConstFnOnceClosure<State, F>,
    args: Args,
    r: Ret,
    value: Ret,
) where F: FnOnce(State, Args) -> Ret
    requires
        call_ensures(w.func, (w.data, args), r),
        pure_at(w.func, (w.data, args), value),
    ensures
        r == value,
{
}

/// For shared state and a pure implementation function, invoking the
/// repeatable-reading wrapper twice with the same arguments yields the same
/// result, and the wrapper (data and function alike) never changes between
/// the calls: the wrapped read is referentially transparent.
pub proof fn lemma_reading_invoke_transparent<'a, State, F, Args, Ret>(
    w: ConstFnClosure<'a, State, F>,
    args: Args,
    r1: Ret,
    r2: Ret,
) where F: Fn(&'a State, Args) -> Ret
    requires
        read_call_post(w, args, r1),
        read_call_post(w, args, r2),
        forall|out1: Ret, out2: Ret|
            #[trigger] call_ensures(w.func, (w.data, args), out1) && #[trigger] call_ensures(
                w.func,
                (w.data, args),
                out2,
            ) ==> out1 == out2,
    ensures
        r1 == r2,
{
}

/// The state reached by applying the transition function `g` to a start
/// state, once per argument, front to back.
pub open spec fn fold_state<State, Args>(
    g: spec_fn(State, Args) -> State,
    s0: State,
    args: Seq<Args>,
) -> State
    decreases args.len(),
{
    if args.len() == 0 {
        s0
    } else {
        fold_state(g, g(s0, args[0]), args.drop_first())
    }
}

/// Folding one more argument on the right applies the transition function
/// last.
pub proof fn lemma_fold_state_snoc<State, Args>(
    g: spec_fn(State, Args) -> State,
    s0: State,
    args: Seq<Args>,
    a: Args,
)
    ensures
        fold_state(g, s0, args.push(a)) == g(fold_state(g, s0, args), a),
    decreases args.len(),
{
    if args.len() == 0 {
        assert(args.push(a)[0] == a);
        assert(args.push(a).drop_first() =~= Seq::<Args>::empty());
        assert(fold_state(g, g(s0, a), Seq::<Args>::empty()) == g(s0, a));
        assert(fold_state(g, s0, args.push(a)) == fold_state(
            g,
            g(s0, args.push(a)[0]),
            args.push(a).drop_first(),
        ));
    } else {
        assert(args.push(a)[0] == args[0]);
        assert(args.push(a).drop_first() =~= args.drop_first().push(a));
        lemma_fold_state_snoc(g, g(s0, args[0]), args.drop_first(), a);
    }
}

/// The prefix form of the fold law, over states that already step by the
/// transition function: after `n` steps the state is the fold of the
/// transition function over the first `n` arguments.
proof fn lemma_stepping_states_fold<State, Args>(
    g: spec_fn(State, Args) -> State,
    states: Seq<State>,
    args: Seq<Args>,
    n: int,
)
    requires
        states.len() == args.len() + 1,
        forall|i: int| 0 <= i < args.len() ==> states[i + 1] == g(states[i], #[trigger] args[i]),
        0 <= n <= args.len(),
    ensures
        states[n] == fold_state(g, states[0], args.take(n)),
    decreases n,
{
    if n == 0 {
        assert(args.take(0) =~= Seq::<Args>::empty());
    } else {
        lemma_stepping_states_fold(g, states, args, n - 1);
        lemma_fold_state_snoc(g, states[0], args.take(n - 1), args[n - 1]);
        assert(args.take(n) =~= args.take(n - 1).push(args[n - 1]));
    }
}

/// For mutable state and a pure implementation function, repeated invocation
/// of the repeatable-mutating wrapper with an argument sequence is the fold
/// of the function over that sequence: the state after the `i`-th call is the
/// fold of the transition function `g` over the first `i` arguments starting
/// from the initial state, the final state is the fold over the whole
/// sequence, and the `i`-th result is the value function `h` applied to the
/// state the `i`-th call started from.
///
/// `states` is the sequence of held states observed around the calls, one
/// more entry than calls; `args` and `results` are the calls' argument tuples
/// and results. The first hypothesis says that the implementation function is
/// pure, its contract pinning the new state to `g` and the result to `h`; the
/// last says that each call stepped the state and produced the result the way
/// the wrapper's mutating call promises.
pub proof fn lemma_mutating_invoke_fold<State, F, Args, Ret>(
    f: F,
    g: spec_fn(State, Args) -> State,
    h: spec_fn(State, Args) -> Ret,
    states: Seq<State>,
    args: Seq<Args>,
    results: Seq<Ret>,
) where F: Fn(&mut State, Args) -> Ret
    requires
        forall|m: &mut State, a: Args, out: Ret|
            #[trigger] call_ensures(f, (m, a), out) ==> mut_ref_future(m) == g(
                mut_ref_current(m),
                a,
            ) && out == h(mut_ref_current(m), a),
        states.len() == args.len() + 1,
        results.len() == args.len(),
        forall|i: int|
            0 <= i < args.len() ==> exists|m: &mut State|
                mut_ref_current(m) == states[i] && mut_ref_future(m) == states[i + 1]
                    && call_ensures(f, (m, #[trigger] args[i]), results[i]),
    ensures
        forall|i: int|
            0 <= i <= args.len() ==> states[i] == fold_state(g, states[0], #[trigger] args.take(i)),
        states.last() == fold_state(g, states[0], args),
        forall|i: int| 0 <= i < args.len() ==> results[i] == h(states[i], #[trigger] args[i]),
{
    assert forall|i: int| 0 <= i < args.len() implies states[i + 1] == g(
        states[i],
        #[trigger] args[i],
    ) && results[i] == h(states[i], args[i]) by {
        let m = choose|m: &mut State|
            mut_ref_current(m) == states[i] && mut_ref_future(m) == states[i + 1] && call_ensures(
                f,
                (m, args[i]),
                results[i],
            );
        assert(call_ensures(f, (m, args[i]), results[i]));
    }
    assert forall|i: int| 0 <= i <= args.len() implies states[i] == fold_state(
        g,
        states[0],
        #[trigger] args.take(i),
    ) by {
        lemma_stepping_states_fold(g, states, args, i);
    }
    assert(args.take(args.len() as int) =~= args);
}

/// Substitutability of the repeatable-reading wrapper: its consuming-call
/// form admits a result exactly when the shared call does; its mutating-call
/// form can reach a result exactly when the shared call can, and can never
/// leave the wrapper changed. A reading wrapper may therefore stand wherever
/// the weaker mutating or consume-once calling convention is asked for, with
/// no behavioral difference on the first (or only) use.
pub proof fn lemma_reading_substitutable<'a, State, F, Args, Ret>(
    w: ConstFnClosure<'a, State, F>,
    args: Args,
    r: Ret,
) where F: Fn(&'a State, Args) -> Ret
    ensures
        consuming_call_post(w, args, r) <==> read_call_post(w, args, r),
        (exists|post: ConstFnClosure<'a, State, F>| mutating_call_post(w, post, args, r))
            <==> read_call_post(w, args, r),
        forall|post: ConstFnClosure<'a, State, F>|
            #[trigger] mutating_call_post(w, post, args, r) ==> post == w,
{
    assert(mutating_call_post(w, w, args, r) <==> read_call_post(w, args, r));
}

} // verus!
