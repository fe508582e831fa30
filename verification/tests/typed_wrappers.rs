//! Tests of the three typed wrapper families: consume-once, repeatable-
//! mutating and repeatable-reading.

use const_closure::{ConstFnClosure, ConstFnMutClosure, ConstFnOnceClosure};

#[test]
fn test_fn_once_closure_struct() {
    fn imp(state: i32, (arg,): (i32,)) -> i32 {
        state + arg
    }
    let i = 5;
    let cl = ConstFnOnceClosure::new(i, imp);

    assert!(7 == cl.invoke((2,)));
}

#[test]
fn test_fn_mut_closure_struct() {
    fn imp(state: &mut i32, (arg,): (i32,)) -> i32 {
        *state += arg;
        *state
    }
    let mut i = 5;
    let mut cl = ConstFnMutClosure::new(&mut i, imp);

    assert!(7 == cl.invoke_mut((2,)));
    assert!(8 == cl.invoke_mut((1,)));
}

#[test]
fn test_fn_closure_struct() {
    fn imp(state: &i32, (arg,): (i32,)) -> i32 {
        *state + arg
    }
    let i = 5;
    let cl = ConstFnClosure::new(&i, imp);

    assert!(7 == cl.invoke((2,)));
    assert!(6 == cl.invoke((1,)));
}
