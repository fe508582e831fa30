//! Tests of the tuple-capture wrapper, whose calling discipline follows the
//! shape of the captured tuple's elements.

use core::cmp::Ordering;

use const_closure::ConstClosure;

#[test]
fn test1() {
    fn func(a: &i32) -> i32 {
        *a + 2
    }
    let mut f = func;
    fn consume<F>(_: F) {}

    fn imp<T, F, K: PartialOrd>((f,): (&mut F,), (a, b): (&T, &T)) -> Option<Ordering>
    where
        F: Fn(&T) -> K,
    {
        f(a).partial_cmp(&f(b))
    }
    let cl = ConstClosure::new((&mut f,), imp::<i32, fn(&i32) -> i32, i32>);

    consume(cl);
}

#[test]
fn test2() {
    struct Func<T>(T);

    impl<T> Func<T> {
        fn call_once<A, R>(self, args: (A,)) -> R
        where
            T: FnOnce(A) -> R,
        {
            (self.0)(args.0)
        }
    }

    fn test(_a: &i32) -> Option<Ordering> {
        None
    }

    let cl = Func(test);

    fn consume<F>(_: F) {}
    consume(cl);
}

#[test]
fn test3() {
    fn imp<T, F, K: PartialOrd>((f,): (&mut F,), (a, b): (&T, &T)) -> Option<Ordering>
    where
        F: FnMut(&T) -> K,
    {
        let left = f(a);
        let right = f(b);
        left.partial_cmp(&right)
    }
    fn trans<T>(_: &T) -> i32 {
        3
    }
    let mut tr = trans::<i32>;
    let mut cl = ConstClosure::new((&mut tr,), imp::<i32, fn(&i32) -> i32, i32>);

    fn consume<F>(_: F) {}
    consume(&mut cl);

    fn const_is_sorted_by<F>(_: F) -> bool {
        true
    }
    const_is_sorted_by(&mut cl);

    fn imp2<T, F, K: PartialOrd>((f,): (&mut F,), (a, b): (&T, &T)) -> Option<Ordering>
    where
        F: Fn(&T) -> K,
    {
        f(a).partial_cmp(&f(b))
    }
    fn testx<T>(_: &T) -> i32 {
        5
    }
    let mut f = testx::<i32>;
    const_is_sorted_by(ConstClosure::new(
        (&mut f,),
        imp2::<i32, fn(&i32) -> i32, i32>,
    ));
}

#[test]
fn test_multiple() {
    fn consumer<F: FnOnce((i32, i32), ()) -> i32>(f: ConstClosure<(i32, i32), F>) -> i32 {
        f.invoke(())
    }
    fn user(x: i32, y: i32) -> i32 {
        fn imp((x, y): (i32, i32), _: ()) -> i32 {
            x + y
        }
        consumer(ConstClosure::new((x, y), imp))
    }

    let x = 1;
    let y = 4;
    assert!(user(x, y) == 5);

    let x = 1;
    let y = 7;

    assert_eq!(user(x, y), 8);
}

#[test]
fn test_multiple_mut() {
    fn consumer<'a, F>(mut f: ConstClosure<(&'a mut i32, &'a mut i32), F>)
    where
        F: for<'x, 'y> Fn((&'x mut i32, &'y mut i32), (i32,)) -> (),
    {
        f.invoke_mut((5,));
    }
    fn user(x: &mut i32, y: &mut i32) {
        fn imp((x, y): (&mut i32, &mut i32), (val,): (i32,)) {
            *x += val;
            *y += val;
        }
        consumer(ConstClosure::new((x, y), imp));
    }

    let mut x = 0;
    let mut y = 4;
    user(&mut x, &mut y);

    assert!(x == 5);
    assert!(y == 9);

    let mut x = 1;
    let mut y = 7;

    user(&mut x, &mut y);

    assert_eq!(x, 6);
    assert_eq!(y, 12);
}

#[test]
fn test_multiple_ref() {
    fn consumer<'a, F>(f: ConstClosure<(&'a i32, &'a i32), F>) -> i32
    where
        F: Fn((&'a i32, &'a i32), ()) -> i32,
    {
        f.invoke_ref(())
    }
    fn user<'a>(x: &'a i32, y: &'a i32) -> i32 {
        fn imp((x, y): (&i32, &i32), _: ()) -> i32 {
            *x + *y
        }
        consumer(ConstClosure::new((x, y), imp))
    }

    let x = 1;
    let y = 4;
    assert!(user(&x, &y) == 5);

    let x = 1;
    let y = 7;

    assert_eq!(user(&x, &y), 8);
}
