use propverify::{Halt, Path, Strategy, StrategyExt};

trait Foo: core::fmt::Debug {
    fn foo(&self) -> i32;
}

type FB = Box<dyn Foo>;

#[derive(Debug)]
struct A {
    a: i8,
}

impl Foo for A {
    fn foo(&self) -> i32 {
        self.a.into()
    }
}

fn a_to_foo(a: i8) -> FB {
    Box::new(A { a })
}

#[derive(Debug)]
struct B {
    b: i16,
}

impl Foo for B {
    fn foo(&self) -> i32 {
        self.b.into()
    }
}

fn b_to_foo(b: i16) -> FB {
    Box::new(B { b })
}

fn path(words: &[u128]) -> Path {
    Path::new(words.to_vec())
}

fn dynamic() {
    let s = (0i8..10i8).prop_map(a_to_foo).boxed();
    let mut kept = 0;
    for w in 0u128..300 {
        if let Ok(x) = s.value(&mut path(&[w])) {
            let y: i32 = x.foo();
            assert!(y != 15);
            assert!((0..10).contains(&y));
            kept += 1;
        }
    }
    assert_eq!(kept, 20);
}

fn dynamic_union() {
    let s = (0i8..10i8)
        .prop_map(|x: i8| a_to_foo(x))
        .boxed()
        .prop_union((1000i16..).prop_map(b_to_foo).boxed());
    for sel in 0u128..2 {
        for w in [0u128, 5, 9, 999, 1000, 5000, 0x8000] {
            match s.value(&mut path(&[sel, w])) {
                Ok(r) => assert!(r.foo() < 10 || r.foo() > 100),
                Err(h) => assert_eq!(h, Halt::Pruned),
            }
        }
    }
}

#[test]
fn t1() {
    dynamic();
}

#[test]
fn t2() {
    dynamic_union();
}
