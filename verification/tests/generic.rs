use global_counter::generic::Counter;
use global_counter::generic::Inc;

#[derive(Default, PartialEq, Eq, Debug)]
struct PanicOnClone(i32);

impl Clone for PanicOnClone {
    fn clone(&self) -> Self {
        panic!("PanicOnClone cloned");
    }
}

impl Inc for PanicOnClone {
    fn inc(&mut self) {
        self.0.inc();
    }

    // Ghost item of the trait; never called at runtime.
    fn inc_spec(self) -> Self {
        unreachable!()
    }
}

#[test]
fn get_borrowed_doesnt_clone() {
    let counter = Counter::new(PanicOnClone::default());
    assert_eq!(*counter.get_borrowed().value(), PanicOnClone(0));
}

#[test]
fn get_mut_borrowed_doesnt_clone() {
    let counter = Counter::new(PanicOnClone::default());
    assert_eq!(*counter.get_mut_borrowed().value(), PanicOnClone(0));
}

#[test]
fn count_to_five_single_threaded() {
    let counter = Counter::<u32>::new(0);
    assert_eq!(counter.get_cloned(), 0);
    counter.inc();
    assert_eq!(counter.get_cloned(), 1);
    counter.inc();
    assert_eq!(counter.get_cloned(), 2);
    counter.inc();
    assert_eq!(counter.get_cloned(), 3);
    counter.inc();
    assert_eq!(counter.get_cloned(), 4);
    counter.inc();
    assert_eq!(counter.get_cloned(), 5);
}

#[derive(Clone, Default, PartialEq, Eq, Debug)]
struct Baz<T> {
    i: i32,
    u: i32,
    _marker: std::marker::PhantomData<T>,
}

impl<T> Inc for Baz<T> {
    fn inc(&mut self) {
        self.i += 1;
    }

    // Ghost item of the trait; never called at runtime.
    fn inc_spec(self) -> Self {
        unreachable!()
    }
}

type Bar = Baz<std::cell::RefCell<u32>>;

#[test]
fn count_struct() {
    let counter = Counter::<Bar>::new(Bar::default());
    assert_eq!(
        counter.get_cloned(),
        Baz {
            i: 0,
            u: 0,
            _marker: std::marker::PhantomData
        }
    );
    counter.inc();
    assert_eq!(
        counter.get_cloned(),
        Baz {
            i: 1,
            u: 0,
            _marker: std::marker::PhantomData
        }
    );
    counter.inc();
    assert_eq!(
        counter.get_cloned(),
        Baz {
            i: 2,
            u: 0,
            _marker: std::marker::PhantomData
        }
    );
    counter.inc();
    assert_eq!(
        counter.get_cloned(),
        Baz {
            i: 3,
            u: 0,
            _marker: std::marker::PhantomData
        }
    );
    counter.inc();
    assert_eq!(
        counter.get_cloned(),
        Baz {
            i: 4,
            u: 0,
            _marker: std::marker::PhantomData
        }
    );
    counter.inc();
    assert_eq!(
        counter.get_cloned(),
        Baz {
            i: 5,
            u: 0,
            _marker: std::marker::PhantomData
        }
    );
}

#[test]
fn count_to_50000_single_threaded() {
    let counter = Counter::<u32>::new(0);
    assert_eq!(counter.get_cloned(), 0);

    for _ in 0..50000 {
        counter.inc();
    }

    assert_eq!(counter.get_cloned(), 50000);
}

#[test]
fn reset() {
    let counter = Counter::<u32>::new(0);
    assert_eq!(counter.get_cloned(), 0);
    counter.inc();
    assert_eq!(counter.get_cloned(), 1);
    counter.inc();
    assert_eq!(counter.get_cloned(), 2);
    counter.inc();
    assert_eq!(counter.get_cloned(), 3);

    counter.reset();
    assert_eq!(counter.get_cloned(), 0);
    counter.inc();
    assert_eq!(counter.get_cloned(), 1);
}

#[test]
fn set_replaces_value() {
    let counter = Counter::<u32>::new(1);
    counter.set(41);
    assert_eq!(counter.get_cloned(), 41);
    counter.inc();
    assert_eq!(counter.get_cloned(), 42);
}

#[test]
fn inc_cloning_returns_previous() {
    let counter = Counter::<u32>::new(7);
    assert_eq!(counter.inc_cloning(), 7);
    assert_eq!(counter.get_cloned(), 8);
}

#[test]
fn get_mut_borrowed_mutates() {
    let counter = Counter::<u32>::new(3);
    {
        let mut handle = counter.get_mut_borrowed();
        *handle.value_mut() = 10;
    }
    assert_eq!(counter.get_cloned(), 10);
}

#[test]
fn inc_wraps_at_boundary() {
    let mut small: u8 = u8::MAX;
    small.inc();
    assert_eq!(small, 0);

    let mut signed: i8 = i8::MAX;
    signed.inc();
    assert_eq!(signed, i8::MIN);

    let mut wide: u128 = u128::MAX;
    wide.inc();
    assert_eq!(wide, 0);
}
