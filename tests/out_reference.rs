use std::cell::Cell;
use std::mem::MaybeUninit;
use std::rc::Rc;

use out_reference::{LinearOut, NullAddress, OutMethod, Out, Place};

/// Counts how many of its values have been dropped.
struct Counted(Rc<Cell<u32>>);

impl Drop for Counted {
    fn drop(&mut self) {
        self.0.set(self.0.get() + 1);
    }
}

#[test]
fn maybe_uninit() {
    let shared = Rc::new(10u32);
    let mut x: MaybeUninit<Rc<u32>> = MaybeUninit::uninit();
    let mut out_x = Out::from_maybe_uninit(&mut x);

    out_x.set(Rc::clone(&shared));

    // the storage now owns a second handle to the value
    assert_eq!(Rc::strong_count(&shared), 2);
    assert_eq!(*shared, 10);
}

#[test]
fn normal() {
    let mut x = 0;

    let mut out_x = x.out();
    out_x.set(10);

    assert_eq!(x, 10);
}

#[test]
fn leak() {
    let mut x = vec![0, 1, 2];

    let mut out_x = x.out();
    out_x.set(vec![]);

    assert_eq!(x, vec![]);
}

#[test]
fn set_does_not_drop_old_value() {
    let drops = Rc::new(Cell::new(0u32));
    {
        let mut x = Counted(Rc::clone(&drops));
        let mut out_x = x.out();
        out_x.set(Counted(Rc::clone(&drops)));
        assert_eq!(drops.get(), 0);
    }
    // only the value written is dropped with `x`; the old one leaked
    assert_eq!(drops.get(), 1);
    assert_eq!(Rc::strong_count(&drops), 2);
}

#[test]
fn write_function_overwrites() {
    let mut x = String::from("old");
    out_reference::write(&mut x, String::from("new"));
    assert_eq!(x, "new");
}

#[test]
fn write_function_does_not_drop() {
    let drops = Rc::new(Cell::new(0u32));
    let mut x = Counted(Rc::clone(&drops));
    out_reference::write(&mut x, Counted(Rc::clone(&drops)));
    assert_eq!(drops.get(), 0);
}

#[test]
fn last_write_wins() {
    let mut x = 1u8;
    let mut out_x = Out::from_mut(&mut x);
    out_x.set(2);
    out_x.set(3);
    assert_eq!(x, 3);
}

#[test]
fn reborrow_chain_writes_through() {
    let mut x = 0u64;
    let mut out_x = x.out();
    {
        let mut b1 = out_x.borrow();
        let mut b2 = b1.borrow();
        let mut b3 = b2.borrow();
        b3.set(42);
    }
    assert_eq!(x, 42);
}

#[test]
fn reborrow_then_outer_writes_last() {
    let mut x = 0u64;
    let mut out_x = x.out();
    out_x.borrow().set(1);
    out_x.set(2);
    assert_eq!(x, 2);
}

#[test]
fn from_raw_refuses_null() {
    for _ in 0..3 {
        assert_eq!(Out::<u32>::from_raw(None).unwrap_err(), NullAddress);
    }
}

#[test]
fn from_raw_accepts_address() {
    let mut x = 7u32;
    match Out::from_raw(Some(&mut x)) {
        Ok(mut out_x) => out_x.set(8),
        Err(_) => panic!("a valid address was refused"),
    }
    assert_eq!(x, 8);
}

#[test]
fn from_raw_unchecked_writes() {
    let mut x = 7u32;
    let mut out_x = Out::from_raw_unchecked(Some(&mut x));
    out_x.set(9);
    assert_eq!(x, 9);
}

#[test]
fn into_raw_gives_the_place() {
    let mut x = 1i32;
    let out_x = x.out();
    match out_x.into_raw() {
        Place::Init(r) => *r = -5,
        Place::Uninit(_) => panic!("made from an initialized value"),
    }
    assert_eq!(x, -5);
}

#[test]
fn as_mut_ptr_keeps_the_reference() {
    let mut x = 1i32;
    let mut out_x = x.out();
    match out_x.as_mut_ptr() {
        Place::Init(r) => *r = 4,
        Place::Uninit(_) => panic!("made from an initialized value"),
    }
    out_x.set(5);
    assert_eq!(x, 5);
}

#[test]
fn as_mut_ptr_on_uninit_storage() {
    let mut x: MaybeUninit<u8> = MaybeUninit::uninit();
    let mut out_x = Out::from_maybe_uninit(&mut x);
    assert!(matches!(out_x.as_mut_ptr(), Place::Uninit(_)));
}

#[test]
fn linear_write_discharges() {
    let mut x = 0u32;
    let lin = x.linear_out();
    lin.set(10);
    assert_eq!(x, 10);
}

#[test]
fn linear_from_out_writes_uninit() {
    let shared = Rc::new(());
    let mut x: MaybeUninit<Rc<()>> = MaybeUninit::uninit();
    let lin = LinearOut::new(Out::from_maybe_uninit(&mut x));
    lin.set(Rc::clone(&shared));
    assert_eq!(Rc::strong_count(&shared), 2);
}

#[test]
fn linear_write_does_not_drop_old_value() {
    let drops = Rc::new(Cell::new(0u32));
    let mut x = Counted(Rc::clone(&drops));
    x.linear_out().set(Counted(Rc::clone(&drops)));
    assert_eq!(drops.get(), 0);
}

#[test]
fn from_exclusive_reference() {
    let mut x = 3u16;
    let mut out_x: Out<'_, u16> = Out::from(&mut x);
    out_x.set(30);
    assert_eq!(x, 30);
}

#[test]
fn from_uninit_storage() {
    let shared = Rc::new(());
    let mut x: MaybeUninit<Rc<()>> = MaybeUninit::uninit();
    let mut out_x: Out<'_, Rc<()>> = (&mut x).into();
    out_x.set(Rc::clone(&shared));
    assert_eq!(Rc::strong_count(&shared), 2);
}
