use shareable::SharedF32;
use shareable::SharedF64;
use shareable::SharedI64;
use shareable::SharedI8;
use shareable::SharedObject;
use std::sync::Arc;

#[test]
fn new_then_get_returns_the_initial_value() {
    assert_eq!(SharedI8::new(i8::MIN).get(), i8::MIN);
    assert_eq!(SharedI8::new(i8::MAX).get(), i8::MAX);
    assert_eq!(SharedI64::new(i64::MIN).get(), i64::MIN);
    assert_eq!(SharedI64::new(i64::MAX).get(), i64::MAX);
    assert_eq!(SharedF32::new(0x8000_0000).get(), 0x8000_0000);
    assert_eq!(SharedF64::new(u64::MAX).get(), u64::MAX);
    assert_eq!(*SharedObject::new(vec![1u8, 2, 3]).get(), vec![1u8, 2, 3]);
}

#[test]
fn a_new_cell_is_unshared() {
    assert!(!SharedI8::new(3).is_shared());
    assert!(!SharedI64::new(3).is_shared());
    assert!(!SharedF32::new(3).is_shared());
    assert!(!SharedF64::new(3).is_shared());
    assert!(!SharedObject::new(3u8).is_shared());
}

#[test]
fn set_on_an_unshared_cell_keeps_it_unshared() {
    let mut cell = SharedI64::new(1);
    cell.set(2);
    assert!(!cell.is_shared());
    assert_eq!(cell.get(), 2);
    cell.set(-3);
    assert_eq!(cell.get(), -3);
}

#[test]
fn dup_promotes_both_handles() {
    let mut a = SharedI8::new(-5);
    let b = a.dup();
    assert!(a.is_shared());
    assert!(b.is_shared());
    assert_eq!(a.get(), -5);
    assert_eq!(b.get(), -5);

    let mut f = SharedF64::new((2.5f64).to_bits());
    let g = f.dup();
    assert!(f.is_shared());
    assert!(g.is_shared());
    assert_eq!(f64::from_bits(g.get()), 2.5);

    let mut o = SharedObject::new(String::from("first"));
    let p = o.dup();
    assert!(o.is_shared());
    assert!(p.is_shared());
    assert_eq!(*p.get(), "first");
}

#[test]
fn dup_sees_the_value_written_before_it() {
    let mut a = SharedI64::new(7);
    a.set(-9_000_000_000);
    let b = a.dup();
    assert_eq!(b.get(), -9_000_000_000);
    assert_eq!(a.get(), -9_000_000_000);
}

#[test]
fn promotion_is_final() {
    let mut a = SharedF32::new(1);
    let mut b = a.dup();
    drop(a);
    assert!(b.is_shared());
    b.set(17);
    assert!(b.is_shared());
    assert_eq!(b.get(), 17);
    let c = b.dup();
    assert!(b.is_shared());
    assert_eq!(c.get(), 17);
}

#[test]
fn chained_and_repeated_dup_share_one_backing() {
    let mut h1 = SharedI64::new(10);
    let mut h2 = h1.dup();
    let mut h3 = h2.dup();
    let mut h4 = h1.dup();

    h3.set(30);
    assert_eq!(h1.get(), 30);
    assert_eq!(h2.get(), 30);
    assert_eq!(h4.get(), 30);

    h4.set(40);
    assert_eq!(h1.get(), 40);
    assert_eq!(h2.get(), 40);
    assert_eq!(h3.get(), 40);

    h2.set(i64::MIN);
    assert_eq!(h1.get(), i64::MIN);
    assert_eq!(h3.get(), i64::MIN);
    assert_eq!(h4.get(), i64::MIN);

    h1.set(i64::MAX);
    assert_eq!(h2.get(), i64::MAX);
    assert_eq!(h3.get(), i64::MAX);
    assert_eq!(h4.get(), i64::MAX);
}

#[test]
fn independent_cells_do_not_share() {
    let mut a = SharedI8::new(4);
    let mut b = SharedI8::new(4);
    a.set(5);
    assert_eq!(a.get(), 5);
    assert_eq!(b.get(), 4);

    let a2 = a.dup();
    let b2 = b.dup();
    a.set(6);
    assert_eq!(a2.get(), 6);
    assert_eq!(b.get(), 4);
    assert_eq!(b2.get(), 4);
    b.set(-7);
    assert_eq!(b2.get(), -7);
    assert_eq!(a.get(), 6);
    assert_eq!(a2.get(), 6);
}

#[test]
fn shared_i8_keeps_every_value() {
    let mut a = SharedI8::new(0);
    let b = a.dup();
    let mut v = i8::MIN;
    loop {
        a.set(v);
        assert_eq!(b.get(), v);
        assert_eq!(a.get(), v);
        if v == i8::MAX {
            break;
        }
        v += 1;
    }
}

#[test]
fn nan_bit_patterns_survive_f32() {
    let quiet_negative_payload: u32 = 0xFFC0_1234;
    let signalling_payload: u32 = 0x7F80_0001;
    let negative_zero: u32 = 0x8000_0000;

    let mut cell = SharedF32::new(0);
    cell.set(quiet_negative_payload);
    assert_eq!(cell.get(), quiet_negative_payload);
    assert!(f32::from_bits(cell.get()).is_nan());

    let twin = cell.dup();
    assert_eq!(twin.get(), quiet_negative_payload);
    cell.set(signalling_payload);
    assert_eq!(twin.get(), signalling_payload);
    assert_eq!(cell.get(), signalling_payload);
    cell.set(negative_zero);
    assert_eq!(twin.get(), negative_zero);
    assert!(f32::from_bits(twin.get()).is_sign_negative());
    cell.set(u32::MAX);
    assert_eq!(twin.get(), u32::MAX);
}

#[test]
fn nan_bit_patterns_survive_f64() {
    let quiet_negative_payload: u64 = 0xFFF8_0000_DEAD_BEEF;
    let signalling_payload: u64 = 0x7FF0_0000_0000_0001;
    let negative_zero: u64 = 0x8000_0000_0000_0000;

    let mut cell = SharedF64::new(0);
    cell.set(quiet_negative_payload);
    assert_eq!(cell.get(), quiet_negative_payload);
    assert!(f64::from_bits(cell.get()).is_nan());

    let twin = cell.dup();
    assert_eq!(twin.get(), quiet_negative_payload);
    cell.set(signalling_payload);
    assert_eq!(twin.get(), signalling_payload);
    assert_eq!(cell.get(), signalling_payload);
    cell.set(negative_zero);
    assert_eq!(twin.get(), negative_zero);
    assert!(f64::from_bits(twin.get()).is_sign_negative());
    cell.set(u64::MAX);
    assert_eq!(twin.get(), u64::MAX);
}

#[test]
fn snapshots_outlive_replacement_and_the_cell() {
    let mut cell = SharedObject::new(String::from("abc"));
    let before = cell.get();
    cell.set(String::from("xyz"));
    assert_eq!(*before, "abc");
    assert_eq!(*cell.get(), "xyz");

    let mut twin = cell.dup();
    let shared_before = twin.get();
    cell.set(String::from("mno"));
    assert_eq!(*shared_before, "xyz");
    assert_eq!(*twin.get(), "mno");
    twin.set(String::from("123"));
    let last = cell.get();
    drop(cell);
    drop(twin);
    assert_eq!(*before, "abc");
    assert_eq!(*shared_before, "xyz");
    assert_eq!(*last, "123");
}

#[test]
fn get_hands_out_the_current_snapshot_itself() {
    let mut cell = SharedObject::new(5u32);
    let one = cell.get();
    let two = cell.get();
    assert!(Arc::ptr_eq(&one, &two));
    let twin = cell.dup();
    let three = twin.get();
    assert!(Arc::ptr_eq(&one, &three));
    cell.set(5u32);
    let four = twin.get();
    assert!(!Arc::ptr_eq(&one, &four));
    assert_eq!(*four, 5);
}

#[test]
fn backing_is_released_with_the_last_handle() {
    let witness = Arc::new(());
    let mut h1 = SharedObject::new(witness.clone());
    assert_eq!(Arc::strong_count(&witness), 2);
    let mut h2 = h1.dup();
    let h3 = h2.dup();
    assert_eq!(Arc::strong_count(&witness), 2);
    drop(h1);
    drop(h2);
    assert_eq!(Arc::strong_count(&witness), 2);
    let snapshot = h3.get();
    drop(h3);
    assert_eq!(Arc::strong_count(&witness), 2);
    drop(snapshot);
    assert_eq!(Arc::strong_count(&witness), 1);
}

#[test]
fn replaced_snapshot_is_released() {
    let witness = Arc::new(());
    let mut h1 = SharedObject::new(witness.clone());
    let h2 = h1.dup();
    h1.set(Arc::new(()));
    assert_eq!(Arc::strong_count(&witness), 1);
    assert!(!Arc::ptr_eq(&*h2.get(), &witness));
}

#[test]
fn handles_can_move_to_another_thread() {
    fn movable<C: Send>(cell: C) -> C {
        cell
    }
    let mut a = SharedI8::new(1);
    let b = movable(a.dup());
    assert_eq!(b.get(), 1);
    let mut c = SharedF64::new(2);
    let d = movable(c.dup());
    assert_eq!(d.get(), 2);
    let mut e = SharedObject::new(String::from("s"));
    let f = movable(e.dup());
    assert_eq!(*f.get(), "s");
    let g = movable(SharedI64::new(3));
    assert_eq!(g.get(), 3);
    let h = movable(SharedF32::new(4));
    assert_eq!(h.get(), 4);
}
