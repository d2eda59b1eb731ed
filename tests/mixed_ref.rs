use mixed_ref::{MixedRef, MixedRefMut};
use std::borrow::{Borrow, BorrowMut, Cow};

#[test]
fn owned_derefs_to_its_value() {
    let m: MixedRef<i32> = MixedRef::from(Box::new(42));
    assert_eq!(*m, 42);
    assert!(matches!(m, MixedRef::Owned(_)));
    let n: MixedRefMut<String> = MixedRefMut::from(Box::new(String::from("hi")));
    assert_eq!(n.as_str(), "hi");
    assert!(matches!(n, MixedRefMut::Owned(_)));
}

#[test]
fn borrowed_derefs_to_the_same_place() {
    let data = vec![1, 2, 3];
    let m: MixedRef<Vec<i32>> = MixedRef::from(&data);
    assert!(std::ptr::eq(&*m, &data));
    assert!(std::ptr::eq(m.get(), &data));
    assert!(matches!(m, MixedRef::Borrowed(_)));
}

#[test]
fn downcast_keeps_owned_tag_and_content() {
    let m: MixedRefMut<[u8]> = MixedRefMut::from(vec![7u8, 8, 9]);
    let r = m.downcast();
    assert!(matches!(r, MixedRef::Owned(_)));
    assert_eq!(&*r, &[7u8, 8, 9][..]);
}

#[test]
fn downcast_keeps_borrowed_tag_and_content() {
    let mut x = 5u32;
    let r = MixedRefMut::from(&mut x).downcast();
    assert!(matches!(r, MixedRef::Borrowed(_)));
    assert_eq!(*r, 5);
}

#[test]
fn equality_ignores_tag() {
    let owned: MixedRef<str> = MixedRef::from(String::from("abc"));
    let borrowed: MixedRef<str> = MixedRef::from("abc");
    assert!(owned == borrowed);
    assert!(borrowed == owned);
    let other: MixedRef<str> = MixedRef::from(String::from("abd"));
    assert!(owned != other);
    assert!(owned == "abc");
    assert!(owned != "abd");
}

#[test]
fn equality_across_mutable_and_shared() {
    let mut s = String::from("abc");
    let m: MixedRefMut<str> = MixedRefMut::from(s.as_mut_str());
    let o: MixedRefMut<str> = MixedRefMut::from(String::from("abc"));
    let r: MixedRef<str> = MixedRef::from("abc");
    assert!(m == o);
    assert!(m == r);
    assert!(r == m);
    assert!(m == "abc");
    assert!(o != "xyz");
}

#[test]
fn default_is_owned_default_value() {
    let m: MixedRef<u64> = MixedRef::default();
    assert!(matches!(m, MixedRef::Owned(_)));
    assert_eq!(*m, 0);
    let n: MixedRefMut<String> = MixedRefMut::default();
    assert!(matches!(n, MixedRefMut::Owned(_)));
    assert_eq!(n.as_str(), "");
}

#[test]
fn mutation_of_owned_is_visible() {
    let mut m: MixedRefMut<i64> = MixedRefMut::from(Box::new(1));
    *m += 10;
    assert_eq!(*m, 11);
    *m.as_mut() = -3;
    assert_eq!(*m.get(), -3);
    *m.get_mut() = 8;
    assert_eq!(*m, 8);
}

#[test]
fn mutation_of_borrowed_reaches_lender() {
    let mut v = vec![1];
    {
        let mut m = MixedRefMut::from(&mut v);
        m.push(2);
        let b: &mut Vec<i32> = m.borrow_mut();
        b.push(3);
    }
    assert_eq!(v, vec![1, 2, 3]);
}

#[test]
fn owned_vec_push_then_downcast() {
    let mut m: MixedRefMut<Vec<i32>> = MixedRefMut::Owned(Box::new(vec![1, 2, 3]));
    m.get_mut().push(4);
    let r = m.downcast();
    assert_eq!(*r, vec![1, 2, 3, 4]);
}

#[test]
fn borrowed_cell_holds_new_value_after_drop() {
    let mut cell = 10;
    let mut m = MixedRefMut::Borrowed(&mut cell);
    *m = 20;
    drop(m);
    assert_eq!(cell, 20);
}

#[test]
fn owned_and_borrowed_x_compare_equal() {
    let a: MixedRef<str> = MixedRef::Owned(Box::from("x"));
    let b: MixedRef<str> = MixedRef::Borrowed("x");
    assert!(a == b);
}

#[test]
fn string_and_vec_are_boxed_with_their_content() {
    let s: MixedRef<str> = MixedRef::from(String::from("hello"));
    assert_eq!(&*s, "hello");
    assert_eq!(s.len(), 5);
    let mut t: MixedRefMut<str> = MixedRefMut::from(String::from("abc"));
    t.make_ascii_uppercase();
    assert_eq!(&*t, "ABC");
    let v: MixedRef<[i32]> = MixedRef::from(vec![4, 5]);
    assert_eq!(&*v, &[4, 5][..]);
    let mut w: MixedRefMut<[i32]> = MixedRefMut::from(vec![1, 2]);
    w[0] = 9;
    assert_eq!(&*w, &[9, 2][..]);
}

#[test]
fn reference_traits_give_the_value() {
    let x = 3u8;
    let m = MixedRef::from(&x);
    let a: &u8 = m.as_ref();
    let b: &u8 = m.borrow();
    assert_eq!((*a, *b), (3, 3));
    let mut n: MixedRefMut<u8> = MixedRefMut::from(Box::new(4));
    let c: &u8 = n.borrow();
    assert_eq!(*c, 4);
    *n.as_mut() += 1;
    assert_eq!(*n, 5);
}

#[test]
fn cow_round_trip_keeps_tag() {
    let owned: Cow<str> = Cow::Owned(String::from("own"));
    let m = MixedRef::from(owned);
    assert!(matches!(m, MixedRef::Owned(_)));
    let back: Cow<str> = m.into();
    assert!(matches!(back, Cow::Owned(ref s) if s == "own"));

    let borrowed: Cow<str> = Cow::Borrowed("lent");
    let m = MixedRef::from(borrowed);
    assert!(matches!(m, MixedRef::Borrowed(_)));
    let back = m.into_cow();
    assert!(matches!(back, Cow::Borrowed("lent")));
}

#[test]
fn mutable_into_cow() {
    let mut s = String::from("m");
    let m: MixedRefMut<str> = MixedRefMut::from(s.as_mut_str());
    let c: Cow<str> = m.into();
    assert!(matches!(c, Cow::Borrowed("m")));
    let o: MixedRefMut<[u8]> = MixedRefMut::from(vec![1u8]);
    let c: Cow<[u8]> = o.into();
    assert!(matches!(c, Cow::Owned(ref v) if v == &vec![1u8]));
}

#[test]
fn from_mutable_to_shared() {
    let m: MixedRefMut<i32> = MixedRefMut::from(Box::new(6));
    let r: MixedRef<i32> = MixedRef::from(m);
    assert!(matches!(r, MixedRef::Owned(_)));
    assert_eq!(*r, 6);
}

#[test]
fn equality_with_string_and_vec() {
    let owned: MixedRef<str> = MixedRef::from(String::from("abc"));
    let borrowed: MixedRef<str> = MixedRef::Borrowed("abc");
    assert!(owned == String::from("abc"));
    assert!(borrowed == String::from("abc"));
    assert!(owned != String::from("abd"));
    let m: MixedRefMut<str> = MixedRefMut::from(String::from("q"));
    assert!(m == String::from("q"));
    assert!(m != String::new());

    let data = [1, 2, 3];
    let s: MixedRef<[i32]> = MixedRef::Borrowed(&data[..]);
    assert!(s == vec![1, 2, 3]);
    assert!(s != vec![1, 2]);
    let t: MixedRefMut<[i32]> = MixedRefMut::from(vec![5]);
    assert!(t == vec![5]);
    assert!(t != vec![6]);
}

#[test]
fn mutable_as_ref_gives_the_value() {
    let mut x = 9u16;
    let m = MixedRefMut::from(&mut x);
    let r: &u16 = m.as_ref();
    assert_eq!(*r, 9);
}
