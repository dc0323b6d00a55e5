use relative::Vtable;
use std::any::Any;
use std::cmp::Ordering;
use std::collections::hash_map::DefaultHasher;
use std::fmt::Display;
use std::hash::Hash;
use std::hash::Hasher;

fn hash_of<T: Hash>(value: &T) -> u64 {
    let mut hasher = DefaultHasher::new();
    value.hash(&mut hasher);
    hasher.finish()
}

#[test]
fn from_takes_the_offset_from_the_anchor() {
    let above = Vtable::<dyn Any>::from(0x7f00_1234, 0x7f00_0000);
    assert!(above == Vtable::new(0x1234));
    let below = Vtable::<dyn Any>::from(0x0ff0, 0x1000);
    assert!(below == Vtable::new(usize::MAX - 0xf));
    let same = Vtable::<dyn Any>::from(0x1000, 0x1000);
    assert!(same == Vtable::new(0));
}

#[test]
fn to_adds_the_anchor_back() {
    assert_eq!(Vtable::<dyn Any>::new(0x1234).to(0x7f00_0000), 0x7f00_1234);
    assert_eq!(Vtable::<dyn Any>::new(usize::MAX - 0xf).to(0x1000), 0x0ff0);
    assert_eq!(Vtable::<dyn Any>::new(0).to(usize::MAX), usize::MAX);
    assert_eq!(Vtable::<dyn Any>::new(2).to(usize::MAX), 1);
}

#[test]
fn local_round_trip() {
    let anchors = [0usize, 0x1000, 0x5555_5000, usize::MAX];
    let addresses = [0usize, 0x0fff, 0x1000, 0x5555_6000, usize::MAX];
    for &anchor in anchors.iter() {
        for &address in addresses.iter() {
            let v = Vtable::<dyn Display>::from(address, anchor);
            assert_eq!(v.to(anchor), address);
        }
    }
}

#[test]
fn references_to_one_item_agree_between_processes() {
    let place = 0x2a8usize;
    let first_anchor = 0x5581_2000_0000usize;
    let second_anchor = 0x7f3c_9000_0000usize;
    let in_first = Vtable::<dyn Any>::from(first_anchor.wrapping_add(place), first_anchor);
    let in_second = Vtable::<dyn Any>::from(second_anchor.wrapping_add(place), second_anchor);
    assert!(in_first == in_second);
    assert!(in_first == Vtable::new(place));
    assert_ne!(in_first.to(first_anchor), in_second.to(second_anchor));
    assert_eq!(in_first.to(second_anchor), second_anchor + place);
}

#[test]
fn equality_follows_the_offset() {
    let a = Vtable::<dyn Any>::new(7);
    let b = Vtable::<dyn Any>::new(7);
    let c = Vtable::<dyn Any>::new(8);
    assert!(a == b);
    assert!(!(a != b));
    assert!(a != c);
    assert!(!(a == c));
}

#[test]
fn order_follows_the_offset() {
    let small = Vtable::<dyn Any>::new(3);
    let large = Vtable::<dyn Any>::new(usize::MAX);
    assert!(small < large);
    assert!(small <= large);
    assert!(large > small);
    assert!(large >= small);
    assert!(small <= small);
    assert!(!(small < small));
    assert_eq!(small.cmp(&large), Ordering::Less);
    assert_eq!(large.cmp(&small), Ordering::Greater);
    assert_eq!(small.cmp(&small), Ordering::Equal);
    assert_eq!(small.partial_cmp(&large), Some(Ordering::Less));
    assert_eq!(large.partial_cmp(&small), Some(Ordering::Greater));
    assert_eq!(small.partial_cmp(&small), Some(Ordering::Equal));
}

#[test]
fn order_agrees_with_the_order_of_offsets() {
    let offsets = [0usize, 1, 2, 0x1000, usize::MAX - 1, usize::MAX];
    for &x in offsets.iter() {
        for &y in offsets.iter() {
            let a = Vtable::<str>::new(x);
            let b = Vtable::<str>::new(y);
            assert_eq!(a.cmp(&b), x.cmp(&y));
            assert_eq!(a.partial_cmp(&b), x.partial_cmp(&y));
            assert_eq!(a == b, x == y);
            assert_eq!(a < b, x < y);
        }
    }
}

#[test]
fn hash_is_the_hash_of_the_offset() {
    let offsets = [0usize, 1, 0x1234, usize::MAX];
    for &x in offsets.iter() {
        assert_eq!(hash_of(&Vtable::<dyn Any>::new(x)), hash_of(&x));
    }
    assert_eq!(
        hash_of(&Vtable::<dyn Any>::from(0x1010, 0x1000)),
        hash_of(&Vtable::<dyn Any>::from(0x9010, 0x9000))
    );
    assert_ne!(
        hash_of(&Vtable::<dyn Any>::new(1)),
        hash_of(&Vtable::<dyn Any>::new(2))
    );
}

#[test]
fn copies_are_equal() {
    let v = Vtable::<dyn Any>::new(99);
    let copied = v;
    let cloned = v.clone();
    assert!(v == copied);
    assert!(v == cloned);
    assert_eq!(cloned.to(1), 100);
}

#[test]
fn debug_string_names_the_type_and_the_offset() {
    assert_eq!(
        Vtable::<dyn Display>::new(1234).debug_string("dyn core::fmt::Display"),
        "Vtable { dyn core::fmt::Display: 1234 }"
    );
    assert_eq!(Vtable::<()>::new(0).debug_string("()"), "Vtable { (): 0 }");
    assert_eq!(Vtable::<u8>::new(10).debug_string("u8"), "Vtable { u8: 10 }");
    assert_eq!(
        Vtable::<u8>::new(usize::MAX).debug_string(""),
        format!("Vtable {{ : {} }}", usize::MAX)
    );
}
