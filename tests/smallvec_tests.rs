use smallvec::{
    SmallVec, SmallVec1, SmallVec16, SmallVec2, SmallVec24, SmallVec32, SmallVec4, SmallVec8,
    VecLike,
};
use std::rc::Rc;

#[test]
fn test_inline() {
    let mut v = SmallVec16::new();
    v.push("hello".to_string());
    v.push("there".to_string());
    assert_eq!(v.as_slice(), &["hello".to_string(), "there".to_string()]);
}

#[test]
fn test_spill() {
    let mut v = SmallVec2::new();
    v.push("hello".to_string());
    v.push("there".to_string());
    v.push("burma".to_string());
    v.push("shave".to_string());
    assert_eq!(
        v.as_slice(),
        &["hello".to_string(), "there".to_string(), "burma".to_string(), "shave".to_string()]
    );
}

#[test]
fn test_double_spill() {
    let mut v = SmallVec2::new();
    v.push("hello".to_string());
    v.push("there".to_string());
    v.push("burma".to_string());
    v.push("shave".to_string());
    v.push("hello".to_string());
    v.push("there".to_string());
    v.push("burma".to_string());
    v.push("shave".to_string());
    assert_eq!(
        v.as_slice(),
        &[
            "hello".to_string(),
            "there".to_string(),
            "burma".to_string(),
            "shave".to_string(),
            "hello".to_string(),
            "there".to_string(),
            "burma".to_string(),
            "shave".to_string(),
        ]
    );
}

#[test]
fn spill_after_third_push_then_pop() {
    let mut v: SmallVec<String, 2> = SmallVec::new();
    v.push("a".to_string());
    v.push("b".to_string());
    assert!(!v.spilled());
    assert_eq!(v.cap(), 2);
    v.push("c".to_string());
    assert!(v.spilled());
    assert_eq!(v.cap(), 4);
    v.push("d".to_string());
    assert_eq!(
        v.as_slice(),
        &["a".to_string(), "b".to_string(), "c".to_string(), "d".to_string()]
    );
    assert_eq!(v.pop(), Some("d".to_string()));
    assert_eq!(v.len(), 3);
}

#[test]
fn pop_returns_pushed_values_last_first() {
    let mut v: SmallVec<u32, 2> = SmallVec::new();
    assert_eq!(v.pop(), None);
    for i in 0..10u32 {
        v.push(i);
    }
    for i in (0..10u32).rev() {
        assert_eq!(v.pop(), Some(i));
    }
    assert_eq!(v.pop(), None);
    assert_eq!(v.len(), 0);
    assert!(v.spilled());
    assert_eq!(v.cap(), 16);
}

#[test]
fn inline_size_pushes_stay_inline() {
    let mut v: SmallVec4<u8> = SmallVec::new();
    assert_eq!(v.inline_size(), 4);
    for i in 0..4u8 {
        v.push(i);
        assert!(!v.spilled());
        assert_eq!(v.cap(), 4);
    }
    v.push(4);
    assert!(v.spilled());
    assert!(v.cap() > v.inline_size());
    assert_eq!(v.cap(), 8);
}

#[test]
fn growth_keeps_contents() {
    let mut v: SmallVec1<u64> = SmallVec::new();
    let mut expected: Vec<u64> = Vec::new();
    for i in 0..100u64 {
        v.push(i * 3);
        expected.push(i * 3);
        assert_eq!(v.as_slice(), expected.as_slice());
    }
    assert_eq!(v.cap(), 128);
}

#[test]
fn zero_inline_size_grows_to_one() {
    let mut v: SmallVec<u8, 0> = SmallVec::new();
    assert_eq!(v.cap(), 0);
    assert!(!v.spilled());
    v.push(9);
    assert_eq!(v.cap(), 1);
    assert!(v.spilled());
    v.push(8);
    assert_eq!(v.cap(), 2);
    assert_eq!(v.as_slice(), &[9, 8]);
}

#[test]
fn variants_have_their_inline_sizes() {
    assert_eq!(SmallVec1::<u8>::new().inline_size(), 1);
    assert_eq!(SmallVec2::<u8>::new().inline_size(), 2);
    assert_eq!(SmallVec4::<u8>::new().inline_size(), 4);
    assert_eq!(SmallVec8::<u8>::new().inline_size(), 8);
    assert_eq!(SmallVec16::<u8>::new().inline_size(), 16);
    assert_eq!(SmallVec24::<u8>::new().inline_size(), 24);
    assert_eq!(SmallVec32::<u8>::new().cap(), 32);
}

#[test]
fn move_iter_drops_each_remaining_element_once() {
    let token = Rc::new(());
    let mut v: SmallVec2<Rc<()>> = SmallVec::new();
    for _ in 0..5 {
        v.push(token.clone());
    }
    assert_eq!(Rc::strong_count(&token), 6);
    let mut it = v.move_iter();
    assert_eq!(v.len(), 0);
    assert!(!v.spilled());
    assert_eq!(v.cap(), 2);
    assert_eq!(it.len(), 5);
    let first = it.next();
    assert!(first.is_some());
    assert_eq!(it.len(), 4);
    drop(it);
    assert_eq!(Rc::strong_count(&token), 2);
    drop(first);
    drop(v);
    assert_eq!(Rc::strong_count(&token), 1);
}

#[test]
fn move_iter_yields_in_order() {
    let mut v: SmallVec2<String> = SmallVec::new();
    v.push("x".to_string());
    v.push("y".to_string());
    v.push("z".to_string());
    let mut it = v.move_iter();
    assert_eq!(it.next(), Some("x".to_string()));
    assert_eq!(it.next(), Some("y".to_string()));
    assert_eq!(it.next(), Some("z".to_string()));
    assert_eq!(it.next(), None);
    v.push("again".to_string());
    assert_eq!(v.as_slice(), &["again".to_string()]);
}

#[test]
fn spilled_container_drops_elements_once() {
    let token = Rc::new(());
    {
        let mut v: SmallVec1<Rc<()>> = SmallVec::new();
        for _ in 0..7 {
            v.push(token.clone());
        }
        assert_eq!(Rc::strong_count(&token), 8);
        let last = v.pop();
        assert_eq!(Rc::strong_count(&token), 8);
        drop(last);
        assert_eq!(Rc::strong_count(&token), 7);
    }
    assert_eq!(Rc::strong_count(&token), 1);
}

#[test]
fn clone_is_deep_and_independent() {
    let mut v: SmallVec2<String> = SmallVec::new();
    v.push("one".to_string());
    v.push("two".to_string());
    v.push("three".to_string());
    let mut c = v.clone();
    assert_eq!(c.as_slice(), v.as_slice());
    assert_eq!(c.cap(), v.cap());
    c.get_mut(0).push_str("!");
    c.push("four".to_string());
    assert_eq!(v.as_slice(), &["one".to_string(), "two".to_string(), "three".to_string()]);
    assert_eq!(c.get(0), "one!");
    assert_eq!(c.len(), 4);
}

#[test]
fn get_and_get_mut_reach_elements() {
    let mut v: SmallVec2<i32> = SmallVec::new();
    v.push(10);
    v.push(20);
    v.push(30);
    assert_eq!(*v.get(0), 10);
    assert_eq!(*v.get(2), 30);
    *v.get_mut(1) = 25;
    assert_eq!(v.as_slice(), &[10, 25, 30]);
}

#[test]
fn slices_view_ranges() {
    let mut v: SmallVec4<i32> = SmallVec::new();
    for i in 1..=6 {
        v.push(i);
    }
    assert_eq!(v.slice(1, 4), &[2, 3, 4]);
    assert_eq!(v.slice(3, 3), &[] as &[i32]);
    {
        let m = v.mut_slice(2, 5);
        assert_eq!(m.len(), 3);
        m[0] = 30;
        m[2] = 50;
    }
    assert_eq!(v.as_slice(), &[1, 2, 30, 4, 50, 6]);
    v.mut_slice_from(4)[1] = 60;
    assert_eq!(v.as_slice(), &[1, 2, 30, 4, 50, 60]);
    v.as_mut_slice()[0] = 100;
    assert_eq!(v.as_slice(), &[100, 2, 30, 4, 50, 60]);
}

#[test]
fn iterators_walk_front_to_back() {
    let mut v: SmallVec2<i32> = SmallVec::new();
    v.push(1);
    v.push(2);
    v.push(3);
    let mut it = v.iter();
    assert_eq!(it.next(), Some(&1));
    assert_eq!(it.next(), Some(&2));
    assert_eq!(it.next(), Some(&3));
    assert_eq!(it.next(), None);
    let mut m = v.mut_iter();
    while let Some(x) = m.next() {
        *x *= 10;
    }
    assert_eq!(v.as_slice(), &[10, 20, 30]);
}

#[test]
fn explicit_grow_relocates() {
    let mut v: SmallVec4<String> = SmallVec::new();
    v.push("p".to_string());
    v.push("q".to_string());
    v.grow(10);
    assert!(v.spilled());
    assert_eq!(v.cap(), 10);
    assert_eq!(v.as_slice(), &["p".to_string(), "q".to_string()]);
}

#[test]
fn push_all_move_appends_in_order() {
    let mut a: SmallVec2<String> = SmallVec::new();
    a.push("a".to_string());
    let mut b: SmallVec4<String> = SmallVec::new();
    b.push("b".to_string());
    b.push("c".to_string());
    b.push("d".to_string());
    a.push_all_move(b);
    assert_eq!(
        a.as_slice(),
        &["a".to_string(), "b".to_string(), "c".to_string(), "d".to_string()]
    );
    assert!(a.spilled());
}

fn fill<V: VecLike<u32>>(v: &mut V) {
    for i in 0..5u32 {
        v.vec_push(i);
    }
    let len = v.vec_len();
    v.vec_mut_slice(1, 3)[0] = 11;
    v.vec_mut_slice_from(len - 1)[0] = 44;
}

#[test]
fn vec_like_is_shared_by_vec_and_small_vec() {
    let mut plain: Vec<u32> = Vec::new();
    fill(&mut plain);
    assert_eq!(plain, vec![0, 11, 2, 3, 44]);
    let mut small: SmallVec2<u32> = SmallVec::new();
    fill(&mut small);
    assert_eq!(small.as_slice(), &[0, 11, 2, 3, 44]);
    assert_eq!(small.vec_len(), 5);
}
