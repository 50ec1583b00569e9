use arc_weak::{Arc, ArcData, Weak};
use std::cell::Cell;
use std::rc::Rc;

struct Probe {
    drops: Rc<Cell<usize>>,
}

impl Drop for Probe {
    fn drop(&mut self) {
        self.drops.set(self.drops.get() + 1);
    }
}

fn probe() -> (Probe, Rc<Cell<usize>>) {
    let drops = Rc::new(Cell::new(0));
    (Probe { drops: drops.clone() }, drops)
}

#[test]
fn clone_drop_then_deref() {
    let (mut rec, a) = Arc::new(5);
    let b = a.clone(&mut rec);
    assert_eq!(rec.strong_count(), 2);
    a.drop(&mut rec);
    assert_eq!(*b.deref(&rec), 5);
    assert_eq!(rec.strong_count(), 1);
    b.drop(&mut rec);
    assert!(rec.is_freed());
}

#[test]
fn upgrade_after_last_strong_drop_is_empty() {
    let (mut rec, a) = Arc::new(5);
    let w = Arc::downgrade(&a, &mut rec);
    a.drop(&mut rec);
    assert!(!rec.has_payload());
    assert!(!rec.is_freed());
    assert!(w.upgrade(&mut rec).is_none());
    w.drop(&mut rec);
    assert!(rec.is_freed());
}

#[test]
fn upgrade_while_alive_then_empty_after_all_strong_drops() {
    let (mut rec, a) = Arc::new(String::from("x"));
    let w = Arc::downgrade(&a, &mut rec);
    let b = w.upgrade(&mut rec);
    assert!(b.is_some());
    let b = b.unwrap();
    a.drop(&mut rec);
    assert_eq!(b.deref(&rec).as_str(), "x");
    b.drop(&mut rec);
    assert!(w.upgrade(&mut rec).is_none());
    assert!(!rec.is_freed());
    w.drop(&mut rec);
    assert!(rec.is_freed());
}

#[test]
fn downgrade_then_upgrade_sees_same_value() {
    let (mut rec, a) = Arc::new(vec![1u8, 2, 3]);
    let w = Arc::downgrade(&a, &mut rec);
    let b = w.upgrade(&mut rec).unwrap();
    assert_eq!(b.deref(&rec), &vec![1u8, 2, 3]);
    assert_eq!(b.deref(&rec), a.deref(&rec));
    assert_eq!(rec.strong_count(), 2);
    assert_eq!(rec.weak_count(), 1);
    b.drop(&mut rec);
    w.drop(&mut rec);
    a.drop(&mut rec);
    assert!(rec.is_freed());
}

#[test]
fn get_mut_when_unique() {
    let (mut rec, mut a) = Arc::new(7);
    match Arc::get_mut(&mut a, &mut rec) {
        Some(v) => *v = 9,
        None => panic!("a single strong handle with no weak handle is unique"),
    }
    assert_eq!(*a.deref(&rec), 9);
    assert_eq!(rec.weak_count(), 0);
    a.drop(&mut rec);
    assert!(rec.is_freed());
}

#[test]
fn get_mut_refused_with_second_strong_handle() {
    let (mut rec, mut a) = Arc::new(7);
    let b = a.clone(&mut rec);
    assert!(Arc::get_mut(&mut a, &mut rec).is_none());
    assert_eq!(rec.strong_count(), 2);
    b.drop(&mut rec);
    assert!(Arc::get_mut(&mut a, &mut rec).is_some());
    a.drop(&mut rec);
}

#[test]
fn get_mut_refused_with_weak_handle() {
    let (mut rec, mut a) = Arc::new(7);
    let w = Arc::downgrade(&a, &mut rec);
    assert!(Arc::get_mut(&mut a, &mut rec).is_none());
    assert_eq!(rec.weak_count(), 1);
    let w2 = w.clone(&mut rec);
    w.drop(&mut rec);
    assert!(Arc::get_mut(&mut a, &mut rec).is_none());
    w2.drop(&mut rec);
    assert!(Arc::get_mut(&mut a, &mut rec).is_some());
    a.drop(&mut rec);
    assert!(rec.is_freed());
}

#[test]
fn payload_destroyed_once_after_last_strong() {
    let (p, drops) = probe();
    let (mut rec, a) = Arc::new(p);
    let b = a.clone(&mut rec);
    let w = Arc::downgrade(&b, &mut rec);
    a.drop(&mut rec);
    assert_eq!(drops.get(), 0);
    b.drop(&mut rec);
    assert_eq!(drops.get(), 1);
    assert!(!rec.is_freed());
    w.drop(&mut rec);
    assert_eq!(drops.get(), 1);
    assert!(rec.is_freed());
    drop(rec);
    assert_eq!(drops.get(), 1);
}

#[test]
fn many_interleaved_clones_and_drops() {
    let (p, drops) = probe();
    let (mut rec, first) = Arc::new(p);
    let mut strong: Vec<Arc<Probe>> = vec![first];
    let mut weak: Vec<Weak<Probe>> = Vec::new();
    for round in 0..200usize {
        let s = strong[round % strong.len()].clone(&mut rec);
        strong.push(s);
        let w = Arc::downgrade(&strong[0], &mut rec);
        weak.push(w);
        if round % 3 == 0 {
            let w2 = weak[0].clone(&mut rec);
            weak.push(w2);
        }
        if round % 2 == 0 {
            let up = weak[weak.len() - 1].upgrade(&mut rec).unwrap();
            strong.push(up);
        }
        if strong.len() > 3 {
            strong.swap_remove(1).drop(&mut rec);
        }
        if weak.len() > 4 {
            weak.swap_remove(0).drop(&mut rec);
        }
        assert_eq!(rec.strong_count(), strong.len());
        assert_eq!(rec.weak_count(), weak.len());
        assert_eq!(drops.get(), 0);
    }
    while let Some(s) = strong.pop() {
        s.drop(&mut rec);
    }
    assert_eq!(drops.get(), 1);
    for w in weak.iter() {
        assert!(w.upgrade(&mut rec).is_none());
    }
    while let Some(w) = weak.pop() {
        assert!(!rec.is_freed());
        w.drop(&mut rec);
    }
    assert!(rec.is_freed());
    drop(rec);
    assert_eq!(drops.get(), 1);
}

#[test]
fn fresh_record_counts() {
    let (rec, a): (ArcData<u64>, Arc<u64>) = Arc::new(42);
    assert_eq!(rec.strong_count(), 1);
    assert_eq!(rec.weak_count(), 0);
    assert!(rec.has_payload());
    assert!(!rec.is_freed());
    assert_eq!(*a.deref(&rec), 42);
}
