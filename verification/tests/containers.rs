//! Tests for the container and wrapper capabilities: sequences that grow
//! without writing, and wrappers built around one unwritten value.

use std::collections::VecDeque;
use std::rc::Rc;
use std::sync::Arc;
use std::sync::Mutex;
use std::sync::RwLock;

use safe_uninit::ResizeUninit;
use safe_uninit::UninitContent;

#[test]
fn vec_grow_shrink_grow_round_trip() {
    // Grow to 100, shrink to 10, grow to 50: at every step the container
    // must be structurally valid — the requested length, capacity at least
    // the length — and dropping it at the end must be sound.
    let mut v: Vec<u8> = Vec::new();
    v.resize_uninit(100);
    assert_eq!(v.len(), 100);
    assert!(v.capacity() >= v.len());
    v.resize_uninit(10);
    assert_eq!(v.len(), 10);
    assert!(v.capacity() >= v.len());
    v.resize_uninit(50);
    assert_eq!(v.len(), 50);
    assert!(v.capacity() >= v.len());
    let mut acc: u32 = 0;
    for b in &v {
        acc = acc.wrapping_add(*b as u32);
    }
    let _ = acc;
}

#[test]
fn vec_resize_keeps_surviving_prefix() {
    let mut v: Vec<u64> = vec![7, 9];
    v.resize_uninit(100);
    assert_eq!(v.len(), 100);
    assert_eq!(v[0], 7);
    assert_eq!(v[1], 9);
    v.resize_uninit(1);
    assert_eq!(v.len(), 1);
    assert_eq!(v[0], 7);
    v.resize_uninit(0);
    assert_eq!(v.len(), 0);
}

#[test]
fn vec_with_uninit_len_has_requested_length() {
    let v: Vec<u16> = Vec::with_uninit_len(0);
    assert_eq!(v.len(), 0);
    let v: Vec<u16> = Vec::with_uninit_len(100);
    assert_eq!(v.len(), 100);
    assert!(v.capacity() >= 100);
}

#[test]
fn vecdeque_grow_shrink_grow_round_trip() {
    let mut v: VecDeque<u8> = VecDeque::new();
    v.resize_uninit(100);
    assert_eq!(v.len(), 100);
    assert!(v.capacity() >= v.len());
    v.resize_uninit(10);
    assert_eq!(v.len(), 10);
    v.resize_uninit(50);
    assert_eq!(v.len(), 50);
    assert!(v.capacity() >= v.len());
}

#[test]
fn vecdeque_resize_keeps_surviving_prefix() {
    let mut v: VecDeque<u32> = VecDeque::new();
    v.push_back(3);
    v.push_front(1);
    v.resize_uninit(40);
    assert_eq!(v.len(), 40);
    assert_eq!(v[0], 1);
    assert_eq!(v[1], 3);
    v.resize_uninit(2);
    assert_eq!(v.len(), 2);
    assert_eq!(v[0], 1);
    assert_eq!(v[1], 3);
}

#[test]
fn vecdeque_with_uninit_len_has_requested_length() {
    let v: VecDeque<u64> = VecDeque::with_uninit_len(17);
    assert_eq!(v.len(), 17);
}

#[test]
fn box_payload_unwritten_metadata_usable() {
    // The box's allocation metadata must be fully usable — the payload can
    // be read, overwritten, and the box dropped and freed — although the
    // payload was never written.
    let mut b: Box<u32> = Box::new_safe_uninit();
    let _ = b.wrapping_add(1);
    *b = 5;
    assert_eq!(*b, 5);
    drop(b);
    let c: Box<u32> = Box::uninit_content();
    drop(c);
}

#[test]
fn rc_and_arc_counts_usable() {
    let r: Rc<u64> = Rc::new_safe_uninit();
    let r2 = Rc::clone(&r);
    assert_eq!(Rc::strong_count(&r), 2);
    let _ = r.wrapping_add(r2.wrapping_add(0));
    drop(r2);
    assert_eq!(Rc::strong_count(&r), 1);

    let a: Arc<u64> = Arc::new_safe_uninit();
    let a2 = Arc::clone(&a);
    assert_eq!(Arc::strong_count(&a), 2);
    drop(a2);
    let _ = *a;
}

#[test]
fn mutex_and_rwlock_state_usable() {
    let m: Mutex<u64> = Mutex::new_safe_uninit();
    {
        let mut guard = m.lock().unwrap();
        let _ = guard.wrapping_add(1);
        *guard = 11;
    }
    assert_eq!(*m.lock().unwrap(), 11);

    let l: RwLock<u32> = RwLock::new_safe_uninit();
    {
        let read = l.read().unwrap();
        let _ = read.wrapping_add(1);
    }
    *l.write().unwrap() = 3;
    assert_eq!(*l.read().unwrap(), 3);
}

#[test]
fn option_uninit_content_is_present_variant() {
    // The discriminant is always written: the result is the present
    // variant, whatever the payload.
    let o: Option<u64> = Option::uninit_content();
    assert!(o.is_some());
    let p: Option<[u8; 4]> = Option::uninit_content();
    match p {
        Some(payload) => assert_eq!(payload.len(), 4),
        None => unreachable!(),
    }
}

#[test]
fn carrier_types_expose_inherent_constructors() {
    let mut v = safe_uninit::carriers::Vec::<u8>::with_uninit_len(4);
    assert_eq!(v.seq.len(), 4);
    v.resize_uninit(9);
    assert_eq!(v.seq.len(), 9);
    let mut d = safe_uninit::carriers::VecDeque::<u16>::with_uninit_len(3);
    d.resize_uninit(1);
    assert_eq!(d.seq.len(), 1);
    let b = safe_uninit::carriers::Box::<u32>::new_safe_uninit();
    let _ = *b.boxed;
    let r = safe_uninit::carriers::Rc::<u32>::new_safe_uninit();
    let _ = *r.cell;
    let a = safe_uninit::carriers::Arc::<u32>::new_safe_uninit();
    let _ = *a.cell;
    let m = safe_uninit::carriers::Mutex::<u32>::new_safe_uninit();
    let _ = *m.lock.lock().unwrap();
    let l = safe_uninit::carriers::RwLock::<u32>::new_safe_uninit();
    let _ = *l.lock.read().unwrap();
}
