use oom_safe::Allocator;
use oom_safe::Counter;
use oom_safe::Global;
use oom_safe::Layout;
use oom_safe::Vec;

struct Alloc {
    inner: Global,
    _mark: u64,
}

impl Alloc {
    pub fn new() -> Self {
        Alloc { inner: Global, _mark: u64::MAX }
    }
}

impl Allocator for Alloc {
    fn allocate(&self, layout: Layout) -> bool {
        self.inner.allocate(layout)
    }
}

#[test]
fn test_vec() {
    let mut v = Vec::try_with_capacity(1).unwrap();
    v.try_push(1).unwrap();
    v.try_push(2).unwrap();
    v.try_push(3).unwrap();
    assert_eq!(v.as_slice(), &[1, 2, 3]);
}

#[test]
fn test_vec_with_alloc() {
    let mut v = Vec::try_with_capacity_in(1, Alloc::new()).unwrap();
    v.try_push(1).unwrap();
    v.try_push(2).unwrap();
    v.try_push(3).unwrap();
    assert_eq!(v.as_slice(), &[1, 2, 3]);
}

#[test]
fn test_vec_resize() {
    let mut v = Vec::new_in(Alloc::new());
    v.try_resize(3, 1).unwrap();
    assert_eq!(v.as_slice(), &[1, 1, 1]);
}

#[test]
fn test_vec_resize_with() {
    let mut v = Vec::new_in(Alloc::new());
    let mut counter = Counter::new();
    v.try_resize_with(3, &mut counter).unwrap();
    assert_eq!(v.as_slice(), &[1, 2, 3]);
}

#[test]
fn test_vec_extend_from_slice() {
    let mut v = Vec::new_in(Alloc::new());
    v.try_extend_from_slice(&[1, 2, 3]).unwrap();
    assert_eq!(v.as_slice(), &[1, 2, 3]);
}

#[test]
fn with_capacity_reserves_at_least_the_request() {
    let v: Vec<u8, Global> = Vec::try_with_capacity(10).unwrap();
    assert_eq!(v.len(), 0);
    assert!(v.capacity() >= 10);
}

#[test]
fn with_capacity_zero_always_succeeds() {
    let v: Vec<u64, Global> = Vec::try_with_capacity(0).unwrap();
    assert_eq!(v.len(), 0);
}

#[test]
fn reserve_within_capacity_succeeds() {
    let mut v: Vec<u8, Global> = Vec::new_in(Global);
    v.try_reserve(10).unwrap();
    assert!(v.capacity() >= 10);
    v.try_reserve(5).unwrap();
    assert_eq!(v.len(), 0);
}

#[test]
fn pop_truncate_clear_keep_capacity() {
    let mut v: Vec<u32, Global> = Vec::new_in(Global);
    v.try_extend_from_slice(&[1, 2, 3]).unwrap();
    let cap = v.capacity();
    assert!(cap >= 3);
    assert_eq!(v.pop(), Some(3));
    assert_eq!(v.as_slice(), &[1, 2]);
    v.truncate(1);
    assert_eq!(v.as_slice(), &[1]);
    v.truncate(9);
    assert_eq!(v.as_slice(), &[1]);
    v.clear();
    assert_eq!(v.len(), 0);
    assert_eq!(v.pop(), None);
    assert_eq!(v.capacity(), cap);
}

#[test]
fn resize_shrinks_without_failing() {
    let mut v: Vec<u8, Global> = Vec::new_in(Global);
    v.try_extend_from_slice(&[4, 5, 6, 7]).unwrap();
    v.try_resize(2, 0).unwrap();
    assert_eq!(v.as_slice(), &[4, 5]);
}

#[test]
fn resize_with_counts_invocations() {
    let mut v: Vec<u64, Global> = Vec::new_in(Global);
    let mut counter = Counter::new();
    v.try_resize_with(3, &mut counter).unwrap();
    assert_eq!(counter.count(), 3);
    v.try_resize_with(2, &mut counter).unwrap();
    assert_eq!(counter.count(), 3);
    assert_eq!(v.as_slice(), &[1, 2]);
    v.try_resize_with(4, &mut counter).unwrap();
    assert_eq!(counter.count(), 5);
    assert_eq!(v.as_slice(), &[1, 2, 4, 5]);
}
