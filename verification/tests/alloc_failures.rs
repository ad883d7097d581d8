use oom_safe::AllocError;
use oom_safe::Allocator;
use oom_safe::FaultSlot;
use oom_safe::FaultVerdict;
use oom_safe::Layout;
use oom_safe::Vec;
use oom_safe::resolve_fault;

struct FailAlloc;

impl Allocator for FailAlloc {
    fn allocate(&self, _layout: Layout) -> bool {
        false
    }
}

struct LimitAlloc {
    max_size: usize,
}

impl Allocator for LimitAlloc {
    fn allocate(&self, layout: Layout) -> bool {
        layout.size <= self.max_size
    }
}

#[test]
fn failing_allocator_fails_construction_with_the_request() {
    let r: Result<Vec<u32, FailAlloc>, AllocError> = Vec::try_with_capacity_in(1, FailAlloc);
    match r {
        Ok(_) => panic!("a refused reservation must not succeed"),
        Err(e) => {
            assert_eq!(e.layout().size, core::mem::size_of::<u32>());
            assert_eq!(e.layout().align, core::mem::align_of::<u32>());
        }
    }
}

#[test]
fn failed_push_leaves_the_array_unchanged() {
    let mut v: Vec<u8, LimitAlloc> = Vec::new_in(LimitAlloc { max_size: 2 });
    v.try_push(1).unwrap();
    v.try_push(2).unwrap();
    let e = v.try_push(3).unwrap_err();
    assert_eq!(e.layout().size, 3);
    assert_eq!(v.as_slice(), &[1, 2]);
    assert_eq!(v.capacity(), 2);
}

#[test]
fn failed_extend_appends_nothing() {
    let mut v: Vec<u8, LimitAlloc> = Vec::new_in(LimitAlloc { max_size: 4 });
    v.try_extend_from_slice(&[1, 2, 3]).unwrap();
    let e = v.try_extend_from_slice(&[4, 5, 6]).unwrap_err();
    assert_eq!(e.layout().size, 6);
    assert_eq!(v.as_slice(), &[1, 2, 3]);
}

#[test]
fn failed_resize_leaves_the_array_unchanged() {
    let mut v: Vec<u8, FailAlloc> = Vec::new_in(FailAlloc);
    let e = v.try_resize(3, 7).unwrap_err();
    assert_eq!(e.layout().size, 3);
    assert_eq!(v.len(), 0);
    let mut counter = oom_safe::Counter::new();
    let mut w: Vec<u64, FailAlloc> = Vec::new_in(FailAlloc);
    w.try_resize_with(3, &mut counter).unwrap_err();
    assert_eq!(counter.count(), 0);
    assert_eq!(w.len(), 0);
}

#[test]
fn layout_from_size_align_checks_the_pair() {
    let l = Layout::from_size_align(16, 8).unwrap();
    assert_eq!(l.size, 16);
    assert_eq!(l.align, 8);
    assert!(Layout::from_size_align(16, 3).is_none());
    assert!(Layout::from_size_align(16, 0).is_none());
    assert!(Layout::from_size_align(usize::MAX, 1).is_none());
}

#[test]
fn alloc_error_carries_its_layout() {
    let l = Layout::from_size_align(32, 4).unwrap();
    let e = AllocError::new(l);
    assert_eq!(e.layout(), l);
    let copy = e;
    assert_eq!(copy, e);
}

#[test]
fn fault_slot_is_cleared_at_resolution() {
    let mut slot = FaultSlot::new();
    assert!(slot.is_empty());
    let l = Layout::from_size_align(8, 8).unwrap();
    slot.record(l);
    assert!(!slot.is_empty());
    match resolve_fault(&mut slot) {
        FaultVerdict::Recover(e) => assert_eq!(e.layout(), l),
        FaultVerdict::Fatal => panic!("a captured allocation failure must be recovered"),
    }
    assert!(slot.is_empty());
    assert_eq!(resolve_fault(&mut slot), FaultVerdict::Fatal);
    assert!(slot.is_empty());
}

#[test]
fn fault_slot_take_reads_and_clears() {
    let mut slot = FaultSlot::new();
    let l = Layout::from_size_align(64, 16).unwrap();
    slot.record(l);
    let taken = slot.take();
    assert_eq!(taken.map(|e| e.layout()), Some(l));
    assert_eq!(slot.take(), None);
}
