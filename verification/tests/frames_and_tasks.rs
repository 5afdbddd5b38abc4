//! The frame allocator, physical frames and the task model.

use virtio_gpu::frame_allocator::{init, FreeListAllocator, PhysAddr, PhysFrame, PAGE_SIZE};
use virtio_gpu::task::{CalleeRegs, KernelStack, Task, TaskContext, TaskStatus};

#[test]
fn allocator_bumps_through_its_region() {
    let mut a = FreeListAllocator::new();
    init(&mut a, 0x10000, 3 * PAGE_SIZE);
    assert_eq!(a.allocate(), Some(0x10000));
    assert_eq!(a.allocate(), Some(0x10000 + PAGE_SIZE));
    assert_eq!(a.allocate(), Some(0x10000 + 2 * PAGE_SIZE));
}

#[test]
fn allocator_reuses_the_most_recently_freed_frame() {
    let mut a = FreeListAllocator::new();
    init(&mut a, 0x10000, 4 * PAGE_SIZE);
    let first = a.allocate().unwrap();
    let second = a.allocate().unwrap();
    a.dealloc(first);
    a.dealloc(second);
    assert_eq!(a.allocate(), Some(second));
    assert_eq!(a.allocate(), Some(first));
}

#[test]
fn exhausted_allocator_answers_address_zero() {
    let mut a = FreeListAllocator::new();
    init(&mut a, 0x10000, PAGE_SIZE);
    assert_eq!(a.allocate(), Some(0x10000));
    assert_eq!(a.allocate(), Some(0));
    assert_eq!(a.allocate(), Some(0));
}

#[test]
fn frame_addresses_span_one_page() {
    let mut a = FreeListAllocator::new();
    init(&mut a, 0x20000, 2 * PAGE_SIZE);
    let f = PhysFrame::allocate(&mut a).unwrap();
    assert_eq!(f.start_pa(), PhysAddr(0x20000));
    assert_eq!(f.end_pa(), PhysAddr(0x20000 + PAGE_SIZE));
}

#[test]
fn alloc_zero_hands_out_a_zeroed_page() {
    let mut a = FreeListAllocator::new();
    init(&mut a, 0x20000, 2 * PAGE_SIZE);
    let f = PhysFrame::alloc_zero(&mut a).unwrap();
    assert_eq!(f.bytes.len(), PAGE_SIZE);
    assert!(f.bytes.iter().all(|b| *b == 0));
}

#[test]
fn frame_dealloc_returns_the_address() {
    let mut a = FreeListAllocator::new();
    init(&mut a, 0x20000, 2 * PAGE_SIZE);
    let f = PhysFrame::allocate(&mut a).unwrap();
    let pa = f.start_pa;
    PhysFrame::dealloc(&mut a, pa);
    assert_eq!(a.allocate(), Some(pa));
}

#[test]
fn zero_clears_every_byte() {
    let mut a = FreeListAllocator::new();
    init(&mut a, 0x20000, PAGE_SIZE);
    let mut f = PhysFrame::allocate(&mut a).unwrap();
    f.zero();
    assert!(f.bytes.iter().all(|b| *b == 0));
}

#[test]
fn kernel_stack_takes_one_frame() {
    let mut a = FreeListAllocator::new();
    init(&mut a, 0x30000, 2 * PAGE_SIZE);
    let stack = KernelStack::new(&mut a);
    assert_eq!(stack.frame.start_pa, 0x30000);
    assert_eq!(a.allocate(), Some(0x30000 + PAGE_SIZE));
}

#[test]
fn fresh_task_is_runnable_with_a_zeroed_context() {
    let mut a = FreeListAllocator::new();
    init(&mut a, 0x30000, 2 * PAGE_SIZE);
    let task = Task::new(&mut a);
    assert_eq!(task.status(), TaskStatus::Runnable);
    assert_eq!(task.inner_ctx(), TaskContext::default());
    assert_eq!(task.exit_code, 0);
    assert!(!task.task_inner.is_from_trap);
}

#[test]
fn task_context_default_is_all_zero() {
    let ctx = TaskContext::default();
    assert_eq!(ctx.rip, 0);
    assert_eq!(ctx.regs, CalleeRegs::default());
    assert_eq!(ctx.regs.rsp, 0);
    assert_eq!(ctx.regs.r15, 0);
}
