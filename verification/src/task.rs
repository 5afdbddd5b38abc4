//! Tasks of the surrounding kernel's scheduler.
//!
//! This models the data a task carries: its saved CPU context, its status
//! and its kernel stack.  The parts that reach the scheduler and the CPU —
//! spawning, yielding, exiting, the current-task lookup, the context-switch
//! assembly, and the syscall/trap frames carved out of raw stack memory —
//! are unverified kernel work and stay outside this module, as do the
//! task's entry closure, its opaque per-task data and its user-space
//! handle, which have no typed model here.

use vstd::prelude::*;

use crate::frame_allocator::allocates;
use crate::frame_allocator::FreeListAllocator;
use crate::frame_allocator::PhysFrame;

verus! {

/// The callee-saved registers a context switch preserves.
#[derive(Clone, Copy, Debug, PartialEq, Eq, Structural)]
pub struct CalleeRegs {
    pub rsp: u64,
    pub rbp: u64,
    pub rbx: u64,
    pub r12: u64,
    pub r13: u64,
    pub r14: u64,
    pub r15: u64,
}

impl Default for CalleeRegs {
    /// All registers zero.
    fn default() -> (r: Self)
        ensures
            r == (CalleeRegs { rsp: 0, rbp: 0, rbx: 0, r12: 0, r13: 0, r14: 0, r15: 0 }),
    {
        CalleeRegs { rsp: 0, rbp: 0, rbx: 0, r12: 0, r13: 0, r14: 0, r15: 0 }
    }
}

/// The saved execution context a context switch restores: the callee-saved
/// registers and the instruction pointer to resume at.
#[derive(Clone, Copy, Debug, PartialEq, Eq, Structural)]
pub struct TaskContext {
    pub regs: CalleeRegs,
    pub rip: usize,
}

impl Default for TaskContext {
    /// A zeroed context.
    fn default() -> (r: Self)
        ensures
            r == (TaskContext {
                regs: CalleeRegs { rsp: 0, rbp: 0, rbx: 0, r12: 0, r13: 0, r14: 0, r15: 0 },
                rip: 0,
            }),
    {
        TaskContext {
            regs: CalleeRegs { rsp: 0, rbp: 0, rbx: 0, r12: 0, r13: 0, r14: 0, r15: 0 },
            rip: 0,
        }
    }
}

/// The status of a task.
#[derive(Clone, Copy, Debug, PartialEq, Eq, PartialOrd, Ord, Structural)]
pub enum TaskStatus {
    /// The task is runnable.
    Runnable,
    /// The task is running.
    Running,
    /// The task is sleeping.
    Sleeping,
    /// The task has exited.
    Exited,
}

/// The mutable inner state of a task.
#[derive(Clone, Copy, Debug)]
pub struct TaskInner {
    pub task_status: TaskStatus,
    pub ctx: TaskContext,
    /// Whether the task entered the kernel through a trap; a trap frame is
    /// then read back instead of a syscall frame.
    pub is_from_trap: bool,
}

/// A task's kernel stack: one physical frame whose top holds the saved
/// syscall or trap frame.
#[derive(Clone, Debug)]
pub struct KernelStack {
    pub frame: PhysFrame,
}

impl KernelStack {
    /// Allocates a fresh kernel stack.
    pub fn new(allocator: &mut FreeListAllocator) -> (r: Self)
        requires
            old(allocator).wf(),
        ensures
            final(allocator).wf(),
            r.frame.wf(),
            allocates(*old(allocator), *final(allocator), r.frame.start_pa),
    {
        KernelStack { frame: PhysFrame::allocate(allocator).unwrap() }
    }
}

/// A task: its inner scheduling state, its exit code and its kernel stack.
#[derive(Clone, Debug)]
pub struct Task {
    pub task_inner: TaskInner,
    pub exit_code: usize,
    pub kstack: KernelStack,
}

impl Task {
    /// Builds a fresh task skeleton, as spawning sets one up: runnable,
    /// with a zeroed context, not from a trap, exit code zero, and a newly
    /// allocated kernel stack.
    pub fn new(allocator: &mut FreeListAllocator) -> (r: Self)
        requires
            old(allocator).wf(),
        ensures
            final(allocator).wf(),
            r.task_inner.task_status == TaskStatus::Runnable,
            r.task_inner.ctx == (TaskContext {
                regs: CalleeRegs { rsp: 0, rbp: 0, rbx: 0, r12: 0, r13: 0, r14: 0, r15: 0 },
                rip: 0,
            }),
            r.task_inner.is_from_trap == false,
            r.exit_code == 0,
            r.kstack.frame.wf(),
            allocates(*old(allocator), *final(allocator), r.kstack.frame.start_pa),
    {
        Task {
            task_inner: TaskInner {
                task_status: TaskStatus::Runnable,
                ctx: TaskContext {
                    regs: CalleeRegs { rsp: 0, rbp: 0, rbx: 0, r12: 0, r13: 0, r14: 0, r15: 0 },
                    rip: 0,
                },
                is_from_trap: false,
            },
            exit_code: 0,
            kstack: KernelStack::new(allocator),
        }
    }

    /// The task's saved execution context.
    pub fn inner_ctx(&self) -> (r: TaskContext)
        ensures
            r == self.task_inner.ctx,
    {
        self.task_inner.ctx
    }

    /// The task's status.
    pub fn status(&self) -> (r: TaskStatus)
        ensures
            r == self.task_inner.task_status,
    {
        self.task_inner.task_status
    }
}

} // verus!
