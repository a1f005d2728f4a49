//! LoongArch64: the trap frame, the FPU register file and the task context,
//! with the register transfer of a task switch over a model of the core.
use vstd::prelude::*;

use crate::addr::{PhysAddr, VirtAddr};
use crate::features::{bump, bumped, Features};

verus! {

/// General registers of Loongarch64.
#[derive(Clone, Copy, Debug, Default)]
pub struct GeneralRegisters {
    pub zero: usize,
    pub ra: usize,
    pub tp: usize,
    pub sp: usize,
    pub a0: usize,
    pub a1: usize,
    pub a2: usize,
    pub a3: usize,
    pub a4: usize,
    pub a5: usize,
    pub a6: usize,
    pub a7: usize,
    pub t0: usize,
    pub t1: usize,
    pub t2: usize,
    pub t3: usize,
    pub t4: usize,
    pub t5: usize,
    pub t6: usize,
    pub t7: usize,
    pub t8: usize,
    pub u0: usize,
    pub fp: usize,
    pub s0: usize,
    pub s1: usize,
    pub s2: usize,
    pub s3: usize,
    pub s4: usize,
    pub s5: usize,
    pub s6: usize,
    pub s7: usize,
    pub s8: usize,
}

impl GeneralRegisters {
    /// Every register zero.
    pub open spec fn zeroed() -> GeneralRegisters {
        GeneralRegisters {
            zero: 0,
            ra: 0,
            tp: 0,
            sp: 0,
            a0: 0,
            a1: 0,
            a2: 0,
            a3: 0,
            a4: 0,
            a5: 0,
            a6: 0,
            a7: 0,
            t0: 0,
            t1: 0,
            t2: 0,
            t3: 0,
            t4: 0,
            t5: 0,
            t6: 0,
            t7: 0,
            t8: 0,
            u0: 0,
            fp: 0,
            s0: 0,
            s1: 0,
            s2: 0,
            s3: 0,
            s4: 0,
            s5: 0,
            s6: 0,
            s7: 0,
            s8: 0,
        }
    }

    /// Creates a register file with every register zero.
    pub fn new() -> (r: GeneralRegisters)
        ensures
            r == GeneralRegisters::zeroed(),
    {
        GeneralRegisters {
            zero: 0,
            ra: 0,
            tp: 0,
            sp: 0,
            a0: 0,
            a1: 0,
            a2: 0,
            a3: 0,
            a4: 0,
            a5: 0,
            a6: 0,
            a7: 0,
            t0: 0,
            t1: 0,
            t2: 0,
            t3: 0,
            t4: 0,
            t5: 0,
            t6: 0,
            t7: 0,
            t8: 0,
            u0: 0,
            fp: 0,
            s0: 0,
            s1: 0,
            s2: 0,
            s3: 0,
            s4: 0,
            s5: 0,
            s6: 0,
            s7: 0,
            s8: 0,
        }
    }
}

/// Floating-point registers of LoongArch64
#[derive(Clone, Copy, Debug, Default)]
pub struct FpuState {
    /// Floating-point registers (f0-f31)
    pub fp: [u64; 32],
    /// Floating-point Condition Code register
    pub fcc: [u8; 8],
    /// Floating-point Control and Status register
    pub fcsr: u32,
}

impl FpuState {
    /// A register file with every register and control field zero.
    pub open spec fn zeroed() -> FpuState {
        FpuState {
            fp: vstd::array::spec_array_fill_for_copy_type::<u64, 32>(0),
            fcc: vstd::array::spec_array_fill_for_copy_type::<u8, 8>(0),
            fcsr: 0,
        }
    }

    /// Save the current FPU states from CPU to this structure.
    pub fn save(&mut self, cpu: &Cpu)
        ensures
            *final(self) == cpu.fpu,
    {
        *self = cpu.fpu;
    }

    /// Restore FPU states from this structure to CPU.
    ///
    /// Every register, the condition codes and the control and status
    /// register are replaced; nothing else on the core changes.
    pub fn restore(&self, cpu: &mut Cpu)
        ensures
            *final(cpu) == old(cpu).with_fpu(*self),
    {
        cpu.fpu = *self;
    }
}

/// Saved registers when a trap (interrupt or exception) occurs.
#[derive(Clone, Copy, Debug, Default)]
pub struct TrapFrame {
    /// All general registers.
    pub regs: GeneralRegisters,
    /// Pre-exception Mode Information
    pub prmd: usize,
    /// Exception Return Address
    pub era: usize,
}

impl TrapFrame {
    /// Gets the 0th syscall argument.
    pub fn arg0(&self) -> (r: usize)
        ensures
            r == self.regs.a0,
    {
        self.regs.a0
    }

    /// Gets the 1st syscall argument.
    pub fn arg1(&self) -> (r: usize)
        ensures
            r == self.regs.a1,
    {
        self.regs.a1
    }

    /// Gets the 2nd syscall argument.
    pub fn arg2(&self) -> (r: usize)
        ensures
            r == self.regs.a2,
    {
        self.regs.a2
    }

    /// Gets the 3rd syscall argument.
    pub fn arg3(&self) -> (r: usize)
        ensures
            r == self.regs.a3,
    {
        self.regs.a3
    }

    /// Gets the 4th syscall argument.
    pub fn arg4(&self) -> (r: usize)
        ensures
            r == self.regs.a4,
    {
        self.regs.a4
    }

    /// Gets the 5th syscall argument.
    pub fn arg5(&self) -> (r: usize)
        ensures
            r == self.regs.a5,
    {
        self.regs.a5
    }
}

/// The live state of a LoongArch64 core that a task switch reads or writes.
#[derive(Clone, Copy)]
pub struct Cpu {
    /// The capabilities that switches on this core honour.
    pub features: Features,
    /// The general registers.
    pub regs: GeneralRegisters,
    /// Where execution continues.
    pub pc: usize,
    /// The kernel stack pointer that trap entry from user mode loads.
    pub kernel_sp: usize,
    /// User page table root (PGDL).
    pub pgdl: usize,
    /// The FPU register file.
    pub fpu: FpuState,
    /// How many times PGDL has been written (wrapping).
    pub page_table_writes: u64,
    /// How many times the whole TLB has been invalidated (wrapping).
    pub tlb_flushes: u64,
}

impl Cpu {
    /// A core in reset state: every register zero, no event counted yet.
    pub open spec fn reset(features: Features) -> Cpu {
        Cpu {
            features,
            regs: GeneralRegisters::zeroed(),
            pc: 0,
            kernel_sp: 0,
            pgdl: 0,
            fpu: FpuState::zeroed(),
            page_table_writes: 0,
            tlb_flushes: 0,
        }
    }

    /// Creates a core in reset state.
    pub fn new(features: Features) -> (r: Cpu)
        ensures
            r == Cpu::reset(features),
    {
        Cpu {
            features,
            regs: GeneralRegisters::new(),
            pc: 0,
            kernel_sp: 0,
            pgdl: 0,
            fpu: FpuState { fp: [0u64; 32], fcc: [0u8; 8], fcsr: 0 },
            page_table_writes: 0,
            tlb_flushes: 0,
        }
    }

    /// This core with its FPU register file replaced by `s`.
    pub open spec fn with_fpu(self, s: FpuState) -> Cpu {
        Cpu { fpu: s, ..self }
    }

    /// The registers that a task owns, and that a switch away from it and
    /// back must give back unchanged, are the same on both cores.
    pub open spec fn same_task_registers(self, other: Cpu) -> bool {
        &&& self.regs.ra == other.regs.ra
        &&& self.regs.sp == other.regs.sp
        &&& self.regs.tp == other.regs.tp
        &&& self.regs.fp == other.regs.fp
        &&& self.regs.s0 == other.regs.s0
        &&& self.regs.s1 == other.regs.s1
        &&& self.regs.s2 == other.regs.s2
        &&& self.regs.s3 == other.regs.s3
        &&& self.regs.s4 == other.regs.s4
        &&& self.regs.s5 == other.regs.s5
        &&& self.regs.s6 == other.regs.s6
        &&& self.regs.s7 == other.regs.s7
        &&& self.regs.s8 == other.regs.s8
        &&& self.fpu == other.fpu
    }

    /// Reads the thread pointer register.
    pub fn read_thread_pointer(&self) -> (r: usize)
        ensures
            r == self.regs.tp,
    {
        self.regs.tp
    }

    /// Writes the thread pointer register.
    pub fn write_thread_pointer(&mut self, tp: usize)
        ensures
            *final(self) == (Cpu { regs: GeneralRegisters { tp, ..old(self).regs }, ..*old(self) }),
    {
        self.regs.tp = tp;
    }

    /// Sets the kernel stack pointer that trap entry from user mode loads.
    pub fn write_kernel_sp(&mut self, sp: usize)
        ensures
            *final(self) == (Cpu { kernel_sp: sp, ..*old(self) }),
    {
        self.kernel_sp = sp;
    }

    /// Installs a user page table root.
    pub fn write_user_page_table(&mut self, root: PhysAddr)
        ensures
            *final(self) == (Cpu {
                pgdl: root.0,
                page_table_writes: bumped(old(self).page_table_writes),
                ..*old(self)
            }),
    {
        self.pgdl = root.as_usize();
        self.page_table_writes = bump(self.page_table_writes);
    }

    /// Invalidates every entry of the TLB.
    pub fn flush_tlb(&mut self)
        ensures
            *final(self) == (Cpu { tlb_flushes: bumped(old(self).tlb_flushes), ..*old(self) }),
    {
        self.tlb_flushes = bump(self.tlb_flushes);
    }
}

/// Saved hardware states of a task.
///
/// The context holds the return address, the stack pointer, the callee-saved
/// registers, the thread pointer, the user page table root and the FPU
/// registers.
///
/// On context switch, current task saves its context from CPU to memory,
/// and the next task restores its context from memory to CPU.
#[derive(Debug, Default)]
pub struct TaskContext {
    /// Return Address
    pub ra: usize,
    /// Stack Pointer
    pub sp: usize,
    /// The callee-saved registers $s0..$s8, then $fp ($r23..$r31, $r22).
    pub s: [usize; 10],
    /// Thread Pointer
    pub tp: usize,
    /// user page table root
    pub pgdl: usize,
    /// Floating Point Unit states
    pub fpu: FpuState,
}

/// The callee-saved registers of `regs` in the order that a context keeps
/// them.
pub open spec fn callee_saved(regs: GeneralRegisters) -> [usize; 10] {
    [regs.s0, regs.s1, regs.s2, regs.s3, regs.s4, regs.s5, regs.s6, regs.s7, regs.s8, regs.fp]
}

impl TaskContext {
    /// The context with every field zero.
    pub open spec fn zeroed() -> TaskContext {
        TaskContext {
            ra: 0,
            sp: 0,
            s: vstd::array::spec_array_fill_for_copy_type::<usize, 10>(0),
            tp: 0,
            pgdl: 0,
            fpu: FpuState::zeroed(),
        }
    }

    /// What the task leaving `cpu` keeps in this context after a switch.
    pub open spec fn saved_from(self, cpu: Cpu) -> TaskContext {
        TaskContext {
            ra: cpu.regs.ra,
            sp: cpu.regs.sp,
            s: callee_saved(cpu.regs),
            tp: if cpu.features.tls { cpu.regs.tp } else { self.tp },
            pgdl: self.pgdl,
            fpu: if cpu.features.fp_simd { cpu.fpu } else { self.fpu },
        }
    }

    /// Whether a switch from this context to `next` installs `next`'s page
    /// table root and flushes the TLB.
    pub open spec fn changes_root(self, next: TaskContext, cpu: Cpu) -> bool {
        cpu.features.uspace && self.pgdl != next.pgdl
    }

    /// The general registers after `next` has been loaded into `regs`.
    pub open spec fn loaded_regs(next: TaskContext, regs: GeneralRegisters) -> GeneralRegisters {
        GeneralRegisters {
            ra: next.ra,
            sp: next.sp,
            s0: next.s[0],
            s1: next.s[1],
            s2: next.s[2],
            s3: next.s[3],
            s4: next.s[4],
            s5: next.s[5],
            s6: next.s[6],
            s7: next.s[7],
            s8: next.s[8],
            fp: next.s[9],
            ..regs
        }
    }

    /// The core after a switch from this context to `next`: it runs `next`
    /// from `next`'s return address.
    pub open spec fn switched_cpu(self, next: TaskContext, cpu: Cpu) -> Cpu {
        let root_changes = self.changes_root(next, cpu);
        let regs = if cpu.features.tls {
            GeneralRegisters { tp: next.tp, ..cpu.regs }
        } else {
            cpu.regs
        };
        Cpu {
            features: cpu.features,
            regs: TaskContext::loaded_regs(next, regs),
            pc: next.ra,
            kernel_sp: if cpu.features.uspace { next.sp } else { cpu.kernel_sp },
            pgdl: if root_changes { next.pgdl } else { cpu.pgdl },
            fpu: if cpu.features.fp_simd { next.fpu } else { cpu.fpu },
            page_table_writes: if root_changes {
                bumped(cpu.page_table_writes)
            } else {
                cpu.page_table_writes
            },
            tlb_flushes: if root_changes { bumped(cpu.tlb_flushes) } else { cpu.tlb_flushes },
        }
    }

    /// Creates a new default context for a new task.
    ///
    /// The context is not runnable until [`Self::init`] has been called, or
    /// until a [`Self::switch_to`] from it has filled it.
    pub fn new() -> (r: TaskContext)
        ensures
            r == TaskContext::zeroed(),
    {
        TaskContext {
            ra: 0,
            sp: 0,
            s: [0usize; 10],
            tp: 0,
            pgdl: 0,
            fpu: FpuState { fp: [0u64; 32], fcc: [0u8; 8], fcsr: 0 },
        }
    }

    /// Initializes the context for a new task, with the given entry point and
    /// kernel stack.
    ///
    /// Only the stack pointer, the return address and the thread pointer are
    /// written.
    pub fn init(&mut self, entry: usize, kstack_top: VirtAddr, tls_area: VirtAddr)
        ensures
            *final(self) == (TaskContext { sp: kstack_top.0, ra: entry, tp: tls_area.0, ..*old(self) }),
    {
        self.sp = kstack_top.as_usize();
        self.ra = entry;
        self.tp = tls_area.as_usize();
    }

    /// Changes the page table root in this context.
    ///
    /// The hardware register for user page table root (`pgdl`) will be
    /// updated to the next task's after [`Self::switch_to`].
    pub fn set_page_table_root(&mut self, pgdl: PhysAddr)
        ensures
            *final(self) == (TaskContext { pgdl: pgdl.0, ..*old(self) }),
    {
        self.pgdl = pgdl.as_usize();
    }

    /// Switches to another task.
    ///
    /// It first saves the current task's context from CPU to this place, and
    /// then restores the next task's context from `next_ctx` to CPU. The user
    /// page table root is installed, and the whole TLB flushed, exactly when
    /// the two contexts hold different roots.
    pub fn switch_to(&mut self, next_ctx: &TaskContext, cpu: &mut Cpu)
        ensures
            *final(self) == old(self).saved_from(*old(cpu)),
            *final(cpu) == old(self).switched_cpu(*next_ctx, *old(cpu)),
            final(cpu).pc == next_ctx.ra,
            old(self).changes_root(*next_ctx, *old(cpu)) ==> final(cpu).page_table_writes == bumped(
                old(cpu).page_table_writes,
            ) && final(cpu).tlb_flushes == bumped(old(cpu).tlb_flushes),
            !old(self).changes_root(*next_ctx, *old(cpu)) ==> final(cpu).page_table_writes
                == old(cpu).page_table_writes && final(cpu).tlb_flushes == old(cpu).tlb_flushes
                && final(cpu).pgdl == old(cpu).pgdl,
    {
        if cpu.features.tls {
            self.tp = cpu.read_thread_pointer();
            cpu.write_thread_pointer(next_ctx.tp);
        }
        if cpu.features.uspace {
            cpu.write_kernel_sp(next_ctx.sp);
            if self.pgdl != next_ctx.pgdl {
                cpu.write_user_page_table(PhysAddr::from_usize(next_ctx.pgdl));
                cpu.flush_tlb();  // currently flush the entire TLB
            }
        }
        if cpu.features.fp_simd {
            self.fpu.save(cpu);
            next_ctx.fpu.restore(cpu);
        }
        context_switch(self, next_ctx, cpu);
    }
}

/// Stores the return address, the stack pointer and the callee-saved
/// registers of `cpu` into `current_task`, loads those of `next_task`, and
/// returns through the loaded return address.
fn context_switch(current_task: &mut TaskContext, next_task: &TaskContext, cpu: &mut Cpu)
    ensures
        *final(current_task) == (TaskContext {
            ra: old(cpu).regs.ra,
            sp: old(cpu).regs.sp,
            s: callee_saved(old(cpu).regs),
            ..*old(current_task)
        }),
        *final(cpu) == (Cpu {
            regs: TaskContext::loaded_regs(*next_task, old(cpu).regs),
            pc: next_task.ra,
            ..*old(cpu)
        }),
{
    // save old context (callee-saved registers)
    current_task.ra = cpu.regs.ra;
    current_task.sp = cpu.regs.sp;
    current_task.s = [
        cpu.regs.s0,
        cpu.regs.s1,
        cpu.regs.s2,
        cpu.regs.s3,
        cpu.regs.s4,
        cpu.regs.s5,
        cpu.regs.s6,
        cpu.regs.s7,
        cpu.regs.s8,
        cpu.regs.fp,
    ];
    // restore new context
    cpu.regs.fp = next_task.s[9];
    cpu.regs.s8 = next_task.s[8];
    cpu.regs.s7 = next_task.s[7];
    cpu.regs.s6 = next_task.s[6];
    cpu.regs.s5 = next_task.s[5];
    cpu.regs.s4 = next_task.s[4];
    cpu.regs.s3 = next_task.s[3];
    cpu.regs.s2 = next_task.s[2];
    cpu.regs.s1 = next_task.s[1];
    cpu.regs.s0 = next_task.s[0];
    cpu.regs.sp = next_task.sp;
    cpu.regs.ra = next_task.ra;
    // return through the loaded return address
    cpu.pc = cpu.regs.ra;
}

/// Switching from a task to another and straight back gives the first task
/// its return address, stack pointer, callee-saved registers, thread pointer
/// and FPU registers as they were, and resumes it where it called the first
/// switch.
pub proof fn lemma_switch_round_trip(a: TaskContext, b: TaskContext, cpu: Cpu)
    ensures
        ({
            let a1 = a.saved_from(cpu);
            let c1 = a.switched_cpu(b, cpu);
            let c2 = b.switched_cpu(a1, c1);
            c2.same_task_registers(cpu) && c2.pc == cpu.regs.ra
        }),
{
}

/// Initializing a zeroed context sets the return address, the stack pointer
/// and the thread pointer, and leaves every other field zero.
pub proof fn lemma_init_isolates(entry: usize, kstack_top: VirtAddr, tls_area: VirtAddr)
    ensures
        ({
            let c = TaskContext {
                sp: kstack_top.0,
                ra: entry,
                tp: tls_area.0,
                ..TaskContext::zeroed()
            };
            &&& c.ra == entry
            &&& c.sp == kstack_top.0
            &&& c.tp == tls_area.0
            &&& forall|i: int| 0 <= i < 10 ==> c.s[i] == 0
            &&& c.pgdl == 0
            &&& c.fpu.fcsr == 0
            &&& forall|i: int| 0 <= i < 32 ==> c.fpu.fp[i] == 0
            &&& forall|i: int| 0 <= i < 8 ==> c.fpu.fcc[i] == 0
        }),
{
}

/// Saving the FPU registers, overwriting them with anything, then restoring
/// what was saved gives back the core exactly as it was.
pub proof fn lemma_fpu_save_restore(cpu: Cpu, saved: FpuState, clobber: FpuState)
    requires
        saved == cpu.fpu,
    ensures
        cpu.with_fpu(clobber).with_fpu(saved) == cpu,
{
}

} // verus!
