//! AArch64: the trap frame, the FP/SIMD register file and the task context,
//! with the register transfer of a task switch over a model of the core.
use vstd::prelude::*;

use crate::addr::{PhysAddr, VirtAddr};
use crate::features::{bump, bumped, Features};
use crate::text::{dec_digits, format_dec, format_hex, hex_text, push_text};

verus! {

/// Saved registers when a trap (exception) occurs.
#[derive(Clone, Copy, Default)]
pub struct TrapFrame {
    /// General-purpose registers (R0..R30).
    pub r: [u64; 31],
    /// User Stack Pointer (SP_EL0).
    pub usp: u64,
    /// Exception Link Register (ELR_EL1).
    pub elr: u64,
    /// Saved Process Status Register (SPSR_EL1).
    pub spsr: u64,
}

impl TrapFrame {
    /// Gets the 0th syscall argument.
    pub fn arg0(&self) -> (r: usize)
        ensures
            r == self.r[0] as usize,
    {
        self.r[0] as usize
    }

    /// Gets the 1st syscall argument.
    pub fn arg1(&self) -> (r: usize)
        ensures
            r == self.r[1] as usize,
    {
        self.r[1] as usize
    }

    /// Gets the 2nd syscall argument.
    pub fn arg2(&self) -> (r: usize)
        ensures
            r == self.r[2] as usize,
    {
        self.r[2] as usize
    }

    /// Gets the 3rd syscall argument.
    pub fn arg3(&self) -> (r: usize)
        ensures
            r == self.r[3] as usize,
    {
        self.r[3] as usize
    }

    /// Gets the 4th syscall argument.
    pub fn arg4(&self) -> (r: usize)
        ensures
            r == self.r[4] as usize,
    {
        self.r[4] as usize
    }

    /// Gets the 5th syscall argument.
    pub fn arg5(&self) -> (r: usize)
        ensures
            r == self.r[5] as usize,
    {
        self.r[5] as usize
    }
}

/// One line of a register dump: `name: value,` with the value in hexadecimal.
pub open spec fn reg_line(name: Seq<char>, v: u64) -> Seq<char> {
    name + ": "@ + hex_text(v as nat) + ",\n"@
}

/// The dump lines of the first `n` general-purpose registers in `r`.
pub open spec fn gpr_lines(r: Seq<u64>, n: nat) -> Seq<char>
    decreases n,
{
    if n == 0 {
        Seq::empty()
    } else {
        gpr_lines(r, (n - 1) as nat) + reg_line("    r"@ + dec_digits((n - 1) as nat), r[n - 1])
    }
}

impl TrapFrame {
    /// The register dump of this frame, as [`TrapFrame::fmt`] writes it.
    pub open spec fn dump(self) -> Seq<char> {
        "TrapFrame: {\n"@ + gpr_lines(self.r@, 31) + reg_line("    usp"@, self.usp) + reg_line(
            "    elr"@,
            self.elr,
        ) + reg_line("    spsr"@, self.spsr) + "}"@
    }

    /// Writes every register with its name and its value in hexadecimal.
    pub fn fmt(&self) -> (r: String)
        ensures
            r@ == self.dump(),
    {
        let mut s = String::new();
        push_text(&mut s, "TrapFrame: {\n");
        let ghost head = s@;
        let mut i: usize = 0;
        while i < 31
            invariant
                i <= 31,
                s@ == head + gpr_lines(self.r@, i as nat),
            decreases 31 - i,
        {
            let ghost before = s@;
            push_text(&mut s, "    r");
            let d = format_dec(i);
            push_text(&mut s, d.as_str());
            push_text(&mut s, ": ");
            let h = format_hex(self.r[i]);
            push_text(&mut s, h.as_str());
            push_text(&mut s, ",\n");
            assert(s@ =~= before + reg_line("    r"@ + dec_digits(i as nat), self.r@[i as int]));
            i += 1;
        }
        push_reg_line(&mut s, "    usp", self.usp);
        push_reg_line(&mut s, "    elr", self.elr);
        push_reg_line(&mut s, "    spsr", self.spsr);
        push_text(&mut s, "}");
        assert(s@ =~= self.dump());
        s
    }
}

/// Appends the dump line of a register named `name` holding `v`.
fn push_reg_line(s: &mut String, name: &str, v: u64)
    ensures
        final(s)@ == old(s)@ + reg_line(name@, v),
{
    push_text(s, name);
    push_text(s, ": ");
    let h = format_hex(v);
    push_text(s, h.as_str());
    push_text(s, ",\n");
    assert(final(s)@ =~= old(s)@ + reg_line(name@, v));
}

/// FP & SIMD registers.
#[derive(Clone, Copy, Debug, Default)]
pub struct FpState {
    /// 128-bit SIMD & FP registers (V0..V31)
    pub regs: [u128; 32],
    /// Floating-point Control Register (FPCR)
    pub fpcr: u32,
    /// Floating-point Status Register (FPSR)
    pub fpsr: u32,
}

impl FpState {
    /// A register file with every register and control field zero.
    pub open spec fn zeroed() -> FpState {
        FpState { regs: vstd::array::spec_array_fill_for_copy_type::<u128, 32>(0), fpcr: 0, fpsr: 0 }
    }

    /// Saves the current FP/SIMD states from CPU to this structure.
    pub fn save(&mut self, cpu: &Cpu)
        ensures
            *final(self) == cpu.fp,
    {
        *self = cpu.fp;
    }

    /// Restores the FP/SIMD states from this structure to CPU.
    ///
    /// Every register and both control fields are replaced; nothing else on
    /// the core changes.
    pub fn restore(&self, cpu: &mut Cpu)
        ensures
            *final(cpu) == old(cpu).with_fp(*self),
    {
        cpu.fp = *self;
    }
}

/// The live state of an AArch64 core that a task switch reads or writes.
///
/// Caller-saved registers are left out: the call of a switch already
/// preserves them.
#[derive(Clone, Copy)]
pub struct Cpu {
    /// The capabilities that switches on this core honour.
    pub features: Features,
    /// Stack pointer (SP_EL1).
    pub sp: u64,
    pub x19: u64,
    pub x20: u64,
    pub x21: u64,
    pub x22: u64,
    pub x23: u64,
    pub x24: u64,
    pub x25: u64,
    pub x26: u64,
    pub x27: u64,
    pub x28: u64,
    pub x29: u64,
    /// Link register (x30).
    pub lr: u64,
    /// Where execution continues.
    pub pc: u64,
    /// Thread pointer (TPIDR_EL0).
    pub tpidr_el0: u64,
    /// User page table root (TTBR0_EL1).
    pub ttbr0_el1: PhysAddr,
    /// The FP/SIMD register file.
    pub fp: FpState,
    /// How many times TTBR0_EL1 has been written (wrapping).
    pub page_table_writes: u64,
    /// How many times the whole TLB has been invalidated (wrapping).
    pub tlb_flushes: u64,
}

impl Cpu {
    /// A core in reset state: every register zero, no event counted yet.
    pub fn new(features: Features) -> (r: Cpu)
        ensures
            r == Cpu::reset(features),
    {
        Cpu {
            features,
            sp: 0,
            x19: 0,
            x20: 0,
            x21: 0,
            x22: 0,
            x23: 0,
            x24: 0,
            x25: 0,
            x26: 0,
            x27: 0,
            x28: 0,
            x29: 0,
            lr: 0,
            pc: 0,
            tpidr_el0: 0,
            ttbr0_el1: PhysAddr(0),
            fp: FpState { regs: [0u128; 32], fpcr: 0, fpsr: 0 },
            page_table_writes: 0,
            tlb_flushes: 0,
        }
    }

    /// The reset state that [`Cpu::new`] gives.
    pub open spec fn reset(features: Features) -> Cpu {
        Cpu {
            features,
            sp: 0,
            x19: 0,
            x20: 0,
            x21: 0,
            x22: 0,
            x23: 0,
            x24: 0,
            x25: 0,
            x26: 0,
            x27: 0,
            x28: 0,
            x29: 0,
            lr: 0,
            pc: 0,
            tpidr_el0: 0,
            ttbr0_el1: PhysAddr(0),
            fp: FpState::zeroed(),
            page_table_writes: 0,
            tlb_flushes: 0,
        }
    }

    /// This core with its FP/SIMD register file replaced by `s`.
    pub open spec fn with_fp(self, s: FpState) -> Cpu {
        Cpu { fp: s, ..self }
    }

    /// The registers that a task owns, and that a switch away from it and
    /// back must give back unchanged, are the same on both cores.
    pub open spec fn same_task_registers(self, other: Cpu) -> bool {
        &&& self.sp == other.sp
        &&& self.x19 == other.x19
        &&& self.x20 == other.x20
        &&& self.x21 == other.x21
        &&& self.x22 == other.x22
        &&& self.x23 == other.x23
        &&& self.x24 == other.x24
        &&& self.x25 == other.x25
        &&& self.x26 == other.x26
        &&& self.x27 == other.x27
        &&& self.x28 == other.x28
        &&& self.x29 == other.x29
        &&& self.lr == other.lr
        &&& self.tpidr_el0 == other.tpidr_el0
        &&& self.fp == other.fp
    }

    /// Reads the thread pointer register.
    pub fn read_thread_pointer(&self) -> (r: u64)
        ensures
            r == self.tpidr_el0,
    {
        self.tpidr_el0
    }

    /// Writes the thread pointer register.
    pub fn write_thread_pointer(&mut self, tp: u64)
        ensures
            *final(self) == (Cpu { tpidr_el0: tp, ..*old(self) }),
    {
        self.tpidr_el0 = tp;
    }

    /// Installs a user page table root.
    pub fn write_user_page_table(&mut self, root: PhysAddr)
        ensures
            *final(self) == (Cpu {
                ttbr0_el1: root,
                page_table_writes: bumped(old(self).page_table_writes),
                ..*old(self)
            }),
    {
        self.ttbr0_el1 = root;
        self.page_table_writes = bump(self.page_table_writes);
    }

    /// Invalidates every entry of the TLB.
    pub fn flush_tlb(&mut self)
        ensures
            *final(self) == (Cpu { tlb_flushes: bumped(old(self).tlb_flushes), ..*old(self) }),
    {
        self.tlb_flushes = bump(self.tlb_flushes);
    }
}

/// Saved hardware states of a task.
///
/// The context holds the callee-saved registers, the stack pointer, the
/// thread pointer, the user page table root and the FP/SIMD registers.
///
/// On context switch, current task saves its context from CPU to memory,
/// and the next task restores its context from memory to CPU.
#[derive(Debug, Default)]
pub struct TaskContext {
    pub sp: u64,
    pub tpidr_el0: u64,
    pub r19: u64,
    pub r20: u64,
    pub r21: u64,
    pub r22: u64,
    pub r23: u64,
    pub r24: u64,
    pub r25: u64,
    pub r26: u64,
    pub r27: u64,
    pub r28: u64,
    pub r29: u64,
    /// Return address (r30).
    pub lr: u64,
    /// The `ttbr0_el1` register value, i.e., the page table root.
    pub ttbr0_el1: PhysAddr,
    pub fp_state: FpState,
}

impl TaskContext {
    /// The context with every field zero.
    pub open spec fn zeroed() -> TaskContext {
        TaskContext {
            sp: 0,
            tpidr_el0: 0,
            r19: 0,
            r20: 0,
            r21: 0,
            r22: 0,
            r23: 0,
            r24: 0,
            r25: 0,
            r26: 0,
            r27: 0,
            r28: 0,
            r29: 0,
            lr: 0,
            ttbr0_el1: PhysAddr(0),
            fp_state: FpState::zeroed(),
        }
    }

    /// What the task leaving `cpu` keeps in this context after a switch.
    pub open spec fn saved_from(self, cpu: Cpu) -> TaskContext {
        TaskContext {
            sp: cpu.sp,
            tpidr_el0: if cpu.features.tls { cpu.tpidr_el0 } else { self.tpidr_el0 },
            r19: cpu.x19,
            r20: cpu.x20,
            r21: cpu.x21,
            r22: cpu.x22,
            r23: cpu.x23,
            r24: cpu.x24,
            r25: cpu.x25,
            r26: cpu.x26,
            r27: cpu.x27,
            r28: cpu.x28,
            r29: cpu.x29,
            lr: cpu.lr,
            ttbr0_el1: self.ttbr0_el1,
            fp_state: if cpu.features.fp_simd { cpu.fp } else { self.fp_state },
        }
    }

    /// Whether a switch from this context to `next` installs `next`'s page
    /// table root and flushes the TLB.
    pub open spec fn changes_root(self, next: TaskContext, cpu: Cpu) -> bool {
        cpu.features.uspace && self.ttbr0_el1 != next.ttbr0_el1
    }

    /// The core after a switch from this context to `next`: it runs `next`
    /// from `next`'s return address.
    pub open spec fn switched_cpu(self, next: TaskContext, cpu: Cpu) -> Cpu {
        let root_changes = self.changes_root(next, cpu);
        Cpu {
            features: cpu.features,
            sp: next.sp,
            x19: next.r19,
            x20: next.r20,
            x21: next.r21,
            x22: next.r22,
            x23: next.r23,
            x24: next.r24,
            x25: next.r25,
            x26: next.r26,
            x27: next.r27,
            x28: next.r28,
            x29: next.r29,
            lr: next.lr,
            pc: next.lr,
            tpidr_el0: if cpu.features.tls { next.tpidr_el0 } else { cpu.tpidr_el0 },
            ttbr0_el1: if root_changes { next.ttbr0_el1 } else { cpu.ttbr0_el1 },
            fp: if cpu.features.fp_simd { next.fp_state } else { cpu.fp },
            page_table_writes: if root_changes {
                bumped(cpu.page_table_writes)
            } else {
                cpu.page_table_writes
            },
            tlb_flushes: if root_changes { bumped(cpu.tlb_flushes) } else { cpu.tlb_flushes },
        }
    }

    /// Creates a dummy context for a new task.
    ///
    /// The context is not runnable yet: it is filled by [`switch_to`] (for
    /// initial tasks) or [`init`] (for regular tasks).
    ///
    /// [`init`]: TaskContext::init
    /// [`switch_to`]: TaskContext::switch_to
    pub fn new() -> (r: TaskContext)
        ensures
            r == TaskContext::zeroed(),
    {
        TaskContext {
            sp: 0,
            tpidr_el0: 0,
            r19: 0,
            r20: 0,
            r21: 0,
            r22: 0,
            r23: 0,
            r24: 0,
            r25: 0,
            r26: 0,
            r27: 0,
            r28: 0,
            r29: 0,
            lr: 0,
            ttbr0_el1: PhysAddr(0),
            fp_state: FpState { regs: [0u128; 32], fpcr: 0, fpsr: 0 },
        }
    }

    /// Initializes the context for a new task, with the given entry point and
    /// kernel stack.
    ///
    /// Only the stack pointer, the return address and the thread pointer are
    /// written.
    pub fn init(&mut self, entry: usize, kstack_top: VirtAddr, tls_area: VirtAddr)
        ensures
            *final(self) == (TaskContext {
                sp: kstack_top.0 as u64,
                lr: entry as u64,
                tpidr_el0: tls_area.0 as u64,
                ..*old(self)
            }),
    {
        self.sp = kstack_top.as_usize() as u64;
        self.lr = entry as u64;
        self.tpidr_el0 = tls_area.as_usize() as u64;
    }

    /// Changes the page table root in this context.
    ///
    /// The hardware register for user page table root (`ttbr0_el1`) will be
    /// updated to the next task's after [`Self::switch_to`].
    pub fn set_page_table_root(&mut self, ttbr0_el1: PhysAddr)
        ensures
            *final(self) == (TaskContext { ttbr0_el1, ..*old(self) }),
    {
        self.ttbr0_el1 = ttbr0_el1;
    }

    /// Switches to another task.
    ///
    /// It first saves the current task's context from CPU to this place, and
    /// then restores the next task's context from `next_ctx` to CPU. The user
    /// page table root is installed, and the whole TLB flushed, exactly when
    /// the two contexts hold different roots.
    pub fn switch_to(&mut self, next_ctx: &TaskContext, cpu: &mut Cpu)
        ensures
            *final(self) == old(self).saved_from(*old(cpu)),
            *final(cpu) == old(self).switched_cpu(*next_ctx, *old(cpu)),
            final(cpu).pc == next_ctx.lr,
            old(self).changes_root(*next_ctx, *old(cpu)) ==> final(cpu).page_table_writes == bumped(
                old(cpu).page_table_writes,
            ) && final(cpu).tlb_flushes == bumped(old(cpu).tlb_flushes),
            !old(self).changes_root(*next_ctx, *old(cpu)) ==> final(cpu).page_table_writes
                == old(cpu).page_table_writes && final(cpu).tlb_flushes == old(cpu).tlb_flushes
                && final(cpu).ttbr0_el1 == old(cpu).ttbr0_el1,
    {
        if cpu.features.tls {
            self.tpidr_el0 = cpu.read_thread_pointer();
            cpu.write_thread_pointer(next_ctx.tpidr_el0);
        }
        if cpu.features.fp_simd {
            self.fp_state.save(cpu);
            next_ctx.fp_state.restore(cpu);
        }
        if cpu.features.uspace && self.ttbr0_el1 != next_ctx.ttbr0_el1 {
            cpu.write_user_page_table(next_ctx.ttbr0_el1);
            cpu.flush_tlb();  // currently flush the entire TLB
        }
        context_switch(self, next_ctx, cpu);
    }
}

/// Stores the callee-saved registers and the stack pointer of `cpu` into
/// `current_task`, loads those of `next_task`, and returns through the loaded
/// link register.
fn context_switch(current_task: &mut TaskContext, next_task: &TaskContext, cpu: &mut Cpu)
    ensures
        *final(current_task) == (TaskContext {
            sp: old(cpu).sp,
            r19: old(cpu).x19,
            r20: old(cpu).x20,
            r21: old(cpu).x21,
            r22: old(cpu).x22,
            r23: old(cpu).x23,
            r24: old(cpu).x24,
            r25: old(cpu).x25,
            r26: old(cpu).x26,
            r27: old(cpu).x27,
            r28: old(cpu).x28,
            r29: old(cpu).x29,
            lr: old(cpu).lr,
            ..*old(current_task)
        }),
        *final(cpu) == (Cpu {
            sp: next_task.sp,
            x19: next_task.r19,
            x20: next_task.r20,
            x21: next_task.r21,
            x22: next_task.r22,
            x23: next_task.r23,
            x24: next_task.r24,
            x25: next_task.r25,
            x26: next_task.r26,
            x27: next_task.r27,
            x28: next_task.r28,
            x29: next_task.r29,
            lr: next_task.lr,
            pc: next_task.lr,
            ..*old(cpu)
        }),
{
    // save old context (callee-saved registers)
    current_task.r29 = cpu.x29;
    current_task.lr = cpu.lr;
    current_task.r27 = cpu.x27;
    current_task.r28 = cpu.x28;
    current_task.r25 = cpu.x25;
    current_task.r26 = cpu.x26;
    current_task.r23 = cpu.x23;
    current_task.r24 = cpu.x24;
    current_task.r21 = cpu.x21;
    current_task.r22 = cpu.x22;
    current_task.r19 = cpu.x19;
    current_task.r20 = cpu.x20;
    current_task.sp = cpu.sp;
    // restore new context
    cpu.sp = next_task.sp;
    cpu.x19 = next_task.r19;
    cpu.x20 = next_task.r20;
    cpu.x21 = next_task.r21;
    cpu.x22 = next_task.r22;
    cpu.x23 = next_task.r23;
    cpu.x24 = next_task.r24;
    cpu.x25 = next_task.r25;
    cpu.x26 = next_task.r26;
    cpu.x27 = next_task.r27;
    cpu.x28 = next_task.r28;
    cpu.x29 = next_task.r29;
    cpu.lr = next_task.lr;
    // return through the loaded link register
    cpu.pc = cpu.lr;
}

/// Switching from a task to another and straight back gives the first task
/// its callee-saved registers, stack pointer, link register, thread pointer
/// and FP/SIMD registers as they were, and resumes it where it called the
/// first switch.
pub proof fn lemma_switch_round_trip(a: TaskContext, b: TaskContext, cpu: Cpu)
    ensures
        ({
            let a1 = a.saved_from(cpu);
            let c1 = a.switched_cpu(b, cpu);
            let c2 = b.switched_cpu(a1, c1);
            c2.same_task_registers(cpu) && c2.pc == cpu.lr
        }),
{
}

/// Initializing a zeroed context sets the return address, the stack pointer
/// and the thread pointer, and leaves every other field zero.
pub proof fn lemma_init_isolates(entry: usize, kstack_top: VirtAddr, tls_area: VirtAddr)
    ensures
        ({
            let c = TaskContext {
                sp: kstack_top.0 as u64,
                lr: entry as u64,
                tpidr_el0: tls_area.0 as u64,
                ..TaskContext::zeroed()
            };
            &&& c.lr == entry as u64
            &&& c.sp == kstack_top.0 as u64
            &&& c.tpidr_el0 == tls_area.0 as u64
            &&& c.r19 == 0 && c.r20 == 0 && c.r21 == 0 && c.r22 == 0 && c.r23 == 0
            &&& c.r24 == 0 && c.r25 == 0 && c.r26 == 0 && c.r27 == 0 && c.r28 == 0
            &&& c.r29 == 0
            &&& c.ttbr0_el1.0 == 0
            &&& c.fp_state.fpcr == 0 && c.fp_state.fpsr == 0
            &&& forall|i: int| 0 <= i < 32 ==> c.fp_state.regs[i] == 0
        }),
{
}

/// Saving the FP/SIMD registers, overwriting them with anything, then
/// restoring what was saved gives back the core exactly as it was.
pub proof fn lemma_fp_save_restore(cpu: Cpu, saved: FpState, clobber: FpState)
    requires
        saved == cpu.fp,
    ensures
        cpu.with_fp(clobber).with_fp(saved) == cpu,
{
}

} // verus!
