use cpu_context::addr::{PhysAddr, VirtAddr};
use cpu_context::features::Features;
use cpu_context::loongarch64::{Cpu, FpuState, GeneralRegisters, TaskContext, TrapFrame};

fn busy_cpu(features: Features) -> Cpu {
    let mut cpu = Cpu::new(features);
    cpu.regs.ra = 0x4242;
    cpu.regs.sp = 0x9000;
    cpu.regs.tp = 0x7700;
    cpu.regs.fp = 22;
    cpu.regs.s0 = 23;
    cpu.regs.s1 = 24;
    cpu.regs.s2 = 25;
    cpu.regs.s3 = 26;
    cpu.regs.s4 = 27;
    cpu.regs.s5 = 28;
    cpu.regs.s6 = 29;
    cpu.regs.s7 = 30;
    cpu.regs.s8 = 31;
    cpu.regs.a0 = 0xa0;
    for i in 0..32 {
        cpu.fpu.fp[i] = 0x0f0f_0000 + i as u64;
    }
    cpu.fpu.fcc = [1, 0, 1, 0, 1, 1, 0, 0];
    cpu.fpu.fcsr = 0x1f;
    cpu
}

#[test]
fn loongarch64_args_are_a0_to_a5() {
    let mut regs = GeneralRegisters::new();
    regs.a0 = 100;
    regs.a1 = 101;
    regs.a2 = 102;
    regs.a3 = 103;
    regs.a4 = 104;
    regs.a5 = 105;
    regs.a6 = 106;
    regs.a7 = 107;
    regs.t0 = 200;
    regs.ra = 300;
    let tf = TrapFrame { regs, prmd: 7, era: 8 };
    assert_eq!(tf.arg0(), 100);
    assert_eq!(tf.arg1(), 101);
    assert_eq!(tf.arg2(), 102);
    assert_eq!(tf.arg3(), 103);
    assert_eq!(tf.arg4(), 104);
    assert_eq!(tf.arg5(), 105);
}

#[test]
fn loongarch64_init_isolates_fields() {
    let mut ctx = TaskContext::new();
    ctx.init(0x9000_0000_1234, VirtAddr::from_usize(0x8000_0000), VirtAddr::from_usize(0x5000));
    assert_eq!(ctx.ra, 0x9000_0000_1234);
    assert_eq!(ctx.sp, 0x8000_0000);
    assert_eq!(ctx.tp, 0x5000);
    assert_eq!(ctx.s, [0; 10]);
    assert_eq!(ctx.pgdl, 0);
    assert_eq!(ctx.fpu.fp, [0; 32]);
    assert_eq!(ctx.fpu.fcc, [0; 8]);
    assert_eq!(ctx.fpu.fcsr, 0);
}

#[test]
fn loongarch64_fpu_save_restore_fidelity() {
    let mut cpu = busy_cpu(Features::all());
    let pattern = cpu.fpu;
    let mut saved = FpuState::default();
    saved.save(&cpu);
    cpu.fpu.fp = [u64::MAX; 32];
    cpu.fpu.fcc = [9; 8];
    cpu.fpu.fcsr = 0;
    saved.restore(&mut cpu);
    assert_eq!(cpu.fpu.fp, pattern.fp);
    assert_eq!(cpu.fpu.fcc, [1, 0, 1, 0, 1, 1, 0, 0]);
    assert_eq!(cpu.fpu.fcsr, 0x1f);
}

#[test]
fn loongarch64_switch_saves_in_context_order() {
    let mut cpu = busy_cpu(Features::all());
    let mut a = TaskContext::new();
    let b = TaskContext::new();
    a.switch_to(&b, &mut cpu);
    assert_eq!(a.ra, 0x4242);
    assert_eq!(a.sp, 0x9000);
    assert_eq!(a.s, [23, 24, 25, 26, 27, 28, 29, 30, 31, 22]);
    assert_eq!(a.tp, 0x7700);
    assert_eq!(a.fpu.fcsr, 0x1f);
    assert_eq!(cpu.regs.a0, 0xa0);
    assert_eq!(cpu.regs.s0, 0);
}

#[test]
fn loongarch64_round_trip_restores_task() {
    let before = busy_cpu(Features::all());
    let mut cpu = before;
    let mut a = TaskContext::new();
    let mut b = TaskContext::new();
    b.init(0x1111, VirtAddr::from_usize(0x20_0000), VirtAddr::from_usize(0x3000));
    b.s = [1, 2, 3, 4, 5, 6, 7, 8, 9, 10];
    a.switch_to(&b, &mut cpu);
    assert_eq!(cpu.pc, 0x1111);
    assert_eq!(cpu.regs.sp, 0x20_0000);
    assert_eq!(cpu.regs.tp, 0x3000);
    assert_eq!(cpu.regs.s0, 1);
    assert_eq!(cpu.regs.fp, 10);
    assert_eq!(cpu.kernel_sp, 0x20_0000);
    b.switch_to(&a, &mut cpu);
    assert_eq!(cpu.pc, 0x4242);
    assert_eq!(cpu.regs.ra, before.regs.ra);
    assert_eq!(cpu.regs.sp, before.regs.sp);
    assert_eq!(cpu.regs.tp, before.regs.tp);
    assert_eq!(cpu.regs.fp, before.regs.fp);
    assert_eq!(
        [cpu.regs.s0, cpu.regs.s1, cpu.regs.s2, cpu.regs.s3, cpu.regs.s4, cpu.regs.s5, cpu.regs.s6, cpu.regs.s7, cpu.regs.s8],
        [23, 24, 25, 26, 27, 28, 29, 30, 31]
    );
    assert_eq!(cpu.fpu.fp, before.fpu.fp);
    assert_eq!(cpu.fpu.fcc, before.fpu.fcc);
    assert_eq!(cpu.fpu.fcsr, before.fpu.fcsr);
}

#[test]
fn loongarch64_equal_roots_do_not_flush() {
    let mut cpu = busy_cpu(Features::all());
    let mut a = TaskContext::new();
    let mut b = TaskContext::new();
    a.set_page_table_root(PhysAddr::from_usize(0x4000));
    b.set_page_table_root(PhysAddr::from_usize(0x4000));
    a.switch_to(&b, &mut cpu);
    assert_eq!(cpu.page_table_writes, 0);
    assert_eq!(cpu.tlb_flushes, 0);
    assert_eq!(cpu.pgdl, 0);
}

#[test]
fn loongarch64_different_roots_flush_once() {
    let mut cpu = busy_cpu(Features::all());
    let mut a = TaskContext::new();
    let mut b = TaskContext::new();
    a.set_page_table_root(PhysAddr::from_usize(0x4000));
    b.set_page_table_root(PhysAddr::from_usize(0x8000));
    a.switch_to(&b, &mut cpu);
    assert_eq!(cpu.page_table_writes, 1);
    assert_eq!(cpu.tlb_flushes, 1);
    assert_eq!(cpu.pgdl, 0x8000);
    b.switch_to(&a, &mut cpu);
    assert_eq!(cpu.page_table_writes, 2);
    assert_eq!(cpu.tlb_flushes, 2);
    assert_eq!(cpu.pgdl, 0x4000);
}

#[test]
fn loongarch64_disabled_features_leave_optional_state() {
    let mut cpu = busy_cpu(Features { tls: false, fp_simd: false, uspace: true });
    let mut a = TaskContext::new();
    let mut b = TaskContext::new();
    b.init(0x1111, VirtAddr::from_usize(0x20_0000), VirtAddr::from_usize(0x3000));
    b.fpu.fcsr = 3;
    a.switch_to(&b, &mut cpu);
    assert_eq!(cpu.regs.tp, 0x7700);
    assert_eq!(cpu.fpu.fcsr, 0x1f);
    assert_eq!(a.tp, 0);
    assert_eq!(a.fpu.fcsr, 0);
    assert_eq!(cpu.kernel_sp, 0x20_0000);
}

fn handler_fn() {}

#[test]
fn loongarch64_first_switch_enters_new_task() {
    let mut ctx_a = TaskContext::new();
    let entry = handler_fn as usize;
    ctx_a.init(entry, VirtAddr::from_usize(0x8000_0000), VirtAddr::from_usize(0));
    let mut ctx_b = TaskContext::new();
    let mut cpu = busy_cpu(Features::all());
    ctx_b.switch_to(&ctx_a, &mut cpu);
    assert_eq!(cpu.pc, entry);
    assert!(cpu.regs.sp <= 0x8000_0000);
    assert_eq!(cpu.regs.sp, 0x8000_0000);
    assert_eq!(ctx_b.ra, 0x4242);
    assert_eq!(ctx_b.sp, 0x9000);
}
