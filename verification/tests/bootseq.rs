//! The boot sequence on the modeled machine: static-storage zeroing, stack
//! installation, memory-region setup, and the fault terminal.

use nds_rt::boot::{
    boot, fault_terminal, pop_user_stack, push_user_stack, CpuMode, LinkerMap, Machine, Mpu,
    StackRegion, DTCM_REGION_BOOT, ITCM_REGION_BOOT, MPU_CTRL_BOOT,
};
use nds_rt::divider::{aeabi_idivmod, DivUnit};

fn reset_machine(ram: Vec<u8>, mpu_present: bool) -> Machine {
    Machine {
        ime: 1,
        mode: CpuMode::Supervisor,
        sp_irq: 0,
        sp_svc: 0,
        sp_usr: 0,
        mpu_present,
        mpu: Mpu {
            ctrl: 0,
            itcm: 0,
            dtcm: 0,
            icache_flushed: false,
            dcache_flushed: false,
            write_buffer_drained: false,
        },
        ram,
        halted: false,
    }
}

fn test_map() -> LinkerMap {
    LinkerMap {
        irq_stack: StackRegion { base: 0, top: 32 },
        svc_stack: StackRegion { base: 32, top: 64 },
        usr_stack: StackRegion { base: 64, top: 128 },
        bss_start: 128,
        bss_size: 64,
    }
}

#[test]
fn boot_zeroes_static_storage_whatever_was_there() {
    // Pre-fill all of RAM with a non-zero pattern: the zero-initialized
    // region must still read as zero when the entry point takes over.
    let mut m = reset_machine(vec![0xff; 256], true);
    let map = test_map();
    boot(&mut m, &map);
    for i in 128..192 {
        assert_eq!(m.ram[i], 0, "static storage byte {} not zeroed", i);
    }
    // Nothing outside the declared region was touched.
    for i in (0..128).chain(192..256) {
        assert_eq!(m.ram[i], 0xff, "byte {} outside static storage changed", i);
    }
}

#[test]
fn boot_masks_interrupts_and_lands_in_user_mode() {
    let mut m = reset_machine(vec![0xff; 256], true);
    let map = test_map();
    boot(&mut m, &map);
    assert_eq!(m.ime, 0);
    assert_eq!(m.mode, CpuMode::User);
    assert!(!m.halted);
}

#[test]
fn boot_installs_every_stack_pointer_from_the_linker_map() {
    let mut m = reset_machine(vec![0u8; 256], true);
    let map = test_map();
    boot(&mut m, &map);
    assert_eq!(m.sp_irq, map.irq_stack.top);
    assert_eq!(m.sp_svc, map.svc_stack.top);
    assert_eq!(m.sp_usr, map.usr_stack.top);
}

#[test]
fn boot_configures_memory_regions_on_supporting_variants() {
    let mut m = reset_machine(vec![0u8; 256], true);
    let map = test_map();
    boot(&mut m, &map);
    assert_eq!(m.mpu.ctrl, MPU_CTRL_BOOT);
    assert_eq!(m.mpu.itcm, ITCM_REGION_BOOT);
    assert_eq!(m.mpu.dtcm, DTCM_REGION_BOOT);
    assert!(m.mpu.icache_flushed);
    assert!(m.mpu.dcache_flushed);
    assert!(m.mpu.write_buffer_drained);
    // The configured values decode as: all protection-unit feature flags
    // off except alternate vector select, and the two (base, size-class)
    // pairs.
    assert_eq!(MPU_CTRL_BOOT & 1, 0);
    assert_eq!(MPU_CTRL_BOOT & 4, 0);
    assert_eq!(MPU_CTRL_BOOT & 0x1000, 0);
    assert_ne!(MPU_CTRL_BOOT & 0x2000, 0);
    assert_eq!(ITCM_REGION_BOOT & 0xffff_f000, 0);
    assert_eq!((ITCM_REGION_BOOT >> 1) & 0x1f, 0x10);
    assert_eq!(DTCM_REGION_BOOT & 0xffff_f000, 0x0080_0000);
    assert_eq!((DTCM_REGION_BOOT >> 1) & 0x1f, 5);
}

#[test]
fn boot_skips_memory_regions_without_the_coprocessor() {
    let mut m = reset_machine(vec![0u8; 256], false);
    let untouched = m.mpu;
    let map = test_map();
    boot(&mut m, &map);
    assert_eq!(m.mpu, untouched);
}

#[test]
fn user_stack_never_corrupts_the_other_stacks() {
    let mut m = reset_machine(vec![0xaa; 256], true);
    let map = test_map();
    boot(&mut m, &map);
    // The other modes' stack regions were left at the pre-fill pattern.
    // Push well past a few bytes and check them again afterward.
    for step in 0..32u8 {
        push_user_stack(&mut m, &map, step.wrapping_mul(7));
    }
    for i in 0..64 {
        assert_eq!(m.ram[i], 0xaa, "byte {} of a foreign stack changed", i);
    }
    // Popping returns the pushed bytes in reverse order and restores the
    // stack pointer.
    for step in (0..32u8).rev() {
        assert_eq!(pop_user_stack(&mut m, &map), step.wrapping_mul(7));
    }
    assert_eq!(m.sp_usr, map.usr_stack.top);
}

#[test]
fn entry_return_reaches_the_fault_terminal_and_nothing_moves_after() {
    let mut m = reset_machine(vec![0xff; 256], true);
    let map = test_map();
    boot(&mut m, &map);

    // The application entry point: divides through the hardware unit, then
    // returns a status — which the runtime discards.
    let mut unit = DivUnit::new(2);
    let r = aeabi_idivmod(&mut unit, 7, 2);
    assert_eq!((r.quot, r.rem), (3, 1));
    let _status: i32 = r.quot;

    // Returning from the entry point lands in the fault terminal: the
    // machine halts and no memory write happens afterward.
    let ram_at_return = m.ram.clone();
    fault_terminal(&mut m);
    assert!(m.halted);
    assert_eq!(m.ram, ram_at_return);
    assert_eq!(m.mode, CpuMode::User);
}
