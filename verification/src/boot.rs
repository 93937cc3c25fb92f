//! The boot sequencer: from the processor's reset state to a machine the
//! application entry point can run on.
//!
//! The machine — interrupt-mask register, privilege mode, banked stack
//! pointers, the memory-protection coprocessor and the RAM window — is
//! represented explicitly, so the sequence's contract can say exactly what
//! boot establishes: interrupts masked, every privilege level's stack
//! pointer installed from the linker-supplied top, the fast-memory regions
//! configured on targets that have the coprocessor, and the zero-initialized
//! static storage actually reading as zero. The caller then runs the
//! application entry point; on return from it, `fault_terminal` parks the
//! machine for good.

use vstd::prelude::*;

verus! {

/// Control value the boot sequence writes to the protection coprocessor:
/// alternate vector select (bit 13) plus the register's fixed
/// should-be-one bits (bits 3 to 6); every feature flag — protection unit
/// (bit 0), data cache (bit 2), instruction cache (bit 12) — left disabled.
pub const MPU_CTRL_BOOT: u32 = 0x2078;

/// Region descriptor for the fast instruction memory bank: base 0, with the
/// size class that mirrors the 32 KiB bank across its full address window.
pub const ITCM_REGION_BOOT: u32 = 0x20;

/// Region descriptor for the fast data memory bank: base 0x0080_0000, size
/// class for 16 KiB.
pub const DTCM_REGION_BOOT: u32 = 0x0080_000a;

/// The protection unit's master enable, bit 0 of the control register.
pub open spec fn ctrl_pu_enabled(ctrl: u32) -> bool {
    ctrl & 1 != 0
}

/// The data cache enable, bit 2 of the control register.
pub open spec fn ctrl_dcache_enabled(ctrl: u32) -> bool {
    ctrl & 4 != 0
}

/// The instruction cache enable, bit 12 of the control register.
pub open spec fn ctrl_icache_enabled(ctrl: u32) -> bool {
    ctrl & 0x1000 != 0
}

/// Alternate exception-vector select, bit 13 of the control register.
pub open spec fn ctrl_alt_vectors(ctrl: u32) -> bool {
    ctrl & 0x2000 != 0
}

/// Base address held in a fast-memory region descriptor (bits 12 and up).
pub open spec fn region_base(desc: u32) -> u32 {
    desc & 0xffff_f000
}

/// Size class held in a fast-memory region descriptor (bits 1 to 5).
pub open spec fn region_size_class(desc: u32) -> u32 {
    (desc >> 1) & 0x1f
}

/// Processor privilege modes with a banked stack pointer of their own.
#[derive(Clone, Copy, PartialEq, Eq, Structural, Debug)]
pub enum CpuMode {
    /// Interrupt-handling mode.
    Irq,
    /// Supervisor mode, the mode the processor resets into.
    Supervisor,
    /// Unprivileged mode, the mode the application runs in.
    User,
}

/// State of the memory-protection and fast-memory coprocessor.
#[derive(Clone, Copy, PartialEq, Eq, Structural, Debug)]
pub struct Mpu {
    /// The coprocessor control register.
    pub ctrl: u32,
    /// Region descriptor of the fast instruction memory bank.
    pub itcm: u32,
    /// Region descriptor of the fast data memory bank.
    pub dtcm: u32,
    /// The instruction cache holds no stale lines.
    pub icache_flushed: bool,
    /// The data cache holds no stale lines.
    pub dcache_flushed: bool,
    /// The write buffer has been drained.
    pub write_buffer_drained: bool,
}

/// The coprocessor state the boot sequence leaves behind on targets that
/// have the coprocessor.
pub open spec fn mpu_boot_config() -> Mpu {
    Mpu {
        ctrl: MPU_CTRL_BOOT,
        itcm: ITCM_REGION_BOOT,
        dtcm: DTCM_REGION_BOOT,
        icache_flushed: true,
        dcache_flushed: true,
        write_buffer_drained: true,
    }
}

/// One privilege mode's stack: the linker reserves `base..top`, and the
/// stack grows downward from `top`.
#[derive(Clone, Copy, PartialEq, Eq, Structural, Debug)]
pub struct StackRegion {
    /// Lowest address of the reserved region.
    pub base: usize,
    /// One past the highest address: the value installed as the stack
    /// pointer.
    pub top: usize,
}

impl StackRegion {
    /// The region lies inside a RAM window of `ram_len` bytes.
    pub open spec fn wf(self, ram_len: nat) -> bool {
        self.base <= self.top <= ram_len
    }

    /// The address lies inside this region.
    pub open spec fn contains(self, addr: int) -> bool {
        self.base <= addr < self.top
    }

    /// The two regions share no byte.
    pub open spec fn disjoint(self, other: StackRegion) -> bool {
        self.top <= other.base || other.top <= self.base
    }
}

/// The linker-supplied facts the boot sequence consumes: one stack region
/// per privilege mode, and the zero-initialized static-storage region.
pub struct LinkerMap {
    /// Stack reserved for interrupt-handling mode.
    pub irq_stack: StackRegion,
    /// Stack reserved for supervisor mode.
    pub svc_stack: StackRegion,
    /// Stack reserved for user mode.
    pub usr_stack: StackRegion,
    /// First byte of the zero-initialized static-storage region.
    pub bss_start: usize,
    /// Size of the zero-initialized static-storage region in bytes.
    pub bss_size: usize,
}

impl LinkerMap {
    /// A linker layout this boot sequence can rely on: each stack region and
    /// the static-storage region lie inside the RAM window, and the three
    /// stacks are pairwise disjoint.
    pub open spec fn wf(self, ram_len: nat) -> bool {
        &&& self.irq_stack.wf(ram_len)
        &&& self.svc_stack.wf(ram_len)
        &&& self.usr_stack.wf(ram_len)
        &&& self.irq_stack.disjoint(self.svc_stack)
        &&& self.irq_stack.disjoint(self.usr_stack)
        &&& self.svc_stack.disjoint(self.usr_stack)
        &&& self.bss_start + self.bss_size <= ram_len
    }
}

/// The machine the boot sequence drives: the interrupt-mask register, the
/// current privilege mode, the three banked stack pointers, the protection
/// coprocessor (where the target variant has one), the RAM window, and
/// whether the machine has reached its terminal halt.
pub struct Machine {
    /// The global interrupt-mask register; zero means all delivery disabled.
    pub ime: u32,
    /// Current privilege mode.
    pub mode: CpuMode,
    /// Banked stack pointer of interrupt-handling mode.
    pub sp_irq: usize,
    /// Banked stack pointer of supervisor mode.
    pub sp_svc: usize,
    /// Banked stack pointer of user mode.
    pub sp_usr: usize,
    /// The target variant has the protection and fast-memory coprocessor.
    pub mpu_present: bool,
    /// The coprocessor's state.
    pub mpu: Mpu,
    /// The RAM window, addressed from zero.
    pub ram: Vec<u8>,
    /// The machine has reached the terminal halt and does nothing further.
    pub halted: bool,
}

/// Write zero to every byte of `ram[start..start + size]`, touching nothing
/// else: the static-storage zeroing step of the boot sequence.
pub fn zero_region(ram: &mut Vec<u8>, start: usize, size: usize)
    requires
        start + size <= old(ram).len(),
    ensures
        final(ram).len() == old(ram).len(),
        forall|i: int| start <= i < start + size ==> final(ram)[i] == 0u8,
        forall|i: int|
            0 <= i < old(ram).len() && !(start <= i < start + size) ==> final(ram)[i] == old(
                ram,
            )[i],
{
    let mut idx: usize = 0;
    while idx < size
        invariant
            idx <= size,
            start + size <= ram.len(),
            ram.len() == old(ram).len(),
            forall|i: int| start <= i < start + idx ==> ram[i] == 0u8,
            forall|i: int|
                0 <= i < ram.len() && !(start <= i < start + idx) ==> ram[i] == old(ram)[i],
        decreases size - idx,
    {
        ram[start + idx] = 0;
        idx = idx + 1;
    }
}

/// Configure the protection and fast-memory coprocessor: disable every
/// protection-unit feature except alternate vector select, flush both
/// caches, drain the write buffer, and program the two fast-memory region
/// descriptors. Runs strictly after interrupts are masked, so no handler
/// can observe the half-configured coprocessor.
pub fn mpu_setup(m: &mut Machine)
    requires
        old(m).ime == 0,
        old(m).mpu_present,
    ensures
        final(m).mpu == mpu_boot_config(),
        final(m).ime == old(m).ime,
        final(m).mode == old(m).mode,
        final(m).sp_irq == old(m).sp_irq,
        final(m).sp_svc == old(m).sp_svc,
        final(m).sp_usr == old(m).sp_usr,
        final(m).mpu_present == old(m).mpu_present,
        final(m).ram == old(m).ram,
        final(m).halted == old(m).halted,
{
    m.mpu.ctrl = MPU_CTRL_BOOT;
    m.mpu.icache_flushed = true;
    m.mpu.dcache_flushed = true;
    m.mpu.write_buffer_drained = true;
    m.mpu.itcm = ITCM_REGION_BOOT;
    m.mpu.dtcm = DTCM_REGION_BOOT;
}

/// The boot sequence, from reset state to the state the application entry
/// point runs in. In order: mask all interrupts; enter interrupt-handling
/// mode and install its stack pointer; enter supervisor mode and install
/// its stack pointer; on variants with the coprocessor, run the
/// memory-region setup; enter user mode and install its stack pointer;
/// zero the static-storage region. The caller then invokes the application
/// entry point, and routes its return into `fault_terminal`.
pub fn boot(m: &mut Machine, map: &LinkerMap)
    requires
        map.wf(old(m).ram.len() as nat),
        !old(m).halted,
    ensures
        final(m).ime == 0,
        final(m).mode == CpuMode::User,
        final(m).sp_irq == map.irq_stack.top,
        final(m).sp_svc == map.svc_stack.top,
        final(m).sp_usr == map.usr_stack.top,
        old(m).mpu_present ==> final(m).mpu == mpu_boot_config(),
        !old(m).mpu_present ==> final(m).mpu == old(m).mpu,
        final(m).mpu_present == old(m).mpu_present,
        final(m).ram.len() == old(m).ram.len(),
        forall|i: int|
            map.bss_start <= i < map.bss_start + map.bss_size ==> final(m).ram[i] == 0u8,
        forall|i: int|
            0 <= i < old(m).ram.len() && !(map.bss_start <= i < map.bss_start + map.bss_size)
                ==> final(m).ram[i] == old(m).ram[i],
        !final(m).halted,
{
    m.ime = 0;
    m.mode = CpuMode::Irq;
    m.sp_irq = map.irq_stack.top;
    m.mode = CpuMode::Supervisor;
    m.sp_svc = map.svc_stack.top;
    if m.mpu_present {
        mpu_setup(m);
    }
    m.mode = CpuMode::User;
    m.sp_usr = map.usr_stack.top;
    zero_region(&mut m.ram, map.bss_start, map.bss_size);
}

/// Push one byte onto the user-mode stack: decrement the user stack pointer
/// and store at the new address. Because the linker lays the three stacks
/// out disjointly, every byte of the interrupt- and supervisor-mode stack
/// regions is untouched.
pub fn push_user_stack(m: &mut Machine, map: &LinkerMap, val: u8)
    requires
        map.wf(old(m).ram.len() as nat),
        map.usr_stack.base < old(m).sp_usr <= map.usr_stack.top,
        !old(m).halted,
    ensures
        final(m).sp_usr == old(m).sp_usr - 1,
        final(m).ram.len() == old(m).ram.len(),
        final(m).ram[final(m).sp_usr as int] == val,
        forall|i: int|
            0 <= i < old(m).ram.len() && i != final(m).sp_usr ==> final(m).ram[i] == old(
                m,
            ).ram[i],
        forall|i: int| map.irq_stack.contains(i) ==> final(m).ram[i] == old(m).ram[i],
        forall|i: int| map.svc_stack.contains(i) ==> final(m).ram[i] == old(m).ram[i],
        final(m).ime == old(m).ime,
        final(m).mode == old(m).mode,
        final(m).sp_irq == old(m).sp_irq,
        final(m).sp_svc == old(m).sp_svc,
        final(m).mpu_present == old(m).mpu_present,
        final(m).mpu == old(m).mpu,
        final(m).halted == old(m).halted,
{
    m.sp_usr = m.sp_usr - 1;
    m.ram[m.sp_usr] = val;
}

/// Pop one byte off the user-mode stack: read at the stack pointer and
/// increment it. The RAM is not written at all.
pub fn pop_user_stack(m: &mut Machine, map: &LinkerMap) -> (r: u8)
    requires
        map.wf(old(m).ram.len() as nat),
        map.usr_stack.base <= old(m).sp_usr < map.usr_stack.top,
        !old(m).halted,
    ensures
        r == old(m).ram[old(m).sp_usr as int],
        final(m).sp_usr == old(m).sp_usr + 1,
        final(m).ram == old(m).ram,
        final(m).ime == old(m).ime,
        final(m).mode == old(m).mode,
        final(m).sp_irq == old(m).sp_irq,
        final(m).sp_svc == old(m).sp_svc,
        final(m).mpu_present == old(m).mpu_present,
        final(m).mpu == old(m).mpu,
        final(m).halted == old(m).halted,
{
    let r = m.ram[m.sp_usr];
    m.sp_usr = m.sp_usr + 1;
    r
}

/// The fault terminal: the terminal state reached on return from the
/// application entry point, and the routing target of the language's
/// failure hook. The machine halts for good — in particular, no memory
/// write ever happens after it.
pub fn fault_terminal(m: &mut Machine)
    ensures
        final(m).halted,
        final(m).ram == old(m).ram,
        final(m).ime == old(m).ime,
        final(m).mode == old(m).mode,
        final(m).sp_irq == old(m).sp_irq,
        final(m).sp_svc == old(m).sp_svc,
        final(m).sp_usr == old(m).sp_usr,
        final(m).mpu_present == old(m).mpu_present,
        final(m).mpu == old(m).mpu,
{
    m.halted = true;
}

/// After boot, the coprocessor's registers read back exactly the configured
/// state: both region descriptors hold their (base, size-class) pair, the
/// alternate vector select is on, and every other protection-unit feature
/// flag reads as disabled.
pub proof fn lemma_mpu_boot_config()
    ensures
        !ctrl_pu_enabled(mpu_boot_config().ctrl),
        !ctrl_dcache_enabled(mpu_boot_config().ctrl),
        !ctrl_icache_enabled(mpu_boot_config().ctrl),
        ctrl_alt_vectors(mpu_boot_config().ctrl),
        region_base(mpu_boot_config().itcm) == 0u32,
        region_size_class(mpu_boot_config().itcm) == 0x10u32,
        region_base(mpu_boot_config().dtcm) == 0x0080_0000u32,
        region_size_class(mpu_boot_config().dtcm) == 5u32,
        mpu_boot_config().icache_flushed,
        mpu_boot_config().dcache_flushed,
        mpu_boot_config().write_buffer_drained,
{
    assert(0x2078u32 & 1 == 0 && 0x2078u32 & 4 == 0 && 0x2078u32 & 0x1000 == 0 && 0x2078u32
        & 0x2000 != 0) by (bit_vector);
    assert(0x20u32 & 0xffff_f000 == 0 && (0x20u32 >> 1) & 0x1f == 0x10) by (bit_vector);
    assert(0x0080_000au32 & 0xffff_f000 == 0x0080_0000 && (0x0080_000au32 >> 1) & 0x1f == 5)
        by (bit_vector);
}

} // verus!
