//! The privileged register state of one execution unit: the CR4 control
//! register, whose SMEP bit gates supervisor-mode execution of user pages, and
//! the interrupt flag.
use vstd::prelude::*;

verus! {

/// The SMEP bit of CR4 (bit 20).
pub const CR4_SMEP: u64 = 0x10_0000;

/// Whether a CR4 value has supervisor-mode execution protection enabled.
pub open spec fn smep_enabled(cr4: u64) -> bool {
    cr4 & CR4_SMEP != 0
}

/// A CR4 value with the SMEP bit cleared and every other bit kept.
pub open spec fn without_smep(cr4: u64) -> u64 {
    cr4 & !CR4_SMEP
}

/// Clearing the SMEP bit turns protection off and changes no other bit.
pub proof fn lemma_without_smep(cr4: u64)
    ensures
        !smep_enabled(without_smep(cr4)),
        without_smep(cr4) | (cr4 & CR4_SMEP) == cr4,
        !smep_enabled(cr4) ==> without_smep(cr4) == cr4,
{
    assert(!((cr4 & !0x10_0000u64) & 0x10_0000u64 != 0)) by (bit_vector);
    assert((cr4 & !0x10_0000u64) | (cr4 & 0x10_0000u64) == cr4) by (bit_vector);
    assert(!(cr4 & 0x10_0000u64 != 0) ==> (cr4 & !0x10_0000u64) == cr4) by (bit_vector);
}

/// One operation on the privileged register state, in the order performed.
#[derive(Clone, Copy, Debug, PartialEq, Eq, Structural)]
pub enum CpuOp {
    /// `cli`.
    DisableInterrupts,
    /// CR4 was read and held this value.
    ReadCr4(u64),
    /// This value was written to CR4.
    WriteCr4(u64),
    /// `sti`.
    EnableInterrupts,
}

/// The operations that open the privileged window on a unit whose CR4 holds
/// `cr4`: interrupts off, CR4 read, CR4 written without SMEP.
pub open spec fn open_window_ops(cr4: u64) -> Seq<CpuOp> {
    seq![CpuOp::DisableInterrupts, CpuOp::ReadCr4(cr4), CpuOp::WriteCr4(without_smep(cr4))]
}

/// The operations that close the privileged window: `saved` written back to
/// CR4, then interrupts on.
pub open spec fn close_window_ops(saved: u64) -> Seq<CpuOp> {
    seq![CpuOp::WriteCr4(saved), CpuOp::EnableInterrupts]
}

/// Register state of the execution unit that runs the driver's callbacks.
pub struct Cpu {
    /// Content of control register CR4.
    pub cr4: u64,
    /// Whether interrupt delivery is enabled (the IF flag).
    pub interrupts_enabled: bool,
    /// Every register operation performed so far, oldest first.
    pub ops: Vec<CpuOp>,
}

impl Cpu {
    /// A unit whose CR4 holds `cr4`, with interrupts enabled and no operation
    /// performed yet.
    pub fn new(cr4: u64) -> (r: Cpu)
        ensures
            r.cr4 == cr4,
            r.interrupts_enabled,
            r.ops@.len() == 0,
    {
        Cpu { cr4, interrupts_enabled: true, ops: Vec::new() }
    }

    /// Reads CR4.
    pub fn cr4(&mut self) -> (r: u64)
        ensures
            r == old(self).cr4,
            final(self).cr4 == old(self).cr4,
            final(self).interrupts_enabled == old(self).interrupts_enabled,
            final(self).ops@ == old(self).ops@.push(CpuOp::ReadCr4(r)),
    {
        self.ops.push(CpuOp::ReadCr4(self.cr4));
        self.cr4
    }

    /// Writes CR4.
    pub fn write_cr4(&mut self, value: u64)
        ensures
            final(self).cr4 == value,
            final(self).interrupts_enabled == old(self).interrupts_enabled,
            final(self).ops@ == old(self).ops@.push(CpuOp::WriteCr4(value)),
    {
        self.ops.push(CpuOp::WriteCr4(value));
        self.cr4 = value;
    }

    /// Disables interrupts (`cli`).
    pub fn disable_interrupts(&mut self)
        ensures
            final(self).cr4 == old(self).cr4,
            !final(self).interrupts_enabled,
            final(self).ops@ == old(self).ops@.push(CpuOp::DisableInterrupts),
    {
        self.ops.push(CpuOp::DisableInterrupts);
        self.interrupts_enabled = false;
    }

    /// Enables interrupts (`sti`).
    pub fn enable_interrupts(&mut self)
        ensures
            final(self).cr4 == old(self).cr4,
            final(self).interrupts_enabled,
            final(self).ops@ == old(self).ops@.push(CpuOp::EnableInterrupts),
    {
        self.ops.push(CpuOp::EnableInterrupts);
        self.interrupts_enabled = true;
    }

    /// Disables interrupts, then reads CR4 and clears its SMEP bit, in that
    /// order. Returns the prior CR4 value, which `restore_smep` takes back.
    pub fn disable_smep(&mut self) -> (saved: u64)
        ensures
            saved == old(self).cr4,
            final(self).cr4 == without_smep(old(self).cr4),
            !smep_enabled(final(self).cr4),
            !final(self).interrupts_enabled,
            final(self).ops@ == old(self).ops@ + open_window_ops(old(self).cr4),
    {
        let ghost ops0 = self.ops@;
        self.disable_interrupts();
        let cr4 = self.cr4();
        self.write_cr4(cr4 & !CR4_SMEP);
        proof {
            lemma_without_smep(cr4);
        }
        assert(self.ops@ =~= ops0 + open_window_ops(cr4));
        cr4
    }

    /// Writes `saved` back to CR4 exactly, then enables interrupts, in that
    /// order.
    pub fn restore_smep(&mut self, saved: u64)
        ensures
            final(self).cr4 == saved,
            final(self).interrupts_enabled,
            final(self).ops@ == old(self).ops@ + close_window_ops(saved),
    {
        let ghost ops0 = self.ops@;
        self.write_cr4(saved);
        self.enable_interrupts();
        assert(self.ops@ =~= ops0 + close_window_ops(saved));
    }
}

} // verus!
