use vstd::prelude::*;

use crate::arm7tdmi::cpsr::CPUMode;
use crate::types::WORD;

verus! {

/// A mode whose banked registers the register file keeps: every mode but
/// FIQ, whose bank is not modelled.
pub open spec fn is_banked_mode(mode: CPUMode) -> bool {
    !(mode is FIQ) && !(mode is INVALID)
}

/// `dst` with the entries of `src` in `lo..hi` copied over.
pub open spec fn copy_range(dst: Seq<u32>, src: Seq<u32>, lo: int, hi: int) -> Seq<u32> {
    Seq::new(dst.len(), |i: int| if lo <= i < hi { src[i] } else { dst[i] })
}

/// The register file: the sixteen registers visible now, and the banks that
/// hold the registers of the modes not active.
#[derive(Debug)]
pub struct Registers {
    pub active_registers: [WORD; 16],
    pub registers_user: [WORD; 16],
    pub registers_svc: [WORD; 16],
    pub registers_abt: [WORD; 16],
    pub registers_irq: [WORD; 16],
    pub registers_und: [WORD; 16],
    pub current_mode: CPUMode,
}

fn copy_words(dst: &mut [WORD; 16], src: &[WORD; 16], lo: usize, hi: usize)
    requires
        lo <= hi <= 16,
    ensures
        final(dst)@ == copy_range(old(dst)@, src@, lo as int, hi as int),
{
    let mut i = lo;
    while i < hi
        invariant
            lo <= i <= hi <= 16,
            dst@.len() == 16,
            dst@ == copy_range(old(dst)@, src@, lo as int, i as int),
        decreases hi - i,
    {
        dst[i] = src[i];
        i = i + 1;
    }
    assert(dst@ =~= copy_range(old(dst)@, src@, lo as int, hi as int));
}

impl Registers {
    /// The bank that holds registers 13 and 14 of `mode` while it is not the
    /// active mode.
    pub open spec fn bank_of(self, mode: CPUMode) -> Seq<u32> {
        match mode {
            CPUMode::IRQ => self.registers_irq@,
            CPUMode::SVC => self.registers_svc@,
            CPUMode::ABT => self.registers_abt@,
            CPUMode::UND => self.registers_und@,
            _ => self.registers_user@,
        }
    }

    /// The bank from which registers 13 and 14 are loaded when `mode`
    /// becomes active. The abort mode loads them from the supervisor bank.
    pub open spec fn load_bank_of(self, mode: CPUMode) -> Seq<u32> {
        match mode {
            CPUMode::IRQ => self.registers_irq@,
            CPUMode::SVC => self.registers_svc@,
            CPUMode::ABT => self.registers_svc@,
            CPUMode::UND => self.registers_und@,
            _ => self.registers_user@,
        }
    }

    /// The user bank after the active registers have been saved: registers
    /// 0-12 and 15 always, 13 and 14 when the active mode is user or system.
    pub open spec fn stored_user(self) -> Seq<u32> {
        let u = copy_range(
            copy_range(self.registers_user@, self.active_registers@, 0, 13),
            self.active_registers@,
            15,
            16,
        );
        if self.current_mode is USER || self.current_mode is SYS {
            copy_range(u, self.active_registers@, 13, 15)
        } else {
            u
        }
    }

    /// The bank of `mode` after the active registers have been saved: it
    /// takes registers 13 and 14 when `mode` is the active mode.
    pub open spec fn stored_bank(self, mode: CPUMode) -> Seq<u32> {
        if self.current_mode == mode {
            copy_range(self.bank_of(mode), self.active_registers@, 13, 15)
        } else {
            self.bank_of(mode)
        }
    }

    /// The bank that registers 13 and 14 are loaded from when `mode` is
    /// entered, once the active registers have been saved.
    pub open spec fn load_source(self, mode: CPUMode) -> Seq<u32> {
        match mode {
            CPUMode::IRQ => self.stored_bank(CPUMode::IRQ),
            CPUMode::SVC => self.stored_bank(CPUMode::SVC),
            CPUMode::ABT => self.stored_bank(CPUMode::SVC),
            CPUMode::UND => self.stored_bank(CPUMode::UND),
            _ => self.stored_user(),
        }
    }

    /// The active registers once `mode` has been entered.
    pub open spec fn switched_active(self, mode: CPUMode) -> Seq<u32> {
        copy_range(
            copy_range(
                copy_range(self.active_registers@, self.stored_user(), 0, 13),
                self.stored_user(),
                15,
                16,
            ),
            self.load_source(mode),
            13,
            15,
        )
    }

    /// `next` is the register file after `mode` has been entered from this one.
    pub open spec fn switched_to(self, mode: CPUMode, next: Registers) -> bool {
        &&& next.current_mode == mode
        &&& next.registers_user@ == self.stored_user()
        &&& next.registers_irq@ == self.stored_bank(CPUMode::IRQ)
        &&& next.registers_svc@ == self.stored_bank(CPUMode::SVC)
        &&& next.registers_abt@ == self.stored_bank(CPUMode::ABT)
        &&& next.registers_und@ == self.stored_bank(CPUMode::UND)
        &&& next.active_registers@ == self.switched_active(mode)
    }

    /// Every register, active or banked, is zero.
    pub open spec fn zeroed(self) -> bool {
        &&& forall|i: int| 0 <= i < 16 ==> #[trigger] self.active_registers@[i] == 0
        &&& forall|i: int| 0 <= i < 16 ==> #[trigger] self.registers_user@[i] == 0
        &&& forall|i: int| 0 <= i < 16 ==> #[trigger] self.registers_svc@[i] == 0
        &&& forall|i: int| 0 <= i < 16 ==> #[trigger] self.registers_abt@[i] == 0
        &&& forall|i: int| 0 <= i < 16 ==> #[trigger] self.registers_irq@[i] == 0
        &&& forall|i: int| 0 <= i < 16 ==> #[trigger] self.registers_und@[i] == 0
    }

    /// Every register is zero and the supervisor mode is active.
    pub fn new() -> (r: Registers)
        ensures
            r.zeroed(),
            r.current_mode == CPUMode::SVC,
    {
        Registers {
            active_registers: [0; 16],
            registers_user: [0; 16],
            registers_svc: [0; 16],
            registers_abt: [0; 16],
            registers_irq: [0; 16],
            registers_und: [0; 16],
            current_mode: CPUMode::SVC,
        }
    }

    pub fn get_register(&self, register_num: usize) -> (r: WORD)
        requires
            register_num < 16,
        ensures
            r == self.active_registers@[register_num as int],
    {
        self.active_registers[register_num]
    }

    pub fn set_register(&mut self, register_num: usize, value: WORD)
        requires
            register_num < 16,
        ensures
            final(self).active_registers@ == old(self).active_registers@.update(
                register_num as int,
                value,
            ),
            final(self).registers_user == old(self).registers_user,
            final(self).registers_svc == old(self).registers_svc,
            final(self).registers_abt == old(self).registers_abt,
            final(self).registers_irq == old(self).registers_irq,
            final(self).registers_und == old(self).registers_und,
            final(self).current_mode == old(self).current_mode,
    {
        self.active_registers[register_num] = value;
    }
}

impl Registers {
    /// Saves the active registers into the banks of the current mode, makes
    /// `cpu_mode` the current mode and loads its registers.
    pub fn update_registers(&mut self, cpu_mode: CPUMode)
        requires
            is_banked_mode(old(self).current_mode),
            is_banked_mode(cpu_mode),
        ensures
            old(self).switched_to(cpu_mode, *final(self)),
    {
        copy_words(&mut self.registers_user, &self.active_registers, 0, 13);
        copy_words(&mut self.registers_user, &self.active_registers, 15, 16);
        match self.current_mode {
            CPUMode::USER | CPUMode::SYS => {
                copy_words(&mut self.registers_user, &self.active_registers, 13, 15);
            },
            CPUMode::IRQ => {
                copy_words(&mut self.registers_irq, &self.active_registers, 13, 15);
            },
            CPUMode::SVC => {
                copy_words(&mut self.registers_svc, &self.active_registers, 13, 15);
            },
            CPUMode::ABT => {
                copy_words(&mut self.registers_abt, &self.active_registers, 13, 15);
            },
            _ => {
                copy_words(&mut self.registers_und, &self.active_registers, 13, 15);
            },
        }

        self.current_mode = cpu_mode;

        copy_words(&mut self.active_registers, &self.registers_user, 0, 13);
        copy_words(&mut self.active_registers, &self.registers_user, 15, 16);

        match self.current_mode {
            CPUMode::USER | CPUMode::SYS => {
                copy_words(&mut self.active_registers, &self.registers_user, 13, 15);
            },
            CPUMode::IRQ => {
                copy_words(&mut self.active_registers, &self.registers_irq, 13, 15);
            },
            CPUMode::SVC => {
                copy_words(&mut self.active_registers, &self.registers_svc, 13, 15);
            },
            CPUMode::ABT => {
                copy_words(&mut self.active_registers, &self.registers_svc, 13, 15);
            },
            _ => {
                copy_words(&mut self.active_registers, &self.registers_und, 13, 15);
            },
        }
    }
}

/// Entering a mode leaves registers 0-12 and 15 as they were.
pub proof fn lemma_switch_keeps_general_registers(r: Registers, mode: CPUMode, next: Registers, i: int)
    requires
        is_banked_mode(r.current_mode),
        is_banked_mode(mode),
        r.switched_to(mode, next),
        0 <= i < 13 || i == 15,
    ensures
        next.active_registers@[i] == r.active_registers@[i],
{
}

/// Leaving a mode for another one and coming back restores every active
/// register, when the mode left is not the abort mode (whose stack pointer
/// and link register are loaded from the supervisor bank on entry).
pub proof fn lemma_mode_round_trip(r0: Registers, r1: Registers, r2: Registers, other: CPUMode)
    requires
        is_banked_mode(r0.current_mode),
        !(r0.current_mode is ABT),
        is_banked_mode(other),
        r0.switched_to(other, r1),
        r1.switched_to(r0.current_mode, r2),
    ensures
        r2.active_registers@ == r0.active_registers@,
        r2.current_mode == r0.current_mode,
{
    assert(r2.active_registers@ =~= r0.active_registers@);
}

} // verus!
