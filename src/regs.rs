//! The register map: where each register of the Mini UART and of the pin
//! multiplexer sits, the operations the driver performs on them, and a
//! model of the register contents that those operations change.

use vstd::prelude::*;
use crate::field::{FieldValue, modify_word};

verus! {

/// Base of the peripheral window in the ARM physical address map.
pub const PERIPHERAL_BASE: u32 = 0xFE00_0000;

/// Base of the auxiliary peripherals block (Mini UART and SPI).
pub const AUX_BASE: u32 = PERIPHERAL_BASE + 0x0021_5000;

/// Base of the GPIO controller.
pub const GPIO_BASE: u32 = PERIPHERAL_BASE + 0x0020_0000;

/// Number of registers in [`Reg`].
pub const REG_COUNT: usize = 14;

/// The registers the driver uses.
#[derive(Clone, Copy, Debug, PartialEq, Eq, Structural)]
pub enum Reg {
    /// Auxiliary enables: clock gate of the Mini UART.
    AuxEnables,
    /// Data register, both directions.
    MuIo,
    /// Interrupt enable.
    MuIer,
    /// Interrupt identify; writes clear the FIFOs.
    MuIir,
    /// Line control: data size.
    MuLcr,
    /// Modem control.
    MuMcr,
    /// Line status: transmitter empty, data ready.
    MuLsr,
    /// Modem status.
    MuMsr,
    /// Scratch byte.
    MuScratch,
    /// Extra control: transmitter and receiver enables.
    MuCntl,
    /// Extra status.
    MuStat,
    /// Baud-rate divisor.
    MuBaud,
    /// GPIO function select for pins 10 to 19.
    GpFsel1,
    /// GPIO pull-up / pull-down control for pins 0 to 15.
    GpPupPdn0,
}

/// Which direction of access a register supports.
#[derive(Clone, Copy, Debug, PartialEq, Eq, Structural)]
pub enum Mode {
    ReadOnly,
    WriteOnly,
    ReadWrite,
}

impl Reg {
    /// Byte offset of the register from its block's base.
    pub open spec fn spec_offset(self) -> u32 {
        match self {
            Reg::AuxEnables => 0x04,
            Reg::MuIo => 0x40,
            Reg::MuIer => 0x44,
            Reg::MuIir => 0x48,
            Reg::MuLcr => 0x4C,
            Reg::MuMcr => 0x50,
            Reg::MuLsr => 0x54,
            Reg::MuMsr => 0x58,
            Reg::MuScratch => 0x5C,
            Reg::MuCntl => 0x60,
            Reg::MuStat => 0x64,
            Reg::MuBaud => 0x68,
            Reg::GpFsel1 => 0x04,
            Reg::GpPupPdn0 => 0xE4,
        }
    }

    /// Whether the register belongs to the GPIO controller rather than the
    /// auxiliary block.
    pub open spec fn is_gpio(self) -> bool {
        self == Reg::GpFsel1 || self == Reg::GpPupPdn0
    }

    /// Physical address of the register.
    pub open spec fn spec_address(self) -> u32 {
        if self.is_gpio() {
            (GPIO_BASE + self.spec_offset()) as u32
        } else {
            (AUX_BASE + self.spec_offset()) as u32
        }
    }

    /// Position of the register in [`RegisterBlock`].
    pub open spec fn spec_index(self) -> int {
        match self {
            Reg::AuxEnables => 0,
            Reg::MuIo => 1,
            Reg::MuIer => 2,
            Reg::MuIir => 3,
            Reg::MuLcr => 4,
            Reg::MuMcr => 5,
            Reg::MuLsr => 6,
            Reg::MuMsr => 7,
            Reg::MuScratch => 8,
            Reg::MuCntl => 9,
            Reg::MuStat => 10,
            Reg::MuBaud => 11,
            Reg::GpFsel1 => 12,
            Reg::GpPupPdn0 => 13,
        }
    }

    /// Byte offset of the register from its block's base.
    pub fn offset(self) -> (r: u32)
        ensures
            r == self.spec_offset(),
    {
        match self {
            Reg::AuxEnables => 0x04,
            Reg::MuIo => 0x40,
            Reg::MuIer => 0x44,
            Reg::MuIir => 0x48,
            Reg::MuLcr => 0x4C,
            Reg::MuMcr => 0x50,
            Reg::MuLsr => 0x54,
            Reg::MuMsr => 0x58,
            Reg::MuScratch => 0x5C,
            Reg::MuCntl => 0x60,
            Reg::MuStat => 0x64,
            Reg::MuBaud => 0x68,
            Reg::GpFsel1 => 0x04,
            Reg::GpPupPdn0 => 0xE4,
        }
    }

    /// Physical address of the register.
    pub fn address(self) -> (r: u32)
        ensures
            r == self.spec_address(),
    {
        let off = self.offset();
        match self {
            Reg::GpFsel1 | Reg::GpPupPdn0 => GPIO_BASE + off,
            _ => AUX_BASE + off,
        }
    }

    /// Position of the register in [`RegisterBlock`].
    pub fn index(self) -> (r: usize)
        ensures
            r == self.spec_index(),
            r < REG_COUNT,
    {
        match self {
            Reg::AuxEnables => 0,
            Reg::MuIo => 1,
            Reg::MuIer => 2,
            Reg::MuIir => 3,
            Reg::MuLcr => 4,
            Reg::MuMcr => 5,
            Reg::MuLsr => 6,
            Reg::MuMsr => 7,
            Reg::MuScratch => 8,
            Reg::MuCntl => 9,
            Reg::MuStat => 10,
            Reg::MuBaud => 11,
            Reg::GpFsel1 => 12,
            Reg::GpPupPdn0 => 13,
        }
    }

    /// The accesses the hardware supports on the register.
    pub fn access(self) -> (r: Mode)
        ensures
            r == Mode::ReadOnly <==> (self == Reg::MuLsr || self == Reg::MuMsr || self
                == Reg::MuStat),
            r == Mode::WriteOnly <==> (self == Reg::MuIer || self == Reg::MuIir || self
                == Reg::MuLcr || self == Reg::MuMcr || self == Reg::MuCntl || self
                == Reg::MuBaud),
    {
        match self {
            Reg::MuLsr | Reg::MuMsr | Reg::MuStat => Mode::ReadOnly,
            Reg::MuIer | Reg::MuIir | Reg::MuLcr | Reg::MuMcr | Reg::MuCntl | Reg::MuBaud => {
                Mode::WriteOnly
            },
            _ => Mode::ReadWrite,
        }
    }
}

/// One access of the driver to a register.
#[derive(Clone, Copy, Debug, PartialEq, Eq, Structural)]
pub enum RegOp {
    /// Store the whole word.
    Write(Reg, u32),
    /// Read the word, replace the fields of the value, store it back.
    Modify(Reg, FieldValue),
}

impl RegOp {
    pub open spec fn wf(self) -> bool {
        match self {
            RegOp::Write(_, _) => true,
            RegOp::Modify(_, fv) => fv.wf(),
        }
    }

    /// The register the operation stores to.
    pub open spec fn target(self) -> Reg {
        match self {
            RegOp::Write(r, _) => r,
            RegOp::Modify(r, _) => r,
        }
    }

    /// The register contents after the operation.
    pub open spec fn apply(self, s: Seq<u32>) -> Seq<u32> {
        match self {
            RegOp::Write(r, w) => s.update(r.spec_index(), w),
            RegOp::Modify(r, fv) => s.update(r.spec_index(), fv.modified(s[r.spec_index()])),
        }
    }
}

/// The register contents after the operations, in order.
pub open spec fn run_ops(s: Seq<u32>, ops: Seq<RegOp>) -> Seq<u32>
    decreases ops.len(),
{
    if ops.len() == 0 {
        s
    } else {
        ops.last().apply(run_ops(s, ops.drop_last()))
    }
}

/// The contents of the registers of [`Reg`], one word each: a model of the
/// hardware state that a caller can drive with the driver's operations.
pub struct RegisterBlock {
    words: Vec<u32>,
}

impl RegisterBlock {
    pub closed spec fn view(&self) -> Seq<u32> {
        self.words@
    }

    pub open spec fn wf(&self) -> bool {
        self.view().len() == REG_COUNT
    }

    /// Every register holds zero.
    pub fn new() -> (r: RegisterBlock)
        ensures
            r.wf(),
            forall|i: int| 0 <= i < REG_COUNT ==> r.view()[i] == 0,
    {
        let mut words: Vec<u32> = Vec::new();
        let mut i: usize = 0;
        while i < REG_COUNT
            invariant
                i <= REG_COUNT,
                words@.len() == i,
                forall|j: int| 0 <= j < i ==> words@[j] == 0,
            decreases REG_COUNT - i,
        {
            words.push(0);
            i = i + 1;
        }
        RegisterBlock { words }
    }

    /// The word the register holds.
    pub fn get(&self, reg: Reg) -> (r: u32)
        requires
            self.wf(),
        ensures
            r == self.view()[reg.spec_index()],
    {
        self.words[reg.index()]
    }

    /// Stores a word, as the hardware does when its state changes.
    pub fn set(&mut self, reg: Reg, word: u32)
        requires
            old(self).wf(),
        ensures
            final(self).wf(),
            final(self).view() == old(self).view().update(reg.spec_index(), word),
    {
        let i = reg.index();
        self.words.set(i, word);
    }

    /// Performs one operation.
    pub fn apply(&mut self, op: RegOp)
        requires
            old(self).wf(),
            op.wf(),
        ensures
            final(self).wf(),
            final(self).view() == op.apply(old(self).view()),
    {
        match op {
            RegOp::Write(r, w) => self.set(r, w),
            RegOp::Modify(r, fv) => {
                let cur = self.get(r);
                self.set(r, modify_word(cur, fv));
            },
        }
    }

    /// Performs the operations in order.
    pub fn run(&mut self, ops: &Vec<RegOp>)
        requires
            old(self).wf(),
            forall|i: int| 0 <= i < ops@.len() ==> (#[trigger] ops@[i]).wf(),
        ensures
            final(self).wf(),
            final(self).view() == run_ops(old(self).view(), ops@),
    {
        let ghost s0 = self.view();
        let mut i: usize = 0;
        while i < ops.len()
            invariant
                self.wf(),
                i <= ops@.len(),
                forall|k: int| 0 <= k < ops@.len() ==> (#[trigger] ops@[k]).wf(),
                self.view() == run_ops(s0, ops@.take(i as int)),
            decreases ops@.len() - i,
        {
            assert(ops@.take(i as int + 1).drop_last() == ops@.take(i as int));
            self.apply(ops[i]);
            i = i + 1;
        }
        assert(ops@.take(ops@.len() as int) == ops@);
    }
}

} // verus!
