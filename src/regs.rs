use vstd::prelude::*;
use crate::board::Port;

verus! {

/// The memory-mapped registers that the boards' bring-up and LED writes touch.
#[derive(PartialEq, Eq, Structural, Clone, Copy, Debug)]
pub enum Register {
    /// STM32F4 RCC AHB1 peripheral clock enable register.
    Ahb1Enr,
    /// STM32F4 RCC clock configuration register.
    Cfgr,
    /// STM32F1 RCC APB2 peripheral clock enable register.
    Apb2Enr,
    /// STM32F4 port mode register: two bits per pin.
    Moder(Port),
    /// STM32F4 port output type register: one bit per pin.
    Otyper(Port),
    /// STM32F4 port output speed register: two bits per pin.
    Ospeedr(Port),
    /// STM32F1 port configuration register for pins 0 to 7: four bits per pin.
    Crl(Port),
    /// STM32F1 port configuration register for pins 8 to 15: four bits per pin.
    Crh(Port),
    /// Port bit set/reset register (write only): bits 0..16 set a pin,
    /// bits 16..32 reset it.
    Bsrr(Port),
}

/// One access to a register.
#[derive(PartialEq, Eq, Structural, Clone, Copy, Debug)]
pub enum RegOp {
    /// Read the register, clear the bits of `mask`, set the bits of `bits`,
    /// write the result back.
    Modify { reg: Register, mask: u32, bits: u32 },
    /// Write `value` without reading the register first.
    Write { reg: Register, value: u32 },
}

pub open spec fn op_target(op: RegOp) -> Register {
    match op {
        RegOp::Modify { reg, .. } => reg,
        RegOp::Write { reg, .. } => reg,
    }
}

/// What the register holds after `op`, given what it held before.
pub open spec fn op_effect(op: RegOp, before: u32) -> u32 {
    match op {
        RegOp::Modify { mask, bits, .. } => (before & !mask) | bits,
        RegOp::Write { value, .. } => value,
    }
}

/// The GPIO port whose registers `reg` belongs to, if any.
pub open spec fn register_port(reg: Register) -> Option<Port> {
    match reg {
        Register::Moder(p) => Some(p),
        Register::Otyper(p) => Some(p),
        Register::Ospeedr(p) => Some(p),
        Register::Crl(p) => Some(p),
        Register::Crh(p) => Some(p),
        Register::Bsrr(p) => Some(p),
        _ => None,
    }
}

/// The value of `reg` after the operations `ops`, in order, starting from `start`.
pub open spec fn value_after(ops: Seq<RegOp>, reg: Register, start: u32) -> u32
    decreases ops.len(),
{
    if ops.len() == 0 {
        start
    } else {
        let before = value_after(ops.drop_last(), reg, start);
        if op_target(ops.last()) == reg {
            op_effect(ops.last(), before)
        } else {
            before
        }
    }
}

/// The values written to the bit set/reset register of `port`, in order.
pub open spec fn pin_writes(ops: Seq<RegOp>, port: Port) -> Seq<u32>
    decreases ops.len(),
{
    if ops.len() == 0 {
        Seq::empty()
    } else {
        let earlier = pin_writes(ops.drop_last(), port);
        match ops.last() {
            RegOp::Write { reg: Register::Bsrr(p), value } => if p == port {
                earlier.push(value)
            } else {
                earlier
            },
            _ => earlier,
        }
    }
}

/// The bits of `v` selected by `field_mask` after shifting right by `shift`.
pub open spec fn field(v: u32, shift: u32, field_mask: u32) -> u32 {
    (v >> shift) & field_mask
}

impl RegOp {
    pub fn target(&self) -> (r: Register)
        ensures
            r == op_target(*self),
    {
        match self {
            RegOp::Modify { reg, .. } => *reg,
            RegOp::Write { reg, .. } => *reg,
        }
    }

    /// The register's new value when it held `before`.
    pub fn effect(&self, before: u32) -> (r: u32)
        ensures
            r == op_effect(*self, before),
    {
        match self {
            RegOp::Modify { mask, bits, .. } => (before & !*mask) | *bits,
            RegOp::Write { value, .. } => *value,
        }
    }
}


/// Number of registers that a `RegisterFile` holds.
pub const REGISTER_COUNT: usize = 15;

pub open spec fn register_slot(reg: Register) -> int {
    match reg {
        Register::Ahb1Enr => 0,
        Register::Cfgr => 1,
        Register::Apb2Enr => 2,
        Register::Moder(p) => if p == Port::A { 3 } else { 4 },
        Register::Otyper(p) => if p == Port::A { 5 } else { 6 },
        Register::Ospeedr(p) => if p == Port::A { 7 } else { 8 },
        Register::Crl(p) => if p == Port::A { 9 } else { 10 },
        Register::Crh(p) => if p == Port::A { 11 } else { 12 },
        Register::Bsrr(p) => if p == Port::A { 13 } else { 14 },
    }
}

proof fn lemma_register_slot_injective(a: Register, b: Register)
    ensures
        0 <= register_slot(a) < REGISTER_COUNT,
        register_slot(a) == register_slot(b) ==> a == b,
{
}

fn slot_of(reg: Register) -> (r: usize)
    ensures
        r == register_slot(reg),
{
    match reg {
        Register::Ahb1Enr => 0,
        Register::Cfgr => 1,
        Register::Apb2Enr => 2,
        Register::Moder(p) => if p == Port::A { 3 } else { 4 },
        Register::Otyper(p) => if p == Port::A { 5 } else { 6 },
        Register::Ospeedr(p) => if p == Port::A { 7 } else { 8 },
        Register::Crl(p) => if p == Port::A { 9 } else { 10 },
        Register::Crh(p) => if p == Port::A { 11 } else { 12 },
        Register::Bsrr(p) => if p == Port::A { 13 } else { 14 },
    }
}

/// A model of the registers: what each holds, and every access made, in order.
pub struct RegisterFile {
    values: Vec<u32>,
    log: Vec<RegOp>,
}

impl RegisterFile {
    pub closed spec fn wf(&self) -> bool {
        self.values@.len() == REGISTER_COUNT
    }

    /// What `reg` holds.
    pub closed spec fn value(&self, reg: Register) -> u32 {
        self.values@[register_slot(reg)]
    }

    /// Every access made so far, oldest first.
    pub closed spec fn history(&self) -> Seq<RegOp> {
        self.log@
    }

    /// Registers holding `start` each, with no access made yet.
    pub fn new(start: u32) -> (r: RegisterFile)
        ensures
            r.wf(),
            r.history().len() == 0,
            forall|reg: Register| r.value(reg) == start,
    {
        let mut values: Vec<u32> = Vec::new();
        let mut i: usize = 0;
        while i < REGISTER_COUNT
            invariant
                i <= REGISTER_COUNT,
                values@.len() == i,
                forall|k: int| 0 <= k < i ==> values@[k] == start,
            decreases REGISTER_COUNT - i,
        {
            values.push(start);
            i = i + 1;
        }
        let r = RegisterFile { values, log: Vec::new() };
        assert forall|reg: Register| r.value(reg) == start by {
            lemma_register_slot_injective(reg, reg);
        }
        r
    }

    pub fn read(&self, reg: Register) -> (r: u32)
        requires
            self.wf(),
        ensures
            r == self.value(reg),
    {
        proof {
            lemma_register_slot_injective(reg, reg);
        }
        self.values[slot_of(reg)]
    }

    /// Performs `op`: its register takes the new value, the others keep theirs.
    pub fn apply(&mut self, op: RegOp)
        requires
            old(self).wf(),
        ensures
            final(self).wf(),
            final(self).history() == old(self).history().push(op),
            forall|reg: Register|
                #[trigger] final(self).value(reg) == if reg == op_target(op) {
                    op_effect(op, old(self).value(reg))
                } else {
                    old(self).value(reg)
                },
    {
        let target = op.target();
        proof {
            lemma_register_slot_injective(target, target);
        }
        let s = slot_of(target);
        let before = self.values[s];
        self.values.set(s, op.effect(before));
        self.log.push(op);
        assert forall|reg: Register|
            #[trigger] self.value(reg) == if reg == op_target(op) {
                op_effect(op, old(self).value(reg))
            } else {
                old(self).value(reg)
            } by {
            lemma_register_slot_injective(reg, target);
        }
    }

    /// Performs `ops` in order.
    pub fn apply_all(&mut self, ops: &Vec<RegOp>)
        requires
            old(self).wf(),
        ensures
            final(self).wf(),
            final(self).history() == old(self).history() + ops@,
            forall|reg: Register|
                #[trigger] final(self).value(reg) == value_after(ops@, reg, old(self).value(reg)),
    {
        let mut i: usize = 0;
        while i < ops.len()
            invariant
                self.wf(),
                i <= ops@.len(),
                self.history() == old(self).history() + ops@.subrange(0, i as int),
                forall|reg: Register|
                    #[trigger] self.value(reg) == value_after(
                        ops@.subrange(0, i as int),
                        reg,
                        old(self).value(reg),
                    ),
            decreases ops@.len() - i,
        {
            let op = ops[i];
            self.apply(op);
            proof {
                let done = ops@.subrange(0, i + 1);
                assert(done.drop_last() =~= ops@.subrange(0, i as int));
                assert(done.last() == op);
                assert(old(self).history() + done =~= (old(self).history() + ops@.subrange(
                    0,
                    i as int,
                )).push(op));
            }
            i = i + 1;
        }
        assert(ops@.subrange(0, ops@.len() as int) =~= ops@);
    }

    /// The values written to the bit set/reset register of `port`, oldest first.
    pub fn pin_writes(&self, port: Port) -> (r: Vec<u32>)
        ensures
            r@ == pin_writes(self.history(), port),
    {
        let mut r: Vec<u32> = Vec::new();
        let mut i: usize = 0;
        while i < self.log.len()
            invariant
                i <= self.log@.len(),
                r@ == pin_writes(self.log@.subrange(0, i as int), port),
            decreases self.log@.len() - i,
        {
            let op = self.log[i];
            proof {
                assert(self.log@.subrange(0, i + 1).drop_last() =~= self.log@.subrange(0, i as int));
            }
            match op {
                RegOp::Write { reg: Register::Bsrr(p), value } => {
                    if p == port {
                        r.push(value);
                    }
                },
                _ => {},
            }
            i = i + 1;
        }
        assert(self.log@.subrange(0, self.log@.len() as int) =~= self.log@);
        r
    }
}

} // verus!
