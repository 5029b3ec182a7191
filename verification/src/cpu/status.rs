use crate::cpu::mem::wrap8;
use vstd::prelude::*;

verus! {

/// The 6502 processor status register, kept as its six semantic flags.
///
/// Bit 4 (break) and bit 5 (unused) are not stored: they exist only in the
/// serialized byte, where bit 5 is always written as 1 and bit 4 is chosen by
/// the instruction that pushes the byte onto the stack.
#[derive(Clone, Copy, Debug, PartialEq, Eq, Structural)]
pub struct ProcessorStatus {
    pub carry_flag: bool,
    pub zero_flag: bool,
    pub interrupt_disable: bool,
    pub decimal: bool,
    pub overflow_flag: bool,
    pub negative_flag: bool,
}

/// Serialized layout, bit 0 to bit 7: C, Z, I, D, B (written 0), U (written
/// 1), V, N.
pub open spec fn status_to_byte(p: ProcessorStatus) -> u8 {
    (if p.carry_flag {
        0x01u8
    } else {
        0u8
    }) | (if p.zero_flag {
        0x02u8
    } else {
        0u8
    }) | (if p.interrupt_disable {
        0x04u8
    } else {
        0u8
    }) | (if p.decimal {
        0x08u8
    } else {
        0u8
    }) | 0x20u8 | (if p.overflow_flag {
        0x40u8
    } else {
        0u8
    }) | (if p.negative_flag {
        0x80u8
    } else {
        0u8
    })
}

/// Deserialization reads the six semantic flags and discards bits 4 and 5.
pub open spec fn byte_to_status(b: u8) -> ProcessorStatus {
    ProcessorStatus {
        carry_flag: b & 0x01 != 0,
        zero_flag: b & 0x02 != 0,
        interrupt_disable: b & 0x04 != 0,
        decimal: b & 0x08 != 0,
        overflow_flag: b & 0x40 != 0,
        negative_flag: b & 0x80 != 0,
    }
}

/// Z is set exactly on a zero result, N exactly on a result with bit 7 set;
/// the other flags are kept.
pub open spec fn spec_update_zn(p: ProcessorStatus, v: u8) -> ProcessorStatus {
    ProcessorStatus { zero_flag: v == 0, negative_flag: v >= 0x80, ..p }
}

/// Flag outcome of a register/operand comparison: C on no-borrow, Z on
/// equality, N from bit 7 of the wrapping difference.
pub open spec fn spec_update_cmp(p: ProcessorStatus, a: u8, b: u8) -> ProcessorStatus {
    ProcessorStatus {
        carry_flag: a >= b,
        zero_flag: a == b,
        negative_flag: wrap8(a - b) >= 0x80,
        ..p
    }
}

/// Z and N from the value, C from the given carry-out; V, I and D are kept.
pub open spec fn spec_update_co_zn(p: ProcessorStatus, v: u8, c: bool) -> ProcessorStatus {
    ProcessorStatus { carry_flag: c, zero_flag: v == 0, negative_flag: v >= 0x80, ..p }
}

pub open spec fn spec_status_reset() -> ProcessorStatus {
    ProcessorStatus {
        carry_flag: false,
        zero_flag: false,
        interrupt_disable: false,
        decimal: false,
        overflow_flag: false,
        negative_flag: false,
    }
}

impl Default for ProcessorStatus {
    fn default() -> (r: Self)
        ensures
            r == spec_status_reset(),
    {
        ProcessorStatus {
            carry_flag: false,
            zero_flag: false,
            interrupt_disable: false,
            decimal: false,
            overflow_flag: false,
            negative_flag: false,
        }
    }
}

impl ProcessorStatus {
    /// Serialize the register into its byte form (bit 4 clear, bit 5 set).
    pub fn to_byte(&self) -> (r: u8)
        ensures
            r == status_to_byte(*self),
    {
        (if self.carry_flag {
            0x01u8
        } else {
            0u8
        }) | (if self.zero_flag {
            0x02u8
        } else {
            0u8
        }) | (if self.interrupt_disable {
            0x04u8
        } else {
            0u8
        }) | (if self.decimal {
            0x08u8
        } else {
            0u8
        }) | 0x20u8 | (if self.overflow_flag {
            0x40u8
        } else {
            0u8
        }) | (if self.negative_flag {
            0x80u8
        } else {
            0u8
        })
    }

    /// Deserialize a pushed status byte; bits 4 and 5 are ignored.
    pub fn from_byte(b: u8) -> (r: ProcessorStatus)
        ensures
            r == byte_to_status(b),
    {
        ProcessorStatus {
            carry_flag: b & 0x01 != 0,
            zero_flag: b & 0x02 != 0,
            interrupt_disable: b & 0x04 != 0,
            decimal: b & 0x08 != 0,
            overflow_flag: b & 0x40 != 0,
            negative_flag: b & 0x80 != 0,
        }
    }

    pub fn update_zero_neg_flags(&mut self, value: u8)
        ensures
            *final(self) == spec_update_zn(*old(self), value),
    {
        self.zero_flag = value == 0;
        self.negative_flag = value & 0x80 != 0;
        proof {
            assert((value & 0x80 != 0) == (value >= 0x80)) by (bit_vector);
        }
    }

    pub fn update_carry_zero_neg_cmp(&mut self, value1: u8, value2: u8)
        ensures
            *final(self) == spec_update_cmp(*old(self), value1, value2),
    {
        self.carry_flag = value1 >= value2;
        self.zero_flag = value1 == value2;
        let diff = value1.wrapping_sub(value2);
        self.negative_flag = diff & 0x80 != 0;
        proof {
            assert((diff & 0x80 != 0) == (diff >= 0x80)) by (bit_vector);
        }
    }

    pub fn update_carry_overflow_zero_neg(&mut self, value: u8, overflow: bool)
        ensures
            *final(self) == spec_update_co_zn(*old(self), value, overflow),
    {
        self.update_zero_neg_flags(value);
        self.carry_flag = overflow;
    }

    pub fn reset(&mut self)
        ensures
            *final(self) == spec_status_reset(),
    {
        self.carry_flag = false;
        self.zero_flag = false;
        self.interrupt_disable = false;
        self.decimal = false;
        self.overflow_flag = false;
        self.negative_flag = false;
    }
}

/// Serialize-then-deserialize gives back the same six semantic flags: bit 4
/// and bit 5 are synthesized on the way out and discarded on the way in.
pub proof fn lemma_status_byte_round_trip(p: ProcessorStatus)
    ensures
        byte_to_status(status_to_byte(p)) == p,
{
    let c: u8 = if p.carry_flag {
        0x01u8
    } else {
        0u8
    };
    let z: u8 = if p.zero_flag {
        0x02u8
    } else {
        0u8
    };
    let i: u8 = if p.interrupt_disable {
        0x04u8
    } else {
        0u8
    };
    let d: u8 = if p.decimal {
        0x08u8
    } else {
        0u8
    };
    let v: u8 = if p.overflow_flag {
        0x40u8
    } else {
        0u8
    };
    let n: u8 = if p.negative_flag {
        0x80u8
    } else {
        0u8
    };
    let b = c | z | i | d | 0x20u8 | v | n;
    assert(status_to_byte(p) == b);
    assert((b & 0x01 != 0) == (c != 0) && (b & 0x02 != 0) == (z != 0) && (b & 0x04 != 0) == (i
        != 0) && (b & 0x08 != 0) == (d != 0) && (b & 0x40 != 0) == (v != 0) && (b & 0x80 != 0) == (n
        != 0)) by (bit_vector)
        requires
            (c == 0 || c == 0x01) && (z == 0 || z == 0x02) && (i == 0 || i == 0x04) && (d == 0 || d
                == 0x08) && (v == 0 || v == 0x40) && (n == 0 || n == 0x80) && b == (c | z | i | d
                | 0x20u8 | v | n),
    ;
}

/// The Z and N outcomes of a zero/negative update depend on the value alone:
/// two status registers updated with the same value agree on them, and they
/// are Z exactly when the value is 0 and N exactly when it is at least 0x80.
pub proof fn lemma_update_zn_deterministic(p1: ProcessorStatus, p2: ProcessorStatus, v: u8)
    ensures
        spec_update_zn(p1, v).zero_flag == spec_update_zn(p2, v).zero_flag,
        spec_update_zn(p1, v).negative_flag == spec_update_zn(p2, v).negative_flag,
        spec_update_zn(p1, v).zero_flag == (v == 0),
        spec_update_zn(p1, v).negative_flag == (v >= 0x80),
{
}

} // verus!
