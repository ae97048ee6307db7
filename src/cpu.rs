//! The LR35902 instruction engine: fetch, decode and execute, interrupt
//! dispatch, HALT, and the per-instruction report of dots to the board.
use vstd::prelude::*;
use crate::alu::{
    add8, add_spec, add_sp, add16, and8, bit, bit_set, bit_spec, daa, dec8, inc8, logic_flags, offset16, or8, rl,
    rl_spec, rlc, rlc_spec, rr, rr_spec, rrc, rrc_spec, sla, sla_spec, sra, sra_spec, srl, srl_spec, sub8, sub_spec,
    swap, swap_spec, with_bit, write_bit, xor8, AluResult, daa_spec, offset_spec, add_sp_spec, test_bit,
    add16_spec, inc_spec, dec_spec,
};
use crate::cartridge::{load_error, CartridgeError};
use crate::joypad::press_edge;
use crate::memory::Memory;
use crate::opcodes::{cb_cycles, cb_cycles_spec, is_conditional, op_cycles, op_len, opcode_info};
use crate::registers::{Flags, Reg16, Reg8, Registers};

verus! {

/// The register that operand field `idx` (0..=7, not 6) names: B C D E H L - A.
pub open spec fn reg_of(idx: u8) -> Reg8 {
    if idx == 0 {
        Reg8::B
    } else if idx == 1 {
        Reg8::C
    } else if idx == 2 {
        Reg8::D
    } else if idx == 3 {
        Reg8::E
    } else if idx == 4 {
        Reg8::H
    } else if idx == 5 {
        Reg8::L
    } else {
        Reg8::A
    }
}

fn reg_of_exec(idx: u8) -> (r: Reg8)
    ensures
        r == reg_of(idx),
{
    if idx == 0 {
        Reg8::B
    } else if idx == 1 {
        Reg8::C
    } else if idx == 2 {
        Reg8::D
    } else if idx == 3 {
        Reg8::E
    } else if idx == 4 {
        Reg8::H
    } else if idx == 5 {
        Reg8::L
    } else {
        Reg8::A
    }
}

/// The 8-bit ALU operations of opcodes 0x80..=0xBF and their immediate
/// forms, by the operation field: ADD ADC SUB SBC AND XOR OR CP. CP leaves
/// A as it was.
pub open spec fn alu_spec(kind: u8, a: u8, v: u8, fl: Flags) -> AluResult {
    if kind == 0 {
        add_spec(a, v, false)
    } else if kind == 1 {
        add_spec(a, v, fl.c)
    } else if kind == 2 {
        sub_spec(a, v, false)
    } else if kind == 3 {
        sub_spec(a, v, fl.c)
    } else if kind == 4 {
        AluResult { value: a & v, flags: logic_flags(a & v, true) }
    } else if kind == 5 {
        AluResult { value: a ^ v, flags: logic_flags(a ^ v, false) }
    } else if kind == 6 {
        AluResult { value: a | v, flags: logic_flags(a | v, false) }
    } else {
        AluResult { value: a, flags: sub_spec(a, v, false).flags }
    }
}

pub fn alu_apply(kind: u8, a: u8, v: u8, fl: Flags) -> (r: AluResult)
    ensures
        r == alu_spec(kind, a, v, fl),
{
    if kind == 0 {
        add8(a, v, false)
    } else if kind == 1 {
        add8(a, v, fl.c)
    } else if kind == 2 {
        sub8(a, v, false)
    } else if kind == 3 {
        sub8(a, v, fl.c)
    } else if kind == 4 {
        and8(a, v)
    } else if kind == 5 {
        xor8(a, v)
    } else if kind == 6 {
        or8(a, v)
    } else {
        AluResult { value: a, flags: sub8(a, v, false).flags }
    }
}

/// The CB-prefixed shift and rotate operations by field: RLC RRC RL RR SLA
/// SRA SWAP SRL.
pub open spec fn shift_spec(kind: u8, v: u8, cin: bool) -> AluResult {
    if kind == 0 {
        rlc_spec(v)
    } else if kind == 1 {
        rrc_spec(v)
    } else if kind == 2 {
        rl_spec(v, cin)
    } else if kind == 3 {
        rr_spec(v, cin)
    } else if kind == 4 {
        sla_spec(v)
    } else if kind == 5 {
        sra_spec(v)
    } else if kind == 6 {
        swap_spec(v)
    } else {
        srl_spec(v)
    }
}

fn shift_apply(kind: u8, v: u8, cin: bool) -> (r: AluResult)
    ensures
        r == shift_spec(kind, v, cin),
{
    if kind == 0 {
        rlc(v)
    } else if kind == 1 {
        rrc(v)
    } else if kind == 2 {
        rl(v, cin)
    } else if kind == 3 {
        rr(v, cin)
    } else if kind == 4 {
        sla(v)
    } else if kind == 5 {
        sra(v)
    } else if kind == 6 {
        swap(v)
    } else {
        srl(v)
    }
}

/// Whether condition field `cc` (NZ, Z, NC, C) holds.
pub open spec fn cond_spec(cc: u8, fl: Flags) -> bool {
    if cc == 0 {
        !fl.z
    } else if cc == 1 {
        fl.z
    } else if cc == 2 {
        !fl.c
    } else {
        fl.c
    }
}

/// The register pair that field `p` names in loads and arithmetic.
pub open spec fn rp_spec(p: u8) -> Reg16 {
    if p == 0 {
        Reg16::BC
    } else if p == 1 {
        Reg16::DE
    } else if p == 2 {
        Reg16::HL
    } else {
        Reg16::SP
    }
}

/// The opcodes that load PC: JR, JP, CALL, RET, RETI and RST (taken or not).
pub open spec fn transfers(op: u8) -> bool {
    op == 0x18 || (op >= 0x20 && op < 0x40 && op % 8 == 0) || (op >= 0xc0 && ((op < 0xe0 && (op % 8 == 0
        || op % 8 == 2 || op % 8 == 4)) || op == 0xc3 || op == 0xc9 || op == 0xcd || op == 0xd9 || op == 0xe9
        || op % 8 == 7))
}

/// PC plus `k`, wrapping.
pub open spec fn pc_plus(pc: u16, k: int) -> u16 {
    ((pc + k) % 65536) as u16
}

/// The interrupt vector of interrupt bit `bit`.
pub open spec fn vector_of(bit: u8) -> u16 {
    (0x40 + 8 * bit) as u16
}

/// The lowest set bit of a non-zero pending mask.
pub open spec fn lowest_bit(p: u8) -> u8 {
    if bit_set(p, 0) {
        0
    } else if bit_set(p, 1) {
        1
    } else if bit_set(p, 2) {
        2
    } else if bit_set(p, 3) {
        3
    } else {
        4
    }
}

pub fn inc16(x: u16) -> (r: u16)
    ensures
        r == (x + 1) % 65536,
{
    if x == 0xffff { 0 } else { x + 1 }
}

pub fn dec16(x: u16) -> (r: u16)
    ensures
        r == (x + 65535) % 65536,
{
    if x == 0 { 0xffff } else { x - 1 }
}

proof fn lemma_executed_frame(b1: CPU, b2: CPU, a1: CPU, a2: CPU, r: u8)
    requires
        CPU::executed(b1, a1, r),
        b1.registers == b2.registers,
        forall|a: u16| #[trigger] b1.memory.peek(a) == b2.memory.peek(a),
        a1.registers == a2.registers,
    ensures
        CPU::executed(b2, a2, r),
{
    let pc = b1.registers.pc;
    assert(b1.memory.peek(pc) == b2.memory.peek(pc));
    assert(b1.memory.peek(pc_plus(pc, 1)) == b2.memory.peek(pc_plus(pc, 1)));
}

/// The two bytes below `sp` are plain memory: no I/O register and not IE.
pub open spec fn stack_plain(sp: u16) -> bool {
    let a = pc_plus(sp, 65535);
    let b = pc_plus(sp, 65534);
    !crate::memory::is_io(a) && !crate::memory::is_io(b) && a != 0xffff && b != 0xffff
}

pub struct CPU {
    pub registers: Registers,
    pub memory: Memory,
    pub halt: bool,
}

impl CPU {
    pub open spec fn wf(&self) -> bool {
        self.registers.wf() && self.memory.wf()
    }

    /// IE & IF & 0x1F.
    pub open spec fn pending_spec(&self) -> u8 {
        self.memory.motherboard.i_enable & self.memory.motherboard.i_flag & 0x1f
    }

    /// Powers on with a cartridge image: registers as the boot ROM leaves
    /// them, memory cleared.
    pub fn new(rom_file: Vec<u8>) -> (r: Result<Self, CartridgeError>)
        ensures
            r is Ok <==> load_error(rom_file@) is None,
            r matches Err(e) ==> load_error(rom_file@) == Some(e),
            r matches Ok(c) ==> c.wf() && !c.halt && c.registers.pc == 0x0100 && c.registers.sp == 0xfffe
                && c.registers.a == 0x01 && c.registers.f == 0xb0 && c.registers.b == 0x00 && c.registers.c == 0x13
                && c.registers.d == 0x00 && c.registers.e == 0xd8 && c.registers.h == 0x01 && c.registers.l == 0x4d
                && c.memory.motherboard.screen.ly == 0,
    {
        match Memory::new(rom_file) {
            Ok(memory) => Ok(Self { registers: Registers::new(), memory, halt: false }),
            Err(e) => Err(e),
        }
    }

    fn tick4(&mut self)
        requires
            old(self).wf(),
        ensures
            final(self).wf(),
            forall|a: u16| #[trigger] final(self).memory.peek(a) == old(self).memory.peek(a),
            final(self).memory.motherboard.i_flag == old(self).memory.motherboard.i_flag,
            final(self).memory.motherboard.i_enable == old(self).memory.motherboard.i_enable,
            final(self).registers == old(self).registers,
            final(self).halt == old(self).halt,
            final(self).memory.motherboard.i_master == old(self).memory.motherboard.i_master,
    {
        let c = self.memory.motherboard.cycles;
        self.memory.motherboard.cycles = if c > 251 { 255 } else { c + 4 };
    }

    /// A bus read that takes one machine cycle.
    fn bus_read(&mut self, address: u16) -> (r: u8)
        requires
            old(self).wf(),
        ensures
            final(self).wf(),
            !crate::memory::is_io(address) ==> r == old(self).memory.peek(address) && forall|a: u16|
                #[trigger] final(self).memory.peek(a) == old(self).memory.peek(a),
            final(self).registers == old(self).registers,
            final(self).halt == old(self).halt,
            final(self).memory.motherboard.i_master == old(self).memory.motherboard.i_master,
    {
        let v = self.memory.get(address);
        self.tick4();
        v
    }

    /// A bus write that takes one machine cycle.
    fn bus_write(&mut self, address: u16, value: u8)
        requires
            old(self).wf(),
        ensures
            final(self).wf(),
            !crate::memory::is_io(address) ==> final(self).memory.motherboard.i_flag == old(self).memory.motherboard.i_flag,
            !crate::memory::is_io(address) && address != 0xffff ==> final(self).memory.motherboard.i_enable == old(self).memory.motherboard.i_enable,
            final(self).registers == old(self).registers,
            final(self).halt == old(self).halt,
            final(self).memory.motherboard.i_master == old(self).memory.motherboard.i_master,
    {
        self.memory.set(address, value);
        self.tick4();
    }

    fn fetch8(&mut self) -> (r: u8)
        requires
            old(self).wf(),
        ensures
            final(self).wf(),
            !crate::memory::is_io(old(self).registers.pc) ==> r == old(self).memory.peek(old(self).registers.pc)
                && forall|a: u16| #[trigger] final(self).memory.peek(a) == old(self).memory.peek(a),
            final(self).registers == (Registers { pc: ((old(self).registers.pc + 1) % 65536) as u16, ..old(self).registers }),
            final(self).halt == old(self).halt,
    {
        let pc = self.registers.pc;
        let v = self.bus_read(pc);
        self.registers.pc = inc16(pc);
        v
    }

    fn fetch16(&mut self) -> (r: u16)
        requires
            old(self).wf(),
        ensures
            final(self).wf(),
            final(self).registers == (Registers { pc: ((old(self).registers.pc + 2) % 65536) as u16, ..old(self).registers }),
            final(self).halt == old(self).halt,
    {
        let lo = self.fetch8();
        let hi = self.fetch8();
        hi as u16 * 256 + lo as u16
    }

    /// Operand `idx`: a register, or for 6 the byte at (HL).
    fn read_r8(&mut self, idx: u8) -> (r: u8)
        requires
            old(self).wf(),
            idx < 8,
        ensures
            final(self).wf(),
            final(self).registers == old(self).registers,
            final(self).halt == old(self).halt,
            idx != 6 ==> r == old(self).registers.r8(reg_of(idx)),
    {
        if idx == 6 {
            let hl = self.registers.get_u16_reg(Reg16::HL);
            self.bus_read(hl)
        } else {
            self.registers.get_u8_reg(reg_of_exec(idx))
        }
    }

    fn write_r8(&mut self, idx: u8, value: u8)
        requires
            old(self).wf(),
            idx < 8,
        ensures
            final(self).wf(),
            final(self).halt == old(self).halt,
            idx == 6 ==> final(self).registers == old(self).registers,
            idx != 6 ==> final(self).registers == old(self).registers.with_r8(reg_of(idx), value),
    {
        if idx == 6 {
            let hl = self.registers.get_u16_reg(Reg16::HL);
            self.bus_write(hl, value);
        } else {
            self.registers.set_u8_reg(reg_of_exec(idx), value);
        }
    }

    fn push_stack(&mut self, value: u16)
        requires
            old(self).wf(),
        ensures
            final(self).wf(),
            stack_plain(old(self).registers.sp) ==> final(self).memory.motherboard.i_flag == old(self).memory.motherboard.i_flag && final(self).memory.motherboard.i_enable == old(self).memory.motherboard.i_enable,
            final(self).halt == old(self).halt,
            final(self).memory.motherboard.i_master == old(self).memory.motherboard.i_master,
            final(self).registers == (Registers { sp: ((old(self).registers.sp + 65534) % 65536) as u16, ..old(self).registers }),
    {
        let sp1 = dec16(self.registers.sp);
        self.bus_write(sp1, (value / 256) as u8);
        let sp2 = dec16(sp1);
        self.bus_write(sp2, (value % 256) as u8);
        self.registers.sp = sp2;
    }

    fn pop_stack(&mut self) -> (r: u16)
        requires
            old(self).wf(),
        ensures
            final(self).wf(),
            final(self).halt == old(self).halt,
            final(self).registers == (Registers { sp: ((old(self).registers.sp + 2) % 65536) as u16, ..old(self).registers }),
    {
        let sp = self.registers.sp;
        let lo = self.bus_read(sp);
        let sp1 = inc16(sp);
        let hi = self.bus_read(sp1);
        self.registers.sp = inc16(sp1);
        hi as u16 * 256 + lo as u16
    }

    fn call(&mut self, address: u16)
        requires
            old(self).wf(),
        ensures
            final(self).wf(),
            final(self).halt == old(self).halt,
            final(self).registers.pc == address,
            final(self).registers == (Registers {
                pc: address,
                sp: ((old(self).registers.sp + 65534) % 65536) as u16,
                ..old(self).registers
            }),
    {
        let pc = self.registers.pc;
        self.push_stack(pc);
        self.registers.pc = address;
    }

    fn ret(&mut self)
        requires
            old(self).wf(),
        ensures
            final(self).wf(),
            final(self).halt == old(self).halt,
    {
        let address = self.pop_stack();
        self.registers.pc = address;
    }

    /// The register pair that field `p` names in loads and arithmetic:
    /// BC, DE, HL, SP.
    fn rp(p: u8) -> (r: Reg16)
        ensures
            r != Reg16::AF && r != Reg16::PC,
            r == rp_spec(p),
    {
        if p == 0 {
            Reg16::BC
        } else if p == 1 {
            Reg16::DE
        } else if p == 2 {
            Reg16::HL
        } else {
            Reg16::SP
        }
    }

    /// The register pair that field `p` names in PUSH and POP: BC, DE, HL, AF.
    fn rp2(p: u8) -> (r: Reg16)
        ensures
            r != Reg16::SP && r != Reg16::PC,
    {
        if p == 0 {
            Reg16::BC
        } else if p == 1 {
            Reg16::DE
        } else if p == 2 {
            Reg16::HL
        } else {
            Reg16::AF
        }
    }

    fn cond(&self, cc: u8) -> (r: bool)
        ensures
            r == cond_spec(cc, self.registers.flags_spec()),
    {
        let fl = self.registers.get_flags();
        if cc == 0 {
            !fl.z
        } else if cc == 1 {
            fl.z
        } else if cc == 2 {
            !fl.c
        } else {
            fl.c
        }
    }

    /// The ALU block 0x80..=0xBF: A op r. With a register operand the
    /// result is exactly that of the operation on A and the register.
    pub fn exec_alu(&mut self, op: u8)
        requires
            old(self).wf(),
            0x80 <= op <= 0xbf,
        ensures
            final(self).registers.pc == old(self).registers.pc,
            final(self).wf(),
            final(self).halt == old(self).halt,
            op % 8 != 6 ==> ({
                let o = old(self).registers;
                let res = alu_spec((op / 8) % 8, o.a, o.r8(reg_of(op % 8)), o.flags_spec());
                final(self).registers == o.with_r8(Reg8::A, res.value).with_flags(res.flags)
            }),
    {
        let v = self.read_r8(op % 8);
        let fl = self.registers.get_flags();
        let res = alu_apply((op / 8) % 8, self.registers.a, v, fl);
        self.registers.set_u8_reg(Reg8::A, res.value);
        self.registers.set_flags(res.flags);
    }

    /// The load block 0x40..=0x7F (0x76 is HALT): r[dst] <- r[src].
    pub fn exec_ld(&mut self, op: u8)
        requires
            old(self).wf(),
            0x40 <= op <= 0x7f,
        ensures
            final(self).registers.pc == old(self).registers.pc,
            final(self).wf(),
            op == 0x76 ==> final(self).halt && final(self).registers == old(self).registers,
            op != 0x76 ==> final(self).halt == old(self).halt,
            op != 0x76 && op % 8 != 6 && (op / 8) % 8 != 6 ==> final(self).registers == old(self).registers.with_r8(
                reg_of((op / 8) % 8),
                old(self).registers.r8(reg_of(op % 8)),
            ),
    {
        if op == 0x76 {
            self.halt = true;
        } else {
            let v = self.read_r8(op % 8);
            self.write_r8((op / 8) % 8, v);
        }
    }

    /// The CB-prefixed instructions: shifts and rotates, BIT, RES, SET on a
    /// register or (HL).
    pub fn exec_cb(&mut self, op: u8)
        requires
            old(self).wf(),
        ensures
            final(self).registers.pc == old(self).registers.pc,
            final(self).wf(),
            final(self).halt == old(self).halt,
            op % 8 != 6 && op < 0x40 ==> ({
                let o = old(self).registers;
                let res = shift_spec(op / 8, o.r8(reg_of(op % 8)), o.flags_spec().c);
                final(self).registers == o.with_r8(reg_of(op % 8), res.value).with_flags(res.flags)
            }),
            op % 8 != 6 && 0x40 <= op < 0x80 ==> final(self).registers == old(self).registers.with_flags(
                bit_spec((op / 8) % 8, old(self).registers.r8(reg_of(op % 8)), old(self).registers.flags_spec()),
            ),
            op % 8 != 6 && 0x80 <= op ==> final(self).registers == old(self).registers.with_r8(
                reg_of(op % 8),
                with_bit(old(self).registers.r8(reg_of(op % 8)), (op / 8) % 8, op >= 0xc0),
            ),
    {
        let idx = op % 8;
        let n = (op / 8) % 8;
        let v = self.read_r8(idx);
        if op < 0x40 {
            let fl = self.registers.get_flags();
            let res = shift_apply(op / 8, v, fl.c);
            self.write_r8(idx, res.value);
            self.registers.set_flags(res.flags);
        } else if op < 0x80 {
            let fl = self.registers.get_flags();
            self.registers.set_flags(bit(n, v, fl));
        } else {
            let w = write_bit(v, n, op >= 0xc0);
            self.write_r8(idx, w);
        }
    }

    /// Opcodes 0x00..=0x3F. `imm` is the immediate already fetched; returns
    /// whether a conditional branch was taken (true for the others).
    #[verifier::rlimit(100)]
    pub fn exec_block0(&mut self, op: u8, imm: u16) -> (taken: bool)
        requires
            old(self).wf(),
            op < 0x40,
        ensures
            !transfers(op) ==> final(self).registers.pc == old(self).registers.pc,
            op == 0x18 ==> final(self).registers == (Registers { pc: offset_spec(old(self).registers.pc, (imm % 256) as u8), ..old(self).registers }),
            final(self).wf(),
            final(self).halt == old(self).halt,
            op == 0x27 ==> ({
                let o = old(self).registers;
                let res = daa_spec(o.a, o.flags_spec());
                final(self).registers == o.with_r8(Reg8::A, res.value).with_flags(res.flags)
            }),
            op == 0x18 ==> final(self).registers.pc == offset_spec(old(self).registers.pc, (imm % 256) as u8),
            op >= 0x20 && op % 8 == 0 ==> final(self).registers.pc == (if cond_spec(
                ((op / 8) % 8 - 4) as u8,
                old(self).registers.flags_spec(),
            ) {
                offset_spec(old(self).registers.pc, (imm % 256) as u8)
            } else {
                old(self).registers.pc
            }) && taken == cond_spec(((op / 8) % 8 - 4) as u8, old(self).registers.flags_spec()),
            op % 16 == 1 ==> final(self).registers == old(self).registers.with_r16(rp_spec(op / 16), imm),
            op % 16 == 9 ==> ({
                let o = old(self).registers;
                let res = add16_spec(o.r16(Reg16::HL), o.r16(rp_spec(op / 16)), o.flags_spec());
                final(self).registers == o.with_r16(Reg16::HL, res.value).with_flags(res.flags)
            }),
            (op % 8 == 4 || op % 8 == 5) && (op / 8) % 8 != 6 ==> ({
                let o = old(self).registers;
                let v = o.r8(reg_of((op / 8) % 8));
                let res = if op % 8 == 4 { inc_spec(v, o.flags_spec()) } else { dec_spec(v, o.flags_spec()) };
                final(self).registers == o.with_r8(reg_of((op / 8) % 8), res.value).with_flags(res.flags)
            }),
            op % 8 == 7 && op < 0x20 ==> ({
                let o = old(self).registers;
                let res = shift_spec(op / 8, o.a, o.flags_spec().c);
                final(self).registers == o.with_r8(Reg8::A, res.value).with_flags(Flags { z: false, ..res.flags })
            }),
            op == 0x2f ==> final(self).registers == old(self).registers.with_r8(Reg8::A, !old(self).registers.a).with_flags(
                Flags { n: true, h: true, ..old(self).registers.flags_spec() },
            ),
            op == 0x37 ==> final(self).registers == old(self).registers.with_flags(
                Flags { n: false, h: false, c: true, ..old(self).registers.flags_spec() },
            ),
            op == 0x3f ==> final(self).registers == old(self).registers.with_flags(
                Flags { n: false, h: false, c: !old(self).registers.flags_spec().c, ..old(self).registers.flags_spec() },
            ),
    {
        let y = (op / 8) % 8;
        let z = op % 8;
        let mut taken = true;
        if z == 0 {
            if op == 0x08 {
                let sp = self.registers.sp;
                self.bus_write(imm, (sp % 256) as u8);
                self.bus_write(inc16(imm), (sp / 256) as u8);
            } else if op == 0x18 {
                self.registers.pc = offset16(self.registers.pc, (imm % 256) as u8);
            } else if op >= 0x20 {
                if self.cond(y - 4) {
                    self.registers.pc = offset16(self.registers.pc, (imm % 256) as u8);
                } else {
                    taken = false;
                }
            }
        } else if z == 1 {
            let rr = Self::rp(y / 2);
            if y % 2 == 0 {
                self.registers.set_u16_reg(rr, imm);
            } else {
                let hl = self.registers.get_u16_reg(Reg16::HL);
                let v = self.registers.get_u16_reg(rr);
                let res = add16(hl, v, self.registers.get_flags());
                self.registers.set_u16_reg(Reg16::HL, res.value);
                self.registers.set_flags(res.flags);
            }
        } else if z == 2 {
            let p = y / 2;
            let addr = if p == 0 {
                self.registers.get_u16_reg(Reg16::BC)
            } else if p == 1 {
                self.registers.get_u16_reg(Reg16::DE)
            } else {
                self.registers.get_u16_reg(Reg16::HL)
            };
            if y % 2 == 0 {
                let a = self.registers.a;
                self.bus_write(addr, a);
            } else {
                let v = self.bus_read(addr);
                self.registers.set_u8_reg(Reg8::A, v);
            }
            if p == 2 {
                self.registers.set_u16_reg(Reg16::HL, inc16(addr));
            } else if p == 3 {
                self.registers.set_u16_reg(Reg16::HL, dec16(addr));
            }
        } else if z == 3 {
            let rr = Self::rp(y / 2);
            let v = self.registers.get_u16_reg(rr);
            let nv = if y % 2 == 0 { inc16(v) } else { dec16(v) };
            self.registers.set_u16_reg(rr, nv);
        } else if z == 4 || z == 5 {
            let v = self.read_r8(y);
            let fl = self.registers.get_flags();
            let res = if z == 4 { inc8(v, fl) } else { dec8(v, fl) };
            self.write_r8(y, res.value);
            self.registers.set_flags(res.flags);
        } else if z == 6 {
            self.write_r8(y, (imm % 256) as u8);
        } else {
            let a = self.registers.a;
            let fl = self.registers.get_flags();
            if y <= 3 {
                let res = shift_apply(y, a, fl.c);
                self.registers.set_u8_reg(Reg8::A, res.value);
                self.registers.set_flags(Flags { z: false, ..res.flags });
            } else if y == 4 {
                let res = daa(a, fl);
                self.registers.set_u8_reg(Reg8::A, res.value);
                self.registers.set_flags(res.flags);
            } else if y == 5 {
                self.registers.set_u8_reg(Reg8::A, !a);
                self.registers.set_flags(Flags { n: true, h: true, ..fl });
            } else if y == 6 {
                self.registers.set_flags(Flags { n: false, h: false, c: true, ..fl });
            } else {
                self.registers.set_flags(Flags { n: false, h: false, c: !fl.c, ..fl });
            }
        }
        taken
    }

    /// Opcodes 0xC0..=0xF8 with low bits 000: RET cc, LDH (a8),A,
    /// ADD SP,r8, LDH A,(a8), LD HL,SP+r8.
    fn exec_c0(&mut self, y: u8, imm: u16) -> (taken: bool)
        requires
            old(self).wf(),
            y < 8,
        ensures
            y >= 4 ==> final(self).registers.pc == old(self).registers.pc,
            final(self).wf(),
            final(self).halt == old(self).halt,
            y == 5 ==> ({
                let o = old(self).registers;
                let res = add_sp_spec(o.sp, (imm % 256) as u8);
                final(self).registers == (Registers { sp: res.value, ..o }).with_flags(res.flags)
            }),
            y == 7 ==> ({
                let o = old(self).registers;
                let res = add_sp_spec(o.sp, (imm % 256) as u8);
                final(self).registers == o.with_r16(Reg16::HL, res.value).with_flags(res.flags)
            }),
    {
        let mut taken = true;
        if y <= 3 {
            if self.cond(y) {
                self.ret();
            } else {
                taken = false;
            }
        } else if y == 4 {
            let a = self.registers.a;
            self.bus_write(0xff00 + imm % 256, a);
        } else if y == 5 {
            let res = add_sp(self.registers.sp, (imm % 256) as u8);
            self.registers.sp = res.value;
            self.registers.set_flags(res.flags);
        } else if y == 6 {
            let v = self.bus_read(0xff00 + imm % 256);
            self.registers.set_u8_reg(Reg8::A, v);
        } else {
            let res = add_sp(self.registers.sp, (imm % 256) as u8);
            self.registers.set_u16_reg(Reg16::HL, res.value);
            self.registers.set_flags(res.flags);
        }
        taken
    }

    /// Opcodes 0xC1..=0xF9 with low bits 001: POP, RET, RETI, JP HL, LD SP,HL.
    fn exec_c1(&mut self, y: u8)
        requires
            old(self).wf(),
            y < 8,
        ensures
            y % 2 == 0 || y == 7 ==> final(self).registers.pc == old(self).registers.pc,
            final(self).wf(),
            final(self).halt == old(self).halt,
            y == 5 ==> final(self).registers == (Registers { pc: old(self).registers.r16(Reg16::HL), ..old(self).registers }),
    {
        if y % 2 == 0 {
            let v = self.pop_stack();
            self.registers.set_u16_reg(Self::rp2(y / 2), v);
        } else if y == 1 {
            self.ret();
        } else if y == 3 {
            self.ret();
            self.memory.motherboard.i_master = true;
        } else if y == 5 {
            self.registers.pc = self.registers.get_u16_reg(Reg16::HL);
        } else {
            self.registers.sp = self.registers.get_u16_reg(Reg16::HL);
        }
    }

    /// Opcodes 0xC2..=0xFA with low bits 010: JP cc, LD (C),A, LD (a16),A,
    /// LD A,(C), LD A,(a16).
    fn exec_c2(&mut self, y: u8, imm: u16) -> (taken: bool)
        requires
            old(self).wf(),
            y < 8,
        ensures
            y >= 4 ==> final(self).registers.pc == old(self).registers.pc,
            final(self).wf(),
            final(self).halt == old(self).halt,
            y <= 3 ==> taken == cond_spec(y, old(self).registers.flags_spec()) && final(self).registers == (
            Registers { pc: if taken { imm } else { old(self).registers.pc }, ..old(self).registers }),
    {
        let mut taken = true;
        if y <= 3 {
            if self.cond(y) {
                self.registers.pc = imm;
            } else {
                taken = false;
            }
        } else if y == 4 {
            let a = self.registers.a;
            self.bus_write(0xff00 + self.registers.c as u16, a);
        } else if y == 5 {
            let a = self.registers.a;
            self.bus_write(imm, a);
        } else if y == 6 {
            let v = self.bus_read(0xff00 + self.registers.c as u16);
            self.registers.set_u8_reg(Reg8::A, v);
        } else {
            let v = self.bus_read(imm);
            self.registers.set_u8_reg(Reg8::A, v);
        }
        taken
    }

    /// Opcodes 0xC0..=0xFF (0xCB excepted). Returns whether a conditional
    /// branch was taken (true for the others).
    #[verifier::rlimit(100)]
    pub fn exec_block3(&mut self, op: u8, imm: u16) -> (taken: bool)
        requires
            old(self).wf(),
            op >= 0xc0,
            op != 0xcb,
        ensures
            !transfers(op) ==> final(self).registers.pc == old(self).registers.pc,
            final(self).wf(),
            final(self).halt == old(self).halt,
            op == 0xe8 ==> ({
                let o = old(self).registers;
                let res = add_sp_spec(o.sp, (imm % 256) as u8);
                final(self).registers == (Registers { sp: res.value, ..o }).with_flags(res.flags)
            }),
            op == 0xf8 ==> ({
                let o = old(self).registers;
                let res = add_sp_spec(o.sp, (imm % 256) as u8);
                final(self).registers == o.with_r16(Reg16::HL, res.value).with_flags(res.flags)
            }),
            op % 8 == 6 ==> ({
                let o = old(self).registers;
                let res = alu_spec((op / 8) % 8, o.a, (imm % 256) as u8, o.flags_spec());
                final(self).registers == o.with_r8(Reg8::A, res.value).with_flags(res.flags)
            }),
            op % 8 == 7 ==> final(self).registers.pc == ((op / 8) % 8) * 8 && final(self).registers.sp == (old(self).registers.sp + 65534) % 65536,
            op == 0xc3 ==> final(self).registers == (Registers { pc: imm, ..old(self).registers }),
            op == 0xe9 ==> final(self).registers == (Registers { pc: old(self).registers.r16(Reg16::HL), ..old(self).registers }),
            op == 0xf3 ==> !final(self).memory.motherboard.i_master,
            op % 8 == 2 && op < 0xe0 ==> taken == cond_spec((op / 8) % 8, old(self).registers.flags_spec())
                && final(self).registers.pc == if taken { imm } else { old(self).registers.pc },
            op % 8 == 4 && op < 0xe0 ==> taken == cond_spec((op / 8) % 8, old(self).registers.flags_spec())
                && final(self).registers.pc == if taken { imm } else { old(self).registers.pc },
            op == 0xcd ==> final(self).registers.pc == imm && final(self).registers.sp == (old(self).registers.sp
                + 65534) % 65536,
            op == 0xfb ==> final(self).memory.motherboard.i_master,
    {
        let y = (op / 8) % 8;
        let z = op % 8;
        let mut taken = true;
        if z == 0 {
            taken = self.exec_c0(y, imm);
        } else if z == 1 {
            self.exec_c1(y);
        } else if z == 2 {
            taken = self.exec_c2(y, imm);
        } else if z == 3 {
            if y == 0 {
                self.registers.pc = imm;
            } else if y == 6 {
                self.memory.motherboard.i_master = false;
            } else if y == 7 {
                // EI takes effect at once, not after the next instruction.
                self.memory.motherboard.i_master = true;
            }
        } else if z == 4 {
            if y <= 3 {
                if self.cond(y) {
                    self.call(imm);
                } else {
                    taken = false;
                }
            }
        } else if z == 5 {
            if y % 2 == 0 {
                let v = self.registers.get_u16_reg(Self::rp2(y / 2));
                self.push_stack(v);
            } else if y == 1 {
                self.call(imm);
            }
        } else if z == 6 {
            let fl = self.registers.get_flags();
            let res = alu_apply(y, self.registers.a, (imm % 256) as u8, fl);
            self.registers.set_u8_reg(Reg8::A, res.value);
            self.registers.set_flags(res.flags);
        } else {
            self.call(y as u16 * 8);
        }
        taken
    }

    /// Fetches, decodes and executes the instruction at PC (with its 0xCB
    /// second byte); returns its dots.
    #[verifier::rlimit(60)]
    pub fn execute_next_op(&mut self) -> (r: u8)
        requires
            old(self).wf(),
        ensures
            final(self).wf(),
            r % 4 == 0 && 4 <= r <= 24,
            CPU::executed(*old(self), *final(self), r),
    {
        let op = self.fetch8();
        if op == 0xcb {
            let cb = self.fetch8();
            self.exec_cb(cb);
            return cb_cycles(cb);
        }
        proof {
            assert(self.registers.pc == pc_plus(old(self).registers.pc, 1));
        }
        self.run_plain(op)
    }

    /// Runs unprefixed opcode `op`, already fetched: its immediate, then its
    /// effect. Returns its dots.
    fn run_plain(&mut self, op: u8) -> (r: u8)
        requires
            old(self).wf(),
            op != 0xcb,
        ensures
            final(self).wf(),
            r % 4 == 0 && 4 <= r <= 24,
            r == op_cycles(op).0 || r == op_cycles(op).1,
            !is_conditional(op) ==> r == op_cycles(op).0,
            !transfers(op) ==> final(self).registers.pc == pc_plus(old(self).registers.pc, op_len(op) - 1),
            0x80 <= op <= 0xbf && op % 8 != 6 ==> ({
                let o = old(self).registers;
                let res = alu_spec((op / 8) % 8, o.a, o.r8(reg_of(op % 8)), o.flags_spec());
                final(self).registers == o.with_r8(Reg8::A, res.value).with_flags(res.flags)
            }),
    {
        let info = opcode_info(op);
        let imm: u16 = if info.bytes == 2 {
            self.fetch8() as u16
        } else if info.bytes == 3 {
            self.fetch16()
        } else {
            0
        };
        let taken = if op < 0x40 {
            self.exec_block0(op, imm)
        } else if op < 0x80 {
            self.exec_ld(op);
            true
        } else if op < 0xc0 {
            self.exec_alu(op);
            true
        } else {
            self.exec_block3(op, imm)
        };
        if taken {
            info.cycles
        } else {
            info.cycles_untaken
        }
    }

    /// `after` is `before` after the instruction at PC ran in `r` dots, when
    /// the instruction's bytes lie outside the I/O registers: an 0xCB
    /// instruction takes its table dots and advances PC by 2; any other takes
    /// its taken or not-taken dots (the same for unconditional ones), and one
    /// that does not load PC advances PC by its length; the register forms of
    /// the ALU block set A and the flags as the operation gives.
    pub open spec fn executed(before: CPU, after: CPU, r: u8) -> bool {
        let pc = before.registers.pc;
        let op = before.memory.peek(pc);
        let ok = !crate::memory::is_io(pc) && !crate::memory::is_io(pc_plus(pc, 1)) && !crate::memory::is_io(
            pc_plus(pc, 2),
        );
        &&& ok && op == 0xcb ==> r == cb_cycles_spec(before.memory.peek(pc_plus(pc, 1))) && after.registers.pc
            == pc_plus(pc, 2)
        &&& ok && op != 0xcb ==> (r == op_cycles(op).0 || r == op_cycles(op).1) && (!is_conditional(op) ==> r
            == op_cycles(op).0)
        &&& ok && op != 0xcb && !transfers(op) ==> after.registers.pc == pc_plus(pc, op_len(op) as int)
        &&& ok && 0x80 <= op <= 0xbf && op % 8 != 6 ==> ({
            let o = before.registers;
            let res = alu_spec((op / 8) % 8, o.a, o.r8(reg_of(op % 8)), o.flags_spec());
            after.registers == (Registers { pc: pc_plus(pc, 1), ..o }).with_r8(Reg8::A, res.value).with_flags(
                res.flags,
            )
        })
    }

    /// `after` is `before` after one `step` of `r` dots.
    pub open spec fn stepped(before: CPU, after: CPU, r: u8) -> bool {
        &&& after.wf()
        &&& r % 4 == 0 && 4 <= r <= 24
        &&& !before.halt ==> CPU::executed(before, after, r)
        &&& before.halt ==> after.halt && after.registers == before.registers && r == 4
            && after.memory.motherboard.i_master == before.memory.motherboard.i_master
            && after.memory.motherboard.i_flag & before.memory.motherboard.i_flag == before.memory.motherboard.i_flag
            && (before.pending_spec() != 0 ==> after.pending_spec() != 0)
    }

    /// `after` is `before` after one `update` of `r` dots: a step, then
    /// interrupt dispatch.
    pub open spec fn updated(before: CPU, after: CPU, r: int) -> bool {
        exists|mid: CPU, c: u8, d: u8|
            #[trigger] CPU::stepped(before, mid, c) && #[trigger] CPU::serviced(mid, after, d) && r == c + d
    }

    /// `after` is `before` after `service_interrupts` returned `r`.
    pub open spec fn serviced(before: CPU, after: CPU, r: u8) -> bool {
        &&& after.wf()
        &&& before.pending_spec() == 0 ==> r == 0 && after.registers == before.registers && after.halt == before.halt
            && after.memory == before.memory
        &&& before.pending_spec() != 0 ==> !after.halt
        &&& before.pending_spec() != 0 && !before.memory.motherboard.i_master ==> r == 0 && after.registers
            == before.registers && after.memory == before.memory
        &&& before.pending_spec() != 0 && before.memory.motherboard.i_master ==> r == 20 && after.registers.pc
            == vector_of(lowest_bit(before.pending_spec())) && !after.memory.motherboard.i_master
            && after.registers.sp == (before.registers.sp + 65534) % 65536
    }

    /// Reports to the board the dots of the last `total`-dot step that no
    /// register access has reported yet.
    fn finish_step(&mut self, total: u8)
        requires
            old(self).wf(),
        ensures
            final(self).wf(),
            final(self).memory.motherboard.i_master == old(self).memory.motherboard.i_master,
            final(self).registers == old(self).registers,
            final(self).halt == old(self).halt,
            final(self).memory.motherboard.cycles == 0 && final(self).memory.motherboard.sync_cycles == 0,
            final(self).memory.motherboard.i_enable == old(self).memory.motherboard.i_enable,
            final(self).memory.motherboard.i_flag & old(self).memory.motherboard.i_flag == old(self).memory.motherboard.i_flag,
            old(self).pending_spec() != 0 ==> final(self).pending_spec() != 0,
    {
        let ghost f0 = self.memory.motherboard.i_flag;
        let ghost e0 = self.memory.motherboard.i_enable;
        let done = self.memory.motherboard.sync_cycles;
        self.memory.motherboard.cycles = if total > done { total - done } else { 0 };
        self.memory.motherboard.sync();
        self.memory.motherboard.sync_cycles = 0;
        proof {
            let f1 = self.memory.motherboard.i_flag;
            let q = choose|q: u8| f1 == f0 | q;
            assert((f0 | q) & f0 == f0 && ((e0 & f0 & 0x1f) != 0 ==> (e0 & (f0 | q) & 0x1f) != 0)) by (bit_vector);
        }
    }

    /// Executes one instruction (or idles 4 dots while halted) and reports
    /// its dots to the timer, PPU and APU. Returns the dots, a multiple of 4.
    pub fn step(&mut self) -> (r: u8)
        requires
            old(self).wf(),
        ensures
            final(self).wf(),
            final(self).registers.f % 16 == 0,
            r % 4 == 0 && 4 <= r <= 24,
            old(self).halt ==> final(self).halt && final(self).registers == old(self).registers && r == 4,
            CPU::stepped(*old(self), *final(self), r),
    {
        self.memory.motherboard.cycles = 0;
        self.memory.motherboard.sync_cycles = 0;
        let ghost s1 = *self;
        proof {
            assert forall|a: u16| #[trigger] s1.memory.peek(a) == old(self).memory.peek(a) by {}
        }
        let total = if self.halt { 4 } else { self.execute_next_op() };
        let ghost s2 = *self;
        self.finish_step(total);
        proof {
            if !old(self).halt {
                lemma_executed_frame(s1, *old(self), s2, *self, total);
            }
        }
        total
    }

    /// Dispatches at most one interrupt. With one pending (IE & IF & 0x1F
    /// non-zero) a halted CPU wakes; if IME is set the lowest pending bit is
    /// cleared in IF, IME is cleared, PC is pushed and the vector loaded, in
    /// 20 dots. With IME clear it only wakes.
    pub fn service_interrupts(&mut self) -> (r: u8)
        requires
            old(self).wf(),
        ensures
            CPU::serviced(*old(self), *final(self), r),
            final(self).wf(),
            old(self).pending_spec() == 0 ==> r == 0 && final(self).registers == old(self).registers
                && final(self).halt == old(self).halt && final(self).memory == old(self).memory,
            old(self).pending_spec() != 0 ==> !final(self).halt,
            old(self).pending_spec() != 0 && !old(self).memory.motherboard.i_master ==> r == 0 && final(self).registers
                == old(self).registers && final(self).memory == old(self).memory,
            old(self).pending_spec() != 0 && old(self).memory.motherboard.i_master && stack_plain(old(self).registers.sp)
                ==> final(self).memory.motherboard.i_enable == old(self).memory.motherboard.i_enable && ({
                let cleared = with_bit(old(self).memory.motherboard.i_flag, lowest_bit(old(self).pending_spec()), false);
                final(self).memory.motherboard.i_flag & cleared == cleared
            }),
            old(self).pending_spec() != 0 && old(self).memory.motherboard.i_master ==> r == 20 && final(self).registers.pc == vector_of(lowest_bit(old(self).pending_spec())) && !final(self).memory.motherboard.i_master && final(self).registers.sp == (old(self).registers.sp + 65534)
                % 65536,
    {
        let p = self.memory.motherboard.i_enable & self.memory.motherboard.i_flag & 0x1f;
        if p == 0 {
            return 0;
        }
        self.halt = false;
        if !self.memory.motherboard.i_master {
            return 0;
        }
        let b: u8 = if test_bit(p, 0) {
            0
        } else if test_bit(p, 1) {
            1
        } else if test_bit(p, 2) {
            2
        } else if test_bit(p, 3) {
            3
        } else {
            4
        };
        let f = self.memory.motherboard.i_flag;
        self.memory.motherboard.i_flag = write_bit(f, b, false);
        self.memory.motherboard.i_master = false;
        self.memory.motherboard.cycles = 0;
        self.memory.motherboard.sync_cycles = 0;
        let pc = self.registers.pc;
        self.push_stack(pc);
        self.registers.pc = 0x40 + 8 * b as u16;
        self.finish_step(20);
        20
    }

    /// One step followed by interrupt dispatch; returns the dots used.
    pub fn update(&mut self) -> (r: u16)
        requires
            old(self).wf(),
        ensures
            final(self).wf(),
            4 <= r <= 44,
            r % 4 == 0,
            CPU::updated(*old(self), *final(self), r as int),
            old(self).halt && old(self).pending_spec() != 0 && !old(self).memory.motherboard.i_master ==> !final(self).halt && final(self).registers == old(self).registers && !final(self).memory.motherboard.i_master
                && final(self).memory.motherboard.i_flag & old(self).memory.motherboard.i_flag == old(self).memory.motherboard.i_flag,
    {
        let c = self.step();
        let ghost mid = *self;
        let d = self.service_interrupts();
        proof {
            assert(CPU::stepped(*old(self), mid, c) && CPU::serviced(mid, *self, d));
            assert(CPU::updated(*old(self), *self, c + d));
        }
        c as u16 + d as u16
    }

    /// Runs until the PPU finishes a frame (VBlank begins), or for at most
    /// two frames' worth of dots when the LCD never gets there.
    pub fn run_one_frame(&mut self) -> (r: u32)
        requires
            old(self).wf(),
        ensures
            final(self).wf(),
            r <= 2 * 70224 + 44,
            !final(self).memory.motherboard.screen.frame_done ==> r >= 2 * 70224,
    {
        self.memory.motherboard.screen.frame_done = false;
        let mut elapsed: u32 = 0;
        while !self.memory.motherboard.screen.frame_done && elapsed < 2 * 70224
            invariant
                self.wf(),
                elapsed <= 2 * 70224 + 44,
            decreases 2 * 70224 + 44 - elapsed,
        {
            let c = self.update();
            elapsed = elapsed + c as u32;
        }
        elapsed
    }

    /// A key (0 Right, 1 Left, 2 Up, 3 Down, 4 A, 5 B, 6 Select, 7 Start)
    /// released (`up`) or pressed; a press seen by the selected line requests
    /// the joypad interrupt (IF bit 4).
    pub fn handle_input(&mut self, key: u8, up: bool)
        requires
            old(self).wf(),
            key < 8,
        ensures
            final(self).wf(),
            final(self).registers == old(self).registers,
            final(self).halt == old(self).halt,
            final(self).memory.motherboard.joypad.keys_spec() == with_bit(
                old(self).memory.motherboard.joypad.keys_spec(),
                key,
                up,
            ),
            final(self).memory.motherboard.joypad.value_spec() == old(self).memory.motherboard.joypad.value_spec(),
            final(self).memory.motherboard.i_flag == if press_edge(old(self).memory.motherboard.joypad, key, up) {
                with_bit(old(self).memory.motherboard.i_flag, 4, true)
            } else {
                old(self).memory.motherboard.i_flag
            },
    {
        if self.memory.motherboard.joypad.handle_input(key, up) {
            self.memory.motherboard.set_interrupt(4);
        }
    }

    /// Reads a byte through the bus as the CPU would, outside an instruction.
    pub fn read_memory(&mut self, address: u16) -> (r: u8)
        requires
            old(self).wf(),
        ensures
            final(self).wf(),
            final(self).registers == old(self).registers,
            !crate::memory::is_io(address) ==> r == old(self).memory.peek(address),
    {
        self.memory.get(address)
    }

    /// Writes a byte through the bus as the CPU would, outside an instruction.
    pub fn write_memory(&mut self, address: u16, value: u8)
        requires
            old(self).wf(),
        ensures
            final(self).wf(),
            final(self).registers == old(self).registers,
            old(self).memory.holds_writes(address) ==> final(self).memory.peek(address) == value,
    {
        self.memory.set(address, value);
    }
}

} // verus!
