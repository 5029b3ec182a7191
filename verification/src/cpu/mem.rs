use vstd::prelude::*;

verus! {

/// Base of the hardware stack: page 1 of the address space.
pub const STACK: u16 = 0x0100;

/// Stack pointer value after a reset.
pub const STACK_RESET: u8 = 0xFD;

/// Number of addressable bytes on the 16-bit bus.
pub const ADDRESS_SPACE: usize = 0x10000;

pub open spec fn wrap8(x: int) -> u8 {
    (x % 0x100) as u8
}

pub open spec fn wrap16(x: int) -> u16 {
    (x % 0x10000) as u16
}

pub open spec fn wrap64(x: int) -> u64 {
    (x % 0x10000000000000000) as u64
}

/// Compose a 16-bit word from its little-endian bytes.
pub open spec fn make16(lo: u8, hi: u8) -> u16 {
    (lo + 0x100 * hi) as u16
}

pub open spec fn lo8(x: u16) -> u8 {
    (x % 0x100) as u8
}

pub open spec fn hi8(x: u16) -> u8 {
    (x / 0x100) as u8
}

/// Address of the stack cell selected by a stack pointer value.
pub open spec fn stack_addr(sp: u8) -> u16 {
    (0x100 + sp) as u16
}

/// Effect of one byte store on a 64 KiB view: when the target is writable,
/// every address that aliases the target (address mirroring) takes the new
/// byte; otherwise the store is dropped.
pub open spec fn spec_mem_write(
    mem: Seq<u8>,
    wr: spec_fn(u16) -> bool,
    al: spec_fn(u16) -> u16,
    addr: u16,
    data: u8,
) -> Seq<u8> {
    if wr(addr) {
        Seq::new(
            mem.len(),
            |i: int|
                if al(i as u16) == al(addr) {
                    data
                } else {
                    mem[i]
                },
        )
    } else {
        mem
    }
}

/// Little-endian 16-bit read: low byte at the address, high byte at the
/// successor address (wrapping at the top of the address space).
pub open spec fn spec_read16(mem: Seq<u8>, addr: u16) -> u16 {
    make16(mem[addr as int], mem[wrap16(addr + 1) as int])
}

/// The writability predicate of a memory device, as one function value.
pub open spec fn wr_of<M: Memory>(m: M) -> spec_fn(u16) -> bool {
    |a: u16| m.writable(a)
}

/// The aliasing map of a memory device, as one function value.
pub open spec fn al_of<M: Memory>(m: M) -> spec_fn(u16) -> u16 {
    |a: u16| m.alias(a)
}

/// Two memory values with the same writability and aliasing, pointwise,
/// yield the same predicate values; writes never change either, so these
/// stay fixed across a device's lifetime.
pub proof fn lemma_wr_al_stable<M: Memory>(m1: M, m2: M)
    requires
        forall|a: u16| #[trigger] m1.writable(a) == m2.writable(a),
        forall|a: u16| #[trigger] m1.alias(a) == m2.alias(a),
    ensures
        wr_of(m1) == wr_of(m2),
        al_of(m1) == al_of(m2),
{
    assert(wr_of(m1) =~= wr_of(m2));
    assert(al_of(m1) =~= al_of(m2));
}

/// A byte-addressed device on the CPU bus, modelled by a 64 KiB view.
///
/// `writable` tells which addresses a store can change at all, and `alias`
/// maps every address to the cell it shares with its mirrors; both are fixed
/// for the lifetime of the device.
pub trait Memory: Sized {
    spec fn mem_view(&self) -> Seq<u8>;

    spec fn writable(&self, addr: u16) -> bool;

    spec fn alias(&self, addr: u16) -> u16;

    fn mem_read(&self, addr: u16) -> (r: u8)
        ensures
            r == self.mem_view()[addr as int],
            self.mem_view().len() == 0x10000,
    ;

    fn mem_write(&mut self, addr: u16, data: u8)
        ensures
            final(self).mem_view() == spec_mem_write(
                old(self).mem_view(),
                (|a: u16| old(self).writable(a)),
                (|a: u16| old(self).alias(a)),
                addr,
                data,
            ),
            final(self).mem_view().len() == 0x10000,
            forall|a: u16| final(self).writable(a) == old(self).writable(a),
            forall|a: u16| final(self).alias(a) == old(self).alias(a),
    ;

    fn mem_read_u16(&self, addr: u16) -> (r: u16)
        ensures
            r == spec_read16(self.mem_view(), addr),
            self.mem_view().len() == 0x10000,
    {
        let lo = self.mem_read(addr);
        let hi = self.mem_read(addr.wrapping_add(1));
        lo as u16 + 0x100 * hi as u16
    }

    fn mem_write_u16(&mut self, addr: u16, data: u16)
        ensures
            final(self).mem_view() == spec_mem_write(
                spec_mem_write(
                    old(self).mem_view(),
                    (|a: u16| old(self).writable(a)),
                    (|a: u16| old(self).alias(a)),
                    addr,
                    lo8(data),
                ),
                (|a: u16| old(self).writable(a)),
                (|a: u16| old(self).alias(a)),
                wrap16(addr + 1),
                hi8(data),
            ),
            final(self).mem_view().len() == 0x10000,
            forall|a: u16| final(self).writable(a) == old(self).writable(a),
            forall|a: u16| final(self).alias(a) == old(self).alias(a),
    {
        let lo = (data % 0x100) as u8;
        let hi = (data / 0x100) as u8;
        self.mem_write(addr, lo);
        let ghost mid = *self;
        self.mem_write(addr.wrapping_add(1), hi);
        proof {
            lemma_spec_mem_write_congruence(
                mid.mem_view(),
                (|a: u16| mid.writable(a)),
                (|a: u16| mid.alias(a)),
                (|a: u16| old(self).writable(a)),
                (|a: u16| old(self).alias(a)),
                wrap16(addr + 1),
                hi,
            );
        }
    }
}

/// Two stores with pointwise-equal writability and aliasing have the same
/// effect on the view.
pub proof fn lemma_spec_mem_write_congruence(
    mem: Seq<u8>,
    wr1: spec_fn(u16) -> bool,
    al1: spec_fn(u16) -> u16,
    wr2: spec_fn(u16) -> bool,
    al2: spec_fn(u16) -> u16,
    addr: u16,
    data: u8,
)
    requires
        forall|a: u16| #[trigger] wr1(a) == wr2(a),
        forall|a: u16| #[trigger] al1(a) == al2(a),
    ensures
        spec_mem_write(mem, wr1, al1, addr, data) == spec_mem_write(mem, wr2, al2, addr, data),
{
    if wr1(addr) {
        assert(spec_mem_write(mem, wr1, al1, addr, data) =~= spec_mem_write(
            mem,
            wr2,
            al2,
            addr,
            data,
        ));
    }
}

/// The hardware stack of a device that has page 1 and a stack pointer: a
/// push stores at the selected stack cell and steps the pointer down, a pull
/// steps the pointer up and reads the cell it now selects, both with 8-bit
/// wraparound of the pointer.
pub trait Stack: Memory {
    spec fn sp(&self) -> u8;

    fn stack_push(&mut self, data: u8)
        ensures
            final(self).sp() == wrap8(old(self).sp() - 1),
            final(self).mem_view() == spec_mem_write(
                old(self).mem_view(),
                (|a: u16| old(self).writable(a)),
                (|a: u16| old(self).alias(a)),
                stack_addr(old(self).sp()),
                data,
            ),
            forall|a: u16| final(self).writable(a) == old(self).writable(a),
            forall|a: u16| final(self).alias(a) == old(self).alias(a),
    ;

    fn stack_pop(&mut self) -> (r: u8)
        ensures
            final(self).sp() == wrap8(old(self).sp() + 1),
            final(self).mem_view() == old(self).mem_view(),
            r == old(self).mem_view()[stack_addr(wrap8(old(self).sp() + 1)) as int],
            forall|a: u16| final(self).writable(a) == old(self).writable(a),
            forall|a: u16| final(self).alias(a) == old(self).alias(a),
    ;

    fn stack_push_u16(&mut self, data: u16)
        ensures
            final(self).sp() == wrap8(old(self).sp() - 2),
            final(self).mem_view() == spec_mem_write(
                spec_mem_write(
                    old(self).mem_view(),
                    (|a: u16| old(self).writable(a)),
                    (|a: u16| old(self).alias(a)),
                    stack_addr(old(self).sp()),
                    hi8(data),
                ),
                (|a: u16| old(self).writable(a)),
                (|a: u16| old(self).alias(a)),
                stack_addr(wrap8(old(self).sp() - 1)),
                lo8(data),
            ),
            forall|a: u16| final(self).writable(a) == old(self).writable(a),
            forall|a: u16| final(self).alias(a) == old(self).alias(a),
    {
        let hi: u8 = (data / 0x100) as u8;
        let lo: u8 = (data % 0x100) as u8;
        self.stack_push(hi);
        let ghost mid = *self;
        self.stack_push(lo);
        proof {
            lemma_spec_mem_write_congruence(
                mid.mem_view(),
                (|a: u16| mid.writable(a)),
                (|a: u16| mid.alias(a)),
                (|a: u16| old(self).writable(a)),
                (|a: u16| old(self).alias(a)),
                stack_addr(wrap8(old(self).sp() - 1)),
                lo,
            );
        }
    }

    fn stack_pop_u16(&mut self) -> (r: u16)
        ensures
            final(self).sp() == wrap8(old(self).sp() + 2),
            final(self).mem_view() == old(self).mem_view(),
            r == make16(
                old(self).mem_view()[stack_addr(wrap8(old(self).sp() + 1)) as int],
                old(self).mem_view()[stack_addr(wrap8(old(self).sp() + 2)) as int],
            ),
            forall|a: u16| final(self).writable(a) == old(self).writable(a),
            forall|a: u16| final(self).alias(a) == old(self).alias(a),
    {
        let lo = self.stack_pop();
        let hi = self.stack_pop();
        lo as u16 + 0x100 * hi as u16
    }
}

/// The little-endian round trip: storing a 16-bit word at `addr` and reading
/// it back gives the word, whenever both target addresses are writable and do
/// not mirror each other. The two store and read terms are exactly those of
/// `Memory::mem_write_u16` and `Memory::mem_read_u16`.
pub proof fn lemma_mem_u16_round_trip(
    mem: Seq<u8>,
    wr: spec_fn(u16) -> bool,
    al: spec_fn(u16) -> u16,
    addr: u16,
    data: u16,
)
    requires
        mem.len() == 0x10000,
        wr(addr),
        wr(wrap16(addr + 1)),
        al(addr) != al(wrap16(addr + 1)),
    ensures
        spec_read16(
            spec_mem_write(
                spec_mem_write(mem, wr, al, addr, lo8(data)),
                wr,
                al,
                wrap16(addr + 1),
                hi8(data),
            ),
            addr,
        ) == data,
{
    let m2 = spec_mem_write(
        spec_mem_write(mem, wr, al, addr, lo8(data)),
        wr,
        al,
        wrap16(addr + 1),
        hi8(data),
    );
    assert(m2[addr as int] == lo8(data));
    assert(m2[wrap16(addr + 1) as int] == hi8(data));
    assert(make16(lo8(data), hi8(data)) == data);
}

/// A flat, fully writable 64 KiB memory with no mirroring: the memory of a
/// bare CPU used to run small programs entirely from RAM.
pub struct FlatMem {
    bytes: Vec<u8>,
}

#[verifier::type_invariant]
pub closed spec fn flat_mem_wf(m: &FlatMem) -> bool {
    m.bytes@.len() == 0x10000
}

pub open spec fn all_zeros() -> Seq<u8> {
    Seq::new(0x10000, |i: int| 0u8)
}

impl Memory for FlatMem {
    closed spec fn mem_view(&self) -> Seq<u8> {
        self.bytes@
    }

    open spec fn writable(&self, addr: u16) -> bool {
        true
    }

    open spec fn alias(&self, addr: u16) -> u16 {
        addr
    }

    fn mem_read(&self, addr: u16) -> (r: u8) {
        proof {
            use_type_invariant(self);
        }
        self.bytes[addr as usize]
    }

    fn mem_write(&mut self, addr: u16, data: u8) {
        proof {
            use_type_invariant(&*self);
        }
        self.bytes[addr as usize] = data;
        proof {
            assert(self.bytes@ =~= spec_mem_write(
                old(self).mem_view(),
                (|a: u16| old(self).writable(a)),
                (|a: u16| old(self).alias(a)),
                addr,
                data,
            ));
        }
    }
}

/// Flat memory always spans the whole address space.
pub proof fn lemma_flat_mem_len(m: &FlatMem)
    requires
        flat_mem_wf(m),
    ensures
        m.mem_view().len() == 0x10000,
{
}

impl FlatMem {
    /// Fresh memory, all bytes zero.
    pub fn new() -> (r: FlatMem)
        ensures
            r.mem_view() == all_zeros(),
    {
        let mut bytes: Vec<u8> = Vec::new();
        let mut i: usize = 0;
        while i < ADDRESS_SPACE
            invariant
                bytes@.len() == i,
                i <= 0x10000,
                forall|j: int| 0 <= j < i ==> bytes@[j] == 0u8,
            decreases 0x10000 - i,
        {
            bytes.push(0u8);
            i += 1;
        }
        proof {
            assert(bytes@ =~= all_zeros());
        }
        FlatMem { bytes }
    }
}

} // verus!
