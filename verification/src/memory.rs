//! Byte-addressable memory bus with switchable endianness.
//!
//! Every access first checks the fixed peripheral window; addresses inside
//! it are forwarded to the virtual UART and never touch raw memory. Word
//! (and halfword) accesses are derived from byte accesses, so peripheral
//! semantics are the same whether a register is touched by byte or by word.
//! An address outside both the window and the allocated extent is a
//! memory-bounds fault.

use crate::vuart::{spec_uart_read_rx, spec_uart_write_tx, Uart, UartModel};
use vstd::prelude::*;

verus! {

/// Unrecoverable faults of the simulated machine.
#[derive(Clone, Copy, Debug, PartialEq, Eq, Structural)]
pub enum Fault {
    /// An unrecognized instruction word; carries the offending word.
    DecodeFault(u32),
    /// An access outside allocated memory and outside the peripheral
    /// window; carries the offending byte address.
    MemoryBoundsFault(u64),
}

/// First byte address of the reserved peripheral window.
pub const PERIPHERAL_BASE: u64 = 0x7000000;

/// First byte address past the reserved peripheral window. The window
/// reserves more room than the registers occupy; in-window addresses past
/// the last register read as zero and ignore writes.
pub const PERIPHERAL_END: u64 = 0x7000100;

/// Receive-FIFO register (read-only: pops the receive queue).
pub const UART_FIFO_RX_ADDR: u64 = 0x7000000;

/// Transmit-FIFO register (write-only: pushes the transmit queue).
pub const UART_FIFO_TX_ADDR: u64 = 0x7000001;

/// Status register (read-only: bit 0 = receive data available).
pub const UART_FLAGS_ADDR: u64 = 0x7000002;

/// Whether a byte address falls in the reserved peripheral window.
pub open spec fn in_peripheral_window(addr: u64) -> bool {
    PERIPHERAL_BASE <= addr < PERIPHERAL_END
}

/// The four bytes of a 32-bit value in the given byte order
/// (least-significant byte first when `little` is true).
pub open spec fn spec_pack(x: u32, little: bool) -> Seq<u8> {
    if little {
        seq![
            (x & 0xFF) as u8,
            ((x >> 8) & 0xFF) as u8,
            ((x >> 16) & 0xFF) as u8,
            ((x >> 24) & 0xFF) as u8,
        ]
    } else {
        seq![
            ((x >> 24) & 0xFF) as u8,
            ((x >> 16) & 0xFF) as u8,
            ((x >> 8) & 0xFF) as u8,
            (x & 0xFF) as u8,
        ]
    }
}

/// A 32-bit value assembled from four bytes given least-significant first.
pub open spec fn word_from_le_bytes(b0: u8, b1: u8, b2: u8, b3: u8) -> u32 {
    (b0 as u32) | ((b1 as u32) << 8) | ((b2 as u32) << 16) | ((b3 as u32) << 24)
}

/// A 32-bit value unmarshalled from four bytes in the given byte order.
pub open spec fn spec_unpack(b: Seq<u8>, little: bool) -> u32
    recommends
        b.len() == 4,
{
    if little {
        word_from_le_bytes(b[0], b[1], b[2], b[3])
    } else {
        word_from_le_bytes(b[3], b[2], b[1], b[0])
    }
}

/// Endianness round-trip law: unmarshalling the four bytes a value was
/// marshalled into gives the value back, in either byte order.
pub proof fn lemma_endianness_round_trip(x: u32, little: bool)
    ensures
        spec_unpack(spec_pack(x, little), little) == x,
{
    let b0 = (x & 0xFF) as u8;
    let b1 = ((x >> 8) & 0xFF) as u8;
    let b2 = ((x >> 16) & 0xFF) as u8;
    let b3 = ((x >> 24) & 0xFF) as u8;
    assert((b0 as u32) | ((b1 as u32) << 8) | ((b2 as u32) << 16) | ((b3 as u32) << 24) == x)
        by (bit_vector)
        requires
            b0 == (x & 0xFF) as u8,
            b1 == ((x >> 8) & 0xFF) as u8,
            b2 == ((x >> 16) & 0xFF) as u8,
            b3 == ((x >> 24) & 0xFF) as u8,
    ;
}

/// The two bytes of a 16-bit value in the given byte order.
pub open spec fn spec_pack16(x: u16, little: bool) -> Seq<u8> {
    if little {
        seq![(x & 0xFF) as u8, ((x >> 8) & 0xFF) as u8]
    } else {
        seq![((x >> 8) & 0xFF) as u8, (x & 0xFF) as u8]
    }
}

/// A 16-bit value assembled from two bytes given least-significant first.
pub open spec fn half_from_le_bytes(b0: u8, b1: u8) -> u16 {
    (b0 as u16) | ((b1 as u16) << 8)
}

/// A 16-bit value unmarshalled from two bytes in the given byte order.
pub open spec fn spec_unpack16(b: Seq<u8>, little: bool) -> u16
    recommends
        b.len() == 2,
{
    if little {
        half_from_le_bytes(b[0], b[1])
    } else {
        half_from_le_bytes(b[1], b[0])
    }
}

/// Mathematical model of the whole bus: the raw bytes, the byte-order mode
/// and the UART behind the window.
#[verifier::ext_equal]
pub struct MemModel {
    pub bytes: Seq<u8>,
    pub little: bool,
    pub uart: UartModel,
}

impl MemModel {
    pub open spec fn wf(self) -> bool {
        self.uart.wf()
    }
}

/// One byte read at the model level: the state after the read (a receive-
/// FIFO read pops the queue) and the value or fault.
pub open spec fn mem_read8(m: MemModel, addr: u64) -> (MemModel, Result<u8, Fault>) {
    if in_peripheral_window(addr) {
        if addr == UART_FIFO_RX_ADDR {
            let (u2, b) = spec_uart_read_rx(m.uart);
            (MemModel { uart: u2, ..m }, Ok(b))
        } else if addr == UART_FLAGS_ADDR {
            (m, Ok(m.uart.flags))
        } else {
            // The write-only transmit register and the unused remainder of
            // the window read as zero.
            (m, Ok(0u8))
        }
    } else if addr < m.bytes.len() {
        (m, Ok(m.bytes[addr as int]))
    } else {
        (m, Err(Fault::MemoryBoundsFault(addr)))
    }
}

/// One byte write at the model level.
pub open spec fn mem_write8(m: MemModel, addr: u64, data: u8) -> (MemModel, Result<(), Fault>) {
    if in_peripheral_window(addr) {
        if addr == UART_FIFO_TX_ADDR {
            (MemModel { uart: spec_uart_write_tx(m.uart, data), ..m }, Ok(()))
        } else {
            // Writes to the read-only registers and to the unused remainder
            // of the window are ignored.
            (m, Ok(()))
        }
    } else if addr < m.bytes.len() {
        (MemModel { bytes: m.bytes.update(addr as int, data), ..m }, Ok(()))
    } else {
        (m, Err(Fault::MemoryBoundsFault(addr)))
    }
}

/// A halfword read: two byte reads at successive addresses, unmarshalled in
/// the current byte order. A fault part-way leaves the state as the
/// successful prefix of byte reads left it.
pub open spec fn mem_read16(m: MemModel, addr: u64) -> (MemModel, Result<u16, Fault>) {
    if addr + 1 > u64::MAX {
        (m, Err(Fault::MemoryBoundsFault(addr)))
    } else {
        let (m0, r0) = mem_read8(m, addr);
        match r0 {
            Err(f) => (m0, Err(f)),
            Ok(b0) => {
                let (m1, r1) = mem_read8(m0, (addr + 1) as u64);
                match r1 {
                    Err(f) => (m1, Err(f)),
                    Ok(b1) => (m1, Ok(spec_unpack16(seq![b0, b1], m.little))),
                }
            },
        }
    }
}

/// A halfword write: the value is marshalled in the current byte order and
/// the two bytes are written at successive addresses.
pub open spec fn mem_write16(m: MemModel, addr: u64, data: u16) -> (MemModel, Result<
    (),
    Fault,
>) {
    if addr + 1 > u64::MAX {
        (m, Err(Fault::MemoryBoundsFault(addr)))
    } else {
        let b = spec_pack16(data, m.little);
        let (m0, r0) = mem_write8(m, addr, b[0]);
        match r0 {
            Err(f) => (m0, Err(f)),
            Ok(_) => mem_write8(m0, (addr + 1) as u64, b[1]),
        }
    }
}

/// A word read: four byte reads at successive addresses, unmarshalled in
/// the current byte order. A fault part-way leaves the state as the
/// successful prefix of byte reads left it.
pub open spec fn mem_read32(m: MemModel, addr: u64) -> (MemModel, Result<u32, Fault>) {
    if addr + 3 > u64::MAX {
        (m, Err(Fault::MemoryBoundsFault(addr)))
    } else {
        let (m0, r0) = mem_read8(m, addr);
        match r0 {
            Err(f) => (m0, Err(f)),
            Ok(b0) => {
                let (m1, r1) = mem_read8(m0, (addr + 1) as u64);
                match r1 {
                    Err(f) => (m1, Err(f)),
                    Ok(b1) => {
                        let (m2, r2) = mem_read8(m1, (addr + 2) as u64);
                        match r2 {
                            Err(f) => (m2, Err(f)),
                            Ok(b2) => {
                                let (m3, r3) = mem_read8(m2, (addr + 3) as u64);
                                match r3 {
                                    Err(f) => (m3, Err(f)),
                                    Ok(b3) => (
                                        m3,
                                        Ok(spec_unpack(seq![b0, b1, b2, b3], m.little)),
                                    ),
                                }
                            },
                        }
                    },
                }
            },
        }
    }
}

/// A word write: the value is marshalled in the current byte order and the
/// four bytes are written at successive addresses.
pub open spec fn mem_write32(m: MemModel, addr: u64, data: u32) -> (MemModel, Result<
    (),
    Fault,
>) {
    if addr + 3 > u64::MAX {
        (m, Err(Fault::MemoryBoundsFault(addr)))
    } else {
        let b = spec_pack(data, m.little);
        let (m0, r0) = mem_write8(m, addr, b[0]);
        match r0 {
            Err(f) => (m0, Err(f)),
            Ok(_) => {
                let (m1, r1) = mem_write8(m0, (addr + 1) as u64, b[1]);
                match r1 {
                    Err(f) => (m1, Err(f)),
                    Ok(_) => {
                        let (m2, r2) = mem_write8(m1, (addr + 2) as u64, b[2]);
                        match r2 {
                            Err(f) => (m2, Err(f)),
                            Ok(_) => mem_write8(m2, (addr + 3) as u64, b[3]),
                        }
                    },
                }
            },
        }
    }
}

// ---------------------------------------------------------------------------
// Text image format: one 32-bit value per line, hexadecimal, no prefix
// ---------------------------------------------------------------------------
/// Whether a character is a hexadecimal digit (either case).
pub open spec fn is_hex_digit(c: char) -> bool {
    let v = c as u32;
    (('0' as u32) <= v && v <= ('9' as u32)) || (('a' as u32) <= v && v <= ('f' as u32)) || ((
    'A' as u32) <= v && v <= ('F' as u32))
}

/// The value of a hexadecimal digit.
pub open spec fn hex_digit_val(c: char) -> u32
    recommends
        is_hex_digit(c),
{
    let v = c as u32;
    if ('0' as u32) <= v && v <= ('9' as u32) {
        (v - ('0' as u32)) as u32
    } else if ('a' as u32) <= v && v <= ('f' as u32) {
        (v - ('a' as u32) + 10) as u32
    } else {
        (v - ('A' as u32) + 10) as u32
    }
}

/// The numeric value of a string of hexadecimal digits, most significant
/// first.
pub open spec fn spec_hex_value(s: Seq<char>) -> int
    decreases s.len(),
{
    if s.len() == 0 {
        0
    } else {
        spec_hex_value(s.drop_last()) * 16 + hex_digit_val(s.last())
    }
}

/// A well-formed image line: non-empty, hexadecimal digits only, and a
/// value that fits in 32 bits.
pub open spec fn spec_hex_line_ok(s: Seq<char>) -> bool {
    &&& s.len() > 0
    &&& forall|i: int| 0 <= i < s.len() ==> is_hex_digit(s[i])
    &&& spec_hex_value(s) <= u32::MAX
}

proof fn lemma_hex_value_nonneg(s: Seq<char>)
    ensures
        spec_hex_value(s) >= 0,
    decreases s.len(),
{
    if s.len() > 0 {
        lemma_hex_value_nonneg(s.drop_last());
    }
}

/// The value of a string of digits is at least the value of any prefix:
/// appending digits never shrinks it.
proof fn lemma_hex_value_prefix(s: Seq<char>, i: int)
    requires
        0 <= i <= s.len(),
    ensures
        spec_hex_value(s.subrange(0, i)) <= spec_hex_value(s),
    decreases s.len() - i,
{
    if i == s.len() {
        assert(s.subrange(0, i) =~= s);
    } else {
        lemma_hex_value_prefix(s, i + 1);
        assert(s.subrange(0, i + 1).drop_last() =~= s.subrange(0, i));
        lemma_hex_value_nonneg(s.subrange(0, i));
    }
}

/// Parse one image line. Returns the line's value exactly when the line is
/// non-empty, all hexadecimal digits, and fits in 32 bits; `None`
/// otherwise.
pub fn parse_hex_word(line: &str) -> (r: Option<u32>)
    ensures
        r is Some <==> spec_hex_line_ok(line@),
        r is Some ==> r->Some_0 == spec_hex_value(line@),
{
    let len = line.unicode_len();
    if len == 0 {
        return None;
    }
    let mut acc: u32 = 0;
    let mut i: usize = 0;
    while i < len
        invariant
            len == line@.len(),
            0 < len,
            0 <= i <= len,
            forall|j: int| 0 <= j < i ==> is_hex_digit(line@[j]),
            acc == spec_hex_value(line@.subrange(0, i as int)),
        decreases len - i,
    {
        let c = line.get_char(i);
        let v = c as u32;
        let d: u32 = if 0x30 <= v && v <= 0x39 {
            // '0' to '9'
            v - 0x30
        } else if 0x61 <= v && v <= 0x66 {
            // 'a' to 'f'
            v - 0x61 + 10
        } else if 0x41 <= v && v <= 0x46 {
            // 'A' to 'F'
            v - 0x41 + 10
        } else {
            proof {
                assert(!is_hex_digit(line@[i as int]));
            }
            return None;
        };
        if acc > 0x0FFF_FFFF {
            // One more digit would exceed 32 bits, and further digits only
            // grow the value.
            proof {
                assert(line@.subrange(0, i as int + 1).drop_last() =~= line@.subrange(
                    0,
                    i as int,
                ));
                assert(spec_hex_value(line@.subrange(0, i as int + 1)) > u32::MAX);
                lemma_hex_value_prefix(line@, i as int + 1);
            }
            return None;
        }
        acc = acc * 16 + d;
        proof {
            assert(line@.subrange(0, i as int + 1).drop_last() =~= line@.subrange(0, i as int));
        }
        i += 1;
    }
    proof {
        assert(line@.subrange(0, len as int) =~= line@);
    }
    Some(acc)
}

/// Whether every line of a text image is well formed.
pub open spec fn spec_lines_ok(lines: Seq<String>) -> bool {
    forall|i: int| 0 <= i < lines.len() ==> spec_hex_line_ok(lines[i]@)
}

/// The byte image of a text file: each line's 32-bit value marshalled in
/// the given byte order, in file order.
pub open spec fn spec_packed_image(lines: Seq<String>, little: bool) -> Seq<u8>
    decreases lines.len(),
{
    if lines.len() == 0 {
        Seq::empty()
    } else {
        spec_packed_image(lines.drop_last(), little) + spec_pack(
            spec_hex_value(lines.last()@) as u32,
            little,
        )
    }
}

/// Image shape law: a well-formed text image of k lines packs to exactly
/// 4k bytes, and bytes 4i to 4i+3 are line i's value marshalled in the
/// given byte order.
pub proof fn lemma_packed_image_words(lines: Seq<String>, little: bool, i: int)
    requires
        0 <= i < lines.len(),
    ensures
        spec_packed_image(lines, little).len() == 4 * lines.len(),
        spec_packed_image(lines, little).subrange(4 * i, 4 * i + 4) == spec_pack(
            spec_hex_value(lines[i]@) as u32,
            little,
        ),
    decreases lines.len(),
{
    let packed = spec_packed_image(lines, little);
    let front = spec_packed_image(lines.drop_last(), little);
    let word = spec_pack(spec_hex_value(lines.last()@) as u32, little);
    if lines.len() == 1 {
        assert(packed.subrange(4 * i, 4 * i + 4) =~= word);
    } else {
        lemma_packed_image_words(lines.drop_last(), little, if i < lines.len() - 1 {
            i
        } else {
            0
        });
        if i < lines.len() - 1 {
            assert(lines.drop_last()[i] == lines[i]);
            assert(packed.subrange(4 * i, 4 * i + 4) =~= front.subrange(4 * i, 4 * i + 4));
        } else {
            assert(packed.subrange(4 * i, 4 * i + 4) =~= word);
        }
    }
}

/// The memory bus: a growable byte store, its size, the byte-order mode
/// (little-endian by default) and the UART mapped into the window.
pub struct Memory {
    pub mem: Vec<u8>,
    pub size: u64,
    pub is_little_endian: bool,
    pub uart: Uart,
}

impl View for Memory {
    type V = MemModel;

    open spec fn view(&self) -> MemModel {
        MemModel { bytes: self.mem@, little: self.is_little_endian, uart: self.uart@ }
    }
}

impl Memory {
    /// The recorded size always matches the backing store, and the UART
    /// status byte tracks its receive queue.
    pub open spec fn wf(self) -> bool {
        &&& self.size == self.mem@.len()
        &&& self.uart.wf()
    }

    /// Empty store, little-endian, fresh UART.
    pub fn new() -> (r: Memory)
        ensures
            r.wf(),
            r@.bytes.len() == 0,
            r@.little,
            r@.uart.rx.len() == 0,
            r@.uart.tx.len() == 0,
    {
        Memory { mem: Vec::new(), size: 0, is_little_endian: true, uart: Uart::new() }
    }

    /// Number of bytes in the backing store.
    pub fn get_size(&self) -> (r: u64)
        requires
            self.wf(),
        ensures
            r == self@.bytes.len(),
    {
        self.size
    }

    /// Switch the 32-bit marshalling order to least-significant byte first.
    pub fn make_little_endian(&mut self)
        ensures
            *final(self) == (Memory { is_little_endian: true, ..*old(self) }),
    {
        self.is_little_endian = true;
    }

    /// Switch the 32-bit marshalling order to most-significant byte first.
    pub fn make_big_endian(&mut self)
        ensures
            *final(self) == (Memory { is_little_endian: false, ..*old(self) }),
    {
        self.is_little_endian = false;
    }

    /// Whether an address falls in the reserved peripheral window.
    pub fn check_peripheral(&self, addr: u64) -> (r: bool)
        ensures
            r == in_peripheral_window(addr),
    {
        PERIPHERAL_BASE <= addr && addr < PERIPHERAL_END
    }

    /// Read of an in-window address, forwarded to the UART registers.
    pub fn peripheral_read(&mut self, addr: u64) -> (r: u8)
        requires
            old(self).wf(),
            in_peripheral_window(addr),
        ensures
            final(self).wf(),
            final(self)@ == mem_read8(old(self)@, addr).0,
            mem_read8(old(self)@, addr).1 == Ok::<u8, Fault>(r),
    {
        if addr == UART_FIFO_RX_ADDR {
            self.uart.cpu_read_rx_fifo()
        } else if addr == UART_FLAGS_ADDR {
            self.uart.cpu_get_flags()
        } else {
            0
        }
    }

    /// Write of an in-window address, forwarded to the UART registers.
    pub fn peripheral_write(&mut self, addr: u64, data: u8)
        requires
            old(self).wf(),
            in_peripheral_window(addr),
        ensures
            final(self).wf(),
            final(self)@ == mem_write8(old(self)@, addr, data).0,
    {
        if addr == UART_FIFO_TX_ADDR {
            self.uart.cpu_write_tx_fifo(data);
        }
    }

    /// Marshal a 32-bit value into four bytes in the current byte order.
    pub fn conv32to8(&self, x: u32) -> (r: Vec<u8>)
        ensures
            r@ == spec_pack(x, self@.little),
    {
        let mut res: Vec<u8> = Vec::new();
        if self.is_little_endian {
            res.push((x & 0xFF) as u8);
            res.push(((x >> 8) & 0xFF) as u8);
            res.push(((x >> 16) & 0xFF) as u8);
            res.push(((x >> 24) & 0xFF) as u8);
        } else {
            res.push(((x >> 24) & 0xFF) as u8);
            res.push(((x >> 16) & 0xFF) as u8);
            res.push(((x >> 8) & 0xFF) as u8);
            res.push((x & 0xFF) as u8);
        }
        assert(res@ =~= spec_pack(x, self@.little));
        res
    }

    /// Unmarshal four bytes into a 32-bit value in the current byte order.
    pub fn conv8to32(&self, x: Vec<u8>) -> (r: u32)
        requires
            x@.len() == 4,
        ensures
            r == spec_unpack(x@, self@.little),
    {
        let (b0, b1, b2, b3) = if self.is_little_endian {
            (x[0], x[1], x[2], x[3])
        } else {
            (x[3], x[2], x[1], x[0])
        };
        (b0 as u32) | ((b1 as u32) << 8) | ((b2 as u32) << 16) | ((b3 as u32) << 24)
    }

    /// Load a text image: one 32-bit hexadecimal value per line, packed
    /// into bytes in the current byte order, in file order. A malformed
    /// line is a load error that leaves the whole state unchanged: memory
    /// is never partially loaded.
    pub fn load_from_hex_lines(&mut self, lines: &Vec<String>) -> (r: Result<(), ()>)
        requires
            old(self).wf(),
        ensures
            final(self).wf(),
            r is Ok <==> spec_lines_ok(lines@),
            r is Ok ==> final(self)@ == (MemModel {
                bytes: spec_packed_image(lines@, old(self)@.little),
                ..old(self)@
            }),
            r is Err ==> *final(self) == *old(self),
    {
        let mut buf: Vec<u8> = Vec::new();
        let mut i: usize = 0;
        while i < lines.len()
            invariant
                0 <= i <= lines@.len(),
                forall|j: int| 0 <= j < i ==> spec_hex_line_ok(lines@[j]@),
                buf@ == spec_packed_image(lines@.subrange(0, i as int), self@.little),
                *self == *old(self),
                self.wf(),
            decreases lines@.len() - i,
        {
            let w = match parse_hex_word(lines[i].as_str()) {
                None => {
                    return Err(());
                },
                Some(w) => w,
            };
            let mut bytes = self.conv32to8(w);
            buf.append(&mut bytes);
            proof {
                assert(lines@.subrange(0, i as int + 1).drop_last() =~= lines@.subrange(
                    0,
                    i as int,
                ));
                assert(lines@.subrange(0, i as int + 1).last() == lines@[i as int]);
            }
            i += 1;
        }
        proof {
            assert(lines@.subrange(0, lines@.len() as int) =~= lines@);
        }
        self.size = buf.len() as u64;
        self.mem = buf;
        assert(self@ =~= (MemModel { bytes: spec_packed_image(lines@, old(self)@.little), ..old(
            self,
        )@ }));
        Ok(())
    }

    /// Load a binary image: the bytes go into the backing store verbatim.
    pub fn load_from_bytes(&mut self, data: Vec<u8>)
        requires
            old(self).wf(),
        ensures
            final(self).wf(),
            final(self)@ == (MemModel { bytes: data@, ..old(self)@ }),
    {
        self.size = data.len() as u64;
        self.mem = data;
        assert(self@ =~= (MemModel { bytes: data@, ..old(self)@ }));
    }

    /// One byte read: window check first, then the raw store; an address
    /// outside both is a bounds fault.
    pub fn read_8bit(&mut self, addr: u64) -> (r: Result<u8, Fault>)
        requires
            old(self).wf(),
        ensures
            final(self).wf(),
            final(self)@ == mem_read8(old(self)@, addr).0,
            r == mem_read8(old(self)@, addr).1,
    {
        if self.check_peripheral(addr) {
            Ok(self.peripheral_read(addr))
        } else if addr < self.mem.len() as u64 {
            Ok(self.mem[addr as usize])
        } else {
            Err(Fault::MemoryBoundsFault(addr))
        }
    }

    /// One byte write: window check first, then the raw store; an address
    /// outside both is a bounds fault.
    pub fn write_8bit(&mut self, addr: u64, data: u8) -> (r: Result<(), Fault>)
        requires
            old(self).wf(),
        ensures
            final(self).wf(),
            final(self)@ == mem_write8(old(self)@, addr, data).0,
            r == mem_write8(old(self)@, addr, data).1,
    {
        if self.check_peripheral(addr) {
            self.peripheral_write(addr, data);
            Ok(())
        } else if addr < self.mem.len() as u64 {
            self.mem.set(addr as usize, data);
            assert(self@ =~= mem_write8(old(self)@, addr, data).0);
            Ok(())
        } else {
            Err(Fault::MemoryBoundsFault(addr))
        }
    }

    /// Halfword read: two sequential byte reads, unmarshalled in the
    /// current byte order.
    pub fn read_16bit(&mut self, addr: u64) -> (r: Result<u16, Fault>)
        requires
            old(self).wf(),
        ensures
            final(self).wf(),
            final(self)@ == mem_read16(old(self)@, addr).0,
            r == mem_read16(old(self)@, addr).1,
    {
        if addr > u64::MAX - 1 {
            return Err(Fault::MemoryBoundsFault(addr));
        }
        let b0 = match self.read_8bit(addr) {
            Err(f) => return Err(f),
            Ok(b) => b,
        };
        let b1 = match self.read_8bit(addr + 1) {
            Err(f) => return Err(f),
            Ok(b) => b,
        };
        let r = if self.is_little_endian {
            (b0 as u16) | ((b1 as u16) << 8u16)
        } else {
            (b1 as u16) | ((b0 as u16) << 8u16)
        };
        Ok(r)
    }

    /// Halfword write: the value is marshalled in the current byte order
    /// and written as two sequential byte writes.
    pub fn write_16bit(&mut self, addr: u64, data: u16) -> (r: Result<(), Fault>)
        requires
            old(self).wf(),
        ensures
            final(self).wf(),
            final(self)@ == mem_write16(old(self)@, addr, data).0,
            r == mem_write16(old(self)@, addr, data).1,
    {
        if addr > u64::MAX - 1 {
            return Err(Fault::MemoryBoundsFault(addr));
        }
        let (lo, hi) = ((data & 0xFF) as u8, ((data >> 8u16) & 0xFF) as u8);
        let (first, second) = if self.is_little_endian {
            (lo, hi)
        } else {
            (hi, lo)
        };
        match self.write_8bit(addr, first) {
            Err(f) => return Err(f),
            Ok(_) => {},
        }
        self.write_8bit(addr + 1, second)
    }

    /// Word read: four sequential byte reads, unmarshalled in the current
    /// byte order.
    pub fn read_32bit(&mut self, addr: u64) -> (r: Result<u32, Fault>)
        requires
            old(self).wf(),
        ensures
            final(self).wf(),
            final(self)@ == mem_read32(old(self)@, addr).0,
            r == mem_read32(old(self)@, addr).1,
    {
        if addr > u64::MAX - 3 {
            return Err(Fault::MemoryBoundsFault(addr));
        }
        let mut slice: Vec<u8> = Vec::new();
        match self.read_8bit(addr) {
            Err(f) => return Err(f),
            Ok(b) => slice.push(b),
        }
        match self.read_8bit(addr + 1) {
            Err(f) => return Err(f),
            Ok(b) => slice.push(b),
        }
        match self.read_8bit(addr + 2) {
            Err(f) => return Err(f),
            Ok(b) => slice.push(b),
        }
        match self.read_8bit(addr + 3) {
            Err(f) => return Err(f),
            Ok(b) => slice.push(b),
        }
        assert(slice@ =~= seq![slice@[0], slice@[1], slice@[2], slice@[3]]);
        Ok(self.conv8to32(slice))
    }

    /// Word write: the value is marshalled in the current byte order and
    /// written as four sequential byte writes.
    pub fn write_32bit(&mut self, addr: u64, data: u32) -> (r: Result<(), Fault>)
        requires
            old(self).wf(),
        ensures
            final(self).wf(),
            final(self)@ == mem_write32(old(self)@, addr, data).0,
            r == mem_write32(old(self)@, addr, data).1,
    {
        if addr > u64::MAX - 3 {
            return Err(Fault::MemoryBoundsFault(addr));
        }
        let bytes = self.conv32to8(data);
        match self.write_8bit(addr, bytes[0]) {
            Err(f) => return Err(f),
            Ok(_) => {},
        }
        match self.write_8bit(addr + 1, bytes[1]) {
            Err(f) => return Err(f),
            Ok(_) => {},
        }
        match self.write_8bit(addr + 2, bytes[2]) {
            Err(f) => return Err(f),
            Ok(_) => {},
        }
        self.write_8bit(addr + 3, bytes[3])
    }
}

} // verus!
