//! A compiled function body: code bytes, the constant pool, and the line
//! map.

use vstd::prelude::*;
use crate::opcode::Op;
use crate::value::NanBoxedValue;
use crate::disassemble::Disassemble;

verus! {

/// The line of the first line-map entry whose offset is at least
/// `offset`, or 0 when there is none.
pub open spec fn spec_line_at(lines: Seq<(usize, usize)>, offset: usize) -> usize
    decreases lines.len(),
{
    if lines.len() == 0 {
        0
    } else if lines[0].0 >= offset {
        lines[0].1
    } else {
        spec_line_at(lines.skip(1), offset)
    }
}

/// Bytecode, constants (deduplicated on insert by equality), and the
/// line map, which records only transitions: the code offset at which
/// each new source line first appears.
#[derive(Debug, Clone)]
pub struct Chunk {
    pub code: Vec<u8>,
    pub constants: Vec<NanBoxedValue>,
    pub lines: Vec<(usize, usize)>,
}

impl Chunk {
    pub fn new() -> (r: Chunk)
        ensures
            r.code@.len() == 0,
            r.constants@.len() == 0,
            r.lines@.len() == 0,
    {
        Chunk { code: Vec::new(), constants: Vec::new(), lines: Vec::new() }
    }

    /// The line number the map currently ends on; 0 before any entry.
    pub open spec fn last_line(self) -> usize {
        if self.lines@.len() == 0 {
            0
        } else {
            self.lines@.last().1
        }
    }

    /// Appends one byte; the line map gains an entry exactly when the
    /// line differs from the one the map ends on — it records only
    /// transitions.
    pub fn write_byte(&mut self, byte: u8, line: usize)
        ensures
            final(self).code@ == old(self).code@.push(byte),
            final(self).constants == old(self).constants,
            final(self).lines@ == if old(self).last_line() != line {
                old(self).lines@.push((old(self).code@.len() as usize, line))
            } else {
                old(self).lines@
            },
            final(self).lines@.len() >= old(self).lines@.len(),
            final(self).lines@.subrange(0, old(self).lines@.len() as int) == old(self).lines@,
    {
        let offset = self.code.len();
        self.code.push(byte);
        let needs_entry = if self.lines.len() == 0 {
            line != 0
        } else {
            self.lines[self.lines.len() - 1].1 != line
        };
        if needs_entry {
            self.lines.push((offset, line));
            proof {
                assert(self.lines@.subrange(0, old(self).lines@.len() as int) =~= old(self).lines@);
            }
        } else {
            proof {
                assert(self.lines@.subrange(0, old(self).lines@.len() as int) =~= old(self).lines@);
            }
        }
    }

    /// Appends a run of bytes on one source line.
    pub fn write(&mut self, bytes: &Vec<u8>, line: usize)
        ensures
            final(self).code@ == old(self).code@ + bytes@,
            final(self).constants == old(self).constants,
            final(self).lines@.len() >= old(self).lines@.len(),
            final(self).lines@.subrange(0, old(self).lines@.len() as int) == old(self).lines@,
    {
        let n = bytes.len();
        let mut i: usize = 0;
        while i < n
            invariant
                i <= n,
                n == bytes.len(),
                self.code@ == old(self).code@ + bytes@.subrange(0, i as int),
                self.constants == old(self).constants,
                self.lines@.len() >= old(self).lines@.len(),
                self.lines@.subrange(0, old(self).lines@.len() as int) == old(self).lines@,
            decreases n - i,
        {
            let ghost prev_lines = self.lines@;
            self.write_byte(bytes[i], line);
            proof {
                assert(self.lines@.subrange(0, old(self).lines@.len() as int) =~= prev_lines.subrange(
                    0,
                    old(self).lines@.len() as int,
                ));
            }
            i = i + 1;
        }
        proof {
            assert(self.code@ =~= old(self).code@ + bytes@);
        }
    }

    /// Appends one opcode.
    pub fn write_op(&mut self, op: Op, line: usize)
        ensures
            final(self).code@ == old(self).code@.push(op.spec_byte()),
            final(self).constants == old(self).constants,
            final(self).lines@.len() >= old(self).lines@.len(),
            final(self).lines@.subrange(0, old(self).lines@.len() as int) == old(self).lines@,
    {
        let bytes = op.bytecode();
        self.write(&bytes, line);
        proof {
            assert(old(self).code@ + bytes@ =~= old(self).code@.push(op.spec_byte()));
        }
    }

    /// Adds a value to the constant pool without writing code,
    /// deduplicating by equality: when an equal constant exists the pool
    /// is unchanged and the first such index comes back; otherwise the
    /// value is appended and its index comes back.
    pub fn add_constant_only(&mut self, value: NanBoxedValue) -> (r: usize)
        ensures
            final(self).code == old(self).code,
            final(self).lines == old(self).lines,
            r < final(self).constants@.len(),
            final(self).constants@[r as int] == value,
            (exists|j: int| 0 <= j < old(self).constants@.len() && old(self).constants@[j] == value)
                ==> final(self).constants@ == old(self).constants@,
            (forall|j: int|
                0 <= j < old(self).constants@.len() ==> old(self).constants@[j] != value)
                ==> final(self).constants@ == old(self).constants@.push(value) && r == old(
                self,
            ).constants@.len(),
            forall|j: int| 0 <= j < r ==> final(self).constants@[j] != value,
            final(self).constants@.subrange(0, old(self).constants@.len() as int) == old(
                self,
            ).constants@,
    {
        let n = self.constants.len();
        let mut i: usize = 0;
        while i < n
            invariant
                i <= n,
                n == self.constants.len(),
                self == old(self),
                forall|j: int| 0 <= j < i ==> self.constants@[j] != value,
            decreases n - i,
        {
            if self.constants[i] == value {
                proof {
                    assert(self.constants@.subrange(0, self.constants@.len() as int)
                        =~= self.constants@);
                }
                return i;
            }
            i = i + 1;
        }
        self.constants.push(value);
        proof {
            assert(self.constants@.subrange(0, old(self).constants@.len() as int) =~= old(
                self,
            ).constants@);
        }
        n
    }

    /// Adds a constant and writes its 16-bit big-endian index. Pools are
    /// kept below 2^16 entries by the compiler; a larger pool would wrap
    /// the index, so the count is masked as the encoding forces.
    pub fn add_constant(&mut self, value: NanBoxedValue, line: usize) -> (r: usize)
        ensures
            r < final(self).constants@.len(),
            final(self).constants@[r as int] == value,
            final(self).constants@.len() <= old(self).constants@.len() + 1,
            final(self).constants@.subrange(0, old(self).constants@.len() as int) == old(
                self,
            ).constants@,
            final(self).code@.len() == old(self).code@.len() + 2,
            r <= 0xFFFF ==> final(self).code@ == old(self).code@ + seq![
                (r / 256) as u8,
                (r % 256) as u8,
            ],
    {
        let idx = self.add_constant_only(value);
        let idx16 = if idx > 0xFFFF {
            0xFFFFusize
        } else {
            idx
        };
        let hi = (idx16 / 256) as u8;
        let lo = (idx16 % 256) as u8;
        let mut bs: Vec<u8> = Vec::new();
        bs.push(hi);
        bs.push(lo);
        self.write(&bs, line);
        proof {
            if idx <= 0xFFFF {
                assert(old(self).code@ + bs@ =~= old(self).code@ + seq![
                    (idx / 256) as u8,
                    (idx % 256) as u8,
                ]);
            }
        }
        idx
    }

    /// Writes a CONSTANT instruction that pushes `value`: the CONSTANT
    /// opcode byte, then the big-endian pool index of the (deduplicated)
    /// value.
    pub fn emit_constant(&mut self, value: NanBoxedValue, line: usize) -> (r: usize)
        ensures
            r < final(self).constants@.len(),
            final(self).constants@[r as int] == value,
            final(self).constants@.len() <= old(self).constants@.len() + 1,
            final(self).constants@.subrange(0, old(self).constants@.len() as int) == old(
                self,
            ).constants@,
            final(self).code@.len() == old(self).code@.len() + 3,
            r <= 0xFFFF ==> final(self).code@ == old(self).code@ + seq![
                Op::CONSTANT.spec_byte(),
                (r / 256) as u8,
                (r % 256) as u8,
            ],
    {
        self.write_op(Op::CONSTANT, line);
        let r = self.add_constant(value, line);
        proof {
            if r <= 0xFFFF {
                assert(old(self).code@.push(Op::CONSTANT.spec_byte()) + seq![
                    (r / 256) as u8,
                    (r % 256) as u8,
                ] =~= old(self).code@ + seq![
                    Op::CONSTANT.spec_byte(),
                    (r / 256) as u8,
                    (r % 256) as u8,
                ]);
            }
        }
        r
    }

    /// Reads a constant by index.
    pub fn get_constant(&self, idx: usize) -> (r: NanBoxedValue)
        requires
            idx < self.constants@.len(),
        ensures
            r == self.constants@[idx as int],
    {
        self.constants[idx]
    }

    /// The source line of the first line-map entry at or past `offset`,
    /// or 0 when the map ends before it.
    pub fn line_number_at(&self, offset: usize) -> (r: usize)
        ensures
            r == spec_line_at(self.lines@, offset),
    {
        let n = self.lines.len();
        let mut i: usize = 0;
        proof {
            assert(self.lines@.skip(0) =~= self.lines@);
        }
        while i < n
            invariant
                i <= n,
                n == self.lines.len(),
                spec_line_at(self.lines@.skip(i as int), offset) == spec_line_at(
                    self.lines@,
                    offset,
                ),
            decreases n - i,
        {
            let (l_offset, line) = self.lines[i];
            proof {
                assert(self.lines@.skip(i as int)[0] == self.lines@[i as int]);
                assert(self.lines@.skip(i as int).skip(1) =~= self.lines@.skip(i as int + 1));
            }
            if l_offset >= offset {
                return line;
            }
            i = i + 1;
        }
        proof {
            assert(self.lines@.skip(i as int).len() == 0);
        }
        0
    }

    /// The first line-map entry at or past `offset`.
    fn find_line_entry(&self, offset: usize) -> (r: Option<(usize, usize)>) {
        let n = self.lines.len();
        let mut i: usize = 0;
        while i < n
            invariant
                i <= n,
                n == self.lines.len(),
            decreases n - i,
        {
            let (l_offset, line) = self.lines[i];
            if l_offset >= offset {
                return Some((l_offset, line));
            }
            i = i + 1;
        }
        None
    }

    /// The line-map column of a disassembly row: the line number at a new
    /// line's first offset, a continuation bar otherwise.
    pub fn line_str(&self, offset: usize) -> (r: Vec<u8>)
        ensures
            r@.len() > 0,
    {
        let entry = self.find_line_entry(offset);
        let (found, found_offset, found_line): (bool, usize, usize) = match entry {
            Some((o, l)) => (true, o, l),
            None => (false, 0, 0),
        };
        let mut out: Vec<u8> = Vec::new();
        if found && found_offset == offset {
            crate::bytes::push_decimal(&mut out, found_line as u64);
        } else {
            out.push(0x20);
            out.push(0x20);
            out.push(0x20);
            out.push(0x7C);
        }
        if out.len() == 0 {
            out.push(0x7C);
        }
        out
    }

    /// A textual listing of the whole chunk, for logs.
    pub fn disassemble(&self, name: &str) -> (r: Vec<u8>) {
        let mut out: Vec<u8> = Vec::new();
        let name_bytes = vstd::string::StrSliceExecFns::as_bytes_vec(name);
        crate::bytes::append_bytes(&mut out, &name_bytes);
        out.push(0x0A);
        let n = self.code.len();
        let mut offset: usize = 0;
        while offset < n
            invariant
                n == self.code.len(),
                offset <= n,
            decreases n - offset,
        {
            let op = Op::at(self.code[offset]);
            let next = op.disassemble(offset, self, &mut out);
            offset = if next > n {
                n
            } else {
                next
            };
        }
        out
    }
}

} // verus!
