//! Bank files and the back-to-front bitstream decompressor.

use vstd::prelude::*;
use vstd::arithmetic::power2::{
    lemma2_to64, lemma_pow2_strictly_increases, lemma_pow2_unfold, pow2,
};
use crate::cursor::{be32_at, ByteCursor, ReadError};
use crate::mem_entry::MemEntry;

verus! {

#[derive(Debug, PartialEq, Eq, Structural, Clone, Copy)]
pub enum BankError {
    /// The bank file that the entry names is not there.
    OnOpen,
    /// The bank, or the packed stream, ended early.
    Io(ReadError),
}

/// The blob cut into 4-byte chunks from the front (the last one may be
/// shorter), the chunks laid out last to first.
pub open spec fn rev_chunks(s: Seq<u8>) -> Seq<u8>
    decreases s.len(),
{
    if s.len() == 0 {
        Seq::empty()
    } else {
        let k = (s.len() - 1) / 4 * 4;
        s.subrange(k, s.len() as int) + rev_chunks(s.subrange(0, k))
    }
}

/// The bit reader's state: where the next word is read, the running
/// checksum, and the word that bits are shifted out of.
pub struct BitReader {
    pub pos: int,
    pub crc: u32,
    pub chk: u32,
}

/// One bit, pulled by rotating the current word right through the carry;
/// when the word runs empty the next one is loaded with a marker bit on top.
pub open spec fn next_bit(s: Seq<u8>, r: BitReader) -> Option<(u8, BitReader)> {
    let shifted = r.chk / 2;
    if shifted != 0 {
        Some(((r.chk % 2) as u8, BitReader { chk: shifted, ..r }))
    } else if 0 <= r.pos && r.pos + 4 <= s.len() {
        let w = be32_at(s, r.pos);
        Some(
            (
                (w % 2) as u8,
                BitReader { pos: r.pos + 4, crc: r.crc ^ w, chk: (w / 2 + 0x8000_0000) as u32 },
            ),
        )
    } else {
        None
    }
}

/// `n` more bits, most significant first, appended to `acc`.
pub open spec fn get_code(s: Seq<u8>, r: BitReader, n: nat, acc: int) -> Option<(int, BitReader)>
    decreases n,
{
    if n == 0 {
        Some((acc, r))
    } else {
        match next_bit(s, r) {
            None => None,
            Some((b, r2)) => get_code(s, r2, (n - 1) as nat, acc * 2 + b),
        }
    }
}

/// `k` literal bytes of 8 bits each, appended to `out`.
pub open spec fn literal_bytes(s: Seq<u8>, r: BitReader, k: nat, out: Seq<u8>) -> Option<(BitReader, Seq<u8>)>
    decreases k,
{
    if k == 0 {
        Some((r, out))
    } else {
        match get_code(s, r, 8, 0) {
            None => None,
            Some((b, r2)) => literal_bytes(s, r2, (k - 1) as nat, out.push(b as u8)),
        }
    }
}

/// The byte at `j`, or zero where `j` falls outside `s`.
pub open spec fn byte_or_zero(s: Seq<u8>, j: int) -> u8 {
    if 0 <= j < s.len() {
        s[j]
    } else {
        0
    }
}

/// `n` bytes copied one at a time from `base` on; a copy may read bytes
/// that it has itself appended.
pub open spec fn copy_ref(out: Seq<u8>, base: int, n: nat) -> Seq<u8>
    decreases n,
{
    if n == 0 {
        out
    } else {
        let prev = copy_ref(out, base, (n - 1) as nat);
        prev.push(byte_or_zero(prev, base + n - 1))
    }
}

/// The decoder between two tokens: the bit reader, the bytes still owed,
/// and the output so far (in reverse order).
pub struct DecodeState {
    pub r: BitReader,
    pub datasize: int,
    pub out: Seq<u8>,
}

/// A literal run: a `bits`-wide count, `count + add + 1` bytes of 8 bits.
pub open spec fn literal(s: Seq<u8>, st: DecodeState, bits: nat, add: int) -> Option<DecodeState> {
    match get_code(s, st.r, bits, 0) {
        None => None,
        Some((c, r1)) => {
            let len = c + add + 1;
            match literal_bytes(s, r1, len as nat, st.out) {
                None => None,
                Some((r2, out2)) => Some(DecodeState { r: r2, datasize: st.datasize - len, out: out2 }),
            }
        },
    }
}

/// A back reference: a `bits`-wide offset from the output's end, `length` bytes.
pub open spec fn reference(s: Seq<u8>, st: DecodeState, bits: nat, length: int) -> Option<DecodeState> {
    match get_code(s, st.r, bits, 0) {
        None => None,
        Some((off, r1)) => Some(
            DecodeState {
                r: r1,
                datasize: st.datasize - length,
                out: copy_ref(st.out, st.out.len() - off, length as nat),
            },
        ),
    }
}

/// One token of the stream.
pub open spec fn token(s: Seq<u8>, st: DecodeState) -> Option<DecodeState> {
    match next_bit(s, st.r) {
        None => None,
        Some((b1, r1)) => {
            let st1 = DecodeState { r: r1, ..st };
            if b1 == 0 {
                match next_bit(s, r1) {
                    None => None,
                    Some((b2, r2)) => {
                        let st2 = DecodeState { r: r2, ..st };
                        if b2 == 0 {
                            literal(s, st2, 3, 0)
                        } else {
                            reference(s, st2, 8, 2)
                        }
                    },
                }
            } else {
                match get_code(s, r1, 2, 0) {
                    None => None,
                    Some((code, r2)) => {
                        let st2 = DecodeState { r: r2, ..st };
                        if code == 3 {
                            literal(s, st2, 8, 8)
                        } else if code < 2 {
                            reference(s, st2, (code + 9) as nat, code + 3)
                        } else {
                            match get_code(s, r2, 8, 0) {
                                None => None,
                                Some((l, r3)) => reference(s, DecodeState { r: r3, ..st }, 12, l + 1),
                            }
                        }
                    },
                }
            }
        },
    }
}

/// The bytes still owed, where any are.
pub open spec fn owed(st: DecodeState) -> nat {
    if st.datasize > 0 {
        st.datasize as nat
    } else {
        0
    }
}

/// Tokens decoded until no bytes are owed; `None` where the stream runs out.
pub open spec fn decode(s: Seq<u8>, st: DecodeState) -> Option<DecodeState>
    decreases owed(st),
{
    if st.datasize <= 0 {
        Some(st)
    } else {
        match token(s, st) {
            None => None,
            Some(st2) => if st2.datasize < st.datasize {
                decode(s, st2)
            } else {
                None
            },
        }
    }
}

/// The state after the three header words: the owed byte count, the
/// checksum and the first bit word.
pub open spec fn initial_state(s: Seq<u8>) -> DecodeState {
    let chk = be32_at(s, 8);
    DecodeState {
        r: BitReader { pos: 12, crc: be32_at(s, 4) ^ chk, chk },
        datasize: (be32_at(s, 0) as i32) as int,
        out: Seq::empty(),
    }
}

/// The final state of decoding the word stream `s`, if it holds enough words.
pub open spec fn stream_final(s: Seq<u8>) -> Option<DecodeState> {
    if s.len() < 12 {
        None
    } else {
        decode(s, initial_state(s))
    }
}

/// What the word stream `s` decodes to.
pub open spec fn unpack_stream(s: Seq<u8>) -> Option<Seq<u8>> {
    match stream_final(s) {
        None => None,
        Some(f) => Some(f.out.reverse()),
    }
}

/// The final state of decoding the packed blob `packed`.
pub open spec fn unpack_final(packed: Seq<u8>) -> Option<DecodeState> {
    stream_final(rev_chunks(packed))
}

/// What the packed blob unpacks to.
pub open spec fn unpacked(packed: Seq<u8>) -> Option<Seq<u8>> {
    unpack_stream(rev_chunks(packed))
}

proof fn lemma_get_code_bounds(s: Seq<u8>, r: BitReader, n: nat, acc: int)
    requires
        0 <= acc,
    ensures
        get_code(s, r, n, acc) matches Some((c, _)) ==> acc * pow2(n) <= c < (acc + 1) * pow2(n),
    decreases n,
{
    if n == 0 {
        lemma2_to64();
    } else {
        match next_bit(s, r) {
            None => {},
            Some((b, r2)) => {
                assert(b <= 1);
                lemma_get_code_bounds(s, r2, (n - 1) as nat, acc * 2 + b);
                lemma_pow2_unfold(n);
                let p = pow2((n - 1) as nat) as int;
                assert((acc * 2 + b) * p == acc * 2 * p + b * p) by (nonlinear_arith);
                assert(acc * pow2(n) == acc * 2 * p) by (nonlinear_arith)
                    requires
                        pow2(n) == 2 * p,
                ;
                assert((acc + 1) * pow2(n) == acc * 2 * p + 2 * p) by (nonlinear_arith)
                    requires
                        pow2(n) == 2 * p,
                ;
                assert((acc * 2 + b + 1) * p == acc * 2 * p + b * p + p) by (nonlinear_arith);
                assert(0 <= b * p <= p) by (nonlinear_arith)
                    requires
                        0 <= b <= 1,
                        p >= 0,
                ;
            },
        }
    }
}

proof fn lemma_literal_bytes_len(s: Seq<u8>, r: BitReader, k: nat, out: Seq<u8>)
    ensures
        literal_bytes(s, r, k, out) matches Some((_, o)) ==> o.len() == out.len() + k,
    decreases k,
{
    if k > 0 {
        match get_code(s, r, 8, 0) {
            None => {},
            Some((b, r2)) => lemma_literal_bytes_len(s, r2, (k - 1) as nat, out.push(b as u8)),
        }
    }
}

proof fn lemma_copy_ref_len(out: Seq<u8>, base: int, n: nat)
    ensures
        copy_ref(out, base, n).len() == out.len() + n,
    decreases n,
{
    if n > 0 {
        lemma_copy_ref_len(out, base, (n - 1) as nat);
    }
}

/// Each token emits at least one byte and takes exactly what it emits off
/// the owed count.
proof fn lemma_token_progress(s: Seq<u8>, st: DecodeState)
    ensures
        token(s, st) matches Some(st2) ==> st2.out.len() - st.out.len() == st.datasize
            - st2.datasize && st2.out.len() > st.out.len(),
{
    match next_bit(s, st.r) {
        None => {},
        Some((b1, r1)) => {
            if b1 == 0 {
                match next_bit(s, r1) {
                    None => {},
                    Some((b2, r2)) => {
                        let st2 = DecodeState { r: r2, ..st };
                        if b2 == 0 {
                            lemma_literal_progress(s, st2, 3, 0);
                        } else {
                            lemma_copy_len_of(s, st2, 8, 2);
                        }
                    },
                }
            } else {
                lemma_get_code_bounds(s, r1, 2, 0);
                match get_code(s, r1, 2, 0) {
                    None => {},
                    Some((code, r2)) => {
                        let st2 = DecodeState { r: r2, ..st };
                        if code == 3 {
                            lemma_literal_progress(s, st2, 8, 8);
                        } else if code < 2 {
                            lemma_copy_len_of(s, st2, (code + 9) as nat, code + 3);
                        } else {
                            lemma_get_code_bounds(s, r2, 8, 0);
                            match get_code(s, r2, 8, 0) {
                                None => {},
                                Some((l, r3)) => lemma_copy_len_of(
                                    s,
                                    DecodeState { r: r3, ..st },
                                    12,
                                    l + 1,
                                ),
                            }
                        }
                    },
                }
            }
        },
    }
}

proof fn lemma_literal_progress(s: Seq<u8>, st: DecodeState, bits: nat, add: int)
    requires
        add >= 0,
    ensures
        literal(s, st, bits, add) matches Some(st2) ==> st2.out.len() - st.out.len()
            == st.datasize - st2.datasize && st2.out.len() > st.out.len(),
{
    lemma_get_code_bounds(s, st.r, bits, 0);
    match get_code(s, st.r, bits, 0) {
        None => {},
        Some((c, r1)) => {
            lemma_literal_bytes_len(s, r1, (c + add + 1) as nat, st.out);
        },
    }
}

proof fn lemma_copy_len_of(s: Seq<u8>, st: DecodeState, bits: nat, length: int)
    requires
        length >= 1,
    ensures
        reference(s, st, bits, length) matches Some(st2) ==> st2.out.len() - st.out.len()
            == st.datasize - st2.datasize && st2.out.len() > st.out.len(),
{
    match get_code(s, st.r, bits, 0) {
        None => {},
        Some((off, r1)) => {
            lemma_copy_ref_len(st.out, st.out.len() - off, length as nat);
        },
    }
}

/// Decoding keeps the sum of the output length and the owed count, and stops
/// with nothing owed.
proof fn lemma_decode_len(s: Seq<u8>, st: DecodeState)
    ensures
        decode(s, st) matches Some(f) ==> f.out.len() + f.datasize == st.out.len() + st.datasize
            && f.datasize <= 0,
    decreases owed(st),
{
    if st.datasize > 0 {
        lemma_token_progress(s, st);
        match token(s, st) {
            None => {},
            Some(st2) => {
                if st2.datasize < st.datasize {
                    lemma_decode_len(s, st2);
                }
            },
        }
    }
}

/// A packed blob whose stream decodes with the owed count ending exactly at
/// zero unpacks to as many bytes as its header declares.
pub proof fn lemma_unpacked_len(packed: Seq<u8>)
    ensures
        unpack_final(packed) matches Some(f) ==> f.datasize <= 0 && unpacked(packed).unwrap().len()
            == initial_state(rev_chunks(packed)).datasize - f.datasize,
        unpack_final(packed) matches Some(f) && f.datasize == 0 ==> unpacked(packed).unwrap().len()
            == (be32_at(rev_chunks(packed), 0) as i32),
{
    let s = rev_chunks(packed);
    if s.len() >= 12 {
        lemma_decode_len(s, initial_state(s));
    }
}

/// The lowercase hexadecimal digit of `d` (below 16), as an ASCII byte.
pub open spec fn hex_digit(d: u8) -> u8 {
    if d < 10 {
        (0x30 + d) as u8
    } else {
        (0x61 + d - 10) as u8
    }
}

/// The file name `bankNN`, NN the bank id as two lowercase hex digits.
pub open spec fn bank_name(bank_id: u8) -> Seq<u8> {
    seq![0x62u8, 0x61u8, 0x6eu8, 0x6bu8, hex_digit(bank_id / 16), hex_digit(bank_id % 16)]
}

/// The packed bytes of `e` within its bank, where the bank holds them.
pub open spec fn packed_bytes(bank: Seq<u8>, e: MemEntry) -> Option<Seq<u8>> {
    if e.bank_offset + e.packed_size <= bank.len() {
        Some(bank.subrange(e.bank_offset as int, e.bank_offset + e.packed_size))
    } else {
        None
    }
}

/// What reading `e` out of the bank `bank` gives: the packed bytes as they
/// are where both sizes agree, else what they unpack to.
pub open spec fn bank_read(bank: Option<Seq<u8>>, e: MemEntry) -> Result<Seq<u8>, BankError> {
    match bank {
        None => Err(BankError::OnOpen),
        Some(b) => match packed_bytes(b, e) {
            None => Err(BankError::Io(ReadError::UnexpectedEof)),
            Some(p) => if e.packed_size == e.size {
                Ok(p)
            } else {
                match unpacked(p) {
                    None => Err(BankError::Io(ReadError::UnexpectedEof)),
                    Some(u) => Ok(u),
                }
            },
        },
    }
}

/// The contents of a bank file, if there is one.
pub open spec fn bank_view(bank: Option<Vec<u8>>) -> Option<Seq<u8>> {
    match bank {
        None => None,
        Some(b) => Some(b@),
    }
}

/// Reads resources out of the bank files.
pub struct BankReader {}

impl BankReader {
    /// The name of the file of bank `bank_id`.
    pub fn bank_file_name(bank_id: u8) -> (r: Vec<u8>)
        ensures
            r@ == bank_name(bank_id),
    {
        let r = vec![0x62u8, 0x61u8, 0x6eu8, 0x6bu8, hex_digit_of(bank_id / 16), hex_digit_of(bank_id % 16)];
        assert(r@ =~= bank_name(bank_id));
        r
    }

    /// The resource that `mem_entry` describes, from the contents of its bank
    /// file (`None` where the file is missing).
    pub fn read_bank(bank: &Option<Vec<u8>>, mem_entry: &MemEntry) -> (r: Result<Vec<u8>, BankError>)
        ensures
            match bank_read(bank_view(*bank), *mem_entry) {
                Ok(v) => r is Ok && r.unwrap()@ == v,
                Err(e) => r == Err::<Vec<u8>, BankError>(e),
            },
    {
        let data = match bank {
            None => {
                return Err(BankError::OnOpen);
            },
            Some(d) => d,
        };
        let start = mem_entry.bank_offset as usize;
        let packed = mem_entry.packed_size as usize;
        if start > data.len() || data.len() - start < packed {
            return Err(BankError::Io(ReadError::UnexpectedEof));
        }
        let mut buf: Vec<u8> = Vec::with_capacity(packed);
        let mut i: usize = 0;
        while i < packed
            invariant
                i <= packed,
                start + packed <= data.len(),
                buf@ == data@.subrange(start as int, start + i),
            decreases packed - i,
        {
            buf.push(data[start + i]);
            i = i + 1;
            assert(buf@ =~= data@.subrange(start as int, start + i));
        }
        if mem_entry.packed_size == mem_entry.size {
            return Ok(buf);
        }
        let stream = reversed_chunks(&buf);
        let mut unpacker = Unpacker::new(ByteCursor::new(stream));
        match unpacker.unpack() {
            Ok(v) => Ok(v),
            Err(e) => Err(BankError::Io(e)),
        }
    }
}

fn hex_digit_of(d: u8) -> (r: u8)
    requires
        d < 16,
    ensures
        r == hex_digit(d),
{
    if d < 10 {
        0x30 + d
    } else {
        0x61 + d - 10
    }
}

/// The blob's 4-byte chunks, last to first, each kept in its own order.
fn reversed_chunks(data: &Vec<u8>) -> (r: Vec<u8>)
    ensures
        r@ == rev_chunks(data@),
{
    let mut out: Vec<u8> = Vec::with_capacity(data.len());
    let mut end: usize = data.len();
    assert(data@.subrange(0, end as int) =~= data@);
    while end > 0
        invariant
            end <= data@.len(),
            out@ + rev_chunks(data@.subrange(0, end as int)) == rev_chunks(data@),
        decreases end,
    {
        let start: usize = (end - 1) / 4 * 4;
        let ghost out0 = out@;
        let mut i: usize = start;
        while i < end
            invariant
                start <= i <= end <= data@.len(),
                out@ == out0 + data@.subrange(start as int, i as int),
            decreases end - i,
        {
            out.push(data[i]);
            i = i + 1;
            assert(out@ =~= out0 + data@.subrange(start as int, i as int));
        }
        proof {
            let t = data@.subrange(0, end as int);
            assert(t.subrange(start as int, end as int) =~= data@.subrange(start as int, end as int));
            assert(t.subrange(0, start as int) =~= data@.subrange(0, start as int));
            assert(rev_chunks(t) == t.subrange(start as int, t.len() as int) + rev_chunks(
                t.subrange(0, start as int),
            ));
            assert(out0 + rev_chunks(t) =~= out@ + rev_chunks(data@.subrange(0, start as int)));
        }
        end = start;
    }
    assert(rev_chunks(data@.subrange(0, 0)) =~= Seq::<u8>::empty());
    assert(out@ =~= rev_chunks(data@));
    out
}

struct UnpackContext {
    crc: u32,
    chk: u32,
    datasize: i32,
}

/// Decodes a word stream (the packed blob with its chunks reversed).
struct Unpacker {
    reader: ByteCursor,
    ctx: UnpackContext,
}

impl Unpacker {
    spec fn stream(&self) -> Seq<u8> {
        self.reader.data@
    }

    spec fn bits(&self) -> BitReader {
        BitReader { pos: self.reader.pos as int, crc: self.ctx.crc, chk: self.ctx.chk }
    }

    spec fn state(&self, out: Seq<u8>) -> DecodeState {
        DecodeState { r: self.bits(), datasize: self.ctx.datasize as int, out }
    }

    fn new(reader: ByteCursor) -> (r: Unpacker)
        ensures
            r.stream() == reader.data@,
            r.reader.pos == reader.pos,
    {
        Unpacker { reader, ctx: UnpackContext { crc: 0, chk: 0, datasize: 0 } }
    }

    #[verifier::loop_isolation(false)]
    fn decode_literal(&mut self, bit_length: u8, additional_length: u8, output: &mut Vec<u8>) -> (r:
        Result<(), ReadError>)
        requires
            bit_length <= 8,
            additional_length <= 8,
            old(self).ctx.datasize > 0,
        ensures
            final(self).stream() == old(self).stream(),
            match literal(
                old(self).stream(),
                old(self).state(old(output)@),
                bit_length as nat,
                additional_length as int,
            ) {
                None => r is Err,
                Some(st) => r is Ok && final(self).state(final(output)@) == st,
            },
    {
        let ghost s = self.stream();
        let ghost out0 = output@;
        let code = self.get_code(bit_length)?;
        let ghost r1 = self.bits();
        proof {
            lemma_pow2_strictly_increases(bit_length as nat, 9);
            lemma2_to64();
        }
        let length: u16 = code + additional_length as u16 + 1;
        assert(literal(s, old(self).state(out0), bit_length as nat, additional_length as int)
            == match literal_bytes(s, r1, length as nat, out0) {
                None => None,
                Some((r2, out2)) => Some(DecodeState { r: r2, datasize: old(self).ctx.datasize - length, out: out2 }),
            });
        let mut k: u16 = 0;
        while k < length
            invariant
                k <= length,
                length <= 264,
                s == old(self).stream(),
                out0 == old(output)@,
                self.stream() == s,
                self.ctx.datasize == old(self).ctx.datasize,
                literal_bytes(s, self.bits(), (length - k) as nat, output@) == literal_bytes(
                    s,
                    r1,
                    length as nat,
                    out0,
                ),
            decreases length - k,
        {
            let data = self.get_code(8)? as u8;
            proof {
                lemma2_to64();
            }
            output.push(data);
            k = k + 1;
        }
        self.ctx.datasize = self.ctx.datasize - length as i32;
        Ok(())
    }

    #[verifier::loop_isolation(false)]
    fn decode_reference(&mut self, bit_length: u8, length: u16, output: &mut Vec<u8>) -> (r: Result<
        (),
        ReadError,
    >)
        requires
            bit_length <= 12,
            1 <= length <= 256,
            old(self).ctx.datasize > 0,
            old(output)@.len() < 0x8000_0000,
        ensures
            final(self).stream() == old(self).stream(),
            match reference(
                old(self).stream(),
                old(self).state(old(output)@),
                bit_length as nat,
                length as int,
            ) {
                None => r is Err,
                Some(st) => r is Ok && final(self).state(final(output)@) == st,
            },
    {
        let ghost out0 = output@;
        let code = self.get_code(bit_length)?;
        proof {
            lemma2_to64();
            lemma_pow2_strictly_increases(bit_length as nat, 13);
        }
        let base: i64 = output.len() as i64 - code as i64;
        let mut i: u16 = 0;
        while i < length
            invariant
                i <= length <= 256,
                out0.len() < 0x8000_0000,
                base == out0.len() - code,
                output@ == copy_ref(out0, base as int, i as nat),
                output@.len() == out0.len() + i,
            decreases length - i,
        {
            let j: i64 = base + i as i64;
            let data: u8 = if j >= 0 && (j as usize) < output.len() {
                output[j as usize]
            } else {
                0
            };
            output.push(data);
            i = i + 1;
        }
        self.ctx.datasize = self.ctx.datasize - length as i32;
        Ok(())
    }

    #[verifier::loop_isolation(false)]
    fn unpack(&mut self) -> (r: Result<Vec<u8>, ReadError>)
        requires
            old(self).reader.pos == 0,
        ensures
            match unpack_stream(old(self).stream()) {
                None => r is Err,
                Some(v) => r is Ok && r.unwrap()@ == v,
            },
            r is Ok ==> final(self).reader.pos == stream_final(old(self).stream()).unwrap().r.pos,
    {
        let ghost s = self.stream();
        self.ctx.datasize = #[verifier::truncate] (self.reader.read_u32()? as i32);
        self.ctx.crc = self.reader.read_u32()?;
        self.ctx.chk = self.reader.read_u32()?;
        self.ctx.crc = self.ctx.crc ^ self.ctx.chk;
        let ghost init = self.state(Seq::empty());
        assert(init == initial_state(s));
        let mut output: Vec<u8> = Vec::new();
        while self.ctx.datasize > 0
            invariant
                s == old(self).stream(),
                self.stream() == s,
                decode(s, self.state(output@)) == decode(s, init),
                output@.len() + self.ctx.datasize == init.datasize,
                init.datasize <= i32::MAX,
            decreases owed(self.state(output@)),
        {
            let ghost st = self.state(output@);
            proof {
                lemma_token_progress(s, st);
            }
            if self.get_next_bit()? == 0 {
                if self.get_next_bit()? == 0 {
                    self.decode_literal(3, 0, &mut output)?;
                } else {
                    self.decode_reference(8, 2, &mut output)?;
                }
            } else {
                let code = self.get_code(2)?;
                proof {
                    lemma2_to64();
                }
                if code == 3 {
                    self.decode_literal(8, 8, &mut output)?;
                } else if code < 2 {
                    self.decode_reference(code as u8 + 9, code + 3, &mut output)?;
                } else {
                    let length = self.get_code(8)? + 1;
                    proof {
                        lemma_pow2_strictly_increases(8, 9);
                    }
                    self.decode_reference(12, length, &mut output)?;
                }
            }
            assert(self.state(output@) == token(s, st).unwrap());
        }
        let n = output.len();
        let mut reversed: Vec<u8> = Vec::with_capacity(n);
        let mut i: usize = n;
        while i > 0
            invariant
                i <= n == output@.len(),
                reversed@.len() == n - i,
                forall|k: int| 0 <= k < n - i ==> reversed@[k] == output@[n - 1 - k],
            decreases i,
        {
            i = i - 1;
            reversed.push(output[i]);
        }
        assert(reversed@ =~= output@.reverse());
        Ok(reversed)
    }

    fn get_code(&mut self, bit_length: u8) -> (r: Result<u16, ReadError>)
        requires
            bit_length <= 12,
        ensures
            final(self).stream() == old(self).stream(),
            final(self).ctx.datasize == old(self).ctx.datasize,
            match get_code(old(self).stream(), old(self).bits(), bit_length as nat, 0) {
                None => r is Err,
                Some((c, b)) => r == Ok::<u16, ReadError>(c as u16) && final(self).bits() == b
                    && 0 <= c < pow2(bit_length as nat),
            },
    {
        let ghost s = self.stream();
        let ghost b0 = self.bits();
        let mut code: u16 = 0;
        let mut i: u8 = 0;
        proof {
            lemma2_to64();
        }
        while i < bit_length
            invariant
                i <= bit_length <= 12,
                s == old(self).stream(),
                b0 == old(self).bits(),
                self.stream() == s,
                self.ctx.datasize == old(self).ctx.datasize,
                code < pow2(i as nat),
                get_code(s, self.bits(), (bit_length - i) as nat, code as int) == get_code(
                    s,
                    b0,
                    bit_length as nat,
                    0,
                ),
            decreases bit_length - i,
        {
            let bit = self.get_next_bit()?;
            proof {
                lemma2_to64();
                lemma_pow2_unfold((i + 1) as nat);
                lemma_pow2_strictly_increases(i as nat, 12);
            }
            code = code * 2 + bit as u16;
            i = i + 1;
        }
        proof {
            lemma_get_code_bounds(s, b0, bit_length as nat, 0);
        }
        Ok(code)
    }

    fn get_next_bit(&mut self) -> (r: Result<u8, ReadError>)
        ensures
            final(self).stream() == old(self).stream(),
            final(self).ctx.datasize == old(self).ctx.datasize,
            match next_bit(old(self).stream(), old(self).bits()) {
                None => r is Err,
                Some((b, rb)) => r == Ok::<u8, ReadError>(b) && final(self).bits() == rb && b <= 1,
            },
    {
        let mut lsb = self.rcr(false);
        if self.ctx.chk == 0 {
            self.ctx.chk = self.reader.read_u32()?;
            self.ctx.crc = self.ctx.crc ^ self.ctx.chk;
            lsb = self.rcr(true);
        }
        Ok(lsb)
    }

    fn rcr(&mut self, carry: bool) -> (lsb: u8)
        ensures
            lsb == old(self).ctx.chk % 2,
            final(self).ctx.chk == if carry {
                old(self).ctx.chk / 2 + 0x8000_0000
            } else {
                old(self).ctx.chk / 2 + 0
            },
            final(self).ctx.crc == old(self).ctx.crc,
            final(self).ctx.datasize == old(self).ctx.datasize,
            final(self).reader == old(self).reader,
    {
        let lsb: u8 = (self.ctx.chk % 2) as u8;
        self.ctx.chk = self.ctx.chk / 2;
        if carry {
            self.ctx.chk = self.ctx.chk + 0x8000_0000;
        }
        lsb
    }
}

} // verus!
