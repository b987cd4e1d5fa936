//! The GPT-NeoX hyperparameters and the header in which a GGML model file
//! records them: eight signed 32-bit little-endian integers, in this order:
//! `n_vocab`, `n_ctx`, `n_embd`, `n_head`, `n_layer`, `n_rot`, the parallel
//! residual flag (0 or 1) and the file type code.
use crate::file_type::{file_type_code, file_type_from_code, FileType};
use crate::wire::{
    i32_from_le, i32_to_le, lemma_i32_le_roundtrip, lemma_le_i32_roundtrip, read_i32_le,
    write_i32_le,
};
use vstd::prelude::*;

verus! {

/// The number of bytes that the header takes.
pub const HEADER_BYTES: usize = 32;

/// GPT-NeoX hyperparameters.
#[derive(Debug, Clone, Copy, PartialEq, Eq, Structural)]
pub struct Hyperparameters {
    /// Size of the model's vocabulary
    pub n_vocab: usize,
    /// Size of the model's context
    pub n_ctx: usize,
    /// Size of the model's embedding layer
    pub n_embd: usize,
    /// Number of attention heads
    pub n_head: usize,
    /// Number of layers in the model
    pub n_layer: usize,
    /// Number of dimensions that rotary position encoding applies to
    pub n_rot: usize,
    /// Whether each transformer layer uses the "parallel" residual
    /// formulation. This is on for most models, but off for some, such as
    /// RedPajama.
    pub use_parallel_residual: bool,
    /// How the model's tensors are stored
    pub file_type: FileType,
}

/// Why a header could not be read.
#[derive(Debug, Clone, Copy, PartialEq, Eq, Structural)]
pub enum HyperparametersReadError {
    /// The input ended before the field that was being read.
    UnexpectedEof,
    /// A count field held this negative value.
    InvalidIntegerConversion(i32),
    /// The parallel residual flag held this value, neither 0 nor 1.
    InvalidBool(i32),
    /// The file type field held this code, which names no file type.
    UnsupportedFileType(i32),
}

/// Why a header could not be written.
#[derive(Debug, Clone, Copy, PartialEq, Eq, Structural)]
pub enum HyperparametersWriteError {
    /// A count does not fit in a signed 32-bit integer.
    InvalidIntegerConversion,
}

/// The value of field `k` of the header in `b`.
pub open spec fn field(b: Seq<u8>, k: int) -> int {
    i32_from_le(b.subrange(4 * k, 4 * k + 4))
}

/// The flag stored for a boolean.
pub open spec fn flag_value(x: bool) -> int {
    if x {
        1
    } else {
        0
    }
}

/// What is wrong with field `k` of the header in `b`, if anything.
pub open spec fn field_error(b: Seq<u8>, k: int) -> Option<HyperparametersReadError> {
    if b.len() < 4 * k + 4 {
        Some(HyperparametersReadError::UnexpectedEof)
    } else if k < 6 {
        if field(b, k) < 0 {
            Some(HyperparametersReadError::InvalidIntegerConversion(field(b, k) as i32))
        } else {
            None
        }
    } else if k == 6 {
        if field(b, k) == 0 || field(b, k) == 1 {
            None
        } else {
            Some(HyperparametersReadError::InvalidBool(field(b, k) as i32))
        }
    } else if file_type_from_code(field(b, k) as i32) is Some {
        None
    } else {
        Some(HyperparametersReadError::UnsupportedFileType(field(b, k) as i32))
    }
}

/// The first error among fields `k..8` of the header in `b`.
pub open spec fn first_error(b: Seq<u8>, k: nat) -> Option<HyperparametersReadError>
    decreases 8 - k,
{
    if k >= 8 {
        None
    } else {
        match field_error(b, k as int) {
            Some(e) => Some(e),
            None => first_error(b, k + 1),
        }
    }
}

/// The hyperparameters that the fields of `b` hold, read without checks.
pub open spec fn header_contents(b: Seq<u8>) -> Hyperparameters {
    Hyperparameters {
        n_vocab: field(b, 0) as usize,
        n_ctx: field(b, 1) as usize,
        n_embd: field(b, 2) as usize,
        n_head: field(b, 3) as usize,
        n_layer: field(b, 4) as usize,
        n_rot: field(b, 5) as usize,
        use_parallel_residual: field(b, 6) == 1,
        file_type: file_type_from_code(field(b, 7) as i32).unwrap(),
    }
}

/// The result of reading a header from the start of `b`: the first field
/// that is missing or out of range decides the error.
pub open spec fn read_header(b: Seq<u8>) -> Result<Hyperparameters, HyperparametersReadError> {
    match first_error(b, 0) {
        Some(e) => Err(e),
        None => Ok(header_contents(b)),
    }
}

/// The eight values that the header of `h` holds, in order.
pub open spec fn header_values(h: Hyperparameters) -> Seq<int> {
    seq![
        h.n_vocab as int,
        h.n_ctx as int,
        h.n_embd as int,
        h.n_head as int,
        h.n_layer as int,
        h.n_rot as int,
        flag_value(h.use_parallel_residual),
        file_type_code(h.file_type) as int,
    ]
}

/// The little-endian bytes of the signed 32-bit integers `vs`, one after the other.
pub open spec fn le_i32s(vs: Seq<int>) -> Seq<u8>
    decreases vs.len(),
{
    if vs.len() == 0 {
        Seq::empty()
    } else {
        le_i32s(vs.drop_last()) + i32_to_le(vs.last())
    }
}

/// Whether every count of `h` fits in a signed 32-bit integer.
pub open spec fn header_fits(h: Hyperparameters) -> bool {
    forall|k: int| 0 <= k < 6 ==> #[trigger] header_values(h)[k] <= i32::MAX
}

/// The header that records `h`.
pub open spec fn header_bytes(h: Hyperparameters) -> Seq<u8> {
    le_i32s(header_values(h))
}

impl Default for Hyperparameters {
    fn default() -> (h: Hyperparameters)
        ensures
            h == (Hyperparameters {
                n_vocab: 0,
                n_ctx: 0,
                n_embd: 0,
                n_head: 0,
                n_layer: 0,
                n_rot: 0,
                use_parallel_residual: true,
                file_type: FileType::MostlyF16,
            }),
    {
        Hyperparameters {
            n_vocab: 0,
            n_ctx: 0,
            n_embd: 0,
            n_head: 0,
            n_layer: 0,
            n_rot: 0,
            use_parallel_residual: true,
            file_type: FileType::default(),
        }
    }
}

/// Reads field `k`, failing only where the input ends before it.
fn read_field(bytes: &[u8], k: usize) -> (r: Result<i32, HyperparametersReadError>)
    requires
        k < 8,
    ensures
        match r {
            Ok(v) => bytes@.len() >= 4 * k + 4 && v == field(bytes@, k as int),
            Err(e) => bytes@.len() < 4 * k + 4 && e == HyperparametersReadError::UnexpectedEof,
        },
{
    if bytes.len() < 4 * k + 4 {
        Err(HyperparametersReadError::UnexpectedEof)
    } else {
        Ok(read_i32_le(bytes, 4 * k))
    }
}

/// Reads count field `k`.
fn read_count(bytes: &[u8], k: usize) -> (r: Result<usize, HyperparametersReadError>)
    requires
        k < 6,
    ensures
        r == match field_error(bytes@, k as int) {
            Some(e) => Err(e),
            None => Ok(field(bytes@, k as int) as usize),
        },
{
    let v = read_field(bytes, k)?;
    if v < 0 {
        Err(HyperparametersReadError::InvalidIntegerConversion(v))
    } else {
        Ok(v as usize)
    }
}

/// Reads the parallel residual flag.
fn read_flag(bytes: &[u8]) -> (r: Result<bool, HyperparametersReadError>)
    ensures
        r == match field_error(bytes@, 6) {
            Some(e) => Err(e),
            None => Ok(field(bytes@, 6) == 1),
        },
{
    let v = read_field(bytes, 6)?;
    if v == 0 {
        Ok(false)
    } else if v == 1 {
        Ok(true)
    } else {
        Err(HyperparametersReadError::InvalidBool(v))
    }
}

/// Reads the file type field.
fn read_file_type(bytes: &[u8]) -> (r: Result<FileType, HyperparametersReadError>)
    ensures
        r == match field_error(bytes@, 7) {
            Some(e) => Err(e),
            None => Ok(file_type_from_code(field(bytes@, 7) as i32).unwrap()),
        },
{
    let v = read_field(bytes, 7)?;
    match FileType::from_code(v) {
        Some(ft) => Ok(ft),
        None => Err(HyperparametersReadError::UnsupportedFileType(v)),
    }
}

impl Hyperparameters {
    /// Reads the hyperparameters from the header at the start of `bytes`.
    /// The fields are read in order, and the first that is missing, negative
    /// where a count is due, neither 0 nor 1 for the flag, or no known file
    /// type code, decides the error.
    pub fn read_ggml(bytes: &[u8]) -> (r: Result<Hyperparameters, HyperparametersReadError>)
        ensures
            r == read_header(bytes@),
    {
        proof {
            reveal_with_fuel(first_error, 9);
        }
        let n_vocab = read_count(bytes, 0)?;
        let n_ctx = read_count(bytes, 1)?;
        let n_embd = read_count(bytes, 2)?;
        let n_head = read_count(bytes, 3)?;
        let n_layer = read_count(bytes, 4)?;
        let n_rot = read_count(bytes, 5)?;
        let use_parallel_residual = read_flag(bytes)?;
        let file_type = read_file_type(bytes)?;
        Ok(Hyperparameters {
            n_vocab,
            n_ctx,
            n_embd,
            n_head,
            n_layer,
            n_rot,
            use_parallel_residual,
            file_type,
        })
    }

    /// Appends the header that records these hyperparameters to `out`. The
    /// fields are written in order; where a count does not fit in a signed
    /// 32-bit integer, the fields before it stay written and the call fails.
    pub fn write_ggml(&self, out: &mut Vec<u8>) -> (r: Result<(), HyperparametersWriteError>)
        ensures
            r is Ok <==> header_fits(*self),
            header_fits(*self) ==> final(out)@ == old(out)@ + header_bytes(*self),
            !header_fits(*self) ==> exists|k: int|
                #![trigger header_values(*self).take(k)]
                {
                    &&& 0 <= k < 6
                    &&& header_values(*self)[k] > i32::MAX
                    &&& forall|j: int| 0 <= j < k ==> #[trigger] header_values(*self)[j] <= i32::MAX
                    &&& final(out)@ == old(out)@ + le_i32s(header_values(*self).take(k))
                },
    {
        let ghost start = out@;
        let ghost vals = header_values(*self);
        let counts: Vec<usize> = vec![
            self.n_vocab,
            self.n_ctx,
            self.n_embd,
            self.n_head,
            self.n_layer,
            self.n_rot,
        ];
        let mut i: usize = 0;
        let mut oversized = false;
        while i < 6
            invariant
                i <= 6,
                counts@.len() == 6,
                vals == header_values(*self),
                forall|j: int| 0 <= j < 6 ==> counts@[j] as int == #[trigger] vals[j],
                forall|j: int| 0 <= j < i ==> #[trigger] vals[j] <= i32::MAX,
                oversized ==> i < 6 && vals[i as int] > i32::MAX,
                out@ == start + le_i32s(vals.take(i as int)),
            ensures
                !oversized ==> i == 6,
            decreases 6 - i,
        {
            let c = counts[i];
            if c > 0x7fff_ffff {
                oversized = true;
                break;
            }
            write_i32_le(out, c as i32);
            assert(vals.take(i + 1).drop_last() =~= vals.take(i as int));
            i += 1;
        }
        if oversized {
            assert(out@ == start + le_i32s(header_values(*self).take(i as int)));
            return Err(HyperparametersWriteError::InvalidIntegerConversion);
        }
        let flag: i32 = if self.use_parallel_residual {
            1
        } else {
            0
        };
        write_i32_le(out, flag);
        assert(vals.take(7).drop_last() =~= vals.take(6));
        assert(le_i32s(vals.take(7)) == le_i32s(vals.take(6)) + i32_to_le(vals[6]));
        assert(out@ =~= start + le_i32s(vals.take(7)));
        let code = self.file_type.code();
        write_i32_le(out, code);
        assert(vals.take(8).drop_last() =~= vals.take(7));
        assert(le_i32s(vals.take(8)) == le_i32s(vals.take(7)) + i32_to_le(vals[7]));
        assert(vals.take(8) =~= vals);
        assert(out@ =~= start + header_bytes(*self));
        Ok(())
    }

    /// The size of the vocabulary.
    pub fn n_vocabulary(&self) -> (n: usize)
        ensures
            n == self.n_vocab,
    {
        self.n_vocab
    }

    /// How the model's tensors are stored; always known for GPT-NeoX.
    pub fn file_type(&self) -> (ft: Option<FileType>)
        ensures
            ft == Some(self.file_type),
    {
        Some(self.file_type)
    }

    /// Gives access to the file type, for callers that change how the
    /// model's tensors are stored.
    pub fn file_type_mut(&mut self) -> (ft: Option<&mut FileType>)
        ensures
            ft matches Some(f) && *f == old(self).file_type && *final(self) == (Hyperparameters {
                file_type: *final(f),
                ..*old(self)
            }),
    {
        Some(&mut self.file_type)
    }
}

/// The bytes `le_i32s(vs)` are four for each value, and chunk `k` holds value `k`.
pub proof fn lemma_le_i32s_chunks(vs: Seq<int>)
    ensures
        le_i32s(vs).len() == 4 * vs.len(),
        forall|k: int|
            0 <= k < vs.len() ==> #[trigger] le_i32s(vs).subrange(4 * k, 4 * k + 4) == i32_to_le(
                vs[k],
            ),
    decreases vs.len(),
{
    if vs.len() > 0 {
        let init = vs.drop_last();
        lemma_le_i32s_chunks(init);
        let whole = le_i32s(vs);
        let n = vs.len() - 1;
        assert forall|k: int| 0 <= k < vs.len() implies #[trigger] whole.subrange(4 * k, 4 * k + 4)
            == i32_to_le(vs[k]) by {
            if k < n {
                assert(init[k] == vs[k]);
                assert(whole.subrange(4 * k, 4 * k + 4) =~= le_i32s(init).subrange(4 * k, 4 * k + 4));
            } else {
                assert(whole.subrange(4 * k, 4 * k + 4) =~= i32_to_le(vs[k]));
            }
        }
    }
}

/// The header that records `h` is 32 bytes long, and field `k` of it holds
/// value `k` of `h`.
proof fn lemma_header_fields(h: Hyperparameters, rest: Seq<u8>)
    requires
        header_fits(h),
    ensures
        header_bytes(h).len() == 32,
        forall|k: int| 0 <= k < 8 ==> field(header_bytes(h) + rest, k) == #[trigger] header_values(h)[k],
{
    let vals = header_values(h);
    let b = header_bytes(h) + rest;
    lemma_le_i32s_chunks(vals);
    assert forall|k: int| 0 <= k < 8 implies field(b, k) == #[trigger] vals[k] by {
        assert(b.subrange(4 * k, 4 * k + 4) =~= header_bytes(h).subrange(4 * k, 4 * k + 4));
        assert(k < 6 ==> vals[k] <= i32::MAX);
        lemma_i32_le_roundtrip(vals[k]);
    }
}

/// The header that records `h` holds, field by field, the six counts, 1 or 0
/// for the parallel residual flag, and the code of the file type, each as
/// the four little-endian bytes of a signed 32-bit integer.
pub proof fn lemma_header_layout(h: Hyperparameters)
    requires
        header_fits(h),
    ensures
        header_bytes(h).len() == 32,
        header_bytes(h).subrange(0, 4) == i32_to_le(h.n_vocab as int),
        header_bytes(h).subrange(4, 8) == i32_to_le(h.n_ctx as int),
        header_bytes(h).subrange(8, 12) == i32_to_le(h.n_embd as int),
        header_bytes(h).subrange(12, 16) == i32_to_le(h.n_head as int),
        header_bytes(h).subrange(16, 20) == i32_to_le(h.n_layer as int),
        header_bytes(h).subrange(20, 24) == i32_to_le(h.n_rot as int),
        header_bytes(h).subrange(24, 28) == i32_to_le(if h.use_parallel_residual { 1int } else { 0int }),
        header_bytes(h).subrange(28, 32) == i32_to_le(file_type_code(h.file_type) as int),
{
    let vals = header_values(h);
    lemma_le_i32s_chunks(vals);
    assert(header_bytes(h).subrange(4 * 0int, 4 * 0int + 4) == i32_to_le(vals[0]));
    assert(header_bytes(h).subrange(4 * 1int, 4 * 1int + 4) == i32_to_le(vals[1]));
    assert(header_bytes(h).subrange(4 * 2int, 4 * 2int + 4) == i32_to_le(vals[2]));
    assert(header_bytes(h).subrange(4 * 3int, 4 * 3int + 4) == i32_to_le(vals[3]));
    assert(header_bytes(h).subrange(4 * 4int, 4 * 4int + 4) == i32_to_le(vals[4]));
    assert(header_bytes(h).subrange(4 * 5int, 4 * 5int + 4) == i32_to_le(vals[5]));
    assert(header_bytes(h).subrange(4 * 6int, 4 * 6int + 4) == i32_to_le(vals[6]));
    assert(header_bytes(h).subrange(4 * 7int, 4 * 7int + 4) == i32_to_le(vals[7]));
}

/// A header that reads successfully gives, field by field, the six counts
/// stored as signed little-endian integers in its first 24 bytes, the flag
/// stored as 1 in the next four, and the file type whose code the last four
/// hold.
pub proof fn lemma_read_fields(b: Seq<u8>)
    requires
        read_header(b) is Ok,
    ensures
        b.len() >= 32,
        ({
            let h = read_header(b)->Ok_0;
            &&& h.n_vocab == i32_from_le(b.subrange(0, 4))
            &&& h.n_ctx == i32_from_le(b.subrange(4, 8))
            &&& h.n_embd == i32_from_le(b.subrange(8, 12))
            &&& h.n_head == i32_from_le(b.subrange(12, 16))
            &&& h.n_layer == i32_from_le(b.subrange(16, 20))
            &&& h.n_rot == i32_from_le(b.subrange(20, 24))
            &&& h.use_parallel_residual == (i32_from_le(b.subrange(24, 28)) == 1)
            &&& file_type_code(h.file_type) == i32_from_le(b.subrange(28, 32))
            &&& file_type_from_code(i32_from_le(b.subrange(28, 32)) as i32) == Some(h.file_type)
        }),
{
    reveal_with_fuel(first_error, 9);
    assert(field_error(b, 0) is None);
    assert(field_error(b, 1) is None);
    assert(field_error(b, 2) is None);
    assert(field_error(b, 3) is None);
    assert(field_error(b, 4) is None);
    assert(field_error(b, 5) is None);
    assert(field_error(b, 6) is None);
    assert(field_error(b, 7) is None);
    lemma_le_i32_roundtrip(b.subrange(28, 32));
    assert(field(b, 7) == i32_from_le(b.subrange(28, 32)));
}

/// Reading a header gives back the hyperparameters that were written, whatever
/// follows the header.
pub proof fn lemma_read_after_write(h: Hyperparameters, rest: Seq<u8>)
    requires
        header_fits(h),
    ensures
        read_header(header_bytes(h) + rest) == Ok::<Hyperparameters, HyperparametersReadError>(h),
{
    let b = header_bytes(h) + rest;
    let vals = header_values(h);
    lemma_header_fields(h, rest);
    assert(field(b, 0) == vals[0]);
    assert(field(b, 1) == vals[1]);
    assert(field(b, 2) == vals[2]);
    assert(field(b, 3) == vals[3]);
    assert(field(b, 4) == vals[4]);
    assert(field(b, 5) == vals[5]);
    assert(field(b, 6) == vals[6]);
    assert(field(b, 7) == vals[7]);
    reveal_with_fuel(first_error, 9);
    assert(first_error(b, 0) is None);
    assert(header_contents(b) == h);
}

/// A header that reads successfully is exactly the header that records what
/// was read: writing the result back reproduces the first 32 bytes.
pub proof fn lemma_write_after_read(b: Seq<u8>)
    requires
        read_header(b) is Ok,
    ensures
        b.len() >= 32,
        header_fits(read_header(b)->Ok_0),
        header_bytes(read_header(b)->Ok_0) == b.take(32),
{
    reveal_with_fuel(first_error, 9);
    let h = read_header(b)->Ok_0;
    assert(field_error(b, 0) is None);
    assert(field_error(b, 1) is None);
    assert(field_error(b, 2) is None);
    assert(field_error(b, 3) is None);
    assert(field_error(b, 4) is None);
    assert(field_error(b, 5) is None);
    assert(field_error(b, 6) is None);
    assert(field_error(b, 7) is None);
    let vals = header_values(h);
    assert forall|k: int| 0 <= k < 8 implies #[trigger] vals[k] == field(b, k)
        && i32_to_le(vals[k]) == b.subrange(4 * k, 4 * k + 4) by {
        lemma_le_i32_roundtrip(b.subrange(4 * k, 4 * k + 4));
    }
    lemma_le_i32s_chunks(vals);
    let enc = header_bytes(h);
    assert forall|i: int| 0 <= i < 32 implies #[trigger] enc[i] == b[i] by {
        let k = i / 4;
        assert(0 <= k < 8);
        assert(enc.subrange(4 * k, 4 * k + 4)[i - 4 * k] == enc[i]);
        assert(b.subrange(4 * k, 4 * k + 4)[i - 4 * k] == b[i]);
    }
    assert(enc =~= b.take(32));
}

} // verus!
