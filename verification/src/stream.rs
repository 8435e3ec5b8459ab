//! The sequential byte stream persisted state travels through, and the
//! flat state layout: one 64-bit value per parameter, in declaration
//! order, then any fixed-width flags.  Ordering is the contract: there is
//! no self-describing schema.

use vstd::bytes::{
    lemma_auto_spec_u64_to_from_le_bytes, spec_u64_from_le_bytes, spec_u64_to_le_bytes,
    u64_from_le_bytes, u64_to_le_bytes,
};
use vstd::prelude::*;

use crate::parameters::{BaseParameter, NormalizedValue, ParameterContainer};
use crate::unknown::{ResultErr, ResultOk};

verus! {

pub const SEEK_SET_CODE: i32 = 0;

pub const SEEK_CURRENT_CODE: i32 = 1;

pub const SEEK_END_CODE: i32 = 2;

/// Where a seek counts from.
#[derive(Clone, Copy, Debug, PartialEq, Eq, Structural)]
pub enum SeekMode {
    SeekSet,
    SeekCurrent,
    SeekEnd,
}

impl SeekMode {
    pub open spec fn code_spec(self) -> i32 {
        match self {
            SeekMode::SeekSet => SEEK_SET_CODE,
            SeekMode::SeekCurrent => SEEK_CURRENT_CODE,
            SeekMode::SeekEnd => SEEK_END_CODE,
        }
    }

    /// The foreign integer code of this seek origin.
    pub fn to_code(self) -> (c: i32)
        ensures
            c == self.code_spec(),
    {
        match self {
            SeekMode::SeekSet => SEEK_SET_CODE,
            SeekMode::SeekCurrent => SEEK_CURRENT_CODE,
            SeekMode::SeekEnd => SEEK_END_CODE,
        }
    }
}

/// A sequential byte stream with a read/write cursor: the safe model of
/// the host-supplied stream handle.  Reads and writes move the cursor;
/// reading past the end fails with a documented error instead of handing
/// back made-up bytes.
pub struct ByteStream {
    pub bytes: Vec<u8>,
    pub pos: usize,
}

impl ByteStream {
    /// The cursor never passes the end of the bytes.
    pub open spec fn wf(self) -> bool {
        self.pos <= self.bytes@.len()
    }

    /// An empty stream with the cursor at its start.
    pub fn new() -> (r: Self)
        ensures
            r.bytes@.len() == 0,
            r.pos == 0,
            r.wf(),
    {
        ByteStream { bytes: Vec::new(), pos: 0 }
    }

    /// A stream over the given bytes with the cursor at their start.
    pub fn from_bytes(bytes: Vec<u8>) -> (r: Self)
        ensures
            r.bytes == bytes,
            r.pos == 0,
            r.wf(),
    {
        ByteStream { bytes, pos: 0 }
    }

    /// Moves the cursor back to the start.
    pub fn rewind(&mut self)
        ensures
            final(self).bytes == old(self).bytes,
            final(self).pos == 0,
            final(self).wf(),
    {
        self.pos = 0;
    }

    /// Appends one 64-bit value, little-endian, at the end of the stream
    /// and moves the cursor past it.
    pub fn write_u64(&mut self, v: u64) -> (r: Result<ResultOk, ResultErr>)
        requires
            old(self).wf(),
            old(self).pos == old(self).bytes@.len(),
            old(self).bytes@.len() + 8 <= usize::MAX,
        ensures
            r == Ok::<ResultOk, ResultErr>(ResultOk::ResOk),
            final(self).bytes@ == old(self).bytes@ + spec_u64_to_le_bytes(v),
            final(self).pos == old(self).pos + 8,
            final(self).wf(),
    {
        proof {
            lemma_auto_spec_u64_to_from_le_bytes();
        }
        let le = u64_to_le_bytes(v);
        let mut k: usize = 0;
        while k < 8
            invariant
                le@ == spec_u64_to_le_bytes(v),
                le@.len() == 8,
                k <= 8,
                self.bytes@ == old(self).bytes@ + le@.subrange(0, k as int),
                old(self).bytes@.len() + 8 <= usize::MAX,
            decreases 8 - k,
        {
            self.bytes.push(le[k]);
            k = k + 1;
            proof {
                assert(self.bytes@ =~= old(self).bytes@ + le@.subrange(0, k as int));
            }
        }
        proof {
            assert(le@.subrange(0, 8) =~= le@);
        }
        self.pos = self.bytes.len();
        Ok(ResultOk::ResOk)
    }

    /// Reads one 64-bit value, little-endian, at the cursor; fewer than
    /// eight bytes left fails with the false outcome and moves nothing.
    pub fn read_u64(&mut self) -> (r: Result<u64, ResultErr>)
        requires
            old(self).wf(),
        ensures
            final(self).bytes == old(self).bytes,
            final(self).wf(),
            old(self).pos + 8 <= old(self).bytes@.len() ==> {
                &&& r == Ok::<u64, ResultErr>(
                    spec_u64_from_le_bytes(
                        old(self).bytes@.subrange(
                            old(self).pos as int,
                            old(self).pos as int + 8,
                        ),
                    ),
                )
                &&& final(self).pos == old(self).pos + 8
            },
            old(self).pos + 8 > old(self).bytes@.len() ==> r == Err::<u64, ResultErr>(
                ResultErr::ResultFalse,
            ) && final(self).pos == old(self).pos,
    {
        let total: usize = self.bytes.len();
        if total - self.pos < 8 {
            return Err(ResultErr::ResultFalse);
        }
        let mut chunk: Vec<u8> = Vec::new();
        let mut k: usize = 0;
        while k < 8
            invariant
                self.bytes@.len() == total,
                self.pos + 8 <= total,
                k <= 8,
                chunk@ == self.bytes@.subrange(self.pos as int, self.pos as int + k as int),
            decreases 8 - k,
        {
            chunk.push(self.bytes[self.pos + k]);
            k = k + 1;
            proof {
                assert(chunk@ =~= self.bytes@.subrange(
                    self.pos as int,
                    self.pos as int + k as int,
                ));
            }
        }
        let v = u64_from_le_bytes(chunk.as_slice());
        self.pos = self.pos + 8;
        Ok(v)
    }

    /// Appends one flag byte at the end of the stream: one for set, zero
    /// for clear.
    pub fn write_bool(&mut self, b: bool) -> (r: Result<ResultOk, ResultErr>)
        requires
            old(self).wf(),
            old(self).pos == old(self).bytes@.len(),
            old(self).bytes@.len() + 1 <= usize::MAX,
        ensures
            r == Ok::<ResultOk, ResultErr>(ResultOk::ResOk),
            final(self).bytes@ == old(self).bytes@.push(if b { 1u8 } else { 0u8 }),
            final(self).pos == old(self).pos + 1,
            final(self).wf(),
    {
        self.bytes.push(if b { 1u8 } else { 0u8 });
        self.pos = self.bytes.len();
        Ok(ResultOk::ResOk)
    }

    /// Reads one flag byte at the cursor; any nonzero byte reads as set.
    /// An exhausted stream fails with the false outcome and moves nothing.
    pub fn read_bool(&mut self) -> (r: Result<bool, ResultErr>)
        requires
            old(self).wf(),
        ensures
            final(self).bytes == old(self).bytes,
            final(self).wf(),
            old(self).pos < old(self).bytes@.len() ==> r == Ok::<bool, ResultErr>(
                old(self).bytes@[old(self).pos as int] != 0,
            ) && final(self).pos == old(self).pos + 1,
            old(self).pos >= old(self).bytes@.len() ==> r == Err::<bool, ResultErr>(
                ResultErr::ResultFalse,
            ) && final(self).pos == old(self).pos,
    {
        if self.pos >= self.bytes.len() {
            return Err(ResultErr::ResultFalse);
        }
        let b = self.bytes[self.pos];
        self.pos = self.pos + 1;
        Ok(b != 0)
    }

    /// Moves the cursor by `amount` bytes from the chosen origin; a
    /// target outside the stream is rejected with the invalid-argument
    /// error and moves nothing.
    pub fn seek_by(&mut self, amount: usize, mode: SeekMode) -> (r: Result<ResultOk, ResultErr>)
        requires
            old(self).wf(),
        ensures
            final(self).bytes == old(self).bytes,
            final(self).wf(),
            ({
                let target: int = match mode {
                    SeekMode::SeekSet => amount as int,
                    SeekMode::SeekCurrent => old(self).pos + amount,
                    SeekMode::SeekEnd => old(self).bytes@.len() - amount,
                };
                if 0 <= target <= old(self).bytes@.len() {
                    r == Ok::<ResultOk, ResultErr>(ResultOk::ResOk) && final(self).pos == target
                } else {
                    r == Err::<ResultOk, ResultErr>(ResultErr::InvalidArgument) && final(self).pos
                        == old(self).pos
                }
            }),
    {
        match mode {
            SeekMode::SeekSet => {
                if amount <= self.bytes.len() {
                    self.pos = amount;
                    Ok(ResultOk::ResOk)
                } else {
                    Err(ResultErr::InvalidArgument)
                }
            },
            SeekMode::SeekCurrent => {
                if self.bytes.len() - self.pos >= amount {
                    self.pos = self.pos + amount;
                    Ok(ResultOk::ResOk)
                } else {
                    Err(ResultErr::InvalidArgument)
                }
            },
            SeekMode::SeekEnd => {
                if amount <= self.bytes.len() {
                    self.pos = self.bytes.len() - amount;
                    Ok(ResultOk::ResOk)
                } else {
                    Err(ResultErr::InvalidArgument)
                }
            },
        }
    }
}

/// The flat encoding of a sequence of 64-bit values: each one
/// little-endian, in order.
pub open spec fn encode_values(vs: Seq<u64>) -> Seq<u8> {
    Seq::new(8 * vs.len(), |j: int| spec_u64_to_le_bytes(vs[j / 8])[j % 8])
}

/// The values a flat encoding holds, read back in order.
pub open spec fn decode_values(bs: Seq<u8>, n: nat) -> Seq<u64> {
    Seq::new(n, |i: int| spec_u64_from_le_bytes(bs.subrange(8 * i, 8 * i + 8)))
}

/// The encoding of one more value extends the bytes by that value's eight.
pub proof fn lemma_encode_push(vs: Seq<u64>, v: u64)
    ensures
        encode_values(vs.push(v)) == encode_values(vs) + spec_u64_to_le_bytes(v),
{
    lemma_auto_spec_u64_to_from_le_bytes();
    assert forall|j: int| 0 <= j < 8 * (vs.len() + 1) implies encode_values(vs.push(v))[j] == (
    encode_values(vs) + spec_u64_to_le_bytes(v))[j] by {
        if j < 8 * vs.len() {
            assert(0 <= j / 8 < vs.len()) by (nonlinear_arith)
                requires
                    0 <= j < 8 * vs.len(),
            ;
            assert(vs.push(v)[j / 8] == vs[j / 8]);
        } else {
            assert(j / 8 == vs.len() && j % 8 == j - 8 * vs.len()) by (nonlinear_arith)
                requires
                    8 * vs.len() <= j < 8 * (vs.len() + 1),
            ;
        }
    }
    assert(encode_values(vs.push(v)) =~= encode_values(vs) + spec_u64_to_le_bytes(v));
}

/// One value's eight bytes sit at its slot of the encoding.
pub proof fn lemma_encode_index(vs: Seq<u64>, i: int)
    requires
        0 <= i < vs.len(),
    ensures
        encode_values(vs).subrange(8 * i, 8 * i + 8) == spec_u64_to_le_bytes(vs[i]),
{
    lemma_auto_spec_u64_to_from_le_bytes();
    assert forall|j: int| 0 <= j < 8 implies encode_values(vs).subrange(8 * i, 8 * i + 8)[j]
        == spec_u64_to_le_bytes(vs[i])[j] by {
        assert((8 * i + j) / 8 == i && (8 * i + j) % 8 == j) by (nonlinear_arith)
            requires
                0 <= j < 8,
        ;
    }
    assert(encode_values(vs).subrange(8 * i, 8 * i + 8) =~= spec_u64_to_le_bytes(vs[i]));
}

/// Law: writing a sequence of 64-bit values in order and reading the same
/// count back in order reproduces the values exactly, bit for bit.
pub proof fn lemma_values_round_trip(vs: Seq<u64>)
    ensures
        decode_values(encode_values(vs), vs.len()) == vs,
{
    lemma_auto_spec_u64_to_from_le_bytes();
    assert forall|i: int| 0 <= i < vs.len() implies decode_values(encode_values(vs), vs.len())[i]
        == vs[i] by {
        lemma_encode_index(vs, i);
    }
    assert(decode_values(encode_values(vs), vs.len()) =~= vs);
}

/// The current normalized values of a parameter list, as raw bits, in
/// declaration order.
pub open spec fn param_values(s: Seq<BaseParameter>) -> Seq<u64> {
    s.map_values(|p: BaseParameter| p.value_normalized.bits)
}

/// Writes every parameter's current normalized value to the stream, in
/// declaration order: the persisted component state.
pub fn write_parameter_state(params: &ParameterContainer, stream: &mut ByteStream) -> (r: Result<
    ResultOk,
    ResultErr,
>)
    requires
        old(stream).wf(),
        old(stream).pos == old(stream).bytes@.len(),
        old(stream).bytes@.len() + 8 * params.params@.len() <= usize::MAX,
    ensures
        r == Ok::<ResultOk, ResultErr>(ResultOk::ResOk),
        final(stream).bytes@ == old(stream).bytes@ + encode_values(param_values(params.params@)),
        final(stream).pos == final(stream).bytes@.len(),
        final(stream).wf(),
{
    let n = params.get_parameter_count();
    let mut k: usize = 0;
    while k < n
        invariant
            n == params.params@.len(),
            k <= n,
            stream.wf(),
            stream.pos == stream.bytes@.len(),
            old(stream).bytes@.len() + 8 * n <= usize::MAX,
            stream.bytes@ == old(stream).bytes@ + encode_values(
                param_values(params.params@.take(k as int)),
            ),
        decreases n - k,
    {
        let p = match params.get_parameter_by_index(k) {
            Some(p) => p,
            None => {
                proof {
                    assert(false);
                }
                return Err(ResultErr::InternalError);
            },
        };
        let v = p.get_normalized();
        let _ = stream.write_u64(v.bits);
        k = k + 1;
        proof {
            lemma_auto_spec_u64_to_from_le_bytes();
            lemma_encode_push(param_values(params.params@.take(k as int - 1)), v.bits);
            assert(param_values(params.params@.take(k as int)) =~= param_values(
                params.params@.take(k as int - 1),
            ).push(v.bits));
        }
    }
    proof {
        assert(params.params@.take(n as int) =~= params.params@);
    }
    Ok(ResultOk::ResOk)
}

/// Reads one normalized value per parameter from the stream, in
/// declaration order, and stores each into its parameter: the inverse of
/// `write_parameter_state` over the same declaration order.  A stream too
/// short for the declared count fails with the false outcome.
pub fn read_parameter_state(params: &mut ParameterContainer, stream: &mut ByteStream) -> (r:
    Result<ResultOk, ResultErr>)
    requires
        old(stream).wf(),
    ensures
        final(stream).bytes == old(stream).bytes,
        final(stream).wf(),
        final(params).params@.len() == old(params).params@.len(),
        old(stream).pos + 8 * old(params).params@.len() <= old(stream).bytes@.len() ==> {
            &&& r == Ok::<ResultOk, ResultErr>(ResultOk::ResOk)
            &&& param_values(final(params).params@) == decode_values(
                old(stream).bytes@.skip(old(stream).pos as int),
                old(params).params@.len(),
            )
            &&& forall|i: int|
                0 <= i < old(params).params@.len() ==> #[trigger] final(params).params@[i].info
                    == old(params).params@[i].info && final(params).params@[i].precision == old(
                    params,
                ).params@[i].precision
            &&& final(stream).pos == old(stream).pos + 8 * old(params).params@.len()
        },
        old(stream).pos + 8 * old(params).params@.len() > old(stream).bytes@.len() ==> r == Err::<
            ResultOk,
            ResultErr,
        >(ResultErr::ResultFalse) && *final(params) == *old(params) && final(stream).pos == old(
            stream,
        ).pos,
{
    let n = params.get_parameter_count();
    if (stream.bytes.len() - stream.pos) / 8 < n {
        return Err(ResultErr::ResultFalse);
    }
    let ghost bs = old(stream).bytes@.skip(old(stream).pos as int);
    let mut k: usize = 0;
    while k < n
        invariant
            n == params.params@.len(),
            old(params).params@.len() == n,
            k <= n,
            stream.wf(),
            stream.bytes == old(stream).bytes,
            bs == old(stream).bytes@.skip(old(stream).pos as int),
            old(stream).pos + 8 * n <= old(stream).bytes@.len(),
            stream.pos == old(stream).pos + 8 * k,
            param_values(params.params@.take(k as int)) == decode_values(bs, k as nat),
            forall|i: int| k <= i < n ==> #[trigger] params.params@[i] == old(params).params@[i],
            forall|i: int|
                0 <= i < n ==> #[trigger] params.params@[i].info == old(params).params@[i].info
                    && params.params@[i].precision == old(params).params@[i].precision,
        decreases n - k,
    {
        let v = match stream.read_u64() {
            Ok(v) => v,
            Err(_) => {
                proof {
                    assert(false);
                }
                return Err(ResultErr::InternalError);
            },
        };
        set_param_value_at(params, k, NormalizedValue { bits: v });
        k = k + 1;
        proof {
            assert(bs.subrange(8 * (k - 1), 8 * (k - 1) + 8) =~= old(stream).bytes@.subrange(
                old(stream).pos + 8 * (k - 1),
                old(stream).pos + 8 * (k - 1) + 8,
            ));
            assert(param_values(params.params@.take(k as int)) =~= param_values(
                params.params@.take(k as int - 1),
            ).push(v));
            assert(decode_values(bs, k as nat) =~= decode_values(bs, (k - 1) as nat).push(
                spec_u64_from_le_bytes(bs.subrange(8 * (k - 1), 8 * (k - 1) + 8)),
            ));
        }
    }
    proof {
        assert(params.params@.take(n as int) =~= params.params@);
    }
    Ok(ResultOk::ResOk)
}

fn set_param_value_at(params: &mut ParameterContainer, k: usize, v: NormalizedValue)
    requires
        k < old(params).params@.len(),
    ensures
        final(params).params@.len() == old(params).params@.len(),
        final(params).params@[k as int].value_normalized == v,
        final(params).params@[k as int].info == old(params).params@[k as int].info,
        final(params).params@[k as int].precision == old(params).params@[k as int].precision,
        forall|i: int|
            0 <= i < old(params).params@.len() && i != k ==> #[trigger] final(params).params@[i]
                == old(params).params@[i],
{
    let p = &mut params.params[k];
    p.set_normalized(v);
}

} // verus!
