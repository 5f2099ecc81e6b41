use vstd::prelude::*;

use crate::cursor::{spec_read_u16, spec_read_u8, Cursor};
use crate::error::DecodeError;
use crate::format::Format;
use crate::substates::{spec_substate, Substate, SubstateV};
use crate::types::{
    spec_bytes_field, spec_signature, spec_substate_id, Bytes, LocalVirtualSubstateID, Signature,
    SignatureV, SubstateId, SubstateIdV, SubstateIndex, VirtualSubstateID,
};

verus! {

/// One opcode-tagged operation within a transaction's instruction stream.
#[allow(non_camel_case_types)]
#[derive(Debug, Clone, PartialEq, Eq)]
pub enum Instruction {
    /// Opcode 0x00: terminate-stream marker.
    END,
    /// Opcode 0x01: raw syscall payload.
    SYSCALL(Bytes),
    /// Opcode 0x02: allocate a substate.
    UP(Substate),
    /// Opcode 0x03: read a substate by ID.
    READ(SubstateId),
    /// Opcode 0x04: read a substate by local index.
    LREAD(SubstateIndex),
    /// Opcode 0x05: read a virtual substate.
    VREAD(VirtualSubstateID),
    /// Opcode 0x06: read a local virtual substate.
    LVREAD(LocalVirtualSubstateID),
    /// Opcode 0x07: retire a substate by ID.
    DOWN(SubstateId),
    /// Opcode 0x08: retire a substate by local index.
    LDOWN(SubstateIndex),
    /// Opcode 0x09: retire a virtual substate.
    VDOWN(VirtualSubstateID),
    /// Opcode 0x0A: retire a local virtual substate.
    LVDOWN(LocalVirtualSubstateID),
    /// Opcode 0x0B: attach a signature.
    SIG(Signature),
    /// Opcode 0x0C: attach a message.
    MSG(Bytes),
    /// Opcode 0x0D: header carrying a version byte and a flags byte.
    HEADER(u8, u8),
    /// Opcode 0x0E: read an index.
    READINDEX(Bytes),
    /// Opcode 0x0F: retire an index.
    DOWNINDEX(Bytes),
}

/// Mathematical value of an [`Instruction`].
#[allow(non_camel_case_types)]
#[verifier::ext_equal]
pub enum InstructionV {
    END,
    SYSCALL(Seq<u8>),
    UP(SubstateV),
    READ(SubstateIdV),
    LREAD(u16),
    VREAD(Seq<u8>),
    LVREAD(Seq<u8>),
    DOWN(SubstateIdV),
    LDOWN(u16),
    VDOWN(Seq<u8>),
    LVDOWN(Seq<u8>),
    SIG(SignatureV),
    MSG(Seq<u8>),
    HEADER(u8, u8),
    READINDEX(Seq<u8>),
    DOWNINDEX(Seq<u8>),
}

/// An ordered sequence of instructions, constructed once by fully consuming
/// a byte buffer and immutable thereafter.
#[derive(Debug, Clone, PartialEq, Eq)]
pub struct Transaction {
    pub instructions: Vec<Instruction>,
}

impl View for Instruction {
    type V = InstructionV;

    open spec fn view(&self) -> InstructionV {
        match self {
            Instruction::END => InstructionV::END,
            Instruction::SYSCALL(b) => InstructionV::SYSCALL(b@),
            Instruction::UP(sub) => InstructionV::UP(sub@),
            Instruction::READ(id) => InstructionV::READ(id@),
            Instruction::LREAD(ix) => InstructionV::LREAD(*ix),
            Instruction::VREAD(v) => InstructionV::VREAD(v@),
            Instruction::LVREAD(v) => InstructionV::LVREAD(v@),
            Instruction::DOWN(id) => InstructionV::DOWN(id@),
            Instruction::LDOWN(ix) => InstructionV::LDOWN(*ix),
            Instruction::VDOWN(v) => InstructionV::VDOWN(v@),
            Instruction::LVDOWN(v) => InstructionV::LVDOWN(v@),
            Instruction::SIG(sig) => InstructionV::SIG(sig@),
            Instruction::MSG(b) => InstructionV::MSG(b@),
            Instruction::HEADER(version, flags) => InstructionV::HEADER(*version, *flags),
            Instruction::READINDEX(b) => InstructionV::READINDEX(b@),
            Instruction::DOWNINDEX(b) => InstructionV::DOWNINDEX(b@),
        }
    }
}

impl Instruction {
    pub open spec fn wf(&self) -> bool {
        match self {
            Instruction::END => true,
            Instruction::SYSCALL(b) => b.wf(),
            Instruction::UP(sub) => sub.wf(),
            Instruction::READ(id) => id.wf(),
            Instruction::LREAD(_) => true,
            Instruction::VREAD(v) => v.wf(),
            Instruction::LVREAD(v) => v.wf(),
            Instruction::DOWN(id) => id.wf(),
            Instruction::LDOWN(_) => true,
            Instruction::VDOWN(v) => v.wf(),
            Instruction::LVDOWN(v) => v.wf(),
            Instruction::SIG(sig) => sig.wf(),
            Instruction::MSG(b) => b.wf(),
            Instruction::HEADER(_, _) => true,
            Instruction::READINDEX(b) => b.wf(),
            Instruction::DOWNINDEX(b) => b.wf(),
        }
    }
}

/// The instruction views of a sequence of instructions, in order.
pub open spec fn views_of(v: Seq<Instruction>) -> Seq<InstructionV> {
    v.map_values(|i: Instruction| i@)
}

impl View for Transaction {
    type V = Seq<InstructionV>;

    open spec fn view(&self) -> Seq<InstructionV> {
        views_of(self.instructions@)
    }
}

impl Transaction {
    pub open spec fn wf(&self) -> bool {
        forall|i: int| 0 <= i < self.instructions@.len() ==> (#[trigger] self.instructions@[i]).wf()
    }
}

/// Decoding the substate carried by an `UP` instruction. Formats with a
/// size envelope first read a two-byte byte-length; under the strict
/// switch, a declared length that differs from the bytes the substate
/// actually occupied (type tag included) is rejected as `SizeMismatch`.
pub open spec fn spec_up_substate(s: Seq<u8>, pos: int, fmt: Format) -> Result<(SubstateV, int), DecodeError> {
    if fmt.size_prefix {
        match spec_read_u16(s, pos) {
            Err(e) => Err(e),
            Ok((declared, p1)) => match spec_substate(s, p1, fmt) {
                Err(e) => Err(e),
                Ok((v, p2)) => if fmt.strict_size && p2 - p1 != declared as int {
                    Err(DecodeError::SizeMismatch {
                        offset: pos as usize,
                        declared,
                        consumed: (p2 - p1) as usize,
                    })
                } else {
                    Ok((v, p2))
                },
            },
        }
    } else {
        spec_substate(s, pos, fmt)
    }
}

/// Decoding one instruction: an opcode byte, then the opcode's payload.
/// An opcode outside the supported set is `UnknownOpcode` carrying it.
#[verifier::opaque]
pub open spec fn spec_instruction(s: Seq<u8>, pos: int, fmt: Format) -> Result<(InstructionV, int), DecodeError> {
    match spec_read_u8(s, pos) {
        Err(e) => Err(e),
        Ok((t, p1)) => match t {
            0x00 => Ok((InstructionV::END, p1)),
            0x01 => match spec_bytes_field(s, p1, fmt) {
                Err(e) => Err(e),
                Ok((b, p2)) => Ok((InstructionV::SYSCALL(b), p2)),
            },
            0x02 => match spec_up_substate(s, p1, fmt) {
                Err(e) => Err(e),
                Ok((v, p2)) => Ok((InstructionV::UP(v), p2)),
            },
            0x03 => match spec_substate_id(s, p1) {
                Err(e) => Err(e),
                Ok((id, p2)) => Ok((InstructionV::READ(id), p2)),
            },
            0x04 => match spec_read_u16(s, p1) {
                Err(e) => Err(e),
                Ok((ix, p2)) => Ok((InstructionV::LREAD(ix), p2)),
            },
            0x05 => match spec_bytes_field(s, p1, fmt) {
                Err(e) => Err(e),
                Ok((b, p2)) => Ok((InstructionV::VREAD(b), p2)),
            },
            0x06 => match spec_bytes_field(s, p1, fmt) {
                Err(e) => Err(e),
                Ok((b, p2)) => Ok((InstructionV::LVREAD(b), p2)),
            },
            0x07 => match spec_substate_id(s, p1) {
                Err(e) => Err(e),
                Ok((id, p2)) => Ok((InstructionV::DOWN(id), p2)),
            },
            0x08 => match spec_read_u16(s, p1) {
                Err(e) => Err(e),
                Ok((ix, p2)) => Ok((InstructionV::LDOWN(ix), p2)),
            },
            0x09 => match spec_bytes_field(s, p1, fmt) {
                Err(e) => Err(e),
                Ok((b, p2)) => Ok((InstructionV::VDOWN(b), p2)),
            },
            0x0A => match spec_bytes_field(s, p1, fmt) {
                Err(e) => Err(e),
                Ok((b, p2)) => Ok((InstructionV::LVDOWN(b), p2)),
            },
            0x0B => match spec_signature(s, p1) {
                Err(e) => Err(e),
                Ok((sig, p2)) => Ok((InstructionV::SIG(sig), p2)),
            },
            0x0C => match spec_bytes_field(s, p1, fmt) {
                Err(e) => Err(e),
                Ok((b, p2)) => Ok((InstructionV::MSG(b), p2)),
            },
            0x0D => match spec_read_u8(s, p1) {
                Err(e) => Err(e),
                Ok((version, p2)) => match spec_read_u8(s, p2) {
                    Err(e) => Err(e),
                    Ok((flags, p3)) => Ok((InstructionV::HEADER(version, flags), p3)),
                },
            },
            0x0E => match spec_bytes_field(s, p1, fmt) {
                Err(e) => Err(e),
                Ok((b, p2)) => Ok((InstructionV::READINDEX(b), p2)),
            },
            0x0F => match spec_bytes_field(s, p1, fmt) {
                Err(e) => Err(e),
                Ok((b, p2)) => Ok((InstructionV::DOWNINDEX(b), p2)),
            },
            _ => Err(DecodeError::UnknownOpcode { offset: pos as usize, value: t }),
        },
    }
}

/// Decoding a whole transaction from `pos` on: instructions are decoded one
/// after the other while bytes remain, and the sequence ends exactly at the
/// end of the input. The second branch of the inner test is never taken
/// ([`lemma_spec_instruction_bounds`]): a successfully decoded instruction
/// always advances the position and never passes the end.
pub open spec fn spec_transaction(s: Seq<u8>, pos: int, fmt: Format) -> Result<
    (Seq<InstructionV>, int),
    DecodeError,
>
    decreases s.len() - pos,
{
    if pos >= s.len() {
        Ok((Seq::empty(), pos))
    } else {
        match spec_instruction(s, pos, fmt) {
            Err(e) => Err(e),
            Ok((v, p2)) => if pos < p2 && p2 <= s.len() {
                match spec_transaction(s, p2, fmt) {
                    Err(e) => Err(e),
                    Ok((rest, pend)) => Ok((seq![v] + rest, pend)),
                }
            } else {
                Err(DecodeError::UnexpectedEndOfBuffer { offset: pos as usize })
            },
        }
    }
}

/// A successfully decoded substate occupies at least its type tag and never
/// passes the end of the input.
pub proof fn lemma_spec_substate_bounds(s: Seq<u8>, pos: int, fmt: Format)
    ensures
        (spec_substate(s, pos, fmt) matches Ok((v, p)) ==> pos + 1 <= p && p <= s.len()),
{
}

/// A successfully decoded instruction consumes at least its opcode byte and
/// never passes the end of the input: no decode reads past the end without
/// raising an error.
pub proof fn lemma_spec_instruction_bounds(s: Seq<u8>, pos: int, fmt: Format)
    ensures
        (spec_instruction(s, pos, fmt) matches Ok((v, p)) ==> pos + 1 <= p && p <= s.len()),
{
    reveal(spec_instruction);
    lemma_spec_substate_bounds(s, pos + 1, fmt);
    lemma_spec_substate_bounds(s, pos + 3, fmt);
}

/// A transaction decode that succeeds consumes the input exactly: the final
/// position equals the input length, never short of it and never past it.
pub proof fn lemma_transaction_consumes_all(s: Seq<u8>, pos: int, fmt: Format)
    requires
        0 <= pos <= s.len(),
    ensures
        (spec_transaction(s, pos, fmt) matches Ok((v, pend)) ==> pend == s.len()),
    decreases s.len() - pos,
{
    if pos >= s.len() {
    } else {
        match spec_instruction(s, pos, fmt) {
            Err(_) => {},
            Ok((v, p2)) => {
                lemma_spec_instruction_bounds(s, pos, fmt);
                if pos < p2 && p2 <= s.len() {
                    lemma_transaction_consumes_all(s, p2, fmt);
                }
            },
        }
    }
}

/// Decoding is a pure function of the input bytes and the format: two
/// decodes of the same byte sequence under the same format yield the same
/// result, instruction for instruction.
pub proof fn lemma_decode_deterministic(
    s: Seq<u8>,
    fmt: Format,
    r1: Result<(Seq<InstructionV>, int), DecodeError>,
    r2: Result<(Seq<InstructionV>, int), DecodeError>,
)
    requires
        r1 == spec_transaction(s, 0, fmt),
        r2 == spec_transaction(s, 0, fmt),
    ensures
        r1 == r2,
{
}

impl Instruction {
    /// Decode one instruction: an opcode byte, then the opcode's payload.
    pub fn from_buffer(buffer: &mut Cursor, fmt: Format) -> (r: Result<Instruction, DecodeError>)
        ensures
            final(buffer).data@ == old(buffer).data@,
            (match r {
                Ok(v) => ({
                    &&& v.wf()
                    &&& spec_instruction(old(buffer).data@, old(buffer).pos as int, fmt)
                        == Ok::<(InstructionV, int), DecodeError>((v@, final(buffer).pos as int))
                }),
                Err(e) => spec_instruction(old(buffer).data@, old(buffer).pos as int, fmt)
                    == Err::<(InstructionV, int), DecodeError>(e),
            }),
    {
        proof {
            reveal(spec_instruction);
        }
        let start = buffer.pos;
        let t = match buffer.read_u8() {
            Ok(b) => b,
            Err(e) => return Err(e),
        };
        match t {
            0x00 => Ok(Instruction::END),
            0x01 => match Bytes::from_buffer(buffer, fmt) {
                Ok(b) => Ok(Instruction::SYSCALL(b)),
                Err(e) => Err(e),
            },
            0x02 => {
                if fmt.size_prefix {
                    let envelope_start = buffer.pos;
                    let declared = match buffer.read_u16() {
                        Ok(n) => n,
                        Err(e) => return Err(e),
                    };
                    let body_start = buffer.pos;
                    let sub = match Substate::from_buffer(buffer, fmt) {
                        Ok(v) => v,
                        Err(e) => return Err(e),
                    };
                    proof {
                        lemma_spec_substate_bounds(
                            old(buffer).data@,
                            body_start as int,
                            fmt,
                        );
                    }
                    let consumed = buffer.pos - body_start;
                    if fmt.strict_size && consumed != declared as usize {
                        return Err(DecodeError::SizeMismatch {
                            offset: envelope_start,
                            declared,
                            consumed,
                        });
                    }
                    Ok(Instruction::UP(sub))
                } else {
                    match Substate::from_buffer(buffer, fmt) {
                        Ok(v) => Ok(Instruction::UP(v)),
                        Err(e) => Err(e),
                    }
                }
            },
            0x03 => match SubstateId::from_buffer(buffer) {
                Ok(id) => Ok(Instruction::READ(id)),
                Err(e) => Err(e),
            },
            0x04 => match buffer.read_u16() {
                Ok(ix) => Ok(Instruction::LREAD(ix)),
                Err(e) => Err(e),
            },
            0x05 => match VirtualSubstateID::from_buffer(buffer, fmt) {
                Ok(v) => Ok(Instruction::VREAD(v)),
                Err(e) => Err(e),
            },
            0x06 => match LocalVirtualSubstateID::from_buffer(buffer, fmt) {
                Ok(v) => Ok(Instruction::LVREAD(v)),
                Err(e) => Err(e),
            },
            0x07 => match SubstateId::from_buffer(buffer) {
                Ok(id) => Ok(Instruction::DOWN(id)),
                Err(e) => Err(e),
            },
            0x08 => match buffer.read_u16() {
                Ok(ix) => Ok(Instruction::LDOWN(ix)),
                Err(e) => Err(e),
            },
            0x09 => match VirtualSubstateID::from_buffer(buffer, fmt) {
                Ok(v) => Ok(Instruction::VDOWN(v)),
                Err(e) => Err(e),
            },
            0x0A => match LocalVirtualSubstateID::from_buffer(buffer, fmt) {
                Ok(v) => Ok(Instruction::LVDOWN(v)),
                Err(e) => Err(e),
            },
            0x0B => match Signature::from_buffer(buffer) {
                Ok(sig) => Ok(Instruction::SIG(sig)),
                Err(e) => Err(e),
            },
            0x0C => match Bytes::from_buffer(buffer, fmt) {
                Ok(b) => Ok(Instruction::MSG(b)),
                Err(e) => Err(e),
            },
            0x0D => {
                let version = match buffer.read_u8() {
                    Ok(b) => b,
                    Err(e) => return Err(e),
                };
                let flags = match buffer.read_u8() {
                    Ok(b) => b,
                    Err(e) => return Err(e),
                };
                Ok(Instruction::HEADER(version, flags))
            },
            0x0E => match Bytes::from_buffer(buffer, fmt) {
                Ok(b) => Ok(Instruction::READINDEX(b)),
                Err(e) => Err(e),
            },
            0x0F => match Bytes::from_buffer(buffer, fmt) {
                Ok(b) => Ok(Instruction::DOWNINDEX(b)),
                Err(e) => Err(e),
            },
            _ => Err(DecodeError::UnknownOpcode { offset: start, value: t }),
        }
    }
}

/// Prefixing a sequence of already-decoded instructions onto the result of
/// decoding the rest of the input.
pub open spec fn spec_prepend(
    pre: Seq<InstructionV>,
    r: Result<(Seq<InstructionV>, int), DecodeError>,
) -> Result<(Seq<InstructionV>, int), DecodeError> {
    match r {
        Ok((rest, p)) => Ok((pre + rest, p)),
        Err(e) => Err(e),
    }
}

impl Transaction {
    /// Decode a whole transaction: instructions are decoded one after the
    /// other while bytes remain. Success consumes the input exactly; any
    /// sub-decode failure rejects the whole input with that error, and no
    /// partial instruction sequence is returned.
    #[verifier::rlimit(60)]
    pub fn from_bytes(bytes: Vec<u8>, fmt: Format) -> (r: Result<Transaction, DecodeError>)
        ensures
            (match r {
                Ok(t) => ({
                    &&& t.wf()
                    &&& spec_transaction(bytes@, 0, fmt)
                        == Ok::<(Seq<InstructionV>, int), DecodeError>((t@, bytes@.len() as int))
                }),
                Err(e) => spec_transaction(bytes@, 0, fmt)
                    == Err::<(Seq<InstructionV>, int), DecodeError>(e),
            }),
    {
        let ghost s = bytes@;
        let mut buffer = Cursor::new(bytes);
        let mut instructions: Vec<Instruction> = Vec::new();
        proof {
            assert(views_of(instructions@) =~= Seq::<InstructionV>::empty());
            if spec_transaction(s, 0, fmt) is Ok {
                let rest = spec_transaction(s, 0, fmt)->Ok_0.0;
                assert(Seq::<InstructionV>::empty() + rest =~= rest);
            }
        }
        while buffer.pos < buffer.data.len()
            invariant
                s == bytes@,
                buffer.data@ == s,
                buffer.pos <= s.len(),
                forall|i: int|
                    0 <= i < instructions@.len() ==> (#[trigger] instructions@[i]).wf(),
                spec_transaction(s, 0, fmt) == spec_prepend(
                    views_of(instructions@),
                    spec_transaction(s, buffer.pos as int, fmt),
                ),
            decreases s.len() - buffer.pos,
        {
            let ghost p0 = buffer.pos as int;
            let ghost pre = views_of(instructions@);
            let inst = match Instruction::from_buffer(&mut buffer, fmt) {
                Ok(v) => v,
                Err(e) => {
                    return Err(e);
                },
            };
            proof {
                lemma_spec_instruction_bounds(s, p0, fmt);
                let p2 = buffer.pos as int;
                assert(views_of(instructions@.push(inst)) =~= pre + seq![inst@]);
                if spec_transaction(s, p2, fmt) is Ok {
                    let rest = spec_transaction(s, p2, fmt)->Ok_0.0;
                    assert((pre + seq![inst@]) + rest =~= pre + (seq![inst@] + rest));
                }
            }
            instructions.push(inst);
        }
        proof {
            assert(buffer.pos == s.len());
            assert(spec_transaction(s, buffer.pos as int, fmt)
                == Ok::<(Seq<InstructionV>, int), DecodeError>((
                Seq::empty(),
                buffer.pos as int,
            )));
            assert(views_of(instructions@) + Seq::<InstructionV>::empty() =~= views_of(
                instructions@,
            ));
        }
        Ok(Transaction { instructions })
    }
}

} // verus!
