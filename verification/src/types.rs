use vstd::prelude::*;
use vstd::utf8::{decode_utf8, encode_utf8, valid_utf8};

use crate::cursor::{spec_read_bytes, spec_read_u16, spec_read_u32, spec_read_u8, Cursor};
use crate::error::DecodeError;
use crate::format::{Format, LengthPrefix};

verus! {

/// Boolean: one byte whose only legal values are 0 and 1.
#[derive(Debug, Clone, Copy, PartialEq, Eq, Structural)]
pub struct Boolean {
    pub raw: u8,
}

/// Length of a variable-length field, as carried by its length prefix.
pub type Size = u16;

/// Unsigned 256-bit integer: 32 bytes interpreted as a big-endian magnitude.
/// The bytes themselves are kept; every 32-byte value is legal.
#[derive(Debug, Clone, PartialEq, Eq)]
pub struct U256 {
    pub raw: Vec<u8>,
}

/// Byte array of variable length, carried with a length prefix.
#[derive(Debug, Clone, PartialEq, Eq)]
pub struct Bytes {
    pub length: Size,
    pub data: Vec<u8>,
}

/// UTF-8 string, carried as a length prefix followed by that many
/// UTF-8-validated bytes.
#[allow(non_camel_case_types)]
#[derive(Debug, Clone, PartialEq, Eq)]
pub struct UTF8 {
    pub length: Size,
    pub data: String,
}

/// Hash value: 32 raw bytes.
#[derive(Debug, Clone, PartialEq, Eq)]
pub struct Hash {
    pub raw: Vec<u8>,
}

/// ECDSA public key: 33 raw bytes.
#[derive(Debug, Clone, PartialEq, Eq)]
pub struct PublicKey {
    pub raw: Vec<u8>,
}

/// ECDSA signature: a one-byte recovery id and two 32-byte components.
#[derive(Debug, Clone, PartialEq, Eq)]
pub struct Signature {
    pub v: u8,
    pub r: Vec<u8>,
    pub s: Vec<u8>,
}

/// Substate ID: a hash and a four-byte index.
#[derive(Debug, Clone, PartialEq, Eq)]
pub struct SubstateId {
    pub hash: Hash,
    pub index: u32,
}

/// Index of a substate created earlier in the same transaction.
pub type SubstateIndex = u16;

/// Virtual substate ID: an opaque length-prefixed byte blob.
#[derive(Debug, Clone, PartialEq, Eq)]
pub struct VirtualSubstateID {
    pub length: Size,
    pub data: Vec<u8>,
}

/// Local virtual substate ID: an opaque length-prefixed byte blob.
#[derive(Debug, Clone, PartialEq, Eq)]
pub struct LocalVirtualSubstateID {
    pub length: Size,
    pub data: Vec<u8>,
}

/// Ledger address, selected by a leading type byte.
#[derive(Debug, Clone, PartialEq, Eq)]
pub enum Address {
    /// Type byte 0x00; no payload.
    System,
    /// Type byte 0x01; no payload.
    RadixNativeToken,
    /// Type byte 0x03; 26 payload bytes.
    HashedKeyNonce(Vec<u8>),
    /// Type byte 0x04; 33 payload bytes.
    PublicKey(Vec<u8>),
}

/// Mathematical value of a [`Signature`].
#[verifier::ext_equal]
pub struct SignatureV {
    pub v: u8,
    pub r: Seq<u8>,
    pub s: Seq<u8>,
}

/// Mathematical value of a [`SubstateId`].
#[verifier::ext_equal]
pub struct SubstateIdV {
    pub hash: Seq<u8>,
    pub index: u32,
}

/// Mathematical value of an [`Address`].
#[verifier::ext_equal]
pub enum AddressV {
    System,
    RadixNativeToken,
    HashedKeyNonce(Seq<u8>),
    PublicKey(Seq<u8>),
}

impl View for Boolean {
    type V = bool;

    open spec fn view(&self) -> bool {
        self.raw == 1
    }
}

impl Boolean {
    /// The raw byte is one of the two legal values.
    pub open spec fn wf(&self) -> bool {
        self.raw == 0 || self.raw == 1
    }
}

impl View for U256 {
    type V = Seq<u8>;

    open spec fn view(&self) -> Seq<u8> {
        self.raw@
    }
}

impl U256 {
    /// Exactly 32 big-endian magnitude bytes.
    pub open spec fn wf(&self) -> bool {
        self.raw@.len() == 32
    }
}

impl View for Bytes {
    type V = Seq<u8>;

    open spec fn view(&self) -> Seq<u8> {
        self.data@
    }
}

impl Bytes {
    /// The stored length is the number of data bytes.
    pub open spec fn wf(&self) -> bool {
        self.length == self.data@.len()
    }
}

impl View for UTF8 {
    type V = Seq<char>;

    open spec fn view(&self) -> Seq<char> {
        self.data@
    }
}

impl UTF8 {
    /// The stored length is the byte length of the string's UTF-8 encoding.
    pub open spec fn wf(&self) -> bool {
        self.length == encode_utf8(self.data@).len()
    }
}

impl View for Hash {
    type V = Seq<u8>;

    open spec fn view(&self) -> Seq<u8> {
        self.raw@
    }
}

impl Hash {
    /// Exactly 32 bytes.
    pub open spec fn wf(&self) -> bool {
        self.raw@.len() == 32
    }
}

impl View for PublicKey {
    type V = Seq<u8>;

    open spec fn view(&self) -> Seq<u8> {
        self.raw@
    }
}

impl PublicKey {
    /// Exactly 33 bytes.
    pub open spec fn wf(&self) -> bool {
        self.raw@.len() == 33
    }
}

impl View for Signature {
    type V = SignatureV;

    open spec fn view(&self) -> SignatureV {
        SignatureV { v: self.v, r: self.r@, s: self.s@ }
    }
}

impl Signature {
    /// Both components hold exactly 32 bytes.
    pub open spec fn wf(&self) -> bool {
        self.r@.len() == 32 && self.s@.len() == 32
    }
}

impl View for SubstateId {
    type V = SubstateIdV;

    open spec fn view(&self) -> SubstateIdV {
        SubstateIdV { hash: self.hash@, index: self.index }
    }
}

impl SubstateId {
    pub open spec fn wf(&self) -> bool {
        self.hash.wf()
    }
}

impl View for VirtualSubstateID {
    type V = Seq<u8>;

    open spec fn view(&self) -> Seq<u8> {
        self.data@
    }
}

impl VirtualSubstateID {
    /// The stored length is the number of data bytes.
    pub open spec fn wf(&self) -> bool {
        self.length == self.data@.len()
    }
}

impl View for LocalVirtualSubstateID {
    type V = Seq<u8>;

    open spec fn view(&self) -> Seq<u8> {
        self.data@
    }
}

impl LocalVirtualSubstateID {
    /// The stored length is the number of data bytes.
    pub open spec fn wf(&self) -> bool {
        self.length == self.data@.len()
    }
}

impl View for Address {
    type V = AddressV;

    open spec fn view(&self) -> AddressV {
        match self {
            Address::System => AddressV::System,
            Address::RadixNativeToken => AddressV::RadixNativeToken,
            Address::HashedKeyNonce(d) => AddressV::HashedKeyNonce(d@),
            Address::PublicKey(d) => AddressV::PublicKey(d@),
        }
    }
}

impl Address {
    /// The payload has the length its type byte demands.
    pub open spec fn wf(&self) -> bool {
        match self {
            Address::System => true,
            Address::RadixNativeToken => true,
            Address::HashedKeyNonce(d) => d@.len() == 26,
            Address::PublicKey(d) => d@.len() == 33,
        }
    }
}

/// Decoding a boolean at `pos`: the byte must be 0 or 1; any other value is
/// `InvalidEnumValue` carrying that byte.
pub open spec fn spec_boolean(s: Seq<u8>, pos: int) -> Result<(bool, int), DecodeError> {
    match spec_read_u8(s, pos) {
        Err(e) => Err(e),
        Ok((b, p)) => if b == 0 || b == 1 {
            Ok((b == 1, p))
        } else {
            Err(DecodeError::InvalidEnumValue { offset: pos as usize, value: b })
        },
    }
}

/// Decoding an unsigned 256-bit integer: its 32 big-endian magnitude bytes.
pub open spec fn spec_u256(s: Seq<u8>, pos: int) -> Result<(Seq<u8>, int), DecodeError> {
    spec_read_bytes(s, pos, 32)
}

/// Decoding a hash: 32 raw bytes.
pub open spec fn spec_hash(s: Seq<u8>, pos: int) -> Result<(Seq<u8>, int), DecodeError> {
    spec_read_bytes(s, pos, 32)
}

/// Decoding a public key: 33 raw bytes.
pub open spec fn spec_public_key(s: Seq<u8>, pos: int) -> Result<(Seq<u8>, int), DecodeError> {
    spec_read_bytes(s, pos, 33)
}

/// Decoding a signature: recovery id, then the two 32-byte components.
pub open spec fn spec_signature(s: Seq<u8>, pos: int) -> Result<(SignatureV, int), DecodeError> {
    match spec_read_u8(s, pos) {
        Err(e) => Err(e),
        Ok((v, p1)) => match spec_read_bytes(s, p1, 32) {
            Err(e) => Err(e),
            Ok((r, p2)) => match spec_read_bytes(s, p2, 32) {
                Err(e) => Err(e),
                Ok((sc, p3)) => Ok((SignatureV { v, r, s: sc }, p3)),
            },
        },
    }
}

/// Decoding a substate ID: a hash followed by a four-byte big-endian index.
pub open spec fn spec_substate_id(s: Seq<u8>, pos: int) -> Result<(SubstateIdV, int), DecodeError> {
    match spec_hash(s, pos) {
        Err(e) => Err(e),
        Ok((h, p1)) => match spec_read_u32(s, p1) {
            Err(e) => Err(e),
            Ok((ix, p2)) => Ok((SubstateIdV { hash: h, index: ix }, p2)),
        },
    }
}

/// Decoding the length prefix of a variable-length field; its width is a
/// format parameter.
pub open spec fn spec_length_prefix(s: Seq<u8>, pos: int, fmt: Format) -> Result<(u16, int), DecodeError> {
    match fmt.length_prefix {
        LengthPrefix::One => match spec_read_u8(s, pos) {
            Err(e) => Err(e),
            Ok((n, p)) => Ok((n as u16, p)),
        },
        LengthPrefix::Two => spec_read_u16(s, pos),
    }
}

/// Decoding a length-prefixed byte array: the prefix, then that many raw
/// bytes.
pub open spec fn spec_bytes_field(s: Seq<u8>, pos: int, fmt: Format) -> Result<(Seq<u8>, int), DecodeError> {
    match spec_length_prefix(s, pos, fmt) {
        Err(e) => Err(e),
        Ok((n, p1)) => spec_read_bytes(s, p1, n as int),
    }
}

/// Decoding a length-prefixed UTF-8 string: the payload bytes must be valid
/// UTF-8, else `InvalidEncoding` carrying the field's starting offset.
pub open spec fn spec_utf8(s: Seq<u8>, pos: int, fmt: Format) -> Result<(Seq<char>, int), DecodeError> {
    match spec_bytes_field(s, pos, fmt) {
        Err(e) => Err(e),
        Ok((b, p)) => if valid_utf8(b) {
            Ok((decode_utf8(b), p))
        } else {
            Err(DecodeError::InvalidEncoding { offset: pos as usize })
        },
    }
}

/// Decoding an address: a type byte, then the payload that byte demands.
/// Type 0x00 and 0x01 carry nothing, 0x03 carries 26 bytes, 0x04 carries 33
/// bytes; any other type byte is `UnknownDiscriminant` carrying it.
pub open spec fn spec_address(s: Seq<u8>, pos: int) -> Result<(AddressV, int), DecodeError> {
    match spec_read_u8(s, pos) {
        Err(e) => Err(e),
        Ok((t, p1)) => match t {
            0x00 => Ok((AddressV::System, p1)),
            0x01 => Ok((AddressV::RadixNativeToken, p1)),
            0x03 => match spec_read_bytes(s, p1, 26) {
                Err(e) => Err(e),
                Ok((d, p2)) => Ok((AddressV::HashedKeyNonce(d), p2)),
            },
            0x04 => match spec_read_bytes(s, p1, 33) {
                Err(e) => Err(e),
                Ok((d, p2)) => Ok((AddressV::PublicKey(d), p2)),
            },
            _ => Err(DecodeError::UnknownDiscriminant { offset: pos as usize, value: t }),
        },
    }
}

/// How many bytes each address type occupies: types 0x00 and 0x01 consume
/// only the discriminant byte, type 0x03 consumes the discriminant plus 26
/// payload bytes, and type 0x04 the discriminant plus 33 payload bytes.
pub proof fn lemma_address_consumption(s: Seq<u8>, pos: int)
    ensures
        (match spec_address(s, pos) {
            Ok((v, p)) => ({
                &&& (v is System || v is RadixNativeToken) ==> p == pos + 1
                &&& v is HashedKeyNonce ==> p == pos + 27
                &&& v is PublicKey ==> p == pos + 34
            }),
            Err(_) => true,
        }),
{
}

/// Relies on std's `String::from_utf8`: it returns `Ok` exactly when the
/// bytes are valid UTF-8, and the resulting string's characters are their
/// UTF-8 decoding (vstd's `valid_utf8` and `decode_utf8`).
#[verifier::external_body]
fn utf8_from_bytes(data: Vec<u8>) -> (r: Option<String>)
    ensures
        r is Some <==> valid_utf8(data@),
        (match r {
            Some(t) => t@ == decode_utf8(data@),
            None => true,
        }),
{
    match String::from_utf8(data) {
        Ok(s) => Some(s),
        Err(_) => None,
    }
}

/// Read a length prefix of the width the format demands.
pub(crate) fn read_length_prefix(buffer: &mut Cursor, fmt: Format) -> (r: Result<Size, DecodeError>)
    ensures
        final(buffer).data@ == old(buffer).data@,
        (match r {
            Ok(n) => spec_length_prefix(old(buffer).data@, old(buffer).pos as int, fmt)
                == Ok::<(u16, int), DecodeError>((n, final(buffer).pos as int)),
            Err(e) => spec_length_prefix(old(buffer).data@, old(buffer).pos as int, fmt)
                == Err::<(u16, int), DecodeError>(e),
        }),
{
    match fmt.length_prefix {
        LengthPrefix::One => match buffer.read_u8() {
            Ok(n) => Ok(n as u16),
            Err(e) => Err(e),
        },
        LengthPrefix::Two => buffer.read_u16(),
    }
}

impl Boolean {
    /// Decode a boolean byte; only 0 and 1 are legal.
    pub fn from_buffer(buffer: &mut Cursor) -> (r: Result<Boolean, DecodeError>)
        ensures
            final(buffer).data@ == old(buffer).data@,
            (match r {
                Ok(v) => ({
                    &&& v.wf()
                    &&& spec_boolean(old(buffer).data@, old(buffer).pos as int)
                        == Ok::<(bool, int), DecodeError>((v@, final(buffer).pos as int))
                }),
                Err(e) => spec_boolean(old(buffer).data@, old(buffer).pos as int)
                    == Err::<(bool, int), DecodeError>(e),
            }),
    {
        let start = buffer.pos;
        match buffer.read_u8() {
            Err(e) => Err(e),
            Ok(b) => {
                if b == 0 || b == 1 {
                    Ok(Boolean { raw: b })
                } else {
                    Err(DecodeError::InvalidEnumValue { offset: start, value: b })
                }
            },
        }
    }
}

impl U256 {
    /// Decode 32 big-endian magnitude bytes; every 32-byte value is legal.
    pub fn from_buffer(buffer: &mut Cursor) -> (r: Result<U256, DecodeError>)
        ensures
            final(buffer).data@ == old(buffer).data@,
            (match r {
                Ok(v) => ({
                    &&& v.wf()
                    &&& spec_u256(old(buffer).data@, old(buffer).pos as int)
                        == Ok::<(Seq<u8>, int), DecodeError>((v@, final(buffer).pos as int))
                }),
                Err(e) => spec_u256(old(buffer).data@, old(buffer).pos as int)
                    == Err::<(Seq<u8>, int), DecodeError>(e),
            }),
    {
        match buffer.read_bytes(32) {
            Ok(d) => Ok(U256 { raw: d }),
            Err(e) => Err(e),
        }
    }
}

impl Bytes {
    /// Decode a length-prefixed byte array.
    pub fn from_buffer(buffer: &mut Cursor, fmt: Format) -> (r: Result<Bytes, DecodeError>)
        ensures
            final(buffer).data@ == old(buffer).data@,
            (match r {
                Ok(v) => ({
                    &&& v.wf()
                    &&& spec_bytes_field(old(buffer).data@, old(buffer).pos as int, fmt)
                        == Ok::<(Seq<u8>, int), DecodeError>((v@, final(buffer).pos as int))
                }),
                Err(e) => spec_bytes_field(old(buffer).data@, old(buffer).pos as int, fmt)
                    == Err::<(Seq<u8>, int), DecodeError>(e),
            }),
    {
        let length = match read_length_prefix(buffer, fmt) {
            Ok(n) => n,
            Err(e) => return Err(e),
        };
        match buffer.read_bytes(length as usize) {
            Ok(d) => Ok(Bytes { length, data: d }),
            Err(e) => Err(e),
        }
    }
}

impl UTF8 {
    /// Decode a length-prefixed UTF-8 string; payload bytes that are not
    /// valid UTF-8 are rejected as `InvalidEncoding`.
    pub fn from_buffer(buffer: &mut Cursor, fmt: Format) -> (r: Result<UTF8, DecodeError>)
        ensures
            final(buffer).data@ == old(buffer).data@,
            (match r {
                Ok(v) => ({
                    &&& v.wf()
                    &&& spec_utf8(old(buffer).data@, old(buffer).pos as int, fmt)
                        == Ok::<(Seq<char>, int), DecodeError>((v@, final(buffer).pos as int))
                }),
                Err(e) => spec_utf8(old(buffer).data@, old(buffer).pos as int, fmt)
                    == Err::<(Seq<char>, int), DecodeError>(e),
            }),
    {
        let start = buffer.pos;
        let length = match read_length_prefix(buffer, fmt) {
            Ok(n) => n,
            Err(e) => return Err(e),
        };
        let payload = match buffer.read_bytes(length as usize) {
            Ok(d) => d,
            Err(e) => return Err(e),
        };
        let ghost payload_bytes = payload@;
        match utf8_from_bytes(payload) {
            Some(t) => {
                proof {
                    vstd::utf8::decode_utf8_encode_utf8(payload_bytes);
                }
                Ok(UTF8 { length, data: t })
            },
            None => Err(DecodeError::InvalidEncoding { offset: start }),
        }
    }
}

impl Hash {
    /// Decode 32 raw bytes.
    pub fn from_buffer(buffer: &mut Cursor) -> (r: Result<Hash, DecodeError>)
        ensures
            final(buffer).data@ == old(buffer).data@,
            (match r {
                Ok(v) => ({
                    &&& v.wf()
                    &&& spec_hash(old(buffer).data@, old(buffer).pos as int)
                        == Ok::<(Seq<u8>, int), DecodeError>((v@, final(buffer).pos as int))
                }),
                Err(e) => spec_hash(old(buffer).data@, old(buffer).pos as int)
                    == Err::<(Seq<u8>, int), DecodeError>(e),
            }),
    {
        match buffer.read_bytes(32) {
            Ok(d) => Ok(Hash { raw: d }),
            Err(e) => Err(e),
        }
    }
}

impl PublicKey {
    /// Decode 33 raw bytes.
    pub fn from_buffer(buffer: &mut Cursor) -> (r: Result<PublicKey, DecodeError>)
        ensures
            final(buffer).data@ == old(buffer).data@,
            (match r {
                Ok(v) => ({
                    &&& v.wf()
                    &&& spec_public_key(old(buffer).data@, old(buffer).pos as int)
                        == Ok::<(Seq<u8>, int), DecodeError>((v@, final(buffer).pos as int))
                }),
                Err(e) => spec_public_key(old(buffer).data@, old(buffer).pos as int)
                    == Err::<(Seq<u8>, int), DecodeError>(e),
            }),
    {
        match buffer.read_bytes(33) {
            Ok(d) => Ok(PublicKey { raw: d }),
            Err(e) => Err(e),
        }
    }
}

impl Signature {
    /// Decode a recovery id and the two 32-byte signature components.
    pub fn from_buffer(buffer: &mut Cursor) -> (r: Result<Signature, DecodeError>)
        ensures
            final(buffer).data@ == old(buffer).data@,
            (match r {
                Ok(v) => ({
                    &&& v.wf()
                    &&& spec_signature(old(buffer).data@, old(buffer).pos as int)
                        == Ok::<(SignatureV, int), DecodeError>((v@, final(buffer).pos as int))
                }),
                Err(e) => spec_signature(old(buffer).data@, old(buffer).pos as int)
                    == Err::<(SignatureV, int), DecodeError>(e),
            }),
    {
        let v = match buffer.read_u8() {
            Ok(b) => b,
            Err(e) => return Err(e),
        };
        let r = match buffer.read_bytes(32) {
            Ok(d) => d,
            Err(e) => return Err(e),
        };
        let s = match buffer.read_bytes(32) {
            Ok(d) => d,
            Err(e) => return Err(e),
        };
        Ok(Signature { v, r, s })
    }
}

impl SubstateId {
    /// Decode a hash followed by a four-byte big-endian index.
    pub fn from_buffer(buffer: &mut Cursor) -> (r: Result<SubstateId, DecodeError>)
        ensures
            final(buffer).data@ == old(buffer).data@,
            (match r {
                Ok(v) => ({
                    &&& v.wf()
                    &&& spec_substate_id(old(buffer).data@, old(buffer).pos as int)
                        == Ok::<(SubstateIdV, int), DecodeError>((v@, final(buffer).pos as int))
                }),
                Err(e) => spec_substate_id(old(buffer).data@, old(buffer).pos as int)
                    == Err::<(SubstateIdV, int), DecodeError>(e),
            }),
    {
        let hash = match Hash::from_buffer(buffer) {
            Ok(h) => h,
            Err(e) => return Err(e),
        };
        let index = match buffer.read_u32() {
            Ok(ix) => ix,
            Err(e) => return Err(e),
        };
        Ok(SubstateId { hash, index })
    }
}

impl VirtualSubstateID {
    /// Decode a length-prefixed byte blob.
    pub fn from_buffer(buffer: &mut Cursor, fmt: Format) -> (r: Result<VirtualSubstateID, DecodeError>)
        ensures
            final(buffer).data@ == old(buffer).data@,
            (match r {
                Ok(v) => ({
                    &&& v.wf()
                    &&& spec_bytes_field(old(buffer).data@, old(buffer).pos as int, fmt)
                        == Ok::<(Seq<u8>, int), DecodeError>((v@, final(buffer).pos as int))
                }),
                Err(e) => spec_bytes_field(old(buffer).data@, old(buffer).pos as int, fmt)
                    == Err::<(Seq<u8>, int), DecodeError>(e),
            }),
    {
        let length = match read_length_prefix(buffer, fmt) {
            Ok(n) => n,
            Err(e) => return Err(e),
        };
        match buffer.read_bytes(length as usize) {
            Ok(d) => Ok(VirtualSubstateID { length, data: d }),
            Err(e) => Err(e),
        }
    }
}

impl LocalVirtualSubstateID {
    /// Decode a length-prefixed byte blob.
    pub fn from_buffer(buffer: &mut Cursor, fmt: Format) -> (r: Result<LocalVirtualSubstateID, DecodeError>)
        ensures
            final(buffer).data@ == old(buffer).data@,
            (match r {
                Ok(v) => ({
                    &&& v.wf()
                    &&& spec_bytes_field(old(buffer).data@, old(buffer).pos as int, fmt)
                        == Ok::<(Seq<u8>, int), DecodeError>((v@, final(buffer).pos as int))
                }),
                Err(e) => spec_bytes_field(old(buffer).data@, old(buffer).pos as int, fmt)
                    == Err::<(Seq<u8>, int), DecodeError>(e),
            }),
    {
        let length = match read_length_prefix(buffer, fmt) {
            Ok(n) => n,
            Err(e) => return Err(e),
        };
        match buffer.read_bytes(length as usize) {
            Ok(d) => Ok(LocalVirtualSubstateID { length, data: d }),
            Err(e) => Err(e),
        }
    }
}

impl Address {
    /// Decode an address: a type byte, then the payload that byte demands.
    pub fn from_buffer(buffer: &mut Cursor) -> (r: Result<Address, DecodeError>)
        ensures
            final(buffer).data@ == old(buffer).data@,
            (match r {
                Ok(v) => ({
                    &&& v.wf()
                    &&& spec_address(old(buffer).data@, old(buffer).pos as int)
                        == Ok::<(AddressV, int), DecodeError>((v@, final(buffer).pos as int))
                }),
                Err(e) => spec_address(old(buffer).data@, old(buffer).pos as int)
                    == Err::<(AddressV, int), DecodeError>(e),
            }),
    {
        let start = buffer.pos;
        let t = match buffer.read_u8() {
            Ok(b) => b,
            Err(e) => return Err(e),
        };
        match t {
            0x00 => Ok(Address::System),
            0x01 => Ok(Address::RadixNativeToken),
            0x03 => match buffer.read_bytes(26) {
                Ok(d) => Ok(Address::HashedKeyNonce(d)),
                Err(e) => Err(e),
            },
            0x04 => match buffer.read_bytes(33) {
                Ok(d) => Ok(Address::PublicKey(d)),
                Err(e) => Err(e),
            },
            _ => Err(DecodeError::UnknownDiscriminant { offset: start, value: t }),
        }
    }
}

} // verus!
