use txn_decoder::cursor::Cursor;
use txn_decoder::error::DecodeError;
use txn_decoder::format::{Format, LengthPrefix};
use txn_decoder::types::{
    Address, Boolean, Bytes, PublicKey, Signature, SubstateId, VirtualSubstateID, U256, UTF8,
};

fn one_byte_format() -> Format {
    Format {
        length_prefix: LengthPrefix::One,
        reserved_byte: false,
        size_prefix: false,
        strict_size: false,
    }
}

#[test]
fn read_u8_advances_one() {
    let mut c = Cursor::new(vec![0x7F, 0x80]);
    assert_eq!(c.read_u8(), Ok(0x7F));
    assert_eq!(c.position(), 1);
    assert_eq!(c.read_u8(), Ok(0x80));
    assert_eq!(c.position(), 2);
}

#[test]
fn read_u8_past_end_fails() {
    let mut c = Cursor::new(vec![]);
    assert_eq!(c.read_u8(), Err(DecodeError::UnexpectedEndOfBuffer { offset: 0 }));
    assert_eq!(c.position(), 0);
}

#[test]
fn read_u16_is_big_endian() {
    let mut c = Cursor::new(vec![0x12, 0x34]);
    assert_eq!(c.read_u16(), Ok(0x1234));
    assert_eq!(c.position(), 2);
}

#[test]
fn read_u32_is_big_endian() {
    let mut c = Cursor::new(vec![0x01, 0x02, 0x03, 0x04]);
    assert_eq!(c.read_u32(), Ok(0x01020304));
    assert_eq!(c.position(), 4);
}

#[test]
fn read_u64_is_big_endian() {
    let mut c = Cursor::new(vec![0xDE, 0xAD, 0xBE, 0xEF, 0x00, 0x11, 0x22, 0x33]);
    assert_eq!(c.read_u64(), Ok(0xDEAD_BEEF_0011_2233));
    assert_eq!(c.position(), 8);
}

#[test]
fn read_u64_truncated_fails() {
    let mut c = Cursor::new(vec![0x01, 0x02, 0x03]);
    assert_eq!(c.read_u64(), Err(DecodeError::UnexpectedEndOfBuffer { offset: 0 }));
    assert_eq!(c.position(), 0);
}

#[test]
fn boolean_accepts_zero_and_one() {
    let mut c = Cursor::new(vec![0x00, 0x01]);
    assert_eq!(Boolean::from_buffer(&mut c), Ok(Boolean { raw: 0 }));
    assert_eq!(Boolean::from_buffer(&mut c), Ok(Boolean { raw: 1 }));
}

#[test]
fn boolean_rejects_other_values() {
    let mut c = Cursor::new(vec![0x02]);
    assert_eq!(
        Boolean::from_buffer(&mut c),
        Err(DecodeError::InvalidEnumValue { offset: 0, value: 2 })
    );
}

#[test]
fn u256_keeps_all_magnitude_bytes() {
    let mut raw: Vec<u8> = (0u8..32u8).collect();
    raw[0] = 0xFF;
    let mut c = Cursor::new(raw.clone());
    let v = U256::from_buffer(&mut c).unwrap();
    assert_eq!(v.raw, raw);
    assert_eq!(c.position(), 32);
}

#[test]
fn u256_truncated_fails() {
    let mut c = Cursor::new(vec![0x00; 31]);
    assert_eq!(
        U256::from_buffer(&mut c),
        Err(DecodeError::UnexpectedEndOfBuffer { offset: 0 })
    );
}

#[test]
fn bytes_two_byte_prefix() {
    let fmt = Format::current();
    let mut c = Cursor::new(vec![0x00, 0x03, 0xAA, 0xBB, 0xCC]);
    let b = Bytes::from_buffer(&mut c, fmt).unwrap();
    assert_eq!(b.length, 3);
    assert_eq!(b.data, vec![0xAA, 0xBB, 0xCC]);
    assert_eq!(c.position(), 5);
}

#[test]
fn bytes_one_byte_prefix() {
    let fmt = one_byte_format();
    let mut c = Cursor::new(vec![0x02, 0xAA, 0xBB]);
    let b = Bytes::from_buffer(&mut c, fmt).unwrap();
    assert_eq!(b.length, 2);
    assert_eq!(b.data, vec![0xAA, 0xBB]);
    assert_eq!(c.position(), 3);
}

#[test]
fn bytes_length_claiming_more_than_remains_fails() {
    let fmt = Format::current();
    let mut c = Cursor::new(vec![0xFF, 0xFF, 0x01]);
    assert_eq!(
        Bytes::from_buffer(&mut c, fmt),
        Err(DecodeError::UnexpectedEndOfBuffer { offset: 2 })
    );
}

#[test]
fn utf8_decodes_valid_payload() {
    let fmt = Format::current();
    let mut c = Cursor::new(vec![0x00, 0x03, 0x61, 0x62, 0x63]);
    let s = UTF8::from_buffer(&mut c, fmt).unwrap();
    assert_eq!(s.length, 3);
    assert_eq!(s.data, "abc");
}

#[test]
fn utf8_multibyte_payload() {
    let fmt = Format::current();
    // "é" is 0xC3 0xA9 in UTF-8.
    let mut c = Cursor::new(vec![0x00, 0x02, 0xC3, 0xA9]);
    let s = UTF8::from_buffer(&mut c, fmt).unwrap();
    assert_eq!(s.length, 2);
    assert_eq!(s.data, "é");
}

#[test]
fn utf8_invalid_payload_fails() {
    let fmt = Format::current();
    let mut c = Cursor::new(vec![0x00, 0x01, 0xFF]);
    assert_eq!(
        UTF8::from_buffer(&mut c, fmt),
        Err(DecodeError::InvalidEncoding { offset: 0 })
    );
}

#[test]
fn signature_fields_in_order() {
    let mut data = vec![0x01];
    data.extend(vec![0xAA; 32]);
    data.extend(vec![0xBB; 32]);
    let mut c = Cursor::new(data);
    let sig = Signature::from_buffer(&mut c).unwrap();
    assert_eq!(sig.v, 1);
    assert_eq!(sig.r, vec![0xAA; 32]);
    assert_eq!(sig.s, vec![0xBB; 32]);
    assert_eq!(c.position(), 65);
}

#[test]
fn substate_id_hash_then_index() {
    let mut data: Vec<u8> = (0u8..32u8).collect();
    data.extend(vec![0x00, 0x00, 0x00, 0x07]);
    let mut c = Cursor::new(data);
    let id = SubstateId::from_buffer(&mut c).unwrap();
    assert_eq!(id.hash.raw, (0u8..32u8).collect::<Vec<u8>>());
    assert_eq!(id.index, 7);
    assert_eq!(c.position(), 36);
}

#[test]
fn public_key_reads_33_bytes() {
    let mut c = Cursor::new(vec![0x02; 34]);
    let k = PublicKey::from_buffer(&mut c).unwrap();
    assert_eq!(k.raw.len(), 33);
    assert_eq!(c.position(), 33);
}

#[test]
fn virtual_substate_id_is_length_prefixed() {
    let fmt = Format::current();
    let mut c = Cursor::new(vec![0x00, 0x02, 0x10, 0x20]);
    let v = VirtualSubstateID::from_buffer(&mut c, fmt).unwrap();
    assert_eq!(v.length, 2);
    assert_eq!(v.data, vec![0x10, 0x20]);
}

#[test]
fn address_system_consumes_only_discriminant() {
    let mut c = Cursor::new(vec![0x00, 0xFF]);
    assert_eq!(Address::from_buffer(&mut c), Ok(Address::System));
    assert_eq!(c.position(), 1);
}

#[test]
fn address_native_token_consumes_only_discriminant() {
    let mut c = Cursor::new(vec![0x01, 0xFF]);
    assert_eq!(Address::from_buffer(&mut c), Ok(Address::RadixNativeToken));
    assert_eq!(c.position(), 1);
}

#[test]
fn address_hashed_key_nonce_consumes_27_bytes() {
    let mut data = vec![0x03];
    data.extend((0u8..26u8).collect::<Vec<u8>>());
    data.push(0xEE);
    let mut c = Cursor::new(data);
    let a = Address::from_buffer(&mut c).unwrap();
    assert_eq!(a, Address::HashedKeyNonce((0u8..26u8).collect()));
    assert_eq!(c.position(), 27);
}

#[test]
fn address_public_key_consumes_34_bytes() {
    let mut data = vec![0x04];
    data.extend(vec![0x05; 33]);
    let mut c = Cursor::new(data);
    let a = Address::from_buffer(&mut c).unwrap();
    assert_eq!(a, Address::PublicKey(vec![0x05; 33]));
    assert_eq!(c.position(), 34);
}

#[test]
fn address_unknown_discriminant_fails() {
    let mut c = Cursor::new(vec![0x02]);
    assert_eq!(
        Address::from_buffer(&mut c),
        Err(DecodeError::UnknownDiscriminant { offset: 0, value: 2 })
    );
}
