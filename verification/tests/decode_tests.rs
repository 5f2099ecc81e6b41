use txn_decoder::cursor::Cursor;
use txn_decoder::error::DecodeError;
use txn_decoder::format::{Format, LengthPrefix};
use txn_decoder::substates::Substate;
use txn_decoder::transaction::{Instruction, Transaction};
use txn_decoder::types::Address;

fn one_byte_format() -> Format {
    Format {
        length_prefix: LengthPrefix::One,
        reserved_byte: false,
        size_prefix: false,
        strict_size: false,
    }
}

/// An `UP(Tokens)` instruction under the current format: opcode, declared
/// size, tag, reserved byte, owner, resource, amount. The substate occupies
/// 69 bytes after the size prefix.
fn up_tokens_bytes(declared: u16) -> Vec<u8> {
    let mut data = vec![0x02];
    data.extend(declared.to_be_bytes());
    data.push(0x06); // Tokens tag
    data.push(0x00); // reserved
    data.push(0x04); // owner: public-key address
    data.extend(vec![0x07; 33]);
    data.push(0x01); // resource: native token
    data.extend((0u8..32u8).collect::<Vec<u8>>()); // amount
    data
}

#[test]
fn empty_buffer_decodes_to_no_instructions() {
    let tx = Transaction::from_bytes(vec![], Format::current()).unwrap();
    assert_eq!(tx.instructions.len(), 0);
}

#[test]
fn end_opcode_decodes_to_single_end() {
    let tx = Transaction::from_bytes(vec![0x00], Format::current()).unwrap();
    assert_eq!(tx.instructions, vec![Instruction::END]);

    let mut c = Cursor::new(vec![0x00]);
    assert_eq!(Instruction::from_buffer(&mut c, Format::current()), Ok(Instruction::END));
    assert_eq!(c.position(), 1);
}

#[test]
fn header_decodes_to_version_and_flags() {
    let tx = Transaction::from_bytes(vec![0x0D, 0x01, 0x00], Format::current()).unwrap();
    assert_eq!(tx.instructions, vec![Instruction::HEADER(1, 0)]);
}

#[test]
fn msg_with_two_byte_length_prefix() {
    let tx =
        Transaction::from_bytes(vec![0x0C, 0x00, 0x03, 0x61, 0x62, 0x63], Format::current())
            .unwrap();
    assert_eq!(tx.instructions.len(), 1);
    match &tx.instructions[0] {
        Instruction::MSG(b) => {
            assert_eq!(b.length, 3);
            assert_eq!(b.data, b"abc".to_vec());
        }
        other => panic!("expected MSG, got {:?}", other),
    }
}

#[test]
fn decoding_twice_yields_identical_transactions() {
    let mut data = vec![0x0D, 0x01, 0x00];
    data.extend(up_tokens_bytes(0));
    data.extend(vec![0x0C, 0x00, 0x02, 0x68, 0x69]);
    data.push(0x00);
    let tx1 = Transaction::from_bytes(data.clone(), Format::current()).unwrap();
    let tx2 = Transaction::from_bytes(data, Format::current()).unwrap();
    assert_eq!(tx1, tx2);
}

#[test]
fn trailing_bytes_after_end_are_not_ignored() {
    assert_eq!(
        Transaction::from_bytes(vec![0x00, 0x10], Format::current()),
        Err(DecodeError::UnknownOpcode { offset: 1, value: 0x10 })
    );
}

#[test]
fn truncated_instruction_fails_with_end_of_buffer() {
    assert_eq!(
        Transaction::from_bytes(vec![0x0D, 0x01], Format::current()),
        Err(DecodeError::UnexpectedEndOfBuffer { offset: 2 })
    );
}

#[test]
fn unknown_opcode_is_rejected_with_its_value() {
    assert_eq!(
        Transaction::from_bytes(vec![0xAB], Format::current()),
        Err(DecodeError::UnknownOpcode { offset: 0, value: 0xAB })
    );
}

#[test]
fn up_tokens_fields_are_decoded_in_order() {
    let mut data = up_tokens_bytes(0);
    data.push(0x00); // END
    let tx = Transaction::from_bytes(data, Format::current()).unwrap();
    assert_eq!(tx.instructions.len(), 2);
    match &tx.instructions[0] {
        Instruction::UP(Substate::Tokens(t)) => {
            assert_eq!(t.reserved, 0);
            assert_eq!(t.owner, Address::PublicKey(vec![0x07; 33]));
            assert_eq!(t.resource, Address::RadixNativeToken);
            assert_eq!(t.amount.raw, (0u8..32u8).collect::<Vec<u8>>());
        }
        other => panic!("expected UP(Tokens), got {:?}", other),
    }
    assert_eq!(tx.instructions[1], Instruction::END);
}

#[test]
fn nonzero_reserved_byte_rejects_whole_transaction() {
    // Opcode, size envelope, Tokens tag, then a reserved byte of 0x05.
    let data = vec![0x02, 0x00, 0x00, 0x06, 0x05];
    assert_eq!(
        Transaction::from_bytes(data, Format::current()),
        Err(DecodeError::ReservedByteViolation { offset: 4, value: 5 })
    );
}

#[test]
fn unknown_substate_tag_rejects_whole_transaction() {
    let data = vec![0x02, 0x00, 0x00, 0x02];
    assert_eq!(
        Transaction::from_bytes(data, Format::current()),
        Err(DecodeError::UnknownSubstateType { offset: 3, value: 2 })
    );
}

#[test]
fn unknown_substate_tag_consumes_exactly_the_tag_byte() {
    let mut c = Cursor::new(vec![0xFF, 0xAA, 0xBB]);
    assert_eq!(
        Substate::from_buffer(&mut c, Format::current()),
        Err(DecodeError::UnknownSubstateType { offset: 0, value: 0xFF })
    );
    assert_eq!(c.position(), 1);
}

#[test]
fn strict_format_accepts_matching_declared_size() {
    let mut data = up_tokens_bytes(69);
    data.push(0x00);
    let tx = Transaction::from_bytes(data, Format::current_strict()).unwrap();
    assert_eq!(tx.instructions.len(), 2);
}

#[test]
fn strict_format_rejects_mismatching_declared_size() {
    let data = up_tokens_bytes(68);
    assert_eq!(
        Transaction::from_bytes(data, Format::current_strict()),
        Err(DecodeError::SizeMismatch { offset: 1, declared: 68, consumed: 69 })
    );
}

#[test]
fn lenient_format_ignores_declared_size() {
    let mut data = up_tokens_bytes(68);
    data.push(0x00);
    let tx = Transaction::from_bytes(data, Format::current()).unwrap();
    assert_eq!(tx.instructions.len(), 2);
}

#[test]
fn token_resource_with_minter() {
    let mut data = vec![0x02, 0x00, 0x00, 0x04, 0x00]; // UP, size, tag, reserved
    data.push(0x01); // resource: native token
    let mut granularity = vec![0x00; 32];
    granularity[31] = 0x01;
    data.extend(granularity.clone());
    data.push(0x01); // is_mutable: true
    data.push(0x01); // minter present
    data.extend(vec![0x0A; 33]);
    let tx = Transaction::from_bytes(data, Format::current()).unwrap();
    match &tx.instructions[0] {
        Instruction::UP(Substate::TokenResource(t)) => {
            assert_eq!(t.resource, Address::RadixNativeToken);
            assert_eq!(t.granularity.raw, granularity);
            assert_eq!(t.is_mutable.raw, 1);
            assert_eq!(t.minter.as_ref().unwrap().raw, vec![0x0A; 33]);
        }
        other => panic!("expected UP(TokenResource), got {:?}", other),
    }
}

#[test]
fn token_resource_without_minter() {
    let mut data = vec![0x02, 0x00, 0x00, 0x04, 0x00];
    data.push(0x01);
    data.extend(vec![0x00; 32]);
    data.push(0x00); // is_mutable: false
    data.push(0x00); // no minter
    let tx = Transaction::from_bytes(data, Format::current()).unwrap();
    match &tx.instructions[0] {
        Instruction::UP(Substate::TokenResource(t)) => {
            assert_eq!(t.is_mutable.raw, 0);
            assert!(t.minter.is_none());
        }
        other => panic!("expected UP(TokenResource), got {:?}", other),
    }
}

#[test]
fn token_resource_bad_boolean_rejected() {
    let mut data = vec![0x02, 0x00, 0x00, 0x04, 0x00];
    data.push(0x01);
    data.extend(vec![0x00; 32]);
    data.push(0x07); // not a legal boolean
    assert_eq!(
        Transaction::from_bytes(data, Format::current()),
        Err(DecodeError::InvalidEnumValue { offset: 38, value: 7 })
    );
}

#[test]
fn token_resource_metadata_strings() {
    let mut data = vec![0x02, 0x00, 0x00, 0x05, 0x00]; // UP, size, tag, reserved
    data.push(0x01); // resource
    data.extend(vec![0x00, 0x03, 0x61, 0x62, 0x63]); // name "abc"
    data.extend(vec![0x00, 0x00]); // description ""
    data.extend(vec![0x00, 0x00]); // url ""
    data.extend(vec![0x00, 0x00]); // icon url ""
    let tx = Transaction::from_bytes(data, Format::current()).unwrap();
    match &tx.instructions[0] {
        Instruction::UP(Substate::TokenResourceMetadata(m)) => {
            assert_eq!(m.name.data, "abc");
            assert_eq!(m.name.length, 3);
            assert_eq!(m.description.data, "");
            assert_eq!(m.url.data, "");
            assert_eq!(m.icon_url.data, "");
        }
        other => panic!("expected UP(TokenResourceMetadata), got {:?}", other),
    }
}

#[test]
fn invalid_utf8_in_metadata_rejected() {
    let mut data = vec![0x02, 0x00, 0x00, 0x05, 0x00];
    data.push(0x01);
    data.extend(vec![0x00, 0x01, 0xFF]); // name: one byte that is not UTF-8
    assert_eq!(
        Transaction::from_bytes(data, Format::current()),
        Err(DecodeError::InvalidEncoding { offset: 6 })
    );
}

#[test]
fn prepared_stake_fields() {
    let mut data = vec![0x02, 0x00, 0x00, 0x07, 0x00]; // UP, size, tag, reserved
    data.extend(vec![0x0B; 33]); // validator
    data.push(0x00); // owner: system
    data.extend(vec![0x02; 32]); // amount
    let tx = Transaction::from_bytes(data, Format::current()).unwrap();
    match &tx.instructions[0] {
        Instruction::UP(Substate::PreparedStake(p)) => {
            assert_eq!(p.validator.raw, vec![0x0B; 33]);
            assert_eq!(p.owner, Address::System);
            assert_eq!(p.amount.raw, vec![0x02; 32]);
        }
        other => panic!("expected UP(PreparedStake), got {:?}", other),
    }
}

#[test]
fn validator_rake_copy_with_epoch() {
    let mut data = vec![0x02, 0x00, 0x00, 0x10, 0x00]; // UP, size, tag, reserved
    data.push(0x01); // epoch present
    data.extend(5u64.to_be_bytes());
    data.extend(vec![0x09; 33]); // validator
    data.extend(25u32.to_be_bytes()); // rake
    let tx = Transaction::from_bytes(data, Format::current()).unwrap();
    match &tx.instructions[0] {
        Instruction::UP(Substate::ValidatorRakeCopy(v)) => {
            assert_eq!(v.update_epoch, Some(5));
            assert_eq!(v.validator.raw, vec![0x09; 33]);
            assert_eq!(v.rake, 25);
        }
        other => panic!("expected UP(ValidatorRakeCopy), got {:?}", other),
    }
}

#[test]
fn validator_owner_copy_without_epoch() {
    let mut data = vec![0x02, 0x00, 0x00, 0x11, 0x00]; // UP, size, tag, reserved
    data.push(0x00); // no epoch
    data.extend(vec![0x0C; 33]); // validator
    data.push(0x01); // owner: native token address
    let tx = Transaction::from_bytes(data, Format::current()).unwrap();
    match &tx.instructions[0] {
        Instruction::UP(Substate::ValidatorOwnerCopy(v)) => {
            assert_eq!(v.update_epoch, None);
            assert_eq!(v.owner, Address::RadixNativeToken);
        }
        other => panic!("expected UP(ValidatorOwnerCopy), got {:?}", other),
    }
}

#[test]
fn simple_opcodes_round_out_the_instruction_set() {
    let mut data = Vec::new();
    // READ: hash + index
    data.push(0x03);
    data.extend(vec![0x01; 32]);
    data.extend(9u32.to_be_bytes());
    // LREAD: local index
    data.extend(vec![0x04, 0x00, 0x2A]);
    // VREAD: length-prefixed blob
    data.extend(vec![0x05, 0x00, 0x02, 0xD0, 0xD1]);
    // LDOWN: local index
    data.extend(vec![0x08, 0x01, 0x00]);
    // SIG: recovery id + two components
    data.push(0x0B);
    data.push(0x00);
    data.extend(vec![0xA1; 32]);
    data.extend(vec![0xA2; 32]);
    // READINDEX: length-prefixed bytes
    data.extend(vec![0x0E, 0x00, 0x01, 0x55]);
    data.push(0x00); // END
    let tx = Transaction::from_bytes(data, Format::current()).unwrap();
    assert_eq!(tx.instructions.len(), 7);
    match &tx.instructions[0] {
        Instruction::READ(id) => {
            assert_eq!(id.hash.raw, vec![0x01; 32]);
            assert_eq!(id.index, 9);
        }
        other => panic!("expected READ, got {:?}", other),
    }
    assert_eq!(tx.instructions[1], Instruction::LREAD(42));
    match &tx.instructions[2] {
        Instruction::VREAD(v) => assert_eq!(v.data, vec![0xD0, 0xD1]),
        other => panic!("expected VREAD, got {:?}", other),
    }
    assert_eq!(tx.instructions[3], Instruction::LDOWN(256));
    match &tx.instructions[4] {
        Instruction::SIG(sig) => {
            assert_eq!(sig.v, 0);
            assert_eq!(sig.r, vec![0xA1; 32]);
            assert_eq!(sig.s, vec![0xA2; 32]);
        }
        other => panic!("expected SIG, got {:?}", other),
    }
    match &tx.instructions[5] {
        Instruction::READINDEX(b) => assert_eq!(b.data, vec![0x55]),
        other => panic!("expected READINDEX, got {:?}", other),
    }
    assert_eq!(tx.instructions[6], Instruction::END);
}

#[test]
fn oldest_format_has_no_envelope_and_short_prefixes() {
    let fmt = one_byte_format();
    let mut data = vec![0x02, 0x06]; // UP, Tokens tag: no size, no reserved byte
    data.push(0x00); // owner: system
    data.push(0x01); // resource: native token
    data.extend(vec![0x01; 32]); // amount
    data.extend(vec![0x0C, 0x03, 0x78, 0x79, 0x7A]); // MSG "xyz", one-byte prefix
    data.push(0x00); // END
    let tx = Transaction::from_bytes(data, fmt).unwrap();
    assert_eq!(tx.instructions.len(), 3);
    match &tx.instructions[0] {
        Instruction::UP(Substate::Tokens(t)) => {
            assert_eq!(t.reserved, 0);
            assert_eq!(t.owner, Address::System);
        }
        other => panic!("expected UP(Tokens), got {:?}", other),
    }
    match &tx.instructions[1] {
        Instruction::MSG(b) => assert_eq!(b.data, b"xyz".to_vec()),
        other => panic!("expected MSG, got {:?}", other),
    }
}

#[test]
fn hex_fixture_decodes() {
    let raw = hex::decode("0d01000c000361626300").unwrap();
    let tx = Transaction::from_bytes(raw, Format::current()).unwrap();
    assert_eq!(tx.instructions.len(), 3);
    assert_eq!(tx.instructions[0], Instruction::HEADER(1, 0));
    match &tx.instructions[1] {
        Instruction::MSG(b) => assert_eq!(b.data, b"abc".to_vec()),
        other => panic!("expected MSG, got {:?}", other),
    }
    assert_eq!(tx.instructions[2], Instruction::END);
}
