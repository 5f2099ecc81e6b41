use txn_decoder::cursor::Cursor;
use txn_decoder::error::DecodeError;
use txn_decoder::format::{Format, LengthPrefix};
use txn_decoder::substates::{
    ExitingStake, PreparedUnstake, StakeOwnership, Substate, TokenResource, ValidatorMetadata,
};
use txn_decoder::types::{Address, LocalVirtualSubstateID};

#[test]
fn validator_metadata_decodes_directly() {
    let mut data = vec![0x00]; // reserved
    data.extend(vec![0x0D; 33]); // validator
    data.extend(vec![0x00, 0x04, 0x6E, 0x6F, 0x64, 0x65]); // name "node"
    data.extend(vec![0x00, 0x00]); // url ""
    let mut c = Cursor::new(data);
    let v = ValidatorMetadata::from_buffer(&mut c, Format::current()).unwrap();
    assert_eq!(v.reserved, 0);
    assert_eq!(v.validator.raw, vec![0x0D; 33]);
    assert_eq!(v.name.data, "node");
    assert_eq!(v.url.data, "");
    assert_eq!(c.position(), 42);
}

#[test]
fn stake_ownership_via_tag_dispatch() {
    let mut data = vec![0x08, 0x00]; // tag, reserved
    data.extend(vec![0x0E; 33]);
    data.push(0x00); // owner: system
    data.extend(vec![0x03; 32]);
    let mut c = Cursor::new(data);
    match Substate::from_buffer(&mut c, Format::current()).unwrap() {
        Substate::StakeOwnership(StakeOwnership { validator, owner, amount, .. }) => {
            assert_eq!(validator.raw, vec![0x0E; 33]);
            assert_eq!(owner, Address::System);
            assert_eq!(amount.raw, vec![0x03; 32]);
        }
        other => panic!("expected StakeOwnership, got {:?}", other),
    }
}

#[test]
fn prepared_unstake_via_tag_dispatch() {
    let mut data = vec![0x09, 0x00];
    data.extend(vec![0x0F; 33]);
    data.push(0x01); // owner: native token
    data.extend(vec![0x04; 32]);
    let mut c = Cursor::new(data);
    match Substate::from_buffer(&mut c, Format::current()).unwrap() {
        Substate::PreparedUnstake(PreparedUnstake { owner, .. }) => {
            assert_eq!(owner, Address::RadixNativeToken);
        }
        other => panic!("expected PreparedUnstake, got {:?}", other),
    }
}

#[test]
fn exiting_stake_via_tag_dispatch() {
    let mut data = vec![0x0A, 0x00];
    data.extend(77u64.to_be_bytes());
    data.extend(vec![0x10; 33]);
    data.extend(vec![0x05; 32]); // amount
    data.extend(vec![0x06; 32]); // ownership
    let mut c = Cursor::new(data);
    match Substate::from_buffer(&mut c, Format::current()).unwrap() {
        Substate::ExitingStake(ExitingStake { epoch_unlocked, amount, ownership, .. }) => {
            assert_eq!(epoch_unlocked, 77);
            assert_eq!(amount.raw, vec![0x05; 32]);
            assert_eq!(ownership.raw, vec![0x06; 32]);
        }
        other => panic!("expected ExitingStake, got {:?}", other),
    }
}

#[test]
fn allow_delegation_flag_via_tag_dispatch() {
    let mut data = vec![0x0E, 0x00];
    data.extend(vec![0x11; 33]);
    data.push(0x01);
    let mut c = Cursor::new(data);
    match Substate::from_buffer(&mut c, Format::current()).unwrap() {
        Substate::ValidatorAllowDelegationFlag(v) => {
            assert_eq!(v.is_delegation_allowed.raw, 1);
        }
        other => panic!("expected ValidatorAllowDelegationFlag, got {:?}", other),
    }
}

#[test]
fn registered_flag_copy_with_epoch_via_tag_dispatch() {
    let mut data = vec![0x0F, 0x00];
    data.push(0x01); // epoch present
    data.extend(123u64.to_be_bytes());
    data.extend(vec![0x12; 33]);
    data.push(0x00); // not registered
    let mut c = Cursor::new(data);
    match Substate::from_buffer(&mut c, Format::current()).unwrap() {
        Substate::ValidatorRegisteredFlagCopy(v) => {
            assert_eq!(v.update_epoch, Some(123));
            assert_eq!(v.is_registered.raw, 0);
        }
        other => panic!("expected ValidatorRegisteredFlagCopy, got {:?}", other),
    }
}

#[test]
fn registered_flag_copy_bad_epoch_flag_rejected() {
    let data = vec![0x0F, 0x00, 0x03];
    let mut c = Cursor::new(data);
    assert_eq!(
        Substate::from_buffer(&mut c, Format::current()),
        Err(DecodeError::InvalidEnumValue { offset: 2, value: 3 })
    );
}

#[test]
fn token_resource_without_reserved_byte_in_old_format() {
    let fmt = Format {
        length_prefix: LengthPrefix::One,
        reserved_byte: false,
        size_prefix: false,
        strict_size: false,
    };
    let mut data = vec![0x01]; // resource: native token, no reserved byte first
    data.extend(vec![0x00; 32]); // granularity
    data.push(0x00); // immutable
    data.push(0x00); // no minter
    let mut c = Cursor::new(data);
    let t = TokenResource::from_buffer(&mut c, fmt).unwrap();
    assert_eq!(t.reserved, 0);
    assert_eq!(t.resource, Address::RadixNativeToken);
    assert_eq!(c.position(), 35);
}

#[test]
fn local_virtual_substate_id_is_length_prefixed() {
    let mut c = Cursor::new(vec![0x00, 0x03, 0x30, 0x31, 0x32]);
    let v = LocalVirtualSubstateID::from_buffer(&mut c, Format::current()).unwrap();
    assert_eq!(v.length, 3);
    assert_eq!(v.data, vec![0x30, 0x31, 0x32]);
}
