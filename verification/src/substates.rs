use vstd::prelude::*;

use crate::cursor::{spec_read_u64, spec_read_u8, Cursor};
use crate::error::DecodeError;
use crate::format::Format;
use crate::types::{
    spec_address, spec_boolean, spec_public_key, spec_u256, spec_utf8, Address, AddressV, Boolean,
    PublicKey, U256, UTF8,
};

verus! {

/// Token resource definition: the resource address, its granularity, and an
/// optional minter key.
#[derive(Debug, Clone, PartialEq, Eq)]
pub struct TokenResource {
    pub reserved: u8,
    pub resource: Address,
    pub granularity: U256,
    pub is_mutable: Boolean,
    pub minter: Option<PublicKey>,
}

/// Token resource metadata: name, description and URLs of a resource.
#[derive(Debug, Clone, PartialEq, Eq)]
pub struct TokenResourceMetadata {
    pub reserved: u8,
    pub resource: Address,
    pub name: UTF8,
    pub description: UTF8,
    pub url: UTF8,
    pub icon_url: UTF8,
}

/// Fungible token holding: an amount of a resource held by an owner.
#[derive(Debug, Clone, PartialEq, Eq)]
pub struct Tokens {
    pub reserved: u8,
    pub owner: Address,
    pub resource: Address,
    pub amount: U256,
}

/// Stake being prepared for a validator.
#[derive(Debug, Clone, PartialEq, Eq)]
pub struct PreparedStake {
    pub reserved: u8,
    pub validator: PublicKey,
    pub owner: Address,
    pub amount: U256,
}

/// Ownership share of a validator's stake.
#[derive(Debug, Clone, PartialEq, Eq)]
pub struct StakeOwnership {
    pub reserved: u8,
    pub validator: PublicKey,
    pub owner: Address,
    pub amount: U256,
}

/// Unstake being prepared from a validator.
#[derive(Debug, Clone, PartialEq, Eq)]
pub struct PreparedUnstake {
    pub reserved: u8,
    pub validator: PublicKey,
    pub owner: Address,
    pub amount: U256,
}

/// Stake exiting a validator, unlocked at a given epoch.
#[derive(Debug, Clone, PartialEq, Eq)]
pub struct ExitingStake {
    pub reserved: u8,
    pub epoch_unlocked: u64,
    pub validator: PublicKey,
    pub amount: U256,
    pub ownership: U256,
}

/// Validator metadata: display name and URL.
#[derive(Debug, Clone, PartialEq, Eq)]
pub struct ValidatorMetadata {
    pub reserved: u8,
    pub validator: PublicKey,
    pub name: UTF8,
    pub url: UTF8,
}

/// Whether a validator allows delegated stake.
#[derive(Debug, Clone, PartialEq, Eq)]
pub struct ValidatorAllowDelegationFlag {
    pub reserved: u8,
    pub validator: PublicKey,
    pub is_delegation_allowed: Boolean,
}

/// Copy of a validator's registered flag, with an optional update epoch.
#[derive(Debug, Clone, PartialEq, Eq)]
pub struct ValidatorRegisteredFlagCopy {
    pub reserved: u8,
    pub update_epoch: Option<u64>,
    pub validator: PublicKey,
    pub is_registered: Boolean,
}

/// Copy of a validator's rake, with an optional update epoch.
#[derive(Debug, Clone, PartialEq, Eq)]
pub struct ValidatorRakeCopy {
    pub reserved: u8,
    pub update_epoch: Option<u64>,
    pub validator: PublicKey,
    pub rake: u32,
}

/// Copy of a validator's owner address, with an optional update epoch.
#[derive(Debug, Clone, PartialEq, Eq)]
pub struct ValidatorOwnerCopy {
    pub reserved: u8,
    pub update_epoch: Option<u64>,
    pub validator: PublicKey,
    pub owner: Address,
}

/// One substate record out of the closed set of variants.
#[derive(Debug, Clone, PartialEq, Eq)]
pub enum Substate {
    TokenResource(TokenResource),
    TokenResourceMetadata(TokenResourceMetadata),
    Tokens(Tokens),
    PreparedStake(PreparedStake),
    StakeOwnership(StakeOwnership),
    PreparedUnstake(PreparedUnstake),
    ExitingStake(ExitingStake),
    ValidatorMetadata(ValidatorMetadata),
    ValidatorAllowDelegationFlag(ValidatorAllowDelegationFlag),
    ValidatorRegisteredFlagCopy(ValidatorRegisteredFlagCopy),
    ValidatorRakeCopy(ValidatorRakeCopy),
    ValidatorOwnerCopy(ValidatorOwnerCopy),
}

/// Mathematical value of a [`TokenResource`].
#[verifier::ext_equal]
pub struct TokenResourceV {
    pub resource: AddressV,
    pub granularity: Seq<u8>,
    pub is_mutable: bool,
    pub minter: Option<Seq<u8>>,
}

/// Mathematical value of a [`TokenResourceMetadata`].
#[verifier::ext_equal]
pub struct TokenResourceMetadataV {
    pub resource: AddressV,
    pub name: Seq<char>,
    pub description: Seq<char>,
    pub url: Seq<char>,
    pub icon_url: Seq<char>,
}

/// Mathematical value of a [`Tokens`].
#[verifier::ext_equal]
pub struct TokensV {
    pub owner: AddressV,
    pub resource: AddressV,
    pub amount: Seq<u8>,
}

/// Mathematical value of a [`PreparedStake`], [`StakeOwnership`] or
/// [`PreparedUnstake`]: the three share one field layout.
#[verifier::ext_equal]
pub struct StakingV {
    pub validator: Seq<u8>,
    pub owner: AddressV,
    pub amount: Seq<u8>,
}

/// Mathematical value of an [`ExitingStake`].
#[verifier::ext_equal]
pub struct ExitingStakeV {
    pub epoch_unlocked: u64,
    pub validator: Seq<u8>,
    pub amount: Seq<u8>,
    pub ownership: Seq<u8>,
}

/// Mathematical value of a [`ValidatorMetadata`].
#[verifier::ext_equal]
pub struct ValidatorMetadataV {
    pub validator: Seq<u8>,
    pub name: Seq<char>,
    pub url: Seq<char>,
}

/// Mathematical value of a [`ValidatorAllowDelegationFlag`].
#[verifier::ext_equal]
pub struct ValidatorAllowDelegationFlagV {
    pub validator: Seq<u8>,
    pub is_delegation_allowed: bool,
}

/// Mathematical value of a [`ValidatorRegisteredFlagCopy`].
#[verifier::ext_equal]
pub struct ValidatorRegisteredFlagCopyV {
    pub update_epoch: Option<u64>,
    pub validator: Seq<u8>,
    pub is_registered: bool,
}

/// Mathematical value of a [`ValidatorRakeCopy`].
#[verifier::ext_equal]
pub struct ValidatorRakeCopyV {
    pub update_epoch: Option<u64>,
    pub validator: Seq<u8>,
    pub rake: u32,
}

/// Mathematical value of a [`ValidatorOwnerCopy`].
#[verifier::ext_equal]
pub struct ValidatorOwnerCopyV {
    pub update_epoch: Option<u64>,
    pub validator: Seq<u8>,
    pub owner: AddressV,
}

/// Mathematical value of a [`Substate`].
#[verifier::ext_equal]
pub enum SubstateV {
    TokenResource(TokenResourceV),
    TokenResourceMetadata(TokenResourceMetadataV),
    Tokens(TokensV),
    PreparedStake(StakingV),
    StakeOwnership(StakingV),
    PreparedUnstake(StakingV),
    ExitingStake(ExitingStakeV),
    ValidatorMetadata(ValidatorMetadataV),
    ValidatorAllowDelegationFlag(ValidatorAllowDelegationFlagV),
    ValidatorRegisteredFlagCopy(ValidatorRegisteredFlagCopyV),
    ValidatorRakeCopy(ValidatorRakeCopyV),
    ValidatorOwnerCopy(ValidatorOwnerCopyV),
}

impl View for TokenResource {
    type V = TokenResourceV;

    open spec fn view(&self) -> TokenResourceV {
        TokenResourceV {
            resource: self.resource@,
            granularity: self.granularity@,
            is_mutable: self.is_mutable@,
            minter: match self.minter {
                Some(k) => Some(k.raw@),
                None => None,
            },
        }
    }
}

impl TokenResource {
    pub open spec fn wf(&self) -> bool {
        &&& self.reserved == 0
        &&& self.resource.wf()
        &&& self.granularity.wf()
        &&& self.is_mutable.wf()
        &&& (match self.minter {
            Some(k) => k.wf(),
            None => true,
        })
    }
}

impl View for TokenResourceMetadata {
    type V = TokenResourceMetadataV;

    open spec fn view(&self) -> TokenResourceMetadataV {
        TokenResourceMetadataV {
            resource: self.resource@,
            name: self.name@,
            description: self.description@,
            url: self.url@,
            icon_url: self.icon_url@,
        }
    }
}

impl TokenResourceMetadata {
    pub open spec fn wf(&self) -> bool {
        &&& self.reserved == 0
        &&& self.resource.wf()
        &&& self.name.wf()
        &&& self.description.wf()
        &&& self.url.wf()
        &&& self.icon_url.wf()
    }
}

impl View for Tokens {
    type V = TokensV;

    open spec fn view(&self) -> TokensV {
        TokensV { owner: self.owner@, resource: self.resource@, amount: self.amount@ }
    }
}

impl Tokens {
    pub open spec fn wf(&self) -> bool {
        &&& self.reserved == 0
        &&& self.owner.wf()
        &&& self.resource.wf()
        &&& self.amount.wf()
    }
}

impl View for PreparedStake {
    type V = StakingV;

    open spec fn view(&self) -> StakingV {
        StakingV { validator: self.validator@, owner: self.owner@, amount: self.amount@ }
    }
}

impl PreparedStake {
    pub open spec fn wf(&self) -> bool {
        &&& self.reserved == 0
        &&& self.validator.wf()
        &&& self.owner.wf()
        &&& self.amount.wf()
    }
}

impl View for StakeOwnership {
    type V = StakingV;

    open spec fn view(&self) -> StakingV {
        StakingV { validator: self.validator@, owner: self.owner@, amount: self.amount@ }
    }
}

impl StakeOwnership {
    pub open spec fn wf(&self) -> bool {
        &&& self.reserved == 0
        &&& self.validator.wf()
        &&& self.owner.wf()
        &&& self.amount.wf()
    }
}

impl View for PreparedUnstake {
    type V = StakingV;

    open spec fn view(&self) -> StakingV {
        StakingV { validator: self.validator@, owner: self.owner@, amount: self.amount@ }
    }
}

impl PreparedUnstake {
    pub open spec fn wf(&self) -> bool {
        &&& self.reserved == 0
        &&& self.validator.wf()
        &&& self.owner.wf()
        &&& self.amount.wf()
    }
}

impl View for ExitingStake {
    type V = ExitingStakeV;

    open spec fn view(&self) -> ExitingStakeV {
        ExitingStakeV {
            epoch_unlocked: self.epoch_unlocked,
            validator: self.validator@,
            amount: self.amount@,
            ownership: self.ownership@,
        }
    }
}

impl ExitingStake {
    pub open spec fn wf(&self) -> bool {
        &&& self.reserved == 0
        &&& self.validator.wf()
        &&& self.amount.wf()
        &&& self.ownership.wf()
    }
}

impl View for ValidatorMetadata {
    type V = ValidatorMetadataV;

    open spec fn view(&self) -> ValidatorMetadataV {
        ValidatorMetadataV { validator: self.validator@, name: self.name@, url: self.url@ }
    }
}

impl ValidatorMetadata {
    pub open spec fn wf(&self) -> bool {
        &&& self.reserved == 0
        &&& self.validator.wf()
        &&& self.name.wf()
        &&& self.url.wf()
    }
}

impl View for ValidatorAllowDelegationFlag {
    type V = ValidatorAllowDelegationFlagV;

    open spec fn view(&self) -> ValidatorAllowDelegationFlagV {
        ValidatorAllowDelegationFlagV {
            validator: self.validator@,
            is_delegation_allowed: self.is_delegation_allowed@,
        }
    }
}

impl ValidatorAllowDelegationFlag {
    pub open spec fn wf(&self) -> bool {
        &&& self.reserved == 0
        &&& self.validator.wf()
        &&& self.is_delegation_allowed.wf()
    }
}

impl View for ValidatorRegisteredFlagCopy {
    type V = ValidatorRegisteredFlagCopyV;

    open spec fn view(&self) -> ValidatorRegisteredFlagCopyV {
        ValidatorRegisteredFlagCopyV {
            update_epoch: self.update_epoch,
            validator: self.validator@,
            is_registered: self.is_registered@,
        }
    }
}

impl ValidatorRegisteredFlagCopy {
    pub open spec fn wf(&self) -> bool {
        &&& self.reserved == 0
        &&& self.validator.wf()
        &&& self.is_registered.wf()
    }
}

impl View for ValidatorRakeCopy {
    type V = ValidatorRakeCopyV;

    open spec fn view(&self) -> ValidatorRakeCopyV {
        ValidatorRakeCopyV {
            update_epoch: self.update_epoch,
            validator: self.validator@,
            rake: self.rake,
        }
    }
}

impl ValidatorRakeCopy {
    pub open spec fn wf(&self) -> bool {
        &&& self.reserved == 0
        &&& self.validator.wf()
    }
}

impl View for ValidatorOwnerCopy {
    type V = ValidatorOwnerCopyV;

    open spec fn view(&self) -> ValidatorOwnerCopyV {
        ValidatorOwnerCopyV {
            update_epoch: self.update_epoch,
            validator: self.validator@,
            owner: self.owner@,
        }
    }
}

impl ValidatorOwnerCopy {
    pub open spec fn wf(&self) -> bool {
        &&& self.reserved == 0
        &&& self.validator.wf()
        &&& self.owner.wf()
    }
}

impl View for Substate {
    type V = SubstateV;

    open spec fn view(&self) -> SubstateV {
        match self {
            Substate::TokenResource(v) => SubstateV::TokenResource(v@),
            Substate::TokenResourceMetadata(v) => SubstateV::TokenResourceMetadata(v@),
            Substate::Tokens(v) => SubstateV::Tokens(v@),
            Substate::PreparedStake(v) => SubstateV::PreparedStake(v@),
            Substate::StakeOwnership(v) => SubstateV::StakeOwnership(v@),
            Substate::PreparedUnstake(v) => SubstateV::PreparedUnstake(v@),
            Substate::ExitingStake(v) => SubstateV::ExitingStake(v@),
            Substate::ValidatorMetadata(v) => SubstateV::ValidatorMetadata(v@),
            Substate::ValidatorAllowDelegationFlag(v) => SubstateV::ValidatorAllowDelegationFlag(
                v@,
            ),
            Substate::ValidatorRegisteredFlagCopy(v) => SubstateV::ValidatorRegisteredFlagCopy(v@),
            Substate::ValidatorRakeCopy(v) => SubstateV::ValidatorRakeCopy(v@),
            Substate::ValidatorOwnerCopy(v) => SubstateV::ValidatorOwnerCopy(v@),
        }
    }
}

impl Substate {
    pub open spec fn wf(&self) -> bool {
        match self {
            Substate::TokenResource(v) => v.wf(),
            Substate::TokenResourceMetadata(v) => v.wf(),
            Substate::Tokens(v) => v.wf(),
            Substate::PreparedStake(v) => v.wf(),
            Substate::StakeOwnership(v) => v.wf(),
            Substate::PreparedUnstake(v) => v.wf(),
            Substate::ExitingStake(v) => v.wf(),
            Substate::ValidatorMetadata(v) => v.wf(),
            Substate::ValidatorAllowDelegationFlag(v) => v.wf(),
            Substate::ValidatorRegisteredFlagCopy(v) => v.wf(),
            Substate::ValidatorRakeCopy(v) => v.wf(),
            Substate::ValidatorOwnerCopy(v) => v.wf(),
        }
    }
}

/// Decoding the reserved byte in front of a substate's fields, where the
/// format carries one: it must be zero, and any other value is
/// `ReservedByteViolation` carrying it. Formats without reserved bytes
/// consume nothing here.
pub open spec fn spec_reserved(s: Seq<u8>, pos: int, fmt: Format) -> Result<int, DecodeError> {
    if !fmt.reserved_byte {
        Ok(pos)
    } else {
        match spec_read_u8(s, pos) {
            Err(e) => Err(e),
            Ok((b, p)) => if b == 0 {
                Ok(p)
            } else {
                Err(DecodeError::ReservedByteViolation { offset: pos as usize, value: b })
            },
        }
    }
}

/// Decoding an optional epoch: a boolean flag, then an eight-byte epoch
/// exactly when the flag is set.
pub open spec fn spec_optional_epoch(s: Seq<u8>, pos: int) -> Result<(Option<u64>, int), DecodeError> {
    match spec_boolean(s, pos) {
        Err(e) => Err(e),
        Ok((flag, p1)) => if flag {
            match spec_read_u64(s, p1) {
                Err(e) => Err(e),
                Ok((n, p2)) => Ok((Some(n), p2)),
            }
        } else {
            Ok((None, p1))
        },
    }
}

/// Decoding a token resource definition.
pub open spec fn spec_token_resource(s: Seq<u8>, pos: int, fmt: Format) -> Result<(TokenResourceV, int), DecodeError> {
    match spec_reserved(s, pos, fmt) {
        Err(e) => Err(e),
        Ok(p1) => match spec_address(s, p1) {
            Err(e) => Err(e),
            Ok((resource, p2)) => match spec_u256(s, p2) {
                Err(e) => Err(e),
                Ok((granularity, p3)) => match spec_boolean(s, p3) {
                    Err(e) => Err(e),
                    Ok((is_mutable, p4)) => match spec_boolean(s, p4) {
                        Err(e) => Err(e),
                        Ok((has_minter, p5)) => if has_minter {
                            match spec_public_key(s, p5) {
                                Err(e) => Err(e),
                                Ok((k, p6)) => Ok((
                                    TokenResourceV {
                                        resource,
                                        granularity,
                                        is_mutable,
                                        minter: Some(k),
                                    },
                                    p6,
                                )),
                            }
                        } else {
                            Ok((
                                TokenResourceV { resource, granularity, is_mutable, minter: None },
                                p5,
                            ))
                        },
                    },
                },
            },
        },
    }
}

/// Decoding token resource metadata.
pub open spec fn spec_token_resource_metadata(s: Seq<u8>, pos: int, fmt: Format) -> Result<
    (TokenResourceMetadataV, int),
    DecodeError,
> {
    match spec_reserved(s, pos, fmt) {
        Err(e) => Err(e),
        Ok(p1) => match spec_address(s, p1) {
            Err(e) => Err(e),
            Ok((resource, p2)) => match spec_utf8(s, p2, fmt) {
                Err(e) => Err(e),
                Ok((name, p3)) => match spec_utf8(s, p3, fmt) {
                    Err(e) => Err(e),
                    Ok((description, p4)) => match spec_utf8(s, p4, fmt) {
                        Err(e) => Err(e),
                        Ok((url, p5)) => match spec_utf8(s, p5, fmt) {
                            Err(e) => Err(e),
                            Ok((icon_url, p6)) => Ok((
                                TokenResourceMetadataV {
                                    resource,
                                    name,
                                    description,
                                    url,
                                    icon_url,
                                },
                                p6,
                            )),
                        },
                    },
                },
            },
        },
    }
}

/// Decoding a fungible token holding.
pub open spec fn spec_tokens(s: Seq<u8>, pos: int, fmt: Format) -> Result<(TokensV, int), DecodeError> {
    match spec_reserved(s, pos, fmt) {
        Err(e) => Err(e),
        Ok(p1) => match spec_address(s, p1) {
            Err(e) => Err(e),
            Ok((owner, p2)) => match spec_address(s, p2) {
                Err(e) => Err(e),
                Ok((resource, p3)) => match spec_u256(s, p3) {
                    Err(e) => Err(e),
                    Ok((amount, p4)) => Ok((TokensV { owner, resource, amount }, p4)),
                },
            },
        },
    }
}

/// Decoding the shared layout of the three staking variants: a validator
/// key, an owner address and an amount.
pub open spec fn spec_staking(s: Seq<u8>, pos: int, fmt: Format) -> Result<(StakingV, int), DecodeError> {
    match spec_reserved(s, pos, fmt) {
        Err(e) => Err(e),
        Ok(p1) => match spec_public_key(s, p1) {
            Err(e) => Err(e),
            Ok((validator, p2)) => match spec_address(s, p2) {
                Err(e) => Err(e),
                Ok((owner, p3)) => match spec_u256(s, p3) {
                    Err(e) => Err(e),
                    Ok((amount, p4)) => Ok((StakingV { validator, owner, amount }, p4)),
                },
            },
        },
    }
}

/// Decoding an exiting stake.
pub open spec fn spec_exiting_stake(s: Seq<u8>, pos: int, fmt: Format) -> Result<(ExitingStakeV, int), DecodeError> {
    match spec_reserved(s, pos, fmt) {
        Err(e) => Err(e),
        Ok(p1) => match spec_read_u64(s, p1) {
            Err(e) => Err(e),
            Ok((epoch_unlocked, p2)) => match spec_public_key(s, p2) {
                Err(e) => Err(e),
                Ok((validator, p3)) => match spec_u256(s, p3) {
                    Err(e) => Err(e),
                    Ok((amount, p4)) => match spec_u256(s, p4) {
                        Err(e) => Err(e),
                        Ok((ownership, p5)) => Ok((
                            ExitingStakeV { epoch_unlocked, validator, amount, ownership },
                            p5,
                        )),
                    },
                },
            },
        },
    }
}

/// Decoding validator metadata.
pub open spec fn spec_validator_metadata(s: Seq<u8>, pos: int, fmt: Format) -> Result<
    (ValidatorMetadataV, int),
    DecodeError,
> {
    match spec_reserved(s, pos, fmt) {
        Err(e) => Err(e),
        Ok(p1) => match spec_public_key(s, p1) {
            Err(e) => Err(e),
            Ok((validator, p2)) => match spec_utf8(s, p2, fmt) {
                Err(e) => Err(e),
                Ok((name, p3)) => match spec_utf8(s, p3, fmt) {
                    Err(e) => Err(e),
                    Ok((url, p4)) => Ok((ValidatorMetadataV { validator, name, url }, p4)),
                },
            },
        },
    }
}

/// Decoding a validator's delegation flag.
pub open spec fn spec_validator_allow_delegation_flag(s: Seq<u8>, pos: int, fmt: Format) -> Result<
    (ValidatorAllowDelegationFlagV, int),
    DecodeError,
> {
    match spec_reserved(s, pos, fmt) {
        Err(e) => Err(e),
        Ok(p1) => match spec_public_key(s, p1) {
            Err(e) => Err(e),
            Ok((validator, p2)) => match spec_boolean(s, p2) {
                Err(e) => Err(e),
                Ok((is_delegation_allowed, p3)) => Ok((
                    ValidatorAllowDelegationFlagV { validator, is_delegation_allowed },
                    p3,
                )),
            },
        },
    }
}

/// Decoding a copy of a validator's registered flag.
pub open spec fn spec_validator_registered_flag_copy(s: Seq<u8>, pos: int, fmt: Format) -> Result<
    (ValidatorRegisteredFlagCopyV, int),
    DecodeError,
> {
    match spec_reserved(s, pos, fmt) {
        Err(e) => Err(e),
        Ok(p1) => match spec_optional_epoch(s, p1) {
            Err(e) => Err(e),
            Ok((update_epoch, p2)) => match spec_public_key(s, p2) {
                Err(e) => Err(e),
                Ok((validator, p3)) => match spec_boolean(s, p3) {
                    Err(e) => Err(e),
                    Ok((is_registered, p4)) => Ok((
                        ValidatorRegisteredFlagCopyV { update_epoch, validator, is_registered },
                        p4,
                    )),
                },
            },
        },
    }
}

/// Decoding a copy of a validator's rake.
pub open spec fn spec_validator_rake_copy(s: Seq<u8>, pos: int, fmt: Format) -> Result<
    (ValidatorRakeCopyV, int),
    DecodeError,
> {
    match spec_reserved(s, pos, fmt) {
        Err(e) => Err(e),
        Ok(p1) => match spec_optional_epoch(s, p1) {
            Err(e) => Err(e),
            Ok((update_epoch, p2)) => match spec_public_key(s, p2) {
                Err(e) => Err(e),
                Ok((validator, p3)) => match crate::cursor::spec_read_u32(s, p3) {
                    Err(e) => Err(e),
                    Ok((rake, p4)) => Ok((
                        ValidatorRakeCopyV { update_epoch, validator, rake },
                        p4,
                    )),
                },
            },
        },
    }
}

/// Decoding a copy of a validator's owner address.
pub open spec fn spec_validator_owner_copy(s: Seq<u8>, pos: int, fmt: Format) -> Result<
    (ValidatorOwnerCopyV, int),
    DecodeError,
> {
    match spec_reserved(s, pos, fmt) {
        Err(e) => Err(e),
        Ok(p1) => match spec_optional_epoch(s, p1) {
            Err(e) => Err(e),
            Ok((update_epoch, p2)) => match spec_public_key(s, p2) {
                Err(e) => Err(e),
                Ok((validator, p3)) => match spec_address(s, p3) {
                    Err(e) => Err(e),
                    Ok((owner, p4)) => Ok((
                        ValidatorOwnerCopyV { update_epoch, validator, owner },
                        p4,
                    )),
                },
            },
        },
    }
}

/// Whether a substate type tag belongs to the supported set.
pub open spec fn is_supported_substate_tag(t: u8) -> bool {
    ||| t == 0x04
    ||| t == 0x05
    ||| t == 0x06
    ||| t == 0x07
    ||| t == 0x08
    ||| t == 0x09
    ||| t == 0x0A
    ||| t == 0x0E
    ||| t == 0x0F
    ||| t == 0x10
    ||| t == 0x11
}

/// Decoding one substate: a one-byte type tag, then the tagged variant's
/// field sequence. A tag outside the supported set is
/// `UnknownSubstateType` carrying it, raised after consuming exactly the
/// tag byte.
pub open spec fn spec_substate(s: Seq<u8>, pos: int, fmt: Format) -> Result<(SubstateV, int), DecodeError> {
    match spec_read_u8(s, pos) {
        Err(e) => Err(e),
        Ok((t, p1)) => match t {
            0x04 => match spec_token_resource(s, p1, fmt) {
                Err(e) => Err(e),
                Ok((v, p2)) => Ok((SubstateV::TokenResource(v), p2)),
            },
            0x05 => match spec_token_resource_metadata(s, p1, fmt) {
                Err(e) => Err(e),
                Ok((v, p2)) => Ok((SubstateV::TokenResourceMetadata(v), p2)),
            },
            0x06 => match spec_tokens(s, p1, fmt) {
                Err(e) => Err(e),
                Ok((v, p2)) => Ok((SubstateV::Tokens(v), p2)),
            },
            0x07 => match spec_staking(s, p1, fmt) {
                Err(e) => Err(e),
                Ok((v, p2)) => Ok((SubstateV::PreparedStake(v), p2)),
            },
            0x08 => match spec_staking(s, p1, fmt) {
                Err(e) => Err(e),
                Ok((v, p2)) => Ok((SubstateV::StakeOwnership(v), p2)),
            },
            0x09 => match spec_staking(s, p1, fmt) {
                Err(e) => Err(e),
                Ok((v, p2)) => Ok((SubstateV::PreparedUnstake(v), p2)),
            },
            0x0A => match spec_exiting_stake(s, p1, fmt) {
                Err(e) => Err(e),
                Ok((v, p2)) => Ok((SubstateV::ExitingStake(v), p2)),
            },
            0x0E => match spec_validator_allow_delegation_flag(s, p1, fmt) {
                Err(e) => Err(e),
                Ok((v, p2)) => Ok((SubstateV::ValidatorAllowDelegationFlag(v), p2)),
            },
            0x0F => match spec_validator_registered_flag_copy(s, p1, fmt) {
                Err(e) => Err(e),
                Ok((v, p2)) => Ok((SubstateV::ValidatorRegisteredFlagCopy(v), p2)),
            },
            0x10 => match spec_validator_rake_copy(s, p1, fmt) {
                Err(e) => Err(e),
                Ok((v, p2)) => Ok((SubstateV::ValidatorRakeCopy(v), p2)),
            },
            0x11 => match spec_validator_owner_copy(s, p1, fmt) {
                Err(e) => Err(e),
                Ok((v, p2)) => Ok((SubstateV::ValidatorOwnerCopy(v), p2)),
            },
            _ => Err(DecodeError::UnknownSubstateType { offset: pos as usize, value: t }),
        },
    }
}

/// Any non-zero value in a reserved-byte field is rejected: when the format
/// carries reserved bytes and a supported type tag is followed by a
/// non-zero byte, the substate decode fails with `ReservedByteViolation`
/// carrying that byte, so no instruction holding the substate is ever
/// produced.
pub proof fn lemma_reserved_byte_violation(s: Seq<u8>, pos: int, fmt: Format)
    requires
        fmt.reserved_byte,
        0 <= pos,
        pos + 2 <= s.len(),
        is_supported_substate_tag(s[pos]),
        s[pos + 1] != 0,
    ensures
        spec_substate(s, pos, fmt) == Err::<(SubstateV, int), DecodeError>(
            (DecodeError::ReservedByteViolation { offset: (pos + 1) as usize, value: s[pos + 1] }),
        ),
{
}

/// A substate type tag outside the supported set is rejected as
/// `UnknownSubstateType` carrying the tag, after consuming exactly the tag
/// byte and nothing further.
pub proof fn lemma_unknown_substate_tag(s: Seq<u8>, pos: int, fmt: Format)
    requires
        0 <= pos,
        pos < s.len(),
        !is_supported_substate_tag(s[pos]),
    ensures
        spec_substate(s, pos, fmt) == Err::<(SubstateV, int), DecodeError>(
            (DecodeError::UnknownSubstateType { offset: pos as usize, value: s[pos] }),
        ),
{
}

/// Read the reserved byte in front of a substate's fields, where the format
/// carries one; it must be zero.
pub(crate) fn read_reserved_byte(buffer: &mut Cursor, fmt: Format) -> (r: Result<u8, DecodeError>)
    ensures
        final(buffer).data@ == old(buffer).data@,
        (match r {
            Ok(b) => b == 0 && spec_reserved(old(buffer).data@, old(buffer).pos as int, fmt)
                == Ok::<int, DecodeError>(final(buffer).pos as int),
            Err(e) => spec_reserved(old(buffer).data@, old(buffer).pos as int, fmt)
                == Err::<int, DecodeError>(e),
        }),
{
    if !fmt.reserved_byte {
        return Ok(0);
    }
    let start = buffer.pos;
    match buffer.read_u8() {
        Err(e) => Err(e),
        Ok(b) => {
            if b == 0 {
                Ok(b)
            } else {
                Err(DecodeError::ReservedByteViolation { offset: start, value: b })
            }
        },
    }
}

/// Read an optional epoch: a boolean flag, then an eight-byte epoch exactly
/// when the flag is set.
pub(crate) fn read_optional_epoch(buffer: &mut Cursor) -> (r: Result<Option<u64>, DecodeError>)
    ensures
        final(buffer).data@ == old(buffer).data@,
        (match r {
            Ok(v) => spec_optional_epoch(old(buffer).data@, old(buffer).pos as int)
                == Ok::<(Option<u64>, int), DecodeError>((v, final(buffer).pos as int)),
            Err(e) => spec_optional_epoch(old(buffer).data@, old(buffer).pos as int)
                == Err::<(Option<u64>, int), DecodeError>(e),
        }),
{
    let flag = match Boolean::from_buffer(buffer) {
        Ok(b) => b,
        Err(e) => return Err(e),
    };
    if flag.raw == 1 {
        match buffer.read_u64() {
            Ok(n) => Ok(Some(n)),
            Err(e) => Err(e),
        }
    } else {
        Ok(None)
    }
}

impl TokenResource {
    /// Decode a token resource definition.
    pub fn from_buffer(buffer: &mut Cursor, fmt: Format) -> (r: Result<TokenResource, DecodeError>)
        ensures
            final(buffer).data@ == old(buffer).data@,
            (match r {
                Ok(v) => ({
                    &&& v.wf()
                    &&& spec_token_resource(old(buffer).data@, old(buffer).pos as int, fmt)
                        == Ok::<(TokenResourceV, int), DecodeError>((v@, final(buffer).pos as int))
                }),
                Err(e) => spec_token_resource(old(buffer).data@, old(buffer).pos as int, fmt)
                    == Err::<(TokenResourceV, int), DecodeError>(e),
            }),
    {
        let reserved = match read_reserved_byte(buffer, fmt) {
            Ok(b) => b,
            Err(e) => return Err(e),
        };
        let resource = match Address::from_buffer(buffer) {
            Ok(v) => v,
            Err(e) => return Err(e),
        };
        let granularity = match U256::from_buffer(buffer) {
            Ok(v) => v,
            Err(e) => return Err(e),
        };
        let is_mutable = match Boolean::from_buffer(buffer) {
            Ok(v) => v,
            Err(e) => return Err(e),
        };
        let has_minter = match Boolean::from_buffer(buffer) {
            Ok(v) => v,
            Err(e) => return Err(e),
        };
        let minter = if has_minter.raw == 1 {
            match PublicKey::from_buffer(buffer) {
                Ok(k) => Some(k),
                Err(e) => return Err(e),
            }
        } else {
            None
        };
        Ok(TokenResource { reserved, resource, granularity, is_mutable, minter })
    }
}

impl TokenResourceMetadata {
    /// Decode token resource metadata.
    pub fn from_buffer(buffer: &mut Cursor, fmt: Format) -> (r: Result<
        TokenResourceMetadata,
        DecodeError,
    >)
        ensures
            final(buffer).data@ == old(buffer).data@,
            (match r {
                Ok(v) => ({
                    &&& v.wf()
                    &&& spec_token_resource_metadata(old(buffer).data@, old(buffer).pos as int, fmt)
                        == Ok::<(TokenResourceMetadataV, int), DecodeError>((
                        v@,
                        final(buffer).pos as int,
                    ))
                }),
                Err(e) => spec_token_resource_metadata(
                    old(buffer).data@,
                    old(buffer).pos as int,
                    fmt,
                ) == Err::<(TokenResourceMetadataV, int), DecodeError>(e),
            }),
    {
        let reserved = match read_reserved_byte(buffer, fmt) {
            Ok(b) => b,
            Err(e) => return Err(e),
        };
        let resource = match Address::from_buffer(buffer) {
            Ok(v) => v,
            Err(e) => return Err(e),
        };
        let name = match UTF8::from_buffer(buffer, fmt) {
            Ok(v) => v,
            Err(e) => return Err(e),
        };
        let description = match UTF8::from_buffer(buffer, fmt) {
            Ok(v) => v,
            Err(e) => return Err(e),
        };
        let url = match UTF8::from_buffer(buffer, fmt) {
            Ok(v) => v,
            Err(e) => return Err(e),
        };
        let icon_url = match UTF8::from_buffer(buffer, fmt) {
            Ok(v) => v,
            Err(e) => return Err(e),
        };
        Ok(TokenResourceMetadata { reserved, resource, name, description, url, icon_url })
    }
}

impl Tokens {
    /// Decode a fungible token holding.
    pub fn from_buffer(buffer: &mut Cursor, fmt: Format) -> (r: Result<Tokens, DecodeError>)
        ensures
            final(buffer).data@ == old(buffer).data@,
            (match r {
                Ok(v) => ({
                    &&& v.wf()
                    &&& spec_tokens(old(buffer).data@, old(buffer).pos as int, fmt)
                        == Ok::<(TokensV, int), DecodeError>((v@, final(buffer).pos as int))
                }),
                Err(e) => spec_tokens(old(buffer).data@, old(buffer).pos as int, fmt)
                    == Err::<(TokensV, int), DecodeError>(e),
            }),
    {
        let reserved = match read_reserved_byte(buffer, fmt) {
            Ok(b) => b,
            Err(e) => return Err(e),
        };
        let owner = match Address::from_buffer(buffer) {
            Ok(v) => v,
            Err(e) => return Err(e),
        };
        let resource = match Address::from_buffer(buffer) {
            Ok(v) => v,
            Err(e) => return Err(e),
        };
        let amount = match U256::from_buffer(buffer) {
            Ok(v) => v,
            Err(e) => return Err(e),
        };
        Ok(Tokens { reserved, owner, resource, amount })
    }
}

impl PreparedStake {
    /// Decode a stake preparation.
    pub fn from_buffer(buffer: &mut Cursor, fmt: Format) -> (r: Result<PreparedStake, DecodeError>)
        ensures
            final(buffer).data@ == old(buffer).data@,
            (match r {
                Ok(v) => ({
                    &&& v.wf()
                    &&& spec_staking(old(buffer).data@, old(buffer).pos as int, fmt)
                        == Ok::<(StakingV, int), DecodeError>((v@, final(buffer).pos as int))
                }),
                Err(e) => spec_staking(old(buffer).data@, old(buffer).pos as int, fmt)
                    == Err::<(StakingV, int), DecodeError>(e),
            }),
    {
        let reserved = match read_reserved_byte(buffer, fmt) {
            Ok(b) => b,
            Err(e) => return Err(e),
        };
        let validator = match PublicKey::from_buffer(buffer) {
            Ok(v) => v,
            Err(e) => return Err(e),
        };
        let owner = match Address::from_buffer(buffer) {
            Ok(v) => v,
            Err(e) => return Err(e),
        };
        let amount = match U256::from_buffer(buffer) {
            Ok(v) => v,
            Err(e) => return Err(e),
        };
        Ok(PreparedStake { reserved, validator, owner, amount })
    }
}

impl StakeOwnership {
    /// Decode a stake ownership share.
    pub fn from_buffer(buffer: &mut Cursor, fmt: Format) -> (r: Result<StakeOwnership, DecodeError>)
        ensures
            final(buffer).data@ == old(buffer).data@,
            (match r {
                Ok(v) => ({
                    &&& v.wf()
                    &&& spec_staking(old(buffer).data@, old(buffer).pos as int, fmt)
                        == Ok::<(StakingV, int), DecodeError>((v@, final(buffer).pos as int))
                }),
                Err(e) => spec_staking(old(buffer).data@, old(buffer).pos as int, fmt)
                    == Err::<(StakingV, int), DecodeError>(e),
            }),
    {
        let reserved = match read_reserved_byte(buffer, fmt) {
            Ok(b) => b,
            Err(e) => return Err(e),
        };
        let validator = match PublicKey::from_buffer(buffer) {
            Ok(v) => v,
            Err(e) => return Err(e),
        };
        let owner = match Address::from_buffer(buffer) {
            Ok(v) => v,
            Err(e) => return Err(e),
        };
        let amount = match U256::from_buffer(buffer) {
            Ok(v) => v,
            Err(e) => return Err(e),
        };
        Ok(StakeOwnership { reserved, validator, owner, amount })
    }
}

impl PreparedUnstake {
    /// Decode an unstake preparation.
    pub fn from_buffer(buffer: &mut Cursor, fmt: Format) -> (r: Result<PreparedUnstake, DecodeError>)
        ensures
            final(buffer).data@ == old(buffer).data@,
            (match r {
                Ok(v) => ({
                    &&& v.wf()
                    &&& spec_staking(old(buffer).data@, old(buffer).pos as int, fmt)
                        == Ok::<(StakingV, int), DecodeError>((v@, final(buffer).pos as int))
                }),
                Err(e) => spec_staking(old(buffer).data@, old(buffer).pos as int, fmt)
                    == Err::<(StakingV, int), DecodeError>(e),
            }),
    {
        let reserved = match read_reserved_byte(buffer, fmt) {
            Ok(b) => b,
            Err(e) => return Err(e),
        };
        let validator = match PublicKey::from_buffer(buffer) {
            Ok(v) => v,
            Err(e) => return Err(e),
        };
        let owner = match Address::from_buffer(buffer) {
            Ok(v) => v,
            Err(e) => return Err(e),
        };
        let amount = match U256::from_buffer(buffer) {
            Ok(v) => v,
            Err(e) => return Err(e),
        };
        Ok(PreparedUnstake { reserved, validator, owner, amount })
    }
}

impl ExitingStake {
    /// Decode an exiting stake.
    pub fn from_buffer(buffer: &mut Cursor, fmt: Format) -> (r: Result<ExitingStake, DecodeError>)
        ensures
            final(buffer).data@ == old(buffer).data@,
            (match r {
                Ok(v) => ({
                    &&& v.wf()
                    &&& spec_exiting_stake(old(buffer).data@, old(buffer).pos as int, fmt)
                        == Ok::<(ExitingStakeV, int), DecodeError>((v@, final(buffer).pos as int))
                }),
                Err(e) => spec_exiting_stake(old(buffer).data@, old(buffer).pos as int, fmt)
                    == Err::<(ExitingStakeV, int), DecodeError>(e),
            }),
    {
        let reserved = match read_reserved_byte(buffer, fmt) {
            Ok(b) => b,
            Err(e) => return Err(e),
        };
        let epoch_unlocked = match buffer.read_u64() {
            Ok(v) => v,
            Err(e) => return Err(e),
        };
        let validator = match PublicKey::from_buffer(buffer) {
            Ok(v) => v,
            Err(e) => return Err(e),
        };
        let amount = match U256::from_buffer(buffer) {
            Ok(v) => v,
            Err(e) => return Err(e),
        };
        let ownership = match U256::from_buffer(buffer) {
            Ok(v) => v,
            Err(e) => return Err(e),
        };
        Ok(ExitingStake { reserved, epoch_unlocked, validator, amount, ownership })
    }
}

impl ValidatorMetadata {
    /// Decode validator metadata.
    pub fn from_buffer(buffer: &mut Cursor, fmt: Format) -> (r: Result<ValidatorMetadata, DecodeError>)
        ensures
            final(buffer).data@ == old(buffer).data@,
            (match r {
                Ok(v) => ({
                    &&& v.wf()
                    &&& spec_validator_metadata(old(buffer).data@, old(buffer).pos as int, fmt)
                        == Ok::<(ValidatorMetadataV, int), DecodeError>((
                        v@,
                        final(buffer).pos as int,
                    ))
                }),
                Err(e) => spec_validator_metadata(old(buffer).data@, old(buffer).pos as int, fmt)
                    == Err::<(ValidatorMetadataV, int), DecodeError>(e),
            }),
    {
        let reserved = match read_reserved_byte(buffer, fmt) {
            Ok(b) => b,
            Err(e) => return Err(e),
        };
        let validator = match PublicKey::from_buffer(buffer) {
            Ok(v) => v,
            Err(e) => return Err(e),
        };
        let name = match UTF8::from_buffer(buffer, fmt) {
            Ok(v) => v,
            Err(e) => return Err(e),
        };
        let url = match UTF8::from_buffer(buffer, fmt) {
            Ok(v) => v,
            Err(e) => return Err(e),
        };
        Ok(ValidatorMetadata { reserved, validator, name, url })
    }
}

impl ValidatorAllowDelegationFlag {
    /// Decode a validator's delegation flag.
    pub fn from_buffer(buffer: &mut Cursor, fmt: Format) -> (r: Result<
        ValidatorAllowDelegationFlag,
        DecodeError,
    >)
        ensures
            final(buffer).data@ == old(buffer).data@,
            (match r {
                Ok(v) => ({
                    &&& v.wf()
                    &&& spec_validator_allow_delegation_flag(
                        old(buffer).data@,
                        old(buffer).pos as int,
                        fmt,
                    ) == Ok::<(ValidatorAllowDelegationFlagV, int), DecodeError>((
                        v@,
                        final(buffer).pos as int,
                    ))
                }),
                Err(e) => spec_validator_allow_delegation_flag(
                    old(buffer).data@,
                    old(buffer).pos as int,
                    fmt,
                ) == Err::<(ValidatorAllowDelegationFlagV, int), DecodeError>(e),
            }),
    {
        let reserved = match read_reserved_byte(buffer, fmt) {
            Ok(b) => b,
            Err(e) => return Err(e),
        };
        let validator = match PublicKey::from_buffer(buffer) {
            Ok(v) => v,
            Err(e) => return Err(e),
        };
        let is_delegation_allowed = match Boolean::from_buffer(buffer) {
            Ok(v) => v,
            Err(e) => return Err(e),
        };
        Ok(ValidatorAllowDelegationFlag { reserved, validator, is_delegation_allowed })
    }
}

impl ValidatorRegisteredFlagCopy {
    /// Decode a copy of a validator's registered flag.
    pub fn from_buffer(buffer: &mut Cursor, fmt: Format) -> (r: Result<
        ValidatorRegisteredFlagCopy,
        DecodeError,
    >)
        ensures
            final(buffer).data@ == old(buffer).data@,
            (match r {
                Ok(v) => ({
                    &&& v.wf()
                    &&& spec_validator_registered_flag_copy(
                        old(buffer).data@,
                        old(buffer).pos as int,
                        fmt,
                    ) == Ok::<(ValidatorRegisteredFlagCopyV, int), DecodeError>((
                        v@,
                        final(buffer).pos as int,
                    ))
                }),
                Err(e) => spec_validator_registered_flag_copy(
                    old(buffer).data@,
                    old(buffer).pos as int,
                    fmt,
                ) == Err::<(ValidatorRegisteredFlagCopyV, int), DecodeError>(e),
            }),
    {
        let reserved = match read_reserved_byte(buffer, fmt) {
            Ok(b) => b,
            Err(e) => return Err(e),
        };
        let update_epoch = match read_optional_epoch(buffer) {
            Ok(v) => v,
            Err(e) => return Err(e),
        };
        let validator = match PublicKey::from_buffer(buffer) {
            Ok(v) => v,
            Err(e) => return Err(e),
        };
        let is_registered = match Boolean::from_buffer(buffer) {
            Ok(v) => v,
            Err(e) => return Err(e),
        };
        Ok(ValidatorRegisteredFlagCopy { reserved, update_epoch, validator, is_registered })
    }
}

impl ValidatorRakeCopy {
    /// Decode a copy of a validator's rake.
    pub fn from_buffer(buffer: &mut Cursor, fmt: Format) -> (r: Result<ValidatorRakeCopy, DecodeError>)
        ensures
            final(buffer).data@ == old(buffer).data@,
            (match r {
                Ok(v) => ({
                    &&& v.wf()
                    &&& spec_validator_rake_copy(old(buffer).data@, old(buffer).pos as int, fmt)
                        == Ok::<(ValidatorRakeCopyV, int), DecodeError>((
                        v@,
                        final(buffer).pos as int,
                    ))
                }),
                Err(e) => spec_validator_rake_copy(old(buffer).data@, old(buffer).pos as int, fmt)
                    == Err::<(ValidatorRakeCopyV, int), DecodeError>(e),
            }),
    {
        let reserved = match read_reserved_byte(buffer, fmt) {
            Ok(b) => b,
            Err(e) => return Err(e),
        };
        let update_epoch = match read_optional_epoch(buffer) {
            Ok(v) => v,
            Err(e) => return Err(e),
        };
        let validator = match PublicKey::from_buffer(buffer) {
            Ok(v) => v,
            Err(e) => return Err(e),
        };
        let rake = match buffer.read_u32() {
            Ok(v) => v,
            Err(e) => return Err(e),
        };
        Ok(ValidatorRakeCopy { reserved, update_epoch, validator, rake })
    }
}

impl ValidatorOwnerCopy {
    /// Decode a copy of a validator's owner address.
    pub fn from_buffer(buffer: &mut Cursor, fmt: Format) -> (r: Result<ValidatorOwnerCopy, DecodeError>)
        ensures
            final(buffer).data@ == old(buffer).data@,
            (match r {
                Ok(v) => ({
                    &&& v.wf()
                    &&& spec_validator_owner_copy(old(buffer).data@, old(buffer).pos as int, fmt)
                        == Ok::<(ValidatorOwnerCopyV, int), DecodeError>((
                        v@,
                        final(buffer).pos as int,
                    ))
                }),
                Err(e) => spec_validator_owner_copy(old(buffer).data@, old(buffer).pos as int, fmt)
                    == Err::<(ValidatorOwnerCopyV, int), DecodeError>(e),
            }),
    {
        let reserved = match read_reserved_byte(buffer, fmt) {
            Ok(b) => b,
            Err(e) => return Err(e),
        };
        let update_epoch = match read_optional_epoch(buffer) {
            Ok(v) => v,
            Err(e) => return Err(e),
        };
        let validator = match PublicKey::from_buffer(buffer) {
            Ok(v) => v,
            Err(e) => return Err(e),
        };
        let owner = match Address::from_buffer(buffer) {
            Ok(v) => v,
            Err(e) => return Err(e),
        };
        Ok(ValidatorOwnerCopy { reserved, update_epoch, validator, owner })
    }
}

impl Substate {
    /// Decode one substate: a type tag, then the tagged variant. A tag
    /// outside the supported set fails with `UnknownSubstateType` after
    /// consuming exactly the tag byte.
    pub fn from_buffer(buffer: &mut Cursor, fmt: Format) -> (r: Result<Substate, DecodeError>)
        ensures
            final(buffer).data@ == old(buffer).data@,
            (match r {
                Ok(v) => ({
                    &&& v.wf()
                    &&& spec_substate(old(buffer).data@, old(buffer).pos as int, fmt)
                        == Ok::<(SubstateV, int), DecodeError>((v@, final(buffer).pos as int))
                }),
                Err(e) => spec_substate(old(buffer).data@, old(buffer).pos as int, fmt)
                    == Err::<(SubstateV, int), DecodeError>(e),
            }),
            (r matches Err(DecodeError::UnknownSubstateType { .. })) ==> final(buffer).pos
                == old(buffer).pos + 1,
    {
        let start = buffer.pos;
        let t = match buffer.read_u8() {
            Ok(b) => b,
            Err(e) => return Err(e),
        };
        match t {
            0x04 => match TokenResource::from_buffer(buffer, fmt) {
                Ok(v) => Ok(Substate::TokenResource(v)),
                Err(e) => Err(e),
            },
            0x05 => match TokenResourceMetadata::from_buffer(buffer, fmt) {
                Ok(v) => Ok(Substate::TokenResourceMetadata(v)),
                Err(e) => Err(e),
            },
            0x06 => match Tokens::from_buffer(buffer, fmt) {
                Ok(v) => Ok(Substate::Tokens(v)),
                Err(e) => Err(e),
            },
            0x07 => match PreparedStake::from_buffer(buffer, fmt) {
                Ok(v) => Ok(Substate::PreparedStake(v)),
                Err(e) => Err(e),
            },
            0x08 => match StakeOwnership::from_buffer(buffer, fmt) {
                Ok(v) => Ok(Substate::StakeOwnership(v)),
                Err(e) => Err(e),
            },
            0x09 => match PreparedUnstake::from_buffer(buffer, fmt) {
                Ok(v) => Ok(Substate::PreparedUnstake(v)),
                Err(e) => Err(e),
            },
            0x0A => match ExitingStake::from_buffer(buffer, fmt) {
                Ok(v) => Ok(Substate::ExitingStake(v)),
                Err(e) => Err(e),
            },
            0x0E => match ValidatorAllowDelegationFlag::from_buffer(buffer, fmt) {
                Ok(v) => Ok(Substate::ValidatorAllowDelegationFlag(v)),
                Err(e) => Err(e),
            },
            0x0F => match ValidatorRegisteredFlagCopy::from_buffer(buffer, fmt) {
                Ok(v) => Ok(Substate::ValidatorRegisteredFlagCopy(v)),
                Err(e) => Err(e),
            },
            0x10 => match ValidatorRakeCopy::from_buffer(buffer, fmt) {
                Ok(v) => Ok(Substate::ValidatorRakeCopy(v)),
                Err(e) => Err(e),
            },
            0x11 => match ValidatorOwnerCopy::from_buffer(buffer, fmt) {
                Ok(v) => Ok(Substate::ValidatorOwnerCopy(v)),
                Err(e) => Err(e),
            },
            _ => Err(DecodeError::UnknownSubstateType { offset: start, value: t }),
        }
    }
}

} // verus!
