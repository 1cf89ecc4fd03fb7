use vstd::arithmetic::power2::{lemma2_to64, pow2};
use vstd::prelude::*;

use crate::error::ErrorCode;

verus! {

/// The primitive data type of an attribute or an instruction argument.
#[derive(Clone, Copy, Debug, PartialEq, Eq, Structural)]
pub enum AttributeKind {
    U8,
    U16,
    U32,
    U64,
    U128,
    Pubkey,
}

/// The kind that a tag names, or the error for an unknown tag.
pub open spec fn attribute_kind_of(tag: u8) -> Result<AttributeKind, ErrorCode> {
    match tag {
        0 => Ok(AttributeKind::U8),
        1 => Ok(AttributeKind::U16),
        2 => Ok(AttributeKind::U32),
        3 => Ok(AttributeKind::U64),
        4 => Ok(AttributeKind::U128),
        5 => Ok(AttributeKind::Pubkey),
        _ => Err(ErrorCode::InvalidAttributeKind),
    }
}

impl AttributeKind {
    /// The tag of the kind.
    pub open spec fn spec_id(self) -> u8 {
        match self {
            AttributeKind::U8 => 0,
            AttributeKind::U16 => 1,
            AttributeKind::U32 => 2,
            AttributeKind::U64 => 3,
            AttributeKind::U128 => 4,
            AttributeKind::Pubkey => 5,
        }
    }

    /// The width in bytes of one value of the kind.
    pub open spec fn spec_size(self) -> u8 {
        match self {
            AttributeKind::U8 => 1,
            AttributeKind::U16 => 2,
            AttributeKind::U32 => 4,
            AttributeKind::U64 => 8,
            AttributeKind::U128 => 16,
            AttributeKind::Pubkey => 32,
        }
    }

    /// Decodes a kind tag.
    pub fn from(index: u8) -> (r: Result<AttributeKind, ErrorCode>)
        ensures
            r == attribute_kind_of(index),
    {
        match index {
            0 => Ok(AttributeKind::U8),
            1 => Ok(AttributeKind::U16),
            2 => Ok(AttributeKind::U32),
            3 => Ok(AttributeKind::U64),
            4 => Ok(AttributeKind::U128),
            5 => Ok(AttributeKind::Pubkey),
            _ => Err(ErrorCode::InvalidAttributeKind),
        }
    }

    /// The tag of the kind.
    pub fn id(&self) -> (r: u8)
        ensures
            r == self.spec_id(),
    {
        match self {
            AttributeKind::U8 => 0,
            AttributeKind::U16 => 1,
            AttributeKind::U32 => 2,
            AttributeKind::U64 => 3,
            AttributeKind::U128 => 4,
            AttributeKind::Pubkey => 5,
        }
    }

    /// The width in bytes of one value of the kind.
    pub fn size(&self) -> (r: u8)
        ensures
            r == self.spec_size(),
    {
        match self {
            AttributeKind::U8 => 1,
            AttributeKind::U16 => 2,
            AttributeKind::U32 => 4,
            AttributeKind::U64 => 8,
            AttributeKind::U128 => 16,
            AttributeKind::Pubkey => 32,
        }
    }
}

/// The storage shape of an attribute: a scalar, a fixed-size array, or a
/// variable-length vector.
#[derive(Clone, Copy, Debug, PartialEq, Eq, Structural)]
pub enum AttributeKindModifier {
    Scalar,
    Array { size: u8 },
    Vector,
}

/// The modifier that a tag names, or the error for an unknown tag.
pub open spec fn attribute_kind_modifier_of(tag: u8, size: u8) -> Result<
    AttributeKindModifier,
    ErrorCode,
> {
    match tag {
        0 => Ok(AttributeKindModifier::Scalar),
        1 => Ok(AttributeKindModifier::Array { size }),
        2 => Ok(AttributeKindModifier::Vector),
        _ => Err(ErrorCode::InvalidAttributeKindModifier),
    }
}

impl AttributeKindModifier {
    /// The tag of the modifier.
    pub open spec fn spec_id(self) -> u8 {
        match self {
            AttributeKindModifier::Scalar => 0,
            AttributeKindModifier::Array { .. } => 1,
            AttributeKindModifier::Vector => 2,
        }
    }

    /// The number of values that the modifier holds: one for a scalar and a
    /// vector, the array's size for an array.
    pub open spec fn spec_size(self) -> u8 {
        match self {
            AttributeKindModifier::Scalar => 1,
            AttributeKindModifier::Array { size } => size,
            AttributeKindModifier::Vector => 1,
        }
    }

    /// Decodes a modifier tag; `size` is the count of an array.
    pub fn from(index: u8, size: u8) -> (r: Result<AttributeKindModifier, ErrorCode>)
        ensures
            r == attribute_kind_modifier_of(index, size),
    {
        match index {
            0 => Ok(AttributeKindModifier::Scalar),
            1 => Ok(AttributeKindModifier::Array { size }),
            2 => Ok(AttributeKindModifier::Vector),
            _ => Err(ErrorCode::InvalidAttributeKindModifier),
        }
    }

    /// The tag of the modifier.
    pub fn id(&self) -> (r: u8)
        ensures
            r == self.spec_id(),
    {
        match self {
            AttributeKindModifier::Scalar => 0,
            AttributeKindModifier::Array { .. } => 1,
            AttributeKindModifier::Vector => 2,
        }
    }

    /// The number of values that the modifier holds.
    pub fn size(&self) -> (r: u8)
        ensures
            r == self.spec_size(),
    {
        match self {
            AttributeKindModifier::Scalar => 1,
            AttributeKindModifier::Array { size } => *size,
            AttributeKindModifier::Vector => 1,
        }
    }
}

/// The storage footprint in bytes of a field of the given kind and modifier.
pub open spec fn spec_field_width(kind: AttributeKind, modifier: AttributeKindModifier) -> u16 {
    (kind.spec_size() * modifier.spec_size()) as u16
}

/// The storage footprint in bytes of a field of the given kind and modifier:
/// the width of one value times the number of values.
pub fn field_width(kind: &AttributeKind, modifier: &AttributeKindModifier) -> (r: u16)
    ensures
        r == spec_field_width(*kind, *modifier),
        r as int == kind.spec_size() as int * modifier.spec_size() as int,
{
    let k = kind.size() as u16;
    let m = modifier.size() as u16;
    assert(k * m <= 32 * 255) by (nonlinear_arith)
        requires
            k <= 32,
            m <= 255,
    ;
    k * m
}

/// The capability that an account slot of an instruction must have.
#[derive(Clone, Copy, Debug, PartialEq, Eq, Structural)]
pub enum AccountKind {
    Account,
    Signer,
    Program,
}

/// The account kind that a tag names, or the error for an unknown tag.
pub open spec fn account_kind_of(tag: u8) -> Result<AccountKind, ErrorCode> {
    match tag {
        0 => Ok(AccountKind::Account),
        1 => Ok(AccountKind::Signer),
        2 => Ok(AccountKind::Program),
        _ => Err(ErrorCode::InvalidAccountKind),
    }
}

impl AccountKind {
    /// The tag of the account kind.
    pub open spec fn spec_id(self) -> u8 {
        match self {
            AccountKind::Account => 0,
            AccountKind::Signer => 1,
            AccountKind::Program => 2,
        }
    }

    /// Decodes an account kind tag.
    pub fn from(index: u8) -> (r: Result<AccountKind, ErrorCode>)
        ensures
            r == account_kind_of(index),
    {
        match index {
            0 => Ok(AccountKind::Account),
            1 => Ok(AccountKind::Signer),
            2 => Ok(AccountKind::Program),
            _ => Err(ErrorCode::InvalidAccountKind),
        }
    }

    /// The tag of the account kind.
    pub fn id(&self) -> (r: u8)
        ensures
            r == self.spec_id(),
    {
        match self {
            AccountKind::Account => 0,
            AccountKind::Signer => 1,
            AccountKind::Program => 2,
        }
    }
}

/// How an account slot of an instruction must be prepared: as is, freshly
/// allocated, mutable, or zeroed.
#[derive(Clone, Copy, Debug, PartialEq, Eq, Structural)]
pub enum MarkAttribute {
    Plain,
    Init,
    Mut,
    Zero,
}

/// The mark that a tag names, or the error for an unknown tag.
pub open spec fn mark_attribute_of(tag: u8) -> Result<MarkAttribute, ErrorCode> {
    match tag {
        0 => Ok(MarkAttribute::Plain),
        1 => Ok(MarkAttribute::Init),
        2 => Ok(MarkAttribute::Mut),
        3 => Ok(MarkAttribute::Zero),
        _ => Err(ErrorCode::InvalidMarkAttribute),
    }
}

impl MarkAttribute {
    /// The tag of the mark.
    pub open spec fn spec_id(self) -> u8 {
        match self {
            MarkAttribute::Plain => 0,
            MarkAttribute::Init => 1,
            MarkAttribute::Mut => 2,
            MarkAttribute::Zero => 3,
        }
    }

    /// Decodes a mark tag.
    pub fn from(index: u8) -> (r: Result<MarkAttribute, ErrorCode>)
        ensures
            r == mark_attribute_of(index),
    {
        match index {
            0 => Ok(MarkAttribute::Plain),
            1 => Ok(MarkAttribute::Init),
            2 => Ok(MarkAttribute::Mut),
            3 => Ok(MarkAttribute::Zero),
            _ => Err(ErrorCode::InvalidMarkAttribute),
        }
    }

    /// The tag of the mark.
    pub fn id(&self) -> (r: u8)
        ensures
            r == self.spec_id(),
    {
        match self {
            MarkAttribute::Plain => 0,
            MarkAttribute::Init => 1,
            MarkAttribute::Mut => 2,
            MarkAttribute::Zero => 3,
        }
    }
}

/// Each tag decoder maps the tags of its range to the variants with those
/// tags, and every other tag to its own error. An attribute kind with tag `t`
/// is `2^t` bytes wide; a modifier holds one value, or the array's size.
pub proof fn lemma_tag_decoding(tag: u8, size: u8)
    ensures
        attribute_kind_of(tag) is Ok <==> tag <= 5,
        attribute_kind_of(tag) matches Ok(k) ==> k.spec_id() == tag && k.spec_size() as int
            == pow2(tag as nat),
        tag > 5 ==> attribute_kind_of(tag) == Err::<AttributeKind, ErrorCode>(
            ErrorCode::InvalidAttributeKind,
        ),
        attribute_kind_modifier_of(tag, size) is Ok <==> tag <= 2,
        attribute_kind_modifier_of(tag, size) matches Ok(m) ==> m.spec_id() == tag
            && m.spec_size() == if tag == 1 {
            size
        } else {
            1
        },
        tag > 2 ==> attribute_kind_modifier_of(tag, size) == Err::<AttributeKindModifier, ErrorCode>(
            ErrorCode::InvalidAttributeKindModifier,
        ),
        account_kind_of(tag) is Ok <==> tag <= 2,
        account_kind_of(tag) matches Ok(k) ==> k.spec_id() == tag,
        tag > 2 ==> account_kind_of(tag) == Err::<AccountKind, ErrorCode>(
            ErrorCode::InvalidAccountKind,
        ),
        mark_attribute_of(tag) is Ok <==> tag <= 3,
        mark_attribute_of(tag) matches Ok(m) ==> m.spec_id() == tag,
        tag > 3 ==> mark_attribute_of(tag) == Err::<MarkAttribute, ErrorCode>(
            ErrorCode::InvalidMarkAttribute,
        ),
{
    lemma2_to64();
}

/// Every variant decodes back from its own tag.
pub proof fn lemma_tag_round_trip(
    kind: AttributeKind,
    modifier: AttributeKindModifier,
    account: AccountKind,
    mark: MarkAttribute,
)
    ensures
        attribute_kind_of(kind.spec_id()) == Ok::<AttributeKind, ErrorCode>(kind),
        attribute_kind_modifier_of(modifier.spec_id(), modifier.spec_size()) == Ok::<
            AttributeKindModifier,
            ErrorCode,
        >(modifier),
        account_kind_of(account.spec_id()) == Ok::<AccountKind, ErrorCode>(account),
        mark_attribute_of(mark.spec_id()) == Ok::<MarkAttribute, ErrorCode>(mark),
{
}

} // verus!
