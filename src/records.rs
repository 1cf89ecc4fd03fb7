use vstd::prelude::*;

use crate::address::Key;
use crate::kinds::{AccountKind, AttributeKind, AttributeKindModifier, MarkAttribute};

verus! {

/// A top-level namespace. `count` is the number of its live collections.
#[derive(Clone, Copy, Debug)]
pub struct Application {
    pub authority: Key,
    pub name: [u8; 32],
    pub count: u64,
}

/// A named grouping within an application.
#[derive(Clone, Copy, Debug)]
pub struct Collection {
    pub authority: Key,
    pub application: Key,
    pub name: [u8; 32],
    pub bump: u8,
}

/// A typed field definition on a collection.
#[derive(Clone, Copy, Debug)]
pub struct CollectionAttribute {
    pub authority: Key,
    pub application: Key,
    pub collection: Key,
    pub name: [u8; 32],
    pub kind: AttributeKind,
    pub modifier: AttributeKindModifier,
    pub bump: u8,
}

/// A named action definition on a collection.
#[derive(Clone, Copy, Debug)]
pub struct CollectionInstruction {
    pub authority: Key,
    pub application: Key,
    pub collection: Key,
    pub name: [u8; 32],
    pub bump: u8,
}

/// A typed parameter of an instruction.
#[derive(Clone, Copy, Debug)]
pub struct InstructionArgument {
    pub authority: Key,
    pub application: Key,
    pub collection: Key,
    pub instruction: Key,
    pub name: [u8; 32],
    pub kind: AttributeKind,
    pub modifier: AttributeKindModifier,
    pub bump: u8,
}

/// An account slot that an instruction touches: its capability, how it must be
/// prepared, and the collection its records come from.
#[derive(Clone, Copy, Debug)]
pub struct InstructionAccount {
    pub authority: Key,
    pub application: Key,
    pub collection: Key,
    pub instruction: Key,
    pub name: [u8; 32],
    pub account_collection: Key,
    pub kind: AccountKind,
    pub mark_attribute: MarkAttribute,
    pub bump: u8,
}

/// An execution-mode flag attached to an instruction account.
#[derive(Clone, Copy, Debug)]
pub struct AccountBoolAttribute {
    pub authority: Key,
    pub application: Key,
    pub collection: Key,
    pub instruction: Key,
    pub account: Key,
    pub kind: MarkAttribute,
    pub bump: u8,
}

/// A record of any kind, as it is stored at its address.
#[derive(Clone, Copy, Debug)]
pub enum Record {
    Application(Application),
    Collection(Collection),
    CollectionAttribute(CollectionAttribute),
    CollectionInstruction(CollectionInstruction),
    InstructionArgument(InstructionArgument),
    InstructionAccount(InstructionAccount),
    AccountBoolAttribute(AccountBoolAttribute),
}

impl Record {
    /// The key that may update or delete the record.
    pub open spec fn spec_authority(self) -> Key {
        match self {
            Record::Application(r) => r.authority,
            Record::Collection(r) => r.authority,
            Record::CollectionAttribute(r) => r.authority,
            Record::CollectionInstruction(r) => r.authority,
            Record::InstructionArgument(r) => r.authority,
            Record::InstructionAccount(r) => r.authority,
            Record::AccountBoolAttribute(r) => r.authority,
        }
    }

    /// The key that may update or delete the record.
    pub fn authority(&self) -> (r: Key)
        ensures
            r == self.spec_authority(),
    {
        match self {
            Record::Application(r) => r.authority,
            Record::Collection(r) => r.authority,
            Record::CollectionAttribute(r) => r.authority,
            Record::CollectionInstruction(r) => r.authority,
            Record::InstructionArgument(r) => r.authority,
            Record::InstructionAccount(r) => r.authority,
            Record::AccountBoolAttribute(r) => r.authority,
        }
    }
}

} // verus!
