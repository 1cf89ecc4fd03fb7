use vstd::prelude::*;

use crate::address::Key;
use crate::error::ErrorCode;
use crate::records::{
    AccountBoolAttribute, Application, Collection, CollectionAttribute, CollectionInstruction,
    InstructionAccount, InstructionArgument, Record,
};
use crate::registry::Registry;

verus! {

/// The record at `address` if it is an application; `AccountNotFound` where no record
/// is there, `AccountDidNotDeserialize` where one of another kind is.
pub open spec fn application_at(records: Map<Seq<u8>, Record>, address: Key) -> Result<Application, ErrorCode> {
    if !records.contains_key(address@) {
        Err(ErrorCode::AccountNotFound)
    } else {
        match records[address@] {
            Record::Application(r) => Ok(r),
            _ => Err(ErrorCode::AccountDidNotDeserialize),
        }
    }
}

/// Reads the record at `address` as an application.
pub fn load_application(registry: &Registry, address: &Key) -> (r: Result<Application, ErrorCode>)
    requires
        registry.wf(),
    ensures
        r == application_at(registry@, *address),
{
    match registry.get(address) {
        None => Err(ErrorCode::AccountNotFound),
        Some(Record::Application(r)) => Ok(r),
        Some(_) => Err(ErrorCode::AccountDidNotDeserialize),
    }
}

/// The record at `address` if it is a collection; `AccountNotFound` where no record
/// is there, `AccountDidNotDeserialize` where one of another kind is.
pub open spec fn collection_at(records: Map<Seq<u8>, Record>, address: Key) -> Result<Collection, ErrorCode> {
    if !records.contains_key(address@) {
        Err(ErrorCode::AccountNotFound)
    } else {
        match records[address@] {
            Record::Collection(r) => Ok(r),
            _ => Err(ErrorCode::AccountDidNotDeserialize),
        }
    }
}

/// Reads the record at `address` as a collection.
pub fn load_collection(registry: &Registry, address: &Key) -> (r: Result<Collection, ErrorCode>)
    requires
        registry.wf(),
    ensures
        r == collection_at(registry@, *address),
{
    match registry.get(address) {
        None => Err(ErrorCode::AccountNotFound),
        Some(Record::Collection(r)) => Ok(r),
        Some(_) => Err(ErrorCode::AccountDidNotDeserialize),
    }
}

/// The record at `address` if it is a collection attribute; `AccountNotFound` where no record
/// is there, `AccountDidNotDeserialize` where one of another kind is.
pub open spec fn attribute_at(records: Map<Seq<u8>, Record>, address: Key) -> Result<CollectionAttribute, ErrorCode> {
    if !records.contains_key(address@) {
        Err(ErrorCode::AccountNotFound)
    } else {
        match records[address@] {
            Record::CollectionAttribute(r) => Ok(r),
            _ => Err(ErrorCode::AccountDidNotDeserialize),
        }
    }
}

/// Reads the record at `address` as a collection attribute.
pub fn load_attribute(registry: &Registry, address: &Key) -> (r: Result<CollectionAttribute, ErrorCode>)
    requires
        registry.wf(),
    ensures
        r == attribute_at(registry@, *address),
{
    match registry.get(address) {
        None => Err(ErrorCode::AccountNotFound),
        Some(Record::CollectionAttribute(r)) => Ok(r),
        Some(_) => Err(ErrorCode::AccountDidNotDeserialize),
    }
}

/// The record at `address` if it is a collection instruction; `AccountNotFound` where no record
/// is there, `AccountDidNotDeserialize` where one of another kind is.
pub open spec fn instruction_at(records: Map<Seq<u8>, Record>, address: Key) -> Result<CollectionInstruction, ErrorCode> {
    if !records.contains_key(address@) {
        Err(ErrorCode::AccountNotFound)
    } else {
        match records[address@] {
            Record::CollectionInstruction(r) => Ok(r),
            _ => Err(ErrorCode::AccountDidNotDeserialize),
        }
    }
}

/// Reads the record at `address` as a collection instruction.
pub fn load_instruction(registry: &Registry, address: &Key) -> (r: Result<CollectionInstruction, ErrorCode>)
    requires
        registry.wf(),
    ensures
        r == instruction_at(registry@, *address),
{
    match registry.get(address) {
        None => Err(ErrorCode::AccountNotFound),
        Some(Record::CollectionInstruction(r)) => Ok(r),
        Some(_) => Err(ErrorCode::AccountDidNotDeserialize),
    }
}

/// The record at `address` if it is an instruction argument; `AccountNotFound` where no record
/// is there, `AccountDidNotDeserialize` where one of another kind is.
pub open spec fn argument_at(records: Map<Seq<u8>, Record>, address: Key) -> Result<InstructionArgument, ErrorCode> {
    if !records.contains_key(address@) {
        Err(ErrorCode::AccountNotFound)
    } else {
        match records[address@] {
            Record::InstructionArgument(r) => Ok(r),
            _ => Err(ErrorCode::AccountDidNotDeserialize),
        }
    }
}

/// Reads the record at `address` as an instruction argument.
pub fn load_argument(registry: &Registry, address: &Key) -> (r: Result<InstructionArgument, ErrorCode>)
    requires
        registry.wf(),
    ensures
        r == argument_at(registry@, *address),
{
    match registry.get(address) {
        None => Err(ErrorCode::AccountNotFound),
        Some(Record::InstructionArgument(r)) => Ok(r),
        Some(_) => Err(ErrorCode::AccountDidNotDeserialize),
    }
}

/// The record at `address` if it is an instruction account; `AccountNotFound` where no record
/// is there, `AccountDidNotDeserialize` where one of another kind is.
pub open spec fn account_at(records: Map<Seq<u8>, Record>, address: Key) -> Result<InstructionAccount, ErrorCode> {
    if !records.contains_key(address@) {
        Err(ErrorCode::AccountNotFound)
    } else {
        match records[address@] {
            Record::InstructionAccount(r) => Ok(r),
            _ => Err(ErrorCode::AccountDidNotDeserialize),
        }
    }
}

/// Reads the record at `address` as an instruction account.
pub fn load_account(registry: &Registry, address: &Key) -> (r: Result<InstructionAccount, ErrorCode>)
    requires
        registry.wf(),
    ensures
        r == account_at(registry@, *address),
{
    match registry.get(address) {
        None => Err(ErrorCode::AccountNotFound),
        Some(Record::InstructionAccount(r)) => Ok(r),
        Some(_) => Err(ErrorCode::AccountDidNotDeserialize),
    }
}

/// The record at `address` if it is an account flag; `AccountNotFound` where no record
/// is there, `AccountDidNotDeserialize` where one of another kind is.
pub open spec fn bool_attribute_at(records: Map<Seq<u8>, Record>, address: Key) -> Result<AccountBoolAttribute, ErrorCode> {
    if !records.contains_key(address@) {
        Err(ErrorCode::AccountNotFound)
    } else {
        match records[address@] {
            Record::AccountBoolAttribute(r) => Ok(r),
            _ => Err(ErrorCode::AccountDidNotDeserialize),
        }
    }
}

/// Reads the record at `address` as an account flag.
pub fn load_bool_attribute(registry: &Registry, address: &Key) -> (r: Result<AccountBoolAttribute, ErrorCode>)
    requires
        registry.wf(),
    ensures
        r == bool_attribute_at(registry@, *address),
{
    match registry.get(address) {
        None => Err(ErrorCode::AccountNotFound),
        Some(Record::AccountBoolAttribute(r)) => Ok(r),
        Some(_) => Err(ErrorCode::AccountDidNotDeserialize),
    }
}

/// The collection at `collection`, checked to belong to the application at
/// `application`.
pub open spec fn collection_in(records: Map<Seq<u8>, Record>, application: Key, collection: Key) -> Result<
    Collection,
    ErrorCode,
> {
    match application_at(records, application) {
        Err(e) => Err(e),
        Ok(_) => match collection_at(records, collection) {
            Err(e) => Err(e),
            Ok(c) => if c.application != application {
                Err(ErrorCode::AncestorMismatch)
            } else {
                Ok(c)
            },
        },
    }
}

/// Reads the collection at `collection` and checks its ancestors.
pub fn load_collection_in(registry: &Registry, application: &Key, collection: &Key) -> (r: Result<
    Collection,
    ErrorCode,
>)
    requires
        registry.wf(),
    ensures
        r == collection_in(registry@, *application, *collection),
{
    match load_application(registry, application) {
        Err(e) => Err(e),
        Ok(_) => match load_collection(registry, collection) {
            Err(e) => Err(e),
            Ok(c) => if c.application != *application {
                Err(ErrorCode::AncestorMismatch)
            } else {
                Ok(c)
            },
        },
    }
}

/// The instruction at `instruction`, checked to belong to the collection at
/// `collection` of the application at `application`.
pub open spec fn instruction_in(
    records: Map<Seq<u8>, Record>,
    application: Key,
    collection: Key,
    instruction: Key,
) -> Result<CollectionInstruction, ErrorCode> {
    match collection_in(records, application, collection) {
        Err(e) => Err(e),
        Ok(_) => match instruction_at(records, instruction) {
            Err(e) => Err(e),
            Ok(i) => if i.application != application || i.collection != collection {
                Err(ErrorCode::AncestorMismatch)
            } else {
                Ok(i)
            },
        },
    }
}

/// Reads the instruction at `instruction` and checks its ancestors.
pub fn load_instruction_in(
    registry: &Registry,
    application: &Key,
    collection: &Key,
    instruction: &Key,
) -> (r: Result<CollectionInstruction, ErrorCode>)
    requires
        registry.wf(),
    ensures
        r == instruction_in(registry@, *application, *collection, *instruction),
{
    match load_collection_in(registry, application, collection) {
        Err(e) => Err(e),
        Ok(_) => match load_instruction(registry, instruction) {
            Err(e) => Err(e),
            Ok(i) => if i.application != *application || i.collection != *collection {
                Err(ErrorCode::AncestorMismatch)
            } else {
                Ok(i)
            },
        },
    }
}

/// The instruction account at `account`, checked to belong to the instruction
/// at `instruction` of the given collection and application.
pub open spec fn account_in(
    records: Map<Seq<u8>, Record>,
    application: Key,
    collection: Key,
    instruction: Key,
    account: Key,
) -> Result<InstructionAccount, ErrorCode> {
    match instruction_in(records, application, collection, instruction) {
        Err(e) => Err(e),
        Ok(_) => match account_at(records, account) {
            Err(e) => Err(e),
            Ok(a) => if a.application != application || a.collection != collection
                || a.instruction != instruction {
                Err(ErrorCode::AncestorMismatch)
            } else {
                Ok(a)
            },
        },
    }
}

/// Reads the instruction account at `account` and checks its ancestors.
pub fn load_account_in(
    registry: &Registry,
    application: &Key,
    collection: &Key,
    instruction: &Key,
    account: &Key,
) -> (r: Result<InstructionAccount, ErrorCode>)
    requires
        registry.wf(),
    ensures
        r == account_in(registry@, *application, *collection, *instruction, *account),
{
    match load_instruction_in(registry, application, collection, instruction) {
        Err(e) => Err(e),
        Ok(_) => match load_account(registry, account) {
            Err(e) => Err(e),
            Ok(a) => if a.application != *application || a.collection != *collection
                || a.instruction != *instruction {
                Err(ErrorCode::AncestorMismatch)
            } else {
                Ok(a)
            },
        },
    }
}

/// The authorization gate: a record may be changed only by its authority.
pub open spec fn authorization(authority: Key, signer: Key) -> Result<(), ErrorCode> {
    if authority == signer {
        Ok(())
    } else {
        Err(ErrorCode::Unauthorized)
    }
}

/// Checks that `signer` is the stored `authority` of a record.
pub fn authorize(authority: &Key, signer: &Key) -> (r: Result<(), ErrorCode>)
    ensures
        r == authorization(*authority, *signer),
{
    if *authority == *signer {
        Ok(())
    } else {
        Err(ErrorCode::Unauthorized)
    }
}

} // verus!
