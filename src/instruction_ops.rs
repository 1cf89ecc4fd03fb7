use vstd::prelude::*;
use vstd::string::StringSliceAdditionalSpecFns;

use crate::accounts::{
    CreateCollectionInstruction, CreateInstructionArgument, DeleteCollectionInstruction,
    DeleteInstructionArgument, UpdateCollectionInstruction, UpdateInstructionArgument,
};
use crate::address::{key_seed, record_seeds, seed_list, Key};
use crate::attribute_ops::{attribute_args, parse_attribute_args};
use crate::error::ErrorCode;
use crate::kinds::{AttributeKind, AttributeKindModifier};
use crate::name::{name_bytes, pad_name, parse_string};
use crate::operations::{changes_only, lemma_seeds_deep_view, name_check, place, placement};
use crate::records::{CollectionInstruction, InstructionArgument, Record};
use crate::registry::Registry;
use crate::schema::{
    argument_at, authorization, authorize, collection_in, instruction_at, instruction_in,
    load_argument, load_collection_in, load_instruction, load_instruction_in,
};

verus! {

/// The discriminator seed of collection instructions.
pub const COLLECTION_INSTRUCTION_SEED: &'static str = "collection_instruction";

/// The discriminator seed of instruction arguments.
pub const INSTRUCTION_ARGUMENT_SEED: &'static str = "instruction_argument";

/// `r` is a collection instruction with the given fields.
pub open spec fn is_instruction(
    r: Record,
    accounts: CreateCollectionInstruction,
    name: Seq<u8>,
    bump: u8,
) -> bool {
    match r {
        Record::CollectionInstruction(i) => i.authority == accounts.authority && i.application
            == accounts.application && i.collection == accounts.collection && i.name@ == name
            && i.bump == bump,
        _ => false,
    }
}

/// The seeds of a collection instruction after its discriminator.
pub open spec fn instruction_seeds(application: Key, collection: Key, name: Seq<u8>) -> Seq<
    Seq<u8>,
> {
    seq![application@, collection@, name]
}

/// The seed list from which the host derives the address of the instruction
/// named `name` (a packed name slot) of the given collection.
/// The name seed is the whole padded slot: the name's UTF-8 bytes followed
/// by zero bytes up to `NAME_LEN`, so names differing only in trailing NUL
/// characters share an address.
pub fn instruction_address_seeds(application: &Key, collection: &Key, name: &[u8; 32]) -> (r: Vec<Vec<u8>>)
    ensures
        r.deep_view() == record_seeds(COLLECTION_INSTRUCTION_SEED.spec_bytes(), instruction_seeds(*application, *collection, name@)),
{
    let mut seeds: Vec<Vec<u8>> = Vec::new();
    seeds.push(key_seed(application));
    seeds.push(key_seed(collection));
    seeds.push(key_seed(&Key::new(*name)));
    proof {
        lemma_seeds_deep_view(seeds);
    }
    assert(seeds.deep_view() =~= instruction_seeds(*application, *collection, name@));
    seed_list(COLLECTION_INSTRUCTION_SEED, &seeds)
}

/// The outcome of `create_collection_instruction`: the address of the new
/// instruction.
pub open spec fn create_collection_instruction_outcome(
    records: Map<Seq<u8>, Record>,
    accounts: CreateCollectionInstruction,
    name: Seq<char>,
    bump: u8,
    derived: Option<(Key, u8)>,
) -> Result<Key, ErrorCode> {
    match collection_in(records, accounts.application, accounts.collection) {
        Err(e) => Err(e),
        Ok(_) => match placement(records, derived, bump) {
            Err(e) => Err(e),
            Ok(k) => match name_check(name) {
                Err(e) => Err(e),
                Ok(_) => Ok(k),
            },
        },
    }
}

/// Defines an action on a collection, owned by the signer. `derived` is the
/// address and bump that the host derived from `instruction_address_seeds`; the
/// instruction is stored there where `bump` matches and the address is free.
pub fn create_collection_instruction(
    registry: &mut Registry,
    accounts: CreateCollectionInstruction,
    name: String,
    bump: u8,
    derived: Option<(Key, u8)>,
) -> (r: Result<Key, ErrorCode>)
    requires
        old(registry).wf(),
    ensures
        final(registry).wf(),
        final(registry).spec_program_id() == old(registry).spec_program_id(),
        match create_collection_instruction_outcome(
            old(registry)@,
            accounts,
            name@,
            bump,
            derived,
        ) {
            Err(e) => r == Err::<Key, ErrorCode>(e) && final(registry)@ == old(registry)@,
            Ok(address) => r == Ok::<Key, ErrorCode>(address) && changes_only(
                old(registry)@,
                final(registry)@,
                address@,
            ) && is_instruction(
                final(registry)@[address@],
                accounts,
                pad_name(name_bytes(name@)),
                bump,
            ),
        },
{
    match load_collection_in(registry, &accounts.application, &accounts.collection) {
        Ok(_) => {},
        Err(e) => return Err(e),
    }
    let address = match place(registry, derived, bump) {
        Ok(k) => k,
        Err(e) => return Err(e),
    };
    let packed = match parse_string(name) {
        Ok(p) => p,
        Err(e) => return Err(e),
    };
    let instruction = CollectionInstruction {
        authority: accounts.authority,
        application: accounts.application,
        collection: accounts.collection,
        name: packed,
        bump,
    };
    registry.insert_new(address, Record::CollectionInstruction(instruction));
    Ok(address)
}

/// `r` is the instruction `before` with the name `name`.
pub open spec fn is_renamed_instruction(
    r: Record,
    before: CollectionInstruction,
    name: Seq<u8>,
) -> bool {
    match r {
        Record::CollectionInstruction(i) => i == (CollectionInstruction { name: i.name, ..before })
            && i.name@ == name,
        _ => false,
    }
}

/// The outcome of `update_collection_instruction`.
pub open spec fn update_collection_instruction_outcome(
    records: Map<Seq<u8>, Record>,
    accounts: UpdateCollectionInstruction,
    name: Seq<char>,
) -> Result<(), ErrorCode> {
    match instruction_at(records, accounts.instruction) {
        Err(e) => Err(e),
        Ok(i) => match authorization(i.authority, accounts.authority) {
            Err(e) => Err(e),
            Ok(_) => name_check(name),
        },
    }
}

/// Renames a collection instruction; only its authority may.
pub fn update_collection_instruction(
    registry: &mut Registry,
    accounts: UpdateCollectionInstruction,
    name: String,
) -> (r: Result<(), ErrorCode>)
    requires
        old(registry).wf(),
    ensures
        final(registry).wf(),
        final(registry).spec_program_id() == old(registry).spec_program_id(),
        r == update_collection_instruction_outcome(old(registry)@, accounts, name@),
        r is Err ==> final(registry)@ == old(registry)@,
        r is Ok ==> changes_only(old(registry)@, final(registry)@, accounts.instruction@)
            && is_renamed_instruction(
            final(registry)@[accounts.instruction@],
            instruction_at(old(registry)@, accounts.instruction)->Ok_0,
            pad_name(name_bytes(name@)),
        ),
{
    let mut instruction = match load_instruction(registry, &accounts.instruction) {
        Ok(i) => i,
        Err(e) => return Err(e),
    };
    match authorize(&instruction.authority, &accounts.authority) {
        Ok(_) => {},
        Err(e) => return Err(e),
    }
    let packed = match parse_string(name) {
        Ok(p) => p,
        Err(e) => return Err(e),
    };
    instruction.name = packed;
    registry.replace(accounts.instruction, Record::CollectionInstruction(instruction));
    Ok(())
}

/// The outcome of `delete_collection_instruction`.
pub open spec fn delete_collection_instruction_outcome(
    records: Map<Seq<u8>, Record>,
    accounts: DeleteCollectionInstruction,
) -> Result<(), ErrorCode> {
    match instruction_at(records, accounts.instruction) {
        Err(e) => Err(e),
        Ok(x) => authorization(x.authority, accounts.authority),
    }
}

/// Deletes a collection instruction, freeing its address; only its authority may.
pub fn delete_collection_instruction(registry: &mut Registry, accounts: DeleteCollectionInstruction) -> (r: Result<(), ErrorCode>)
    requires
        old(registry).wf(),
    ensures
        final(registry).wf(),
        final(registry).spec_program_id() == old(registry).spec_program_id(),
        r == delete_collection_instruction_outcome(old(registry)@, accounts),
        r is Err ==> final(registry)@ == old(registry)@,
        r is Ok ==> final(registry)@ == old(registry)@.remove(accounts.instruction@),
{
    let x = match load_instruction(registry, &accounts.instruction) {
        Ok(x) => x,
        Err(e) => return Err(e),
    };
    match authorize(&x.authority, &accounts.authority) {
        Ok(_) => {},
        Err(e) => return Err(e),
    }
    registry.remove(&accounts.instruction);
    Ok(())
}

/// `r` is an instruction argument with the given fields.
pub open spec fn is_argument(
    r: Record,
    accounts: CreateInstructionArgument,
    name: Seq<u8>,
    kind: AttributeKind,
    modifier: AttributeKindModifier,
    bump: u8,
) -> bool {
    match r {
        Record::InstructionArgument(a) => a.authority == accounts.authority && a.application
            == accounts.application && a.collection == accounts.collection && a.instruction
            == accounts.instruction && a.name@ == name && a.kind == kind && a.modifier == modifier
            && a.bump == bump,
        _ => false,
    }
}

/// The seeds of an instruction argument after its discriminator.
pub open spec fn argument_seeds(
    application: Key,
    collection: Key,
    instruction: Key,
    name: Seq<u8>,
) -> Seq<Seq<u8>> {
    seq![application@, collection@, instruction@, name]
}

/// The seed list from which the host derives the address of the argument
/// named `name` (a packed name slot) of the given instruction.
/// The name seed is the whole padded slot: the name's UTF-8 bytes followed
/// by zero bytes up to `NAME_LEN`, so names differing only in trailing NUL
/// characters share an address.
pub fn argument_address_seeds(application: &Key, collection: &Key, instruction: &Key, name: &[u8; 32]) -> (r: Vec<Vec<u8>>)
    ensures
        r.deep_view() == record_seeds(INSTRUCTION_ARGUMENT_SEED.spec_bytes(), argument_seeds(*application, *collection, *instruction, name@)),
{
    let mut seeds: Vec<Vec<u8>> = Vec::new();
    seeds.push(key_seed(application));
    seeds.push(key_seed(collection));
    seeds.push(key_seed(instruction));
    seeds.push(key_seed(&Key::new(*name)));
    proof {
        lemma_seeds_deep_view(seeds);
    }
    assert(seeds.deep_view() =~= argument_seeds(*application, *collection, *instruction, name@));
    seed_list(INSTRUCTION_ARGUMENT_SEED, &seeds)
}

/// The outcome of `create_collection_instruction_argument`: the address of the
/// new argument.
pub open spec fn create_collection_instruction_argument_outcome(
    records: Map<Seq<u8>, Record>,
    accounts: CreateInstructionArgument,
    name: Seq<char>,
    kind: u8,
    modifier: u8,
    size: u8,
    bump: u8,
    derived: Option<(Key, u8)>,
) -> Result<Key, ErrorCode> {
    match instruction_in(
        records,
        accounts.application,
        accounts.collection,
        accounts.instruction,
    ) {
        Err(e) => Err(e),
        Ok(_) => match placement(records, derived, bump) {
            Err(e) => Err(e),
            Ok(k) => match attribute_args(name, kind, modifier, size) {
                Err(e) => Err(e),
                Ok(_) => Ok(k),
            },
        },
    }
}

/// Defines a typed parameter of an instruction, owned by the signer. `derived`
/// is the address and bump that the host derived from `argument_address_seeds`;
/// the argument is stored there where `bump` matches and the address is free.
pub fn create_collection_instruction_argument(
    registry: &mut Registry,
    accounts: CreateInstructionArgument,
    name: String,
    kind: u8,
    modifier: u8,
    size: u8,
    bump: u8,
    derived: Option<(Key, u8)>,
) -> (r: Result<Key, ErrorCode>)
    requires
        old(registry).wf(),
    ensures
        final(registry).wf(),
        final(registry).spec_program_id() == old(registry).spec_program_id(),
        match create_collection_instruction_argument_outcome(
            old(registry)@,
            accounts,
            name@,
            kind,
            modifier,
            size,
            bump,
            derived,
        ) {
            Err(e) => r == Err::<Key, ErrorCode>(e) && final(registry)@ == old(registry)@,
            Ok(address) => r == Ok::<Key, ErrorCode>(address) && changes_only(
                old(registry)@,
                final(registry)@,
                address@,
            ) && is_argument(
                final(registry)@[address@],
                accounts,
                pad_name(name_bytes(name@)),
                attribute_args(name@, kind, modifier, size)->Ok_0.0,
                attribute_args(name@, kind, modifier, size)->Ok_0.1,
                bump,
            ),
        },
{
    match load_instruction_in(
        registry,
        &accounts.application,
        &accounts.collection,
        &accounts.instruction,
    ) {
        Ok(_) => {},
        Err(e) => return Err(e),
    }
    let address = match place(registry, derived, bump) {
        Ok(k) => k,
        Err(e) => return Err(e),
    };
    let (packed, k, m) = match parse_attribute_args(name, kind, modifier, size) {
        Ok(args) => args,
        Err(e) => return Err(e),
    };
    let argument = InstructionArgument {
        authority: accounts.authority,
        application: accounts.application,
        collection: accounts.collection,
        instruction: accounts.instruction,
        name: packed,
        kind: k,
        modifier: m,
        bump,
    };
    registry.insert_new(address, Record::InstructionArgument(argument));
    Ok(address)
}

/// `r` is the argument `before` with a new name, kind and modifier.
pub open spec fn is_updated_argument(
    r: Record,
    before: InstructionArgument,
    name: Seq<u8>,
    kind: AttributeKind,
    modifier: AttributeKindModifier,
) -> bool {
    match r {
        Record::InstructionArgument(a) => a == (InstructionArgument {
            name: a.name,
            kind,
            modifier,
            ..before
        }) && a.name@ == name,
        _ => false,
    }
}

/// The outcome of `update_collection_instruction_argument`.
pub open spec fn update_collection_instruction_argument_outcome(
    records: Map<Seq<u8>, Record>,
    accounts: UpdateInstructionArgument,
    name: Seq<char>,
    kind: u8,
    modifier: u8,
    size: u8,
) -> Result<(), ErrorCode> {
    match argument_at(records, accounts.argument) {
        Err(e) => Err(e),
        Ok(a) => match authorization(a.authority, accounts.authority) {
            Err(e) => Err(e),
            Ok(_) => match attribute_args(name, kind, modifier, size) {
                Err(e) => Err(e),
                Ok(_) => Ok(()),
            },
        },
    }
}

/// Changes the name, kind and modifier of an instruction argument; only its
/// authority may.
pub fn update_collection_instruction_argument(
    registry: &mut Registry,
    accounts: UpdateInstructionArgument,
    name: String,
    kind: u8,
    modifier: u8,
    size: u8,
) -> (r: Result<(), ErrorCode>)
    requires
        old(registry).wf(),
    ensures
        final(registry).wf(),
        final(registry).spec_program_id() == old(registry).spec_program_id(),
        r == update_collection_instruction_argument_outcome(
            old(registry)@,
            accounts,
            name@,
            kind,
            modifier,
            size,
        ),
        r is Err ==> final(registry)@ == old(registry)@,
        r is Ok ==> changes_only(old(registry)@, final(registry)@, accounts.argument@)
            && is_updated_argument(
            final(registry)@[accounts.argument@],
            argument_at(old(registry)@, accounts.argument)->Ok_0,
            pad_name(name_bytes(name@)),
            attribute_args(name@, kind, modifier, size)->Ok_0.0,
            attribute_args(name@, kind, modifier, size)->Ok_0.1,
        ),
{
    let mut argument = match load_argument(registry, &accounts.argument) {
        Ok(a) => a,
        Err(e) => return Err(e),
    };
    match authorize(&argument.authority, &accounts.authority) {
        Ok(_) => {},
        Err(e) => return Err(e),
    }
    let (packed, k, m) = match parse_attribute_args(name, kind, modifier, size) {
        Ok(args) => args,
        Err(e) => return Err(e),
    };
    argument.name = packed;
    argument.kind = k;
    argument.modifier = m;
    registry.replace(accounts.argument, Record::InstructionArgument(argument));
    Ok(())
}

/// The outcome of `delete_collection_instruction_argument`.
pub open spec fn delete_collection_instruction_argument_outcome(
    records: Map<Seq<u8>, Record>,
    accounts: DeleteInstructionArgument,
) -> Result<(), ErrorCode> {
    match argument_at(records, accounts.argument) {
        Err(e) => Err(e),
        Ok(x) => authorization(x.authority, accounts.authority),
    }
}

/// Deletes an instruction argument, freeing its address; only its authority may.
pub fn delete_collection_instruction_argument(registry: &mut Registry, accounts: DeleteInstructionArgument) -> (r: Result<(), ErrorCode>)
    requires
        old(registry).wf(),
    ensures
        final(registry).wf(),
        final(registry).spec_program_id() == old(registry).spec_program_id(),
        r == delete_collection_instruction_argument_outcome(old(registry)@, accounts),
        r is Err ==> final(registry)@ == old(registry)@,
        r is Ok ==> final(registry)@ == old(registry)@.remove(accounts.argument@),
{
    let x = match load_argument(registry, &accounts.argument) {
        Ok(x) => x,
        Err(e) => return Err(e),
    };
    match authorize(&x.authority, &accounts.authority) {
        Ok(_) => {},
        Err(e) => return Err(e),
    }
    registry.remove(&accounts.argument);
    Ok(())
}

} // verus!
