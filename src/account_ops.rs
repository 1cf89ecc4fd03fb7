use vstd::prelude::*;
use vstd::string::StringSliceAdditionalSpecFns;

use crate::accounts::{
    CreateAccountBoolAttribute, CreateInstructionAccount, DeleteAccountBoolAttribute,
    DeleteInstructionAccount, UpdateAccountBoolAttribute, UpdateInstructionAccount,
};
use crate::address::{key_seed, record_seeds, seed_list, Key};
use crate::error::ErrorCode;
use crate::kinds::{account_kind_of, mark_attribute_of, AccountKind, MarkAttribute};
use crate::name::{name_bytes, pad_name, parse_string};
use crate::operations::{changes_only, lemma_seeds_deep_view, name_check, place, placement};
use crate::records::{AccountBoolAttribute, InstructionAccount, Record};
use crate::registry::Registry;
use crate::schema::{
    account_at, account_in, authorization, authorize, bool_attribute_at, collection_at,
    instruction_in, load_account, load_account_in, load_bool_attribute, load_collection,
    load_instruction_in,
};

verus! {

/// The discriminator seed of instruction accounts.
pub const INSTRUCTION_ACCOUNT_SEED: &'static str = "instruction_account";

/// The discriminator seed of account flags.
pub const ACCOUNT_BOOL_ATTRIBUTE_SEED: &'static str = "account_bool_attribute";

/// The checks of the arguments of an instruction account: the name, then the
/// kind tag, then the mark tag; the decoded kind and mark.
pub open spec fn account_args(name: Seq<char>, kind: u8, mark_attribute: u8) -> Result<
    (AccountKind, MarkAttribute),
    ErrorCode,
> {
    match name_check(name) {
        Err(e) => Err(e),
        Ok(_) => match account_kind_of(kind) {
            Err(e) => Err(e),
            Ok(k) => match mark_attribute_of(mark_attribute) {
                Err(e) => Err(e),
                Ok(m) => Ok((k, m)),
            },
        },
    }
}

/// Checks and decodes the arguments of an instruction account.
pub fn parse_account_args(name: String, kind: u8, mark_attribute: u8) -> (r: Result<
    ([u8; 32], AccountKind, MarkAttribute),
    ErrorCode,
>)
    ensures
        match account_args(name@, kind, mark_attribute) {
            Err(e) => r == Err::<([u8; 32], AccountKind, MarkAttribute), ErrorCode>(e),
            Ok((k, m)) => r is Ok && r->Ok_0.0@ == pad_name(name_bytes(name@)) && r->Ok_0.1 == k
                && r->Ok_0.2 == m,
        },
{
    let packed = match parse_string(name) {
        Ok(p) => p,
        Err(e) => return Err(e),
    };
    let k = match AccountKind::from(kind) {
        Ok(k) => k,
        Err(e) => return Err(e),
    };
    let m = match MarkAttribute::from(mark_attribute) {
        Ok(m) => m,
        Err(e) => return Err(e),
    };
    Ok((packed, k, m))
}

/// `r` is an instruction account with the given fields.
pub open spec fn is_account(
    r: Record,
    accounts: CreateInstructionAccount,
    name: Seq<u8>,
    kind: AccountKind,
    mark_attribute: MarkAttribute,
    bump: u8,
) -> bool {
    match r {
        Record::InstructionAccount(a) => a.authority == accounts.authority && a.application
            == accounts.application && a.collection == accounts.collection && a.instruction
            == accounts.instruction && a.name@ == name && a.account_collection
            == accounts.account_collection && a.kind == kind && a.mark_attribute == mark_attribute
            && a.bump == bump,
        _ => false,
    }
}

/// The seeds of an instruction account after its discriminator.
pub open spec fn account_seeds(
    application: Key,
    collection: Key,
    instruction: Key,
    name: Seq<u8>,
) -> Seq<Seq<u8>> {
    seq![application@, collection@, instruction@, name]
}

/// The seed list from which the host derives the address of the instruction
/// account named `name` (a packed name slot) of the given instruction.
/// The name seed is the whole padded slot: the name's UTF-8 bytes followed
/// by zero bytes up to `NAME_LEN`, so names differing only in trailing NUL
/// characters share an address.
pub fn account_address_seeds(application: &Key, collection: &Key, instruction: &Key, name: &[u8; 32]) -> (r: Vec<Vec<u8>>)
    ensures
        r.deep_view() == record_seeds(INSTRUCTION_ACCOUNT_SEED.spec_bytes(), account_seeds(*application, *collection, *instruction, name@)),
{
    let mut seeds: Vec<Vec<u8>> = Vec::new();
    seeds.push(key_seed(application));
    seeds.push(key_seed(collection));
    seeds.push(key_seed(instruction));
    seeds.push(key_seed(&Key::new(*name)));
    proof {
        lemma_seeds_deep_view(seeds);
    }
    assert(seeds.deep_view() =~= account_seeds(*application, *collection, *instruction, name@));
    seed_list(INSTRUCTION_ACCOUNT_SEED, &seeds)
}

/// The outcome of `create_collection_instruction_account`: the address of the
/// new account.
pub open spec fn create_collection_instruction_account_outcome(
    records: Map<Seq<u8>, Record>,
    accounts: CreateInstructionAccount,
    name: Seq<char>,
    kind: u8,
    mark_attribute: u8,
    bump: u8,
    derived: Option<(Key, u8)>,
) -> Result<Key, ErrorCode> {
    match instruction_in(
        records,
        accounts.application,
        accounts.collection,
        accounts.instruction,
    ) {
        Err(e) => Err(e),
        Ok(_) => match collection_at(records, accounts.account_collection) {
            Err(e) => Err(e),
            Ok(_) => match placement(records, derived, bump) {
                Err(e) => Err(e),
                Ok(k) => match account_args(name, kind, mark_attribute) {
                    Err(e) => Err(e),
                    Ok(_) => Ok(k),
                },
            },
        },
    }
}

/// Declares an account slot of an instruction, owned by the signer. `derived`
/// is the address and bump that the host derived from `account_address_seeds`;
/// the account is stored there where `bump` matches and the address is free.
pub fn create_collection_instruction_account(
    registry: &mut Registry,
    accounts: CreateInstructionAccount,
    name: String,
    kind: u8,
    mark_attribute: u8,
    bump: u8,
    derived: Option<(Key, u8)>,
) -> (r: Result<Key, ErrorCode>)
    requires
        old(registry).wf(),
    ensures
        final(registry).wf(),
        final(registry).spec_program_id() == old(registry).spec_program_id(),
        match create_collection_instruction_account_outcome(
            old(registry)@,
            accounts,
            name@,
            kind,
            mark_attribute,
            bump,
            derived,
        ) {
            Err(e) => r == Err::<Key, ErrorCode>(e) && final(registry)@ == old(registry)@,
            Ok(address) => r == Ok::<Key, ErrorCode>(address) && changes_only(
                old(registry)@,
                final(registry)@,
                address@,
            ) && is_account(
                final(registry)@[address@],
                accounts,
                pad_name(name_bytes(name@)),
                account_args(name@, kind, mark_attribute)->Ok_0.0,
                account_args(name@, kind, mark_attribute)->Ok_0.1,
                bump,
            ),
        },
{
    match load_instruction_in(
        registry,
        &accounts.application,
        &accounts.collection,
        &accounts.instruction,
    ) {
        Ok(_) => {},
        Err(e) => return Err(e),
    }
    match load_collection(registry, &accounts.account_collection) {
        Ok(_) => {},
        Err(e) => return Err(e),
    }
    let address = match place(registry, derived, bump) {
        Ok(k) => k,
        Err(e) => return Err(e),
    };
    let (packed, k, m) = match parse_account_args(name, kind, mark_attribute) {
        Ok(args) => args,
        Err(e) => return Err(e),
    };
    let account = InstructionAccount {
        authority: accounts.authority,
        application: accounts.application,
        collection: accounts.collection,
        instruction: accounts.instruction,
        name: packed,
        account_collection: accounts.account_collection,
        kind: k,
        mark_attribute: m,
        bump,
    };
    registry.insert_new(address, Record::InstructionAccount(account));
    Ok(address)
}

/// `r` is the account `before` with a new name, kind, mark and collection.
pub open spec fn is_updated_account(
    r: Record,
    before: InstructionAccount,
    name: Seq<u8>,
    account_collection: Key,
    kind: AccountKind,
    mark_attribute: MarkAttribute,
) -> bool {
    match r {
        Record::InstructionAccount(a) => a == (InstructionAccount {
            name: a.name,
            account_collection,
            kind,
            mark_attribute,
            ..before
        }) && a.name@ == name,
        _ => false,
    }
}

/// The outcome of `update_collection_instruction_account`.
pub open spec fn update_collection_instruction_account_outcome(
    records: Map<Seq<u8>, Record>,
    accounts: UpdateInstructionAccount,
    name: Seq<char>,
    kind: u8,
    mark_attribute: u8,
) -> Result<(), ErrorCode> {
    match account_at(records, accounts.account) {
        Err(e) => Err(e),
        Ok(a) => match authorization(a.authority, accounts.authority) {
            Err(e) => Err(e),
            Ok(_) => match collection_at(records, accounts.account_collection) {
                Err(e) => Err(e),
                Ok(_) => match account_args(name, kind, mark_attribute) {
                    Err(e) => Err(e),
                    Ok(_) => Ok(()),
                },
            },
        },
    }
}

/// Changes the name, kind, mark and source collection of an instruction
/// account; only its authority may.
pub fn update_collection_instruction_account(
    registry: &mut Registry,
    accounts: UpdateInstructionAccount,
    name: String,
    kind: u8,
    mark_attribute: u8,
) -> (r: Result<(), ErrorCode>)
    requires
        old(registry).wf(),
    ensures
        final(registry).wf(),
        final(registry).spec_program_id() == old(registry).spec_program_id(),
        r == update_collection_instruction_account_outcome(
            old(registry)@,
            accounts,
            name@,
            kind,
            mark_attribute,
        ),
        r is Err ==> final(registry)@ == old(registry)@,
        r is Ok ==> changes_only(old(registry)@, final(registry)@, accounts.account@)
            && is_updated_account(
            final(registry)@[accounts.account@],
            account_at(old(registry)@, accounts.account)->Ok_0,
            pad_name(name_bytes(name@)),
            accounts.account_collection,
            account_args(name@, kind, mark_attribute)->Ok_0.0,
            account_args(name@, kind, mark_attribute)->Ok_0.1,
        ),
{
    let mut account = match load_account(registry, &accounts.account) {
        Ok(a) => a,
        Err(e) => return Err(e),
    };
    match authorize(&account.authority, &accounts.authority) {
        Ok(_) => {},
        Err(e) => return Err(e),
    }
    match load_collection(registry, &accounts.account_collection) {
        Ok(_) => {},
        Err(e) => return Err(e),
    }
    let (packed, k, m) = match parse_account_args(name, kind, mark_attribute) {
        Ok(args) => args,
        Err(e) => return Err(e),
    };
    account.name = packed;
    account.kind = k;
    account.mark_attribute = m;
    account.account_collection = accounts.account_collection;
    registry.replace(accounts.account, Record::InstructionAccount(account));
    Ok(())
}

/// The outcome of `delete_collection_instruction_account`.
pub open spec fn delete_collection_instruction_account_outcome(
    records: Map<Seq<u8>, Record>,
    accounts: DeleteInstructionAccount,
) -> Result<(), ErrorCode> {
    match account_at(records, accounts.account) {
        Err(e) => Err(e),
        Ok(x) => authorization(x.authority, accounts.authority),
    }
}

/// Deletes an instruction account, freeing its address; only its authority may.
pub fn delete_collection_instruction_account(registry: &mut Registry, accounts: DeleteInstructionAccount) -> (r: Result<(), ErrorCode>)
    requires
        old(registry).wf(),
    ensures
        final(registry).wf(),
        final(registry).spec_program_id() == old(registry).spec_program_id(),
        r == delete_collection_instruction_account_outcome(old(registry)@, accounts),
        r is Err ==> final(registry)@ == old(registry)@,
        r is Ok ==> final(registry)@ == old(registry)@.remove(accounts.account@),
{
    let x = match load_account(registry, &accounts.account) {
        Ok(x) => x,
        Err(e) => return Err(e),
    };
    match authorize(&x.authority, &accounts.authority) {
        Ok(_) => {},
        Err(e) => return Err(e),
    }
    registry.remove(&accounts.account);
    Ok(())
}

/// `r` is an account flag with the given fields.
pub open spec fn is_bool_attribute(
    r: Record,
    accounts: CreateAccountBoolAttribute,
    kind: MarkAttribute,
    bump: u8,
) -> bool {
    match r {
        Record::AccountBoolAttribute(a) => a.authority == accounts.authority && a.application
            == accounts.application && a.collection == accounts.collection && a.instruction
            == accounts.instruction && a.account == accounts.account && a.kind == kind && a.bump
            == bump,
        _ => false,
    }
}

/// The seeds of an account flag after its discriminator: its ancestors, then
/// its kind tag.
pub open spec fn bool_attribute_seeds(
    application: Key,
    collection: Key,
    instruction: Key,
    account: Key,
    kind: u8,
) -> Seq<Seq<u8>> {
    seq![application@, collection@, instruction@, account@, seq![kind]]
}

/// The seed list from which the host derives the address of the flag of kind
/// tag `kind` on the given instruction account.
pub fn bool_attribute_address_seeds(application: &Key, collection: &Key, instruction: &Key, account: &Key, kind: &u8) -> (r: Vec<Vec<u8>>)
    ensures
        r.deep_view() == record_seeds(ACCOUNT_BOOL_ATTRIBUTE_SEED.spec_bytes(), bool_attribute_seeds(*application, *collection, *instruction, *account, *kind)),
{
    let mut seeds: Vec<Vec<u8>> = Vec::new();
    seeds.push(key_seed(application));
    seeds.push(key_seed(collection));
    seeds.push(key_seed(instruction));
    seeds.push(key_seed(account));
    seeds.push(vec![*kind]);
    proof {
        lemma_seeds_deep_view(seeds);
        assert(seeds@[4]@ =~= seq![*kind]);
    }
    assert(seeds.deep_view() =~= bool_attribute_seeds(*application, *collection, *instruction, *account, *kind));
    seed_list(ACCOUNT_BOOL_ATTRIBUTE_SEED, &seeds)
}

/// The outcome of `create_account_bool_attribute`: the address of the new flag.
pub open spec fn create_account_bool_attribute_outcome(
    records: Map<Seq<u8>, Record>,
    accounts: CreateAccountBoolAttribute,
    kind: u8,
    bump: u8,
    derived: Option<(Key, u8)>,
) -> Result<Key, ErrorCode> {
    match account_in(
        records,
        accounts.application,
        accounts.collection,
        accounts.instruction,
        accounts.account,
    ) {
        Err(e) => Err(e),
        Ok(_) => match placement(records, derived, bump) {
            Err(e) => Err(e),
            Ok(k) => match mark_attribute_of(kind) {
                Err(e) => Err(e),
                Ok(_) => Ok(k),
            },
        },
    }
}

/// Attaches an execution-mode flag to an instruction account, owned by the
/// signer. `derived` is the address and bump that the host derived from
/// `bool_attribute_address_seeds`; the flag is stored there where `bump`
/// matches and the address is free. The flag is not checked against the
/// account's own mark.
pub fn create_account_bool_attribute(
    registry: &mut Registry,
    accounts: CreateAccountBoolAttribute,
    kind: u8,
    bump: u8,
    derived: Option<(Key, u8)>,
) -> (r: Result<Key, ErrorCode>)
    requires
        old(registry).wf(),
    ensures
        final(registry).wf(),
        final(registry).spec_program_id() == old(registry).spec_program_id(),
        match create_account_bool_attribute_outcome(
            old(registry)@,
            accounts,
            kind,
            bump,
            derived,
        ) {
            Err(e) => r == Err::<Key, ErrorCode>(e) && final(registry)@ == old(registry)@,
            Ok(address) => r == Ok::<Key, ErrorCode>(address) && changes_only(
                old(registry)@,
                final(registry)@,
                address@,
            ) && is_bool_attribute(
                final(registry)@[address@],
                accounts,
                mark_attribute_of(kind)->Ok_0,
                bump,
            ),
        },
{
    match load_account_in(
        registry,
        &accounts.application,
        &accounts.collection,
        &accounts.instruction,
        &accounts.account,
    ) {
        Ok(_) => {},
        Err(e) => return Err(e),
    }
    let address = match place(registry, derived, bump) {
        Ok(k) => k,
        Err(e) => return Err(e),
    };
    let k = match MarkAttribute::from(kind) {
        Ok(k) => k,
        Err(e) => return Err(e),
    };
    let attribute = AccountBoolAttribute {
        authority: accounts.authority,
        application: accounts.application,
        collection: accounts.collection,
        instruction: accounts.instruction,
        account: accounts.account,
        kind: k,
        bump,
    };
    registry.insert_new(address, Record::AccountBoolAttribute(attribute));
    Ok(address)
}

/// `r` is the flag `before` with the kind `kind`.
pub open spec fn is_updated_bool_attribute(
    r: Record,
    before: AccountBoolAttribute,
    kind: MarkAttribute,
) -> bool {
    r == Record::AccountBoolAttribute(AccountBoolAttribute { kind, ..before })
}

/// The outcome of `update_account_bool_attribute`.
pub open spec fn update_account_bool_attribute_outcome(
    records: Map<Seq<u8>, Record>,
    accounts: UpdateAccountBoolAttribute,
    kind: u8,
) -> Result<(), ErrorCode> {
    match bool_attribute_at(records, accounts.attribute) {
        Err(e) => Err(e),
        Ok(a) => match authorization(a.authority, accounts.authority) {
            Err(e) => Err(e),
            Ok(_) => match mark_attribute_of(kind) {
                Err(e) => Err(e),
                Ok(_) => Ok(()),
            },
        },
    }
}

/// Changes the kind of an account flag; only its authority may.
pub fn update_account_bool_attribute(
    registry: &mut Registry,
    accounts: UpdateAccountBoolAttribute,
    kind: u8,
) -> (r: Result<(), ErrorCode>)
    requires
        old(registry).wf(),
    ensures
        final(registry).wf(),
        final(registry).spec_program_id() == old(registry).spec_program_id(),
        r == update_account_bool_attribute_outcome(old(registry)@, accounts, kind),
        r is Err ==> final(registry)@ == old(registry)@,
        r is Ok ==> changes_only(old(registry)@, final(registry)@, accounts.attribute@)
            && is_updated_bool_attribute(
            final(registry)@[accounts.attribute@],
            bool_attribute_at(old(registry)@, accounts.attribute)->Ok_0,
            mark_attribute_of(kind)->Ok_0,
        ),
{
    let mut attribute = match load_bool_attribute(registry, &accounts.attribute) {
        Ok(a) => a,
        Err(e) => return Err(e),
    };
    match authorize(&attribute.authority, &accounts.authority) {
        Ok(_) => {},
        Err(e) => return Err(e),
    }
    let k = match MarkAttribute::from(kind) {
        Ok(k) => k,
        Err(e) => return Err(e),
    };
    attribute.kind = k;
    registry.replace(accounts.attribute, Record::AccountBoolAttribute(attribute));
    Ok(())
}

/// The outcome of `delete_account_bool_attribute`.
pub open spec fn delete_account_bool_attribute_outcome(
    records: Map<Seq<u8>, Record>,
    accounts: DeleteAccountBoolAttribute,
) -> Result<(), ErrorCode> {
    match bool_attribute_at(records, accounts.attribute) {
        Err(e) => Err(e),
        Ok(x) => authorization(x.authority, accounts.authority),
    }
}

/// Deletes an account flag, freeing its address; only its authority may.
pub fn delete_account_bool_attribute(registry: &mut Registry, accounts: DeleteAccountBoolAttribute) -> (r: Result<(), ErrorCode>)
    requires
        old(registry).wf(),
    ensures
        final(registry).wf(),
        final(registry).spec_program_id() == old(registry).spec_program_id(),
        r == delete_account_bool_attribute_outcome(old(registry)@, accounts),
        r is Err ==> final(registry)@ == old(registry)@,
        r is Ok ==> final(registry)@ == old(registry)@.remove(accounts.attribute@),
{
    let x = match load_bool_attribute(registry, &accounts.attribute) {
        Ok(x) => x,
        Err(e) => return Err(e),
    };
    match authorize(&x.authority, &accounts.authority) {
        Ok(_) => {},
        Err(e) => return Err(e),
    }
    registry.remove(&accounts.attribute);
    Ok(())
}

} // verus!
