use vstd::prelude::*;

use crate::account_ops::{
    account_args, create_account_bool_attribute_outcome,
    create_collection_instruction_account_outcome, delete_account_bool_attribute_outcome,
    delete_collection_instruction_account_outcome, update_account_bool_attribute_outcome,
    update_collection_instruction_account_outcome,
};
use crate::accounts::{
    CreateAccountBoolAttribute, CreateApplication, CreateCollection, CreateCollectionAttribute,
    CreateCollectionInstruction, CreateInstructionAccount, CreateInstructionArgument,
    DeleteAccountBoolAttribute, DeleteApplication, DeleteCollection, DeleteCollectionAttribute,
    DeleteCollectionInstruction, DeleteInstructionAccount, DeleteInstructionArgument,
    UpdateAccountBoolAttribute, UpdateApplication, UpdateCollection, UpdateCollectionAttribute,
    UpdateCollectionInstruction, UpdateInstructionAccount, UpdateInstructionArgument,
};
use crate::address::Key;
use crate::attribute_ops::{
    attribute_args, create_collection_attribute_outcome, delete_collection_attribute_outcome,
    update_collection_attribute_outcome,
};
use crate::error::ErrorCode;
use crate::instruction_ops::{
    create_collection_instruction_argument_outcome, create_collection_instruction_outcome,
    delete_collection_instruction_argument_outcome, delete_collection_instruction_outcome,
    update_collection_instruction_argument_outcome, update_collection_instruction_outcome,
};
use crate::kinds::mark_attribute_of;
use crate::operations::{
    after_delete_collection, changes_only, create_application_outcome, create_collection_outcome,
    delete_application_outcome, delete_collection_outcome, name_check, placement,
    update_application_outcome, update_collection_outcome,
};
use crate::records::Record;
use crate::schema::{
    account_at, account_in, application_at, argument_at, attribute_at, bool_attribute_at,
    collection_at, collection_in, instruction_at, instruction_in,
};

verus! {

/// An application cannot be created where a record already lives.
pub proof fn lemma_application_created_once(
    records: Map<Seq<u8>, Record>,
    accounts: CreateApplication,
    name: Seq<char>,
)
    requires
        records.contains_key(accounts.application@),
        name_check(name) is Ok,
    ensures
        create_application_outcome(records, accounts, name) == Err::<(), ErrorCode>(
            ErrorCode::AccountAlreadyInitialized,
        ),
{
}

/// Creating a collection a second time with the same application, name and
/// bump fails, whoever signs: the address derived for its seeds is taken.
pub proof fn lemma_collection_created_once(
    before: Map<Seq<u8>, Record>,
    after: Map<Seq<u8>, Record>,
    derived: Option<(Key, u8)>,
    first: CreateCollection,
    second: CreateCollection,
    name: Seq<char>,
    bump: u8,
)
    requires
        create_collection_outcome(before, first, name, bump, derived) is Ok,
        after.contains_key(create_collection_outcome(before, first, name, bump, derived)->Ok_0@),
        second.application == first.application,
        application_at(after, second.application) is Ok,
    ensures
        create_collection_outcome(after, second, name, bump, derived) == Err::<
            Key,
            ErrorCode,
        >(ErrorCode::AccountAlreadyInitialized),
{
}

/// Creating a collection attribute a second time with the same ancestors, name
/// and bump fails, whoever signs and whatever its name and type arguments hold.
pub proof fn lemma_attribute_created_once(
    before: Map<Seq<u8>, Record>,
    after: Map<Seq<u8>, Record>,
    derived: Option<(Key, u8)>,
    first: CreateCollectionAttribute,
    second: CreateCollectionAttribute,
    name: Seq<char>,
    kinds: (u8, u8, u8),
    second_kinds: (u8, u8, u8),
    bump: u8,
)
    requires
        create_collection_attribute_outcome(
            before,
            first,
            name,
            kinds.0,
            kinds.1,
            kinds.2,
            bump,
            derived,
        ) is Ok,
        after.contains_key(
            create_collection_attribute_outcome(
                before,
                first,
                name,
                kinds.0,
                kinds.1,
                kinds.2,
                bump,
                derived,
            )->Ok_0@,
        ),
        second.application == first.application,
        second.collection == first.collection,
        collection_in(after, second.application, second.collection) is Ok,
    ensures
        create_collection_attribute_outcome(
            after,
            second,
            name,
            second_kinds.0,
            second_kinds.1,
            second_kinds.2,
            bump,
            derived,
        ) == Err::<Key, ErrorCode>(ErrorCode::AccountAlreadyInitialized),
{
}

/// Creating a collection instruction a second time with the same ancestors,
/// name and bump fails, whoever signs.
pub proof fn lemma_instruction_created_once(
    before: Map<Seq<u8>, Record>,
    after: Map<Seq<u8>, Record>,
    derived: Option<(Key, u8)>,
    first: CreateCollectionInstruction,
    second: CreateCollectionInstruction,
    name: Seq<char>,
    bump: u8,
)
    requires
        create_collection_instruction_outcome(before, first, name, bump, derived) is Ok,
        after.contains_key(
            create_collection_instruction_outcome(before, first, name, bump, derived)->Ok_0@,
        ),
        second.application == first.application,
        second.collection == first.collection,
        collection_in(after, second.application, second.collection) is Ok,
    ensures
        create_collection_instruction_outcome(after, second, name, bump, derived) == Err::<
            Key,
            ErrorCode,
        >(ErrorCode::AccountAlreadyInitialized),
{
}

/// Creating an instruction argument a second time with the same ancestors,
/// name and bump fails, whoever signs and whatever its name and type arguments hold.
pub proof fn lemma_argument_created_once(
    before: Map<Seq<u8>, Record>,
    after: Map<Seq<u8>, Record>,
    derived: Option<(Key, u8)>,
    first: CreateInstructionArgument,
    second: CreateInstructionArgument,
    name: Seq<char>,
    kinds: (u8, u8, u8),
    second_kinds: (u8, u8, u8),
    bump: u8,
)
    requires
        create_collection_instruction_argument_outcome(
            before,
            first,
            name,
            kinds.0,
            kinds.1,
            kinds.2,
            bump,
            derived,
        ) is Ok,
        after.contains_key(
            create_collection_instruction_argument_outcome(
                before,
                first,
                name,
                kinds.0,
                kinds.1,
                kinds.2,
                bump,
                derived,
            )->Ok_0@,
        ),
        second.application == first.application,
        second.collection == first.collection,
        second.instruction == first.instruction,
        instruction_in(after, second.application, second.collection, second.instruction) is Ok,
    ensures
        create_collection_instruction_argument_outcome(
            after,
            second,
            name,
            second_kinds.0,
            second_kinds.1,
            second_kinds.2,
            bump,
            derived,
        ) == Err::<Key, ErrorCode>(ErrorCode::AccountAlreadyInitialized),
{
}

/// Creating an instruction account a second time with the same ancestors,
/// name and bump fails, whoever signs and whatever its name, kind and mark arguments hold.
pub proof fn lemma_account_created_once(
    before: Map<Seq<u8>, Record>,
    after: Map<Seq<u8>, Record>,
    derived: Option<(Key, u8)>,
    first: CreateInstructionAccount,
    second: CreateInstructionAccount,
    name: Seq<char>,
    kinds: (u8, u8),
    second_kinds: (u8, u8),
    bump: u8,
)
    requires
        create_collection_instruction_account_outcome(
            before,
            first,
            name,
            kinds.0,
            kinds.1,
            bump,
            derived,
        ) is Ok,
        after.contains_key(
            create_collection_instruction_account_outcome(
                before,
                first,
                name,
                kinds.0,
                kinds.1,
                bump,
                derived,
            )->Ok_0@,
        ),
        second.application == first.application,
        second.collection == first.collection,
        second.instruction == first.instruction,
        instruction_in(after, second.application, second.collection, second.instruction) is Ok,
        collection_at(after, second.account_collection) is Ok,
    ensures
        create_collection_instruction_account_outcome(
            after,
            second,
            name,
            second_kinds.0,
            second_kinds.1,
            bump,
            derived,
        ) == Err::<Key, ErrorCode>(ErrorCode::AccountAlreadyInitialized),
{
}

/// Creating an account flag a second time with the same ancestors, kind and
/// bump fails, whoever signs.
pub proof fn lemma_bool_attribute_created_once(
    before: Map<Seq<u8>, Record>,
    after: Map<Seq<u8>, Record>,
    derived: Option<(Key, u8)>,
    first: CreateAccountBoolAttribute,
    second: CreateAccountBoolAttribute,
    kind: u8,
    bump: u8,
)
    requires
        create_account_bool_attribute_outcome(before, first, kind, bump, derived) is Ok,
        after.contains_key(
            create_account_bool_attribute_outcome(before, first, kind, bump, derived)->Ok_0@,
        ),
        second.application == first.application,
        second.collection == first.collection,
        second.instruction == first.instruction,
        second.account == first.account,
        account_in(
            after,
            second.application,
            second.collection,
            second.instruction,
            second.account,
        ) is Ok,
    ensures
        create_account_bool_attribute_outcome(after, second, kind, bump, derived) == Err::<
            Key,
            ErrorCode,
        >(ErrorCode::AccountAlreadyInitialized),
{
}

/// Only the stored authority may rename or delete an application; it always may.
pub proof fn lemma_application_authority(
    records: Map<Seq<u8>, Record>,
    address: Key,
    signer: Key,
    name: Seq<char>,
)
    requires
        application_at(records, address) is Ok,
        name_check(name) is Ok,
    ensures
        application_at(records, address)->Ok_0.authority != signer ==> update_application_outcome(
            records,
            (UpdateApplication { application: address, authority: signer }),
            name,
        ) == Err::<(), ErrorCode>(ErrorCode::Unauthorized) && delete_application_outcome(
            records,
            (DeleteApplication { application: address, authority: signer }),
        ) == Err::<(), ErrorCode>(ErrorCode::Unauthorized),
        application_at(records, address)->Ok_0.authority == signer ==> update_application_outcome(
            records,
            (UpdateApplication { application: address, authority: signer }),
            name,
        ) is Ok && delete_application_outcome(
            records,
            (DeleteApplication { application: address, authority: signer }),
        ) is Ok,
{
}

/// Only the stored authority may rename or delete a collection; it always may
/// where the parent application, if live, counts the collection.
pub proof fn lemma_collection_authority(
    records: Map<Seq<u8>, Record>,
    address: Key,
    signer: Key,
    name: Seq<char>,
)
    requires
        collection_at(records, address) is Ok,
        name_check(name) is Ok,
        application_at(records, collection_at(records, address)->Ok_0.application) is Ok
            ==> application_at(
            records,
            collection_at(records, address)->Ok_0.application,
        )->Ok_0.count > 0,
    ensures
        collection_at(records, address)->Ok_0.authority != signer ==> update_collection_outcome(
            records,
            (UpdateCollection { collection: address, authority: signer }),
            name,
        ) == Err::<(), ErrorCode>(ErrorCode::Unauthorized) && delete_collection_outcome(
            records,
            (DeleteCollection { collection: address, authority: signer }),
        ) == Err::<(), ErrorCode>(ErrorCode::Unauthorized),
        collection_at(records, address)->Ok_0.authority == signer ==> update_collection_outcome(
            records,
            (UpdateCollection { collection: address, authority: signer }),
            name,
        ) is Ok && delete_collection_outcome(
            records,
            (DeleteCollection { collection: address, authority: signer }),
        ) is Ok,
{
}

/// Only the stored authority may change or delete a collection attribute; it
/// always may, given valid arguments.
pub proof fn lemma_attribute_authority(
    records: Map<Seq<u8>, Record>,
    address: Key,
    signer: Key,
    name: Seq<char>,
    kind: u8,
    modifier: u8,
    size: u8,
)
    requires
        attribute_at(records, address) is Ok,
        attribute_args(name, kind, modifier, size) is Ok,
    ensures
        attribute_at(records, address)->Ok_0.authority != signer ==> update_collection_attribute_outcome(
            records,
            (UpdateCollectionAttribute { attribute: address, authority: signer }),
            name,
            kind,
            modifier,
            size,
        ) == Err::<(), ErrorCode>(ErrorCode::Unauthorized) && delete_collection_attribute_outcome(
            records,
            (DeleteCollectionAttribute { attribute: address, authority: signer }),
        ) == Err::<(), ErrorCode>(ErrorCode::Unauthorized),
        attribute_at(records, address)->Ok_0.authority == signer ==> update_collection_attribute_outcome(
            records,
            (UpdateCollectionAttribute { attribute: address, authority: signer }),
            name,
            kind,
            modifier,
            size,
        ) is Ok && delete_collection_attribute_outcome(
            records,
            (DeleteCollectionAttribute { attribute: address, authority: signer }),
        ) is Ok,
{
}

/// Only the stored authority may rename or delete a collection instruction; it
/// always may.
pub proof fn lemma_instruction_authority(
    records: Map<Seq<u8>, Record>,
    address: Key,
    signer: Key,
    name: Seq<char>,
)
    requires
        instruction_at(records, address) is Ok,
        name_check(name) is Ok,
    ensures
        instruction_at(records, address)->Ok_0.authority != signer ==> update_collection_instruction_outcome(
            records,
            (UpdateCollectionInstruction { instruction: address, authority: signer }),
            name,
        ) == Err::<(), ErrorCode>(ErrorCode::Unauthorized) && delete_collection_instruction_outcome(
            records,
            (DeleteCollectionInstruction { instruction: address, authority: signer }),
        ) == Err::<(), ErrorCode>(ErrorCode::Unauthorized),
        instruction_at(records, address)->Ok_0.authority == signer ==> update_collection_instruction_outcome(
            records,
            (UpdateCollectionInstruction { instruction: address, authority: signer }),
            name,
        ) is Ok && delete_collection_instruction_outcome(
            records,
            (DeleteCollectionInstruction { instruction: address, authority: signer }),
        ) is Ok,
{
}

/// Only the stored authority may change or delete an instruction argument; it
/// always may, given valid arguments.
pub proof fn lemma_argument_authority(
    records: Map<Seq<u8>, Record>,
    address: Key,
    signer: Key,
    name: Seq<char>,
    kind: u8,
    modifier: u8,
    size: u8,
)
    requires
        argument_at(records, address) is Ok,
        attribute_args(name, kind, modifier, size) is Ok,
    ensures
        argument_at(records, address)->Ok_0.authority != signer ==> update_collection_instruction_argument_outcome(
            records,
            (UpdateInstructionArgument { argument: address, authority: signer }),
            name,
            kind,
            modifier,
            size,
        ) == Err::<(), ErrorCode>(ErrorCode::Unauthorized) && delete_collection_instruction_argument_outcome(
            records,
            (DeleteInstructionArgument { argument: address, authority: signer }),
        ) == Err::<(), ErrorCode>(ErrorCode::Unauthorized),
        argument_at(records, address)->Ok_0.authority == signer ==> update_collection_instruction_argument_outcome(
            records,
            (UpdateInstructionArgument { argument: address, authority: signer }),
            name,
            kind,
            modifier,
            size,
        ) is Ok && delete_collection_instruction_argument_outcome(
            records,
            (DeleteInstructionArgument { argument: address, authority: signer }),
        ) is Ok,
{
}

/// Only the stored authority may change or delete an instruction account; it
/// always may, given valid arguments and an existing source collection.
pub proof fn lemma_account_authority(
    records: Map<Seq<u8>, Record>,
    address: Key,
    signer: Key,
    account_collection: Key,
    name: Seq<char>,
    kind: u8,
    mark_attribute: u8,
)
    requires
        account_at(records, address) is Ok,
        account_args(name, kind, mark_attribute) is Ok,
        collection_at(records, account_collection) is Ok,
    ensures
        account_at(records, address)->Ok_0.authority != signer ==> update_collection_instruction_account_outcome(
            records,
            (UpdateInstructionAccount { account: address, account_collection, authority: signer }),
            name,
            kind,
            mark_attribute,
        ) == Err::<(), ErrorCode>(ErrorCode::Unauthorized) && delete_collection_instruction_account_outcome(
            records,
            (DeleteInstructionAccount { account: address, authority: signer }),
        ) == Err::<(), ErrorCode>(ErrorCode::Unauthorized),
        account_at(records, address)->Ok_0.authority == signer ==> update_collection_instruction_account_outcome(
            records,
            (UpdateInstructionAccount { account: address, account_collection, authority: signer }),
            name,
            kind,
            mark_attribute,
        ) is Ok && delete_collection_instruction_account_outcome(
            records,
            (DeleteInstructionAccount { account: address, authority: signer }),
        ) is Ok,
{
}

/// Only the stored authority may change or delete an account flag; it always
/// may, given a valid kind.
pub proof fn lemma_bool_attribute_authority(
    records: Map<Seq<u8>, Record>,
    address: Key,
    signer: Key,
    kind: u8,
)
    requires
        bool_attribute_at(records, address) is Ok,
        mark_attribute_of(kind) is Ok,
    ensures
        bool_attribute_at(records, address)->Ok_0.authority != signer ==> update_account_bool_attribute_outcome(
            records,
            (UpdateAccountBoolAttribute { attribute: address, authority: signer }),
            kind,
        ) == Err::<(), ErrorCode>(ErrorCode::Unauthorized) && delete_account_bool_attribute_outcome(
            records,
            (DeleteAccountBoolAttribute { attribute: address, authority: signer }),
        ) == Err::<(), ErrorCode>(ErrorCode::Unauthorized),
        bool_attribute_at(records, address)->Ok_0.authority == signer ==> update_account_bool_attribute_outcome(
            records,
            (UpdateAccountBoolAttribute { attribute: address, authority: signer }),
            kind,
        ) is Ok && delete_account_bool_attribute_outcome(
            records,
            (DeleteAccountBoolAttribute { attribute: address, authority: signer }),
        ) is Ok,
{
}

/// A new record goes to the address handed in with the derivation, and to no
/// other: its place depends on nothing else, not the signer nor the other
/// records.
pub proof fn lemma_placement_is_derived(
    records: Map<Seq<u8>, Record>,
    derived: Option<(Key, u8)>,
    bump: u8,
)
    ensures
        placement(records, derived, bump) is Ok ==> derived == Some(
            (placement(records, derived, bump)->Ok_0, bump),
        ),
{
}

/// Two collections created with the same derived address and bump land at
/// that same address, whoever signs and whatever else the registry holds.
pub proof fn lemma_collection_address_fixed(
    records1: Map<Seq<u8>, Record>,
    records2: Map<Seq<u8>, Record>,
    accounts1: CreateCollection,
    accounts2: CreateCollection,
    name: Seq<char>,
    bump: u8,
    derived: Option<(Key, u8)>,
)
    requires
        create_collection_outcome(records1, accounts1, name, bump, derived) is Ok,
        create_collection_outcome(records2, accounts2, name, bump, derived) is Ok,
    ensures
        create_collection_outcome(records1, accounts1, name, bump, derived)
            == create_collection_outcome(records2, accounts2, name, bump, derived),
        derived == Some(
            (create_collection_outcome(records1, accounts1, name, bump, derived)->Ok_0, bump),
        ),
{
}

/// A collection is created, at its derived address, when its application is
/// live and can count one more collection, the derived address is free with
/// the given bump, and the name fits.
pub proof fn lemma_collection_created(
    records: Map<Seq<u8>, Record>,
    accounts: CreateCollection,
    name: Seq<char>,
    address: Key,
    bump: u8,
)
    requires
        application_at(records, accounts.application) is Ok,
        application_at(records, accounts.application)->Ok_0.count < u64::MAX,
        !records.contains_key(address@),
        name_check(name) is Ok,
    ensures
        create_collection_outcome(records, accounts, name, bump, Some((address, bump))) == Ok::<
            Key,
            ErrorCode,
        >(address),
{
}

/// A collection attribute is created, at its derived address, when its
/// collection is live and belongs to its application, the derived address is
/// free with the given bump, and the name and tags are valid.
pub proof fn lemma_attribute_created(
    records: Map<Seq<u8>, Record>,
    accounts: CreateCollectionAttribute,
    name: Seq<char>,
    kind: u8,
    modifier: u8,
    size: u8,
    address: Key,
    bump: u8,
)
    requires
        collection_in(records, accounts.application, accounts.collection) is Ok,
        !records.contains_key(address@),
        attribute_args(name, kind, modifier, size) is Ok,
    ensures
        create_collection_attribute_outcome(
            records,
            accounts,
            name,
            kind,
            modifier,
            size,
            bump,
            Some((address, bump)),
        ) == Ok::<Key, ErrorCode>(address),
{
}

/// A collection instruction is created, at its derived address, when its
/// collection is live and belongs to its application, the derived address is
/// free with the given bump, and the name fits.
pub proof fn lemma_instruction_created(
    records: Map<Seq<u8>, Record>,
    accounts: CreateCollectionInstruction,
    name: Seq<char>,
    address: Key,
    bump: u8,
)
    requires
        collection_in(records, accounts.application, accounts.collection) is Ok,
        !records.contains_key(address@),
        name_check(name) is Ok,
    ensures
        create_collection_instruction_outcome(
            records,
            accounts,
            name,
            bump,
            Some((address, bump)),
        ) == Ok::<Key, ErrorCode>(address),
{
}

/// An instruction argument is created, at its derived address, when its
/// instruction is live and linked to its collection and application, the
/// derived address is free with the given bump, and the name and tags are
/// valid.
pub proof fn lemma_argument_created(
    records: Map<Seq<u8>, Record>,
    accounts: CreateInstructionArgument,
    name: Seq<char>,
    kind: u8,
    modifier: u8,
    size: u8,
    address: Key,
    bump: u8,
)
    requires
        instruction_in(records, accounts.application, accounts.collection, accounts.instruction)
            is Ok,
        !records.contains_key(address@),
        attribute_args(name, kind, modifier, size) is Ok,
    ensures
        create_collection_instruction_argument_outcome(
            records,
            accounts,
            name,
            kind,
            modifier,
            size,
            bump,
            Some((address, bump)),
        ) == Ok::<Key, ErrorCode>(address),
{
}

/// An instruction account is created, at its derived address, when its
/// instruction is live and linked to its collection and application, its
/// source collection is live, the derived address is free with the given bump,
/// and the name and tags are valid.
pub proof fn lemma_account_created(
    records: Map<Seq<u8>, Record>,
    accounts: CreateInstructionAccount,
    name: Seq<char>,
    kind: u8,
    mark_attribute: u8,
    address: Key,
    bump: u8,
)
    requires
        instruction_in(records, accounts.application, accounts.collection, accounts.instruction)
            is Ok,
        collection_at(records, accounts.account_collection) is Ok,
        !records.contains_key(address@),
        account_args(name, kind, mark_attribute) is Ok,
    ensures
        create_collection_instruction_account_outcome(
            records,
            accounts,
            name,
            kind,
            mark_attribute,
            bump,
            Some((address, bump)),
        ) == Ok::<Key, ErrorCode>(address),
{
}

/// An account flag never changes the account it is attached to: creating one
/// leaves the account record, and so its mark, as it was.
pub proof fn lemma_flag_leaves_account(
    before: Map<Seq<u8>, Record>,
    after: Map<Seq<u8>, Record>,
    accounts: CreateAccountBoolAttribute,
    kind: u8,
    bump: u8,
    derived: Option<(Key, u8)>,
)
    requires
        create_account_bool_attribute_outcome(before, accounts, kind, bump, derived) is Ok,
        changes_only(
            before,
            after,
            create_account_bool_attribute_outcome(before, accounts, kind, bump, derived)->Ok_0@,
        ),
    ensures
        after.contains_key(accounts.account@),
        after[accounts.account@] == before[accounts.account@],
{
}

/// Deleting a collection removes the collection alone, with the count of its
/// application where that is live: the attributes, instructions and every
/// other record stay as they were.
pub proof fn lemma_delete_collection_keeps_others(
    records: Map<Seq<u8>, Record>,
    collection: Key,
    other: Seq<u8>,
)
    requires
        collection_at(records, collection) is Ok,
        other != collection@,
        other != collection_at(records, collection)->Ok_0.application@,
    ensures
        after_delete_collection(records, collection).contains_key(other) == records.contains_key(
            other,
        ),
        records.contains_key(other) ==> after_delete_collection(records, collection)[other]
            == records[other],
{
}

} // verus!
