use vstd::prelude::*;
use vstd::string::StringSliceAdditionalSpecFns;

use crate::accounts::{
    CreateApplication, CreateCollection, DeleteApplication, DeleteCollection, UpdateApplication,
    UpdateCollection,
};
use crate::address::{key_seed, record_seeds, seed_list, Key};
use crate::error::ErrorCode;
use crate::name::{name_bytes, pad_name, parse_string, NAME_LEN};
use crate::records::{Application, Collection, Record};
use crate::registry::Registry;
use crate::schema::{application_at, authorization, authorize, collection_at, load_application, load_collection};

verus! {

/// The discriminator seed of collections.
pub const COLLECTION_SEED: &'static str = "collection";

/// `after` differs from `before` only at `address`, which it occupies.
pub open spec fn changes_only(
    before: Map<Seq<u8>, Record>,
    after: Map<Seq<u8>, Record>,
    address: Seq<u8>,
) -> bool {
    after == before.insert(address, after[address])
}

/// The check of a name argument.
pub open spec fn name_check(name: Seq<char>) -> Result<(), ErrorCode> {
    if name_bytes(name).len() > NAME_LEN {
        Err(ErrorCode::InvalidNameLength)
    } else {
        Ok(())
    }
}

/// Where a new record is stored: at `derived`, the address and bump that the
/// host derived from the record's seed list (none where it found no address),
/// where `bump` is that bump and the address is free.
pub open spec fn placement(
    records: Map<Seq<u8>, Record>,
    derived: Option<(Key, u8)>,
    bump: u8,
) -> Result<Key, ErrorCode> {
    match derived {
        None => Err(ErrorCode::InvalidSeeds),
        Some((k, b)) => if b != bump {
            Err(ErrorCode::InvalidBump)
        } else if records.contains_key(k@) {
            Err(ErrorCode::AccountAlreadyInitialized)
        } else {
            Ok(k)
        },
    }
}

/// Checks the bump against the derived address and that the address is free.
pub(crate) fn place(registry: &Registry, derived: Option<(Key, u8)>, bump: u8) -> (r: Result<
    Key,
    ErrorCode,
>)
    requires
        registry.wf(),
    ensures
        r == placement(registry@, derived, bump),
{
    match derived {
        None => Err(ErrorCode::InvalidSeeds),
        Some((k, b)) => {
            if b != bump {
                Err(ErrorCode::InvalidBump)
            } else {
                match registry.get(&k) {
                    Some(_) => Err(ErrorCode::AccountAlreadyInitialized),
                    None => Ok(k),
                }
            }
        },
    }
}

/// `r` is an application with the given fields.
pub open spec fn is_application(r: Record, authority: Key, name: Seq<u8>, count: u64) -> bool {
    match r {
        Record::Application(a) => a.authority == authority && a.name@ == name && a.count == count,
        _ => false,
    }
}

/// `r` is the application `before` with the name `name`.
pub open spec fn is_renamed_application(r: Record, before: Application, name: Seq<u8>) -> bool {
    match r {
        Record::Application(a) => a == (Application { name: a.name, ..before }) && a.name@ == name,
        _ => false,
    }
}

/// The outcome of `create_application`.
pub open spec fn create_application_outcome(
    records: Map<Seq<u8>, Record>,
    accounts: CreateApplication,
    name: Seq<char>,
) -> Result<(), ErrorCode> {
    if records.contains_key(accounts.application@) {
        Err(ErrorCode::AccountAlreadyInitialized)
    } else {
        name_check(name)
    }
}

/// Creates an application at the fresh address `accounts.application`, owned by
/// the signer and with no collections.
pub fn create_application(registry: &mut Registry, accounts: CreateApplication, name: String) -> (r:
    Result<(), ErrorCode>)
    requires
        old(registry).wf(),
    ensures
        final(registry).wf(),
        final(registry).spec_program_id() == old(registry).spec_program_id(),
        r == create_application_outcome(old(registry)@, accounts, name@),
        r is Err ==> final(registry)@ == old(registry)@,
        r is Ok ==> changes_only(old(registry)@, final(registry)@, accounts.application@)
            && is_application(
            final(registry)@[accounts.application@],
            accounts.authority,
            pad_name(name_bytes(name@)),
            0,
        ),
{
    if registry.get(&accounts.application).is_some() {
        return Err(ErrorCode::AccountAlreadyInitialized);
    }
    let packed = match parse_string(name) {
        Ok(p) => p,
        Err(e) => return Err(e),
    };
    let application = Application { authority: accounts.authority, name: packed, count: 0 };
    registry.insert_new(accounts.application, Record::Application(application));
    Ok(())
}

/// The outcome of `update_application`.
pub open spec fn update_application_outcome(
    records: Map<Seq<u8>, Record>,
    accounts: UpdateApplication,
    name: Seq<char>,
) -> Result<(), ErrorCode> {
    match application_at(records, accounts.application) {
        Err(e) => Err(e),
        Ok(a) => match authorization(a.authority, accounts.authority) {
            Err(e) => Err(e),
            Ok(_) => name_check(name),
        },
    }
}

/// Renames an application; only its authority may.
pub fn update_application(registry: &mut Registry, accounts: UpdateApplication, name: String) -> (r:
    Result<(), ErrorCode>)
    requires
        old(registry).wf(),
    ensures
        final(registry).wf(),
        final(registry).spec_program_id() == old(registry).spec_program_id(),
        r == update_application_outcome(old(registry)@, accounts, name@),
        r is Err ==> final(registry)@ == old(registry)@,
        r is Ok ==> changes_only(old(registry)@, final(registry)@, accounts.application@)
            && is_renamed_application(
            final(registry)@[accounts.application@],
            application_at(old(registry)@, accounts.application)->Ok_0,
            pad_name(name_bytes(name@)),
        ),
{
    let mut application = match load_application(registry, &accounts.application) {
        Ok(a) => a,
        Err(e) => return Err(e),
    };
    match authorize(&application.authority, &accounts.authority) {
        Ok(_) => {},
        Err(e) => return Err(e),
    }
    let packed = match parse_string(name) {
        Ok(p) => p,
        Err(e) => return Err(e),
    };
    application.name = packed;
    registry.replace(accounts.application, Record::Application(application));
    Ok(())
}

/// The outcome of `delete_application`.
pub open spec fn delete_application_outcome(
    records: Map<Seq<u8>, Record>,
    accounts: DeleteApplication,
) -> Result<(), ErrorCode> {
    match application_at(records, accounts.application) {
        Err(e) => Err(e),
        Ok(a) => authorization(a.authority, accounts.authority),
    }
}

/// Deletes an application, freeing its address; only its authority may.
pub fn delete_application(registry: &mut Registry, accounts: DeleteApplication) -> (r: Result<
    (),
    ErrorCode,
>)
    requires
        old(registry).wf(),
    ensures
        final(registry).wf(),
        final(registry).spec_program_id() == old(registry).spec_program_id(),
        r == delete_application_outcome(old(registry)@, accounts),
        r is Err ==> final(registry)@ == old(registry)@,
        r is Ok ==> final(registry)@ == old(registry)@.remove(accounts.application@),
{
    let application = match load_application(registry, &accounts.application) {
        Ok(a) => a,
        Err(e) => return Err(e),
    };
    match authorize(&application.authority, &accounts.authority) {
        Ok(_) => {},
        Err(e) => return Err(e),
    }
    registry.remove(&accounts.application);
    Ok(())
}

/// `r` is a collection with the given fields.
pub open spec fn is_collection(
    r: Record,
    authority: Key,
    application: Key,
    name: Seq<u8>,
    bump: u8,
) -> bool {
    match r {
        Record::Collection(c) => c.authority == authority && c.application == application
            && c.name@ == name && c.bump == bump,
        _ => false,
    }
}

/// The seeds of a collection after its discriminator.
pub open spec fn collection_seeds(application: Key, name: Seq<u8>) -> Seq<Seq<u8>> {
    seq![application@, name]
}

/// The seed list from which the host derives the address of the collection
/// named `name` (a packed name slot) of the application at `application`.
/// The name seed is the whole padded slot: the name's UTF-8 bytes followed
/// by zero bytes up to `NAME_LEN`, so names differing only in trailing NUL
/// characters share an address.
pub fn collection_address_seeds(application: &Key, name: &[u8; 32]) -> (r: Vec<Vec<u8>>)
    ensures
        r.deep_view() == record_seeds(COLLECTION_SEED.spec_bytes(), collection_seeds(*application, name@)),
{
    let mut seeds: Vec<Vec<u8>> = Vec::new();
    seeds.push(key_seed(application));
    seeds.push(key_seed(&Key::new(*name)));
    proof {
        lemma_seeds_deep_view(seeds);
    }
    assert(seeds.deep_view() =~= collection_seeds(*application, name@));
    seed_list(COLLECTION_SEED, &seeds)
}

/// The outcome of `create_collection`: the address of the new collection.
pub open spec fn create_collection_outcome(
    records: Map<Seq<u8>, Record>,
    accounts: CreateCollection,
    name: Seq<char>,
    bump: u8,
    derived: Option<(Key, u8)>,
) -> Result<Key, ErrorCode> {
    match application_at(records, accounts.application) {
        Err(e) => Err(e),
        Ok(a) => match placement(records, derived, bump) {
            Err(e) => Err(e),
            Ok(k) => match name_check(name) {
                Err(e) => Err(e),
                Ok(_) => if a.count == u64::MAX {
                    Err(ErrorCode::CounterOverflow)
                } else {
                    Ok(k)
                },
            },
        },
    }
}

/// Creates a collection of an application, owned by the signer; the
/// application counts one more collection. `derived` is the address and bump
/// that the host derived from `collection_address_seeds`; the collection is
/// stored there where `bump` matches and the address is free.
pub fn create_collection(
    registry: &mut Registry,
    accounts: CreateCollection,
    name: String,
    bump: u8,
    derived: Option<(Key, u8)>,
) -> (r: Result<Key, ErrorCode>)
    requires
        old(registry).wf(),
    ensures
        final(registry).wf(),
        final(registry).spec_program_id() == old(registry).spec_program_id(),
        match create_collection_outcome(
            old(registry)@,
            accounts,
            name@,
            bump,
            derived,
        ) {
            Err(e) => r == Err::<Key, ErrorCode>(e) && final(registry)@ == old(registry)@,
            Ok(address) => r == Ok::<Key, ErrorCode>(address) && final(registry)@ == old(
                registry,
            )@.insert(address@, final(registry)@[address@]).insert(
                accounts.application@,
                Record::Application(
                    Application {
                        count: (application_at(old(registry)@, accounts.application)->Ok_0.count
                            + 1) as u64,
                        ..application_at(old(registry)@, accounts.application)->Ok_0
                    },
                ),
            ) && is_collection(
                final(registry)@[address@],
                accounts.authority,
                accounts.application,
                pad_name(name_bytes(name@)),
                bump,
            ),
        },
{
    let mut application = match load_application(registry, &accounts.application) {
        Ok(a) => a,
        Err(e) => return Err(e),
    };
    let address = match place(registry, derived, bump) {
        Ok(k) => k,
        Err(e) => return Err(e),
    };
    let packed = match parse_string(name) {
        Ok(p) => p,
        Err(e) => return Err(e),
    };
    if application.count == u64::MAX {
        return Err(ErrorCode::CounterOverflow);
    }
    let collection = Collection {
        authority: accounts.authority,
        application: accounts.application,
        name: packed,
        bump,
    };
    registry.insert_new(address, Record::Collection(collection));
    application.count = application.count + 1;
    registry.replace(accounts.application, Record::Application(application));
    Ok(address)
}

/// `r` is the collection `before` with the name `name`.
pub open spec fn is_renamed_collection(r: Record, before: Collection, name: Seq<u8>) -> bool {
    match r {
        Record::Collection(c) => c == (Collection { name: c.name, ..before }) && c.name@ == name,
        _ => false,
    }
}

/// The outcome of `update_collection`.
pub open spec fn update_collection_outcome(
    records: Map<Seq<u8>, Record>,
    accounts: UpdateCollection,
    name: Seq<char>,
) -> Result<(), ErrorCode> {
    match collection_at(records, accounts.collection) {
        Err(e) => Err(e),
        Ok(c) => match authorization(c.authority, accounts.authority) {
            Err(e) => Err(e),
            Ok(_) => name_check(name),
        },
    }
}

/// Renames a collection; only its authority may. Its address stays where the
/// name it was created with put it.
pub fn update_collection(registry: &mut Registry, accounts: UpdateCollection, name: String) -> (r:
    Result<(), ErrorCode>)
    requires
        old(registry).wf(),
    ensures
        final(registry).wf(),
        final(registry).spec_program_id() == old(registry).spec_program_id(),
        r == update_collection_outcome(old(registry)@, accounts, name@),
        r is Err ==> final(registry)@ == old(registry)@,
        r is Ok ==> changes_only(old(registry)@, final(registry)@, accounts.collection@)
            && is_renamed_collection(
            final(registry)@[accounts.collection@],
            collection_at(old(registry)@, accounts.collection)->Ok_0,
            pad_name(name_bytes(name@)),
        ),
{
    let mut collection = match load_collection(registry, &accounts.collection) {
        Ok(c) => c,
        Err(e) => return Err(e),
    };
    match authorize(&collection.authority, &accounts.authority) {
        Ok(_) => {},
        Err(e) => return Err(e),
    }
    let packed = match parse_string(name) {
        Ok(p) => p,
        Err(e) => return Err(e),
    };
    collection.name = packed;
    registry.replace(accounts.collection, Record::Collection(collection));
    Ok(())
}

/// The outcome of `delete_collection`. The parent application, where it is
/// still live, must count the collection.
pub open spec fn delete_collection_outcome(
    records: Map<Seq<u8>, Record>,
    accounts: DeleteCollection,
) -> Result<(), ErrorCode> {
    match collection_at(records, accounts.collection) {
        Err(e) => Err(e),
        Ok(c) => match authorization(c.authority, accounts.authority) {
            Err(e) => Err(e),
            Ok(_) => match application_at(records, c.application) {
                Ok(a) => if a.count == 0 {
                    Err(ErrorCode::CounterUnderflow)
                } else {
                    Ok(())
                },
                Err(_) => Ok(()),
            },
        },
    }
}

/// The records after a collection is deleted: the collection is gone, and its
/// application, where it is still live, counts one collection less.
pub open spec fn after_delete_collection(
    records: Map<Seq<u8>, Record>,
    collection: Key,
) -> Map<Seq<u8>, Record> {
    let c = collection_at(records, collection)->Ok_0;
    match application_at(records, c.application) {
        Ok(a) => records.remove(collection@).insert(
            c.application@,
            Record::Application(Application { count: (a.count - 1) as u64, ..a }),
        ),
        Err(_) => records.remove(collection@),
    }
}

/// Deletes a collection, freeing its address; only its authority may. Records
/// below the collection are left as they are.
pub fn delete_collection(registry: &mut Registry, accounts: DeleteCollection) -> (r: Result<
    (),
    ErrorCode,
>)
    requires
        old(registry).wf(),
    ensures
        final(registry).wf(),
        final(registry).spec_program_id() == old(registry).spec_program_id(),
        r == delete_collection_outcome(old(registry)@, accounts),
        r is Err ==> final(registry)@ == old(registry)@,
        r is Ok ==> final(registry)@ == after_delete_collection(
            old(registry)@,
            accounts.collection,
        ),
{
    let collection = match load_collection(registry, &accounts.collection) {
        Ok(c) => c,
        Err(e) => return Err(e),
    };
    match authorize(&collection.authority, &accounts.authority) {
        Ok(_) => {},
        Err(e) => return Err(e),
    }
    match load_application(registry, &collection.application) {
        Ok(mut application) => {
            if application.count == 0 {
                return Err(ErrorCode::CounterUnderflow);
            }
            registry.remove(&accounts.collection);
            application.count = application.count - 1;
            registry.replace(collection.application, Record::Application(application));
        },
        Err(_) => {
            registry.remove(&accounts.collection);
        },
    }
    Ok(())
}

pub(crate) proof fn lemma_seeds_deep_view(seeds: Vec<Vec<u8>>)
    ensures
        forall|i: int| 0 <= i < seeds@.len() ==> #[trigger] seeds.deep_view()[i] == seeds@[i]@,
{
    assert forall|i: int| 0 <= i < seeds@.len() implies #[trigger] seeds.deep_view()[i]
        == seeds@[i]@ by {
        assert(seeds@[i].deep_view() =~= seeds@[i]@);
    }
}

} // verus!
