use vstd::prelude::*;
use vstd::string::StringSliceAdditionalSpecFns;

use crate::accounts::{
    CreateCollectionAttribute, DeleteCollectionAttribute, UpdateCollectionAttribute,
};
use crate::address::{key_seed, record_seeds, seed_list, Key};
use crate::error::ErrorCode;
use crate::kinds::{
    attribute_kind_modifier_of, attribute_kind_of, AttributeKind, AttributeKindModifier,
};
use crate::name::{name_bytes, pad_name, parse_string};
use crate::operations::{changes_only, lemma_seeds_deep_view, name_check, place, placement};
use crate::records::{CollectionAttribute, Record};
use crate::registry::Registry;
use crate::schema::{
    attribute_at, authorization, authorize, collection_in, load_attribute, load_collection_in,
};

verus! {

/// The discriminator seed of collection attributes.
pub const COLLECTION_ATTRIBUTE_SEED: &'static str = "collection_attribute";

/// The checks of the arguments of a typed field: the name, then the kind tag,
/// then the modifier tag; the decoded kind and modifier.
pub open spec fn attribute_args(name: Seq<char>, kind: u8, modifier: u8, size: u8) -> Result<
    (AttributeKind, AttributeKindModifier),
    ErrorCode,
> {
    match name_check(name) {
        Err(e) => Err(e),
        Ok(_) => match attribute_kind_of(kind) {
            Err(e) => Err(e),
            Ok(k) => match attribute_kind_modifier_of(modifier, size) {
                Err(e) => Err(e),
                Ok(m) => Ok((k, m)),
            },
        },
    }
}

/// Checks and decodes the arguments of a typed field.
pub fn parse_attribute_args(name: String, kind: u8, modifier: u8, size: u8) -> (r: Result<
    ([u8; 32], AttributeKind, AttributeKindModifier),
    ErrorCode,
>)
    ensures
        match attribute_args(name@, kind, modifier, size) {
            Err(e) => r == Err::<([u8; 32], AttributeKind, AttributeKindModifier), ErrorCode>(e),
            Ok((k, m)) => r is Ok && r->Ok_0.0@ == pad_name(name_bytes(name@)) && r->Ok_0.1 == k
                && r->Ok_0.2 == m,
        },
{
    let packed = match parse_string(name) {
        Ok(p) => p,
        Err(e) => return Err(e),
    };
    let k = match AttributeKind::from(kind) {
        Ok(k) => k,
        Err(e) => return Err(e),
    };
    let m = match AttributeKindModifier::from(modifier, size) {
        Ok(m) => m,
        Err(e) => return Err(e),
    };
    Ok((packed, k, m))
}

/// `r` is a collection attribute with the given fields.
pub open spec fn is_attribute(
    r: Record,
    accounts: CreateCollectionAttribute,
    name: Seq<u8>,
    kind: AttributeKind,
    modifier: AttributeKindModifier,
    bump: u8,
) -> bool {
    match r {
        Record::CollectionAttribute(a) => a.authority == accounts.authority && a.application
            == accounts.application && a.collection == accounts.collection && a.name@ == name
            && a.kind == kind && a.modifier == modifier && a.bump == bump,
        _ => false,
    }
}

/// The seeds of a collection attribute after its discriminator.
pub open spec fn attribute_seeds(application: Key, collection: Key, name: Seq<u8>) -> Seq<Seq<u8>> {
    seq![application@, collection@, name]
}

/// The seed list from which the host derives the address of the attribute
/// named `name` (a packed name slot) of the given collection.
/// The name seed is the whole padded slot: the name's UTF-8 bytes followed
/// by zero bytes up to `NAME_LEN`, so names differing only in trailing NUL
/// characters share an address.
pub fn attribute_address_seeds(application: &Key, collection: &Key, name: &[u8; 32]) -> (r: Vec<Vec<u8>>)
    ensures
        r.deep_view() == record_seeds(COLLECTION_ATTRIBUTE_SEED.spec_bytes(), attribute_seeds(*application, *collection, name@)),
{
    let mut seeds: Vec<Vec<u8>> = Vec::new();
    seeds.push(key_seed(application));
    seeds.push(key_seed(collection));
    seeds.push(key_seed(&Key::new(*name)));
    proof {
        lemma_seeds_deep_view(seeds);
    }
    assert(seeds.deep_view() =~= attribute_seeds(*application, *collection, name@));
    seed_list(COLLECTION_ATTRIBUTE_SEED, &seeds)
}

/// The outcome of `create_collection_attribute`: the address of the new
/// attribute.
pub open spec fn create_collection_attribute_outcome(
    records: Map<Seq<u8>, Record>,
    accounts: CreateCollectionAttribute,
    name: Seq<char>,
    kind: u8,
    modifier: u8,
    size: u8,
    bump: u8,
    derived: Option<(Key, u8)>,
) -> Result<Key, ErrorCode> {
    match collection_in(records, accounts.application, accounts.collection) {
        Err(e) => Err(e),
        Ok(_) => match placement(records, derived, bump) {
            Err(e) => Err(e),
            Ok(k) => match attribute_args(name, kind, modifier, size) {
                Err(e) => Err(e),
                Ok(_) => Ok(k),
            },
        },
    }
}

/// Defines a typed field on a collection, owned by the signer. `derived` is the
/// address and bump that the host derived from `attribute_address_seeds`; the
/// attribute is stored there where `bump` matches and the address is free.
pub fn create_collection_attribute(
    registry: &mut Registry,
    accounts: CreateCollectionAttribute,
    name: String,
    kind: u8,
    modifier: u8,
    size: u8,
    bump: u8,
    derived: Option<(Key, u8)>,
) -> (r: Result<Key, ErrorCode>)
    requires
        old(registry).wf(),
    ensures
        final(registry).wf(),
        final(registry).spec_program_id() == old(registry).spec_program_id(),
        match create_collection_attribute_outcome(
            old(registry)@,
            accounts,
            name@,
            kind,
            modifier,
            size,
            bump,
            derived,
        ) {
            Err(e) => r == Err::<Key, ErrorCode>(e) && final(registry)@ == old(registry)@,
            Ok(address) => r == Ok::<Key, ErrorCode>(address) && changes_only(
                old(registry)@,
                final(registry)@,
                address@,
            ) && is_attribute(
                final(registry)@[address@],
                accounts,
                pad_name(name_bytes(name@)),
                attribute_args(name@, kind, modifier, size)->Ok_0.0,
                attribute_args(name@, kind, modifier, size)->Ok_0.1,
                bump,
            ),
        },
{
    match load_collection_in(registry, &accounts.application, &accounts.collection) {
        Ok(_) => {},
        Err(e) => return Err(e),
    }
    let address = match place(registry, derived, bump) {
        Ok(k) => k,
        Err(e) => return Err(e),
    };
    let (packed, k, m) = match parse_attribute_args(name, kind, modifier, size) {
        Ok(args) => args,
        Err(e) => return Err(e),
    };
    let attribute = CollectionAttribute {
        authority: accounts.authority,
        application: accounts.application,
        collection: accounts.collection,
        name: packed,
        kind: k,
        modifier: m,
        bump,
    };
    registry.insert_new(address, Record::CollectionAttribute(attribute));
    Ok(address)
}

/// `r` is the attribute `before` with a new name, kind and modifier.
pub open spec fn is_updated_attribute(
    r: Record,
    before: CollectionAttribute,
    name: Seq<u8>,
    kind: AttributeKind,
    modifier: AttributeKindModifier,
) -> bool {
    match r {
        Record::CollectionAttribute(a) => a == (CollectionAttribute {
            name: a.name,
            kind,
            modifier,
            ..before
        }) && a.name@ == name,
        _ => false,
    }
}

/// The outcome of `update_collection_attribute`.
pub open spec fn update_collection_attribute_outcome(
    records: Map<Seq<u8>, Record>,
    accounts: UpdateCollectionAttribute,
    name: Seq<char>,
    kind: u8,
    modifier: u8,
    size: u8,
) -> Result<(), ErrorCode> {
    match attribute_at(records, accounts.attribute) {
        Err(e) => Err(e),
        Ok(a) => match authorization(a.authority, accounts.authority) {
            Err(e) => Err(e),
            Ok(_) => match attribute_args(name, kind, modifier, size) {
                Err(e) => Err(e),
                Ok(_) => Ok(()),
            },
        },
    }
}

/// Changes the name, kind and modifier of a collection attribute; only its
/// authority may.
pub fn update_collection_attribute(
    registry: &mut Registry,
    accounts: UpdateCollectionAttribute,
    name: String,
    kind: u8,
    modifier: u8,
    size: u8,
) -> (r: Result<(), ErrorCode>)
    requires
        old(registry).wf(),
    ensures
        final(registry).wf(),
        final(registry).spec_program_id() == old(registry).spec_program_id(),
        r == update_collection_attribute_outcome(
            old(registry)@,
            accounts,
            name@,
            kind,
            modifier,
            size,
        ),
        r is Err ==> final(registry)@ == old(registry)@,
        r is Ok ==> changes_only(old(registry)@, final(registry)@, accounts.attribute@)
            && is_updated_attribute(
            final(registry)@[accounts.attribute@],
            attribute_at(old(registry)@, accounts.attribute)->Ok_0,
            pad_name(name_bytes(name@)),
            attribute_args(name@, kind, modifier, size)->Ok_0.0,
            attribute_args(name@, kind, modifier, size)->Ok_0.1,
        ),
{
    let mut attribute = match load_attribute(registry, &accounts.attribute) {
        Ok(a) => a,
        Err(e) => return Err(e),
    };
    match authorize(&attribute.authority, &accounts.authority) {
        Ok(_) => {},
        Err(e) => return Err(e),
    }
    let (packed, k, m) = match parse_attribute_args(name, kind, modifier, size) {
        Ok(args) => args,
        Err(e) => return Err(e),
    };
    attribute.name = packed;
    attribute.kind = k;
    attribute.modifier = m;
    registry.replace(accounts.attribute, Record::CollectionAttribute(attribute));
    Ok(())
}

/// The outcome of `delete_collection_attribute`.
pub open spec fn delete_collection_attribute_outcome(
    records: Map<Seq<u8>, Record>,
    accounts: DeleteCollectionAttribute,
) -> Result<(), ErrorCode> {
    match attribute_at(records, accounts.attribute) {
        Err(e) => Err(e),
        Ok(x) => authorization(x.authority, accounts.authority),
    }
}

/// Deletes a collection attribute, freeing its address; only its authority may.
pub fn delete_collection_attribute(registry: &mut Registry, accounts: DeleteCollectionAttribute) -> (r: Result<(), ErrorCode>)
    requires
        old(registry).wf(),
    ensures
        final(registry).wf(),
        final(registry).spec_program_id() == old(registry).spec_program_id(),
        r == delete_collection_attribute_outcome(old(registry)@, accounts),
        r is Err ==> final(registry)@ == old(registry)@,
        r is Ok ==> final(registry)@ == old(registry)@.remove(accounts.attribute@),
{
    let x = match load_attribute(registry, &accounts.attribute) {
        Ok(x) => x,
        Err(e) => return Err(e),
    };
    match authorize(&x.authority, &accounts.authority) {
        Ok(_) => {},
        Err(e) => return Err(e),
    }
    registry.remove(&accounts.attribute);
    Ok(())
}

} // verus!
