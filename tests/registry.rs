use std::collections::hash_map::DefaultHasher;
use std::hash::{Hash, Hasher};

use demobase::account_ops::{
    account_address_seeds, bool_attribute_address_seeds, create_account_bool_attribute,
    create_collection_instruction_account, delete_account_bool_attribute,
    delete_collection_instruction_account, update_account_bool_attribute,
    update_collection_instruction_account,
};
use demobase::accounts::{
    CreateAccountBoolAttribute, CreateApplication, CreateCollection, CreateCollectionAttribute,
    CreateCollectionInstruction, CreateInstructionAccount, CreateInstructionArgument,
    DeleteAccountBoolAttribute, DeleteApplication, DeleteCollection, DeleteCollectionAttribute,
    DeleteCollectionInstruction, DeleteInstructionAccount, DeleteInstructionArgument,
    UpdateAccountBoolAttribute, UpdateApplication, UpdateCollection, UpdateCollectionAttribute,
    UpdateCollectionInstruction, UpdateInstructionAccount, UpdateInstructionArgument,
};
use demobase::address::Key;
use demobase::attribute_ops::{
    attribute_address_seeds, create_collection_attribute, delete_collection_attribute,
    update_collection_attribute,
};
use demobase::error::ErrorCode;
use demobase::instruction_ops::{
    argument_address_seeds, create_collection_instruction, create_collection_instruction_argument,
    delete_collection_instruction, delete_collection_instruction_argument, instruction_address_seeds,
    update_collection_instruction, update_collection_instruction_argument,
};
use demobase::kinds::{field_width, AccountKind, AttributeKind, AttributeKindModifier, MarkAttribute};
use demobase::name::{decode_name, parse_string};
use demobase::operations::{
    collection_address_seeds, create_application, create_collection, delete_application,
    delete_collection, update_application, update_collection,
};
use demobase::records::{Application, Collection, Record};
use demobase::registry::Registry;

fn key(n: u8) -> Key {
    Key::new([n; 32])
}

fn program() -> Key {
    key(200)
}

fn packed(name: &str) -> [u8; 32] {
    parse_string(name.to_string()).unwrap()
}

const BUMP: u8 = 254;

/// Stands in for the host's address derivation: a deterministic function of
/// the program key and the seed list.
fn host_derive(seeds: &Vec<Vec<u8>>) -> Option<(Key, u8)> {
    let mut bytes = [0u8; 32];
    for (i, chunk) in bytes.chunks_mut(8).enumerate() {
        let mut h = DefaultHasher::new();
        (i, program().bytes, seeds).hash(&mut h);
        chunk.copy_from_slice(&h.finish().to_le_bytes());
    }
    Some((Key::new(bytes), BUMP))
}

fn collection_at(app: Key, name: &str) -> Option<(Key, u8)> {
    host_derive(&collection_address_seeds(&app, &packed(name)))
}

fn attribute_at(app: Key, coll: Key, name: &str) -> Option<(Key, u8)> {
    host_derive(&attribute_address_seeds(&app, &coll, &packed(name)))
}

fn instruction_at(app: Key, coll: Key, name: &str) -> Option<(Key, u8)> {
    host_derive(&instruction_address_seeds(&app, &coll, &packed(name)))
}

fn argument_at(t: &Tree, name: &str) -> Option<(Key, u8)> {
    host_derive(&argument_address_seeds(&t.app, &t.coll, &t.instr, &packed(name)))
}

fn account_at(app: Key, coll: Key, instr: Key, name: &str) -> Option<(Key, u8)> {
    host_derive(&account_address_seeds(&app, &coll, &instr, &packed(name)))
}

fn flag_at(t: &Tree, kind: u8) -> Option<(Key, u8)> {
    host_derive(&bool_attribute_address_seeds(&t.app, &t.coll, &t.instr, &t.account, &kind))
}

fn application(reg: &Registry, k: &Key) -> Application {
    match reg.get(k) {
        Some(Record::Application(a)) => a,
        other => panic!("not an application: {:?}", other),
    }
}

fn collection(reg: &Registry, k: &Key) -> Collection {
    match reg.get(k) {
        Some(Record::Collection(c)) => c,
        other => panic!("not a collection: {:?}", other),
    }
}

struct Tree {
    reg: Registry,
    signer: Key,
    app: Key,
    coll: Key,
    instr: Key,
    account: Key,
}

fn new_app(reg: &mut Registry, app: Key, signer: Key, name: &str) {
    let accounts = CreateApplication { application: app, authority: signer };
    create_application(reg, accounts, name.to_string()).unwrap();
}

fn new_collection(reg: &mut Registry, app: Key, signer: Key, name: &str) -> Key {
    let accounts = CreateCollection { application: app, authority: signer };
    create_collection(reg, accounts, name.to_string(), BUMP, collection_at(app, name)).unwrap()
}

fn tree() -> Tree {
    let mut reg = Registry::new(program());
    let signer = key(1);
    let app = key(10);
    new_app(&mut reg, app, signer, "Blog");
    let coll = new_collection(&mut reg, app, signer, "Posts");
    let accounts = CreateCollectionInstruction { application: app, collection: coll, authority: signer };
    let derived = instruction_at(app, coll, "publish");
    let instr = create_collection_instruction(&mut reg, accounts, "publish".to_string(), BUMP, derived)
        .unwrap();
    let derived = account_at(app, coll, instr, "author");
    let accounts = CreateInstructionAccount {
        application: app,
        collection: coll,
        instruction: instr,
        account_collection: coll,
        authority: signer,
    };
    let account = create_collection_instruction_account(&mut reg, accounts, "author".to_string(), 1, 1, BUMP, derived)
        .unwrap();
    Tree { reg, signer, app, coll, instr, account }
}

#[test]
fn blog_scenario() {
    let mut reg = Registry::new(program());
    let signer = key(1);
    let app = key(10);
    new_app(&mut reg, app, signer, "Blog");
    assert_eq!(application(&reg, &app).count, 0);
    assert_eq!(decode_name(&application(&reg, &app).name), Some("Blog".to_string()));

    let derived = collection_at(app, "Posts");
    let accounts = CreateCollection { application: app, authority: signer };
    let coll = create_collection(&mut reg, accounts, "Posts".to_string(), BUMP, derived).unwrap();
    assert_eq!(Some((coll, BUMP)), derived);
    assert_eq!(application(&reg, &app).count, 1);
    let c = collection(&reg, &coll);
    assert_eq!(c.application, app);
    assert_eq!(c.authority, signer);
    assert_eq!(c.bump, BUMP);

    let derived = attribute_at(app, coll, "title");
    let accounts = CreateCollectionAttribute { application: app, collection: coll, authority: signer };
    let attr = create_collection_attribute(&mut reg, accounts, "title".to_string(), 0, 1, 64, BUMP, derived)
        .unwrap();
    assert_eq!(Some((attr, BUMP)), derived);
    match reg.get(&attr) {
        Some(Record::CollectionAttribute(a)) => {
            assert_eq!(a.kind, AttributeKind::U8);
            assert_eq!(a.modifier, AttributeKindModifier::Array { size: 64 });
            assert_eq!(field_width(&a.kind, &a.modifier), 64);
            assert_eq!(a.collection, coll);
        },
        other => panic!("not an attribute: {:?}", other),
    }

    // a collection may be deleted while attributes still refer to it
    let accounts = DeleteCollection { collection: coll, authority: signer };
    assert_eq!(delete_collection(&mut reg, accounts), Ok(()));
    assert!(reg.get(&coll).is_none());
    assert!(reg.get(&attr).is_some());
    assert_eq!(application(&reg, &app).count, 0);
}

#[test]
fn instruction_scenario() {
    let mut t = tree();
    let derived = argument_at(&t, "owner");
    let accounts = CreateInstructionArgument {
        application: t.app,
        collection: t.coll,
        instruction: t.instr,
        authority: t.signer,
    };
    let arg = create_collection_instruction_argument(&mut t.reg, accounts, "owner".to_string(), 5, 0, 0, BUMP, derived)
        .unwrap();
    match t.reg.get(&arg) {
        Some(Record::InstructionArgument(a)) => {
            assert_eq!(a.kind, AttributeKind::Pubkey);
            assert_eq!(a.modifier, AttributeKindModifier::Scalar);
            assert_eq!(field_width(&a.kind, &a.modifier), 32);
            assert_eq!(a.instruction, t.instr);
        },
        other => panic!("not an argument: {:?}", other),
    }
    match t.reg.get(&t.account) {
        Some(Record::InstructionAccount(a)) => {
            assert_eq!(a.kind, AccountKind::Signer);
            assert_eq!(a.mark_attribute, MarkAttribute::Init);
            assert_eq!(a.account_collection, t.coll);
        },
        other => panic!("not an account: {:?}", other),
    }
    let derived = flag_at(&t, 1);
    let accounts = CreateAccountBoolAttribute {
        application: t.app,
        collection: t.coll,
        instruction: t.instr,
        account: t.account,
        authority: t.signer,
    };
    let flag = create_account_bool_attribute(&mut t.reg, accounts, 1, BUMP, derived).unwrap();
    match t.reg.get(&flag) {
        Some(Record::AccountBoolAttribute(f)) => {
            assert_eq!(f.kind, MarkAttribute::Init);
            assert_eq!(f.account, t.account);
        },
        other => panic!("not a flag: {:?}", other),
    }
    // a flag that disagrees with the account's own mark is accepted too
    let derived = flag_at(&t, 3);
    let accounts = CreateAccountBoolAttribute {
        application: t.app,
        collection: t.coll,
        instruction: t.instr,
        account: t.account,
        authority: t.signer,
    };
    assert!(create_account_bool_attribute(&mut t.reg, accounts, 3, BUMP, derived).is_ok());
}

#[test]
fn duplicate_application_fails() {
    let mut reg = Registry::new(program());
    new_app(&mut reg, key(10), key(1), "Blog");
    let accounts = CreateApplication { application: key(10), authority: key(2) };
    assert_eq!(
        create_application(&mut reg, accounts, "Other".to_string()),
        Err(ErrorCode::AccountAlreadyInitialized)
    );
    assert_eq!(application(&reg, &key(10)).authority, key(1));
}

#[test]
fn duplicate_collection_fails() {
    let mut reg = Registry::new(program());
    new_app(&mut reg, key(10), key(1), "Blog");
    let coll = new_collection(&mut reg, key(10), key(1), "Posts");
    let accounts = CreateCollection { application: key(10), authority: key(2) };
    assert_eq!(
        create_collection(&mut reg, accounts, "Posts".to_string(), BUMP, collection_at(key(10), "Posts")),
        Err(ErrorCode::AccountAlreadyInitialized)
    );
    assert_eq!(application(&reg, &key(10)).count, 1);
    assert_eq!(collection(&reg, &coll).authority, key(1));
}

#[test]
fn duplicate_attribute_fails() {
    let mut t = tree();
    let derived = attribute_at(t.app, t.coll, "title");
    let accounts = CreateCollectionAttribute { application: t.app, collection: t.coll, authority: t.signer };
    assert!(create_collection_attribute(&mut t.reg, accounts, "title".to_string(), 0, 0, 0, BUMP, derived).is_ok());
    assert_eq!(
        create_collection_attribute(&mut t.reg, accounts, "title".to_string(), 3, 2, 0, BUMP, derived),
        Err(ErrorCode::AccountAlreadyInitialized)
    );
}

#[test]
fn same_name_under_other_application_gets_other_address() {
    let mut reg = Registry::new(program());
    new_app(&mut reg, key(10), key(1), "Blog");
    new_app(&mut reg, key(11), key(1), "Shop");
    let a = new_collection(&mut reg, key(10), key(1), "Posts");
    let b = new_collection(&mut reg, key(11), key(1), "Posts");
    assert_ne!(a, b);
}

#[test]
fn wrong_bump_fails() {
    let mut reg = Registry::new(program());
    new_app(&mut reg, key(10), key(1), "Blog");
    let accounts = CreateCollection { application: key(10), authority: key(1) };
    let derived = collection_at(key(10), "Posts");
    assert_eq!(
        create_collection(&mut reg, accounts, "Posts".to_string(), BUMP + 1, derived),
        Err(ErrorCode::InvalidBump)
    );
    assert_eq!(
        create_collection(&mut reg, accounts, "Posts".to_string(), BUMP, None),
        Err(ErrorCode::InvalidSeeds)
    );
    assert_eq!(application(&reg, &key(10)).count, 0);
}

#[test]
fn missing_parent_fails() {
    let mut reg = Registry::new(program());
    let accounts = CreateCollection { application: key(10), authority: key(1) };
    assert_eq!(
        create_collection(&mut reg, accounts, "Posts".to_string(), BUMP, collection_at(key(10), "Posts")),
        Err(ErrorCode::AccountNotFound)
    );
}

#[test]
fn parent_of_wrong_kind_fails() {
    let mut reg = Registry::new(program());
    new_app(&mut reg, key(10), key(1), "Blog");
    let coll = new_collection(&mut reg, key(10), key(1), "Posts");
    let accounts = CreateCollection { application: coll, authority: key(1) };
    assert_eq!(
        create_collection(&mut reg, accounts, "Posts".to_string(), BUMP, collection_at(key(10), "Posts")),
        Err(ErrorCode::AccountDidNotDeserialize)
    );
}

#[test]
fn ancestor_mismatch_fails() {
    let mut reg = Registry::new(program());
    new_app(&mut reg, key(10), key(1), "Blog");
    new_app(&mut reg, key(11), key(1), "Shop");
    let coll = new_collection(&mut reg, key(10), key(1), "Posts");
    let accounts = CreateCollectionInstruction { application: key(11), collection: coll, authority: key(1) };
    assert_eq!(
        create_collection_instruction(&mut reg, accounts, "publish".to_string(), BUMP, instruction_at(key(11), coll, "publish")),
        Err(ErrorCode::AncestorMismatch)
    );
}

#[test]
fn accounts_are_checked_before_the_name() {
    let mut reg = Registry::new(program());
    let accounts = CreateCollection { application: key(10), authority: key(1) };
    let long = "p".repeat(33);
    assert_eq!(
        create_collection(&mut reg, accounts, long.clone(), BUMP, Some((key(50), BUMP))),
        Err(ErrorCode::AccountNotFound)
    );
    new_app(&mut reg, key(10), key(1), "Blog");
    assert_eq!(
        create_collection(&mut reg, accounts, long.clone(), BUMP, None),
        Err(ErrorCode::InvalidSeeds)
    );
    assert_eq!(
        create_collection(&mut reg, accounts, long.clone(), BUMP, Some((key(10), BUMP))),
        Err(ErrorCode::AccountAlreadyInitialized)
    );
    assert_eq!(
        create_collection(&mut reg, accounts, long, BUMP, Some((key(50), BUMP))),
        Err(ErrorCode::InvalidNameLength)
    );
    assert!(reg.get(&key(50)).is_none());
    assert_eq!(application(&reg, &key(10)).count, 0);

    let accounts = CreateApplication { application: key(10), authority: key(1) };
    assert_eq!(
        create_application(&mut reg, accounts, "b".repeat(40)),
        Err(ErrorCode::AccountAlreadyInitialized)
    );
    let accounts = CreateApplication { application: key(11), authority: key(1) };
    assert_eq!(
        create_application(&mut reg, accounts, "b".repeat(40)),
        Err(ErrorCode::InvalidNameLength)
    );
    assert!(reg.get(&key(11)).is_none());
}

#[test]
fn occupied_address_wins_over_bad_tags() {
    let mut t = tree();
    let derived = argument_at(&t, "owner");
    let accounts = CreateInstructionArgument {
        application: t.app,
        collection: t.coll,
        instruction: t.instr,
        authority: t.signer,
    };
    let arg = create_collection_instruction_argument(&mut t.reg, accounts, "owner".to_string(), 5, 0, 0, BUMP, derived)
        .unwrap();
    assert_eq!(
        create_collection_instruction_argument(&mut t.reg, accounts, "owner".to_string(), 6, 0, 0, BUMP, derived),
        Err(ErrorCode::AccountAlreadyInitialized)
    );
    match t.reg.get(&arg) {
        Some(Record::InstructionArgument(a)) => assert_eq!(a.kind, AttributeKind::Pubkey),
        other => panic!("not an argument: {:?}", other),
    }
}

#[test]
fn invalid_tags_fail() {
    let mut t = tree();
    let accounts = CreateCollectionAttribute { application: t.app, collection: t.coll, authority: t.signer };
    let derived = attribute_at(t.app, t.coll, "x");
    assert_eq!(
        create_collection_attribute(&mut t.reg, accounts, "x".to_string(), 6, 0, 0, BUMP, derived),
        Err(ErrorCode::InvalidAttributeKind)
    );
    assert_eq!(
        create_collection_attribute(&mut t.reg, accounts, "x".to_string(), 0, 3, 0, BUMP, derived),
        Err(ErrorCode::InvalidAttributeKindModifier)
    );
    assert_eq!(
        create_collection_attribute(&mut t.reg, accounts, "x".repeat(33), 6, 3, 0, BUMP, derived),
        Err(ErrorCode::InvalidNameLength)
    );
    let accounts = CreateInstructionAccount {
        application: t.app,
        collection: t.coll,
        instruction: t.instr,
        account_collection: t.coll,
        authority: t.signer,
    };
    let derived = account_at(t.app, t.coll, t.instr, "x");
    assert_eq!(
        create_collection_instruction_account(&mut t.reg, accounts, "x".to_string(), 3, 0, BUMP, derived),
        Err(ErrorCode::InvalidAccountKind)
    );
    assert_eq!(
        create_collection_instruction_account(&mut t.reg, accounts, "x".to_string(), 0, 4, BUMP, derived),
        Err(ErrorCode::InvalidMarkAttribute)
    );
    let accounts = CreateAccountBoolAttribute {
        application: t.app,
        collection: t.coll,
        instruction: t.instr,
        account: t.account,
        authority: t.signer,
    };
    let derived = flag_at(&t, 4);
    assert_eq!(
        create_account_bool_attribute(&mut t.reg, accounts, 4, BUMP, derived),
        Err(ErrorCode::InvalidMarkAttribute)
    );
}

#[test]
fn source_collection_is_checked_before_the_name() {
    let mut t = tree();
    let owner = UpdateInstructionAccount { account: t.account, account_collection: key(99), authority: t.signer };
    assert_eq!(
        update_collection_instruction_account(&mut t.reg, owner, "y".repeat(40), 9, 9),
        Err(ErrorCode::AccountNotFound)
    );
    let owner = UpdateInstructionAccount { account: t.account, account_collection: t.coll, authority: t.signer };
    assert_eq!(
        update_collection_instruction_account(&mut t.reg, owner, "y".to_string(), 9, 0),
        Err(ErrorCode::InvalidAccountKind)
    );
}

#[test]
fn application_authority() {
    let mut reg = Registry::new(program());
    new_app(&mut reg, key(10), key(1), "Blog");
    let stranger = UpdateApplication { application: key(10), authority: key(2) };
    assert_eq!(update_application(&mut reg, stranger, "Mine".to_string()), Err(ErrorCode::Unauthorized));
    let owner = UpdateApplication { application: key(10), authority: key(1) };
    assert_eq!(update_application(&mut reg, owner, "Journal".to_string()), Ok(()));
    assert_eq!(decode_name(&application(&reg, &key(10)).name), Some("Journal".to_string()));
    assert_eq!(application(&reg, &key(10)).authority, key(1));
    let stranger = DeleteApplication { application: key(10), authority: key(2) };
    assert_eq!(delete_application(&mut reg, stranger), Err(ErrorCode::Unauthorized));
    let owner = DeleteApplication { application: key(10), authority: key(1) };
    assert_eq!(delete_application(&mut reg, owner), Ok(()));
    assert!(reg.get(&key(10)).is_none());
    // the freed address can hold a new application
    new_app(&mut reg, key(10), key(3), "Again");
    assert_eq!(application(&reg, &key(10)).authority, key(3));
}

#[test]
fn collection_authority() {
    let mut t = tree();
    let stranger = UpdateCollection { collection: t.coll, authority: key(2) };
    assert_eq!(update_collection(&mut t.reg, stranger, "x".to_string()), Err(ErrorCode::Unauthorized));
    let owner = UpdateCollection { collection: t.coll, authority: t.signer };
    assert_eq!(update_collection(&mut t.reg, owner, "Articles".to_string()), Ok(()));
    assert_eq!(decode_name(&collection(&t.reg, &t.coll).name), Some("Articles".to_string()));
    let stranger = DeleteCollection { collection: t.coll, authority: key(2) };
    assert_eq!(delete_collection(&mut t.reg, stranger), Err(ErrorCode::Unauthorized));
    let owner = DeleteCollection { collection: t.coll, authority: t.signer };
    assert_eq!(delete_collection(&mut t.reg, owner), Ok(()));
    assert_eq!(application(&t.reg, &t.app).count, 0);
}

#[test]
fn collection_outlives_its_application() {
    let mut t = tree();
    let owner = DeleteApplication { application: t.app, authority: t.signer };
    assert_eq!(delete_application(&mut t.reg, owner), Ok(()));
    let owner = DeleteCollection { collection: t.coll, authority: t.signer };
    assert_eq!(delete_collection(&mut t.reg, owner), Ok(()));
    assert!(t.reg.get(&t.coll).is_none());
}

#[test]
fn attribute_authority() {
    let mut t = tree();
    let derived = attribute_at(t.app, t.coll, "title");
    let accounts = CreateCollectionAttribute { application: t.app, collection: t.coll, authority: t.signer };
    let attr = create_collection_attribute(&mut t.reg, accounts, "title".to_string(), 0, 0, 0, BUMP, derived)
        .unwrap();
    let stranger = UpdateCollectionAttribute { attribute: attr, authority: key(2) };
    assert_eq!(
        update_collection_attribute(&mut t.reg, stranger, "t".to_string(), 1, 2, 0),
        Err(ErrorCode::Unauthorized)
    );
    let owner = UpdateCollectionAttribute { attribute: attr, authority: t.signer };
    assert_eq!(
        update_collection_attribute(&mut t.reg, owner, "body".to_string(), 3, 2, 0),
        Ok(())
    );
    match t.reg.get(&attr) {
        Some(Record::CollectionAttribute(a)) => {
            assert_eq!(a.kind, AttributeKind::U64);
            assert_eq!(a.modifier, AttributeKindModifier::Vector);
            assert_eq!(decode_name(&a.name), Some("body".to_string()));
            assert_eq!(a.authority, t.signer);
            assert_eq!(a.bump, BUMP);
        },
        other => panic!("not an attribute: {:?}", other),
    }
    let stranger = DeleteCollectionAttribute { attribute: attr, authority: key(2) };
    assert_eq!(delete_collection_attribute(&mut t.reg, stranger), Err(ErrorCode::Unauthorized));
    let owner = DeleteCollectionAttribute { attribute: attr, authority: t.signer };
    assert_eq!(delete_collection_attribute(&mut t.reg, owner), Ok(()));
    assert!(t.reg.get(&attr).is_none());
}

#[test]
fn instruction_authority() {
    let mut t = tree();
    let stranger = UpdateCollectionInstruction { instruction: t.instr, authority: key(2) };
    assert_eq!(
        update_collection_instruction(&mut t.reg, stranger, "x".to_string()),
        Err(ErrorCode::Unauthorized)
    );
    let owner = UpdateCollectionInstruction { instruction: t.instr, authority: t.signer };
    assert_eq!(update_collection_instruction(&mut t.reg, owner, "release".to_string()), Ok(()));
    let stranger = DeleteCollectionInstruction { instruction: t.instr, authority: key(2) };
    assert_eq!(delete_collection_instruction(&mut t.reg, stranger), Err(ErrorCode::Unauthorized));
    let owner = DeleteCollectionInstruction { instruction: t.instr, authority: t.signer };
    assert_eq!(delete_collection_instruction(&mut t.reg, owner), Ok(()));
}

#[test]
fn argument_authority() {
    let mut t = tree();
    let derived = argument_at(&t, "amount");
    let accounts = CreateInstructionArgument {
        application: t.app,
        collection: t.coll,
        instruction: t.instr,
        authority: t.signer,
    };
    let arg = create_collection_instruction_argument(&mut t.reg, accounts, "amount".to_string(), 3, 0, 0, BUMP, derived)
        .unwrap();
    let stranger = UpdateInstructionArgument { argument: arg, authority: key(2) };
    assert_eq!(
        update_collection_instruction_argument(&mut t.reg, stranger, "a".to_string(), 4, 0, 0),
        Err(ErrorCode::Unauthorized)
    );
    let owner = UpdateInstructionArgument { argument: arg, authority: t.signer };
    assert_eq!(
        update_collection_instruction_argument(&mut t.reg, owner, "amount".to_string(), 4, 1, 2),
        Ok(())
    );
    match t.reg.get(&arg) {
        Some(Record::InstructionArgument(a)) => {
            assert_eq!(a.kind, AttributeKind::U128);
            assert_eq!(field_width(&a.kind, &a.modifier), 32);
        },
        other => panic!("not an argument: {:?}", other),
    }
    let stranger = DeleteInstructionArgument { argument: arg, authority: key(2) };
    assert_eq!(delete_collection_instruction_argument(&mut t.reg, stranger), Err(ErrorCode::Unauthorized));
    let owner = DeleteInstructionArgument { argument: arg, authority: t.signer };
    assert_eq!(delete_collection_instruction_argument(&mut t.reg, owner), Ok(()));
}

#[test]
fn account_authority() {
    let mut t = tree();
    let other = new_collection(&mut t.reg, t.app, t.signer, "Users");
    let stranger = UpdateInstructionAccount { account: t.account, account_collection: other, authority: key(2) };
    assert_eq!(
        update_collection_instruction_account(&mut t.reg, stranger, "x".to_string(), 0, 2),
        Err(ErrorCode::Unauthorized)
    );
    let owner = UpdateInstructionAccount { account: t.account, account_collection: other, authority: t.signer };
    assert_eq!(
        update_collection_instruction_account(&mut t.reg, owner, "payer".to_string(), 0, 2),
        Ok(())
    );
    match t.reg.get(&t.account) {
        Some(Record::InstructionAccount(a)) => {
            assert_eq!(a.kind, AccountKind::Account);
            assert_eq!(a.mark_attribute, MarkAttribute::Mut);
            assert_eq!(a.account_collection, other);
        },
        other => panic!("not an account: {:?}", other),
    }
    let missing = UpdateInstructionAccount { account: t.account, account_collection: key(99), authority: t.signer };
    assert_eq!(
        update_collection_instruction_account(&mut t.reg, missing, "payer".to_string(), 0, 2),
        Err(ErrorCode::AccountNotFound)
    );
    let stranger = DeleteInstructionAccount { account: t.account, authority: key(2) };
    assert_eq!(delete_collection_instruction_account(&mut t.reg, stranger), Err(ErrorCode::Unauthorized));
    let owner = DeleteInstructionAccount { account: t.account, authority: t.signer };
    assert_eq!(delete_collection_instruction_account(&mut t.reg, owner), Ok(()));
}

#[test]
fn bool_attribute_authority() {
    let mut t = tree();
    let derived = flag_at(&t, 2);
    let accounts = CreateAccountBoolAttribute {
        application: t.app,
        collection: t.coll,
        instruction: t.instr,
        account: t.account,
        authority: t.signer,
    };
    let flag = create_account_bool_attribute(&mut t.reg, accounts, 2, BUMP, derived).unwrap();
    let stranger = UpdateAccountBoolAttribute { attribute: flag, authority: key(2) };
    assert_eq!(update_account_bool_attribute(&mut t.reg, stranger, 3), Err(ErrorCode::Unauthorized));
    let owner = UpdateAccountBoolAttribute { attribute: flag, authority: t.signer };
    assert_eq!(update_account_bool_attribute(&mut t.reg, owner, 3), Ok(()));
    match t.reg.get(&flag) {
        Some(Record::AccountBoolAttribute(f)) => assert_eq!(f.kind, MarkAttribute::Zero),
        other => panic!("not a flag: {:?}", other),
    }
    let stranger = DeleteAccountBoolAttribute { attribute: flag, authority: key(2) };
    assert_eq!(delete_account_bool_attribute(&mut t.reg, stranger), Err(ErrorCode::Unauthorized));
    let owner = DeleteAccountBoolAttribute { attribute: flag, authority: t.signer };
    assert_eq!(delete_account_bool_attribute(&mut t.reg, owner), Ok(()));
}

#[test]
fn update_of_wrong_kind_fails() {
    let mut t = tree();
    let owner = UpdateCollection { collection: t.app, authority: t.signer };
    assert_eq!(
        update_collection(&mut t.reg, owner, "x".to_string()),
        Err(ErrorCode::AccountDidNotDeserialize)
    );
    let owner = DeleteCollectionInstruction { instruction: key(77), authority: t.signer };
    assert_eq!(delete_collection_instruction(&mut t.reg, owner), Err(ErrorCode::AccountNotFound));
}

#[test]
fn counter_underflow_is_reported() {
    let mut reg = Registry::new(program());
    new_app(&mut reg, key(10), key(1), "Blog");
    let coll = new_collection(&mut reg, key(10), key(1), "Posts");
    let owner = DeleteApplication { application: key(10), authority: key(1) };
    assert_eq!(delete_application(&mut reg, owner), Ok(()));
    // a new application at the freed address counts no collections
    new_app(&mut reg, key(10), key(1), "Blog");
    let owner = DeleteCollection { collection: coll, authority: key(1) };
    assert_eq!(delete_collection(&mut reg, owner), Err(ErrorCode::CounterUnderflow));
    assert!(reg.get(&coll).is_some());
    assert_eq!(application(&reg, &key(10)).count, 0);
}

#[test]
fn program_id_is_kept() {
    let reg = Registry::new(program());
    assert_eq!(reg.program_id(), program());
    assert!(reg.get(&key(3)).is_none());
}
