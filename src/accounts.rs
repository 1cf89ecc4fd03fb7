use vstd::prelude::*;

use crate::address::Key;

verus! {

/// The accounts of `create_application`: the fresh address of the application and the signer, who becomes its authority.
#[derive(Clone, Copy, Debug)]
pub struct CreateApplication {
    pub application: Key,
    pub authority: Key,
}

/// The accounts of `update_application`: the application and the signer.
#[derive(Clone, Copy, Debug)]
pub struct UpdateApplication {
    pub application: Key,
    pub authority: Key,
}

/// The accounts of `delete_application`: the application and the signer.
#[derive(Clone, Copy, Debug)]
pub struct DeleteApplication {
    pub application: Key,
    pub authority: Key,
}

/// The accounts of `create_collection`: the parent application and the signer, who becomes the collection's authority.
#[derive(Clone, Copy, Debug)]
pub struct CreateCollection {
    pub application: Key,
    pub authority: Key,
}

/// The accounts of `update_collection`: the collection and the signer.
#[derive(Clone, Copy, Debug)]
pub struct UpdateCollection {
    pub collection: Key,
    pub authority: Key,
}

/// The accounts of `delete_collection`: the collection and the signer.
#[derive(Clone, Copy, Debug)]
pub struct DeleteCollection {
    pub collection: Key,
    pub authority: Key,
}

/// The accounts of `create_collection_attribute`: the ancestors of the attribute and the signer, who becomes its authority.
#[derive(Clone, Copy, Debug)]
pub struct CreateCollectionAttribute {
    pub application: Key,
    pub collection: Key,
    pub authority: Key,
}

/// The accounts of `update_collection_attribute`: the attribute and the signer.
#[derive(Clone, Copy, Debug)]
pub struct UpdateCollectionAttribute {
    pub attribute: Key,
    pub authority: Key,
}

/// The accounts of `delete_collection_attribute`: the attribute and the signer.
#[derive(Clone, Copy, Debug)]
pub struct DeleteCollectionAttribute {
    pub attribute: Key,
    pub authority: Key,
}

/// The accounts of `create_collection_instruction`: the ancestors of the instruction and the signer, who becomes its authority.
#[derive(Clone, Copy, Debug)]
pub struct CreateCollectionInstruction {
    pub application: Key,
    pub collection: Key,
    pub authority: Key,
}

/// The accounts of `update_collection_instruction`: the instruction and the signer.
#[derive(Clone, Copy, Debug)]
pub struct UpdateCollectionInstruction {
    pub instruction: Key,
    pub authority: Key,
}

/// The accounts of `delete_collection_instruction`: the instruction and the signer.
#[derive(Clone, Copy, Debug)]
pub struct DeleteCollectionInstruction {
    pub instruction: Key,
    pub authority: Key,
}

/// The accounts of `create_collection_instruction_argument`: the ancestors of the argument and the signer, who becomes its authority.
#[derive(Clone, Copy, Debug)]
pub struct CreateInstructionArgument {
    pub application: Key,
    pub collection: Key,
    pub instruction: Key,
    pub authority: Key,
}

/// The accounts of `update_collection_instruction_argument`: the argument and the signer.
#[derive(Clone, Copy, Debug)]
pub struct UpdateInstructionArgument {
    pub argument: Key,
    pub authority: Key,
}

/// The accounts of `delete_collection_instruction_argument`: the argument and the signer.
#[derive(Clone, Copy, Debug)]
pub struct DeleteInstructionArgument {
    pub argument: Key,
    pub authority: Key,
}

/// The accounts of `create_collection_instruction_account`: the ancestors of the account, the collection it draws from, and the signer, who becomes its authority.
#[derive(Clone, Copy, Debug)]
pub struct CreateInstructionAccount {
    pub application: Key,
    pub collection: Key,
    pub instruction: Key,
    pub account_collection: Key,
    pub authority: Key,
}

/// The accounts of `update_collection_instruction_account`: the account, the collection it is to draw from, and the signer.
#[derive(Clone, Copy, Debug)]
pub struct UpdateInstructionAccount {
    pub account: Key,
    pub account_collection: Key,
    pub authority: Key,
}

/// The accounts of `delete_collection_instruction_account`: the account and the signer.
#[derive(Clone, Copy, Debug)]
pub struct DeleteInstructionAccount {
    pub account: Key,
    pub authority: Key,
}

/// The accounts of `create_account_bool_attribute`: the ancestors of the flag and the signer, who becomes its authority.
#[derive(Clone, Copy, Debug)]
pub struct CreateAccountBoolAttribute {
    pub application: Key,
    pub collection: Key,
    pub instruction: Key,
    pub account: Key,
    pub authority: Key,
}

/// The accounts of `update_account_bool_attribute`: the flag and the signer.
#[derive(Clone, Copy, Debug)]
pub struct UpdateAccountBoolAttribute {
    pub attribute: Key,
    pub authority: Key,
}

/// The accounts of `delete_account_bool_attribute`: the flag and the signer.
#[derive(Clone, Copy, Debug)]
pub struct DeleteAccountBoolAttribute {
    pub attribute: Key,
    pub authority: Key,
}

} // verus!
