use vstd::prelude::*;

verus! {

#[verifier::external_type_specification]
#[verifier::external_body]
pub struct ExUrl(url::Url);

/// What an added access key is allowed to do.
#[derive(Debug, PartialEq, Eq)]
pub enum AccessKeyPermission {
    /// Any action on behalf of the account.
    FullAccess,
    /// Calls of the named methods (all of them when the list is empty) on
    /// one receiver, paid from an optional allowance.
    FunctionCall { allowance: Option<u128>, receiver_id: String, method_names: Vec<String> },
}

/// One mutation that the transaction applies on-chain.
#[derive(Debug, PartialEq, Eq)]
pub enum Action {
    CreateAccount,
    DeleteKey { public_key: near_crypto::PublicKey },
    AddKey { public_key: near_crypto::PublicKey, permission: AccessKeyPermission },
}

/// A transaction under construction: header fields fixed before the first
/// action is appended, and the actions appended so far, in order.
#[derive(Debug)]
pub struct UnsignedTransaction {
    pub signer_id: String,
    pub public_key: near_crypto::PublicKey,
    pub nonce: u64,
    pub receiver_id: String,
    pub block_hash: [u8; 32],
    pub actions: Vec<Action>,
}

/// The header fields of `a` and `b` agree.
pub open spec fn same_header(a: UnsignedTransaction, b: UnsignedTransaction) -> bool {
    &&& a.signer_id@ == b.signer_id@
    &&& a.public_key == b.public_key
    &&& a.nonce == b.nonce
    &&& a.receiver_id@ == b.receiver_id@
    &&& a.block_hash@ == b.block_hash@
}

impl UnsignedTransaction {
    /// The same transaction with `action` appended after the actions it holds.
    pub fn with_action(self, action: Action) -> (r: UnsignedTransaction)
        ensures
            same_header(r, self),
            r.actions@ == self.actions@.push(action),
    {
        let mut actions = self.actions;
        actions.push(action);
        UnsignedTransaction { actions, ..self }
    }
}

} // verus!
