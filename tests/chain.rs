use near_cli::{
    AccessKeyPermission, Action, AddAccessKeyAction, ChainEnd, CreateAccountAction,
    DeleteAccessKeyAction, NextAction, PublicKeyMode, SelectAction, UnsignedTransaction,
};

const KEY_A: &str = "ed25519:11111111111111111111111111111111";
const KEY_B: &str = "ed25519:11111111111111111111111111111112";

fn key(text: &str) -> near_crypto::PublicKey {
    text.parse().unwrap()
}

fn empty_transaction() -> UnsignedTransaction {
    UnsignedTransaction {
        signer_id: "alice.near".to_string(),
        public_key: key(KEY_A),
        nonce: 7,
        receiver_id: "bob.near".to_string(),
        block_hash: [3u8; 32],
        actions: Vec::new(),
    }
}

fn assert_header_kept(t: &UnsignedTransaction) {
    assert_eq!(t.signer_id, "alice.near");
    assert_eq!(t.receiver_id, "bob.near");
    assert_eq!(t.nonce, 7);
    assert_eq!(t.public_key, key(KEY_A));
    assert_eq!(t.block_hash, [3u8; 32]);
}

#[test]
fn with_action_appends_last() {
    let t = empty_transaction().with_action(Action::CreateAccount);
    let t = t.with_action(Action::DeleteKey { public_key: key(KEY_B) });
    assert_eq!(t.actions, vec![Action::CreateAccount, Action::DeleteKey { public_key: key(KEY_B) }]);
    assert_header_kept(&t);
}

#[test]
fn chain_of_three_keeps_chosen_order() {
    let chosen = vec![
        Action::DeleteKey { public_key: key(KEY_B) },
        Action::CreateAccount,
        Action::AddKey { public_key: key(KEY_A), permission: AccessKeyPermission::FullAccess },
    ];
    let expected = vec![
        Action::DeleteKey { public_key: key(KEY_B) },
        Action::CreateAccount,
        Action::AddKey { public_key: key(KEY_A), permission: AccessKeyPermission::FullAccess },
    ];
    let chain = NextAction::from_actions(chosen, ChainEnd::Finalize);
    let r = chain.process(empty_transaction(), None);
    assert_eq!(r.end, ChainEnd::Finalize);
    assert_eq!(r.transaction.actions, expected);
    assert_header_kept(&r.transaction);
    assert!(r.server_url.is_none());
}

#[test]
fn chain_keeps_earlier_actions_first() {
    let start = empty_transaction().with_action(Action::CreateAccount);
    let chain = NextAction::from_actions(
        vec![Action::DeleteKey { public_key: key(KEY_A) }],
        ChainEnd::Finalize,
    );
    let r = chain.process(start, None);
    assert_eq!(
        r.transaction.actions,
        vec![Action::CreateAccount, Action::DeleteKey { public_key: key(KEY_A) }]
    );
}

#[test]
fn empty_chain_finalizes_unchanged() {
    let r = NextAction::Skip.process(empty_transaction(), None);
    assert_eq!(r.end, ChainEnd::Finalize);
    assert!(r.transaction.actions.is_empty());
    assert_header_kept(&r.transaction);
}

#[test]
fn server_url_is_handed_along() {
    let url: url::Url = "https://rpc.testnet.near.org".parse().unwrap();
    let chain = NextAction::from_actions(vec![Action::CreateAccount], ChainEnd::Finalize);
    let r = chain.process(empty_transaction(), Some(url.clone()));
    assert_eq!(r.server_url, Some(url));
}

#[test]
fn create_account_appends_one_action() {
    let builder = CreateAccountAction { next_action: Box::new(NextAction::Skip) };
    let r = builder.process(empty_transaction(), None);
    assert_eq!(r.transaction.actions, vec![Action::CreateAccount]);
    assert_eq!(r.end, ChainEnd::Finalize);
    assert_header_kept(&r.transaction);
}

#[test]
fn delete_access_key_appends_its_key() {
    let builder = DeleteAccessKeyAction {
        public_key: key(KEY_B),
        next_action: Box::new(NextAction::Skip),
    };
    let r = builder.process(empty_transaction(), None);
    assert_eq!(r.transaction.actions, vec![Action::DeleteKey { public_key: key(KEY_B) }]);
    assert_eq!(r.end, ChainEnd::Finalize);
}

#[test]
fn delete_then_create_through_builders() {
    let builder = DeleteAccessKeyAction {
        public_key: key(KEY_B),
        next_action: Box::new(NextAction::AddAction(Box::new(SelectAction::CreateAccount(
            CreateAccountAction { next_action: Box::new(NextAction::Skip) },
        )))),
    };
    let r = builder.process(empty_transaction(), None);
    assert_eq!(
        r.transaction.actions,
        vec![Action::DeleteKey { public_key: key(KEY_B) }, Action::CreateAccount]
    );
}

#[test]
fn add_access_key_appends_key_and_permission() {
    let permission = AccessKeyPermission::FunctionCall {
        allowance: Some(250),
        receiver_id: "app.near".to_string(),
        method_names: vec!["vote".to_string()],
    };
    let mode = PublicKeyMode::PublicKey(AddAccessKeyAction {
        public_key: key(KEY_B),
        permission,
        next_action: Box::new(NextAction::Skip),
    });
    let r = mode.process(empty_transaction(), None);
    let expected = AccessKeyPermission::FunctionCall {
        allowance: Some(250),
        receiver_id: "app.near".to_string(),
        method_names: vec!["vote".to_string()],
    };
    assert_eq!(
        r.transaction.actions,
        vec![Action::AddKey { public_key: key(KEY_B), permission: expected }]
    );
    assert_eq!(r.end, ChainEnd::Finalize);
}

#[test]
fn generate_keypair_appends_nothing() {
    let start = empty_transaction().with_action(Action::CreateAccount);
    let r = PublicKeyMode::GenerateKeypair.process(start, None);
    assert_eq!(r.end, ChainEnd::KeyPairUnavailable);
    assert_eq!(r.transaction.actions, vec![Action::CreateAccount]);
    assert_header_kept(&r.transaction);
}

#[test]
fn generate_keypair_at_chain_end_keeps_chosen_actions() {
    let chain = NextAction::from_actions(
        vec![Action::CreateAccount, Action::DeleteKey { public_key: key(KEY_A) }],
        ChainEnd::KeyPairUnavailable,
    );
    let r = chain.process(empty_transaction(), None);
    assert_eq!(r.end, ChainEnd::KeyPairUnavailable);
    assert_eq!(
        r.transaction.actions,
        vec![Action::CreateAccount, Action::DeleteKey { public_key: key(KEY_A) }]
    );
}

#[test]
fn select_action_runs_the_builder() {
    let select = SelectAction::CreateAccount(CreateAccountAction {
        next_action: Box::new(NextAction::Skip),
    });
    let r = select.process(empty_transaction(), None);
    assert_eq!(r.transaction.actions, vec![Action::CreateAccount]);
}
