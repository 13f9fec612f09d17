use vstd::prelude::*;

use crate::transaction::{same_header, AccessKeyPermission, Action, UnsignedTransaction};

verus! {

/// What happens after an action is appended: another builder runs, or the
/// chain stops and the transaction goes to the finalizer.
#[derive(Debug)]
pub enum NextAction {
    AddAction(Box<SelectAction>),
    Skip,
}

/// One action builder, configured, with the rest of the chain after it.
#[derive(Debug)]
pub enum SelectAction {
    CreateAccount(CreateAccountAction),
    DeleteAccessKey(DeleteAccessKeyAction),
    AddAccessKey(PublicKeyMode),
}

/// Appends a create-account action.
#[derive(Debug)]
pub struct CreateAccountAction {
    pub next_action: Box<NextAction>,
}

/// Appends a delete-key action for `public_key`.
#[derive(Debug)]
pub struct DeleteAccessKeyAction {
    pub public_key: near_crypto::PublicKey,
    pub next_action: Box<NextAction>,
}

/// Appends an add-key action for `public_key` with `permission`.
#[derive(Debug)]
pub struct AddAccessKeyAction {
    pub public_key: near_crypto::PublicKey,
    pub permission: AccessKeyPermission,
    pub next_action: Box<NextAction>,
}

/// How the key of an add-key action is given.
#[derive(Debug)]
pub enum PublicKeyMode {
    /// The operator supplies the public key.
    PublicKey(AddAccessKeyAction),
    /// Key-pair generation, which is not available: the chain ends here
    /// without appending anything and without finalizing.
    GenerateKeypair,
}

/// How a chain ended.
#[derive(Debug, PartialEq, Eq, Structural, Clone, Copy)]
pub enum ChainEnd {
    /// The chain stopped: the transaction is to be handed to the finalizer.
    Finalize,
    /// The chain reached key-pair generation, which is not available yet.
    KeyPairUnavailable,
}

/// The transaction as the chain left it, the endpoint handed along
/// unchanged, and how the chain ended.
#[derive(Debug)]
pub struct Outcome {
    pub transaction: UnsignedTransaction,
    pub server_url: Option<url::Url>,
    pub end: ChainEnd,
}

/// The actions that the chain `n` appends, in order.
pub open spec fn chain_actions(n: NextAction) -> Seq<Action>
    decreases n,
{
    match n {
        NextAction::Skip => seq![],
        NextAction::AddAction(select) => match *select {
            SelectAction::CreateAccount(c) => seq![Action::CreateAccount] + chain_actions(*c.next_action),
            SelectAction::DeleteAccessKey(d) =>
                seq![Action::DeleteKey { public_key: d.public_key }] + chain_actions(*d.next_action),
            SelectAction::AddAccessKey(mode) => match mode {
                PublicKeyMode::PublicKey(a) =>
                    seq![Action::AddKey { public_key: a.public_key, permission: a.permission }]
                        + chain_actions(*a.next_action),
                PublicKeyMode::GenerateKeypair => seq![],
            },
        },
    }
}

/// How the chain `n` ends.
pub open spec fn chain_end(n: NextAction) -> ChainEnd
    decreases n,
{
    match n {
        NextAction::Skip => ChainEnd::Finalize,
        NextAction::AddAction(select) => match *select {
            SelectAction::CreateAccount(c) => chain_end(*c.next_action),
            SelectAction::DeleteAccessKey(d) => chain_end(*d.next_action),
            SelectAction::AddAccessKey(mode) => match mode {
                PublicKeyMode::PublicKey(a) => chain_end(*a.next_action),
                PublicKeyMode::GenerateKeypair => ChainEnd::KeyPairUnavailable,
            },
        },
    }
}

/// `r` is what running the chain `n` on `transaction` gives: the actions of
/// `n` appended in order, the header and the endpoint untouched.
pub open spec fn is_outcome_of(
    r: Outcome,
    n: NextAction,
    transaction: UnsignedTransaction,
    server_url: Option<url::Url>,
) -> bool {
    &&& r.end == chain_end(n)
    &&& same_header(r.transaction, transaction)
    &&& r.transaction.actions@ == transaction.actions@ + chain_actions(n)
    &&& r.server_url == server_url
}

/// The builder that appends `action` and then goes on with `next`.
pub open spec fn builder_of(action: Action, next: NextAction) -> SelectAction {
    match action {
        Action::CreateAccount => SelectAction::CreateAccount(
            CreateAccountAction { next_action: Box::new(next) },
        ),
        Action::DeleteKey { public_key } => SelectAction::DeleteAccessKey(
            DeleteAccessKeyAction { public_key, next_action: Box::new(next) },
        ),
        Action::AddKey { public_key, permission } => SelectAction::AddAccessKey(
            PublicKeyMode::PublicKey(
                AddAccessKeyAction { public_key, permission, next_action: Box::new(next) },
            ),
        ),
    }
}

/// The chain that ends as `end` says.
pub open spec fn end_chain(end: ChainEnd) -> NextAction {
    match end {
        ChainEnd::Finalize => NextAction::Skip,
        ChainEnd::KeyPairUnavailable => NextAction::AddAction(
            Box::new(SelectAction::AddAccessKey(PublicKeyMode::GenerateKeypair)),
        ),
    }
}

/// The chain of builders that appends `actions` in order, then ends as
/// `end` says.
pub open spec fn chain_of(actions: Seq<Action>, end: ChainEnd) -> NextAction
    decreases actions.len(),
{
    if actions.len() == 0 {
        end_chain(end)
    } else {
        NextAction::AddAction(Box::new(builder_of(actions[0], chain_of(actions.drop_first(), end))))
    }
}

fn builder_for(action: Action, next: NextAction) -> (r: SelectAction)
    ensures
        r == builder_of(action, next),
{
    match action {
        Action::CreateAccount => SelectAction::CreateAccount(
            CreateAccountAction { next_action: Box::new(next) },
        ),
        Action::DeleteKey { public_key } => SelectAction::DeleteAccessKey(
            DeleteAccessKeyAction { public_key, next_action: Box::new(next) },
        ),
        Action::AddKey { public_key, permission } => SelectAction::AddAccessKey(
            PublicKeyMode::PublicKey(
                AddAccessKeyAction { public_key, permission, next_action: Box::new(next) },
            ),
        ),
    }
}

impl NextAction {
    /// The chain of builders that appends `actions` in order, then ends as
    /// `end` says.
    pub fn from_actions(actions: Vec<Action>, end: ChainEnd) -> (r: NextAction)
        ensures
            r == chain_of(actions@, end),
    {
        let ghost all = actions@;
        let mut actions = actions;
        let mut next = match end {
            ChainEnd::Finalize => NextAction::Skip,
            ChainEnd::KeyPairUnavailable => NextAction::AddAction(
                Box::new(SelectAction::AddAccessKey(PublicKeyMode::GenerateKeypair)),
            ),
        };
        assert(all.subrange(all.len() as int, all.len() as int) =~= Seq::<Action>::empty());
        while actions.len() > 0
            invariant
                actions@.len() <= all.len(),
                actions@ == all.subrange(0, actions@.len() as int),
                next == chain_of(all.subrange(actions@.len() as int, all.len() as int), end),
            decreases actions.len(),
        {
            let ghost i = actions@.len() as int;
            let action = actions.pop().unwrap();
            assert(all.subrange(i - 1, all.len() as int).drop_first()
                =~= all.subrange(i, all.len() as int));
            assert(actions@ =~= all.subrange(0, i - 1));
            next = NextAction::AddAction(Box::new(builder_for(action, next)));
        }
        assert(all.subrange(0, all.len() as int) =~= all);
        next
    }

    /// Runs the chain: appends each builder's action to `transaction` in
    /// turn, and stops where the chain ends.
    pub fn process(self, transaction: UnsignedTransaction, server_url: Option<url::Url>) -> (r:
        Outcome)
        ensures
            is_outcome_of(r, self, transaction, server_url),
    {
        let ghost start = self;
        let mut cur = self;
        let mut tx = transaction;
        loop
            invariant
                same_header(tx, transaction),
                tx.actions@ + chain_actions(cur) == transaction.actions@ + chain_actions(start),
                chain_end(cur) == chain_end(start),
                start == self,
            decreases chain_actions(cur).len(),
        {
            let ghost before = tx.actions@;
            match cur {
                NextAction::Skip => {
                    assert(chain_actions(cur) == Seq::<Action>::empty());
                    assert(tx.actions@ =~= tx.actions@ + chain_actions(cur));
                    assert(chain_end(cur) == ChainEnd::Finalize);
                    return Outcome { transaction: tx, server_url, end: ChainEnd::Finalize };
                },
                NextAction::AddAction(select) => match *select {
                    SelectAction::CreateAccount(c) => {
                        tx = tx.with_action(Action::CreateAccount);
                        cur = *c.next_action;
                    },
                    SelectAction::DeleteAccessKey(d) => {
                        tx = tx.with_action(Action::DeleteKey { public_key: d.public_key });
                        cur = *d.next_action;
                    },
                    SelectAction::AddAccessKey(mode) => match mode {
                        PublicKeyMode::PublicKey(a) => {
                            tx = tx.with_action(
                                Action::AddKey { public_key: a.public_key, permission: a.permission },
                            );
                            cur = *a.next_action;
                        },
                        PublicKeyMode::GenerateKeypair => {
                            assert(tx.actions@ =~= tx.actions@ + seq![]);
                            return Outcome {
                                transaction: tx,
                                server_url,
                                end: ChainEnd::KeyPairUnavailable,
                            };
                        },
                    },
                },
            }
            assert(tx.actions@ + chain_actions(cur) =~= before + (seq![tx.actions@.last()]
                + chain_actions(cur)));
        }
    }
}

impl SelectAction {
    /// Runs this builder and the rest of the chain after it.
    pub fn process(self, transaction: UnsignedTransaction, server_url: Option<url::Url>) -> (r:
        Outcome)
        ensures
            is_outcome_of(r, NextAction::AddAction(Box::new(self)), transaction, server_url),
    {
        NextAction::AddAction(Box::new(self)).process(transaction, server_url)
    }
}

impl CreateAccountAction {
    /// Appends a create-account action, then goes on with the rest of the
    /// chain.
    pub fn process(self, transaction: UnsignedTransaction, server_url: Option<url::Url>) -> (r:
        Outcome)
        ensures
            is_outcome_of(
                r,
                NextAction::AddAction(Box::new(SelectAction::CreateAccount(self))),
                transaction,
                server_url,
            ),
    {
        let ghost next = *self.next_action;
        let unsigned_transaction = transaction.with_action(Action::CreateAccount);
        let r = self.next_action.process(unsigned_transaction, server_url);
        assert(r.transaction.actions@ =~= transaction.actions@ + (seq![Action::CreateAccount]
            + chain_actions(next)));
        r
    }
}

impl DeleteAccessKeyAction {
    /// Appends a delete-key action for the configured key, then goes on
    /// with the rest of the chain.
    pub fn process(self, transaction: UnsignedTransaction, server_url: Option<url::Url>) -> (r:
        Outcome)
        ensures
            is_outcome_of(
                r,
                NextAction::AddAction(Box::new(SelectAction::DeleteAccessKey(self))),
                transaction,
                server_url,
            ),
    {
        let ghost next = *self.next_action;
        let ghost action = Action::DeleteKey { public_key: self.public_key };
        let unsigned_transaction = transaction.with_action(
            Action::DeleteKey { public_key: self.public_key },
        );
        let r = self.next_action.process(unsigned_transaction, server_url);
        assert(r.transaction.actions@ =~= transaction.actions@ + (seq![action] + chain_actions(
            next,
        )));
        r
    }
}

impl AddAccessKeyAction {
    /// Appends an add-key action for the configured key and permission,
    /// then goes on with the rest of the chain.
    pub fn process(self, transaction: UnsignedTransaction, server_url: Option<url::Url>) -> (r:
        Outcome)
        ensures
            is_outcome_of(
                r,
                NextAction::AddAction(
                    Box::new(SelectAction::AddAccessKey(PublicKeyMode::PublicKey(self))),
                ),
                transaction,
                server_url,
            ),
    {
        let ghost next = *self.next_action;
        let ghost action = Action::AddKey { public_key: self.public_key, permission: self.permission };
        let unsigned_transaction = transaction.with_action(
            Action::AddKey { public_key: self.public_key, permission: self.permission },
        );
        let r = self.next_action.process(unsigned_transaction, server_url);
        assert(r.transaction.actions@ =~= transaction.actions@ + (seq![action] + chain_actions(
            next,
        )));
        r
    }
}

impl PublicKeyMode {
    /// Runs the add-key builder with a supplied key; with key-pair
    /// generation, ends the chain with the transaction as it stands.
    pub fn process(self, transaction: UnsignedTransaction, server_url: Option<url::Url>) -> (r:
        Outcome)
        ensures
            is_outcome_of(
                r,
                NextAction::AddAction(Box::new(SelectAction::AddAccessKey(self))),
                transaction,
                server_url,
            ),
            self is GenerateKeypair ==> r.transaction == transaction && r.end
                == ChainEnd::KeyPairUnavailable,
    {
        match self {
            PublicKeyMode::PublicKey(add_access_key_action) => add_access_key_action.process(
                transaction,
                server_url,
            ),
            PublicKeyMode::GenerateKeypair => {
                assert(transaction.actions@ =~= transaction.actions@ + seq![]);
                Outcome { transaction, server_url, end: ChainEnd::KeyPairUnavailable }
            },
        }
    }
}

} // verus!
