use vstd::prelude::*;

use crate::chain::{chain_of, ChainEnd, NextAction, PublicKeyMode};
use crate::key::{is_public_key_text, parse_public_key, ActionError};
use crate::transaction::{AccessKeyPermission, Action};

verus! {

/// Pre-supplied choice of what follows an action.
#[derive(Debug)]
pub enum CliNextAction {
    AddAction(Box<CliSelectAction>),
    Skip,
}

/// Pre-supplied choice of an action builder, with what it was given.
#[derive(Debug)]
pub enum CliSelectAction {
    CreateAccount(CliCreateAccountAction),
    DeleteAccessKey(CliDeleteAccessKeyAction),
    AddAccessKey(CliPublicKeyMode),
}

/// What was given to the create-account builder.
#[derive(Debug, Default)]
pub struct CliCreateAccountAction {
    pub next_action: Option<CliNextAction>,
}

/// What was given to the delete-access-key builder: the key as text.
#[derive(Debug, Default)]
pub struct CliDeleteAccessKeyAction {
    pub public_key: Option<String>,
    pub next_action: Option<CliNextAction>,
}

/// What was given to the add-access-key builder.
#[derive(Debug)]
pub struct CliAddAccessKeyAction {
    pub public_key: Option<String>,
    pub permission: AccessKeyPermission,
    pub next_action: Option<CliNextAction>,
}

/// Pre-supplied permission mode of the add-access-key builder.
#[derive(Debug)]
pub enum CliPublicKeyMode {
    PublicKey(CliAddAccessKeyAction),
    GenerateKeypair,
}

/// The kinds of action the operator can add, in menu order.
#[derive(Debug, PartialEq, Eq, Structural, Clone, Copy)]
pub enum ActionKind {
    CreateAccount,
    DeleteAccessKey,
    AddAccessKey,
}

/// Where resolving the chain stands: waiting for one answer of the
/// operator, or done.
#[derive(Debug)]
pub enum ResolveState {
    /// Add another action, or finish?
    AskNextAction,
    /// Which kind of action to add?
    AskActionKind,
    /// How is the key of the add-key action given?
    AskPublicKeyMode,
    /// The key to delete, as text.
    AskDeleteKey { next_action: Option<CliNextAction> },
    /// The key to add, as text.
    AskAddKey { permission: AccessKeyPermission, next_action: Option<CliNextAction> },
    /// The chain is complete and ends as given.
    Done(ChainEnd),
    /// A builder could not produce its action.
    Failed(ActionError),
}

/// Gathers the chain of actions, from pre-supplied configuration where it
/// was given and from the operator's answers where it was not.
#[derive(Debug)]
pub struct ChainResolver {
    /// The actions resolved so far, in order.
    pub actions: Vec<Action>,
    pub state: ResolveState,
}

/// Starting from the actions `before`, the configuration `next` resolves
/// to the actions `after` and stops in `state`: every builder it names
/// appends its action in turn, until a field is missing (the state asks
/// for it), the chain ends, or a key text is not a key.
pub open spec fn resolves(
    before: Seq<Action>,
    next: Option<CliNextAction>,
    after: Seq<Action>,
    state: ResolveState,
) -> bool
    decreases next,
{
    match next {
        None => after == before && state is AskNextAction,
        Some(CliNextAction::Skip) => after == before && state == ResolveState::Done(
            ChainEnd::Finalize,
        ),
        Some(CliNextAction::AddAction(select)) => match *select {
            CliSelectAction::CreateAccount(c) => resolves(
                before.push(Action::CreateAccount),
                c.next_action,
                after,
                state,
            ),
            CliSelectAction::DeleteAccessKey(d) => match d.public_key {
                None => after == before && state == (ResolveState::AskDeleteKey {
                    next_action: d.next_action,
                }),
                Some(text) => if is_public_key_text(text@) {
                    exists|k: near_crypto::PublicKey|
                        resolves(
                            before.push(Action::DeleteKey { public_key: k }),
                            d.next_action,
                            after,
                            state,
                        )
                } else {
                    after == before && state is Failed
                },
            },
            CliSelectAction::AddAccessKey(mode) => match mode {
                CliPublicKeyMode::GenerateKeypair => after == before && state == ResolveState::Done(
                    ChainEnd::KeyPairUnavailable,
                ),
                CliPublicKeyMode::PublicKey(a) => match a.public_key {
                    None => after == before && state == (ResolveState::AskAddKey {
                        permission: a.permission,
                        next_action: a.next_action,
                    }),
                    Some(text) => if is_public_key_text(text@) {
                        exists|k: near_crypto::PublicKey|
                            resolves(
                                before.push(
                                    Action::AddKey { public_key: k, permission: a.permission },
                                ),
                                a.next_action,
                                after,
                                state,
                            )
                    } else {
                        after == before && state is Failed
                    },
                },
            },
        },
    }
}

/// How many builders `next` names one after the other.
pub open spec fn config_depth(next: Option<CliNextAction>) -> nat
    decreases next,
{
    match next {
        Some(CliNextAction::AddAction(select)) => 1 + match *select {
            CliSelectAction::CreateAccount(c) => config_depth(c.next_action),
            CliSelectAction::DeleteAccessKey(d) => config_depth(d.next_action),
            CliSelectAction::AddAccessKey(mode) => match mode {
                CliPublicKeyMode::PublicKey(a) => config_depth(a.next_action),
                CliPublicKeyMode::GenerateKeypair => 0,
            },
        },
        _ => 0,
    }
}

/// Appends to `actions` what the configuration `next` resolves to, and
/// returns the state it stops in.
fn follow(actions: &mut Vec<Action>, next: Option<CliNextAction>) -> (r: ResolveState)
    ensures
        resolves(old(actions)@, next, final(actions)@, r),
{
    let ghost start = old(actions)@;
    let ghost start_next = next;
    let mut cur = next;
    loop
        invariant
            start == old(actions)@,
            start_next == next,
            forall|after: Seq<Action>, state: ResolveState|
                #[trigger] resolves(actions@, cur, after, state) ==> resolves(
                    start,
                    start_next,
                    after,
                    state,
                ),
        decreases config_depth(cur),
    {
        let ghost here = actions@;
        let ghost cur_before = cur;
        match cur {
            None => {
                let r = ResolveState::AskNextAction;
                assert(resolves(actions@, cur_before, actions@, r));
                return r;
            },
            Some(CliNextAction::Skip) => {
                let r = ResolveState::Done(ChainEnd::Finalize);
                assert(resolves(actions@, cur_before, actions@, r));
                return r;
            },
            Some(CliNextAction::AddAction(select)) => match *select {
                CliSelectAction::CreateAccount(c) => {
                    actions.push(Action::CreateAccount);
                    cur = c.next_action;
                    assert forall|after: Seq<Action>, state: ResolveState|
                        #[trigger] resolves(actions@, cur, after, state) implies resolves(
                            start,
                            start_next,
                            after,
                            state,
                        ) by {
                        assert(resolves(here, cur_before, after, state));
                    }
                },
                CliSelectAction::DeleteAccessKey(d) => match d.public_key {
                    None => {
                        let r = ResolveState::AskDeleteKey { next_action: d.next_action };
                        assert(resolves(actions@, cur_before, actions@, r));
                        return r;
                    },
                    Some(text) => match parse_public_key(text.as_str()) {
                        Ok(k) => {
                            actions.push(Action::DeleteKey { public_key: k });
                            cur = d.next_action;
                            assert forall|after: Seq<Action>, state: ResolveState|
                                #[trigger] resolves(actions@, cur, after, state) implies resolves(
                                    start,
                                    start_next,
                                    after,
                                    state,
                                ) by {
                                assert(resolves(here, cur_before, after, state));
                            }
                        },
                        Err(e) => {
                            let r = ResolveState::Failed(e);
                            assert(resolves(actions@, cur_before, actions@, r));
                            return r;
                        },
                    },
                },
                CliSelectAction::AddAccessKey(mode) => match mode {
                    CliPublicKeyMode::GenerateKeypair => {
                        let r = ResolveState::Done(ChainEnd::KeyPairUnavailable);
                        assert(resolves(actions@, cur_before, actions@, r));
                        return r;
                    },
                    CliPublicKeyMode::PublicKey(a) => match a.public_key {
                        None => {
                            let r = ResolveState::AskAddKey {
                                permission: a.permission,
                                next_action: a.next_action,
                            };
                            assert(resolves(actions@, cur_before, actions@, r));
                            return r;
                        },
                        Some(text) => match parse_public_key(text.as_str()) {
                            Ok(k) => {
                                actions.push(
                                    Action::AddKey { public_key: k, permission: a.permission },
                                );
                                cur = a.next_action;
                                assert forall|after: Seq<Action>, state: ResolveState|
                                    #[trigger] resolves(actions@, cur, after, state) implies resolves(
                                        start,
                                        start_next,
                                        after,
                                        state,
                                    ) by {
                                    assert(resolves(here, cur_before, after, state));
                                }
                            },
                            Err(e) => {
                                let r = ResolveState::Failed(e);
                                assert(resolves(actions@, cur_before, actions@, r));
                                return r;
                            },
                        },
                    },
                },
            },
        }
    }
}

impl ActionKind {
    /// The kind at `selected` in the menu of action kinds.
    pub fn from_index(selected: usize) -> (r: ActionKind)
        requires
            selected < 3,
        ensures
            selected == 0 ==> r == ActionKind::CreateAccount,
            selected == 1 ==> r == ActionKind::DeleteAccessKey,
            selected == 2 ==> r == ActionKind::AddAccessKey,
    {
        if selected == 0 {
            ActionKind::CreateAccount
        } else if selected == 1 {
            ActionKind::DeleteAccessKey
        } else {
            ActionKind::AddAccessKey
        }
    }
}

impl PublicKeyMode {
    /// The labels of the permission-mode menu, in selection order; the
    /// first is selected by default.
    pub fn labels() -> (r: Vec<&'static str>)
        ensures
            r@.len() == 2,
            r@[0]@ == "Enter public key"@,
            r@[1]@ == "Generate key pair"@,
    {
        vec!["Enter public key", "Generate key pair"]
    }

    /// The configuration of the mode at `selected` in the menu: an add-key
    /// builder that was given nothing yet, or key-pair generation.
    pub fn choose_public_key_mode(selected: usize) -> (r: CliPublicKeyMode)
        requires
            selected < 2,
        ensures
            selected == 0 ==> r == CliPublicKeyMode::PublicKey(
                CliAddAccessKeyAction {
                    public_key: None,
                    permission: AccessKeyPermission::FullAccess,
                    next_action: None,
                },
            ),
            selected == 1 ==> r is GenerateKeypair,
    {
        if selected == 0 {
            CliPublicKeyMode::PublicKey(
                CliAddAccessKeyAction {
                    public_key: None,
                    permission: AccessKeyPermission::FullAccess,
                    next_action: None,
                },
            )
        } else {
            CliPublicKeyMode::GenerateKeypair
        }
    }
}

impl ChainResolver {
    /// Starts with the builder `first` and follows the configuration given
    /// with it.
    pub fn new(first: CliSelectAction) -> (r: ChainResolver)
        ensures
            resolves(
                Seq::empty(),
                Some(CliNextAction::AddAction(Box::new(first))),
                r.actions@,
                r.state,
            ),
    {
        let mut actions: Vec<Action> = Vec::new();
        let state = follow(&mut actions, Some(CliNextAction::AddAction(Box::new(first))));
        ChainResolver { actions, state }
    }

    /// Starts with nothing given: the operator is asked which action to add.
    pub fn interactive() -> (r: ChainResolver)
        ensures
            r.actions@ == Seq::<Action>::empty(),
            r.state is AskActionKind,
    {
        ChainResolver { actions: Vec::new(), state: ResolveState::AskActionKind }
    }

    /// The operator's choice between adding another action and finishing.
    pub fn answer_next_action(self, add_another: bool) -> (r: ChainResolver)
        requires
            self.state is AskNextAction,
        ensures
            r.actions@ == self.actions@,
            add_another ==> r.state is AskActionKind,
            !add_another ==> r.state == ResolveState::Done(ChainEnd::Finalize),
    {
        let state = if add_another {
            ResolveState::AskActionKind
        } else {
            ResolveState::Done(ChainEnd::Finalize)
        };
        ChainResolver { actions: self.actions, state }
    }

    /// The operator's choice of the kind of action to add; the builder
    /// then runs with nothing given.
    pub fn answer_action_kind(self, kind: ActionKind) -> (r: ChainResolver)
        requires
            self.state is AskActionKind,
        ensures
            kind == ActionKind::CreateAccount ==> r.actions@ == self.actions@.push(
                Action::CreateAccount,
            ) && r.state is AskNextAction,
            kind == ActionKind::DeleteAccessKey ==> r.actions@ == self.actions@ && r.state == (
            ResolveState::AskDeleteKey { next_action: None }),
            kind == ActionKind::AddAccessKey ==> r.actions@ == self.actions@
                && r.state is AskPublicKeyMode,
    {
        let mut actions = self.actions;
        let state = match kind {
            ActionKind::CreateAccount => {
                actions.push(Action::CreateAccount);
                ResolveState::AskNextAction
            },
            ActionKind::DeleteAccessKey => ResolveState::AskDeleteKey { next_action: None },
            ActionKind::AddAccessKey => ResolveState::AskPublicKeyMode,
        };
        ChainResolver { actions, state }
    }

    /// The operator's choice at `selected` in the permission-mode menu.
    pub fn answer_public_key_mode(self, selected: usize) -> (r: ChainResolver)
        requires
            self.state is AskPublicKeyMode,
            selected < 2,
        ensures
            r.actions@ == self.actions@,
            selected == 0 ==> r.state == (ResolveState::AskAddKey {
                permission: AccessKeyPermission::FullAccess,
                next_action: None,
            }),
            selected == 1 ==> r.state == ResolveState::Done(ChainEnd::KeyPairUnavailable),
    {
        let mode = PublicKeyMode::choose_public_key_mode(selected);
        let mut actions = self.actions;
        let state = follow(
            &mut actions,
            Some(CliNextAction::AddAction(Box::new(CliSelectAction::AddAccessKey(mode)))),
        );
        ChainResolver { actions, state }
    }

    /// The key text the operator entered for the delete-key or add-key
    /// builder that asked for it. A text that is not a key fails the chain
    /// and appends nothing; a key is appended with its action, and the
    /// configuration given after that builder is followed.
    pub fn answer_public_key(self, text: &str) -> (r: ChainResolver)
        requires
            self.state is AskDeleteKey || self.state is AskAddKey,
        ensures
            !is_public_key_text(text@) ==> r.actions@ == self.actions@ && r.state is Failed,
            is_public_key_text(text@) ==> (self.state matches ResolveState::AskDeleteKey {
                next_action,
            } ==> exists|k: near_crypto::PublicKey|
                resolves(
                    self.actions@.push(Action::DeleteKey { public_key: k }),
                    next_action,
                    r.actions@,
                    r.state,
                )),
            is_public_key_text(text@) ==> (self.state matches ResolveState::AskAddKey {
                permission,
                next_action,
            } ==> exists|k: near_crypto::PublicKey|
                resolves(
                    self.actions@.push(Action::AddKey { public_key: k, permission }),
                    next_action,
                    r.actions@,
                    r.state,
                )),
    {
        let mut actions = self.actions;
        match self.state {
            ResolveState::AskDeleteKey { next_action } => match parse_public_key(text) {
                Ok(k) => {
                    actions.push(Action::DeleteKey { public_key: k });
                    let state = follow(&mut actions, next_action);
                    ChainResolver { actions, state }
                },
                Err(e) => ChainResolver { actions, state: ResolveState::Failed(e) },
            },
            ResolveState::AskAddKey { permission, next_action } => match parse_public_key(text) {
                Ok(k) => {
                    actions.push(Action::AddKey { public_key: k, permission });
                    let state = follow(&mut actions, next_action);
                    ChainResolver { actions, state }
                },
                Err(e) => ChainResolver { actions, state: ResolveState::Failed(e) },
            },
            _ => vstd::pervasive::unreached(),
        }
    }

    /// The chain of builders resolved, once nothing is left to ask; the
    /// error that failed it, if one did.
    pub fn into_chain(self) -> (r: Result<NextAction, ActionError>)
        requires
            self.state is Done || self.state is Failed,
        ensures
            self.state matches ResolveState::Done(end) ==> r == Ok::<NextAction, ActionError>(
                chain_of(self.actions@, end),
            ),
            self.state is Failed ==> r is Err,
    {
        match self.state {
            ResolveState::Done(end) => Ok(NextAction::from_actions(self.actions, end)),
            ResolveState::Failed(e) => Err(e),
            _ => vstd::pervasive::unreached(),
        }
    }
}

} // verus!
