use vstd::prelude::*;
use crate::account::{Account, AccountView};
use crate::errors::RelayError;

verus! {

/// No two accounts share an email address: account creation is keyed
/// by email and must never persist a duplicate.
pub open spec fn emails_unique(s: Seq<AccountView>) -> bool {
    forall|i: int, j: int|
        0 <= i < s.len() && 0 <= j < s.len() && i != j ==> s[i].email != s[j].email
}

/// No two accounts share a token: the token is the primary key.
pub open spec fn tokens_unique(s: Seq<AccountView>) -> bool {
    forall|i: int, j: int|
        0 <= i < s.len() && 0 <= j < s.len() && i != j ==> s[i].token != s[j].token
}

pub open spec fn has_email(s: Seq<AccountView>, email: Seq<char>) -> bool {
    exists|i: int| 0 <= i < s.len() && s[i].email == email
}

pub open spec fn email_index(s: Seq<AccountView>, email: Seq<char>) -> int {
    choose|i: int| 0 <= i < s.len() && s[i].email == email
}

pub open spec fn has_token(s: Seq<AccountView>, token: Seq<char>) -> bool {
    exists|i: int| 0 <= i < s.len() && s[i].token == token
}

pub open spec fn token_index(s: Seq<AccountView>, token: Seq<char>) -> int {
    choose|i: int| 0 <= i < s.len() && s[i].token == token
}

/// The effect of one accepted message on its account: the usage counter
/// grows by exactly one and the last-action time becomes the given time.
pub open spec fn touched(a: AccountView, now: i64) -> AccountView {
    AccountView { counter: a.counter + 1, last_action: now as int, ..a }
}

/// The usage counter recorded for a token, zero when the token is unknown.
pub open spec fn counter_of(s: Seq<AccountView>, token: Seq<char>) -> nat {
    if has_token(s, token) {
        s[token_index(s, token)].counter
    } else {
        0
    }
}

/// One successful usage update: the account resolved by the token has its
/// counter incremented by one and its last-action time set; nothing else
/// changes. This is the store-side transition of a successful admission.
pub open spec fn touch_step(
    pre: Seq<AccountView>,
    post: Seq<AccountView>,
    token: Seq<char>,
    now: i64,
) -> bool {
    &&& has_token(pre, token)
    &&& pre[token_index(pre, token)].counter < u32::MAX
    &&& post == pre.update(token_index(pre, token), touched(pre[token_index(pre, token)], now))
}

/// When emails are unique, any index holding the email is the index that
/// `email_index` denotes.
pub proof fn lemma_email_index_of(s: Seq<AccountView>, email: Seq<char>, i: int)
    requires
        emails_unique(s),
        0 <= i < s.len(),
        s[i].email == email,
    ensures
        has_email(s, email),
        email_index(s, email) == i,
{
    assert(has_email(s, email));
    let j = email_index(s, email);
    assert(0 <= j < s.len() && s[j].email == email);
}

/// When tokens are unique, any index holding the token is the index that
/// `token_index` denotes.
pub proof fn lemma_token_index_of(s: Seq<AccountView>, token: Seq<char>, i: int)
    requires
        tokens_unique(s),
        0 <= i < s.len(),
        s[i].token == token,
    ensures
        has_token(s, token),
        token_index(s, token) == i,
{
    assert(has_token(s, token));
    let j = token_index(s, token);
    assert(0 <= j < s.len() && s[j].token == token);
}

/// The Account Store: the persistent mapping from token to account.
/// Both lookups of the relay run against it: by email when issuing or
/// deleting, by token when admitting a message.
pub struct AccountStore {
    accounts: Vec<Account>,
}

impl View for AccountStore {
    type V = Seq<AccountView>;

    closed spec fn view(&self) -> Seq<AccountView> {
        self.accounts@.map_values(|a: Account| a@)
    }
}

impl AccountStore {
    /// Well-formedness: one account per email, one account per token.
    pub open spec fn wf(&self) -> bool {
        emails_unique(self@) && tokens_unique(self@)
    }

    pub fn new() -> (r: AccountStore)
        ensures
            r@ == Seq::<AccountView>::empty(),
            r.wf(),
    {
        let r = AccountStore { accounts: Vec::new() };
        proof {
            assert(r@ =~= Seq::<AccountView>::empty());
        }
        r
    }

    fn index_of_email(&self, email: &String) -> (r: Option<usize>)
        ensures
            r matches Some(i) ==> i < self@.len() && self@[i as int].email == email@,
            r is None ==> !has_email(self@, email@),
    {
        let n = self.accounts.len();
        let mut i: usize = 0;
        while i < n
            invariant
                n == self.accounts@.len(),
                self@.len() == n,
                i <= n,
                forall|j: int| 0 <= j < i ==> self@[j].email != email@,
            decreases n - i,
        {
            if self.accounts[i].email == *email {
                return Some(i);
            }
            i += 1;
        }
        None
    }

    fn index_of_token(&self, token: &String) -> (r: Option<usize>)
        ensures
            r matches Some(i) ==> i < self@.len() && self@[i as int].token == token@,
            r is None ==> !has_token(self@, token@),
    {
        let n = self.accounts.len();
        let mut i: usize = 0;
        while i < n
            invariant
                n == self.accounts@.len(),
                self@.len() == n,
                i <= n,
                forall|j: int| 0 <= j < i ==> self@[j].token != token@,
            decreases n - i,
        {
            if self.accounts[i].token == *token {
                return Some(i);
            }
            i += 1;
        }
        None
    }

    /// Look an account up by its protected email address, as the token
    /// issuer does before creating or deleting.
    pub fn find_by_email(&self, email: &String) -> (r: Option<Account>)
        requires
            self.wf(),
        ensures
            r is Some <==> has_email(self@, email@),
            r matches Some(a) ==> a@ == self@[email_index(self@, email@)],
    {
        match self.index_of_email(email) {
            Some(i) => {
                proof {
                    lemma_email_index_of(self@, email@, i as int);
                }
                Some(self.accounts[i].duplicate())
            },
            None => None,
        }
    }

    /// Persist a brand-new account. The caller has already ruled the email
    /// out of the store; the token is the primary key, so a colliding token
    /// is refused as a storage fault and nothing changes.
    pub fn insert_new(&mut self, account: Account) -> (r: Result<(), RelayError>)
        requires
            old(self).wf(),
            !has_email(old(self)@, account@.email),
        ensures
            final(self).wf(),
            r is Ok <==> !has_token(old(self)@, account@.token),
            r is Ok ==> final(self)@ == old(self)@.push(account@),
            r is Err ==> final(self)@ == old(self)@ && r matches Err(RelayError::Storage),
    {
        let ghost pre = self@;
        let ghost av = account@;
        match self.index_of_token(&account.token) {
            Some(i) => {
                proof {
                    assert(has_token(pre, av.token));
                }
                Err(RelayError::Storage)
            },
            None => {
                self.accounts.push(account);
                proof {
                    assert(self@ =~= pre.push(av));
                    assert forall|i: int, j: int|
                        0 <= i < self@.len() && 0 <= j < self@.len() && i != j
                        implies self@[i].email != self@[j].email && self@[i].token
                        != self@[j].token by {
                        if i < pre.len() && j < pre.len() {
                            assert(pre[i].email != pre[j].email);
                            assert(pre[i].token != pre[j].token);
                        }
                    }
                }
                Ok(())
            },
        }
    }

    /// Remove the account whose email matches exactly; report whether one
    /// was removed. Nothing else is touched (deletion is exact).
    pub fn remove_by_email(&mut self, email: &String) -> (r: bool)
        requires
            old(self).wf(),
        ensures
            final(self).wf(),
            r <==> has_email(old(self)@, email@),
            r ==> final(self)@ == old(self)@.remove(email_index(old(self)@, email@)),
            !r ==> final(self)@ == old(self)@,
    {
        let ghost pre = self@;
        match self.index_of_email(email) {
            Some(i) => {
                proof {
                    lemma_email_index_of(pre, email@, i as int);
                }
                self.accounts.remove(i);
                proof {
                    pre.remove_ensures(i as int);
                    assert(self@ =~= pre.remove(i as int));
                    assert forall|x: int, y: int|
                        0 <= x < self@.len() && 0 <= y < self@.len() && x != y
                        implies self@[x].email != self@[y].email && self@[x].token
                        != self@[y].token by {
                        let px: int = if x < i { x } else { x + 1 };
                        let py: int = if y < i { y } else { y + 1 };
                        assert(self@[x] == pre[px]);
                        assert(self@[y] == pre[py]);
                        assert(pre[px].email != pre[py].email);
                        assert(pre[px].token != pre[py].token);
                    }
                }
                true
            },
            None => false,
        }
    }

    /// The atomic usage update of a successful admission: resolve the
    /// token, increment the counter and set the last-action time in one
    /// step, and hand back the updated record. An unknown token changes
    /// nothing; a saturated counter is a storage fault and changes nothing.
    pub fn touch(&mut self, token: &String, now: i64) -> (r: Result<Account, RelayError>)
        requires
            old(self).wf(),
        ensures
            final(self).wf(),
            !has_token(old(self)@, token@) ==> (r matches Err(RelayError::NotFound)
                && final(self)@ == old(self)@),
            has_token(old(self)@, token@) && old(self)@[token_index(old(self)@, token@)].counter
                >= u32::MAX ==> (r matches Err(RelayError::Storage) && final(self)@ == old(self)@),
            has_token(old(self)@, token@) && old(self)@[token_index(old(self)@, token@)].counter
                < u32::MAX ==> touch_step(old(self)@, final(self)@, token@, now) && (r matches Ok(a)
                && a@ == touched(old(self)@[token_index(old(self)@, token@)], now)),
    {
        let ghost pre = self@;
        match self.index_of_token(token) {
            None => Err(RelayError::NotFound),
            Some(i) => {
                proof {
                    lemma_token_index_of(pre, token@, i as int);
                }
                if self.accounts[i].counter == u32::MAX {
                    Err(RelayError::Storage)
                } else {
                    let mut a = self.accounts[i].duplicate();
                    a.counter = a.counter + 1;
                    a.last_action = now;
                    let snapshot = a.duplicate();
                    let ghost av = a@;
                    self.accounts[i] = a;
                    proof {
                        assert(self@ =~= pre.update(i as int, av));
                        assert(av == touched(pre[i as int], now));
                        assert forall|x: int, y: int|
                            0 <= x < self@.len() && 0 <= y < self@.len() && x != y
                            implies self@[x].email != self@[y].email && self@[x].token
                            != self@[y].token by {
                            assert(pre[x].email != pre[y].email);
                            assert(pre[x].token != pre[y].token);
                        }
                    }
                    Ok(snapshot)
                }
            },
        }
    }

    /// Assemble a store from pre-existing account records, refusing any
    /// collection that breaks one-account-per-email or one-account-per-token.
    pub fn from_accounts(accounts: Vec<Account>) -> (r: Option<AccountStore>)
        ensures
            r matches Some(s) ==> s@ == accounts@.map_values(|a: Account| a@) && s.wf(),
            r is None ==> !(emails_unique(accounts@.map_values(|a: Account| a@))
                && tokens_unique(accounts@.map_values(|a: Account| a@))),
    {
        let ghost vm = accounts@.map_values(|a: Account| a@);
        let n = accounts.len();
        let mut i: usize = 0;
        while i < n
            invariant
                n == accounts@.len(),
                vm == accounts@.map_values(|a: Account| a@),
                vm.len() == n,
                i <= n,
                forall|x: int, y: int|
                    0 <= x < i && x < y < n ==> vm[x].email != vm[y].email && vm[x].token
                        != vm[y].token,
            decreases n - i,
        {
            let mut j: usize = i + 1;
            while j < n
                invariant
                    n == accounts@.len(),
                    vm == accounts@.map_values(|a: Account| a@),
                    vm.len() == n,
                    i < j <= n,
                    forall|y: int|
                        i < y < j ==> vm[i as int].email != vm[y].email && vm[i as int].token
                            != vm[y].token,
                decreases n - j,
            {
                if accounts[i].email == accounts[j].email || accounts[i].token
                    == accounts[j].token {
                    proof {
                        assert(vm[i as int] == accounts@[i as int]@);
                        assert(vm[j as int] == accounts@[j as int]@);
                        if vm[i as int].email == vm[j as int].email {
                            assert(!emails_unique(vm));
                        } else {
                            assert(vm[i as int].token == vm[j as int].token);
                            assert(!tokens_unique(vm));
                        }
                    }
                    return None;
                }
                j += 1;
            }
            i += 1;
        }
        proof {
            assert forall|x: int, y: int|
                0 <= x < vm.len() && 0 <= y < vm.len() && x != y implies vm[x].email
                != vm[y].email && vm[x].token != vm[y].token by {
                if x < y {
                    assert(vm[x].email != vm[y].email && vm[x].token != vm[y].token);
                } else {
                    assert(vm[y].email != vm[x].email && vm[y].token != vm[x].token);
                }
            }
        }
        Some(AccountStore { accounts })
    }

    /// How many accounts the store holds.
    pub fn len(&self) -> (r: usize)
        ensures
            r == self@.len(),
    {
        self.accounts.len()
    }
}

} // verus!
