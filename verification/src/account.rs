use vstd::prelude::*;

verus! {

/// Mathematical model of an account: the opaque token it is keyed by,
/// the protected email address it shields, how many messages have been
/// accepted for relay through it, and when the last one was accepted.
pub ghost struct AccountView {
    pub token: Seq<char>,
    pub email: Seq<char>,
    pub counter: nat,
    pub last_action: int,
}

/// An account binds an opaque token to a protected email address,
/// together with usage accounting. Knowledge of the token is the sole
/// credential for relaying messages to the address.
#[derive(Debug, PartialEq, Eq)]
pub struct Account {
    pub token: String,
    pub email: String,
    pub counter: u32,
    pub last_action: i64,
}

impl View for Account {
    type V = AccountView;

    open spec fn view(&self) -> AccountView {
        AccountView {
            token: self.token@,
            email: self.email@,
            counter: self.counter as nat,
            last_action: self.last_action as int,
        }
    }
}

impl Account {
    /// A fresh account starts with an untouched usage counter.
    pub fn new(token: String, email: String, now: i64) -> (r: Account)
        ensures
            r@ == (AccountView {
                token: token@,
                email: email@,
                counter: 0,
                last_action: now as int,
            }),
    {
        Account { token, email, counter: 0, last_action: now }
    }

    /// An owned copy of the account record.
    pub fn duplicate(&self) -> (r: Account)
        ensures
            r@ == self@,
    {
        Account {
            token: self.token.clone(),
            email: self.email.clone(),
            counter: self.counter,
            last_action: self.last_action,
        }
    }
}

} // verus!
