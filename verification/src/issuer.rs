use vstd::prelude::*;
use crate::account::{Account, AccountView};
use crate::clock::now_millis;
use crate::errors::{FieldError, RelayError};
use crate::store::{
    email_index, emails_unique, has_email, has_token, AccountStore,
};
use crate::validate::{email_ok, email_valid};

verus! {

/// Number of characters in every issued token.
pub const TOKEN_LEN: usize = 21;

/// Relies on nanoid's `format` with its URL-safe 64-symbol alphabet and
/// default random source: a high-entropy identifier of exactly 21
/// characters. The value is random, so nothing else is promised; the
/// store's primary key refuses the (practically impossible) collision.
#[verifier::external_body]
fn fresh_token() -> (r: String)
    ensures
        r@.len() == TOKEN_LEN,
{
    nanoid::format(nanoid::rngs::default, &nanoid::alphabet::SAFE, TOKEN_LEN)
}

/// Create an account for an email address, or return the existing one.
///
/// An invalid email is refused and nothing changes. An email that
/// already owns an account gets that account back, unchanged: issuance
/// is idempotent. Otherwise a fresh 21-character token is bound to the
/// email with an untouched counter and the given creation time; should
/// the fresh token collide with an existing one, the store's primary
/// key refuses it as a storage fault and nothing changes.
pub fn create_account_at(store: &mut AccountStore, email: &String, now: i64) -> (r: Result<
    Account,
    RelayError,
>)
    requires
        old(store).wf(),
    ensures
        final(store).wf(),
        !email_ok(email@) ==> (r matches Err(RelayError::Validation(v)) && v@ == seq![
            FieldError::Email,
        ] && final(store)@ == old(store)@),
        email_ok(email@) && has_email(old(store)@, email@) ==> (r matches Ok(a) && a@ == old(
            store,
        )@[email_index(old(store)@, email@)] && final(store)@ == old(store)@),
        email_ok(email@) && !has_email(old(store)@, email@) ==> ((r matches Ok(a) && a@.email
            == email@ && a@.counter == 0 && a@.last_action == now as int && a@.token.len()
            == TOKEN_LEN && !has_token(old(store)@, a@.token) && final(store)@ == old(
            store,
        )@.push(a@)) || (r matches Err(RelayError::Storage) && final(store)@ == old(store)@)),
{
    if !email_valid(email) {
        let mut v: Vec<FieldError> = Vec::new();
        v.push(FieldError::Email);
        proof {
            assert(v@ =~= seq![FieldError::Email]);
        }
        return Err(RelayError::Validation(v));
    }
    match store.find_by_email(email) {
        Some(a) => Ok(a),
        None => {
            let token = fresh_token();
            let account = Account::new(token, email.clone(), now);
            let snapshot = account.duplicate();
            match store.insert_new(account) {
                Ok(()) => Ok(snapshot),
                Err(e) => Err(e),
            }
        },
    }
}

/// `create_account_at` with the creation time read from the clock.
pub fn create_account(store: &mut AccountStore, email: &String) -> (r: Result<
    Account,
    RelayError,
>)
    requires
        old(store).wf(),
    ensures
        final(store).wf(),
        !email_ok(email@) ==> (r matches Err(RelayError::Validation(v)) && v@ == seq![
            FieldError::Email,
        ] && final(store)@ == old(store)@),
        email_ok(email@) && has_email(old(store)@, email@) ==> (r matches Ok(a) && a@ == old(
            store,
        )@[email_index(old(store)@, email@)] && final(store)@ == old(store)@),
        email_ok(email@) && !has_email(old(store)@, email@) ==> ((r matches Ok(a) && a@.email
            == email@ && a@.counter == 0 && a@.token.len() == TOKEN_LEN && !has_token(
            old(store)@,
            a@.token,
        ) && final(store)@ == old(store)@.push(a@)) || (r matches Err(RelayError::Storage)
            && final(store)@ == old(store)@)),
{
    let now = now_millis();
    create_account_at(store, email, now)
}

/// Delete the account whose email matches exactly.
///
/// An invalid email is refused. Exactly the matching account leaves the
/// store; a miss is reported as not found and leaves storage unchanged.
pub fn delete_account(store: &mut AccountStore, email: &String) -> (r: Result<(), RelayError>)
    requires
        old(store).wf(),
    ensures
        final(store).wf(),
        !email_ok(email@) ==> (r matches Err(RelayError::Validation(v)) && v@ == seq![
            FieldError::Email,
        ] && final(store)@ == old(store)@),
        email_ok(email@) && has_email(old(store)@, email@) ==> (r is Ok && final(store)@ == old(
            store,
        )@.remove(email_index(old(store)@, email@))),
        email_ok(email@) && !has_email(old(store)@, email@) ==> (r matches Err(
            RelayError::NotFound,
        ) && final(store)@ == old(store)@),
{
    if !email_valid(email) {
        let mut v: Vec<FieldError> = Vec::new();
        v.push(FieldError::Email);
        proof {
            assert(v@ =~= seq![FieldError::Email]);
        }
        return Err(RelayError::Validation(v));
    }
    if store.remove_by_email(email) {
        Ok(())
    } else {
        Err(RelayError::NotFound)
    }
}

/// Law (idempotent issuance): once an account for an email stands in a
/// well-formed store, it is the one any later issuance for that email
/// returns — same token — and it is the only account for that email.
pub proof fn lemma_issuance_idempotent(s: Seq<AccountView>, a: AccountView)
    requires
        emails_unique(s),
        !has_email(s, a.email),
    ensures
        emails_unique(s.push(a)),
        has_email(s.push(a), a.email),
        s.push(a)[email_index(s.push(a), a.email)] == a,
        forall|i: int|
            0 <= i < s.push(a).len() && s.push(a)[i].email == a.email ==> i == s.len(),
{
    let t = s.push(a);
    assert(t[s.len() as int] == a);
    assert forall|i: int, j: int|
        0 <= i < t.len() && 0 <= j < t.len() && i != j implies t[i].email != t[j].email by {
        if i < s.len() && j < s.len() {
            assert(s[i].email != s[j].email);
        }
    }
    assert(has_email(t, a.email));
    crate::store::lemma_email_index_of(t, a.email, s.len() as int);
}

/// Law (deletion is exact): removing the account for an email removes
/// that account alone — the email no longer resolves, every other
/// email resolves exactly as before, and the store shrinks by one.
pub proof fn lemma_deletion_exact(s: Seq<AccountView>, email: Seq<char>)
    requires
        emails_unique(s),
        has_email(s, email),
    ensures
        ({
            let t = s.remove(email_index(s, email));
            &&& t.len() == s.len() - 1
            &&& !has_email(t, email)
            &&& forall|e: Seq<char>|
                e != email ==> (has_email(t, e) <==> has_email(s, e))
        }),
{
    let i = email_index(s, email);
    assert(0 <= i < s.len() && s[i].email == email);
    let t = s.remove(i);
    s.remove_ensures(i);
    assert forall|k: int| 0 <= k < t.len() implies t[k].email != email by {
        let p: int = if k < i {
            k
        } else {
            k + 1
        };
        assert(t[k] == s[p]);
        assert(s[p].email != s[i].email);
    }
    assert forall|e: Seq<char>| e != email && has_email(s, e) implies has_email(t, e) by {
        let k = choose|k: int| 0 <= k < s.len() && s[k].email == e;
        if k < i {
            assert(t[k] == s[k]);
        } else {
            assert(k != i);
            assert(t[k - 1] == s[k]);
        }
    }
    assert forall|e: Seq<char>| e != email && has_email(t, e) implies has_email(s, e) by {
        let k = choose|k: int| 0 <= k < t.len() && t[k].email == e;
        let p: int = if k < i {
            k
        } else {
            k + 1
        };
        assert(t[k] == s[p]);
    }
}

} // verus!
