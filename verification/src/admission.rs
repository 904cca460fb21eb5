use vstd::prelude::*;
use crate::account::AccountView;
use crate::clock::now_millis;
use crate::envelope::{build_envelope, envelope_for};
use crate::errors::RelayError;
use crate::queue::{DispatchQueue, Enqueued};
use crate::store::{
    counter_of, has_token, token_index, tokens_unique, touch_step, touched, AccountStore,
};
use crate::validate::{form_ok, message_violations, validate_message, MessageForm};

verus! {

/// Outcome of a successful admission: the envelope was enqueued, or the
/// queue stood at capacity and the envelope comes back so the caller can
/// wait for a slot and try again. Either way the usage accounting is
/// already done and the sender is owed nothing further.
pub enum Submitted {
    Enqueued,
    Deferred(crate::envelope::Envelope),
}

/// Admit one message at a given time.
///
/// A submission that fails validation is refused with its exact field
/// errors; neither storage nor queue is touched. A token that resolves
/// to no account is refused as not found — the sender learns nothing
/// about the addresses behind tokens — again with nothing touched. A
/// saturated usage counter is a storage fault, with nothing touched.
/// Otherwise the resolved account's counter grows by exactly one, its
/// last-action time becomes `now`, and the envelope — addressed to the
/// account's protected email, never the sender's — joins the back of
/// the queue, or comes back intact when the queue is full.
pub fn submit_message_at(
    store: &mut AccountStore,
    queue: &mut DispatchQueue,
    form: &MessageForm,
    from: &String,
    now: i64,
) -> (r: Result<Submitted, RelayError>)
    requires
        old(store).wf(),
    ensures
        final(store).wf(),
        final(queue).cap() == old(queue).cap(),
        !form_ok(form@) ==> (r matches Err(RelayError::Validation(v)) && v@ == message_violations(
            form@,
        ) && final(store)@ == old(store)@ && final(queue)@ == old(queue)@),
        form_ok(form@) && !has_token(old(store)@, form@.token) ==> (r matches Err(
            RelayError::NotFound,
        ) && final(store)@ == old(store)@ && final(queue)@ == old(queue)@),
        form_ok(form@) && has_token(old(store)@, form@.token) && old(store)@[token_index(
            old(store)@,
            form@.token,
        )].counter >= u32::MAX ==> (r matches Err(RelayError::Storage) && final(store)@ == old(
            store,
        )@ && final(queue)@ == old(queue)@),
        form_ok(form@) && has_token(old(store)@, form@.token) && old(store)@[token_index(
            old(store)@,
            form@.token,
        )].counter < u32::MAX ==> ({
            let acct = old(store)@[token_index(old(store)@, form@.token)];
            let env = envelope_for(form@, from@, acct.email);
            &&& touch_step(old(store)@, final(store)@, form@.token, now)
            &&& old(queue)@.len() < old(queue).cap() ==> (r matches Ok(s) && s is Enqueued
                && final(queue)@ == old(queue)@.push(env))
            &&& old(queue)@.len() >= old(queue).cap() ==> (r matches Ok(s) && (s matches
            Submitted::Deferred(e) && e@ == env) && final(queue)@ == old(queue)@)
        }),
{
    if let Err(e) = validate_message(form) {
        return Err(e);
    }
    match store.touch(&form.token, now) {
        Err(e) => Err(e),
        Ok(account) => {
            let env = build_envelope(form, from, &account.email);
            match queue.enqueue(env) {
                Enqueued::Accepted => Ok(Submitted::Enqueued),
                Enqueued::Full(e) => Ok(Submitted::Deferred(e)),
            }
        },
    }
}

/// `submit_message_at` with the acceptance time read from the clock.
pub fn submit_message(
    store: &mut AccountStore,
    queue: &mut DispatchQueue,
    form: &MessageForm,
    from: &String,
) -> (r: Result<Submitted, RelayError>)
    requires
        old(store).wf(),
    ensures
        final(store).wf(),
        final(queue).cap() == old(queue).cap(),
        !form_ok(form@) ==> (r matches Err(RelayError::Validation(v)) && v@ == message_violations(
            form@,
        ) && final(store)@ == old(store)@ && final(queue)@ == old(queue)@),
        form_ok(form@) && !has_token(old(store)@, form@.token) ==> (r matches Err(
            RelayError::NotFound,
        ) && final(store)@ == old(store)@ && final(queue)@ == old(queue)@),
        form_ok(form@) && has_token(old(store)@, form@.token) && old(store)@[token_index(
            old(store)@,
            form@.token,
        )].counter >= u32::MAX ==> (r matches Err(RelayError::Storage) && final(store)@ == old(
            store,
        )@ && final(queue)@ == old(queue)@),
        form_ok(form@) && has_token(old(store)@, form@.token) && old(store)@[token_index(
            old(store)@,
            form@.token,
        )].counter < u32::MAX ==> ({
            let acct = old(store)@[token_index(old(store)@, form@.token)];
            let env = envelope_for(form@, from@, acct.email);
            &&& exists|t: i64| touch_step(old(store)@, final(store)@, form@.token, t)
            &&& old(queue)@.len() < old(queue).cap() ==> (r matches Ok(s) && s is Enqueued
                && final(queue)@ == old(queue)@.push(env))
            &&& old(queue)@.len() >= old(queue).cap() ==> (r matches Ok(s) && (s matches
            Submitted::Deferred(e) && e@ == env) && final(queue)@ == old(queue)@)
        }),
{
    let now = now_millis();
    let r = submit_message_at(store, queue, form, from, now);
    proof {
        if form_ok(form@) && has_token(old(store)@, form@.token) && old(store)@[token_index(
            old(store)@,
            form@.token,
        )].counter < u32::MAX {
            assert(touch_step(old(store)@, final(store)@, form@.token, now));
        }
    }
    r
}

/// Law (counter monotonicity, one step): one successful admission to a
/// token raises that token's counter by exactly one, and keeps the
/// store's tokens unique and the token present.
pub proof fn lemma_touch_step_increments(
    pre: Seq<AccountView>,
    post: Seq<AccountView>,
    token: Seq<char>,
    now: i64,
)
    requires
        tokens_unique(pre),
        touch_step(pre, post, token, now),
    ensures
        tokens_unique(post),
        has_token(post, token),
        counter_of(post, token) == counter_of(pre, token) + 1,
{
    let ti = token_index(pre, token);
    assert(0 <= ti < pre.len() && pre[ti].token == token);
    assert(post == pre.update(ti, touched(pre[ti], now)));
    assert(post[ti].token == token);
    assert forall|i: int, j: int|
        0 <= i < post.len() && 0 <= j < post.len() && i != j implies post[i].token
        != post[j].token by {
        assert(post[i].token == pre[i].token);
        assert(post[j].token == pre[j].token);
        assert(pre[i].token != pre[j].token);
    }
    crate::store::lemma_token_index_of(post, token, ti);
}

/// Law (counter monotonicity): after N successful admissions to a
/// token — and nothing else touching the store — the token's counter
/// stands exactly N above where it started. No update is lost.
pub proof fn lemma_counter_monotonic(
    chain: Seq<Seq<AccountView>>,
    token: Seq<char>,
    times: Seq<i64>,
)
    requires
        chain.len() >= 1,
        times.len() == chain.len() - 1,
        tokens_unique(chain[0]),
        forall|i: int|
            0 <= i < times.len() ==> touch_step(chain[i], chain[i + 1], token, times[i]),
    ensures
        tokens_unique(chain.last()),
        counter_of(chain.last(), token) == counter_of(chain[0], token) + times.len(),
    decreases chain.len(),
{
    if chain.len() == 1 {
    } else {
        lemma_touch_step_increments(chain[0], chain[1], token, times[0]);
        let rest = chain.drop_first();
        let rest_times = times.drop_first();
        assert forall|i: int|
            0 <= i < rest_times.len() implies touch_step(
            rest[i],
            rest[i + 1],
            token,
            rest_times[i],
        ) by {
            assert(rest[i] == chain[i + 1]);
            assert(rest[i + 1] == chain[i + 2]);
            assert(rest_times[i] == times[i + 1]);
            assert(touch_step(chain[i + 1], chain[i + 2], token, times[i + 1]));
        }
        lemma_counter_monotonic(rest, token, rest_times);
        assert(rest.last() == chain.last());
        assert(rest[0] == chain[1]);
    }
}

} // verus!
