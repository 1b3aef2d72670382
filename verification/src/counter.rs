//! The campaign counter: how its key is derived, and a model of the store
//! that holds it.
//!
//! The store is shared by every worker, so the model is the sequential
//! history that a linearizable store stands for: one operation after another.

use vstd::prelude::*;
use vstd::string::StringExecFns;

verus! {

/// The key under which a campaign's count is kept.
pub open spec fn counter_key_spec(campaign_id: Seq<char>) -> Seq<char> {
    "campaign:"@ + campaign_id + ":count"@
}

/// Derives the counter key of a campaign.
pub fn counter_key(campaign_id: &str) -> (key: String)
    ensures
        key@ == counter_key_spec(campaign_id@),
{
    let mut key = "campaign:".to_owned();
    key.append(campaign_id);
    key.append(":count");
    key
}

/// Two campaigns never share a counter key.
pub proof fn lemma_counter_key_injective(a: Seq<char>, b: Seq<char>)
    requires
        counter_key_spec(a) == counter_key_spec(b),
    ensures
        a == b,
{
    reveal_strlit("campaign:");
    reveal_strlit(":count");
    let ka = counter_key_spec(a);
    let kb = counter_key_spec(b);
    assert(ka.len() == 9 + a.len() + 6);
    assert(kb.len() == 9 + b.len() + 6);
    assert(a.len() == b.len());
    assert forall|i: int| 0 <= i < a.len() implies a[i] == b[i] by {
        assert(ka[9 + i] == a[i]);
        assert(kb[9 + i] == b[i]);
    }
    assert(a =~= b);
}

/// The completion predicate: the count that an increment returned is the
/// campaign's declared total.
pub open spec fn is_complete(count: i64, expected_total: i32) -> bool {
    count == expected_total
}

/// The counter store as one sequential history: each key that was ever
/// incremented and not deleted since maps to its count.
pub ghost struct CounterStore {
    pub entries: Map<Seq<char>, i64>,
}

impl CounterStore {
    pub open spec fn empty() -> CounterStore {
        CounterStore { entries: Map::empty() }
    }

    /// The count under `key`, read without changing anything.
    pub open spec fn peek(self, key: Seq<char>) -> Option<i64> {
        if self.entries.contains_key(key) {
            Some(self.entries[key])
        } else {
            None
        }
    }

    /// The count that the next increment of `key` starts from: an absent key
    /// counts as zero.
    pub open spec fn current(self, key: Seq<char>) -> i64 {
        match self.peek(key) {
            Some(n) => n,
            None => 0,
        }
    }

    /// Adds `delta` to the count under `key`, creating it at zero first, and
    /// returns the new count. The store refuses, and stays as it is, when the
    /// sum leaves the 64-bit range.
    pub open spec fn increment_by(self, key: Seq<char>, delta: i64) -> (CounterStore, Option<i64>) {
        let sum = self.current(key) + delta;
        if i64::MIN <= sum <= i64::MAX {
            (CounterStore { entries: self.entries.insert(key, sum as i64) }, Some(sum as i64))
        } else {
            (self, None)
        }
    }

    /// Increments the count under `key` by one and returns the count after
    /// the increment.
    pub open spec fn increment(self, key: Seq<char>) -> (CounterStore, Option<i64>) {
        self.increment_by(key, 1)
    }

    /// Removes `key`; the flag tells whether it was there.
    pub open spec fn delete(self, key: Seq<char>) -> (CounterStore, bool) {
        (CounterStore { entries: self.entries.remove(key) }, self.entries.contains_key(key))
    }

    /// The store after the increments `calls`, taken in order.
    pub open spec fn after(self, calls: Seq<Seq<char>>) -> CounterStore
        decreases calls.len(),
    {
        if calls.len() == 0 {
            self
        } else {
            self.after(calls.drop_last()).increment(calls.last()).0
        }
    }

    /// What the `i`-th of the increments `calls` returns.
    pub open spec fn reply(self, calls: Seq<Seq<char>>, i: int) -> Option<i64> {
        self.after(calls.take(i)).increment(calls[i]).1
    }
}

/// An increment returns the count after it, and a read that follows sees
/// that count.
pub proof fn law_increment_returns_new_count(store: CounterStore, key: Seq<char>)
    requires
        store.current(key) < i64::MAX,
    ensures
        store.increment(key).1 == Some((store.current(key) + 1) as i64),
        store.increment(key).0.peek(key) == store.increment(key).1,
{
}

/// The first increment of an absent key returns one.
pub proof fn law_first_increment_is_one(store: CounterStore, key: Seq<char>)
    requires
        store.peek(key) is None,
    ensures
        store.increment(key).1 == Some(1i64),
{
}

/// Deleting is idempotent: a second delete finds nothing and changes nothing.
pub proof fn law_delete_is_idempotent(store: CounterStore, key: Seq<char>)
    ensures
        store.delete(key).0.peek(key) is None,
        store.delete(key).0.delete(key).0 == store.delete(key).0,
        !store.delete(key).0.delete(key).1,
{
    assert(store.entries.remove(key).remove(key) =~= store.entries.remove(key));
}

/// Operations on one key leave every other key as it was.
pub proof fn law_keys_are_independent(
    store: CounterStore,
    key: Seq<char>,
    other: Seq<char>,
    delta: i64,
)
    requires
        key != other,
    ensures
        store.increment_by(key, delta).0.peek(other) == store.peek(other),
        store.delete(key).0.peek(other) == store.peek(other),
{
}

/// Along a history of increments the count of a key never goes down.
proof fn lemma_count_never_falls(
    store: CounterStore,
    calls: Seq<Seq<char>>,
    key: Seq<char>,
    a: int,
    b: int,
)
    requires
        0 <= a <= b <= calls.len(),
    ensures
        store.after(calls.take(a)).current(key) <= store.after(calls.take(b)).current(key),
    decreases b - a,
{
    if a < b {
        lemma_count_never_falls(store, calls, key, a, b - 1);
        assert(calls.take(b).drop_last() =~= calls.take(b - 1));
        assert(calls.take(b).last() == calls[b - 1]);
    }
}

/// Of the increments of one key, a later one returns more than an earlier
/// one, however the increments of other keys are interleaved with them.
pub proof fn lemma_replies_increase(store: CounterStore, calls: Seq<Seq<char>>, i: int, j: int)
    requires
        0 <= i < j < calls.len(),
        calls[i] == calls[j],
        store.reply(calls, i) is Some,
        store.reply(calls, j) is Some,
    ensures
        store.reply(calls, i)->0 < store.reply(calls, j)->0,
{
    let key = calls[i];
    assert(calls.take(i + 1).drop_last() =~= calls.take(i));
    assert(calls.take(i + 1).last() == calls[i]);
    assert(store.after(calls.take(i + 1)).current(key) == store.reply(calls, i)->0);
    lemma_count_never_falls(store, calls, key, i + 1, j);
}

/// Whatever the interleaving, at most one increment of a key observes a given
/// count: two calls that both returned `target` are the same call.
pub proof fn law_at_most_one_observes(
    store: CounterStore,
    calls: Seq<Seq<char>>,
    target: i64,
    i: int,
    j: int,
)
    requires
        0 <= i < calls.len(),
        0 <= j < calls.len(),
        calls[i] == calls[j],
        store.reply(calls, i) == Some(target),
        store.reply(calls, j) == Some(target),
    ensures
        i == j,
{
    if i < j {
        lemma_replies_increase(store, calls, i, j);
    } else if j < i {
        lemma_replies_increase(store, calls, j, i);
    }
}

} // verus!
