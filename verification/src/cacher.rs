//! A memoizing evaluator: wraps a single-argument computation and an
//! associative store, computes each key's value on first request, and answers
//! every later request for that key from the store.

use vstd::prelude::*;
use std::collections::HashMap;

verus! {

broadcast use vstd::std_specs::hash::group_hash_axioms;

/// The observable store transition of one query: the store afterwards is the
/// store before with `key` bound to `result`, and a key that was already
/// present keeps its stored value.
pub open spec fn value_post(pre: Map<u32, u32>, post: Map<u32, u32>, key: u32, result: u32) -> bool {
    &&& post == pre.insert(key, result)
    &&& pre.contains_key(key) ==> result == pre[key]
}

/// Wraps a computation from `u32` to `u32` and caches its results, so that the
/// computation runs at most once per distinct key.
pub struct Cacher<T> where T: Fn(u32) -> u32 {
    calculation: T,
    values: HashMap<u32, u32>,
    invoked: Ghost<Map<u32, nat>>,
}

impl<T> View for Cacher<T> where T: Fn(u32) -> u32 {
    type V = Map<u32, u32>;

    closed spec fn view(&self) -> Map<u32, u32> {
        self.values@
    }
}

impl<T> Cacher<T> where T: Fn(u32) -> u32 {
    /// The wrapped computation.
    pub closed spec fn computation(&self) -> T {
        self.calculation
    }

    /// How many times the wrapped computation has been invoked on each key.
    pub closed spec fn invocations(&self) -> Map<u32, nat> {
        self.invoked@
    }

    /// Internal invariant: the invocation count of a key is one exactly when
    /// the key is stored and zero otherwise, and every stored value is a
    /// result the wrapped computation admits for its key.
    pub closed spec fn wf(&self) -> bool {
        &&& forall|k: u32| #[trigger] self.invoked@.dom().contains(k)
        &&& forall|k: u32| #[trigger] self.invoked@[k] == (if self.values@.contains_key(k) {
            1nat
        } else {
            0nat
        })
        &&& forall|k: u32| #[trigger] self.values@.contains_key(k) ==> call_ensures(
            self.calculation,
            (k,),
            self.values@[k],
        )
    }

    /// Creates an evaluator around `calculation` with an empty store; the
    /// computation has not been invoked on any key yet.
    pub fn new(calculation: T) -> (c: Cacher<T>)
        ensures
            c.wf(),
            c.computation() == calculation,
            c@ == Map::<u32, u32>::empty(),
            forall|k: u32| c.invocations()[k] == 0,
    {
        Cacher {
            calculation,
            values: HashMap::new(),
            invoked: Ghost(Map::total(|k: u32| 0nat)),
        }
    }

    /// Answers a query for `arg`. On a miss the wrapped computation is
    /// invoked once and its result stored; on a hit the stored value is
    /// returned and the computation is not invoked. Either way the result is
    /// one the computation admits for `arg`, keys other than `arg` keep their
    /// entries and invocation counts, and afterwards `arg` has been computed
    /// exactly once.
    pub fn value(&mut self, arg: u32) -> (result: u32)
        requires
            old(self).wf(),
            call_requires(old(self).computation(), (arg,)),
        ensures
            final(self).wf(),
            final(self).computation() == old(self).computation(),
            call_ensures(old(self).computation(), (arg,), result),
            value_post(old(self)@, final(self)@, arg, result),
            final(self).invocations() == old(self).invocations().insert(arg, 1nat),
            old(self)@.contains_key(arg) ==> *final(self) == *old(self),
            forall|k: u32| k != arg ==> final(self).invocations()[k] == old(self).invocations()[k],
    {
        match self.values.get(&arg) {
            Some(v) => {
                let result = *v;
                proof {
                    assert(old(self)@.insert(arg, result) =~= old(self)@);
                    assert(old(self).invocations().insert(arg, 1nat) =~= old(self).invocations());
                }
                result
            },
            None => {
                let v = (self.calculation)(arg);
                self.invoked = Ghost(self.invoked@.insert(arg, 1nat));
                self.values.insert(arg, v);
                v
            },
        }
    }
}

/// Memoization correctness: in a well-formed evaluator, every cached value is
/// a result the wrapped computation admits for its key, so a query answered
/// from the store returns what the computation returned when the key was
/// first requested.
pub proof fn lemma_cached_values_correct<T: Fn(u32) -> u32>(c: &Cacher<T>)
    requires
        c.wf(),
    ensures
        forall|k: u32| c@.contains_key(k) ==> call_ensures(c.computation(), (k,), #[trigger] c@[k]),
{
}

/// At-most-once invocation: in a well-formed evaluator, the wrapped
/// computation has been invoked at most once for every key, however many
/// queries have been made.
pub proof fn lemma_at_most_once<T: Fn(u32) -> u32>(c: &Cacher<T>)
    requires
        c.wf(),
    ensures
        forall|k: u32| c.invocations()[k] <= 1,
{
}

/// Distinct keys are independent: a query for one key neither adds, removes
/// nor changes the entry of any other key.
pub proof fn lemma_distinct_keys_independent(
    pre: Map<u32, u32>,
    post: Map<u32, u32>,
    key: u32,
    result: u32,
    other: u32,
)
    requires
        value_post(pre, post, key, result),
        other != key,
    ensures
        post.contains_key(other) == pre.contains_key(other),
        pre.contains_key(other) ==> post[other] == pre[other],
{
}

/// Idempotence of repeated queries: two queries in a row with the same key
/// return identical results, and the second leaves the store unchanged.
pub proof fn lemma_repeated_query_idempotent(
    first_pre: Map<u32, u32>,
    first_post: Map<u32, u32>,
    second_post: Map<u32, u32>,
    key: u32,
    first_result: u32,
    second_result: u32,
)
    requires
        value_post(first_pre, first_post, key, first_result),
        value_post(first_post, second_post, key, second_result),
    ensures
        second_result == first_result,
        second_post == first_post,
{
    assert(first_post.contains_key(key));
    assert(second_post =~= first_post);
}

} // verus!
