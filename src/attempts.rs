use vstd::prelude::*;

use crate::config_bag::{bag_lookup, bag_put, bag_put_all, lemma_scoped_layer_round_trip, ConfigBag};
use crate::context::InterceptorContext;

verus! {

/// The key under which the attempt counter is stored in a bag.
pub const REQUEST_ATTEMPTS_KEY: u64 = 1;

/// The number of attempts made so far in one call.
#[derive(Debug, Clone, Copy)]
pub struct RequestAttempts {
    attempts: u32,
}

impl View for RequestAttempts {
    type V = nat;

    closed spec fn view(&self) -> nat {
        self.attempts as nat
    }
}

/// The values the runtime keeps in a call's bag, one variant per kind of value.
pub enum ConfigValue {
    RequestAttempts(RequestAttempts),
    Custom(u64),
}

/// The attempt count visible in a bag, zero when none has been recorded.
pub open spec fn attempts_in(layers: Seq<Seq<(u64, ConfigValue)>>) -> nat {
    match bag_lookup(layers, REQUEST_ATTEMPTS_KEY) {
        Some(ConfigValue::RequestAttempts(a)) => a@,
        _ => 0,
    }
}

impl RequestAttempts {
    /// The number of attempts.
    pub fn attempts(&self) -> (r: u32)
        ensures
            r == self@,
    {
        self.attempts
    }

    /// Counts one more attempt.
    pub fn increment(&mut self)
        requires
            old(self)@ < u32::MAX,
        ensures
            final(self)@ == old(self)@ + 1,
    {
        self.attempts = self.attempts + 1;
    }
}

/// The hook that counts attempts: it runs before each attempt.
#[derive(Debug, Default)]
pub struct RequestAttemptsInterceptor {}

impl RequestAttemptsInterceptor {
    pub fn new() -> (r: Self) {
        RequestAttemptsInterceptor {  }
    }

    /// Raises the attempt count visible in `cfg` by one, writing it to the innermost layer.
    pub fn read_before_attempt<Req, Out>(
        &self,
        _ctx: &InterceptorContext<Req, Out>,
        cfg: &mut ConfigBag<ConfigValue>,
    )
        requires
            old(cfg)@.len() > 0,
            attempts_in(old(cfg)@) < u32::MAX,
        ensures
            final(cfg)@.len() == old(cfg)@.len(),
            final(cfg)@.drop_last() == old(cfg)@.drop_last(),
            attempts_in(final(cfg)@) == attempts_in(old(cfg)@) + 1,
            exists|a: RequestAttempts|
                a@ == attempts_in(old(cfg)@) + 1 && final(cfg)@ == bag_put(
                    old(cfg)@,
                    REQUEST_ATTEMPTS_KEY,
                    ConfigValue::RequestAttempts(a),
                ),
            forall|other: u64|
                other != REQUEST_ATTEMPTS_KEY ==> bag_lookup(final(cfg)@, other) == bag_lookup(
                    old(cfg)@,
                    other,
                ),
    {
        let mut request_attempts = match cfg.get(REQUEST_ATTEMPTS_KEY) {
            Some(ConfigValue::RequestAttempts(a)) => *a,
            _ => RequestAttempts { attempts: 0 },
        };
        request_attempts.increment();
        cfg.put(REQUEST_ATTEMPTS_KEY, ConfigValue::RequestAttempts(request_attempts));
        proof {
            let l = old(cfg)@;
            assert(final(cfg)@.drop_last() =~= l.drop_last());
        }
    }
}

/// The counter in a scoped layer: after a layer is pushed and the counting hook
/// writes the count one higher into it, every read sees that count while the layer
/// stands, other keys read as before, and popping the layer restores the earlier
/// layers exactly, with the earlier count (or its absence).
pub proof fn lemma_counter_in_scoped_layer(
    layers: Seq<Seq<(u64, ConfigValue)>>,
    counted: RequestAttempts,
    other: u64,
)
    requires
        counted@ == attempts_in(layers) + 1,
    ensures
        ({
            let inside = bag_put(
                layers.push(Seq::empty()),
                REQUEST_ATTEMPTS_KEY,
                ConfigValue::RequestAttempts(counted),
            );
            &&& attempts_in(inside) == attempts_in(layers) + 1
            &&& bag_lookup(inside, REQUEST_ATTEMPTS_KEY) == Some(ConfigValue::RequestAttempts(counted))
            &&& (other != REQUEST_ATTEMPTS_KEY ==> bag_lookup(inside, other) == bag_lookup(layers, other))
            &&& inside.drop_last() == layers
            &&& bag_lookup(inside.drop_last(), REQUEST_ATTEMPTS_KEY) == bag_lookup(layers, REQUEST_ATTEMPTS_KEY)
        }),
{
    let w = seq![(REQUEST_ATTEMPTS_KEY, ConfigValue::RequestAttempts(counted))];
    let pushed = layers.push(Seq::empty());
    assert(w.drop_last() =~= Seq::<(u64, ConfigValue)>::empty());
    reveal_with_fuel(bag_put_all, 2);
    assert(bag_put_all(pushed, w) == bag_put(pushed, REQUEST_ATTEMPTS_KEY, ConfigValue::RequestAttempts(counted)));
    lemma_scoped_layer_round_trip(layers, w, REQUEST_ATTEMPTS_KEY);
    lemma_scoped_layer_round_trip(layers, w, other);
    reveal_with_fuel(crate::config_bag::layer_lookup, 2);
}

} // verus!
