//! Circuit breakers kept per service, created on first use from the service's own
//! configuration or the one named "default".

use vstd::prelude::*;
use crate::error_handler::{
    admits, after_check, after_failure, after_success, fresh_breaker, CircuitBreaker,
    CircuitBreakerConfig,
};
use crate::text::str_equal;

verus! {

/// The configuration listed first under `name`.
pub open spec fn config_named(configs: Seq<(String, CircuitBreakerConfig)>, name: Seq<char>) -> Option<CircuitBreakerConfig>
    decreases configs.len(),
{
    if configs.len() == 0 {
        None
    } else {
        match config_named(configs.drop_last(), name) {
            Some(c) => Some(c),
            None => if configs.last().0@ == name { Some(configs.last().1) } else { None },
        }
    }
}

/// The configuration a new breaker for `service` is made with: the service's own,
/// else the default one.
pub open spec fn config_for(configs: Seq<(String, CircuitBreakerConfig)>, service: Seq<char>) -> Option<CircuitBreakerConfig> {
    match config_named(configs, service) {
        Some(c) => Some(c),
        None => config_named(configs, "default"@),
    }
}

/// The first configuration listed under `name`.
fn find_config(configs: &Vec<(String, CircuitBreakerConfig)>, name: &str) -> (r: Option<CircuitBreakerConfig>)
    ensures
        r == config_named(configs@, name@),
{
    let mut i: usize = 0;
    while i < configs.len()
        invariant
            i <= configs@.len(),
            config_named(configs@.take(i as int), name@) is None,
        decreases configs.len() - i,
    {
        assert(configs@.take(i + 1).drop_last() =~= configs@.take(i as int));
        if str_equal(configs[i].0.as_str(), name) {
            proof { lemma_config_named_prefix(configs@, i as int + 1, name@); }
            return Some(configs[i].1);
        }
        i = i + 1;
    }
    assert(configs@.take(configs@.len() as int) =~= configs@);
    None
}

/// A configuration found within the first `n` entries is the one found in all of them.
proof fn lemma_config_named_prefix(s: Seq<(String, CircuitBreakerConfig)>, n: int, name: Seq<char>)
    requires
        0 <= n <= s.len(),
        config_named(s.take(n), name) is Some,
    ensures
        config_named(s, name) == config_named(s.take(n), name),
    decreases s.len() - n,
{
    if n < s.len() {
        assert(s.take(n + 1).drop_last() =~= s.take(n));
        lemma_config_named_prefix(s, n + 1, name);
    } else {
        assert(s.take(n) =~= s);
    }
}

/// The circuit breakers of the services, each service once, and the configurations
/// new breakers are made from.
#[derive(Debug)]
pub struct ServiceBreakers {
    configs: Vec<(String, CircuitBreakerConfig)>,
    breakers: Vec<(String, CircuitBreaker)>,
}

impl ServiceBreakers {
    /// No service has two breakers.
    pub closed spec fn wf(&self) -> bool {
        forall|i: int, j: int|
            0 <= i < j < self.breakers@.len() ==> #[trigger] self.breakers@[i].0@ != #[trigger] self.breakers@[j].0@
    }

    /// The configurations, in the order given.
    pub closed spec fn configs(&self) -> Seq<(String, CircuitBreakerConfig)> {
        self.configs@
    }

    /// The breaker of each service that has one.
    pub closed spec fn breakers(&self) -> Map<Seq<char>, CircuitBreaker> {
        Map::new(
            |s: Seq<char>| exists|i: int| 0 <= i < self.breakers@.len() && self.breakers@[i].0@ == s,
            |s: Seq<char>| self.breakers@[choose|i: int| 0 <= i < self.breakers@.len() && self.breakers@[i].0@ == s].1,
        )
    }

    /// The breakers once `service` has one, if a configuration applies to it.
    pub open spec fn with_breaker(&self, service: Seq<char>) -> Map<Seq<char>, CircuitBreaker> {
        if self.breakers().contains_key(service) {
            self.breakers()
        } else {
            match config_for(self.configs(), service) {
                Some(c) => self.breakers().insert(service, fresh_breaker(c)),
                None => self.breakers(),
            }
        }
    }

    /// No breakers yet; they are made from `configs` on first use.
    pub fn new(configs: Vec<(String, CircuitBreakerConfig)>) -> (r: ServiceBreakers)
        ensures
            r.wf(),
            r.configs() == configs@,
            r.breakers() == Map::<Seq<char>, CircuitBreaker>::empty(),
    {
        let r = ServiceBreakers { configs, breakers: Vec::new() };
        assert(r.breakers() =~= Map::<Seq<char>, CircuitBreaker>::empty());
        r
    }

    /// Position of the breaker of `service`.
    fn find(&self, service: &str) -> (r: Option<usize>)
        ensures
            match r {
                Some(i) => i < self.breakers@.len() && self.breakers@[i as int].0@ == service@,
                None => forall|i: int| 0 <= i < self.breakers@.len() ==> self.breakers@[i].0@ != service@,
            },
    {
        let mut i: usize = 0;
        while i < self.breakers.len()
            invariant
                i <= self.breakers@.len(),
                forall|k: int| 0 <= k < i ==> self.breakers@[k].0@ != service@,
            decreases self.breakers.len() - i,
        {
            if str_equal(self.breakers[i].0.as_str(), service) {
                return Some(i);
            }
            i = i + 1;
        }
        None
    }

    proof fn lemma_index_of(&self, i: int)
        requires
            self.wf(),
            0 <= i < self.breakers@.len(),
        ensures
            self.breakers().contains_key(self.breakers@[i].0@),
            self.breakers()[self.breakers@[i].0@] == self.breakers@[i].1,
    {
        let s = self.breakers@[i].0@;
        let j = choose|j: int| 0 <= j < self.breakers@.len() && self.breakers@[j].0@ == s;
        if j != i {
            if j < i {
                assert(self.breakers@[j].0@ != self.breakers@[i].0@);
            } else {
                assert(self.breakers@[i].0@ != self.breakers@[j].0@);
            }
        }
    }

    /// Replace the breaker at position `i`, keeping its service.
    fn set_at(&mut self, i: usize, b: CircuitBreaker)
        requires
            old(self).wf(),
            i < old(self).breakers@.len(),
        ensures
            final(self).wf(),
            final(self).configs() == old(self).configs(),
            final(self).breakers() == old(self).breakers().insert(old(self).breakers@[i as int].0@, b),
            final(self).breakers@.len() == old(self).breakers@.len(),
            forall|k: int| 0 <= k < final(self).breakers@.len() ==> #[trigger] final(self).breakers@[k].0@ == old(self).breakers@[k].0@,
    {
        let ghost m0 = old(self).breakers();
        let ghost key = old(self).breakers@[i as int].0@;
        let name = self.breakers[i].0.clone();
        self.breakers.set(i, (name, b));
        proof {
            assert forall|a: int, c: int| 0 <= a < c < self.breakers@.len() implies #[trigger] self.breakers@[a].0@ != #[trigger] self.breakers@[c].0@ by {
                assert(old(self).breakers@[a].0@ != old(self).breakers@[c].0@);
            }
            assert forall|s: Seq<char>| #[trigger] self.breakers().contains_key(s) == m0.insert(key, b).contains_key(s) by {
                if m0.contains_key(s) {
                    let k = choose|k: int| 0 <= k < old(self).breakers@.len() && old(self).breakers@[k].0@ == s;
                    assert(self.breakers@[k].0@ == s);
                }
                if self.breakers().contains_key(s) {
                    let k = choose|k: int| 0 <= k < self.breakers@.len() && self.breakers@[k].0@ == s;
                    assert(old(self).breakers@[k].0@ == s);
                }
                if s == key {
                    assert(self.breakers@[i as int].0@ == s);
                }
            }
            assert forall|s: Seq<char>| #[trigger] self.breakers().contains_key(s) implies self.breakers()[s] == m0.insert(key, b)[s] by {
                let k = choose|k: int| 0 <= k < self.breakers@.len() && self.breakers@[k].0@ == s;
                self.lemma_index_of(k);
                if s != key {
                    assert(k != i);
                    old(self).lemma_index_of(k);
                }
            }
            assert(self.breakers() =~= m0.insert(key, b));
        }
    }

    /// Position of the breaker of `service`, made now from its configuration when it
    /// has none; `None` when no configuration applies.
    fn ensure_breaker(&mut self, service: &str) -> (r: Option<usize>)
        requires
            old(self).wf(),
        ensures
            final(self).wf(),
            final(self).configs() == old(self).configs(),
            final(self).breakers() == old(self).with_breaker(service@),
            match r {
                Some(i) => i < final(self).breakers@.len() && final(self).breakers@[i as int].0@ == service@
                    && final(self).breakers().contains_key(service@)
                    && final(self).breakers()[service@] == final(self).breakers@[i as int].1,
                None => !final(self).breakers().contains_key(service@),
            },
    {
        let ghost m0 = old(self).breakers();
        match self.find(service) {
            Some(i) => {
                proof { self.lemma_index_of(i as int); }
                Some(i)
            },
            None => {
                proof {
                    if m0.contains_key(service@) {
                        let k = choose|k: int| 0 <= k < self.breakers@.len() && self.breakers@[k].0@ == service@;
                        assert(self.breakers@[k].0@ != service@);
                    }
                }
                let own = find_config(&self.configs, service);
                let cfg = match own {
                    Some(c) => Some(c),
                    None => find_config(&self.configs, "default"),
                };
                match cfg {
                    Some(c) => {
                        let b = CircuitBreaker::new(c);
                        self.breakers.push((service.to_owned(), b));
                        proof {
                            let n = old(self).breakers@.len() as int;
                            assert forall|a: int, d: int| 0 <= a < d < self.breakers@.len() implies #[trigger] self.breakers@[a].0@ != #[trigger] self.breakers@[d].0@ by {
                                if d < n {
                                    assert(old(self).breakers@[a].0@ != old(self).breakers@[d].0@);
                                }
                            }
                            assert forall|s: Seq<char>| #[trigger] self.breakers().contains_key(s) == m0.insert(service@, b).contains_key(s) by {
                                if m0.contains_key(s) {
                                    let k = choose|k: int| 0 <= k < old(self).breakers@.len() && old(self).breakers@[k].0@ == s;
                                    assert(self.breakers@[k].0@ == s);
                                }
                                if s == service@ {
                                    assert(self.breakers@[n].0@ == s);
                                }
                                if self.breakers().contains_key(s) && s != service@ {
                                    let k = choose|k: int| 0 <= k < self.breakers@.len() && self.breakers@[k].0@ == s;
                                    assert(k < n);
                                    assert(old(self).breakers@[k].0@ == s);
                                }
                            }
                            assert forall|s: Seq<char>| #[trigger] self.breakers().contains_key(s) implies self.breakers()[s] == m0.insert(service@, b)[s] by {
                                let k = choose|k: int| 0 <= k < self.breakers@.len() && self.breakers@[k].0@ == s;
                                self.lemma_index_of(k);
                                if s != service@ {
                                    assert(k < n);
                                    assert(old(self).breakers@[k] == self.breakers@[k]);
                                    old(self).lemma_index_of(k);
                                }
                            }
                            assert(self.breakers() =~= m0.insert(service@, b));
                            self.lemma_index_of(n);
                        }
                        Some(self.breakers.len() - 1)
                    },
                    None => None,
                }
            },
        }
    }

    /// The breaker of `service`, made now from its configuration if it has none yet;
    /// `None` when no configuration applies.
    pub fn get_circuit_breaker(&mut self, service: &str) -> (r: Option<CircuitBreaker>)
        requires
            old(self).wf(),
        ensures
            final(self).wf(),
            final(self).configs() == old(self).configs(),
            final(self).breakers() == old(self).with_breaker(service@),
            r == (if final(self).breakers().contains_key(service@) {
                Some(final(self).breakers()[service@])
            } else {
                None
            }),
    {
        match self.ensure_breaker(service) {
            Some(i) => Some(self.breakers[i].1),
            None => None,
        }
    }

    /// Ask the breaker of `service` whether a call at `now_nanos` may run: `None` when
    /// no configuration applies to the service, else whether the breaker admits it.
    pub fn can_execute_at(&mut self, service: &str, now_nanos: u64) -> (r: Option<bool>)
        requires
            old(self).wf(),
        ensures
            final(self).wf(),
            final(self).configs() == old(self).configs(),
            match r {
                Some(ok) => old(self).with_breaker(service@).contains_key(service@)
                    && ok == admits(old(self).with_breaker(service@)[service@], now_nanos)
                    && final(self).breakers() == old(self).with_breaker(service@).insert(
                        service@,
                        after_check(old(self).with_breaker(service@)[service@], now_nanos),
                    ),
                None => !old(self).with_breaker(service@).contains_key(service@)
                    && final(self).breakers() == old(self).breakers(),
            },
    {
        match self.ensure_breaker(service) {
            Some(i) => {
                let mut b = self.breakers[i].1;
                let ok = b.can_execute_at(now_nanos);
                self.set_at(i, b);
                Some(ok)
            },
            None => {
                proof {
                    assert(self.breakers() == old(self).with_breaker(service@));
                }
                None
            },
        }
    }

    /// Record a success with the breaker of `service`, if one applies.
    pub fn record_success(&mut self, service: &str)
        requires
            old(self).wf(),
            old(self).with_breaker(service@).contains_key(service@) ==> old(self).with_breaker(service@)[service@].success_count
                < u32::MAX,
        ensures
            final(self).wf(),
            final(self).configs() == old(self).configs(),
            final(self).breakers() == if old(self).with_breaker(service@).contains_key(service@) {
                old(self).with_breaker(service@).insert(service@, after_success(old(self).with_breaker(service@)[service@]))
            } else {
                old(self).breakers()
            },
    {
        if let Some(i) = self.ensure_breaker(service) {
            let mut b = self.breakers[i].1;
            b.record_success();
            self.set_at(i, b);
        }
    }

    /// Record a failure at `now_nanos` with the breaker of `service`, if one applies.
    pub fn record_failure_at(&mut self, service: &str, now_nanos: u64)
        requires
            old(self).wf(),
            old(self).with_breaker(service@).contains_key(service@) ==> old(self).with_breaker(service@)[service@].failure_count
                < u32::MAX,
        ensures
            final(self).wf(),
            final(self).configs() == old(self).configs(),
            final(self).breakers() == if old(self).with_breaker(service@).contains_key(service@) {
                old(self).with_breaker(service@).insert(service@, after_failure(old(self).with_breaker(service@)[service@], now_nanos))
            } else {
                old(self).breakers()
            },
    {
        if let Some(i) = self.ensure_breaker(service) {
            let mut b = self.breakers[i].1;
            b.record_failure_at(now_nanos);
            self.set_at(i, b);
        }
    }
}

} // verus!
