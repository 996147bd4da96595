//! A basic implementation of Lindenmayer systems: non-stochastic,
//! context-free rewriting over integer symbols.

use std::collections::HashMap;
use vstd::prelude::*;

verus! {

broadcast use vstd::std_specs::hash::group_hash_axioms;

/// One rewriting pass over `state`: each symbol that has a production rule
/// is replaced by the rule's right-hand side, every other symbol is kept.
pub open spec fn rewritten(rules: Map<u64, Vec<u64>>, state: Seq<u64>) -> Seq<u64>
    decreases state.len(),
{
    if state.len() == 0 {
        Seq::empty()
    } else {
        rewritten(rules, state.drop_last()) + (if rules.contains_key(state.last()) {
            rules[state.last()]@
        } else {
            seq![state.last()]
        })
    }
}

/// A Lindenmayer system: the current symbol string and the production rules
/// that each evolution step applies to every symbol in parallel.
pub struct ParametricLSystem {
    pub rules: HashMap<u64, Vec<u64>>,
    pub state: Vec<u64>,
}

impl ParametricLSystem {
    /// A system whose state is the given initial string, with the given
    /// production rules.
    pub fn new(initial: Vec<u64>, rules: HashMap<u64, Vec<u64>>) -> (r: Self)
        ensures
            r.rules@ == rules@,
            r.state@ == initial@,
    {
        Self { rules, state: initial }
    }

    /// One evolution step: the state with every symbol rewritten by its
    /// production rule, or kept as it is where no rule applies. The system
    /// itself is left unchanged.
    pub fn evolve(&self) -> (r: Vec<u64>)
        ensures
            r@ == rewritten(self.rules@, self.state@),
    {
        let mut expanded: Vec<u64> = Vec::with_capacity(self.state.len());
        let n = self.state.len();
        let mut i: usize = 0;
        while i < n
            invariant
                i <= n,
                n == self.state@.len(),
                expanded@ == rewritten(self.rules@, self.state@.take(i as int)),
            decreases n - i,
        {
            let symbol = self.state[i];
            match self.rules.get(&symbol) {
                Some(replacement) => {
                    let m = replacement.len();
                    let mut j: usize = 0;
                    while j < m
                        invariant
                            j <= m,
                            m == replacement@.len(),
                            self.rules@.contains_key(symbol),
                            self.rules@[symbol]@ == replacement@,
                            expanded@ == rewritten(self.rules@, self.state@.take(i as int))
                                + replacement@.take(j as int),
                        decreases m - j,
                    {
                        expanded.push(replacement[j]);
                        proof {
                            assert(replacement@.take(j + 1).drop_last() =~= replacement@.take(
                                j as int,
                            ));
                            assert(expanded@ =~= rewritten(self.rules@, self.state@.take(i as int))
                                + replacement@.take(j + 1));
                        }
                        j += 1;
                    }
                    assert(replacement@.take(m as int) =~= replacement@);
                },
                None => {
                    expanded.push(symbol);
                },
            }
            proof {
                let state = self.state@;
                assert(state.take(i + 1).drop_last() =~= state.take(i as int));
                assert(state.take(i + 1).last() == state[i as int]);
                assert(expanded@ =~= rewritten(self.rules@, state.take(i + 1)));
            }
            i += 1;
        }
        assert(self.state@.take(n as int) =~= self.state@);
        expanded
    }
}

} // verus!
