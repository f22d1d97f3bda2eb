//! The exhaustive search and the profit ranking.
//!
//! [`search`] enumerates every (seed, ordered substance triple) combination,
//! prices each outcome and returns one [`SearchResult`] per combination, in a
//! fixed enumeration order. [`rank`] totally orders a result list by
//! descending net profit; because profits are exact integers the order is
//! total with no incomparable values, and the sort is stable: among equal
//! profits the original enumeration order is kept.

use vstd::prelude::*;

use crate::catalog::Seed;
use crate::catalog::Substance;
use crate::effects::Effect;
use crate::effects::spec_apply_steps;
use crate::product::Product;
use crate::product::spec_sale_price_of;

verus! {

broadcast use
    vstd::seq_lib::group_to_multiset_ensures,
    vstd::multiset::group_multiset_axioms,
;

/// Caller-side bound on treatment-sequence length, far beyond any real use;
/// it keeps the fixed-point cost arithmetic within `i64`.
pub const MAX_TREATMENTS: usize = 100_000_000;

/// Sum of the acquisition costs of the substances at or after `k`, in whole
/// currency units.
pub open spec fn spec_substance_cost_from(subs: Seq<Substance>, k: int) -> int
    decreases subs.len() - k,
{
    if k < 0 || k >= subs.len() {
        0
    } else {
        subs[k].spec_price() + spec_substance_cost_from(subs, k + 1)
    }
}

/// Production cost in 1/[`crate::product::PRICE_SCALE`] units: the seed's
/// acquisition cost divided by the amortization divisor, plus every
/// substance's acquisition cost. `seed/12 + costs`, scaled by 1200, is
/// `seed * 100 + 1200 * costs`.
pub open spec fn spec_production_cost(seed: Seed, subs: Seq<Substance>) -> int {
    seed.spec_price() * 100 + 1200 * spec_substance_cost_from(subs, 0)
}

/// The effect slots after the seed's initial product is treated with every
/// substance at or after `k`, in order.
pub open spec fn spec_slots_after(
    s: Seq<Option<Effect>>,
    subs: Seq<Substance>,
    k: int,
) -> Seq<Option<Effect>>
    decreases subs.len() - k,
{
    if k < 0 || k >= subs.len() {
        s
    } else {
        spec_slots_after(spec_apply_steps(s, subs[k].spec_rule()), subs, k + 1)
    }
}

/// The effect slots of the product a seed yields after the whole substance
/// sequence is applied, left to right.
pub open spec fn spec_final_slots(seed: Seed, subs: Seq<Substance>) -> Seq<Option<Effect>> {
    spec_slots_after(seed.spec_initial_slots(), subs, 0)
}

/// Net profit of one combination in 1/[`crate::product::PRICE_SCALE`] units:
/// sale price of the final product minus production cost.
pub open spec fn spec_net_profit(seed: Seed, subs: Seq<Substance>) -> int {
    spec_sale_price_of(seed.spec_solid(), spec_final_slots(seed, subs)) - spec_production_cost(
        seed,
        subs,
    )
}

/// One enumerated combination: the seed, the ordered substance sequence, the
/// resulting product, and its exact fixed-point cost, price and profit.
#[derive(Debug)]
pub struct SearchResult {
    pub seed: Seed,
    pub substances: Vec<Substance>,
    pub product: Product,
    pub production_cost: i64,
    pub selling_price: i64,
    pub net_profit: i64,
}

impl SearchResult {
    /// This result is exactly what treating `seed` with `subs` yields.
    pub open spec fn describes(self, seed: Seed, subs: Seq<Substance>) -> bool {
        &&& self.seed == seed
        &&& self.substances@ == subs
        &&& self.product.wf()
        &&& self.product.solid == seed.spec_solid()
        &&& self.product.effects@ == spec_final_slots(seed, subs)
        &&& self.production_cost == spec_production_cost(seed, subs)
        &&& self.selling_price == spec_sale_price_of(seed.spec_solid(), spec_final_slots(seed, subs))
        &&& self.net_profit == spec_net_profit(seed, subs)
    }
}

/// Production cost of treating `seed` with `substances`, in
/// 1/[`crate::product::PRICE_SCALE`] units.
pub fn production_cost(seed: Seed, substances: &Vec<Substance>) -> (c: i64)
    requires
        substances@.len() <= MAX_TREATMENTS,
    ensures
        c == spec_production_cost(seed, substances@),
        0 < c <= 4500 + 10800 * (substances@.len() as int),
{
    let ghost subs = substances@;
    let n = substances.len();
    let mut c: i64 = seed.price() * 100;
    let mut k: usize = 0;
    while k < n
        invariant
            0 <= k <= n,
            n == subs.len(),
            n <= MAX_TREATMENTS,
            subs == substances@,
            c + 1200 * spec_substance_cost_from(subs, k as int) == spec_production_cost(seed, subs),
            0 < c <= 4500 + 10800 * k,
        decreases n - k,
    {
        c = c + 1200 * substances[k].price();
        k = k + 1;
    }
    c
}

/// Copy of a substance sequence.
fn copy_substances(v: &Vec<Substance>) -> (r: Vec<Substance>)
    ensures
        r@ == v@,
{
    let n = v.len();
    let mut r: Vec<Substance> = Vec::new();
    let mut i: usize = 0;
    while i < n
        invariant
            0 <= i <= n,
            n == v@.len(),
            r@ =~= v@.take(i as int),
        decreases n - i,
    {
        r.push(v[i]);
        i = i + 1;
    }
    proof {
        assert(r@ =~= v@);
    }
    r
}

/// Price one combination: start from the seed's initial product, apply every
/// substance in order, and compute production cost, sale price and net
/// profit.
pub fn evaluate(seed: Seed, substances: &Vec<Substance>) -> (r: SearchResult)
    requires
        substances@.len() <= MAX_TREATMENTS,
    ensures
        r.describes(seed, substances@),
{
    let ghost subs = substances@;
    let mut product = seed.product();
    let n = substances.len();
    let mut k: usize = 0;
    while k < n
        invariant
            0 <= k <= n,
            n == subs.len(),
            subs == substances@,
            product.wf(),
            product.solid == seed.spec_solid(),
            spec_final_slots(seed, subs) == spec_slots_after(product.effects@, subs, k as int),
        decreases n - k,
    {
        product = product.mix(&substances[k]);
        k = k + 1;
    }
    let cost = production_cost(seed, substances);
    let selling_price = product.price();
    let net_profit = selling_price - cost;
    SearchResult {
        seed,
        substances: copy_substances(substances),
        product,
        production_cost: cost,
        selling_price,
        net_profit,
    }
}

/// Entry `k` of the result list is the combination whose enumeration index
/// is `k`: the seed changes slowest and the last substance fastest, so `k`
/// decodes by place value in base `subs.len()`.
pub open spec fn entry_matches(
    results: Seq<SearchResult>,
    seeds: Seq<Seed>,
    subs: Seq<Substance>,
    k: int,
) -> bool {
    let t = subs.len() as int;
    results[k].describes(
        seeds[k / (t * t * t)],
        seq![subs[(k / (t * t)) % t], subs[(k / t) % t], subs[k % t]],
    )
}

/// Enumerate the full cartesian product of every seed and every ordered
/// substance triple (repetition allowed, order significant), pricing each
/// combination. Exactly `seeds.len() * substances.len()^3` results come
/// back, in a fixed enumeration order, with no deduplication.
pub fn search(seeds: &Vec<Seed>, substances: &Vec<Substance>) -> (results: Vec<SearchResult>)
    requires
        seeds@.len() * substances@.len() * substances@.len() * substances@.len() <= usize::MAX,
    ensures
        results@.len() == seeds@.len() * substances@.len() * substances@.len() * substances@.len(),
        forall|k: int|
            0 <= k < results@.len() ==> #[trigger] entry_matches(
                results@,
                seeds@,
                substances@,
                k,
            ),
{
    let b = seeds.len();
    let t = substances.len();
    if b == 0 || t == 0 {
        proof {
            assert(seeds@.len() * substances@.len() * substances@.len() * substances@.len() == 0)
                by (nonlinear_arith)
                requires
                    seeds@.len() == 0 || substances@.len() == 0,
            ;
        }
        let empty: Vec<SearchResult> = Vec::new();
        return empty;
    }
    proof {
        assert(t * t <= b * t * t * t && t * t * t <= b * t * t * t && b * (t * t * t) == b * t * t
            * t) by (nonlinear_arith)
            requires
                b >= 1,
                t >= 1,
        ;
    }
    let t2 = t * t;
    let t3 = t2 * t;
    let total = b * t3;
    let mut results: Vec<SearchResult> = Vec::new();
    let mut k: usize = 0;
    while k < total
        invariant
            0 <= k <= total,
            b == seeds@.len(),
            t == substances@.len(),
            1 <= t,
            1 <= b,
            t2 == t * t,
            t3 == t2 * t,
            total == b * t3,
            results@.len() == k,
            forall|k2: int|
                0 <= k2 < k ==> #[trigger] entry_matches(results@, seeds@, substances@, k2),
        decreases total - k,
    {
        let ghost before = results@;
        let a = k / t3;
        let s1 = (k / t2) % t;
        let s2 = (k / t) % t;
        let s3 = k % t;
        proof {
            assert(k / t3 < b) by (nonlinear_arith)
                requires
                    k < b * t3,
                    t3 >= 1,
            ;
        }
        let combo: Vec<Substance> = vec![substances[s1], substances[s2], substances[s3]];
        proof {
            let d3 = substances@[s3 as int];
            assert(combo@ =~= seq![substances@[s1 as int], substances@[s2 as int], d3]);
        }
        let r = evaluate(seeds[a], &combo);
        results.push(r);
        proof {
            let ti = t as int;
            assert(t3 == ti * ti * ti && t2 == ti * ti) by (nonlinear_arith)
                requires
                    t2 == t * t,
                    t3 == t2 * t,
                    ti == t,
            ;
            assert(results@[k as int] == r);
            assert(r.describes(seeds@[k as int / (ti * ti * ti)], combo@));
            assert(entry_matches(results@, seeds@, substances@, k as int));
            assert forall|k2: int|
                0 <= k2 < k + 1 implies #[trigger] entry_matches(
                results@,
                seeds@,
                substances@,
                k2,
            ) by {
                if k2 < k {
                    assert(entry_matches(before, seeds@, substances@, k2));
                    assert(results@[k2] == before[k2]);
                }
            }
        }
        k = k + 1;
    }
    results
}

/// A result list in ranking order: net profit never increases.
pub open spec fn ranked(s: Seq<SearchResult>) -> bool {
    forall|i: int, j: int|
        #![trigger s[i], s[j]]
        0 <= i <= j < s.len() ==> s[i].net_profit >= s[j].net_profit
}

/// Inserting an element anywhere in a sequence adds exactly it to the
/// sequence's multiset.
proof fn lemma_insert_to_multiset(s: Seq<SearchResult>, i: int, x: SearchResult)
    requires
        0 <= i <= s.len(),
    ensures
        s.insert(i, x).to_multiset() == s.to_multiset().insert(x),
{
    let u = s.insert(i, x);
    s.insert_ensures(i, x);
    assert(u.remove(i) =~= s);
    assert(u.to_multiset().remove(x) =~= s.to_multiset());
    assert(u.contains(x)) by {
        assert(u[i] == x);
    }
    assert(u.to_multiset().count(x) > 0);
    assert(u.to_multiset() =~= s.to_multiset().insert(x));
}

/// Totally order a result list by descending net profit. The comparison is
/// over exact integer profits, so it is total and never fails; ties keep
/// their original enumeration order (stable insertion).
#[verifier::loop_isolation(false)]
pub fn rank(results: Vec<SearchResult>) -> (ordered: Vec<SearchResult>)
    ensures
        ranked(ordered@),
        ordered@.to_multiset() == results@.to_multiset(),
{
    let mut remaining = results;
    let mut out: Vec<SearchResult> = Vec::new();
    proof {
        assert(out@.to_multiset().add(remaining@.to_multiset()) =~= results@.to_multiset());
    }
    while remaining.len() > 0
        invariant
            ranked(out@),
            out@.to_multiset().add(remaining@.to_multiset()) == results@.to_multiset(),
        decreases remaining.len(),
    {
        let ghost out_before = out@;
        let ghost rem_before = remaining@;
        let x = remaining.remove(0);
        let mut j: usize = 0;
        while j < out.len() && out[j].net_profit >= x.net_profit
            invariant
                0 <= j <= out@.len(),
                forall|i: int| 0 <= i < j ==> out@[i].net_profit >= x.net_profit,
            decreases out@.len() - j,
        {
            j = j + 1;
        }
        out.insert(j, x);
        proof {
            out_before.insert_ensures(j as int, x);
            assert(ranked(out@));
            lemma_insert_to_multiset(out_before, j as int, x);
            assert(rem_before.remove(0).to_multiset() =~= rem_before.to_multiset().remove(x));
            assert(out@.to_multiset().add(remaining@.to_multiset()) =~= results@.to_multiset());
        }
    }
    proof {
        assert(out@.to_multiset().add(remaining@.to_multiset()) =~= out@.to_multiset());
    }
    out
}

} // verus!
