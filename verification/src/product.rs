//! Products and the transformation engine.
//!
//! A [`Product`] pairs an underlying solid with an effect set. Applying a
//! substance ([`Product::mix`]) executes the substance's ordered rule on a
//! copy of the effect set and yields a new product; the input is never
//! touched. [`Product::price`] derives the exact fixed-point sale price.

use vstd::prelude::*;

use crate::catalog::Seed;
use crate::catalog::Solid;
use crate::catalog::Substance;
use crate::effects::Effect;
use crate::effects::ProductEffects;
use crate::effects::empty_slots;
use crate::effects::lemma_add_preserves_wf;
use crate::effects::mult_sum;
use crate::effects::spec_add;
use crate::effects::spec_apply_steps;
use crate::effects::wf_slots;

verus! {

/// Money is measured in units of 1/[`PRICE_SCALE`] of a currency unit.
/// The scale is the least common multiple of the multiplier resolution
/// (hundredths) and the amortization divisor, so sale prices, production
/// costs and profits are all exact integers.
pub const PRICE_SCALE: i64 = 1200;

/// The unit of the domain: an underlying solid together with the effects it
/// currently carries.
#[derive(Debug)]
pub struct Product {
    pub solid: Solid,
    pub effects: ProductEffects,
}

/// Sale price in 1/[`PRICE_SCALE`] units of a solid carrying the given
/// effect slots: `base_price * (1 + multiplier_sum/100) * PRICE_SCALE`,
/// folded into the integer form `base_price * 12 * (100 + multiplier_sum)`.
pub open spec fn spec_sale_price_of(solid: Solid, slots: Seq<Option<Effect>>) -> int {
    solid.spec_base_price() * 12 * (100 + mult_sum(slots))
}

impl Product {
    /// Product invariant: the effect set is well formed.
    pub open spec fn wf(self) -> bool {
        self.effects.wf()
    }

    /// Sale price of this product in 1/[`PRICE_SCALE`] units.
    pub open spec fn spec_price(self) -> int {
        spec_sale_price_of(self.solid, self.effects@)
    }

    /// Sale price in 1/[`PRICE_SCALE`] units.
    pub fn price(&self) -> (p: i64)
        requires
            self.wf(),
        ensures
            p == self.spec_price(),
            0 < p <= 1_620_000,
    {
        let base = self.solid.base_price();
        let m = self.effects.multiplier();
        proof {
            assert(base * 12 * (100 + m) <= 1_620_000 && base * 12 * (100 + m) > 0) by (nonlinear_arith)
                requires
                    0 < base <= 150,
                    0 <= m <= 800,
            ;
        }
        base * 12 * (100 + m)
    }

    /// Apply one substance: execute its ordered rule on a copy of this
    /// product's effect set and return the new product. The input product is
    /// left untouched (it is only read through a shared reference), so a
    /// caller may fan out from one product to many substances.
    pub fn mix(&self, substance: &Substance) -> (r: Product)
        requires
            self.wf(),
        ensures
            r.wf(),
            r.solid == self.solid,
            r.effects@ == spec_apply_steps(self.effects@, substance.spec_rule()),
    {
        let steps = substance.rule();
        let mut effects = self.effects.clone();
        effects.apply_steps(&steps);
        Product { solid: self.solid, effects }
    }
}

impl Clone for Product {
    /// A copy with the same solid and the same effect set.
    fn clone(&self) -> (r: Self)
        ensures
            r.solid == self.solid,
            r.effects@ == self.effects@,
    {
        Product { solid: self.solid, effects: self.effects.clone() }
    }
}

impl Seed {
    /// The slot sequence of this seed's initial product: the seed effect in
    /// the first slot of an otherwise empty set.
    pub open spec fn spec_initial_slots(self) -> Seq<Option<Effect>> {
        spec_add(empty_slots(), self.spec_initial_effect())
    }

    /// The initial product this seed grows into: its solid, carrying exactly
    /// the seed effect.
    pub fn product(&self) -> (r: Product)
        ensures
            r.wf(),
            r.solid == self.spec_solid(),
            r.effects@ == self.spec_initial_slots(),
    {
        proof {
            assert(wf_slots(empty_slots()));
            lemma_add_preserves_wf(empty_slots(), self.spec_initial_effect());
        }
        let mut effects = ProductEffects::default();
        match self {
            Seed::OGKush => effects.add(Effect::Calming),
            Seed::SourDiesel => effects.add(Effect::Refreshing),
            Seed::GreenCrack => effects.add(Effect::Energizing),
            Seed::GranddadyPurple => effects.add(Effect::Sedating),
        }
        Product { solid: Solid::Weed, effects }
    }
}

} // verus!
