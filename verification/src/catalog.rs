//! The static catalogs: the underlying solids with their base prices, the
//! seeds (starting items) with their acquisition costs and initial effects,
//! and the substances (treatments) with their acquisition costs and ordered
//! transformation rules.
//!
//! Whole-currency amounts (base prices, acquisition costs) are plain `i64`
//! values; multipliers stay in hundredths (see [`crate::effects`]).
//!
//! Effect identifiers are enum variants, so every effect a rule step names
//! is in the effect catalog by construction; there is no ill-formed catalog
//! to reject at load time.

use vstd::prelude::*;

use crate::effects::Effect;
use crate::effects::Step;

verus! {

/// The underlying kind of product being sold.
#[derive(Debug, Clone, Copy, PartialEq, Eq, Structural)]
pub enum Solid {
    Weed,
    Meth,
    Cocaine,
}

impl Solid {
    /// Base sale price, in whole currency units.
    pub open spec fn spec_base_price(self) -> int {
        match self {
            Solid::Weed => 35,
            Solid::Meth => 70,
            Solid::Cocaine => 150,
        }
    }

    /// Base sale price, in whole currency units.
    pub fn base_price(&self) -> (p: i64)
        ensures
            p == self.spec_base_price(),
            0 < p <= 150,
    {
        match self {
            Solid::Weed => 35,
            Solid::Meth => 70,
            Solid::Cocaine => 150,
        }
    }
}

/// A starting item: fixes the underlying solid, one initial effect, and an
/// acquisition cost.
#[derive(Debug, Clone, Copy, PartialEq, Eq, Structural)]
pub enum Seed {
    OGKush,
    SourDiesel,
    GreenCrack,
    GranddadyPurple,
}

impl Seed {
    /// Acquisition cost, in whole currency units.
    pub open spec fn spec_price(self) -> int {
        match self {
            Seed::OGKush => 30,
            Seed::SourDiesel => 35,
            Seed::GreenCrack => 40,
            Seed::GranddadyPurple => 45,
        }
    }

    /// Acquisition cost, in whole currency units.
    pub fn price(&self) -> (p: i64)
        ensures
            p == self.spec_price(),
            0 < p <= 45,
    {
        match self {
            Seed::OGKush => 30,
            Seed::SourDiesel => 35,
            Seed::GreenCrack => 40,
            Seed::GranddadyPurple => 45,
        }
    }

    /// The solid this seed grows into.
    pub open spec fn spec_solid(self) -> Solid {
        Solid::Weed
    }

    /// The one effect the seed's initial product carries.
    pub open spec fn spec_initial_effect(self) -> Effect {
        match self {
            Seed::OGKush => Effect::Calming,
            Seed::SourDiesel => Effect::Refreshing,
            Seed::GreenCrack => Effect::Energizing,
            Seed::GranddadyPurple => Effect::Sedating,
        }
    }

    /// Every seed, in catalog order.
    pub fn all() -> (r: Vec<Seed>)
        ensures
            r@ == seq![Seed::OGKush, Seed::SourDiesel, Seed::GreenCrack, Seed::GranddadyPurple],
    {
        let v: Vec<Seed> = vec![
            Seed::OGKush,
            Seed::SourDiesel,
            Seed::GreenCrack,
            Seed::GranddadyPurple,
        ];
        proof {
            assert(v@ =~= seq![
                Seed::OGKush,
                Seed::SourDiesel,
                Seed::GreenCrack,
                Seed::GranddadyPurple,
            ]);
        }
        v
    }
}

/// A treatment: an additive substance with an acquisition cost and an
/// ordered transformation rule.
#[derive(Debug, Clone, Copy, PartialEq, Eq, Structural)]
pub enum Substance {
    Cuke,
    FluMedicine,
    Gasoline,
    Donut,
    EnergyDrink,
    MouthWash,
    MotorOil,
    Banana,
    Chili,
    Iodine,
    Paracetamol,
    Viagra,
    HorseSemen,
    MegaBean,
    Addy,
    Battery,
}

impl Substance {
    /// Acquisition cost, in whole currency units.
    pub open spec fn spec_price(self) -> int {
        match self {
            Substance::Cuke => 2,
            Substance::FluMedicine => 5,
            Substance::Gasoline => 5,
            Substance::Donut => 3,
            Substance::EnergyDrink => 6,
            Substance::MouthWash => 4,
            Substance::MotorOil => 6,
            Substance::Banana => 2,
            Substance::Chili => 7,
            Substance::Iodine => 8,
            Substance::Paracetamol => 3,
            Substance::Viagra => 4,
            Substance::HorseSemen => 9,
            Substance::MegaBean => 7,
            Substance::Addy => 9,
            Substance::Battery => 8,
        }
    }

    /// Acquisition cost, in whole currency units.
    pub fn price(&self) -> (p: i64)
        ensures
            p == self.spec_price(),
            0 < p <= 9,
    {
        match self {
            Substance::Cuke => 2,
            Substance::FluMedicine => 5,
            Substance::Gasoline => 5,
            Substance::Donut => 3,
            Substance::EnergyDrink => 6,
            Substance::MouthWash => 4,
            Substance::MotorOil => 6,
            Substance::Banana => 2,
            Substance::Chili => 7,
            Substance::Iodine => 8,
            Substance::Paracetamol => 3,
            Substance::Viagra => 4,
            Substance::HorseSemen => 9,
            Substance::MegaBean => 7,
            Substance::Addy => 9,
            Substance::Battery => 8,
        }
    }

    /// The ordered transformation rule of this substance: conditional
    /// replaces followed by one unconditional add. The engine does not rely
    /// on that shape; it executes whatever this list holds, in order.
    pub open spec fn spec_rule(self) -> Seq<Step> {
        match self {
            Substance::Cuke => seq![
                Step::Replace(Effect::Sneaky, Effect::Paranoia),
                Step::Replace(Effect::Foggy, Effect::Cyclopean),
                Step::Replace(Effect::Gingeritis, Effect::ThoughtProvoking),
                Step::Replace(Effect::Munchies, Effect::Athletic),
                Step::Replace(Effect::Slippery, Effect::Munchies),
                Step::Replace(Effect::Euphoric, Effect::Laxative),
                Step::Replace(Effect::Toxic, Effect::Euphoric),
                Step::Add(Effect::Energizing),
            ],
            Substance::FluMedicine => seq![
                Step::Replace(Effect::Calming, Effect::BrightEyed),
                Step::Replace(Effect::ThoughtProvoking, Effect::Gingeritis),
                Step::Replace(Effect::Cyclopean, Effect::Foggy),
                Step::Replace(Effect::Munchies, Effect::Slippery),
                Step::Replace(Effect::Athletic, Effect::Munchies),
                Step::Replace(Effect::Euphoric, Effect::Toxic),
                Step::Replace(Effect::Laxative, Effect::Euphoric),
                Step::Replace(Effect::Focused, Effect::Calming),
                Step::Replace(Effect::Electrifying, Effect::Refreshing),
                Step::Replace(Effect::Shrinking, Effect::Paranoia),
                Step::Add(Effect::Sedating),
            ],
            Substance::Gasoline => seq![
                Step::Replace(Effect::Euphoric, Effect::Spicy),
                Step::Replace(Effect::Energizing, Effect::Euphoric),
                Step::Replace(Effect::Gingeritis, Effect::Smelly),
                Step::Replace(Effect::Sneaky, Effect::TropicThunder),
                Step::Replace(Effect::Jennerising, Effect::Sneaky),
                Step::Replace(Effect::Munchies, Effect::Sedating),
                Step::Replace(Effect::Laxative, Effect::Foggy),
                Step::Replace(Effect::Disorienting, Effect::Glowing),
                Step::Replace(Effect::Paranoia, Effect::Calming),
                Step::Replace(Effect::Electrifying, Effect::Disorienting),
                Step::Replace(Effect::Shrinking, Effect::Focused),
                Step::Add(Effect::Toxic),
            ],
            Substance::Donut => seq![
                Step::Replace(Effect::CalorieDense, Effect::Explosive),
                Step::Replace(Effect::Balding, Effect::Sneaky),
                Step::Replace(Effect::AntiGravity, Effect::Slippery),
                Step::Replace(Effect::Jennerising, Effect::Gingeritis),
                Step::Replace(Effect::Focused, Effect::Euphoric),
                Step::Replace(Effect::Shrinking, Effect::Energizing),
                Step::Add(Effect::CalorieDense),
            ],
            Substance::EnergyDrink => seq![
                Step::Replace(Effect::Sedating, Effect::Munchies),
                Step::Replace(Effect::Euphoric, Effect::Energizing),
                Step::Replace(Effect::Spicy, Effect::Euphoric),
                Step::Replace(Effect::TropicThunder, Effect::Sneaky),
                Step::Replace(Effect::Foggy, Effect::Laxative),
                Step::Replace(Effect::Disorienting, Effect::Electrifying),
                Step::Replace(Effect::Glowing, Effect::Disorienting),
                Step::Replace(Effect::Schizophrenia, Effect::Balding),
                Step::Replace(Effect::Focused, Effect::Shrinking),
                Step::Add(Effect::Athletic),
            ],
            Substance::MouthWash => seq![
                Step::Replace(Effect::Calming, Effect::AntiGravity),
                Step::Replace(Effect::CalorieDense, Effect::Sneaky),
                Step::Replace(Effect::Explosive, Effect::Sedating),
                Step::Replace(Effect::Focused, Effect::Jennerising),
                Step::Add(Effect::Balding),
            ],
            Substance::MotorOil => seq![
                Step::Replace(Effect::Munchies, Effect::Schizophrenia),
                Step::Replace(Effect::Energizing, Effect::Munchies),
                Step::Replace(Effect::Foggy, Effect::Toxic),
                Step::Replace(Effect::Euphoric, Effect::Sedating),
                Step::Replace(Effect::Paranoia, Effect::AntiGravity),
                Step::Add(Effect::Slippery),
            ],
            Substance::Banana => seq![
                Step::Replace(Effect::Calming, Effect::Sneaky),
                Step::Replace(Effect::Smelly, Effect::AntiGravity),
                Step::Replace(Effect::Toxic, Effect::Smelly),
                Step::Replace(Effect::LongFaced, Effect::Refreshing),
                Step::Replace(Effect::Cyclopean, Effect::ThoughtProvoking),
                Step::Replace(Effect::Focused, Effect::SeizureInducing),
                Step::Replace(Effect::Disorienting, Effect::Focused),
                Step::Replace(Effect::Paranoia, Effect::Jennerising),
                Step::Add(Effect::Gingeritis),
            ],
            Substance::Chili => seq![
                Step::Replace(Effect::Athletic, Effect::Euphoric),
                Step::Replace(Effect::AntiGravity, Effect::TropicThunder),
                Step::Replace(Effect::Sneaky, Effect::BrightEyed),
                Step::Replace(Effect::Munchies, Effect::Toxic),
                Step::Replace(Effect::Laxative, Effect::LongFaced),
                Step::Replace(Effect::Shrinking, Effect::Refreshing),
                Step::Add(Effect::Spicy),
            ],
            Substance::Iodine => seq![
                Step::Replace(Effect::Calming, Effect::Balding),
                Step::Replace(Effect::Toxic, Effect::Sneaky),
                Step::Replace(Effect::Foggy, Effect::Paranoia),
                Step::Replace(Effect::CalorieDense, Effect::Gingeritis),
                Step::Replace(Effect::Euphoric, Effect::SeizureInducing),
                Step::Replace(Effect::Refreshing, Effect::ThoughtProvoking),
                Step::Add(Effect::Jennerising),
            ],
            Substance::Paracetamol => seq![
                Step::Replace(Effect::Calming, Effect::Slippery),
                Step::Replace(Effect::Toxic, Effect::TropicThunder),
                Step::Replace(Effect::Spicy, Effect::BrightEyed),
                Step::Replace(Effect::Glowing, Effect::Toxic),
                Step::Replace(Effect::Foggy, Effect::Calming),
                Step::Replace(Effect::Munchies, Effect::AntiGravity),
                Step::Replace(Effect::Electrifying, Effect::Athletic),
                Step::Add(Effect::Sneaky),
            ],
            Substance::Viagra => seq![
                Step::Replace(Effect::Athletic, Effect::Sneaky),
                Step::Replace(Effect::Euphoric, Effect::BrightEyed),
                Step::Replace(Effect::Laxative, Effect::Calming),
                Step::Replace(Effect::Disorienting, Effect::Toxic),
                Step::Add(Effect::TropicThunder),
            ],
            Substance::HorseSemen => seq![
                Step::Replace(Effect::AntiGravity, Effect::Calming),
                Step::Replace(Effect::Gingeritis, Effect::Refreshing),
                Step::Replace(Effect::ThoughtProvoking, Effect::Electrifying),
                Step::Add(Effect::LongFaced),
            ],
            Substance::MegaBean => seq![
                Step::Replace(Effect::Calming, Effect::Glowing),
                Step::Replace(Effect::Sneaky, Effect::Calming),
                Step::Replace(Effect::Jennerising, Effect::Paranoia),
                Step::Replace(Effect::Athletic, Effect::Laxative),
                Step::Replace(Effect::Slippery, Effect::Toxic),
                Step::Replace(Effect::ThoughtProvoking, Effect::Cyclopean),
                Step::Replace(Effect::Focused, Effect::Disorienting),
                Step::Replace(Effect::SeizureInducing, Effect::Focused),
                Step::Replace(Effect::Shrinking, Effect::Electrifying),
                Step::Add(Effect::Foggy),
            ],
            Substance::Addy => seq![
                Step::Replace(Effect::Sedating, Effect::Gingeritis),
                Step::Replace(Effect::LongFaced, Effect::Electrifying),
                Step::Replace(Effect::Glowing, Effect::Refreshing),
                Step::Replace(Effect::Foggy, Effect::Energizing),
                Step::Replace(Effect::Explosive, Effect::Euphoric),
                Step::Add(Effect::ThoughtProvoking),
            ],
            Substance::Battery => seq![
                Step::Replace(Effect::Munchies, Effect::TropicThunder),
                Step::Replace(Effect::Euphoric, Effect::Zombifying),
                Step::Replace(Effect::Electrifying, Effect::Euphoric),
                Step::Replace(Effect::Laxative, Effect::CalorieDense),
                Step::Replace(Effect::Cyclopean, Effect::Glowing),
                Step::Replace(Effect::Shrinking, Effect::Munchies),
                Step::Add(Effect::BrightEyed),
            ],
        }
    }

    /// The ordered transformation rule of this substance, as executable data.
    pub fn rule(&self) -> (r: Vec<Step>)
        ensures
            r@ == self.spec_rule(),
    {
        let v: Vec<Step> = match self {
            Substance::Cuke => vec![
                Step::Replace(Effect::Sneaky, Effect::Paranoia),
                Step::Replace(Effect::Foggy, Effect::Cyclopean),
                Step::Replace(Effect::Gingeritis, Effect::ThoughtProvoking),
                Step::Replace(Effect::Munchies, Effect::Athletic),
                Step::Replace(Effect::Slippery, Effect::Munchies),
                Step::Replace(Effect::Euphoric, Effect::Laxative),
                Step::Replace(Effect::Toxic, Effect::Euphoric),
                Step::Add(Effect::Energizing),
            ],
            Substance::FluMedicine => vec![
                Step::Replace(Effect::Calming, Effect::BrightEyed),
                Step::Replace(Effect::ThoughtProvoking, Effect::Gingeritis),
                Step::Replace(Effect::Cyclopean, Effect::Foggy),
                Step::Replace(Effect::Munchies, Effect::Slippery),
                Step::Replace(Effect::Athletic, Effect::Munchies),
                Step::Replace(Effect::Euphoric, Effect::Toxic),
                Step::Replace(Effect::Laxative, Effect::Euphoric),
                Step::Replace(Effect::Focused, Effect::Calming),
                Step::Replace(Effect::Electrifying, Effect::Refreshing),
                Step::Replace(Effect::Shrinking, Effect::Paranoia),
                Step::Add(Effect::Sedating),
            ],
            Substance::Gasoline => vec![
                Step::Replace(Effect::Euphoric, Effect::Spicy),
                Step::Replace(Effect::Energizing, Effect::Euphoric),
                Step::Replace(Effect::Gingeritis, Effect::Smelly),
                Step::Replace(Effect::Sneaky, Effect::TropicThunder),
                Step::Replace(Effect::Jennerising, Effect::Sneaky),
                Step::Replace(Effect::Munchies, Effect::Sedating),
                Step::Replace(Effect::Laxative, Effect::Foggy),
                Step::Replace(Effect::Disorienting, Effect::Glowing),
                Step::Replace(Effect::Paranoia, Effect::Calming),
                Step::Replace(Effect::Electrifying, Effect::Disorienting),
                Step::Replace(Effect::Shrinking, Effect::Focused),
                Step::Add(Effect::Toxic),
            ],
            Substance::Donut => vec![
                Step::Replace(Effect::CalorieDense, Effect::Explosive),
                Step::Replace(Effect::Balding, Effect::Sneaky),
                Step::Replace(Effect::AntiGravity, Effect::Slippery),
                Step::Replace(Effect::Jennerising, Effect::Gingeritis),
                Step::Replace(Effect::Focused, Effect::Euphoric),
                Step::Replace(Effect::Shrinking, Effect::Energizing),
                Step::Add(Effect::CalorieDense),
            ],
            Substance::EnergyDrink => vec![
                Step::Replace(Effect::Sedating, Effect::Munchies),
                Step::Replace(Effect::Euphoric, Effect::Energizing),
                Step::Replace(Effect::Spicy, Effect::Euphoric),
                Step::Replace(Effect::TropicThunder, Effect::Sneaky),
                Step::Replace(Effect::Foggy, Effect::Laxative),
                Step::Replace(Effect::Disorienting, Effect::Electrifying),
                Step::Replace(Effect::Glowing, Effect::Disorienting),
                Step::Replace(Effect::Schizophrenia, Effect::Balding),
                Step::Replace(Effect::Focused, Effect::Shrinking),
                Step::Add(Effect::Athletic),
            ],
            Substance::MouthWash => vec![
                Step::Replace(Effect::Calming, Effect::AntiGravity),
                Step::Replace(Effect::CalorieDense, Effect::Sneaky),
                Step::Replace(Effect::Explosive, Effect::Sedating),
                Step::Replace(Effect::Focused, Effect::Jennerising),
                Step::Add(Effect::Balding),
            ],
            Substance::MotorOil => vec![
                Step::Replace(Effect::Munchies, Effect::Schizophrenia),
                Step::Replace(Effect::Energizing, Effect::Munchies),
                Step::Replace(Effect::Foggy, Effect::Toxic),
                Step::Replace(Effect::Euphoric, Effect::Sedating),
                Step::Replace(Effect::Paranoia, Effect::AntiGravity),
                Step::Add(Effect::Slippery),
            ],
            Substance::Banana => vec![
                Step::Replace(Effect::Calming, Effect::Sneaky),
                Step::Replace(Effect::Smelly, Effect::AntiGravity),
                Step::Replace(Effect::Toxic, Effect::Smelly),
                Step::Replace(Effect::LongFaced, Effect::Refreshing),
                Step::Replace(Effect::Cyclopean, Effect::ThoughtProvoking),
                Step::Replace(Effect::Focused, Effect::SeizureInducing),
                Step::Replace(Effect::Disorienting, Effect::Focused),
                Step::Replace(Effect::Paranoia, Effect::Jennerising),
                Step::Add(Effect::Gingeritis),
            ],
            Substance::Chili => vec![
                Step::Replace(Effect::Athletic, Effect::Euphoric),
                Step::Replace(Effect::AntiGravity, Effect::TropicThunder),
                Step::Replace(Effect::Sneaky, Effect::BrightEyed),
                Step::Replace(Effect::Munchies, Effect::Toxic),
                Step::Replace(Effect::Laxative, Effect::LongFaced),
                Step::Replace(Effect::Shrinking, Effect::Refreshing),
                Step::Add(Effect::Spicy),
            ],
            Substance::Iodine => vec![
                Step::Replace(Effect::Calming, Effect::Balding),
                Step::Replace(Effect::Toxic, Effect::Sneaky),
                Step::Replace(Effect::Foggy, Effect::Paranoia),
                Step::Replace(Effect::CalorieDense, Effect::Gingeritis),
                Step::Replace(Effect::Euphoric, Effect::SeizureInducing),
                Step::Replace(Effect::Refreshing, Effect::ThoughtProvoking),
                Step::Add(Effect::Jennerising),
            ],
            Substance::Paracetamol => vec![
                Step::Replace(Effect::Calming, Effect::Slippery),
                Step::Replace(Effect::Toxic, Effect::TropicThunder),
                Step::Replace(Effect::Spicy, Effect::BrightEyed),
                Step::Replace(Effect::Glowing, Effect::Toxic),
                Step::Replace(Effect::Foggy, Effect::Calming),
                Step::Replace(Effect::Munchies, Effect::AntiGravity),
                Step::Replace(Effect::Electrifying, Effect::Athletic),
                Step::Add(Effect::Sneaky),
            ],
            Substance::Viagra => vec![
                Step::Replace(Effect::Athletic, Effect::Sneaky),
                Step::Replace(Effect::Euphoric, Effect::BrightEyed),
                Step::Replace(Effect::Laxative, Effect::Calming),
                Step::Replace(Effect::Disorienting, Effect::Toxic),
                Step::Add(Effect::TropicThunder),
            ],
            Substance::HorseSemen => vec![
                Step::Replace(Effect::AntiGravity, Effect::Calming),
                Step::Replace(Effect::Gingeritis, Effect::Refreshing),
                Step::Replace(Effect::ThoughtProvoking, Effect::Electrifying),
                Step::Add(Effect::LongFaced),
            ],
            Substance::MegaBean => vec![
                Step::Replace(Effect::Calming, Effect::Glowing),
                Step::Replace(Effect::Sneaky, Effect::Calming),
                Step::Replace(Effect::Jennerising, Effect::Paranoia),
                Step::Replace(Effect::Athletic, Effect::Laxative),
                Step::Replace(Effect::Slippery, Effect::Toxic),
                Step::Replace(Effect::ThoughtProvoking, Effect::Cyclopean),
                Step::Replace(Effect::Focused, Effect::Disorienting),
                Step::Replace(Effect::SeizureInducing, Effect::Focused),
                Step::Replace(Effect::Shrinking, Effect::Electrifying),
                Step::Add(Effect::Foggy),
            ],
            Substance::Addy => vec![
                Step::Replace(Effect::Sedating, Effect::Gingeritis),
                Step::Replace(Effect::LongFaced, Effect::Electrifying),
                Step::Replace(Effect::Glowing, Effect::Refreshing),
                Step::Replace(Effect::Foggy, Effect::Energizing),
                Step::Replace(Effect::Explosive, Effect::Euphoric),
                Step::Add(Effect::ThoughtProvoking),
            ],
            Substance::Battery => vec![
                Step::Replace(Effect::Munchies, Effect::TropicThunder),
                Step::Replace(Effect::Euphoric, Effect::Zombifying),
                Step::Replace(Effect::Electrifying, Effect::Euphoric),
                Step::Replace(Effect::Laxative, Effect::CalorieDense),
                Step::Replace(Effect::Cyclopean, Effect::Glowing),
                Step::Replace(Effect::Shrinking, Effect::Munchies),
                Step::Add(Effect::BrightEyed),
            ],
        };
        proof {
            assert(v@ =~= self.spec_rule());
        }
        v
    }

    /// Every substance, in catalog order.
    pub fn all() -> (r: Vec<Substance>)
        ensures
            r@ == seq![
                Substance::Cuke,
                Substance::FluMedicine,
                Substance::Gasoline,
                Substance::Donut,
                Substance::EnergyDrink,
                Substance::MouthWash,
                Substance::MotorOil,
                Substance::Banana,
                Substance::Chili,
                Substance::Iodine,
                Substance::Paracetamol,
                Substance::Viagra,
                Substance::HorseSemen,
                Substance::MegaBean,
                Substance::Addy,
                Substance::Battery,
            ],
    {
        let v: Vec<Substance> = vec![
            Substance::Cuke,
            Substance::FluMedicine,
            Substance::Gasoline,
            Substance::Donut,
            Substance::EnergyDrink,
            Substance::MouthWash,
            Substance::MotorOil,
            Substance::Banana,
            Substance::Chili,
            Substance::Iodine,
            Substance::Paracetamol,
            Substance::Viagra,
            Substance::HorseSemen,
            Substance::MegaBean,
            Substance::Addy,
            Substance::Battery,
        ];
        proof {
            assert(v@ =~= seq![
                Substance::Cuke,
                Substance::FluMedicine,
                Substance::Gasoline,
                Substance::Donut,
                Substance::EnergyDrink,
                Substance::MouthWash,
                Substance::MotorOil,
                Substance::Banana,
                Substance::Chili,
                Substance::Iodine,
                Substance::Paracetamol,
                Substance::Viagra,
                Substance::HorseSemen,
                Substance::MegaBean,
                Substance::Addy,
                Substance::Battery,
            ]);
        }
        v
    }
}

} // verus!
