use mixcraft::catalog::Seed;
use mixcraft::catalog::Solid;
use mixcraft::catalog::Substance;
use mixcraft::effects::Effect;
use mixcraft::effects::Step;
use mixcraft::product::PRICE_SCALE;
use mixcraft::search::evaluate;
use mixcraft::search::production_cost;
use mixcraft::search::rank;
use mixcraft::search::search;

fn currency(scaled: i64) -> f64 {
    scaled as f64 / PRICE_SCALE as f64
}

#[test]
fn catalogs_are_complete() {
    assert_eq!(Seed::all().len(), 4);
    assert_eq!(Substance::all().len(), 16);
    assert_eq!(Solid::Weed.base_price(), 35);
    assert_eq!(Seed::OGKush.price(), 30);
    assert_eq!(Substance::Cuke.price(), 2);
}

#[test]
fn rules_keep_their_declared_order() {
    let rule = Substance::Cuke.rule();
    assert_eq!(rule.len(), 8);
    assert_eq!(rule[0], Step::Replace(Effect::Sneaky, Effect::Paranoia));
    assert_eq!(rule[7], Step::Add(Effect::Energizing));
}

#[test]
fn seed_products_carry_one_effect() {
    let p = Seed::GranddadyPurple.product();
    assert_eq!(p.effects.iter(), vec![Effect::Sedating]);
    // 35.0 * (1 + 0.26) = 44.1
    assert_eq!(p.price(), 35 * 12 * 126);
    assert_eq!(currency(p.price()), 44.1);
}

#[test]
fn mix_never_touches_the_input() {
    let p = Seed::OGKush.product();
    let mixed = p.mix(&Substance::MegaBean);
    // the input is still usable and unchanged
    assert_eq!(p.effects.iter(), vec![Effect::Calming]);
    assert_eq!(p.price(), 35 * 12 * 110);
    // Calming was replaced by Glowing, then Foggy was added
    assert_eq!(mixed.effects.iter(), vec![Effect::Glowing, Effect::Foggy]);
    assert_eq!(mixed.price(), 35 * 12 * 184);
}

#[test]
fn mix_order_changes_the_outcome() {
    let base = Seed::OGKush.product();
    let cuke_then_banana = base.mix(&Substance::Cuke).mix(&Substance::Banana);
    let banana_then_cuke = base.mix(&Substance::Banana).mix(&Substance::Cuke);
    assert_eq!(
        cuke_then_banana.effects.iter(),
        vec![Effect::Sneaky, Effect::Energizing, Effect::Gingeritis]
    );
    assert_eq!(
        banana_then_cuke.effects.iter(),
        vec![Effect::Paranoia, Effect::ThoughtProvoking, Effect::Energizing]
    );
    assert!(cuke_then_banana.effects.has(&Effect::Sneaky));
    assert!(!banana_then_cuke.effects.has(&Effect::Sneaky));
}

#[test]
fn production_cost_amortizes_the_seed() {
    // 40 / 12 + 9 + 9, scaled by 1200
    let subs = vec![Substance::HorseSemen, Substance::Addy];
    assert_eq!(production_cost(Seed::GreenCrack, &subs), 25600);
}

#[test]
fn single_treatment_scenario() {
    let result = evaluate(Seed::OGKush, &vec![Substance::Cuke]);
    // every replace step of Cuke misses, the terminal add still runs
    assert_eq!(result.product.effects.iter(), vec![Effect::Calming, Effect::Energizing]);
    // 35.0 * (1 + 0.10 + 0.22) = 46.2
    assert_eq!(result.selling_price, 55440);
    assert_eq!(currency(result.selling_price), 46.2);
    // 30.0 / 12 + 2.0 = 4.5
    assert_eq!(result.production_cost, 5400);
    assert_eq!(currency(result.production_cost), 4.5);
    // 46.2 - 4.5 = 41.7
    assert_eq!(result.net_profit, 50040);
    assert_eq!(currency(result.net_profit), 41.7);
}

#[test]
fn search_enumerates_every_combination_exactly_once() {
    let seeds = Seed::all();
    let substances = Substance::all();
    let results = search(&seeds, &substances);
    assert_eq!(results.len(), 4 * 16 * 16 * 16);
    // the last substance varies fastest
    assert_eq!(results[0].seed, Seed::OGKush);
    assert_eq!(
        results[0].substances,
        vec![Substance::Cuke, Substance::Cuke, Substance::Cuke]
    );
    assert_eq!(
        results[1].substances,
        vec![Substance::Cuke, Substance::Cuke, Substance::FluMedicine]
    );
    assert_eq!(results[16 * 16 * 16].seed, Seed::SourDiesel);
    // distinct sequences are kept even when outcomes coincide
    let total = results.len();
    assert_eq!(results[total - 1].seed, Seed::GranddadyPurple);
    assert_eq!(
        results[total - 1].substances,
        vec![Substance::Battery, Substance::Battery, Substance::Battery]
    );
}

#[test]
fn ranking_is_non_increasing_in_profit() {
    let results = search(&Seed::all(), &Substance::all());
    let count = results.len();
    let profit_sum: i64 = results.iter().map(|r| r.net_profit).sum();
    let ordered = rank(results);
    assert_eq!(ordered.len(), count);
    let ordered_sum: i64 = ordered.iter().map(|r| r.net_profit).sum();
    assert_eq!(ordered_sum, profit_sum);
    for i in 1..ordered.len() {
        assert!(ordered[i - 1].net_profit >= ordered[i].net_profit);
    }
}

#[test]
fn ranking_small_list_exactly() {
    let a = evaluate(Seed::OGKush, &vec![Substance::Cuke]);
    let b = evaluate(Seed::GreenCrack, &vec![Substance::MegaBean]);
    let c = evaluate(Seed::SourDiesel, &vec![Substance::Banana]);
    let profits = vec![a.net_profit, b.net_profit, c.net_profit];
    let ordered = rank(vec![a, b, c]);
    let mut sorted = profits.clone();
    sorted.sort();
    sorted.reverse();
    let ordered_profits: Vec<i64> = ordered.iter().map(|r| r.net_profit).collect();
    assert_eq!(ordered_profits, sorted);
}
