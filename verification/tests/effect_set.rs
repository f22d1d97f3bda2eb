use mixcraft::effects::Effect;
use mixcraft::effects::ProductEffects;
use mixcraft::effects::Step;

#[test]
fn add_then_has() {
    let mut set = ProductEffects::default();
    set.add(Effect::Calming);
    assert!(set.has(&Effect::Calming));
    assert!(!set.has(&Effect::Toxic));
}

#[test]
fn add_duplicate_is_noop() {
    let mut set = ProductEffects::default();
    set.add(Effect::Calming);
    set.add(Effect::Calming);
    assert_eq!(set.iter(), vec![Effect::Calming]);
}

#[test]
fn add_when_full_drops_the_effect() {
    let mut set = ProductEffects::default();
    let eight = [
        Effect::AntiGravity,
        Effect::Athletic,
        Effect::Balding,
        Effect::BrightEyed,
        Effect::Calming,
        Effect::CalorieDense,
        Effect::Cyclopean,
        Effect::Disorienting,
    ];
    for e in eight {
        set.add(e);
    }
    assert_eq!(set.iter().len(), 8);
    set.add(Effect::Zombifying);
    assert!(!set.has(&Effect::Zombifying));
    assert_eq!(set.iter(), eight.to_vec());
}

#[test]
fn replace_absent_is_a_true_noop() {
    let mut set = ProductEffects::default();
    set.add(Effect::Calming);
    set.replace(&Effect::Sneaky, Effect::Paranoia);
    assert_eq!(set.iter(), vec![Effect::Calming]);
    assert!(!set.has(&Effect::Paranoia));
}

#[test]
fn replace_present_swaps_in_place() {
    let mut set = ProductEffects::default();
    set.add(Effect::Calming);
    set.add(Effect::Energizing);
    set.replace(&Effect::Calming, Effect::Glowing);
    assert_eq!(set.iter(), vec![Effect::Glowing, Effect::Energizing]);
}

#[test]
fn replace_conflict_shrinks_by_one() {
    let mut set = ProductEffects::default();
    set.add(Effect::Calming);
    set.add(Effect::Glowing);
    assert_eq!(set.iter().len(), 2);
    set.replace(&Effect::Calming, Effect::Glowing);
    assert_eq!(set.iter(), vec![Effect::Glowing]);
}

#[test]
fn replace_self_keeps_the_effect() {
    let mut set = ProductEffects::default();
    set.add(Effect::Calming);
    set.replace(&Effect::Calming, Effect::Calming);
    assert_eq!(set.iter(), vec![Effect::Calming]);
}

#[test]
fn position_reports_first_slot() {
    let mut set = ProductEffects::default();
    set.add(Effect::Calming);
    set.add(Effect::Energizing);
    assert_eq!(set.position(&Effect::Calming), Some(0));
    assert_eq!(set.position(&Effect::Energizing), Some(1));
    assert_eq!(set.position(&Effect::Toxic), None);
    set.remove(0);
    assert_eq!(set.position(&Effect::Calming), None);
    assert_eq!(set.position(&Effect::Energizing), Some(1));
}

#[test]
fn multiplier_sums_present_effects() {
    let mut set = ProductEffects::default();
    assert_eq!(set.multiplier(), 0);
    set.add(Effect::Calming);
    set.add(Effect::Energizing);
    // 0.10 + 0.22, in hundredths
    assert_eq!(set.multiplier(), 32);
}

#[test]
fn effect_multiplier_values() {
    assert_eq!(Effect::Shrinking.multiplier(), 60);
    assert_eq!(Effect::AntiGravity.multiplier(), 54);
    assert_eq!(Effect::Toxic.multiplier(), 0);
    assert_eq!(Effect::Calming.multiplier(), 10);
}

#[test]
fn apply_steps_runs_in_order_on_evolving_state() {
    let mut set = ProductEffects::default();
    set.add(Effect::Slippery);
    // the first step introduces Munchies, the second already sees it
    let steps = vec![
        Step::Replace(Effect::Slippery, Effect::Munchies),
        Step::Replace(Effect::Munchies, Effect::Athletic),
        Step::Add(Effect::Energizing),
    ];
    set.apply_steps(&steps);
    assert_eq!(set.iter(), vec![Effect::Athletic, Effect::Energizing]);
}
