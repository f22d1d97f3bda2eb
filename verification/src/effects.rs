//! The effect catalog and the bounded effect container.
//!
//! An [`Effect`] is one of a fixed enumeration of status-effect kinds; each
//! contributes a fixed price multiplier, kept in hundredths so that all
//! arithmetic is exact. A [`ProductEffects`] is a duplicate-free set of
//! effects backed by [`CAPACITY`] slots; it is mutated only through `add` and
//! `replace`, whose exact slot-level behavior is given by the spec functions
//! [`spec_add`] and [`spec_replace`].

use vstd::prelude::*;

verus! {

/// Number of physical slots in a [`ProductEffects`]; the container never
/// holds more effects than this.
pub const CAPACITY: usize = 8;

/// A status effect a product can carry. Each effect contributes an additive
/// scalar to the product's sale-price multiplier.
#[derive(Debug, Clone, Copy, PartialEq, Eq, Structural)]
pub enum Effect {
    AntiGravity,
    Athletic,
    Balding,
    BrightEyed,
    Calming,
    CalorieDense,
    Cyclopean,
    Disorienting,
    Electrifying,
    Energizing,
    Euphoric,
    Explosive,
    Focused,
    Foggy,
    Gingeritis,
    Glowing,
    Jennerising,
    Laxative,
    LongFaced,
    Munchies,
    Paranoia,
    Refreshing,
    Schizophrenia,
    Sedating,
    SeizureInducing,
    Shrinking,
    Slippery,
    Smelly,
    Sneaky,
    Spicy,
    ThoughtProvoking,
    Toxic,
    TropicThunder,
    Zombifying,
}

impl Effect {
    /// Price-multiplier contribution of this effect, in hundredths.
    pub open spec fn spec_multiplier(self) -> int {
        match self {
            Effect::AntiGravity => 54,
            Effect::Athletic => 32,
            Effect::Balding => 30,
            Effect::BrightEyed => 40,
            Effect::Calming => 10,
            Effect::CalorieDense => 28,
            Effect::Cyclopean => 56,
            Effect::Disorienting => 0,
            Effect::Electrifying => 50,
            Effect::Energizing => 22,
            Effect::Euphoric => 18,
            Effect::Explosive => 0,
            Effect::Focused => 16,
            Effect::Foggy => 36,
            Effect::Gingeritis => 20,
            Effect::Glowing => 48,
            Effect::Jennerising => 42,
            Effect::Laxative => 0,
            Effect::LongFaced => 52,
            Effect::Munchies => 12,
            Effect::Paranoia => 0,
            Effect::Refreshing => 14,
            Effect::Schizophrenia => 0,
            Effect::Sedating => 26,
            Effect::SeizureInducing => 0,
            Effect::Shrinking => 60,
            Effect::Slippery => 34,
            Effect::Smelly => 0,
            Effect::Sneaky => 24,
            Effect::Spicy => 38,
            Effect::ThoughtProvoking => 44,
            Effect::Toxic => 0,
            Effect::TropicThunder => 46,
            Effect::Zombifying => 58,
        }
    }

    /// Price-multiplier contribution of this effect, in hundredths.
    pub fn multiplier(&self) -> (m: i64)
        ensures
            m == self.spec_multiplier(),
            0 <= m <= 100,
    {
        match self {
            Effect::AntiGravity => 54,
            Effect::Athletic => 32,
            Effect::Balding => 30,
            Effect::BrightEyed => 40,
            Effect::Calming => 10,
            Effect::CalorieDense => 28,
            Effect::Cyclopean => 56,
            Effect::Disorienting => 0,
            Effect::Electrifying => 50,
            Effect::Energizing => 22,
            Effect::Euphoric => 18,
            Effect::Explosive => 0,
            Effect::Focused => 16,
            Effect::Foggy => 36,
            Effect::Gingeritis => 20,
            Effect::Glowing => 48,
            Effect::Jennerising => 42,
            Effect::Laxative => 0,
            Effect::LongFaced => 52,
            Effect::Munchies => 12,
            Effect::Paranoia => 0,
            Effect::Refreshing => 14,
            Effect::Schizophrenia => 0,
            Effect::Sedating => 26,
            Effect::SeizureInducing => 0,
            Effect::Shrinking => 60,
            Effect::Slippery => 34,
            Effect::Smelly => 0,
            Effect::Sneaky => 24,
            Effect::Spicy => 38,
            Effect::ThoughtProvoking => 44,
            Effect::Toxic => 0,
            Effect::TropicThunder => 46,
            Effect::Zombifying => 58,
        }
    }
}

/// The slot sequence of an empty container: [`CAPACITY`] free slots.
pub open spec fn empty_slots() -> Seq<Option<Effect>> {
    Seq::new(CAPACITY as nat, |i: int| None)
}

/// Membership: some slot holds `e`.
pub open spec fn slot_has(s: Seq<Option<Effect>>, e: Effect) -> bool {
    exists|i: int| 0 <= i < s.len() && s[i] == Some(e)
}

/// No effect occupies two slots.
pub open spec fn dupe_free(s: Seq<Option<Effect>>) -> bool {
    forall|i: int, j: int|
        #![trigger s[i], s[j]]
        0 <= i < j < s.len() && s[i] is Some ==> s[i] != s[j]
}

/// One transformation step of a treatment's rule: a conditional replace
/// (a no-op when the first effect is absent) or an unconditional add.
#[derive(Debug, Clone, Copy, PartialEq, Eq, Structural)]
pub enum Step {
    Replace(Effect, Effect),
    Add(Effect),
}

/// Well-formed slot sequence: exactly [`CAPACITY`] slots, no duplicates.
pub open spec fn wf_slots(s: Seq<Option<Effect>>) -> bool {
    &&& s.len() == CAPACITY
    &&& dupe_free(s)
}

/// First slot at or after `i` holding `e`, if any.
pub open spec fn find_effect_from(s: Seq<Option<Effect>>, e: Effect, i: int) -> Option<int>
    decreases s.len() - i,
{
    if i < 0 || i >= s.len() {
        None
    } else if s[i] == Some(e) {
        Some(i)
    } else {
        find_effect_from(s, e, i + 1)
    }
}

/// First free slot at or after `i`, if any.
pub open spec fn find_free_from(s: Seq<Option<Effect>>, i: int) -> Option<int>
    decreases s.len() - i,
{
    if i < 0 || i >= s.len() {
        None
    } else if s[i] is None {
        Some(i)
    } else {
        find_free_from(s, i + 1)
    }
}

/// Number of occupied slots at or after `i`.
pub open spec fn occupied_from(s: Seq<Option<Effect>>, i: int) -> int
    decreases s.len() - i,
{
    if i < 0 || i >= s.len() {
        0
    } else {
        (if s[i] is Some { 1int } else { 0int }) + occupied_from(s, i + 1)
    }
}

/// Number of occupied slots.
pub open spec fn occupied(s: Seq<Option<Effect>>) -> int {
    occupied_from(s, 0)
}

/// Number of slots at or after `i` holding `e`.
pub open spec fn effect_count_from(s: Seq<Option<Effect>>, e: Effect, i: int) -> int
    decreases s.len() - i,
{
    if i < 0 || i >= s.len() {
        0
    } else {
        (if s[i] == Some(e) { 1int } else { 0int }) + effect_count_from(s, e, i + 1)
    }
}

/// Number of slots holding `e`.
pub open spec fn effect_count(s: Seq<Option<Effect>>, e: Effect) -> int {
    effect_count_from(s, e, 0)
}

/// Sum of the multipliers of the effects at or after slot `i`, in hundredths.
pub open spec fn mult_sum_from(s: Seq<Option<Effect>>, i: int) -> int
    decreases s.len() - i,
{
    if i < 0 || i >= s.len() {
        0
    } else {
        (match s[i] {
            Some(e) => e.spec_multiplier(),
            None => 0,
        }) + mult_sum_from(s, i + 1)
    }
}

/// Sum of the multipliers of all present effects, in hundredths.
pub open spec fn mult_sum(s: Seq<Option<Effect>>) -> int {
    mult_sum_from(s, 0)
}

/// The effects present, in slot order.
pub open spec fn present_from(s: Seq<Option<Effect>>, i: int) -> Seq<Effect>
    decreases s.len() - i,
{
    if i < 0 || i >= s.len() {
        Seq::empty()
    } else {
        match s[i] {
            Some(e) => seq![e] + present_from(s, i + 1),
            None => present_from(s, i + 1),
        }
    }
}

/// `add(e)`: no-op when `e` is present or no slot is free; otherwise the
/// first free slot is occupied with `e`.
pub open spec fn spec_add(s: Seq<Option<Effect>>, e: Effect) -> Seq<Option<Effect>> {
    if slot_has(s, e) {
        s
    } else {
        match find_free_from(s, 0) {
            Some(i) => s.update(i, Some(e)),
            None => s,
        }
    }
}

/// `replace(from, to)`: no-op when `from` is absent; otherwise `to`'s slot is
/// freed first if `to` is already present, and then `from`'s slot is
/// overwritten with `to`.
pub open spec fn spec_replace(s: Seq<Option<Effect>>, from: Effect, to: Effect) -> Seq<
    Option<Effect>,
> {
    match find_effect_from(s, from, 0) {
        None => s,
        Some(i) => {
            let cleared = match find_effect_from(s, to, 0) {
                Some(j) => s.update(j, None),
                None => s,
            };
            cleared.update(i, Some(to))
        },
    }
}

/// What `find_effect_from` returns: the first matching slot, or a guarantee
/// that no slot at or after `i` matches.
pub proof fn lemma_find_effect_from(s: Seq<Option<Effect>>, e: Effect, i: int)
    requires
        0 <= i <= s.len(),
    ensures
        match find_effect_from(s, e, i) {
            Some(k) => i <= k < s.len() && s[k] == Some(e) && forall|j: int|
                i <= j < k ==> s[j] != Some(e),
            None => forall|j: int| i <= j < s.len() ==> s[j] != Some(e),
        },
    decreases s.len() - i,
{
    if i < s.len() && s[i] != Some(e) {
        lemma_find_effect_from(s, e, i + 1);
    }
}

/// What `find_free_from` returns: the first free slot, or a guarantee that
/// every slot at or after `i` is occupied.
pub proof fn lemma_find_free_from(s: Seq<Option<Effect>>, i: int)
    requires
        0 <= i <= s.len(),
    ensures
        match find_free_from(s, i) {
            Some(k) => i <= k < s.len() && s[k] is None && forall|j: int|
                i <= j < k ==> s[j] is Some,
            None => forall|j: int| i <= j < s.len() ==> s[j] is Some,
        },
    decreases s.len() - i,
{
    if i < s.len() && s[i] is Some {
        lemma_find_free_from(s, i + 1);
    }
}

/// Membership and the first-match search agree.
pub proof fn lemma_find_effect_iff_has(s: Seq<Option<Effect>>, e: Effect)
    ensures
        find_effect_from(s, e, 0) is Some <==> slot_has(s, e),
{
    lemma_find_effect_from(s, e, 0);
    if find_effect_from(s, e, 0) is Some {
        let k = find_effect_from(s, e, 0)->0;
        assert(0 <= k < s.len() && s[k] == Some(e));
    }
}

/// Effect of a single slot update on the occupied count.
proof fn lemma_occupied_from_update(s: Seq<Option<Effect>>, i: int, v: Option<Effect>, k: int)
    requires
        0 <= k <= s.len(),
        0 <= i < s.len(),
    ensures
        occupied_from(s.update(i, v), k) == occupied_from(s, k) + if k <= i {
            (if v is Some {
                1int
            } else {
                0int
            }) - (if s[i] is Some {
                1int
            } else {
                0int
            })
        } else {
            0int
        },
    decreases s.len() - k,
{
    if k < s.len() {
        lemma_occupied_from_update(s, i, v, k + 1);
    }
}

/// The occupied count lies between 0 and the number of slots considered.
proof fn lemma_occupied_from_bounds(s: Seq<Option<Effect>>, k: int)
    requires
        0 <= k <= s.len(),
    ensures
        0 <= occupied_from(s, k) <= s.len() - k,
    decreases s.len() - k,
{
    if k < s.len() {
        lemma_occupied_from_bounds(s, k + 1);
    }
}

/// In a fully occupied suffix there is no free slot.
proof fn lemma_full_no_free(s: Seq<Option<Effect>>, k: int)
    requires
        0 <= k <= s.len(),
        occupied_from(s, k) == s.len() - k,
    ensures
        find_free_from(s, k) is None,
    decreases s.len() - k,
{
    if k < s.len() {
        lemma_occupied_from_bounds(s, k + 1);
        lemma_full_no_free(s, k + 1);
    }
}

/// In a duplicate-free sequence every effect occupies at most one slot, so
/// its count is 1 exactly when it is present.
proof fn lemma_count_when_dupe_free(s: Seq<Option<Effect>>, e: Effect, k: int)
    requires
        dupe_free(s),
        0 <= k <= s.len(),
    ensures
        effect_count_from(s, e, k) == if exists|i: int| k <= i < s.len() && s[i] == Some(e) {
            1int
        } else {
            0int
        },
    decreases s.len() - k,
{
    if k < s.len() {
        lemma_count_when_dupe_free(s, e, k + 1);
        if s[k] == Some(e) {
            assert forall|j: int| k + 1 <= j < s.len() implies s[j] != Some(e) by {
                assert(s[k] != s[j]);
            }
        } else {
            if exists|i: int| k <= i < s.len() && s[i] == Some(e) {
                let i = choose|i: int| k <= i < s.len() && s[i] == Some(e);
                assert(k + 1 <= i < s.len() && s[i] == Some(e));
            }
        }
    }
}

/// Law: a well-formed effect set never holds more than [`CAPACITY`] effects
/// and never holds the same effect twice.
pub proof fn lemma_capacity_invariant(s: Seq<Option<Effect>>)
    requires
        wf_slots(s),
    ensures
        occupied(s) <= CAPACITY,
        forall|e: Effect| #[trigger] effect_count(s, e) <= 1,
{
    lemma_occupied_from_bounds(s, 0);
    assert forall|e: Effect| #[trigger] effect_count(s, e) <= 1 by {
        lemma_count_when_dupe_free(s, e, 0);
    }
}

/// `add` preserves the container invariant.
pub proof fn lemma_add_preserves_wf(s: Seq<Option<Effect>>, e: Effect)
    requires
        wf_slots(s),
    ensures
        wf_slots(spec_add(s, e)),
{
    if !slot_has(s, e) {
        lemma_find_free_from(s, 0);
        if let Some(i) = find_free_from(s, 0) {
            let r = s.update(i, Some(e));
            assert forall|x: int, y: int|
                #![trigger r[x], r[y]]
                0 <= x < y < r.len() && r[x] is Some implies r[x] != r[y] by {
                assert(forall|z: int| 0 <= z < s.len() ==> s[z] != Some(e));
                if x != i && y != i {
                    assert(r[x] == s[x] && r[y] == s[y]);
                }
            }
        }
    }
}

/// `replace` preserves the container invariant.
pub proof fn lemma_replace_preserves_wf(s: Seq<Option<Effect>>, from: Effect, to: Effect)
    requires
        wf_slots(s),
    ensures
        wf_slots(spec_replace(s, from, to)),
{
    lemma_find_effect_from(s, from, 0);
    lemma_find_effect_from(s, to, 0);
    if let Some(i) = find_effect_from(s, from, 0) {
        let cleared = match find_effect_from(s, to, 0) {
            Some(j) => s.update(j, None),
            None => s,
        };
        let r = cleared.update(i, Some(to));
        assert forall|x: int, y: int|
            #![trigger r[x], r[y]]
            0 <= x < y < r.len() && r[x] is Some implies r[x] != r[y] by {
            if let Some(j) = find_effect_from(s, to, 0) {
                // every slot other than j differs from `to`
                assert forall|z: int| 0 <= z < s.len() && z != j implies s[z] != Some(to) by {
                    if z < j {
                        assert(s[z] != s[j] || s[z] is None);
                    } else {
                        assert(s[j] != s[z]);
                    }
                }
            } else {
                assert(forall|z: int| 0 <= z < s.len() ==> s[z] != Some(to));
            }
            if x != i && y != i {
                assert(r[x] == s[x] || r[x] is None);
                assert(r[y] == s[y] || r[y] is None);
            }
        }
    }
}

/// Law: for any sequence of `add` and `replace` operations the effect set
/// stays well formed: at most [`CAPACITY`] effects, never a duplicate.
pub proof fn lemma_steps_preserve_wf(s: Seq<Option<Effect>>, steps: Seq<Step>, k: int)
    requires
        wf_slots(s),
        0 <= k <= steps.len(),
    ensures
        wf_slots(spec_apply_steps_from(s, steps, k)),
        occupied(spec_apply_steps_from(s, steps, k)) <= CAPACITY,
    decreases steps.len() - k,
{
    if k < steps.len() {
        match steps[k] {
            Step::Replace(from, to) => lemma_replace_preserves_wf(s, from, to),
            Step::Add(e) => lemma_add_preserves_wf(s, e),
        }
        lemma_steps_preserve_wf(spec_apply_step(s, steps[k]), steps, k + 1);
    } else {
        lemma_capacity_invariant(s);
    }
}

/// Law: `replace` with an absent first effect is a true no-op, even for the
/// effect it would have introduced.
pub proof fn lemma_replace_absent_noop(s: Seq<Option<Effect>>, from: Effect, to: Effect)
    requires
        !slot_has(s, from),
    ensures
        spec_replace(s, from, to) == s,
{
    lemma_find_effect_iff_has(s, from);
}

/// Law: replacing `from` by a `to` that is already present elsewhere leaves
/// `to` present exactly once, removes `from`, and lowers the occupied count
/// by exactly one.
pub proof fn lemma_replace_conflict(s: Seq<Option<Effect>>, from: Effect, to: Effect)
    requires
        wf_slots(s),
        slot_has(s, from),
        slot_has(s, to),
        from != to,
    ensures
        wf_slots(spec_replace(s, from, to)),
        slot_has(spec_replace(s, from, to), to),
        !slot_has(spec_replace(s, from, to), from),
        effect_count(spec_replace(s, from, to), to) == 1,
        occupied(spec_replace(s, from, to)) == occupied(s) - 1,
{
    lemma_replace_preserves_wf(s, from, to);
    lemma_find_effect_iff_has(s, from);
    lemma_find_effect_iff_has(s, to);
    lemma_find_effect_from(s, from, 0);
    lemma_find_effect_from(s, to, 0);
    let i = find_effect_from(s, from, 0)->0;
    let j = find_effect_from(s, to, 0)->0;
    let cleared = s.update(j, None);
    let r = cleared.update(i, Some(to));
    assert(s[i] == Some(from) && s[j] == Some(to) && i != j);
    // occupied count: clearing j frees one slot, overwriting i keeps it occupied
    lemma_occupied_from_update(s, j, None, 0);
    lemma_occupied_from_update(cleared, i, Some(to), 0);
    // `to` is present (at i) and `from` is gone
    assert(slot_has(r, to)) by {
        assert(r[i] == Some(to));
    }
    assert forall|x: int| 0 <= x < r.len() implies r[x] != Some(from) by {
        if x != i && x != j {
            if x < i {
                assert(s[x] != s[i] || s[x] is None);
            } else {
                assert(s[i] != s[x]);
            }
        }
    }
    lemma_count_when_dupe_free(r, to, 0);
}

/// Law: `add` on a full set is a no-op; the effect is silently dropped.
pub proof fn lemma_add_full_noop(s: Seq<Option<Effect>>, e: Effect)
    requires
        wf_slots(s),
        occupied(s) == CAPACITY,
    ensures
        spec_add(s, e) == s,
{
    if !slot_has(s, e) {
        lemma_full_no_free(s, 0);
    }
}

/// One step applied to a slot sequence.
pub open spec fn spec_apply_step(s: Seq<Option<Effect>>, step: Step) -> Seq<Option<Effect>> {
    match step {
        Step::Replace(from, to) => spec_replace(s, from, to),
        Step::Add(e) => spec_add(s, e),
    }
}

/// The steps at or after `k` applied in order, each against the state the
/// previous ones produced.
pub open spec fn spec_apply_steps_from(s: Seq<Option<Effect>>, steps: Seq<Step>, k: int) -> Seq<
    Option<Effect>,
>
    decreases steps.len() - k,
{
    if k < 0 || k >= steps.len() {
        s
    } else {
        spec_apply_steps_from(spec_apply_step(s, steps[k]), steps, k + 1)
    }
}

/// A whole ordered step list applied to a slot sequence.
pub open spec fn spec_apply_steps(s: Seq<Option<Effect>>, steps: Seq<Step>) -> Seq<Option<Effect>> {
    spec_apply_steps_from(s, steps, 0)
}

/// A bounded, duplicate-free set of effects, physically backed by
/// [`CAPACITY`] slots. Only membership, the multiplier sum and the present
/// effects are observable; the slot layout exists so that `replace` can
/// re-target the replaced effect's own slot.
///
/// The view is the slot sequence, always of length [`CAPACITY`]; every value
/// built through this interface satisfies [`ProductEffects::wf`].
#[derive(Debug)]
pub struct ProductEffects(Vec<Option<Effect>>);

impl View for ProductEffects {
    type V = Seq<Option<Effect>>;

    closed spec fn view(&self) -> Seq<Option<Effect>> {
        self.0@
    }
}

impl ProductEffects {
    /// Container invariant: [`CAPACITY`] slots and no duplicate effect.
    pub open spec fn wf(self) -> bool {
        wf_slots(self@)
    }

    /// Membership test.
    pub fn has(&self, effect: &Effect) -> (r: bool)
        ensures
            r == slot_has(self@, *effect),
    {
        proof {
            lemma_find_effect_iff_has(self@, *effect);
        }
        self.position(effect).is_some()
    }

    /// Slot of the first occurrence of `effect`, if present.
    pub fn position(&self, effect: &Effect) -> (r: Option<usize>)
        ensures
            match r {
                Some(i) => find_effect_from(self@, *effect, 0) == Some(i as int),
                None => find_effect_from(self@, *effect, 0) is None,
            },
    {
        let ghost s = self@;
        let n = self.0.len();
        let mut i: usize = 0;
        while i < n
            invariant
                0 <= i <= n,
                n == s.len(),
                s == self@,
                find_effect_from(s, *effect, 0) == find_effect_from(s, *effect, i as int),
            decreases n - i,
        {
            let hit = match &self.0[i] {
                Some(e) => *e == *effect,
                None => false,
            };
            if hit {
                return Some(i);
            }
            i = i + 1;
        }
        None
    }

    /// Free the given slot.
    pub fn remove(&mut self, index: usize)
        requires
            index < old(self)@.len(),
        ensures
            final(self)@ == old(self)@.update(index as int, None::<Effect>),
    {
        self.0.set(index, None);
    }

    /// `add`: a no-op when `new_effect` is already present or the set is
    /// full; otherwise the first free slot is occupied with `new_effect`.
    pub fn add(&mut self, new_effect: Effect)
        ensures
            final(self)@ == spec_add(old(self)@, new_effect),
    {
        if !self.has(&new_effect) {
            let slot = self.free_slot();
            proof {
                lemma_find_free_from(self@, 0);
            }
            if let Some(index) = slot {
                self.0.set(index, Some(new_effect));
            }
        }
    }

    /// `replace`: a true no-op when `old_effect` is absent. Otherwise, if
    /// `new_effect` already occupies another slot that slot is freed, and
    /// `old_effect`'s own slot is overwritten with `new_effect`.
    pub fn replace(&mut self, old_effect: &Effect, new_effect: Effect)
        ensures
            final(self)@ == spec_replace(old(self)@, *old_effect, new_effect),
    {
        let pos = self.position(old_effect);
        proof {
            lemma_find_effect_from(self@, *old_effect, 0);
        }
        if let Some(index) = pos {
            let conflict = self.position(&new_effect);
            proof {
                lemma_find_effect_from(self@, new_effect, 0);
            }
            if let Some(j) = conflict {
                self.remove(j);
            }
            self.0.set(index, Some(new_effect));
        }
    }

    /// Apply one transformation step.
    pub fn apply_step(&mut self, step: Step)
        ensures
            final(self)@ == spec_apply_step(old(self)@, step),
            old(self).wf() ==> final(self).wf(),
    {
        proof {
            if self.wf() {
                match step {
                    Step::Replace(from, to) => lemma_replace_preserves_wf(self@, from, to),
                    Step::Add(e) => lemma_add_preserves_wf(self@, e),
                }
            }
        }
        match step {
            Step::Replace(from, to) => self.replace(&from, to),
            Step::Add(e) => self.add(e),
        }
    }

    /// Apply an ordered step list, each step against the evolving state the
    /// previous steps produced.
    pub fn apply_steps(&mut self, steps: &Vec<Step>)
        ensures
            final(self)@ == spec_apply_steps(old(self)@, steps@),
            old(self).wf() ==> final(self).wf(),
    {
        let ghost s0 = self@;
        let n = steps.len();
        let mut k: usize = 0;
        while k < n
            invariant
                0 <= k <= n,
                n == steps@.len(),
                spec_apply_steps(s0, steps@) == spec_apply_steps_from(self@, steps@, k as int),
                wf_slots(s0) ==> self.wf(),
            decreases n - k,
        {
            self.apply_step(steps[k]);
            k = k + 1;
        }
    }

    /// First free slot, if any.
    fn free_slot(&self) -> (r: Option<usize>)
        ensures
            match r {
                Some(i) => find_free_from(self@, 0) == Some(i as int),
                None => find_free_from(self@, 0) is None,
            },
    {
        let ghost s = self@;
        let n = self.0.len();
        let mut i: usize = 0;
        while i < n
            invariant
                0 <= i <= n,
                n == s.len(),
                s == self@,
                find_free_from(s, 0) == find_free_from(s, i as int),
            decreases n - i,
        {
            if self.0[i].is_none() {
                return Some(i);
            }
            i = i + 1;
        }
        None
    }

    /// Sum of the multipliers of all present effects, in hundredths.
    pub fn multiplier(&self) -> (m: i64)
        requires
            self@.len() <= CAPACITY,
        ensures
            m == mult_sum(self@),
            0 <= m <= 100 * (CAPACITY as int),
    {
        let ghost s = self@;
        let n = self.0.len();
        let mut sum: i64 = 0;
        let mut i: usize = 0;
        while i < n
            invariant
                0 <= i <= n,
                n == s.len(),
                n <= CAPACITY,
                s == self@,
                sum + mult_sum_from(s, i as int) == mult_sum(s),
                0 <= sum <= 100 * i,
            decreases n - i,
        {
            let m = match &self.0[i] {
                Some(e) => e.multiplier(),
                None => 0,
            };
            sum = sum + m;
            i = i + 1;
        }
        sum
    }

    /// The present effects in slot order: a deterministic enumeration for a
    /// given internal state, used for reporting.
    pub fn iter(&self) -> (r: Vec<Effect>)
        ensures
            r@ == present_from(self@, 0),
    {
        let ghost s = self@;
        let n = self.0.len();
        let mut out: Vec<Effect> = Vec::new();
        proof {
            assert(out@ + present_from(s, 0) =~= present_from(s, 0));
        }
        let mut i: usize = 0;
        while i < n
            invariant
                0 <= i <= n,
                n == s.len(),
                s == self@,
                out@ + present_from(s, i as int) == present_from(s, 0),
            decreases n - i,
        {
            match &self.0[i] {
                Some(e) => {
                    out.push(*e);
                    proof {
                        assert(out@ + present_from(s, i + 1) =~= present_from(s, 0));
                    }
                },
                None => {},
            }
            i = i + 1;
        }
        proof {
            assert(out@ + present_from(s, n as int) =~= out@);
        }
        out
    }
}

impl Default for ProductEffects {
    /// The empty set: every slot free.
    fn default() -> (r: Self)
        ensures
            r@ == empty_slots(),
            r.wf(),
    {
        let mut v: Vec<Option<Effect>> = Vec::new();
        let mut i: usize = 0;
        while i < CAPACITY
            invariant
                0 <= i <= CAPACITY,
                v@ =~= Seq::new(i as nat, |k: int| None::<Effect>),
            decreases CAPACITY - i,
        {
            v.push(None);
            i = i + 1;
        }
        proof {
            assert(v@ =~= empty_slots());
        }
        ProductEffects(v)
    }
}

impl Clone for ProductEffects {
    /// A copy with the same slot contents.
    fn clone(&self) -> (r: Self)
        ensures
            r@ == self@,
    {
        let n = self.0.len();
        let mut v: Vec<Option<Effect>> = Vec::new();
        let mut i: usize = 0;
        while i < n
            invariant
                0 <= i <= n,
                n == self.0.len(),
                v@ =~= self.0@.take(i as int),
            decreases n - i,
        {
            v.push(self.0[i]);
            i = i + 1;
        }
        proof {
            assert(v@ =~= self.0@);
        }
        ProductEffects(v)
    }
}

} // verus!
