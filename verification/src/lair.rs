//! The dragon's lair: lair objects that produce resources, what they cost,
//! and buying more of them.

use vstd::prelude::*;
use std::time::Instant;

verus! {

#[verifier::external_type_specification]
#[verifier::external_body]
pub struct ExInstant(std::time::Instant);

/// `Instant` is `Copy`; its `clone` gives back the same instant.
pub assume_specification[ <std::time::Instant as Clone>::clone ](i: &Instant) -> (r: Instant)
    ensures
        r == *i,
;

/// `Instant::now`: the current time. Nothing is claimed of the value.
#[verifier::external_body]
fn instant_now() -> Instant {
    Instant::now()
}

/// The time a freshly made lair object last produced: now.
pub fn default_instant_now() -> Instant {
    instant_now()
}

/// An amount of each resource, in whole units; `None` is no amount at all.
#[derive(Clone, Copy, Debug, PartialEq, Eq, Structural)]
pub struct ResourceAmount {
    pub food: Option<u64>,
    pub gold: Option<u64>,
}

impl Default for ResourceAmount {
    fn default() -> (r: ResourceAmount)
        ensures
            r == (ResourceAmount { food: None, gold: None }),
    {
        ResourceAmount { food: None, gold: None }
    }
}

/// The amount held of one resource; a missing entry holds nothing.
pub open spec fn held(amount: Option<u64>) -> u64 {
    match amount {
        Some(v) => v,
        None => 0,
    }
}

/// Whether `available` covers the cost `cost` of one resource.
pub open spec fn covers(available: Option<u64>, cost: Option<u64>) -> bool {
    match cost {
        Some(c) => held(available) >= c,
        None => true,
    }
}

/// One resource after paying `cost` out of `available`.
pub open spec fn after_paying(available: Option<u64>, cost: Option<u64>) -> Option<u64> {
    match cost {
        Some(c) => Some((held(available) - c) as u64),
        None => available,
    }
}

fn covers_exec(available: Option<u64>, cost: Option<u64>) -> (b: bool)
    ensures
        b == covers(available, cost),
{
    match cost {
        Some(c) => {
            let have = match available {
                Some(v) => v,
                None => 0,
            };
            have >= c
        },
        None => true,
    }
}

fn pay_exec(available: Option<u64>, cost: Option<u64>) -> (r: Option<u64>)
    requires
        covers(available, cost),
    ensures
        r == after_paying(available, cost),
{
    match cost {
        Some(c) => {
            let have = match available {
                Some(v) => v,
                None => 0,
            };
            Some(have - c)
        },
        None => available,
    }
}

impl ResourceAmount {
    /// Whether `resources` hold at least `cost` of every resource it names.
    pub fn can_afford(resources: &ResourceAmount, cost: &ResourceAmount) -> (b: bool)
        ensures
            b == (covers(resources.food, cost.food) && covers(resources.gold, cost.gold)),
    {
        covers_exec(resources.food, cost.food) && covers_exec(resources.gold, cost.gold)
    }

    /// Takes `cost` out of `resources`; resources the cost does not name are
    /// left as they were.
    pub fn pay_cost(resources: &mut ResourceAmount, cost: &ResourceAmount)
        requires
            covers(old(resources).food, cost.food),
            covers(old(resources).gold, cost.gold),
        ensures
            final(resources).food == after_paying(old(resources).food, cost.food),
            final(resources).gold == after_paying(old(resources).gold, cost.gold),
    {
        resources.food = pay_exec(resources.food, cost.food);
        resources.gold = pay_exec(resources.gold, cost.gold);
    }
}

/// Paying an affordable cost takes away exactly that cost: what is held
/// afterwards plus the cost is what was held before.
pub proof fn lemma_pay_takes_exactly_cost(available: Option<u64>, cost: u64)
    requires
        covers(available, Some(cost)),
    ensures
        held(after_paying(available, Some(cost))) + cost == held(available),
{
}

/// Anything can afford the empty cost, and paying it changes nothing.
pub proof fn lemma_empty_cost_free(resources: ResourceAmount)
    ensures
        covers(resources.food, None) && covers(resources.gold, None),
        after_paying(resources.food, None) == resources.food,
        after_paying(resources.gold, None) == resources.gold,
{
}

/// Something that can be bought.
pub trait Purchaseable {
    /// What one more of it costs.
    fn purchase_cost(&self) -> ResourceAmount;
}

/// An object in the lair that produces resources over time.
#[derive(Clone, Debug)]
pub struct LairObject {
    pub name: String,
    /// The object's experience level.
    pub level: u32,
    pub quantity: u32,
    pub icon_name: Option<String>,
    pub active: bool,
    pub unlocked: bool,
    /// Milliseconds one round of production takes.
    pub production_duration: u64,
    pub production_amount: ResourceAmount,
    pub production_cost: ResourceAmount,
    pub upgrade_cost: ResourceAmount,
    pub last_produced: Instant,
}

impl Purchaseable for LairObject {
    fn purchase_cost(&self) -> (c: ResourceAmount)
        ensures
            c == self.production_cost,
    {
        self.production_cost
    }
}

/// A lair object as made by `LairObject::new` before any other setting:
/// inactive, locked, never finishing production, costing nothing.
pub open spec fn is_fresh(o: LairObject, name: Seq<char>, level: u32, quantity: u32, icon_name: Option<String>) -> bool {
    &&& o.name@ == name
    &&& o.level == level
    &&& o.quantity == quantity
    &&& o.icon_name == icon_name
    &&& !o.active
    &&& !o.unlocked
    &&& o.production_duration == u64::MAX
    &&& o.production_amount == ResourceAmount { food: None, gold: None }
    &&& o.production_cost == ResourceAmount { food: None, gold: None }
    &&& o.upgrade_cost == ResourceAmount { food: None, gold: None }
}

impl LairObject {
    /// A new, inactive and locked lair object that produces nothing, costs
    /// nothing and never finishes a round of production.
    pub fn new(name: String, level: u32, quantity: u32, icon_name: Option<String>) -> (o: LairObject)
        ensures
            is_fresh(o, name@, level, quantity, icon_name),
    {
        LairObject {
            name,
            level,
            quantity,
            icon_name,
            active: false,
            unlocked: false,
            production_duration: u64::MAX,
            production_amount: ResourceAmount::default(),
            production_cost: ResourceAmount::default(),
            upgrade_cost: ResourceAmount::default(),
            last_produced: default_instant_now(),
        }
    }

    /// Buys one more of this object for the player: if the player can
    /// afford the purchase price (currently nothing), it is paid and the
    /// first of the player's lair objects with this object's name gains one
    /// in quantity. Nothing else changes.
    pub fn attempt_purchase(&self, player_data: &mut PlayerData)
        requires
            first_named(old(player_data).lair_objects@, self.name@) matches Some(i) ==> old(
                player_data,
            ).lair_objects@[i].quantity < u32::MAX,
        ensures
            final(player_data).resources_persistent == old(player_data).resources_persistent,
            final(player_data).lair_objects.len() == old(player_data).lair_objects.len(),
            match first_named(old(player_data).lair_objects@, self.name@) {
                Some(i) => {
                    &&& final(player_data).lair_objects@[i] == (LairObject {
                        quantity: (old(player_data).lair_objects@[i].quantity + 1) as u32,
                        ..old(player_data).lair_objects@[i]
                    })
                    &&& forall|j: int|
                        0 <= j < old(player_data).lair_objects.len() && j != i
                            ==> #[trigger] final(player_data).lair_objects@[j] == old(
                            player_data,
                        ).lair_objects@[j]
                },
                None => final(player_data).lair_objects@ == old(player_data).lair_objects@,
            },
    {
        let cost = ResourceAmount::default();
        if !ResourceAmount::can_afford(&player_data.resources_persistent, &cost) {
            return;
        }
        ResourceAmount::pay_cost(&mut player_data.resources_persistent, &cost);
        assert(player_data.resources_persistent == old(player_data).resources_persistent);

        let n = player_data.lair_objects.len();
        let mut i: usize = 0;
        while i < n
            invariant
                n == player_data.lair_objects.len(),
                player_data.lair_objects@ == old(player_data).lair_objects@,
                player_data.resources_persistent == old(player_data).resources_persistent,
                i <= n,
                forall|j: int| 0 <= j < i ==> (#[trigger] player_data.lair_objects@[j]).name@ != self.name@,
                first_named(old(player_data).lair_objects@, self.name@) matches Some(k) ==> old(
                    player_data,
                ).lair_objects@[k].quantity < u32::MAX,
            decreases n - i,
        {
            if player_data.lair_objects[i].name == self.name {
                proof {
                    lemma_first_named_is(player_data.lair_objects@, self.name@, i as int);
                }
                let mut found = player_data.lair_objects.remove(i);
                found.quantity = found.quantity + 1;
                player_data.lair_objects.insert(i, found);
                return;
            }
            i = i + 1;
        }
        proof {
            lemma_first_named_none(player_data.lair_objects@, self.name@);
        }
    }
}

/// The position of the first lair object called `name`, if any.
pub open spec fn first_named(objects: Seq<LairObject>, name: Seq<char>) -> Option<int>
    decreases objects.len(),
{
    if objects.len() == 0 {
        None
    } else if objects[0].name@ == name {
        Some(0)
    } else {
        match first_named(objects.drop_first(), name) {
            Some(i) => Some(i + 1),
            None => None,
        }
    }
}

proof fn lemma_first_named_is(objects: Seq<LairObject>, name: Seq<char>, i: int)
    requires
        0 <= i < objects.len(),
        objects[i].name@ == name,
        forall|j: int| 0 <= j < i ==> (#[trigger] objects[j]).name@ != name,
    ensures
        first_named(objects, name) == Some(i),
    decreases i,
{
    if i > 0 {
        let rest = objects.drop_first();
        assert forall|j: int| 0 <= j < i - 1 implies (#[trigger] rest[j]).name@ != name by {
            assert(rest[j] == objects[j + 1]);
        }
        assert(objects[0].name@ != name);
        lemma_first_named_is(rest, name, i - 1);
    }
}

proof fn lemma_first_named_none(objects: Seq<LairObject>, name: Seq<char>)
    requires
        forall|j: int| 0 <= j < objects.len() ==> (#[trigger] objects[j]).name@ != name,
    ensures
        first_named(objects, name) is None,
    decreases objects.len(),
{
    if objects.len() > 0 {
        let rest = objects.drop_first();
        assert forall|j: int| 0 <= j < rest.len() implies (#[trigger] rest[j]).name@ != name by {
            assert(rest[j] == objects[j + 1]);
        }
        assert(objects[0].name@ != name);
        lemma_first_named_none(rest, name);
    }
}

/// The first lair object found under a name really carries that name.
pub proof fn lemma_first_named_matches(objects: Seq<LairObject>, name: Seq<char>)
    ensures
        first_named(objects, name) matches Some(i) ==> 0 <= i < objects.len() && objects[i].name@ == name,
    decreases objects.len(),
{
    if objects.len() > 0 && objects[0].name@ != name {
        lemma_first_named_matches(objects.drop_first(), name);
    }
}

/// What the player owns that purchases touch.
#[derive(Clone, Debug)]
pub struct PlayerData {
    pub resources_persistent: ResourceAmount,
    pub lair_objects: Vec<LairObject>,
}

impl Default for LairObject {
    fn default() -> (o: LairObject)
        ensures
            is_placeholder(o),
    {
        let name = String::from_str("Empty");
        proof {
            reveal_strlit("Empty");
        }
        LairObject {
            name,
            level: 0,
            quantity: 0,
            icon_name: None,
            active: false,
            unlocked: false,
            production_duration: u64::MAX,
            production_amount: ResourceAmount::default(),
            production_cost: ResourceAmount::default(),
            upgrade_cost: ResourceAmount::default(),
            last_produced: default_instant_now(),
        }
    }
}

/// The empty placeholder object: named `Empty`, level 0, none owned,
/// inactive, locked, never finishing production and costing nothing.
pub open spec fn is_placeholder(o: LairObject) -> bool {
    is_fresh(o, "Empty"@, 0, 0, None)
}

/// The Dragon's Heart: active and unlocked from the start, producing
/// `(1 + level + level² / 10) * quantity` food every five seconds and
/// costing `5 * (1 + level + level² / 100) * quantity` gold.
pub open spec fn is_heart(o: LairObject, level: u32, quantity: u32) -> bool {
    &&& o.name@ == "Dragon's Heart"@
    &&& o.level == level
    &&& o.quantity == quantity
    &&& o.icon_name matches Some(n) && n@ == "dragons_heart"@
    &&& o.active
    &&& o.unlocked
    &&& o.production_duration == 5_000
    &&& o.production_amount == ResourceAmount {
        food: Some((heart_production_multiplier(level) * quantity) as u64),
        gold: None,
    }
    &&& o.production_cost == ResourceAmount {
        food: None,
        gold: Some((5 * heart_cost_multiplier(level) * quantity) as u64),
    }
    &&& o.upgrade_cost == ResourceAmount { food: None, gold: None }
}

/// The Imp Chef: inactive and locked at first, producing
/// `(level + level² / 10) * quantity` food every fifty seconds and costing
/// `5 * (level + level² / 100) * quantity` gold.
pub open spec fn is_imp_chef(o: LairObject, level: u32, quantity: u32) -> bool {
    &&& o.name@ == "Imp Chef"@
    &&& o.level == level
    &&& o.quantity == quantity
    &&& o.icon_name matches Some(n) && n@ == "imp_chef"@
    &&& !o.active
    &&& !o.unlocked
    &&& o.production_duration == 50_000
    &&& o.production_amount == ResourceAmount {
        food: Some((imp_chef_production_multiplier(level) * quantity) as u64),
        gold: None,
    }
    &&& o.production_cost == ResourceAmount {
        food: None,
        gold: Some((5 * imp_chef_cost_multiplier(level) * quantity) as u64),
    }
    &&& o.upgrade_cost == ResourceAmount { food: None, gold: None }
}

/// Production multiplier of the Dragon's Heart at a level.
pub open spec fn heart_production_multiplier(level: u32) -> int {
    1 + level + (level * level) / 10
}

/// Cost multiplier of the Dragon's Heart at a level.
pub open spec fn heart_cost_multiplier(level: u32) -> int {
    1 + level + (level * level) / 100
}

/// Production multiplier of the Imp Chef at a level.
pub open spec fn imp_chef_production_multiplier(level: u32) -> int {
    level + (level * level) / 10
}

/// Cost multiplier of the Imp Chef at a level.
pub open spec fn imp_chef_cost_multiplier(level: u32) -> int {
    level + (level * level) / 100
}

proof fn lemma_multiplier_bounds(level: u32)
    requires
        level * level <= u32::MAX,
    ensures
        1 + level + (level * level) / 10 <= 500_000_000,
        level <= 65535,
{
    assert(level <= 65535) by (nonlinear_arith)
        requires
            level * level <= u32::MAX,
            level >= 0,
    ;
}

proof fn lemma_amount_bounds(multiplier: int, quantity: u32)
    requires
        0 <= multiplier <= 500_000_000,
    ensures
        0 <= multiplier * quantity,
        multiplier * quantity <= u64::MAX,
        5 * multiplier * quantity <= u64::MAX,
{
    assert(0 <= multiplier * quantity) by (nonlinear_arith)
        requires
            0 <= multiplier,
            0 <= quantity,
    ;
    assert(multiplier * quantity <= 500_000_000 * (u32::MAX as int)) by (nonlinear_arith)
        requires
            0 <= multiplier <= 500_000_000,
            0 <= quantity <= u32::MAX,
    ;
    assert(5 * multiplier * quantity == 5 * (multiplier * quantity)) by (nonlinear_arith);
}

/// The Dragon's Heart with `quantity` copies at experience `level`: active
/// and unlocked from the start, producing
/// `(1 + level + level² / 10) * quantity` food every five seconds and costing
/// `5 * (1 + level + level² / 100) * quantity` gold.
pub fn lair_object_00_heart(level: u32, quantity: u32) -> (o: LairObject)
    requires
        level * level <= u32::MAX,
    ensures
        is_heart(o, level, quantity),
{
    proof {
        lemma_multiplier_bounds(level);
        lemma_amount_bounds(heart_production_multiplier(level), quantity);
        lemma_amount_bounds(heart_cost_multiplier(level), quantity);
    }
    let squared: u32 = level * level;
    let multiplier_prod: u32 = 1 + level + squared / 10;
    let multiplier_cost: u32 = 1 + level + squared / 100;
    let production_amount = ResourceAmount {
        food: Some(multiplier_prod as u64 * quantity as u64),
        gold: None,
    };
    let production_cost = ResourceAmount {
        food: None,
        gold: Some(5 * multiplier_cost as u64 * quantity as u64),
    };
    let name = String::from_str("Dragon's Heart");
    let icon = String::from_str("dragons_heart");
    proof {
        reveal_strlit("Dragon's Heart");
        reveal_strlit("dragons_heart");
    }
    LairObject {
        name,
        level,
        quantity,
        icon_name: Some(icon),
        active: true,
        unlocked: true,
        production_duration: 5_000,
        production_amount,
        production_cost,
        upgrade_cost: ResourceAmount::default(),
        last_produced: default_instant_now(),
    }
}

/// The Imp Chef with `quantity` copies at experience `level`: inactive and
/// locked at first, producing `(level + level² / 10) * quantity` food every
/// fifty seconds and costing `5 * (level + level² / 100) * quantity` gold.
pub fn lair_object_01_imp_chef(level: u32, quantity: u32) -> (o: LairObject)
    requires
        level * level <= u32::MAX,
    ensures
        is_imp_chef(o, level, quantity),
{
    proof {
        lemma_multiplier_bounds(level);
        lemma_amount_bounds(imp_chef_production_multiplier(level), quantity);
        lemma_amount_bounds(imp_chef_cost_multiplier(level), quantity);
    }
    let squared: u32 = level * level;
    let multiplier_prod: u32 = level + squared / 10;
    let multiplier_cost: u32 = level + squared / 100;
    let production_amount = ResourceAmount {
        food: Some(multiplier_prod as u64 * quantity as u64),
        gold: None,
    };
    let production_cost = ResourceAmount {
        food: None,
        gold: Some(5 * multiplier_cost as u64 * quantity as u64),
    };
    let name = String::from_str("Imp Chef");
    let icon = String::from_str("imp_chef");
    proof {
        reveal_strlit("Imp Chef");
        reveal_strlit("imp_chef");
    }
    LairObject {
        name,
        level,
        quantity,
        icon_name: Some(icon),
        active: false,
        unlocked: false,
        production_duration: 50_000,
        production_amount,
        production_cost,
        upgrade_cost: ResourceAmount::default(),
        last_produced: default_instant_now(),
    }
}

/// The `n`-th lair object at experience `level`: 0 is one Dragon's Heart, 1
/// is the Imp Chef (none owned yet), anything else the empty placeholder.
pub fn get_lair_object(n: u32, level: u32) -> (o: LairObject)
    requires
        level * level <= u32::MAX,
    ensures
        n == 0 ==> is_heart(o, level, 1),
        n == 1 ==> is_imp_chef(o, level, 0),
        n > 1 ==> is_placeholder(o),
{
    match n {
        0 => lair_object_00_heart(level, 1),
        1 => lair_object_01_imp_chef(level, 0),
        _ => LairObject::default(),
    }
}

/// Experience an object needs to reach the next level: 100 plus 10 per level.
pub fn experience_for_level_up(level: u32) -> (e: u64)
    ensures
        e == 100 + 10 * level,
{
    100 + 10 * level as u64
}

/// How far production has come, in milliseconds: the time since the last
/// production, capped at one production round.
pub fn production_progress(elapsed_ms: u64, production_duration: u64) -> (p: u64)
    ensures
        p == if elapsed_ms < production_duration { elapsed_ms } else { production_duration },
{
    if elapsed_ms < production_duration {
        elapsed_ms
    } else {
        production_duration
    }
}

/// Widget id of an object's purchase button: its name followed by
/// `-purchase-button`.
pub fn purchase_button_id(name: &str) -> (id: String)
    ensures
        id@ == name@ + "-purchase-button"@,
{
    let id = String::from_str(name);
    id.concat("-purchase-button")
}

} // verus!
