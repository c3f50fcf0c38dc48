//! Trainer rules: what an external trainer may read and change of a player,
//! how its edits are checked, and how its effects scale damage and physics.
use vstd::prelude::*;

verus! {

/// Where the game stands, as far as a trainer edit is concerned.
#[derive(Clone, Copy, Debug, PartialEq, Eq, Structural)]
pub enum GameStatus {
    Title,
    Playing,
    Paused,
    Transition,
    Dead,
    Multiplayer,
    Absent,
}

/// What a port lets the trainer do.
#[derive(Clone, Copy, Debug, PartialEq, Eq, Structural)]
pub enum Capability {
    ReadHealth,
    HealOnce,
    EditState,
}

/// Why a trainer request was refused.
#[derive(Clone, Copy, Debug, PartialEq, Eq, Structural)]
pub enum ErrorCode {
    Disabled,
    VersionMismatch,
    WrongInstance,
    InvalidRequest,
    Busy,
    InvalidSession,
    RequestConflict,
    StaleRequest,
    WrongPlayer,
    ContextChanged,
    NotPlayable,
    EffectUnconfirmed,
    Expired,
    InvalidValue,
    Unsupported,
    Capacity,
    Locked,
}

/// A player's health.
#[derive(Clone, Copy, Debug, PartialEq, Eq, Structural)]
pub struct Health {
    pub current: u16,
    pub maximum: u16,
}

/// A weapon as the trainer sees it.
#[derive(Clone, Copy, Debug, PartialEq, Eq)]
pub struct WeaponView {
    pub id: u16,
    pub level: u8,
    pub experience: u16,
    /// Experience needed to pass levels one, two and three.
    pub thresholds: [u16; 3],
    pub ammo: u16,
    pub max_ammo: u16,
}

/// An inventory item and its amount.
#[derive(Clone, Copy, Debug, PartialEq, Eq, Structural)]
pub struct ItemView {
    pub id: u16,
    pub amount: u16,
}

/// A trainer rule for one weapon.
#[derive(Clone, Copy, Debug, PartialEq, Eq, Structural)]
pub struct WeaponEffect {
    pub weapon: u16,
    pub lock_experience: bool,
    pub lock_ammo: bool,
    pub damage_percent: u16,
}

/// The trainer rules in force for a player.
#[derive(Clone, Debug, PartialEq, Eq)]
pub struct Effects {
    pub lock_health: bool,
    pub incoming_damage_percent: u16,
    pub movement_percent: u16,
    pub jump_percent: u16,
    pub weapons: Vec<WeaponEffect>,
}

/// Rules with no effect: full damage, normal movement and jump, no weapon rules.
pub open spec fn no_effects(e: Effects) -> bool {
    &&& !e.lock_health
    &&& e.incoming_damage_percent == 100
    &&& e.movement_percent == 100
    &&& e.jump_percent == 100
    &&& e.weapons@.len() == 0
}

/// The same rules.
pub open spec fn same_effects(a: Effects, b: Effects) -> bool {
    &&& a.lock_health == b.lock_health
    &&& a.incoming_damage_percent == b.incoming_damage_percent
    &&& a.movement_percent == b.movement_percent
    &&& a.jump_percent == b.jump_percent
    &&& a.weapons@ == b.weapons@
}

impl Default for Effects {
    fn default() -> (r: Effects)
        ensures
            no_effects(r),
    {
        Effects {
            lock_health: false,
            incoming_damage_percent: 100,
            movement_percent: 100,
            jump_percent: 100,
            weapons: Vec::new(),
        }
    }
}

impl Effects {
    /// A copy of these rules.
    pub fn duplicate(&self) -> (r: Effects)
        ensures
            same_effects(r, *self),
    {
        let mut weapons: Vec<WeaponEffect> = Vec::new();
        let mut i: usize = 0;
        while i < self.weapons.len()
            invariant
                i <= self.weapons@.len(),
                weapons@ == self.weapons@.subrange(0, i as int),
            decreases self.weapons@.len() - i,
        {
            weapons.push(self.weapons[i]);
            i = i + 1;
        }
        assert(weapons@ =~= self.weapons@);
        Effects {
            lock_health: self.lock_health,
            incoming_damage_percent: self.incoming_damage_percent,
            movement_percent: self.movement_percent,
            jump_percent: self.jump_percent,
            weapons,
        }
    }

    /// Whether two rule sets are the same.
    pub fn same_as(&self, other: &Effects) -> (r: bool)
        ensures
            r == same_effects(*self, *other),
    {
        if self.lock_health != other.lock_health
            || self.incoming_damage_percent != other.incoming_damage_percent
            || self.movement_percent != other.movement_percent
            || self.jump_percent != other.jump_percent
            || self.weapons.len() != other.weapons.len()
        {
            return false;
        }
        let mut i: usize = 0;
        while i < self.weapons.len()
            invariant
                i <= self.weapons@.len(),
                self.weapons@.len() == other.weapons@.len(),
                forall|j: int| 0 <= j < i ==> self.weapons@[j] == other.weapons@[j],
            decreases self.weapons@.len() - i,
        {
            if self.weapons[i] != other.weapons[i] {
                return false;
            }
            i = i + 1;
        }
        assert(self.weapons@ =~= other.weapons@);
        true
    }
}

/// What the trainer can see of a player.
#[derive(Clone, Debug, PartialEq, Eq)]
pub struct Details {
    pub weapons: Vec<WeaponView>,
    pub items: Vec<ItemView>,
    /// Items the game's inventory script knows, by id.
    pub item_catalog: Vec<u16>,
    pub effects: Effects,
}

/// A snapshot of one player for the trainer.
#[derive(Clone, Debug, PartialEq, Eq)]
pub struct GameView {
    pub player: u8,
    pub details: Details,
    pub context_epoch: u64,
    pub stage_id: u16,
    pub status: GameStatus,
    pub health: Option<Health>,
}

/// The player is in play (playing or paused) with a sane, non-zero health.
pub open spec fn view_can_heal(v: GameView) -> bool {
    &&& (v.status == GameStatus::Playing || v.status == GameStatus::Paused)
    &&& match v.health {
        Some(h) => h.maximum > 0 && h.current > 0 && h.current <= h.maximum,
        None => false,
    }
}

impl GameView {
    /// Whether the player may be healed or edited now.
    pub fn can_heal(&self) -> (r: bool)
        ensures
            r == view_can_heal(*self),
    {
        (self.status == GameStatus::Playing || self.status == GameStatus::Paused) && match self.health {
            Some(h) => h.maximum > 0 && h.current > 0 && h.current <= h.maximum,
            None => false,
        }
    }
}

/// `x` limited to `lo..=hi`.
pub open spec fn clamp(x: int, lo: int, hi: int) -> int {
    if x < lo {
        lo
    } else if x > hi {
        hi
    } else {
        x
    }
}

/// Experience gathered by a weapon over all its levels.
pub open spec fn total_xp(w: WeaponView) -> int {
    if w.level == 1 {
        w.experience as int
    } else if w.level == 2 {
        w.thresholds[0] + w.experience
    } else {
        w.thresholds[0] + w.thresholds[1] + w.experience
    }
}

/// The most experience a weapon can hold.
pub open spec fn xp_cap(w: WeaponView) -> int {
    w.thresholds[0] + w.thresholds[1] + w.thresholds[2]
}

/// Level and experience within the level for `total` experience.
pub open spec fn level_of(w: WeaponView, total: int) -> (u8, u16) {
    if total < w.thresholds[0] {
        (1, total as u16)
    } else if total - w.thresholds[0] < w.thresholds[1] {
        (2, (total - w.thresholds[0]) as u16)
    } else {
        (3, (total - w.thresholds[0] - w.thresholds[1]) as u16)
    }
}

/// A weapon whose experience the trainer can shift: not the Spur, at level one
/// to three, with no zero threshold.
pub open spec fn xp_shiftable(w: WeaponView) -> bool {
    &&& w.id != 13
    &&& 1 <= w.level <= 3
    &&& w.thresholds[0] != 0
    &&& w.thresholds[1] != 0
    &&& w.thresholds[2] != 0
}

/// Level and experience after adding `delta` to a weapon's experience,
/// limited to between none and full.
pub open spec fn shifted(w: WeaponView, delta: int) -> (u8, u16) {
    level_of(w, clamp(total_xp(w) + delta, 0, xp_cap(w)))
}

impl WeaponView {
    /// The weapon's level and experience after gaining (or losing) `delta`.
    pub fn shifted_xp(&self, delta: i32) -> (r: Result<(u8, u16), ErrorCode>)
        ensures
            match r {
                Ok(xp) => xp_shiftable(*self) && xp == shifted(*self, delta as int),
                Err(e) => !xp_shiftable(*self) && e == ErrorCode::Unsupported,
            },
    {
        if self.id == 13 || !(1 <= self.level && self.level <= 3) || self.thresholds[0] == 0
            || self.thresholds[1] == 0 || self.thresholds[2] == 0 {
            return Err(ErrorCode::Unsupported);
        }
        let t0 = self.thresholds[0] as i64;
        let t1 = self.thresholds[1] as i64;
        let t2 = self.thresholds[2] as i64;
        let total: i64 = if self.level == 1 {
            self.experience as i64
        } else if self.level == 2 {
            t0 + self.experience as i64
        } else {
            t0 + t1 + self.experience as i64
        };
        let cap = t0 + t1 + t2;
        let sum = total + delta as i64;
        let target = if sum < 0 {
            0
        } else if sum > cap {
            cap
        } else {
            sum
        };
        if target < t0 {
            Ok((1, target as u16))
        } else if target - t0 < t1 {
            Ok((2, (target - t0) as u16))
        } else {
            Ok((3, (target - t0 - t1) as u16))
        }
    }
}

/// Damage taken by a player with `effects`: none under a health lock or for
/// no damage, else scaled by the incoming-damage percentage.
pub open spec fn damage_taken(damage: int, e: Effects) -> int {
    if damage <= 0 || e.lock_health {
        0
    } else {
        let d = damage * e.incoming_damage_percent / 100;
        if d > i32::MAX {
            i32::MAX as int
        } else {
            d
        }
    }
}

/// The damage a player takes from a hit of `damage`.
pub fn incoming_damage(damage: i32, effects: &Effects) -> (r: i32)
    ensures
        r == damage_taken(damage as int, *effects),
{
    if damage <= 0 || effects.lock_health {
        return 0;
    }
    assert(damage as i64 * effects.incoming_damage_percent as i64 <= 2147483647 * 65535) by (nonlinear_arith)
        requires
            0 < damage <= 2147483647,
            0 <= effects.incoming_damage_percent <= 65535,
    ;
    let d: i64 = (damage as i64) * (effects.incoming_damage_percent as i64) / 100;
    if d > i32::MAX as i64 {
        i32::MAX
    } else {
        d as i32
    }
}

/// The rule for `weapon` among `rules`, the first one if several name it.
pub open spec fn rule_for(rules: Seq<WeaponEffect>, weapon: u16) -> Option<WeaponEffect>
    decreases rules.len(),
{
    if rules.len() == 0 {
        None
    } else if rules[0].weapon == weapon {
        Some(rules[0])
    } else {
        rule_for(rules.drop_first(), weapon)
    }
}

/// Finds the rule for `weapon`.
pub fn find_rule(rules: &Vec<WeaponEffect>, weapon: u16) -> (r: Option<WeaponEffect>)
    ensures
        r == rule_for(rules@, weapon),
{
    let mut i: usize = 0;
    assert(rules@.skip(0) =~= rules@);
    while i < rules.len()
        invariant
            i <= rules@.len(),
            rule_for(rules@, weapon) == rule_for(rules@.skip(i as int), weapon),
        decreases rules@.len() - i,
    {
        assert(rules@.skip(i as int).drop_first() =~= rules@.skip(i + 1));
        if rules[i].weapon == weapon {
            return Some(rules[i]);
        }
        i = i + 1;
    }
    None
}

/// Which player a shot belongs to.
#[derive(Clone, Copy, Debug, PartialEq, Eq, Structural)]
pub enum TargetPlayer {
    Player1,
    Player2,
}

/// Damage of a shot of `weapon`: scaled by its owner's damage rule for that
/// weapon, up to the largest `i16`; no damage or healing is left alone.
pub open spec fn shot_damage(damage: int, weapon: u16, rules: Seq<WeaponEffect>) -> int {
    if damage <= 0 {
        damage
    } else {
        let percent = match rule_for(rules, weapon) {
            Some(e) => e.damage_percent as int,
            None => 100,
        };
        let d = damage * percent / 100;
        if d > i16::MAX {
            i16::MAX as int
        } else {
            d
        }
    }
}

/// The damage a shot of `weapon` fired by `owner` deals.
pub fn bullet_damage(damage: i16, weapon: u16, owner: TargetPlayer, player1: &Effects, player2: &Effects) -> (r: i16)
    ensures
        r == shot_damage(
            damage as int,
            weapon,
            match owner {
                TargetPlayer::Player1 => player1.weapons@,
                TargetPlayer::Player2 => player2.weapons@,
            },
        ),
{
    if damage <= 0 {
        return damage;
    }
    let effects = match owner {
        TargetPlayer::Player1 => player1,
        TargetPlayer::Player2 => player2,
    };
    let percent: i32 = match find_rule(&effects.weapons, weapon) {
        Some(e) => e.damage_percent as i32,
        None => 100,
    };
    assert(0 <= percent <= 65535);
    assert(damage as i32 * percent <= 32767 * 65535) by (nonlinear_arith)
        requires
            0 < damage <= 32767,
            0 <= percent <= 65535,
    ;
    let d: i32 = damage as i32 * percent / 100;
    if d > i16::MAX as i32 {
        i16::MAX
    } else {
        d as i16
    }
}

/// `a / b` rounded toward zero, as integer division in Rust rounds.
pub open spec fn div_toward_zero(a: int, b: int) -> int {
    if a >= 0 {
        a / b
    } else {
        -((-a) / b)
    }
}

/// `value` scaled by `percent`, limited to the range of `i32`.
pub open spec fn scaled_value(value: int, percent: int) -> int {
    clamp(div_toward_zero(value * percent, 100), i32::MIN as int, i32::MAX as int)
}

/// Scales a physics constant by a percentage.
pub fn scaled(value: i32, percent: u16) -> (r: i32)
    ensures
        r == scaled_value(value as int, percent as int),
{
    assert(-2147483648 * 65535 <= value as i64 * percent as i64 <= 2147483647 * 65535) by (nonlinear_arith)
        requires
            -2147483648 <= value <= 2147483647,
            0 <= percent <= 65535,
    ;
    let p: i64 = value as i64 * percent as i64 / 100;
    if p < i32::MIN as i64 {
        i32::MIN
    } else if p > i32::MAX as i64 {
        i32::MAX
    } else {
        p as i32
    }
}

/// The player's movement constants.
#[derive(Clone, Copy, Debug, PartialEq, Eq, Structural)]
pub struct PhysicsConsts {
    pub max_dash: i32,
    pub max_move: i32,
    pub gravity_ground: i32,
    pub gravity_air: i32,
    pub dash_ground: i32,
    pub dash_air: i32,
    pub resist: i32,
    pub jump: i32,
}

/// Movement constants under `effects`: dash speeds and resistance follow the
/// movement percentage, the jump the jump percentage; the rest stays.
pub open spec fn boosted(p: PhysicsConsts, e: Effects) -> PhysicsConsts {
    PhysicsConsts {
        max_dash: scaled_value(p.max_dash as int, e.movement_percent as int) as i32,
        dash_ground: scaled_value(p.dash_ground as int, e.movement_percent as int) as i32,
        dash_air: scaled_value(p.dash_air as int, e.movement_percent as int) as i32,
        resist: scaled_value(p.resist as int, e.movement_percent as int) as i32,
        jump: scaled_value(p.jump as int, e.jump_percent as int) as i32,
        ..p
    }
}

/// Every movement constant follows the movement percentage alike: each of
/// the top dash speed, the ground and air acceleration and the resistance is
/// its base value times the movement percentage over 100, rounded toward
/// zero and held within `i32` (for a non-negative value that fits, the one
/// whole number between `v * pct / 100 - 1` exclusive and `v * pct / 100`);
/// the jump follows the jump percentage the same way; the walking speed and
/// gravity stay as they are.
pub proof fn law_movement_constants_scale_alike(b: PhysicsConsts, e: Effects)
    ensures
        ({
            let r = boosted(b, e);
            let m = e.movement_percent as int;
            &&& r.max_dash as int == scaled_value(b.max_dash as int, m)
            &&& r.dash_ground as int == scaled_value(b.dash_ground as int, m)
            &&& r.dash_air as int == scaled_value(b.dash_air as int, m)
            &&& r.resist as int == scaled_value(b.resist as int, m)
            &&& r.jump as int == scaled_value(b.jump as int, e.jump_percent as int)
            &&& r.max_move == b.max_move
            &&& r.gravity_ground == b.gravity_ground
            &&& r.gravity_air == b.gravity_air
            &&& b.dash_ground == b.max_dash ==> r.dash_ground == r.max_dash
            &&& b.dash_ground == b.dash_air ==> r.dash_ground == r.dash_air
            &&& b.dash_ground == b.resist ==> r.dash_ground == r.resist
            &&& 0 <= b.dash_ground && b.dash_ground * m <= 100 * i32::MAX ==> 100 * r.dash_ground <= b.dash_ground * m
                < 100 * r.dash_ground + 100
            &&& 0 <= b.max_dash && b.max_dash * m <= 100 * i32::MAX ==> 100 * r.max_dash <= b.max_dash * m < 100
                * r.max_dash + 100
        }),
{
    let m = e.movement_percent as int;
    lemma_scaled_fits(b.max_dash as int, m);
    lemma_scaled_fits(b.dash_ground as int, m);
    lemma_scaled_fits(b.dash_air as int, m);
    lemma_scaled_fits(b.resist as int, m);
    lemma_scaled_fits(b.jump as int, e.jump_percent as int);
    if 0 <= b.dash_ground && b.dash_ground * m <= 100 * i32::MAX {
        lemma_scaled_floor(b.dash_ground as int, m);
    }
    if 0 <= b.max_dash && b.max_dash * m <= 100 * i32::MAX {
        lemma_scaled_floor(b.max_dash as int, m);
    }
}

proof fn lemma_scaled_fits(v: int, pct: int)
    ensures
        i32::MIN <= scaled_value(v, pct) <= i32::MAX,
{
}

proof fn lemma_scaled_floor(v: int, pct: int)
    requires
        0 <= v,
        0 <= pct,
        v * pct <= 100 * i32::MAX,
    ensures
        100 * scaled_value(v, pct) <= v * pct < 100 * scaled_value(v, pct) + 100,
{
    assert(0 <= v * pct) by (nonlinear_arith)
        requires
            0 <= v,
            0 <= pct,
    ;
    let q = (v * pct) / 100;
    assert(100 * q <= v * pct < 100 * q + 100);
    assert(q <= i32::MAX);
    assert(scaled_value(v, pct) == q);
}

/// The movement constants a player with `effects` uses.
pub fn physics(base: PhysicsConsts, effects: &Effects) -> (r: PhysicsConsts)
    ensures
        r == boosted(base, *effects),
{
    PhysicsConsts {
        max_dash: scaled(base.max_dash, effects.movement_percent),
        dash_ground: scaled(base.dash_ground, effects.movement_percent),
        dash_air: scaled(base.dash_air, effects.movement_percent),
        resist: scaled(base.resist, effects.movement_percent),
        jump: scaled(base.jump, effects.jump_percent),
        ..base
    }
}

/// A change a trainer asks for.
#[derive(Clone, Debug, PartialEq, Eq)]
pub enum Edit {
    Health { current: u16 },
    MaxHealth { maximum: u16 },
    WeaponExperience { weapon: u16, delta: i32 },
    WeaponAmmo { weapon: u16, current: u16, maximum: u16 },
    Item { item: u16, amount: u16 },
    Effects { effects: Effects },
    ClearEffects {},
}

/// The first weapon with `id` in `weapons`.
pub open spec fn weapon_with(weapons: Seq<WeaponView>, id: u16) -> Option<WeaponView>
    decreases weapons.len(),
{
    if weapons.len() == 0 {
        None
    } else if weapons[0].id == id {
        Some(weapons[0])
    } else {
        weapon_with(weapons.drop_first(), id)
    }
}

/// Finds the first weapon with `id`.
pub fn find_weapon(weapons: &Vec<WeaponView>, id: u16) -> (r: Option<WeaponView>)
    ensures
        r == weapon_with(weapons@, id),
{
    let mut i: usize = 0;
    assert(weapons@.skip(0) =~= weapons@);
    while i < weapons.len()
        invariant
            i <= weapons@.len(),
            weapon_with(weapons@, id) == weapon_with(weapons@.skip(i as int), id),
        decreases weapons@.len() - i,
    {
        assert(weapons@.skip(i as int).drop_first() =~= weapons@.skip(i + 1));
        if weapons[i].id == id {
            return Some(weapons[i]);
        }
        i = i + 1;
    }
    None
}

/// Some rule for `weapon` locks its experience.
pub open spec fn experience_locked(rules: Seq<WeaponEffect>, weapon: u16) -> bool {
    exists|i: int| 0 <= i < rules.len() && rules[i].weapon == weapon && rules[i].lock_experience
}

/// Some rule for `weapon` locks its ammunition.
pub open spec fn ammo_locked(rules: Seq<WeaponEffect>, weapon: u16) -> bool {
    exists|i: int| 0 <= i < rules.len() && rules[i].weapon == weapon && rules[i].lock_ammo
}

/// Whether some rule for `weapon` locks experience (`experience`) or ammunition.
fn lock_in_force(rules: &Vec<WeaponEffect>, weapon: u16, experience: bool) -> (r: bool)
    ensures
        r == if experience { experience_locked(rules@, weapon) } else { ammo_locked(rules@, weapon) },
{
    let mut i: usize = 0;
    while i < rules.len()
        invariant
            i <= rules@.len(),
            forall|j: int| 0 <= j < i ==> !(rules@[j].weapon == weapon
                && if experience { rules@[j].lock_experience } else { rules@[j].lock_ammo }),
        decreases rules@.len() - i,
    {
        let rule = rules[i];
        if rule.weapon == weapon && (if experience { rule.lock_experience } else { rule.lock_ammo }) {
            return true;
        }
        i = i + 1;
    }
    false
}

/// The inventory holds an item with `id`.
pub open spec fn holds_item(items: Seq<ItemView>, id: u16) -> bool {
    exists|i: int| 0 <= i < items.len() && items[i].id == id
}

fn item_present(items: &Vec<ItemView>, id: u16) -> (r: bool)
    ensures
        r == holds_item(items@, id),
{
    let mut i: usize = 0;
    while i < items.len()
        invariant
            i <= items@.len(),
            forall|j: int| 0 <= j < i ==> items@[j].id != id,
        decreases items@.len() - i,
    {
        if items[i].id == id {
            return true;
        }
        i = i + 1;
    }
    false
}

fn catalog_lists(catalog: &Vec<u16>, id: u16) -> (r: bool)
    ensures
        r == catalog@.contains(id),
{
    let mut i: usize = 0;
    while i < catalog.len()
        invariant
            i <= catalog@.len(),
            forall|j: int| 0 <= j < i ==> catalog@[j] != id,
        decreases catalog@.len() - i,
    {
        if catalog[i] == id {
            assert(catalog@[i as int] == id);
            return true;
        }
        i = i + 1;
    }
    false
}

/// What is wrong, if anything, with the weapon rule at `i` of `rules` for a
/// player holding `weapons`: an unknown weapon, a lock the weapon cannot have, a
/// damage percentage above 1000 or a weapon ruled twice.
pub open spec fn rule_error(weapons: Seq<WeaponView>, rules: Seq<WeaponEffect>, i: int) -> Option<ErrorCode> {
    let rule = rules[i];
    match weapon_with(weapons, rule.weapon) {
        None => Some(ErrorCode::Unsupported),
        Some(w) => {
            if (rule.lock_experience && w.id == 13) || (rule.lock_ammo && w.max_ammo == 0) {
                Some(ErrorCode::Unsupported)
            } else if rule.damage_percent > 1000 || exists|j: int| 0 <= j < i && rules[j].weapon == rule.weapon {
                Some(ErrorCode::InvalidValue)
            } else {
                None
            }
        },
    }
}

/// The first error among the first `n` weapon rules.
pub open spec fn first_rule_error(weapons: Seq<WeaponView>, rules: Seq<WeaponEffect>, n: nat) -> Option<ErrorCode>
    decreases n,
{
    if n == 0 {
        None
    } else {
        match first_rule_error(weapons, rules, (n - 1) as nat) {
            Some(e) => Some(e),
            None => rule_error(weapons, rules, n - 1),
        }
    }
}

/// `Ok` where `valid`, else the value is refused.
pub open spec fn valid_or_refused(valid: bool) -> Result<(), ErrorCode> {
    if valid {
        Ok(())
    } else {
        Err(ErrorCode::InvalidValue)
    }
}

/// Whether `edit` may be applied to a player with `health`, `weapons` under
/// `rules`, `items`, and the item `catalog` of the game; if not, why.
pub open spec fn edit_check(
    edit: Edit,
    health: Option<Health>,
    weapons: Seq<WeaponView>,
    rules: Seq<WeaponEffect>,
    items: Seq<ItemView>,
    catalog: Seq<u16>,
) -> Result<(), ErrorCode> {
    match edit {
        Edit::Health { current } => valid_or_refused(match health {
            Some(h) => current > 0 && current <= h.maximum,
            None => false,
        }),
        Edit::MaxHealth { maximum } => valid_or_refused(1 <= maximum <= 999),
        Edit::WeaponExperience { weapon, delta } => match weapon_with(weapons, weapon) {
            None => Err(ErrorCode::Unsupported),
            Some(w) => {
                if experience_locked(rules, weapon) {
                    Err(ErrorCode::Locked)
                } else if !xp_shiftable(w) {
                    Err(ErrorCode::Unsupported)
                } else {
                    Ok(())
                }
            },
        },
        Edit::WeaponAmmo { weapon, current, maximum } => match weapon_with(weapons, weapon) {
            None => Err(ErrorCode::Unsupported),
            Some(w) => {
                if w.max_ammo == 0 {
                    Err(ErrorCode::Unsupported)
                } else if ammo_locked(rules, weapon) {
                    Err(ErrorCode::Locked)
                } else {
                    valid_or_refused(maximum > 0 && maximum <= 9999 && current <= maximum)
                }
            },
        },
        Edit::Item { item, amount } => {
            if item == 0 || !catalog.contains(item) {
                Err(ErrorCode::Unsupported)
            } else if amount > 0 && items.len() >= 32 && !holds_item(items, item) {
                Err(ErrorCode::Capacity)
            } else {
                valid_or_refused(amount <= 999)
            }
        },
        Edit::Effects { effects } => {
            if effects.weapons@.len() > 8 {
                Err(ErrorCode::Capacity)
            } else {
                match first_rule_error(weapons, effects.weapons@, effects.weapons@.len()) {
                    Some(e) => Err(e),
                    None => valid_or_refused(
                        effects.incoming_damage_percent <= 100
                            && 100 <= effects.movement_percent <= 300
                            && 100 <= effects.jump_percent <= 200,
                    ),
                }
            }
        },
        Edit::ClearEffects {} => Ok(()),
    }
}

/// Once a rule is wrong, later rules do not change the first error.
proof fn lemma_first_rule_error_stays(weapons: Seq<WeaponView>, rules: Seq<WeaponEffect>, n: nat, m: nat)
    requires
        n <= m,
        first_rule_error(weapons, rules, n) is Some,
    ensures
        first_rule_error(weapons, rules, m) == first_rule_error(weapons, rules, n),
    decreases m - n,
{
    if n < m {
        lemma_first_rule_error_stays(weapons, rules, n, (m - 1) as nat);
    }
}

/// Checks the weapon rules one by one.
fn check_rules(weapons: &Vec<WeaponView>, rules: &Vec<WeaponEffect>) -> (r: Option<ErrorCode>)
    ensures
        r == first_rule_error(weapons@, rules@, rules@.len()),
{
    let mut i: usize = 0;
    while i < rules.len()
        invariant
            i <= rules@.len(),
            first_rule_error(weapons@, rules@, i as nat) is None,
        decreases rules@.len() - i,
    {
        let rule = rules[i];
        let error = match find_weapon(weapons, rule.weapon) {
            None => Some(ErrorCode::Unsupported),
            Some(w) => {
                if (rule.lock_experience && w.id == 13) || (rule.lock_ammo && w.max_ammo == 0) {
                    Some(ErrorCode::Unsupported)
                } else {
                    let mut repeated = false;
                    let mut j: usize = 0;
                    while j < i
                        invariant
                            j <= i < rules@.len(),
                            rule == rules@[i as int],
                            repeated == exists|k: int| 0 <= k < j && rules@[k].weapon == rule.weapon,
                        decreases i - j,
                    {
                        if rules[j].weapon == rule.weapon {
                            repeated = true;
                        }
                        j = j + 1;
                    }
                    if rule.damage_percent > 1000 || repeated {
                        Some(ErrorCode::InvalidValue)
                    } else {
                        None
                    }
                }
            },
        };
        assert(error == rule_error(weapons@, rules@, i as int));
        if error.is_some() {
            proof {
                lemma_first_rule_error_stays(weapons@, rules@, (i + 1) as nat, rules@.len());
            }
            return error;
        }
        i = i + 1;
    }
    None
}

impl Edit {
    /// Checks this edit against the player seen as `view`.
    pub fn validate(&self, view: &GameView) -> (r: Result<(), ErrorCode>)
        ensures
            r == edit_check(
                *self,
                view.health,
                view.details.weapons@,
                view.details.effects.weapons@,
                view.details.items@,
                view.details.item_catalog@,
            ),
    {
        let valid = match self {
            Edit::Health { current } => match view.health {
                Some(h) => *current > 0 && *current <= h.maximum,
                None => false,
            },
            Edit::MaxHealth { maximum } => 1 <= *maximum && *maximum <= 999,
            Edit::WeaponExperience { weapon, delta } => {
                let w = match find_weapon(&view.details.weapons, *weapon) {
                    Some(w) => w,
                    None => return Err(ErrorCode::Unsupported),
                };
                if lock_in_force(&view.details.effects.weapons, *weapon, true) {
                    return Err(ErrorCode::Locked);
                }
                if w.shifted_xp(*delta).is_err() {
                    return Err(ErrorCode::Unsupported);
                }
                true
            },
            Edit::WeaponAmmo { weapon, current, maximum } => {
                let w = match find_weapon(&view.details.weapons, *weapon) {
                    Some(w) => w,
                    None => return Err(ErrorCode::Unsupported),
                };
                if w.max_ammo == 0 {
                    return Err(ErrorCode::Unsupported);
                }
                if lock_in_force(&view.details.effects.weapons, *weapon, false) {
                    return Err(ErrorCode::Locked);
                }
                *maximum > 0 && *maximum <= 9999 && *current <= *maximum
            },
            Edit::Item { item, amount } => {
                if *item == 0 || !catalog_lists(&view.details.item_catalog, *item) {
                    return Err(ErrorCode::Unsupported);
                }
                if *amount > 0 && view.details.items.len() >= 32 && !item_present(&view.details.items, *item) {
                    return Err(ErrorCode::Capacity);
                }
                *amount <= 999
            },
            Edit::Effects { effects } => {
                if effects.weapons.len() > 8 {
                    return Err(ErrorCode::Capacity);
                }
                match check_rules(&view.details.weapons, &effects.weapons) {
                    Some(e) => return Err(e),
                    None => {},
                }
                effects.incoming_damage_percent <= 100 && 100 <= effects.movement_percent
                    && effects.movement_percent <= 300 && 100 <= effects.jump_percent && effects.jump_percent <= 200
            },
            Edit::ClearEffects {} => true,
        };
        if valid {
            Ok(())
        } else {
            Err(ErrorCode::InvalidValue)
        }
    }
}

/// The kinds of weapon a trainer can address by number.
#[derive(Clone, Copy, Debug, PartialEq, Eq, Structural)]
pub enum WeaponType {
    Snake,
    PolarStar,
    Fireball,
    MachineGun,
    MissileLauncher,
    Bubbler,
    Blade,
    SuperMissileLauncher,
    Nemesis,
    Spur,
}

/// The number the game gives each kind of weapon.
pub open spec fn weapon_number(t: WeaponType) -> u16 {
    match t {
        WeaponType::Snake => 1,
        WeaponType::PolarStar => 2,
        WeaponType::Fireball => 3,
        WeaponType::MachineGun => 4,
        WeaponType::MissileLauncher => 5,
        WeaponType::Bubbler => 7,
        WeaponType::Blade => 9,
        WeaponType::SuperMissileLauncher => 10,
        WeaponType::Nemesis => 12,
        WeaponType::Spur => 13,
    }
}

/// The kind of weapon numbered `id`, if any.
pub open spec fn type_numbered(id: u16) -> Option<WeaponType> {
    if id == 1 {
        Some(WeaponType::Snake)
    } else if id == 2 {
        Some(WeaponType::PolarStar)
    } else if id == 3 {
        Some(WeaponType::Fireball)
    } else if id == 4 {
        Some(WeaponType::MachineGun)
    } else if id == 5 {
        Some(WeaponType::MissileLauncher)
    } else if id == 7 {
        Some(WeaponType::Bubbler)
    } else if id == 9 {
        Some(WeaponType::Blade)
    } else if id == 10 {
        Some(WeaponType::SuperMissileLauncher)
    } else if id == 12 {
        Some(WeaponType::Nemesis)
    } else if id == 13 {
        Some(WeaponType::Spur)
    } else {
        None
    }
}

impl WeaponType {
    /// The weapon's number.
    pub fn number(&self) -> (r: u16)
        ensures
            r == weapon_number(*self),
            type_numbered(r) == Some(*self),
            1 <= r <= 13,
    {
        match self {
            WeaponType::Snake => 1,
            WeaponType::PolarStar => 2,
            WeaponType::Fireball => 3,
            WeaponType::MachineGun => 4,
            WeaponType::MissileLauncher => 5,
            WeaponType::Bubbler => 7,
            WeaponType::Blade => 9,
            WeaponType::SuperMissileLauncher => 10,
            WeaponType::Nemesis => 12,
            WeaponType::Spur => 13,
        }
    }
}

/// The kind of weapon numbered `id`; numbers of no weapon are unsupported.
pub fn weapon_type(id: u16) -> (r: Result<WeaponType, ErrorCode>)
    ensures
        match type_numbered(id) {
            Some(t) => r == Ok::<WeaponType, ErrorCode>(t) && weapon_number(t) == id,
            None => r == Err::<WeaponType, ErrorCode>(ErrorCode::Unsupported),
        },
{
    match id {
        1 => Ok(WeaponType::Snake),
        2 => Ok(WeaponType::PolarStar),
        3 => Ok(WeaponType::Fireball),
        4 => Ok(WeaponType::MachineGun),
        5 => Ok(WeaponType::MissileLauncher),
        7 => Ok(WeaponType::Bubbler),
        9 => Ok(WeaponType::Blade),
        10 => Ok(WeaponType::SuperMissileLauncher),
        12 => Ok(WeaponType::Nemesis),
        13 => Ok(WeaponType::Spur),
        _ => Err(ErrorCode::Unsupported),
    }
}

/// A weapon in a player's inventory, with the trainer's locks on it.
#[derive(Clone, Copy, Debug, PartialEq, Eq, Structural)]
pub struct Weapon {
    pub wtype: WeaponType,
    pub level: u8,
    pub experience: u16,
    pub ammo: u16,
    /// Zero for a weapon that needs no ammunition.
    pub max_ammo: u16,
    pub trainer_lock_experience: bool,
    pub trainer_lock_ammo: bool,
}

impl Weapon {
    /// A weapon of `wtype` with no trainer lock.
    pub fn new(wtype: WeaponType, level: u8, experience: u16, ammo: u16, max_ammo: u16) -> (r: Weapon)
        ensures
            r == (Weapon {
                wtype,
                level,
                experience,
                ammo,
                max_ammo,
                trainer_lock_experience: false,
                trainer_lock_ammo: false,
            }),
    {
        Weapon { wtype, level, experience, ammo, max_ammo, trainer_lock_experience: false, trainer_lock_ammo: false }
    }

    /// Spends `amount` of ammunition for a shot and says whether the shot
    /// goes off: always for a weapon without ammunition, else when enough is
    /// left, which a locked weapon then keeps.
    pub fn consume_ammo(&mut self, amount: u16) -> (r: bool)
        ensures
            r == (old(self).max_ammo == 0 || old(self).ammo >= amount),
            final(self).ammo == if old(self).max_ammo != 0 && old(self).ammo >= amount
                && !old(self).trainer_lock_ammo {
                old(self).ammo - amount
            } else {
                old(self).ammo as int
            },
            *final(self) == (Weapon { ammo: final(self).ammo, ..*old(self) }),
    {
        if self.max_ammo == 0 {
            return true;
        }
        if self.ammo >= amount {
            if !self.trainer_lock_ammo {
                self.ammo = self.ammo - amount;
            }
            return true;
        }
        false
    }
}

/// A player's weapons and items.
#[derive(Clone, Debug, PartialEq, Eq)]
pub struct Inventory {
    pub current_weapon: u16,
    pub current_item: u16,
    pub weapons: Vec<Weapon>,
    pub items: Vec<ItemView>,
}

/// `w` refilled unless its ammunition is locked.
pub open spec fn refilled(w: Weapon) -> Weapon {
    if w.trainer_lock_ammo {
        w
    } else {
        Weapon { ammo: w.max_ammo, ..w }
    }
}

/// `w` back at level one with no experience unless its experience is locked.
pub open spec fn reset_xp(w: Weapon) -> Weapon {
    if w.trainer_lock_experience {
        w
    } else {
        Weapon { level: 1, experience: 0, ..w }
    }
}

impl Inventory {
    /// Refills every weapon whose ammunition is not locked.
    pub fn refill_all_ammo(&mut self)
        ensures
            final(self).weapons@ == old(self).weapons@.map_values(|w: Weapon| refilled(w)),
            final(self).items@ == old(self).items@,
            final(self).current_weapon == old(self).current_weapon,
            final(self).current_item == old(self).current_item,
    {
        let mut i: usize = 0;
        while i < self.weapons.len()
            invariant
                i <= self.weapons@.len(),
                self.weapons@.len() == old(self).weapons@.len(),
                forall|j: int| 0 <= j < i ==> self.weapons@[j] == refilled(old(self).weapons@[j]),
                forall|j: int| i <= j < self.weapons@.len() ==> self.weapons@[j] == old(self).weapons@[j],
                self.items@ == old(self).items@,
                self.current_weapon == old(self).current_weapon,
                self.current_item == old(self).current_item,
            decreases self.weapons@.len() - i,
        {
            let w = self.weapons[i];
            if !w.trainer_lock_ammo {
                self.weapons.set(i, Weapon { ammo: w.max_ammo, ..w });
            }
            i = i + 1;
        }
        assert(self.weapons@ =~= old(self).weapons@.map_values(|w: Weapon| refilled(w)));
    }

    /// Sends every weapon whose experience is not locked back to level one.
    pub fn reset_all_weapon_xp(&mut self)
        ensures
            final(self).weapons@ == old(self).weapons@.map_values(|w: Weapon| reset_xp(w)),
            final(self).items@ == old(self).items@,
            final(self).current_weapon == old(self).current_weapon,
            final(self).current_item == old(self).current_item,
    {
        let mut i: usize = 0;
        while i < self.weapons.len()
            invariant
                i <= self.weapons@.len(),
                self.weapons@.len() == old(self).weapons@.len(),
                forall|j: int| 0 <= j < i ==> self.weapons@[j] == reset_xp(old(self).weapons@[j]),
                forall|j: int| i <= j < self.weapons@.len() ==> self.weapons@[j] == old(self).weapons@[j],
                self.items@ == old(self).items@,
                self.current_weapon == old(self).current_weapon,
                self.current_item == old(self).current_item,
            decreases self.weapons@.len() - i,
        {
            let w = self.weapons[i];
            if !w.trainer_lock_experience {
                self.weapons.set(i, Weapon { level: 1, experience: 0, ..w });
            }
            i = i + 1;
        }
        assert(self.weapons@ =~= old(self).weapons@.map_values(|w: Weapon| reset_xp(w)));
    }
}

/// No earlier weapon in `weapons` is of the kind of the one at `j`: the one
/// the game finds when it looks that kind up.
pub open spec fn first_of_kind(weapons: Seq<Weapon>, j: int) -> bool {
    forall|k: int| 0 <= k < j ==> weapons[k].wtype != weapons[j].wtype
}

/// `w` with the locks that `rules` set for its kind, none if no rule names it.
pub open spec fn locked_by(w: Weapon, rules: Seq<WeaponEffect>) -> Weapon {
    match rule_for(rules, weapon_number(w.wtype)) {
        Some(e) => Weapon { trainer_lock_experience: e.lock_experience, trainer_lock_ammo: e.lock_ammo, ..w },
        None => Weapon { trainer_lock_experience: false, trainer_lock_ammo: false, ..w },
    }
}

/// `weapons` with the locks of `rules` on the weapon the game finds for each kind.
pub open spec fn relocked(weapons: Seq<Weapon>, rules: Seq<WeaponEffect>) -> Seq<Weapon> {
    Seq::new(weapons.len(), |j: int| if first_of_kind(weapons, j) { locked_by(weapons[j], rules) } else { weapons[j] })
}

impl Inventory {
    /// Puts the locks of `rules` on the weapons.
    pub fn apply_rules(&mut self, rules: &Vec<WeaponEffect>)
        ensures
            final(self).weapons@ == relocked(old(self).weapons@, rules@),
            final(self).items@ == old(self).items@,
            final(self).current_weapon == old(self).current_weapon,
            final(self).current_item == old(self).current_item,
    {
        let ghost ws = self.weapons@;
        let mut i: usize = 0;
        while i < self.weapons.len()
            invariant
                i <= self.weapons@.len(),
                self.weapons@.len() == ws.len(),
                ws == old(self).weapons@,
                forall|j: int| 0 <= j < self.weapons@.len() ==> #[trigger] self.weapons@[j].wtype == ws[j].wtype,
                forall|j: int| 0 <= j < i ==> self.weapons@[j] == relocked(ws, rules@)[j],
                forall|j: int| i <= j < self.weapons@.len() ==> self.weapons@[j] == ws[j],
                self.items@ == old(self).items@,
                self.current_weapon == old(self).current_weapon,
                self.current_item == old(self).current_item,
            decreases self.weapons@.len() - i,
        {
            let w = self.weapons[i];
            let mut first = true;
            let mut k: usize = 0;
            while k < i
                invariant
                    k <= i < self.weapons@.len(),
                    self.weapons@.len() == ws.len(),
                    w == ws[i as int],
                    forall|j: int| 0 <= j < self.weapons@.len() ==> #[trigger] self.weapons@[j].wtype == ws[j].wtype,
                    first == forall|j: int| 0 <= j < k ==> ws[j].wtype != ws[i as int].wtype,
                decreases i - k,
            {
                if self.weapons[k].wtype == w.wtype {
                    first = false;
                }
                k = k + 1;
            }
            if first {
                let number = w.wtype.number();
                let (lock_experience, lock_ammo) = match find_rule(rules, number) {
                    Some(e) => (e.lock_experience, e.lock_ammo),
                    None => (false, false),
                };
                self.weapons.set(i, Weapon { trainer_lock_experience: lock_experience, trainer_lock_ammo: lock_ammo, ..w });
            }
            i = i + 1;
        }
        assert(self.weapons@ =~= relocked(ws, rules@));
    }
}

/// A player as far as the trainer is concerned.
#[derive(Clone, Debug, PartialEq, Eq)]
pub struct Player {
    pub life: u16,
    pub max_life: u16,
    pub trainer_effects: Effects,
    pub trainer_jump_active: bool,
}

/// Lifts every trainer rule and lock from a player, as a new scene must
/// before it can advance; life and everything else stay.
pub fn clear_player_effects(player: &mut Player, inventory: &mut Inventory)
    ensures
        no_effects(final(player).trainer_effects),
        !final(player).trainer_jump_active,
        final(player).life == old(player).life,
        final(player).max_life == old(player).max_life,
        final(inventory).weapons@ == relocked(old(inventory).weapons@, Seq::<WeaponEffect>::empty()),
        final(inventory).items@ == old(inventory).items@,
        final(inventory).current_weapon == old(inventory).current_weapon,
        final(inventory).current_item == old(inventory).current_item,
{
    player.trainer_effects = Effects::default();
    player.trainer_jump_active = false;
    let none: Vec<WeaponEffect> = Vec::new();
    inventory.apply_rules(&none);
}

/// One player's state that a trainer reads and edits, with what the game
/// around it tells: the weapons' level table, the inventory script's events,
/// the context and the player's status.
#[derive(Clone, Debug, PartialEq, Eq)]
pub struct Port {
    pub id: u8,
    pub player: Player,
    pub inventory: Inventory,
    /// Experience thresholds by weapon number.
    pub level_table: [[u16; 3]; 14],
    /// Event numbers of the inventory script.
    pub inventory_events: Vec<u16>,
    pub epoch: u64,
    pub stage_id: u16,
    pub status: GameStatus,
}

/// On the title screen or not in the game: nothing of the player is shown.
pub open spec fn hidden(status: GameStatus) -> bool {
    status == GameStatus::Title || status == GameStatus::Absent
}

/// How the trainer sees weapon `w`, with thresholds from `table`.
pub open spec fn weapon_view(w: Weapon, table: [[u16; 3]; 14]) -> WeaponView {
    WeaponView {
        id: weapon_number(w.wtype),
        level: w.level,
        experience: w.experience,
        thresholds: table[weapon_number(w.wtype) as int],
        ammo: w.ammo,
        max_ammo: w.max_ammo,
    }
}

/// How the trainer sees `weapons`.
pub open spec fn views_of(weapons: Seq<Weapon>, table: [[u16; 3]; 14]) -> Seq<WeaponView> {
    Seq::new(weapons.len(), |i: int| weapon_view(weapons[i], table))
}

/// The items that inventory-script events 6001 to 6255 stand for, in order.
pub open spec fn catalog_of(events: Seq<u16>) -> Seq<u16>
    decreases events.len(),
{
    if events.len() == 0 {
        Seq::empty()
    } else {
        let rest = catalog_of(events.drop_last());
        let e = events.last();
        if 6001 <= e <= 6255 {
            rest.push((e - 6000) as u16)
        } else {
            rest
        }
    }
}

/// `v` is what port `p` shows: the player's identity and context always, and
/// unless hidden, its health, weapons, items, the item catalog and its rules.
pub open spec fn shows(p: Port, v: GameView) -> bool {
    &&& v.player == p.id
    &&& v.context_epoch == p.epoch
    &&& v.stage_id == p.stage_id
    &&& v.status == p.status
    &&& if hidden(p.status) {
        &&& v.health is None
        &&& v.details.weapons@.len() == 0
        &&& v.details.items@.len() == 0
        &&& v.details.item_catalog@.len() == 0
        &&& no_effects(v.details.effects)
    } else {
        &&& v.health == Some(Health { current: p.player.life, maximum: p.player.max_life })
        &&& v.details.weapons@ == views_of(p.inventory.weapons@, p.level_table)
        &&& v.details.items@ == p.inventory.items@
        &&& v.details.item_catalog@ == catalog_of(p.inventory_events@)
        &&& same_effects(v.details.effects, p.player.trainer_effects)
    }
}

/// The port's player is in play with a sane health: it may be healed or edited.
pub open spec fn port_can_heal(p: Port) -> bool {
    &&& (p.status == GameStatus::Playing || p.status == GameStatus::Paused)
    &&& p.player.max_life > 0
    &&& p.player.life > 0
    &&& p.player.life <= p.player.max_life
}

fn catalog(events: &Vec<u16>) -> (r: Vec<u16>)
    ensures
        r@ == catalog_of(events@),
{
    let mut r: Vec<u16> = Vec::new();
    let mut i: usize = 0;
    while i < events.len()
        invariant
            i <= events@.len(),
            r@ == catalog_of(events@.subrange(0, i as int)),
        decreases events@.len() - i,
    {
        assert(events@.subrange(0, i + 1).drop_last() =~= events@.subrange(0, i as int));
        let e = events[i];
        if 6001 <= e && e <= 6255 {
            r.push(e - 6000);
        }
        i = i + 1;
    }
    assert(events@.subrange(0, events@.len() as int) =~= events@);
    r
}

impl Port {
    /// What the trainer sees of this player.
    pub fn view(&self) -> (v: GameView)
        ensures
            shows(*self, v),
            view_can_heal(v) == port_can_heal(*self),
    {
        if self.status == GameStatus::Title || self.status == GameStatus::Absent {
            return GameView {
                player: self.id,
                context_epoch: self.epoch,
                stage_id: self.stage_id,
                status: self.status,
                health: None,
                details: Details {
                    weapons: Vec::new(),
                    items: Vec::new(),
                    item_catalog: Vec::new(),
                    effects: Effects::default(),
                },
            };
        }
        let mut weapons: Vec<WeaponView> = Vec::new();
        let mut i: usize = 0;
        while i < self.inventory.weapons.len()
            invariant
                i <= self.inventory.weapons@.len(),
                weapons@.len() == i,
                forall|j: int| 0 <= j < i ==> weapons@[j] == weapon_view(self.inventory.weapons@[j], self.level_table),
            decreases self.inventory.weapons@.len() - i,
        {
            let w = self.inventory.weapons[i];
            let n = w.wtype.number();
            weapons.push(
                WeaponView {
                    id: n,
                    level: w.level,
                    experience: w.experience,
                    thresholds: self.level_table[n as usize],
                    ammo: w.ammo,
                    max_ammo: w.max_ammo,
                },
            );
            i = i + 1;
        }
        assert(weapons@ =~= views_of(self.inventory.weapons@, self.level_table));
        let mut items: Vec<ItemView> = Vec::new();
        let mut j: usize = 0;
        while j < self.inventory.items.len()
            invariant
                j <= self.inventory.items@.len(),
                items@ =~= self.inventory.items@.subrange(0, j as int),
            decreases self.inventory.items@.len() - j,
        {
            items.push(self.inventory.items[j]);
            j = j + 1;
        }
        assert(self.inventory.items@.subrange(0, j as int) =~= self.inventory.items@);
        GameView {
            player: self.id,
            context_epoch: self.epoch,
            stage_id: self.stage_id,
            status: self.status,
            health: Some(Health { current: self.player.life, maximum: self.player.max_life }),
            details: Details {
                weapons,
                items,
                item_catalog: catalog(&self.inventory_events),
                effects: self.player.trainer_effects.duplicate(),
            },
        }
    }
}

/// A player cannot be healed now.
#[derive(Clone, Copy, Debug, PartialEq, Eq, Structural)]
pub struct PortError;

/// `a` and `b` differ at most in their player and inventory.
pub open spec fn same_context(a: Port, b: Port) -> bool {
    &&& a.id == b.id
    &&& a.level_table == b.level_table
    &&& a.inventory_events@ == b.inventory_events@
    &&& a.epoch == b.epoch
    &&& a.stage_id == b.stage_id
    &&& a.status == b.status
}

/// The same items and selections in both inventories.
pub open spec fn same_items(a: Inventory, b: Inventory) -> bool {
    &&& a.items@ == b.items@
    &&& a.current_weapon == b.current_weapon
    &&& a.current_item == b.current_item
}

/// `new` is `old` with rules `e` put in force: the rules recorded, the
/// weapon locks set from them, a jump in progress ended by a normal jump
/// rule, and nothing else changed.
pub open spec fn rules_set(old: Port, e: Effects, new: Port) -> bool {
    &&& same_context(old, new)
    &&& same_effects(new.player.trainer_effects, e)
    &&& new.player.life == old.player.life
    &&& new.player.max_life == old.player.max_life
    &&& new.player.trainer_jump_active == (e.jump_percent != 100 && old.player.trainer_jump_active)
    &&& new.inventory.weapons@ == relocked(old.inventory.weapons@, e.weapons@)
    &&& same_items(old.inventory, new.inventory)
}

/// The first weapon of kind `t`.
pub open spec fn weapon_of_kind(weapons: Seq<Weapon>, t: WeaponType) -> Option<Weapon>
    decreases weapons.len(),
{
    if weapons.len() == 0 {
        None
    } else if weapons[0].wtype == t {
        Some(weapons[0])
    } else {
        weapon_of_kind(weapons.drop_first(), t)
    }
}

/// A rule still matches the weapons: its weapon is still held and carries
/// the locks the rule put on it.
pub open spec fn rule_kept(weapons: Seq<Weapon>, rule: WeaponEffect) -> bool {
    match type_numbered(rule.weapon) {
        None => false,
        Some(t) => match weapon_of_kind(weapons, t) {
            None => false,
            Some(w) => w.trainer_lock_experience == rule.lock_experience && w.trainer_lock_ammo == rule.lock_ammo,
        },
    }
}

/// The rules that still match the weapons, in order.
pub open spec fn rules_kept(weapons: Seq<Weapon>, rules: Seq<WeaponEffect>) -> Seq<WeaponEffect>
    decreases rules.len(),
{
    if rules.len() == 0 {
        Seq::empty()
    } else {
        let rest = rules_kept(weapons, rules.drop_last());
        if rule_kept(weapons, rules.last()) {
            rest.push(rules.last())
        } else {
            rest
        }
    }
}

/// `new` is `old` with the rules that no longer match its weapons dropped:
/// unchanged where all still match, else the remaining rules put in force
/// with the other settings kept.
pub open spec fn reconciled(old: Port, new: Port) -> bool {
    let kept = rules_kept(old.inventory.weapons@, old.player.trainer_effects.weapons@);
    let e = new.player.trainer_effects;
    if kept == old.player.trainer_effects.weapons@ {
        new == old
    } else {
        &&& e.weapons@ == kept
        &&& e.lock_health == old.player.trainer_effects.lock_health
        &&& e.incoming_damage_percent == old.player.trainer_effects.incoming_damage_percent
        &&& e.movement_percent == old.player.trainer_effects.movement_percent
        &&& e.jump_percent == old.player.trainer_effects.jump_percent
        &&& rules_set(old, e, new)
    }
}

fn find_weapon_of_kind(weapons: &Vec<Weapon>, t: WeaponType) -> (r: Option<Weapon>)
    ensures
        r == weapon_of_kind(weapons@, t),
{
    let mut i: usize = 0;
    assert(weapons@.skip(0) =~= weapons@);
    while i < weapons.len()
        invariant
            i <= weapons@.len(),
            weapon_of_kind(weapons@, t) == weapon_of_kind(weapons@.skip(i as int), t),
        decreases weapons@.len() - i,
    {
        assert(weapons@.skip(i as int).drop_first() =~= weapons@.skip(i + 1));
        if weapons[i].wtype == t {
            return Some(weapons[i]);
        }
        i = i + 1;
    }
    None
}

impl Port {
    /// Puts `effects` in force for this player.
    pub fn set_effects(&mut self, effects: Effects)
        ensures
            rules_set(*old(self), effects, *final(self)),
    {
        if effects.jump_percent == 100 {
            self.player.trainer_jump_active = false;
        }
        self.inventory.apply_rules(&effects.weapons);
        self.player.trainer_effects = effects;
    }

    /// Lifts every rule and lock from this player.
    pub fn clear_effects(&mut self)
        ensures
            no_effects(final(self).player.trainer_effects),
            rules_set(*old(self), final(self).player.trainer_effects, *final(self)),
    {
        self.set_effects(Effects::default());
    }

    /// Drops the rules whose weapon is gone or whose locks no longer match it,
    /// and puts the rest back in force if any was dropped.
    pub fn reconcile_effects(&mut self)
        ensures
            reconciled(*old(self), *final(self)),
    {
        let ghost ws = self.inventory.weapons@;
        let ghost rules = self.player.trainer_effects.weapons@;
        let mut kept: Vec<WeaponEffect> = Vec::new();
        let mut i: usize = 0;
        while i < self.player.trainer_effects.weapons.len()
            invariant
                i <= rules.len(),
                rules == self.player.trainer_effects.weapons@,
                ws == self.inventory.weapons@,
                kept@ == rules_kept(ws, rules.subrange(0, i as int)),
            decreases rules.len() - i,
        {
            assert(rules.subrange(0, i + 1).drop_last() =~= rules.subrange(0, i as int));
            let rule = self.player.trainer_effects.weapons[i];
            let keep = match weapon_type(rule.weapon) {
                Err(_) => false,
                Ok(t) => match find_weapon_of_kind(&self.inventory.weapons, t) {
                    None => false,
                    Some(w) => w.trainer_lock_experience == rule.lock_experience && w.trainer_lock_ammo
                        == rule.lock_ammo,
                },
            };
            if keep {
                kept.push(rule);
            }
            i = i + 1;
        }
        assert(rules.subrange(0, rules.len() as int) =~= rules);
        let current = &self.player.trainer_effects;
        let effects = Effects {
            lock_health: current.lock_health,
            incoming_damage_percent: current.incoming_damage_percent,
            movement_percent: current.movement_percent,
            jump_percent: current.jump_percent,
            weapons: kept,
        };
        if !effects.same_as(&self.player.trainer_effects) {
            self.set_effects(effects);
        }
    }

    /// What a port offers the trainer: reading health, healing, editing.
    pub fn capabilities(&self) -> (r: Vec<Capability>)
        ensures
            r@ == seq![Capability::ReadHealth, Capability::HealOnce, Capability::EditState],
    {
        let mut r: Vec<Capability> = Vec::new();
        r.push(Capability::ReadHealth);
        r.push(Capability::HealOnce);
        r.push(Capability::EditState);
        r
    }

    /// Heals the player to full health, if it is in play.
    pub fn heal(&mut self) -> (r: Result<(), PortError>)
        ensures
            port_can_heal(*old(self)) ==> r is Ok && *final(self) == (Port {
                player: Player { life: old(self).player.max_life, ..old(self).player },
                ..*old(self)
            }),
            !port_can_heal(*old(self)) ==> r is Err && *final(self) == *old(self),
    {
        if !self.view().can_heal() {
            return Err(PortError);
        }
        self.player.life = self.player.max_life;
        Ok(())
    }
}

/// `k` is the index of the first weapon numbered `id`: the one the game
/// edits for that number.
pub open spec fn is_kind_index(weapons: Seq<Weapon>, id: u16, k: int) -> bool {
    &&& 0 <= k < weapons.len()
    &&& weapon_number(weapons[k].wtype) == id
    &&& forall|j: int| 0 <= j < k ==> weapon_number(#[trigger] weapons[j].wtype) != id
}

/// The index of the first weapon numbered `id` (meaningful where there is one).
pub open spec fn kind_index(weapons: Seq<Weapon>, id: u16) -> int {
    choose|k: int| is_kind_index(weapons, id, k)
}

/// The weapon the trainer finds by number is the first weapon of that number.
proof fn lemma_view_of_kind(weapons: Seq<Weapon>, table: [[u16; 3]; 14], id: u16)
    ensures
        match weapon_with(views_of(weapons, table), id) {
            Some(v) => is_kind_index(weapons, id, kind_index(weapons, id)) && v == weapon_view(
                weapons[kind_index(weapons, id)],
                table,
            ),
            None => forall|j: int| 0 <= j < weapons.len() ==> weapon_number(#[trigger] weapons[j].wtype) != id,
        },
    decreases weapons.len(),
{
    if weapons.len() > 0 {
        let rest = weapons.drop_first();
        assert(views_of(weapons, table).drop_first() =~= views_of(rest, table));
        lemma_view_of_kind(rest, table, id);
        if weapon_number(weapons[0].wtype) == id {
            assert(is_kind_index(weapons, id, 0));
        } else {
            match weapon_with(views_of(rest, table), id) {
                Some(v) => {
                    let k = kind_index(rest, id);
                    assert(is_kind_index(weapons, id, k + 1)) by {
                        assert forall|j: int| 0 <= j < k + 1 implies weapon_number(#[trigger] weapons[j].wtype) != id by {
                            if j > 0 {
                                assert(weapons[j] == rest[j - 1]);
                            }
                        }
                    }
                },
                None => {
                    assert forall|j: int| 0 <= j < weapons.len() implies weapon_number(#[trigger] weapons[j].wtype)
                        != id by {
                        if j > 0 {
                            assert(weapons[j] == rest[j - 1]);
                        }
                    }
                },
            }
        }
    }
}

fn kind_position(weapons: &Vec<Weapon>, id: u16) -> (r: Option<usize>)
    ensures
        match r {
            Some(k) => is_kind_index(weapons@, id, k as int),
            None => forall|j: int| 0 <= j < weapons@.len() ==> weapon_number(#[trigger] weapons@[j].wtype) != id,
        },
{
    let mut i: usize = 0;
    while i < weapons.len()
        invariant
            i <= weapons@.len(),
            forall|j: int| 0 <= j < i ==> weapon_number(#[trigger] weapons@[j].wtype) != id,
        decreases weapons@.len() - i,
    {
        if weapons[i].wtype.number() == id {
            return Some(i);
        }
        i = i + 1;
    }
    None
}

/// `items` without any entry numbered `id`.
pub open spec fn without_item(items: Seq<ItemView>, id: u16) -> Seq<ItemView>
    decreases items.len(),
{
    if items.len() == 0 {
        Seq::empty()
    } else {
        let rest = without_item(items.drop_last(), id);
        if items.last().id == id {
            rest
        } else {
            rest.push(items.last())
        }
    }
}

/// `k` is the index of the first entry numbered `id`.
pub open spec fn is_item_index(items: Seq<ItemView>, id: u16, k: int) -> bool {
    &&& 0 <= k < items.len()
    &&& items[k].id == id
    &&& forall|j: int| 0 <= j < k ==> (#[trigger] items[j]).id != id
}

/// `items` with `amount` of item `id`: its entry dropped for none, the first
/// entry changed if there is one, else a new entry at the end.
pub open spec fn set_item(items: Seq<ItemView>, id: u16, amount: u16) -> Seq<ItemView> {
    if amount == 0 {
        without_item(items, id)
    } else if exists|k: int| is_item_index(items, id, k) {
        let k = choose|k: int| is_item_index(items, id, k);
        items.update(k, ItemView { id, amount })
    } else {
        items.push(ItemView { id, amount })
    }
}

/// The selected item after the inventory has `len` entries: no further than the last.
pub open spec fn item_selection(current: u16, len: nat) -> u16 {
    let last: int = if len == 0 { 0 } else { len - 1 };
    if (current as int) < (last as u16) as int {
        current
    } else {
        last as u16
    }
}

fn item_position(items: &Vec<ItemView>, id: u16) -> (r: Option<usize>)
    ensures
        match r {
            Some(k) => is_item_index(items@, id, k as int),
            None => forall|j: int| 0 <= j < items@.len() ==> (#[trigger] items@[j]).id != id,
        },
{
    let mut i: usize = 0;
    while i < items.len()
        invariant
            i <= items@.len(),
            forall|j: int| 0 <= j < i ==> (#[trigger] items@[j]).id != id,
        decreases items@.len() - i,
    {
        if items[i].id == id {
            return Some(i);
        }
        i = i + 1;
    }
    None
}

impl Inventory {
    /// Holds `amount` of item `id`, keeping the selection within the items.
    pub fn set_item(&mut self, id: u16, amount: u16)
        ensures
            final(self).items@ == set_item(old(self).items@, id, amount),
            final(self).weapons@ == old(self).weapons@,
            final(self).current_weapon == old(self).current_weapon,
            final(self).current_item == item_selection(old(self).current_item, final(self).items@.len()),
    {
        if amount == 0 {
            let mut kept: Vec<ItemView> = Vec::new();
            let mut i: usize = 0;
            while i < self.items.len()
                invariant
                    i <= self.items@.len(),
                    self.items@ == old(self).items@,
                    kept@ == without_item(self.items@.subrange(0, i as int), id),
                decreases self.items@.len() - i,
            {
                assert(self.items@.subrange(0, i + 1).drop_last() =~= self.items@.subrange(0, i as int));
                let entry = self.items[i];
                if entry.id != id {
                    kept.push(entry);
                }
                i = i + 1;
            }
            assert(self.items@.subrange(0, i as int) =~= self.items@);
            self.items = kept;
        } else {
            let found = item_position(&self.items, id);
            match found {
                Some(k) => {
                    assert(is_item_index(self.items@, id, k as int));
                    proof {
                        let c = choose|c: int| is_item_index(self.items@, id, c);
                        assert(c == k as int) by {
                            if c < k as int {
                                assert(self.items@[c].id != id);
                            } else if c > k as int {
                                assert(self.items@[k as int].id != id);
                            }
                        }
                    }
                    self.items.set(k, ItemView { id, amount });
                },
                None => {
                    assert(!exists|k: int| is_item_index(self.items@, id, k)) by {
                        if exists|k: int| is_item_index(self.items@, id, k) {
                            let k = choose|k: int| is_item_index(self.items@, id, k);
                            assert(self.items@[k].id == id);
                        }
                    }
                    self.items.push(ItemView { id, amount });
                },
            }
        }
        let count = self.items.len();
        let last: usize = if count == 0 { 0 } else { count - 1 };
        let last16 = #[verifier::truncate] (last as u16);
        if self.current_item >= last16 {
            self.current_item = last16;
        }
    }
}

/// Whether `edit` is taken on port `p`, and if not, why: a player out of play
/// refuses every edit; else the edit is checked against what the port shows.
pub open spec fn edit_result(p: Port, edit: Edit) -> Result<(), ErrorCode> {
    if !port_can_heal(p) {
        Err(ErrorCode::NotPlayable)
    } else {
        edit_check(
            edit,
            Some(Health { current: p.player.life, maximum: p.player.max_life }),
            views_of(p.inventory.weapons@, p.level_table),
            p.player.trainer_effects.weapons@,
            p.inventory.items@,
            catalog_of(p.inventory_events@),
        )
    }
}

/// Only the weapons changed between `old` and `new`, the one at `k` to `w`.
pub open spec fn weapon_changed(old: Port, new: Port, k: int, w: Weapon) -> bool {
    &&& same_context(old, new)
    &&& new.player == old.player
    &&& same_items(old.inventory, new.inventory)
    &&& new.inventory.weapons@ == old.inventory.weapons@.update(k, w)
}

/// `new` is `old` after the accepted `edit`.
pub open spec fn edited(old: Port, edit: Edit, new: Port) -> bool {
    match edit {
        Edit::Health { current } => new == (Port { player: Player { life: current, ..old.player }, ..old }),
        Edit::MaxHealth { maximum } => new == (Port {
            player: Player {
                max_life: maximum,
                life: if old.player.life < maximum { old.player.life } else { maximum },
                ..old.player
            },
            ..old
        }),
        Edit::WeaponExperience { weapon, delta } => {
            let k = kind_index(old.inventory.weapons@, weapon);
            let w = old.inventory.weapons@[k];
            let xp = shifted(weapon_view(w, old.level_table), delta as int);
            weapon_changed(old, new, k, Weapon { level: xp.0, experience: xp.1, ..w })
        },
        Edit::WeaponAmmo { weapon, current, maximum } => {
            let k = kind_index(old.inventory.weapons@, weapon);
            let w = old.inventory.weapons@[k];
            weapon_changed(old, new, k, Weapon { ammo: current, max_ammo: maximum, ..w })
        },
        Edit::Item { item, amount } => {
            &&& same_context(old, new)
            &&& new.player == old.player
            &&& new.inventory.weapons@ == old.inventory.weapons@
            &&& new.inventory.current_weapon == old.inventory.current_weapon
            &&& new.inventory.items@ == set_item(old.inventory.items@, item, amount)
            &&& new.inventory.current_item == item_selection(old.inventory.current_item, new.inventory.items@.len())
        },
        Edit::Effects { effects } => rules_set(old, effects, new),
        Edit::ClearEffects {} => no_effects(new.player.trainer_effects) && rules_set(
            old,
            new.player.trainer_effects,
            new,
        ),
    }
}

impl Port {
    /// Applies `edit` to this player if it is in play and the edit passes
    /// its checks; else says why and changes nothing.
    pub fn edit(&mut self, edit: &Edit) -> (r: Result<(), ErrorCode>)
        ensures
            r == edit_result(*old(self), *edit),
            r is Ok ==> edited(*old(self), *edit, *final(self)),
            r is Err ==> *final(self) == *old(self),
    {
        let before = self.view();
        if !before.can_heal() {
            return Err(ErrorCode::NotPlayable);
        }
        match edit.validate(&before) {
            Err(e) => return Err(e),
            Ok(()) => {},
        }
        match edit {
            Edit::Health { current } => {
                self.player.life = *current;
            },
            Edit::MaxHealth { maximum } => {
                self.player.max_life = *maximum;
                if self.player.life > *maximum {
                    self.player.life = *maximum;
                }
            },
            Edit::WeaponExperience { weapon, delta } => {
                proof {
                    lemma_view_of_kind(self.inventory.weapons@, self.level_table, *weapon);
                }
                let k = match kind_position(&self.inventory.weapons, *weapon) {
                    Some(k) => k,
                    None => return Err(ErrorCode::Unsupported),
                };
                let w = self.inventory.weapons[k];
                let n = w.wtype.number();
                let view = WeaponView {
                    id: n,
                    level: w.level,
                    experience: w.experience,
                    thresholds: self.level_table[n as usize],
                    ammo: w.ammo,
                    max_ammo: w.max_ammo,
                };
                let (level, experience) = match view.shifted_xp(*delta) {
                    Ok(xp) => xp,
                    Err(e) => return Err(e),
                };
                self.inventory.weapons.set(k, Weapon { level, experience, ..w });
            },
            Edit::WeaponAmmo { weapon, current, maximum } => {
                proof {
                    lemma_view_of_kind(self.inventory.weapons@, self.level_table, *weapon);
                }
                let k = match kind_position(&self.inventory.weapons, *weapon) {
                    Some(k) => k,
                    None => return Err(ErrorCode::Unsupported),
                };
                let w = self.inventory.weapons[k];
                self.inventory.weapons.set(k, Weapon { ammo: *current, max_ammo: *maximum, ..w });
            },
            Edit::Item { item, amount } => {
                self.inventory.set_item(*item, *amount);
            },
            Edit::Effects { effects } => {
                self.set_effects(effects.duplicate());
            },
            Edit::ClearEffects {} => {
                self.clear_effects();
            },
        }
        Ok(())
    }
}

/// What decides a player's status in the current scene.
#[derive(Clone, Copy, Debug, PartialEq, Eq, Structural)]
pub struct SceneFacts {
    pub intro_mode: bool,
    pub two_players: bool,
    pub player_count_modified_in_game: bool,
    /// Whether the player is alive.
    pub alive: bool,
    /// The player's life.
    pub life: u16,
    /// A new scene is about to start.
    pub next_scene: bool,
    pub control_enabled: bool,
    pub replaying: bool,
    /// The game is suspended or its pause menu is open.
    pub paused: bool,
}

/// The status of player `id`, the first reason in this order: the title
/// screen, a second player who is not playing or whose joining is under way,
/// death, a scene change, script control or replay, a pause; else in play.
pub open spec fn scene_status(f: SceneFacts, id: u8) -> GameStatus {
    if f.intro_mode {
        GameStatus::Title
    } else if id == 2 && !f.two_players {
        GameStatus::Absent
    } else if id == 2 && f.player_count_modified_in_game {
        GameStatus::Transition
    } else if !f.alive || f.life == 0 {
        GameStatus::Dead
    } else if f.next_scene || !f.control_enabled || f.replaying {
        GameStatus::Transition
    } else if f.paused {
        GameStatus::Paused
    } else {
        GameStatus::Playing
    }
}

/// The status of player `id` given the scene's facts about it.
pub fn status(facts: SceneFacts, id: u8) -> (r: GameStatus)
    ensures
        r == scene_status(facts, id),
{
    if facts.intro_mode {
        GameStatus::Title
    } else if id == 2 && !facts.two_players {
        GameStatus::Absent
    } else if id == 2 && facts.player_count_modified_in_game {
        GameStatus::Transition
    } else if !facts.alive || facts.life == 0 {
        GameStatus::Dead
    } else if facts.next_scene || !facts.control_enabled || facts.replaying {
        GameStatus::Transition
    } else if facts.paused {
        GameStatus::Paused
    } else {
        GameStatus::Playing
    }
}

/// Whether a port's rules stay (to be reconciled with its weapons) on a tick:
/// while the player is in play, or during a scripted transition that is not a
/// replay.
pub open spec fn rules_stay(p: Port, replaying: bool) -> bool {
    port_can_heal(p) || (p.status == GameStatus::Transition && !replaying)
}

/// Keeps a port's rules in step with the game on each tick: a player out of
/// play loses them, except through a scripted transition; otherwise rules
/// that no longer match the weapons are dropped.
pub fn maintain_effects(port: &mut Port, replaying: bool)
    ensures
        rules_stay(*old(port), replaying) ==> reconciled(*old(port), *final(port)),
        !rules_stay(*old(port), replaying) ==> no_effects(final(port).player.trainer_effects) && rules_set(
            *old(port),
            final(port).player.trainer_effects,
            *final(port),
        ),
{
    let scripted_transition = port.status == GameStatus::Transition && !replaying;
    if !port.view().can_heal() && !scripted_transition {
        port.clear_effects();
    } else {
        port.reconcile_effects();
    }
}

/// The first item numbered `id`.
pub open spec fn item_with(items: Seq<ItemView>, id: u16) -> Option<ItemView>
    decreases items.len(),
{
    if items.len() == 0 {
        None
    } else if items[0].id == id {
        Some(items[0])
    } else {
        item_with(items.drop_first(), id)
    }
}

/// Whether some weapon numbered `id` in `weapons` stands at `level_xp`.
pub open spec fn shows_experience(weapons: Seq<WeaponView>, id: u16, level_xp: (u8, u16)) -> bool {
    exists|i: int|
        0 <= i < weapons.len() && #[trigger] weapons[i].id == id && (weapons[i].level, weapons[i].experience)
            == level_xp
}

/// Whether some weapon numbered `id` in `weapons` holds `current` of `maximum` ammo.
pub open spec fn shows_ammo(weapons: Seq<WeaponView>, id: u16, current: u16, maximum: u16) -> bool {
    exists|i: int|
        0 <= i < weapons.len() && #[trigger] weapons[i].id == id && weapons[i].ammo == current
            && weapons[i].max_ammo == maximum
}

/// Whether the readback `after` shows what `edit` asked for, starting from
/// `before`: the same player and context, still in play, and the edited
/// values in place.
pub open spec fn confirmation(edit: Edit, before: GameView, after: GameView) -> bool {
    &&& before.player == after.player
    &&& before.context_epoch == after.context_epoch
    &&& view_can_heal(after)
    &&& match edit {
        Edit::Health { current } => match (after.health, before.health) {
            (Some(h), Some(b)) => h.current == current && h.maximum == b.maximum,
            _ => false,
        },
        Edit::MaxHealth { maximum } => match (after.health, before.health) {
            (Some(h), Some(b)) => h.maximum == maximum && h.current == if b.current < maximum {
                b.current
            } else {
                maximum
            },
            _ => false,
        },
        Edit::WeaponExperience { weapon, delta } => match weapon_with(before.details.weapons@, weapon) {
            Some(w) => xp_shiftable(w) && shows_experience(after.details.weapons@, weapon, shifted(w, delta as int)),
            None => false,
        },
        Edit::WeaponAmmo { weapon, current, maximum } => shows_ammo(after.details.weapons@, weapon, current, maximum),
        Edit::Item { item, amount } => (match item_with(after.details.items@, item) {
            Some(i) => i.amount,
            None => 0,
        }) == amount,
        Edit::Effects { effects } => same_effects(after.details.effects, effects),
        Edit::ClearEffects {} => no_effects(after.details.effects),
    }
}

fn has_experience(weapons: &Vec<WeaponView>, id: u16, level_xp: (u8, u16)) -> (r: bool)
    ensures
        r == shows_experience(weapons@, id, level_xp),
{
    let mut i: usize = 0;
    while i < weapons.len()
        invariant
            i <= weapons@.len(),
            forall|j: int|
                #![trigger weapons@[j]]
                0 <= j < i ==> !(weapons@[j].id == id && (weapons@[j].level, weapons@[j].experience) == level_xp),
        decreases weapons@.len() - i,
    {
        let v = weapons[i];
        if v.id == id && v.level == level_xp.0 && v.experience == level_xp.1 {
            assert(weapons@[i as int].id == id);
            return true;
        }
        i = i + 1;
    }
    false
}

fn has_ammo(weapons: &Vec<WeaponView>, id: u16, current: u16, maximum: u16) -> (r: bool)
    ensures
        r == shows_ammo(weapons@, id, current, maximum),
{
    let mut i: usize = 0;
    while i < weapons.len()
        invariant
            i <= weapons@.len(),
            forall|j: int|
                #![trigger weapons@[j]]
                0 <= j < i ==> !(weapons@[j].id == id && weapons@[j].ammo == current && weapons@[j].max_ammo
                    == maximum),
        decreases weapons@.len() - i,
    {
        let v = weapons[i];
        if v.id == id && v.ammo == current && v.max_ammo == maximum {
            assert(weapons@[i as int].id == id);
            return true;
        }
        i = i + 1;
    }
    false
}

fn find_item(items: &Vec<ItemView>, id: u16) -> (r: Option<ItemView>)
    ensures
        r == item_with(items@, id),
{
    let mut i: usize = 0;
    assert(items@.skip(0) =~= items@);
    while i < items.len()
        invariant
            i <= items@.len(),
            item_with(items@, id) == item_with(items@.skip(i as int), id),
        decreases items@.len() - i,
    {
        assert(items@.skip(i as int).drop_first() =~= items@.skip(i + 1));
        if items[i].id == id {
            return Some(items[i]);
        }
        i = i + 1;
    }
    None
}

impl Edit {
    /// Whether the readback `after` confirms this edit made from `before`,
    /// whatever became of the request that carried it.
    pub fn confirmed(&self, before: &GameView, after: &GameView) -> (r: bool)
        ensures
            r == confirmation(*self, *before, *after),
    {
        if before.player != after.player || before.context_epoch != after.context_epoch || !after.can_heal() {
            return false;
        }
        match self {
            Edit::Health { current } => match (after.health, before.health) {
                (Some(h), Some(b)) => h.current == *current && h.maximum == b.maximum,
                _ => false,
            },
            Edit::MaxHealth { maximum } => match (after.health, before.health) {
                (Some(h), Some(b)) => h.maximum == *maximum && h.current == if b.current < *maximum {
                    b.current
                } else {
                    *maximum
                },
                _ => false,
            },
            Edit::WeaponExperience { weapon, delta } => {
                let w = match find_weapon(&before.details.weapons, *weapon) {
                    Some(w) => w,
                    None => return false,
                };
                match w.shifted_xp(*delta) {
                    Ok(xp) => has_experience(&after.details.weapons, *weapon, xp),
                    Err(_) => false,
                }
            },
            Edit::WeaponAmmo { weapon, current, maximum } => has_ammo(
                &after.details.weapons,
                *weapon,
                *current,
                *maximum,
            ),
            Edit::Item { item, amount } => {
                let held = match find_item(&after.details.items, *item) {
                    Some(i) => i.amount,
                    None => 0,
                };
                held == *amount
            },
            Edit::Effects { effects } => after.details.effects.same_as(effects),
            Edit::ClearEffects {} => {
                let e = &after.details.effects;
                !e.lock_health && e.incoming_damage_percent == 100 && e.movement_percent == 100
                    && e.jump_percent == 100 && e.weapons.len() == 0
            },
        }
    }
}

/// Rules that pass their checks never make a player take more damage than
/// without rules.
pub proof fn law_valid_rules_never_raise_damage(
    effects: Effects,
    health: Option<Health>,
    weapons: Seq<WeaponView>,
    rules: Seq<WeaponEffect>,
    items: Seq<ItemView>,
    catalog: Seq<u16>,
    damage: int,
)
    requires
        edit_check(Edit::Effects { effects }, health, weapons, rules, items, catalog) is Ok,
        i32::MIN <= damage <= i32::MAX,
    ensures
        0 <= damage_taken(damage, effects) <= if damage > 0 { damage } else { 0 },
{
    if damage > 0 && !effects.lock_health {
        let p = effects.incoming_damage_percent as int;
        assert(0 <= damage * p / 100 <= damage) by (nonlinear_arith)
            requires
                damage > 0,
                0 <= p <= 100,
        ;
    }
}

/// Under a health lock a player takes no damage at all.
pub proof fn law_health_lock_blocks_damage(effects: Effects, damage: int)
    requires
        effects.lock_health,
    ensures
        damage_taken(damage, effects) == 0,
{
}

/// Rules with no effect leave the movement constants as they are.
pub proof fn law_normal_rules_keep_physics(p: PhysicsConsts, effects: Effects)
    requires
        no_effects(effects),
    ensures
        boosted(p, effects) == p,
{
    assert forall|v: i32| #[trigger] scaled_value(v as int, 100) == v as int by {
        let x = v as int;
        if x >= 0 {
            assert(x * 100 / 100 == x) by (nonlinear_arith);
        } else {
            assert((-(x * 100)) / 100 == -x) by (nonlinear_arith)
                requires
                    x < 0,
            ;
        }
    }
    assert(scaled_value(p.max_dash as int, 100) == p.max_dash as int);
    assert(scaled_value(p.dash_ground as int, 100) == p.dash_ground as int);
    assert(scaled_value(p.dash_air as int, 100) == p.dash_air as int);
    assert(scaled_value(p.resist as int, 100) == p.resist as int);
    assert(scaled_value(p.jump as int, 100) == p.jump as int);
}

/// A shift of experience always lands on a level from one to three, within
/// that level's threshold.
pub proof fn law_shifted_experience_in_range(w: WeaponView, delta: int)
    requires
        xp_shiftable(w),
    ensures
        1 <= shifted(w, delta).0 <= 3,
        shifted(w, delta).0 == 1 ==> shifted(w, delta).1 < w.thresholds[0],
        shifted(w, delta).0 == 2 ==> shifted(w, delta).1 < w.thresholds[1],
        shifted(w, delta).0 == 3 ==> shifted(w, delta).1 <= w.thresholds[2],
{
}

/// The item found by number is the first entry of that number.
proof fn lemma_item_with(items: Seq<ItemView>, id: u16)
    ensures
        match item_with(items, id) {
            Some(i) => exists|k: int| is_item_index(items, id, k) && i == items[k],
            None => forall|j: int| 0 <= j < items.len() ==> (#[trigger] items[j]).id != id,
        },
    decreases items.len(),
{
    if items.len() > 0 {
        let rest = items.drop_first();
        lemma_item_with(rest, id);
        if items[0].id == id {
            assert(is_item_index(items, id, 0));
        } else {
            match item_with(rest, id) {
                Some(i) => {
                    let k = choose|k: int| is_item_index(rest, id, k) && i == rest[k];
                    assert(is_item_index(items, id, k + 1)) by {
                        assert forall|j: int| 0 <= j < k + 1 implies (#[trigger] items[j]).id != id by {
                            if j > 0 {
                                assert(items[j] == rest[j - 1]);
                            }
                        }
                    }
                },
                None => {
                    assert forall|j: int| 0 <= j < items.len() implies (#[trigger] items[j]).id != id by {
                        if j > 0 {
                            assert(items[j] == rest[j - 1]);
                        }
                    }
                },
            }
        }
    }
}

/// Nothing numbered `id` is left once its entries are dropped.
proof fn lemma_without_item(items: Seq<ItemView>, id: u16)
    ensures
        forall|j: int| 0 <= j < without_item(items, id).len() ==> (#[trigger] without_item(items, id)[j]).id != id,
    decreases items.len(),
{
    if items.len() > 0 {
        let rest = without_item(items.drop_last(), id);
        lemma_without_item(items.drop_last(), id);
        if items.last().id != id {
            assert forall|j: int| 0 <= j < rest.push(items.last()).len() implies (#[trigger] rest.push(
                items.last(),
            )[j]).id != id by {
                if j < rest.len() {
                    assert(rest.push(items.last())[j] == rest[j]);
                }
            }
        }
    }
}

/// After `set_item`, the first entry numbered `id` holds `amount`, or none
/// is left where `amount` is zero.
proof fn lemma_set_item_reads_back(items: Seq<ItemView>, id: u16, amount: u16)
    ensures
        (match item_with(set_item(items, id, amount), id) {
            Some(i) => i.amount,
            None => 0,
        }) == amount,
{
    let s = set_item(items, id, amount);
    lemma_item_with(s, id);
    if amount == 0 {
        lemma_without_item(items, id);
        if item_with(s, id) is Some {
            let k = choose|k: int| is_item_index(s, id, k) && item_with(s, id) == Some(s[k]);
            assert(s[k].id == id);
        }
    } else {
        let n = ItemView { id, amount };
        let k0: int = if exists|k: int| is_item_index(items, id, k) {
            choose|k: int| is_item_index(items, id, k)
        } else {
            items.len() as int
        };
        if !exists|k: int| is_item_index(items, id, k) {
            lemma_item_with(items, id);
            if item_with(items, id) is Some {
                let k = choose|k: int| is_item_index(items, id, k) && item_with(items, id) == Some(items[k]);
                assert(is_item_index(items, id, k));
            }
        }
        assert(is_item_index(s, id, k0)) by {
            assert forall|j: int| 0 <= j < k0 implies (#[trigger] s[j]).id != id by {
                assert(s[j] == items[j]);
            }
        }
        match item_with(s, id) {
            Some(i) => {
                let k = choose|k: int| is_item_index(s, id, k) && i == s[k];
                if k < k0 {
                    assert(s[k].id != id);
                } else if k > k0 {
                    assert(s[k0].id != id);
                }
            },
            None => {
                assert(s[k0].id == id);
            },
        }
    }
}

/// An edit that a port takes is confirmed by the port's readback: the view
/// after the edit shows what the edit asked for, against the view before.
pub proof fn law_accepted_edit_is_confirmed(p: Port, edit: Edit, q: Port, before: GameView, after: GameView)
    requires
        edit_result(p, edit) is Ok,
        edited(p, edit, q),
        shows(p, before),
        shows(q, after),
    ensures
        confirmation(edit, before, after),
{
    match edit {
        Edit::WeaponExperience { weapon, delta } => {
            lemma_view_of_kind(p.inventory.weapons@, p.level_table, weapon);
            let k = kind_index(p.inventory.weapons@, weapon);
            assert(after.details.weapons@[k].id == weapon);
        },
        Edit::WeaponAmmo { weapon, current, maximum } => {
            lemma_view_of_kind(p.inventory.weapons@, p.level_table, weapon);
            let k = kind_index(p.inventory.weapons@, weapon);
            assert(after.details.weapons@[k].id == weapon);
        },
        Edit::Item { item, amount } => {
            lemma_set_item_reads_back(p.inventory.items@, item, amount);
        },
        _ => {},
    }
}

/// The source of fresh context numbers for the trainer, shared by every
/// player's context: each number handed out is the previous one plus one.
#[derive(Clone, Copy, Debug, PartialEq, Eq, Structural)]
pub struct EpochCounter {
    pub next: u64,
}

impl EpochCounter {
    /// A counter whose first number is one.
    pub fn new() -> (r: EpochCounter)
        ensures
            r.next == 1,
    {
        EpochCounter { next: 1 }
    }

    /// Hands out the next number (the count wraps past the largest `u64`).
    pub fn fetch(&mut self) -> (r: u64)
        ensures
            r == old(self).next,
            final(self).next == (old(self).next + 1) % 0x1_0000_0000_0000_0000,
    {
        let r = self.next;
        self.next = self.next.wrapping_add(1);
        r
    }
}

/// The trainer's view of the scene's two contexts: the context number of
/// each player and what was last seen of the second player.
#[derive(Clone, Copy, Debug)]
pub struct Adapter {
    pub epoch: u64,
    pub player2_epoch: u64,
    /// Whether two players play, and whether the second is alive and has life.
    pub player2_state: Option<(bool, bool, bool)>,
}

impl Adapter {
    /// Fresh contexts for both players, nothing seen of the second yet.
    pub fn new(counter: &mut EpochCounter) -> (r: Adapter)
        ensures
            r.epoch == old(counter).next,
            r.player2_epoch == (old(counter).next + 1) % 0x1_0000_0000_0000_0000,
            r.player2_state is None,
            final(counter).next == (old(counter).next + 2) % 0x1_0000_0000_0000_0000,
    {
        let epoch = counter.fetch();
        let player2_epoch = counter.fetch();
        Adapter { epoch, player2_epoch, player2_state: None }
    }

    /// Starts new contexts for both players when the scene is handed over,
    /// and returns the first player's, under which the session continues.
    pub fn transfer_context(&mut self, counter: &mut EpochCounter) -> (r: u64)
        ensures
            r == final(self).epoch,
            final(self).epoch == old(counter).next,
            final(self).player2_epoch == (old(counter).next + 1) % 0x1_0000_0000_0000_0000,
            final(self).player2_state == old(self).player2_state,
            final(counter).next == (old(counter).next + 2) % 0x1_0000_0000_0000_0000,
    {
        self.epoch = counter.fetch();
        self.player2_epoch = counter.fetch();
        self.epoch
    }

    /// Records what is seen of the second player; a change starts a new
    /// context for it alone, and is reported.
    pub fn observe_player2(&mut self, state: (bool, bool, bool), counter: &mut EpochCounter) -> (r: bool)
        ensures
            r == (old(self).player2_state != Some(state)),
            final(self).epoch == old(self).epoch,
            final(self).player2_state == Some(state),
            r ==> final(self).player2_epoch == old(counter).next && final(counter).next == (old(counter).next
                + 1) % 0x1_0000_0000_0000_0000,
            !r ==> final(self).player2_epoch == old(self).player2_epoch && *final(counter) == *old(counter),
    {
        let same = match self.player2_state {
            Some(seen) => seen.0 == state.0 && seen.1 == state.1 && seen.2 == state.2,
            None => false,
        };
        if same {
            return false;
        }
        self.player2_state = Some(state);
        self.player2_epoch = counter.fetch();
        true
    }
}

/// The largest frame, in bytes, that crosses the trainer's Android bridge.
pub const MAX_FRAME_BYTES: usize = 16384;

/// Why a frame from the Android bridge is refused before it is read.
#[derive(Clone, Copy, Debug, PartialEq, Eq, Structural)]
pub enum FrameError {
    /// The connection number is not positive or the send count is negative.
    InvalidMetadata,
    /// The frame is empty or longer than the limit.
    TooLarge,
}

/// Checks a frame's connection, send count and length in bytes.
pub fn check_frame(connection: i64, sent: i64, len: usize) -> (r: Result<(), FrameError>)
    ensures
        connection <= 0 || sent < 0 ==> r == Err::<(), FrameError>(FrameError::InvalidMetadata),
        !(connection <= 0 || sent < 0) && (len == 0 || len > MAX_FRAME_BYTES) ==> r == Err::<(), FrameError>(
            FrameError::TooLarge,
        ),
        !(connection <= 0 || sent < 0) && !(len == 0 || len > MAX_FRAME_BYTES) ==> r == Ok::<(), FrameError>(()),
{
    if connection <= 0 || sent < 0 {
        return Err(FrameError::InvalidMetadata);
    }
    if len == 0 || len > MAX_FRAME_BYTES {
        return Err(FrameError::TooLarge);
    }
    Ok(())
}

/// Milliseconds of a boot-time clock reading of `secs` seconds and `nanos`
/// nanoseconds, the seconds' part saturating.
pub fn boot_millis(secs: u64, nanos: u64) -> (r: u64)
    requires
        (if secs * 1000 > u64::MAX { u64::MAX as int } else { secs * 1000 }) + nanos / 1_000_000 <= u64::MAX,
    ensures
        r == (if secs * 1000 > u64::MAX { u64::MAX as int } else { secs * 1000 }) + nanos / 1_000_000,
{
    let millis: u64 = if secs > u64::MAX / 1000 { u64::MAX } else { secs * 1000 };
    millis + nanos / 1_000_000
}

/// No two rules name the same weapon, as rules that pass their checks do.
pub open spec fn rules_distinct(rules: Seq<WeaponEffect>) -> bool {
    forall|i: int, j: int| 0 <= i < rules.len() && 0 <= j < rules.len() && rules[i].weapon == rules[j].weapon ==> i == j
}

proof fn lemma_kept_members(weapons: Seq<Weapon>, rules: Seq<WeaponEffect>)
    ensures
        forall|x: WeaponEffect|
            #[trigger] rules_kept(weapons, rules).contains(x) ==> rules.contains(x) && rule_kept(weapons, x),
    decreases rules.len(),
{
    if rules.len() > 0 {
        let front = rules.drop_last();
        lemma_kept_members(weapons, front);
        assert forall|x: WeaponEffect| #[trigger] rules_kept(weapons, rules).contains(x) implies rules.contains(x)
            && rule_kept(weapons, x) by {
            let rest = rules_kept(weapons, front);
            let k = choose|k: int| 0 <= k < rules_kept(weapons, rules).len() && rules_kept(weapons, rules)[k] == x;
            if k < rest.len() {
                assert(rest[k] == x);
                assert(rest.contains(x));
                let m = choose|m: int| 0 <= m < front.len() && front[m] == x;
                assert(rules[m] == x);
            } else {
                assert(x == rules.last());
                assert(rules[rules.len() - 1] == x);
            }
        }
    }
}

proof fn lemma_kept_all(weapons: Seq<Weapon>, rules: Seq<WeaponEffect>)
    requires
        forall|x: WeaponEffect| #[trigger] rules.contains(x) ==> rule_kept(weapons, x),
    ensures
        rules_kept(weapons, rules) == rules,
    decreases rules.len(),
{
    if rules.len() > 0 {
        let front = rules.drop_last();
        assert forall|x: WeaponEffect| #[trigger] front.contains(x) implies rule_kept(weapons, x) by {
            let m = choose|m: int| 0 <= m < front.len() && front[m] == x;
            assert(rules[m] == x);
            assert(rules.contains(x));
        }
        lemma_kept_all(weapons, front);
        assert(rules[rules.len() - 1] == rules.last());
        assert(rules.contains(rules.last()));
        assert(front.push(rules.last()) =~= rules);
    }
}

proof fn lemma_rule_for(rules: Seq<WeaponEffect>, n: u16)
    ensures
        rule_for(rules, n) matches Some(x) ==> rules.contains(x) && x.weapon == n,
        rule_for(rules, n) is None ==> forall|j: int| 0 <= j < rules.len() ==> (#[trigger] rules[j]).weapon != n,
    decreases rules.len(),
{
    if rules.len() > 0 {
        let rest = rules.drop_first();
        lemma_rule_for(rest, n);
        if rules[0].weapon != n {
            if let Some(x) = rule_for(rest, n) {
                let m = choose|m: int| 0 <= m < rest.len() && rest[m] == x;
                assert(rules[m + 1] == x);
            } else {
                assert forall|j: int| 0 <= j < rules.len() implies (#[trigger] rules[j]).weapon != n by {
                    if j > 0 {
                        assert(rules[j] == rest[j - 1]);
                    }
                }
            }
        } else {
            assert(rules[0] == rules[0]);
        }
    }
}

proof fn lemma_weapon_of_kind(weapons: Seq<Weapon>, t: WeaponType)
    ensures
        weapon_of_kind(weapons, t) matches Some(w) ==> exists|k: int|
            0 <= k < weapons.len() && weapons[k] == w && w.wtype == t && first_of_kind(weapons, k),
        weapon_of_kind(weapons, t) is None ==> forall|j: int| 0 <= j < weapons.len() ==> (#[trigger] weapons[j]).wtype != t,
    decreases weapons.len(),
{
    if weapons.len() > 0 {
        let rest = weapons.drop_first();
        lemma_weapon_of_kind(rest, t);
        if weapons[0].wtype == t {
            assert(first_of_kind(weapons, 0));
        } else if let Some(w) = weapon_of_kind(rest, t) {
            let k = choose|k: int| 0 <= k < rest.len() && rest[k] == w && w.wtype == t && first_of_kind(rest, k);
            assert(weapons[k + 1] == w);
            assert forall|j: int| 0 <= j < k + 1 implies (#[trigger] weapons[j]).wtype != weapons[k + 1].wtype by {
                if j > 0 {
                    assert(weapons[j] == rest[j - 1]);
                }
            }
        } else {
            assert forall|j: int| 0 <= j < weapons.len() implies (#[trigger] weapons[j]).wtype != t by {
                if j > 0 {
                    assert(weapons[j] == rest[j - 1]);
                }
            }
        }
    }
}

/// The first weapon of a kind stays first, and where it is, after its locks change.
proof fn lemma_relocked_kind(weapons: Seq<Weapon>, rules: Seq<WeaponEffect>, t: WeaponType)
    requires
        weapon_of_kind(weapons, t) is Some,
    ensures
        weapon_of_kind(relocked(weapons, rules), t) == Some(locked_by(weapon_of_kind(weapons, t)->0, rules)),
{
    let after = relocked(weapons, rules);
    lemma_weapon_of_kind(weapons, t);
    lemma_weapon_of_kind(after, t);
    let w = weapon_of_kind(weapons, t)->0;
    let k = choose|k: int| 0 <= k < weapons.len() && weapons[k] == w && w.wtype == t && first_of_kind(weapons, k);
    assert(after[k] == locked_by(w, rules));
    match weapon_of_kind(after, t) {
        Some(v) => {
            let m = choose|m: int| 0 <= m < after.len() && after[m] == v && v.wtype == t && first_of_kind(after, m);
            if m < k {
                assert(after[m].wtype == weapons[m].wtype);
            } else if m > k {
                assert(after[k].wtype == t);
            }
        },
        None => {
            assert(after[k].wtype == t);
        },
    }
}

/// Reconciling is stable: once the rules that no longer match the weapons
/// are dropped, every rule left matches them, so the next tick drops nothing
/// (where no two rules name the same weapon).
pub proof fn law_reconcile_is_stable(old: Port, new: Port)
    requires
        reconciled(old, new),
        rules_distinct(old.player.trainer_effects.weapons@),
    ensures
        rules_kept(new.inventory.weapons@, new.player.trainer_effects.weapons@) == new.player.trainer_effects.weapons@,
{
    let ws = old.inventory.weapons@;
    let rules = old.player.trainer_effects.weapons@;
    let kept = rules_kept(ws, rules);
    lemma_kept_members(ws, rules);
    if kept != rules {
        let new_ws = new.inventory.weapons@;
        assert forall|x: WeaponEffect| #[trigger] kept.contains(x) implies rule_kept(new_ws, x) by {
            assert(rule_kept(ws, x));
            let t = type_numbered(x.weapon)->0;
            assert(weapon_number(t) == x.weapon);
            assert(new_ws == relocked(ws, kept));
            lemma_relocked_kind(ws, kept, t);
            lemma_weapon_of_kind(ws, t);
            let w = weapon_of_kind(ws, t)->0;
            assert(w.wtype == t);
            lemma_rule_for(kept, weapon_number(t));
            let ix = choose|i: int| 0 <= i < kept.len() && kept[i] == x;
            assert(kept[ix].weapon == weapon_number(t));
            let y = rule_for(kept, weapon_number(t))->0;
            assert(kept.contains(y));
            assert(rules.contains(y) && rules.contains(x));
            let ry = choose|i: int| 0 <= i < rules.len() && rules[i] == y;
            let rx = choose|i: int| 0 <= i < rules.len() && rules[i] == x;
            assert(rules[ry].weapon == rules[rx].weapon);
            assert(y == x);
            assert(weapon_of_kind(new_ws, t) == Some(locked_by(w, kept)));
        }
        lemma_kept_all(new_ws, kept);
    } else {
        assert forall|x: WeaponEffect| #[trigger] rules.contains(x) implies rule_kept(ws, x) by {
            assert(kept.contains(x));
        }
    }
}

/// Details with nothing in them: no weapon, item or known item, and no rule.
pub open spec fn empty_details(d: Details) -> bool {
    &&& d.weapons@.len() == 0
    &&& d.items@.len() == 0
    &&& d.item_catalog@.len() == 0
    &&& no_effects(d.effects)
}

/// The trainer's stand-in game while no scene runs: the title screen, with
/// nothing to see and nobody to heal.
pub struct Idle;

impl Idle {
    /// Player one on the title screen, with no health and nothing else shown.
    pub fn view(&self) -> (r: GameView)
        ensures
            r.player == 1,
            empty_details(r.details),
            r.context_epoch == 0,
            r.stage_id == 0,
            r.status == GameStatus::Title,
            r.health is None,
    {
        GameView {
            player: 1,
            details: Details { weapons: Vec::new(), items: Vec::new(), item_catalog: Vec::new(), effects: Effects::default() },
            context_epoch: 0,
            stage_id: 0,
            status: GameStatus::Title,
            health: None,
        }
    }

    /// Nobody can be healed.
    pub fn heal(&mut self) -> (r: Result<(), PortError>)
        ensures
            r is Err,
    {
        Err(PortError)
    }
}

/// One trainer session over the scene's two players, each edited on its own.
pub struct ScenePort {
    pub player1: Port,
    pub player2: Port,
}

impl ScenePort {
    /// What the trainer sees of player `player` (1 or 2); no other player exists.
    pub fn target_view(&self, player: u8) -> (r: Option<GameView>)
        ensures
            player == 1 ==> (r matches Some(v) && shows(self.player1, v)),
            player == 2 ==> (r matches Some(v) && shows(self.player2, v)),
            player != 1 && player != 2 ==> r is None,
    {
        if player == 1 {
            Some(self.player1.view())
        } else if player == 2 {
            Some(self.player2.view())
        } else {
            None
        }
    }

    /// Heals player `player`; another number is refused.
    pub fn target_heal(&mut self, player: u8) -> (r: Result<(), PortError>)
        ensures
            player == 1 ==> final(self).player2 == old(self).player2 && (port_can_heal(old(self).player1) ==> r is Ok
                && final(self).player1 == (Port {
                player: Player { life: old(self).player1.player.max_life, ..old(self).player1.player },
                ..old(self).player1
            })) && (!port_can_heal(old(self).player1) ==> r is Err && final(self).player1 == old(self).player1),
            player == 2 ==> final(self).player1 == old(self).player1 && (port_can_heal(old(self).player2) ==> r is Ok
                && final(self).player2 == (Port {
                player: Player { life: old(self).player2.player.max_life, ..old(self).player2.player },
                ..old(self).player2
            })) && (!port_can_heal(old(self).player2) ==> r is Err && final(self).player2 == old(self).player2),
            player != 1 && player != 2 ==> r is Err && final(self).player1 == old(self).player1 && final(self).player2
                == old(self).player2,
    {
        if player == 1 {
            self.player1.heal()
        } else if player == 2 {
            self.player2.heal()
        } else {
            Err(PortError)
        }
    }

    /// Applies `edit` to player `player`; another number is the wrong player.
    pub fn target_edit(&mut self, player: u8, edit: &Edit) -> (r: Result<(), ErrorCode>)
        ensures
            player == 1 ==> {
                &&& final(self).player2 == old(self).player2
                &&& r == edit_result(old(self).player1, *edit)
                &&& r is Ok ==> edited(old(self).player1, *edit, final(self).player1)
                &&& r is Err ==> final(self).player1 == old(self).player1
            },
            player == 2 ==> {
                &&& final(self).player1 == old(self).player1
                &&& r == edit_result(old(self).player2, *edit)
                &&& r is Ok ==> edited(old(self).player2, *edit, final(self).player2)
                &&& r is Err ==> final(self).player2 == old(self).player2
            },
            player != 1 && player != 2 ==> r == Err::<(), ErrorCode>(ErrorCode::WrongPlayer) && final(self).player1
                == old(self).player1 && final(self).player2 == old(self).player2,
    {
        if player == 1 {
            self.player1.edit(edit)
        } else if player == 2 {
            self.player2.edit(edit)
        } else {
            Err(ErrorCode::WrongPlayer)
        }
    }

    /// What the session offers: that of the first player's port.
    pub fn capabilities(&self) -> (r: Vec<Capability>)
        ensures
            r@ == seq![Capability::ReadHealth, Capability::HealOnce, Capability::EditState],
    {
        self.player1.capabilities()
    }

    /// Lifts every rule from both players.
    pub fn clear_effects(&mut self)
        ensures
            no_effects(final(self).player1.player.trainer_effects),
            rules_set(old(self).player1, final(self).player1.player.trainer_effects, final(self).player1),
            no_effects(final(self).player2.player.trainer_effects),
            rules_set(old(self).player2, final(self).player2.player.trainer_effects, final(self).player2),
    {
        self.player1.clear_effects();
        self.player2.clear_effects();
    }

    /// Keeps both players' rules in step with the game (see `maintain_effects`).
    pub fn maintain_effects(&mut self, replaying: bool)
        ensures
            rules_stay(old(self).player1, replaying) ==> reconciled(old(self).player1, final(self).player1),
            !rules_stay(old(self).player1, replaying) ==> no_effects(final(self).player1.player.trainer_effects)
                && rules_set(old(self).player1, final(self).player1.player.trainer_effects, final(self).player1),
            rules_stay(old(self).player2, replaying) ==> reconciled(old(self).player2, final(self).player2),
            !rules_stay(old(self).player2, replaying) ==> no_effects(final(self).player2.player.trainer_effects)
                && rules_set(old(self).player2, final(self).player2.player.trainer_effects, final(self).player2),
    {
        maintain_effects(&mut self.player1, replaying);
        maintain_effects(&mut self.player2, replaying);
    }
}

/// `new` is `old` with every rule and lock lifted and nothing else changed:
/// no rule in force, no trainer jump, no lock on the weapon the game finds
/// for each kind, and life, weapons' kinds, levels, experience and ammunition,
/// items and the context as they were.
pub open spec fn cleared(old: Port, new: Port) -> bool {
    &&& no_effects(new.player.trainer_effects)
    &&& !new.player.trainer_jump_active
    &&& new.player.life == old.player.life
    &&& new.player.max_life == old.player.max_life
    &&& same_context(old, new)
    &&& same_items(old.inventory, new.inventory)
    &&& new.inventory.weapons@.len() == old.inventory.weapons@.len()
    &&& forall|j: int| 0 <= j < old.inventory.weapons@.len() ==> {
        let w = #[trigger] new.inventory.weapons@[j];
        let v = old.inventory.weapons@[j];
        &&& w.wtype == v.wtype
        &&& w.level == v.level
        &&& w.experience == v.experience
        &&& w.ammo == v.ammo
        &&& w.max_ammo == v.max_ammo
        &&& first_of_kind(old.inventory.weapons@, j) ==> !w.trainer_lock_ammo && !w.trainer_lock_experience
    }
}

proof fn lemma_cleared(old: Port, new: Port)
    requires
        no_effects(new.player.trainer_effects),
        rules_set(old, new.player.trainer_effects, new),
    ensures
        cleared(old, new),
{
    assert forall|j: int| 0 <= j < old.inventory.weapons@.len() implies {
        let w = #[trigger] new.inventory.weapons@[j];
        let v = old.inventory.weapons@[j];
        &&& w.wtype == v.wtype
        &&& w.level == v.level
        &&& w.experience == v.experience
        &&& w.ammo == v.ammo
        &&& w.max_ammo == v.max_ammo
        &&& first_of_kind(old.inventory.weapons@, j) ==> !w.trainer_lock_ammo && !w.trainer_lock_experience
    } by {
        let e = new.player.trainer_effects;
        assert(new.inventory.weapons@[j] == relocked(old.inventory.weapons@, e.weapons@)[j]);
        assert(e.weapons@.len() == 0);
        assert(rule_for(e.weapons@, weapon_number(old.inventory.weapons@[j].wtype)) is None);
    }
}

impl ScenePort {
    /// One tick of the trainer over the scene: the plan of `plan_tick`, with
    /// the rules lifted from the players it names. With access revoked both
    /// players are cleared and nothing else changes; a player left alone is
    /// unchanged. (Opening the endpoint and serving the session follow.)
    pub fn tick(&mut self, active: bool, player2_changed: bool, endpoint_open: bool) -> (r: TickPlan)
        ensures
            r == tick_plan(active, player2_changed, endpoint_open),
            !active ==> cleared(old(self).player1, final(self).player1) && cleared(old(self).player2, final(self).player2),
            r.clear_player1 ==> cleared(old(self).player1, final(self).player1),
            !r.clear_player1 ==> final(self).player1 == old(self).player1,
            r.clear_player2 ==> cleared(old(self).player2, final(self).player2),
            !r.clear_player2 ==> final(self).player2 == old(self).player2,
    {
        let plan = plan_tick(active, player2_changed, endpoint_open);
        if plan.clear_player1 {
            let ghost before = self.player1;
            self.player1.clear_effects();
            proof {
                lemma_cleared(before, self.player1);
            }
        }
        if plan.clear_player2 {
            let ghost before = self.player2;
            self.player2.clear_effects();
            proof {
                lemma_cleared(before, self.player2);
            }
        }
        plan
    }
}

/// The plan of a tick (see `plan_tick`).
pub open spec fn tick_plan(active: bool, player2_changed: bool, endpoint_open: bool) -> TickPlan {
    if !active {
        TickPlan { clear_player1: true, clear_player2: true, disconnect: true, open_endpoint: false, serve: false }
    } else {
        TickPlan {
            clear_player1: !endpoint_open,
            clear_player2: player2_changed || !endpoint_open,
            disconnect: false,
            open_endpoint: !endpoint_open,
            serve: true,
        }
    }
}

/// What the trainer does on a tick of the game scene.
#[derive(Clone, Copy, Debug, PartialEq, Eq, Structural)]
pub struct TickPlan {
    pub clear_player1: bool,
    pub clear_player2: bool,
    /// Close the session and drop the endpoint: access was revoked.
    pub disconnect: bool,
    /// Open the endpoint first; if that fails, nothing more happens this tick.
    pub open_endpoint: bool,
    /// Reconcile the rules and serve the session.
    pub serve: bool,
}

/// The trainer's plan for a tick: with access revoked, both players' rules
/// are lifted and the session closed; a change of the second player lifts
/// that player's rules; before an endpoint is opened both players' rules are
/// lifted (a scene handover copies players); then the session is served.
pub fn plan_tick(active: bool, player2_changed: bool, endpoint_open: bool) -> (r: TickPlan)
    ensures
        !active ==> r == (TickPlan {
            clear_player1: true,
            clear_player2: true,
            disconnect: true,
            open_endpoint: false,
            serve: false,
        }),
        active ==> r == (TickPlan {
            clear_player1: !endpoint_open,
            clear_player2: player2_changed || !endpoint_open,
            disconnect: false,
            open_endpoint: !endpoint_open,
            serve: true,
        }),
{
    if !active {
        return TickPlan { clear_player1: true, clear_player2: true, disconnect: true, open_endpoint: false, serve: false };
    }
    TickPlan {
        clear_player1: !endpoint_open,
        clear_player2: player2_changed || !endpoint_open,
        disconnect: false,
        open_endpoint: !endpoint_open,
        serve: true,
    }
}

} // verus!
