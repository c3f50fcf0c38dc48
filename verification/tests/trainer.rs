use cavestory::trainer::{boot_millis, check_frame, plan_tick, FrameError, Idle, ScenePort, TickPlan, MAX_FRAME_BYTES};
use cavestory::trainer::{
    Adapter, EpochCounter,
    bullet_damage, clear_player_effects, incoming_damage, maintain_effects, physics, scaled, status,
    weapon_type, Edit, Effects, ErrorCode, GameStatus, Health, Inventory, ItemView, PhysicsConsts, Player, Port,
    SceneFacts, TargetPlayer, Weapon, WeaponEffect, WeaponType, WeaponView,
};

fn level_table() -> [[u16; 3]; 14] {
    let mut table = [[0u16; 3]; 14];
    table[1] = [30, 40, 16];
    table[2] = [10, 20, 10];
    table[3] = [10, 20, 20];
    table[4] = [30, 40, 10];
    table[5] = [10, 20, 10];
    table[7] = [10, 20, 5];
    table[9] = [30, 60, 0];
    table[10] = [10, 20, 10];
    table[12] = [1, 1, 1];
    table[13] = [40, 60, 200];
    table
}

fn player() -> Player {
    Player { life: 3, max_life: 12, trainer_effects: Effects::default(), trainer_jump_active: false }
}

fn inventory() -> Inventory {
    Inventory {
        current_weapon: 0,
        current_item: 0,
        weapons: vec![
            Weapon::new(WeaponType::PolarStar, 1, 0, 0, 0),
            Weapon::new(WeaponType::MachineGun, 1, 0, 10, 100),
        ],
        items: vec![],
    }
}

fn port(status: GameStatus) -> Port {
    Port {
        id: 1,
        player: player(),
        inventory: inventory(),
        level_table: level_table(),
        inventory_events: vec![],
        epoch: 7,
        stage_id: 13,
        status,
    }
}

fn machine_gun_rule() -> Effects {
    Effects {
        jump_percent: 175,
        movement_percent: 150,
        weapons: vec![WeaponEffect { weapon: 4, lock_ammo: true, lock_experience: true, damage_percent: 200 }],
        ..Effects::default()
    }
}

#[test]
fn damage_lock_prevents_lethal_damage_and_does_not_change_debug_settings() {
    let mut p = player();
    p.trainer_effects.lock_health = true;
    let taken = incoming_damage(100, &p.trainer_effects);
    p.life = p.life.saturating_sub(taken as u16);
    assert_eq!(p.life, 3);
    assert!(!cavestory::settings::Settings::default().god_mode);
    p.trainer_effects.lock_health = false;
    let taken = incoming_damage(2, &p.trainer_effects);
    p.life = p.life.saturating_sub(taken as u16);
    assert_eq!(p.life, 1);
}

#[test]
fn damage_reduction_is_applied_after_difficulty_scaling() {
    let mut p = player();
    p.trainer_effects.incoming_damage_percent = 50;
    let taken = incoming_damage(2, &p.trainer_effects);
    p.life -= taken as u16;
    assert_eq!(p.life, 2);
}

#[test]
fn bulk_refill_and_reset_respect_weapon_locks() {
    let mut inventory = inventory();
    let weapon = &mut inventory.weapons[1];
    weapon.trainer_lock_ammo = true;
    weapon.trainer_lock_experience = true;
    weapon.experience = 2;
    inventory.refill_all_ammo();
    inventory.reset_all_weapon_xp();
    let weapon = inventory.weapons[1];
    assert_eq!((weapon.ammo, weapon.experience), (10, 2));
}

#[test]
fn scripted_transition_keeps_rules_but_rejects_writes_and_death_clears() {
    let mut p1 = port(GameStatus::Playing);
    p1.set_effects(machine_gun_rule());
    p1.status = GameStatus::Transition;
    assert!(!p1.view().can_heal());
    maintain_effects(&mut p1, false);
    assert_eq!(p1.view().details.effects.jump_percent, 175);
    assert!(p1.inventory.weapons[1].trainer_lock_ammo);
    assert_eq!(p1.edit(&Edit::Health { current: 5 }), Err(ErrorCode::NotPlayable));
    p1.status = GameStatus::Dead;
    maintain_effects(&mut p1, false);
    assert_eq!(p1.view().details.effects, Effects::default());
    assert!(!p1.inventory.weapons[1].trainer_lock_ammo);
}

#[test]
fn paused_port_edits_real_player_and_selected_weapon_only() {
    let mut port = port(GameStatus::Paused);
    port.edit(&Edit::MaxHealth { maximum: 24 }).unwrap();
    port.heal().unwrap();
    assert_eq!(port.view().health, Some(Health { current: 24, maximum: 24 }));
    port.edit(&Edit::WeaponExperience { weapon: 2, delta: 15 }).unwrap();
    let w = port.inventory.weapons[0];
    assert_eq!((w.level, w.experience), (2, 5));
    port.edit(&Edit::WeaponExperience { weapon: 2, delta: -8 }).unwrap();
    let w = port.inventory.weapons[0];
    assert_eq!((w.level, w.experience), (1, 7));
    port.edit(&Edit::WeaponAmmo { weapon: 4, current: 40, maximum: 200 }).unwrap();
    assert_eq!(port.inventory.weapons[1].ammo, 40);
    assert_eq!(port.inventory.current_weapon, 0);
    assert_eq!(port.inventory.weapons[0].max_ammo, 0);
}

#[test]
fn item_catalog_add_change_remove_and_capacity_use_real_inventory() {
    let mut port = port(GameStatus::Paused);
    port.inventory_events = (1..=33).map(|id| 6000 + id).collect();
    assert_eq!(port.edit(&Edit::Item { item: 999, amount: 1 }), Err(ErrorCode::Unsupported));
    port.edit(&Edit::Item { item: 1, amount: 5 }).unwrap();
    port.edit(&Edit::Item { item: 1, amount: 2 }).unwrap();
    assert_eq!(port.inventory.items.iter().find(|i| i.id == 1).unwrap().amount, 2);
    port.edit(&Edit::Item { item: 1, amount: 0 }).unwrap();
    assert!(!port.inventory.items.iter().any(|i| i.id == 1));
    for id in 1..=32 {
        port.edit(&Edit::Item { item: id, amount: 1 }).unwrap();
    }
    assert_eq!(port.edit(&Edit::Item { item: 33, amount: 1 }), Err(ErrorCode::Capacity));
    port.inventory.current_item = 31;
    port.edit(&Edit::Item { item: 32, amount: 0 }).unwrap();
    assert_eq!(port.inventory.current_item, 30);
}

#[test]
fn physics_and_projectile_damage_do_not_modify_base_constants() {
    let effects = Effects {
        movement_percent: 200,
        jump_percent: 150,
        weapons: vec![WeaponEffect { weapon: 2, lock_experience: false, lock_ammo: false, damage_percent: 300 }],
        ..Effects::default()
    };
    let original = PhysicsConsts {
        max_dash: 0x32c,
        max_move: 0x5ff,
        gravity_ground: 0x50,
        gravity_air: 0x20,
        dash_ground: 0x55,
        dash_air: 0x20,
        resist: 0x33,
        jump: 0x500,
    };
    let boosted = physics(original, &effects);
    assert_eq!(boosted.max_dash, original.max_dash * 2);
    assert_eq!(boosted.jump, original.jump * 3 / 2);
    assert_eq!(boosted.gravity_air, original.gravity_air);
    assert_eq!(original.jump, 0x500);
    assert_eq!(bullet_damage(4, 2, TargetPlayer::Player1, &effects, &effects), 12);
    assert_eq!(bullet_damage(4, 2, TargetPlayer::Player2, &effects, &effects), 12);
    assert_eq!(bullet_damage(4, 13, TargetPlayer::Player1, &effects, &effects), 4);
}

#[test]
fn weapon_replacement_or_removal_clears_stale_rules_without_reenabling() {
    for replacement in 0..3 {
        let mut port = port(GameStatus::Playing);
        port.set_effects(Effects {
            movement_percent: 150,
            weapons: vec![WeaponEffect { weapon: 4, lock_experience: true, lock_ammo: true, damage_percent: 200 }],
            ..Effects::default()
        });
        match replacement {
            0 => port.inventory.weapons[1] = Weapon::new(WeaponType::MachineGun, 1, 0, 100, 100),
            1 => port.inventory.weapons[1] = Weapon::new(WeaponType::MissileLauncher, 1, 0, 100, 100),
            _ => {
                port.inventory.weapons.remove(1);
            }
        }
        port.reconcile_effects();
        assert!(port.view().details.effects.weapons.is_empty());
        assert_eq!(port.view().details.effects.movement_percent, 150);
        if let Some(weapon) = port.inventory.weapons.get(1) {
            assert!(!weapon.trainer_lock_ammo);
        }
    }
}

#[test]
fn edits_are_checked_before_they_apply() {
    let mut port = port(GameStatus::Playing);
    assert_eq!(port.edit(&Edit::Health { current: 0 }), Err(ErrorCode::InvalidValue));
    assert_eq!(port.edit(&Edit::Health { current: 13 }), Err(ErrorCode::InvalidValue));
    assert_eq!(port.edit(&Edit::MaxHealth { maximum: 1000 }), Err(ErrorCode::InvalidValue));
    assert_eq!(port.edit(&Edit::WeaponExperience { weapon: 5, delta: 1 }), Err(ErrorCode::Unsupported));
    assert_eq!(port.edit(&Edit::WeaponAmmo { weapon: 2, current: 1, maximum: 1 }), Err(ErrorCode::Unsupported));
    assert_eq!(port.edit(&Edit::WeaponAmmo { weapon: 4, current: 11, maximum: 10 }), Err(ErrorCode::InvalidValue));
    port.set_effects(machine_gun_rule());
    assert_eq!(port.edit(&Edit::WeaponAmmo { weapon: 4, current: 1, maximum: 10 }), Err(ErrorCode::Locked));
    assert_eq!(port.edit(&Edit::WeaponExperience { weapon: 4, delta: 1 }), Err(ErrorCode::Locked));
    assert_eq!(port.player.life, 3);
    port.edit(&Edit::Health { current: 12 }).unwrap();
    assert_eq!(port.player.life, 12);
    port.edit(&Edit::MaxHealth { maximum: 5 }).unwrap();
    assert_eq!((port.player.life, port.player.max_life), (5, 5));
}

#[test]
fn effect_rules_are_validated() {
    let mut port = port(GameStatus::Playing);
    let mut rules = Effects::default();
    rules.weapons = vec![WeaponEffect { weapon: 9, lock_experience: false, lock_ammo: false, damage_percent: 100 }];
    assert_eq!(port.edit(&Edit::Effects { effects: rules.clone() }), Err(ErrorCode::Unsupported));
    rules.weapons = vec![WeaponEffect { weapon: 2, lock_experience: false, lock_ammo: true, damage_percent: 100 }];
    assert_eq!(port.edit(&Edit::Effects { effects: rules.clone() }), Err(ErrorCode::Unsupported));
    rules.weapons = vec![WeaponEffect { weapon: 4, lock_experience: false, lock_ammo: false, damage_percent: 1001 }];
    assert_eq!(port.edit(&Edit::Effects { effects: rules.clone() }), Err(ErrorCode::InvalidValue));
    let rule = WeaponEffect { weapon: 4, lock_experience: false, lock_ammo: false, damage_percent: 100 };
    rules.weapons = vec![rule, rule];
    assert_eq!(port.edit(&Edit::Effects { effects: rules.clone() }), Err(ErrorCode::InvalidValue));
    rules.weapons = vec![rule; 9];
    assert_eq!(port.edit(&Edit::Effects { effects: rules.clone() }), Err(ErrorCode::Capacity));
    rules.weapons = vec![rule];
    rules.movement_percent = 99;
    assert_eq!(port.edit(&Edit::Effects { effects: rules.clone() }), Err(ErrorCode::InvalidValue));
    rules.movement_percent = 300;
    rules.jump_percent = 200;
    rules.incoming_damage_percent = 0;
    port.edit(&Edit::Effects { effects: rules.clone() }).unwrap();
    assert_eq!(port.view().details.effects, rules);
    port.edit(&Edit::ClearEffects {}).unwrap();
    assert_eq!(port.view().details.effects, Effects::default());
}

#[test]
fn experience_shifts_clamp_at_empty_and_full() {
    let w = WeaponView { id: 2, level: 2, experience: 5, thresholds: [10, 20, 10], ammo: 0, max_ammo: 0 };
    assert_eq!(w.shifted_xp(-1000), Ok((1, 0)));
    assert_eq!(w.shifted_xp(1000), Ok((3, 10)));
    assert_eq!(w.shifted_xp(0), Ok((2, 5)));
    assert_eq!(w.shifted_xp(15), Ok((3, 0)));
    assert_eq!(w.shifted_xp(25), Ok((3, 10)));
    let spur = WeaponView { id: 13, ..w };
    assert_eq!(spur.shifted_xp(1), Err(ErrorCode::Unsupported));
    let broken = WeaponView { thresholds: [10, 0, 10], ..w };
    assert_eq!(broken.shifted_xp(1), Err(ErrorCode::Unsupported));
}

#[test]
fn damage_scaling_saturates_and_truncates() {
    let mut effects = Effects::default();
    assert_eq!(incoming_damage(0, &effects), 0);
    assert_eq!(incoming_damage(-5, &effects), 0);
    effects.incoming_damage_percent = 33;
    assert_eq!(incoming_damage(10, &effects), 3);
    effects.incoming_damage_percent = u16::MAX;
    assert_eq!(incoming_damage(i32::MAX, &effects), i32::MAX);
    let rules = Effects {
        weapons: vec![WeaponEffect { weapon: 4, lock_experience: false, lock_ammo: false, damage_percent: 1000 }],
        ..Effects::default()
    };
    assert_eq!(bullet_damage(i16::MAX, 4, TargetPlayer::Player2, &Effects::default(), &rules), i16::MAX);
    assert_eq!(bullet_damage(-3, 4, TargetPlayer::Player2, &Effects::default(), &rules), -3);
    assert_eq!(scaled(-7, 50), -3);
    assert_eq!(scaled(i32::MIN, 200), i32::MIN);
    assert_eq!(scaled(i32::MAX, 200), i32::MAX);
}

#[test]
fn scene_status_orders_the_reasons() {
    let playing = SceneFacts {
        intro_mode: false,
        two_players: true,
        player_count_modified_in_game: false,
        alive: true,
        life: 3,
        next_scene: false,
        control_enabled: true,
        replaying: false,
        paused: false,
    };
    assert_eq!(status(playing, 1), GameStatus::Playing);
    assert_eq!(status(SceneFacts { paused: true, ..playing }, 1), GameStatus::Paused);
    assert_eq!(status(SceneFacts { intro_mode: true, ..playing }, 2), GameStatus::Title);
    assert_eq!(status(SceneFacts { two_players: false, ..playing }, 2), GameStatus::Absent);
    assert_eq!(status(SceneFacts { two_players: false, ..playing }, 1), GameStatus::Playing);
    assert_eq!(status(SceneFacts { life: 0, paused: true, ..playing }, 1), GameStatus::Dead);
    assert_eq!(status(SceneFacts { replaying: true, ..playing }, 1), GameStatus::Transition);
    assert_eq!(status(SceneFacts { player_count_modified_in_game: true, ..playing }, 2), GameStatus::Transition);
}

#[test]
fn weapon_numbers_map_to_kinds() {
    assert_eq!(weapon_type(13), Ok(WeaponType::Spur));
    assert_eq!(weapon_type(6), Err(ErrorCode::Unsupported));
    assert_eq!(WeaponType::Bubbler.number(), 7);
}

#[test]
fn clearing_a_player_lifts_every_lock() {
    let mut p = player();
    let mut inventory = inventory();
    p.trainer_effects = machine_gun_rule();
    p.trainer_jump_active = true;
    inventory.weapons[1].trainer_lock_ammo = true;
    clear_player_effects(&mut p, &mut inventory);
    assert_eq!(p.trainer_effects, Effects::default());
    assert!(!p.trainer_jump_active);
    assert!(!inventory.weapons[1].trainer_lock_ammo);
}

#[test]
fn locked_ammunition_fires_without_being_spent() {
    let mut weapon = Weapon::new(WeaponType::MachineGun, 1, 0, 10, 100);
    weapon.trainer_lock_ammo = true;
    assert!(weapon.consume_ammo(1));
    assert_eq!(weapon.ammo, 10);
    weapon.trainer_lock_ammo = false;
    assert!(weapon.consume_ammo(1));
    assert_eq!(weapon.ammo, 9);
    let mut empty = Weapon::new(WeaponType::MachineGun, 1, 0, 0, 100);
    empty.trainer_lock_ammo = true;
    assert!(!empty.consume_ammo(1));
    let mut unlimited = Weapon::new(WeaponType::PolarStar, 1, 0, 0, 0);
    assert!(unlimited.consume_ammo(5));
}

#[test]
fn items_view_follows_the_inventory() {
    let mut port = port(GameStatus::Playing);
    port.inventory.items = vec![ItemView { id: 3, amount: 1 }];
    port.inventory_events = vec![6000, 6003, 6256, 6255];
    let view = port.view();
    assert_eq!(view.details.items, vec![ItemView { id: 3, amount: 1 }]);
    assert_eq!(view.details.item_catalog, vec![3, 255]);
    assert_eq!(view.details.weapons.len(), 2);
    assert_eq!(view.details.weapons[1].thresholds, [30, 40, 10]);
    let hidden = cavestory::trainer::Port { status: GameStatus::Absent, ..port };
    assert_eq!(hidden.view().health, None);
}

#[test]
fn accepted_edits_are_confirmed_by_the_readback() {
    let mut port = port(GameStatus::Playing);
    port.inventory_events = vec![6001, 6002];
    let edits = vec![
        Edit::Health { current: 7 },
        Edit::MaxHealth { maximum: 5 },
        Edit::WeaponExperience { weapon: 2, delta: 12 },
        Edit::WeaponAmmo { weapon: 4, current: 3, maximum: 9 },
        Edit::Item { item: 2, amount: 4 },
        Edit::Item { item: 2, amount: 0 },
        Edit::Effects { effects: machine_gun_rule() },
        Edit::ClearEffects {},
    ];
    for edit in edits {
        let before = port.view();
        port.edit(&edit).unwrap();
        let after = port.view();
        assert!(edit.confirmed(&before, &after));
    }
}

#[test]
fn readback_from_another_context_is_not_confirmed() {
    let mut port = port(GameStatus::Playing);
    let before = port.view();
    port.edit(&Edit::Health { current: 8 }).unwrap();
    port.epoch = 8;
    let after = port.view();
    assert!(!Edit::Health { current: 8 }.confirmed(&before, &after));
}

#[test]
fn rules_lock_only_the_first_weapon_of_a_kind() {
    let mut inventory = inventory();
    inventory.weapons.push(Weapon::new(WeaponType::MachineGun, 2, 1, 5, 50));
    inventory.apply_rules(&vec![WeaponEffect { weapon: 4, lock_experience: true, lock_ammo: false, damage_percent: 100 }]);
    assert!(inventory.weapons[1].trainer_lock_experience);
    assert!(!inventory.weapons[2].trainer_lock_experience);
    assert!(!inventory.weapons[0].trainer_lock_experience);
}

#[test]
fn set_item_changes_the_first_entry_and_keeps_the_selection_in_range() {
    let mut inventory = inventory();
    inventory.items = vec![ItemView { id: 4, amount: 1 }, ItemView { id: 5, amount: 1 }];
    inventory.current_item = 1;
    inventory.set_item(5, 3);
    assert_eq!(inventory.items, vec![ItemView { id: 4, amount: 1 }, ItemView { id: 5, amount: 3 }]);
    inventory.set_item(4, 0);
    assert_eq!(inventory.items, vec![ItemView { id: 5, amount: 3 }]);
    assert_eq!(inventory.current_item, 0);
    inventory.set_item(6, 2);
    assert_eq!(inventory.items.len(), 2);
}

#[test]
fn coop_join_leave_death_and_rejoin_advance_only_second_player_generation() {
    let mut counter = EpochCounter::new();
    let mut adapter = Adapter { epoch: 500, player2_epoch: 0, player2_state: None };
    let mut last = 0;
    for state in [
        (false, false, true),
        (true, false, true),
        (true, true, true),
        (true, true, false),
        (true, false, false),
        (false, false, false),
        (true, true, true),
    ] {
        assert!(adapter.observe_player2(state, &mut counter));
        assert_ne!(adapter.player2_epoch, last);
        last = adapter.player2_epoch;
        assert!(!adapter.observe_player2(state, &mut counter));
        assert_eq!(adapter.player2_epoch, last);
        assert_eq!(adapter.epoch, 500);
    }
}

#[test]
fn transfer_starts_fresh_contexts_for_both_players() {
    let mut counter = EpochCounter::new();
    let mut adapter = Adapter::new(&mut counter);
    assert_eq!((adapter.epoch, adapter.player2_epoch), (1, 2));
    adapter.player2_state = Some((true, true, true));
    let first = (adapter.epoch, adapter.player2_epoch);
    assert_eq!(adapter.transfer_context(&mut counter), 3);
    assert_ne!(first.0, adapter.epoch);
    assert_ne!(first.1, adapter.player2_epoch);
    assert_ne!(adapter.epoch, adapter.player2_epoch);
    assert!(!adapter.observe_player2((true, true, true), &mut counter));
}

#[test]
fn bridge_frames_and_boot_clock_are_checked() {
    assert_eq!(check_frame(0, 0, 10), Err(FrameError::InvalidMetadata));
    assert_eq!(check_frame(1, -1, 10), Err(FrameError::InvalidMetadata));
    assert_eq!(check_frame(1, 0, 0), Err(FrameError::TooLarge));
    assert_eq!(check_frame(1, 0, MAX_FRAME_BYTES + 1), Err(FrameError::TooLarge));
    assert_eq!(check_frame(1, 0, MAX_FRAME_BYTES), Ok(()));
    assert_eq!(boot_millis(2, 5_999_999), 2005);
    assert_eq!(boot_millis(u64::MAX, 0), u64::MAX);
}

#[test]
fn a_second_reconcile_changes_nothing() {
    let mut port = port(GameStatus::Playing);
    port.set_effects(Effects {
        weapons: vec![
            WeaponEffect { weapon: 4, lock_experience: true, lock_ammo: false, damage_percent: 100 },
            WeaponEffect { weapon: 2, lock_experience: false, lock_ammo: false, damage_percent: 150 },
        ],
        ..Effects::default()
    });
    port.inventory.weapons[1] = Weapon::new(WeaponType::MachineGun, 1, 0, 100, 100);
    port.reconcile_effects();
    assert_eq!(port.player.trainer_effects.weapons.len(), 1);
    let once = port.clone();
    port.reconcile_effects();
    assert_eq!(port, once);
}

#[test]
fn scene_targets_route_to_their_player() {
    let mut second = port(GameStatus::Playing);
    second.id = 2;
    second.player.life = 5;
    let mut scene = ScenePort { player1: port(GameStatus::Playing), player2: second };
    assert_eq!(scene.target_view(1).map(|v| v.player), Some(1));
    assert_eq!(scene.target_view(2).map(|v| v.health), Some(Some(Health { current: 5, maximum: 12 })));
    assert_eq!(scene.target_view(3), None);
    assert_eq!(scene.target_edit(3, &Edit::Health { current: 4 }), Err(ErrorCode::WrongPlayer));
    scene.target_edit(2, &Edit::Health { current: 4 }).unwrap();
    assert_eq!((scene.player1.player.life, scene.player2.player.life), (3, 4));
    scene.target_heal(1).unwrap();
    assert_eq!((scene.player1.player.life, scene.player2.player.life), (12, 4));
    assert!(scene.target_heal(0).is_err());
    scene.player2.set_effects(machine_gun_rule());
    scene.clear_effects();
    assert_eq!(scene.player2.player.trainer_effects, Effects::default());
}

#[test]
fn tick_plans_follow_access_and_endpoint() {
    let revoked = plan_tick(false, true, true);
    assert_eq!(
        revoked,
        TickPlan { clear_player1: true, clear_player2: true, disconnect: true, open_endpoint: false, serve: false }
    );
    let first = plan_tick(true, false, false);
    assert_eq!(
        first,
        TickPlan { clear_player1: true, clear_player2: true, disconnect: false, open_endpoint: true, serve: true }
    );
    let steady = plan_tick(true, false, true);
    assert_eq!(
        steady,
        TickPlan { clear_player1: false, clear_player2: false, disconnect: false, open_endpoint: false, serve: true }
    );
    let rejoined = plan_tick(true, true, true);
    assert!(!rejoined.clear_player1 && rejoined.clear_player2 && rejoined.serve);
}

#[test]
fn new_scene_reset_clears_cloned_rules_even_when_interface_is_disabled() {
    let mut player = player();
    let mut inventory = inventory();
    player.trainer_effects.lock_health = true;
    player.trainer_effects.movement_percent = 200;
    player.trainer_jump_active = true;
    let weapon = &mut inventory.weapons[1];
    assert_eq!(weapon.wtype, WeaponType::MachineGun);
    weapon.trainer_lock_ammo = true;
    weapon.trainer_lock_experience = true;
    let life = player.life;
    clear_player_effects(&mut player, &mut inventory);
    assert_eq!(player.trainer_effects, Effects::default());
    assert!(!player.trainer_jump_active);
    assert_eq!(player.life, life);
    let weapon = inventory.weapons[1];
    assert!(!weapon.trainer_lock_ammo && !weapon.trainer_lock_experience);
}

#[test]
fn coop_same_weapon_damage_uses_owner_and_does_not_mutate_other_rules() {
    let p1 = Effects {
        weapons: vec![WeaponEffect { weapon: 2, damage_percent: 200, lock_experience: false, lock_ammo: false }],
        ..Effects::default()
    };
    let p2 = Effects {
        weapons: vec![WeaponEffect { weapon: 2, damage_percent: 300, lock_experience: false, lock_ammo: false }],
        ..Effects::default()
    };
    assert_eq!(bullet_damage(4, 2, TargetPlayer::Player1, &p1, &p2), 8);
    assert_eq!(bullet_damage(4, 2, TargetPlayer::Player2, &p1, &p2), 12);
    assert_eq!(bullet_damage(4, 13, TargetPlayer::Player2, &p1, &p2), 4);
}

#[test]
fn idle_game_shows_the_title_and_heals_nobody() {
    let mut idle = Idle;
    let view = idle.view();
    assert_eq!((view.player, view.context_epoch, view.stage_id), (1, 0, 0));
    assert_eq!(view.status, GameStatus::Title);
    assert_eq!(view.health, None);
    assert!(view.details.weapons.is_empty() && view.details.items.is_empty());
    assert_eq!(view.details.effects, Effects::default());
    assert!(idle.heal().is_err());
}

#[test]
fn a_revoked_tick_clears_both_players_and_keeps_their_state() {
    let mut second = port(GameStatus::Playing);
    second.id = 2;
    let mut scene = ScenePort { player1: port(GameStatus::Playing), player2: second };
    scene.player1.set_effects(machine_gun_rule());
    scene.player2.set_effects(machine_gun_rule());
    scene.player1.player.trainer_jump_active = true;
    let weapons = scene.player1.inventory.weapons.clone();
    let plan = scene.tick(false, false, true);
    assert!(plan.disconnect && !plan.serve);
    for p in [&scene.player1, &scene.player2] {
        assert_eq!(p.player.trainer_effects, Effects::default());
        assert!(!p.player.trainer_jump_active);
        assert_eq!(p.player.life, 3);
        assert!(p.inventory.weapons.iter().all(|w| !w.trainer_lock_ammo && !w.trainer_lock_experience));
    }
    for (w, v) in scene.player1.inventory.weapons.iter().zip(weapons.iter()) {
        assert_eq!((w.ammo, w.experience, w.level), (v.ammo, v.experience, v.level));
    }
    scene.player2.set_effects(machine_gun_rule());
    let plan = scene.tick(true, false, true);
    assert!(!plan.clear_player2 && plan.serve);
    assert_eq!(scene.player2.player.trainer_effects.jump_percent, 175);
}
