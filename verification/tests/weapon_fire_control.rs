use fps_game::enemy::{DamageOutcome, Enemy, EnemyState};
use fps_game::weapon::{HitEffect, RayHit, Weapon};

fn weapon(ammo: i32, fire_rate: u32) -> Weapon {
    Weapon::new(25, fire_rate, ammo, 30).expect("valid settings")
}

#[test]
fn weapon_init_gives_the_standard_weapon() {
    let w = Weapon::init();
    assert_eq!(w.damage(), 25);
    assert_eq!(w.fire_rate(), 100);
    assert_eq!(w.ammo(), 30);
    assert_eq!(w.max_ammo(), 30);
    assert_eq!(w.fire_timer(), 0);
    assert!(w.can_fire());
}

#[test]
fn weapon_new_keeps_the_settings() {
    let w = Weapon::new(7, 250, 3, 12).expect("valid settings");
    assert_eq!(w.damage(), 7);
    assert_eq!(w.fire_rate(), 250);
    assert_eq!(w.ammo(), 3);
    assert_eq!(w.max_ammo(), 12);
    assert_eq!(w.fire_timer(), 0);
}

#[test]
fn weapon_new_refuses_settings_that_break_the_invariant() {
    assert!(Weapon::new(-1, 100, 30, 30).is_none());
    assert!(Weapon::new(25, 0, 30, 30).is_none());
    assert!(Weapon::new(25, 100, 0, 0).is_none());
    assert!(Weapon::new(25, 100, -1, 30).is_none());
    assert!(Weapon::new(25, 100, 31, 30).is_none());
    assert!(Weapon::new(0, 1, 0, 1).is_some());
}

#[test]
fn scenario_last_round_then_blocked() {
    let mut w = weapon(1, 500);
    assert_eq!(w.fire(), Some(0));
    assert_eq!(w.ammo(), 0);
    assert_eq!(w.fire_timer(), 500);

    assert_eq!(w.process(100, false), None);
    assert_eq!(w.fire(), None);
    assert_eq!(w.ammo(), 0);
    assert_eq!(w.fire_timer(), 400);
}

#[test]
fn scenario_reload_of_an_empty_magazine() {
    let mut w = weapon(0, 100);
    assert_eq!(w.reload(), 30);
    assert_eq!(w.ammo(), 30);
    assert_eq!(w.max_ammo(), 30);
}

#[test]
fn reload_fills_whatever_the_magazine_held() {
    for ammo in [0, 1, 17, 29, 30] {
        let mut w = weapon(ammo, 100);
        assert_eq!(w.reload(), 30);
        assert_eq!(w.ammo(), 30);
        assert_eq!(w.damage(), 25);
        assert_eq!(w.fire_rate(), 100);
        assert_eq!(w.fire_timer(), 0);
    }
}

#[test]
fn reload_does_not_touch_the_cooldown() {
    let mut w = weapon(5, 500);
    assert_eq!(w.fire(), Some(4));
    assert_eq!(w.reload(), 30);
    assert_eq!(w.fire_timer(), 500);
    assert!(!w.can_fire());
}

#[test]
fn can_fire_needs_a_round_and_a_cold_barrel() {
    let ready = weapon(1, 100);
    assert!(ready.can_fire());

    let empty = weapon(0, 100);
    assert!(!empty.can_fire());

    let mut hot = weapon(5, 100);
    assert_eq!(hot.fire(), Some(4));
    assert!(!hot.can_fire());
    assert_eq!(hot.process(99, false), None);
    assert!(!hot.can_fire());
    assert_eq!(hot.process(1, false), None);
    assert!(hot.can_fire());
}

#[test]
fn blocked_fire_changes_nothing() {
    let mut hot = weapon(5, 100);
    assert_eq!(hot.fire(), Some(4));
    assert_eq!(hot.fire(), None);
    assert_eq!(hot.ammo(), 4);
    assert_eq!(hot.fire_timer(), 100);

    let mut empty = weapon(0, 100);
    assert_eq!(empty.fire(), None);
    assert_eq!(empty.ammo(), 0);
    assert_eq!(empty.fire_timer(), 0);
}

#[test]
fn cooldown_runs_down_and_stops_at_zero() {
    let mut w = weapon(5, 100);
    assert_eq!(w.fire(), Some(4));
    assert_eq!(w.process(30, false), None);
    assert_eq!(w.fire_timer(), 70);
    assert_eq!(w.process(0, false), None);
    assert_eq!(w.fire_timer(), 70);
    assert_eq!(w.process(1000, false), None);
    assert_eq!(w.fire_timer(), 0);
    assert_eq!(w.process(u32::MAX, false), None);
    assert_eq!(w.fire_timer(), 0);
    assert_eq!(w.ammo(), 4);
}

#[test]
fn held_trigger_fires_as_soon_as_the_cooldown_is_over() {
    let mut w = weapon(3, 100);
    assert_eq!(w.process(16, true), Some(2));
    assert_eq!(w.fire_timer(), 100);
    assert_eq!(w.process(60, true), None);
    assert_eq!(w.fire_timer(), 40);
    assert_eq!(w.process(40, true), Some(1));
    assert_eq!(w.fire_timer(), 100);
    assert_eq!(w.process(500, true), Some(0));
    assert_eq!(w.process(500, true), None);
    assert_eq!(w.ammo(), 0);
    assert_eq!(w.fire_timer(), 0);
}

#[test]
fn released_trigger_never_fires() {
    let mut w = weapon(3, 100);
    assert_eq!(w.process(16, false), None);
    assert_eq!(w.ammo(), 3);
    assert_eq!(w.fire_timer(), 0);
}

#[test]
fn raycast_shot_resolves_what_the_ray_met() {
    let w = Weapon::new(40, 100, 30, 30).expect("valid settings");
    assert_eq!(w.raycast_shot(RayHit::Miss), HitEffect::Nothing);
    assert_eq!(w.raycast_shot(RayHit::Obstacle), HitEffect::Impact);
    assert_eq!(w.raycast_shot(RayHit::Target), HitEffect::Damage { damage: 40 });
    assert_eq!(w.ammo(), 30);
}

#[test]
fn shots_wear_an_enemy_down() {
    let mut w = Weapon::init();
    let mut e = Enemy::init();
    let mut outcomes = Vec::new();
    for _ in 0..5 {
        if w.process(100, true).is_some() {
            if let HitEffect::Damage { damage } = w.raycast_shot(RayHit::Target) {
                outcomes.push(e.take_damage(damage));
            }
        }
    }
    assert_eq!(
        outcomes,
        vec![
            DamageOutcome::Wounded { health: 75, max_health: 100 },
            DamageOutcome::Wounded { health: 50, max_health: 100 },
            DamageOutcome::Wounded { health: 25, max_health: 100 },
            DamageOutcome::Killed { max_health: 100, removal_delay: 2000 },
            DamageOutcome::Ignored,
        ]
    );
    assert_eq!(w.ammo(), 25);
    assert_eq!(e.state(), EnemyState::Dead);
}
