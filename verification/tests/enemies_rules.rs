use background_game::collisions::{first_touching, resolve_player_contacts, touches_any, PlayerContact};
use background_game::enemies::{
    randomish_speed_offset_halves, should_reset_enemies, DroneSwarmVariant, EnemyKind, EnemyWave,
    EnemyWaveState,
};
use background_game::random::EnemyRandom;
use background_game::ui::{GameMode, UiGameState};

const KAMIKAZE_MIN_COUNT: usize = 2;
const KAMIKAZE_MAX_COUNT: usize = 4;

#[test]
fn enemy_specs_capture_kamikaze_explosion_behavior() {
    let drone_swarm = EnemyKind::DroneSwarm.spec();
    let kamikaze = EnemyKind::KamikazeDrone.spec();

    assert!(!drone_swarm.explodes_on_contact);
    assert_eq!(drone_swarm.explosion_radius, 0);
    assert!(kamikaze.explodes_on_contact);
    assert!(kamikaze.explosion_radius > kamikaze.max_extent());
    assert!(kamikaze.explosion_damage_percent > 0);
}

#[test]
fn enemy_random_generates_values_inside_requested_ranges() {
    let mut random = EnemyRandom::default();

    for _ in 0..100 {
        let count = random.range_usize(KAMIKAZE_MIN_COUNT, KAMIKAZE_MAX_COUNT);
        assert!((KAMIKAZE_MIN_COUNT..=KAMIKAZE_MAX_COUNT).contains(&count));

        let draw = random.next_u32();
        let value = -8.0 + (12.0f32 - -8.0) * (draw as f32 / u32::MAX as f32);
        assert!((-8.0..=12.0).contains(&value));
    }
}

#[test]
fn randomish_speed_offset_is_stable_and_centered() {
    assert_eq!(randomish_speed_offset_halves(0) as f32 / 2.0, -13.5);
    assert_eq!(randomish_speed_offset_halves(3) as f32 / 2.0, 0.0);
    assert_eq!(randomish_speed_offset_halves(6) as f32 / 2.0, 13.5);
    assert_eq!(randomish_speed_offset_halves(7) as f32 / 2.0, -13.5);
}

#[test]
fn generator_follows_the_linear_congruential_step() {
    let mut random = EnemyRandom::default();
    let first = random.next_u32();
    let expected = 0xC0DE_DA7Au32.wrapping_mul(1_664_525).wrapping_add(1_013_904_223);
    assert_eq!(first, expected);
    let second = random.next_u32();
    assert_eq!(second, expected.wrapping_mul(1_664_525).wrapping_add(1_013_904_223));

    let mut again = EnemyRandom::default();
    assert_eq!(again.next_u32(), first);
    let bounded = again.range_usize(10, 12);
    assert_eq!(bounded, 10 + (second as usize % 3));
}

#[test]
fn roster_lists_every_enemy() {
    let overlord = EnemyKind::OverlordCore.spec();
    assert_eq!(overlord.display_name, "Overlord Core");
    assert_eq!((overlord.health, overlord.speed, overlord.contact_damage), (220, 80, 30));
    assert_eq!((overlord.color.red, overlord.color.green, overlord.color.blue), (950, 950, 1000));

    let kamikaze = EnemyKind::KamikazeDrone.spec();
    assert_eq!((kamikaze.width, kamikaze.height, kamikaze.max_extent()), (56, 110, 110));
    assert_eq!((kamikaze.explosion_radius, kamikaze.explosion_damage_percent), (168, 24));
    assert_eq!(kamikaze.role, "Rychly utocnik navrzeny pro presny naraz a plosny vybuch.");

    for kind in [
        EnemyKind::DroneSwarm,
        EnemyKind::ShieldCarrier,
        EnemyKind::TurretDrone,
        EnemyKind::PhaseJumper,
        EnemyKind::GravityDrone,
        EnemyKind::Splitter,
        EnemyKind::FlameChaser,
        EnemyKind::SniperEye,
        EnemyKind::OverlordCore,
    ] {
        let spec = kind.spec();
        assert!(!spec.explodes_on_contact);
        assert_eq!(spec.explosion_radius, 0);
        assert_eq!(spec.explosion_damage_percent, 0);
    }
}

#[test]
fn drone_variants_have_their_own_look() {
    assert_eq!(DroneSwarmVariant::Left.sprite_path(), "sprites/drone-swarm-left.png");
    assert_eq!(DroneSwarmVariant::Center.sprite_path(), "sprites/drone-swarm-center.png");
    assert_eq!(DroneSwarmVariant::Right.sprite_path(), "sprites/drone-swarm-right.png");
    assert_eq!(DroneSwarmVariant::Center.size_scale_permille(), (1000, 1130));
    assert_eq!(DroneSwarmVariant::Left.personal_space_permille(), 940);
    assert_eq!(DroneSwarmVariant::Right.spin_speed_millirad(), -3600);
    assert_eq!(DroneSwarmVariant::Left.spin_speed_millirad(), 0);

    let mut random = EnemyRandom::default();
    let mut probe = EnemyRandom::default();
    let draw = probe.next_u32() % 3;
    let expected = match draw {
        0 => DroneSwarmVariant::Left,
        1 => DroneSwarmVariant::Center,
        _ => DroneSwarmVariant::Right,
    };
    assert_eq!(DroneSwarmVariant::random(&mut random), expected);
}

#[test]
fn waves_come_in_order() {
    let running = UiGameState { selected_mode: GameMode::Arcade, is_running: true, is_defeated: false };
    let paused = UiGameState::default();
    let mut random = EnemyRandom::default();
    let mut waves = EnemyWaveState::default();

    assert!(waves.spawn_allowed(EnemyWave::DroneSwarm, &running, false));
    assert!(!waves.spawn_allowed(EnemyWave::DroneSwarm, &running, true));
    assert!(!waves.spawn_allowed(EnemyWave::DroneSwarm, &paused, false));
    assert!(!waves.spawn_allowed(EnemyWave::KamikazeDrone, &running, false));

    let (count, wave_id) = waves.begin_drone_swarm_wave(&mut random);
    assert!((3..=6).contains(&count));
    assert_eq!(wave_id, 0);
    assert_eq!(waves, EnemyWaveState { next_wave: EnemyWave::KamikazeDrone, next_wave_id: 1 });
    assert!(waves.spawn_allowed(EnemyWave::KamikazeDrone, &running, false));

    let kamikazes = waves.begin_kamikaze_wave(&mut random);
    assert!((2..=4).contains(&kamikazes));
    assert_eq!(waves, EnemyWaveState { next_wave: EnemyWave::Complete, next_wave_id: 2 });
    assert!(!waves.spawn_allowed(EnemyWave::DroneSwarm, &running, false));
    assert!(!waves.spawn_allowed(EnemyWave::KamikazeDrone, &running, false));

    waves.reset();
    assert_eq!(waves, EnemyWaveState { next_wave: EnemyWave::DroneSwarm, next_wave_id: 2 });
    let (_, next_id) = waves.begin_drone_swarm_wave(&mut random);
    assert_eq!(next_id, 2);
}

#[test]
fn wave_sizes_follow_the_generator() {
    let mut random = EnemyRandom::default();
    let mut probe = EnemyRandom::default();
    let mut waves = EnemyWaveState::default();
    let (count, _) = waves.begin_drone_swarm_wave(&mut random);
    assert_eq!(count, 3 + probe.next_u32() as usize % 4);
    let kamikazes = waves.begin_kamikaze_wave(&mut random);
    assert_eq!(kamikazes, 2 + probe.next_u32() as usize % 3);
}

#[test]
fn enemies_reset_only_when_not_playing() {
    let arcade_running = UiGameState { selected_mode: GameMode::Arcade, is_running: true, is_defeated: false };
    let arcade_defeated = UiGameState { selected_mode: GameMode::Arcade, is_running: false, is_defeated: true };
    let side_defeated = UiGameState { selected_mode: GameMode::SideScrolling, is_running: false, is_defeated: true };
    let side_running = UiGameState { selected_mode: GameMode::SideScrolling, is_running: true, is_defeated: false };
    assert!(!should_reset_enemies(&arcade_running));
    assert!(!should_reset_enemies(&arcade_defeated));
    assert!(should_reset_enemies(&side_defeated));
    assert!(should_reset_enemies(&side_running));
    assert!(should_reset_enemies(&UiGameState::default()));
}

fn contact(touching: bool, explodes: bool) -> PlayerContact {
    PlayerContact { touching, explodes_on_contact: explodes }
}

#[test]
fn player_contacts_detonate_explosives_and_stop_at_first_ram() {
    let contacts = vec![
        contact(false, false),
        contact(true, true),
        contact(true, false),
        contact(true, true),
    ];
    let ready = resolve_player_contacts(&contacts, true);
    assert_eq!(ready.detonations, vec![1]);
    assert!(ready.player_hit);

    let shielded = resolve_player_contacts(&contacts, false);
    assert_eq!(shielded.detonations, vec![1, 3]);
    assert!(!shielded.player_hit);

    let none = resolve_player_contacts(&vec![contact(false, true), contact(false, false)], true);
    assert!(none.detonations.is_empty());
    assert!(!none.player_hit);
}

#[test]
fn projectile_hits_first_touching_enemy() {
    assert_eq!(first_touching(&vec![false, true, true]), Some(1));
    assert_eq!(first_touching(&vec![false, false]), None);
    assert_eq!(first_touching(&vec![]), None);
    assert!(touches_any(&vec![false, false, true]));
    assert!(!touches_any(&vec![false]));
}
