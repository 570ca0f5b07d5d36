//! The enemy roster, drone-swarm variants, the wave schedule and the
//! decisions taken when enemies touch the player, projectiles or each other.
//!
//! Quantities are integers: lengths and speeds in world units, colour
//! channels and scale factors in thousandths, damage fractions in percent,
//! spin speeds in thousandths of a radian per second.

use vstd::prelude::*;

use crate::random::{EnemyRandom, in_range, lcg_next};
use crate::ui::{UiGameState, GameMode, gameplay_active_spec};

verus! {

/// The enemy types of the game.
#[derive(Debug, Clone, Copy, PartialEq, Eq, Structural)]
pub enum EnemyKind {
    DroneSwarm,
    KamikazeDrone,
    ShieldCarrier,
    TurretDrone,
    PhaseJumper,
    GravityDrone,
    Splitter,
    FlameChaser,
    SniperEye,
    OverlordCore,
}

/// A colour, each channel in thousandths.
#[derive(Debug, Clone, Copy, PartialEq, Eq, Structural)]
pub struct Rgb {
    pub red: u16,
    pub green: u16,
    pub blue: u16,
}

/// The design data of an enemy type.
#[derive(Debug, Clone, Copy)]
pub struct EnemySpec {
    pub display_name: &'static str,
    pub role: &'static str,
    pub health: u32,
    pub speed: u32,
    pub contact_damage: u32,
    pub width: u32,
    pub height: u32,
    pub color: Rgb,
    pub explosion_radius: u32,
    /// Share of the player's maximum health that an explosion takes, in percent.
    pub explosion_damage_percent: u32,
    pub explodes_on_contact: bool,
}

/// The numbers of an enemy type, in the order health, speed, contact
/// damage, width, height, explosion radius, explosion damage (percent).
pub open spec fn numbers_of(kind: EnemyKind) -> (u32, u32, u32, u32, u32, u32, u32) {
    match kind {
        EnemyKind::DroneSwarm => (28, 175, 10, 30, 30, 0, 0),
        EnemyKind::KamikazeDrone => (18, 290, 24, 56, 110, 168, 24),
        EnemyKind::ShieldCarrier => (90, 130, 8, 48, 48, 0, 0),
        EnemyKind::TurretDrone => (58, 65, 10, 42, 42, 0, 0),
        EnemyKind::PhaseJumper => (38, 210, 14, 34, 34, 0, 0),
        EnemyKind::GravityDrone => (64, 120, 9, 46, 38, 0, 0),
        EnemyKind::Splitter => (46, 180, 12, 40, 30, 0, 0),
        EnemyKind::FlameChaser => (52, 280, 18, 36, 44, 0, 0),
        EnemyKind::SniperEye => (32, 95, 7, 38, 38, 0, 0),
        EnemyKind::OverlordCore => (220, 80, 30, 72, 72, 0, 0),
    }
}

/// The colour of an enemy type, channels in thousandths.
pub open spec fn color_of(kind: EnemyKind) -> (u16, u16, u16) {
    match kind {
        EnemyKind::DroneSwarm => (1000, 1000, 1000),
        EnemyKind::KamikazeDrone => (1000, 1000, 1000),
        EnemyKind::ShieldCarrier => (200, 550, 1000),
        EnemyKind::TurretDrone => (860, 680, 280),
        EnemyKind::PhaseJumper => (720, 420, 1000),
        EnemyKind::GravityDrone => (220, 1000, 580),
        EnemyKind::Splitter => (1000, 650, 220),
        EnemyKind::FlameChaser => (1000, 380, 50),
        EnemyKind::SniperEye => (1000, 150, 550),
        EnemyKind::OverlordCore => (950, 950, 1000),
    }
}

/// The name shown for an enemy type.
pub open spec fn display_name_of(kind: EnemyKind) -> Seq<char> {
    match kind {
        EnemyKind::DroneSwarm => "Drone Swarm"@,
        EnemyKind::KamikazeDrone => "Kamikaze Drone"@,
        EnemyKind::ShieldCarrier => "Shield Carrier"@,
        EnemyKind::TurretDrone => "Turret Drone"@,
        EnemyKind::PhaseJumper => "Phase Jumper"@,
        EnemyKind::GravityDrone => "Gravity Drone"@,
        EnemyKind::Splitter => "Splitter"@,
        EnemyKind::FlameChaser => "Flame Chaser"@,
        EnemyKind::SniperEye => "Sniper Eye"@,
        EnemyKind::OverlordCore => "Overlord Core"@,
    }
}

/// The role description of an enemy type.
pub open spec fn role_of(kind: EnemyKind) -> Seq<char> {
    match kind {
        EnemyKind::DroneSwarm => "Roj malych dronu leticich na hrace v koordinovane formaci."@,
        EnemyKind::KamikazeDrone => "Rychly utocnik navrzeny pro presny naraz a plosny vybuch."@,
        EnemyKind::ShieldCarrier => "Podpurny nepritel, ktery bude pozdeji chranit okolni jednotky."@,
        EnemyKind::TurretDrone => "Stacionarni nebo pomaly strelec pro kontrolu zony."@,
        EnemyKind::PhaseJumper => "Nepravidelny nepritel pro budouci teleportacni pohyb."@,
        EnemyKind::GravityDrone => "Kontrolni jednotka pro budouci tahani nebo zpomalovani hrace."@,
        EnemyKind::Splitter => "Nepritel, ktery se pozdeji rozdeli na mensi casti."@,
        EnemyKind::FlameChaser => "Agresivni pronasledovatel pro tlak z blizkosti."@,
        EnemyKind::SniperEye => "Presny strelec pro budouci dalekonosne utoky."@,
        EnemyKind::OverlordCore => "Elitni jadro/boss pro budouci vlny a prikazy ostatnim."@,
    }
}

/// Whether an enemy type blows up when it touches something.
pub open spec fn explodes_on_contact_of(kind: EnemyKind) -> bool {
    kind == EnemyKind::KamikazeDrone
}

/// `spec` is the design data of `kind`.
pub open spec fn describes(spec: EnemySpec, kind: EnemyKind) -> bool {
    let (health, speed, contact_damage, width, height, radius, percent) = numbers_of(kind);
    &&& spec.display_name@ == display_name_of(kind)
    &&& spec.role@ == role_of(kind)
    &&& spec.health == health
    &&& spec.speed == speed
    &&& spec.contact_damage == contact_damage
    &&& spec.width == width
    &&& spec.height == height
    &&& (spec.color.red, spec.color.green, spec.color.blue) == color_of(kind)
    &&& spec.explosion_radius == radius
    &&& spec.explosion_damage_percent == percent
    &&& spec.explodes_on_contact == explodes_on_contact_of(kind)
}

fn rgb(red: u16, green: u16, blue: u16) -> (c: Rgb)
    ensures
        c == (Rgb { red, green, blue }),
{
    Rgb { red, green, blue }
}

fn plain_spec(
    display_name: &'static str,
    role: &'static str,
    numbers: (u32, u32, u32, u32, u32),
    color: Rgb,
) -> (spec: EnemySpec)
    ensures
        spec.display_name == display_name,
        spec.role == role,
        (spec.health, spec.speed, spec.contact_damage, spec.width, spec.height) == numbers,
        spec.color == color,
        spec.explosion_radius == 0,
        spec.explosion_damage_percent == 0,
        !spec.explodes_on_contact,
{
    EnemySpec {
        display_name,
        role,
        health: numbers.0,
        speed: numbers.1,
        contact_damage: numbers.2,
        width: numbers.3,
        height: numbers.4,
        color,
        explosion_radius: 0,
        explosion_damage_percent: 0,
        explodes_on_contact: false,
    }
}

impl EnemyKind {
    /// The design data of this enemy type.
    pub fn spec(self) -> (spec: EnemySpec)
        ensures
            describes(spec, self),
    {
        match self {
            EnemyKind::DroneSwarm => plain_spec(
                "Drone Swarm",
                "Roj malych dronu leticich na hrace v koordinovane formaci.",
                (28, 175, 10, 30, 30),
                rgb(1000, 1000, 1000),
            ),
            EnemyKind::KamikazeDrone => EnemySpec {
                display_name: "Kamikaze Drone",
                role: "Rychly utocnik navrzeny pro presny naraz a plosny vybuch.",
                health: 18,
                speed: 290,
                contact_damage: 24,
                width: 56,
                height: 110,
                color: rgb(1000, 1000, 1000),
                explosion_radius: 168,
                explosion_damage_percent: 24,
                explodes_on_contact: true,
            },
            EnemyKind::ShieldCarrier => plain_spec(
                "Shield Carrier",
                "Podpurny nepritel, ktery bude pozdeji chranit okolni jednotky.",
                (90, 130, 8, 48, 48),
                rgb(200, 550, 1000),
            ),
            EnemyKind::TurretDrone => plain_spec(
                "Turret Drone",
                "Stacionarni nebo pomaly strelec pro kontrolu zony.",
                (58, 65, 10, 42, 42),
                rgb(860, 680, 280),
            ),
            EnemyKind::PhaseJumper => plain_spec(
                "Phase Jumper",
                "Nepravidelny nepritel pro budouci teleportacni pohyb.",
                (38, 210, 14, 34, 34),
                rgb(720, 420, 1000),
            ),
            EnemyKind::GravityDrone => plain_spec(
                "Gravity Drone",
                "Kontrolni jednotka pro budouci tahani nebo zpomalovani hrace.",
                (64, 120, 9, 46, 38),
                rgb(220, 1000, 580),
            ),
            EnemyKind::Splitter => plain_spec(
                "Splitter",
                "Nepritel, ktery se pozdeji rozdeli na mensi casti.",
                (46, 180, 12, 40, 30),
                rgb(1000, 650, 220),
            ),
            EnemyKind::FlameChaser => plain_spec(
                "Flame Chaser",
                "Agresivni pronasledovatel pro tlak z blizkosti.",
                (52, 280, 18, 36, 44),
                rgb(1000, 380, 50),
            ),
            EnemyKind::SniperEye => plain_spec(
                "Sniper Eye",
                "Presny strelec pro budouci dalekonosne utoky.",
                (32, 95, 7, 38, 38),
                rgb(1000, 150, 550),
            ),
            EnemyKind::OverlordCore => plain_spec(
                "Overlord Core",
                "Elitni jadro/boss pro budouci vlny a prikazy ostatnim.",
                (220, 80, 30, 72, 72),
                rgb(950, 950, 1000),
            ),
        }
    }
}

impl EnemySpec {
    /// The larger of the sprite's two sides.
    pub fn max_extent(&self) -> (extent: u32)
        ensures
            extent == if self.width >= self.height { self.width } else { self.height },
    {
        if self.width >= self.height {
            self.width
        } else {
            self.height
        }
    }
}

/// Only the kamikaze drone explodes; an enemy has a blast radius exactly
/// when it explodes on contact, and the kamikaze's blast reaches beyond its
/// own sprite.
pub proof fn lemma_only_kamikaze_explodes(kind: EnemyKind)
    ensures
        explodes_on_contact_of(kind) <==> kind == EnemyKind::KamikazeDrone,
        (numbers_of(kind).5 > 0) <==> explodes_on_contact_of(kind),
        (numbers_of(kind).6 > 0) <==> explodes_on_contact_of(kind),
        kind == EnemyKind::KamikazeDrone ==> numbers_of(kind).5 > numbers_of(kind).3
            && numbers_of(kind).5 > numbers_of(kind).4,
{
}


/// The three sprite variants of a swarm drone.
#[derive(Debug, Clone, Copy, PartialEq, Eq, Structural)]
pub enum DroneSwarmVariant {
    Left,
    Center,
    Right,
}

/// The variant that a draw of 0, 1 or anything else picks.
pub open spec fn variant_of_draw(draw: int) -> DroneSwarmVariant {
    if draw == 0 {
        DroneSwarmVariant::Left
    } else if draw == 1 {
        DroneSwarmVariant::Center
    } else {
        DroneSwarmVariant::Right
    }
}

impl DroneSwarmVariant {
    /// Picks a variant with a draw between 0 and 2 from the generator.
    pub fn random(random: &mut EnemyRandom) -> (variant: Self)
        ensures
            final(random).state_spec() == lcg_next(old(random).state_spec()),
            variant == variant_of_draw(in_range(final(random).state_spec(), 0, 2)),
    {
        match random.range_usize(0, 2) {
            0 => DroneSwarmVariant::Left,
            1 => DroneSwarmVariant::Center,
            _ => DroneSwarmVariant::Right,
        }
    }

    /// The sprite asset of the variant.
    pub fn sprite_path(self) -> (path: &'static str)
        ensures
            self == DroneSwarmVariant::Left ==> path@ == "sprites/drone-swarm-left.png"@,
            self == DroneSwarmVariant::Center ==> path@ == "sprites/drone-swarm-center.png"@,
            self == DroneSwarmVariant::Right ==> path@ == "sprites/drone-swarm-right.png"@,
    {
        match self {
            DroneSwarmVariant::Left => "sprites/drone-swarm-left.png",
            DroneSwarmVariant::Center => "sprites/drone-swarm-center.png",
            DroneSwarmVariant::Right => "sprites/drone-swarm-right.png",
        }
    }

    /// How the variant stretches the base sprite size, (width, height) in
    /// thousandths.
    pub fn size_scale_permille(self) -> (scale: (u32, u32))
        ensures
            self == DroneSwarmVariant::Left ==> scale == (1020u32, 1020u32),
            self == DroneSwarmVariant::Center ==> scale == (1000u32, 1130u32),
            self == DroneSwarmVariant::Right ==> scale == (1180u32, 1180u32),
    {
        match self {
            DroneSwarmVariant::Left => (1020, 1020),
            DroneSwarmVariant::Center => (1000, 1130),
            DroneSwarmVariant::Right => (1180, 1180),
        }
    }

    /// How much room the variant keeps from its neighbours, relative to the
    /// swarm's separation radius, in thousandths.
    pub fn personal_space_permille(self) -> (space: u32)
        ensures
            self == DroneSwarmVariant::Left ==> space == 940,
            self == DroneSwarmVariant::Center ==> space == 1000,
            self == DroneSwarmVariant::Right ==> space == 1120,
    {
        match self {
            DroneSwarmVariant::Left => 940,
            DroneSwarmVariant::Center => 1000,
            DroneSwarmVariant::Right => 1120,
        }
    }

    /// The sprite's spin, in thousandths of a radian per second: only the
    /// right variant spins, clockwise.
    pub fn spin_speed_millirad(self) -> (spin: i32)
        ensures
            self == DroneSwarmVariant::Right ==> spin == -3600,
            self != DroneSwarmVariant::Right ==> spin == 0,
    {
        match self {
            DroneSwarmVariant::Right => -3600,
            DroneSwarmVariant::Left | DroneSwarmVariant::Center => 0,
        }
    }
}

/// The waves of a game, in the order in which they come.
#[derive(Debug, Clone, Copy, PartialEq, Eq, Structural)]
pub enum EnemyWave {
    DroneSwarm,
    KamikazeDrone,
    Complete,
}

/// Which wave comes next and the number the next wave will carry.
#[derive(Debug, Clone, Copy, PartialEq, Eq, Structural)]
pub struct EnemyWaveState {
    pub next_wave: EnemyWave,
    pub next_wave_id: u32,
}

/// Smallest and largest drone swarm.
pub open spec fn drone_swarm_bounds() -> (usize, usize) {
    (3, 6)
}

/// Smallest and largest kamikaze wave.
pub open spec fn kamikaze_bounds() -> (usize, usize) {
    (2, 4)
}

/// Whether the wave `wave` spawns in this frame.
pub open spec fn spawn_allowed_spec(ws: EnemyWaveState, wave: EnemyWave, ui: UiGameState, enemies_present: bool) -> bool {
    ws.next_wave == wave && !enemies_present && gameplay_active_spec(ui)
}

/// The wave state after the drone swarm has been launched.
pub open spec fn after_drone_swarm(ws: EnemyWaveState) -> EnemyWaveState {
    EnemyWaveState { next_wave: EnemyWave::KamikazeDrone, next_wave_id: (ws.next_wave_id + 1) as u32 }
}

/// The wave state after the kamikaze wave has been launched.
pub open spec fn after_kamikaze(ws: EnemyWaveState) -> EnemyWaveState {
    EnemyWaveState { next_wave: EnemyWave::Complete, next_wave_id: (ws.next_wave_id + 1) as u32 }
}

/// Whether a change of the panel state clears the enemies and restarts the
/// schedule: not while a defeat is shown in the arcade mode, and not while
/// the arcade mode runs.
pub open spec fn should_reset_spec(ui: UiGameState) -> bool {
    (!ui.is_defeated || ui.selected_mode != GameMode::Arcade)
        && !(ui.selected_mode == GameMode::Arcade && ui.is_running)
}

impl Default for EnemyWaveState {
    /// A new game starts with the drone swarm, numbered 0.
    fn default() -> (ws: Self)
        ensures
            ws == (EnemyWaveState { next_wave: EnemyWave::DroneSwarm, next_wave_id: 0 }),
    {
        EnemyWaveState { next_wave: EnemyWave::DroneSwarm, next_wave_id: 0 }
    }
}

impl EnemyWaveState {
    /// Whether `wave` spawns now: it is the next wave, the field is clear of
    /// enemies and the arcade game runs.
    pub fn spawn_allowed(&self, wave: EnemyWave, ui: &UiGameState, enemies_present: bool) -> (allowed: bool)
        ensures
            allowed == spawn_allowed_spec(*self, wave, *ui, enemies_present),
    {
        self.next_wave == wave && !enemies_present && ui.gameplay_active()
    }

    /// Launches the drone swarm: draws its size, hands out its number and
    /// moves the schedule on to the kamikaze wave. Returns (size, number).
    pub fn begin_drone_swarm_wave(&mut self, random: &mut EnemyRandom) -> (plan: (usize, u32))
        requires
            old(self).next_wave_id < u32::MAX,
        ensures
            final(random).state_spec() == lcg_next(old(random).state_spec()),
            plan.0 == in_range(final(random).state_spec(), drone_swarm_bounds().0, drone_swarm_bounds().1),
            drone_swarm_bounds().0 <= plan.0 <= drone_swarm_bounds().1,
            plan.1 == old(self).next_wave_id,
            *final(self) == after_drone_swarm(*old(self)),
    {
        let count = random.range_usize(3, 6);
        let wave_id = self.next_wave_id;
        self.next_wave_id = self.next_wave_id + 1;
        self.next_wave = EnemyWave::KamikazeDrone;
        (count, wave_id)
    }

    /// Launches the kamikaze wave: draws its size, uses up a number and
    /// completes the schedule. Returns the size.
    pub fn begin_kamikaze_wave(&mut self, random: &mut EnemyRandom) -> (count: usize)
        requires
            old(self).next_wave_id < u32::MAX,
        ensures
            final(random).state_spec() == lcg_next(old(random).state_spec()),
            count == in_range(final(random).state_spec(), kamikaze_bounds().0, kamikaze_bounds().1),
            kamikaze_bounds().0 <= count <= kamikaze_bounds().1,
            *final(self) == after_kamikaze(*old(self)),
    {
        let count = random.range_usize(2, 4);
        self.next_wave_id = self.next_wave_id + 1;
        self.next_wave = EnemyWave::Complete;
        count
    }

    /// Restarts the schedule with the drone swarm; wave numbers keep counting.
    pub fn reset(&mut self)
        ensures
            final(self).next_wave == EnemyWave::DroneSwarm,
            final(self).next_wave_id == old(self).next_wave_id,
    {
        self.next_wave = EnemyWave::DroneSwarm;
    }
}

/// Whether the enemies are cleared and the schedule restarted after the
/// panel state changed.
pub fn should_reset_enemies(ui: &UiGameState) -> (reset: bool)
    ensures
        reset == should_reset_spec(*ui),
{
    (!ui.is_defeated || ui.selected_mode != GameMode::Arcade)
        && !(ui.selected_mode == GameMode::Arcade && ui.is_running)
}

/// The waves come in a fixed order: only the scheduled wave can spawn, the
/// drone swarm is followed by the kamikaze wave, after which nothing spawns
/// until the schedule is reset; each launch takes the next number.
pub proof fn lemma_wave_schedule(ws: EnemyWaveState, wave: EnemyWave, ui: UiGameState, present: bool)
    requires
        ws.next_wave_id < u32::MAX,
    ensures
        spawn_allowed_spec(ws, wave, ui, present) ==> wave == ws.next_wave,
        after_drone_swarm(ws).next_wave == EnemyWave::KamikazeDrone,
        after_kamikaze(ws).next_wave == EnemyWave::Complete,
        !spawn_allowed_spec(after_kamikaze(ws), EnemyWave::DroneSwarm, ui, present),
        !spawn_allowed_spec(after_kamikaze(ws), EnemyWave::KamikazeDrone, ui, present),
        after_drone_swarm(ws).next_wave_id > ws.next_wave_id,
        after_kamikaze(ws).next_wave_id > ws.next_wave_id,
{
}

/// A wave spawns only onto a clear field, while the arcade game runs, and
/// only when it is the scheduled one; and then it does spawn.
pub proof fn lemma_spawn_needs_clear_field(ws: EnemyWaveState, wave: EnemyWave, ui: UiGameState, present: bool)
    ensures
        present ==> !spawn_allowed_spec(ws, wave, ui, present),
        spawn_allowed_spec(ws, wave, ui, present) ==> {
            &&& ui.selected_mode == GameMode::Arcade
            &&& ui.is_running
            &&& ws.next_wave == wave
        },
        (!present && ui.selected_mode == GameMode::Arcade && ui.is_running && ws.next_wave == wave)
            ==> spawn_allowed_spec(ws, wave, ui, present),
{
}

/// The schedule never restarts while the arcade game runs, and a paused
/// undefeated game always restarts it.
pub proof fn lemma_reset_rules(ui: UiGameState)
    ensures
        gameplay_active_spec(ui) ==> !should_reset_spec(ui),
        (!ui.is_running && !ui.is_defeated) ==> should_reset_spec(ui),
        ui.selected_mode == GameMode::SideScrolling && !ui.is_running ==> should_reset_spec(ui),
{
}

/// A stable per-entity speed variation, in halves of a world unit per
/// second: `(index % 7 - 3) * 4.5`.
pub open spec fn speed_offset_halves(entity_index: int) -> int {
    (entity_index % 7 - 3) * 9
}

/// The speed variation of an entity, in halves of a world unit per second.
pub fn randomish_speed_offset_halves(entity_index: u32) -> (offset: i32)
    ensures
        offset == speed_offset_halves(entity_index as int),
{
    let centered = (entity_index % 7) as i32 - 3;
    centered * 9
}

/// The variation repeats every 7 entities, stays within ±27 halves and is
/// centred: residues equally far from 3 get opposite offsets.
pub proof fn lemma_speed_offset_centered(i: int, k: int)
    requires
        i >= 0,
        0 <= k <= 3,
    ensures
        speed_offset_halves(i + 7) == speed_offset_halves(i),
        -27 <= speed_offset_halves(i) <= 27,
        speed_offset_halves(3 + k) == -speed_offset_halves(3 - k),
{
    vstd::arithmetic::div_mod::lemma_mod_bound(i, 7);
    vstd::arithmetic::div_mod::lemma_mod_add_multiples_vanish(i, 7);
}

} // verus!
