use vstd::prelude::*;

use crate::foothold::{
    layer_group, FootHold, FootHoldType, GROUP_1, GROUP_2, GROUP_3, GROUP_4, GROUP_5, GROUP_ALL,
};
use crate::registry::{last_touched, touched_entry, FootHoldRegistry, FootholdEntry};
use crate::utils::{composite_zindex, zindex};

verus! {

/// Tuning of the motion model. Distances are in micro-pixels, times in
/// microseconds, speeds in micro-pixels per microsecond (pixels per second).
#[derive(Clone, Copy, Debug, PartialEq, Eq, Structural)]
pub struct MotionConfig {
    /// Horizontal speed while a direction is held.
    pub walk_speed: u32,
    /// What each microsecond of an airborne tick takes off the vertical displacement.
    pub gravity: u32,
    /// Downward push that keeps a character on flat ground and walls.
    pub ground_force: u32,
    /// Downward push that keeps a character on a slope.
    pub slope_force: u32,
    /// Upward displacement given by a jump.
    pub jump_impulse: u32,
    /// Upward displacement given by a drop-through, to clear the platform's lip.
    pub drop_impulse: u32,
    /// Largest downward displacement of one tick.
    pub max_fall_speed: u32,
    /// How long a drop-through passes through footholds.
    pub drop_duration: u32,
}

impl MotionConfig {
    /// The tuning the game is played with.
    pub fn standard() -> (r: MotionConfig)
        ensures
            r == (MotionConfig {
                walk_speed: 300,
                gravity: 20,
                ground_force: 1000,
                slope_force: 10_000_000,
                jump_impulse: 7_600_000,
                drop_impulse: 2_400_000,
                max_fall_speed: 8_000_000,
                drop_duration: 400_000,
            }),
    {
        MotionConfig {
            walk_speed: 300,
            gravity: 20,
            ground_force: 1000,
            slope_force: 10_000_000,
            jump_impulse: 7_600_000,
            drop_impulse: 2_400_000,
            max_fall_speed: 8_000_000,
            drop_duration: 400_000,
        }
    }
}

/// A displacement in micro-pixels, with `y` growing upwards.
#[derive(Clone, Copy, Debug, PartialEq, Eq, Structural)]
pub struct Translation {
    pub x: i128,
    pub y: i128,
}

/// The horizontal direction the player asks for.
#[derive(Clone, Copy, Debug, PartialEq, Eq, Structural)]
pub enum Horizontal {
    Neutral,
    Left,
    Right,
}

/// The input of one tick: the held direction, whether jump was pressed this
/// tick, and whether down is held.
#[derive(Clone, Copy, Debug, PartialEq, Eq, Structural)]
pub struct PlayerInput {
    pub horizontal: Horizontal,
    pub jump: bool,
    pub down: bool,
}

/// What the physics engine reports of the last move: whether the character
/// ended it on the ground, and the handles of the colliders it touched.
#[derive(Debug)]
pub struct PhysicsReport {
    pub grounded: bool,
    pub touched: Vec<u64>,
}

/// A collision filter: the groups a body belongs to and the groups it
/// collides with. Two bodies collide only when each one's memberships meet
/// the other's filter.
#[derive(Clone, Copy, Debug, PartialEq, Eq, Structural)]
pub struct CollisionGroups {
    pub memberships: u32,
    pub filter: u32,
}

/// The move handed to the physics engine for one tick.
#[derive(Clone, Copy, Debug, PartialEq, Eq, Structural)]
pub struct MoveRequest {
    pub translation: Translation,
    pub filter: CollisionGroups,
}

/// Notice that the animation clip changed, so that playback restarts at once.
#[derive(Clone, Copy, Debug, PartialEq, Eq, Structural)]
pub struct StateChangeEvent;

/// What one tick hands back: the move to make and, when the clip changed, a notice.
#[derive(Clone, Copy, Debug, PartialEq, Eq, Structural)]
pub struct TickOutcome {
    pub request: MoveRequest,
    pub state_change: Option<StateChangeEvent>,
}

/// The vertical motion state: exactly one holds at any time.
#[derive(Clone, Copy, Debug, PartialEq, Eq, Structural)]
pub enum Motion {
    Ground,
    Rise,
    Fall,
}

/// The way the character faces.
#[derive(Clone, Copy, Debug, PartialEq, Eq, Structural)]
pub enum Direction {
    Left,
    Right,
}

/// The animation clip being played.
#[derive(Clone, Copy, Debug, PartialEq, Eq, Structural)]
pub enum PlayerState {
    Standing,
    Walking,
    Jumping,
    Prone,
}

/// A one-shot timer for a drop-through, in microseconds.
#[derive(Clone, Copy, Debug, PartialEq, Eq, Structural)]
pub struct DownJumpTimer {
    pub elapsed: u32,
    pub duration: u32,
}

/// The player-controlled character.
#[derive(Clone, Copy, Debug, PartialEq, Eq, Structural)]
pub struct Player {
    /// The displacement requested for the current tick.
    pub translation: Translation,
    /// The layer of the foothold last stood on; -1 while falling.
    pub layer: i32,
    /// The orientation of the foothold last touched.
    pub foot_hold_type: FootHoldType,
    pub motion: Motion,
    pub direction: Direction,
    pub state: PlayerState,
    /// Present while a drop-through lasts.
    pub down_jump: Option<DownJumpTimer>,
    /// The collision filter of the current move.
    pub filter: CollisionGroups,
}

/// 2^32.
pub open spec fn b32() -> int {
    0x1_0000_0000
}

/// 2^64.
pub open spec fn b64() -> int {
    0x1_0000_0000_0000_0000
}

impl Player {
    /// The displacement stays within the range that the motion model can reach.
    pub open spec fn wf(&self) -> bool {
        &&& -b64() <= self.translation.x <= b64()
        &&& self.translation.y <= b32()
        &&& match self.motion {
            Motion::Ground => -b32() <= self.translation.y,
            Motion::Rise => -b64() <= self.translation.y,
            Motion::Fall => -2 * b64() <= self.translation.y,
        }
    }
}

/// The character as it is spawned: falling, so that its first ticks find the
/// ground, and playing the walk clip.
pub open spec fn spawned() -> Player {
    Player {
        translation: Translation { x: 0, y: 0 },
        layer: 0,
        foot_hold_type: FootHoldType::Unknow,
        motion: Motion::Fall,
        direction: Direction::Right,
        state: PlayerState::Walking,
        down_jump: None,
        filter: CollisionGroups { memberships: GROUP_1, filter: GROUP_ALL },
    }
}

/// The horizontal displacement of a tick with direction `h` held.
pub open spec fn walk_x(cfg: MotionConfig, h: Horizontal, dt: u32) -> int {
    match h {
        Horizontal::Neutral => 0,
        Horizontal::Left => -(cfg.walk_speed * dt),
        Horizontal::Right => cfg.walk_speed * dt,
    }
}

/// The downward speed gained over a tick.
pub open spec fn gravity_step(cfg: MotionConfig, dt: u32) -> int {
    cfg.gravity * dt
}

/// The downward push that keeps a grounded character on a foothold of `kind`.
pub open spec fn adhesion(cfg: MotionConfig, kind: FootHoldType) -> int {
    if kind == FootHoldType::Slope {
        cfg.slope_force as int
    } else {
        cfg.ground_force as int
    }
}

/// The filter of a drop-through: a membership no foothold collides with.
pub open spec fn drop_groups() -> CollisionGroups {
    CollisionGroups { memberships: GROUP_5, filter: GROUP_ALL }
}

/// The filter of a move by `t` on `layer`: collide from above when moving
/// down (or not at all vertically), from below when moving up, from the left
/// when moving right or not at all, from the right when moving left or not at
/// all; and only with footholds of the character's layer.
pub open spec fn groups_of(t: Translation, layer: i32) -> CollisionGroups {
    CollisionGroups {
        memberships: (if t.y <= 0 {
            GROUP_1
        } else {
            GROUP_2
        }) | (if t.x >= 0 {
            GROUP_3
        } else {
            0
        }) | (if t.x <= 0 {
            GROUP_4
        } else {
            0
        }),
        filter: layer_group(layer as int),
    }
}

/// The clip for a character that is (or is not) on the ground, moving
/// sideways, and holding down.
pub open spec fn clip_of(grounded: bool, moving: bool, down: bool) -> PlayerState {
    if grounded && moving {
        PlayerState::Walking
    } else if grounded && down {
        PlayerState::Prone
    } else if grounded {
        PlayerState::Standing
    } else {
        PlayerState::Jumping
    }
}

/// Takes layer and orientation from the foothold just touched, if any.
pub open spec fn foothold_step(p: Player, found: Option<FootholdEntry>) -> Player {
    match found {
        Some(e) => Player { layer: e.foothold.layer, foot_hold_type: e.kind, ..p },
        None => p,
    }
}

/// Advances a running drop-through timer, removing it once it has run out.
pub open spec fn downjump_step(p: Player, dt: u32) -> Player {
    match p.down_jump {
        Some(t) => if t.elapsed + dt >= t.duration {
            Player { down_jump: None, ..p }
        } else {
            Player { down_jump: Some(DownJumpTimer { elapsed: (t.elapsed + dt) as u32, ..t }), ..p }
        },
        None => p,
    }
}

/// A falling character that the physics engine reports on the ground lands.
pub open spec fn ground_step(p: Player, grounded: bool) -> Player {
    if p.motion == Motion::Fall && grounded {
        Player { motion: Motion::Ground, ..p }
    } else {
        p
    }
}

/// A grounded character that the physics engine reports off the ground has
/// walked off a ledge: it starts a rise with no vertical speed.
pub open spec fn edge_step(p: Player, grounded: bool) -> Player {
    if p.motion == Motion::Ground && !grounded {
        Player { translation: Translation { y: 0, ..p.translation }, motion: Motion::Rise, ..p }
    } else {
        p
    }
}

/// The move of a grounded character: a drop-through on jump with down held,
/// a jump on jump alone, else a walk pressed onto the ground.
pub open spec fn input_step(p: Player, cfg: MotionConfig, input: PlayerInput, dt: u32) -> Player {
    if p.motion != Motion::Ground {
        p
    } else if input.jump && input.down {
        Player {
            translation: Translation { x: 0, y: (cfg.drop_impulse - gravity_step(cfg, dt)) as i128 },
            motion: Motion::Rise,
            down_jump: Some(DownJumpTimer { elapsed: 0, duration: cfg.drop_duration }),
            ..p
        }
    } else if input.jump {
        Player {
            translation: Translation {
                x: walk_x(cfg, input.horizontal, dt) as i128,
                y: (cfg.jump_impulse - gravity_step(cfg, dt)) as i128,
            },
            motion: Motion::Rise,
            ..p
        }
    } else {
        Player {
            translation: Translation {
                x: walk_x(cfg, input.horizontal, dt) as i128,
                y: (-adhesion(cfg, p.foot_hold_type)) as i128,
            },
            ..p
        }
    }
}

/// The sideways move of an airborne character: none against a wall.
pub open spec fn air_x(p: Player, cfg: MotionConfig, input: PlayerInput, dt: u32) -> int {
    if p.foot_hold_type == FootHoldType::Vertical {
        0
    } else {
        walk_x(cfg, input.horizontal, dt)
    }
}

/// The move of a rising character: gravity eats into the rise, which turns
/// into a fall once nothing of it is left.
pub open spec fn rise_step(p: Player, cfg: MotionConfig, input: PlayerInput, dt: u32) -> Player {
    if p.motion != Motion::Rise {
        p
    } else {
        let y = p.translation.y - gravity_step(cfg, dt);
        Player {
            translation: Translation { x: air_x(p, cfg, input, dt) as i128, y: y as i128 },
            motion: if y <= 0 {
                Motion::Fall
            } else {
                Motion::Rise
            },
            ..p
        }
    }
}

/// The move of a falling character: gravity adds to the fall, up to the
/// largest fall speed; the layer is unknown until it lands.
pub open spec fn fall_step(p: Player, cfg: MotionConfig, input: PlayerInput, dt: u32) -> Player {
    if p.motion != Motion::Fall {
        p
    } else {
        let y = p.translation.y - gravity_step(cfg, dt);
        Player {
            translation: Translation {
                x: air_x(p, cfg, input, dt) as i128,
                y: (if y < -(cfg.max_fall_speed as int) {
                    -(cfg.max_fall_speed as int)
                } else {
                    y
                }) as i128,
            },
            layer: -1i32,
            ..p
        }
    }
}

/// The move of the tick for the character's motion state.
pub open spec fn motion_step(p: Player, cfg: MotionConfig, input: PlayerInput, dt: u32) -> Player {
    match p.motion {
        Motion::Ground => input_step(p, cfg, input, dt),
        Motion::Rise => rise_step(p, cfg, input, dt),
        Motion::Fall => fall_step(p, cfg, input, dt),
    }
}

/// The way the character faces after `h` is held.
pub open spec fn direction_of(d: Direction, h: Horizontal) -> Direction {
    match h {
        Horizontal::Right => Direction::Right,
        Horizontal::Left => Direction::Left,
        Horizontal::Neutral => d,
    }
}

/// Sets the filter of the move: the drop-through filter while one lasts,
/// else the filter of the move's direction on the character's layer.
pub open spec fn group_step(p: Player) -> Player {
    Player {
        filter: if p.down_jump is Some {
            drop_groups()
        } else {
            groups_of(p.translation, p.layer)
        },
        ..p
    }
}

/// One tick of the character: the touched foothold is taken over, a running
/// drop-through advances, the physics engine's ground report moves between
/// motion states, the move of the tick is computed with its filter, and the
/// clip is chosen from the ground report and the previous move.
pub open spec fn tick_spec(
    p: Player,
    cfg: MotionConfig,
    entries: Seq<FootholdEntry>,
    input: PlayerInput,
    grounded: bool,
    touched: Seq<u64>,
    dt: u32,
) -> Player {
    let moving = p.translation.x != 0;
    let p1 = downjump_step(foothold_step(p, touched_entry(entries, touched)), dt);
    let p2 = edge_step(ground_step(p1, grounded), grounded);
    let p3 = motion_step(p2, cfg, input, dt);
    let p4 = group_step(Player { direction: direction_of(p3.direction, input.horizontal), ..p3 });
    Player { state: clip_of(grounded, moving, input.down), ..p4 }
}

fn walk_displacement(cfg: &MotionConfig, h: Horizontal, dt: u32) -> (r: i128)
    ensures
        r == walk_x(*cfg, h, dt),
        -b64() < r < b64(),
{
    let w = cfg.walk_speed;
    assert(0 <= (w as int) * (dt as int) < b64()) by (nonlinear_arith)
        requires
            w < b32(),
            dt < b32(),
            b64() == b32() * b32(),
    ;
    let d = w as i128 * dt as i128;
    match h {
        Horizontal::Neutral => 0,
        Horizontal::Left => -d,
        Horizontal::Right => d,
    }
}

fn gravity_displacement(cfg: &MotionConfig, dt: u32) -> (r: i128)
    ensures
        r == gravity_step(*cfg, dt),
        0 <= r < b64(),
{
    let g = cfg.gravity;
    assert(0 <= (g as int) * (dt as int) < b64()) by (nonlinear_arith)
        requires
            g < b32(),
            dt < b32(),
            b64() == b32() * b32(),
    ;
    g as i128 * dt as i128
}

impl Player {
    /// The character as it is spawned.
    pub fn new() -> (r: Player)
        ensures
            r == spawned(),
            r.wf(),
    {
        Player {
            translation: Translation { x: 0, y: 0 },
            layer: 0,
            foot_hold_type: FootHoldType::Unknow,
            motion: Motion::Fall,
            direction: Direction::Right,
            state: PlayerState::Walking,
            down_jump: None,
            filter: CollisionGroups { memberships: GROUP_1, filter: GROUP_ALL },
        }
    }
}

/// Takes layer and orientation from the foothold just touched, if any.
pub fn update_foothold(player: &mut Player, found: Option<FootholdEntry>)
    ensures
        *final(player) == foothold_step(*old(player), found),
{
    match found {
        Some(e) => {
            player.layer = e.foothold.layer;
            player.foot_hold_type = e.kind;
        },
        None => {},
    }
}

/// The foothold that the colliders touched by the last move resolve to.
pub fn update_collision(registry: &FootHoldRegistry, report: &PhysicsReport) -> (r: Option<
    FootholdEntry,
>)
    requires
        registry.wf(),
    ensures
        r == touched_entry(registry@, report.touched@),
{
    registry.query_containing(&report.touched)
}

/// Advances a running drop-through timer by `dt`, removing it once it has run out.
pub fn update_downjump(player: &mut Player, dt: u32)
    ensures
        *final(player) == downjump_step(*old(player), dt),
{
    match player.down_jump {
        Some(t) => {
            let total: u64 = t.elapsed as u64 + dt as u64;
            if total >= t.duration as u64 {
                player.down_jump = None;
            } else {
                player.down_jump = Some(DownJumpTimer { elapsed: total as u32, duration: t.duration });
            }
        },
        None => {},
    }
}

/// Lands a falling character that the physics engine reports on the ground.
pub fn update_ground(player: &mut Player, grounded: bool)
    ensures
        *final(player) == ground_step(*old(player), grounded),
{
    if player.motion == Motion::Fall && grounded {
        player.motion = Motion::Ground;
    }
}

/// Starts a zero-speed rise for a grounded character that has left the ground.
pub fn update_edge(player: &mut Player, grounded: bool)
    ensures
        *final(player) == edge_step(*old(player), grounded),
{
    if player.motion == Motion::Ground && !grounded {
        player.translation.y = 0;
        player.motion = Motion::Rise;
    }
}

/// The move of a grounded character for this tick's input.
pub fn update_input(player: &mut Player, cfg: &MotionConfig, input: PlayerInput, dt: u32)
    ensures
        *final(player) == input_step(*old(player), *cfg, input, dt),
        old(player).motion == Motion::Ground ==> final(player).wf(),
{
    if player.motion != Motion::Ground {
        return ;
    }
    let g = gravity_displacement(cfg, dt);
    if input.jump && input.down {
        player.translation = Translation { x: 0, y: cfg.drop_impulse as i128 - g };
        player.motion = Motion::Rise;
        player.down_jump = Some(DownJumpTimer { elapsed: 0, duration: cfg.drop_duration });
    } else if input.jump {
        let x = walk_displacement(cfg, input.horizontal, dt);
        player.translation = Translation { x, y: cfg.jump_impulse as i128 - g };
        player.motion = Motion::Rise;
    } else {
        let x = walk_displacement(cfg, input.horizontal, dt);
        let force: i128 = if player.foot_hold_type == FootHoldType::Slope {
            cfg.slope_force as i128
        } else {
            cfg.ground_force as i128
        };
        player.translation = Translation { x, y: -force };
    }
}

fn air_displacement(player: &Player, cfg: &MotionConfig, input: PlayerInput, dt: u32) -> (r: i128)
    ensures
        r == air_x(*player, *cfg, input, dt),
        -b64() < r < b64(),
{
    if player.foot_hold_type == FootHoldType::Vertical {
        0
    } else {
        walk_displacement(cfg, input.horizontal, dt)
    }
}

/// The move of a rising character for this tick.
pub fn update_rise(player: &mut Player, cfg: &MotionConfig, input: PlayerInput, dt: u32)
    requires
        old(player).wf(),
    ensures
        *final(player) == rise_step(*old(player), *cfg, input, dt),
        final(player).wf(),
{
    if player.motion != Motion::Rise {
        return ;
    }
    let x = air_displacement(player, cfg, input, dt);
    let y = player.translation.y - gravity_displacement(cfg, dt);
    player.translation = Translation { x, y };
    if y <= 0 {
        player.motion = Motion::Fall;
    }
}

/// The move of a falling character for this tick.
pub fn update_fall(player: &mut Player, cfg: &MotionConfig, input: PlayerInput, dt: u32)
    requires
        old(player).wf(),
    ensures
        *final(player) == fall_step(*old(player), *cfg, input, dt),
        final(player).wf(),
{
    if player.motion != Motion::Fall {
        return ;
    }
    let x = air_displacement(player, cfg, input, dt);
    let mut y = player.translation.y - gravity_displacement(cfg, dt);
    if y < -(cfg.max_fall_speed as i128) {
        y = -(cfg.max_fall_speed as i128);
    }
    player.translation = Translation { x, y };
    player.layer = -1;
}

/// The way the character faces after `horizontal` is held.
pub fn update_direction(direction: Direction, horizontal: Horizontal) -> (r: Direction)
    ensures
        r == direction_of(direction, horizontal),
{
    match horizontal {
        Horizontal::Right => Direction::Right,
        Horizontal::Left => Direction::Left,
        Horizontal::Neutral => direction,
    }
}

/// Whether the sprite, drawn facing left, is mirrored: it is when facing right.
pub fn update_flip(direction: Direction) -> (r: bool)
    ensures
        r == (direction == Direction::Right),
{
    match direction {
        Direction::Right => true,
        Direction::Left => false,
    }
}

/// The filter of a move by `t` on `layer`.
fn normal_groups(t: Translation, layer: i32) -> (r: CollisionGroups)
    ensures
        r == groups_of(t, layer),
{
    let vertical = if t.y <= 0 {
        GROUP_1
    } else {
        GROUP_2
    };
    let rightward = if t.x >= 0 {
        GROUP_3
    } else {
        0
    };
    let leftward = if t.x <= 0 {
        GROUP_4
    } else {
        0
    };
    CollisionGroups {
        memberships: vertical | rightward | leftward,
        filter: FootHold::get_foothold_layer(layer),
    }
}

/// Sets the filter of this tick's move.
pub fn update_group(player: &mut Player)
    ensures
        *final(player) == group_step(*old(player)),
        old(player).down_jump is Some && old(player).filter == drop_groups() ==> *final(player)
            == *old(player),
{
    match player.down_jump {
        Some(_) => {
            player.filter = CollisionGroups { memberships: GROUP_5, filter: GROUP_ALL };
        },
        None => {
            player.filter = normal_groups(player.translation, player.layer);
        },
    }
}

/// Chooses the clip; returns whether it differs from the one playing.
pub fn update_player_animation(player: &mut Player, grounded: bool, moving: bool, down: bool) -> (r:
    bool)
    ensures
        *final(player) == (Player { state: clip_of(grounded, moving, down), ..*old(player) }),
        r == (clip_of(grounded, moving, down) != old(player).state),
{
    let clip = if grounded && moving {
        PlayerState::Walking
    } else if grounded && down {
        PlayerState::Prone
    } else if grounded {
        PlayerState::Standing
    } else {
        PlayerState::Jumping
    };
    let changed = clip != player.state;
    player.state = clip;
    changed
}

/// The depth at which to draw the character: that of its layer, or none
/// while the layer is unknown.
pub fn update_layer(player: &Player) -> (r: Option<i128>)
    ensures
        player.layer == -1 ==> r is None,
        player.layer != -1 ==> r == Some(zindex(player.layer as int, 1, 1, 1) as i128),
{
    if player.layer != -1 {
        Some(composite_zindex(player.layer as i128, 1, 1, 1))
    } else {
        None
    }
}

impl Player {
    /// Runs one tick of `dt` microseconds with `input`, given what the
    /// physics engine said about the previous move. Returns the move to make
    /// now, and a notice when the clip changed.
    pub fn tick(
        &mut self,
        cfg: &MotionConfig,
        registry: &FootHoldRegistry,
        input: PlayerInput,
        report: &PhysicsReport,
        dt: u32,
    ) -> (r: TickOutcome)
        requires
            old(self).wf(),
            registry.wf(),
        ensures
            *final(self) == tick_spec(
                *old(self),
                *cfg,
                registry@,
                input,
                report.grounded,
                report.touched@,
                dt,
            ),
            final(self).wf(),
            r.request == (MoveRequest {
                translation: final(self).translation,
                filter: final(self).filter,
            }),
            r.state_change is Some <==> final(self).state != old(self).state,
    {
        let moving = self.translation.x != 0;
        let found = update_collision(registry, report);
        update_foothold(self, found);
        update_downjump(self, dt);
        update_ground(self, report.grounded);
        update_edge(self, report.grounded);
        match self.motion {
            Motion::Ground => update_input(self, cfg, input, dt),
            Motion::Rise => update_rise(self, cfg, input, dt),
            Motion::Fall => update_fall(self, cfg, input, dt),
        }
        self.direction = update_direction(self.direction, input.horizontal);
        update_group(self);
        let changed = update_player_animation(self, report.grounded, moving, input.down);
        TickOutcome {
            request: MoveRequest { translation: self.translation, filter: self.filter },
            state_change: if changed {
                Some(StateChangeEvent)
            } else {
                None
            },
        }
    }
}

/// The input of a tick in which nothing is pressed.
pub open spec fn idle_input() -> PlayerInput {
    PlayerInput { horizontal: Horizontal::Neutral, jump: false, down: false }
}

/// `n` ticks in the air with nothing pressed: the physics engine reports no
/// ground and no touched collider.
pub open spec fn airborne_run(
    p: Player,
    cfg: MotionConfig,
    entries: Seq<FootholdEntry>,
    dt: u32,
    n: nat,
) -> Player
    decreases n,
{
    if n == 0 {
        p
    } else {
        tick_spec(
            airborne_run(p, cfg, entries, dt, (n - 1) as nat),
            cfg,
            entries,
            idle_input(),
            false,
            Seq::empty(),
            dt,
        )
    }
}

/// A falling character that the physics engine reports on the ground, with
/// no jump pressed, ends the tick grounded, pressed onto the ground by the
/// adhesion force of its foothold rather than by what is left of its fall.
pub proof fn lemma_landing(
    p: Player,
    cfg: MotionConfig,
    entries: Seq<FootholdEntry>,
    input: PlayerInput,
    touched: Seq<u64>,
    dt: u32,
)
    requires
        p.wf(),
        p.motion == Motion::Fall,
        !input.jump,
    ensures
        tick_spec(p, cfg, entries, input, true, touched, dt).motion == Motion::Ground,
        tick_spec(p, cfg, entries, input, true, touched, dt).translation.y == -adhesion(
            cfg,
            tick_spec(p, cfg, entries, input, true, touched, dt).foot_hold_type,
        ),
{
}

proof fn lemma_step_bounds(cfg: MotionConfig, h: Horizontal, dt: u32)
    ensures
        0 <= gravity_step(cfg, dt) < b64(),
        -b64() < walk_x(cfg, h, dt) < b64(),
{
    assert(0 <= cfg.gravity * dt < b64()) by (nonlinear_arith)
        requires
            cfg.gravity < b32(),
            dt < b32(),
            b64() == b32() * b32(),
    ;
    assert(0 <= cfg.walk_speed * dt < b64()) by (nonlinear_arith)
        requires
            cfg.walk_speed < b32(),
            dt < b32(),
            b64() == b32() * b32(),
    ;
}

proof fn lemma_tick_wf(
    p: Player,
    cfg: MotionConfig,
    entries: Seq<FootholdEntry>,
    input: PlayerInput,
    grounded: bool,
    touched: Seq<u64>,
    dt: u32,
)
    requires
        p.wf(),
    ensures
        tick_spec(p, cfg, entries, input, grounded, touched, dt).wf(),
{
    lemma_step_bounds(cfg, input.horizontal, dt);
}

/// While a character rises through ticks in the air, each tick takes the same
/// gravity step off its vertical displacement: after `k` ticks it is the
/// starting displacement less `k` steps, and the rise has turned into a fall
/// exactly when that is no longer positive.
pub proof fn lemma_rise_run(r: Player, cfg: MotionConfig, entries: Seq<FootholdEntry>, dt: u32, k: nat)
    requires
        r.wf(),
        r.motion == Motion::Rise,
        k == 0 || r.translation.y - (k - 1) * gravity_step(cfg, dt) > 0,
    ensures
        airborne_run(r, cfg, entries, dt, k).wf(),
        airborne_run(r, cfg, entries, dt, k).translation.y == r.translation.y - k * gravity_step(
            cfg,
            dt,
        ),
        airborne_run(r, cfg, entries, dt, k).motion == if k == 0 || r.translation.y - k
            * gravity_step(cfg, dt) > 0 {
            Motion::Rise
        } else {
            Motion::Fall
        },
    decreases k,
{
    let s = gravity_step(cfg, dt);
    lemma_step_bounds(cfg, Horizontal::Neutral, dt);
    if k > 0 {
        let j = (k - 1) as nat;
        assert(j * s + s == k * s) by (nonlinear_arith)
            requires
                k == j + 1,
        ;
        if j > 0 {
            assert((j - 1) * s <= j * s) by (nonlinear_arith)
                requires
                    j > 0,
                    s >= 0,
            ;
        }
        lemma_rise_run(r, cfg, entries, dt, j);
        let q = airborne_run(r, cfg, entries, dt, j);
        assert(q.motion == Motion::Rise);
        assert(last_touched(entries, Seq::<u64>::empty()) is None);
        lemma_tick_wf(q, cfg, entries, idle_input(), false, Seq::empty(), dt);
    }
}

/// A jump from the ground always traces the same arc: the jump tick leaves
/// the impulse less one gravity step, and each later tick in the air, while
/// the rise lasts, takes one more step off.
pub proof fn lemma_jump_arc(
    p: Player,
    cfg: MotionConfig,
    entries: Seq<FootholdEntry>,
    input: PlayerInput,
    touched: Seq<u64>,
    dt: u32,
    k: nat,
)
    requires
        p.wf(),
        p.motion == Motion::Ground,
        input.jump,
        !input.down,
        k == 0 || cfg.jump_impulse - k * gravity_step(cfg, dt) > 0,
    ensures
        tick_spec(p, cfg, entries, input, true, touched, dt).motion == Motion::Rise,
        airborne_run(tick_spec(p, cfg, entries, input, true, touched, dt), cfg, entries, dt, k).translation.y
            == cfg.jump_impulse - (k + 1) * gravity_step(cfg, dt),
{
    let s = gravity_step(cfg, dt);
    let q = tick_spec(p, cfg, entries, input, true, touched, dt);
    assert(0 <= s < b64()) by (nonlinear_arith)
        requires
            s == cfg.gravity * dt,
            cfg.gravity < b32(),
            dt < b32(),
            b64() == b32() * b32(),
    ;
    lemma_tick_wf(p, cfg, entries, input, true, touched, dt);
    assert(q.translation.y == cfg.jump_impulse - s);
    if k > 0 {
        assert((k - 1) * s + s == k * s) by (nonlinear_arith);
    }
    assert((k + 1) * s == k * s + s) by (nonlinear_arith);
    lemma_rise_run(q, cfg, entries, dt, k);
}

/// Down and jump pressed together on the ground start a drop-through: the
/// character rises by the drop impulse less one gravity step, a fresh timer
/// runs, and the move passes through footholds.
pub proof fn lemma_drop_through_starts(
    p: Player,
    cfg: MotionConfig,
    entries: Seq<FootholdEntry>,
    input: PlayerInput,
    touched: Seq<u64>,
    dt: u32,
)
    requires
        p.wf(),
        p.motion == Motion::Ground,
        input.jump,
        input.down,
    ensures
        tick_spec(p, cfg, entries, input, true, touched, dt).motion == Motion::Rise,
        tick_spec(p, cfg, entries, input, true, touched, dt).down_jump == Some(
            DownJumpTimer { elapsed: 0, duration: cfg.drop_duration },
        ),
        tick_spec(p, cfg, entries, input, true, touched, dt).filter == drop_groups(),
        tick_spec(p, cfg, entries, input, true, touched, dt).translation.y == cfg.drop_impulse
            - gravity_step(cfg, dt),
{
    let s = gravity_step(cfg, dt);
    assert(0 <= s < b64()) by (nonlinear_arith)
        requires
            s == cfg.gravity * dt,
            cfg.gravity < b32(),
            dt < b32(),
            b64() == b32() * b32(),
    ;
}

/// While a drop-through's time is not up, its timer advances by the tick and
/// the move keeps passing through footholds.
pub proof fn lemma_drop_through_lasts(
    p: Player,
    cfg: MotionConfig,
    entries: Seq<FootholdEntry>,
    input: PlayerInput,
    grounded: bool,
    touched: Seq<u64>,
    dt: u32,
)
    requires
        p.wf(),
        p.down_jump matches Some(t) && t.elapsed + dt < t.duration,
        !input.jump,
    ensures
        tick_spec(p, cfg, entries, input, grounded, touched, dt).down_jump == Some(
            DownJumpTimer {
                elapsed: (p.down_jump->0.elapsed + dt) as u32,
                duration: p.down_jump->0.duration,
            },
        ),
        tick_spec(p, cfg, entries, input, grounded, touched, dt).filter == drop_groups(),
{
}

/// Once a drop-through's time is up, its timer is gone and the move's filter
/// is again the one of its direction on the character's layer.
pub proof fn lemma_drop_through_ends(
    p: Player,
    cfg: MotionConfig,
    entries: Seq<FootholdEntry>,
    input: PlayerInput,
    grounded: bool,
    touched: Seq<u64>,
    dt: u32,
)
    requires
        p.wf(),
        p.down_jump matches Some(t) && t.elapsed + dt >= t.duration,
        !input.jump,
    ensures
        tick_spec(p, cfg, entries, input, grounded, touched, dt).down_jump is None,
        tick_spec(p, cfg, entries, input, grounded, touched, dt).filter == groups_of(
            tick_spec(p, cfg, entries, input, grounded, touched, dt).translation,
            tick_spec(p, cfg, entries, input, grounded, touched, dt).layer,
        ),
{
}

/// Over ticks in the air with nothing pressed, a drop-through's timer counts
/// up by each tick and the move passes through footholds; from the first tick
/// at which its duration has elapsed on, the timer is gone and the filter is
/// again the one of the move's direction on the character's layer.
pub proof fn lemma_drop_through_run(
    p: Player,
    cfg: MotionConfig,
    entries: Seq<FootholdEntry>,
    dt: u32,
    m: nat,
)
    requires
        p.wf(),
        p.down_jump is Some,
    ensures
        airborne_run(p, cfg, entries, dt, m).wf(),
        m > 0 ==> airborne_run(p, cfg, entries, dt, m).down_jump == if p.down_jump->0.elapsed
            + m * dt < p.down_jump->0.duration {
            Some(
                DownJumpTimer {
                    elapsed: (p.down_jump->0.elapsed + m * dt) as u32,
                    duration: p.down_jump->0.duration,
                },
            )
        } else {
            None
        },
        m > 0 ==> airborne_run(p, cfg, entries, dt, m).filter == if airborne_run(
            p,
            cfg,
            entries,
            dt,
            m,
        ).down_jump is Some {
            drop_groups()
        } else {
            groups_of(
                airborne_run(p, cfg, entries, dt, m).translation,
                airborne_run(p, cfg, entries, dt, m).layer,
            )
        },
    decreases m,
{
    if m > 0 {
        let j = (m - 1) as nat;
        lemma_drop_through_run(p, cfg, entries, dt, j);
        let q = airborne_run(p, cfg, entries, dt, j);
        lemma_tick_wf(q, cfg, entries, idle_input(), false, Seq::empty(), dt);
        assert(last_touched(entries, Seq::<u64>::empty()) is None);
        assert(j * dt + dt == m * dt) by (nonlinear_arith)
            requires
                m == j + 1,
        ;
        assert(j * dt <= m * dt) by (nonlinear_arith)
            requires
                m == j + 1,
        ;
    }
}

/// Ticks in the air with nothing pressed, the `i`-th lasting `dts[i]`
/// microseconds: the physics engine reports no ground and no touched collider.
pub open spec fn airborne_run_timed(
    p: Player,
    cfg: MotionConfig,
    entries: Seq<FootholdEntry>,
    dts: Seq<u32>,
) -> Player
    decreases dts.len(),
{
    if dts.len() == 0 {
        p
    } else {
        tick_spec(
            airborne_run_timed(p, cfg, entries, dts.drop_last()),
            cfg,
            entries,
            idle_input(),
            false,
            Seq::empty(),
            dts.last(),
        )
    }
}

/// The gravity steps of ticks lasting `dts`, added up.
pub open spec fn gravity_total(cfg: MotionConfig, dts: Seq<u32>) -> int
    decreases dts.len(),
{
    if dts.len() == 0 {
        0
    } else {
        gravity_total(cfg, dts.drop_last()) + gravity_step(cfg, dts.last())
    }
}

/// While a character rises through ticks in the air of any lengths, each tick
/// takes its own gravity step off the vertical displacement: after the ticks
/// it is the starting displacement less their steps added up, and the rise
/// has turned into a fall exactly when that is no longer positive.
pub proof fn lemma_rise_run_timed(
    r: Player,
    cfg: MotionConfig,
    entries: Seq<FootholdEntry>,
    dts: Seq<u32>,
)
    requires
        r.wf(),
        r.motion == Motion::Rise,
        dts.len() == 0 || r.translation.y - gravity_total(cfg, dts.drop_last()) > 0,
    ensures
        airborne_run_timed(r, cfg, entries, dts).wf(),
        airborne_run_timed(r, cfg, entries, dts).translation.y == r.translation.y - gravity_total(
            cfg,
            dts,
        ),
        airborne_run_timed(r, cfg, entries, dts).motion == if dts.len() == 0 || r.translation.y
            - gravity_total(cfg, dts) > 0 {
            Motion::Rise
        } else {
            Motion::Fall
        },
    decreases dts.len(),
{
    if dts.len() > 0 {
        let prefix = dts.drop_last();
        if prefix.len() > 0 {
            lemma_step_bounds(cfg, Horizontal::Neutral, prefix.last());
            assert(gravity_total(cfg, prefix.drop_last()) <= gravity_total(cfg, prefix));
        }
        lemma_rise_run_timed(r, cfg, entries, prefix);
        let q = airborne_run_timed(r, cfg, entries, prefix);
        assert(q.motion == Motion::Rise);
        assert(last_touched(entries, Seq::<u64>::empty()) is None);
        lemma_step_bounds(cfg, Horizontal::Neutral, dts.last());
        lemma_tick_wf(q, cfg, entries, idle_input(), false, Seq::empty(), dts.last());
    }
}

/// A jump from the ground traces the same arc for the same tick lengths: the
/// jump tick leaves the impulse less its gravity step, and each later tick in
/// the air, while the rise lasts, takes its own gravity step off.
pub proof fn lemma_jump_arc_timed(
    p: Player,
    cfg: MotionConfig,
    entries: Seq<FootholdEntry>,
    input: PlayerInput,
    touched: Seq<u64>,
    dt: u32,
    dts: Seq<u32>,
)
    requires
        p.wf(),
        p.motion == Motion::Ground,
        input.jump,
        !input.down,
        dts.len() == 0 || cfg.jump_impulse - gravity_step(cfg, dt) - gravity_total(
            cfg,
            dts.drop_last(),
        ) > 0,
    ensures
        tick_spec(p, cfg, entries, input, true, touched, dt).motion == Motion::Rise,
        airborne_run_timed(
            tick_spec(p, cfg, entries, input, true, touched, dt),
            cfg,
            entries,
            dts,
        ).translation.y == cfg.jump_impulse - gravity_step(cfg, dt) - gravity_total(cfg, dts),
{
    lemma_step_bounds(cfg, input.horizontal, dt);
    lemma_tick_wf(p, cfg, entries, input, true, touched, dt);
    lemma_rise_run_timed(tick_spec(p, cfg, entries, input, true, touched, dt), cfg, entries, dts);
}

} // verus!
