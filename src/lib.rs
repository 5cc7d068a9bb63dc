//! Foothold-based locomotion for a 2D side-scrolling platformer: one-way
//! terrain segments, the footholds a character rests on, and the
//! grounded / rising / falling motion state machine that drives it.
//!
//! Distances are integers in micro-pixels and times in microseconds, so that
//! every step of the motion model is exact.

pub mod animate;
pub mod background;
pub mod customfilter;
pub mod foothold;
pub mod mapinfo;
pub mod player;
pub mod registry;
pub mod state_machine;
pub mod utils;

pub use animate::AnimationIndices;
pub use background::{map_edge, tile_span, BackGround, BackGroundEdge, Tilemode};
pub use customfilter::CustomFilterTag;
pub use foothold::{
    FootHold, FootHoldType, Point, GROUP_1, GROUP_2, GROUP_3, GROUP_4, GROUP_5, GROUP_ALL,
};
pub use mapinfo::{Backs, Frames, Layers, MapInfo, Objs, Resource, Resource2, Tiles};
pub use player::{
    update_collision, update_direction, update_downjump, update_edge, update_fall, update_flip,
    update_foothold, update_ground, update_group, update_input, update_layer,
    update_player_animation, update_rise, CollisionGroups, Direction, DownJumpTimer, Horizontal,
    Motion, MotionConfig, MoveRequest, PhysicsReport, Player, PlayerInput, PlayerState,
    StateChangeEvent, TickOutcome, Translation,
};
pub use registry::{FootHoldRegistry, FootholdEntry};
pub use state_machine::{player_gravity_machine, player_state_machine};
pub use utils::composite_zindex;
