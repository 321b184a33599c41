//! The per-frame game snapshot, the input record and the audio command.
//! Quantities that the simulation measures continuously (distances, speeds,
//! timers, offsets) are held in thousandths of a unit.
use vstd::prelude::*;

verus! {

pub const SINGLE_PLAYER: i32 = 0;
pub const SPLIT_SCREEN: i32 = 1;
pub const CAREER: i32 = 2;
pub const REPLAY: i32 = 3;

pub const HIGHWAY: i32 = 0;
pub const CITY: i32 = 1;
pub const MOUNTAIN: i32 = 2;
pub const DESERT: i32 = 3;
pub const TUNNEL: i32 = 4;

pub const CLEAR: i32 = 0;
pub const RAIN: i32 = 1;
pub const FOG: i32 = 2;
pub const NIGHT: i32 = 3;

pub const CONE: i32 = 0;
pub const OIL: i32 = 1;
pub const BOOST: i32 = 2;
pub const STAR: i32 = 3;
pub const MAGNET: i32 = 4;
pub const CLOCK: i32 = 5;

pub const GLASS: i32 = 1;
pub const CONCRETE: i32 = 2;
pub const BRICK: i32 = 3;

pub const SOUND_ENGINE: i32 = 0;
pub const SOUND_BOOST: i32 = 1;
pub const SOUND_CRASH: i32 = 2;
pub const SOUND_POWERUP: i32 = 3;
pub const SOUND_MUSIC: i32 = 4;

/// An immutable snapshot of the game, produced once per simulation tick.
/// Entity arrays are index-aligned; only the first `count` entries of each class
/// are read, and never beyond the shortest array of that class.
#[derive(Debug)]
pub struct GameState {
    pub player_position: i32,
    pub player_speed: i64,
    pub player_distance: i64,
    pub player_health: i32,
    pub player_score: i32,
    pub player_car_type: i32,
    pub player2_active: bool,
    pub player2_position: i32,
    pub player2_speed: i64,
    pub player2_distance: i64,
    pub player2_health: i32,
    pub player2_score: i32,
    pub player2_car_type: i32,
    pub lap_time: i64,
    pub game_mode: i32,
    pub track_type: i32,
    pub level: i32,
    pub career_progress: i64,
    pub boost_active: bool,
    pub boost_remaining: i64,
    pub shield_active: bool,
    pub shield_remaining: i64,
    pub invincibility_active: bool,
    pub invincibility_remaining: i64,
    pub magnet_active: bool,
    pub magnet_remaining: i64,
    pub slowmo_active: bool,
    pub slowmo_remaining: i64,
    pub car_count: i32,
    pub ai_positions: Vec<i32>,
    pub ai_distances: Vec<i64>,
    pub ai_types: Vec<i32>,
    pub ai_is_boss: Vec<bool>,
    pub obstacle_count: i32,
    pub obstacle_positions: Vec<i32>,
    pub obstacle_distances: Vec<i64>,
    pub obstacle_types: Vec<i32>,
    pub building_count: i32,
    pub building_positions: Vec<i32>,
    pub building_distances: Vec<i64>,
    pub building_heights: Vec<i32>,
    pub building_types: Vec<i32>,
    pub weather: i32,
    pub curve_offset: i64,
    pub elevation: i64,
    pub tunnel_darkness: i64,
    pub combo: i32,
    pub replay_mode: bool,
    pub ghost_position: i32,
    pub ghost_distance: i64,
}

pub open spec fn bounded_count(count: i32, len: int) -> int {
    if count <= 0 {
        0
    } else if count as int <= len {
        count as int
    } else {
        len
    }
}

fn bounded_len(count: i32, len: usize) -> (r: usize)
    ensures
        r == bounded_count(count, len as int),
{
    if count <= 0 {
        0
    } else if count as usize <= len {
        count as usize
    } else {
        len
    }
}

fn min_usize(a: usize, b: usize) -> (r: usize)
    ensures
        r == if a <= b { a } else { b },
{
    if a <= b {
        a
    } else {
        b
    }
}

impl GameState {
    /// How many AI cars are drawn: the declared count, bounded by every AI array.
    pub open spec fn ai_count(&self) -> int {
        bounded_count(
            self.car_count,
            vstd::math::min(
                vstd::math::min(self.ai_positions@.len() as int, self.ai_distances@.len() as int),
                vstd::math::min(self.ai_types@.len() as int, self.ai_is_boss@.len() as int),
            ),
        )
    }

    /// How many obstacles are drawn: the declared count, bounded by every obstacle array.
    pub open spec fn obstacle_len(&self) -> int {
        bounded_count(
            self.obstacle_count,
            vstd::math::min(
                vstd::math::min(
                    self.obstacle_positions@.len() as int,
                    self.obstacle_distances@.len() as int,
                ),
                self.obstacle_types@.len() as int,
            ),
        )
    }

    /// How many buildings are drawn: the declared count, bounded by every building array.
    pub open spec fn building_len(&self) -> int {
        bounded_count(
            self.building_count,
            vstd::math::min(
                vstd::math::min(
                    self.building_positions@.len() as int,
                    self.building_distances@.len() as int,
                ),
                vstd::math::min(
                    self.building_heights@.len() as int,
                    self.building_types@.len() as int,
                ),
            ),
        )
    }

    pub fn ai_entities(&self) -> (r: usize)
        ensures
            r == self.ai_count(),
    {
        let a = min_usize(self.ai_positions.len(), self.ai_distances.len());
        let b = min_usize(self.ai_types.len(), self.ai_is_boss.len());
        bounded_len(self.car_count, min_usize(a, b))
    }

    pub fn obstacle_entities(&self) -> (r: usize)
        ensures
            r == self.obstacle_len(),
    {
        let a = min_usize(self.obstacle_positions.len(), self.obstacle_distances.len());
        bounded_len(self.obstacle_count, min_usize(a, self.obstacle_types.len()))
    }

    pub fn building_entities(&self) -> (r: usize)
        ensures
            r == self.building_len(),
    {
        let a = min_usize(self.building_positions.len(), self.building_distances.len());
        let b = min_usize(self.building_heights.len(), self.building_types.len());
        bounded_len(self.building_count, min_usize(a, b))
    }
}

/// Button state of both players and the system keys for one poll.
#[derive(Clone, Copy, Debug, PartialEq, Eq, Structural)]
pub struct InputState {
    pub p1_left: bool,
    pub p1_right: bool,
    pub p1_accel: bool,
    pub p1_brake: bool,
    pub p1_boost: bool,
    pub p2_left: bool,
    pub p2_right: bool,
    pub p2_accel: bool,
    pub p2_brake: bool,
    pub p2_boost: bool,
    pub quit: bool,
    pub pause: bool,
    pub menu: bool,
}

/// A sound request for the audio collaborator; `volume` is in thousandths.
#[derive(Clone, Copy, Debug, PartialEq, Eq, Structural)]
pub struct AudioCommand {
    pub play_sound: bool,
    pub sound_type: i32,
    pub volume: i64,
}

} // verus!
