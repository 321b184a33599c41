//! Detailed visual assets: car badges, powerup cards, scenery, road markings,
//! HUD frames, lane layouts, particles, palettes and animation frames. Each
//! lookup is total: codes outside the enumeration give the default entry.
use crate::style::Color;
use vstd::prelude::*;

verus! {

/// A three-row car badge with its color and label.
#[derive(Clone, Copy, Debug)]
pub struct DetailedCarDesign {
    pub top: &'static str,
    pub middle: &'static str,
    pub bottom: &'static str,
    pub color: Color,
    pub label: &'static str,
}

/// The car badge table.
pub open spec fn detailed_car_of(car_type: i32, is_boss: bool) -> DetailedCarDesign {
    if is_boss {
        DetailedCarDesign { top: "╔═══╗", middle: "║ B ║", bottom: "╚═══╝", color: Color::Red, label: "BOSS" }
    } else if car_type == 0 {
        DetailedCarDesign { top: "┌─┐", middle: "│●│", bottom: "└─┘", color: Color::Blue, label: "P1" }
    } else if car_type == 1 {
        DetailedCarDesign { top: "┌─┐", middle: "│🚨│", bottom: "└─┘", color: Color::Red, label: "POL" }
    } else if car_type == 2 {
        DetailedCarDesign { top: "┌─┐", middle: "│⚡│", bottom: "└─┘", color: Color::Yellow, label: "RCR" }
    } else if car_type == 3 {
        DetailedCarDesign { top: "┌───┐", middle: "│ G │", bottom: "└───┘", color: Color::Green, label: "TRK" }
    } else if car_type == 4 {
        DetailedCarDesign { top: "┌─┐", middle: "│T│", bottom: "└─┘", color: Color::Rgb(255, 165, 0), label: "TXI" }
    } else if car_type == 5 {
        DetailedCarDesign { top: "┌───┐", middle: "│ V │", bottom: "└───┘", color: Color::Gray, label: "VAN" }
    } else if car_type == 6 {
        DetailedCarDesign { top: "┌─┐", middle: "│M│", bottom: "└─┘", color: Color::Magenta, label: "MSC" }
    } else if car_type == 7 {
        DetailedCarDesign { top: "┌─┐", middle: "│C│", bottom: "└─┘", color: Color::Cyan, label: "CNV" }
    } else if car_type == 8 {
        DetailedCarDesign { top: "┌─────┐", middle: "│ LIM │", bottom: "└─────┘", color: Color::White, label: "LMO" }
    } else {
        DetailedCarDesign { top: "┌─┐", middle: "│?│", bottom: "└─┘", color: Color::Gray, label: "CAR" }
    }
}

/// Badge of a car type; a boss has its own badge whatever its type.
pub fn get_detailed_car(car_type: i32, is_boss: bool) -> (r: DetailedCarDesign)
    ensures
        r == detailed_car_of(car_type, is_boss),
{
    if is_boss {
        DetailedCarDesign { top: "╔═══╗", middle: "║ B ║", bottom: "╚═══╝", color: Color::Red, label: "BOSS" }
    } else if car_type == 0 {
        DetailedCarDesign { top: "┌─┐", middle: "│●│", bottom: "└─┘", color: Color::Blue, label: "P1" }
    } else if car_type == 1 {
        DetailedCarDesign { top: "┌─┐", middle: "│🚨│", bottom: "└─┘", color: Color::Red, label: "POL" }
    } else if car_type == 2 {
        DetailedCarDesign { top: "┌─┐", middle: "│⚡│", bottom: "└─┘", color: Color::Yellow, label: "RCR" }
    } else if car_type == 3 {
        DetailedCarDesign { top: "┌───┐", middle: "│ G │", bottom: "└───┘", color: Color::Green, label: "TRK" }
    } else if car_type == 4 {
        DetailedCarDesign { top: "┌─┐", middle: "│T│", bottom: "└─┘", color: Color::Rgb(255, 165, 0), label: "TXI" }
    } else if car_type == 5 {
        DetailedCarDesign { top: "┌───┐", middle: "│ V │", bottom: "└───┘", color: Color::Gray, label: "VAN" }
    } else if car_type == 6 {
        DetailedCarDesign { top: "┌─┐", middle: "│M│", bottom: "└─┘", color: Color::Magenta, label: "MSC" }
    } else if car_type == 7 {
        DetailedCarDesign { top: "┌─┐", middle: "│C│", bottom: "└─┘", color: Color::Cyan, label: "CNV" }
    } else if car_type == 8 {
        DetailedCarDesign { top: "┌─────┐", middle: "│ LIM │", bottom: "└─────┘", color: Color::White, label: "LMO" }
    } else {
        DetailedCarDesign { top: "┌─┐", middle: "│?│", bottom: "└─┘", color: Color::Gray, label: "CAR" }
    }
}

/// The card of an obstacle or powerup type.
#[derive(Clone, Copy, Debug)]
pub struct PowerupVisual {
    pub icon: &'static str,
    pub color: Color,
    pub name: &'static str,
    pub effect: &'static str,
}

/// The powerup card table.
pub open spec fn powerup_visual_of(ptype: i32) -> PowerupVisual {
    if ptype == 0 {
        PowerupVisual { icon: "🚧", color: Color::Yellow, name: "CONE", effect: "OBSTACLE" }
    } else if ptype == 1 {
        PowerupVisual { icon: "💧", color: Color::Blue, name: "OIL", effect: "SLIPPERY" }
    } else if ptype == 2 {
        PowerupVisual { icon: "⚡", color: Color::Magenta, name: "BOOST", effect: "SPEED+" }
    } else if ptype == 3 {
        PowerupVisual { icon: "⭐", color: Color::Yellow, name: "STAR", effect: "INVINCIBLE" }
    } else if ptype == 4 {
        PowerupVisual { icon: "🧲", color: Color::Red, name: "MAGNET", effect: "ATTRACT" }
    } else if ptype == 5 {
        PowerupVisual { icon: "🕐", color: Color::Cyan, name: "CLOCK", effect: "SLOWMO" }
    } else {
        PowerupVisual { icon: "⚠", color: Color::Red, name: "UNKNOWN", effect: "UNKNOWN" }
    }
}

/// Card of an obstacle or powerup type.
pub fn get_powerup_visual(ptype: i32) -> (r: PowerupVisual)
    ensures
        r == powerup_visual_of(ptype),
{
    if ptype == 0 {
        PowerupVisual { icon: "🚧", color: Color::Yellow, name: "CONE", effect: "OBSTACLE" }
    } else if ptype == 1 {
        PowerupVisual { icon: "💧", color: Color::Blue, name: "OIL", effect: "SLIPPERY" }
    } else if ptype == 2 {
        PowerupVisual { icon: "⚡", color: Color::Magenta, name: "BOOST", effect: "SPEED+" }
    } else if ptype == 3 {
        PowerupVisual { icon: "⭐", color: Color::Yellow, name: "STAR", effect: "INVINCIBLE" }
    } else if ptype == 4 {
        PowerupVisual { icon: "🧲", color: Color::Red, name: "MAGNET", effect: "ATTRACT" }
    } else if ptype == 5 {
        PowerupVisual { icon: "🕐", color: Color::Cyan, name: "CLOCK", effect: "SLOWMO" }
    } else {
        PowerupVisual { icon: "⚠", color: Color::Red, name: "UNKNOWN", effect: "UNKNOWN" }
    }
}

/// A scenery symbol with its color and name.
#[derive(Clone, Copy, Debug)]
pub struct EnvironmentAsset {
    pub symbol: &'static str,
    pub color: Color,
    pub name: &'static str,
}

/// The tree asset.
pub open spec fn tree_of() -> EnvironmentAsset {
    EnvironmentAsset { symbol: "🌲", color: Color::Green, name: "TREE" }
}

/// The tree asset.
pub fn get_tree() -> (r: EnvironmentAsset)
    ensures
        r == tree_of(),
{
    EnvironmentAsset { symbol: "🌲", color: Color::Green, name: "TREE" }
}

/// The building asset table.
pub open spec fn building_of(building_type: i32) -> EnvironmentAsset {
    if building_type == 1 {
        EnvironmentAsset { symbol: "🏢", color: Color::Rgb(100, 100, 150), name: "GLASS_BUILDING" }
    } else if building_type == 2 {
        EnvironmentAsset { symbol: "🏭", color: Color::Rgb(80, 80, 80), name: "CONCRETE_BUILDING" }
    } else if building_type == 3 {
        EnvironmentAsset { symbol: "🏠", color: Color::Rgb(120, 90, 70), name: "BRICK_BUILDING" }
    } else {
        EnvironmentAsset { symbol: "🏢", color: Color::Gray, name: "BUILDING" }
    }
}

/// Scenery asset of a building type.
pub fn get_building(building_type: i32) -> (r: EnvironmentAsset)
    ensures
        r == building_of(building_type),
{
    if building_type == 1 {
        EnvironmentAsset { symbol: "🏢", color: Color::Rgb(100, 100, 150), name: "GLASS_BUILDING" }
    } else if building_type == 2 {
        EnvironmentAsset { symbol: "🏭", color: Color::Rgb(80, 80, 80), name: "CONCRETE_BUILDING" }
    } else if building_type == 3 {
        EnvironmentAsset { symbol: "🏠", color: Color::Rgb(120, 90, 70), name: "BRICK_BUILDING" }
    } else {
        EnvironmentAsset { symbol: "🏢", color: Color::Gray, name: "BUILDING" }
    }
}

/// The cactus asset.
pub open spec fn cactus_of() -> EnvironmentAsset {
    EnvironmentAsset { symbol: "🌵", color: Color::Green, name: "CACTUS" }
}

/// The cactus asset.
pub fn get_cactus() -> (r: EnvironmentAsset)
    ensures
        r == cactus_of(),
{
    EnvironmentAsset { symbol: "🌵", color: Color::Green, name: "CACTUS" }
}

/// The mountain asset.
pub open spec fn mountain_of() -> EnvironmentAsset {
    EnvironmentAsset { symbol: "⛰", color: Color::Rgb(100, 100, 100), name: "MOUNTAIN" }
}

/// The mountain asset.
pub fn get_mountain() -> (r: EnvironmentAsset)
    ensures
        r == mountain_of(),
{
    EnvironmentAsset { symbol: "⛰", color: Color::Rgb(100, 100, 100), name: "MOUNTAIN" }
}

/// Road surface and lane marking characters with the road color.
#[derive(Clone, Copy, Debug)]
pub struct RoadMarking {
    pub solid: &'static str,
    pub dashed: &'static str,
    pub color: Color,
}

/// The road marking table.
pub open spec fn road_marking_of(weather: i32) -> RoadMarking {
    if weather == 1 {
        RoadMarking { solid: "▓", dashed: "┆", color: Color::Rgb(60, 60, 80) }
    } else if weather == 2 {
        RoadMarking { solid: "░", dashed: "┆", color: Color::Rgb(100, 100, 100) }
    } else if weather == 3 {
        RoadMarking { solid: "█", dashed: "┆", color: Color::Rgb(20, 20, 30) }
    } else {
        RoadMarking { solid: "▓", dashed: "┆", color: Color::Rgb(80, 80, 80) }
    }
}

/// Road marking of a weather code.
pub fn get_road_marking(weather: i32) -> (r: RoadMarking)
    ensures
        r == road_marking_of(weather),
{
    if weather == 1 {
        RoadMarking { solid: "▓", dashed: "┆", color: Color::Rgb(60, 60, 80) }
    } else if weather == 2 {
        RoadMarking { solid: "░", dashed: "┆", color: Color::Rgb(100, 100, 100) }
    } else if weather == 3 {
        RoadMarking { solid: "█", dashed: "┆", color: Color::Rgb(20, 20, 30) }
    } else {
        RoadMarking { solid: "▓", dashed: "┆", color: Color::Rgb(80, 80, 80) }
    }
}

/// The three-row frame of a HUD element and its color.
#[derive(Clone, Copy, Debug)]
pub struct HUDStyle {
    pub border_top: &'static str,
    pub border_mid: &'static str,
    pub border_bot: &'static str,
    pub color: Color,
}

/// The HUD frame table.
pub open spec fn hud_style_of(element_type: i32) -> HUDStyle {
    if element_type == 0 {
        HUDStyle { border_top: "╔════════╗", border_mid: "║ SCORE  ║", border_bot: "╚════════╝", color: Color::Yellow }
    } else if element_type == 1 {
        HUDStyle { border_top: "╔════════╗", border_mid: "║ HEALTH ║", border_bot: "╚════════╝", color: Color::Red }
    } else if element_type == 2 {
        HUDStyle { border_top: "╔════════╗", border_mid: "║ SPEED  ║", border_bot: "╚════════╝", color: Color::Cyan }
    } else if element_type == 3 {
        HUDStyle { border_top: "╔════════╗", border_mid: "║ POWER  ║", border_bot: "╚════════╝", color: Color::Magenta }
    } else {
        HUDStyle { border_top: "╔════════╗", border_mid: "║ INFO   ║", border_bot: "╚════════╝", color: Color::White }
    }
}

/// Frame of a HUD element type.
pub fn get_hud_style(element_type: i32) -> (r: HUDStyle)
    ensures
        r == hud_style_of(element_type),
{
    if element_type == 0 {
        HUDStyle { border_top: "╔════════╗", border_mid: "║ SCORE  ║", border_bot: "╚════════╝", color: Color::Yellow }
    } else if element_type == 1 {
        HUDStyle { border_top: "╔════════╗", border_mid: "║ HEALTH ║", border_bot: "╚════════╝", color: Color::Red }
    } else if element_type == 2 {
        HUDStyle { border_top: "╔════════╗", border_mid: "║ SPEED  ║", border_bot: "╚════════╝", color: Color::Cyan }
    } else if element_type == 3 {
        HUDStyle { border_top: "╔════════╗", border_mid: "║ POWER  ║", border_bot: "╚════════╝", color: Color::Magenta }
    } else {
        HUDStyle { border_top: "╔════════╗", border_mid: "║ INFO   ║", border_bot: "╚════════╝", color: Color::White }
    }
}

/// Lane layout of a track type.
#[derive(Clone, Copy, Debug)]
pub struct LaneConfig {
    pub lane_count: usize,
    pub lane_width: u16,
    pub lane_color: Color,
    pub marker_style: &'static str,
}

/// The lane layout table.
pub open spec fn lane_config_of(track_type: i32) -> LaneConfig {
    if track_type == 1 {
        LaneConfig { lane_count: 4, lane_width: 6, lane_color: Color::Rgb(100, 100, 100), marker_style: "║" }
    } else if track_type == 2 {
        LaneConfig { lane_count: 3, lane_width: 8, lane_color: Color::Rgb(80, 80, 80), marker_style: "┃" }
    } else if track_type == 3 {
        LaneConfig { lane_count: 2, lane_width: 12, lane_color: Color::Rgb(120, 100, 60), marker_style: "┆" }
    } else if track_type == 4 {
        LaneConfig { lane_count: 3, lane_width: 8, lane_color: Color::Rgb(40, 40, 40), marker_style: "┃" }
    } else {
        LaneConfig { lane_count: 3, lane_width: 8, lane_color: Color::Rgb(80, 80, 80), marker_style: "┆" }
    }
}

/// Lane layout of a track type.
pub fn get_lane_config(track_type: i32) -> (r: LaneConfig)
    ensures
        r == lane_config_of(track_type),
{
    if track_type == 1 {
        LaneConfig { lane_count: 4, lane_width: 6, lane_color: Color::Rgb(100, 100, 100), marker_style: "║" }
    } else if track_type == 2 {
        LaneConfig { lane_count: 3, lane_width: 8, lane_color: Color::Rgb(80, 80, 80), marker_style: "┃" }
    } else if track_type == 3 {
        LaneConfig { lane_count: 2, lane_width: 12, lane_color: Color::Rgb(120, 100, 60), marker_style: "┆" }
    } else if track_type == 4 {
        LaneConfig { lane_count: 3, lane_width: 8, lane_color: Color::Rgb(40, 40, 40), marker_style: "┃" }
    } else {
        LaneConfig { lane_count: 3, lane_width: 8, lane_color: Color::Rgb(80, 80, 80), marker_style: "┆" }
    }
}

/// A particle symbol, its color and its lifetime in frames.
#[derive(Clone, Copy, Debug)]
pub struct ParticleEffect {
    pub symbol: &'static str,
    pub color: Color,
    pub lifetime: u8,
}

/// The boost particle.
pub open spec fn boost_particle_of() -> ParticleEffect {
    ParticleEffect { symbol: "✦", color: Color::Magenta, lifetime: 10 }
}

/// The boost particle.
pub fn get_boost_particle() -> (r: ParticleEffect)
    ensures
        r == boost_particle_of(),
{
    ParticleEffect { symbol: "✦", color: Color::Magenta, lifetime: 10 }
}

/// The crash particle.
pub open spec fn crash_particle_of() -> ParticleEffect {
    ParticleEffect { symbol: "✕", color: Color::Red, lifetime: 15 }
}

/// The crash particle.
pub fn get_crash_particle() -> (r: ParticleEffect)
    ensures
        r == crash_particle_of(),
{
    ParticleEffect { symbol: "✕", color: Color::Red, lifetime: 15 }
}

/// The dust particle.
pub open spec fn dust_particle_of() -> ParticleEffect {
    ParticleEffect { symbol: "·", color: Color::Gray, lifetime: 8 }
}

/// The dust particle.
pub fn get_dust_particle() -> (r: ParticleEffect)
    ensures
        r == dust_particle_of(),
{
    ParticleEffect { symbol: "·", color: Color::Gray, lifetime: 8 }
}

/// The theme colors of a track type.
#[derive(Clone, Copy, Debug)]
pub struct ColorPalette {
    pub primary: Color,
    pub secondary: Color,
    pub accent: Color,
    pub background: Color,
    pub text: Color,
}

/// The palette table.
pub open spec fn track_palette_of(track_type: i32) -> ColorPalette {
    if track_type == 1 {
        ColorPalette { primary: Color::Rgb(100, 100, 150), secondary: Color::Rgb(150, 150, 200), accent: Color::Yellow, background: Color::Rgb(30, 30, 40), text: Color::White }
    } else if track_type == 2 {
        ColorPalette { primary: Color::Rgb(100, 150, 100), secondary: Color::Rgb(150, 200, 150), accent: Color::White, background: Color::Rgb(25, 35, 25), text: Color::White }
    } else if track_type == 3 {
        ColorPalette { primary: Color::Rgb(200, 150, 100), secondary: Color::Rgb(220, 180, 120), accent: Color::Yellow, background: Color::Rgb(50, 40, 20), text: Color::White }
    } else if track_type == 4 {
        ColorPalette { primary: Color::Rgb(60, 60, 60), secondary: Color::Rgb(100, 100, 100), accent: Color::Cyan, background: Color::Rgb(20, 20, 20), text: Color::White }
    } else {
        ColorPalette { primary: Color::Rgb(80, 80, 80), secondary: Color::Rgb(120, 120, 120), accent: Color::Cyan, background: Color::Black, text: Color::White }
    }
}

/// Theme colors of a track type.
pub fn get_track_palette(track_type: i32) -> (r: ColorPalette)
    ensures
        r == track_palette_of(track_type),
{
    if track_type == 1 {
        ColorPalette { primary: Color::Rgb(100, 100, 150), secondary: Color::Rgb(150, 150, 200), accent: Color::Yellow, background: Color::Rgb(30, 30, 40), text: Color::White }
    } else if track_type == 2 {
        ColorPalette { primary: Color::Rgb(100, 150, 100), secondary: Color::Rgb(150, 200, 150), accent: Color::White, background: Color::Rgb(25, 35, 25), text: Color::White }
    } else if track_type == 3 {
        ColorPalette { primary: Color::Rgb(200, 150, 100), secondary: Color::Rgb(220, 180, 120), accent: Color::Yellow, background: Color::Rgb(50, 40, 20), text: Color::White }
    } else if track_type == 4 {
        ColorPalette { primary: Color::Rgb(60, 60, 60), secondary: Color::Rgb(100, 100, 100), accent: Color::Cyan, background: Color::Rgb(20, 20, 20), text: Color::White }
    } else {
        ColorPalette { primary: Color::Rgb(80, 80, 80), secondary: Color::Rgb(120, 120, 120), accent: Color::Cyan, background: Color::Black, text: Color::White }
    }
}

/// One frame of an animation and how many ticks it lasts.
#[derive(Clone, Copy, Debug)]
pub struct AnimationFrame {
    pub frame: &'static str,
    pub duration: u8,
}

/// The wheel animation cycle.
pub open spec fn wheel_frame_of(frame: u8) -> &'static str {
    if frame % 4 == 0 {
        "◐"
    } else if frame % 4 == 1 {
        "◓"
    } else if frame % 4 == 2 {
        "◑"
    } else {
        "◒"
    }
}

/// Wheel glyph of an animation frame: four frames, repeating.
pub fn get_wheel_animation(frame: u8) -> (r: &'static str)
    ensures
        r == wheel_frame_of(frame),
{
    if frame % 4 == 0 {
        "◐"
    } else if frame % 4 == 1 {
        "◓"
    } else if frame % 4 == 2 {
        "◑"
    } else {
        "◒"
    }
}

/// The boost animation cycle.
pub open spec fn boost_frame_of(frame: u8) -> &'static str {
    if frame % 3 == 0 {
        "🔥"
    } else if frame % 3 == 1 {
        "💥"
    } else {
        "⚡"
    }
}

/// Boost flame glyph of an animation frame: three frames, repeating.
pub fn get_boost_animation(frame: u8) -> (r: &'static str)
    ensures
        r == boost_frame_of(frame),
{
    if frame % 3 == 0 {
        "🔥"
    } else if frame % 3 == 1 {
        "💥"
    } else {
        "⚡"
    }
}

/// The shield animation cycle.
pub open spec fn shield_frame_of(frame: u8) -> &'static str {
    if frame % 2 == 0 {
        "◯"
    } else {
        "◉"
    }
}

/// Shield glyph of an animation frame: two frames, alternating.
pub fn get_shield_animation(frame: u8) -> (r: &'static str)
    ensures
        r == shield_frame_of(frame),
{
    if frame % 2 == 0 {
        "◯"
    } else {
        "◉"
    }
}

} // verus!
