//! Rendering layer of a lane-based terminal racing game: projection of world
//! entities onto the character grid, layered frame composition, panel layout and
//! the glyph tables behind them. A frame is composed as an ordered list of draw
//! commands; the display surface draws them in order.

pub mod assets;
pub mod fixed;
pub mod frame;
pub mod geometry;
pub mod glyphs;
pub mod hud;
pub mod input;
pub mod laws;
pub mod scene;
pub mod state;
pub mod style;
pub mod text;
pub mod widgets;

pub use assets::{
    get_boost_animation, get_boost_particle, get_building, get_cactus, get_crash_particle,
    get_detailed_car, get_dust_particle, get_hud_style, get_lane_config, get_mountain,
    get_powerup_visual, get_road_marking, get_shield_animation, get_track_palette, get_tree,
    get_wheel_animation, AnimationFrame, ColorPalette, DetailedCarDesign, EnvironmentAsset,
    HUDStyle, LaneConfig, ParticleEffect, PowerupVisual, RoadMarking,
};
pub use frame::render_frame;
pub use geometry::{project, Projection, Rect};
pub use glyphs::{
    get_building_style, get_car_design, get_combo_color, get_health_color, get_powerup_icon,
    get_road_char, get_track_name, get_track_style, get_weather_icon, CarDesign,
};
pub use hud::{
    render_career_hud, render_career_info, render_enhanced_hud, render_menu, render_player_hud,
    render_replay_controls, render_replay_hud, render_replay_info, render_singleplayer_hud,
    render_splitscreen_hud,
};
pub use input::{handle_key_event, Key};
pub use scene::{
    render_ghost, render_lane_markers, render_objects, render_player, render_track,
    render_weather_overlay,
};
pub use state::{AudioCommand, GameState, InputState};
pub use style::{Color, Style};
pub use widgets::{ListLine, Widget};
