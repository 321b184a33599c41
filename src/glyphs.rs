//! Glyph and style tables: total lookups from the snapshot's integer codes to
//! fixed visual descriptors. Every code outside the enumeration maps to the
//! declared default entry.
use crate::fixed::{light_level, light_of};
use crate::style::{bg_style, Color, Style};
use vstd::prelude::*;

verus! {

/// The combo color table.
pub open spec fn combo_color_of(combo: i32) -> Color {
    if 0 <= combo && combo <= 2 {
        Color::White
    } else if 3 <= combo && combo <= 5 {
        Color::Cyan
    } else if 6 <= combo && combo <= 10 {
        Color::Yellow
    } else if 11 <= combo && combo <= 20 {
        Color::Magenta
    } else {
        Color::Red
    }
}

/// Color of the combo counter by multiplier band.
pub fn get_combo_color(combo: i32) -> (r: Color)
    ensures
        r == combo_color_of(combo),
{
    if 0 <= combo && combo <= 2 {
        Color::White
    } else if 3 <= combo && combo <= 5 {
        Color::Cyan
    } else if 6 <= combo && combo <= 10 {
        Color::Yellow
    } else if 11 <= combo && combo <= 20 {
        Color::Magenta
    } else {
        Color::Red
    }
}

/// The health color thresholds.
pub open spec fn health_color_of(health: i32) -> Color {
    if health > 66 {
        Color::Green
    } else if health > 33 {
        Color::Yellow
    } else {
        Color::Red
    }
}

/// Color of a health value: green above two thirds, yellow above one third, red below.
pub fn get_health_color(health: i32) -> (r: Color)
    ensures
        r == health_color_of(health),
{
    if health > 66 {
        Color::Green
    } else if health > 33 {
        Color::Yellow
    } else {
        Color::Red
    }
}

/// The track name table.
pub open spec fn track_name_of(track_type: i32) -> &'static str {
    if track_type == 1 {
        "CITY STREETS"
    } else if track_type == 2 {
        "MOUNTAIN PASS"
    } else if track_type == 3 {
        "DESERT HIGHWAY"
    } else if track_type == 4 {
        "UNDERGROUND TUNNEL"
    } else {
        "HIGHWAY RUSH"
    }
}

/// Display name of a track type.
pub fn get_track_name(track_type: i32) -> (r: &'static str)
    ensures
        r == track_name_of(track_type),
{
    if track_type == 1 {
        "CITY STREETS"
    } else if track_type == 2 {
        "MOUNTAIN PASS"
    } else if track_type == 3 {
        "DESERT HIGHWAY"
    } else if track_type == 4 {
        "UNDERGROUND TUNNEL"
    } else {
        "HIGHWAY RUSH"
    }
}

/// The weather icon table.
pub open spec fn weather_icon_of(weather_type: i32) -> &'static str {
    if weather_type == 1 {
        "🌧RAIN"
    } else if weather_type == 2 {
        "🌫FOG"
    } else if weather_type == 3 {
        "🌙NIGHT"
    } else {
        "☀CLEAR"
    }
}

/// Icon and label of a weather code.
pub fn get_weather_icon(weather_type: i32) -> (r: &'static str)
    ensures
        r == weather_icon_of(weather_type),
{
    if weather_type == 1 {
        "🌧RAIN"
    } else if weather_type == 2 {
        "🌫FOG"
    } else if weather_type == 3 {
        "🌙NIGHT"
    } else {
        "☀CLEAR"
    }
}

/// The background color of a track type, before weather; the tunnel is lit at
/// 30 scaled by one minus its darkness (thousandths).
pub open spec fn track_base_color_of(track_type: i32, darkness: i64) -> Color {
    if track_type == 1 {
        Color::Rgb(30, 30, 40)
    } else if track_type == 2 {
        Color::Rgb(25, 35, 25)
    } else if track_type == 3 {
        Color::Rgb(50, 40, 20)
    } else if track_type == 4 {
        Color::Rgb(light_of(darkness, 30), light_of(darkness, 30), light_of(darkness, 30))
    } else {
        Color::Black
    }
}

/// The background style of a track: rain, fog and night override the track's color.
pub open spec fn track_style_of(track_type: i32, weather_type: i32, darkness: i64) -> Style {
    bg_style(
        if weather_type == 1 {
            Color::Rgb(20, 30, 50)
        } else if weather_type == 2 {
            Color::Rgb(40, 40, 40)
        } else if weather_type == 3 {
            Color::Rgb(10, 10, 30)
        } else {
            track_base_color_of(track_type, darkness)
        },
    )
}

/// Background style of the track block; `darkness` is in thousandths.
pub fn get_track_style(track_type: i32, weather_type: i32, darkness: i64) -> (r: Style)
    ensures
        r == track_style_of(track_type, weather_type, darkness),
{
    let base = if track_type == 1 {
        Color::Rgb(30, 30, 40)
    } else if track_type == 2 {
        Color::Rgb(25, 35, 25)
    } else if track_type == 3 {
        Color::Rgb(50, 40, 20)
    } else if track_type == 4 {
        let b = light_level(darkness, 30);
        Color::Rgb(b, b, b)
    } else {
        Color::Black
    };
    let c = if weather_type == 1 {
        Color::Rgb(20, 30, 50)
    } else if weather_type == 2 {
        Color::Rgb(40, 40, 40)
    } else if weather_type == 3 {
        Color::Rgb(10, 10, 30)
    } else {
        base
    };
    Style::bg(c)
}

/// A four-row sprite of a car with its color and a short label.
#[derive(Clone, Copy, Debug)]
pub struct CarDesign {
    pub art: [&'static str; 4],
    pub color: Color,
    pub label: &'static str,
}

/// The car sprite table.
pub open spec fn car_design_of(car_type: i32, is_boss: bool) -> CarDesign {
    if is_boss {
        CarDesign { art: [" ▄███▄ ", "███████", "▐██▌██▌", " BOSS! "], color: Color::Red, label: "BOSS!" }
    } else if car_type == 0 {
        CarDesign { art: ["  ▄█▄  ", " █████ ", " ▐█▌█▌ ", "  YOU  "], color: Color::Green, label: "YOU" }
    } else if car_type == 1 {
        CarDesign { art: ["  ▄█▄  ", " █🚨█ ", " ▐█▌█▌ ", "  🚔  "], color: Color::Blue, label: "POL" }
    } else if car_type == 2 {
        CarDesign { art: ["  ▀█▀  ", " █████ ", " ▐██▌▌ ", "  🏁  "], color: Color::Magenta, label: "RCR" }
    } else if car_type == 3 {
        CarDesign { art: [" ▄███▄ ", "███████", "▐██▌██▌", " TRUCK "], color: Color::Yellow, label: "TRK" }
    } else if car_type == 4 {
        CarDesign { art: ["  ▄█▄  ", " █▓▓█ ", " ▐█▌█▌ ", " TAXI "], color: Color::Yellow, label: "TXI" }
    } else if car_type == 5 {
        CarDesign { art: [" ▄███▄ ", "███▓███", "▐█▌▌█▌ ", "  VAN  "], color: Color::Rgb(150, 150, 150), label: "VAN" }
    } else if car_type == 6 {
        CarDesign { art: ["  ▄█▄  ", " ▓███▓ ", " ▐██▌▌ ", " MSCL "], color: Color::Red, label: "MSC" }
    } else if car_type == 7 {
        CarDesign { art: ["  ─█─  ", " █▒▒█ ", " ▐█▌█▌ ", " CONV "], color: Color::Cyan, label: "CNV" }
    } else if car_type == 8 {
        CarDesign { art: ["▄█████▄", "███████", "▐█▌▌▌█▌", " LIMO! "], color: Color::Black, label: "LMO" }
    } else {
        CarDesign { art: ["  ▄█▄  ", " █████ ", " ▐█▌█▌ ", "  CAR  "], color: Color::Gray, label: "CAR" }
    }
}

/// Sprite of a car type; a boss car has its own sprite whatever its type.
pub fn get_car_design(car_type: i32, is_boss: bool) -> (r: CarDesign)
    ensures
        r == car_design_of(car_type, is_boss),
{
    if is_boss {
        CarDesign { art: [" ▄███▄ ", "███████", "▐██▌██▌", " BOSS! "], color: Color::Red, label: "BOSS!" }
    } else if car_type == 0 {
        CarDesign { art: ["  ▄█▄  ", " █████ ", " ▐█▌█▌ ", "  YOU  "], color: Color::Green, label: "YOU" }
    } else if car_type == 1 {
        CarDesign { art: ["  ▄█▄  ", " █🚨█ ", " ▐█▌█▌ ", "  🚔  "], color: Color::Blue, label: "POL" }
    } else if car_type == 2 {
        CarDesign { art: ["  ▀█▀  ", " █████ ", " ▐██▌▌ ", "  🏁  "], color: Color::Magenta, label: "RCR" }
    } else if car_type == 3 {
        CarDesign { art: [" ▄███▄ ", "███████", "▐██▌██▌", " TRUCK "], color: Color::Yellow, label: "TRK" }
    } else if car_type == 4 {
        CarDesign { art: ["  ▄█▄  ", " █▓▓█ ", " ▐█▌█▌ ", " TAXI "], color: Color::Yellow, label: "TXI" }
    } else if car_type == 5 {
        CarDesign { art: [" ▄███▄ ", "███▓███", "▐█▌▌█▌ ", "  VAN  "], color: Color::Rgb(150, 150, 150), label: "VAN" }
    } else if car_type == 6 {
        CarDesign { art: ["  ▄█▄  ", " ▓███▓ ", " ▐██▌▌ ", " MSCL "], color: Color::Red, label: "MSC" }
    } else if car_type == 7 {
        CarDesign { art: ["  ─█─  ", " █▒▒█ ", " ▐█▌█▌ ", " CONV "], color: Color::Cyan, label: "CNV" }
    } else if car_type == 8 {
        CarDesign { art: ["▄█████▄", "███████", "▐█▌▌▌█▌", " LIMO! "], color: Color::Black, label: "LMO" }
    } else {
        CarDesign { art: ["  ▄█▄  ", " █████ ", " ▐█▌█▌ ", "  CAR  "], color: Color::Gray, label: "CAR" }
    }
}

/// The obstacle icon table.
pub open spec fn powerup_icon_of(ptype: i32) -> (&'static str, Color) {
    if ptype == 0 {
        ("🚧", Color::Yellow)
    } else if ptype == 1 {
        ("💧", Color::Blue)
    } else if ptype == 2 {
        ("⚡", Color::Magenta)
    } else if ptype == 3 {
        ("⭐", Color::Yellow)
    } else if ptype == 4 {
        ("🧲", Color::Red)
    } else if ptype == 5 {
        ("🕐", Color::Cyan)
    } else {
        ("⚠", Color::Red)
    }
}

/// Icon and color of an obstacle or powerup type.
pub fn get_powerup_icon(ptype: i32) -> (r: (&'static str, Color))
    ensures
        r == powerup_icon_of(ptype),
{
    if ptype == 0 {
        ("🚧", Color::Yellow)
    } else if ptype == 1 {
        ("💧", Color::Blue)
    } else if ptype == 2 {
        ("⚡", Color::Magenta)
    } else if ptype == 3 {
        ("⭐", Color::Yellow)
    } else if ptype == 4 {
        ("🧲", Color::Red)
    } else if ptype == 5 {
        ("🕐", Color::Cyan)
    } else {
        ("⚠", Color::Red)
    }
}

/// The building style table.
pub open spec fn building_style_of(btype: i32) -> (&'static str, Color) {
    if btype == 1 {
        ("▓▓▓▓▓▓", Color::Rgb(100, 100, 150))
    } else if btype == 2 {
        ("██████", Color::Rgb(80, 80, 80))
    } else if btype == 3 {
        ("▒▒▒▒▒▒", Color::Rgb(120, 90, 70))
    } else {
        ("▓▓▓▓▓▓", Color::Rgb(60, 60, 90))
    }
}

/// Character run and color of a building type.
pub fn get_building_style(btype: i32) -> (r: (&'static str, Color))
    ensures
        r == building_style_of(btype),
{
    if btype == 1 {
        ("▓▓▓▓▓▓", Color::Rgb(100, 100, 150))
    } else if btype == 2 {
        ("██████", Color::Rgb(80, 80, 80))
    } else if btype == 3 {
        ("▒▒▒▒▒▒", Color::Rgb(120, 90, 70))
    } else {
        ("▓▓▓▓▓▓", Color::Rgb(60, 60, 90))
    }
}

/// The road character table.
pub open spec fn road_char_of(weather_type: i32) -> &'static str {
    if weather_type == 1 {
        "▒"
    } else if weather_type == 2 {
        "░"
    } else {
        "▓"
    }
}

/// Road surface character for a weather code.
pub fn get_road_char(weather_type: i32) -> (r: &'static str)
    ensures
        r == road_char_of(weather_type),
{
    if weather_type == 1 {
        "▒"
    } else if weather_type == 2 {
        "░"
    } else {
        "▓"
    }
}

} // verus!
