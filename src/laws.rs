//! Properties of the renderer that hold for every snapshot and every rectangle.
use crate::geometry::{
    clamp_int, column_of, projection_of, row_of, Projection, Rect, AI_FAR, AI_NEAR, BUILDING_FAR,
    BUILDING_NEAR, OBSTACLE_FAR, OBSTACLE_NEAR,
};
use crate::glyphs::{building_style_of, car_design_of, powerup_icon_of, road_char_of, CarDesign};
use crate::scene::{
    abs_int, ai_cars_at, ai_cars_spec, art_rows, background_spec, badge_style, buildings_at,
    buildings_spec, cacti, curve_of, dec_sat, elevation_rows, ghost_sprite_spec, ghost_style,
    lane_markers_spec, marker_cells, obstacles_at, obstacles_spec, objects_spec, peaks,
    player_color_of, player_spec, rain_drops, rain_spec, road_base_spec, road_rows, slowmo_spec,
    sprite_style, streaks, track_layers, travelled, tunnel_light_of, wall_rows, weather_spec,
    building_rows, lemma_gather_inside,
};
use crate::state::{GameState, SINGLE_PLAYER, SPLIT_SCREEN};
use crate::frame::{frame_panel_count, frame_spec};
use crate::assets::{detailed_car_of, powerup_visual_of, DetailedCarDesign, PowerupVisual};
use crate::geometry::depth_rows;
use crate::glyphs::{combo_color_of, track_name_of, weather_icon_of};
use crate::style::Color;
use crate::widgets::{all_inside, lemma_all_inside_concat, lemma_put_inside, put_spec, repeat_text};
use vstd::prelude::*;

verus! {

/// Clipping of a car sprite: its four art rows lie inside `area`.
pub proof fn lemma_art_inside(area: Rect, x: int, y: int, d: CarDesign, st: crate::style::Style)
    requires
        area.wf(),
    ensures
        all_inside(art_rows(area, x, y, d, st), area),
{
    lemma_put_inside(area, x, y, 7, 1, d.art@[0]@, st);
    lemma_put_inside(area, x, y + 1, 7, 1, d.art@[1]@, st);
    lemma_put_inside(area, x, y + 2, 7, 1, d.art@[2]@, st);
    lemma_put_inside(area, x, y + 3, 7, 1, d.art@[3]@, st);
    let a = put_spec(area, x, y, 7, 1, d.art@[0]@, st);
    let b = put_spec(area, x, y + 1, 7, 1, d.art@[1]@, st);
    let c = put_spec(area, x, y + 2, 7, 1, d.art@[2]@, st);
    let e = put_spec(area, x, y + 3, 7, 1, d.art@[3]@, st);
    lemma_all_inside_concat(a, b, area);
    lemma_all_inside_concat(a + b, c, area);
    lemma_all_inside_concat(a + b + c, e, area);
}

/// Clipping of the background layer (peaks, cacti, tunnel walls): every command
/// lies inside `area` and covers a cell of it.
pub proof fn lemma_background_inside(area: Rect, s: GameState, pd: i64)
    requires
        area.wf(),
    ensures
        all_inside(background_spec(area, s, pd), area),
{
    if s.track_type == 2 {
        let py = area.height / 3 + abs_int(elevation_rows(s.elevation)) % 10;
        assert forall|k: int| 0 <= k < (area.width + 4) / 5 implies all_inside(#[trigger] peaks(area, py)(k), area) by {
            lemma_put_inside(area, area.x + 5 * k, area.y + py, 1, 1, "▲"@, crate::style::fg_style(Color::Rgb(100, 100, 100)));
        }
        lemma_gather_inside((area.width + 4) / 5, peaks(area, py), area);
    } else if s.track_type == 3 {
        let d = travelled(pd) % 15;
        assert forall|k: int| 0 <= k < (area.width + 14) / 15 implies all_inside(#[trigger] cacti(area, d)(k), area) by {
            lemma_put_inside(area, area.x + 15 * k, area.bottom() - 8, 2, 1, "🌵"@, crate::style::fg_style(Color::Green));
        }
        lemma_gather_inside((area.width + 14) / 15, cacti(area, d), area);
    } else if s.track_type == 4 {
        let lo = travelled(pd) % 10;
        let light = tunnel_light_of(s.tunnel_darkness);
        assert forall|y: int| 0 <= y < area.height implies all_inside(#[trigger] wall_rows(area, lo, light)(y), area) by {
            let wall = crate::style::fg_style(Color::Rgb(40, 40, 40));
            let a = put_spec(area, area.x as int, area.y + y, 1, 1, "▌"@, wall);
            let b = put_spec(area, area.right() - 1, area.y + y, 1, 1, "▐"@, wall);
            let c = put_spec(area, area.x + area.width / 2, area.y + y, 1, 1, "•"@, crate::style::fg_style(light));
            lemma_put_inside(area, area.x as int, area.y + y, 1, 1, "▌"@, wall);
            lemma_put_inside(area, area.right() - 1, area.y + y, 1, 1, "▐"@, wall);
            lemma_put_inside(area, area.x + area.width / 2, area.y + y, 1, 1, "•"@, crate::style::fg_style(light));
            lemma_all_inside_concat(a, b, area);
            lemma_all_inside_concat(a + b, c, area);
            lemma_all_inside_concat(a + b, seq![], area);
        }
        lemma_gather_inside(area.height as int, wall_rows(area, lo, light), area);
    }
}

/// Clipping of the road surface, the lane dividers and the weather overlay:
/// every command lies inside `area` and covers a cell of it.
pub proof fn lemma_surface_inside(area: Rect, s: GameState, lw: int, curve: int)
    requires
        area.wf(),
    ensures
        all_inside(road_base_spec(area, s.weather, s.player_distance), area),
        all_inside(lane_markers_spec(area, s.player_distance, lw, curve), area),
        all_inside(weather_spec(area, s), area),
{
    let g = road_char_of(s.weather)@;
    let off = travelled(s.player_distance) % 2;
    assert forall|k: int| 0 <= k < (area.height + 1) / 2 implies all_inside(#[trigger] road_rows(area, g, off)(k), area) by {
        lemma_put_inside(
            area,
            area.x as int,
            area.y + (2 * k + off) % (area.height as int),
            area.width as int,
            1,
            repeat_text(g, area.width as int),
            crate::style::fg_style(Color::DarkGray),
        );
    }
    lemma_gather_inside((area.height + 1) / 2, road_rows(area, g, off), area);
    let moff = (travelled(s.player_distance) * 2) % 6;
    assert forall|k: int| 0 <= k < 2 * ((area.height + 2) / 3) implies all_inside(#[trigger] marker_cells(area, lw, curve, moff)(k), area) by {
        let lane = 1 + k % 2;
        let y = area.y + (3 * (k / 2) + moff) % (area.height as int);
        let cx = clamp_int(area.x + lane * lw + curve, area.x as int, area.right());
        lemma_put_inside(area, cx, y, 1, 2, "┃"@, crate::style::fg_style(Color::White));
    }
    lemma_gather_inside(2 * ((area.height + 2) / 3), marker_cells(area, lw, curve, moff), area);
    let rows = (area.height + 2) / 3;
    let roff = travelled(s.player_distance) % 7;
    assert forall|k: int| 0 <= k < ((area.width + 6) / 7) * rows implies all_inside(#[trigger] rain_drops(area, roff, rows)(k), area) by {
        lemma_put_inside(
            area,
            area.x + 7 * (k / rows),
            area.y + (3 * (k % rows) + roff) % (area.height as int),
            1,
            1,
            "·"@,
            crate::style::fg_style(Color::Rgb(100, 150, 200)),
        );
    }
    lemma_gather_inside(((area.width + 6) / 7) * rows, rain_drops(area, roff, rows), area);
    assert forall|k: int| 0 <= k < (area.height + 3) / 4 implies all_inside(#[trigger] streaks(area)(k), area) by {
        lemma_put_inside(area, area.x + 2, area.y + 4 * k, 3, 1, "━"@, crate::style::fg_style(Color::Rgb(80, 80, 150)));
    }
    lemma_gather_inside((area.height + 3) / 4, streaks(area), area);
    let r = if s.weather == 1 { rain_spec(area, s.player_distance) } else { seq![] };
    let w = if s.slowmo_active { slowmo_spec(area) } else { seq![] };
    lemma_all_inside_concat(r, w, area);
}

/// Clipping of the entity passes: every command of the buildings, the AI cars and
/// the obstacles lies inside `area` and covers a cell of it, for every lane width,
/// curve and snapshot, whatever the entities' lanes and distances.
pub proof fn lemma_entities_inside(area: Rect, s: GameState, lw: int, curve: int, pd: i64)
    requires
        area.wf(),
    ensures
        all_inside(buildings_spec(area, s, pd), area),
        all_inside(ai_cars_spec(area, s, lw, curve, pd), area),
        all_inside(obstacles_spec(area, s, lw, curve, pd), area),
        all_inside(objects_spec(area, s, lw, curve, pd), area),
{
    assert forall|i: int| 0 <= i < s.building_len() implies all_inside(#[trigger] buildings_at(area, s, pd)(i), area) by {
        let rel = s.building_distances@[i] - pd;
        let y = row_of(area, rel, BUILDING_NEAR as int, BUILDING_FAR as int);
        let x = if s.building_positions@[i] < 0 { area.x as int } else { area.right() - 8 };
        let bt = s.building_types@[i];
        assert forall|j: int| 0 <= j < clamp_int(s.building_heights@[i] as int, 0, 15) implies all_inside(#[trigger] building_rows(area, x, y, bt)(j), area) by {
            let a = put_spec(area, x, y - j, 6, 1, building_style_of(bt).0@, crate::style::fg_style(building_style_of(bt).1));
            let b = put_spec(area, x + 2, y - j, 2, 1, "▫▫"@, crate::style::fg_style(Color::Yellow));
            lemma_put_inside(area, x, y - j, 6, 1, building_style_of(bt).0@, crate::style::fg_style(building_style_of(bt).1));
            lemma_put_inside(area, x + 2, y - j, 2, 1, "▫▫"@, crate::style::fg_style(Color::Yellow));
            lemma_all_inside_concat(a, b, area);
            lemma_all_inside_concat(a, seq![], area);
        }
        lemma_gather_inside(clamp_int(clamp_int(s.building_heights@[i] as int, 0, 15), 0, 10), building_rows(area, x, y, bt), area);
    }
    lemma_gather_inside(s.building_len(), buildings_at(area, s, pd), area);
    assert forall|i: int| 0 <= i < s.ai_count() implies all_inside(#[trigger] ai_cars_at(area, s, lw, curve, pd)(i), area) by {
        match projection_of(area, s.ai_distances@[i] - pd, AI_NEAR as int, AI_FAR as int, s.ai_positions@[i] as int, lw, 7, curve) {
            Projection::Visible { x, y } => {
                let boss = s.ai_is_boss@[i];
                let d = car_design_of(s.ai_types@[i], boss);
                lemma_art_inside(area, x as int, y as int, d, sprite_style(d.color, boss));
                lemma_put_inside(area, x + 1, y + 3, 5, 1, d.label@, badge_style(d.color));
                lemma_all_inside_concat(art_rows(area, x as int, y as int, d, sprite_style(d.color, boss)), put_spec(area, x + 1, y + 3, 5, 1, d.label@, badge_style(d.color)), area);
                lemma_all_inside_concat(art_rows(area, x as int, y as int, d, sprite_style(d.color, boss)), seq![], area);
            },
            Projection::Hidden => {},
        }
    }
    lemma_gather_inside(s.ai_count(), ai_cars_at(area, s, lw, curve, pd), area);
    assert forall|i: int| 0 <= i < s.obstacle_len() implies all_inside(#[trigger] obstacles_at(area, s, lw, curve, pd)(i), area) by {
        match projection_of(area, s.obstacle_distances@[i] - pd, OBSTACLE_NEAR as int, OBSTACLE_FAR as int, s.obstacle_positions@[i] as int, lw, 2, curve) {
            Projection::Visible { x, y } => {
                let t = s.obstacle_types@[i];
                lemma_put_inside(area, x as int, y as int, 2, 1, powerup_icon_of(t).0@, crate::style::bold_style(powerup_icon_of(t).1));
            },
            Projection::Hidden => {},
        }
    }
    lemma_gather_inside(s.obstacle_len(), obstacles_at(area, s, lw, curve, pd), area);
    lemma_all_inside_concat(ai_cars_spec(area, s, lw, curve, pd), obstacles_spec(area, s, lw, curve, pd), area);
}

/// Clipping of the player car with its powerup effects and of the ghost car:
/// every command lies inside `area` and covers a cell of it.
pub proof fn lemma_player_inside(area: Rect, s: GameState, pos: i32, lw: int, curve: int, pd: i64)
    requires
        area.wf(),
    ensures
        all_inside(player_spec(area, s, pos, lw, curve, s.player_car_type, true), area),
        all_inside(ghost_sprite_spec(area, s, lw, curve, pd), area),
{
    let x = column_of(area, pos as int, lw, 7, curve);
    let y = area.bottom() - 7;
    let d = car_design_of(s.player_car_type, false);
    let st = crate::style::bold_style(player_color_of(s, d.color, true));
    let a = art_rows(area, x, y, d, st);
    let b = put_spec(area, x + 1, y + 4, 4, 1, "🔥🔥"@, crate::style::blink_style(Color::Red));
    let c = put_spec(area, dec_sat(x), dec_sat(y), 9, 1, " ◯◯◯ "@, crate::style::bold_style(Color::Cyan));
    let e = put_spec(area, dec_sat(x), dec_sat(y), 9, 1, "✨⭐✨"@, crate::style::blink_style(Color::Yellow));
    let g = put_spec(area, x + 6, y + 1, 2, 1, "🧲"@, crate::style::fg_style(Color::Red));
    lemma_art_inside(area, x, y, d, st);
    lemma_put_inside(area, x + 1, y + 4, 4, 1, "🔥🔥"@, crate::style::blink_style(Color::Red));
    lemma_put_inside(area, dec_sat(x), dec_sat(y), 9, 1, " ◯◯◯ "@, crate::style::bold_style(Color::Cyan));
    lemma_put_inside(area, dec_sat(x), dec_sat(y), 9, 1, "✨⭐✨"@, crate::style::blink_style(Color::Yellow));
    lemma_put_inside(area, x + 6, y + 1, 2, 1, "🧲"@, crate::style::fg_style(Color::Red));
    let b1 = if s.boost_active { b } else { seq![] };
    let c1 = if s.shield_active { c } else { seq![] };
    let e1 = if s.invincibility_active { e } else { seq![] };
    let g1 = if s.magnet_active { g } else { seq![] };
    lemma_all_inside_concat(a, b1, area);
    lemma_all_inside_concat(a + b1, c1, area);
    lemma_all_inside_concat(a + b1 + c1, e1, area);
    lemma_all_inside_concat(a + b1 + c1 + e1, g1, area);
    match projection_of(area, s.ghost_distance - pd, AI_NEAR as int, AI_FAR as int, s.ghost_position as int, lw, 7, curve) {
        Projection::Visible { x, y } => {
            lemma_art_inside(area, x as int, y as int, car_design_of(s.player_car_type, false), ghost_style());
        },
        Projection::Hidden => {},
    }
}

/// Clipping: every command of the layers of a track view lies inside the view's
/// rectangle and covers at least one of its cells, whatever the snapshot.
pub proof fn lemma_track_layers_clipped(area: Rect, s: GameState, pos: i32, pd: i64)
    requires
        area.wf(),
    ensures
        all_inside(track_layers(area, s, pos, pd), area),
        forall|i: int| 0 <= i < track_layers(area, s, pos, pd).len() ==> area.has_cell(
            #[trigger] track_layers(area, s, pos, pd)[i].area().x as int,
            track_layers(area, s, pos, pd)[i].area().y as int,
        ),
{
    let lw = (area.width / 3) as int;
    let curve = curve_of(s.track_type, s.curve_offset);
    lemma_background_inside(area, s, pd);
    lemma_surface_inside(area, s, lw, curve);
    lemma_entities_inside(area, s, lw, curve, pd);
    lemma_player_inside(area, s, pos, lw, curve, pd);
    let l0 = background_spec(area, s, pd);
    let l1 = road_base_spec(area, s.weather, s.player_distance);
    let l2 = lane_markers_spec(area, s.player_distance, lw, curve);
    let l3 = if s.track_type == 1 { buildings_spec(area, s, pd) } else { seq![] };
    let l4 = objects_spec(area, s, lw, curve, pd);
    let l5 = player_spec(area, s, pos, lw, curve, s.player_car_type, true);
    let l6 = if s.replay_mode && s.ghost_distance > 0 { ghost_sprite_spec(area, s, lw, curve, pd) } else { seq![] };
    let l7 = weather_spec(area, s);
    lemma_all_inside_concat(l0, l1, area);
    lemma_all_inside_concat(l0 + l1, l2, area);
    lemma_all_inside_concat(l0 + l1 + l2, l3, area);
    lemma_all_inside_concat(l0 + l1 + l2 + l3, l4, area);
    lemma_all_inside_concat(l0 + l1 + l2 + l3 + l4, l5, area);
    lemma_all_inside_concat(l0 + l1 + l2 + l3 + l4 + l5, l6, area);
    lemma_all_inside_concat(l0 + l1 + l2 + l3 + l4 + l5 + l6, l7, area);
    let t = track_layers(area, s, pos, pd);
    assert(t == l0 + l1 + l2 + l3 + l4 + l5 + l6 + l7);
    assert forall|i: int| 0 <= i < t.len() implies area.has_cell(#[trigger] t[i].area().x as int, t[i].area().y as int) by {
        assert(area.contains(t[i].area()));
    }
}


/// Visibility window edges: an AI car exactly at either edge of its window is
/// hidden; one level with the viewer is visible in any view at least nine rows
/// tall and seven columns wide.
pub proof fn lemma_ai_window_edges(area: Rect, lane: int, lw: int, curve: int)
    requires
        area.wf(),
    ensures
        projection_of(area, AI_NEAR as int, AI_NEAR as int, AI_FAR as int, lane, lw, 7, curve)
            == Projection::Hidden,
        projection_of(area, AI_FAR as int, AI_NEAR as int, AI_FAR as int, lane, lw, 7, curve)
            == Projection::Hidden,
        area.height >= 9 && area.width >= 7 ==> projection_of(
            area,
            0,
            AI_NEAR as int,
            AI_FAR as int,
            lane,
            lw,
            7,
            curve,
        ) is Visible,
{
    let h = area.height as int;
    if h >= 9 {
        assert(depth_rows(0, -10000, 50000, h) == (20000 * h + 60000) / 120000);
        assert((20000 * h + 60000) / 120000 >= 2) by (nonlinear_arith)
            requires
                h >= 9,
        ;
    }
}

/// Mode fallback: a split-screen snapshot whose second player is inactive gets the
/// single-player layout, and over the same panels it is drawn exactly as the same
/// snapshot in single-player mode, whatever the second player's fields hold.
pub proof fn lemma_split_without_player_two(r: Seq<Rect>, s: GameState, t: GameState)
    requires
        s.game_mode == SPLIT_SCREEN,
        !s.player2_active,
        t.game_mode == SINGLE_PLAYER,
        t == (GameState {
            game_mode: t.game_mode,
            player2_active: t.player2_active,
            player2_position: t.player2_position,
            player2_speed: t.player2_speed,
            player2_distance: t.player2_distance,
            player2_health: t.player2_health,
            player2_score: t.player2_score,
            player2_car_type: t.player2_car_type,
            ..s
        }),
    ensures
        frame_panel_count(s) == frame_panel_count(t),
        frame_spec(r, s) == frame_spec(r, t),
{
    let area = r[9].inner_spec();
    let pd = s.player_distance;
    let lw = (area.width / 3) as int;
    let curve = curve_of(s.track_type, s.curve_offset);
    assert(buildings_at(area, s, pd) =~= buildings_at(area, t, pd));
    assert(ai_cars_at(area, s, lw, curve, pd) =~= ai_cars_at(area, t, lw, curve, pd));
    assert(obstacles_at(area, s, lw, curve, pd) =~= obstacles_at(area, t, lw, curve, pd));
    assert(track_layers(area, s, s.player_position, pd) == track_layers(area, t, t.player_position, pd));
    assert(crate::hud::enhanced_hud_spec(r.subrange(0, 9), s) == crate::hud::enhanced_hud_spec(r.subrange(0, 9), t));
}

/// Empty obstacle array: with an obstacle count of zero no obstacle is drawn,
/// whatever the obstacle arrays hold, and the object layer is the AI cars alone.
pub proof fn lemma_no_obstacles(area: Rect, s: GameState, lw: int, curve: int, pd: i64)
    requires
        s.obstacle_count == 0,
    ensures
        obstacles_spec(area, s, lw, curve, pd) == Seq::<crate::widgets::Drawn>::empty(),
        objects_spec(area, s, lw, curve, pd) == ai_cars_spec(area, s, lw, curve, pd),
{
    assert(ai_cars_spec(area, s, lw, curve, pd) + seq![] =~= ai_cars_spec(area, s, lw, curve, pd));
}

/// Default codes: a lookup with a code outside its table's enumeration returns the
/// table's declared default entry.
pub proof fn lemma_default_codes(code: i32)
    ensures
        !(0 <= code <= 8) ==> car_design_of(code, false) == (CarDesign {
            art: ["  ▄█▄  ", " █████ ", " ▐█▌█▌ ", "  CAR  "],
            color: Color::Gray,
            label: "CAR",
        }),
        !(0 <= code <= 8) ==> detailed_car_of(code, false) == (DetailedCarDesign {
            top: "┌─┐",
            middle: "│?│",
            bottom: "└─┘",
            color: Color::Gray,
            label: "CAR",
        }),
        !(1 <= code <= 4) ==> track_name_of(code) == "HIGHWAY RUSH",
        !(1 <= code <= 3) ==> weather_icon_of(code) == "☀CLEAR",
        !(1 <= code <= 2) ==> road_char_of(code) == "▓",
        !(0 <= code <= 5) ==> powerup_icon_of(code) == ("⚠", Color::Red),
        !(0 <= code <= 5) ==> powerup_visual_of(code) == (PowerupVisual {
            icon: "⚠",
            color: Color::Red,
            name: "UNKNOWN",
            effect: "UNKNOWN",
        }),
        !(1 <= code <= 3) ==> building_style_of(code) == ("▓▓▓▓▓▓", Color::Rgb(60, 60, 90)),
        !(0 <= code <= 20) ==> combo_color_of(code) == Color::Red,
{
}

} // verus!
