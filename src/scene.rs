//! The layer compositor: one track view as an ordered list of draw commands.
//! Layers go back to front: background, road surface, lane dividers, buildings,
//! AI cars and obstacles in array order, the player car, the ghost car and the
//! weather overlay. Every command is clipped to the view's rectangle.
use crate::fixed::{div_trunc, light_level, light_of, sat_i16, saturate, scroll_phase, trunc_div, whole_units};
use crate::geometry::{
    clamp_int, column_of, lane_column, project, projection_of, row_of, screen_row, Projection,
    Rect, AI_FAR,
    AI_NEAR, BUILDING_FAR, BUILDING_NEAR, OBSTACLE_FAR, OBSTACLE_NEAR,
};
use crate::glyphs::{
    building_style_of, car_design_of, get_building_style, get_car_design, get_powerup_icon,
    get_road_char, get_track_name, get_track_style, get_weather_icon, powerup_icon_of,
    road_char_of, track_name_of, track_style_of, weather_icon_of, CarDesign,
};
use crate::state::GameState;
use crate::style::{blink_style, bold_style, fg_style, Color, Style};
use crate::widgets::{
    all_inside, drawn, gather, lemma_all_inside_concat, push_widget, put,
    put_spec, put_string, repeat_str, repeat_text, Drawn, Widget,
};
use vstd::prelude::*;

verus! {

/// Whole units of travelled distance (rounded toward zero), as the scroll
/// animations count them.
pub open spec fn travelled(distance: i64) -> int {
    whole_units(distance as int)
}

pub proof fn lemma_gather_step(before: Seq<Drawn>, n: int, f: spec_fn(int) -> Seq<Drawn>, now: Seq<Drawn>)
    requires
        n >= 0,
        now == before + gather(n, f) + f(n),
    ensures
        now == before + gather(n + 1, f),
{
    assert(gather(n + 1, f) == gather(n, f) + f(n));
    assert(now =~= before + gather(n + 1, f));
}

pub proof fn lemma_gather_inside(n: int, f: spec_fn(int) -> Seq<Drawn>, area: Rect)
    requires
        forall|k: int| 0 <= k < n ==> all_inside(#[trigger] f(k), area),
    ensures
        all_inside(gather(n, f), area),
    decreases n,
{
    if n > 0 {
        lemma_gather_inside(n - 1, f, area);
        lemma_all_inside_concat(gather(n - 1, f), f(n - 1), area);
    }
}

// ---- road surface

pub open spec fn road_row(area: Rect, glyph: Seq<char>, off: int, k: int) -> Seq<Drawn> {
    put_spec(
        area,
        area.x as int,
        area.y + (2 * k + off) % (area.height as int),
        area.width as int,
        1,
        repeat_text(glyph, area.width as int),
        fg_style(Color::DarkGray),
    )
}

pub open spec fn road_rows(area: Rect, glyph: Seq<char>, off: int) -> spec_fn(int) -> Seq<Drawn> {
    |k: int| road_row(area, glyph, off, k)
}

/// The road surface: every other row filled with the weather's road character,
/// scrolled by the travelled distance modulo 2.
pub open spec fn road_base_spec(area: Rect, weather: i32, distance: i64) -> Seq<Drawn> {
    gather(
        (area.height + 1) / 2,
        road_rows(area, road_char_of(weather)@, travelled(distance) % 2),
    )
}

pub fn render_road_base(out: &mut Vec<Widget>, area: Rect, state: &GameState)
    requires
        area.wf(),
    ensures
        drawn(final(out)@) == drawn(old(out)@) + road_base_spec(
            area,
            state.weather,
            state.player_distance,
        ),
{
    let road_char = get_road_char(state.weather);
    let off: u32 = scroll_phase(state.player_distance, 1, 2);
    let h: u32 = area.height as u32;
    let n: u32 = (h + 1) / 2;
    let line = repeat_str(road_char, area.width);
    let ghost f = road_rows(area, road_char@, off as int);
    let ghost before = drawn(out@);
    let mut k: u32 = 0;
    while k < n
        invariant
            area.wf(),
            k <= n,
            n == (h + 1) / 2,
            h == area.height,
            off < 2,
            line@ == repeat_text(road_char@, area.width as int),
            f == road_rows(area, road_char@, off as int),
            drawn(out@) == before + gather(k as int, f),
        decreases n - k,
    {
        let y: u32 = area.y as u32 + (2 * k + off) % h;
        put_string(out, area, area.x as i32, y as i32, area.width, 1, line.clone(), Style::fg(Color::DarkGray));
        proof {
            lemma_gather_step(before, k as int, f, drawn(out@));
        }
        k = k + 1;
    }
}

// ---- lane dividers

pub open spec fn marker_cell(area: Rect, lw: int, curve: int, off: int, k: int) -> Seq<Drawn> {
    let lane = 1 + k % 2;
    let y = area.y + (3 * (k / 2) + off) % (area.height as int);
    let cx = clamp_int(area.x + lane * lw + curve, area.x as int, area.right());
    put_spec(area, cx, y, 1, 2, "┃"@, fg_style(Color::White))
}

pub open spec fn marker_cells(area: Rect, lw: int, curve: int, off: int) -> spec_fn(int) -> Seq<Drawn> {
    |k: int| marker_cell(area, lw, curve, off, k)
}

/// Lane dividers between lanes 0/1 and 1/2 on every third row, shifted by the
/// curve and scrolled by twice the travelled distance modulo 6.
pub open spec fn lane_markers_spec(area: Rect, distance: i64, lw: int, curve: int) -> Seq<Drawn> {
    gather(2 * ((area.height + 2) / 3), marker_cells(area, lw, curve, (travelled(distance) * 2) % 6))
}

pub fn render_lane_markers(
    out: &mut Vec<Widget>,
    area: Rect,
    state: &GameState,
    lane_width: u16,
    curve: i16,
)
    requires
        area.wf(),
    ensures
        drawn(final(out)@) == drawn(old(out)@) + lane_markers_spec(
            area,
            state.player_distance,
            lane_width as int,
            curve as int,
        ),
{
    let off: u32 = scroll_phase(state.player_distance, 2, 6);
    let h: u32 = area.height as u32;
    let n: u32 = 2 * ((h + 2) / 3);
    let ghost f = marker_cells(area, lane_width as int, curve as int, off as int);
    let ghost before = drawn(out@);
    let mut k: u32 = 0;
    while k < n
        invariant
            area.wf(),
            k <= n,
            n == 2 * ((h + 2) / 3),
            h == area.height,
            off < 6,
            f == marker_cells(area, lane_width as int, curve as int, off as int),
            drawn(out@) == before + gather(k as int, f),
        decreases n - k,
    {
        let lane_off: i64 = if k % 2 == 0 { lane_width as i64 } else { 2 * lane_width as i64 };
        assert(lane_off == (1 + k % 2) * lane_width) by (nonlinear_arith)
            requires
                lane_off == if k % 2 == 0 { lane_width as int } else { 2 * lane_width },
                k % 2 == 0 || k % 2 == 1,
        ;
        let y: u32 = area.y as u32 + (3 * (k / 2) + off) % h;
        let base: i64 = area.x as i64 + lane_off + curve as i64;
        let lo: i64 = area.x as i64;
        let hi: i64 = area.x as i64 + area.width as i64;
        let c1: i64 = if base > hi { hi } else { base };
        let cx: i64 = if c1 < lo { lo } else { c1 };
        put(out, area, cx as i32, y as i32, 1, 2, "┃", Style::fg(Color::White));
        proof {
            lemma_gather_step(before, k as int, f, drawn(out@));
        }
        k = k + 1;
    }
}

// ---- weather

pub open spec fn rain_drop(area: Rect, off: int, rows: int, k: int) -> Seq<Drawn> {
    put_spec(
        area,
        area.x + 7 * (k / rows),
        area.y + (3 * (k % rows) + off) % (area.height as int),
        1,
        1,
        "·"@,
        fg_style(Color::Rgb(100, 150, 200)),
    )
}

pub open spec fn rain_drops(area: Rect, off: int, rows: int) -> spec_fn(int) -> Seq<Drawn> {
    |k: int| rain_drop(area, off, rows, k)
}

/// Rain: a drop every 7 columns and every 3 rows, column by column, scrolled down
/// by the travelled distance modulo 7.
pub open spec fn rain_spec(area: Rect, distance: i64) -> Seq<Drawn> {
    let rows = (area.height + 2) / 3;
    gather(((area.width + 6) / 7) * rows, rain_drops(area, travelled(distance) % 7, rows))
}

pub open spec fn streak(area: Rect, k: int) -> Seq<Drawn> {
    put_spec(area, area.x + 2, area.y + 4 * k, 3, 1, "━"@, fg_style(Color::Rgb(80, 80, 150)))
}

pub open spec fn streaks(area: Rect) -> spec_fn(int) -> Seq<Drawn> {
    |k: int| streak(area, k)
}

/// Slow motion: a streak near the left edge on every fourth row.
pub open spec fn slowmo_spec(area: Rect) -> Seq<Drawn> {
    gather((area.height + 3) / 4, streaks(area))
}

/// The weather overlay: rain when it rains, then the slow-motion streaks when active.
pub open spec fn weather_spec(area: Rect, s: GameState) -> Seq<Drawn> {
    (if s.weather == 1 { rain_spec(area, s.player_distance) } else { seq![] }) + (if s.slowmo_active {
        slowmo_spec(area)
    } else {
        seq![]
    })
}

pub fn render_rain(out: &mut Vec<Widget>, area: Rect, state: &GameState)
    requires
        area.wf(),
    ensures
        drawn(final(out)@) == drawn(old(out)@) + rain_spec(area, state.player_distance),
{
    let off: u64 = scroll_phase(state.player_distance, 1, 7) as u64;
    let h: u64 = area.height as u64;
    let rows: u64 = (h + 2) / 3;
    let cols: u64 = (area.width as u64 + 6) / 7;
    assert(cols * rows <= 0x1_0000 * 0x1_0000) by (nonlinear_arith)
        requires
            cols <= 0x1_0000,
            rows <= 0x1_0000,
    ;
    let n: u64 = cols * rows;
    let ghost f = rain_drops(area, off as int, rows as int);
    let ghost before = drawn(out@);
    let mut k: u64 = 0;
    while k < n
        invariant
            area.wf(),
            k <= n,
            n == cols * rows,
            rows == (h + 2) / 3,
            cols == (area.width + 6) / 7,
            h == area.height,
            off < 7,
            f == rain_drops(area, off as int, rows as int),
            drawn(out@) == before + gather(k as int, f),
        decreases n - k,
    {
        assert(rows > 0) by (nonlinear_arith)
            requires
                k < cols * rows,
                0 <= k,
                cols >= 0,
        ;
        let c: u64 = k / rows;
        let r: u64 = k % rows;
        assert(c < cols) by (nonlinear_arith)
            requires
                k < cols * rows,
                c == k / rows,
                rows > 0,
        ;
        let x: u64 = area.x as u64 + 7 * c;
        let y: u64 = area.y as u64 + (3 * r + off) % h;
        put(out, area, x as i32, y as i32, 1, 1, "·", Style::fg(Color::Rgb(100, 150, 200)));
        proof {
            lemma_gather_step(before, k as int, f, drawn(out@));
        }
        k = k + 1;
    }
}

pub fn render_slowmo_effect(out: &mut Vec<Widget>, area: Rect)
    requires
        area.wf(),
    ensures
        drawn(final(out)@) == drawn(old(out)@) + slowmo_spec(area),
{
    let n: u32 = (area.height as u32 + 3) / 4;
    let ghost f = streaks(area);
    let ghost before = drawn(out@);
    let mut k: u32 = 0;
    while k < n
        invariant
            area.wf(),
            k <= n,
            n == (area.height + 3) / 4,
            f == streaks(area),
            drawn(out@) == before + gather(k as int, f),
        decreases n - k,
    {
        put(
            out,
            area,
            area.x as i32 + 2,
            area.y as i32 + 4 * k as i32,
            3,
            1,
            "━",
            Style::fg(Color::Rgb(80, 80, 150)),
        );
        proof {
            lemma_gather_step(before, k as int, f, drawn(out@));
        }
        k = k + 1;
    }
}

pub fn render_weather_overlay(out: &mut Vec<Widget>, area: Rect, state: &GameState)
    requires
        area.wf(),
    ensures
        drawn(final(out)@) == drawn(old(out)@) + weather_spec(area, *state),
{
    let ghost before = drawn(out@);
    if state.weather == 1 {
        render_rain(out, area, state);
    }
    if state.slowmo_active {
        render_slowmo_effect(out, area);
    }
    assert(drawn(out@) =~= before + weather_spec(area, *state));
}

// ---- backgrounds

/// The mountain elevation in rows: five times the elevation, truncated into an `i16`.
pub open spec fn elevation_rows(elevation: i64) -> int {
    saturate(trunc_div(elevation * 5, 1000), -0x8000, 0x7fff)
}

pub open spec fn abs_int(v: int) -> int {
    if v < 0 { -v } else { v }
}

pub open spec fn peak(area: Rect, peak_y: int, k: int) -> Seq<Drawn> {
    put_spec(area, area.x + 5 * k, area.y + peak_y, 1, 1, "▲"@, fg_style(Color::Rgb(100, 100, 100)))
}

pub open spec fn peaks(area: Rect, peak_y: int) -> spec_fn(int) -> Seq<Drawn> {
    |k: int| peak(area, peak_y, k)
}

/// Mountain peaks every five columns, a third of the way down, lowered by the
/// elevation modulo 10.
pub open spec fn mountain_spec(area: Rect, elevation: i64) -> Seq<Drawn> {
    gather(
        (area.width + 4) / 5,
        peaks(area, area.height / 3 + abs_int(elevation_rows(elevation)) % 10),
    )
}

pub fn render_mountain_bg(out: &mut Vec<Widget>, area: Rect, elevation: i64)
    requires
        area.wf(),
    ensures
        drawn(final(out)@) == drawn(old(out)@) + mountain_spec(area, elevation),
{
    let e: i16 = sat_i16(div_trunc(elevation as i128 * 5, 1000));
    let abs_e: i32 = if e < 0 { -(e as i32) } else { e as i32 };
    let peak_y: i32 = (area.height / 3) as i32 + abs_e % 10;
    let n: u32 = (area.width as u32 + 4) / 5;
    let ghost f = peaks(area, peak_y as int);
    let ghost before = drawn(out@);
    let mut k: u32 = 0;
    while k < n
        invariant
            area.wf(),
            k <= n,
            n == (area.width + 4) / 5,
            0 <= peak_y <= 0x6000,
            f == peaks(area, peak_y as int),
            drawn(out@) == before + gather(k as int, f),
        decreases n - k,
    {
        put(
            out,
            area,
            area.x as i32 + 5 * k as i32,
            area.y as i32 + peak_y,
            1,
            1,
            "▲",
            Style::fg(Color::Rgb(100, 100, 100)),
        );
        proof {
            lemma_gather_step(before, k as int, f, drawn(out@));
        }
        k = k + 1;
    }
}

pub open spec fn cactus(area: Rect, phase: int, k: int) -> Seq<Drawn> {
    if phase < 3 {
        put_spec(area, area.x + 15 * k, area.bottom() - 8, 2, 1, "🌵"@, fg_style(Color::Green))
    } else {
        seq![]
    }
}

pub open spec fn cacti(area: Rect, phase: int) -> spec_fn(int) -> Seq<Drawn> {
    |k: int| cactus(area, phase, k)
}

/// Cacti eight rows above the bottom in every fifteenth column, shown while the
/// scroll phase (travelled distance modulo 15) is in the first three of its period.
pub open spec fn desert_spec(area: Rect, distance: i64) -> Seq<Drawn> {
    gather((area.width + 14) / 15, cacti(area, travelled(distance) % 15))
}

pub fn render_desert_bg(out: &mut Vec<Widget>, area: Rect, distance: i64)
    requires
        area.wf(),
    ensures
        drawn(final(out)@) == drawn(old(out)@) + desert_spec(area, distance),
{
    let phase: u32 = scroll_phase(distance, 1, 15);
    let n: u32 = (area.width as u32 + 14) / 15;
    let ghost f = cacti(area, phase as int);
    let ghost before = drawn(out@);
    let mut k: u32 = 0;
    while k < n
        invariant
            area.wf(),
            k <= n,
            n == (area.width + 14) / 15,
            f == cacti(area, phase as int),
            drawn(out@) == before + gather(k as int, f),
        decreases n - k,
    {
        if phase < 3 {
            put(
                out,
                area,
                area.x as i32 + 15 * k as i32,
                area.y as i32 + area.height as i32 - 8,
                2,
                1,
                "🌵",
                Style::fg(Color::Green),
            );
        }
        proof {
            lemma_gather_step(before, k as int, f, drawn(out@));
        }
        k = k + 1;
    }
}

pub open spec fn wall_row(area: Rect, light_off: int, light: Color, y: int) -> Seq<Drawn> {
    let wall = fg_style(Color::Rgb(40, 40, 40));
    put_spec(area, area.x as int, area.y + y, 1, 1, "▌"@, wall) + put_spec(
        area,
        area.right() - 1,
        area.y + y,
        1,
        1,
        "▐"@,
        wall,
    ) + if y % 10 == light_off {
        put_spec(area, area.x + area.width / 2, area.y + y, 1, 1, "•"@, fg_style(light))
    } else {
        seq![]
    }
}

pub open spec fn wall_rows(area: Rect, light_off: int, light: Color) -> spec_fn(int) -> Seq<Drawn> {
    |y: int| wall_row(area, light_off, light, y)
}

/// The light color in a tunnel of the given darkness (thousandths).
pub open spec fn tunnel_light_of(darkness: i64) -> Color {
    Color::Rgb(light_of(darkness, 255), light_of(darkness, 255), light_of(darkness, 200))
}

/// Tunnel walls on both edges of every row, with a ceiling light in the middle
/// every ten rows, scrolled by the travelled distance.
pub open spec fn tunnel_spec(area: Rect, darkness: i64, distance: i64) -> Seq<Drawn> {
    gather(area.height as int, wall_rows(area, travelled(distance) % 10, tunnel_light_of(darkness)))
}

pub fn render_tunnel_walls(out: &mut Vec<Widget>, area: Rect, state: &GameState, distance: i64)
    requires
        area.wf(),
    ensures
        drawn(final(out)@) == drawn(old(out)@) + tunnel_spec(area, state.tunnel_darkness, distance),
{
    let light_off: u32 = scroll_phase(distance, 1, 10);
    let light = Color::Rgb(
        light_level(state.tunnel_darkness, 255),
        light_level(state.tunnel_darkness, 255),
        light_level(state.tunnel_darkness, 200),
    );
    let wall = Style::fg(Color::Rgb(40, 40, 40));
    let n: u32 = area.height as u32;
    let ghost f = wall_rows(area, light_off as int, light);
    let ghost before = drawn(out@);
    let mut y: u32 = 0;
    while y < n
        invariant
            area.wf(),
            y <= n,
            n == area.height,
            wall == fg_style(Color::Rgb(40, 40, 40)),
            f == wall_rows(area, light_off as int, light),
            drawn(out@) == before + gather(y as int, f),
        decreases n - y,
    {
        let ghost start = drawn(out@);
        let row: i32 = area.y as i32 + y as i32;
        put(out, area, area.x as i32, row, 1, 1, "▌", wall);
        put(out, area, area.x as i32 + area.width as i32 - 1, row, 1, 1, "▐", wall);
        if y % 10 == light_off {
            put(out, area, area.x as i32 + (area.width / 2) as i32, row, 1, 1, "•", Style::fg(light));
        }
        proof {
            assert(drawn(out@) =~= start + f(y as int));
            lemma_gather_step(before, y as int, f, drawn(out@));
        }
        y = y + 1;
    }
}


// ---- buildings

pub open spec fn building_row(area: Rect, x: int, y: int, btype: i32, j: int) -> Seq<Drawn> {
    put_spec(area, x, y - j, 6, 1, building_style_of(btype).0@, fg_style(building_style_of(btype).1))
        + if j % 2 == 0 && btype == 1 {
        put_spec(area, x + 2, y - j, 2, 1, "▫▫"@, fg_style(Color::Yellow))
    } else {
        seq![]
    }
}

pub open spec fn building_rows(area: Rect, x: int, y: int, btype: i32) -> spec_fn(int) -> Seq<Drawn> {
    |j: int| building_row(area, x, y, btype, j)
}

/// A building: up to ten rows of its character run stacked upward from row `y`;
/// glass buildings get windows on every other row.
pub open spec fn building_spec(area: Rect, x: int, y: int, height: int, btype: i32) -> Seq<Drawn> {
    gather(clamp_int(height, 0, 10), building_rows(area, x, y, btype))
}

pub fn render_building(out: &mut Vec<Widget>, area: Rect, x: i32, y: i32, height: u16, btype: i32)
    requires
        area.wf(),
        -0x10000 <= x <= 0x10000,
        -0x10000 <= y <= 0x10000,
    ensures
        drawn(final(out)@) == drawn(old(out)@) + building_spec(area, x as int, y as int, height as int, btype),
{
    let (char_set, color) = get_building_style(btype);
    let n: u16 = if height > 10 { 10 } else { height };
    let ghost f = building_rows(area, x as int, y as int, btype);
    let ghost before = drawn(out@);
    let mut j: u16 = 0;
    while j < n
        invariant
            area.wf(),
            -0x10000 <= x <= 0x10000,
            -0x10000 <= y <= 0x10000,
            j <= n <= 10,
            n == clamp_int(height as int, 0, 10),
            char_set == building_style_of(btype).0,
            color == building_style_of(btype).1,
            f == building_rows(area, x as int, y as int, btype),
            drawn(out@) == before + gather(j as int, f),
        decreases n - j,
    {
        let ghost start = drawn(out@);
        put(out, area, x, y - j as i32, 6, 1, char_set, Style::fg(color));
        if j % 2 == 0 && btype == 1 {
            put(out, area, x + 2, y - j as i32, 2, 1, "▫▫", Style::fg(Color::Yellow));
        }
        proof {
            assert(drawn(out@) =~= start + f(j as int));
            lemma_gather_step(before, j as int, f, drawn(out@));
        }
        j = j + 1;
    }
}

pub open spec fn building_at(area: Rect, s: GameState, pd: i64, i: int) -> Seq<Drawn> {
    let rel = s.building_distances@[i] - pd;
    if BUILDING_NEAR < rel < BUILDING_FAR && row_of(area, rel, BUILDING_NEAR as int, BUILDING_FAR as int)
        < area.bottom() {
        building_spec(
            area,
            if s.building_positions@[i] < 0 { area.x as int } else { area.right() - 8 },
            row_of(area, rel, BUILDING_NEAR as int, BUILDING_FAR as int),
            clamp_int(s.building_heights@[i] as int, 0, 15),
            s.building_types@[i],
        )
    } else {
        seq![]
    }
}

pub open spec fn buildings_at(area: Rect, s: GameState, pd: i64) -> spec_fn(int) -> Seq<Drawn> {
    |i: int| building_at(area, s, pd, i)
}

/// The buildings in array order: those inside their visibility window stand on
/// the left edge (negative side) or eight cells from the right edge.
pub open spec fn buildings_spec(area: Rect, s: GameState, pd: i64) -> Seq<Drawn> {
    gather(s.building_len(), buildings_at(area, s, pd))
}

pub fn render_buildings(out: &mut Vec<Widget>, area: Rect, state: &GameState, player_dist: i64)
    requires
        area.wf(),
    ensures
        drawn(final(out)@) == drawn(old(out)@) + buildings_spec(area, *state, player_dist),
{
    let n = state.building_entities();
    let ghost f = buildings_at(area, *state, player_dist);
    let ghost before = drawn(out@);
    let mut i: usize = 0;
    while i < n
        invariant
            area.wf(),
            i <= n,
            n == state.building_len(),
            f == buildings_at(area, *state, player_dist),
            drawn(out@) == before + gather(i as int, f),
        decreases n - i,
    {
        let ghost start = drawn(out@);
        let rel: i128 = state.building_distances[i] as i128 - player_dist as i128;
        if (BUILDING_NEAR as i128) < rel && rel < (BUILDING_FAR as i128) {
            let y = screen_row(area, rel, BUILDING_NEAR, BUILDING_FAR);
            if (y as i64) < area.y as i64 + area.height as i64 {
                let hgt = state.building_heights[i];
                let height: u16 = if hgt < 0 { 0 } else if hgt > 15 { 15 } else { hgt as u16 };
                let x: i32 = if state.building_positions[i] < 0 {
                    area.x as i32
                } else {
                    area.x as i32 + area.width as i32 - 8
                };
                render_building(out, area, x, y, height, state.building_types[i]);
            }
        }
        proof {
            assert(drawn(out@) =~= start + f(i as int));
            lemma_gather_step(before, i as int, f, drawn(out@));
        }
        i = i + 1;
    }
}

// ---- cars and obstacles

/// The four art rows of a car sprite at `(x, y)`, each seven cells wide.
pub open spec fn art_rows(area: Rect, x: int, y: int, d: CarDesign, st: Style) -> Seq<Drawn> {
    put_spec(area, x, y, 7, 1, d.art@[0]@, st) + put_spec(area, x, y + 1, 7, 1, d.art@[1]@, st)
        + put_spec(area, x, y + 2, 7, 1, d.art@[2]@, st) + put_spec(area, x, y + 3, 7, 1, d.art@[3]@, st)
}

pub open spec fn sprite_style(c: Color, boss: bool) -> Style {
    Style { fg: Some(c), bg: None, bold: true, rapid_blink: boss, dim: false }
}

pub open spec fn badge_style(c: Color) -> Style {
    Style { fg: Some(Color::Black), bg: Some(c), bold: true, rapid_blink: false, dim: false }
}

/// An AI car: its art in its color (blinking for a boss), then its label on the
/// bottom row in black on the car's color.
pub open spec fn car_sprite(area: Rect, x: int, y: int, d: CarDesign, boss: bool) -> Seq<Drawn> {
    art_rows(area, x, y, d, sprite_style(d.color, boss)) + if d.label@.len() > 0 {
        put_spec(area, x + 1, y + 3, 5, 1, d.label@, badge_style(d.color))
    } else {
        seq![]
    }
}

pub fn render_art(out: &mut Vec<Widget>, area: Rect, x: i32, y: i32, design: &CarDesign, st: Style)
    requires
        area.wf(),
        -0x10000 <= x <= 0x10000,
        -0x10000 <= y <= 0x10000,
    ensures
        drawn(final(out)@) == drawn(old(out)@) + art_rows(area, x as int, y as int, *design, st),
{
    let ghost before = drawn(out@);
    put(out, area, x, y, 7, 1, design.art[0], st);
    put(out, area, x, y + 1, 7, 1, design.art[1], st);
    put(out, area, x, y + 2, 7, 1, design.art[2], st);
    put(out, area, x, y + 3, 7, 1, design.art[3], st);
    assert(drawn(out@) =~= before + art_rows(area, x as int, y as int, *design, st));
}

pub fn render_car(out: &mut Vec<Widget>, area: Rect, x: u16, y: u16, car_type: i32, is_boss: bool)
    requires
        area.wf(),
    ensures
        drawn(final(out)@) == drawn(old(out)@) + car_sprite(
            area,
            x as int,
            y as int,
            car_design_of(car_type, is_boss),
            is_boss,
        ),
{
    let ghost before = drawn(out@);
    let design = get_car_design(car_type, is_boss);
    let st = Style { fg: Some(design.color), bg: None, bold: true, rapid_blink: is_boss, dim: false };
    render_art(out, area, x as i32, y as i32, &design, st);
    if !design.label.is_empty() {
        let badge = Style {
            fg: Some(Color::Black),
            bg: Some(design.color),
            bold: true,
            rapid_blink: false,
            dim: false,
        };
        put(out, area, x as i32 + 1, y as i32 + 3, 5, 1, design.label, badge);
    }
    assert(drawn(out@) =~= before + car_sprite(area, x as int, y as int, design, is_boss));
}

pub open spec fn ai_car_at(area: Rect, s: GameState, lw: int, curve: int, pd: i64, i: int) -> Seq<Drawn> {
    match projection_of(area, s.ai_distances@[i] - pd, AI_NEAR as int, AI_FAR as int, s.ai_positions@[i] as int, lw, 7, curve) {
        Projection::Visible { x, y } => car_sprite(
            area,
            x as int,
            y as int,
            car_design_of(s.ai_types@[i], s.ai_is_boss@[i]),
            s.ai_is_boss@[i],
        ),
        Projection::Hidden => seq![],
    }
}

pub open spec fn ai_cars_at(area: Rect, s: GameState, lw: int, curve: int, pd: i64) -> spec_fn(int) -> Seq<Drawn> {
    |i: int| ai_car_at(area, s, lw, curve, pd, i)
}

/// The AI cars in array order, each projected through the AI visibility window.
pub open spec fn ai_cars_spec(area: Rect, s: GameState, lw: int, curve: int, pd: i64) -> Seq<Drawn> {
    gather(s.ai_count(), ai_cars_at(area, s, lw, curve, pd))
}

pub open spec fn obstacle_at(area: Rect, s: GameState, lw: int, curve: int, pd: i64, i: int) -> Seq<Drawn> {
    match projection_of(area, s.obstacle_distances@[i] - pd, OBSTACLE_NEAR as int, OBSTACLE_FAR as int, s.obstacle_positions@[i] as int, lw, 2, curve) {
        Projection::Visible { x, y } => powerup_spec(area, x as int, y as int, s.obstacle_types@[i]),
        Projection::Hidden => seq![],
    }
}

pub open spec fn obstacles_at(area: Rect, s: GameState, lw: int, curve: int, pd: i64) -> spec_fn(int) -> Seq<Drawn> {
    |i: int| obstacle_at(area, s, lw, curve, pd, i)
}

/// The obstacles and powerups in array order, each projected through the obstacle
/// visibility window.
pub open spec fn obstacles_spec(area: Rect, s: GameState, lw: int, curve: int, pd: i64) -> Seq<Drawn> {
    gather(s.obstacle_len(), obstacles_at(area, s, lw, curve, pd))
}

/// The AI cars, then the obstacles.
pub open spec fn objects_spec(area: Rect, s: GameState, lw: int, curve: int, pd: i64) -> Seq<Drawn> {
    ai_cars_spec(area, s, lw, curve, pd) + obstacles_spec(area, s, lw, curve, pd)
}

/// An obstacle or powerup icon, two cells wide, bold in its color.
pub open spec fn powerup_spec(area: Rect, x: int, y: int, ptype: i32) -> Seq<Drawn> {
    put_spec(area, x, y, 2, 1, powerup_icon_of(ptype).0@, bold_style(powerup_icon_of(ptype).1))
}

pub fn render_powerup(out: &mut Vec<Widget>, area: Rect, x: u16, y: u16, ptype: i32)
    requires
        area.wf(),
    ensures
        drawn(final(out)@) == drawn(old(out)@) + powerup_spec(area, x as int, y as int, ptype),
{
    let (icon, color) = get_powerup_icon(ptype);
    put(out, area, x as i32, y as i32, 2, 1, icon, Style::bold(color));
}

pub fn render_ai_cars(out: &mut Vec<Widget>, area: Rect, state: &GameState, lane_width: u16, curve: i16, player_dist: i64)
    requires
        area.wf(),
    ensures
        drawn(final(out)@) == drawn(old(out)@) + ai_cars_spec(area, *state, lane_width as int, curve as int, player_dist),
{
    let n = state.ai_entities();
    let ghost f = ai_cars_at(area, *state, lane_width as int, curve as int, player_dist);
    let ghost before = drawn(out@);
    let mut i: usize = 0;
    while i < n
        invariant
            area.wf(),
            i <= n,
            n == state.ai_count(),
            f == ai_cars_at(area, *state, lane_width as int, curve as int, player_dist),
            drawn(out@) == before + gather(i as int, f),
        decreases n - i,
    {
        let ghost start = drawn(out@);
        let rel: i128 = state.ai_distances[i] as i128 - player_dist as i128;
        match project(area, rel, AI_NEAR, AI_FAR, state.ai_positions[i], lane_width, 7, curve) {
            Projection::Visible { x, y } => {
                render_car(out, area, x, y, state.ai_types[i], state.ai_is_boss[i]);
            },
            Projection::Hidden => {},
        }
        proof {
            assert(drawn(out@) =~= start + f(i as int));
            lemma_gather_step(before, i as int, f, drawn(out@));
        }
        i = i + 1;
    }
}

pub fn render_obstacles(out: &mut Vec<Widget>, area: Rect, state: &GameState, lane_width: u16, curve: i16, player_dist: i64)
    requires
        area.wf(),
    ensures
        drawn(final(out)@) == drawn(old(out)@) + obstacles_spec(area, *state, lane_width as int, curve as int, player_dist),
        state.obstacle_count <= 0 ==> drawn(final(out)@) == drawn(old(out)@),
{
    let n = state.obstacle_entities();
    let ghost f = obstacles_at(area, *state, lane_width as int, curve as int, player_dist);
    let ghost before = drawn(out@);
    let mut i: usize = 0;
    while i < n
        invariant
            area.wf(),
            i <= n,
            n == state.obstacle_len(),
            f == obstacles_at(area, *state, lane_width as int, curve as int, player_dist),
            drawn(out@) == before + gather(i as int, f),
        decreases n - i,
    {
        let ghost start = drawn(out@);
        let rel: i128 = state.obstacle_distances[i] as i128 - player_dist as i128;
        match project(area, rel, OBSTACLE_NEAR, OBSTACLE_FAR, state.obstacle_positions[i], lane_width, 2, curve) {
            Projection::Visible { x, y } => {
                render_powerup(out, area, x, y, state.obstacle_types[i]);
            },
            Projection::Hidden => {},
        }
        proof {
            assert(drawn(out@) =~= start + f(i as int));
            lemma_gather_step(before, i as int, f, drawn(out@));
        }
        i = i + 1;
    }
    assert(state.obstacle_count <= 0 ==> drawn(out@) =~= before);
}

/// Draws the AI cars, then the obstacles and powerups, each through its
/// visibility window.
pub fn render_objects(out: &mut Vec<Widget>, area: Rect, state: &GameState, lane_width: u16, curve: i16, player_dist: i64)
    requires
        area.wf(),
    ensures
        drawn(final(out)@) == drawn(old(out)@) + objects_spec(area, *state, lane_width as int, curve as int, player_dist),
{
    let ghost before = drawn(out@);
    render_ai_cars(out, area, state, lane_width, curve, player_dist);
    render_obstacles(out, area, state, lane_width, curve, player_dist);
    assert(drawn(out@) =~= before + objects_spec(area, *state, lane_width as int, curve as int, player_dist));
}


// ---- player and ghost

/// The player car's color: invincibility over boost over shield; otherwise green
/// for the primary player and the car type's own color for the other.
pub open spec fn player_color_of(s: GameState, base: Color, is_p1: bool) -> Color {
    if s.invincibility_active {
        Color::Yellow
    } else if s.boost_active {
        Color::Magenta
    } else if s.shield_active {
        Color::Cyan
    } else if is_p1 {
        Color::Green
    } else {
        base
    }
}

/// The player car's color under the active powerups.
pub fn player_color(state: &GameState, base: Color, is_p1: bool) -> (r: Color)
    ensures
        r == player_color_of(*state, base, is_p1),
{
    if state.invincibility_active {
        Color::Yellow
    } else if state.boost_active {
        Color::Magenta
    } else if state.shield_active {
        Color::Cyan
    } else if is_p1 {
        Color::Green
    } else {
        base
    }
}

pub open spec fn dec_sat(v: int) -> int {
    if v >= 1 { v - 1 } else { 0 }
}

/// The player car, seven rows above the bottom edge on its lane, then the effects
/// of its active powerups: boost flames, shield ring, invincibility sparkle, magnet.
pub open spec fn player_spec(
    area: Rect,
    s: GameState,
    position: i32,
    lw: int,
    curve: int,
    car_type: i32,
    is_p1: bool,
) -> Seq<Drawn> {
    let x = column_of(area, position as int, lw, 7, curve);
    let y = area.bottom() - 7;
    let d = car_design_of(car_type, false);
    art_rows(area, x, y, d, bold_style(player_color_of(s, d.color, is_p1))) + (if s.boost_active {
        put_spec(area, x + 1, y + 4, 4, 1, "🔥🔥"@, blink_style(Color::Red))
    } else {
        seq![]
    }) + (if s.shield_active {
        put_spec(area, dec_sat(x), dec_sat(y), 9, 1, " ◯◯◯ "@, bold_style(Color::Cyan))
    } else {
        seq![]
    }) + (if s.invincibility_active {
        put_spec(area, dec_sat(x), dec_sat(y), 9, 1, "✨⭐✨"@, blink_style(Color::Yellow))
    } else {
        seq![]
    }) + (if s.magnet_active {
        put_spec(area, x + 6, y + 1, 2, 1, "🧲"@, fg_style(Color::Red))
    } else {
        seq![]
    })
}

pub fn render_player(
    out: &mut Vec<Widget>,
    area: Rect,
    state: &GameState,
    position: i32,
    lane_width: u16,
    curve: i16,
    car_type: i32,
    is_p1: bool,
)
    requires
        area.wf(),
    ensures
        drawn(final(out)@) == drawn(old(out)@) + player_spec(
            area,
            *state,
            position,
            lane_width as int,
            curve as int,
            car_type,
            is_p1,
        ),
{
    let ghost before = drawn(out@);
    let ghost s = *state;
    let x = lane_column(area, position, lane_width, 7, curve);
    let y: i32 = area.y as i32 + area.height as i32 - 7;
    let ghost (gx, gy) = (x as int, y as int);
    let design = get_car_design(car_type, false);
    let color = player_color(state, design.color, is_p1);
    render_art(out, area, x, y, &design, Style::bold(color));
    let ghost acc = art_rows(area, gx, gy, design, bold_style(color));
    let ghost l1 = if s.boost_active {
        put_spec(area, gx + 1, gy + 4, 4, 1, "🔥🔥"@, blink_style(Color::Red))
    } else {
        seq![]
    };
    if state.boost_active {
        put(out, area, x + 1, y + 4, 4, 1, "🔥🔥", Style::blink(Color::Red));
    } else {
        assert(drawn(out@) =~= before + acc + l1);
    }
    proof {
        lemma_extend(before, acc, l1, drawn(out@));
        acc = acc + l1;
    }
    let sx: i32 = if x >= 1 { x - 1 } else { 0 };
    let sy: i32 = if y >= 1 { y - 1 } else { 0 };
    let ghost l2 = if s.shield_active {
        put_spec(area, dec_sat(gx), dec_sat(gy), 9, 1, " ◯◯◯ "@, bold_style(Color::Cyan))
    } else {
        seq![]
    };
    if state.shield_active {
        put(out, area, sx, sy, 9, 1, " ◯◯◯ ", Style::bold(Color::Cyan));
    } else {
        assert(drawn(out@) =~= before + acc + l2);
    }
    proof {
        lemma_extend(before, acc, l2, drawn(out@));
        acc = acc + l2;
    }
    let ghost l3 = if s.invincibility_active {
        put_spec(area, dec_sat(gx), dec_sat(gy), 9, 1, "✨⭐✨"@, blink_style(Color::Yellow))
    } else {
        seq![]
    };
    if state.invincibility_active {
        put(out, area, sx, sy, 9, 1, "✨⭐✨", Style::blink(Color::Yellow));
    } else {
        assert(drawn(out@) =~= before + acc + l3);
    }
    proof {
        lemma_extend(before, acc, l3, drawn(out@));
        acc = acc + l3;
    }
    let ghost l4 = if s.magnet_active {
        put_spec(area, gx + 6, gy + 1, 2, 1, "🧲"@, fg_style(Color::Red))
    } else {
        seq![]
    };
    if state.magnet_active {
        put(out, area, x + 6, y + 1, 2, 1, "🧲", Style::fg(Color::Red));
    } else {
        assert(drawn(out@) =~= before + acc + l4);
    }
    proof {
        lemma_extend(before, acc, l4, drawn(out@));
        acc = acc + l4;
        assert(acc == player_spec(area, s, position, lane_width as int, curve as int, car_type, is_p1));
    }
}

pub open spec fn ghost_style() -> Style {
    Style { fg: Some(Color::Rgb(150, 150, 200)), bg: None, bold: false, rapid_blink: false, dim: true }
}

/// The ghost car: the player's car art, dimmed, at the recorded ghost position,
/// projected through the AI visibility window.
pub open spec fn ghost_sprite_spec(area: Rect, s: GameState, lw: int, curve: int, pd: i64) -> Seq<Drawn> {
    match projection_of(area, s.ghost_distance - pd, AI_NEAR as int, AI_FAR as int, s.ghost_position as int, lw, 7, curve) {
        Projection::Visible { x, y } => art_rows(area, x as int, y as int, car_design_of(s.player_car_type, false), ghost_style()),
        Projection::Hidden => seq![],
    }
}

pub fn render_ghost(out: &mut Vec<Widget>, area: Rect, state: &GameState, lane_width: u16, curve: i16, player_dist: i64)
    requires
        area.wf(),
    ensures
        drawn(final(out)@) == drawn(old(out)@) + ghost_sprite_spec(area, *state, lane_width as int, curve as int, player_dist),
{
    let ghost before = drawn(out@);
    let rel: i128 = state.ghost_distance as i128 - player_dist as i128;
    match project(area, rel, AI_NEAR, AI_FAR, state.ghost_position, lane_width, 7, curve) {
        Projection::Visible { x, y } => {
            let design = get_car_design(state.player_car_type, false);
            let st = Style { fg: Some(Color::Rgb(150, 150, 200)), bg: None, bold: false, rapid_blink: false, dim: true };
            render_art(out, area, x as i32, y as i32, &design, st);
        },
        Projection::Hidden => {
            assert(drawn(out@) =~= before + seq![]);
        },
    }
}

// ---- the track view

/// The curve multiplier of a track type, in tenths.
pub open spec fn curve_tenths(track_type: i32) -> int {
    if track_type == 1 {
        20
    } else if track_type == 2 {
        40
    } else if track_type == 3 {
        25
    } else if track_type == 4 {
        15
    } else {
        30
    }
}

/// The lateral shift in cells: the curve offset (thousandths) times the track's
/// multiplier, truncated into an `i16`.
pub open spec fn curve_of(track_type: i32, curve_offset: i64) -> int {
    saturate(trunc_div(curve_offset * curve_tenths(track_type), 10000), -0x8000, 0x7fff)
}

pub fn track_curve(track_type: i32, curve_offset: i64) -> (r: i16)
    ensures
        r == curve_of(track_type, curve_offset),
{
    let tenths: i128 = if track_type == 1 {
        20
    } else if track_type == 2 {
        40
    } else if track_type == 3 {
        25
    } else if track_type == 4 {
        15
    } else {
        30
    };
    assert(-0x8000_0000_0000_0000 * 40 <= curve_offset * tenths <= 0x8000_0000_0000_0000 * 40)
        by (nonlinear_arith)
        requires
            -0x8000_0000_0000_0000 <= curve_offset < 0x8000_0000_0000_0000,
            15 <= tenths <= 40,
    ;
    sat_i16(div_trunc(curve_offset as i128 * tenths, 10000))
}

/// The title in the track block's border: track name, weather, and a replay tag.
pub open spec fn track_title(s: GameState) -> Seq<char> {
    "═══ "@ + track_name_of(s.track_type)@ + " ═══ "@ + weather_icon_of(s.weather)@ + if s.replay_mode {
        " ═══ [REPLAY] ═══"@
    } else {
        " ═══"@
    }
}

/// The track type's background: peaks, cacti or tunnel walls; none on the highway
/// and in the city.
pub open spec fn background_spec(area: Rect, s: GameState, pd: i64) -> Seq<Drawn> {
    if s.track_type == 2 {
        mountain_spec(area, s.elevation)
    } else if s.track_type == 3 {
        desert_spec(area, pd)
    } else if s.track_type == 4 {
        tunnel_spec(area, s.tunnel_darkness, pd)
    } else {
        seq![]
    }
}

/// The layers inside the track block, back to front, for a viewer on lane `pos`
/// at distance `pd`.
pub open spec fn track_layers(area: Rect, s: GameState, pos: i32, pd: i64) -> Seq<Drawn> {
    let lw = (area.width / 3) as int;
    let curve = curve_of(s.track_type, s.curve_offset);
    background_spec(area, s, pd) + road_base_spec(area, s.weather, s.player_distance)
        + lane_markers_spec(area, s.player_distance, lw, curve) + (if s.track_type == 1 {
        buildings_spec(area, s, pd)
    } else {
        seq![]
    }) + objects_spec(area, s, lw, curve, pd) + player_spec(area, s, pos, lw, curve, s.player_car_type, true)
        + (if s.replay_mode && s.ghost_distance > 0 {
        ghost_sprite_spec(area, s, lw, curve, pd)
    } else {
        seq![]
    }) + weather_spec(area, s)
}

/// The whole track view: the titled block over `area`, then the layers inside it.
pub open spec fn track_spec(area: Rect, s: GameState, pos: i32, pd: i64) -> Seq<Drawn> {
    seq![
        Drawn::Block {
            area,
            title: track_title(s),
            style: track_style_of(s.track_type, s.weather, s.tunnel_darkness),
        },
    ] + track_layers(area.inner_spec(), s, pos, pd)
}

pub fn track_title_text(state: &GameState) -> (r: String)
    ensures
        r@ == track_title(*state),
{
    let mut t = String::from_str("═══ ");
    t.append(get_track_name(state.track_type));
    t.append(" ═══ ");
    t.append(get_weather_icon(state.weather));
    if state.replay_mode {
        t.append(" ═══ [REPLAY] ═══");
    } else {
        t.append(" ═══");
    }
    t
}

pub proof fn lemma_extend(s0: Seq<Drawn>, acc: Seq<Drawn>, layer: Seq<Drawn>, now: Seq<Drawn>)
    requires
        now == s0 + acc + layer,
    ensures
        now == s0 + (acc + layer),
{
    vstd::seq_lib::lemma_concat_associative(s0, acc, layer);
}

/// Draws the layers of the track view inside `area`, back to front.
pub fn render_layers(out: &mut Vec<Widget>, area: Rect, state: &GameState, player_pos: i32, player_dist: i64)
    requires
        area.wf(),
    ensures
        drawn(final(out)@) == drawn(old(out)@) + track_layers(area, *state, player_pos, player_dist),
{
    let ghost s = *state;
    let ghost s0 = drawn(out@);
    let lane_width = area.width / 3;
    let curve = track_curve(state.track_type, state.curve_offset);
    let ghost lw = lane_width as int;
    let ghost cv = curve as int;
    if state.track_type == 2 {
        render_mountain_bg(out, area, state.elevation);
    } else if state.track_type == 3 {
        render_desert_bg(out, area, player_dist);
    } else if state.track_type == 4 {
        render_tunnel_walls(out, area, state, player_dist);
    }
    let ghost acc = background_spec(area, s, player_dist);
    assert(drawn(out@) == s0 + acc) by {
        if s.track_type != 2 && s.track_type != 3 && s.track_type != 4 {
            assert(s0 + acc =~= s0);
        }
    }
    render_road_base(out, area, state);
    proof {
        lemma_extend(s0, acc, road_base_spec(area, s.weather, s.player_distance), drawn(out@));
        acc = acc + road_base_spec(area, s.weather, s.player_distance);
    }
    render_lane_markers(out, area, state, lane_width, curve);
    proof {
        lemma_extend(s0, acc, lane_markers_spec(area, s.player_distance, lw, cv), drawn(out@));
        acc = acc + lane_markers_spec(area, s.player_distance, lw, cv);
    }
    let ghost city = if s.track_type == 1 { buildings_spec(area, s, player_dist) } else { seq![] };
    if state.track_type == 1 {
        render_buildings(out, area, state, player_dist);
    } else {
        assert(drawn(out@) =~= s0 + acc + city);
    }
    proof {
        lemma_extend(s0, acc, city, drawn(out@));
        acc = acc + city;
    }
    render_objects(out, area, state, lane_width, curve, player_dist);
    proof {
        lemma_extend(s0, acc, objects_spec(area, s, lw, cv, player_dist), drawn(out@));
        acc = acc + objects_spec(area, s, lw, cv, player_dist);
    }
    render_player(out, area, state, player_pos, lane_width, curve, state.player_car_type, true);
    proof {
        lemma_extend(s0, acc, player_spec(area, s, player_pos, lw, cv, s.player_car_type, true), drawn(out@));
        acc = acc + player_spec(area, s, player_pos, lw, cv, s.player_car_type, true);
    }
    let ghost ghost_layer = if s.replay_mode && s.ghost_distance > 0 {
        ghost_sprite_spec(area, s, lw, cv, player_dist)
    } else {
        seq![]
    };
    if state.replay_mode && state.ghost_distance > 0 {
        render_ghost(out, area, state, lane_width, curve, player_dist);
    } else {
        assert(drawn(out@) =~= s0 + acc + ghost_layer);
    }
    proof {
        lemma_extend(s0, acc, ghost_layer, drawn(out@));
        acc = acc + ghost_layer;
    }
    render_weather_overlay(out, area, state);
    proof {
        lemma_extend(s0, acc, weather_spec(area, s), drawn(out@));
        acc = acc + weather_spec(area, s);
        assert(acc == track_layers(area, s, player_pos, player_dist));
    }
}

/// Draws the track view for a viewer on lane `player_pos` at distance `player_dist`
/// (thousandths) into `area`.
pub fn render_track(
    out: &mut Vec<Widget>,
    area: Rect,
    state: &GameState,
    player_pos: i32,
    player_dist: i64,
)
    requires
        area.wf(),
    ensures
        drawn(final(out)@) == drawn(old(out)@) + track_spec(area, *state, player_pos, player_dist),
{
    let ghost before = drawn(out@);
    let title = track_title_text(state);
    let style = get_track_style(state.track_type, state.weather, state.tunnel_darkness);
    push_widget(out, Widget::Block { area, title, style });
    let inner = area.inner();
    render_layers(out, inner, state, player_pos, player_dist);
    assert(drawn(out@) =~= before + track_spec(area, *state, player_pos, player_dist));
}

} // verus!
