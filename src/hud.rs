//! HUD panels: score, combo, health, level, speed and powerup gauges, the
//! per-player split-screen panels, career and replay panels, and the menu.
use crate::fixed::{div_trunc, saturate, trunc_div};
use crate::geometry::{all_within, lemma_within_concat, lemma_within_widen, split, Constraint, Rect};
use crate::glyphs::{combo_color_of, get_combo_color, get_health_color, health_color_of};
use crate::state::GameState;
use crate::style::{blink_style, bold_style, fg_style, Color, Style};
use crate::text::{
    decimal_of, hundredths_of, hundredths_text, padded_of, rounded_text, rounded_whole, zero_padded,
};
use crate::widgets::{drawn, push_widget, Drawn, ListLine, Widget};
use vstd::prelude::*;

verus! {

/// The gauge fill of a health value: the value clamped into `[0, 100]`.
pub open spec fn health_percent_of(health: i32) -> u16 {
    saturate(health as int, 0, 100) as u16
}

/// The speed gauge fill: speed over the top speed (250 when boosting, else 200)
/// in percent, truncated and clamped into `[0, 100]`; speed is in thousandths.
pub open spec fn speed_percent_of(speed: i64, boosting: bool) -> u16 {
    saturate(trunc_div(speed * 100, if boosting { 250000 } else { 200000 }), 0, 100) as u16
}

/// The speed gauge color: magenta when boosting, else red above 180, yellow
/// above 120, cyan below.
pub open spec fn speed_color_of(speed: i64, boosting: bool) -> Color {
    if boosting {
        Color::Magenta
    } else if speed > 180000 {
        Color::Red
    } else if speed > 120000 {
        Color::Yellow
    } else {
        Color::Cyan
    }
}

pub open spec fn speed_gauge_spec(area: Rect, speed: i64, boosting: bool) -> Drawn {
    Drawn::Gauge {
        area,
        title: Some("🏎SPD"@),
        label: Some(decimal_of(rounded_whole(speed as int))),
        percent: speed_percent_of(speed, boosting),
        style: fg_style(speed_color_of(speed, boosting)),
    }
}

/// A powerup gauge's fill: the remaining time (thousandths) in whole units,
/// clamped into `[0, 100]`.
pub open spec fn powerup_percent_of(remaining: i64) -> u16 {
    saturate(trunc_div(remaining as int, 1000), 0, 100) as u16
}

/// A powerup gauge: blinking in its color while active, in its color while time
/// remains, grey when empty.
pub open spec fn powerup_gauge_spec(area: Rect, title: Seq<char>, remaining: i64, active: bool, color: Color) -> Drawn {
    Drawn::Gauge {
        area,
        title: Some(title),
        label: None,
        percent: powerup_percent_of(remaining),
        style: if active {
            blink_style(color)
        } else if powerup_percent_of(remaining) > 0 {
            fg_style(color)
        } else {
            fg_style(Color::DarkGray)
        },
    }
}

fn health_percent(health: i32) -> (r: u16)
    ensures
        r == health_percent_of(health),
{
    if health < 0 {
        0
    } else if health > 100 {
        100
    } else {
        health as u16
    }
}

fn render_speed_gauge(out: &mut Vec<Widget>, area: Rect, speed: i64, boosting: bool)
    ensures
        drawn(final(out)@) == drawn(old(out)@).push(speed_gauge_spec(area, speed, boosting)),
{
    let top: i128 = if boosting { 250000 } else { 200000 };
    assert(-0x8000_0000_0000_0000 * 100 <= speed * 100 <= 0x8000_0000_0000_0000 * 100);
    let q = div_trunc(speed as i128 * 100, top);
    let percent: u16 = if q < 0 { 0 } else if q > 100 { 100 } else { q as u16 };
    let color = if boosting {
        Color::Magenta
    } else if speed > 180000 {
        Color::Red
    } else if speed > 120000 {
        Color::Yellow
    } else {
        Color::Cyan
    };
    let g = Widget::Gauge {
        area,
        title: Some(String::from_str("🏎SPD")),
        label: Some(rounded_text(speed)),
        percent,
        style: Style::fg(color),
    };
    push_widget(out, g);
}

fn render_powerup_gauge(out: &mut Vec<Widget>, area: Rect, title: &str, remaining: i64, active: bool, color: Color)
    ensures
        drawn(final(out)@) == drawn(old(out)@).push(powerup_gauge_spec(area, title@, remaining, active, color)),
{
    let q = div_trunc(remaining as i128, 1000);
    let percent: u16 = if q < 0 { 0 } else if q > 100 { 100 } else { q as u16 };
    let style = if active {
        Style::blink(color)
    } else if percent > 0 {
        Style::fg(color)
    } else {
        Style::fg(Color::DarkGray)
    };
    push_widget(out, Widget::Gauge { area, title: Some(String::from_str(title)), label: None, percent, style });
}

/// The full HUD over its nine panels: score, combo, health and level in
/// `r[0..4]`, then the speed gauge and the four powerup gauges in `r[4..9]`.
pub open spec fn enhanced_hud_spec(r: Seq<Rect>, s: GameState) -> Seq<Drawn> {
    seq![
        Drawn::Text { area: r[0], text: "⭐ "@ + padded_of(s.player_score as int, 8), style: bold_style(Color::Yellow) },
        Drawn::Text { area: r[1], text: "🔥x"@ + decimal_of(s.combo as int), style: bold_style(combo_color_of(s.combo)) },
        Drawn::Gauge {
            area: r[2],
            title: None,
            label: Some("❤ "@ + decimal_of(s.player_health as int) + "/100"@),
            percent: health_percent_of(s.player_health),
            style: fg_style(health_color_of(s.player_health)),
        },
        Drawn::Text { area: r[3], text: "LV."@ + decimal_of(s.level as int), style: fg_style(Color::Cyan) },
        speed_gauge_spec(r[4], s.player_speed, s.boost_active),
        powerup_gauge_spec(r[5], "⚡BOOST"@, s.boost_remaining, s.boost_active, Color::Magenta),
        powerup_gauge_spec(r[6], "🛡SHIELD"@, s.shield_remaining, s.shield_active, Color::Cyan),
        powerup_gauge_spec(r[7], "⭐STAR"@, s.invincibility_remaining, s.invincibility_active, Color::Yellow),
        powerup_gauge_spec(r[8], "🧲MAG"@, s.magnet_remaining, s.magnet_active, Color::Green),
    ]
}

fn prefixed(prefix: &str, rest: String) -> (r: String)
    ensures
        r@ == prefix@ + rest@,
{
    let mut t = String::from_str(prefix);
    t.append(rest.as_str());
    t
}

/// The nine panels of the full HUD: a two-row strip cut in quarters over a
/// four-row strip cut in fifths, as the layout solver places them.
pub fn hud_areas(area: Rect) -> (r: Vec<Rect>)
    requires
        area.wf(),
    ensures
        r@.len() == 9,
        all_within(r@, area),
{
    let rows = split(area, true, &vec![Constraint::Length(2), Constraint::Length(4)]);
    assert(area.contains(rows@[0]) && area.contains(rows@[1]));
    let mut top = split(
        rows[0],
        false,
        &vec![Constraint::Percentage(25), Constraint::Percentage(25), Constraint::Percentage(25), Constraint::Percentage(25)],
    );
    let mut bottom = split(
        rows[1],
        false,
        &vec![
            Constraint::Percentage(20),
            Constraint::Percentage(20),
            Constraint::Percentage(20),
            Constraint::Percentage(20),
            Constraint::Percentage(20),
        ],
    );
    assert(all_within(top@, rows@[0]));
    assert(all_within(bottom@, rows@[1]));
    proof {
        lemma_within_widen(top@, rows@[0], area);
        lemma_within_widen(bottom@, rows@[1], area);
        lemma_within_concat(top@, bottom@, area);
    }
    let ghost joined = top@ + bottom@;
    top.append(&mut bottom);
    assert(top@ == joined);
    top
}

/// Draws the full HUD over the nine panels `r[at..at + 9]`.
pub fn compose_enhanced_hud(out: &mut Vec<Widget>, r: &Vec<Rect>, at: usize, state: &GameState)
    requires
        at + 9 <= r.len(),
    ensures
        drawn(final(out)@) == drawn(old(out)@) + enhanced_hud_spec(r@.subrange(at as int, at + 9), *state),
{
    let ghost before = drawn(out@);
    let ghost p = r@.subrange(at as int, at + 9);
    let score = prefixed("⭐ ", zero_padded(state.player_score as i64, 8));
    push_widget(out, Widget::Text { area: r[at], text: score, style: Style::bold(Color::Yellow) });
    let combo = prefixed("🔥x", crate::text::decimal_text(state.combo as i128));
    push_widget(out, Widget::Text { area: r[at + 1], text: combo, style: Style::bold(get_combo_color(state.combo)) });
    let mut health_label = prefixed("❤ ", crate::text::decimal_text(state.player_health as i128));
    health_label.append("/100");
    push_widget(
        out,
        Widget::Gauge {
            area: r[at + 2],
            title: None,
            label: Some(health_label),
            percent: health_percent(state.player_health),
            style: Style::fg(get_health_color(state.player_health)),
        },
    );
    let level = prefixed("LV.", crate::text::decimal_text(state.level as i128));
    push_widget(out, Widget::Text { area: r[at + 3], text: level, style: Style::fg(Color::Cyan) });
    render_speed_gauge(out, r[at + 4], state.player_speed, state.boost_active);
    render_powerup_gauge(out, r[at + 5], "⚡BOOST", state.boost_remaining, state.boost_active, Color::Magenta);
    render_powerup_gauge(out, r[at + 6], "🛡SHIELD", state.shield_remaining, state.shield_active, Color::Cyan);
    render_powerup_gauge(out, r[at + 7], "⭐STAR", state.invincibility_remaining, state.invincibility_active, Color::Yellow);
    render_powerup_gauge(out, r[at + 8], "🧲MAG", state.magnet_remaining, state.magnet_active, Color::Green);
    assert(drawn(out@) =~= before + enhanced_hud_spec(p, *state));
}

/// Draws the full HUD into `area`, over the panels the layout solver gives.
pub fn render_enhanced_hud(out: &mut Vec<Widget>, area: Rect, state: &GameState)
    requires
        area.wf(),
    ensures
        exists|r: Seq<Rect>|
            r.len() == 9 && all_within(r, area) && drawn(final(out)@) == drawn(old(out)@)
                + #[trigger] enhanced_hud_spec(r, *state),
{
    let r = hud_areas(area);
    compose_enhanced_hud(out, &r, 0, state);
    assert(r@.subrange(0, 9) =~= r@);
}


/// One player's split-screen panel over its three cells `c[0..3]`: player number
/// and score, health gauge, speed.
pub open spec fn player_hud_spec(c: Seq<Rect>, s: GameState, player: i32) -> Seq<Drawn> {
    let score = if player == 1 { s.player_score } else { s.player2_score };
    let health = if player == 1 { s.player_health } else { s.player2_health };
    let speed = if player == 1 { s.player_speed } else { s.player2_speed };
    seq![
        Drawn::Boxed {
            area: c[0],
            title: seq![],
            text: "P"@ + decimal_of(player as int) + "\n"@ + padded_of(score as int, 6),
            style: fg_style(Color::Yellow),
            centered: false,
        },
        Drawn::Gauge {
            area: c[1],
            title: Some("HP"@),
            label: None,
            percent: health_percent_of(health),
            style: fg_style(health_color_of(health)),
        },
        Drawn::Boxed {
            area: c[2],
            title: "SPD"@,
            text: decimal_of(rounded_whole(speed as int)) + "\nkm/h"@,
            style: fg_style(Color::Cyan),
            centered: false,
        },
    ]
}

/// The three cells of a player panel: a third, a third and the rest of `area`'s
/// width, as the layout solver places them.
pub fn player_hud_areas(area: Rect) -> (r: Vec<Rect>)
    requires
        area.wf(),
    ensures
        r@.len() == 3,
        all_within(r@, area),
{
    let r = split(
        area,
        false,
        &vec![Constraint::Percentage(33), Constraint::Percentage(33), Constraint::Percentage(34)],
    );
    assert(all_within(r@, area));
    r
}

/// Draws player `player`'s panel into `area`, over the cells the layout solver gives.
pub fn render_player_hud(out: &mut Vec<Widget>, area: Rect, state: &GameState, player: i32)
    requires
        area.wf(),
    ensures
        exists|c: Seq<Rect>|
            c.len() == 3 && all_within(c, area) && drawn(final(out)@) == drawn(old(out)@)
                + #[trigger] player_hud_spec(c, *state, player),
{
    let c = player_hud_areas(area);
    compose_player_hud(out, &c, 0, state, player);
    assert(c@.subrange(0, 3) =~= c@);
}

/// Draws player `player`'s panel over the cells `c[at..at + 3]`.
pub fn compose_player_hud(out: &mut Vec<Widget>, c: &Vec<Rect>, at: usize, state: &GameState, player: i32)
    requires
        at + 3 <= c.len(),
    ensures
        drawn(final(out)@) == drawn(old(out)@) + player_hud_spec(c@.subrange(at as int, at + 3), *state, player),
{
    let ghost before = drawn(out@);
    let (score, health, speed) = if player == 1 {
        (state.player_score, state.player_health, state.player_speed)
    } else {
        (state.player2_score, state.player2_health, state.player2_speed)
    };
    let mut text = prefixed("P", crate::text::decimal_text(player as i128));
    text.append("\n");
    let padded = zero_padded(score as i64, 6);
    text.append(padded.as_str());
    push_widget(
        out,
        Widget::Boxed { area: c[at], title: String::new(), text, style: Style::fg(Color::Yellow), centered: false },
    );
    push_widget(
        out,
        Widget::Gauge {
            area: c[at + 1],
            title: Some(String::from_str("HP")),
            label: None,
            percent: health_percent(health),
            style: Style::fg(get_health_color(health)),
        },
    );
    let mut spd = rounded_text(speed);
    spd.append("\nkm/h");
    push_widget(
        out,
        Widget::Boxed {
            area: c[at + 2],
            title: String::from_str("SPD"),
            text: spd,
            style: Style::fg(Color::Cyan),
            centered: false,
        },
    );
    assert(drawn(out@) =~= before + player_hud_spec(c@.subrange(at as int, at + 3), *state, player));
}

/// The career objective of a level.
pub open spec fn objective_of(level: i32) -> &'static str {
    if 1 <= level <= 3 {
        "Complete race"
    } else if 4 <= level <= 6 {
        "Beat AI racers"
    } else if 7 <= level <= 9 {
        "Defeat boss"
    } else {
        "Ultimate challenge"
    }
}

fn objective(level: i32) -> (r: &'static str)
    ensures
        r == objective_of(level),
{
    if 1 <= level && level <= 3 {
        "Complete race"
    } else if 4 <= level && level <= 6 {
        "Beat AI racers"
    } else if 7 <= level && level <= 9 {
        "Defeat boss"
    } else {
        "Ultimate challenge"
    }
}

/// The career panel over its two halves `c[0..2]`: progress in percent, and the
/// level's objective.
pub open spec fn career_info_spec(c: Seq<Rect>, s: GameState) -> Seq<Drawn> {
    seq![
        Drawn::Boxed {
            area: c[0],
            title: "Career"@,
            text: "Progress: "@ + decimal_of(rounded_whole(s.career_progress as int)) + "%"@,
            style: fg_style(Color::Yellow),
            centered: false,
        },
        Drawn::Boxed {
            area: c[1],
            title: "Objective"@,
            text: objective_of(s.level)@,
            style: fg_style(Color::Cyan),
            centered: false,
        },
    ]
}

/// Draws the career panel into `area`, over the halves the layout solver gives.
pub fn render_career_info(out: &mut Vec<Widget>, area: Rect, state: &GameState)
    requires
        area.wf(),
    ensures
        exists|c: Seq<Rect>|
            c.len() == 2 && all_within(c, area) && drawn(final(out)@) == drawn(old(out)@)
                + #[trigger] career_info_spec(c, *state),
{
    let c = split_halves(area);
    compose_career_info(out, &c, 0, state);
    assert(c@.subrange(0, 2) =~= c@);
}

/// Draws the career panel over the halves `c[at..at + 2]`.
pub fn compose_career_info(out: &mut Vec<Widget>, c: &Vec<Rect>, at: usize, state: &GameState)
    requires
        at + 2 <= c.len(),
    ensures
        drawn(final(out)@) == drawn(old(out)@) + career_info_spec(c@.subrange(at as int, at + 2), *state),
{
    let ghost before = drawn(out@);
    let mut progress = prefixed("Progress: ", rounded_text(state.career_progress));
    progress.append("%");
    push_widget(
        out,
        Widget::Boxed {
            area: c[at],
            title: String::from_str("Career"),
            text: progress,
            style: Style::fg(Color::Yellow),
            centered: false,
        },
    );
    push_widget(
        out,
        Widget::Boxed {
            area: c[at + 1],
            title: String::from_str("Objective"),
            text: String::from_str(objective(state.level)),
            style: Style::fg(Color::Cyan),
            centered: false,
        },
    );
    assert(drawn(out@) =~= before + career_info_spec(c@.subrange(at as int, at + 2), *state));
}

/// The replay controls banner.
pub open spec fn replay_controls_spec(area: Rect) -> Seq<Drawn> {
    seq![
        Drawn::Boxed {
            area,
            title: "REPLAY MODE"@,
            text: "⏮ [←] Rewind | [SPACE] Pause | [→] Fast Forward ⏭"@,
            style: bold_style(Color::Magenta),
            centered: true,
        },
    ]
}

pub fn render_replay_controls(out: &mut Vec<Widget>, area: Rect)
    ensures
        drawn(final(out)@) == drawn(old(out)@) + replay_controls_spec(area),
{
    let ghost before = drawn(out@);
    push_widget(
        out,
        Widget::Boxed {
            area,
            title: String::from_str("REPLAY MODE"),
            text: String::from_str("⏮ [←] Rewind | [SPACE] Pause | [→] Fast Forward ⏭"),
            style: Style::bold(Color::Magenta),
            centered: true,
        },
    );
    assert(drawn(out@) =~= before + replay_controls_spec(area));
}

/// The replay information line: lap time in seconds with two decimals.
pub open spec fn replay_info_spec(area: Rect, s: GameState) -> Seq<Drawn> {
    seq![
        Drawn::Boxed {
            area,
            title: seq![],
            text: "Time: "@ + hundredths_of(s.lap_time as int) + "s | Best: Ghost Car"@,
            style: fg_style(Color::Cyan),
            centered: false,
        },
    ]
}

pub fn render_replay_info(out: &mut Vec<Widget>, area: Rect, state: &GameState)
    ensures
        drawn(final(out)@) == drawn(old(out)@) + replay_info_spec(area, *state),
{
    let ghost before = drawn(out@);
    let mut text = prefixed("Time: ", hundredths_text(state.lap_time));
    text.append("s | Best: Ghost Car");
    push_widget(
        out,
        Widget::Boxed { area, title: String::new(), text, style: Style::fg(Color::Cyan), centered: false },
    );
    assert(drawn(out@) =~= before + replay_info_spec(area, *state));
}

/// The control hints of a game mode.
pub open spec fn controls_text_of(mode: i32) -> &'static str {
    if mode == 1 {
        "P1: WASD+SPACE | P2: IJKL+U | Q=Quit"
    } else if mode == 2 {
        "← → Move | ↑ Accel | ↓ Brake | SPACE Boost | M Menu | Q Quit"
    } else {
        "← → Move | ↑ Accel | ↓ Brake | SPACE Boost | P Pause | Q Quit"
    }
}

pub open spec fn controls_spec(area: Rect, mode: i32) -> Seq<Drawn> {
    seq![
        Drawn::Boxed {
            area,
            title: seq![],
            text: controls_text_of(mode)@,
            style: fg_style(Color::DarkGray),
            centered: false,
        },
    ]
}

fn render_controls(out: &mut Vec<Widget>, area: Rect, mode: i32)
    ensures
        drawn(final(out)@) == drawn(old(out)@) + controls_spec(area, mode),
{
    let ghost before = drawn(out@);
    let text = if mode == 1 {
        "P1: WASD+SPACE | P2: IJKL+U | Q=Quit"
    } else if mode == 2 {
        "← → Move | ↑ Accel | ↓ Brake | SPACE Boost | M Menu | Q Quit"
    } else {
        "← → Move | ↑ Accel | ↓ Brake | SPACE Boost | P Pause | Q Quit"
    };
    push_widget(
        out,
        Widget::Boxed {
            area,
            title: String::new(),
            text: String::from_str(text),
            style: Style::fg(Color::DarkGray),
            centered: false,
        },
    );
    assert(drawn(out@) =~= before + controls_spec(area, mode));
}


/// Header band, game area and footer band: fixed row counts around the rest.
pub open spec fn bands(head: u16, foot: u16) -> Seq<Constraint> {
    seq![Constraint::Length(head), Constraint::Min(0), Constraint::Length(foot)]
}

/// Header band, game area and footer band of `area`, as the layout solver places them.
pub fn split_bands(area: Rect, head: u16, foot: u16) -> (r: Vec<Rect>)
    requires
        area.wf(),
    ensures
        r@.len() == 3,
        all_within(r@, area),
{
    let r = split(area, true, &vec![Constraint::Length(head), Constraint::Min(0), Constraint::Length(foot)]);
    assert(all_within(r@, area));
    r
}

/// Left and right halves of `area`, as the layout solver places them.
pub fn split_halves(area: Rect) -> (r: Vec<Rect>)
    requires
        area.wf(),
    ensures
        r@.len() == 2,
        all_within(r@, area),
{
    let r = split(area, false, &vec![Constraint::Percentage(50), Constraint::Percentage(50)]);
    assert(all_within(r@, area));
    r
}

/// The single-player HUD layout over ten panels: the full HUD in `r[0..9]` and
/// the control hints in `r[9]`.
pub open spec fn singleplayer_hud_spec(r: Seq<Rect>, s: GameState) -> Seq<Drawn> {
    enhanced_hud_spec(r.subrange(0, 9), s) + controls_spec(r[9], s.game_mode)
}

/// Draws the single-player HUD into `area`: the full HUD in the header band and
/// the control hints in the footer band.
pub fn render_singleplayer_hud(out: &mut Vec<Widget>, area: Rect, state: &GameState)
    requires
        area.wf(),
    ensures
        exists|r: Seq<Rect>|
            r.len() == 10 && all_within(r, area) && drawn(final(out)@) == drawn(old(out)@)
                + #[trigger] singleplayer_hud_spec(r, *state),
{
    let ghost before = drawn(out@);
    let b = split_bands(area, 6, 2);
    let mut r = hud_areas(b[0]);
    proof {
        lemma_within_widen(r@, b@[0], area);
    }
    r.push(b[2]);
    compose_enhanced_hud(out, &r, 0, state);
    render_controls(out, r[9], state.game_mode);
    assert(all_within(r@, area));
    assert(drawn(out@) =~= before + singleplayer_hud_spec(r@, *state));
}

/// The split-screen HUD layout over seven panels: player one's panel in `r[0..3]`,
/// player two's in `r[3..6]`, and the two-player control hints in `r[6]`.
pub open spec fn splitscreen_hud_spec(r: Seq<Rect>, s: GameState) -> Seq<Drawn> {
    player_hud_spec(r.subrange(0, 3), s, 1) + player_hud_spec(r.subrange(3, 6), s, 2) + controls_spec(r[6], 1)
}

/// Draws the split-screen HUD into `area`: each half gets its player's panel in its
/// header band; the control hints go in the left half's footer band.
pub fn render_splitscreen_hud(out: &mut Vec<Widget>, area: Rect, state: &GameState)
    requires
        area.wf(),
    ensures
        exists|r: Seq<Rect>|
            r.len() == 7 && all_within(r, area) && drawn(final(out)@) == drawn(old(out)@)
                + #[trigger] splitscreen_hud_spec(r, *state),
{
    let ghost before = drawn(out@);
    let h = split_halves(area);
    let p1 = split_bands(h[0], 4, 2);
    let p2 = split_bands(h[1], 4, 2);
    let mut r = player_hud_areas(p1[0]);
    let mut r2 = player_hud_areas(p2[0]);
    proof {
        lemma_within_widen(p1@, h@[0], area);
        lemma_within_widen(p2@, h@[1], area);
        lemma_within_widen(r@, p1@[0], area);
        lemma_within_widen(r2@, p2@[0], area);
        lemma_within_concat(r@, r2@, area);
    }
    let ghost joined = r@ + r2@;
    r.append(&mut r2);
    assert(r@ == joined);
    r.push(p1[2]);
    compose_player_hud(out, &r, 0, state, 1);
    compose_player_hud(out, &r, 3, state, 2);
    render_controls(out, r[6], 1);
    assert(all_within(r@, area));
    assert(drawn(out@) =~= before + splitscreen_hud_spec(r@, *state));
}

/// The career HUD layout over eleven panels: the full HUD in `r[0..9]` and the
/// career panel in `r[9..11]`.
pub open spec fn career_hud_spec(r: Seq<Rect>, s: GameState) -> Seq<Drawn> {
    enhanced_hud_spec(r.subrange(0, 9), s) + career_info_spec(r.subrange(9, 11), s)
}

/// Draws the career HUD into `area`: the full HUD in the header band and the
/// career panel in the footer band.
pub fn render_career_hud(out: &mut Vec<Widget>, area: Rect, state: &GameState)
    requires
        area.wf(),
    ensures
        exists|r: Seq<Rect>|
            r.len() == 11 && all_within(r, area) && drawn(final(out)@) == drawn(old(out)@)
                + #[trigger] career_hud_spec(r, *state),
{
    let ghost before = drawn(out@);
    let b = split_bands(area, 7, 3);
    let mut r = hud_areas(b[0]);
    let mut c = split_halves(b[2]);
    proof {
        lemma_within_widen(r@, b@[0], area);
        lemma_within_widen(c@, b@[2], area);
        lemma_within_concat(r@, c@, area);
    }
    let ghost joined = r@ + c@;
    r.append(&mut c);
    assert(r@ == joined);
    compose_enhanced_hud(out, &r, 0, state);
    compose_career_info(out, &r, 9, state);
    assert(drawn(out@) =~= before + career_hud_spec(r@, *state));
}

/// The replay HUD layout over two panels: replay controls in `r[0]`, the replay
/// line in `r[1]`.
pub open spec fn replay_hud_spec(r: Seq<Rect>, s: GameState) -> Seq<Drawn> {
    replay_controls_spec(r[0]) + replay_info_spec(r[1], s)
}

/// Draws the replay HUD into `area`: the controls in the header band and the
/// replay line in the footer band.
pub fn render_replay_hud(out: &mut Vec<Widget>, area: Rect, state: &GameState)
    requires
        area.wf(),
    ensures
        exists|r: Seq<Rect>|
            r.len() == 2 && all_within(r, area) && drawn(final(out)@) == drawn(old(out)@)
                + #[trigger] replay_hud_spec(r, *state),
{
    let ghost before = drawn(out@);
    let b = split_bands(area, 3, 2);
    let r = vec![b[0], b[2]];
    render_replay_controls(out, r[0]);
    render_replay_info(out, r[1], state);
    assert(all_within(r@, area));
    assert(drawn(out@) =~= before + replay_hud_spec(r@, *state));
}

// ---- menu

pub open spec fn highlight_style() -> Style {
    Style { fg: Some(Color::Yellow), bg: Some(Color::Blue), bold: true, rapid_blink: false, dim: false }
}

/// A menu line: the selected option is marked and highlighted.
pub open spec fn menu_line_of(option: Seq<char>, selected: bool) -> (Seq<char>, Style) {
    if selected {
        ("▶ "@ + option, highlight_style())
    } else {
        ("  "@ + option, fg_style(Color::White))
    }
}

pub open spec fn menu_lines_of(options: Seq<Seq<char>>, selected: i32) -> Seq<(Seq<char>, Style)> {
    Seq::new(options.len(), |i: int| menu_line_of(options[i], i == selected as int))
}

/// The menu screen over its three bands `c[0..3]`: title banner, the option list,
/// and the navigation hints. A selection outside the options highlights nothing.
pub open spec fn menu_spec(c: Seq<Rect>, title: Seq<char>, options: Seq<Seq<char>>, selected: i32) -> Seq<Drawn> {
    seq![
        Drawn::Boxed { area: c[0], title: seq![], text: title, style: bold_style(Color::Cyan), centered: true },
        Drawn::List { area: c[1], title: "Select Option"@, items: menu_lines_of(options, selected) },
        Drawn::Boxed {
            area: c[2],
            title: seq![],
            text: "↑↓ Navigate | ENTER Select | Q Quit"@,
            style: fg_style(Color::DarkGray),
            centered: false,
        },
    ]
}

pub open spec fn texts(v: Seq<String>) -> Seq<Seq<char>> {
    v.map_values(|o: String| o@)
}

/// Draws the menu screen over `screen`, in the bands the layout solver gives.
pub fn render_menu(out: &mut Vec<Widget>, screen: Rect, title: &str, options: &Vec<String>, selected: i32)
    requires
        screen.wf(),
    ensures
        exists|c: Seq<Rect>|
            c.len() == 3 && all_within(c, screen) && drawn(final(out)@) == drawn(old(out)@)
                + #[trigger] menu_spec(c, title@, texts(options@), selected),
{
    let c = split_bands(screen, 5, 3);
    compose_menu(out, &c, title, options, selected);
}

/// Draws the menu screen over the bands `c[0..3]`.
pub fn compose_menu(out: &mut Vec<Widget>, c: &Vec<Rect>, title: &str, options: &Vec<String>, selected: i32)
    requires
        c@.len() == 3,
    ensures
        drawn(final(out)@) == drawn(old(out)@) + menu_spec(c@, title@, texts(options@), selected),
{
    let ghost before = drawn(out@);
    push_widget(
        out,
        Widget::Boxed {
            area: c[0],
            title: String::new(),
            text: String::from_str(title),
            style: Style::bold(Color::Cyan),
            centered: true,
        },
    );
    let ghost opts = texts(options@);
    let mut items: Vec<ListLine> = Vec::new();
    let mut i: usize = 0;
    while i < options.len()
        invariant
            i <= options@.len(),
            opts == texts(options@),
            items@.map_values(|l: ListLine| (l.text@, l.style)) =~= menu_lines_of(opts, selected).take(i as int),
        decreases options@.len() - i,
    {
        let is_sel = selected >= 0 && i == selected as usize;
        assert(is_sel == (i as int == selected as int));
        let ghost prev = items@;
        let line = if is_sel {
            ListLine {
                text: prefixed("▶ ", options[i].clone()),
                style: Style { fg: Some(Color::Yellow), bg: Some(Color::Blue), bold: true, rapid_blink: false, dim: false },
            }
        } else {
            ListLine { text: prefixed("  ", options[i].clone()), style: Style::fg(Color::White) }
        };
        assert(opts[i as int] == options@[i as int]@);
        assert((line.text@, line.style) == menu_lines_of(opts, selected)[i as int]);
        items.push(line);
        assert(items@.map_values(|l: ListLine| (l.text@, l.style)) =~= prev.map_values(
            |l: ListLine| (l.text@, l.style),
        ).push(menu_lines_of(opts, selected)[i as int]));
        assert(menu_lines_of(opts, selected).take(i + 1) =~= menu_lines_of(opts, selected).take(
            i as int,
        ).push(menu_lines_of(opts, selected)[i as int]));
        i = i + 1;
    }
    assert(menu_lines_of(opts, selected).take(options@.len() as int) =~= menu_lines_of(opts, selected));
    push_widget(out, Widget::List { area: c[1], title: String::from_str("Select Option"), items });
    push_widget(
        out,
        Widget::Boxed {
            area: c[2],
            title: String::new(),
            text: String::from_str("↑↓ Navigate | ENTER Select | Q Quit"),
            style: Style::fg(Color::DarkGray),
            centered: false,
        },
    );
    assert(drawn(out@) =~= before + menu_spec(c@, title@, texts(options@), selected));
}

} // verus!
