use rust_renderer::geometry::{AI_FAR, AI_NEAR};
use rust_renderer::scene::{player_color, track_curve};
use rust_renderer::{
    project, render_player, render_track, Color, GameState, Projection, Rect, Style, Widget,
};

fn blank() -> GameState {
    GameState {
        player_position: 0,
        player_speed: 0,
        player_distance: 0,
        player_health: 100,
        player_score: 0,
        player_car_type: 0,
        player2_active: false,
        player2_position: 0,
        player2_speed: 0,
        player2_distance: 0,
        player2_health: 100,
        player2_score: 0,
        player2_car_type: 0,
        lap_time: 0,
        game_mode: 0,
        track_type: 0,
        level: 1,
        career_progress: 0,
        boost_active: false,
        boost_remaining: 0,
        shield_active: false,
        shield_remaining: 0,
        invincibility_active: false,
        invincibility_remaining: 0,
        magnet_active: false,
        magnet_remaining: 0,
        slowmo_active: false,
        slowmo_remaining: 0,
        car_count: 0,
        ai_positions: vec![],
        ai_distances: vec![],
        ai_types: vec![],
        ai_is_boss: vec![],
        obstacle_count: 0,
        obstacle_positions: vec![],
        obstacle_distances: vec![],
        obstacle_types: vec![],
        building_count: 0,
        building_positions: vec![],
        building_distances: vec![],
        building_heights: vec![],
        building_types: vec![],
        weather: 0,
        curve_offset: 0,
        elevation: 0,
        tunnel_darkness: 0,
        combo: 0,
        replay_mode: false,
        ghost_position: 0,
        ghost_distance: 0,
    }
}

fn texts(ws: &[Widget]) -> Vec<(Rect, String, Style)> {
    ws.iter()
        .filter_map(|w| match w {
            Widget::Text { area, text, style } => Some((*area, text.clone(), *style)),
            _ => None,
        })
        .collect()
}

fn draw(state: &GameState, area: Rect, pos: i32, dist: i64) -> Vec<Widget> {
    let mut out = Vec::new();
    render_track(&mut out, area, state, pos, dist);
    out
}

#[test]
fn highway_ai_car_lands_on_projected_cell() {
    let mut s = blank();
    s.car_count = 1;
    s.ai_positions = vec![1];
    s.ai_distances = vec![20000];
    s.ai_types = vec![2];
    s.ai_is_boss = vec![false];
    s.player_position = 0;
    let out = draw(&s, Rect::new(0, 0, 62, 62), 0, 0);
    let ts = texts(&out);
    let design = rust_renderer::get_car_design(2, false);
    // inner area is (1, 1, 60, 60): 30 rows up from the bottom edge, lane 1 centred
    assert!(ts.iter().any(|(r, t, _)| *r == Rect::new(28, 31, 7, 1) && t == design.art[0]));
    assert!(ts.iter().any(|(r, t, _)| *r == Rect::new(28, 34, 7, 1) && t == design.art[3]));
    assert!(ts.iter().any(|(r, t, st)| *r == Rect::new(29, 34, 5, 1)
        && t == "RCR"
        && st.bg == Some(Color::Magenta)));
    assert!(!ts.iter().any(|(_, t, _)| t == "·"));
}

#[test]
fn rain_overlay_draws_drops() {
    let mut s = blank();
    s.weather = 1;
    let out = draw(&s, Rect::new(0, 0, 22, 11), 0, 0);
    let drops: Vec<_> = texts(&out).into_iter().filter(|(_, t, _)| t == "·").collect();
    // inner 20 x 9: columns 1, 8, 15 and rows 1, 4, 7
    assert_eq!(drops.len(), 9);
    assert_eq!(drops[0].0, Rect::new(1, 1, 1, 1));
    assert_eq!(drops[1].0, Rect::new(1, 4, 1, 1));
    assert_eq!(drops[3].0, Rect::new(8, 1, 1, 1));
    assert_eq!(drops[0].2.fg, Some(Color::Rgb(100, 150, 200)));
}

#[test]
fn invincibility_color_wins_over_boost_and_shield() {
    let mut s = blank();
    s.invincibility_active = true;
    s.boost_active = true;
    s.shield_active = true;
    let mut out = Vec::new();
    render_player(&mut out, Rect::new(0, 0, 30, 20), &s, 1, 10, 0, 0, true);
    let ts = texts(&out);
    for (_, _, st) in ts.iter().take(4) {
        assert_eq!(st.fg, Some(Color::Yellow));
        assert!(st.bold);
    }
    assert_eq!(player_color(&s, Color::Gray, false), Color::Yellow);
    s.invincibility_active = false;
    assert_eq!(player_color(&s, Color::Gray, false), Color::Magenta);
    s.boost_active = false;
    assert_eq!(player_color(&s, Color::Gray, false), Color::Cyan);
    s.shield_active = false;
    assert_eq!(player_color(&s, Color::Gray, true), Color::Green);
    assert_eq!(player_color(&s, Color::Gray, false), Color::Gray);
}

#[test]
fn player_effects_follow_powerups() {
    let mut s = blank();
    s.boost_active = true;
    s.magnet_active = true;
    let mut out = Vec::new();
    render_player(&mut out, Rect::new(0, 0, 30, 20), &s, 1, 10, 0, 0, true);
    let ts = texts(&out);
    // lane 1 of width 10: column 10 + 5 - 3 = 12, seven rows above the bottom
    assert_eq!(ts[0].0, Rect::new(12, 13, 7, 1));
    assert!(ts.iter().any(|(r, t, st)| *r == Rect::new(13, 17, 4, 1) && t == "🔥🔥" && st.rapid_blink));
    assert!(ts.iter().any(|(r, t, _)| *r == Rect::new(18, 14, 2, 1) && t == "🧲"));
    assert!(!ts.iter().any(|(_, t, _)| t == " ◯◯◯ "));
}

#[test]
fn ai_window_edges_are_hidden() {
    let area = Rect::new(0, 0, 60, 60);
    assert_eq!(project(area, -10000, AI_NEAR, AI_FAR, 1, 20, 7, 0), Projection::Hidden);
    assert_eq!(project(area, 50000, AI_NEAR, AI_FAR, 1, 20, 7, 0), Projection::Hidden);
    assert_eq!(project(area, 0, AI_NEAR, AI_FAR, 1, 20, 7, 0), Projection::Visible { x: 27, y: 50 });
    assert_eq!(project(area, -9999, AI_NEAR, AI_FAR, 1, 20, 7, 0), Projection::Hidden);
    assert_eq!(project(area, 49999, AI_NEAR, AI_FAR, 1, 20, 7, 0), Projection::Visible { x: 27, y: 0 });
}

#[test]
fn short_view_hides_car_level_with_viewer() {
    let area = Rect::new(0, 0, 60, 6);
    assert_eq!(project(area, 0, AI_NEAR, AI_FAR, 1, 20, 7, 0), Projection::Hidden);
    let taller = Rect::new(0, 0, 60, 9);
    assert_eq!(project(taller, 0, AI_NEAR, AI_FAR, 1, 20, 7, 0), Projection::Visible { x: 27, y: 7 });
}

#[test]
fn projection_clamps_to_the_view() {
    let area = Rect::new(10, 0, 30, 60);
    assert_eq!(project(area, 0, AI_NEAR, AI_FAR, 2, 10, 7, 1000), Projection::Visible { x: 33, y: 50 });
    assert_eq!(project(area, 0, AI_NEAR, AI_FAR, -5, 10, 7, 0), Projection::Visible { x: 10, y: 50 });
    let narrow = Rect::new(0, 0, 6, 60);
    assert_eq!(project(narrow, 0, AI_NEAR, AI_FAR, 0, 2, 7, 0), Projection::Hidden);
}

#[test]
fn projection_is_deterministic() {
    let area = Rect::new(3, 4, 50, 40);
    let a = project(area, 12345, AI_NEAR, AI_FAR, 2, 16, 7, -3);
    let b = project(area, 12345, AI_NEAR, AI_FAR, 2, 16, 7, -3);
    assert_eq!(a, b);
    let s = blank();
    assert_eq!(format!("{:?}", draw(&s, area, 1, 0)), format!("{:?}", draw(&s, area, 1, 0)));
}

#[test]
fn zero_obstacle_count_draws_no_obstacle() {
    let mut s = blank();
    s.obstacle_count = 0;
    s.obstacle_positions = vec![1];
    s.obstacle_distances = vec![20000];
    s.obstacle_types = vec![0];
    let out = draw(&s, Rect::new(0, 0, 62, 62), 0, 0);
    assert!(!texts(&out).iter().any(|(_, t, _)| t == "🚧"));
    s.obstacle_count = 1;
    let out = draw(&s, Rect::new(0, 0, 62, 62), 0, 0);
    let cones: Vec<_> = texts(&out).into_iter().filter(|(_, t, _)| t == "🚧").collect();
    assert_eq!(cones.len(), 1);
    // obstacle window (-5, 60): 25 of 65 units over 60 rows rounds to 23 rows
    assert_eq!(cones[0].0, Rect::new(30, 38, 2, 1));
}

#[test]
fn declared_count_beyond_arrays_is_bounded() {
    let mut s = blank();
    s.car_count = 5;
    s.ai_positions = vec![0];
    s.ai_distances = vec![10000];
    s.ai_types = vec![1];
    s.ai_is_boss = vec![true];
    let out = draw(&s, Rect::new(0, 0, 62, 62), 0, 0);
    let boss: Vec<_> = texts(&out).into_iter().filter(|(_, t, _)| t == " BOSS! ").collect();
    assert_eq!(boss.len(), 1);
    assert!(boss[0].2.rapid_blink);
}

fn assert_inside(out: &[Widget], inner: Rect) {
    for (r, _, _) in texts(out) {
        assert!(r.width > 0 && r.height > 0);
        assert!(r.x >= inner.x && r.x + r.width <= inner.x + inner.width);
        assert!(r.y >= inner.y && r.y + r.height <= inner.y + inner.height);
    }
}

#[test]
fn every_track_draw_stays_inside_the_view() {
    let area = Rect::new(5, 3, 40, 25);
    let inner = Rect::new(6, 4, 38, 23);
    for track in 0..6 {
        for curve in [-1_000_000_000i64, -4000, 0, 2500, 900_000_000] {
            let mut s = blank();
            s.track_type = track;
            s.weather = 1;
            s.slowmo_active = true;
            s.curve_offset = curve;
            s.elevation = 123456;
            s.tunnel_darkness = 300;
            s.boost_active = true;
            s.shield_active = true;
            s.invincibility_active = true;
            s.magnet_active = true;
            s.replay_mode = true;
            s.ghost_distance = 5000;
            s.ghost_position = 7;
            s.car_count = 3;
            s.ai_positions = vec![-4, 1, 9];
            s.ai_distances = vec![1000, 30000, 45000];
            s.ai_types = vec![0, 5, 99];
            s.ai_is_boss = vec![false, true, false];
            s.obstacle_count = 2;
            s.obstacle_positions = vec![2, -1];
            s.obstacle_distances = vec![59000, 0];
            s.obstacle_types = vec![3, 42];
            s.building_count = 2;
            s.building_positions = vec![-1, 1];
            s.building_distances = vec![-19000, 50000];
            s.building_heights = vec![40, -3];
            s.building_types = vec![1, 3];
            let out = draw(&s, area, 2, 2000);
            assert!(matches!(out[0], Widget::Block { .. }));
            assert_inside(&out[1..], inner);
        }
    }
}

#[test]
fn empty_view_draws_only_the_block() {
    let s = blank();
    let out = draw(&s, Rect::new(0, 0, 0, 0), 0, 0);
    assert_eq!(out.len(), 1);
    let out = draw(&s, Rect::new(4, 4, 2, 2), 0, 0);
    assert_eq!(out.len(), 1);
}

#[test]
fn track_title_names_track_weather_and_replay() {
    let mut s = blank();
    s.track_type = 2;
    s.weather = 3;
    s.replay_mode = true;
    let out = draw(&s, Rect::new(0, 0, 40, 20), 0, 0);
    match &out[0] {
        Widget::Block { area, title, style } => {
            assert_eq!(*area, Rect::new(0, 0, 40, 20));
            assert_eq!(title, "═══ MOUNTAIN PASS ═══ 🌙NIGHT ═══ [REPLAY] ═══");
            assert_eq!(style.bg, Some(Color::Rgb(10, 10, 30)));
        }
        other => panic!("unexpected first command {:?}", other),
    }
}

#[test]
fn road_surface_uses_weather_character() {
    let mut s = blank();
    s.weather = 2;
    s.player_distance = 3000;
    let out = draw(&s, Rect::new(0, 0, 7, 6), 0, 0);
    let ts = texts(&out);
    // inner 5 x 4; offset 3 mod 2 = 1: rows 1 and 3 of the inner area
    assert_eq!(ts[0], (Rect::new(1, 2, 5, 1), "░░░░░".to_string(), Style::fg(Color::DarkGray)));
    assert_eq!(ts[1].0, Rect::new(1, 4, 5, 1));
}

#[test]
fn lane_dividers_scroll_and_curve() {
    let mut s = blank();
    s.player_distance = 2000;
    let out = draw(&s, Rect::new(0, 0, 32, 10), 0, 0);
    let ts: Vec<_> = texts(&out).into_iter().filter(|(_, t, _)| t == "┃").collect();
    // inner (1, 1, 30, 8), lane width 10; offset (2 * 2) mod 6 = 4: rows 4, 7 and 2
    assert_eq!(ts[0].0, Rect::new(11, 5, 1, 2));
    assert_eq!(ts[1].0, Rect::new(21, 5, 1, 2));
    assert_eq!(ts[2].0, Rect::new(11, 8, 1, 1));
    assert_eq!(ts.len(), 6);
}

#[test]
fn curve_multipliers_per_track() {
    assert_eq!(track_curve(0, 1000), 3);
    assert_eq!(track_curve(1, 1000), 2);
    assert_eq!(track_curve(2, 1000), 4);
    assert_eq!(track_curve(3, 1000), 2);
    assert_eq!(track_curve(4, 1000), 1);
    assert_eq!(track_curve(3, -1000), -2);
    assert_eq!(track_curve(0, i64::MAX), i16::MAX);
    assert_eq!(track_curve(9, 2000), 6);
}

#[test]
fn city_buildings_stack_upward_with_windows() {
    let mut s = blank();
    s.track_type = 1;
    s.building_count = 1;
    s.building_positions = vec![-1];
    s.building_distances = vec![20000];
    s.building_heights = vec![3];
    s.building_types = vec![1];
    let out = draw(&s, Rect::new(0, 0, 40, 42), 0, 0);
    let ts = texts(&out);
    // building window (-20, 60): 40 of 80 units over 40 rows rounds to 20 rows
    assert!(ts.iter().any(|(r, t, _)| *r == Rect::new(1, 21, 6, 1) && t == "▓▓▓▓▓▓"));
    assert!(ts.iter().any(|(r, t, _)| *r == Rect::new(1, 19, 6, 1) && t == "▓▓▓▓▓▓"));
    assert!(ts.iter().any(|(r, t, _)| *r == Rect::new(3, 21, 2, 1) && t == "▫▫"));
    assert!(ts.iter().any(|(r, t, _)| *r == Rect::new(3, 19, 2, 1) && t == "▫▫"));
    assert!(!ts.iter().any(|(r, _, _)| r.y == 18 && r.x == 1));
}

#[test]
fn ghost_car_is_dimmed_in_replay() {
    let mut s = blank();
    s.replay_mode = true;
    s.ghost_distance = 20000;
    s.ghost_position = 1;
    let out = draw(&s, Rect::new(0, 0, 62, 62), 0, 0);
    let ts = texts(&out);
    assert!(ts.iter().any(|(r, _, st)| *r == Rect::new(28, 31, 7, 1) && st.dim
        && st.fg == Some(Color::Rgb(150, 150, 200))));
    s.replay_mode = false;
    let out = draw(&s, Rect::new(0, 0, 62, 62), 0, 0);
    assert!(!texts(&out).iter().any(|(_, _, st)| st.dim));
}

#[test]
fn tunnel_lights_follow_darkness() {
    let mut s = blank();
    s.track_type = 4;
    s.tunnel_darkness = 500;
    let out = draw(&s, Rect::new(0, 0, 12, 14), 0, 0);
    let lights: Vec<_> = texts(&out).into_iter().filter(|(_, t, _)| t == "•").collect();
    assert_eq!(lights.len(), 2);
    assert_eq!(lights[0].0, Rect::new(6, 1, 1, 1));
    assert_eq!(lights[0].2.fg, Some(Color::Rgb(127, 127, 100)));
}

#[test]
fn scroll_phase_uses_the_whole_distance() {
    let dividers = |d: i64| {
        let mut s = blank();
        s.player_distance = d;
        texts(&draw(&s, Rect::new(0, 0, 32, 10), 0, 0))
            .into_iter()
            .filter(|(_, t, _)| t == "┃")
            .map(|(r, _, _)| r)
            .collect::<Vec<_>>()
    };
    // 65536 and 1 whole units both give 2 when doubled modulo 6
    assert_eq!(dividers(65_536_000), dividers(1000));
    assert_ne!(dividers(65_535_000), dividers(65_536_000));
    // 70000 units scroll like 70000 mod 2 = 0, not like a clamped 65535
    let road = |d: i64| {
        let mut s = blank();
        s.player_distance = d;
        texts(&draw(&s, Rect::new(0, 0, 7, 6), 0, 0))[0].0
    };
    assert_eq!(road(70_000_000), Rect::new(1, 1, 5, 1));
    assert_eq!(road(-1_000), Rect::new(1, 2, 5, 1));
}

#[test]
fn tunnel_lights_follow_negative_and_far_distances() {
    let lights = |d: i64| {
        let mut s = blank();
        s.track_type = 4;
        let out = draw(&s, Rect::new(0, 0, 12, 14), 0, d);
        texts(&out).into_iter().filter(|(_, t, _)| t == "•").map(|(r, _, _)| r.y).collect::<Vec<_>>()
    };
    // -3 units: phase 7; 100003 units: phase 3
    assert_eq!(lights(-3000), vec![8]);
    assert_eq!(lights(100_003_000), vec![4]);
    assert_eq!(lights(-2500), vec![9]);
}
