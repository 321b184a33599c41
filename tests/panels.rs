use rust_renderer::frame::compose_frame;
use rust_renderer::hud::{compose_enhanced_hud, split_bands, split_halves};
use rust_renderer::input::Key;
use rust_renderer::text::{decimal_text, hundredths_text, rounded_text, zero_padded};
use rust_renderer::{
    get_boost_animation, get_building, get_building_style, get_car_design, get_combo_color,
    get_detailed_car, get_health_color, get_hud_style, get_lane_config, get_powerup_icon,
    get_powerup_visual, get_road_char, get_road_marking, get_shield_animation, get_track_name,
    get_track_palette, get_track_style, get_weather_icon, get_wheel_animation, handle_key_event,
    render_enhanced_hud, render_frame, render_menu, render_player_hud, render_replay_info, Color,
    GameState, InputState, Rect, Style, Widget,
};

fn blank() -> GameState {
    GameState {
        player_position: 1,
        player_speed: 0,
        player_distance: 0,
        player_health: 100,
        player_score: 0,
        player_car_type: 0,
        player2_active: false,
        player2_position: 0,
        player2_speed: 0,
        player2_distance: 0,
        player2_health: 100,
        player2_score: 0,
        player2_car_type: 0,
        lap_time: 0,
        game_mode: 0,
        track_type: 0,
        level: 1,
        career_progress: 0,
        boost_active: false,
        boost_remaining: 0,
        shield_active: false,
        shield_remaining: 0,
        invincibility_active: false,
        invincibility_remaining: 0,
        magnet_active: false,
        magnet_remaining: 0,
        slowmo_active: false,
        slowmo_remaining: 0,
        car_count: 0,
        ai_positions: vec![],
        ai_distances: vec![],
        ai_types: vec![],
        ai_is_boss: vec![],
        obstacle_count: 0,
        obstacle_positions: vec![],
        obstacle_distances: vec![],
        obstacle_types: vec![],
        building_count: 0,
        building_positions: vec![],
        building_distances: vec![],
        building_heights: vec![],
        building_types: vec![],
        weather: 0,
        curve_offset: 0,
        elevation: 0,
        tunnel_darkness: 0,
        combo: 0,
        replay_mode: false,
        ghost_position: 0,
        ghost_distance: 0,
    }
}

#[test]
fn split_screen_without_player_two_renders_as_single_player() {
    let screen = Rect::new(0, 0, 100, 40);
    let mut s = blank();
    s.game_mode = 1;
    s.player2_active = false;
    s.player2_position = 2;
    s.player2_distance = 90000;
    s.car_count = 1;
    s.ai_positions = vec![0];
    s.ai_distances = vec![15000];
    s.ai_types = vec![3];
    s.ai_is_boss = vec![false];
    let mut t = blank();
    t.game_mode = 0;
    t.car_count = 1;
    t.ai_positions = vec![0];
    t.ai_distances = vec![15000];
    t.ai_types = vec![3];
    t.ai_is_boss = vec![false];
    let a = format!("{:?}", render_frame(screen, &s));
    let b = format!("{:?}", render_frame(screen, &t));
    assert_eq!(a, b);
    s.player2_active = true;
    let c = format!("{:?}", render_frame(screen, &s));
    assert_ne!(a, c);
}

#[test]
fn unknown_mode_code_uses_single_player_layout() {
    let screen = Rect::new(0, 0, 80, 30);
    let mut s = blank();
    s.game_mode = 17;
    let a = format!("{:?}", render_frame(screen, &s));
    s.game_mode = 0;
    assert_eq!(a, format!("{:?}", render_frame(screen, &s)));
}

#[test]
fn mode_layouts_use_their_panels() {
    let screen = Rect::new(0, 0, 80, 30);
    let mut s = blank();
    s.game_mode = 3;
    s.lap_time = 83456;
    let out = render_frame(screen, &s);
    match &out[0] {
        Widget::Boxed { area, title, centered, .. } => {
            assert_eq!(*area, Rect::new(0, 0, 80, 3));
            assert_eq!(title, "REPLAY MODE");
            assert!(*centered);
        }
        other => panic!("unexpected {:?}", other),
    }
    match out.last().unwrap() {
        Widget::Boxed { area, text, .. } => {
            assert_eq!(*area, Rect::new(0, 28, 80, 2));
            assert_eq!(text, "Time: 83.46s | Best: Ghost Car");
        }
        other => panic!("unexpected {:?}", other),
    }
    s.game_mode = 2;
    s.level = 8;
    s.career_progress = 42600;
    let out = render_frame(screen, &s);
    let n = out.len();
    match (&out[n - 2], &out[n - 1]) {
        (Widget::Boxed { text: a, .. }, Widget::Boxed { text: b, title, .. }) => {
            assert_eq!(a, "Progress: 43%");
            assert_eq!(b, "Defeat boss");
            assert_eq!(title, "Objective");
        }
        other => panic!("unexpected {:?}", other),
    }
    s.game_mode = 1;
    s.player2_active = true;
    let out = render_frame(screen, &s);
    let blocks = out.iter().filter(|w| matches!(w, Widget::Block { .. })).count();
    assert_eq!(blocks, 2);
}

#[test]
fn enhanced_hud_shows_stats_and_gauges() {
    let mut s = blank();
    s.player_score = 1234;
    s.combo = 7;
    s.player_health = 80;
    s.level = 3;
    s.player_speed = 150000;
    s.boost_remaining = 50000;
    s.boost_active = false;
    s.shield_remaining = 0;
    let mut out = Vec::new();
    render_enhanced_hud(&mut out, Rect::new(0, 0, 80, 6), &s);
    assert_eq!(out.len(), 9);
    match &out[0] {
        Widget::Text { text, style, area } => {
            assert_eq!(text, "⭐ 00001234");
            assert_eq!(*style, Style::bold(Color::Yellow));
            assert_eq!(*area, Rect::new(0, 0, 20, 2));
        }
        other => panic!("unexpected {:?}", other),
    }
    match &out[1] {
        Widget::Text { text, style, .. } => {
            assert_eq!(text, "🔥x7");
            assert_eq!(style.fg, Some(Color::Yellow));
        }
        other => panic!("unexpected {:?}", other),
    }
    match &out[2] {
        Widget::Gauge { label, percent, style, title, .. } => {
            assert_eq!(label.as_deref(), Some("❤ 80/100"));
            assert_eq!(*percent, 80);
            assert_eq!(style.fg, Some(Color::Green));
            assert!(title.is_none());
        }
        other => panic!("unexpected {:?}", other),
    }
    match &out[4] {
        Widget::Gauge { label, percent, style, .. } => {
            assert_eq!(label.as_deref(), Some("150"));
            assert_eq!(*percent, 75);
            assert_eq!(style.fg, Some(Color::Yellow));
        }
        other => panic!("unexpected {:?}", other),
    }
    match (&out[5], &out[6]) {
        (Widget::Gauge { percent: p5, style: s5, .. }, Widget::Gauge { percent: p6, style: s6, .. }) => {
            assert_eq!(*p5, 50);
            assert_eq!(*s5, Style::fg(Color::Magenta));
            assert_eq!(*p6, 0);
            assert_eq!(*s6, Style::fg(Color::DarkGray));
        }
        other => panic!("unexpected {:?}", other),
    }
}

#[test]
fn gauges_clamp_out_of_range_values() {
    let mut s = blank();
    s.player_health = 150;
    s.player_speed = -5000;
    s.boost_active = true;
    s.boost_remaining = 250000;
    let mut out = Vec::new();
    render_enhanced_hud(&mut out, Rect::new(0, 0, 80, 6), &s);
    match (&out[2], &out[4], &out[5]) {
        (
            Widget::Gauge { percent: health, .. },
            Widget::Gauge { percent: speed, style: speed_style, .. },
            Widget::Gauge { percent: boost, style: boost_style, .. },
        ) => {
            assert_eq!(*health, 100);
            assert_eq!(*speed, 0);
            assert_eq!(speed_style.fg, Some(Color::Magenta));
            assert_eq!(*boost, 100);
            assert!(boost_style.rapid_blink);
        }
        other => panic!("unexpected {:?}", other),
    }
}

#[test]
fn player_panel_reads_its_player() {
    let mut s = blank();
    s.player2_score = 77;
    s.player2_health = 20;
    s.player2_speed = 99600;
    let mut out = Vec::new();
    render_player_hud(&mut out, Rect::new(0, 0, 100, 4), &s, 2);
    match (&out[0], &out[1], &out[2]) {
        (
            Widget::Boxed { text: a, .. },
            Widget::Gauge { percent, style, title, .. },
            Widget::Boxed { text: c, title: spd, .. },
        ) => {
            assert_eq!(a, "P2\n000077");
            assert_eq!(*percent, 20);
            assert_eq!(style.fg, Some(Color::Red));
            assert_eq!(title.as_deref(), Some("HP"));
            assert_eq!(c, "100\nkm/h");
            assert_eq!(spd, "SPD");
        }
        other => panic!("unexpected {:?}", other),
    }
}

#[test]
fn replay_line_formats_lap_time() {
    let mut s = blank();
    s.lap_time = -1234;
    let mut out = Vec::new();
    render_replay_info(&mut out, Rect::new(0, 0, 40, 2), &s);
    match &out[0] {
        Widget::Boxed { text, .. } => assert_eq!(text, "Time: -1.23s | Best: Ghost Car"),
        other => panic!("unexpected {:?}", other),
    }
}

#[test]
fn menu_marks_only_the_selected_option() {
    let options = vec!["Start".to_string(), "Quit".to_string()];
    let mut out = Vec::new();
    render_menu(&mut out, Rect::new(0, 0, 40, 20), "RACER", &options, 1);
    assert_eq!(out.len(), 3);
    match &out[1] {
        Widget::List { items, title, .. } => {
            assert_eq!(title, "Select Option");
            assert_eq!(items[0].text, "  Start");
            assert_eq!(items[0].style, Style::fg(Color::White));
            assert_eq!(items[1].text, "▶ Quit");
            assert_eq!(items[1].style.bg, Some(Color::Blue));
        }
        other => panic!("unexpected {:?}", other),
    }
    let mut out = Vec::new();
    render_menu(&mut out, Rect::new(0, 0, 40, 20), "RACER", &options, 5);
    match &out[1] {
        Widget::List { items, .. } => assert!(items.iter().all(|i| i.text.starts_with("  "))),
        other => panic!("unexpected {:?}", other),
    }
}

#[test]
fn layout_bands_follow_fixed_rows() {
    let r = split_bands(Rect::new(0, 0, 80, 24), 6, 2);
    assert_eq!(r, vec![Rect::new(0, 0, 80, 6), Rect::new(0, 6, 80, 16), Rect::new(0, 22, 80, 2)]);
    let h = split_halves(Rect::new(0, 0, 80, 24));
    assert_eq!(h, vec![Rect::new(0, 0, 40, 24), Rect::new(40, 0, 40, 24)]);
}

#[test]
fn number_text_formats() {
    assert_eq!(decimal_text(-305), "-305");
    assert_eq!(zero_padded(42, 8), "00000042");
    assert_eq!(zero_padded(-5, 8), "-0000005");
    assert_eq!(zero_padded(123456789, 8), "123456789");
    assert_eq!(rounded_text(2500), "3");
    assert_eq!(rounded_text(2499), "2");
    assert_eq!(rounded_text(-2500), "-3");
    assert_eq!(hundredths_text(12345), "12.35");
    assert_eq!(hundredths_text(7), "0.01");
}

#[test]
fn unknown_codes_fall_back_to_defaults() {
    let car = get_car_design(99, false);
    assert_eq!(car.label, "CAR");
    assert_eq!(car.color, Color::Gray);
    assert_eq!(car.art[3], "  CAR  ");
    assert_eq!(get_car_design(99, true).label, "BOSS!");
    assert_eq!(get_track_name(99), "HIGHWAY RUSH");
    assert_eq!(get_track_name(-1), "HIGHWAY RUSH");
    assert_eq!(get_weather_icon(-1), "☀CLEAR");
    assert_eq!(get_powerup_icon(42), ("⚠", Color::Red));
    assert_eq!(get_building_style(0), ("▓▓▓▓▓▓", Color::Rgb(60, 60, 90)));
    assert_eq!(get_road_char(7), "▓");
    assert_eq!(get_detailed_car(99, false).middle, "│?│");
    assert_eq!(get_powerup_visual(9).name, "UNKNOWN");
    assert_eq!(get_building(8).name, "BUILDING");
    assert_eq!(get_hud_style(9).border_mid, "║ INFO   ║");
    assert_eq!(get_lane_config(9).lane_count, 3);
    assert_eq!(get_road_marking(9).color, Color::Rgb(80, 80, 80));
    assert_eq!(get_track_palette(9).background, Color::Black);
    assert_eq!(get_combo_color(-1), Color::Red);
    assert_eq!(get_combo_color(21), Color::Red);
}

#[test]
fn lookup_tables_by_code() {
    assert_eq!(get_track_name(4), "UNDERGROUND TUNNEL");
    assert_eq!(get_weather_icon(1), "🌧RAIN");
    assert_eq!(get_road_char(1), "▒");
    assert_eq!(get_car_design(5, false).color, Color::Rgb(150, 150, 150));
    assert_eq!(get_combo_color(2), Color::White);
    assert_eq!(get_combo_color(3), Color::Cyan);
    assert_eq!(get_combo_color(11), Color::Magenta);
    assert_eq!(get_health_color(67), Color::Green);
    assert_eq!(get_health_color(66), Color::Yellow);
    assert_eq!(get_health_color(33), Color::Red);
    assert_eq!(get_track_style(4, 0, 0).bg, Some(Color::Rgb(30, 30, 30)));
    assert_eq!(get_track_style(4, 0, 500).bg, Some(Color::Rgb(15, 15, 15)));
    assert_eq!(get_track_style(4, 0, 2000).bg, Some(Color::Rgb(0, 0, 0)));
    assert_eq!(get_track_style(1, 1, 0).bg, Some(Color::Rgb(20, 30, 50)));
    assert_eq!(get_wheel_animation(6), "◑");
    assert_eq!(get_boost_animation(4), "💥");
    assert_eq!(get_shield_animation(3), "◉");
    assert_eq!(get_lane_config(3).lane_width, 12);
}

#[test]
fn keys_press_their_buttons() {
    let s = InputState::from_key(Some(Key::Char('a')));
    assert!(s.p1_left);
    assert_eq!(InputState { p1_left: false, ..s }, InputState::released());
    assert!(InputState::from_key(Some(Key::Esc)).quit);
    assert!(InputState::from_key(Some(Key::Char('Q'))).quit);
    assert!(InputState::from_key(Some(Key::Char(' '))).p1_boost);
    assert!(InputState::from_key(Some(Key::Char('K'))).p2_brake);
    assert!(InputState::from_key(Some(Key::Up)).p1_accel);
    assert_eq!(InputState::from_key(Some(Key::Char('z'))), InputState::released());
    assert_eq!(InputState::from_key(Some(Key::Other)), InputState::released());
    assert_eq!(InputState::from_key(None), InputState::released());
    let mut t = InputState::released();
    t.pause = true;
    handle_key_event(Key::Char('m'), &mut t);
    assert!(t.pause && t.menu);
}

#[test]
fn compose_functions_use_the_given_panels() {
    let panels: Vec<Rect> = (0..9).map(|i| Rect::new(i * 10, 0, 10, 2)).collect();
    let mut out = Vec::new();
    compose_enhanced_hud(&mut out, &panels, 0, &blank());
    let areas: Vec<Rect> = out
        .iter()
        .map(|w| match w {
            Widget::Text { area, .. } | Widget::Gauge { area, .. } => *area,
            other => panic!("unexpected {:?}", other),
        })
        .collect();
    assert_eq!(areas, panels);
    let mut s = blank();
    s.game_mode = 3;
    let r = vec![Rect::new(0, 0, 30, 3), Rect::new(0, 3, 30, 10), Rect::new(0, 13, 30, 2)];
    let out = compose_frame(&r, &s);
    match &out[1] {
        Widget::Block { area, .. } => assert_eq!(*area, Rect::new(0, 3, 30, 10)),
        other => panic!("unexpected {:?}", other),
    }
}
