//! The mode dispatcher: picks the screen layout from the snapshot's mode and
//! composes one whole frame.
use crate::geometry::{all_within, lemma_within_concat, lemma_within_widen, Rect};
use crate::hud::{
    career_info_spec, compose_career_info, compose_enhanced_hud, compose_player_hud,
    enhanced_hud_spec, hud_areas, player_hud_areas, player_hud_spec, render_replay_controls,
    render_replay_info, replay_controls_spec, replay_info_spec, split_bands, split_halves,
};
use crate::scene::{render_track, track_spec};
use crate::state::GameState;
use crate::widgets::{drawn, Drawn, Widget};
use vstd::prelude::*;

verus! {

/// The layout a snapshot gets: split screen only while player two is active;
/// career and replay by their codes; single player for everything else.
pub open spec fn layout_mode_of(s: GameState) -> i32 {
    if s.game_mode == 1 && s.player2_active {
        1
    } else if s.game_mode == 2 {
        2
    } else if s.game_mode == 3 {
        3
    } else {
        0
    }
}

/// How many panels the snapshot's layout has.
pub open spec fn frame_panel_count(s: GameState) -> int {
    let m = layout_mode_of(s);
    if m == 1 {
        8
    } else if m == 2 {
        12
    } else if m == 3 {
        3
    } else {
        10
    }
}

/// Every panel lies on the grid.
pub open spec fn on_grid(r: Seq<Rect>) -> bool {
    forall|i: int| 0 <= i < r.len() ==> (#[trigger] r[i]).wf()
}

/// Single player: the full HUD in `r[0..9]`, player one's track view in `r[9]`.
pub open spec fn singleplayer_spec(r: Seq<Rect>, s: GameState) -> Seq<Drawn> {
    enhanced_hud_spec(r.subrange(0, 9), s) + track_spec(r[9], s, s.player_position, s.player_distance)
}

/// Split screen: player one's panel in `r[0..3]` over their track view in `r[3]`;
/// player two's panel in `r[4..7]` over their track view in `r[7]`.
pub open spec fn splitscreen_spec(r: Seq<Rect>, s: GameState) -> Seq<Drawn> {
    player_hud_spec(r.subrange(0, 3), s, 1) + track_spec(r[3], s, s.player_position, s.player_distance)
        + player_hud_spec(r.subrange(4, 7), s, 2) + track_spec(r[7], s, s.player2_position, s.player2_distance)
}

/// Career: the full HUD in `r[0..9]`, the track view in `r[9]`, the career panel
/// in `r[10..12]`.
pub open spec fn career_spec(r: Seq<Rect>, s: GameState) -> Seq<Drawn> {
    enhanced_hud_spec(r.subrange(0, 9), s) + track_spec(r[9], s, s.player_position, s.player_distance)
        + career_info_spec(r.subrange(10, 12), s)
}

/// Replay: the replay controls in `r[0]`, the track view in `r[1]`, the replay
/// line in `r[2]`.
pub open spec fn replay_spec(r: Seq<Rect>, s: GameState) -> Seq<Drawn> {
    replay_controls_spec(r[0]) + track_spec(r[1], s, s.player_position, s.player_distance)
        + replay_info_spec(r[2], s)
}

/// The whole frame of a snapshot over the panels `r` of its layout.
pub open spec fn frame_spec(r: Seq<Rect>, s: GameState) -> Seq<Drawn> {
    let m = layout_mode_of(s);
    if m == 1 {
        splitscreen_spec(r, s)
    } else if m == 2 {
        career_spec(r, s)
    } else if m == 3 {
        replay_spec(r, s)
    } else {
        singleplayer_spec(r, s)
    }
}

/// The panels of the snapshot's layout on `screen`, as the layout solver places
/// them: header, game area and footer bands (split screen: halves, each banded),
/// with the HUD panels cut out of their bands.
pub fn frame_areas(screen: Rect, state: &GameState) -> (r: Vec<Rect>)
    requires
        screen.wf(),
    ensures
        r@.len() == frame_panel_count(*state),
        all_within(r@, screen),
{
    if state.game_mode == 1 && state.player2_active {
        let h = split_halves(screen);
        let p1 = split_bands(h[0], 4, 2);
        let p2 = split_bands(h[1], 4, 2);
        let mut r = player_hud_areas(p1[0]);
        let mut r2 = player_hud_areas(p2[0]);
        proof {
            lemma_within_widen(p1@, h@[0], screen);
            lemma_within_widen(p2@, h@[1], screen);
            lemma_within_widen(r@, p1@[0], screen);
            lemma_within_widen(r2@, p2@[0], screen);
        }
        r.push(p1[1]);
        r2.push(p2[1]);
        proof {
            lemma_within_concat(r@, r2@, screen);
        }
        let ghost joined = r@ + r2@;
        r.append(&mut r2);
        assert(r@ == joined);
        r
    } else if state.game_mode == 2 {
        let b = split_bands(screen, 7, 3);
        let mut r = hud_areas(b[0]);
        let mut c = split_halves(b[2]);
        proof {
            lemma_within_widen(r@, b@[0], screen);
            lemma_within_widen(c@, b@[2], screen);
        }
        r.push(b[1]);
        proof {
            lemma_within_concat(r@, c@, screen);
        }
        let ghost joined = r@ + c@;
        r.append(&mut c);
        assert(r@ == joined);
        r
    } else if state.game_mode == 3 {
        let b = split_bands(screen, 3, 2);
        b
    } else {
        let b = split_bands(screen, 6, 2);
        let mut r = hud_areas(b[0]);
        proof {
            lemma_within_widen(r@, b@[0], screen);
        }
        r.push(b[1]);
        r
    }
}

/// Composes the frame of `state` over the panels `r` of its layout.
pub fn compose_frame(r: &Vec<Rect>, state: &GameState) -> (w: Vec<Widget>)
    requires
        r@.len() == frame_panel_count(*state),
        on_grid(r@),
    ensures
        drawn(w@) == frame_spec(r@, *state),
{
    let ghost s = *state;
    let mut out: Vec<Widget> = Vec::new();
    assert(drawn(out@) =~= seq![]);
    if state.game_mode == 1 && state.player2_active {
        assert(r@[3].wf() && r@[7].wf());
        compose_player_hud(&mut out, r, 0, state, 1);
        render_track(&mut out, r[3], state, state.player_position, state.player_distance);
        compose_player_hud(&mut out, r, 4, state, 2);
        render_track(&mut out, r[7], state, state.player2_position, state.player2_distance);
        assert(drawn(out@) =~= splitscreen_spec(r@, s));
    } else if state.game_mode == 2 {
        assert(r@[9].wf());
        compose_enhanced_hud(&mut out, r, 0, state);
        render_track(&mut out, r[9], state, state.player_position, state.player_distance);
        compose_career_info(&mut out, r, 10, state);
        assert(drawn(out@) =~= career_spec(r@, s));
    } else if state.game_mode == 3 {
        assert(r@[1].wf());
        render_replay_controls(&mut out, r[0]);
        render_track(&mut out, r[1], state, state.player_position, state.player_distance);
        render_replay_info(&mut out, r[2], state);
        assert(drawn(out@) =~= replay_spec(r@, s));
    } else {
        assert(r@[9].wf());
        compose_enhanced_hud(&mut out, r, 0, state);
        render_track(&mut out, r[9], state, state.player_position, state.player_distance);
        assert(drawn(out@) =~= singleplayer_spec(r@, s));
    }
    out
}

/// Composes the frame of `state` on `screen`, routed by the snapshot's mode, over
/// the panels the layout solver gives.
pub fn render_frame(screen: Rect, state: &GameState) -> (w: Vec<Widget>)
    requires
        screen.wf(),
    ensures
        exists|r: Seq<Rect>|
            r.len() == frame_panel_count(*state) && all_within(r, screen) && drawn(w@)
                == #[trigger] frame_spec(r, *state),
{
    let r = frame_areas(screen, state);
    assert(on_grid(r@));
    compose_frame(&r, state)
}

} // verus!
