use bracket_lib::prelude::RandomNumberGenerator;
use flappy_dragon::obstacle::Obstacle;
use flappy_dragon::player::Player;
use flappy_dragon::state::{GameMode, Key, State};

fn playing_state(seed: u64) -> State {
    let mut s = State::with_rng(RandomNumberGenerator::seeded(seed));
    assert!(!s.tick(0, Some(Key::Play)));
    assert_eq!(s.mode, GameMode::Playing);
    s
}

#[test]
fn velocity_from_rest_follows_gravity_then_caps() {
    let mut p = Player::new(5, 250);
    for n in 1..=30 {
        p.gravity_and_move();
        assert_eq!(p.velocity, std::cmp::min(20, 2 * n));
        if n >= 10 {
            assert_eq!(p.velocity, 20);
        }
    }
}

#[test]
fn first_ticks_move_down_by_velocity() {
    let mut p = Player::new(5, 250);
    p.gravity_and_move();
    assert_eq!(p, Player { x: 6, y: 252, velocity: 2, flap_cycle: 0 });
    p.gravity_and_move();
    assert_eq!(p, Player { x: 7, y: 256, velocity: 4, flap_cycle: 0 });
}

#[test]
fn flap_sets_velocity_and_cycle_from_any_state() {
    let starts = [
        Player { x: 5, y: 250, velocity: 0, flap_cycle: 0 },
        Player { x: 40, y: 0, velocity: 20, flap_cycle: 25 },
        Player { x: 7, y: 480, velocity: -20, flap_cycle: 39 },
    ];
    for start in starts {
        let mut p = start;
        p.flap();
        assert_eq!(p.velocity, -20);
        assert_eq!(p.flap_cycle, 39);
        assert_eq!(p.x, start.x);
        assert_eq!(p.y, start.y);
    }
}

#[test]
fn flap_cycle_decays_in_three_bands_to_zero() {
    let mut p = Player::new(5, 250);
    p.flap();
    let expected = [35, 31, 27, 26, 25, 24, 23, 22, 21, 20, 15, 10, 5, 0, 0, 0];
    for e in expected {
        p.gravity_and_move();
        assert_eq!(p.flap_cycle, e);
    }
}

#[test]
fn flap_cycle_settles_from_every_start() {
    for c in 0..=39 {
        let mut p = Player { x: 0, y: 250, velocity: 0, flap_cycle: c };
        for _ in 0..c {
            p.gravity_and_move();
            assert!(p.flap_cycle >= 0);
        }
        assert_eq!(p.flap_cycle, 0);
    }
}

#[test]
fn height_is_clamped_at_top() {
    let mut p = Player::new(5, 10);
    p.flap();
    p.gravity_and_move();
    assert_eq!(p.y, 0);
    assert_eq!(p.velocity, -18);
    for _ in 0..5 {
        p.gravity_and_move();
        assert!(p.y >= 0);
    }
    assert_eq!(p.y, 0);
}

#[test]
fn sprite_frame_and_render_row() {
    let p = Player { x: 5, y: 257, velocity: 0, flap_cycle: 39 };
    assert_eq!(p.sprite_frame(), 3);
    assert_eq!(p.render_y(), 21);
    let q = Player { x: 5, y: 9, velocity: 0, flap_cycle: 9 };
    assert_eq!(q.sprite_frame(), 0);
    assert_eq!(q.render_y(), -4);
}

#[test]
fn no_collision_when_hit_box_inside_gap() {
    let ob = Obstacle { x: 22, gap_y: 25, size: 8 };
    let p = Player::new(20, 250);
    assert!(!ob.hit_obstacle(&p));
}

#[test]
fn collision_when_hit_box_above_gap() {
    let ob = Obstacle { x: 22, gap_y: 25, size: 8 };
    let p = Player::new(20, 100);
    assert!(ob.hit_obstacle(&p));
}

#[test]
fn collision_when_hit_box_below_gap() {
    let ob = Obstacle { x: 22, gap_y: 25, size: 8 };
    // hit box rows [26, 30], gap bottom 29
    let p = Player::new(20, 280);
    assert!(ob.hit_obstacle(&p));
    // hit box rows [25, 29] still fits
    let q = Player::new(20, 270);
    assert!(!ob.hit_obstacle(&q));
}

#[test]
fn no_collision_outside_horizontal_extent() {
    let ob = Obstacle { x: 22, gap_y: 25, size: 8 };
    assert!(!ob.hit_obstacle(&Player::new(22, 100)));
    assert!(!ob.hit_obstacle(&Player::new(13, 100)));
    assert!(ob.hit_obstacle(&Player::new(14, 100)));
    assert!(ob.hit_obstacle(&Player::new(21, 100)));
}

#[test]
fn gap_size_shrinks_with_score_to_floor() {
    assert_eq!(Obstacle::with_gap(80, 0, 25).size, 20);
    assert_eq!(Obstacle::with_gap(80, 5, 25).size, 15);
    assert_eq!(Obstacle::with_gap(80, 12, 25).size, 8);
    assert_eq!(Obstacle::with_gap(80, 30, 25), Obstacle { x: 80, gap_y: 25, size: 8 });
}

#[test]
fn random_gaps_stay_in_range_and_vary() {
    let mut rng = RandomNumberGenerator::seeded(42);
    let mut seen = std::collections::BTreeSet::new();
    for _ in 0..500 {
        let ob = Obstacle::new(100, 3, &mut rng);
        assert_eq!(ob.x, 100);
        assert_eq!(ob.size, 17);
        assert!(ob.gap_y >= 10 && ob.gap_y < 40);
        seen.insert(ob.gap_y);
    }
    assert!(seen.len() > 10);
}

#[test]
fn wall_rows_align_to_blocks() {
    let ob = Obstacle { x: 80, gap_y: 25, size: 20 };
    assert_eq!(ob.upper_wall_rows(), vec![-1, 1, 3, 5, 7, 9, 11, 13]);
    assert_eq!(ob.lower_wall_rows(), vec![35, 37, 39, 41, 43, 45, 47, 49]);
    let ob2 = Obstacle { x: 80, gap_y: 14, size: 8 };
    assert_eq!(ob2.upper_wall_rows(), vec![0, 2, 4, 6, 8]);
    assert_eq!(ob2.lower_wall_rows().len(), 16);
    assert_eq!(ob.screen_x(30), 50);
}

#[test]
fn physics_ticks_only_past_frame_duration() {
    let mut s = playing_state(1);
    s.tick(30_000, None);
    assert_eq!(s.frame_time, 30_000);
    assert_eq!(s.player.x, 5);
    s.tick(20_000, None);
    assert_eq!(s.frame_time, 50_000);
    assert_eq!(s.player.x, 5);
    s.tick(1, None);
    assert_eq!(s.frame_time, 0);
    assert_eq!(s.player.x, 6);
    assert_eq!(s.player.velocity, 2);
}

#[test]
fn flap_input_applies_without_a_tick() {
    let mut s = playing_state(2);
    s.tick(10, Some(Key::Flap));
    assert_eq!(s.player.x, 5);
    assert_eq!(s.player.velocity, -20);
    assert_eq!(s.player.flap_cycle, 39);
}

#[test]
fn passing_wall_scores_and_spawns_next() {
    let mut s = playing_state(3);
    s.obstacle = Obstacle { x: 5, gap_y: 25, size: 20 };
    s.score = 3;
    s.tick(60_000, None);
    assert_eq!(s.player.x, 6);
    assert_eq!(s.score, 4);
    assert_eq!(s.obstacle.x, 86);
    assert_eq!(s.obstacle.size, 16);
    assert!(s.obstacle.gap_y >= 10 && s.obstacle.gap_y < 40);
    assert_eq!(s.mode, GameMode::Playing);
}

#[test]
fn hitting_wall_ends_game() {
    let mut s = playing_state(4);
    s.obstacle = Obstacle { x: 10, gap_y: 35, size: 8 };
    s.tick(0, None);
    assert_eq!(s.mode, GameMode::End);
}

#[test]
fn falling_off_screen_ends_game() {
    let mut s = playing_state(5);
    s.player = Player { x: 5, y: 490, velocity: 20, flap_cycle: 0 };
    s.obstacle = Obstacle { x: 70, gap_y: 25, size: 20 };
    s.tick(60_000, None);
    assert_eq!(s.player.y, 510);
    assert_eq!(s.mode, GameMode::End);
}

#[test]
fn restart_resets_from_end() {
    let mut s = playing_state(6);
    s.score = 7;
    s.player = Player { x: 300, y: 520, velocity: 20, flap_cycle: 5 };
    s.obstacle = Obstacle { x: 320, gap_y: 12, size: 13 };
    s.frame_time = 1234;
    s.mode = GameMode::End;
    assert!(!s.tick(0, Some(Key::Play)));
    assert_eq!(s.mode, GameMode::Playing);
    assert_eq!(s.score, 0);
    assert_eq!(s.frame_time, 0);
    assert_eq!(s.player, Player { x: 5, y: 250, velocity: 0, flap_cycle: 0 });
    assert_eq!(s.obstacle.x, 80);
    assert_eq!(s.obstacle.size, 20);
}

#[test]
fn restart_resets_from_any_mode() {
    for mode in [GameMode::Menu, GameMode::Playing, GameMode::End] {
        let mut s = State::with_rng(RandomNumberGenerator::seeded(9));
        s.mode = mode;
        s.score = 2;
        s.restart();
        assert_eq!(s.mode, GameMode::Playing);
        assert_eq!(s.score, 0);
        assert_eq!(s.player, Player::new(5, 250));
    }
}

#[test]
fn new_game_starts_in_menu() {
    let s = State::new();
    assert_eq!(s.mode, GameMode::Menu);
    assert_eq!(s.score, 0);
    assert_eq!(s.player, Player::new(5, 250));
    assert_eq!(s.obstacle.x, 80);
    assert_eq!(s.obstacle.size, 20);
}

#[test]
fn menu_transitions() {
    let mut s = State::with_rng(RandomNumberGenerator::seeded(10));
    assert!(!s.tick(0, None));
    assert_eq!(s.mode, GameMode::Menu);
    assert!(!s.tick(0, Some(Key::Flap)));
    assert_eq!(s.mode, GameMode::Menu);
    assert!(s.tick(0, Some(Key::Quit)));
    assert_eq!(s.mode, GameMode::Menu);
    assert!(!s.tick(0, Some(Key::Play)));
    assert_eq!(s.mode, GameMode::Playing);
}

#[test]
fn playing_ignores_menu_keys() {
    let mut s = playing_state(11);
    assert!(!s.tick(0, Some(Key::Quit)));
    assert_eq!(s.mode, GameMode::Playing);
    assert!(!s.tick(0, Some(Key::Play)));
    assert_eq!(s.mode, GameMode::Playing);
}

#[test]
fn end_screen_transitions() {
    let mut s = playing_state(12);
    s.mode = GameMode::End;
    assert!(!s.tick(70_000, Some(Key::Other)));
    assert_eq!(s.mode, GameMode::End);
    assert_eq!(s.player.x, 5);
    assert!(s.dead(Some(Key::Quit)));
    assert_eq!(s.mode, GameMode::End);
    assert!(!s.main_menu(Some(Key::Play)));
    assert_eq!(s.mode, GameMode::Playing);
}
