use creeps::game::{Game, Phase, MAX_ACTIVE_MOBS};
use creeps::hud::{decimal_digits, Hud, Message};
use creeps::motion::{
    velocity_from, Facing, Intents, Player, Point, AXIS_SPEED, DIAGONAL_AXIS_SPEED,
};
use creeps::spawn::{
    draw_spawn, trajectory_from, variant_from_index, Mob, MobVariant, SpawnDraws,
    MAX_PERTURBATION, MOB_MAX_SPEED, MOB_MIN_SPEED, QUARTER_TURN,
};

fn screen() -> Point {
    Point { x: 480_000, y: 720_000 }
}

fn start() -> Point {
    Point { x: 240_000, y: 450_000 }
}

fn intents(right: bool, left: bool, down: bool, up: bool) -> Intents {
    Intents { right, left, down, up }
}

fn all_intents() -> Vec<Intents> {
    let mut v = Vec::new();
    for bits in 0u8..16 {
        v.push(intents(bits & 1 != 0, bits & 2 != 0, bits & 4 != 0, bits & 8 != 0));
    }
    v
}

#[test]
fn position_stays_on_screen() {
    for delta in [0u32, 1, 16_667, 250_000, 1_000_000, 10_000_000, u32::MAX] {
        for i in all_intents() {
            let mut p = Player::new(screen());
            p.start(start());
            p.update(i, delta);
            assert!(p.position.x >= 0 && p.position.x <= screen().x);
            assert!(p.position.y >= 0 && p.position.y <= screen().y);
        }
    }
}

#[test]
fn straight_move_covers_exact_distance() {
    let mut p = Player::new(screen());
    p.start(start());
    let out = p.update(intents(true, false, false, false), 100_000);
    assert_eq!(p.position, Point { x: 280_000, y: 450_000 });
    assert!(out.moving);
    assert_eq!(out.horizontal_sign, 1);
    assert_eq!(out.vertical_sign, 0);
    assert_eq!(out.facing, Facing::Side { flip_h: false });
}

#[test]
fn move_clamps_to_edges() {
    let mut p = Player::new(screen());
    p.start(start());
    p.update(intents(false, true, false, true), 10_000_000);
    assert_eq!(p.position, Point { x: 0, y: 0 });
    p.update(intents(true, false, true, false), 10_000_000);
    assert_eq!(p.position, screen());
}

#[test]
fn speed_is_player_speed() {
    let single = [
        intents(true, false, false, false),
        intents(false, true, false, false),
        intents(false, false, true, false),
        intents(false, false, false, true),
    ];
    for i in single {
        let v = velocity_from(i);
        assert_eq!(v.x * v.x + v.y * v.y, AXIS_SPEED * AXIS_SPEED);
    }
    let diagonal = velocity_from(intents(true, false, false, true));
    assert_eq!(diagonal.x, DIAGONAL_AXIS_SPEED);
    assert_eq!(diagonal.y, -DIAGONAL_AXIS_SPEED);
    let c = DIAGONAL_AXIS_SPEED;
    assert!(2 * c * c <= AXIS_SPEED * AXIS_SPEED);
    assert!(AXIS_SPEED * AXIS_SPEED < 2 * (c + 1) * (c + 1));
    let still = velocity_from(intents(false, false, false, false));
    assert_eq!((still.x, still.y), (0, 0));
}

#[test]
fn opposite_inputs_cancel() {
    let mut p = Player::new(screen());
    p.start(start());
    let out = p.update(intents(true, true, false, false), 500_000);
    assert_eq!(p.position, start());
    assert!(!out.moving);
    assert_eq!(out.facing, Facing::Keep);
    let v = velocity_from(intents(true, true, true, false));
    assert_eq!((v.x, v.y), (0, AXIS_SPEED));
}

#[test]
fn horizontal_facing_takes_priority() {
    let mut p = Player::new(screen());
    p.start(start());
    let out = p.update(intents(false, true, true, false), 1_000);
    assert_eq!(out.facing, Facing::Side { flip_h: true });
    let out = p.update(intents(false, false, true, false), 1_000);
    assert_eq!(out.facing, Facing::Vertical { flip_v: true });
    let out = p.update(intents(false, false, false, true), 1_000);
    assert_eq!(out.facing, Facing::Vertical { flip_v: false });
}

#[test]
fn spawn_draws_in_range() {
    for _ in 0..200 {
        let d = draw_spawn(5_000);
        assert!(d.offset <= 5_000);
        assert!(d.perturbation >= -MAX_PERTURBATION && d.perturbation <= MAX_PERTURBATION);
        assert!(d.speed >= MOB_MIN_SPEED && d.speed <= MOB_MAX_SPEED);
        let t = trajectory_from(Point { x: 1, y: 2 }, 30_000, d);
        assert!(t.speed >= 150 && t.speed <= 250);
        assert!((t.heading - 30_000).abs() <= 45_000);
    }
    assert_eq!(draw_spawn(0).offset, 0);
}

#[test]
fn trajectory_exact_values() {
    let d = SpawnDraws { offset: 10, perturbation: -45_000, speed: 150, variant: MobVariant::Swim };
    let t = trajectory_from(Point { x: 7, y: 9 }, 180_000, d);
    assert_eq!(t.position, Point { x: 7, y: 9 });
    assert_eq!(t.heading, 135_000);
    assert_eq!(t.rotation, 135_000 + QUARTER_TURN);
    assert_eq!(t.speed, 150);
    let m = Mob::spawn(Point { x: 7, y: 9 }, 180_000, d);
    assert_eq!(m.trajectory, t);
    assert_eq!(m.variant, MobVariant::Swim);
}

#[test]
fn variants_by_index() {
    assert_eq!(variant_from_index(0), MobVariant::Walk);
    assert_eq!(variant_from_index(1), MobVariant::Swim);
    assert_eq!(variant_from_index(2), MobVariant::Fly);
}

#[test]
fn score_tick_only_while_playing() {
    let mut g = Game::new(screen(), start());
    g.score_timer_elapsed();
    assert_eq!(g.score, 0);
    g.new_game();
    g.score_timer_elapsed();
    assert_eq!(g.score, 1);
    assert_eq!(g.hud.score, 1);
    g.game_over();
    g.score_timer_elapsed();
    assert_eq!(g.score, 1);
}

#[test]
fn new_game_resets_score() {
    let mut g = Game::new(screen(), start());
    g.new_game();
    for _ in 0..5 {
        g.score_timer_elapsed();
    }
    assert_eq!(g.score, 5);
    g.new_game();
    assert_eq!(g.score, 0);
    assert_eq!(g.hud.score, 0);
    assert_eq!(g.phase, Phase::Playing);
    g.game_over();
    g.new_game();
    assert_eq!(g.score, 0);
    assert_eq!(g.phase, Phase::Playing);
}

#[test]
fn full_round_scenario() {
    let mut g = Game::new(screen(), start());
    assert_eq!(g.phase, Phase::Idle);
    assert_eq!(g.score, 0);
    g.new_game();
    assert_eq!(g.phase, Phase::Playing);
    assert_eq!(g.score, 0);
    assert_eq!(g.hud.message, Message::GetReady);
    assert_eq!(g.hud.message.text(), "Get Ready");
    assert!(g.hud.message_visible);
    assert!(g.start_timer_armed);
    assert_eq!(g.player.position, start());
    assert!(g.player.visible && g.player.monitoring);
    g.start_timer_elapsed();
    assert!(g.score_timer_running && g.mob_timer_running);
    for _ in 0..3 {
        g.score_timer_elapsed();
    }
    assert_eq!(g.score, 3);
    g.player_area_entered();
    assert!(!g.player.visible);
    assert!(g.hit_pending);
    assert_eq!(g.phase, Phase::Playing);
    g.flush_deferred();
    assert_eq!(g.phase, Phase::GameOver);
    assert_eq!(g.hud.message.text(), "Game Over");
    assert!(!g.score_timer_running && !g.mob_timer_running);
    assert!(!g.player.monitoring);
    assert!(g.hud.default_message_pending);
    g.score_timer_elapsed();
    assert_eq!(g.score, 3);
}

#[test]
fn reset_message_scenario() {
    let mut h = Hud::new();
    h.show_game_over();
    assert!(h.default_message_pending);
    h.start_visible = false;
    h.reset_message();
    assert_eq!(h.message, Message::DefaultPrompt);
    assert_eq!(h.message.text(), "Dodge the Creeps!");
    assert!(h.message_visible);
    assert!(h.start_visible);
    assert!(!h.default_message_pending);
    h.reset_message();
    assert!(!h.message_visible);
}

#[test]
fn events_outside_playing_are_ignored() {
    let mut g = Game::new(screen(), start());
    let before = g;
    g.start_timer_elapsed();
    g.score_timer_elapsed();
    g.game_over();
    assert_eq!(g, before);
    assert_eq!(g.mob_timer_elapsed(1_000), None);
    assert_eq!(g, before);
}

#[test]
fn start_button_defers_new_game() {
    let mut g = Game::new(screen(), start());
    g.start_button_pressed();
    assert!(!g.hud.start_visible);
    assert_eq!(g.phase, Phase::Idle);
    g.flush_deferred();
    assert_eq!(g.phase, Phase::Playing);
    assert!(!g.hud.start_requested);
}

#[test]
fn hit_ignored_when_disarmed() {
    let mut g = Game::new(screen(), start());
    let before = g;
    g.player_area_entered();
    assert_eq!(g, before);
}

#[test]
fn mob_spawns_are_capped() {
    let mut g = Game::new(screen(), start());
    g.new_game();
    assert_eq!(g.mob_timer_elapsed(1_000), None);
    g.start_timer_elapsed();
    for _ in 0..MAX_ACTIVE_MOBS {
        let d = g.mob_timer_elapsed(1_000).unwrap();
        assert!(d.offset <= 1_000);
    }
    assert_eq!(g.active_mobs, MAX_ACTIVE_MOBS);
    assert_eq!(g.mob_timer_elapsed(1_000), None);
    g.mob_left_area();
    assert_eq!(g.active_mobs, MAX_ACTIVE_MOBS - 1);
    assert!(g.mob_timer_elapsed(1_000).is_some());
}

#[test]
fn score_text_digits() {
    assert_eq!(decimal_digits(0), b"0".to_vec());
    assert_eq!(decimal_digits(305), b"305".to_vec());
    assert_eq!(decimal_digits(u64::MAX), u64::MAX.to_string().into_bytes());
    let mut h = Hud::new();
    h.update_score(42);
    assert_eq!(h.score_text(), b"42".to_vec());
}

#[test]
fn message_timer_hides_get_ready() {
    let mut g = Game::new(screen(), start());
    g.new_game();
    g.message_timer_elapsed();
    assert!(!g.hud.message_visible);
    assert!(!g.hud.message_timer_running);
}
