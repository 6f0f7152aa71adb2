use flappy_animals::physics::{gap_size, Obstacle, Player};

#[test]
fn collision_scenario_below_gap() {
    let player = Player::new(10, 10);
    let obstacle = Obstacle { x_halves: 30, gap_y: 40, size: 20, scored: false };
    assert!(obstacle.hit_obstacle(&player));
}

#[test]
fn collision_scenario_built_from_score() {
    let player = Player::new(10, 10);
    let obstacle = Obstacle::with_gap(15, 40, 40);
    assert_eq!(obstacle.size, 20);
    assert_eq!(obstacle.x_halves, 30);
    assert!(obstacle.hit_obstacle(&player));
}

#[test]
fn no_collision_inside_gap() {
    // rows [30, 44) inside the gap [25, 45)
    let player = Player::new(10, 30);
    let obstacle = Obstacle::with_gap(15, 0, 35);
    assert_eq!(obstacle.size, 40);
    assert!(!obstacle.hit_obstacle(&player));
}

#[test]
fn no_collision_without_horizontal_overlap() {
    let obstacle = Obstacle { x_halves: 30, gap_y: 40, size: 20, scored: false };
    // columns [x, x + 14) must hold column 15
    assert!(obstacle.hit_obstacle(&Player::new(15, 10)));
    assert!(!obstacle.hit_obstacle(&Player::new(16, 10)));
    assert!(!obstacle.hit_obstacle(&Player::new(1, 10)));
    assert!(obstacle.hit_obstacle(&Player::new(2, 10)));
}

#[test]
fn collision_above_gap() {
    let obstacle = Obstacle { x_halves: 30, gap_y: 40, size: 20, scored: false };
    // rows [29, 43) start above the gap [30, 50)
    assert!(obstacle.hit_obstacle(&Player::new(10, 29)));
    assert!(!obstacle.hit_obstacle(&Player::new(10, 30)));
    // rows [37, 51) reach past the gap's end
    assert!(obstacle.hit_obstacle(&Player::new(10, 37)));
    assert!(!obstacle.hit_obstacle(&Player::new(10, 36)));
}

#[test]
fn gap_size_scenarios() {
    assert_eq!(gap_size(0), 40);
    assert_eq!(gap_size(1), 40);
    assert_eq!(gap_size(2), 39);
    assert_eq!(gap_size(10), 35);
    assert_eq!(gap_size(40), 20);
    assert_eq!(gap_size(50), 20);
    assert_eq!(gap_size(i32::MAX), 20);
    assert_eq!(gap_size(-3), 41);
}

#[test]
fn gap_size_floor_and_monotone() {
    let mut last = gap_size(-100);
    for s in -99..200 {
        let g = gap_size(s);
        assert!(g >= 20);
        assert!(g <= last);
        last = g;
    }
}

#[test]
fn new_obstacle_at_score_zero() {
    for _ in 0..200 {
        let o = Obstacle::new(120, 0);
        assert_eq!(o.size, 40);
        assert!(o.gap_y >= 30 && o.gap_y < 60);
        assert_eq!(o.x_halves, 240);
        assert!(!o.scored);
    }
}

#[test]
fn new_obstacle_at_score_fifty() {
    let o = Obstacle::new(120, 50);
    assert_eq!(o.size, 20);
    assert!(o.gap_y >= 30 && o.gap_y < 60);
}

#[test]
fn gravity_from_rest() {
    let mut p = Player::new(2, 25);
    p.gravity_to_move();
    assert_eq!(p.velocity, 2);
    assert_eq!(p.y, 25);
    for _ in 0..4 {
        p.gravity_to_move();
    }
    assert_eq!(p.velocity, 10);
    assert_eq!(p.y, 26);
    assert_eq!(p.x, 2);
}

#[test]
fn gravity_caps_velocity() {
    let mut p = Player { x: 0, y: 10, velocity: 19 };
    p.gravity_to_move();
    assert_eq!(p.velocity, 20);
    assert_eq!(p.y, 12);
    p.gravity_to_move();
    assert_eq!(p.velocity, 20);
    assert_eq!(p.y, 14);
}

#[test]
fn gravity_rounds_rising_moves_down() {
    let mut p = Player { x: 0, y: 10, velocity: -25 };
    p.gravity_to_move();
    assert_eq!(p.velocity, -23);
    assert_eq!(p.y, 7);
}

#[test]
fn gravity_never_leaves_row_negative() {
    for v in [-25, -1000, i32::MIN, -3, 0, 5, 100, i32::MAX] {
        for y in [0, 1, 2, 3, 50] {
            let mut p = Player { x: 0, y, velocity: v };
            p.gravity_to_move();
            assert!(p.y >= 0);
        }
    }
    let mut p = Player { x: 0, y: i32::MAX, velocity: i32::MAX };
    p.gravity_to_move();
    assert_eq!(p.y, i32::MAX);
}

#[test]
fn flap_overrides_velocity() {
    let mut p = Player { x: 3, y: 40, velocity: 20 };
    p.flap();
    assert_eq!(p, Player { x: 3, y: 40, velocity: -25 });
}

#[test]
fn obstacle_scores_once() {
    let player = Player::new(2, 25);
    let mut o = Obstacle { x_halves: 6, gap_y: 40, size: 40, scored: false };
    assert!(!o.try_score(&player));
    o.advance();
    o.advance();
    assert_eq!(o.x_halves, 4);
    assert_eq!(o.screen_column(), 2);
    assert!(!o.try_score(&player));
    o.advance();
    assert_eq!(o.screen_column(), 1);
    assert!(o.try_score(&player));
    assert!(o.scored);
    assert!(!o.try_score(&player));
    o.advance();
    assert!(!o.try_score(&player));
    assert!(o.scored);
}

#[test]
fn walls_around_gap() {
    let o = Obstacle { x_halves: 10, gap_y: 40, size: 21, scored: false };
    assert_eq!(o.upper_wall_end(), 30);
    assert_eq!(o.lower_wall_start(), 50);
}

#[test]
fn screen_column_rounds_toward_zero() {
    let o = Obstacle { x_halves: -3, gap_y: 40, size: 20, scored: false };
    assert_eq!(o.screen_column(), -1);
    let o = Obstacle { x_halves: 3, gap_y: 40, size: 20, scored: false };
    assert_eq!(o.screen_column(), 1);
}
