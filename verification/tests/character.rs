use sidescroller::character::{gravity, gravity_bucket, Character};
use sidescroller::controls::Controls;
use sidescroller::state::CharacterStateEnum;
use sidescroller::terrain::TerrainMap;

fn no_input() -> Controls {
    Controls::none()
}

fn flat_map() -> TerrainMap {
    TerrainMap::new(500, 434, 0)
}

#[test]
fn control_then_update_keeps_frames_in_range() {
    let map = flat_map();
    let held = Controls { up: true, down: false, left: false, right: false };
    let mut ch = Character::new((0, 355, 0));
    ch.state.state = CharacterStateEnum::Walking(39);
    ch.control(&held);
    ch.update(&held, &map);
    match ch.state.state {
        CharacterStateEnum::Walking(i) => assert!(i < 40),
        other => panic!("unexpected phase {:?}", other),
    }

    let mut ch = Character::new((0, 355, 0));
    ch.state.state = CharacterStateEnum::Running(29);
    let right = Controls { up: false, down: false, left: false, right: true };
    ch.control(&right);
    ch.update(&right, &map);
    match ch.state.state {
        CharacterStateEnum::Running(i) => assert!(i < 30),
        other => panic!("unexpected phase {:?}", other),
    }
}

#[test]
fn jump_is_idempotent_while_jumping() {
    let mut ch = Character::new((0, 355, 0));
    ch.state.state = CharacterStateEnum::Jumping(7);
    ch.jump();
    assert_eq!(ch.state.state, CharacterStateEnum::Jumping(7));
    ch.jump();
    assert_eq!(ch.state.state, CharacterStateEnum::Jumping(7));
}

#[test]
fn walking_and_running_wrap_around() {
    let map = flat_map();
    let mut ch = Character::new((0, 355, 0));
    ch.state.state = CharacterStateEnum::Walking(39);
    ch.update_animation(&map);
    assert_eq!(ch.state.state, CharacterStateEnum::Walking(0));

    ch.state.state = CharacterStateEnum::Running(29);
    ch.update_animation(&map);
    assert_eq!(ch.state.state, CharacterStateEnum::Running(0));
}

#[test]
fn holding_right_from_idle_runs() {
    let map = flat_map();
    let right = Controls { up: false, down: false, left: false, right: true };
    let mut ch = Character::new((0, 355, 0));
    ch.control(&right);
    assert_eq!(ch.state.state, CharacterStateEnum::Running(0));
    assert!(!ch.state.facing_left);
    ch.update(&right, &map);
    assert_eq!(ch.velocity.0, 5);
}

#[test]
fn holding_left_from_idle_runs_facing_left() {
    let left = Controls { up: false, down: false, left: true, right: false };
    let mut ch = Character::new((0, 355, 0));
    ch.control(&left);
    assert_eq!(ch.state.state, CharacterStateEnum::Running(0));
    assert!(ch.state.facing_left);
}

#[test]
fn jump_then_one_tick() {
    let map = flat_map();
    let mut ch = Character::new((0, 355, 0));
    ch.jump();
    assert_eq!(ch.state.state, CharacterStateEnum::Jumping(0));
    ch.update(&no_input(), &map);
    assert_eq!(ch.state.state, CharacterStateEnum::Jumping(1));
    assert_eq!(ch.velocity.2, 5);
    assert_eq!(ch.pos.2, 5);
}

#[test]
fn conflicting_presses_cancel_in_every_phase() {
    let map = flat_map();
    let both = Controls { up: false, down: false, left: true, right: true };
    let phases = [
        CharacterStateEnum::Idle,
        CharacterStateEnum::Walking(3),
        CharacterStateEnum::Running(3),
        CharacterStateEnum::Jumping(3),
    ];
    for phase in phases {
        let mut ch = Character::new((100, 355, 50));
        ch.state.state = phase;
        ch.update(&both, &map);
        assert_eq!(ch.velocity.0, 0, "phase {:?} moved horizontally", phase);
    }
}

#[test]
fn landing_returns_to_idle() {
    let map = flat_map();
    let mut ch = Character::new((10, 20, 0));
    ch.state.state = CharacterStateEnum::Jumping(30);
    ch.update_animation(&map);
    assert_eq!(ch.state.state, CharacterStateEnum::Idle);
}

#[test]
fn airborne_frame_strictly_increments() {
    let map = flat_map();
    let mut ch = Character::new((10, 20, 6));
    ch.state.state = CharacterStateEnum::Jumping(30);
    ch.update_animation(&map);
    assert_eq!(ch.state.state, CharacterStateEnum::Jumping(31));
}

#[test]
fn landing_uses_the_cell_under_the_character() {
    // Altitude 7 everywhere: a character at height 6 over its cell lands,
    // one at height 8 does not.
    let map = TerrainMap::new(50, 50, 7);
    let mut ch = Character::new((3, 4, 6));
    ch.state.state = CharacterStateEnum::Jumping(2);
    ch.update_animation(&map);
    assert_eq!(ch.state.state, CharacterStateEnum::Idle);

    let mut ch = Character::new((3, 4, 8));
    ch.state.state = CharacterStateEnum::Jumping(2);
    ch.update_animation(&map);
    assert_eq!(ch.state.state, CharacterStateEnum::Jumping(3));
}

#[test]
fn off_map_cells_count_as_ground_level() {
    // Outside the map the ground is recovered as altitude 0, so a jumper
    // at height 0 lands even though every stored cell says 100.
    let map = TerrainMap::new(10, 10, 100);
    let mut ch = Character::new((-5, 3, 0));
    ch.state.state = CharacterStateEnum::Jumping(1);
    ch.update_animation(&map);
    assert_eq!(ch.state.state, CharacterStateEnum::Idle);
}

#[test]
fn idle_animation_advance_changes_nothing() {
    let map = flat_map();
    let mut ch = Character::new((0, 355, 0));
    ch.state.facing_left = true;
    ch.update_animation(&map);
    assert_eq!(ch.state.state, CharacterStateEnum::Idle);
    assert!(ch.state.facing_left);
    assert_eq!(ch.pos, (0, 355, 0));
}

#[test]
fn ten_tick_jump_keeps_first_bucket_velocity() {
    let map = flat_map();
    let mut ch = Character::new((0, 355, 0));
    ch.jump();
    let mut velocities = Vec::new();
    for _ in 0..10 {
        ch.update(&no_input(), &map);
        velocities.push(ch.velocity.2);
    }
    assert_eq!(velocities, vec![5, 5, 5, 5, 5, 5, 5, 5, 5, 5]);
    assert_eq!(ch.state.state, CharacterStateEnum::Jumping(10));
    assert_eq!(ch.pos, (0, 355, 50));
}

#[test]
fn gravity_table_over_a_full_jump() {
    // Buckets of ten frames walk the table {5, 2, 0, -2, -5}; past the
    // last bucket the velocity stays at -5.
    let map = TerrainMap::new(500, 434, -100000);
    let mut ch = Character::new((0, 355, 0));
    ch.jump();
    let mut velocities = Vec::new();
    for _ in 0..60 {
        ch.update(&no_input(), &map);
        velocities.push(ch.velocity.2);
    }
    for (tick, vz) in velocities.iter().enumerate() {
        let frame = tick + 1;
        let expected = match (frame - 1) / 10 {
            0 => 5,
            1 => 2,
            2 => 0,
            3 => -2,
            _ => -5,
        };
        assert_eq!(*vz, expected, "tick {}", tick);
    }
}

#[test]
fn vertical_input_walks_only_from_idle() {
    let up = Controls { up: true, down: false, left: false, right: false };
    let mut ch = Character::new((0, 355, 0));
    ch.control(&up);
    assert_eq!(ch.state.state, CharacterStateEnum::Walking(0));

    let mut ch = Character::new((0, 355, 0));
    ch.state.state = CharacterStateEnum::Jumping(4);
    ch.control(&up);
    assert_eq!(ch.state.state, CharacterStateEnum::Jumping(4));
}

#[test]
fn horizontal_axis_supersedes_vertical_axis() {
    // Holding up and right together ends the tick Running, not Walking.
    let up_right = Controls { up: true, down: false, left: false, right: true };
    let mut ch = Character::new((0, 355, 0));
    ch.control(&up_right);
    assert_eq!(ch.state.state, CharacterStateEnum::Running(0));
}

#[test]
fn releasing_all_keys_stops_walking_and_running() {
    let mut ch = Character::new((0, 355, 0));
    ch.state.state = CharacterStateEnum::Walking(12);
    ch.control(&no_input());
    assert_eq!(ch.state.state, CharacterStateEnum::Idle);

    let mut ch = Character::new((0, 355, 0));
    ch.state.state = CharacterStateEnum::Running(12);
    ch.control(&no_input());
    assert_eq!(ch.state.state, CharacterStateEnum::Idle);
}

#[test]
fn run_during_jump_only_updates_facing() {
    let mut ch = Character::new((0, 355, 0));
    ch.state.state = CharacterStateEnum::Jumping(9);
    ch.run(true);
    assert_eq!(ch.state.state, CharacterStateEnum::Jumping(9));
    assert!(ch.state.facing_left);
}

#[test]
fn depth_axis_moves_in_every_phase() {
    let map = flat_map();
    let down = Controls { up: false, down: true, left: false, right: false };
    let mut ch = Character::new((0, 100, 50));
    ch.state.state = CharacterStateEnum::Jumping(3);
    ch.update(&down, &map);
    assert_eq!(ch.velocity.1, 2);
    assert_eq!(ch.pos.1, 102);

    let up_down = Controls { up: true, down: true, left: false, right: false };
    let mut ch = Character::new((0, 100, 50));
    ch.state.state = CharacterStateEnum::Jumping(3);
    ch.update(&up_down, &map);
    assert_eq!(ch.velocity.1, 0);
}

#[test]
fn walking_does_not_move_horizontally() {
    let map = flat_map();
    let right = Controls { up: true, down: false, left: false, right: false };
    let mut ch = Character::new((0, 355, 0));
    ch.state.state = CharacterStateEnum::Walking(5);
    ch.update(&right, &map);
    assert_eq!(ch.velocity.0, 0);
    assert_eq!(ch.pos.0, 0);
}

#[test]
fn jumping_frame_saturates_at_the_counter_top() {
    let map = TerrainMap::new(500, 434, -100000);
    let mut ch = Character::new((0, 355, 100));
    ch.state.state = CharacterStateEnum::Jumping(255);
    ch.update_animation(&map);
    assert_eq!(ch.state.state, CharacterStateEnum::Jumping(255));
}

#[test]
fn display_offset_picks_the_sprite_cell() {
    let ch = Character::new((0, 355, 0));
    assert_eq!(ch.display_offset(&CharacterStateEnum::Idle), (0, 0));
    assert_eq!(ch.display_offset(&CharacterStateEnum::Walking(0)), (240, 0));
    assert_eq!(ch.display_offset(&CharacterStateEnum::Walking(25)), (400, 0));
    assert_eq!(ch.display_offset(&CharacterStateEnum::Running(15)), (80, 160));
    assert_eq!(ch.display_offset(&CharacterStateEnum::Jumping(0)), (0, 640));
    assert_eq!(ch.display_offset(&CharacterStateEnum::Jumping(1)), (0, 640));
    assert_eq!(ch.display_offset(&CharacterStateEnum::Jumping(11)), (80, 640));
    assert_eq!(ch.display_offset(&CharacterStateEnum::Jumping(200)), (320, 640));
}

#[test]
fn display_reports_the_render_geometry() {
    let mut ch = Character::new((10, 355, 20));
    ch.state.state = CharacterStateEnum::Running(15);
    ch.state.facing_left = true;
    let frame = ch.display();
    assert_eq!(frame.src, (80, 160, 79, 79));
    assert_eq!(frame.dst, (10, 335, 79, 79));
    assert_eq!(frame.shadow, (10, 424, 79, 20));
    assert!(frame.flip_horizontal);
}

#[test]
fn gravity_table_and_buckets() {
    assert_eq!(gravity(0), 5);
    assert_eq!(gravity(1), 2);
    assert_eq!(gravity(2), 0);
    assert_eq!(gravity(3), -2);
    assert_eq!(gravity(4), -5);
    assert_eq!(gravity_bucket(0), 0);
    assert_eq!(gravity_bucket(1), 0);
    assert_eq!(gravity_bucket(10), 0);
    assert_eq!(gravity_bucket(11), 1);
    assert_eq!(gravity_bucket(41), 4);
    assert_eq!(gravity_bucket(255), 4);
}

#[test]
fn new_character_starts_idle_at_rest() {
    let ch = Character::new((0, 355, 0));
    assert_eq!(ch.height, 79);
    assert_eq!(ch.width, 79);
    assert_eq!(ch.state.state, CharacterStateEnum::Idle);
    assert!(!ch.state.facing_left);
    assert_eq!(ch.pos, (0, 355, 0));
    assert_eq!(ch.velocity, (0, 0, 0));
}
