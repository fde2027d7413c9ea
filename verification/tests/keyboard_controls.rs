use ball_simulation::controls::{changes_params, command_for_key, Adjustment, Command, Direction, Key, Param};

const ALL_KEYS: [Key; 17] = [
    Key::ArrowUp, Key::ArrowDown, Key::ArrowLeft, Key::ArrowRight, Key::KeyD, Key::KeyF, Key::KeyR,
    Key::KeyT, Key::KeyV, Key::KeyB, Key::KeyC, Key::KeyX, Key::KeyZ, Key::KeyA, Key::Space,
    Key::KeyH, Key::Other,
];

fn adjustment(key: Key) -> Adjustment {
    match command_for_key(key) {
        Command::Adjust(a) => a,
        other => panic!("{:?} is not an adjustment: {:?}", key, other),
    }
}

#[test]
fn arrows_move_gravity() {
    assert_eq!(
        adjustment(Key::ArrowUp),
        Adjustment { param: Param::GravityY, direction: Direction::Increase, step_milli: 100, limit_milli: None }
    );
    assert_eq!(
        adjustment(Key::ArrowDown),
        Adjustment { param: Param::GravityY, direction: Direction::Decrease, step_milli: 100, limit_milli: None }
    );
    assert_eq!(
        adjustment(Key::ArrowLeft),
        Adjustment { param: Param::GravityX, direction: Direction::Increase, step_milli: 100, limit_milli: None }
    );
    assert_eq!(
        adjustment(Key::ArrowRight),
        Adjustment { param: Param::GravityX, direction: Direction::Decrease, step_milli: 100, limit_milli: None }
    );
}

#[test]
fn clamped_parameters_have_their_limits() {
    let expected = [
        (Key::KeyD, Param::Damping, Direction::Decrease, 5, 800),
        (Key::KeyF, Param::Damping, Direction::Increase, 5, 999),
        (Key::KeyR, Param::Restitution, Direction::Decrease, 50, 0),
        (Key::KeyT, Param::Restitution, Direction::Increase, 50, 1000),
        (Key::KeyV, Param::MaxVelocity, Direction::Decrease, 1000, 1000),
        (Key::KeyB, Param::MaxVelocity, Direction::Increase, 1000, 100000),
        (Key::KeyC, Param::CollisionSoftness, Direction::Decrease, 50, 100),
        (Key::KeyX, Param::CollisionSoftness, Direction::Increase, 50, 1000),
        (Key::KeyZ, Param::Timestep, Direction::Decrease, 1, 1),
        (Key::KeyA, Param::Timestep, Direction::Increase, 1, 1000),
    ];
    for (key, param, direction, step, limit) in expected {
        assert_eq!(
            adjustment(key),
            Adjustment { param, direction, step_milli: step, limit_milli: Some(limit) }
        );
    }
}

#[test]
fn special_keys() {
    assert_eq!(command_for_key(Key::Space), Command::ResetGravity);
    assert_eq!(command_for_key(Key::KeyH), Command::ShowHelp);
    assert_eq!(command_for_key(Key::Other), Command::Ignore);
}

#[test]
fn only_adjustments_and_reset_change_params() {
    assert!(changes_params(&command_for_key(Key::KeyD)));
    assert!(changes_params(&command_for_key(Key::Space)));
    assert!(!changes_params(&command_for_key(Key::KeyH)));
    assert!(!changes_params(&command_for_key(Key::Other)));
}

#[test]
fn paired_keys_agree() {
    for down in ALL_KEYS {
        for up in ALL_KEYS {
            if let (Command::Adjust(d), Command::Adjust(u)) = (command_for_key(down), command_for_key(up)) {
                if d.param == u.param && d.direction == Direction::Decrease && u.direction == Direction::Increase {
                    assert_eq!(d.step_milli, u.step_milli);
                    match (d.limit_milli, u.limit_milli) {
                        (None, None) => {}
                        (Some(floor), Some(ceiling)) => assert!(floor < ceiling),
                        _ => panic!("one key of {:?} is clamped, the other is not", d.param),
                    }
                }
                if d.param == u.param && d.direction == u.direction {
                    assert_eq!(down, up);
                }
            }
        }
    }
}
