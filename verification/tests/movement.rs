use salamander_rain::player::{input_direction, MovementKeys};

#[test]
fn keys_steer_the_salamander() {
    let none = MovementKeys::default();
    assert_eq!(input_direction(&none), (0, 0));
    assert_eq!(input_direction(&MovementKeys { w: true, ..none }), (0, 1));
    assert_eq!(input_direction(&MovementKeys { up: true, ..none }), (0, 1));
    assert_eq!(input_direction(&MovementKeys { s: true, ..none }), (0, -1));
    assert_eq!(input_direction(&MovementKeys { a: true, ..none }), (-1, 0));
    assert_eq!(input_direction(&MovementKeys { right: true, ..none }), (1, 0));
    assert_eq!(input_direction(&MovementKeys { w: true, d: true, ..none }), (1, 1));
    assert_eq!(input_direction(&MovementKeys { w: true, up: true, ..none }), (0, 1));
    assert_eq!(input_direction(&MovementKeys { w: true, down: true, ..none }), (0, 0));
    assert_eq!(input_direction(&MovementKeys { left: true, d: true, s: true, ..none }), (0, -1));
}
