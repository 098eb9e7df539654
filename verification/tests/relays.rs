use railroad_runners::keys::key_allowed;
use railroad_runners::relay::{input_step, tick_step, InputAction, TickAction};

#[test]
fn allow_set_is_exactly_the_five_keys() {
    for c in ['w', 'a', 's', 'd', 'q'] {
        assert!(key_allowed(c), "{c} should be allowed");
    }
    for c in ['x', ' ', '1', 'W', 'A', 'Q', '\n', 'e'] {
        assert!(!key_allowed(c), "{c} should be rejected");
    }
}

#[test]
fn each_allowed_key_forwards_itself_plus_newline() {
    for c in ['w', 'a', 's', 'd', 'q'] {
        match input_step(false, c) {
            InputAction::Forward { line } => {
                assert_eq!(line, vec![c as u8, b'\n']);
            }
            _ => panic!("allowed key {c} was not forwarded"),
        }
    }
}

#[test]
fn other_keys_forward_nothing() {
    for c in ['x', ' ', '1', 'W', '\t', '?'] {
        assert!(matches!(input_step(false, c), InputAction::Discard));
    }
}

#[test]
fn input_relay_stops_once_game_over_whatever_the_key() {
    for c in ['w', 'a', 's', 'd', 'q', 'x', ' '] {
        assert!(matches!(input_step(true, c), InputAction::Stop));
    }
}

#[test]
fn tick_writes_the_tick_token_line_and_sleeps_the_cadence() {
    match tick_step(false, 2_000) {
        TickAction::Tick { line, sleep_millis } => {
            assert_eq!(line, b"'\n".to_vec());
            assert_eq!(sleep_millis, 600);
        }
        TickAction::Stop => panic!("tick driver stopped while the game was live"),
    }
}

#[test]
fn tick_driver_stops_once_game_over() {
    assert!(matches!(tick_step(true, 1_000), TickAction::Stop));
    assert!(matches!(tick_step(true, 9_999), TickAction::Stop));
}
