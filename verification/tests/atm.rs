use state_machine_atm::atm::{Action, Atm, Auth, Key};
use state_machine_atm::traits::{hash, StateMachine};

#[test]
fn sm_3_simple_swipe_card() {
    let start = Atm {
        cash_inside: 100,
        expected_pin_hash: Auth::Waiting,
        keystroke_register: Vec::new(),
    };
    let end = Atm::next_state(&start, &Action::SwipeCard(1234));
    let expected = Auth::Authenticating(1234);

    assert_eq!(end.expected_pin_hash, expected);
}

#[test]
fn sm_3_swipe_card_again_part_way_through() {
    let start = Atm {
        cash_inside: 100,
        expected_pin_hash: Auth::Authenticating(1234),
        keystroke_register: vec![Key::One, Key::Three],
    };
    let end = Atm::next_state(&start, &Action::SwipeCard(1234));
    let expected = Auth::Authenticating(1234);

    assert_eq!(end.expected_pin_hash, expected);

    let start = Atm {
        cash_inside: 100,
        expected_pin_hash: Auth::Authenticating(1234),
        keystroke_register: vec![Key::One, Key::Three],
    };
    let end = Atm::next_state(&start, &Action::SwipeCard(1234));
    let expected = Auth::Authenticating(1234);

    assert_eq!(end.expected_pin_hash, expected);
}

#[test]
fn sm_3_press_key_before_card_swipe() {
    let start = Atm {
        cash_inside: 100,
        expected_pin_hash: Auth::Waiting,
        keystroke_register: Vec::new(),
    };
    let end = Atm::next_state(&start, &Action::PressKey(Key::One));
    let expected = Auth::Waiting;

    assert_eq!(end.expected_pin_hash, expected);
}

#[test]
fn sm_3_enter_single_digit_of_pin() {
    let start = Atm {
        cash_inside: 100,
        expected_pin_hash: Auth::Authenticating(1234),
        keystroke_register: Vec::new(),
    };
    let end = Atm::next_state(&start, &Action::PressKey(Key::One));
    let expected = Auth::Authenticating(1234);

    assert_eq!(end.expected_pin_hash, expected);
    assert_eq!(end.keystroke_register, vec![Key::One]);

    let start = Atm {
        cash_inside: 100,
        expected_pin_hash: Auth::Authenticating(1234),
        keystroke_register: Vec::new(),
    };
    let end1 = Atm::next_state(&start, &Action::PressKey(Key::Two));
    let expected1 = Auth::Authenticating(1234);

    assert_eq!(end1.expected_pin_hash, expected1);
    assert_eq!(end1.keystroke_register, vec![Key::Two]);
}

#[test]
fn sm_3_enter_wrong_pin() {
    let pin = vec![Key::One, Key::Two, Key::Three, Key::Four];
    let pin_hash: u64 = hash(&pin);

    let start = Atm {
        cash_inside: 100,
        expected_pin_hash: Auth::Authenticating(pin_hash),
        keystroke_register: vec![Key::Four, Key::Three, Key::Two, Key::One],
    };
    let end = Atm::next_state(&start, &Action::PressKey(Key::Enter));
    let expected = Auth::Waiting;

    assert_eq!(end.expected_pin_hash, expected);
}

#[test]
fn sm_3_enter_correct_pin() {
    let pin = vec![Key::One, Key::Two, Key::Three, Key::Four];
    let pin_hash: u64 = hash(&pin);

    let start = Atm {
        cash_inside: 100,
        expected_pin_hash: Auth::Authenticating(pin_hash),
        keystroke_register: pin,
    };
    let end = Atm::next_state(&start, &Action::PressKey(Key::Enter));
    let expected = Auth::Authenticated;

    assert_eq!(end.expected_pin_hash, expected);
}

#[test]
fn sm_3_enter_single_digit_of_withdraw_amount() {
    let start = Atm {
        cash_inside: 100,
        expected_pin_hash: Auth::Authenticated,
        keystroke_register: Vec::new(),
    };
    let end = Atm::next_state(&start, &Action::PressKey(Key::One));
    let expected = Auth::Authenticated;

    assert_eq!(end.expected_pin_hash, expected);
    assert_eq!(end.keystroke_register, vec![Key::One]);

    let start = Atm {
        cash_inside: 100,
        expected_pin_hash: Auth::Authenticated,
        keystroke_register: Vec::new(),
    };
    let end1 = Atm::next_state(&start, &Action::PressKey(Key::Four));
    let expected1 = Auth::Authenticated;

    assert_eq!(end1.expected_pin_hash, expected1);
    assert_eq!(end1.keystroke_register, vec![Key::Four]);
}

#[test]
fn sm_3_try_to_withdraw_too_much() {
    let start = Atm {
        cash_inside: 100,
        expected_pin_hash: Auth::Authenticated,
        keystroke_register: vec![Key::Four, Key::Four, Key::Four],
    };
    let end = Atm::next_state(&start, &Action::PressKey(Key::Enter));
    let expected = Auth::Waiting;

    assert_eq!(end.expected_pin_hash, expected);
}

#[test]
fn sm_3_withdraw_acceptable_amount() {
    let start = Atm {
        cash_inside: 100,
        expected_pin_hash: Auth::Authenticated,
        keystroke_register: vec![Key::One],
    };
    let end = Atm::next_state(&start, &Action::PressKey(Key::Enter));
    let expected = Auth::Waiting;

    assert_eq!(end.expected_pin_hash, expected);
}

#[test]
fn reswipe_with_new_card_overwrites_expected_hash() {
    let start = Atm {
        cash_inside: 100,
        expected_pin_hash: Auth::Authenticating(1234),
        keystroke_register: vec![Key::One],
    };
    let end = Atm::next_state(&start, &Action::SwipeCard(4321));

    assert_eq!(end.expected_pin_hash, Auth::Authenticating(4321));
    assert!(end.keystroke_register.is_empty());
}

#[test]
fn swipe_while_authenticated_resets() {
    let start = Atm {
        cash_inside: 100,
        expected_pin_hash: Auth::Authenticated,
        keystroke_register: vec![Key::Two],
    };
    let end = Atm::next_state(&start, &Action::SwipeCard(1234));

    assert_eq!(end.expected_pin_hash, Auth::Waiting);
    assert!(end.keystroke_register.is_empty());
}

#[test]
fn enter_with_no_digits_keyed_in_rejects() {
    let pin = vec![Key::One];
    let pin_hash: u64 = hash(&pin);

    let start = Atm {
        cash_inside: 100,
        expected_pin_hash: Auth::Authenticating(pin_hash),
        keystroke_register: Vec::new(),
    };
    let end = Atm::next_state(&start, &Action::PressKey(Key::Enter));

    assert_eq!(end.expected_pin_hash, Auth::Waiting);
}

#[test]
fn enter_clears_keystroke_register() {
    let pin = vec![Key::Two, Key::Two];
    let pin_hash: u64 = hash(&pin);

    let accepted = Atm::next_state(
        &Atm {
            cash_inside: 100,
            expected_pin_hash: Auth::Authenticating(pin_hash),
            keystroke_register: vec![Key::Two, Key::Two],
        },
        &Action::PressKey(Key::Enter),
    );
    assert_eq!(accepted.expected_pin_hash, Auth::Authenticated);
    assert!(accepted.keystroke_register.is_empty());

    let rejected = Atm::next_state(
        &Atm {
            cash_inside: 100,
            expected_pin_hash: Auth::Authenticating(pin_hash),
            keystroke_register: vec![Key::Two],
        },
        &Action::PressKey(Key::Enter),
    );
    assert_eq!(rejected.expected_pin_hash, Auth::Waiting);
    assert!(rejected.keystroke_register.is_empty());
}

#[test]
fn cash_inside_is_never_touched_by_transitions() {
    let states = [Auth::Waiting, Auth::Authenticating(77), Auth::Authenticated];
    let actions = [
        Action::SwipeCard(77),
        Action::PressKey(Key::One),
        Action::PressKey(Key::Enter),
    ];
    for auth in states {
        for action in actions {
            let start = Atm {
                cash_inside: 555,
                expected_pin_hash: auth,
                keystroke_register: vec![Key::Three],
            };
            let end = Atm::next_state(&start, &action);
            assert_eq!(end.cash_inside, 555);
        }
    }
}

#[test]
fn full_session_walkthrough() {
    let pin = vec![Key::One, Key::Two, Key::Three, Key::Four];
    let pin_hash: u64 = hash(&pin);

    let fresh = Atm {
        cash_inside: 100,
        expected_pin_hash: Auth::default(),
        keystroke_register: Vec::new(),
    };
    let swiped = Atm::next_state(&fresh, &Action::SwipeCard(pin_hash));
    assert_eq!(swiped.expected_pin_hash, Auth::Authenticating(pin_hash));

    let mut machine = swiped;
    for key in [Key::One, Key::Two, Key::Three, Key::Four] {
        machine = Atm::next_state(&machine, &Action::PressKey(key));
        assert_eq!(machine.expected_pin_hash, Auth::Authenticating(pin_hash));
    }
    assert_eq!(machine.keystroke_register, pin);

    let authenticated = Atm::next_state(&machine, &Action::PressKey(Key::Enter));
    assert_eq!(authenticated.expected_pin_hash, Auth::Authenticated);

    let amount_keyed = Atm::next_state(&authenticated, &Action::PressKey(Key::Four));
    assert_eq!(amount_keyed.expected_pin_hash, Auth::Authenticated);
    assert_eq!(amount_keyed.keystroke_register, vec![Key::Four]);

    let done = Atm::next_state(&amount_keyed, &Action::PressKey(Key::Enter));
    assert_eq!(done.expected_pin_hash, Auth::Waiting);
    assert!(done.keystroke_register.is_empty());
    assert_eq!(done.cash_inside, 100);
}

#[test]
fn default_auth_is_waiting() {
    assert_eq!(Auth::default(), Auth::Waiting);
}

#[test]
fn key_labels_match_the_keypad() {
    assert_eq!(Key::One.label(), "1");
    assert_eq!(Key::Two.label(), "2");
    assert_eq!(Key::Three.label(), "3");
    assert_eq!(Key::Four.label(), "4");
    assert_eq!(Key::Enter.label(), "Enter");
}
