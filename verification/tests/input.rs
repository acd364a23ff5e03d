use backend::input::{InputSet, PlayerInput};

#[test]
fn each_action_has_its_bit() {
    assert_eq!(PlayerInput::NoInput.bit(), 0);
    assert_eq!(PlayerInput::Up.bit(), 1);
    assert_eq!(PlayerInput::Right.bit(), 2);
    assert_eq!(PlayerInput::Down.bit(), 4);
    assert_eq!(PlayerInput::Left.bit(), 8);
    assert_eq!(PlayerInput::AimPositive.bit(), 16);
    assert_eq!(PlayerInput::AimNegative.bit(), 32);
    assert_eq!(PlayerInput::LoadCannon.bit(), 64);
    assert_eq!(PlayerInput::Fire.bit(), 128);
}

#[test]
fn from_bits_reads_each_action() {
    let actions = [
        PlayerInput::Up,
        PlayerInput::Right,
        PlayerInput::Down,
        PlayerInput::Left,
        PlayerInput::AimPositive,
        PlayerInput::AimNegative,
        PlayerInput::LoadCannon,
        PlayerInput::Fire,
    ];
    for action in actions {
        let set = InputSet::from_bits(action.bit()).unwrap();
        for other in actions {
            assert_eq!(set.contains(other), other == action);
        }
        assert!(set.contains(PlayerInput::NoInput));
        assert!(!set.is_empty());
    }
}

#[test]
fn from_bits_reads_several_actions() {
    let set = InputSet::from_bits(1 + 2 + 128).unwrap();
    assert_eq!(
        set,
        InputSet {
            up: true,
            right: true,
            down: false,
            left: false,
            aim_positive: false,
            aim_negative: false,
            load_cannon: false,
            fire: true,
        }
    );
}

#[test]
fn from_bits_of_zero_is_the_empty_set() {
    let set = InputSet::from_bits(0).unwrap();
    assert_eq!(set, InputSet::empty());
    assert!(set.is_empty());
    assert!(set.contains(PlayerInput::NoInput));
    assert!(!set.contains(PlayerInput::Up));
}

#[test]
fn from_bits_rejects_what_is_no_bitmask() {
    assert_eq!(InputSet::from_bits(256), None);
    assert_eq!(InputSet::from_bits(257), None);
    assert_eq!(InputSet::from_bits(512 + 1), None);
    assert_eq!(InputSet::from_bits(-1), None);
    assert_eq!(InputSet::from_bits(i32::MIN), None);
    assert_eq!(InputSet::from_bits(i32::MAX), None);
    assert!(InputSet::from_bits(255).is_some());
}

#[test]
fn bits_round_trip() {
    for bits in 0..256 {
        let set = InputSet::from_bits(bits).unwrap();
        assert_eq!(set.to_bits(), bits);
        assert_eq!(InputSet::from_bits(set.to_bits()), Some(set));
    }
}
