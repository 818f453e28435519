use hypriio::control::{default_output, default_transforms, Command, Config};
use hypriio::orientation::Orientation;

#[test]
fn command_codes_match_the_wire_protocol() {
    assert_eq!(Command::Lock.code(), 0);
    assert_eq!(Command::Unlock.code(), 1);
    assert_eq!(Command::from_code(0), Some(Command::Lock));
    assert_eq!(Command::from_code(1), Some(Command::Unlock));
    assert_eq!(Command::from_code(2), None);
    assert_eq!(Command::from_code(u32::MAX), None);
}

#[test]
fn commands_encode_little_endian() {
    assert_eq!(Command::Lock.encode(), [0, 0, 0, 0]);
    assert_eq!(Command::Unlock.encode(), [1, 0, 0, 0]);
}

#[test]
fn decode_round_trips_every_command() {
    for cmd in [Command::Lock, Command::Unlock] {
        let bytes = cmd.encode();
        assert_eq!(Command::decode(&bytes), Some(cmd));
    }
}

#[test]
fn malformed_messages_are_discarded() {
    assert_eq!(Command::decode(&[]), None);
    assert_eq!(Command::decode(&[0]), None);
    assert_eq!(Command::decode(&[0, 0, 0]), None);
    assert_eq!(Command::decode(&[0, 0, 0, 0, 0]), None);
    // An unknown code is dropped, not surfaced.
    assert_eq!(Command::decode(&[2, 0, 0, 0]), None);
    assert_eq!(Command::decode(&[0, 1, 0, 0]), None);
}

#[test]
fn config_defaults() {
    let c = Config::default();
    assert_eq!(c.output, "eDP-1");
    assert_eq!(c.transforms, [0, 1, 2, 3]);
    assert!(c.restart_services.is_empty());
    assert_eq!(default_output(), "eDP-1");
    assert_eq!(default_transforms(), [0, 1, 2, 3]);
}

#[test]
fn labels_normalize_to_orientations() {
    assert_eq!(Orientation::new("normal"), Some(Orientation::Normal));
    assert_eq!(Orientation::new("left-up"), Some(Orientation::LeftUp));
    assert_eq!(Orientation::new("right-up"), Some(Orientation::RightUp));
    assert_eq!(Orientation::new("bottom-up"), Some(Orientation::BottomUp));
    assert_eq!(Orientation::new("diagonal"), None);
    assert_eq!(Orientation::new(""), None);
    assert_eq!(Orientation::new("Normal"), None);
}

#[test]
fn rotation_indexes_are_total_and_fixed() {
    assert_eq!(Orientation::Normal.rotation(), 0);
    assert_eq!(Orientation::LeftUp.rotation(), 1);
    assert_eq!(Orientation::BottomUp.rotation(), 2);
    assert_eq!(Orientation::RightUp.rotation(), 3);
}
