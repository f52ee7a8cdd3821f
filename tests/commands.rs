use pwbot::command::{dispatch, parse_command, react, roll_face, Command, Direction, Reaction};
use pwbot::text::{same_text, to_decimal};

#[test]
fn unrecognized_text_is_ignored() {
    for text in ["", "ping", "!ping ", " !ping", "!PING", "!pw", "!pw  start", "!pw restart", "hello"] {
        assert!(matches!(dispatch(text), Reaction::Ignore), "{text:?}");
    }
}

#[test]
fn ping_replies_pong() {
    match dispatch("!ping") {
        Reaction::Say(s) => assert_eq!(s, "Pong!"),
        other => panic!("unexpected {other:?}"),
    }
}

#[test]
fn dice_replies_a_number_from_one_to_hundred() {
    for _ in 0..1000 {
        match dispatch("!dice") {
            Reaction::Say(s) => {
                let v: i64 = s.parse().unwrap();
                assert!((1..=100).contains(&v), "{v}");
            }
            other => panic!("unexpected {other:?}"),
        }
    }
}

#[test]
fn pw_commands_orchestrate() {
    assert!(matches!(dispatch("!pw start"), Reaction::Orchestrate(Direction::Start)));
    assert!(matches!(dispatch("!pw stop"), Reaction::Orchestrate(Direction::Stop)));
}

#[test]
fn parse_recognizes_exact_commands() {
    assert_eq!(parse_command("!ping"), Some(Command::Ping));
    assert_eq!(parse_command("!dice"), Some(Command::Dice));
    assert_eq!(parse_command("!pw start"), Some(Command::PwStart));
    assert_eq!(parse_command("!pw stop"), Some(Command::PwStop));
    assert_eq!(parse_command("!pw stop!"), None);
}

#[test]
fn roll_face_values() {
    assert_eq!(roll_face(0), 1);
    assert_eq!(roll_face(99), 100);
    assert_eq!(roll_face(100), 1);
    assert_eq!(roll_face(-157), 58);
    assert_eq!(roll_face(i32::MIN), 49);
    assert_eq!(roll_face(i32::MAX), 48);
    assert_eq!(roll_face(-1), 2);
}

#[test]
fn react_with_given_roll() {
    match react(Some(Command::Dice), 41) {
        Reaction::Say(s) => assert_eq!(s, "42"),
        other => panic!("unexpected {other:?}"),
    }
    assert!(matches!(react(None, 41), Reaction::Ignore));
}

#[test]
fn decimal_rendering() {
    assert_eq!(to_decimal(0), "0");
    assert_eq!(to_decimal(7), "7");
    assert_eq!(to_decimal(100), "100");
    assert_eq!(to_decimal(u32::MAX), "4294967295");
}

#[test]
fn text_comparison() {
    assert!(same_text("", ""));
    assert!(same_text("起動", "起動"));
    assert!(!same_text("ab", "abc"));
    assert!(!same_text("abd", "abc"));
}
