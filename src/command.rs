//! Recognition of chat commands and the reaction that each one calls for.
use vstd::prelude::*;
use vstd::string::StringExecFns;
use crate::text::{decimal, lemma_parse_decimal, parse_decimal, same_text, to_decimal};

verus! {

/// Relies on rand::random: a value drawn from the thread-local generator.
/// Nothing is known of the value.
pub assume_specification<T>[ rand::random::<T> ]() -> (r: T)
    where
        rand::distributions::Standard: rand::distributions::Distribution<T>,
;

/// A command that the bot recognizes.
#[derive(Clone, Copy, Debug, PartialEq, Eq, Structural)]
pub enum Command {
    /// `!ping`: a fixed acknowledgment.
    Ping,
    /// `!dice`: a number from 1 to 100.
    Dice,
    /// `!pw start`: start the game server.
    PwStart,
    /// `!pw stop`: stop the game server.
    PwStop,
}

/// Which way a lifecycle orchestration drives the instance.
#[derive(Clone, Copy, Debug, PartialEq, Eq, Structural)]
pub enum Direction {
    Start,
    Stop,
}

pub open spec fn ping_text() -> Seq<char> {
    seq!['!', 'p', 'i', 'n', 'g']
}

pub open spec fn dice_text() -> Seq<char> {
    seq!['!', 'd', 'i', 'c', 'e']
}

pub open spec fn pw_start_text() -> Seq<char> {
    seq!['!', 'p', 'w', ' ', 's', 't', 'a', 'r', 't']
}

pub open spec fn pw_stop_text() -> Seq<char> {
    seq!['!', 'p', 'w', ' ', 's', 't', 'o', 'p']
}

/// The command that a message's whole text names, by exact match.
pub open spec fn command_of(s: Seq<char>) -> Option<Command> {
    if s == ping_text() {
        Some(Command::Ping)
    } else if s == dice_text() {
        Some(Command::Dice)
    } else if s == pw_start_text() {
        Some(Command::PwStart)
    } else if s == pw_stop_text() {
        Some(Command::PwStop)
    } else {
        None
    }
}

/// The reply to `!ping`.
pub open spec fn pong_text() -> Seq<char> {
    seq!['P', 'o', 'n', 'g', '!']
}

/// The face that a die shows for a drawn value: the remainder of the value by
/// 100, without its sign, plus one.
pub open spec fn dice_face(r: int) -> int {
    let a = if r < 0 {
        -r
    } else {
        r
    };
    a % 100 + 1
}

/// What the bot does in answer to one message, as a value.
pub enum ReactionView {
    Ignore,
    Say(Seq<char>),
    Orchestrate(Direction),
}

/// What the bot does in answer to one message.
#[derive(Debug)]
pub enum Reaction {
    /// Nothing: no message and no call to the control plane.
    Ignore,
    /// One message to the channel that the command came from.
    Say(String),
    /// A start or stop orchestration of the game-server instance.
    Orchestrate(Direction),
}

impl View for Reaction {
    type V = ReactionView;

    open spec fn view(&self) -> ReactionView {
        match self {
            Reaction::Ignore => ReactionView::Ignore,
            Reaction::Say(s) => ReactionView::Say(s@),
            Reaction::Orchestrate(d) => ReactionView::Orchestrate(*d),
        }
    }
}

/// The reaction to a command, given the value drawn for the die.
pub open spec fn reaction_of(c: Option<Command>, roll: int) -> ReactionView {
    match c {
        None => ReactionView::Ignore,
        Some(Command::Ping) => ReactionView::Say(pong_text()),
        Some(Command::Dice) => ReactionView::Say(decimal(dice_face(roll) as nat)),
        Some(Command::PwStart) => ReactionView::Orchestrate(Direction::Start),
        Some(Command::PwStop) => ReactionView::Orchestrate(Direction::Stop),
    }
}

/// Recognizes a command by an exact match on the message's whole text.
pub fn parse_command(text: &str) -> (r: Option<Command>)
    ensures
        r == command_of(text@),
{
    proof {
        reveal_strlit("!ping");
        reveal_strlit("!dice");
        reveal_strlit("!pw start");
        reveal_strlit("!pw stop");
        assert("!ping"@ =~= ping_text());
        assert("!dice"@ =~= dice_text());
        assert("!pw start"@ =~= pw_start_text());
        assert("!pw stop"@ =~= pw_stop_text());
    }
    if same_text(text, "!ping") {
        Some(Command::Ping)
    } else if same_text(text, "!dice") {
        Some(Command::Dice)
    } else if same_text(text, "!pw start") {
        Some(Command::PwStart)
    } else if same_text(text, "!pw stop") {
        Some(Command::PwStop)
    } else {
        None
    }
}

/// The face that a die shows for the drawn value `r`.
pub fn roll_face(r: i32) -> (f: u32)
    ensures
        f as int == dice_face(r as int),
        1 <= f <= 100,
{
    let a: u64 = if r < 0 {
        (-(r as i64)) as u64
    } else {
        r as u64
    };
    (a % 100 + 1) as u32
}

/// The reaction to a recognized command or to none, where `roll` is the value
/// drawn for a die.
pub fn react(c: Option<Command>, roll: i32) -> (r: Reaction)
    ensures
        r@ == reaction_of(c, roll as int),
{
    proof {
        reveal_strlit("Pong!");
        assert("Pong!"@ =~= pong_text());
    }
    match c {
        None => Reaction::Ignore,
        Some(Command::Ping) => Reaction::Say(String::from_str("Pong!")),
        Some(Command::Dice) => Reaction::Say(to_decimal(roll_face(roll))),
        Some(Command::PwStart) => Reaction::Orchestrate(Direction::Start),
        Some(Command::PwStop) => Reaction::Orchestrate(Direction::Stop),
    }
}

/// The reaction to a message's text. A die is rolled only for `!dice`.
pub fn dispatch(text: &str) -> (r: Reaction)
    ensures
        exists|roll: i32| r@ == #[trigger] reaction_of(command_of(text@), roll as int),
        command_of(text@) is None ==> r@ == ReactionView::Ignore,
        command_of(text@) == Some(Command::Ping) ==> r@ == ReactionView::Say(pong_text()),
        command_of(text@) == Some(Command::Dice) ==> exists|v: nat|
            1 <= v <= 100 && r@ == ReactionView::Say(#[trigger] decimal(v)),
        command_of(text@) == Some(Command::Dice) ==> (r@ matches ReactionView::Say(m)
            && parse_decimal(m) matches Some(v) && 1 <= v <= 100),
        command_of(text@) == Some(Command::PwStart) ==> r@ == ReactionView::Orchestrate(
            Direction::Start,
        ),
        command_of(text@) == Some(Command::PwStop) ==> r@ == ReactionView::Orchestrate(
            Direction::Stop,
        ),
{
    let c = parse_command(text);
    let roll: i32 = match c {
        Some(Command::Dice) => rand::random::<i32>(),
        _ => 0,
    };
    let r = react(c, roll);
    proof {
        if c == Some(Command::Dice) {
            let v = dice_face(roll as int) as nat;
            assert(1 <= v <= 100);
            assert(r@ == ReactionView::Say(decimal(v)));
            lemma_parse_decimal(v);
        }
    }
    r
}

} // verus!
