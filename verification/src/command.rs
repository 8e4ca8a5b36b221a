//! Commands sent to the engine and their protocol text.

use vstd::prelude::*;
use vstd::string::*;

verus! {

/// The descriptor of the standard initial position.
pub const START_POSITION: &'static str = "rnbqkbnr/pppppppp/8/8/8/8/PPPPPPPP/RNBQKBNR w KQkq - 0 1";

/// A position to analyse: the standard initial one, or any other given by
/// its descriptor.
#[derive(Debug, Clone, PartialEq, Eq)]
pub enum Position {
    Startpos,
    Fen(String),
}

/// The model of a `Position`.
pub enum PositionView {
    Startpos,
    Fen(Seq<char>),
}

impl View for Position {
    type V = PositionView;

    open spec fn view(&self) -> PositionView {
        match self {
            Position::Startpos => PositionView::Startpos,
            Position::Fen(fen) => PositionView::Fen(fen@),
        }
    }
}

/// The position that a descriptor stands for: `Startpos` for exactly the
/// standard initial descriptor, the explicit form for every other text.
pub open spec fn position_of(descriptor: Seq<char>) -> PositionView {
    if descriptor == START_POSITION@ {
        PositionView::Startpos
    } else {
        PositionView::Fen(descriptor)
    }
}

impl Position {
    /// Classifies a descriptor by exact comparison with the standard
    /// initial one. No other validation is made.
    pub fn from_descriptor(descriptor: String) -> (position: Position)
        ensures
            position@ == position_of(descriptor@),
    {
        if descriptor == String::from_str(START_POSITION) {
            Position::Startpos
        } else {
            Position::Fen(descriptor)
        }
    }
}

/// One instruction for the engine.
#[derive(Debug, Clone, PartialEq, Eq)]
pub enum Command {
    /// Switch the engine to the protocol.
    Uci,
    /// Ask the engine to acknowledge that it is ready.
    IsReady,
    /// Set the named engine option.
    SetOption { name: String, value: String },
    /// Set the position that the next search starts from.
    SetPosition(Position),
    /// Ask for a dump of the current board.
    Display,
    /// Search to `depth`, looking for a mate within `mate` moves.
    Go { depth: u32, mate: u32, ponder: bool },
    /// Abandon the search in flight.
    Stop,
}

/// The model of a `Command`.
pub enum CommandView {
    Uci,
    IsReady,
    SetOption { name: Seq<char>, value: Seq<char> },
    SetPosition(PositionView),
    Display,
    Go { depth: u32, mate: u32, ponder: bool },
    Stop,
}

impl View for Command {
    type V = CommandView;

    open spec fn view(&self) -> CommandView {
        match self {
            Command::Uci => CommandView::Uci,
            Command::IsReady => CommandView::IsReady,
            Command::SetOption { name, value } => CommandView::SetOption {
                name: name@,
                value: value@,
            },
            Command::SetPosition(position) => CommandView::SetPosition(position@),
            Command::Display => CommandView::Display,
            Command::Go { depth, mate, ponder } => CommandView::Go {
                depth: *depth,
                mate: *mate,
                ponder: *ponder,
            },
            Command::Stop => CommandView::Stop,
        }
    }
}

/// The character of a decimal digit.
pub open spec fn digit_char(digit: nat) -> char
    recommends
        digit < 10,
{
    ('0' as nat + digit) as char
}

/// A number in decimal, without sign or leading zeros.
pub open spec fn decimal(n: nat) -> Seq<char>
    decreases n,
{
    if n < 10 {
        seq![digit_char(n)]
    } else {
        decimal(n / 10).push(digit_char(n % 10))
    }
}

/// The protocol line of a command, without the line terminator.
pub open spec fn encoded(command: CommandView) -> Seq<char> {
    match command {
        CommandView::Uci => "uci"@,
        CommandView::IsReady => "isready"@,
        CommandView::SetOption { name, value } => "setoption name "@ + name + " value "@ + value,
        CommandView::SetPosition(PositionView::Startpos) => "position startpos"@,
        CommandView::SetPosition(PositionView::Fen(fen)) => "position fen "@ + fen,
        CommandView::Display => "d"@,
        CommandView::Go { depth, mate, ponder } => "go depth "@ + decimal(depth as nat)
            + " mate "@ + decimal(mate as nat) + if ponder {
            " ponder"@
        } else {
            Seq::<char>::empty()
        },
        CommandView::Stop => "stop"@,
    }
}

fn digit_text(digit: u32) -> (text: &'static str)
    requires
        digit < 10,
    ensures
        text@ == seq![digit_char(digit as nat)],
{
    proof {
        reveal_strlit("0");
        reveal_strlit("1");
        reveal_strlit("2");
        reveal_strlit("3");
        reveal_strlit("4");
        reveal_strlit("5");
        reveal_strlit("6");
        reveal_strlit("7");
        reveal_strlit("8");
        reveal_strlit("9");
    }
    let text = match digit {
        0 => "0",
        1 => "1",
        2 => "2",
        3 => "3",
        4 => "4",
        5 => "5",
        6 => "6",
        7 => "7",
        8 => "8",
        _ => "9",
    };
    assert(text@ =~= seq![digit_char(digit as nat)]);
    text
}

/// Writes a number in decimal.
pub fn decimal_text(n: u32) -> (text: String)
    ensures
        text@ == decimal(n as nat),
{
    let mut rest: u32 = n / 10;
    let mut text = String::from_str(digit_text(n % 10));
    while rest > 0
        invariant
            decimal(n as nat) == if rest == 0 {
                text@
            } else {
                decimal(rest as nat) + text@
            },
        decreases rest,
    {
        let head = String::from_str(digit_text(rest % 10));
        assert(decimal(rest as nat) + text@ =~= if rest < 10 {
            head@ + text@
        } else {
            decimal((rest / 10) as nat) + (head@ + text@)
        });
        text = head.concat(text.as_str());
        rest = rest / 10;
    }
    text
}

/// Encodes a command as the line of text that the engine reads. Every
/// command has exactly one encoding.
pub fn encode(command: &Command) -> (line: String)
    ensures
        line@ == encoded(command@),
{
    match command {
        Command::Uci => String::from_str("uci"),
        Command::IsReady => String::from_str("isready"),
        Command::SetOption { name, value } => {
            let mut line = String::from_str("setoption name ");
            line.append(name.as_str());
            line.append(" value ");
            line.append(value.as_str());
            line
        },
        Command::SetPosition(Position::Startpos) => String::from_str("position startpos"),
        Command::SetPosition(Position::Fen(fen)) => {
            let mut line = String::from_str("position fen ");
            line.append(fen.as_str());
            line
        },
        Command::Display => String::from_str("d"),
        Command::Go { depth, mate, ponder } => {
            let mut line = String::from_str("go depth ");
            line.append(decimal_text(*depth).as_str());
            line.append(" mate ");
            line.append(decimal_text(*mate).as_str());
            if *ponder {
                line.append(" ponder");
            }
            assert(line@ =~= encoded(command@));
            line
        },
        Command::Stop => String::from_str("stop"),
    }
}

} // verus!
