//! Decoding of the engine's output lines.

use crate::command::decimal;
use crate::pattern::{capture, captured};
use vstd::prelude::*;
use vstd::string::*;

verus! {

/// The best move follows the word `bestmove`.
pub const BEST_MOVE_PATTERN: &'static str = r"bestmove\s+(\S+)";

/// The expected reply follows the word `ponder`.
pub const PONDER_PATTERN: &'static str = r"ponder\s+(\S+)";

/// The evaluation in centipawns follows `cp`.
pub const SCORE_PATTERN: &'static str = r"cp\s+(-?\d+)";

/// The number of moves until mate follows `mate`.
pub const MATE_PATTERN: &'static str = r"mate\s+(-?\d+)";

/// The principal variation is the rest of the line after ` pv`.
pub const PV_PATTERN: &'static str = r"\spv\s+(.*)";

/// The search depth follows ` depth`.
pub const DEPTH_PATTERN: &'static str = r"\sdepth\s+(\d+)";

/// The line by which the engine acknowledges `isready`.
pub const READY_TOKEN: &'static str = "readyok";

/// One decoded line of engine output. A field is `None` when the line does
/// not carry it.
#[derive(Debug, Clone, PartialEq, Eq)]
pub struct EngineMessage {
    /// The line as the engine wrote it.
    pub uci_message: String,
    /// The best move found, such as `e2e4`.
    pub best_move: Option<String>,
    /// The reply that the engine expects, such as `e7e5`.
    pub ponder: Option<String>,
    /// The evaluation in centipawns, from the point of view of the side to
    /// move.
    pub position_evaluation: Option<String>,
    /// The number of moves until mate; negative when the engine is mated.
    pub possible_mate: Option<String>,
    /// The best line found, as move tokens separated by white space.
    pub pv: Option<String>,
    /// The number of half moves that the engine looked ahead.
    pub depth: Option<u64>,
    /// Set when the line is the engine's ready acknowledgment.
    pub is_ready: Option<String>,
}

/// The model of an `EngineMessage`.
pub struct EngineMessageView {
    pub uci_message: Seq<char>,
    pub best_move: Option<Seq<char>>,
    pub ponder: Option<Seq<char>>,
    pub position_evaluation: Option<Seq<char>>,
    pub possible_mate: Option<Seq<char>>,
    pub pv: Option<Seq<char>>,
    pub depth: Option<u64>,
    pub is_ready: Option<Seq<char>>,
}

impl View for EngineMessage {
    type V = EngineMessageView;

    open spec fn view(&self) -> EngineMessageView {
        EngineMessageView {
            uci_message: self.uci_message@,
            best_move: self.best_move.deep_view(),
            ponder: self.ponder.deep_view(),
            position_evaluation: self.position_evaluation.deep_view(),
            possible_mate: self.possible_mate.deep_view(),
            pv: self.pv.deep_view(),
            depth: self.depth,
            is_ready: self.is_ready.deep_view(),
        }
    }
}

/// Whether a character is one of `0` to `9`.
pub open spec fn is_digit(c: char) -> bool {
    '0' <= c <= '9'
}

/// The value of a decimal digit.
pub open spec fn digit_value(c: char) -> nat
    recommends
        is_digit(c),
{
    (c as nat - '0' as nat) as nat
}

/// Whether a text is made of decimal digits only.
pub open spec fn all_digits(text: Seq<char>) -> bool {
    forall|i: int| 0 <= i < text.len() ==> is_digit(#[trigger] text[i])
}

/// The number that a text of decimal digits writes.
pub open spec fn decimal_value(text: Seq<char>) -> nat
    decreases text.len(),
{
    if text.len() == 0 {
        0
    } else {
        10 * decimal_value(text.drop_last()) + digit_value(text.last())
    }
}

/// A text without the one `+` that may precede a number.
pub open spec fn unsigned_digits(text: Seq<char>) -> Seq<char> {
    if text.len() > 1 && text[0] == '+' {
        text.subrange(1, text.len() as int)
    } else {
        text
    }
}

/// The number written by `text`: an optional `+`, then one or more decimal
/// digits and nothing else, with a value that fits 64 bits.
pub open spec fn parsed_number(text: Seq<char>) -> Option<u64> {
    let digits = unsigned_digits(text);
    if digits.len() > 0 && all_digits(digits) && decimal_value(digits) <= u64::MAX {
        Some(decimal_value(digits) as u64)
    } else {
        None
    }
}

/// The depth that a captured text stands for: the number it writes, and 0
/// for a text that writes none. The leniency is deliberate: a line with a
/// malformed depth is still decoded.
pub open spec fn depth_value(text: Seq<char>) -> u64 {
    match parsed_number(text) {
        Some(value) => value,
        None => 0,
    }
}

/// A prefix of a text of digits writes no larger a number than the text.
proof fn lemma_prefix_value(text: Seq<char>, k: int)
    requires
        all_digits(text),
        0 <= k <= text.len(),
    ensures
        decimal_value(text.take(k)) <= decimal_value(text),
    decreases text.len() - k,
{
    if k == text.len() {
        assert(text.take(k) =~= text);
    } else {
        lemma_prefix_value(text.drop_last(), k);
        assert(text.drop_last().take(k) =~= text.take(k));
    }
}

/// Reads the depth out of the text captured for it.
pub fn parse_depth(text: &str) -> (depth: u64)
    ensures
        depth == depth_value(text@),
{
    broadcast use is_ascii_spec_bytes;

    let ghost digits = unsigned_digits(text@);
    if !text.is_ascii() {
        proof {
            let i = choose|i: int|
                0 <= i < text@.len() && !('\0' <= (#[trigger] text@[i]) && text@[i] <= '\u{7f}');
            if text@.len() > 1 && text@[0] == '+' {
                assert(digits[i - 1] == text@[i]);
            } else {
                assert(digits[i] == text@[i]);
            }
        }
        return 0;
    }
    let bytes = text.as_bytes();
    let end: usize = bytes.len();
    let start: usize = if end > 1 && bytes[0] == 43u8 {
        1
    } else {
        0
    };
    assert(digits =~= text@.subrange(start as int, end as int));
    if start == end {
        return 0;
    }
    let mut value: u64 = 0;
    let mut i: usize = start;
    while i < end
        invariant
            start <= i <= end,
            end == bytes@.len(),
            bytes@.len() == text@.len(),
            forall|j: int| 0 <= j < end ==> text@[j] as int == #[trigger] bytes@[j] as int,
            digits == unsigned_digits(text@),
            digits == text@.subrange(start as int, end as int),
            all_digits(digits.take(i - start)),
            value == decimal_value(digits.take(i - start)),
        decreases end - i,
    {
        let byte: u8 = bytes[i];
        if byte < 48u8 || byte > 57u8 {
            assert(digits[i - start] == text@[i as int]);
            assert(!is_digit(digits[i - start]));
            return 0;
        }
        let digit: u64 = (byte - 48u8) as u64;
        let ghost longer = digits.take(i - start + 1);
        assert(longer.drop_last() =~= digits.take(i - start));
        assert(longer.last() == text@[i as int]);
        assert(decimal_value(longer) == 10 * value + digit);
        if value > (u64::MAX - digit) / 10 {
            proof {
                if all_digits(digits) {
                    lemma_prefix_value(digits, i - start + 1);
                }
            }
            return 0;
        }
        value = value * 10 + digit;
        i = i + 1;
    }
    assert(digits.take(i - start) =~= digits);
    value
}

/// The message for a line on which nothing was recognised.
pub open spec fn plain_message(line: Seq<char>) -> EngineMessageView {
    EngineMessageView {
        uci_message: line,
        best_move: None,
        ponder: None,
        position_evaluation: None,
        possible_mate: None,
        pv: None,
        depth: None,
        is_ready: None,
    }
}

/// The message for the ready acknowledgment.
pub open spec fn ready_message(line: Seq<char>) -> EngineMessageView {
    EngineMessageView { is_ready: Some(line), ..plain_message(line) }
}

/// The message for a line other than the ready acknowledgment, given what
/// each marker captured on it. Every field comes from its own capture; the
/// depth is the number that its capture writes.
pub open spec fn assembled(
    line: Seq<char>,
    best_move: Option<Seq<char>>,
    ponder: Option<Seq<char>>,
    score: Option<Seq<char>>,
    mate: Option<Seq<char>>,
    pv: Option<Seq<char>>,
    depth: Option<Seq<char>>,
) -> EngineMessageView {
    EngineMessageView {
        uci_message: line,
        best_move: best_move,
        ponder: ponder,
        position_evaluation: score,
        possible_mate: mate,
        pv: pv,
        depth: match depth {
            Some(text) => Some(depth_value(text)),
            None => None,
        },
        is_ready: None,
    }
}

/// What a line of engine output decodes to. The ready acknowledgment sets
/// the ready flag and nothing else; on any other line each marker is looked
/// for independently of the others.
pub open spec fn decoded(line: Seq<char>) -> EngineMessageView {
    if line == READY_TOKEN@ {
        ready_message(line)
    } else {
        assembled(
            line,
            captured(BEST_MOVE_PATTERN@, line),
            captured(PONDER_PATTERN@, line),
            captured(SCORE_PATTERN@, line),
            captured(MATE_PATTERN@, line),
            captured(PV_PATTERN@, line),
            captured(DEPTH_PATTERN@, line),
        )
    }
}

impl EngineMessage {
    /// The message for the engine's ready acknowledgment `line`.
    pub fn ready(line: &str) -> (message: EngineMessage)
        ensures
            message@ == ready_message(line@),
    {
        EngineMessage {
            uci_message: String::from_str(line),
            best_move: None,
            ponder: None,
            position_evaluation: None,
            possible_mate: None,
            pv: None,
            depth: None,
            is_ready: Some(String::from_str(line)),
        }
    }

    /// Builds the message for `line` from what each marker captured on it.
    pub fn from_captures(
        line: &str,
        best_move: Option<String>,
        ponder: Option<String>,
        score: Option<String>,
        mate: Option<String>,
        pv: Option<String>,
        depth: Option<String>,
    ) -> (message: EngineMessage)
        ensures
            message@ == assembled(
                line@,
                best_move.deep_view(),
                ponder.deep_view(),
                score.deep_view(),
                mate.deep_view(),
                pv.deep_view(),
                depth.deep_view(),
            ),
    {
        let depth = match depth {
            Some(text) => Some(parse_depth(text.as_str())),
            None => None,
        };
        EngineMessage {
            uci_message: String::from_str(line),
            best_move: best_move,
            ponder: ponder,
            position_evaluation: score,
            possible_mate: mate,
            pv: pv,
            depth: depth,
            is_ready: None,
        }
    }
}

/// Decodes one line of engine output. Every line decodes: one on which
/// nothing is recognised gives a message that carries the line alone.
pub fn parse_stockfish(line: &str) -> (message: EngineMessage)
    ensures
        message@ == decoded(line@),
{
    if String::from_str(line) == String::from_str(READY_TOKEN) {
        return EngineMessage::ready(line);
    }
    let best_move = capture(BEST_MOVE_PATTERN, line);
    let ponder = capture(PONDER_PATTERN, line);
    let score = capture(SCORE_PATTERN, line);
    let mate = capture(MATE_PATTERN, line);
    let pv = capture(PV_PATTERN, line);
    let depth = capture(DEPTH_PATTERN, line);
    EngineMessage::from_captures(line, best_move, ponder, score, mate, pv, depth)
}

/// Whether anything is recognised on a line: it is the ready
/// acknowledgment, or one of the markers captures something on it.
pub open spec fn recognised(line: Seq<char>) -> bool {
    ||| line == READY_TOKEN@
    ||| captured(BEST_MOVE_PATTERN@, line) is Some
    ||| captured(PONDER_PATTERN@, line) is Some
    ||| captured(SCORE_PATTERN@, line) is Some
    ||| captured(MATE_PATTERN@, line) is Some
    ||| captured(PV_PATTERN@, line) is Some
    ||| captured(DEPTH_PATTERN@, line) is Some
}

/// The decoded message always carries the line itself, unchanged.
pub proof fn lemma_line_is_kept(line: Seq<char>)
    ensures
        decoded(line).uci_message == line,
{
}

/// A line on which nothing is recognised decodes to the line alone, with
/// every optional field absent.
pub proof fn lemma_unrecognised_line(line: Seq<char>)
    requires
        !recognised(line),
    ensures
        decoded(line) == plain_message(line),
{
}

/// Each field is extracted by its own marker and by nothing else: it holds
/// exactly what that marker captured, and is absent where the marker
/// captured nothing. The depth is the number its capture writes, and 0
/// where the capture writes none. The ready flag is set on the ready
/// acknowledgment and on no other line, and that line sets no other field.
pub proof fn lemma_fields_follow_markers(line: Seq<char>)
    ensures
        decoded(line).is_ready == if line == READY_TOKEN@ {
            Some(line)
        } else {
            None
        },
        line == READY_TOKEN@ ==> decoded(line) == ready_message(line),
        line != READY_TOKEN@ ==> {
            &&& decoded(line).best_move == captured(BEST_MOVE_PATTERN@, line)
            &&& decoded(line).ponder == captured(PONDER_PATTERN@, line)
            &&& decoded(line).position_evaluation == captured(SCORE_PATTERN@, line)
            &&& decoded(line).possible_mate == captured(MATE_PATTERN@, line)
            &&& decoded(line).pv == captured(PV_PATTERN@, line)
            &&& decoded(line).depth == match captured(DEPTH_PATTERN@, line) {
                Some(text) => Some(depth_value(text)),
                None => None,
            }
        },
{
}

/// A captured depth that is no number a `u64` can hold is read as 0.
pub proof fn lemma_malformed_depth_is_zero(text: Seq<char>)
    requires
        parsed_number(text) is None,
    ensures
        depth_value(text) == 0,
{
}

/// A number written in decimal reads back as itself: what the encoder
/// writes for a depth is what the decoder reads from the same digits.
pub proof fn lemma_decimal_reads_back(n: nat)
    ensures
        decimal(n).len() > 0,
        all_digits(decimal(n)),
        decimal_value(decimal(n)) == n,
        n <= u64::MAX ==> parsed_number(decimal(n)) == Some(n as u64),
    decreases n,
{
    let text = decimal(n);
    if n < 10 {
        assert(text.drop_last() =~= Seq::<char>::empty());
        assert(decimal_value(text.drop_last()) == 0);
    } else {
        lemma_decimal_reads_back(n / 10);
        assert(text.drop_last() =~= decimal(n / 10));
    }
    assert(is_digit(text[0]));
    assert(unsigned_digits(text) == text);
}

} // verus!
