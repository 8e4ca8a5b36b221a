use stockfish_session::command::{decimal_text, encode, Command, Position, START_POSITION};
use stockfish_session::message::{parse_depth, parse_stockfish, EngineMessage};
use stockfish_session::pattern::capture;

fn plain(line: &str) -> EngineMessage {
    EngineMessage {
        uci_message: line.to_string(),
        best_move: None,
        ponder: None,
        position_evaluation: None,
        possible_mate: None,
        pv: None,
        depth: None,
        is_ready: None,
    }
}

#[test]
fn encode_fixed_commands() {
    assert_eq!(encode(&Command::Uci), "uci");
    assert_eq!(encode(&Command::IsReady), "isready");
    assert_eq!(encode(&Command::Display), "d");
    assert_eq!(encode(&Command::Stop), "stop");
}

#[test]
fn encode_set_option() {
    let command = Command::SetOption { name: "ponder".to_string(), value: "true".to_string() };
    assert_eq!(encode(&command), "setoption name ponder value true");
    let other = Command::SetOption { name: "Hash".to_string(), value: "128".to_string() };
    assert_eq!(encode(&other), "setoption name Hash value 128");
}

#[test]
fn encode_positions() {
    assert_eq!(encode(&Command::SetPosition(Position::Startpos)), "position startpos");
    let fen = "8/8/8/4k3/8/8/4K3/8 w - - 0 1";
    assert_eq!(
        encode(&Command::SetPosition(Position::Fen(fen.to_string()))),
        "position fen 8/8/8/4k3/8/8/4K3/8 w - - 0 1"
    );
}

#[test]
fn encode_search() {
    let go = Command::Go { depth: 25, mate: 5, ponder: false };
    assert_eq!(encode(&go), "go depth 25 mate 5");
    let ponder = Command::Go { depth: 25, mate: 5, ponder: true };
    assert_eq!(encode(&ponder), "go depth 25 mate 5 ponder");
    let wide = Command::Go { depth: 4294967295, mate: 0, ponder: false };
    assert_eq!(encode(&wide), "go depth 4294967295 mate 0");
}

#[test]
fn encode_is_deterministic() {
    let command = Command::Go { depth: 12, mate: 3, ponder: true };
    assert_eq!(encode(&command), encode(&command.clone()));
}

#[test]
fn decimal_text_values() {
    assert_eq!(decimal_text(0), "0");
    assert_eq!(decimal_text(7), "7");
    assert_eq!(decimal_text(10), "10");
    assert_eq!(decimal_text(25), "25");
    assert_eq!(decimal_text(909), "909");
    assert_eq!(decimal_text(4294967295), "4294967295");
}

#[test]
fn decimal_text_reads_back() {
    for n in [0u32, 1, 9, 10, 99, 100, 12345, 4294967295] {
        assert_eq!(parse_depth(&decimal_text(n)), n as u64);
    }
}

#[test]
fn position_from_descriptor() {
    assert_eq!(Position::from_descriptor(START_POSITION.to_string()), Position::Startpos);
    assert_eq!(
        Position::from_descriptor("rnbqkbnr/pppppppp/8/8/8/8/PPPPPPPP/RNBQKBNR w KQkq - 0 1".to_string()),
        Position::Startpos
    );
    let moved = "rnbqkbnr/pppppppp/8/8/4P3/8/PPPP1PPP/RNBQKBNR b KQkq e3 0 1";
    assert_eq!(Position::from_descriptor(moved.to_string()), Position::Fen(moved.to_string()));
    assert_eq!(
        Position::from_descriptor("startpos".to_string()),
        Position::Fen("startpos".to_string())
    );
    let spaced = format!("{} ", START_POSITION);
    assert_eq!(Position::from_descriptor(spaced.clone()), Position::Fen(spaced));
}

#[test]
fn decode_search_info() {
    let line = "info depth 12 score cp 34 pv e2e4 e7e5";
    let expected = EngineMessage {
        position_evaluation: Some("34".to_string()),
        pv: Some("e2e4 e7e5".to_string()),
        depth: Some(12),
        ..plain(line)
    };
    assert_eq!(parse_stockfish(line), expected);
}

#[test]
fn decode_best_move() {
    let line = "bestmove e2e4 ponder e7e5";
    let expected = EngineMessage {
        best_move: Some("e2e4".to_string()),
        ponder: Some("e7e5".to_string()),
        ..plain(line)
    };
    assert_eq!(parse_stockfish(line), expected);
}

#[test]
fn decode_best_move_alone() {
    let line = "bestmove a7a8q";
    let expected = EngineMessage { best_move: Some("a7a8q".to_string()), ..plain(line) };
    assert_eq!(parse_stockfish(line), expected);
}

#[test]
fn decode_ready() {
    let expected = EngineMessage { is_ready: Some("readyok".to_string()), ..plain("readyok") };
    assert_eq!(parse_stockfish("readyok"), expected);
}

#[test]
fn decode_ready_must_be_the_whole_line() {
    assert_eq!(parse_stockfish("readyok "), plain("readyok "));
    assert_eq!(parse_stockfish(" readyok"), plain(" readyok"));
    assert_eq!(parse_stockfish("readyok\r"), plain("readyok\r"));
    assert_eq!(parse_stockfish("is readyok now"), plain("is readyok now"));
}

#[test]
fn decode_unrecognised_lines() {
    for line in ["", " ", "uciok", "id name Stockfish 17", "option name Hash type spin", "bestmove", "   depth"] {
        assert_eq!(parse_stockfish(line), plain(line));
    }
}

#[test]
fn decode_keeps_the_line() {
    for line in ["", "readyok", "bestmove e2e4", "info depth 3", "Gr\u{fc}\u{df}e \u{4e16}\u{754c}"] {
        assert_eq!(parse_stockfish(line).uci_message, line);
    }
}

#[test]
fn decode_negative_score() {
    let line = "info depth 5 seldepth 7 score cp -120 nodes 400 pv d7d5 e4d5";
    let expected = EngineMessage {
        position_evaluation: Some("-120".to_string()),
        pv: Some("d7d5 e4d5".to_string()),
        depth: Some(5),
        ..plain(line)
    };
    assert_eq!(parse_stockfish(line), expected);
}

#[test]
fn decode_mate() {
    let line = "info depth 9 score mate -2 pv h7h8 g8h8";
    let expected = EngineMessage {
        possible_mate: Some("-2".to_string()),
        pv: Some("h7h8 g8h8".to_string()),
        depth: Some(9),
        ..plain(line)
    };
    assert_eq!(parse_stockfish(line), expected);
    let winning = parse_stockfish("info depth 20 score mate 3");
    assert_eq!(winning.possible_mate, Some("3".to_string()));
    assert_eq!(winning.position_evaluation, None);
}

#[test]
fn decode_depth_needs_white_space_before_it() {
    assert_eq!(parse_stockfish("depth 4").depth, None);
    assert_eq!(parse_stockfish("info depth 4").depth, Some(4));
    assert_eq!(parse_stockfish("info seldepth 4").depth, None);
}

#[test]
fn decode_depth_too_large_is_zero() {
    let line = "info depth 99999999999999999999999 score cp 1";
    let message = parse_stockfish(line);
    assert_eq!(message.depth, Some(0));
    assert_eq!(message.position_evaluation, Some("1".to_string()));
    assert_eq!(message.uci_message, line);
    assert_eq!(parse_stockfish("info depth 18446744073709551615").depth, Some(u64::MAX));
    assert_eq!(parse_stockfish("info depth 18446744073709551616").depth, Some(0));
}

#[test]
fn decode_depth_in_other_digits_is_zero() {
    let message = parse_stockfish("info depth \u{663}\u{664}");
    assert_eq!(message.depth, Some(0));
}

#[test]
fn decode_takes_the_first_occurrence() {
    let message = parse_stockfish("bestmove e2e4 bestmove d2d4");
    assert_eq!(message.best_move, Some("e2e4".to_string()));
}

#[test]
fn capture_gives_the_group_not_the_line() {
    assert_eq!(capture(r"bestmove\s+(\S+)", "bestmove e2e4 ponder e7e5"), Some("e2e4".to_string()));
    assert_eq!(capture(r"\spv\s+(.*)", "info pv e2e4 e7e5"), Some("e2e4 e7e5".to_string()));
    assert_eq!(capture(r"cp\s+(-?\d+)", "no score here"), None);
}

#[test]
fn capture_without_a_usable_pattern() {
    assert_eq!(capture("(", "("), None);
    assert_eq!(capture("abc", "abc"), None);
    assert_eq!(capture("a(b)?", "a"), None);
}

#[test]
fn parse_depth_values() {
    assert_eq!(parse_depth("0"), 0);
    assert_eq!(parse_depth("12"), 12);
    assert_eq!(parse_depth("007"), 7);
    assert_eq!(parse_depth("+5"), 5);
    assert_eq!(parse_depth("18446744073709551615"), u64::MAX);
}

#[test]
fn parse_depth_defaults_to_zero() {
    assert_eq!(parse_depth(""), 0);
    assert_eq!(parse_depth("+"), 0);
    assert_eq!(parse_depth("-3"), 0);
    assert_eq!(parse_depth("++5"), 0);
    assert_eq!(parse_depth("1a"), 0);
    assert_eq!(parse_depth(" 1"), 0);
    assert_eq!(parse_depth("1_000"), 0);
    assert_eq!(parse_depth("18446744073709551616"), 0);
    assert_eq!(parse_depth("99999999999999999999999999"), 0);
    assert_eq!(parse_depth("\u{663}"), 0);
    assert_eq!(parse_depth("1\u{e9}"), 0);
}

#[test]
fn message_from_captures() {
    let message = EngineMessage::from_captures(
        "line",
        Some("a".to_string()),
        None,
        Some("-7".to_string()),
        None,
        Some("b c".to_string()),
        Some("x".to_string()),
    );
    let expected = EngineMessage {
        best_move: Some("a".to_string()),
        position_evaluation: Some("-7".to_string()),
        pv: Some("b c".to_string()),
        depth: Some(0),
        ..plain("line")
    };
    assert_eq!(message, expected);
    assert_eq!(EngineMessage::from_captures("", None, None, None, None, None, None), plain(""));
}

#[test]
fn message_for_ready() {
    let message = EngineMessage::ready("readyok");
    assert_eq!(message.is_ready, Some("readyok".to_string()));
    assert_eq!(message.uci_message, "readyok");
    assert_eq!(message.depth, None);
}
