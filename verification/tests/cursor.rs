use beerlover::checkpoint::format_checkpoint;
use beerlover::checkpoint::load_checkpoint;
use beerlover::checkpoint::parse_checkpoint;
use beerlover::scanner::Counter;
use beerlover::scanner::Scanner;

#[test]
fn plain_number_parses() {
    assert_eq!(parse_checkpoint("123"), 123);
    assert_eq!(parse_checkpoint("1"), 1);
    assert_eq!(parse_checkpoint("18446744073709551615"), u64::MAX);
}

#[test]
fn line_breaks_are_ignored() {
    assert_eq!(parse_checkpoint("123\n"), 123);
    assert_eq!(parse_checkpoint("123\r\n"), 123);
    assert_eq!(parse_checkpoint("\n12\r3\n"), 123);
}

#[test]
fn corrupt_text_falls_back_to_one() {
    assert_eq!(parse_checkpoint(""), 1);
    assert_eq!(parse_checkpoint("\n"), 1);
    assert_eq!(parse_checkpoint("abc"), 1);
    assert_eq!(parse_checkpoint("12a3"), 1);
    assert_eq!(parse_checkpoint(" 123"), 1);
    assert_eq!(parse_checkpoint("-5"), 1);
}

#[test]
fn zero_is_not_a_height() {
    assert_eq!(parse_checkpoint("0"), 1);
    assert_eq!(parse_checkpoint("000"), 1);
}

#[test]
fn overflowing_number_falls_back_to_one() {
    assert_eq!(parse_checkpoint("18446744073709551616"), 1);
    assert_eq!(parse_checkpoint("99999999999999999999999"), 1);
}

#[test]
fn missing_checkpoint_starts_at_one() {
    assert_eq!(load_checkpoint(&None), 1);
    assert_eq!(load_checkpoint(&Some("57".to_string())), 57);
}

#[test]
fn heights_render_as_decimal() {
    assert_eq!(format_checkpoint(1), "1");
    assert_eq!(format_checkpoint(10), "10");
    assert_eq!(format_checkpoint(120070), "120070");
    assert_eq!(format_checkpoint(u64::MAX), "18446744073709551615");
}

#[test]
fn checkpoint_round_trip_is_exact() {
    for h in [1u64, 2, 9, 10, 99, 100, 65537, 123456789, u64::MAX] {
        assert_eq!(parse_checkpoint(&format_checkpoint(h)), h);
    }
}

#[test]
fn scanner_walks_every_height_once() {
    let mut s = Scanner::new(3, 5);
    assert!(!s.caught_up());
    assert_eq!(s.target(), 3);
    assert_eq!(s.on_block_processed(), 4);
    assert_eq!(s.target(), 4);
    assert_eq!(s.on_block_processed(), 5);
    assert_eq!(s.target(), 5);
    assert_eq!(s.on_block_processed(), 6);
    assert!(s.caught_up());
}

#[test]
fn scanner_past_head_is_caught_up_at_once() {
    let s = Scanner::new(6, 5);
    assert!(s.caught_up());
}

#[test]
fn unavailable_block_holds_the_cursor() {
    let s = Scanner::new(4, 9);
    assert_eq!(s.on_block_unavailable(), 4);
    assert_eq!(s.target(), 4);
}

#[test]
fn restart_resumes_where_the_run_stopped() {
    let mut first = Scanner::new(1, 4);
    first.on_block_processed();
    let persisted = first.on_block_processed();
    // the process stops here; a new run loads the persisted checkpoint
    let restarted = Scanner::new(parse_checkpoint(&format_checkpoint(persisted)), 4);
    assert_eq!(restarted.target(), 3);
    assert_eq!(restarted.target(), first.target());
}

#[test]
fn counter_hands_out_consecutive_values() {
    let mut c = Counter::new(0);
    assert_eq!(c.next(), 0);
    assert_eq!(c.next(), 1);
    assert_eq!(c.next(), 2);
    let mut d = Counter::new(41);
    assert_eq!(d.next(), 41);
    assert_eq!(d.next(), 42);
}
