use space_shooter::scores::{encode_high_score, parse_high_score, Scores};

#[test]
fn parses_stored_text_like_u32() {
    assert_eq!(parse_high_score(b"123"), Some(123));
    assert_eq!(parse_high_score(b"+7"), Some(7));
    assert_eq!(parse_high_score(b"007"), Some(7));
    assert_eq!(parse_high_score(b"4294967295"), Some(u32::MAX));
    assert_eq!(parse_high_score(b"4294967296"), None);
    assert_eq!(parse_high_score(b"99999999999999"), None);
    assert_eq!(parse_high_score(b""), None);
    assert_eq!(parse_high_score(b"+"), None);
    assert_eq!(parse_high_score(b"-1"), None);
    assert_eq!(parse_high_score(b" 12"), None);
    assert_eq!(parse_high_score(b"12\n"), None);
    assert_eq!(parse_high_score(b"1a"), None);
    for n in [0u32, 5, 10, 999, 4_294_967_295] {
        assert_eq!(parse_high_score(n.to_string().as_bytes()), n.to_string().parse::<u32>().ok());
    }
}

#[test]
fn encodes_decimal() {
    assert_eq!(encode_high_score(0), b"0".to_vec());
    assert_eq!(encode_high_score(42), b"42".to_vec());
    assert_eq!(encode_high_score(u32::MAX), b"4294967295".to_vec());
}

#[test]
fn missing_or_bad_store_starts_at_zero() {
    assert_eq!(Scores::new(None).high_score, 0);
    assert_eq!(Scores::new(Some(b"junk".as_slice())).high_score, 0);
    let s = Scores::new(Some(b"31".as_slice()));
    assert_eq!(s.high_score, 31);
    assert_eq!(s.score, 0);
}

#[test]
fn high_score_survives_restart() {
    let mut s = Scores::new(Some(b"50".as_slice()));
    s.score = 75;
    let stored = s.check_score_vs_high_score().expect("new high score");
    assert_eq!(s.high_score, 75);
    assert_eq!(stored, b"75".to_vec());
    let next = Scores::new(Some(stored.as_slice()));
    assert_eq!(next.high_score, 75);
    assert_eq!(next.score, 0);
}

#[test]
fn lower_score_keeps_high_score() {
    let mut s = Scores::new(Some(b"50".as_slice()));
    s.score = 50;
    assert_eq!(s.check_score_vs_high_score(), None);
    assert_eq!(s.high_score, 50);
}
