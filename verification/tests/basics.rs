use fishword::card::{Rating, ReviewState};
use fishword::error::Error;
use fishword::text::{i64_text, is_blank, join, pad_left, pad_right, str_lt, strip_prefix, u64_text, usize_text};

#[test]
fn ratings_read_back_as_themselves() {
    for rating in [Rating::Again, Rating::Hard, Rating::Good, Rating::Easy] {
        assert_eq!(Rating::from_i64(rating.as_i64()), Ok(rating));
        assert_eq!(Rating::parse(&rating.to_text()), Ok(rating));
        assert_eq!(rating.to_text().parse::<Rating>(), Ok(rating));
    }
    assert_eq!(Rating::Again.as_i64(), 1);
    assert_eq!(Rating::Easy.as_i64(), 4);
    assert_eq!(Rating::from_i64(0), Err(0));
    assert_eq!(Rating::try_from(3), Ok(Rating::Good));
    assert_eq!(Rating::try_from(9i64), Err(9));
    assert_eq!(Rating::parse("maybe"), Err("unknown rating: maybe".to_string()));
}

#[test]
fn review_states_read_back_as_themselves() {
    for state in [ReviewState::New, ReviewState::Learning, ReviewState::Review, ReviewState::Relearning] {
        assert_eq!(ReviewState::parse(&state.to_text()), Ok(state));
    }
    assert_eq!(ReviewState::Relearning.to_text(), "relearning");
    assert!(ReviewState::parse("done").is_err());
}

#[test]
fn error_texts() {
    assert_eq!(Error::NoDataDir.to_text(), "data directory not found");
    assert_eq!(Error::NotFound("deck 3".to_string()).to_text(), "not found: deck 3");
    assert_eq!(Error::Db("busy".to_string()).to_text(), "database error: busy");
    assert_eq!(Error::AlreadyExists("cet4".to_string()).to_text(), "already exists: cet4");
}

#[test]
fn text_helpers() {
    assert_eq!(i64_text(-42), "-42");
    assert_eq!(i64_text(i64::MIN), "-9223372036854775808");
    assert_eq!(usize_text(0), "0");
    assert_eq!(u64_text(u64::MAX), "18446744073709551615");
    assert_eq!(pad_right("ab", 4), "ab  ");
    assert_eq!(pad_left("ab", 4), "  ab");
    assert_eq!(pad_right("abcdef", 4), "abcdef");
    assert_eq!(join(&vec!["a".to_string(), "b".to_string(), "c".to_string()], "; "), "a; b; c");
    assert_eq!(join(&vec![], "; "), "");
    assert!(str_lt("2026-06-09", "2026-06-10"));
    assert!(!str_lt("b", "a"));
    assert!(str_lt("a", "ab"));
    assert_eq!(strip_prefix("US 'kænsl", "US "), Some("'kænsl".to_string()));
    assert_eq!(strip_prefix("UK x", "US "), None);
    assert!(is_blank(" \t "));
    assert!(!is_blank(" a "));
}
