use tiny_cloud::error::DBError;
use tiny_cloud::userid::{format_i64, make_userid, parse_i64_range, unpack};

#[test]
fn format_i64_writes_decimal() {
    assert_eq!(format_i64(0), "0");
    assert_eq!(format_i64(42), "42");
    assert_eq!(format_i64(-7), "-7");
    assert_eq!(format_i64(i64::MAX), "9223372036854775807");
    assert_eq!(format_i64(i64::MIN), "-9223372036854775808");
}

#[test]
fn make_userid_joins_with_colon() {
    assert_eq!(make_userid("alice", 1234), "alice:1234");
    assert_eq!(make_userid("bob", -5), "bob:-5");
}

#[test]
fn unpack_round_trips() {
    for sid in [0i64, 1, -1, 987654321, i64::MAX, i64::MIN] {
        let uid = make_userid("alice", sid);
        assert_eq!(unpack(uid), Ok(("alice".to_string(), sid)));
    }
}

#[test]
fn unpack_ignores_parts_after_second_colon() {
    assert_eq!(unpack("a:12:34".to_string()), Ok(("a".to_string(), 12)));
}

#[test]
fn unpack_rejects_malformed_userids() {
    assert_eq!(unpack("alice".to_string()), Err(DBError::InvalidUserID));
    assert_eq!(unpack("alice:".to_string()), Err(DBError::InvalidUserID));
    assert_eq!(unpack("alice:x1".to_string()), Err(DBError::InvalidUserID));
    assert_eq!(unpack("alice:-".to_string()), Err(DBError::InvalidUserID));
    assert_eq!(unpack("alice:9223372036854775808".to_string()), Err(DBError::InvalidUserID));
}

#[test]
fn parse_accepts_signs_and_bounds() {
    let s = "+17";
    assert_eq!(parse_i64_range(s, 0, 3), Some(17));
    let s = "-9223372036854775808";
    assert_eq!(parse_i64_range(s, 0, s.chars().count()), Some(i64::MIN));
    let s = "99999999999999999999999";
    assert_eq!(parse_i64_range(s, 0, s.chars().count()), None);
    assert_eq!(parse_i64_range("", 0, 0), None);
    assert_eq!(parse_i64_range("+", 0, 1), None);
}
