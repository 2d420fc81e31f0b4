use playferrous::ids::{
    GameId, GameProposalId, GroupId, InvalidIdError, MessageId, RequestId, SessionId, UserId,
};

#[test]
fn user_id_round_trip() {
    for n in [0i64, 1, 42, -1, -42, 1234567890123, i64::MAX, i64::MIN] {
        let id = UserId(n);
        let text = id.format();
        assert_eq!(UserId::parse(&text), Ok(id));
    }
}

#[test]
fn all_prefixes_round_trip() {
    assert_eq!(UserId(7).format(), "u7");
    assert_eq!(GameId(7).format(), "g7");
    assert_eq!(GameProposalId(7).format(), "p7");
    assert_eq!(SessionId(7).format(), "s7");
    assert_eq!(RequestId(7).format(), "r7");
    assert_eq!(MessageId(7).format(), "m7");
    assert_eq!(GroupId(7).format(), "o7");
    assert_eq!(GameId::parse("g7"), Ok(GameId(7)));
    assert_eq!(GameProposalId::parse("p7"), Ok(GameProposalId(7)));
    assert_eq!(SessionId::parse("s7"), Ok(SessionId(7)));
    assert_eq!(RequestId::parse("r7"), Ok(RequestId(7)));
    assert_eq!(MessageId::parse("m7"), Ok(MessageId(7)));
    assert_eq!(GroupId::parse("o7"), Ok(GroupId(7)));
}

#[test]
fn negative_ids_render_with_sign() {
    assert_eq!(UserId(-5).format(), "u-5");
    assert_eq!(UserId::parse("u-5"), Ok(UserId(-5)));
}

#[test]
fn extreme_ids_round_trip() {
    assert_eq!(UserId(i64::MAX).format(), "u9223372036854775807");
    assert_eq!(UserId(i64::MIN).format(), "u-9223372036854775808");
    assert_eq!(
        UserId::parse("u9223372036854775807"),
        Ok(UserId(i64::MAX))
    );
    assert_eq!(
        UserId::parse("u-9223372036854775808"),
        Ok(UserId(i64::MIN))
    );
}

#[test]
fn parse_rejects_wrong_prefix() {
    assert_eq!(UserId::parse("g5"), Err(InvalidIdError));
    assert_eq!(UserId::parse("5"), Err(InvalidIdError));
    assert_eq!(UserId::parse(""), Err(InvalidIdError));
}

#[test]
fn parse_rejects_bad_digits() {
    assert_eq!(UserId::parse("u"), Err(InvalidIdError));
    assert_eq!(UserId::parse("u5x"), Err(InvalidIdError));
    assert_eq!(UserId::parse("u 5"), Err(InvalidIdError));
    assert_eq!(UserId::parse("u-"), Err(InvalidIdError));
}

#[test]
fn parse_rejects_out_of_range() {
    assert_eq!(
        UserId::parse("u9223372036854775808"),
        Err(InvalidIdError)
    );
    assert_eq!(
        UserId::parse("u-9223372036854775809"),
        Err(InvalidIdError)
    );
}

#[test]
fn parse_accepts_liberal_integer_forms() {
    assert_eq!(UserId::parse("u007"), Ok(UserId(7)));
    assert_eq!(UserId::parse("u+7"), Ok(UserId(7)));
    assert_eq!(UserId::parse("u-0"), Ok(UserId(0)));
}
