use organizator::check_security_middleware::Security;
use organizator::db::{
    file_permissions, first_row, get_memo, get_millis, millis_from, split_memotekst, write_memo,
    written_memo, GET_ALL_MEMO_TITLES_SQL, GET_USER_SQL, LOGIN_SQL, MEMO_GROUPS_FOR_USER_SQL,
    SEARCH_MEMO_SQL,
};
use organizator::errors::OrganizatorError;
use organizator::models::{FilePermissionsRow, MemoGroup, MemoRow, WriteMemoRow};
use organizator::routes::{
    GetAllMemoTitlesQuery, GetUserQuery, LoginQuery, MemoWrite, SearchMemoQuery,
};

#[test]
fn simple_split() {
    let body = "first\nsecond";
    let split = split_memotekst(&body);
    assert_eq!(Some("first"), split.0);
    assert_eq!(Some("\nsecond"), split.1);
}

#[test]
fn utf_split() {
    let body = "ă\nx";
    let split = split_memotekst(&body);
    assert_eq!(Some("ă"), split.0);
    assert_eq!(Some("\nx"), split.1);
}

#[test]
fn split_without_line_break() {
    let split = split_memotekst("only a title");
    assert_eq!(Some("only a title"), split.0);
    assert_eq!(Some(""), split.1);
}

#[test]
fn split_of_empty_text() {
    let split = split_memotekst("");
    assert_eq!(Some(""), split.0);
    assert_eq!(Some(""), split.1);
}

#[test]
fn split_at_carriage_return() {
    let split = split_memotekst("title\r\nbody\nmore");
    assert_eq!(Some("title"), split.0);
    assert_eq!(Some("\r\nbody\nmore"), split.1);
}

#[test]
fn split_with_leading_line_break() {
    let split = split_memotekst("\nbody");
    assert_eq!(Some(""), split.0);
    assert_eq!(Some("\nbody"), split.1);
}

#[test]
fn split_parts_join_to_the_text() {
    for text in ["", "a", "a\nb", "\r", "žluťoučký\rkůň\n", "no break at all"] {
        let split = split_memotekst(text);
        let joined = format!("{}{}", split.0.unwrap(), split.1.unwrap());
        assert_eq!(joined, text);
        assert!(!split.0.unwrap().contains('\n'));
        assert!(!split.0.unwrap().contains('\r'));
    }
}

#[test]
fn statements_are_the_constants() {
    let user_query = GetUserQuery { id: Some(1), username: None };
    assert_eq!(user_query.get_statement(), GET_USER_SQL);
    assert_eq!(GetAllMemoTitlesQuery::get_statement(), GET_ALL_MEMO_TITLES_SQL);
    let search = SearchMemoQuery { search: Some(String::from("x")) };
    assert_eq!(search.get_statement(), SEARCH_MEMO_SQL);
    assert_eq!(MemoGroup::get_all_statement(), MEMO_GROUPS_FOR_USER_SQL);
    let login = LoginQuery { j_username: None, j_password: None };
    assert_eq!(login.get_statement(), LOGIN_SQL);
}

#[test]
fn statements_take_their_parameters() {
    assert!(GET_USER_SQL.contains("$1"));
    assert!(!GET_USER_SQL.contains("$2"));
    assert!(SEARCH_MEMO_SQL.contains("$2"));
    assert!(LOGIN_SQL.contains("$1"));
}

#[test]
fn millis_fit_or_are_absent() {
    assert_eq!(millis_from(0), Some(0));
    assert_eq!(millis_from(1_600_000_000_000), Some(1_600_000_000_000));
    assert_eq!(millis_from(i64::MAX as u128), Some(i64::MAX));
    assert_eq!(millis_from(i64::MAX as u128 + 1), None);
    assert_eq!(millis_from(u128::MAX), None);
}

#[test]
fn clock_reads_after_the_year_2020() {
    let now = get_millis().expect("the clock reads a time after the epoch");
    assert!(now > 1_577_836_800_000);
    let later = get_millis().unwrap();
    assert!(later >= now);
}

#[test]
fn first_row_of_rows() {
    assert_eq!(first_row(vec![7, 8, 9]), Ok(7));
    assert_eq!(first_row(vec![String::from("a")]), Ok(String::from("a")));
}

#[test]
fn first_row_of_no_rows_is_not_found() {
    assert_eq!(first_row(Vec::<i32>::new()), Err(OrganizatorError::NotFound));
}

#[test]
fn write_memo_splits_the_text() {
    let memo = MemoWrite {
        memo_id: Some(12),
        text: Some(String::from("title\nline one\nline two")),
        group_id: Some(3),
    };
    let params = write_memo(&memo, &Security::from("alice"), 1_600_000_000_000).unwrap();
    assert_eq!(params.memo_id, Some(12));
    assert_eq!(params.title, Some(String::from("title")));
    assert_eq!(params.memotext, Some(String::from("\nline one\nline two")));
    assert_eq!(params.savetime, 1_600_000_000_000);
    assert_eq!(params.group_id, Some(3));
    assert_eq!(params.username, "alice");
}

#[test]
fn write_memo_without_text_is_empty() {
    let memo = MemoWrite { memo_id: None, text: None, group_id: None };
    let params = write_memo(&memo, &Security::from("bob"), 5).unwrap();
    assert_eq!(params.title, Some(String::new()));
    assert_eq!(params.memotext, Some(String::new()));
    assert_eq!(params.memo_id, None);
}

#[test]
fn write_memo_without_principal_is_unauthorized() {
    let memo = MemoWrite { memo_id: None, text: Some(String::from("x")), group_id: None };
    let nobody = Security { user_name: None };
    assert_eq!(write_memo(&memo, &nobody, 5), Err(OrganizatorError::Unauthorized));
}

fn read_row(id: i32, group: Option<i32>, group_name: Option<&str>) -> MemoRow {
    MemoRow {
        o_id: id,
        o_title: Some(String::from("title")),
        o_memotext: None,
        o_savetime: None,
        o_memo_group_id: group,
        o_memo_group_name: group_name.map(String::from),
        o_user_id: 5,
        o_username: None,
        o_requester_id: 6,
        o_requester_name: None,
    }
}

#[test]
fn memo_read_answers_with_the_first_row() {
    let answer = get_memo(vec![read_row(1, None, None), read_row(2, None, None)]).unwrap();
    assert_eq!(answer.memo().id, 1);
    assert_eq!(answer.user().id, 6);
}

#[test]
fn memo_read_failures() {
    assert_eq!(get_memo(Vec::new()), Err(OrganizatorError::NotFound));
    assert!(matches!(
        get_memo(vec![read_row(1, Some(3), None), read_row(2, None, None)]),
        Err(OrganizatorError::PGMError(_))
    ));
}

fn deleted_row(requester: i32) -> WriteMemoRow {
    WriteMemoRow {
        io_memo_id: None,
        io_memo_title: None,
        io_memo_memotext: None,
        io_savetime: None,
        io_memo_group_id: None,
        o_memo_group_name: None,
        o_user_id: None,
        o_username: None,
        o_requester_id: requester,
        io_requester_name: None,
    }
}

#[test]
fn memo_write_answers_with_the_first_row() {
    let answer = written_memo(vec![deleted_row(7), deleted_row(8)]).unwrap();
    assert_eq!(answer.memo(), &None);
    assert_eq!(answer.user().id, 7);
    assert_eq!(written_memo(Vec::new()), Err(OrganizatorError::NotFound));
    let mut broken = deleted_row(7);
    broken.io_memo_id = Some(1);
    assert!(matches!(written_memo(vec![broken]), Err(OrganizatorError::PGMError(_))));
}

#[test]
fn file_permissions_answer_with_the_first_row() {
    let row = |access: i32| FilePermissionsRow {
        o_requester_id: 1,
        io_requester_name: None,
        o_user_id: 2,
        o_username: None,
        o_memo_group_id: None,
        o_access: access,
    };
    assert_eq!(file_permissions(vec![row(3), row(4)]).unwrap().access, 3);
    assert_eq!(file_permissions(Vec::new()), Err(OrganizatorError::NotFound));
}
