use organizator::config::FileUploadConfig;
use organizator::errors::OrganizatorError;
use organizator::models::{
    FilePermissionsRow, GetFilePermissions, GetMemo, GetWriteMemo, Memo, MemoGroup, MemoRow,
    MemoUser, WriteMemoRow,
};

fn text(s: &str) -> Option<String> {
    Some(String::from(s))
}

fn memo_row() -> MemoRow {
    MemoRow {
        o_id: 12,
        o_title: text("title"),
        o_memotext: text("\nbody"),
        o_savetime: Some(1_600_000_000_000),
        o_memo_group_id: Some(3),
        o_memo_group_name: text("home"),
        o_user_id: 5,
        o_username: text("alice"),
        o_requester_id: 6,
        o_requester_name: text("bob"),
    }
}

#[test]
fn memo_of_a_read_row() {
    let answer = GetMemo::from_row(memo_row()).unwrap();
    assert_eq!(
        answer.memo(),
        &Memo {
            id: 12,
            title: text("title"),
            memotext: text("\nbody"),
            savetime: Some(1_600_000_000_000),
            memogroup: Some(MemoGroup { id: 3, name: String::from("home") }),
            user: MemoUser { id: 5, name: text("alice") },
        }
    );
    assert_eq!(answer.user(), &MemoUser { id: 6, name: text("bob") });
}

#[test]
fn memo_without_group() {
    let mut row = memo_row();
    row.o_memo_group_id = None;
    let answer = GetMemo::from_row(row).unwrap();
    assert_eq!(answer.memo().memogroup, None);

    let mut row = memo_row();
    row.o_memo_group_id = None;
    row.o_memo_group_name = None;
    assert_eq!(GetMemo::from_row(row).unwrap().memo().memogroup, None);
}

#[test]
fn memo_group_without_name_is_a_mapping_failure() {
    let mut row = memo_row();
    row.o_memo_group_name = None;
    assert!(matches!(GetMemo::from_row(row), Err(OrganizatorError::PGMError(_))));
}

fn write_row() -> WriteMemoRow {
    WriteMemoRow {
        io_memo_id: Some(12),
        io_memo_title: text("title"),
        io_memo_memotext: text("\nbody"),
        io_savetime: Some(17),
        io_memo_group_id: Some(3),
        o_memo_group_name: text("home"),
        o_user_id: Some(5),
        o_username: text("alice"),
        o_requester_id: 5,
        io_requester_name: text("alice"),
    }
}

#[test]
fn memo_of_a_write_row() {
    let answer = GetWriteMemo::from_row(write_row()).unwrap();
    assert_eq!(
        answer.memo(),
        &Some(Memo {
            id: 12,
            title: text("title"),
            memotext: text("\nbody"),
            savetime: Some(17),
            memogroup: Some(MemoGroup { id: 3, name: String::from("home") }),
            user: MemoUser { id: 5, name: text("alice") },
        })
    );
    assert_eq!(answer.user(), &MemoUser { id: 5, name: text("alice") });
}

#[test]
fn deleted_memo_has_no_memo() {
    let row = WriteMemoRow {
        io_memo_id: None,
        io_memo_title: None,
        io_memo_memotext: None,
        io_savetime: None,
        io_memo_group_id: None,
        o_memo_group_name: None,
        o_user_id: None,
        o_username: None,
        o_requester_id: 5,
        io_requester_name: text("alice"),
    };
    let answer = GetWriteMemo::from_row(row).unwrap();
    assert_eq!(answer.memo(), &None);
    assert_eq!(answer.user().id, 5);
}

#[test]
fn deleted_memo_ignores_what_else_the_row_holds() {
    let mut row = write_row();
    row.io_memo_id = None;
    row.o_memo_group_name = None;
    assert_eq!(GetWriteMemo::from_row(row).unwrap().memo(), &None);
}

#[test]
fn written_memo_without_group() {
    let mut row = write_row();
    row.io_memo_group_id = None;
    let answer = GetWriteMemo::from_row(row).unwrap();
    assert_eq!(answer.memo().as_ref().unwrap().memogroup, None);
}

#[test]
fn written_memo_needs_owner_and_group_name() {
    let mut row = write_row();
    row.o_user_id = None;
    assert!(matches!(GetWriteMemo::from_row(row), Err(OrganizatorError::PGMError(_))));
    let mut row = write_row();
    row.o_memo_group_name = None;
    assert!(matches!(GetWriteMemo::from_row(row), Err(OrganizatorError::PGMError(_))));
}

#[test]
fn file_permissions_of_a_row() {
    let row = FilePermissionsRow {
        o_requester_id: 6,
        io_requester_name: text("bob"),
        o_user_id: 5,
        o_username: text("alice"),
        o_memo_group_id: Some(3),
        o_access: 2,
    };
    assert_eq!(
        GetFilePermissions::from_row(row),
        Ok(GetFilePermissions {
            requester: MemoUser { id: 6, name: text("bob") },
            user: MemoUser { id: 5, name: text("alice") },
            o_memo_group_id: Some(3),
            access: 2,
        })
    );
}

#[test]
fn upload_config_clones() {
    let config = FileUploadConfig { dir: String::from("/srv/files") };
    assert_eq!(config.clone(), config);
}
