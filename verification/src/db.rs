//! What the storage calls are made of: the statements, the split of a
//! memo into title and body, the time stamp, and the choice of the row
//! that answers a query.

use vstd::prelude::*;
use vstd::string::StringExecFns;

use crate::check_security_middleware::Security;
use crate::errors::OrganizatorError;
use crate::models::{
    FilePermissionsRow, GetFilePermissions, GetMemo, GetWriteMemo, MemoGroup, MemoRow,
    WriteMemoRow,
};
use crate::routes::{GetAllMemoTitlesQuery, GetUserQuery, LoginQuery, MemoWrite, SearchMemoQuery};
use crate::text::{find_line_break, is_line_break, lemma_line_end, line_end};

verus! {

/// Reads one user by id.
pub const GET_USER_SQL: &'static str = "select id, username from users where id = $1;";

/// Reads all users.
pub const GET_ALL_USERS_SQL: &'static str = "select id, username from users order by id;";

/// Reads the memo titles that a user may see; the last row names the user.
pub const GET_ALL_MEMO_TITLES_SQL: &'static str = "select * from memo_titles($1);";

/// Searches the memos that a user may see; the last row names the user.
pub const SEARCH_MEMO_SQL: &'static str = "select * from memo_search($1, $2);";

/// Reads one memo on behalf of a user.
pub const GET_MEMO_SQL: &'static str = "select * from memo_read($1, $2);";

/// Writes, moves or deletes one memo on behalf of a user.
pub const WRITE_MEMO_SQL: &'static str = "select * from memo_write($1, $2, $3, $4, $5, $6);";

/// Reads the memo groups that a user may write to.
pub const MEMO_GROUPS_FOR_USER_SQL: &'static str = "select * from memo_groups_for_user($1);";

/// Reads the stored credential of a user.
pub const LOGIN_SQL: &'static str =
    "select id, username, salt, pbkdf2 from users where username = $1;";

/// Replaces salt and hash of a user together.
pub const UPDATE_PASSWORD_SQL: &'static str =
    "update users set salt = $1, pbkdf2 = $2 where username = $3;";

/// Records an uploaded file.
pub const INSERT_FILESTORE_SQL: &'static str = "select * from filestore_insert($1, $2, $3, $4, $5);";

/// Reads what a user may do with a file, given the level that is asked.
pub const GET_FILE_SECURITY_SQL: &'static str = "select * from file_security($1, $2, $3);";

/// Reads the explicit grants on a memo group on behalf of a user.
pub const EXPLICIT_PERMISSIONS_SQL: &'static str = "select * from explicit_permissions($1, $2);";

impl GetUserQuery {
    /// The statement that reads one user.
    pub fn get_statement(&self) -> (s: &'static str)
        ensures
            s@ == GET_USER_SQL@,
    {
        GET_USER_SQL
    }
}

impl GetAllMemoTitlesQuery {
    /// The statement that reads the memo titles of a user.
    pub fn get_statement() -> (s: &'static str)
        ensures
            s@ == GET_ALL_MEMO_TITLES_SQL@,
    {
        GET_ALL_MEMO_TITLES_SQL
    }
}

impl SearchMemoQuery {
    /// The statement that searches the memos of a user.
    pub fn get_statement(&self) -> (s: &'static str)
        ensures
            s@ == SEARCH_MEMO_SQL@,
    {
        SEARCH_MEMO_SQL
    }
}

impl MemoGroup {
    /// The statement that reads the memo groups of a user.
    pub fn get_all_statement() -> (s: &'static str)
        ensures
            s@ == MEMO_GROUPS_FOR_USER_SQL@,
    {
        MEMO_GROUPS_FOR_USER_SQL
    }
}

impl LoginQuery {
    /// The statement that reads the stored credential of a user.
    pub fn get_statement(&self) -> (s: &'static str)
        ensures
            s@ == LOGIN_SQL@,
    {
        LOGIN_SQL
    }
}

/// The title of a memo: its first line, without the line break.
pub open spec fn memo_title(text: Seq<char>) -> Seq<char> {
    text.subrange(0, line_end(text))
}

/// The body of a memo: what follows its first line, from the line break
/// on; empty for a text of one line.
pub open spec fn memo_body(text: Seq<char>) -> Seq<char> {
    text.subrange(line_end(text), text.len() as int)
}

/// Splits the text of a memo into its title and its body.
pub fn split_memotekst<'a>(text: &'a str) -> (r: (Option<&'a str>, Option<&'a str>))
    ensures
        r.0 is Some,
        r.1 is Some,
        r.0.unwrap()@ == memo_title(text@),
        r.1.unwrap()@ == memo_body(text@),
{
    proof {
        lemma_line_end(text@);
    }
    let n: usize = text.unicode_len();
    let i: usize = find_line_break(text);
    if i == n {
        proof {
            reveal_strlit("");
        }
        (Some(text), Some(""))
    } else {
        (Some(text.substring_char(0, i)), Some(text.substring_char(i, n)))
    }
}

/// Title and body of a memo make up its text; the title holds no line
/// break, and the body is empty or starts with one.
pub proof fn lemma_title_and_body(text: Seq<char>)
    ensures
        memo_title(text) + memo_body(text) == text,
        forall|j: int| 0 <= j < memo_title(text).len() ==> !is_line_break(memo_title(text)[j]),
        memo_body(text).len() > 0 ==> is_line_break(memo_body(text)[0]),
{
    lemma_line_end(text);
}

/// What a memo write hands to the store.
#[derive(Debug, Clone, PartialEq, Eq)]
pub struct WriteMemoParams {
    pub memo_id: Option<i32>,
    pub title: Option<String>,
    pub memotext: Option<String>,
    pub savetime: i64,
    pub group_id: Option<i32>,
    pub username: String,
}

/// The text of a memo as written; a write without text has the empty
/// text.
pub open spec fn memo_text(memo: MemoWrite) -> Seq<char> {
    match memo.text {
        Some(t) => t@,
        None => Seq::<char>::empty(),
    }
}

/// Prepares the write of a memo by the principal at the time `millis`:
/// the text goes to the store split into title and body. Without a
/// principal the write is unauthorized.
pub fn write_memo(memo: &MemoWrite, security: &Security, millis: i64) -> (r: Result<
    WriteMemoParams,
    OrganizatorError,
>)
    ensures
        match r {
            Ok(p) => {
                &&& security@ == Some(p.username@)
                &&& p.memo_id == memo.memo_id
                &&& p.group_id == memo.group_id
                &&& p.savetime == millis
                &&& p.title is Some
                &&& p.memotext is Some
                &&& p.title.unwrap()@ == memo_title(memo_text(*memo))
                &&& p.memotext.unwrap()@ == memo_body(memo_text(*memo))
            },
            Err(e) => security@ is None && e == OrganizatorError::Unauthorized,
        },
{
    if security.user_name.is_none() {
        return Err(OrganizatorError::Unauthorized);
    }
    proof {
        reveal_strlit("");
    }
    let text: &str = match &memo.text {
        Some(t) => t.as_str(),
        None => "",
    };
    let b = split_memotekst(text);
    let title: Option<String> = match b.0 {
        Some(t) => Some(String::from_str(t)),
        None => None,
    };
    let memotext: Option<String> = match b.1 {
        Some(t) => Some(String::from_str(t)),
        None => None,
    };
    Ok(
        WriteMemoParams {
            memo_id: memo.memo_id,
            title: title,
            memotext: memotext,
            savetime: millis,
            group_id: memo.group_id,
            username: String::from_str(security.get_user_name()),
        },
    )
}

#[verifier::external_type_specification]
#[verifier::external_body]
pub struct ExSystemTime(std::time::SystemTime);

/// `std::time::SystemTime::now`: the reading of the system clock.
pub assume_specification[ std::time::SystemTime::now ]() -> (t: std::time::SystemTime)
;

/// `std::time::SystemTime::duration_since` from `UNIX_EPOCH`: the time
/// elapsed since the epoch, or nothing for a reading before it.
#[verifier::external_body]
fn since_unix_epoch(t: &std::time::SystemTime) -> (d: Option<std::time::Duration>) {
    t.duration_since(std::time::UNIX_EPOCH).ok()
}

/// `std::time::Duration::as_millis`: the whole milliseconds of a duration.
#[verifier::external_body]
fn duration_millis(d: &std::time::Duration) -> (ms: u128) {
    d.as_millis()
}

/// A count of milliseconds as the store keeps it, signed and of 64 bits;
/// none where the count does not fit.
pub open spec fn stored_millis(ms: u128) -> Option<i64> {
    if ms <= i64::MAX as u128 {
        Some(ms as i64)
    } else {
        None
    }
}

/// Converts a count of milliseconds to the form in which it is stored.
pub fn millis_from(ms: u128) -> (r: Option<i64>)
    ensures
        r == stored_millis(ms),
{
    if ms <= i64::MAX as u128 {
        Some(ms as i64)
    } else {
        None
    }
}

/// The time stamp of a write: milliseconds since the epoch. None where
/// the clock reads a time before the epoch or one too far away to store.
pub fn get_millis() -> (r: Option<i64>)
    ensures
        r is Some ==> r.unwrap() >= 0,
{
    let now = std::time::SystemTime::now();
    match since_unix_epoch(&now) {
        Some(elapsed) => millis_from(duration_millis(&elapsed)),
        None => None,
    }
}

/// The row that answers a query for one record: the first, and a failure
/// of the not-found kind where the query gave no row.
pub fn first_row<T>(rows: Vec<T>) -> (r: Result<T, OrganizatorError>)
    ensures
        match r {
            Ok(row) => rows@.len() > 0 && row == rows@[0],
            Err(e) => rows@.len() == 0 && e == OrganizatorError::NotFound,
        },
{
    let mut rows = rows;
    if rows.len() == 0 {
        Err(OrganizatorError::NotFound)
    } else {
        Ok(rows.swap_remove(0))
    }
}

/// The answer to a memo read: the memo of the first row. No row means
/// that there is no such memo; a row that cannot be mapped is a mapping
/// failure.
pub fn get_memo(rows: Vec<MemoRow>) -> (r: Result<GetMemo, OrganizatorError>)
    ensures
        match r {
            Ok(m) => rows@.len() > 0 && GetMemo::memo_of(rows@[0]) == Some(m.memo_spec())
                && m.user_spec() == GetMemo::requester_of(rows@[0]),
            Err(e) => if rows@.len() == 0 {
                e == OrganizatorError::NotFound
            } else {
                GetMemo::memo_of(rows@[0]) is None && e is PGMError
            },
        },
{
    match first_row(rows) {
        Ok(row) => GetMemo::from_row(row),
        Err(e) => Err(e),
    }
}

/// The answer to a memo write: what the first row says of the memo
/// written. No row is a failure of the not-found kind; a row that cannot
/// be mapped is a mapping failure.
pub fn written_memo(rows: Vec<WriteMemoRow>) -> (r: Result<GetWriteMemo, OrganizatorError>)
    ensures
        match r {
            Ok(m) => rows@.len() > 0 && GetWriteMemo::memo_of(rows@[0]) == Some(m.memo_spec())
                && m.user_spec() == GetWriteMemo::requester_of(rows@[0]),
            Err(e) => if rows@.len() == 0 {
                e == OrganizatorError::NotFound
            } else {
                GetWriteMemo::memo_of(rows@[0]) is None && e is PGMError
            },
        },
{
    match first_row(rows) {
        Ok(row) => GetWriteMemo::from_row(row),
        Err(e) => Err(e),
    }
}

/// The answer to a file permission check: what the first row says of the
/// one who asks. No row means that there is no such file.
pub fn file_permissions(rows: Vec<FilePermissionsRow>) -> (r: Result<
    GetFilePermissions,
    OrganizatorError,
>)
    ensures
        match r {
            Ok(p) => rows@.len() > 0 && p == GetFilePermissions::from_row_spec(rows@[0]),
            Err(e) => rows@.len() == 0 && e == OrganizatorError::NotFound,
        },
{
    match first_row(rows) {
        Ok(row) => GetFilePermissions::from_row(row),
        Err(e) => Err(e),
    }
}

} // verus!
