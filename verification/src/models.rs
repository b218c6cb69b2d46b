//! The records that the service reads and hands out.

use vstd::prelude::*;
use vstd::string::StringExecFns;

use crate::errors::OrganizatorError;

verus! {

/// A user of the service.
#[derive(Debug, Clone, PartialEq, Eq)]
pub struct User {
    pub id: i32,
    pub username: Option<String>,
}

/// A memo in a list: its title, its owner and when it was saved.
#[derive(Debug, Clone, PartialEq, Eq)]
pub struct MemoTitle {
    pub id: i32,
    pub title: Option<String>,
    pub user_id: i32,
    pub savetime: Option<i64>,
}

/// The memos that a user may see, and the user.
#[derive(Debug, Clone, PartialEq, Eq)]
pub struct MemoTitleList {
    pub memos: Vec<MemoTitle>,
    pub user: User,
}

/// A group of memos, the unit to which access is granted.
#[derive(Debug, Clone, PartialEq, Eq)]
pub struct MemoGroup {
    pub id: i32,
    pub name: String,
}

/// The memo groups of a user.
#[derive(Debug, Clone, PartialEq, Eq)]
pub struct MemoGroupList {
    pub memogroups: Vec<MemoGroup>,
}

/// A memo with its text, its group if it has one, and its owner.
#[derive(Debug, Clone, PartialEq, Eq)]
pub struct Memo {
    pub id: i32,
    pub title: Option<String>,
    pub memotext: Option<String>,
    pub savetime: Option<i64>,
    pub memogroup: Option<MemoGroup>,
    pub user: MemoUser,
}

/// A user as a memo or a file names them.
#[derive(Debug, Clone, PartialEq, Eq)]
pub struct MemoUser {
    pub id: i32,
    pub name: Option<String>,
}

/// One row of a memo read: the memo, its group if it has one, its owner
/// and the user who asked.
#[derive(Debug, Clone, PartialEq, Eq)]
pub struct MemoRow {
    pub o_id: i32,
    pub o_title: Option<String>,
    pub o_memotext: Option<String>,
    pub o_savetime: Option<i64>,
    pub o_memo_group_id: Option<i32>,
    pub o_memo_group_name: Option<String>,
    pub o_user_id: i32,
    pub o_username: Option<String>,
    pub o_requester_id: i32,
    pub o_requester_name: Option<String>,
}

/// The answer to a memo read: the memo and the user who asked.
#[derive(Debug, Clone, PartialEq, Eq)]
pub struct GetMemo {
    memo: Memo,
    user: MemoUser,
}

/// The group of a memo as a row describes it: none without a group id,
/// and a group needs its name.
pub open spec fn group_of(id: Option<i32>, name: Option<String>) -> Option<Option<MemoGroup>> {
    match id {
        None => Some(None),
        Some(i) => match name {
            Some(n) => Some(Some(MemoGroup { id: i, name: n })),
            None => None,
        },
    }
}

fn memo_group(id: Option<i32>, name: Option<String>) -> (r: Option<Option<MemoGroup>>)
    ensures
        r == group_of(id, name),
{
    match id {
        None => Some(None),
        Some(i) => match name {
            Some(n) => Some(Some(MemoGroup { id: i, name: n })),
            None => None,
        },
    }
}

fn mapping_error(text: &str) -> (e: OrganizatorError)
    ensures
        e == OrganizatorError::PGMError(e->PGMError_0),
        e->PGMError_0@ == text@,
{
    OrganizatorError::PGMError(String::from_str(text))
}

impl GetMemo {
    /// The memo of a read row; a row that names a group without the
    /// group's name has none.
    pub open spec fn memo_of(row: MemoRow) -> Option<Memo> {
        match group_of(row.o_memo_group_id, row.o_memo_group_name) {
            Some(group) => Some(
                Memo {
                    id: row.o_id,
                    title: row.o_title,
                    memotext: row.o_memotext,
                    savetime: row.o_savetime,
                    memogroup: group,
                    user: MemoUser { id: row.o_user_id, name: row.o_username },
                },
            ),
            None => None,
        }
    }

    /// The user who asked, as the row names them.
    pub open spec fn requester_of(row: MemoRow) -> MemoUser {
        MemoUser { id: row.o_requester_id, name: row.o_requester_name }
    }

    /// Builds the answer to a memo read from its row. A row that names a
    /// group without the group's name is refused as a mapping failure.
    pub fn from_row(row: MemoRow) -> (r: Result<Self, OrganizatorError>)
        ensures
            match r {
                Ok(m) => Self::memo_of(row) == Some(m.memo_spec()) && m.user_spec()
                    == Self::requester_of(row),
                Err(e) => Self::memo_of(row) is None && e is PGMError,
            },
    {
        match memo_group(row.o_memo_group_id, row.o_memo_group_name) {
            Some(group) => Ok(
                GetMemo {
                    memo: Memo {
                        id: row.o_id,
                        title: row.o_title,
                        memotext: row.o_memotext,
                        savetime: row.o_savetime,
                        memogroup: group,
                        user: MemoUser { id: row.o_user_id, name: row.o_username },
                    },
                    user: MemoUser { id: row.o_requester_id, name: row.o_requester_name },
                },
            ),
            None => Err(mapping_error("memo group without a name")),
        }
    }

    /// The memo that was read.
    pub closed spec fn memo_spec(&self) -> Memo {
        self.memo
    }

    /// The user who asked for it.
    pub closed spec fn user_spec(&self) -> MemoUser {
        self.user
    }

    /// The memo that was read.
    pub fn memo(&self) -> (m: &Memo)
        ensures
            *m == self.memo_spec(),
    {
        &self.memo
    }

    /// The user who asked for it.
    pub fn user(&self) -> (u: &MemoUser)
        ensures
            *u == self.user_spec(),
    {
        &self.user
    }
}

/// One row of a memo write: the memo as stored, absent once it was
/// deleted, and the user who wrote.
#[derive(Debug, Clone, PartialEq, Eq)]
pub struct WriteMemoRow {
    pub io_memo_id: Option<i32>,
    pub io_memo_title: Option<String>,
    pub io_memo_memotext: Option<String>,
    pub io_savetime: Option<i64>,
    pub io_memo_group_id: Option<i32>,
    pub o_memo_group_name: Option<String>,
    pub o_user_id: Option<i32>,
    pub o_username: Option<String>,
    pub o_requester_id: i32,
    pub io_requester_name: Option<String>,
}

/// The answer to a memo write: the memo as it stands, and the user who wrote.
#[derive(Debug, Clone, PartialEq, Eq)]
pub struct GetWriteMemo {
    memo: Option<Memo>,
    user: MemoUser,
}

impl GetWriteMemo {
    /// The memo of a write row: none without a memo id (the memo was
    /// deleted); otherwise the memo needs its owner's id and, where it
    /// names a group, the group's name.
    pub open spec fn memo_of(row: WriteMemoRow) -> Option<Option<Memo>> {
        match row.io_memo_id {
            None => Some(None),
            Some(id) => match (
                group_of(row.io_memo_group_id, row.o_memo_group_name),
                row.o_user_id,
            ) {
                (Some(group), Some(owner)) => Some(
                    Some(
                        Memo {
                            id: id,
                            title: row.io_memo_title,
                            memotext: row.io_memo_memotext,
                            savetime: row.io_savetime,
                            memogroup: group,
                            user: MemoUser { id: owner, name: row.o_username },
                        },
                    ),
                ),
                _ => None,
            },
        }
    }

    /// The user who wrote, as the row names them.
    pub open spec fn requester_of(row: WriteMemoRow) -> MemoUser {
        MemoUser { id: row.o_requester_id, name: row.io_requester_name }
    }

    /// Builds the answer to a memo write from its row. A row with a memo
    /// id but without the owner's id, or with a group id but without the
    /// group's name, is refused as a mapping failure.
    pub fn from_row(row: WriteMemoRow) -> (r: Result<Self, OrganizatorError>)
        ensures
            match r {
                Ok(m) => Self::memo_of(row) == Some(m.memo_spec()) && m.user_spec()
                    == Self::requester_of(row),
                Err(e) => Self::memo_of(row) is None && e is PGMError,
            },
    {
        let user = MemoUser { id: row.o_requester_id, name: row.io_requester_name };
        match row.io_memo_id {
            None => Ok(GetWriteMemo { memo: None, user: user }),
            Some(id) => {
                let group = memo_group(row.io_memo_group_id, row.o_memo_group_name);
                match (group, row.o_user_id) {
                    (Some(group), Some(owner)) => Ok(
                        GetWriteMemo {
                            memo: Some(
                                Memo {
                                    id: id,
                                    title: row.io_memo_title,
                                    memotext: row.io_memo_memotext,
                                    savetime: row.io_savetime,
                                    memogroup: group,
                                    user: MemoUser { id: owner, name: row.o_username },
                                },
                            ),
                            user: user,
                        },
                    ),
                    (None, _) => Err(mapping_error("memo group without a name")),
                    (_, None) => Err(mapping_error("memo without an owner")),
                }
            },
        }
    }

    /// The memo as it stands after the write, absent once deleted.
    pub closed spec fn memo_spec(&self) -> Option<Memo> {
        self.memo
    }

    /// The user who wrote.
    pub closed spec fn user_spec(&self) -> MemoUser {
        self.user
    }

    /// The memo as it stands after the write, absent once deleted.
    pub fn memo(&self) -> (m: &Option<Memo>)
        ensures
            *m == self.memo_spec(),
    {
        &self.memo
    }

    /// The user who wrote.
    pub fn user(&self) -> (u: &MemoUser)
        ensures
            *u == self.user_spec(),
    {
        &self.user
    }
}

/// A stored credential: the salt and the hash derived from the password
/// under it.
#[derive(Debug, Clone, PartialEq, Eq)]
pub struct Login {
    pub id: i32,
    pub username: Option<String>,
    pub salt: Vec<u8>,
    pub pbkdf2: Vec<u8>,
}

/// One row of a file permission check.
#[derive(Debug, Clone, PartialEq, Eq)]
pub struct FilePermissionsRow {
    pub o_requester_id: i32,
    pub io_requester_name: Option<String>,
    pub o_user_id: i32,
    pub o_username: Option<String>,
    pub o_memo_group_id: Option<i32>,
    pub o_access: i32,
}

/// What a user may do with a file: who asks, who owns the file, the memo
/// group it belongs to and the access level of the one who asks.
#[derive(Debug, Clone, PartialEq, Eq)]
pub struct GetFilePermissions {
    pub requester: MemoUser,
    pub user: MemoUser,
    pub o_memo_group_id: Option<i32>,
    pub access: i32,
}

impl GetFilePermissions {
    /// What a row of a file permission check says.
    pub open spec fn from_row_spec(row: FilePermissionsRow) -> GetFilePermissions {
        GetFilePermissions {
            requester: MemoUser { id: row.o_requester_id, name: row.io_requester_name },
            user: MemoUser { id: row.o_user_id, name: row.o_username },
            o_memo_group_id: row.o_memo_group_id,
            access: row.o_access,
        }
    }

    /// Builds the answer to a file permission check from its row.
    pub fn from_row(row: FilePermissionsRow) -> (r: Result<Self, OrganizatorError>)
        ensures
            r == Ok::<GetFilePermissions, OrganizatorError>(Self::from_row_spec(row)),
    {
        Ok(
            GetFilePermissions {
                requester: MemoUser { id: row.o_requester_id, name: row.io_requester_name },
                user: MemoUser { id: row.o_user_id, name: row.o_username },
                o_memo_group_id: row.o_memo_group_id,
                access: row.o_access,
            },
        )
    }
}

/// An access level granted to the members of a user group on a memo
/// group, together with one member of that user group.
#[derive(Debug, Clone, PartialEq, Eq)]
pub struct ExplicitPermission {
    pub memo_group_id: i32,
    pub memo_group_name: Option<String>,
    pub user_group_id: i32,
    pub user_group_name: Option<String>,
    pub user_id: i32,
    pub username: Option<String>,
    pub access: i32,
}

} // verus!
