//! The requests of the service and the decisions taken on them.

use vstd::prelude::*;
use vstd::string::StringExecFns;

use crate::check_security_middleware::Security;
use crate::errors::{OrganizatorError, Status};
use crate::models::{GetFilePermissions, Login, MemoGroup, MemoGroupList, MemoTitle, MemoTitleList, User};
use crate::password::{
    compute_new_password, fill_random, is_credential_of, password_bytes, password_matches,
    verify_password, MAX_PASSWORD_LEN,
};
use crate::permissions::Decision;
use crate::text::{
    decimal_i32, last_index_of, lemma_last_index_of, lemma_last_index_of_at,
    lemma_last_index_of_before, parse_i32, rfind_char, str_eq, text_view,
};

verus! {

/// The query for one user.
#[derive(Debug, Clone, PartialEq, Eq)]
pub struct GetUserQuery {
    pub id: Option<i32>,
    pub username: Option<String>,
}

/// The query for the memo titles of a user.
#[derive(Debug, Clone, PartialEq, Eq)]
pub struct GetAllMemoTitlesQuery {
    pub username: Option<String>,
}

/// The query for the memos that hold a text.
#[derive(Debug, Clone, PartialEq, Eq)]
pub struct SearchMemoQuery {
    pub search: Option<String>,
}

/// The form of a memo write: the memo to change, or none for a new one, its text and its group.
#[derive(Debug, Clone, PartialEq, Eq)]
pub struct MemoWrite {
    pub memo_id: Option<i32>,
    pub text: Option<String>,
    pub group_id: Option<i32>,
}

/// The form of a login.
#[derive(Debug, Clone, PartialEq, Eq)]
pub struct LoginQuery {
    pub j_username: Option<String>,
    pub j_password: Option<String>,
}

/// The form of a password change; only the root user names a user.
#[derive(Debug, Clone, PartialEq, Eq)]
pub struct ChangePasswordQuery {
    pub username: Option<String>,
    pub old_password: Option<String>,
    pub new_password: Option<String>,
}

/// The query of an upload.
#[derive(Debug, Clone, PartialEq, Eq)]
pub struct UploadFileQuery {
    pub id: Option<i32>,
}

/// The user who may change the password of another user.
pub const ROOT_USER_ID: i32 = 1;

/// What a session holds: the user it was opened for, if it is open.
#[derive(Debug, Clone, PartialEq, Eq)]
pub struct SessionState {
    pub username: Option<String>,
}

impl View for SessionState {
    type V = Option<Seq<char>>;

    open spec fn view(&self) -> Option<Seq<char>> {
        match self.username {
            Some(name) => Some(name@),
            None => None,
        }
    }
}

impl SessionState {
    /// A session that holds nothing.
    pub fn new() -> (s: SessionState)
        ensures
            s@ is None,
    {
        SessionState { username: None }
    }

    /// Opens the session for `username`; an earlier user is replaced.
    pub fn set_username(&mut self, username: String)
        ensures
            final(self)@ == Some(username@),
    {
        self.username = Some(username);
    }

    /// Empties the session. Emptying an empty session changes nothing.
    pub fn purge(&mut self)
        ensures
            final(self)@ is None,
    {
        self.username = None;
    }

    /// The user that the session holds.
    pub fn user(&self) -> (r: Option<&str>)
        ensures
            text_view(r) == self@,
    {
        match &self.username {
            Some(name) => Some(name.as_str()),
            None => None,
        }
    }
}

/// The query for one user by id.
pub fn get_user(id: i32) -> (q: GetUserQuery)
    ensures
        q.id == Some(id),
        q.username is None,
{
    GetUserQuery { id: Some(id), username: None }
}

/// The list of memo titles as the store hands it over: the titles, and
/// behind them one more entry that names the user who asked, by its
/// user id and, in place of a title, the user's name.
pub open spec fn title_list_spec(rows: Seq<MemoTitle>) -> Option<(Seq<MemoTitle>, User)> {
    if rows.len() == 0 {
        None
    } else {
        Some((rows.drop_last(), User { id: rows.last().user_id, username: rows.last().title }))
    }
}

/// Parts the rows of a memo title query into the titles and the user who
/// asked. Rows without that last entry are an internal failure.
pub fn get_memo_titles(rows: Vec<MemoTitle>) -> (r: Result<MemoTitleList, OrganizatorError>)
    ensures
        match r {
            Ok(list) => title_list_spec(rows@) == Some((list.memos@, list.user)),
            Err(e) => title_list_spec(rows@) is None && e == OrganizatorError::Internal,
        },
{
    let mut titles = rows;
    match titles.pop() {
        Some(owner_entry) => Ok(
            MemoTitleList {
                memos: titles,
                user: User { id: owner_entry.user_id, username: owner_entry.title },
            },
        ),
        None => Err(OrganizatorError::Internal),
    }
}

/// Parts the rows of a memo search as `get_memo_titles` parts those of
/// the full list.
pub fn search_memo(rows: Vec<MemoTitle>) -> (r: Result<MemoTitleList, OrganizatorError>)
    ensures
        match r {
            Ok(list) => title_list_spec(rows@) == Some((list.memos@, list.user)),
            Err(e) => title_list_spec(rows@) is None && e == OrganizatorError::Internal,
        },
{
    get_memo_titles(rows)
}

/// The answer to a query for the memo groups of a user.
pub fn get_memo_group(memogroups: Vec<MemoGroup>) -> (r: MemoGroupList)
    ensures
        r.memogroups == memogroups,
{
    MemoGroupList { memogroups: memogroups }
}

/// What happened since the last step of a login or a password change.
#[derive(Debug, Clone, PartialEq, Eq)]
pub enum CredentialEvent {
    /// The request came in.
    Submitted,
    /// The store holds this credential for the user that was looked up.
    LoginFound(Login),
    /// The store holds no credential for the user that was looked up.
    LoginMissing,
    /// What the last step asked to write is written.
    Stored,
}

impl CredentialEvent {
    /// The event in which the lookup of a stored credential ends. That
    /// the store knows no such user is an event; any other failure stays
    /// a failure.
    pub fn from_lookup(found: Result<Login, OrganizatorError>) -> (r: Result<
        CredentialEvent,
        OrganizatorError,
    >)
        ensures
            r == match found {
                Ok(login) => Ok::<CredentialEvent, OrganizatorError>(
                    CredentialEvent::LoginFound(login),
                ),
                Err(OrganizatorError::NotFound) => Ok::<CredentialEvent, OrganizatorError>(
                    CredentialEvent::LoginMissing,
                ),
                Err(e) => Err::<CredentialEvent, OrganizatorError>(e),
            },
    {
        match found {
            Ok(login) => Ok(CredentialEvent::LoginFound(login)),
            Err(OrganizatorError::NotFound) => Ok(CredentialEvent::LoginMissing),
            Err(e) => Err(e),
        }
    }
}

/// What a login asks for next.
#[derive(Debug, Clone, PartialEq, Eq)]
pub enum LoginStep {
    /// Answer the request; nothing more is to be done.
    Respond(Status),
    /// Look up the stored credential of this user.
    GetLogin { username: String },
    /// Keep this user in the session.
    SetSession { username: String },
}

impl LoginQuery {
    /// Both fields of the form are there.
    pub open spec fn complete(&self) -> bool {
        self.j_username is Some && self.j_password is Some
    }
}

/// Where a login ends without a session: a form with a field missing is
/// a bad request; a user without a stored credential and a password
/// that does not match are answered alike, as unauthorized.
pub open spec fn login_refusal(query: LoginQuery, event: CredentialEvent) -> Option<Status> {
    if !query.complete() {
        Some(Status::BadRequest)
    } else {
        match event {
            CredentialEvent::LoginMissing => Some(Status::Unauthorized),
            CredentialEvent::LoginFound(login) => if password_matches(
                query.j_password.unwrap()@,
                login.salt@,
                login.pbkdf2@,
            ) {
                None
            } else {
                Some(Status::Unauthorized)
            },
            _ => None,
        }
    }
}

/// One step of a login. The form is checked first; then the credential
/// of the user is looked up; the password is checked against it; the
/// user is kept in the session; the request is answered without content.
pub fn login(query: &LoginQuery, event: CredentialEvent) -> (step: LoginStep)
    ensures
        match login_refusal(*query, event) {
            Some(status) => step == LoginStep::Respond(status),
            None => match event {
                CredentialEvent::Submitted => step matches LoginStep::GetLogin { username }
                    && username@ == query.j_username.unwrap()@,
                CredentialEvent::LoginFound(_) => step matches LoginStep::SetSession { username }
                    && username@ == query.j_username.unwrap()@,
                _ => step == LoginStep::Respond(Status::NoContent),
            },
        },
{
    match (&query.j_username, &query.j_password) {
        (Some(username), Some(password)) => match event {
            CredentialEvent::Submitted => LoginStep::GetLogin { username: username.clone() },
            CredentialEvent::LoginFound(user_login) => {
                if verify_password(password.as_str(), &user_login) {
                    LoginStep::SetSession { username: username.clone() }
                } else {
                    LoginStep::Respond(Status::Unauthorized)
                }
            },
            CredentialEvent::LoginMissing => LoginStep::Respond(Status::Unauthorized),
            CredentialEvent::Stored => LoginStep::Respond(Status::NoContent),
        },
        _ => LoginStep::Respond(Status::BadRequest),
    }
}

/// Ends a session: whatever it held is gone, and the request is
/// answered without content. Ending an empty session does the same.
pub fn logout(session: &mut SessionState) -> (status: Status)
    ensures
        final(session)@ is None,
        status == Status::NoContent,
{
    session.purge();
    Status::NoContent
}

impl ChangePasswordQuery {
    /// The old and the new password are both there.
    pub open spec fn valid(&self) -> bool {
        self.old_password is Some && self.new_password is Some
    }

    /// Whether the form holds what a password change needs.
    pub fn validate(&self) -> (r: bool)
        ensures
            r == self.valid(),
    {
        return self.old_password.is_some() && self.new_password.is_some();
    }
}

/// What a password change asks for next.
#[derive(Debug, Clone, PartialEq, Eq)]
pub enum ChangePasswordStep {
    /// Answer the request; nothing more is to be done.
    Respond(Status),
    /// Look up the stored credential of the user who asks.
    GetLogin { username: String },
    /// Replace salt and hash of this user, both together.
    UpdatePassword { username: String, salt: Vec<u8>, pbkdf2: Vec<u8> },
}

/// Whether the one who asks may change the password they ask for, given
/// their own name and user id and whether their old password was right:
/// the old password must be right, and only the root user may name a
/// user other than themselves.
pub open spec fn may_change_password(
    form: ChangePasswordQuery,
    principal: Seq<char>,
    caller_id: i32,
    old_password_right: bool,
) -> bool {
    old_password_right && (caller_id == ROOT_USER_ID || form.username is None
        || form.username.unwrap()@ == principal)
}

/// The user whose password is changed: the one named, else the one who
/// asks.
pub open spec fn password_target(form: ChangePasswordQuery, principal: Seq<char>) -> Seq<char> {
    match form.username {
        Some(name) => name@,
        None => principal,
    }
}

/// Decides whose password is changed, once the old password was checked.
/// A refusal is a bad request and says no more.
pub fn change_password_target(
    form: &ChangePasswordQuery,
    principal: &str,
    caller_id: i32,
    old_password_right: bool,
) -> (r: Result<String, Status>)
    ensures
        match r {
            Ok(target) => may_change_password(*form, principal@, caller_id, old_password_right)
                && target@ == password_target(*form, principal@),
            Err(status) => !may_change_password(*form, principal@, caller_id, old_password_right)
                && status == Status::BadRequest,
        },
{
    if !old_password_right {
        return Err(Status::BadRequest);
    }
    match &form.username {
        Some(name) => {
            if caller_id == ROOT_USER_ID || str_eq(name.as_str(), principal) {
                Ok(name.clone())
            } else {
                Err(Status::BadRequest)
            }
        },
        None => Ok(String::from_str(principal)),
    }
}

/// Where a password change ends without a write. A form without the old
/// or the new password is a bad request, whoever asks and whatever
/// happened. Without a principal the request is unauthorized, and so it
/// is where the store has no credential for the principal. Against the
/// credential found, a wrong old password is a bad request, a user other
/// than root who names another user is one, and so is a new password too
/// long to be hashed.
pub open spec fn change_password_refusal(
    form: ChangePasswordQuery,
    security: Security,
    event: CredentialEvent,
) -> Option<Status> {
    if !form.valid() {
        Some(Status::BadRequest)
    } else if security@ is None {
        Some(Status::Unauthorized)
    } else {
        match event {
            CredentialEvent::LoginMissing => Some(Status::Unauthorized),
            CredentialEvent::LoginFound(login) => if !may_change_password(
                form,
                security@.unwrap(),
                login.id,
                password_matches(form.old_password.unwrap()@, login.salt@, login.pbkdf2@),
            ) {
                Some(Status::BadRequest)
            } else if password_bytes(form.new_password.unwrap()@).len() > MAX_PASSWORD_LEN {
                Some(Status::BadRequest)
            } else {
                None
            },
            _ => None,
        }
    }
}

/// One step of a password change. The form is checked before anything
/// else; the credential of the one who asks is looked up; their old
/// password is checked against it, then their right to change the
/// password asked for; only then a new salt and hash are made and handed
/// out to be written; the request is answered without content once they
/// are written. Making the new credential can fail for want of random
/// bytes: that is an internal failure, and nothing is written.
pub fn change_password(form: &ChangePasswordQuery, security: &Security, event: CredentialEvent) -> (step:
    ChangePasswordStep)
    ensures
        match change_password_refusal(*form, *security, event) {
            Some(status) => step == ChangePasswordStep::Respond(status),
            None => match event {
                CredentialEvent::Submitted => step matches ChangePasswordStep::GetLogin { username }
                    && Some(username@) == security@,
                CredentialEvent::LoginFound(_) => step == ChangePasswordStep::Respond(
                    Status::InternalServerError,
                ) || (step matches ChangePasswordStep::UpdatePassword { username, salt, pbkdf2 }
                    && username@ == password_target(*form, security@.unwrap()) && is_credential_of(
                    form.new_password.unwrap()@,
                    salt@,
                    pbkdf2@,
                )),
                _ => step == ChangePasswordStep::Respond(Status::NoContent),
            },
        },
{
    let (old_password, new_password) = match (&form.old_password, &form.new_password) {
        (Some(old_password), Some(new_password)) => (old_password, new_password),
        _ => {
            return ChangePasswordStep::Respond(Status::BadRequest);
        },
    };
    if security.user_name.is_none() {
        return ChangePasswordStep::Respond(Status::Unauthorized);
    }
    match event {
        CredentialEvent::Submitted => ChangePasswordStep::GetLogin {
            username: String::from_str(security.get_user_name()),
        },
        CredentialEvent::LoginMissing => ChangePasswordStep::Respond(Status::Unauthorized),
        CredentialEvent::LoginFound(user_login) => {
            let old_password_right = verify_password(old_password.as_str(), &user_login);
            let target = match change_password_target(
                form,
                security.get_user_name(),
                user_login.id,
                old_password_right,
            ) {
                Ok(target) => target,
                Err(status) => {
                    return ChangePasswordStep::Respond(status);
                },
            };
            let mut salt: Vec<u8> = Vec::new();
            let mut pbkdf2_hash: Vec<u8> = Vec::new();
            match compute_new_password(new_password.as_str(), &mut salt, &mut pbkdf2_hash) {
                Ok(()) => ChangePasswordStep::UpdatePassword {
                    username: target,
                    salt: salt,
                    pbkdf2: pbkdf2_hash,
                },
                Err(OrganizatorError::BadRequest) => ChangePasswordStep::Respond(
                    Status::BadRequest,
                ),
                Err(_) => ChangePasswordStep::Respond(Status::InternalServerError),
            }
        },
        CredentialEvent::Stored => ChangePasswordStep::Respond(Status::NoContent),
    }
}

/// A password change without the old password is a bad request: nothing
/// is looked up and nothing is written, whoever asks and whatever
/// happened before.
pub proof fn lemma_missing_old_password_is_refused(
    form: ChangePasswordQuery,
    security: Security,
    event: CredentialEvent,
)
    requires
        form.old_password is None,
    ensures
        change_password_refusal(form, security, event) == Some(Status::BadRequest),
{
}

/// A user other than root who names another user is refused, whether the
/// old password is right or wrong.
pub proof fn lemma_only_root_names_another_user(
    form: ChangePasswordQuery,
    security: Security,
    login: Login,
)
    requires
        login.id != ROOT_USER_ID,
        form.username is Some,
        security@ != Some(form.username.unwrap()@),
    ensures
        change_password_refusal(form, security, CredentialEvent::LoginFound(login)) is Some,
        form.valid() && security@ is Some ==> change_password_refusal(
            form,
            security,
            CredentialEvent::LoginFound(login),
        ) == Some(Status::BadRequest),
        forall|principal: Seq<char>, old_password_right: bool|
            principal != form.username.unwrap()@ ==> !may_change_password(
                form,
                principal,
                login.id,
                old_password_right,
            ),
{
}

/// Who names themselves is treated as who names nobody: the same
/// requests are refused, and the password changed is their own.
pub proof fn lemma_own_name_is_no_name(
    form: ChangePasswordQuery,
    security: Security,
    event: CredentialEvent,
)
    requires
        form.username is Some,
        security@ == Some(form.username.unwrap()@),
    ensures
        change_password_refusal(form, security, event) == change_password_refusal(
            ChangePasswordQuery { username: None, ..form },
            security,
            event,
        ),
        password_target(form, security@.unwrap()) == security@.unwrap(),
{
}

/// What the version request is answered with.
#[derive(Debug, Clone, Copy, PartialEq, Eq)]
pub struct Version {
    pub status: Status,
    pub content_type: &'static str,
    pub header_name: &'static str,
    pub header_value: &'static str,
    pub body: &'static str,
}

/// The version of the service, a line of text.
pub const VERSION_TEXT: &'static str = "1.0.2\n";

/// Answers the version request.
pub fn version() -> (v: Version)
    ensures
        v.status == Status::Success,
        v.content_type@ == "plain/text"@,
        v.header_name@ == "X-Version"@,
        v.header_value@ == "sample"@,
        v.body@ == VERSION_TEXT@,
{
    Version {
        status: Status::Success,
        content_type: "plain/text",
        header_name: "X-Version",
        header_value: "sample",
        body: VERSION_TEXT,
    }
}

/// The extension of a file name: what stands from its last dot on, the
/// dot included.
pub fn extension(filename: &str) -> (r: Option<&str>)
    ensures
        match r {
            Some(e) => last_index_of(filename@, '.') >= 0 && e@ == filename@.subrange(
                last_index_of(filename@, '.'),
                filename@.len() as int,
            ),
            None => last_index_of(filename@, '.') == -1,
        },
{
    proof {
        lemma_last_index_of(filename@, '.');
    }
    match rfind_char(filename, '.') {
        Some(i) => Some(filename.substring_char(i, filename.unicode_len())),
        None => None,
    }
}

/// The stem of a path: what stands behind its last slash, up to the last
/// dot where that dot stands in this last part, else up to the end.
pub open spec fn stem_of(path: Seq<char>) -> Seq<char> {
    let start = last_index_of(path, '/') + 1;
    let dot = last_index_of(path, '.');
    let end = if dot >= start {
        dot
    } else {
        path.len() as int
    };
    path.subrange(start, end)
}

/// The name of a file without its directories and without its extension.
pub fn without_extension(filename: &str) -> (r: &str)
    ensures
        r@ == stem_of(filename@),
{
    proof {
        lemma_last_index_of(filename@, '.');
        lemma_last_index_of(filename@, '/');
    }
    let n: usize = filename.unicode_len();
    let start: usize = match rfind_char(filename, '/') {
        Some(s) => s + 1,
        None => 0,
    };
    let end: usize = match rfind_char(filename, '.') {
        Some(d) => if d >= start {
            d
        } else {
            n
        },
        None => n,
    };
    filename.substring_char(start, end)
}

/// The identifier that `text` spells in one of the notations of
/// universally unique identifiers; none where it spells none.
pub uninterp spec fn uuid_parse(text: Seq<char>) -> Option<u128>;

/// The sixteen hexadecimal digits, in lower case.
pub open spec fn hex_digits() -> Seq<char> {
    seq!['0', '1', '2', '3', '4', '5', '6', '7', '8', '9', 'a', 'b', 'c', 'd', 'e', 'f']
}

/// The last `len` hexadecimal digits of a number, the most significant
/// first.
pub open spec fn hex_text(value: nat, len: nat) -> Seq<char>
    decreases len,
{
    if len == 0 {
        Seq::<char>::empty()
    } else {
        hex_text(value / 16, (len - 1) as nat).push(hex_digits()[(value % 16) as int])
    }
}

/// The text of an identifier in the hyphenated notation: its thirty-two
/// hexadecimal digits in groups of 8, 4, 4, 4 and 12, with a hyphen
/// between the groups.
pub open spec fn uuid_text(id: u128) -> Seq<char> {
    let digits = hex_text(id as nat, 32);
    digits.subrange(0, 8) + seq!['-'] + digits.subrange(8, 12) + seq!['-'] + digits.subrange(
        12,
        16,
    ) + seq!['-'] + digits.subrange(16, 20) + seq!['-'] + digits.subrange(20, 32)
}

/// `uuid::Uuid::parse_str`, the identifier handed back as a number.
#[verifier::external_body]
fn parse_uuid(text: &str) -> (r: Option<u128>)
    ensures
        r == uuid_parse(text@),
{
    match uuid::Uuid::parse_str(text) {
        Ok(id) => Some(id.as_u128()),
        Err(_) => None,
    }
}

/// The `Display` of `uuid::Uuid`, for the identifier of this number:
/// the hyphenated notation in lower case, which `uuid::Uuid::parse_str`
/// reads back to the same identifier.
#[verifier::external_body]
fn format_uuid(id: u128) -> (r: String)
    ensures
        r@ == uuid_text(id),
        uuid_parse(r@) == Some(id),
{
    uuid::Uuid::from_u128(id).to_string()
}

/// The number that bytes spell, the most significant first.
pub open spec fn be_value(bytes: Seq<u8>) -> nat
    decreases bytes.len(),
{
    if bytes.len() == 0 {
        0
    } else {
        be_value(bytes.drop_last()) * 256 + bytes.last() as nat
    }
}

/// The random identifier that sixteen random bytes make: the number that
/// they spell, once the four bits that tell the version say four and the
/// two bits that tell the variant say the one of RFC 4122.
pub open spec fn random_uuid(bytes: Seq<u8>) -> u128 {
    be_value(
        bytes.update(6, (bytes[6] & 0x0f) | 0x40).update(8, (bytes[8] & 0x3f) | 0x80),
    ) as u128
}

/// `uuid::Builder::from_random_bytes`, the identifier handed back as a
/// number: it sets the bits of version and variant and leaves the other
/// bytes as they are. It draws nothing itself.
#[verifier::external_body]
fn uuid_of_random_bytes(bytes: &[u8; 16]) -> (id: u128)
    ensures
        id == random_uuid(bytes@),
{
    uuid::Builder::from_random_bytes(*bytes).into_uuid().as_u128()
}

/// What an upload is answered with: the name under which the file that
/// came last was stored.
#[derive(Debug, Clone, PartialEq, Eq)]
pub struct FileUpload {
    pub filename: String,
}

/// An upload while its parts come in: the memo group named so far, which
/// the files that follow belong to, and the answer so far.
#[derive(Debug, Clone, PartialEq, Eq)]
pub struct UploadState {
    pub memo_group_id: Option<i32>,
    pub res: FileUpload,
}

/// What is to be done with a file of an upload: its content goes to the
/// path, and the store records the file under its identifier with the
/// name it came with and the memo group it belongs to.
#[derive(Debug, Clone, PartialEq, Eq)]
pub struct StoreFile {
    pub id: u128,
    pub filepath: String,
    pub filename: String,
    pub memo_group_id: Option<i32>,
}

/// The form value that names the memo group of an upload.
pub const MEMO_GROUP_FIELD: &'static str = "memo_group_id";

/// The extension of a file name, empty where it has none.
pub open spec fn extension_spec(filename: Seq<char>) -> Seq<char> {
    if last_index_of(filename, '.') >= 0 {
        filename.subrange(last_index_of(filename, '.'), filename.len() as int)
    } else {
        Seq::<char>::empty()
    }
}

/// The name under which a file is stored: its identifier, and the
/// extension of the name it came with.
pub open spec fn stored_name(id: u128, filename: Seq<char>) -> Seq<char> {
    uuid_text(id) + extension_spec(filename)
}

/// The path at which a file is stored below the upload directory.
pub open spec fn stored_path(dir: Seq<char>, id: u128, filename: Seq<char>) -> Seq<char> {
    dir + seq!['/'] + stored_name(id, filename)
}

/// Whether a text holds no slash.
pub open spec fn no_slash(s: Seq<char>) -> bool {
    forall|i: int| 0 <= i < s.len() ==> s[i] != '/'
}

proof fn lemma_hex_text(value: nat, len: nat)
    ensures
        hex_text(value, len).len() == len,
        forall|i: int|
            0 <= i < len ==> (#[trigger] hex_text(value, len)[i]) != '.' && hex_text(
                value,
                len,
            )[i] != '/',
    decreases len,
{
    if len > 0 {
        lemma_hex_text(value / 16, (len - 1) as nat);
    }
}

/// The text of an identifier has thirty-six characters, none of them a
/// dot or a slash.
pub proof fn lemma_uuid_text(id: u128)
    ensures
        uuid_text(id).len() == 36,
        forall|i: int|
            0 <= i < 36 ==> (#[trigger] uuid_text(id)[i]) != '.' && uuid_text(id)[i] != '/',
{
    lemma_hex_text(id as nat, 32);
}

/// The extension of a file name is empty or starts with the only dot it
/// holds.
pub proof fn lemma_extension_spec(filename: Seq<char>)
    ensures
        extension_spec(filename).len() > 0 ==> extension_spec(filename)[0] == '.',
        forall|i: int|
            1 <= i < extension_spec(filename).len() ==> extension_spec(filename)[i] != '.',
{
    lemma_last_index_of(filename, '.');
}

/// The stem of the path at which a file is stored is the text of its
/// identifier, provided the extension that the file came with holds no
/// slash.
pub proof fn lemma_stored_path_stem(dir: Seq<char>, id: u128, filename: Seq<char>)
    requires
        no_slash(extension_spec(filename)),
    ensures
        stem_of(stored_path(dir, id, filename)) == uuid_text(id),
{
    lemma_uuid_text(id);
    lemma_extension_spec(filename);
    let path = stored_path(dir, id, filename);
    // The name starts behind the slash that ends the directory, which is
    // the last slash of the path.
    let start: int = dir.len() as int + 1;
    lemma_last_index_of_at(path, '/', start - 1);
    if extension_spec(filename).len() > 0 {
        // The dot of the extension is the last dot of the path.
        lemma_last_index_of_at(path, '.', start + 36);
    } else {
        // No dot stands in the name: the last one stands in the directory.
        lemma_last_index_of_before(path, '.', start);
    }
}

impl UploadState {
    /// An upload of which no part has come in.
    pub fn new() -> (s: UploadState)
        ensures
            s.memo_group_id is None,
            s.res.filename@ == Seq::<char>::empty(),
    {
        UploadState { memo_group_id: None, res: FileUpload { filename: String::new() } }
    }

    /// Takes the memo group that a form value spelled. A value that
    /// spells no number is a bad request and changes nothing.
    pub fn memo_group(&mut self, parsed: Option<i32>) -> (r: Result<(), OrganizatorError>)
        ensures
            final(self).res == old(self).res,
            match parsed {
                Some(id) => r is Ok && final(self).memo_group_id == Some(id),
                None => r == Err::<(), OrganizatorError>(OrganizatorError::BadRequest)
                    && final(self).memo_group_id == old(self).memo_group_id,
            },
    {
        match parsed {
            Some(id) => {
                self.memo_group_id = Some(id);
                Ok(())
            },
            None => Err(OrganizatorError::BadRequest),
        }
    }

    /// Takes a part that is a form value. Only the value of the memo
    /// group field counts, and only where it is not empty.
    pub fn value_part(&mut self, name: &str, value: &str) -> (r: Result<(), OrganizatorError>)
        ensures
            final(self).res == old(self).res,
            name@ == MEMO_GROUP_FIELD@ && value@.len() > 0 ==> match decimal_i32(value@) {
                Some(id) => r is Ok && final(self).memo_group_id == Some(id as i32),
                None => r == Err::<(), OrganizatorError>(OrganizatorError::BadRequest)
                    && final(self).memo_group_id == old(self).memo_group_id,
            },
            !(name@ == MEMO_GROUP_FIELD@ && value@.len() > 0) ==> r is Ok
                && final(self).memo_group_id == old(self).memo_group_id,
    {
        if str_eq(name, MEMO_GROUP_FIELD) && value.unicode_len() > 0 {
            self.memo_group(parse_i32(value))
        } else {
            Ok(())
        }
    }

    /// Takes a part that is a file, to be stored under `id`. The answer
    /// of the upload then names this file.
    pub fn file_part(&mut self, dir: &str, filename: &str, id: u128) -> (r: StoreFile)
        ensures
            r.id == id,
            r.filepath@ == stored_path(dir@, id, filename@),
            r.filename@ == filename@,
            r.memo_group_id == old(self).memo_group_id,
            final(self).memo_group_id == old(self).memo_group_id,
            final(self).res.filename@ == stored_name(id, filename@),
            no_slash(extension_spec(filename@)) ==> file_id_spec(r.filepath@) == Some(id),
    {
        let mut name = format_uuid(id);
        assert(uuid_parse(uuid_text(id)) == Some(id));
        if let Some(ext) = extension(filename) {
            name.append(ext);
        }
        assert(name@ =~= stored_name(id, filename@));
        let mut filepath = String::from_str(dir);
        proof {
            reveal_strlit("/");
        }
        assert("/"@ =~= seq!['/']);
        filepath.append("/");
        filepath.append(name.as_str());
        assert(filepath@ =~= stored_path(dir@, id, filename@));
        proof {
            if no_slash(extension_spec(filename@)) {
                lemma_stored_path_stem(dir@, id, filename@);
                assert(stem_of(filepath@) == uuid_text(id));
                assert(file_id_spec(filepath@) == Some(id));
            }
        }
        self.res = FileUpload { filename: name };
        StoreFile {
            id: id,
            filepath: filepath,
            filename: String::from_str(filename),
            memo_group_id: self.memo_group_id,
        }
    }
}

/// What taking a file under the identifier `id` does to an upload and
/// hands out: the file goes to the path of its identifier below the
/// directory, the answer of the upload names it, and the memo group
/// stays.
pub open spec fn takes_file(
    before: UploadState,
    after: UploadState,
    dir: Seq<char>,
    filename: Seq<char>,
    id: u128,
    stored: StoreFile,
) -> bool {
    &&& stored.id == id
    &&& stored.filepath@ == stored_path(dir, id, filename)
    &&& stored.filename@ == filename
    &&& stored.memo_group_id == before.memo_group_id
    &&& after.memo_group_id == before.memo_group_id
    &&& after.res.filename@ == stored_name(id, filename)
    &&& no_slash(extension_spec(filename)) ==> file_id_spec(stored.filepath@) == Some(id)
}

/// Takes a file of an upload under the random identifier that the bytes
/// drawn for it make.
pub fn random_file_part(
    state: &mut UploadState,
    dir: &str,
    filename: &str,
    random: &[u8; 16],
) -> (r: StoreFile)
    ensures
        takes_file(*old(state), *final(state), dir@, filename@, random_uuid(random@), r),
{
    let file_uuid = uuid_of_random_bytes(random);
    state.file_part(dir, filename, file_uuid)
}

/// Takes a file of an upload under a random identifier drawn for it.
/// Where the random source gives no bytes, that is an internal failure
/// and the upload stays as it was.
pub fn upload_file(state: &mut UploadState, dir: &str, filename: &str) -> (r: Result<
    StoreFile,
    OrganizatorError,
>)
    ensures
        r is Err ==> r == Err::<StoreFile, OrganizatorError>(OrganizatorError::Internal)
            && *final(state) == *old(state),
        r is Ok ==> takes_file(
            *old(state),
            *final(state),
            dir@,
            filename@,
            r.unwrap().id,
            r.unwrap(),
        ),
{
    let mut random: [u8; 16] = [0u8; 16];
    let rng = ring::rand::SystemRandom::new();
    match fill_random(&rng, vstd::array::ref_mut_array_unsizing_coercion(&mut random)) {
        Ok(()) => Ok(random_file_part(state, dir, filename, &random)),
        Err(unspecified) => Err(OrganizatorError::from(unspecified)),
    }
}

/// The request header in which the proxy hands on the path that was
/// asked for.
pub const REQUESTED_URI_HEADER: &'static str = "X-Original-URI";

/// The level that reading a file takes.
pub const FILE_ACCESS_LEVEL: i32 = 1;

/// The check of a file that the store is asked for.
#[derive(Debug, Clone, PartialEq, Eq)]
pub struct FileCheck {
    pub id: u128,
    pub username: String,
    pub min_required: Option<i32>,
}

/// The identifier of the file that a path names: the one that its stem
/// spells.
pub open spec fn file_id_spec(uri: Seq<char>) -> Option<u128> {
    uuid_parse(stem_of(uri))
}

/// Reads the identifier of a file off the path under which it is asked
/// for.
pub fn file_id(uri: &str) -> (r: Option<u128>)
    ensures
        r == file_id_spec(uri@),
{
    parse_uuid(without_extension(uri))
}

/// What is asked of the store for a file, given the identifier that the
/// path spelled. Without a principal the request is unauthorized; a path
/// that spells no identifier names no file.
pub fn file_check(security: &Security, id: Option<u128>) -> (r: Result<FileCheck, OrganizatorError>)
    ensures
        match r {
            Ok(check) => security@ == Some(check.username@) && id == Some(check.id)
                && check.min_required == Some(FILE_ACCESS_LEVEL),
            Err(e) => if security@ is None {
                e == OrganizatorError::Unauthorized
            } else {
                id is None && e == OrganizatorError::NotFound
            },
        },
{
    if security.user_name.is_none() {
        return Err(OrganizatorError::Unauthorized);
    }
    match id {
        Some(id) => Ok(
            FileCheck {
                id: id,
                username: String::from_str(security.get_user_name()),
                min_required: Some(FILE_ACCESS_LEVEL),
            },
        ),
        None => Err(OrganizatorError::NotFound),
    }
}

/// The first step of the check of a file: what to ask the store. A
/// request without the path is a bad request.
pub fn file_auth(security: &Security, uri: Option<&str>) -> (r: Result<FileCheck, OrganizatorError>)
    ensures
        match r {
            Ok(check) => security@ == Some(check.username@) && uri is Some && file_id_spec(
                uri.unwrap()@,
            ) == Some(check.id) && check.min_required == Some(FILE_ACCESS_LEVEL),
            Err(e) => if uri is None {
                e == OrganizatorError::BadRequest
            } else if security@ is None {
                e == OrganizatorError::Unauthorized
            } else {
                file_id_spec(uri.unwrap()@) is None && e == OrganizatorError::NotFound
            },
        },
{
    match uri {
        Some(uri) => file_check(security, file_id(uri)),
        None => Err(OrganizatorError::BadRequest),
    }
}

/// The last step of the check of a file: the answer, given what the
/// store says of the one who asks. Who may read the file is answered
/// without content; who may not is forbidden.
pub fn file_auth_outcome(permissions: &GetFilePermissions) -> (r: Result<Status, OrganizatorError>)
    ensures
        r == if permissions.effective_level_spec() >= FILE_ACCESS_LEVEL {
            Ok::<Status, OrganizatorError>(Status::NoContent)
        } else {
            Err::<Status, OrganizatorError>(OrganizatorError::Forbidden)
        },
{
    match permissions.authorize(FILE_ACCESS_LEVEL) {
        Decision::Allow => Ok(Status::NoContent),
        Decision::Deny => Err(OrganizatorError::Forbidden),
    }
}

} // verus!
