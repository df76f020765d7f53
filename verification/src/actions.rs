//! What the buttons and forms of the pages do when pressed: each either
//! does nothing, refuses with a message, or sends a request.

use vstd::prelude::*;
use vstd::string::*;

use crate::api::{
    authorized_by, borrow_request, create_book_request, delete_book_request,
    delete_user_request, return_request, set_permission_request, update_book_request,
    update_profile_request, Action, ApiRequest, HttpMethod, RequestBody, BASE,
};
use crate::catalog::BookDraft;
use crate::forms::{check_profile_form, profile_form_error};
use crate::models::{is_admin_permission, UserBrief};
use crate::state::ToastKind;
use crate::text::{byte_len, decimal, trim, trimmed};

verus! {

/// What pressing a button or submitting a form leads to.
pub enum Attempt {
    /// Nothing: a request is under way, or there is no session.
    Ignore,
    /// Show `message` as an error.
    Refuse { message: String },
    /// Send `request`; its success is reported as `action`.
    Send { request: ApiRequest, action: Action },
}

/// Whether `r` sends a request with this method and URL, authorized by
/// `token`, whose success is reported as `action`.
pub open spec fn sends(
    r: Attempt,
    action: Action,
    method: HttpMethod,
    url: Seq<char>,
    token: Seq<char>,
) -> bool {
    &&& r matches Attempt::Send { request, action: a }
    &&& a == action
    &&& request.method == method
    &&& request.url@ == url
    &&& authorized_by(request, token)
}

/// The body of the request `r` sends.
pub open spec fn sent_body(r: Attempt) -> RequestBody {
    match r {
        Attempt::Send { request, .. } => request.body,
        _ => RequestBody::Empty,
    }
}

/// Whether `r` refuses with `message`.
pub open spec fn refuses(r: Attempt, message: Seq<char>) -> bool {
    r matches Attempt::Refuse { message: m } && m@ == message
}

/// Borrowing a title: refused without a session or without a loaded
/// account.
pub fn borrow_attempt(busy: bool, token: &Option<String>, user_id: Option<i32>, book_id: i32) -> (r:
    Attempt)
    ensures
        busy ==> r is Ignore,
        !busy && token is None ==> refuses(r, "请先登录后再借阅"@),
        !busy && token is Some && user_id is None ==> refuses(r, "无法获取用户信息"@),
        !busy && token is Some && user_id is Some ==> sends(
            r,
            Action::Borrow,
            HttpMethod::Post,
            BASE@ + "/borrow"@,
            token->0@,
        ) && sent_body(r) == (RequestBody::Loan { user_id: user_id->0, book_id }),
{
    if busy {
        return Attempt::Ignore;
    }
    match token {
        None => Attempt::Refuse { message: String::from_str("请先登录后再借阅") },
        Some(t) => match user_id {
            None => Attempt::Refuse { message: String::from_str("无法获取用户信息") },
            Some(uid) => Attempt::Send {
                request: borrow_request(t.as_str(), uid, book_id),
                action: Action::Borrow,
            },
        },
    }
}

/// Returning a title: does nothing without a session or an account.
pub fn return_attempt(busy: bool, token: &Option<String>, user_id: Option<i32>, book_id: i32) -> (r:
    Attempt)
    ensures
        busy || token is None || user_id is None ==> r is Ignore,
        !busy && token is Some && user_id is Some ==> sends(
            r,
            Action::Return,
            HttpMethod::Post,
            BASE@ + "/return"@,
            token->0@,
        ) && sent_body(r) == (RequestBody::Loan { user_id: user_id->0, book_id }),
{
    if busy {
        return Attempt::Ignore;
    }
    match (token, user_id) {
        (Some(t), Some(uid)) => Attempt::Send {
            request: return_request(t.as_str(), uid, book_id),
            action: Action::Return,
        },
        _ => Attempt::Ignore,
    }
}

/// Deleting a title: does nothing without a session.
pub fn delete_book_attempt(busy: bool, token: &Option<String>, book_id: i32) -> (r: Attempt)
    ensures
        busy || token is None ==> r is Ignore,
        !busy && token is Some ==> sends(
            r,
            Action::DeleteBook,
            HttpMethod::Delete,
            BASE@ + "/books/"@ + decimal(book_id as int),
            token->0@,
        ) && sent_body(r) is Empty,
{
    if busy {
        return Attempt::Ignore;
    }
    match token {
        Some(t) => Attempt::Send {
            request: delete_book_request(t.as_str(), book_id),
            action: Action::DeleteBook,
        },
        None => Attempt::Ignore,
    }
}

/// Why the title editor is refused, if it is: a session is needed, name
/// and author (trimmed) must be filled in, and at least one copy.
pub open spec fn editor_error(token: Option<String>, draft: BookDraft) -> Option<Seq<char>> {
    if token is None {
        Some("请先登录"@)
    } else if trimmed(draft.name@).len() == 0 || trimmed(draft.author@).len() == 0 {
        Some("书名和作者不能为空"@)
    } else if draft.total < 1 {
        Some("数量至少为 1"@)
    } else {
        None
    }
}

/// A law of the title editor: with a session, a title is saved exactly when
/// its trimmed name and trimmed author are both filled in and it has at
/// least one copy; a missing name or author is refused with its own message,
/// whatever the other fields hold.
pub proof fn law_editor_needs_name_and_author(token: String, draft: BookDraft)
    ensures
        editor_error(Some(token), draft) is None <==> (trimmed(draft.name@).len() > 0 && trimmed(
            draft.author@,
        ).len() > 0 && draft.total >= 1),
        trimmed(draft.name@).len() == 0 || trimmed(draft.author@).len() == 0 ==> editor_error(
            Some(token),
            draft,
        ) == Some("书名和作者不能为空"@),
        editor_error(None, draft) == Some("请先登录"@),
{
}

/// Saving the title editor: the trimmed fields go to the title being
/// edited, or make a new title.
pub fn editor_attempt(busy: bool, token: &Option<String>, draft: &BookDraft) -> (r: Attempt)
    ensures
        busy ==> r is Ignore,
        !busy && editor_error(*token, *draft) is Some ==> refuses(
            r,
            editor_error(*token, *draft)->0,
        ),
        !busy && editor_error(*token, *draft) is None ==> match draft.id {
            Some(id) => sends(
                r,
                Action::UpdateBook,
                HttpMethod::Put,
                BASE@ + "/books/"@ + decimal(id as int),
                token->0@,
            ),
            None => sends(r, Action::CreateBook, HttpMethod::Post, BASE@ + "/books"@, token->0@),
        },
        !busy && editor_error(*token, *draft) is None ==> (sent_body(r) matches RequestBody::BookFields {
            name,
            author,
            description,
            total,
        } && name@ == trimmed(draft.name@) && author@ == trimmed(draft.author@) && description@
            == trimmed(draft.description@) && total == draft.total),
        !busy && token is None ==> refuses(r, "请先登录"@),
        !busy && token is Some && (trimmed(draft.name@).len() == 0 || trimmed(draft.author@).len()
            == 0) ==> refuses(r, "书名和作者不能为空"@),
        !busy && token is Some && trimmed(draft.name@).len() > 0 && trimmed(draft.author@).len() > 0
            && draft.total < 1 ==> refuses(r, "数量至少为 1"@),
        r is Send ==> !busy && token is Some && trimmed(draft.name@).len() > 0 && trimmed(
            draft.author@,
        ).len() > 0 && draft.total >= 1,
{
    if busy {
        return Attempt::Ignore;
    }
    match token {
        None => Attempt::Refuse { message: String::from_str("请先登录") },
        Some(t) => {
            let name = trim(draft.name.as_str());
            let author = trim(draft.author.as_str());
            let description = trim(draft.description.as_str());
            if name.as_str().is_empty() || author.as_str().is_empty() {
                return Attempt::Refuse { message: String::from_str("书名和作者不能为空") };
            }
            if draft.total < 1 {
                return Attempt::Refuse { message: String::from_str("数量至少为 1") };
            }
            match draft.id {
                Some(id) => Attempt::Send {
                    request: update_book_request(
                        t.as_str(),
                        id,
                        name.as_str(),
                        author.as_str(),
                        description.as_str(),
                        draft.total,
                    ),
                    action: Action::UpdateBook,
                },
                None => Attempt::Send {
                    request: create_book_request(
                        t.as_str(),
                        name.as_str(),
                        author.as_str(),
                        description.as_str(),
                        draft.total,
                    ),
                    action: Action::CreateBook,
                },
            }
        },
    }
}

/// Saving the account form: does nothing without a session; refused when
/// the form is not acceptable; else the trimmed user name, the current and
/// the new password are sent.
pub fn profile_attempt(
    busy: bool,
    token: &Option<String>,
    user_id: i32,
    username: &str,
    old_password: &str,
    new_password: &str,
) -> (r: Attempt)
    ensures
        busy || token is None ==> r is Ignore,
        !busy && token is Some && profile_form_error(username@, old_password@, new_password@)
            is Some ==> refuses(r, profile_form_error(username@, old_password@, new_password@)->0),
        !busy && token is Some && profile_form_error(username@, old_password@, new_password@)
            is None ==> sends(
            r,
            Action::UpdateProfile,
            HttpMethod::Put,
            BASE@ + "/users/"@ + decimal(user_id as int),
            token->0@,
        ) && (sent_body(r) matches RequestBody::ProfileChange {
            old_password: o,
            username: u,
            password: p,
        } && o@ == old_password@ && u@ == trimmed(username@) && p@ == new_password@),
        r is Send ==> !busy && token is Some && old_password@.len() > 0 && 2 <= byte_len(
            trimmed(username@),
        ) <= 20 && (new_password@.len() > 0 ==> byte_len(new_password@) >= 6),
        !busy && token is Some && trimmed(username@).len() > 0 && old_password@.len() > 0 && (
        byte_len(trimmed(username@)) < 2 || byte_len(trimmed(username@)) > 20) ==> refuses(
            r,
            "用户名长度需 2-20 位"@,
        ),
{
    if busy {
        return Attempt::Ignore;
    }
    match token {
        None => Attempt::Ignore,
        Some(t) => match check_profile_form(username, old_password, new_password) {
            Err(message) => Attempt::Refuse { message },
            Ok(c) => Attempt::Send {
                request: update_profile_request(
                    t.as_str(),
                    user_id,
                    c.old_password.as_str(),
                    c.username.as_str(),
                    c.new_password.as_str(),
                ),
                action: Action::UpdateProfile,
            },
        },
    }
}

/// Closing one's own account (after confirming): does nothing without a
/// session.
pub fn close_account_attempt(busy: bool, token: &Option<String>, user_id: i32) -> (r: Attempt)
    ensures
        busy || token is None ==> r is Ignore,
        !busy && token is Some ==> sends(
            r,
            Action::CloseAccount,
            HttpMethod::Delete,
            BASE@ + "/users/"@ + decimal(user_id as int),
            token->0@,
        ) && sent_body(r) is Empty,
{
    if busy {
        return Attempt::Ignore;
    }
    match token {
        Some(t) => Attempt::Send {
            request: delete_user_request(t.as_str(), user_id),
            action: Action::CloseAccount,
        },
        None => Attempt::Ignore,
    }
}

/// The permission an administrator's toggle gives the listed account: an
/// administrator becomes a user, anyone else an administrator.
pub open spec fn toggled(permission: Seq<char>) -> Seq<char> {
    if is_admin_permission(permission) {
        "user"@
    } else {
        "admin"@
    }
}

/// Toggling the permission of a listed account: does nothing without a
/// session.
pub fn permission_attempt(busy: bool, token: &Option<String>, user: &UserBrief) -> (r: Attempt)
    ensures
        busy || token is None ==> r is Ignore,
        !busy && token is Some ==> sends(
            r,
            Action::SetPermission,
            HttpMethod::Put,
            BASE@ + "/users/"@ + decimal(user.id as int) + "/permission"@,
            token->0@,
        ) && (sent_body(r) matches RequestBody::Permission { permission } && permission@
            == toggled(user.permission@)),
{
    if busy {
        return Attempt::Ignore;
    }
    match token {
        Some(t) => {
            let new_permission = if user.is_admin() {
                "user"
            } else {
                "admin"
            };
            Attempt::Send {
                request: set_permission_request(t.as_str(), user.id, new_permission),
                action: Action::SetPermission,
            }
        },
        None => Attempt::Ignore,
    }
}

/// Removing a listed account (administrators): does nothing without a
/// session.
pub fn remove_user_attempt(busy: bool, token: &Option<String>, user_id: i32) -> (r: Attempt)
    ensures
        busy || token is None ==> r is Ignore,
        !busy && token is Some ==> sends(
            r,
            Action::DeleteUser,
            HttpMethod::Delete,
            BASE@ + "/users/"@ + decimal(user_id as int),
            token->0@,
        ) && sent_body(r) is Empty,
{
    if busy {
        return Attempt::Ignore;
    }
    match token {
        Some(t) => Attempt::Send {
            request: delete_user_request(t.as_str(), user_id),
            action: Action::DeleteUser,
        },
        None => Attempt::Ignore,
    }
}

/// The toast that reports an outcome: its message, as a success or as an
/// error.
pub fn feedback(outcome: &Result<String, String>) -> (r: (ToastKind, String))
    ensures
        match *outcome {
            Ok(m) => r.0 == ToastKind::Success && r.1@ == m@,
            Err(e) => r.0 == ToastKind::Error && r.1@ == e@,
        },
{
    match outcome {
        Ok(m) => (ToastKind::Success, m.clone()),
        Err(e) => (ToastKind::Error, e.clone()),
    }
}

/// Whether a refusal says the account has lost its administrator rights,
/// so that the account must be loaded again.
pub fn lost_admin_rights(message: &str) -> (r: bool)
    ensures
        r == (message@ == "需要管理员权限"@),
{
    String::from_str(message) == String::from_str("需要管理员权限")
}


/// Where a request was started, which decides what follows its outcome.
#[derive(Clone, Copy, PartialEq, Eq, Debug, Structural)]
pub enum Place {
    /// The title editor of the catalogue.
    Editor,
    /// Borrowing or returning on a title's card.
    CardLoan,
    /// Deleting a title from its card.
    CardDelete,
    /// Returning a title from the list of one's loans.
    LoanList,
    /// Saving the account form.
    AccountForm,
    /// Closing one's own account.
    AccountClosing,
    /// Changing or removing an account in the administrators' list.
    UserRow,
}

/// What follows the outcome of a request: the toast, and which parts of
/// the page change.
#[derive(Clone, PartialEq, Debug)]
pub struct Reaction {
    pub toast: ToastKind,
    pub message: String,
    /// Close the title editor.
    pub close_editor: bool,
    /// Load the listing on the page again.
    pub refresh_listing: bool,
    /// Load the signed-in account again.
    pub reload_user: bool,
    /// Empty the account form's password fields.
    pub clear_passwords: bool,
    /// Sign out.
    pub sign_out: bool,
}

/// What follows the outcome of a request started at `place`. The outcome
/// is shown as a toast. On success the editor closes, listings that changed
/// are loaded again, the account is loaded again where the loans or the
/// account changed, the account form's passwords are emptied, and closing
/// the account signs out. A refusal in the administrators' list that says
/// the rights are gone loads the account again.
pub fn react(place: Place, outcome: &Result<String, String>) -> (r: Reaction)
    ensures
        match *outcome {
            Ok(m) => r.toast == ToastKind::Success && r.message@ == m@,
            Err(e) => r.toast == ToastKind::Error && r.message@ == e@,
        },
        r.close_editor == (outcome is Ok && place == Place::Editor),
        r.refresh_listing == (outcome is Ok && (place == Place::Editor || place == Place::CardLoan
            || place == Place::CardDelete || place == Place::UserRow)),
        r.reload_user == (match *outcome {
            Ok(_) => place == Place::CardLoan || place == Place::LoanList || place
                == Place::AccountForm,
            Err(e) => place == Place::UserRow && e@ == "需要管理员权限"@,
        }),
        r.clear_passwords == (outcome is Ok && place == Place::AccountForm),
        r.sign_out == (outcome is Ok && place == Place::AccountClosing),
{
    let (toast, message) = feedback(outcome);
    match outcome {
        Ok(_) => Reaction {
            toast,
            message,
            close_editor: place == Place::Editor,
            refresh_listing: place == Place::Editor || place == Place::CardLoan || place
                == Place::CardDelete || place == Place::UserRow,
            reload_user: place == Place::CardLoan || place == Place::LoanList || place
                == Place::AccountForm,
            clear_passwords: place == Place::AccountForm,
            sign_out: place == Place::AccountClosing,
        },
        Err(e) => Reaction {
            toast,
            message,
            close_editor: false,
            refresh_listing: false,
            reload_user: place == Place::UserRow && lost_admin_rights(e.as_str()),
            clear_passwords: false,
            sign_out: false,
        },
    }
}

/// The token an administrators' list is loaded with, or the message shown
/// in its place when there is no session.
pub fn session_token(token: &Option<String>) -> (r: Result<String, String>)
    ensures
        match *token {
            Some(t) => r == Ok::<String, String>(t),
            None => r matches Err(e) && e@ == "未登录"@,
        },
{
    match token {
        Some(t) => Ok(t.clone()),
        None => Err(String::from_str("未登录")),
    }
}

/// The line the administrators' loan list shows when it holds `count`
/// loans: a note when there are none.
pub fn empty_loans_note(count: usize) -> (r: Option<String>)
    ensures
        count == 0 ==> (r matches Some(m) && m@ == "暂无借阅记录"@),
        count > 0 ==> r is None,
{
    if count == 0 {
        Some(String::from_str("暂无借阅记录"))
    } else {
        None
    }
}

} // verus!
