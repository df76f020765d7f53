//! The requests the front end sends to the library server, and how it reads
//! the server's replies. Sending and receiving is left to the caller.

use vstd::prelude::*;
use vstd::string::*;
use vstd::utf8::encode_utf8;

use crate::json::{json_str_member, json_string_member};
use crate::models::{Book, BookListResponse};
use crate::text::{decimal, push_decimal, trim, trimmed};

verus! {

/// Prefix of every route of the server.
pub const BASE: &'static str = "/api";

/// HTTP method of a request.
#[derive(Clone, Copy, PartialEq, Eq, Debug, Structural)]
pub enum HttpMethod {
    Get,
    Post,
    Put,
    Delete,
}

/// The JSON object a request carries, field by field.
#[derive(Clone, PartialEq, Debug)]
pub enum RequestBody {
    /// No body.
    Empty,
    /// `{username, password}`
    Credentials { username: String, password: String },
    /// `{name, author, description, total}`
    BookFields { name: String, author: String, description: String, total: i32 },
    /// `{old_password, username, password}`
    ProfileChange { old_password: String, username: String, password: String },
    /// `{user_id, book_id}`
    Loan { user_id: i32, book_id: i32 },
    /// `{permission}`
    Permission { permission: String },
}

/// A request to send: method, URL, `Authorization` header and body.
#[derive(Clone, PartialEq, Debug)]
pub struct ApiRequest {
    pub method: HttpMethod,
    pub url: String,
    pub authorization: Option<String>,
    pub body: RequestBody,
}

/// The `Authorization` header value for `token`.
pub fn bearer(token: &str) -> (r: String)
    ensures
        r@ == "Bearer "@ + token@,
{
    String::from_str("Bearer ").concat(token)
}

/// The `Authorization` header a request carries for `token`.
pub open spec fn authorized_by(req: ApiRequest, token: Seq<char>) -> bool {
    req.authorization matches Some(h) && h@ == "Bearer "@ + token
}

fn route(path: &str) -> (r: String)
    ensures
        r@ == BASE@ + path@,
{
    String::from_str(BASE).concat(path)
}

fn route_with_id(path: &str, id: i32) -> (r: String)
    ensures
        r@ == BASE@ + path@ + decimal(id as int),
{
    let mut s = route(path);
    push_decimal(&mut s, id as i64);
    s
}

fn credentials(username: &str, password: &str) -> (r: RequestBody)
    ensures
        r matches RequestBody::Credentials { username: u, password: p } && u@ == username@
            && p@ == password@,
{
    RequestBody::Credentials {
        username: String::from_str(username),
        password: String::from_str(password),
    }
}

fn book_fields(name: &str, author: &str, description: &str, total: i32) -> (r: RequestBody)
    ensures
        r matches RequestBody::BookFields { name: n, author: a, description: d, total: t }
            && n@ == name@ && a@ == author@ && d@ == description@ && t == total,
{
    RequestBody::BookFields {
        name: String::from_str(name),
        author: String::from_str(author),
        description: String::from_str(description),
        total,
    }
}

/// `POST /api/login` with the credentials.
pub fn login_request(username: &str, password: &str) -> (r: ApiRequest)
    ensures
        r.method == HttpMethod::Post,
        r.url@ == BASE@ + "/login"@,
        r.authorization is None,
        r.body matches RequestBody::Credentials { username: u, password: p } && u@ == username@
            && p@ == password@,
{
    ApiRequest {
        method: HttpMethod::Post,
        url: route("/login"),
        authorization: None,
        body: credentials(username, password),
    }
}

/// `POST /api/refresh`, authorized by the token to renew.
pub fn refresh_request(token: &str) -> (r: ApiRequest)
    ensures
        r.method == HttpMethod::Post,
        r.url@ == BASE@ + "/refresh"@,
        authorized_by(r, token@),
        r.body is Empty,
{
    ApiRequest {
        method: HttpMethod::Post,
        url: route("/refresh"),
        authorization: Some(bearer(token)),
        body: RequestBody::Empty,
    }
}

/// `POST /api/register` with the credentials.
pub fn register_request(username: &str, password: &str) -> (r: ApiRequest)
    ensures
        r.method == HttpMethod::Post,
        r.url@ == BASE@ + "/register"@,
        r.authorization is None,
        r.body matches RequestBody::Credentials { username: u, password: p } && u@ == username@
            && p@ == password@,
{
    ApiRequest {
        method: HttpMethod::Post,
        url: route("/register"),
        authorization: None,
        body: credentials(username, password),
    }
}

/// `GET /api/me`: the signed-in account.
pub fn me_request(token: &str) -> (r: ApiRequest)
    ensures
        r.method == HttpMethod::Get,
        r.url@ == BASE@ + "/me"@,
        authorized_by(r, token@),
        r.body is Empty,
{
    ApiRequest {
        method: HttpMethod::Get,
        url: route("/me"),
        authorization: Some(bearer(token)),
        body: RequestBody::Empty,
    }
}


/// Bytes that percent-encoding leaves as they are: ASCII letters, digits
/// and `-`, `.`, `_`, `~`.
pub open spec fn is_unreserved_byte(b: u8) -> bool {
    ||| 48 <= b <= 57
    ||| 65 <= b <= 90
    ||| 97 <= b <= 122
    ||| b == 45
    ||| b == 46
    ||| b == 95
    ||| b == 126
}

/// Upper-case hexadecimal digit for `d < 16`.
pub open spec fn hex_digit(d: u8) -> char {
    if d < 10 {
        (48 + d) as char
    } else {
        (55 + d) as char
    }
}

/// Percent-encoding of one byte.
pub open spec fn percent_encode_byte(b: u8) -> Seq<char> {
    if is_unreserved_byte(b) {
        seq![b as char]
    } else {
        seq!['%', hex_digit(b / 16), hex_digit(b % 16)]
    }
}

/// Percent-encoding of a byte string, byte by byte.
pub open spec fn percent_encoding(bytes: Seq<u8>) -> Seq<char>
    decreases bytes.len(),
{
    if bytes.len() == 0 {
        Seq::empty()
    } else {
        percent_encode_byte(bytes[0]) + percent_encoding(bytes.drop_first())
    }
}

/// `urlencoding::encode`: every byte of the UTF-8 encoding of `s` but
/// ASCII letters, digits and `-._~` becomes `%` and two upper-case hex
/// digits, as the crate's source does it.
#[verifier::external_body]
fn url_encode(s: &str) -> (r: String)
    ensures
        r@ == percent_encoding(encode_utf8(s@)),
{
    urlencoding::encode(s).into_owned()
}

/// Which listing a book query asks for.
#[derive(Clone, Copy, PartialEq, Eq, Debug, Structural)]
pub enum Listing {
    /// A page of the whole catalogue.
    Catalogue,
    /// All titles matching a keyword.
    Search,
}

/// The request for a book query, and which listing it asks for.
#[derive(Clone, PartialEq, Debug)]
pub struct SearchPlan {
    pub request: ApiRequest,
    pub listing: Listing,
}

/// The URL of a book query: the catalogue page `page` (nine titles a page)
/// when the trimmed keyword is empty, else the search for the trimmed
/// keyword.
pub open spec fn search_url(keyword: Seq<char>, page: i32) -> Seq<char> {
    let kw = trimmed(keyword);
    if kw.len() == 0 {
        BASE@ + "/books?page="@ + decimal(page as int) + "&limit=9"@
    } else {
        BASE@ + "/books/search?q="@ + percent_encoding(encode_utf8(kw))
    }
}

/// `GET` a page of the catalogue, or the search for a keyword.
pub fn search_request(keyword: &str, page: i32) -> (r: SearchPlan)
    ensures
        r.request.method == HttpMethod::Get,
        r.request.url@ == search_url(keyword@, page),
        r.request.authorization is None,
        r.request.body is Empty,
        (r.listing == Listing::Catalogue) == (trimmed(keyword@).len() == 0),
{
    let kw = trim(keyword);
    if kw.as_str().is_empty() {
        let mut url = route("/books?page=");
        push_decimal(&mut url, page as i64);
        let url = url.concat("&limit=9");
        SearchPlan {
            request: ApiRequest {
                method: HttpMethod::Get,
                url,
                authorization: None,
                body: RequestBody::Empty,
            },
            listing: Listing::Catalogue,
        }
    } else {
        let url = route("/books/search?q=").concat(url_encode(kw.as_str()).as_str());
        SearchPlan {
            request: ApiRequest {
                method: HttpMethod::Get,
                url,
                authorization: None,
                body: RequestBody::Empty,
            },
            listing: Listing::Search,
        }
    }
}

/// `POST /api/books`: a new title.
pub fn create_book_request(token: &str, name: &str, author: &str, description: &str, total: i32) -> (r:
    ApiRequest)
    ensures
        r.method == HttpMethod::Post,
        r.url@ == BASE@ + "/books"@,
        authorized_by(r, token@),
        r.body matches RequestBody::BookFields { name: n, author: a, description: d, total: t }
            && n@ == name@ && a@ == author@ && d@ == description@ && t == total,
{
    ApiRequest {
        method: HttpMethod::Post,
        url: route("/books"),
        authorization: Some(bearer(token)),
        body: book_fields(name, author, description, total),
    }
}

/// `PUT /api/books/{id}`: new fields for a title.
pub fn update_book_request(
    token: &str,
    id: i32,
    name: &str,
    author: &str,
    description: &str,
    total: i32,
) -> (r: ApiRequest)
    ensures
        r.method == HttpMethod::Put,
        r.url@ == BASE@ + "/books/"@ + decimal(id as int),
        authorized_by(r, token@),
        r.body matches RequestBody::BookFields { name: n, author: a, description: d, total: t }
            && n@ == name@ && a@ == author@ && d@ == description@ && t == total,
{
    ApiRequest {
        method: HttpMethod::Put,
        url: route_with_id("/books/", id),
        authorization: Some(bearer(token)),
        body: book_fields(name, author, description, total),
    }
}

/// `PUT /api/users/{user_id}`: new user name and, when not empty, new
/// password, confirmed by the current password.
pub fn update_profile_request(
    token: &str,
    user_id: i32,
    old_password: &str,
    username: &str,
    password: &str,
) -> (r: ApiRequest)
    ensures
        r.method == HttpMethod::Put,
        r.url@ == BASE@ + "/users/"@ + decimal(user_id as int),
        authorized_by(r, token@),
        r.body matches RequestBody::ProfileChange { old_password: o, username: u, password: p }
            && o@ == old_password@ && u@ == username@ && p@ == password@,
{
    ApiRequest {
        method: HttpMethod::Put,
        url: route_with_id("/users/", user_id),
        authorization: Some(bearer(token)),
        body: RequestBody::ProfileChange {
            old_password: String::from_str(old_password),
            username: String::from_str(username),
            password: String::from_str(password),
        },
    }
}

/// `DELETE /api/users/{user_id}`: an account closes itself, or an
/// administrator removes it.
pub fn delete_user_request(token: &str, user_id: i32) -> (r: ApiRequest)
    ensures
        r.method == HttpMethod::Delete,
        r.url@ == BASE@ + "/users/"@ + decimal(user_id as int),
        authorized_by(r, token@),
        r.body is Empty,
{
    ApiRequest {
        method: HttpMethod::Delete,
        url: route_with_id("/users/", user_id),
        authorization: Some(bearer(token)),
        body: RequestBody::Empty,
    }
}

/// `DELETE /api/books/{id}`.
pub fn delete_book_request(token: &str, id: i32) -> (r: ApiRequest)
    ensures
        r.method == HttpMethod::Delete,
        r.url@ == BASE@ + "/books/"@ + decimal(id as int),
        authorized_by(r, token@),
        r.body is Empty,
{
    ApiRequest {
        method: HttpMethod::Delete,
        url: route_with_id("/books/", id),
        authorization: Some(bearer(token)),
        body: RequestBody::Empty,
    }
}

/// `POST /api/borrow`: the user borrows the title.
pub fn borrow_request(token: &str, user_id: i32, book_id: i32) -> (r: ApiRequest)
    ensures
        r.method == HttpMethod::Post,
        r.url@ == BASE@ + "/borrow"@,
        authorized_by(r, token@),
        r.body == (RequestBody::Loan { user_id, book_id }),
{
    ApiRequest {
        method: HttpMethod::Post,
        url: route("/borrow"),
        authorization: Some(bearer(token)),
        body: RequestBody::Loan { user_id, book_id },
    }
}

/// `POST /api/return`: the user brings the title back.
pub fn return_request(token: &str, user_id: i32, book_id: i32) -> (r: ApiRequest)
    ensures
        r.method == HttpMethod::Post,
        r.url@ == BASE@ + "/return"@,
        authorized_by(r, token@),
        r.body == (RequestBody::Loan { user_id, book_id }),
{
    ApiRequest {
        method: HttpMethod::Post,
        url: route("/return"),
        authorization: Some(bearer(token)),
        body: RequestBody::Loan { user_id, book_id },
    }
}

/// `GET /api/users`: all accounts (administrators).
pub fn list_users_request(token: &str) -> (r: ApiRequest)
    ensures
        r.method == HttpMethod::Get,
        r.url@ == BASE@ + "/users"@,
        authorized_by(r, token@),
        r.body is Empty,
{
    ApiRequest {
        method: HttpMethod::Get,
        url: route("/users"),
        authorization: Some(bearer(token)),
        body: RequestBody::Empty,
    }
}

/// `PUT /api/users/{user_id}/permission`.
pub fn set_permission_request(token: &str, user_id: i32, permission: &str) -> (r: ApiRequest)
    ensures
        r.method == HttpMethod::Put,
        r.url@ == BASE@ + "/users/"@ + decimal(user_id as int) + "/permission"@,
        authorized_by(r, token@),
        r.body matches RequestBody::Permission { permission: p } && p@ == permission@,
{
    let url = route_with_id("/users/", user_id).concat("/permission");
    ApiRequest {
        method: HttpMethod::Put,
        url,
        authorization: Some(bearer(token)),
        body: RequestBody::Permission { permission: String::from_str(permission) },
    }
}

/// `GET /api/admin/borrowed`: all loans (administrators).
pub fn list_borrowed_request(token: &str) -> (r: ApiRequest)
    ensures
        r.method == HttpMethod::Get,
        r.url@ == BASE@ + "/admin/borrowed"@,
        authorized_by(r, token@),
        r.body is Empty,
{
    ApiRequest {
        method: HttpMethod::Get,
        url: route("/admin/borrowed"),
        authorization: Some(bearer(token)),
        body: RequestBody::Empty,
    }
}


/// What came back for a request: whether the status is a success, the
/// status code, and the body text or the message of the error raised while
/// reading it.
#[derive(Debug)]
pub struct HttpReply {
    pub ok: bool,
    pub status: u16,
    pub body: Result<String, String>,
}

/// The views of a text-or-message result.
pub open spec fn text_view(r: Result<String, String>) -> Result<Seq<char>, Seq<char>> {
    match r {
        Ok(t) => Ok(t@),
        Err(e) => Err(e@),
    }
}

/// Message for a request that could not reach the server.
pub open spec fn network_error_text(detail: Seq<char>) -> Seq<char> {
    "无法连接服务器："@ + detail
}

/// Message for a reply whose body could not be decoded.
pub open spec fn decode_failure_text(detail: Seq<char>) -> Seq<char> {
    "解析失败："@ + detail
}

/// Message for a reply with a failure status: the string member `error` of
/// its JSON body when there is one, else the status code; or what went wrong
/// while reading the body.
pub open spec fn failure_text(status: u16, body: Result<Seq<char>, Seq<char>>) -> Seq<char> {
    match body {
        Ok(text) => match json_string_member(text, "error"@) {
            Ok(Some(m)) => m,
            _ => "请求失败（HTTP "@ + decimal(status as int) + "）"@,
        },
        Err(e) => "无法解析响应："@ + e,
    }
}

/// Message for a request that could not reach the server.
pub fn network_error(detail: &str) -> (r: String)
    ensures
        r@ == network_error_text(detail@),
{
    String::from_str("无法连接服务器：").concat(detail)
}

/// Message for a reply whose body could not be decoded.
pub fn decode_failure(detail: &str) -> (r: String)
    ensures
        r@ == decode_failure_text(detail@),
{
    String::from_str("解析失败：").concat(detail)
}

/// Message for a reply with a failure status (see [`failure_text`]).
pub fn error_message(status: u16, body: &Result<String, String>) -> (r: String)
    ensures
        r@ == failure_text(status, text_view(*body)),
{
    match body {
        Ok(text) => match json_str_member(text.as_str(), "error") {
            Ok(Some(m)) => m,
            _ => {
                let mut s = String::from_str("请求失败（HTTP ");
                push_decimal(&mut s, status as i64);
                s.concat("）")
            },
        },
        Err(e) => String::from_str("无法解析响应：").concat(e.as_str()),
    }
}

/// The result of a sign-in or of a token renewal: the string member
/// `token` of a successful reply.
pub open spec fn token_reply(reply: HttpReply) -> Result<Seq<char>, Seq<char>> {
    if reply.ok {
        match text_view(reply.body) {
            Err(e) => Err(network_error_text(e)),
            Ok(text) => match json_string_member(text, "token"@) {
                Err(e) => Err(decode_failure_text(e)),
                Ok(Some(t)) => Ok(t),
                Ok(None) => Err("响应缺少 token"@),
            },
        }
    } else {
        Err(failure_text(reply.status, text_view(reply.body)))
    }
}

/// Reads the token out of the reply to a sign-in or a token renewal.
pub fn token_outcome(reply: &HttpReply) -> (r: Result<String, String>)
    ensures
        text_view(r) == token_reply(*reply),
{
    if reply.ok {
        match &reply.body {
            Err(e) => Err(network_error(e.as_str())),
            Ok(text) => match json_str_member(text.as_str(), "token") {
                Err(e) => Err(decode_failure(e.as_str())),
                Ok(Some(t)) => Ok(t),
                Ok(None) => Err(String::from_str("响应缺少 token")),
            },
        }
    } else {
        Err(error_message(reply.status, &reply.body))
    }
}

/// The body text of a successful reply, to be decoded by the caller.
pub open spec fn body_reply(reply: HttpReply) -> Result<Seq<char>, Seq<char>> {
    if reply.ok {
        match text_view(reply.body) {
            Ok(t) => Ok(t),
            Err(e) => Err(network_error_text(e)),
        }
    } else {
        Err(failure_text(reply.status, text_view(reply.body)))
    }
}

/// The body text of a successful reply, or the message for a failed one.
pub fn reply_text(reply: &HttpReply) -> (r: Result<String, String>)
    ensures
        text_view(r) == body_reply(*reply),
{
    if reply.ok {
        match &reply.body {
            Ok(t) => Ok(t.clone()),
            Err(e) => Err(network_error(e.as_str())),
        }
    } else {
        Err(error_message(reply.status, &reply.body))
    }
}

/// Requests whose successful reply is answered by a fixed message.
#[derive(Clone, Copy, PartialEq, Eq, Debug, Structural)]
pub enum Action {
    Register,
    CreateBook,
    UpdateBook,
    UpdateProfile,
    DeleteBook,
    Borrow,
    SetPermission,
    DeleteUser,
    Return,
    /// Closing one's own account, whose reply may carry its own message.
    CloseAccount,
}

/// The message shown when `action` succeeds.
pub open spec fn success_text(action: Action) -> Seq<char> {
    match action {
        Action::Register => "注册成功"@,
        Action::CreateBook => "图书创建成功"@,
        Action::UpdateBook => "图书更新成功"@,
        Action::UpdateProfile => "个人信息已更新"@,
        Action::DeleteBook => "图书删除成功"@,
        Action::Borrow => "借阅成功"@,
        Action::SetPermission => "权限已更新"@,
        Action::DeleteUser => "用户已删除"@,
        Action::Return => "归还成功"@,
        Action::CloseAccount => "账号已注销"@,
    }
}

/// The message shown when `action` succeeds.
pub fn success_message(action: Action) -> (r: String)
    ensures
        r@ == success_text(action),
{
    match action {
        Action::Register => String::from_str("注册成功"),
        Action::CreateBook => String::from_str("图书创建成功"),
        Action::UpdateBook => String::from_str("图书更新成功"),
        Action::UpdateProfile => String::from_str("个人信息已更新"),
        Action::DeleteBook => String::from_str("图书删除成功"),
        Action::Borrow => String::from_str("借阅成功"),
        Action::SetPermission => String::from_str("权限已更新"),
        Action::DeleteUser => String::from_str("用户已删除"),
        Action::Return => String::from_str("归还成功"),
        Action::CloseAccount => String::from_str("账号已注销"),
    }
}

/// The outcome of `action`: its fixed message on success, the failure
/// message otherwise; closing an account reads its reply as
/// [`closing_reply`] does.
pub open spec fn action_reply(reply: HttpReply, action: Action) -> Result<Seq<char>, Seq<char>> {
    if action == Action::CloseAccount {
        closing_reply(reply)
    } else if reply.ok {
        Ok(success_text(action))
    } else {
        Err(failure_text(reply.status, text_view(reply.body)))
    }
}

/// A law of the replies to every action but closing an account: the outcome
/// succeeds exactly when the reply's status is a success, and then carries
/// the action's own message whatever the body holds; a failure status gives
/// the server's reason (or the status), never a success.
pub proof fn law_action_outcome_follows_status(reply: HttpReply, action: Action)
    requires
        action != Action::CloseAccount,
    ensures
        action_reply(reply, action) is Ok <==> reply.ok,
        reply.ok ==> action_reply(reply, action) == Ok::<Seq<char>, Seq<char>>(success_text(action)),
        !reply.ok ==> action_reply(reply, action) == Err::<Seq<char>, Seq<char>>(
            failure_text(reply.status, text_view(reply.body)),
        ),
{
}

/// A law of failed replies: when the body is JSON with a string member
/// `error`, that reason is shown as it is; a body without one is shown as
/// the status code; a body that could not be read says so.
pub proof fn law_failure_shows_server_reason(status: u16, text: Seq<char>, m: Seq<char>, e: Seq<char>)
    ensures
        json_string_member(text, "error"@) == Ok::<Option<Seq<char>>, Seq<char>>(Some(m))
            ==> failure_text(status, Ok(text)) == m,
        json_string_member(text, "error"@) is Ok && json_string_member(text, "error"@)->Ok_0 is None
            ==> failure_text(status, Ok(text)) == "请求失败（HTTP "@ + decimal(status as int)
            + "）"@,
        failure_text(status, Err(e)) == "无法解析响应："@ + e,
{
}

/// A law of the messages a successful reply is shown with, for each action
/// but closing an account (whose reply may name its own).
pub proof fn law_success_messages(reply: HttpReply)
    requires
        reply.ok,
    ensures
        action_reply(reply, Action::Register) == Ok::<Seq<char>, Seq<char>>("注册成功"@),
        action_reply(reply, Action::CreateBook) == Ok::<Seq<char>, Seq<char>>("图书创建成功"@),
        action_reply(reply, Action::UpdateBook) == Ok::<Seq<char>, Seq<char>>("图书更新成功"@),
        action_reply(reply, Action::UpdateProfile) == Ok::<Seq<char>, Seq<char>>("个人信息已更新"@),
        action_reply(reply, Action::DeleteBook) == Ok::<Seq<char>, Seq<char>>("图书删除成功"@),
        action_reply(reply, Action::Borrow) == Ok::<Seq<char>, Seq<char>>("借阅成功"@),
        action_reply(reply, Action::SetPermission) == Ok::<Seq<char>, Seq<char>>("权限已更新"@),
        action_reply(reply, Action::DeleteUser) == Ok::<Seq<char>, Seq<char>>("用户已删除"@),
        action_reply(reply, Action::Return) == Ok::<Seq<char>, Seq<char>>("归还成功"@),
        action_reply(reply, Action::CloseAccount) is Ok,
{
}

/// Reads the reply to `action`.
pub fn action_outcome(reply: &HttpReply, action: Action) -> (r: Result<String, String>)
    ensures
        text_view(r) == action_reply(*reply, action),
        action != Action::CloseAccount ==> (r is Ok <==> reply.ok),
        action != Action::CloseAccount && reply.ok ==> (r matches Ok(m) && m@ == success_text(
            action,
        )),
        action != Action::CloseAccount && !reply.ok ==> (r matches Err(e) && e@ == failure_text(
            reply.status,
            text_view(reply.body),
        )),
{
    if action == Action::CloseAccount {
        closing_outcome(reply)
    } else if reply.ok {
        Ok(success_message(action))
    } else {
        Err(error_message(reply.status, &reply.body))
    }
}

/// The outcome of closing one's own account: the string member `msg` of the
/// reply when it has one, else a fixed message; an unreadable body counts as
/// empty.
pub open spec fn closing_reply(reply: HttpReply) -> Result<Seq<char>, Seq<char>> {
    if reply.ok {
        let text = match reply.body {
            Ok(t) => t@,
            Err(_) => Seq::empty(),
        };
        match json_string_member(text, "msg"@) {
            Ok(Some(m)) => Ok(m),
            _ => Ok("账号已注销"@),
        }
    } else {
        Err(failure_text(reply.status, text_view(reply.body)))
    }
}

/// Reads the reply to closing one's own account.
pub fn closing_outcome(reply: &HttpReply) -> (r: Result<String, String>)
    ensures
        text_view(r) == closing_reply(*reply),
{
    if reply.ok {
        let text = match &reply.body {
            Ok(t) => t.clone(),
            Err(_) => String::new(),
        };
        match json_str_member(text.as_str(), "msg") {
            Ok(Some(m)) => Ok(m),
            _ => Ok(String::from_str("账号已注销")),
        }
    } else {
        Err(error_message(reply.status, &reply.body))
    }
}

/// Search hits as a listing: all on one page, the page as long as the hits.
pub fn search_page(books: Vec<Book>) -> (r: BookListResponse)
    ensures
        r@.items == books@,
        r.total == books@.len() as i32,
        r.page == 1,
        r.limit == r.total,
{
    let total = books.len() as i32;
    BookListResponse { items: books, total, page: 1, limit: total }
}

} // verus!
