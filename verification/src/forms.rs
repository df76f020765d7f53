//! Checks of what the user typed into the sign-in, registration and
//! account forms, with the messages the forms show.

use vstd::prelude::*;
use vstd::string::*;

use crate::text::{byte_len, byte_length, trim, trimmed};

verus! {

/// Why the sign-in form is refused, if it is: user name (trimmed) and
/// password must both be filled in.
pub open spec fn login_form_error(username: Seq<char>, password: Seq<char>) -> Option<Seq<char>> {
    if trimmed(username).len() == 0 || password.len() == 0 {
        Some("请填写用户名和密码"@)
    } else {
        None
    }
}

/// Why the registration form is refused, if it is: all fields filled in,
/// user name (trimmed) of 2 to 20 bytes, password of at least 6 bytes, and
/// the confirmation equal to the password.
pub open spec fn register_form_error(username: Seq<char>, password: Seq<char>, confirm: Seq<char>) -> Option<
    Seq<char>,
> {
    let u = trimmed(username);
    if u.len() == 0 || password.len() == 0 {
        Some("请完整填写所有字段"@)
    } else if byte_len(u) < 2 || byte_len(u) > 20 {
        Some("用户名长度需 2-20 位"@)
    } else if byte_len(password) < 6 {
        Some("密码长度至少 6 位"@)
    } else if password != confirm {
        Some("两次输入的密码不一致"@)
    } else {
        None
    }
}

/// Why the account form is refused, if it is: user name (trimmed) and
/// current password filled in, user name of 2 to 20 bytes, and a new
/// password, when one is given, of at least 6 bytes.
pub open spec fn profile_form_error(username: Seq<char>, old_password: Seq<char>, new_password: Seq<char>) -> Option<
    Seq<char>,
> {
    let u = trimmed(username);
    if u.len() == 0 || old_password.len() == 0 {
        Some("请填写用户名和当前密码"@)
    } else if byte_len(u) < 2 || byte_len(u) > 20 {
        Some("用户名长度需 2-20 位"@)
    } else if new_password.len() > 0 && byte_len(new_password) < 6 {
        Some("新密码长度至少 6 位"@)
    } else {
        None
    }
}

/// A law of the registration and account forms: a form that is accepted
/// always carries a trimmed user name of 2 to 20 bytes, and a filled-in form
/// whose trimmed user name is shorter or longer is refused for its length.
pub proof fn law_accepted_names_fit(
    username: Seq<char>,
    password: Seq<char>,
    confirm: Seq<char>,
    new_password: Seq<char>,
)
    ensures
        profile_form_error(username, password, new_password) is None ==> 2 <= byte_len(
            trimmed(username),
        ) <= 20,
        register_form_error(username, password, confirm) is None ==> 2 <= byte_len(
            trimmed(username),
        ) <= 20,
        trimmed(username).len() > 0 && password.len() > 0 && (byte_len(trimmed(username)) < 2
            || byte_len(trimmed(username)) > 20) ==> profile_form_error(
            username,
            password,
            new_password,
        ) == Some("用户名长度需 2-20 位"@) && register_form_error(username, password, confirm)
            == Some("用户名长度需 2-20 位"@),
{
}

/// A law of the registration and account forms: an accepted form has a
/// password of at least 6 bytes (the new one on the account form, when one
/// is given) and, on registration, a confirmation equal to it.
pub proof fn law_accepted_passwords_fit(
    username: Seq<char>,
    password: Seq<char>,
    confirm: Seq<char>,
    new_password: Seq<char>,
)
    ensures
        register_form_error(username, password, confirm) is None ==> byte_len(password) >= 6
            && password == confirm,
        profile_form_error(username, password, new_password) is None ==> password.len() > 0 && (
        new_password.len() > 0 ==> byte_len(new_password) >= 6),
        login_form_error(username, password) is None <==> (trimmed(username).len() > 0
            && password.len() > 0),
{
}

/// The credentials a form hands on: the trimmed user name and the password
/// as typed.
#[derive(Clone, PartialEq, Debug)]
pub struct Credentials {
    pub username: String,
    pub password: String,
}

/// The views of a form check's result: the credentials, or the refusal.
pub open spec fn checked_view(r: Result<Credentials, String>) -> Result<(Seq<char>, Seq<char>), Seq<char>> {
    match r {
        Ok(c) => Ok((c.username@, c.password@)),
        Err(e) => Err(e@),
    }
}

/// Checks the sign-in form.
pub fn check_login_form(username: &str, password: &str) -> (r: Result<Credentials, String>)
    ensures
        checked_view(r) == (match login_form_error(username@, password@) {
            Some(e) => Err(e),
            None => Ok((trimmed(username@), password@)),
        }),
        r is Ok <==> (trimmed(username@).len() > 0 && password@.len() > 0),
{
    let u = trim(username);
    if u.as_str().is_empty() || password.is_empty() {
        return Err(String::from_str("请填写用户名和密码"));
    }
    Ok(Credentials { username: u, password: String::from_str(password) })
}

/// Checks the registration form.
pub fn check_register_form(username: &str, password: &str, confirm: &str) -> (r: Result<
    Credentials,
    String,
>)
    ensures
        checked_view(r) == (match register_form_error(username@, password@, confirm@) {
            Some(e) => Err(e),
            None => Ok((trimmed(username@), password@)),
        }),
        r is Ok ==> trimmed(username@).len() > 0 && 2 <= byte_len(trimmed(username@)) <= 20
            && byte_len(password@) >= 6 && password@ == confirm@,
        trimmed(username@).len() > 0 && password@.len() > 0 && (byte_len(trimmed(username@)) < 2
            || byte_len(trimmed(username@)) > 20) ==> (r matches Err(e) && e@
            == "用户名长度需 2-20 位"@),
{
    let u = trim(username);
    if u.as_str().is_empty() || password.is_empty() {
        return Err(String::from_str("请完整填写所有字段"));
    }
    let ulen = byte_length(u.as_str());
    if ulen < 2 || ulen > 20 {
        return Err(String::from_str("用户名长度需 2-20 位"));
    }
    if byte_length(password) < 6 {
        return Err(String::from_str("密码长度至少 6 位"));
    }
    let p = String::from_str(password);
    if p != String::from_str(confirm) {
        return Err(String::from_str("两次输入的密码不一致"));
    }
    Ok(Credentials { username: u, password: p })
}

/// The fields the account form hands on: the trimmed user name, the
/// current password and the new one (empty to keep the password).
#[derive(Clone, PartialEq, Debug)]
pub struct ProfileChange {
    pub username: String,
    pub old_password: String,
    pub new_password: String,
}

/// Checks the account form.
pub fn check_profile_form(username: &str, old_password: &str, new_password: &str) -> (r: Result<
    ProfileChange,
    String,
>)
    ensures
        match r {
            Ok(c) => profile_form_error(username@, old_password@, new_password@) is None
                && c.username@ == trimmed(username@) && c.old_password@ == old_password@
                && c.new_password@ == new_password@,
            Err(e) => profile_form_error(username@, old_password@, new_password@) == Some(e@),
        },
        r is Ok ==> trimmed(username@).len() > 0 && old_password@.len() > 0 && 2 <= byte_len(
            trimmed(username@),
        ) <= 20 && (new_password@.len() > 0 ==> byte_len(new_password@) >= 6),
        trimmed(username@).len() == 0 || old_password@.len() == 0 ==> (r matches Err(e) && e@
            == "请填写用户名和当前密码"@),
        trimmed(username@).len() > 0 && old_password@.len() > 0 && (byte_len(trimmed(username@))
            < 2 || byte_len(trimmed(username@)) > 20) ==> (r matches Err(e) && e@
            == "用户名长度需 2-20 位"@),
        trimmed(username@).len() > 0 && old_password@.len() > 0 && 2 <= byte_len(
            trimmed(username@),
        ) <= 20 && new_password@.len() > 0 && byte_len(new_password@) < 6 ==> (r matches Err(e)
            && e@ == "新密码长度至少 6 位"@),
{
    let u = trim(username);
    if u.as_str().is_empty() || old_password.is_empty() {
        return Err(String::from_str("请填写用户名和当前密码"));
    }
    let ulen = byte_length(u.as_str());
    if ulen < 2 || ulen > 20 {
        return Err(String::from_str("用户名长度需 2-20 位"));
    }
    if !new_password.is_empty() && byte_length(new_password) < 6 {
        return Err(String::from_str("新密码长度至少 6 位"));
    }
    Ok(ProfileChange {
        username: u,
        old_password: String::from_str(old_password),
        new_password: String::from_str(new_password),
    })
}

} // verus!
