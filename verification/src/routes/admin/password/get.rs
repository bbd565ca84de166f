use vstd::prelude::*;

use crate::utils::{e500, html_page, is_html_page, is_see_other, see_other, AppError, HttpReply};

verus! {

/// The form for changing one's password.
pub const CHANGE_PASSWORD_PAGE: &'static str = r#"<!DOCTYPE html>
<html lang="ja">
<head>
    <meta http-equiv="content-type" content="text/html; charset=utf-8">
    <title>パスワード変更</title>
</head>
<body>
    <form action="/admin/password" method="post">
        <label>
            現在のパスワード
            <input type="password" placeholder="現在のパスワードを入力" name="current_password" >
        </label>
        <br>
        <label>
            新しいパスワード
            <input type="password" placeholder="新しいパスワードを入力" name="new_password" >
        </label>
        <br>
        <label>
            新しいパスワードを確認
            <input type="password" placeholder="新しいパスワードを再入力" name="new_password_check" >
        </label>
        <br>
        <button type="submit">Change password</button>
    </form>
    <p><a href="/admin/dashboard">&lt;- 戻る</a></p>
</body>
</html>"#;

/// The password form for a logged-in user; anyone else is sent to the login
/// page. `user_id` is what the session holds, or the error reading it gave.
pub fn change_password_form(user_id: Result<Option<u128>, String>) -> (r: Result<HttpReply, AppError>)
    ensures
        match user_id {
            Err(e) => r matches Err(err) && err.status == 500 && err.message@ == e@,
            Ok(None) => r matches Ok(reply) && is_see_other(reply, "/login"@),
            Ok(Some(_)) => r matches Ok(reply) && is_html_page(reply, CHANGE_PASSWORD_PAGE@),
        },
{
    match user_id {
        Err(e) => Err(e500(e)),
        Ok(None) => Ok(see_other("/login")),
        Ok(Some(_)) => Ok(html_page(CHANGE_PASSWORD_PAGE.to_owned())),
    }
}

} // verus!
