use vstd::prelude::*;

use crate::idempotency::key::{law_uuid_text_shape, uuid_hyphenated, uuid_text};
use crate::routes::admin::{flash_html, flash_messages_html};
use crate::utils::{e500, html_page, is_html_page, is_see_other, see_other, AppError, HttpReply};

verus! {

/// The newsletter form up to where the flash messages go.
pub const NEWSLETTER_FORM_HEAD: &'static str = r#"<!DOCTYPE html>
<html lang="ja">
<head>
    <meta http-equiv="content-type" content="text/html; charset=utf-8">
    <title>ニュースレター発行</title>
</head>
<body>
    "#;

/// The newsletter form between the flash messages and the idempotency key.
pub const NEWSLETTER_FORM_MIDDLE: &'static str = r#"
    <form action="/admin/newsletter" method="post">
        <label>
            タイトル
            <input type="input" placeholder="タイトルを入力" name="title" >
        </label>
        <br>
        <label>
            本文（テキスト）
            <textarea name="text_content" placeholder="テキストコンテンツを入力" rows="10" cols="50"></textarea>
        </label>
        <br>
        <label>
            本文（HTML）
            <textarea name="html_content" placeholder="HTMLコンテンツを入力" rows="10" cols="50"></textarea>
        </label>
        <br>
        <input hidden type="text" name="idempotency_key" value=""#;

/// The newsletter form after the idempotency key.
pub const NEWSLETTER_FORM_TAIL: &'static str = r#"">
        <button type="submit">ニュースレターを発行</button>
    </form>
    <p><a href="/admin/dashboard">&lt;- 戻る</a></p>
</body>
</html>"#;

/// The body of the newsletter form, whose hidden idempotency key is the
/// hyphenated text of the UUID `key`.
pub open spec fn newsletter_form_body(flash_messages: Seq<Seq<char>>, key: u128) -> Seq<char> {
    NEWSLETTER_FORM_HEAD@ + flash_html(flash_messages) + NEWSLETTER_FORM_MIDDLE@ + uuid_text(key)
        + NEWSLETTER_FORM_TAIL@
}

/// The form for publishing a newsletter, for a logged-in user; anyone else is
/// sent to the login page. `user_id` is what the session holds, or the error
/// reading it gave; `idempotency_key` is the UUID the form carries as its key.
pub fn publish_newsletter_form(
    user_id: Result<Option<u128>, String>,
    flash_messages: &Vec<String>,
    idempotency_key: u128,
) -> (r: Result<HttpReply, AppError>)
    ensures
        match user_id {
            Err(e) => r matches Err(err) && err.status == 500 && err.message@ == e@,
            Ok(None) => r matches Ok(reply) && is_see_other(reply, "/login"@),
            Ok(Some(_)) => r matches Ok(reply) && is_html_page(
                reply,
                newsletter_form_body(flash_messages.deep_view(), idempotency_key),
            ),
        },
{
    match user_id {
        Err(e) => Err(e500(e)),
        Ok(None) => Ok(see_other("/login")),
        Ok(Some(_)) => {
            let msg_html = flash_messages_html(flash_messages);
            let mut body = NEWSLETTER_FORM_HEAD.to_owned();
            body.append(msg_html.as_str());
            body.append(NEWSLETTER_FORM_MIDDLE);
            let key = uuid_hyphenated(idempotency_key);
            body.append(key.as_str());
            body.append(NEWSLETTER_FORM_TAIL);
            Ok(html_page(body))
        },
    }
}


/// The form always carries its key: whatever the flash messages, the 36
/// characters right after the flash messages and `NEWSLETTER_FORM_MIDDLE` are
/// the text of the UUID, and the form ends with `NEWSLETTER_FORM_TAIL`.
pub proof fn law_form_carries_the_key(flash_messages: Seq<Seq<char>>, key: u128)
    ensures
        ({
            let body = newsletter_form_body(flash_messages, key);
            let at = (NEWSLETTER_FORM_HEAD@.len() + flash_html(flash_messages).len()
                + NEWSLETTER_FORM_MIDDLE@.len()) as int;
            &&& body.subrange(0, NEWSLETTER_FORM_HEAD@.len() as int) == NEWSLETTER_FORM_HEAD@
            &&& body.subrange(at, at + 36) == uuid_text(key)
            &&& body.subrange(at + 36, body.len() as int) == NEWSLETTER_FORM_TAIL@
            &&& body.len() == at + 36 + NEWSLETTER_FORM_TAIL@.len()
        }),
{
    law_uuid_text_shape(key);
    let body = newsletter_form_body(flash_messages, key);
    let at = (NEWSLETTER_FORM_HEAD@.len() + flash_html(flash_messages).len()
        + NEWSLETTER_FORM_MIDDLE@.len()) as int;
    assert(body.subrange(0, NEWSLETTER_FORM_HEAD@.len() as int) =~= NEWSLETTER_FORM_HEAD@);
    assert(body.subrange(at, at + 36) =~= uuid_text(key));
    assert(body.subrange(at + 36, body.len() as int) =~= NEWSLETTER_FORM_TAIL@);
}

} // verus!
