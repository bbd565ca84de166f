use vstd::prelude::*;

use crate::routes::admin::{flash_html, flash_messages_html};
use crate::routes::flash::{FlashLevel, FlashMessage};
use crate::utils::{html_page, is_html_page, HttpReply};

verus! {

/// The login page up to where the error messages go.
pub const LOGIN_PAGE_HEAD: &'static str = r#"<!DOCTYPE html>
<html lang="ja">
<head>
    <meta http-equiv="content-type" content="text/html; charset=utf-8">
    <title>ログイン</title>
</head>
<body>
    "#;

/// The login page after the error messages.
pub const LOGIN_PAGE_TAIL: &'static str = r#"
    <form action="/login" method="post">
        <label>
            ユーザー名
            <input type="text" name="username" placeholder="ユーザー名を入力" name="username">
        </label>
        <label>
            パスワード
            <input type="password" placeholder="パスワードを入力" name="password">
        </label>
        <button type="submit">ログイン</button>
    </form>
</body>
</html>"#;

/// The contents of the messages of error level, in order.
pub open spec fn error_contents(messages: Seq<FlashMessage>) -> Seq<Seq<char>>
    decreases messages.len(),
{
    if messages.len() == 0 {
        Seq::empty()
    } else {
        let rest = error_contents(messages.drop_last());
        if messages.last().level == FlashLevel::Error {
            rest.push(messages.last().content@)
        } else {
            rest
        }
    }
}

/// The login page, showing the flash messages of error level.
pub fn login_form(flash_messages: &Vec<FlashMessage>) -> (r: HttpReply)
    ensures
        is_html_page(
            r,
            LOGIN_PAGE_HEAD@ + flash_html(error_contents(flash_messages@)) + LOGIN_PAGE_TAIL@,
        ),
{
    let mut errors: Vec<String> = Vec::new();
    for i in 0..flash_messages.len()
        invariant
            errors.deep_view() == error_contents(flash_messages@.take(i as int)),
    {
        assert(flash_messages@.take(i + 1).drop_last() =~= flash_messages@.take(i as int));
        match flash_messages[i].level {
            FlashLevel::Error => {
                errors.push(flash_messages[i].content.clone());
                assert(errors.deep_view() =~= error_contents(flash_messages@.take(i as int)).push(
                    flash_messages@[i as int].content@,
                ));
            },
            _ => {},
        }
    }
    assert(flash_messages@.take(flash_messages.len() as int) =~= flash_messages@);
    let error_html = flash_messages_html(&errors);
    let mut body = LOGIN_PAGE_HEAD.to_owned();
    body.append(error_html.as_str());
    body.append(LOGIN_PAGE_TAIL);
    html_page(body)
}

/// Messages below error level never show on the login page.
pub proof fn law_login_form_shows_only_errors(messages: Seq<FlashMessage>)
    requires
        forall|i: int| 0 <= i < messages.len() ==> #[trigger] messages[i].level != FlashLevel::Error,
    ensures
        error_contents(messages) == Seq::<Seq<char>>::empty(),
        flash_html(error_contents(messages)) == Seq::<char>::empty(),
    decreases messages.len(),
{
    if messages.len() > 0 {
        law_login_form_shows_only_errors(messages.drop_last());
        assert(messages.last().level != FlashLevel::Error);
    }
}


/// The error messages of two lists shown one after the other are those of the
/// first followed by those of the second.
pub proof fn law_error_contents_concat(a: Seq<FlashMessage>, b: Seq<FlashMessage>)
    ensures
        error_contents(a + b) == error_contents(a) + error_contents(b),
    decreases b.len(),
{
    if b.len() == 0 {
        assert(a + b =~= a);
        assert(error_contents(a) + error_contents(b) =~= error_contents(a));
    } else {
        law_error_contents_concat(a, b.drop_last());
        assert((a + b).drop_last() =~= a + b.drop_last());
        assert((a + b).last() == b.last());
        if b.last().level == FlashLevel::Error {
            assert(error_contents(a) + error_contents(b.drop_last()).push(b.last().content@)
                =~= (error_contents(a) + error_contents(b.drop_last())).push(b.last().content@));
        }
    }
}

/// One message is shown exactly when it is of error level, with its whole
/// content.
pub proof fn law_single_message(m: FlashMessage)
    ensures
        m.level == FlashLevel::Error ==> error_contents(seq![m]) == seq![m.content@],
        m.level != FlashLevel::Error ==> error_contents(seq![m]) == Seq::<Seq<char>>::empty(),
{
    assert(seq![m].drop_last() =~= Seq::<FlashMessage>::empty());
    assert(seq![m].last() == m);
    assert(error_contents(Seq::<FlashMessage>::empty()) == Seq::<Seq<char>>::empty());
    if m.level == FlashLevel::Error {
        assert(Seq::<Seq<char>>::empty().push(m.content@) =~= seq![m.content@]);
    }
}

/// Every message of error level is shown on the login page.
pub proof fn law_every_error_is_shown(messages: Seq<FlashMessage>, i: int)
    requires
        0 <= i < messages.len(),
        messages[i].level == FlashLevel::Error,
    ensures
        error_contents(messages).contains(messages[i].content@),
{
    let a = messages.take(i);
    let b = seq![messages[i]];
    let c = messages.skip(i + 1);
    assert(messages =~= a + b + c);
    law_error_contents_concat(a + b, c);
    law_error_contents_concat(a, b);
    law_single_message(messages[i]);
    let e = error_contents(a);
    assert(error_contents(messages) == e + seq![messages[i].content@] + error_contents(c));
    assert((e + seq![messages[i].content@] + error_contents(c))[e.len() as int] == messages[i].content@);
}

} // verus!
