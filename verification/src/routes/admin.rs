pub mod logout;
pub mod newsletter;
pub mod password;

use vstd::prelude::*;

verus! {

/// The HTML that shows one flash message: `<p><i>{content}</i></p>` and a newline.
pub open spec fn flash_line(content: Seq<char>) -> Seq<char> {
    "<p><i>"@ + content + "</i></p>\n"@
}

/// The HTML that shows the flash messages, in order.
pub open spec fn flash_html(contents: Seq<Seq<char>>) -> Seq<char>
    decreases contents.len(),
{
    if contents.len() == 0 {
        Seq::empty()
    } else {
        flash_html(contents.drop_last()) + flash_line(contents.last())
    }
}

/// Renders the contents of the incoming flash messages as HTML paragraphs.
pub fn flash_messages_html(contents: &Vec<String>) -> (r: String)
    ensures
        r@ == flash_html(contents.deep_view()),
{
    let ghost all = contents.deep_view();
    let mut messages = String::new();
    for i in 0..contents.len()
        invariant
            all == contents.deep_view(),
            messages@ == flash_html(all.take(i as int)),
    {
        messages.append("<p><i>");
        messages.append(contents[i].as_str());
        messages.append("</i></p>\n");
        assert(all.take(i + 1).drop_last() =~= all.take(i as int));
    }
    assert(all.take(contents.len() as int) =~= all);
    messages
}

/// Rendering the messages of two lists one after the other gives the
/// rendering of the first followed by that of the second.
pub proof fn law_flash_html_concat(a: Seq<Seq<char>>, b: Seq<Seq<char>>)
    ensures
        flash_html(a + b) == flash_html(a) + flash_html(b),
    decreases b.len(),
{
    if b.len() == 0 {
        assert(a + b =~= a);
    } else {
        law_flash_html_concat(a, b.drop_last());
        assert((a + b).drop_last() =~= a + b.drop_last());
    }
}


/// One message is rendered as `<p><i>`, its whole content, and `</i></p>`
/// with a newline, whatever its length.
pub proof fn law_flash_message_shown_whole(content: Seq<char>)
    ensures
        flash_html(seq![content]) == "<p><i>"@ + content + "</i></p>\n"@,
        flash_html(seq![content]).len() == content.len() + 15,
        flash_html(seq![content]).subrange(6, (6 + content.len()) as int) == content,
{
    reveal_strlit("<p><i>");
    reveal_strlit("</i></p>\n");
    assert(seq![content].drop_last() =~= Seq::<Seq<char>>::empty());
    assert(seq![content].last() == content);
    assert(flash_html(Seq::<Seq<char>>::empty()) == Seq::<char>::empty());
    assert(flash_html(seq![content]) == flash_html(Seq::<Seq<char>>::empty()) + flash_line(content));
    assert(Seq::<char>::empty() + ("<p><i>"@ + content + "</i></p>\n"@) =~= "<p><i>"@ + content
        + "</i></p>\n"@);
    assert(("<p><i>"@ + content + "</i></p>\n"@).subrange(6, (6 + content.len()) as int) =~= content);
}

} // verus!
