use vstd::prelude::*;

verus! {

/// The characters that may never appear in a subscriber's name.
pub open spec fn is_forbidden_name_char(c: char) -> bool {
    ||| c == '/'
    ||| c == '('
    ||| c == ')'
    ||| c == '"'
    ||| c == '<'
    ||| c == '>'
    ||| c == '\\'
    ||| c == '{'
    ||| c == '}'
}

/// The characters with the Unicode `White_Space` property, which is what
/// `char::is_whitespace` (and hence `str::trim`) tests for.
pub open spec fn is_white_space(c: char) -> bool {
    ||| ('\u{9}' <= c && c <= '\u{d}')
    ||| c == ' '
    ||| c == '\u{85}'
    ||| c == '\u{a0}'
    ||| c == '\u{1680}'
    ||| ('\u{2000}' <= c && c <= '\u{200a}')
    ||| c == '\u{2028}'
    ||| c == '\u{2029}'
    ||| c == '\u{202f}'
    ||| c == '\u{205f}'
    ||| c == '\u{3000}'
}

/// A string is blank when trimming its white space leaves nothing.
pub open spec fn is_blank(s: Seq<char>) -> bool {
    forall|i: int| 0 <= i < s.len() ==> is_white_space(#[trigger] s[i])
}

pub open spec fn has_forbidden_char(s: Seq<char>) -> bool {
    exists|i: int| 0 <= i < s.len() && is_forbidden_name_char(#[trigger] s[i])
}

/// The longest name accepted, counted in extended grapheme clusters.
pub const MAX_NAME_GRAPHEMES: usize = 256;

/// The name rules, given the number of grapheme clusters of the name.
pub open spec fn name_rules_hold(s: Seq<char>, graphemes: nat) -> bool {
    &&& !is_blank(s)
    &&& graphemes <= MAX_NAME_GRAPHEMES
    &&& !has_forbidden_char(s)
}

/// The number of extended grapheme clusters of a string, as
/// `unicode_segmentation` counts them.
pub uninterp spec fn grapheme_count(s: Seq<char>) -> nat;

/// What makes a string a valid subscriber name.
pub open spec fn is_valid_subscriber_name(s: Seq<char>) -> bool {
    name_rules_hold(s, grapheme_count(s))
}

/// Counts the extended grapheme clusters of `s` with
/// `UnicodeSegmentation::graphemes(s, true).count()`.
/// Trusted: the count is the named `grapheme_count` of the string, and no
/// larger than its number of characters (every cluster holds at least one).
#[verifier::external_body]
fn count_graphemes(s: &str) -> (n: usize)
    ensures
        n as nat == grapheme_count(s@),
        n <= s@.len(),
{
    unicode_segmentation::UnicodeSegmentation::graphemes(s, true).count()
}

/// Whether `c` has the Unicode `White_Space` property.
pub fn is_white_space_char(c: char) -> (r: bool)
    ensures
        r == is_white_space(c),
{
    ('\u{9}' <= c && c <= '\u{d}') || c == ' ' || c == '\u{85}' || c == '\u{a0}' || c
        == '\u{1680}' || ('\u{2000}' <= c && c <= '\u{200a}') || c == '\u{2028}' || c
        == '\u{2029}' || c == '\u{202f}' || c == '\u{205f}' || c == '\u{3000}'
}

/// Whether `c` is one of the characters forbidden in a name.
pub fn is_forbidden_name_character(c: char) -> (r: bool)
    ensures
        r == is_forbidden_name_char(c),
{
    c == '/' || c == '(' || c == ')' || c == '"' || c == '<' || c == '>' || c == '\\' || c
        == '{' || c == '}'
}

/// Applies the name rules to `s`, given its number of grapheme clusters.
pub fn satisfies_name_rules(s: &str, graphemes: usize) -> (r: bool)
    ensures
        r == name_rules_hold(s@, graphemes as nat),
{
    let mut blank = true;
    let mut forbidden = false;
    for c in it: s.chars()
        invariant
            blank == (forall|j: int| 0 <= j < it.index() ==> is_white_space(#[trigger] it.seq()[j])),
            forbidden == (exists|j: int| 0 <= j < it.index() && is_forbidden_name_char(#[trigger] it.seq()[j])),
    {
        if !is_white_space_char(c) {
            blank = false;
        }
        if is_forbidden_name_character(c) {
            forbidden = true;
        }
    }
    !blank && graphemes <= MAX_NAME_GRAPHEMES && !forbidden
}


/// A subscriber's name that satisfies the name rules.
pub struct SubscriberName(String);

impl View for SubscriberName {
    type V = Seq<char>;

    closed spec fn view(&self) -> Seq<char> {
        self.0@
    }
}

impl SubscriberName {
    #[verifier::type_invariant]
    spec fn wf(self) -> bool {
        is_valid_subscriber_name(self.0@)
    }

    /// Wraps a name that is known to satisfy the name rules; any other input
    /// is a caller's error, ruled out by `requires` (`try_parse` checks).
    pub fn parse(s: &str) -> (r: SubscriberName)
        requires
            is_valid_subscriber_name(s@),
        ensures
            r@ == s@,
    {
        SubscriberName(s.to_owned())
    }

    /// Checks the name rules and wraps `s` when they hold.
    pub fn try_parse(s: &str) -> (r: Option<SubscriberName>)
        ensures
            r is Some <==> is_valid_subscriber_name(s@),
            r matches Some(name) ==> name@ == s@,
            s@.len() <= MAX_NAME_GRAPHEMES ==> (r is Some <==> !is_blank(s@) && !has_forbidden_char(
                s@,
            )),
    {
        if check_subscriber_name(s) {
            Some(SubscriberName::parse(s))
        } else {
            None
        }
    }

    /// The name as a string slice.
    pub fn as_ref(&self) -> (r: &str)
        ensures
            r@ == self@,
            is_valid_subscriber_name(r@),
    {
        proof {
            use_type_invariant(self);
        }
        self.0.as_str()
    }
}

/// Whether `s` is a valid subscriber name: not blank, at most
/// `MAX_NAME_GRAPHEMES` grapheme clusters long, and free of forbidden characters.
pub(crate) fn check_subscriber_name(s: &str) -> (r: bool)
    ensures
        r == is_valid_subscriber_name(s@),
        s@.len() <= MAX_NAME_GRAPHEMES ==> (r <==> !is_blank(s@) && !has_forbidden_char(s@)),
{
    let graphemes = count_graphemes(s);
    satisfies_name_rules(s, graphemes)
}

/// A name made only of white space is rejected.
pub proof fn law_blank_names_are_rejected(s: Seq<char>)
    requires
        is_blank(s),
    ensures
        !is_valid_subscriber_name(s),
{
}

/// A name holding any of the forbidden characters is rejected.
pub proof fn law_forbidden_characters_are_rejected(s: Seq<char>, i: int)
    requires
        0 <= i < s.len(),
        is_forbidden_name_char(s[i]),
    ensures
        !is_valid_subscriber_name(s),
{
}

/// A name longer than `MAX_NAME_GRAPHEMES` grapheme clusters is rejected.
pub proof fn law_long_names_are_rejected(s: Seq<char>)
    requires
        grapheme_count(s) > MAX_NAME_GRAPHEMES,
    ensures
        !is_valid_subscriber_name(s),
{
}


/// The forbidden characters are exactly `/ ( ) " < > \ { }`.
pub proof fn law_forbidden_characters_are_the_listed_nine(c: char)
    ensures
        is_forbidden_name_char(c) <==> (c == '/' || c == '(' || c == ')' || c == '"' || c == '<'
            || c == '>' || c == '\\' || c == '{' || c == '}'),
{
}

/// The white space characters are exactly those with the Unicode
/// `White_Space` property: U+0009 to U+000D, U+0020, U+0085, U+00A0, U+1680,
/// U+2000 to U+200A, U+2028, U+2029, U+202F, U+205F and U+3000.
pub proof fn law_white_space_is_the_unicode_set(c: char)
    ensures
        is_white_space(c) <==> ({
            let n = c as u32;
            ||| 0x9 <= n <= 0xd
            ||| n == 0x20
            ||| n == 0x85
            ||| n == 0xa0
            ||| n == 0x1680
            ||| 0x2000 <= n <= 0x200a
            ||| n == 0x2028
            ||| n == 0x2029
            ||| n == 0x202f
            ||| n == 0x205f
            ||| n == 0x3000
        }),
{
}

/// A name is accepted exactly when it holds a character other than white
/// space, has at most 256 grapheme clusters, and holds none of the nine
/// forbidden characters.
pub proof fn law_name_rules(s: Seq<char>, graphemes: nat)
    ensures
        name_rules_hold(s, graphemes) <==> ({
            &&& exists|i: int| 0 <= i < s.len() && !is_white_space(#[trigger] s[i])
            &&& graphemes <= 256
            &&& forall|i: int| 0 <= i < s.len() ==> !(#[trigger] s[i] == '/' || s[i] == '(' || s[i] == ')'
                || s[i] == '"' || s[i] == '<' || s[i] == '>' || s[i] == '\\' || s[i] == '{' || s[i] == '}')
        }),
{
}

} // verus!
