//! Markdown emoji shortcodes replaced by their Unicode equivalent
//! (`:hammer:` becomes the hammer emoji).

use vstd::prelude::*;

verus! {

/// Declares `gh_emoji::Replacer`, the shortcode replacer, as an opaque
/// type.
#[verifier::external_type_specification]
#[verifier::external_body]
pub struct ExReplacer(gh_emoji::Replacer);

/// What `gh_emoji`'s replacer turns `s` into: every `:name:` shortcode
/// replaced by its emoji, a function of the text alone (every replacer
/// holds the same fixed table).
pub uninterp spec fn emoji_replaced(s: Seq<char>) -> Seq<char>;

/// Relies on `gh_emoji::Replacer::new`: a fresh replacer over the fixed
/// emoji table.
#[verifier::external_body]
fn emoji_replacer() -> gh_emoji::Replacer {
    gh_emoji::Replacer::new()
}

/// Relies on `gh_emoji::Replacer::replace_all`: the replaced text, `None`
/// reporting the borrowed form — the text held no shortcode and is
/// unchanged.
#[verifier::external_body]
fn replace_all(replacer: &gh_emoji::Replacer, s: &str) -> (r: Option<String>)
    ensures
        r matches Some(t) ==> t@ == emoji_replaced(s@),
        r is None ==> emoji_replaced(s@) == s@,
{
    match replacer.replace_all(s) {
        std::borrow::Cow::Owned(t) => Some(t),
        std::borrow::Cow::Borrowed(_) => None,
    }
}

/// Replaces every emoji shortcode in `s` with its Unicode equivalent,
/// handing the string back untouched when it holds none.
pub fn emojifi_string(s: String) -> (r: String)
    ensures
        r@ == emoji_replaced(s@),
{
    let replacer: gh_emoji::Replacer = emoji_replacer();
    match replace_all(&replacer, s.as_str()) {
        Some(altered) => altered,
        None => s,
    }
}

} // verus!
