use vstd::prelude::*;

verus! {

#[verifier::external_type_specification]
#[verifier::external_body]
pub struct ExSanitizeError(sanitize_html::errors::SanitizeError);

/// What sanitize_html makes of `s` under its default rules, which remove
/// every tag; `None` where it reports an error.
pub uninterp spec fn sanitized(s: Seq<char>) -> Option<Seq<char>>;

/// Relies on `sanitize_html::sanitize_str` with the `DEFAULT` rules: the
/// result is the text of `s` with all markup taken out, or an error.
#[verifier::external_body]
fn sanitize_default(s: &str) -> (r: Result<String, sanitize_html::errors::SanitizeError>)
    ensures
        match r {
            Ok(t) => sanitized(s@) == Some(t@),
            Err(_) => sanitized(s@) is None,
        },
{
    sanitize_html::sanitize_str(&sanitize_html::rules::predefined::DEFAULT, s)
}

/// The stored form of a submitted field: its sanitized text, or the empty
/// text where sanitizing fails.
pub open spec fn cleaned(s: Seq<char>) -> Seq<char> {
    match sanitized(s) {
        Some(t) => t,
        None => Seq::empty(),
    }
}

/// Keeps a sanitized text and puts the empty text in place of a failure.
pub fn text_or_empty(r: Result<String, sanitize_html::errors::SanitizeError>) -> (t: String)
    ensures
        match r {
            Ok(s) => t@ == s@,
            Err(_) => t@ == Seq::<char>::empty(),
        },
{
    match r {
        Ok(s) => s,
        Err(_) => String::new(),
    }
}

/// Takes every tag out of a submitted field; a field that cannot be
/// sanitized is stored empty rather than rejected.
pub fn clean_field(s: &str) -> (r: String)
    ensures
        r@ == cleaned(s@),
{
    text_or_empty(sanitize_default(s))
}

/// A submission as it is to be stored.
pub struct NewMessage {
    pub name: String,
    pub content: String,
}

/// Cleans both fields of a submitted form. Empty fields are accepted.
pub fn submission(name: &str, message: &str) -> (r: NewMessage)
    ensures
        r.name@ == cleaned(name@),
        r.content@ == cleaned(message@),
{
    NewMessage { name: clean_field(name), content: clean_field(message) }
}

} // verus!
