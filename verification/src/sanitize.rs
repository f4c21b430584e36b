//! Sanitizing episode and podcast description HTML.
//!
//! Descriptions arrive from arbitrary feeds and are rendered into the page,
//! so they pass through `ammonia`'s default cleaner; the cleaned fragment is
//! then run through `htmlentity`'s entity decoder so text reads naturally.
//! Both outside calls are deterministic functions of their input; their
//! results are named by uninterpreted spec functions, and everything around
//! them is verified against those names.

use vstd::prelude::*;
use htmlentity::entity::ICodedDataTrait;

verus! {

/// What `ammonia::clean` returns for a fragment: the fragment with
/// disallowed markup removed.
pub uninterp spec fn cleaned(fragment: Seq<char>) -> Seq<char>;

/// What `htmlentity::entity::decode` followed by its string conversion
/// returns for a fragment: the fragment with character entities decoded, or
/// nothing where the decoded bytes form no valid string.
pub uninterp spec fn entity_decoded(fragment: Seq<char>) -> Option<Seq<char>>;

/// Relies on `ammonia::clean`: sanitizes an HTML fragment with the default
/// builder; the result depends on the fragment alone.
#[verifier::external_body]
fn ammonia_clean(fragment: &str) -> (r: String)
    ensures
        r@ == cleaned(fragment@),
{
    ammonia::clean(fragment)
}

/// Relies on `htmlentity::entity::decode` and its `to_string` conversion:
/// decodes HTML character entities; the result depends on the fragment
/// alone, and the conversion fails only where the decoded bytes are not
/// valid text.
#[verifier::external_body]
fn decode_entities(fragment: &str) -> (r: Option<String>)
    ensures
        r is Some <==> entity_decoded(fragment@) is Some,
        r matches Some(s) ==> entity_decoded(fragment@) == Some(s@),
{
    match htmlentity::entity::decode(fragment.as_bytes()).to_string() {
        Ok(decoded) => Some(decoded),
        Err(_) => None,
    }
}

/// Cleans a description fragment and decodes its character entities; where
/// the decoded bytes form no valid string, a fixed placeholder stands in.
pub fn sanitize_html(html: &str) -> (r: String)
    ensures
        entity_decoded(cleaned(html@)) matches Some(decoded) ==> r@ == decoded,
        entity_decoded(cleaned(html@)) is None ==> r@ == "Invalid HTML content"@,
{
    let cleaned_html = ammonia_clean(html);
    match decode_entities(cleaned_html.as_str()) {
        Some(decoded) => decoded,
        None => String::from_str("Invalid HTML content"),
    }
}

} // verus!
