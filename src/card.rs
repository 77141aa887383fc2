//! The vCard text that the image carries.
use vstd::prelude::*;
use vstd::string::StringExecFns;
use crate::state::FormState;

verus! {

/// The vCard record for a name, a telephone number and a revision stamp.
/// Each value goes in verbatim.
pub open spec fn vcard_text(name: Seq<char>, telephone: Seq<char>, date: Seq<char>) -> Seq<char> {
    "BEGIN:VCARD\nVERSION:3.0\nFN;CHARSET=UTF-8:"@ + name + "\nTEL;TYPE=HOME,VOICE:"@ + telephone
        + "\nREV:"@ + date + "\nEND:VCARD"@
}

/// The vCard record of a form state.
pub open spec fn card_text(f: FormState) -> Seq<char> {
    vcard_text(f.name, f.telephone, f.captured_at)
}

/// Builds the vCard record for a name, a telephone number and a revision
/// stamp.
pub fn vcard(name: &str, telephone: &str, date: &str) -> (r: String)
    ensures
        r@ == vcard_text(name@, telephone@, date@),
{
    let mut r = String::from_str("BEGIN:VCARD\nVERSION:3.0\nFN;CHARSET=UTF-8:");
    r.append(name);
    r.append("\nTEL;TYPE=HOME,VOICE:");
    r.append(telephone);
    r.append("\nREV:");
    r.append(date);
    r.append("\nEND:VCARD");
    r
}

/// The record depends on the form state alone: equal states give the same
/// text, character for character.
pub proof fn lemma_card_text_deterministic(f: FormState, g: FormState)
    requires
        f == g,
    ensures
        card_text(f) == card_text(g),
{
}

} // verus!
