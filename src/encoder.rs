//! The QR image of the vCard record, shown only once both fields are valid.
use vstd::prelude::*;
use crate::card::{card_text, vcard};
use crate::state::{apply, FormState, Model, Msg};
use crate::validator::{name_ok, phone_ok, validate, verdict_of, Verdict};

verus! {

/// Whether `qrcodegen::QrCode::encode_text` fits the text in a symbol at
/// medium error correction.
pub uninterp spec fn fits_medium(t: Seq<char>) -> bool;

/// The SVG markup that `QrCode::to_svg_string` gives, with a border of 4
/// modules, for the symbol `QrCode::encode_text` makes of the text at medium
/// error correction.
pub uninterp spec fn svg_medium(t: Seq<char>) -> Seq<char>;

/// Relies on `qrcodegen::QrCode::encode_text` at `QrCodeEcc::Medium`, which
/// fails only when the text is too long for every symbol version, and on
/// `QrCode::to_svg_string(4)`, whose markup always opens with an XML header.
/// Both depend on their arguments alone.
#[verifier::external_body]
fn qr_svg(text: &str) -> (r: Option<String>)
    ensures
        r is Some <==> fits_medium(text@),
        r matches Some(s) ==> s@ == svg_medium(text@) && s@.len() > 0,
{
    match qrcodegen::QrCode::encode_text(text, qrcodegen::QrCodeEcc::Medium) {
        Ok(qr) => Some(qr.to_svg_string(4)),
        Err(_) => None,
    }
}

/// Why no image could be made for a form whose fields are valid.
#[derive(Clone, Copy, PartialEq, Eq, Structural, Debug)]
pub enum EncodeError {
    /// The record is too long for a QR symbol at medium error correction.
    CapacityExceeded,
}

/// The image from the outcome of encoding: the markup, or the capacity error
/// where the record did not fit.
pub fn image_outcome(encoded: Option<String>) -> (r: Result<String, EncodeError>)
    ensures
        match encoded {
            Some(s) => r == Ok::<String, EncodeError>(s),
            None => r == Err::<String, EncodeError>(EncodeError::CapacityExceeded),
        },
{
    match encoded {
        Some(s) => Ok(s),
        None => Err(EncodeError::CapacityExceeded),
    }
}

/// The image is shown: both fields are valid and the record fits.
pub open spec fn shows_image(f: FormState) -> bool {
    verdict_of(f).ready() && fits_medium(card_text(f))
}

/// Encodes the form's vCard record once `verdict` says both fields are
/// valid. Gives `Ok(None)` before that, the QR markup after, or the capacity
/// error where the record does not fit.
pub fn encode(model: &Model, verdict: Verdict) -> (r: Result<Option<String>, EncodeError>)
    ensures
        match r {
            Ok(None) => !verdict.ready(),
            Ok(Some(s)) => verdict.ready() && fits_medium(card_text(model@)) && s@ == svg_medium(
                card_text(model@),
            ),
            Err(e) => verdict.ready() && !fits_medium(card_text(model@)) && e
                == EncodeError::CapacityExceeded,
        },
{
    let text = vcard(model.name.as_str(), model.telephone.as_str(), model.date.as_str());
    if verdict.name_valid && verdict.phone_valid {
        match image_outcome(qr_svg(text.as_str())) {
            Ok(s) => Ok(Some(s)),
            Err(e) => Err(e),
        }
    } else {
        Ok(None)
    }
}

/// What the form shows below its fields: validates, then encodes.
pub fn render_image(model: &Model) -> (r: Result<Option<String>, EncodeError>)
    ensures
        r matches Ok(Some(_)) <==> shows_image(model@),
        match r {
            Ok(None) => !verdict_of(model@).ready(),
            Ok(Some(s)) => shows_image(model@) && s@ == svg_medium(card_text(model@)),
            Err(e) => verdict_of(model@).ready() && !fits_medium(card_text(model@)) && e
                == EncodeError::CapacityExceeded,
        },
{
    let verdict = validate(model);
    encode(model, verdict)
}

/// Where the record fits a symbol, the image is shown exactly when both
/// fields are valid: never for one valid field alone.
pub proof fn lemma_image_iff_both_valid(f: FormState)
    requires
        fits_medium(card_text(f)),
    ensures
        shows_image(f) <==> (name_ok(f.name) && phone_ok(f.telephone)),
{
}

/// An edit that leaves the edited field invalid hides the image on the next
/// render, whatever the form held before.
pub proof fn lemma_invalid_edit_hides_image(f: FormState, msg: Msg)
    requires
        match msg {
            Msg::NameChanged(n) => !name_ok(n@),
            Msg::TelephoneChanged(t) => !phone_ok(t@),
        },
    ensures
        !shows_image(apply(f, msg)),
{
}

} // verus!
