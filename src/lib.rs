//! A contact-card form: two typed fields, a validity gate, and a QR image of
//! the resulting vCard text.
pub mod card;
pub mod encoder;
pub mod state;
pub mod validator;

pub use card::vcard;
pub use encoder::{encode, image_outcome, render_image, EncodeError};
pub use state::{init, update, FormState, Model, Msg};
pub use validator::{name_valid, phone_valid, phone_verdict, validate, Verdict};
