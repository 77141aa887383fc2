//! The form's state and the edits that change it.
use vstd::prelude::*;

verus! {

/// What the form holds, as mathematical text.
pub struct FormState {
    pub name: Seq<char>,
    pub telephone: Seq<char>,
    pub captured_at: Seq<char>,
}

/// The form's state: the two typed fields and the time the session started.
///
/// `date` is captured once, by `init`, and no edit changes it.
pub struct Model {
    pub name: String,
    pub telephone: String,
    pub date: String,
}

impl View for Model {
    type V = FormState;

    open spec fn view(&self) -> FormState {
        FormState { name: self.name@, telephone: self.telephone@, captured_at: self.date@ }
    }
}

/// An edit of one field: its whole new value.
#[derive(Clone)]
pub enum Msg {
    NameChanged(String),
    TelephoneChanged(String),
}

/// The state after `msg`: the edited field takes the new value verbatim, the
/// other field and the timestamp stay.
pub open spec fn apply(f: FormState, msg: Msg) -> FormState {
    match msg {
        Msg::NameChanged(n) => FormState { name: n@, ..f },
        Msg::TelephoneChanged(t) => FormState { telephone: t@, ..f },
    }
}

/// A fresh form: both fields empty, stamped with `date`.
pub fn init(date: String) -> (m: Model)
    ensures
        m@ == (FormState { name: Seq::empty(), telephone: Seq::empty(), captured_at: date@ }),
{
    Model { name: String::new(), telephone: String::new(), date }
}

/// Applies one edit to the form.
pub fn update(msg: Msg, model: &mut Model)
    ensures
        final(model)@ == apply(old(model)@, msg),
{
    match msg {
        Msg::NameChanged(name) => model.name = name,
        Msg::TelephoneChanged(telephone) => model.telephone = telephone,
    }
}

} // verus!
