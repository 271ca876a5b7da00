//! The form for a new pull request.

use vstd::prelude::*;

verus! {

/// A field of the form.
#[derive(Debug, Clone, Copy, PartialEq, Eq, Structural)]
pub enum PrFormField {
    Title,
    Body,
    Draft,
}

impl PrFormField {
    /// The fields in their order.
    pub open spec fn order() -> Seq<PrFormField> {
        seq![PrFormField::Title, PrFormField::Body, PrFormField::Draft]
    }

    /// The place of the field in the form.
    pub open spec fn place(self) -> int {
        match self {
            PrFormField::Title => 0,
            PrFormField::Body => 1,
            PrFormField::Draft => 2,
        }
    }

    /// The field below, round the end.
    pub open spec fn following(self) -> PrFormField {
        PrFormField::order()[(self.place() + 1) % 3]
    }

    /// The field above, round the start.
    pub open spec fn preceding(self) -> PrFormField {
        PrFormField::order()[(self.place() + 2) % 3]
    }

    /// The field below, round the end.
    pub fn next(self) -> (r: PrFormField)
        ensures
            r == self.following(),
    {
        match self {
            PrFormField::Title => PrFormField::Body,
            PrFormField::Body => PrFormField::Draft,
            PrFormField::Draft => PrFormField::Title,
        }
    }

    /// The field above, round the start.
    pub fn previous(self) -> (r: PrFormField)
        ensures
            r == self.preceding(),
    {
        match self {
            PrFormField::Title => PrFormField::Draft,
            PrFormField::Body => PrFormField::Title,
            PrFormField::Draft => PrFormField::Body,
        }
    }
}

/// What the form holds, and the field that is being edited.
#[derive(Debug, PartialEq, Eq)]
pub struct PullRequestForm {
    pub title: String,
    pub body: String,
    pub draft: bool,
    pub field: PrFormField,
}

/// A form as a mathematical value.
#[verifier::ext_equal]
pub struct FormView {
    pub title: Seq<char>,
    pub body: Seq<char>,
    pub draft: bool,
    pub field: PrFormField,
}

impl View for PullRequestForm {
    type V = FormView;

    open spec fn view(&self) -> FormView {
        FormView {
            title: self.title@,
            body: self.body@,
            draft: self.draft,
            field: self.field,
        }
    }
}

/// An empty form, which makes a draft.
pub open spec fn blank_form() -> FormView {
    FormView {
        title: Seq::empty(),
        body: Seq::empty(),
        draft: true,
        field: PrFormField::Title,
    }
}

impl Default for PullRequestForm {
    fn default() -> (r: PullRequestForm)
        ensures
            r@ == blank_form(),
    {
        PullRequestForm {
            title: String::new(),
            body: String::new(),
            draft: true,
            field: PrFormField::Title,
        }
    }
}

} // verus!
