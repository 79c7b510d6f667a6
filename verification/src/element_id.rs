//! Identifiers of native elements.

use vstd::prelude::*;
use crate::text::{decimal, decimal_string};

verus! {

/// Identifies an element across frames, so that its native control is reused.
pub enum ElementId {
    /// An identifier given by name.
    Name(String),
    /// An identifier given by number.
    Integer(u64),
}

/// The mathematical value of an [`ElementId`].
pub enum ElementIdView {
    Name(Seq<char>),
    Integer(u64),
}

impl View for ElementId {
    type V = ElementIdView;

    open spec fn view(&self) -> ElementIdView {
        match self {
            ElementId::Name(s) => ElementIdView::Name(s@),
            ElementId::Integer(n) => ElementIdView::Integer(*n),
        }
    }
}

/// The text of an identifier: the name itself, or the number in decimal.
pub open spec fn element_id_text(id: ElementIdView) -> Seq<char> {
    match id {
        ElementIdView::Name(s) => s,
        ElementIdView::Integer(n) => decimal(n as nat),
    }
}

impl ElementId {
    /// An identifier given by name.
    pub fn name(name: &str) -> (id: ElementId)
        ensures
            id@ == ElementIdView::Name(name@),
    {
        ElementId::Name(name.to_owned())
    }

    /// An identifier given by number.
    pub fn integer(n: u64) -> (id: ElementId)
        ensures
            id@ == ElementIdView::Integer(n),
    {
        ElementId::Integer(n)
    }

    /// A copy of this identifier.
    pub fn duplicate(&self) -> (id: ElementId)
        ensures
            id@ == self@,
    {
        match self {
            ElementId::Name(s) => ElementId::Name(s.clone()),
            ElementId::Integer(n) => ElementId::Integer(*n),
        }
    }

    /// The text of this identifier, used as the native control's identifier.
    pub fn to_string(&self) -> (s: String)
        ensures
            s@ == element_id_text(self@),
    {
        match self {
            ElementId::Name(s) => s.clone(),
            ElementId::Integer(n) => decimal_string(*n),
        }
    }
}

} // verus!
