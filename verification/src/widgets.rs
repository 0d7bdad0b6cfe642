//! The data each overlay widget shows.  Drawing them is the rendering
//! engine's business and happens outside the core; these types only carry
//! what a drawn overlay is made of.

use vstd::prelude::*;

use crate::app::SortingField;

verus! {

/// The search-term entry box: its heading and what was typed so far.
pub struct InputWidget<'a, T> {
    pub title: T,
    pub inpt: &'a str,
}

impl<'a, T> InputWidget<'a, T> {
    pub fn new(title: T, inpt: &'a str) -> (r: Self)
        ensures
            r.title == title,
            r.inpt == inpt,
    {
        Self { title, inpt }
    }
}

/// The sort picker overlay: its heading and the picker state it shows.
pub struct SortingWidget<'a> {
    pub state: &'a SortingField,
    pub title: &'a str,
}

impl<'a> SortingWidget<'a> {
    pub fn new(state: &'a SortingField, title: &'a str) -> (r: Self)
        ensures
            r.state == state,
            r.title == title,
    {
        Self { state, title }
    }
}

} // verus!
