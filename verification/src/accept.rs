//! The `Accept` header of a request, kept as text.

use crate::anymedia::hint_text;
use crate::codec::text_of;
use std::ops::{Deref, DerefMut};
use vstd::prelude::*;
use vstd::std_specs::convert::FromSpecImpl;

verus! {

/// What a request accepts, for the answer to be encoded by.
///
/// The header is kept as it came, neither parsed nor checked: it is read
/// only when a response is encoded. A request without the header is no
/// fault and gives an empty value.
#[derive(Debug, Clone)]
pub struct Accept(Option<String>);

impl View for Accept {
    type V = Option<Seq<char>>;

    closed spec fn view(&self) -> Option<Seq<char>> {
        match self.0 {
            Some(s) => Some(s@),
            None => None,
        }
    }
}

impl Accept {
    /// Keeps a copy of the header's text, if the request has the header.
    pub fn from_header(value: Option<&str>) -> (r: Accept)
        ensures
            r@ == text_of(value),
    {
        match value {
            Some(text) => Accept(Some(text.to_owned())),
            None => Accept(None),
        }
    }

    /// The header's text, if the request had the header.
    pub fn as_deref(&self) -> (r: Option<&str>)
        ensures
            text_of(r) == self@,
    {
        match &self.0 {
            Some(text) => Some(text.as_str()),
            None => None,
        }
    }

    /// Gives up the wrapper for the text, to stand beside a value as its
    /// encode hint.
    pub fn into_inner(self) -> (r: Option<String>)
        ensures
            hint_text(r) == self@,
    {
        self.0
    }
}

impl Deref for Accept {
    type Target = Option<String>;

    fn deref(&self) -> (r: &Option<String>)
        ensures
            hint_text(*r) == self@,
    {
        &self.0
    }
}

impl DerefMut for Accept {
    fn deref_mut(&mut self) -> (r: &mut Option<String>)
        ensures
            hint_text(*r) == old(self)@,
            final(self)@ == hint_text(*final(r)),
    {
        &mut self.0
    }
}

impl From<Accept> for Option<String> {
    fn from(accept: Accept) -> (r: Option<String>) {
        accept.0
    }
}

impl FromSpecImpl<Accept> for Option<String> {
    open spec fn obeys_from_spec() -> bool {
        true
    }

    closed spec fn from_spec(accept: Accept) -> Option<String> {
        accept.0
    }
}

/// Turning an `Accept` into the hint of a value keeps the header's text.
pub proof fn lemma_hint_from_accept(accept: Accept)
    ensures
        hint_text(<Option<String> as vstd::std_specs::convert::FromSpec<Accept>>::from_spec(accept))
            == accept@,
{
}

} // verus!
