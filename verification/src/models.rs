//! The request: what a caller may supply to get a code.

use vstd::prelude::*;

verus! {

/// One request. No field is required by itself; there is a code to render
/// when at least one of `url`, `phone`, `email` and `address` yields a
/// payload. The colours and the dimension only matter to SVG output.
#[derive(Clone, Debug)]
pub struct Info {
    pub url: Option<String>,
    pub phone: Option<String>,
    pub email: Option<String>,
    pub address: Option<String>,
    pub foreground: Option<String>,
    pub background: Option<String>,
    pub dimension: Option<u32>,
}

/// A request as contracts see it: each text as its characters.
pub ghost struct InfoView {
    pub url: Option<Seq<char>>,
    pub phone: Option<Seq<char>>,
    pub email: Option<Seq<char>>,
    pub address: Option<Seq<char>>,
    pub foreground: Option<Seq<char>>,
    pub background: Option<Seq<char>>,
    pub dimension: Option<u32>,
}

/// The characters of an optional text.
pub open spec fn text_of(field: Option<String>) -> Option<Seq<char>> {
    match field {
        Some(s) => Some(s@),
        None => None,
    }
}

impl View for Info {
    type V = InfoView;

    open spec fn view(&self) -> InfoView {
        InfoView {
            url: text_of(self.url),
            phone: text_of(self.phone),
            email: text_of(self.email),
            address: text_of(self.address),
            foreground: text_of(self.foreground),
            background: text_of(self.background),
            dimension: self.dimension,
        }
    }
}

impl InfoView {
    /// The request in which nothing is supplied.
    pub open spec fn empty() -> InfoView {
        InfoView {
            url: None,
            phone: None,
            email: None,
            address: None,
            foreground: None,
            background: None,
            dimension: None,
        }
    }
}

impl Default for Info {
    /// The request in which nothing is supplied.
    fn default() -> (r: Self)
        ensures
            r@ == InfoView::empty(),
    {
        Self {
            url: None,
            phone: None,
            email: None,
            address: None,
            background: None,
            dimension: None,
            foreground: None,
        }
    }
}

} // verus!
