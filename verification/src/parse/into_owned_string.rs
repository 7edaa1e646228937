use vstd::prelude::*;

verus! {

/// Conversion of a borrowed or owned string into an owned `String`.
pub trait IntoOwnedString: Sized {
    /// The text of the string.
    spec fn text_view(&self) -> Seq<char>;

    /// The string as an owned `String` with the same text.
    fn into_owned_string(self) -> (r: String)
        ensures
            r@ == self.text_view(),
    ;
}

impl<'a> IntoOwnedString for &'a str {
    open spec fn text_view(&self) -> Seq<char> {
        (*self)@
    }

    fn into_owned_string(self) -> (r: String) {
        self.to_owned()
    }
}

impl IntoOwnedString for String {
    open spec fn text_view(&self) -> Seq<char> {
        (*self)@
    }

    fn into_owned_string(self) -> (r: String) {
        self
    }
}

} // verus!
