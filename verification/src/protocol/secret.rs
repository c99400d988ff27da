//! Values that must not be shown by accident.

use vstd::prelude::*;

verus! {

/// A value that is written out only where it is asked for by `expose`.
pub struct Secret(String);

impl View for Secret {
    type V = Seq<char>;

    closed spec fn view(&self) -> Seq<char> {
        self.0@
    }
}

impl Secret {
    /// Keeps a value.
    pub fn new(value: &str) -> (r: Self)
        ensures
            r@ == value@,
    {
        Secret(value.to_string())
    }

    /// The value.
    pub fn expose(&self) -> (r: &str)
        ensures
            r@ == self@,
    {
        self.0.as_str()
    }
}

/// A value that is kept is given back as it was.
pub proof fn secret_is_given_back(value: &str, kept: Secret, r: &str)
    requires
        call_ensures(Secret::new, (value,), kept),
        call_ensures(Secret::expose, (&kept,), r),
    ensures
        r@ == value@,
{
}

} // verus!
