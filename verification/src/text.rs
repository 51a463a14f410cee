use vstd::prelude::*;

verus! {

/// Whether `s` holds exactly the characters of `literal`.
pub(crate) fn text_is(s: &String, literal: &str) -> (r: bool)
    ensures
        r == (s@ == literal@),
{
    let expected = literal.to_owned();
    s.eq(&expected)
}

} // verus!
