//! The component-value tokens that the parsers read, as a tokenizer hands them over.

use vstd::prelude::*;

use crate::number::Number;

verus! {

/// One CSS component value.
#[derive(Debug, PartialEq)]
pub enum ComponentValue {
    Number(Number),
    /// The number written before `%`, as written (`50%` holds 50).
    Percentage(Number),
    Dimension(Number, String),
    Ident(String),
    /// A `#` token, without the `#`.
    Hash(String),
    Url(String),
    Function(String, Vec<ComponentValue>),
    Comma,
    WhiteSpace,
    /// A token of any other kind; every parser here refuses it.
    Other,
}

impl ComponentValue {
    /// Every number held directly by the token has a non-zero denominator.
    pub open spec fn wf(self) -> bool {
        match self {
            ComponentValue::Number(v) => v.wf(),
            ComponentValue::Percentage(v) => v.wf(),
            ComponentValue::Dimension(v, _) => v.wf(),
            _ => true,
        }
    }
}

/// ASCII letters folded to lower case; every other character unchanged.
pub open spec fn ascii_fold(c: char) -> int {
    if 65 <= (c as u32) && (c as u32) <= 90 {
        (c as u32) + 32
    } else {
        c as int
    }
}

/// The two strings are equal up to the case of ASCII letters.
pub open spec fn eq_ignore_case(a: Seq<char>, b: Seq<char>) -> bool {
    &&& a.len() == b.len()
    &&& forall|i: int| 0 <= i < a.len() ==> ascii_fold(a[i]) == ascii_fold(b[i])
}

/// Relies on std's `str::eq_ignore_ascii_case`: equal lengths, and equal
/// characters once ASCII letters are folded to one case.
#[verifier::external_body]
pub(crate) fn eq_ignore_ascii_case(a: &str, b: &str) -> (r: bool)
    ensures
        r == eq_ignore_case(a@, b@),
{
    a.eq_ignore_ascii_case(b)
}

} // verus!
