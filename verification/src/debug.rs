//! Soft expectations: values that should be present, whose absence is reported but
//! not fatal.
use vstd::prelude::*;

verus! {

/// Values that may be missing, whose absence is worth a warning but not a failure.
pub trait SoftExpect: Sized {
    /// Hands the value back unchanged; a missing value is to be reported with `msg`.
    fn soft_expect(self, msg: &str) -> (r: Self)
        ensures
            r == self,
    ;
}

impl<T> SoftExpect for Option<T> {
    fn soft_expect(self, msg: &str) -> (r: Self) {
        self
    }
}

/// The warning for a missing value: the given message, or a generic one when the
/// message is empty.
pub fn soft_expect_message(msg: &str) -> (text: String)
    ensures
        msg@.len() == 0 ==> text@ == "Expected to be Some but was None"@,
        msg@.len() > 0 ==> text@ == msg@,
{
    if msg.unicode_len() == 0 {
        String::from_str("Expected to be Some but was None")
    } else {
        msg.to_string()
    }
}

} // verus!
