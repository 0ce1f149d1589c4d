//! Errors are shown to a user.

use vstd::prelude::*;
use vstd::std_specs::convert::FromSpec;

use crate::error::{Error, ErrorCode};

verus! {

/// An error of Matter is shown with its name behind a prefix, and so never like an invalid state.
pub proof fn lemma_error_texts(code: ErrorCode)
    ensures
        Error::Matter(code).spec_text().take(14) == "Matter error: "@,
        Error::Matter(code).spec_text().skip(14) == code.spec_name(),
        Error::InvalidState.spec_text() == "Invalid state"@,
        Error::Matter(code).spec_text() != Error::InvalidState.spec_text(),
        <Error as FromSpec<ErrorCode>>::from_spec(code) == Error::Matter(code),
{
    reveal_strlit("Matter error: ");
    reveal_strlit("Invalid state");
    let text = Error::Matter(code).spec_text();
    assert(text[0] == 'M');
    assert(text.take(14) =~= "Matter error: "@);
    assert(text.skip(14) =~= code.spec_name());
}

} // verus!
