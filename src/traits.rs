use vstd::prelude::*;

use crate::types::Example;

verus! {

/// Declares `anyhow::Error`, the error type that tools report failures with;
/// it is carried through unread.
#[verifier::external_type_specification]
#[verifier::external_body]
pub struct ExAnyhowError(anyhow::Error);

/// A tool that can list example calls of itself.
pub trait WithExamples: Sized {
    /// Example calls of the tool; none unless the tool gives some.
    fn examples() -> Vec<Example<Self>> {
        Vec::new()
    }
}

/// A tool that runs against the server's state and answers with text.
pub trait Tool<State>: Sized {
    fn execute(self, state: &mut State) -> Result<String, anyhow::Error>;
}

} // verus!
