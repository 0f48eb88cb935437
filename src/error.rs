use vstd::prelude::*;

verus! {

/// An error of the interactive menu: what was being done, and the text of the
/// error that stopped it.
#[derive(Debug)]
pub struct SauronError {
    pub source: String,
    pub message: String,
}

impl SauronError {
    /// Renders the error as `message: source`.
    pub fn to_string(&self) -> (r: String)
        ensures
            r@ == self.message@ + ": "@ + self.source@,
    {
        let mut text = self.message.clone();
        text.append(": ");
        text.append(self.source.as_str());
        text
    }
}

} // verus!
