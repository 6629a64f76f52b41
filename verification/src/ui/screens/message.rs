use crate::app::state::MessageState;
use vstd::prelude::*;

verus! {

/// A message screen, on the message that it was given. It handles no key of
/// its own: the application closes it.
pub struct MessageScreen<'a> {
    pub state: &'a MessageState,
}

impl<'a> MessageScreen<'a> {
    /// The message screen that shows `state`.
    pub fn new(state: &'a MessageState) -> (screen: Self)
        ensures
            screen.state == state,
    {
        MessageScreen { state }
    }
}

} // verus!
