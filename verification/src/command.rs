//! Commands the embedder sends into the client.

use vstd::prelude::*;

verus! {

/// Where to deliver an outgoing message.
#[derive(Debug, Clone)]
pub enum Recipient {
    /// One-to-one conversation with a contact.
    Contact {
        /// The contact's Threema ID.
        identity: String,
    },
    /// Group conversation.
    Group {
        /// Threema ID of the group's creator.
        creator_identity: String,
        group_id: u64,
    },
}

/// Everything the embedder can ask the client to do.
#[derive(Debug, Clone)]
pub enum Command {
    /// Send a plain-text message. A contact that is not known yet is looked up at the directory
    /// first; groups are not supported. What cannot be sent is reported back via
    /// [`crate::event::Event::SendFailed`].
    SendText { to: Recipient, text: String },
    /// Terminate the client cleanly. Dropping the command sender has the same effect.
    Shutdown,
}

} // verus!
