//! The typed records the core works on. The network collaborator decodes
//! its responses into these shapes; every field the core reads is a plain
//! value, with optional fields resolving to documented defaults downstream.

use vstd::prelude::*;

verus! {

/// One conversation as the sidebar lists it. Immutable once fetched; the
/// list is replaced wholesale on refresh, never patched in place.
pub struct ConversationSummary {
    pub id: String,
    pub topic: String,
    pub preview: String,
    pub last_delivered: Option<String>,
    pub unique_senders: Option<Vec<String>>,
}

/// A conversation object as the listing endpoint returns it.
pub struct Conversation {
    pub id: String,
    pub topic: Option<String>,
}

/// One thread of a conversation; only its id is ever read.
pub struct Thread {
    pub id: String,
}

/// One post of a thread, the unit the detail pane renders.
pub struct Post {
    pub id: String,
    pub created: Option<String>,
    pub has_attachments: bool,
    pub from: Option<Sender>,
    pub body: EmailBody,
    pub subject: Option<String>,
}

/// A message body together with its declared content type.
pub struct EmailBody {
    pub content_type: String,
    pub content: String,
}

/// The sender of a post.
pub struct Sender {
    pub email_address: Option<EmailAddress>,
}

/// A sender's address record.
pub struct EmailAddress {
    pub name: Option<String>,
    pub address: Option<String>,
}

/// A directory group, as the group lookup returns it.
pub struct Group {
    pub id: String,
    pub email: Option<String>,
    pub display_name: Option<String>,
}

/// The group a lookup settles on: the first of the returned list, if the
/// list has one.
pub fn first_group(groups: Vec<Group>) -> (r: Option<Group>)
    ensures
        r is Some <==> groups@.len() > 0,
        r matches Some(g) ==> g == groups@[0],
{
    let mut groups = groups;
    if groups.len() == 0 {
        None
    } else {
        Some(groups.remove(0))
    }
}

} // verus!
