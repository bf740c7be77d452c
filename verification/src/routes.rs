//! The relay as a server uses it: what each request does to the hub.
//!
//! The server owns one hub for its lifetime and hands it to every request.
//! Reading the request and writing the response are the server's part; what
//! happens in between is decided here.

use vstd::prelude::*;
use crate::hub::{Hub, HubView};
use crate::message::{Message, MessageView};
use crate::session::{Session, SessionView};

verus! {

/// The state that a server starts with: an open hub with an empty buffer
/// and no listener.
pub fn rocket() -> (hub: Hub)
    ensures
        hub.wf(),
        hub@ == HubView::fresh(),
{
    Hub::new()
}

/// What the hub is after a message was posted to `queue`.
///
/// Posting is best effort: the message is published if the hub can take
/// it, and that nobody listens, or that the hub is closed, is no failure of
/// the request. A hub whose write index cannot advance takes nothing.
pub open spec fn posted(queue: HubView, form: MessageView) -> HubView {
    if queue.published() < u64::MAX {
        queue.publish(form)
    } else {
        queue
    }
}

/// Handles a posted message: publishes `form` to `queue` and swallows the
/// outcome.
pub fn post(form: Message, queue: &mut Hub)
    requires
        old(queue).wf(),
    ensures
        final(queue).wf(),
        final(queue)@ == posted(old(queue)@, form@),
{
    if queue.published() < u64::MAX {
        let _outcome = queue.publish(form);
    }
}

/// Handles a listener that connects: opens its session on `queue`. The
/// session sees what is published from now on.
pub fn events(queue: &mut Hub) -> (session: Session)
    requires
        old(queue).wf(),
    ensures
        final(queue).wf(),
        final(queue)@ == SessionView::open(old(queue)@).0,
        session@ == SessionView::open(old(queue)@).1,
{
    Session::open(queue)
}

/// A response header: a name and a value.
pub struct Header {
    pub name: &'static str,
    pub value: &'static str,
}

/// The headers that every response carries, the stream's first response
/// included: any origin may call, with the usual methods, and may send a
/// content type.
pub fn cors_headers() -> (headers: Vec<Header>)
    ensures
        headers@.len() == 3,
        headers@[0].name@ == "Access-Control-Allow-Origin"@,
        headers@[0].value@ == "*"@,
        headers@[1].name@ == "Access-Control-Allow-Methods"@,
        headers@[1].value@ == "GET, POST, PUT, DELETE"@,
        headers@[2].name@ == "Access-Control-Allow-Headers"@,
        headers@[2].value@ == "Content-Type"@,
{
    let mut headers: Vec<Header> = Vec::new();
    headers.push(Header { name: "Access-Control-Allow-Origin", value: "*" });
    headers.push(Header { name: "Access-Control-Allow-Methods", value: "GET, POST, PUT, DELETE" });
    headers.push(Header { name: "Access-Control-Allow-Headers", value: "Content-Type" });
    headers
}

} // verus!
