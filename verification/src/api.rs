//! The control API's message contract, as the reactor sees it.
//!
//! The API endpoint itself is an external collaborator: it runs on its
//! own threads and talks to the reactor over a message channel. The
//! reactor answers a snapshot request with a copy of the live SNI
//! routing table and acknowledges a quit request by shutting the event
//! loop down. Only that exchange is modeled here.

use vstd::prelude::*;

use crate::multiplex::SniMap;

verus! {

/// A message between the control API and the reactor. The carrier (a
/// reply channel in the running program) is the caller's affair; the
/// reactor's answer is the function of the message alone.
pub enum ApiMsg {
    /// Ask for a snapshot of the live SNI routing table.
    SniRequest,
    /// The snapshot, sent back for a request.
    SniResponse(SniMap),
    /// Ask the reactor to shut down; acknowledged, then honoured.
    Quit,
}

/// The body of the API's snapshot reply: the live SNI routing table.
pub struct ExampleResponse {
    /// The table, hostname to backend address.
    pub map: SniMap,
}

impl ExampleResponse {
    /// Wrap a snapshot for the reply.
    pub fn new(map: SniMap) -> (r: ExampleResponse)
        ensures
            r.map == map,
    {
        ExampleResponse { map }
    }
}

/// Answer one control message over the active routing table: a snapshot
/// request gets the table back, entry for entry, and the reactor goes
/// on; a quit request gets no reply and stops the reactor; a stray
/// response is ignored.
pub fn handle_api_msg(msg: &ApiMsg, table: &SniMap) -> (r: (Option<ApiMsg>, bool))
    ensures
        match msg {
            ApiMsg::SniRequest => {
                &&& !r.1
                &&& r.0 matches Some(ApiMsg::SniResponse(m)) && m@ =~= table@
            },
            ApiMsg::Quit => r.0 is None && r.1,
            ApiMsg::SniResponse(_) => r.0 is None && !r.1,
        },
{
    match msg {
        ApiMsg::SniRequest => (Some(ApiMsg::SniResponse(table.snapshot())), false),
        ApiMsg::Quit => (None, true),
        ApiMsg::SniResponse(_) => (None, false),
    }
}

} // verus!
