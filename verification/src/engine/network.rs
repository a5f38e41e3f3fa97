//! Networking: the connection events a server update reports, a client's connection status
//! code, and the fixed-size user data a client sends with its connection request.
use vstd::prelude::*;
use renet::{RenetClient, RenetServer};

verus! {

#[verifier::external_type_specification]
#[verifier::external_body]
pub struct ExRenetServer(RenetServer);

#[verifier::external_type_specification]
#[verifier::external_body]
pub struct ExRenetClient(RenetClient);

/// The connection events that a server holds, oldest first: `(true, id)` for a client that
/// connected, `(false, id)` for one that disconnected.
pub uninterp spec fn server_events(server: RenetServer) -> Seq<(bool, u64)>;

/// Calls `RenetServer::get_event`, which takes the oldest connection event off the server's
/// queue, or returns nothing when the queue is empty. The event is reported without its
/// disconnection reason.
#[verifier::external_body]
fn next_event(server: &mut RenetServer) -> (event: Option<(bool, u64)>)
    ensures
        server_events(*old(server)).len() == 0 ==> event is None && server_events(*final(server))
            == server_events(*old(server)),
        server_events(*old(server)).len() > 0 ==> event == Some(server_events(*old(server))[0])
            && server_events(*final(server)) == server_events(*old(server)).drop_first(),
{
    match server.get_event() {
        Some(renet::ServerEvent::ClientConnected { client_id }) => Some((true, client_id)),
        Some(renet::ServerEvent::ClientDisconnected { client_id, .. }) => Some((false, client_id)),
        None => None,
    }
}

/// The client identifiers of the events of one kind (`connected`), in order.
pub open spec fn event_ids(events: Seq<(bool, u64)>, connected: bool) -> Seq<u64>
    decreases events.len(),
{
    if events.len() == 0 {
        Seq::empty()
    } else {
        event_ids(events.drop_last(), connected) + if events.last().0 == connected {
            seq![events.last().1]
        } else {
            Seq::empty()
        }
    }
}

/// Every connection event is reported once: the two lists together hold as many identifiers
/// as there were events.
pub proof fn lemma_events_reported_once(events: Seq<(bool, u64)>)
    ensures
        event_ids(events, true).len() + event_ids(events, false).len() == events.len(),
    decreases events.len(),
{
    if events.len() > 0 {
        lemma_events_reported_once(events.drop_last());
    }
}

/// Take every connection event off the server: the clients that connected and the clients
/// that disconnected, each list in event order.
pub fn drain_events(server: &mut RenetServer) -> (lists: (Vec<u64>, Vec<u64>))
    ensures
        lists.0@ == event_ids(server_events(*old(server)), true),
        lists.1@ == event_ids(server_events(*old(server)), false),
        server_events(*final(server)).len() == 0,
{
    let ghost events = server_events(*server);
    let mut enter_list: Vec<u64> = Vec::new();
    let mut leave_list: Vec<u64> = Vec::new();
    loop
        invariant_except_break
            events == events.take(events.len() - server_events(*server).len()) + server_events(
                *server,
            ),
            enter_list@ == event_ids(events.take(events.len() - server_events(*server).len()), true),
            leave_list@ == event_ids(events.take(events.len() - server_events(*server).len()), false),
        ensures
            enter_list@ == event_ids(events, true),
            leave_list@ == event_ids(events, false),
            server_events(*server).len() == 0,
        decreases server_events(*server).len(),
    {
        let ghost rest = server_events(*server);
        let ghost done = events.take(events.len() - rest.len());
        match next_event(server) {
            Some((connected, client_id)) => {
                if connected {
                    enter_list.push(client_id);
                } else {
                    leave_list.push(client_id);
                }
                proof {
                    let done2 = events.take(events.len() - server_events(*server).len());
                    assert(events.len() - server_events(*server).len() == done.len() + 1);
                    assert(done2 =~= done.push(rest[0])) by {
                        assert(events =~= done + rest);
                    }
                    assert(done2.drop_last() =~= done);
                    assert(events =~= done2 + server_events(*server)) by {
                        assert(events =~= done + rest);
                    }
                }
            },
            None => {
                proof {
                    assert(events.take(events.len() as int) =~= events);
                }
                break;
            },
        }
    }
    (enter_list, leave_list)
}

/// Whether a client's connection status is `Connected`, as `RenetClient::is_connected` reads
/// it from the client's own status field.
pub uninterp spec fn is_connected_state(client: RenetClient) -> bool;

/// Whether a client's connection status is `Connecting`, as `RenetClient::is_connecting` reads
/// it from the client's own status field.
pub uninterp spec fn is_connecting_state(client: RenetClient) -> bool;

/// Calls `RenetClient::is_connected`, which reads only the client's connection status; its
/// result is named `is_connected_state`.
#[verifier::external_body]
fn client_connected(client: &RenetClient) -> (r: bool)
    ensures
        r == is_connected_state(*client),
{
    client.is_connected()
}

/// Calls `RenetClient::is_connecting`, which reads only the client's connection status; its
/// result is named `is_connecting_state`.
#[verifier::external_body]
fn client_connecting(client: &RenetClient) -> (r: bool)
    ensures
        r == is_connecting_state(*client),
{
    client.is_connecting()
}

/// The connection status code: 0 when connected, 1 while connecting, 2 otherwise.
pub fn status_code(connected: bool, connecting: bool) -> (code: usize)
    ensures
        code == (if connected {
            0usize
        } else if connecting {
            1usize
        } else {
            2usize
        }),
{
    if connected {
        0
    } else if connecting {
        1
    } else {
        2
    }
}

/// The connection status code of a client: 0 when it is connected, 1 while it is connecting,
/// 2 otherwise.
pub fn get_status(client: &RenetClient) -> (code: usize)
    ensures
        code == (if is_connected_state(*client) {
            0usize
        } else if is_connecting_state(*client) {
            1usize
        } else {
            2usize
        }),
{
    let connected = client_connected(client);
    if connected {
        return status_code(true, false);
    }
    let connecting = client_connecting(client);
    status_code(false, connecting)
}

/// Size of the user data of a connection request.
pub const USER_DATA_BYTES: usize = 256;

/// The user data of a connection request: the given bytes, cut or padded with zeros to
/// exactly 256 bytes.
pub fn fit_user_data(bytes: &Vec<u8>) -> (data: [u8; 256])
    ensures
        forall|i: int|
            0 <= i < USER_DATA_BYTES ==> #[trigger] data@[i] == if i < bytes@.len() {
                bytes@[i]
            } else {
                0u8
            },
{
    let mut data = [0u8; 256];
    let mut i: usize = 0;
    while i < USER_DATA_BYTES
        invariant
            i <= USER_DATA_BYTES,
            forall|j: int|
                0 <= j < USER_DATA_BYTES ==> #[trigger] data@[j] == if j < i && j < bytes@.len() {
                    bytes@[j]
                } else {
                    0u8
                },
        decreases USER_DATA_BYTES - i,
    {
        if i < bytes.len() {
            data[i] = bytes[i];
        }
        i = i + 1;
    }
    data
}

} // verus!
