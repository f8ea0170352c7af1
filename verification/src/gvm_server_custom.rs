//! What the TCP server does with each frame that a client sends.
//!
//! The connection loop itself (reading frames, talking to the lights over
//! Bluetooth, writing replies) is I/O; the decisions it takes are here.
use vstd::prelude::*;
use crate::gvm_server_event::GvmServerEvent;
use crate::node_command::GvmNodeCommand;
use vstd::string::*;

verus! {

/// What the connection handler does next.
#[derive(PartialEq, Eq, Structural, Clone, Copy, Debug)]
pub enum HandlerAction {
    /// Send this frame back to the client.
    Reply(GvmServerEvent),
    /// Read the state of the light at `index` and answer with a
    /// `NodeStatus` for `uid`.
    QueryStatus { uid: u8, index: usize },
    /// Have the light at `index` perform the command.
    SendCommand { index: usize, command: GvmNodeCommand },
    /// The frame is not a request: nothing is sent.
    Ignore,
    /// The client named a light that does not exist: the connection ends.
    Close,
}

/// Light ids start at 1; id 0 names no light and is refused before a frame
/// is handled.
pub open spec fn frame_ids_valid(frame: GvmServerEvent) -> bool {
    match frame {
        GvmServerEvent::GetNodeStatus(uid) => uid != 0,
        GvmServerEvent::NodeCommand(uid, _) => uid != 0,
        _ => true,
    }
}

/// The action taken on `frame` by a server that drives `node_count` lights.
pub open spec fn action_for(node_count: usize, frame: GvmServerEvent) -> HandlerAction {
    match frame {
        GvmServerEvent::GetNodeCount => HandlerAction::Reply(
            GvmServerEvent::NodeCount(node_count as u8),
        ),
        GvmServerEvent::GetNodeStatus(uid) => if uid > node_count {
            HandlerAction::Close
        } else {
            HandlerAction::QueryStatus { uid, index: (uid - 1) as usize }
        },
        GvmServerEvent::NodeCommand(uid, command) => if uid > node_count {
            HandlerAction::Close
        } else {
            HandlerAction::SendCommand { index: (uid - 1) as usize, command }
        },
        _ => HandlerAction::Ignore,
    }
}

/// Decides what to do with a frame from a client. The node count is
/// reported modulo 256, as it fits in one byte of the protocol.
pub fn handle_frame(node_count: usize, frame: GvmServerEvent) -> (res: HandlerAction)
    requires
        frame_ids_valid(frame),
    ensures
        res == action_for(node_count, frame),
{
    match frame {
        GvmServerEvent::GetNodeCount => {
            #[verifier::truncate]
            let count: u8 = node_count as u8;
            HandlerAction::Reply(GvmServerEvent::NodeCount(count))
        },
        GvmServerEvent::GetNodeStatus(uid) => {
            let id: usize = uid as usize;
            if id > node_count {
                HandlerAction::Close
            } else {
                HandlerAction::QueryStatus { uid, index: id - 1 }
            }
        },
        GvmServerEvent::NodeCommand(uid, command) => {
            let id: usize = uid as usize;
            if id > node_count {
                HandlerAction::Close
            } else {
                HandlerAction::SendCommand { index: id - 1, command }
            }
        },
        _ => HandlerAction::Ignore,
    }
}


/// A light named on the command line: its id and its Bluetooth address.
#[derive(Debug)]
pub struct NodeAddress {
    pub uid: usize,
    pub address: String,
}

/// Text that holds no comma.
pub open spec fn comma_free(s: Seq<char>) -> bool {
    forall|i: int| 0 <= i < s.len() ==> s[i] != ','
}

/// The fields written one after another with a comma between each two.
pub open spec fn comma_joined(fields: Seq<Seq<char>>) -> Seq<char>
    decreases fields.len(),
{
    if fields.len() == 0 {
        Seq::empty()
    } else if fields.len() == 1 {
        fields[0]
    } else {
        comma_joined(fields.drop_last()) + seq![','] + fields.last()
    }
}

/// The addresses of a list of lights, in order.
pub open spec fn address_texts(nodes: Seq<NodeAddress>) -> Seq<Seq<char>> {
    Seq::new(nodes.len(), |i: int| nodes[i].address@)
}

/// Reads a comma-separated list of Bluetooth addresses: one light per
/// field, numbered from 1 in the order given. Every field counts, an empty
/// one too.
pub fn node_addresses(nodes: &str) -> (res: Vec<NodeAddress>)
    requires
        nodes@.len() < usize::MAX,
    ensures
        res@.len() >= 1,
        comma_joined(address_texts(res@)) == nodes@,
        forall|i: int| 0 <= i < res@.len() ==> comma_free(#[trigger] res@[i].address@),
        forall|i: int| 0 <= i < res@.len() ==> #[trigger] res@[i].uid == i + 1,
{
    let n = nodes.unicode_len();
    let mut res: Vec<NodeAddress> = Vec::new();
    let mut start: usize = 0;
    let mut i: usize = 0;
    while i < n
        invariant
            n == nodes@.len(),
            start <= i <= n,
            res@.len() == 0 ==> start == 0,
            res@.len() > 0 ==> comma_joined(address_texts(res@)) + seq![','] == nodes@.subrange(0, start as int),
            comma_free(nodes@.subrange(start as int, i as int)),
            forall|k: int| 0 <= k < res@.len() ==> comma_free(#[trigger] res@[k].address@),
            forall|k: int| 0 <= k < res@.len() ==> #[trigger] res@[k].uid == k + 1,
            res@.len() <= start,
            n < usize::MAX,
        decreases n - i,
    {
        let c = nodes.get_char(i);
        if c == ',' {
            let field = nodes.substring_char(start, i).to_owned();
            let ghost before = res@;
            res.push(NodeAddress { uid: res.len() + 1, address: field });
            proof {
                let f = address_texts(res@);
                assert(f.drop_last() =~= address_texts(before));
                assert(comma_joined(f) =~= nodes@.subrange(0, i as int));
                assert(comma_joined(f) + seq![','] =~= nodes@.subrange(0, i + 1));
            }
            start = i + 1;
        } else {
            assert(nodes@.subrange(start as int, i + 1) =~= nodes@.subrange(start as int, i as int).push(c));
        }
        i += 1;
    }
    let last = nodes.substring_char(start, n).to_owned();
    let ghost before = res@;
    res.push(NodeAddress { uid: res.len() + 1, address: last });
    proof {
        let f = address_texts(res@);
        assert(f.drop_last() =~= address_texts(before));
        assert(comma_joined(f) =~= nodes@);
    }
    res
}

/// A request never names a light outside the server's list: the index that
/// an accepted request carries is below the node count.
pub proof fn lemma_action_index_in_range(node_count: usize, frame: GvmServerEvent)
    requires
        frame_ids_valid(frame),
    ensures
        action_for(node_count, frame) matches HandlerAction::QueryStatus { index, .. } ==> index < node_count,
        action_for(node_count, frame) matches HandlerAction::SendCommand { index, .. } ==> index < node_count,
{
}

/// A request for light `uid` goes to the light at position `uid - 1` of the
/// server's list, carrying the client's command unchanged, when there is
/// such a light; a request naming a light past the end closes the
/// connection; a count request is answered with the count.
pub proof fn lemma_requests_address_named_light(node_count: usize, uid: u8, command: GvmNodeCommand)
    requires
        uid != 0,
    ensures
        uid <= node_count ==> (action_for(node_count, GvmServerEvent::NodeCommand(uid, command)) matches
            HandlerAction::SendCommand { index, command: sent } && index + 1 == uid && sent == command),
        uid <= node_count ==> (action_for(node_count, GvmServerEvent::GetNodeStatus(uid)) matches
            HandlerAction::QueryStatus { uid: asked, index } && index + 1 == uid && asked == uid),
        uid > node_count ==> action_for(node_count, GvmServerEvent::NodeCommand(uid, command))
            == HandlerAction::Close,
        uid > node_count ==> action_for(node_count, GvmServerEvent::GetNodeStatus(uid))
            == HandlerAction::Close,
        action_for(node_count, GvmServerEvent::GetNodeCount) matches HandlerAction::Reply(
            GvmServerEvent::NodeCount(n),
        ) && n as int == node_count as int % 256,
{
    assert((node_count as u8) as int == node_count as int % 256) by (bit_vector);
}

} // verus!
