//! Blob topics on a gossip network, and the peers that they yield.

use vstd::prelude::*;

verus! {

/// The identity of a node, its public key.
#[derive(Debug, Clone, Copy, PartialEq, Eq, Hash)]
pub struct NodeId(pub [u8; 32]);

/// The identity of a gossip topic.
#[derive(Debug, Clone, Copy, PartialEq, Eq, Hash)]
pub struct TopicId(pub [u8; 32]);

/// The topic of a blob that is addressed by its hash.
#[derive(Debug, Clone, Copy, PartialEq, Eq, Hash)]
pub struct HashTopic {
    pub id: TopicId,
}

/// The topic of a blob that is addressed by a tag.
#[derive(Debug, Clone, Copy, PartialEq, Eq, Hash)]
pub struct TagTopic {
    pub id: TopicId,
}

/// The topic of a blob, addressed either by hash or by tag.
#[derive(Debug, Clone, Copy, PartialEq, Eq, Hash)]
pub enum BlobTopic {
    Hash(HashTopic),
    Tag(TagTopic),
}

impl BlobTopic {
    /// The identity of the topic.
    pub open spec fn id(self) -> TopicId {
        match self {
            BlobTopic::Hash(hash_topic) => hash_topic.id,
            BlobTopic::Tag(tag_topic) => tag_topic.id,
        }
    }

    /// The identity of the topic.
    pub fn to_id(&self) -> (r: TopicId)
        ensures
            r == self.id(),
    {
        match self {
            BlobTopic::Hash(hash_topic) => hash_topic.id,
            BlobTopic::Tag(tag_topic) => tag_topic.id,
        }
    }
}

impl From<HashTopic> for BlobTopic {
    fn from(topic: HashTopic) -> (r: Self) {
        BlobTopic::Hash(topic)
    }
}

impl vstd::std_specs::convert::FromSpecImpl<HashTopic> for BlobTopic {
    open spec fn obeys_from_spec() -> bool {
        true
    }

    open spec fn from_spec(topic: HashTopic) -> Self {
        BlobTopic::Hash(topic)
    }
}

impl From<TagTopic> for BlobTopic {
    fn from(topic: TagTopic) -> (r: Self) {
        BlobTopic::Tag(topic)
    }
}

impl vstd::std_specs::convert::FromSpecImpl<TagTopic> for BlobTopic {
    open spec fn obeys_from_spec() -> bool {
        true
    }

    open spec fn from_spec(topic: TagTopic) -> Self {
        BlobTopic::Tag(topic)
    }
}

/// A message on a blob topic.
#[derive(Debug, Clone, Copy, PartialEq, Eq)]
pub enum GossipMsg {
    /// A message about a tag.
    Tag,
    /// The node has the blob of the hash.
    Hash { node_id: NodeId },
}

/// What a gossip topic yields.
#[derive(Debug, PartialEq, Eq)]
pub enum GossipItem {
    /// The topic is closed.
    Closed,
    /// The topic failed, for this error.
    Failed(String),
    /// An event other than a message.
    OtherEvent,
    /// A message that cannot be understood, for this error.
    Garbled(String),
    /// A message.
    Received(GossipMsg),
}

/// What an item of the topic means for whoever listens for peers.
#[derive(Debug, PartialEq, Eq)]
pub enum PeerStep {
    /// A peer.
    Peer(NodeId),
    /// Nothing: there is more to come.
    Skip,
    /// There is no more to come.
    Stop,
}

/// What an item means: a hash message names a peer, the end and the failure of
/// the topic end the listening, and anything else is passed over.
pub open spec fn peer_step(item: GossipItem) -> PeerStep {
    match item {
        GossipItem::Closed => PeerStep::Stop,
        GossipItem::Failed(_) => PeerStep::Stop,
        GossipItem::Received(GossipMsg::Hash { node_id }) => PeerStep::Peer(node_id),
        _ => PeerStep::Skip,
    }
}

/// A subscription to a topic: its identity, and the nodes to join it by.
#[derive(Debug)]
pub struct Subscription {
    pub topic_id: TopicId,
    pub bootstrap_nodes: Vec<NodeId>,
}

/// A client of the gossip network.
#[derive(Debug, Clone)]
pub struct Client {
    pub bootstrap_nodes: Vec<NodeId>,
}

impl Client {
    /// The subscription by which to listen for the peers of a topic.
    pub fn listen_for_peers(&self, topic: BlobTopic) -> (r: Subscription)
        ensures
            r.topic_id == topic.id(),
            r.bootstrap_nodes@ == self.bootstrap_nodes@,
    {
        let mut bootstrap_nodes: Vec<NodeId> = Vec::new();
        for i in 0..self.bootstrap_nodes.len()
            invariant
                bootstrap_nodes@ == self.bootstrap_nodes@.take(i as int),
        {
            bootstrap_nodes.push(self.bootstrap_nodes[i]);
        }
        assert(self.bootstrap_nodes@.take(self.bootstrap_nodes@.len() as int)
            =~= self.bootstrap_nodes@);
        Subscription { topic_id: topic.to_id(), bootstrap_nodes }
    }
}

impl Subscription {
    /// Takes an item that the topic yields. Messages about tags are not understood yet.
    pub fn on_item(item: &GossipItem) -> (r: PeerStep)
        requires
            *item != GossipItem::Received(GossipMsg::Tag),
        ensures
            r == peer_step(*item),
    {
        match item {
            GossipItem::Closed => PeerStep::Stop,
            GossipItem::Failed(_) => PeerStep::Stop,
            GossipItem::OtherEvent => PeerStep::Skip,
            GossipItem::Garbled(_) => PeerStep::Skip,
            GossipItem::Received(GossipMsg::Hash { node_id }) => PeerStep::Peer(*node_id),
            GossipItem::Received(GossipMsg::Tag) => PeerStep::Skip,
        }
    }
}

/// The peers that a topic yields with its items.
pub open spec fn peers(items: Seq<GossipItem>) -> Seq<NodeId>
    decreases items.len(),
{
    if items.len() == 0 {
        Seq::empty()
    } else {
        match peer_step(items[0]) {
            PeerStep::Peer(node_id) => seq![node_id] + peers(items.drop_first()),
            PeerStep::Skip => peers(items.drop_first()),
            PeerStep::Stop => Seq::empty(),
        }
    }
}

/// None of the items ends the listening.
pub open spec fn unending(items: Seq<GossipItem>) -> bool {
    forall|i: int| 0 <= i < items.len() ==> !(peer_step(#[trigger] items[i]) is Stop)
}

/// Peers come in the order of the items and each for itself: what comes later
/// does not change what came before.
pub proof fn law_peers_come_in_order(before: Seq<GossipItem>, after: Seq<GossipItem>)
    requires
        unending(before),
    ensures
        peers(before + after) == peers(before) + peers(after),
    decreases before.len(),
{
    if before.len() == 0 {
        assert(before + after =~= after);
        assert(peers(before) + peers(after) =~= peers(after));
    } else {
        let rest = before.drop_first();
        assert((before + after)[0] == before[0]);
        assert((before + after).drop_first() =~= rest + after);
        assert forall|i: int| 0 <= i < rest.len() implies !(peer_step(#[trigger] rest[i])
             is Stop) by {
            assert(rest[i] == before[i + 1]);
        }
        law_peers_come_in_order(rest, after);
        assert(!(peer_step(before[0]) is Stop));
        assert(peers(before + after) =~= peers(before) + peers(after));
    }
}

/// Nothing comes after the end or the failure of the topic.
pub proof fn law_nothing_follows_the_end(
    before: Seq<GossipItem>,
    end: GossipItem,
    after: Seq<GossipItem>,
)
    requires
        unending(before),
        end is Closed || end is Failed,
    ensures
        peers(before.push(end) + after) == peers(before),
{
    let tail = seq![end] + after;
    assert(before.push(end) + after =~= before + tail);
    law_peers_come_in_order(before, tail);
    assert(tail[0] == end);
    assert(peers(before) + peers(tail) =~= peers(before));
}

/// Events other than messages, and messages that cannot be understood, do not
/// change which peers come.
pub proof fn law_other_items_are_passed_over(
    before: Seq<GossipItem>,
    item: GossipItem,
    after: Seq<GossipItem>,
)
    requires
        unending(before),
        item is OtherEvent || item is Garbled,
    ensures
        peers(before.push(item) + after) == peers(before + after),
{
    let tail = seq![item] + after;
    assert(before.push(item) + after =~= before + tail);
    law_peers_come_in_order(before, tail);
    law_peers_come_in_order(before, after);
    assert(tail[0] == item);
    assert(tail.drop_first() =~= after);
}

/// A message of a hash yields the node that it names and no other; the end and
/// the failure of the topic end the listening, and nothing else does.
pub proof fn law_a_hash_names_its_node(
    node_id: NodeId,
    peer: PeerStep,
    item: GossipItem,
    step: PeerStep,
)
    requires
        call_ensures(
            Subscription::on_item,
            (&GossipItem::Received(GossipMsg::Hash { node_id }),),
            peer,
        ),
        call_ensures(Subscription::on_item, (&item,), step),
    ensures
        peer == PeerStep::Peer(node_id),
        step is Stop <==> item is Closed || item is Failed,
        step is Peer ==> item == GossipItem::Received(GossipMsg::Hash { node_id: step->Peer_0 }),
        item is OtherEvent || item is Garbled ==> step is Skip,
{
}

/// One more message of a hash yields one more peer, the node that it names,
/// behind those that came before.
pub proof fn law_each_hash_yields_one_peer(before: Seq<GossipItem>, node_id: NodeId)
    requires
        unending(before),
    ensures
        peers(before.push(GossipItem::Received(GossipMsg::Hash { node_id }))) == peers(
            before,
        ).push(node_id),
{
    let item = GossipItem::Received(GossipMsg::Hash { node_id });
    let last = seq![item];
    assert(before.push(item) =~= before + last);
    law_peers_come_in_order(before, last);
    reveal_with_fuel(peers, 2);
    assert(last.drop_first() =~= Seq::empty());
    assert(peers(last) =~= seq![node_id]);
}

/// A topic is joined under its own identity, by all of the nodes to join by,
/// in their order, whether a hash or a tag addresses its blob.
pub proof fn law_topics_are_joined_by_their_id(
    client: Client,
    by_hash: HashTopic,
    by_tag: TagTopic,
    hash_topic: BlobTopic,
    tag_topic: BlobTopic,
    hash_id: TopicId,
    hash: Subscription,
    tag: Subscription,
)
    requires
        hash_topic == BlobTopic::Hash(by_hash),
        tag_topic == BlobTopic::Tag(by_tag),
        call_ensures(BlobTopic::to_id, (&hash_topic,), hash_id),
        call_ensures(Client::listen_for_peers, (&client, hash_topic), hash),
        call_ensures(Client::listen_for_peers, (&client, tag_topic), tag),
    ensures
        hash_id == by_hash.id,
        hash.topic_id == by_hash.id,
        tag.topic_id == by_tag.id,
        hash.bootstrap_nodes@ == client.bootstrap_nodes@,
        tag.bootstrap_nodes@ == client.bootstrap_nodes@,
{
}

} // verus!
