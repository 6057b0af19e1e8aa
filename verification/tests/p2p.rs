use orb_control::p2p::{
    BlobTopic, Client, GossipItem, GossipMsg, HashTopic, NodeId, PeerStep, Subscription, TagTopic,
    TopicId,
};

fn node(n: u8) -> NodeId {
    NodeId([n; 32])
}

fn hash(n: u8) -> GossipItem {
    GossipItem::Received(GossipMsg::Hash { node_id: node(n) })
}

/// The peers that come with the items.
fn peers(items: Vec<GossipItem>) -> Vec<NodeId> {
    let mut peers = vec![];
    for item in items {
        match Subscription::on_item(&item) {
            PeerStep::Peer(node_id) => peers.push(node_id),
            PeerStep::Skip => {}
            PeerStep::Stop => return peers,
        }
    }
    peers
}

#[test]
fn topics_keep_their_id() {
    let hash_topic = HashTopic { id: TopicId([1; 32]) };
    let tag_topic = TagTopic { id: TopicId([2; 32]) };
    assert_eq!(BlobTopic::from(hash_topic), BlobTopic::Hash(hash_topic));
    assert_eq!(BlobTopic::from(tag_topic), BlobTopic::Tag(tag_topic));
    assert_eq!(BlobTopic::from(hash_topic).to_id(), TopicId([1; 32]));
    assert_eq!(BlobTopic::from(tag_topic).to_id(), TopicId([2; 32]));
}

#[test]
fn topic_is_joined_by_the_bootstrap_nodes() {
    let client = Client { bootstrap_nodes: vec![node(3), node(4), node(3)] };
    let topic = HashTopic { id: TopicId([9; 32]) };
    let subscription = client.listen_for_peers(topic.into());
    assert_eq!(subscription.topic_id, TopicId([9; 32]));
    assert_eq!(subscription.bootstrap_nodes, client.bootstrap_nodes);
}

#[test]
fn each_item_has_its_meaning() {
    assert_eq!(Subscription::on_item(&hash(7)), PeerStep::Peer(node(7)));
    assert_eq!(Subscription::on_item(&GossipItem::OtherEvent), PeerStep::Skip);
    let garbled = GossipItem::Garbled("expected value".to_string());
    assert_eq!(Subscription::on_item(&garbled), PeerStep::Skip);
    assert_eq!(Subscription::on_item(&GossipItem::Closed), PeerStep::Stop);
    let failed = GossipItem::Failed("rpc".to_string());
    assert_eq!(Subscription::on_item(&failed), PeerStep::Stop);
}

#[test]
fn peers_come_in_order() {
    let garbled = || GossipItem::Garbled("expected value".to_string());
    assert_eq!(
        peers(vec![hash(2), GossipItem::OtherEvent, hash(1), garbled(), hash(2)]),
        vec![node(2), node(1), node(2)]
    );
}

#[test]
fn nothing_follows_the_end() {
    assert_eq!(peers(vec![hash(1), GossipItem::Closed, hash(2)]), vec![node(1)]);
    let failed = GossipItem::Failed("rpc".to_string());
    assert_eq!(peers(vec![failed, hash(2)]), vec![]);
}
