//! The base nodes that the wallet can follow, and the one it follows.

use crate::comms::peer::{Peer, PeerView};
use crate::wallet::app_state::UiError;
use multiaddr::Multiaddr;
use vstd::prelude::*;

verus! {

/// The base nodes that the wallet is configured with.
#[derive(Debug)]
pub struct PeerConfig {
    pub base_node_custom: Option<Peer>,
    pub base_node_peers: Vec<Peer>,
    pub peer_seeds: Vec<Peer>,
}

/// A base node in the list that the user chooses from, under its label.
#[derive(Debug, PartialEq, Eq)]
pub struct LabelledPeer {
    pub label: String,
    pub peer: Peer,
}

/// A labelled base node, as the contracts speak of it.
pub struct LabelledPeerView {
    pub label: Seq<char>,
    pub peer: PeerView,
}

impl View for LabelledPeer {
    type V = LabelledPeerView;

    open spec fn view(&self) -> LabelledPeerView {
        LabelledPeerView { label: self.label@, peer: self.peer@ }
    }
}

/// The peers of a list, each under the same label.
pub open spec fn labelled(peers: Seq<Peer>, label: Seq<char>) -> Seq<LabelledPeerView> {
    Seq::new(peers.len(), |i: int| LabelledPeerView { label, peer: peers[i]@ })
}

/// The views of a list of labelled peers.
pub open spec fn labelled_views(list: Seq<LabelledPeer>) -> Seq<LabelledPeerView> {
    Seq::new(list.len(), |i: int| list[i]@)
}

/// The entry of a custom base node in the list.
pub open spec fn custom_entry(peer: PeerView) -> LabelledPeerView {
    LabelledPeerView { label: "Custom Base Node"@, peer }
}

/// The list that the user chooses a base node from: the custom base node
/// first, if there is one, then the configured base nodes, then the seeds.
pub open spec fn configured_list(config: &PeerConfig) -> Seq<LabelledPeerView> {
    let rest = labelled(config.base_node_peers@, "Service Peer"@) + labelled(
        config.peer_seeds@,
        "Peer Seed"@,
    );
    match config.base_node_custom {
        Some(custom) => seq![custom_entry(custom@)] + rest,
        None => rest,
    }
}

/// The address under which the wallet reaches a base node: the first that
/// the node has. A node without an address cannot be followed.
pub fn first_address(peer: &Peer) -> (address: Result<Multiaddr, UiError>)
    ensures
        address == if peer.addresses@.len() > 0 {
            Ok::<Multiaddr, UiError>(peer.addresses@[0])
        } else {
            Err::<Multiaddr, UiError>(UiError::NoAddressError)
        },
{
    if peer.addresses.len() > 0 {
        Ok(peer.addresses[0].clone())
    } else {
        Err(UiError::NoAddressError)
    }
}

/// Which base node the wallet follows, which it followed before, and which
/// it offers to follow.
#[derive(Debug)]
pub struct BaseNodeSelection {
    pub selected: Peer,
    pub previous: Peer,
    pub list: Vec<LabelledPeer>,
    pub custom: Option<Peer>,
}

/// The view of an optional peer.
pub open spec fn optional_view(peer: Option<Peer>) -> Option<PeerView> {
    match peer {
        Some(peer) => Some(peer@),
        None => None,
    }
}

fn append_labelled(list: &mut Vec<LabelledPeer>, peers: &Vec<Peer>, label: &str)
    ensures
        labelled_views(final(list)@) == labelled_views(old(list)@) + labelled(peers@, label@),
{
    let ghost before = labelled_views(list@);
    let mut i: usize = 0;
    assert(labelled_views(list@) =~= before + labelled(peers@.take(0), label@));
    while i < peers.len()
        invariant
            i <= peers.len(),
            labelled_views(list@) == before + labelled(peers@.take(i as int), label@),
        decreases peers.len() - i,
    {
        let ghost so_far = labelled_views(list@);
        let entry = LabelledPeer { label: label.to_owned(), peer: peers[i].clone() };
        let ghost view = entry@;
        list.push(entry);
        proof {
            assert(labelled_views(list@) =~= so_far.push(view));
            assert(labelled(peers@.take(i + 1), label@) =~= labelled(
                peers@.take(i as int),
                label@,
            ).push(view));
            assert(before + labelled(peers@.take(i as int), label@).push(view) =~= (before
                + labelled(peers@.take(i as int), label@)).push(view));
        }
        i += 1;
    }
    assert(peers@.take(i as int) =~= peers@);
}

impl BaseNodeSelection {
    /// The selection of a wallet that starts: it follows the base node it
    /// is given, has followed no other, and offers the configured ones.
    pub fn new(base_node_selected: Peer, base_node_config: PeerConfig) -> (selection: Self)
        ensures
            selection.selected@ == base_node_selected@,
            selection.previous@ == base_node_selected@,
            labelled_views(selection.list@) == configured_list(&base_node_config),
            optional_view(selection.custom) == optional_view(base_node_config.base_node_custom),
    {
        let base_node_previous = base_node_selected.clone();
        let mut base_node_list: Vec<LabelledPeer> = Vec::new();
        assert(labelled_views(base_node_list@) =~= Seq::<LabelledPeerView>::empty());
        // the custom base node comes first, if there is one
        match &base_node_config.base_node_custom {
            Some(peer) => {
                let entry = LabelledPeer {
                    label: "Custom Base Node".to_owned(),
                    peer: peer.clone(),
                };
                let ghost view = entry@;
                base_node_list.push(entry);
                assert(labelled_views(base_node_list@) =~= seq![view]);
            },
            None => {},
        }
        // then the base nodes of the configuration
        append_labelled(&mut base_node_list, &base_node_config.base_node_peers, "Service Peer");
        // and the peer seeds
        append_labelled(&mut base_node_list, &base_node_config.peer_seeds, "Peer Seed");
        proof {
            let peers = labelled(base_node_config.base_node_peers@, "Service Peer"@);
            let seeds = labelled(base_node_config.peer_seeds@, "Peer Seed"@);
            match &base_node_config.base_node_custom {
                Some(custom) => {
                    assert((seq![custom_entry(custom@)] + peers) + seeds =~= seq![
                        custom_entry(custom@),
                    ] + (peers + seeds));
                },
                None => {
                    assert((Seq::<LabelledPeerView>::empty() + peers) + seeds =~= peers + seeds);
                },
            }
        }
        BaseNodeSelection {
            selected: base_node_selected,
            previous: base_node_previous,
            list: base_node_list,
            custom: base_node_config.base_node_custom,
        }
    }

    /// Follows another base node; the one that was followed is remembered.
    pub fn set_base_node_peer(&mut self, peer: Peer)
        ensures
            final(self).previous == old(self).selected,
            final(self).selected == peer,
            final(self).list == old(self).list,
            final(self).custom == old(self).custom,
    {
        let mut incoming = peer;
        core::mem::swap(&mut self.selected, &mut incoming);
        self.previous = incoming;
    }

    /// Follows a base node that the user named: it becomes the custom base
    /// node and is offered first in the list.
    pub fn set_custom_base_node_peer(&mut self, peer: Peer)
        ensures
            final(self).previous == old(self).selected,
            final(self).selected@ == peer@,
            optional_view(final(self).custom) == Some(peer@),
            labelled_views(final(self).list@) == seq![custom_entry(peer@)] + labelled_views(
                old(self).list@,
            ),
    {
        let ghost before = labelled_views(self.list@);
        let selected = peer.clone();
        let listed = peer.clone();
        let mut incoming = selected;
        core::mem::swap(&mut self.selected, &mut incoming);
        self.previous = incoming;
        self.custom = Some(peer);
        let entry = LabelledPeer { label: "Custom Base Node".to_owned(), peer: listed };
        self.list.insert(0, entry);
        assert(labelled_views(self.list@) =~= seq![custom_entry(peer@)] + before);
    }

    /// Gives up the custom base node and follows the one that was followed
    /// before: the first entry leaves the list.
    pub fn clear_custom_base_node_peer(&mut self)
        requires
            old(self).list@.len() > 0,
        ensures
            final(self).custom is None,
            final(self).selected@ == old(self).previous@,
            final(self).previous == old(self).previous,
            labelled_views(final(self).list@) == labelled_views(old(self).list@).drop_first(),
    {
        let ghost before = labelled_views(self.list@);
        let previous = self.previous.clone();
        self.custom = None;
        self.selected = previous;
        self.list.remove(0);
        assert(labelled_views(self.list@) =~= before.drop_first());
    }
}

} // verus!
