//! Trust-on-first-use peer store.
//!
//! Peers are keyed by their 32-byte Ed25519 public key; each entry also
//! carries the key as 64 hex characters, the name seen at pairing time and
//! the pairing timestamp. The on-disk form (`known_peers.toml`, a list of
//! `[[peer]]` tables) is read and written around this type: a file's peers
//! become a store by [`PeerStore::from_file_peers`], and a store's peers go
//! back to the file by [`PeerStore::iter`].
use vstd::prelude::*;
use crate::assoc::{assoc_map, assoc_unique, lemma_assoc_dom, lemma_assoc_index, lemma_assoc_len, lemma_assoc_push_unique, lemma_assoc_remove, lemma_assoc_update};
use crate::digest::bytes32_equal;
use crate::hexcodec::{hex_decode, hex_encode, law_hex_round_trip, spec_hex_decode, spec_hex_encode};

verus! {

/// One trusted peer entry.
#[derive(Clone, Debug)]
pub struct KnownPeer {
    /// Human-readable name as seen at pair time.
    pub name: String,
    /// Hex-encoded Ed25519 public key.
    pub pubkey: String,
    /// Unix timestamp of pairing.
    pub paired_at: u64,
}

/// A peer entry as plain values.
pub struct KnownPeerModel {
    pub name: Seq<char>,
    pub pubkey: Seq<char>,
    pub paired_at: u64,
}

impl View for KnownPeer {
    type V = KnownPeerModel;

    open spec fn view(&self) -> KnownPeerModel {
        KnownPeerModel { name: self.name@, pubkey: self.pubkey@, paired_at: self.paired_at }
    }
}

impl KnownPeer {
    /// A field-by-field copy.
    pub fn duplicate(&self) -> (p: KnownPeer)
        ensures
            p@ == self@,
    {
        KnownPeer { name: self.name.clone(), pubkey: self.pubkey.clone(), paired_at: self.paired_at }
    }
}

/// The key of a file entry: its `pubkey` text decoded from hex, when that
/// gives exactly 32 bytes.
pub open spec fn spec_peer_key(p: KnownPeerModel) -> Option<Seq<u8>> {
    match spec_hex_decode(p.pubkey) {
        Some(b) => if b.len() == 32 { Some(b) } else { None },
        None => None,
    }
}

/// The keyed entries of a file's peers, in file order: each peer whose key
/// decodes, the others dropped.
pub open spec fn spec_file_pairs(peers: Seq<KnownPeerModel>) -> Seq<(Seq<u8>, KnownPeerModel)>
    decreases peers.len(),
{
    if peers.len() == 0 {
        Seq::empty()
    } else {
        let rest = spec_file_pairs(peers.drop_last());
        match spec_peer_key(peers.last()) {
            Some(k) => rest.push((k, peers.last())),
            None => rest,
        }
    }
}

/// The trusted peers a store file describes: a later entry with the same
/// key replaces an earlier one.
pub open spec fn spec_file_peers(peers: Seq<KnownPeerModel>) -> Map<Seq<u8>, KnownPeerModel> {
    assoc_map(spec_file_pairs(peers))
}

/// The entry that pairing with `pubkey` under `name` at `paired_at` records.
pub open spec fn spec_new_peer(pubkey: Seq<u8>, name: Seq<char>, paired_at: u64) -> KnownPeerModel {
    KnownPeerModel { name, pubkey: spec_hex_encode(pubkey), paired_at }
}

/// In-memory view of trusted peers, keyed by public key.
pub struct PeerStore {
    entries: Vec<([u8; 32], KnownPeer)>,
}

/// The entries as key/value pairs of plain values.
pub open spec fn spec_entry_pairs(e: Seq<([u8; 32], KnownPeer)>) -> Seq<(Seq<u8>, KnownPeerModel)> {
    e.map_values(|x: ([u8; 32], KnownPeer)| (x.0@, x.1@))
}

impl View for PeerStore {
    type V = Map<Seq<u8>, KnownPeerModel>;

    closed spec fn view(&self) -> Map<Seq<u8>, KnownPeerModel> {
        assoc_map(spec_entry_pairs(self.entries@))
    }
}

/// Every value stored under a key carries that key as its hex text.
pub open spec fn spec_keys_match(m: Map<Seq<u8>, KnownPeerModel>) -> bool {
    forall|k: Seq<u8>| #[trigger] m.dom().contains(k) ==> spec_peer_key(m[k]) == Some(k)
}

/// What holds of every store: finitely many peers, each entry carrying
/// its own key as hex text.
pub open spec fn spec_peers_valid(m: Map<Seq<u8>, KnownPeerModel>) -> bool {
    &&& m.dom().finite()
    &&& spec_keys_match(m)
}

impl PeerStore {
    #[verifier::type_invariant]
    closed spec fn inv(&self) -> bool {
        let p = spec_entry_pairs(self.entries@);
        &&& assoc_unique(p)
        &&& forall|i: int| 0 <= i < p.len() ==> #[trigger] spec_peer_key(p[i].1) == Some(p[i].0)
    }

    proof fn lemma_view_facts(&self)
        requires
            self.inv(),
        ensures
            spec_keys_match(self@),
            self@.dom().finite(),
            self@.dom().len() == self.entries@.len(),
    {
        let p = spec_entry_pairs(self.entries@);
        lemma_assoc_len(p);
        assert forall|k: Seq<u8>| #[trigger] self@.dom().contains(k) implies spec_peer_key(self@[k]) == Some(k) by {
            lemma_assoc_dom(p, k);
            let i = choose|i: int| 0 <= i < p.len() && p[i].0 == k;
            lemma_assoc_index(p, i);
        }
    }

    /// An empty store (no file yet).
    pub fn new() -> (s: PeerStore)
        ensures
            s@ == Map::<Seq<u8>, KnownPeerModel>::empty(),
            spec_peers_valid(s@),
    {
        let s = PeerStore { entries: Vec::new() };
        assert(spec_entry_pairs(s.entries@) =~= Seq::empty());
        assert(s@ =~= Map::<Seq<u8>, KnownPeerModel>::empty());
        assert(s@.dom() =~= Set::<Seq<u8>>::empty());
        s
    }

    fn find(&self, pubkey: &[u8; 32]) -> (r: Option<usize>)
        ensures
            match r {
                Some(i) => i < self.entries@.len() && self.entries@[i as int].0@ == pubkey@,
                None => forall|j: int| 0 <= j < self.entries@.len() ==> self.entries@[j].0@ != pubkey@,
            },
    {
        let mut i: usize = 0;
        while i < self.entries.len()
            invariant
                0 <= i <= self.entries@.len(),
                forall|j: int| 0 <= j < i ==> self.entries@[j].0@ != pubkey@,
            decreases self.entries.len() - i,
        {
            if bytes32_equal(&self.entries[i].0, pubkey) {
                return Some(i);
            }
            i = i + 1;
        }
        None
    }

    /// The store that a file's peer list describes: entries whose `pubkey`
    /// is not 64 hex characters are skipped, and a later entry for the same
    /// key replaces an earlier one.
    pub fn from_file_peers(peers: Vec<KnownPeer>) -> (s: PeerStore)
        ensures
            s@ == spec_file_peers(peers@.map_values(|p: KnownPeer| p@)),
            spec_peers_valid(s@),
    {
        let ghost pm = peers@.map_values(|p: KnownPeer| p@);
        let mut s = PeerStore::new();
        let mut i: usize = 0;
        while i < peers.len()
            invariant
                0 <= i <= peers@.len(),
                pm == peers@.map_values(|p: KnownPeer| p@),
                s@ == spec_file_peers(pm.take(i as int)),
                spec_peers_valid(s@),
            decreases peers.len() - i,
        {
            let p = &peers[i];
            let ghost pre = pm.take(i as int);
            assert(pm.take(i + 1).drop_last() =~= pre);
            assert(pm.take(i + 1).last() == p@);
            match hex_decode(p.pubkey.as_str()) {
                Some(bytes) => {
                    if bytes.len() == 32 {
                        let mut key = [0u8; 32];
                        let mut j: usize = 0;
                        while j < 32
                            invariant
                                0 <= j <= 32,
                                bytes@.len() == 32,
                                forall|q: int| 0 <= q < j ==> key@[q] == bytes@[q],
                            decreases 32 - j,
                        {
                            key[j] = bytes[j];
                            j = j + 1;
                        }
                        assert(key@ =~= bytes@);
                        s.put(key, p.duplicate());
                        assert(spec_file_pairs(pm.take(i + 1)) == spec_file_pairs(pre).push((key@, p@)));
                        assert(spec_file_pairs(pre).push((key@, p@)).drop_last() =~= spec_file_pairs(pre));
                    } else {
                        assert(spec_file_pairs(pm.take(i + 1)) == spec_file_pairs(pre));
                    }
                },
                None => {
                    assert(spec_file_pairs(pm.take(i + 1)) == spec_file_pairs(pre));
                },
            }
            i = i + 1;
        }
        assert(pm.take(peers@.len() as int) =~= pm);
        s
    }

    /// Set `pubkey`'s entry to `peer`, whose text must name that key.
    fn put(&mut self, pubkey: [u8; 32], peer: KnownPeer)
        requires
            spec_peer_key(peer@) == Some(pubkey@),
        ensures
            final(self)@ == old(self)@.insert(pubkey@, peer@),
            spec_peers_valid(final(self)@),
    {
        proof { use_type_invariant(&*self); }
        let ghost pairs = spec_entry_pairs(self.entries@);
        let found = self.find(&pubkey);
        let mut v: Vec<([u8; 32], KnownPeer)> = Vec::new();
        std::mem::swap(&mut v, &mut self.entries);
        match found {
            Some(i) => {
                proof { lemma_assoc_update(pairs, i as int, peer@); }
                v.set(i, (pubkey, peer));
                assert(spec_entry_pairs(v@) =~= pairs.update(i as int, (pairs[i as int].0, v@[i as int].1@)));
            },
            None => {
                proof { lemma_assoc_push_unique(pairs, pubkey@, peer@); }
                v.push((pubkey, peer));
                assert(spec_entry_pairs(v@) =~= pairs.push((pubkey@, v@.last().1@)));
            },
        }
        self.entries = v;
        proof {
            use_type_invariant(&*self);
            self.lemma_view_facts();
        }
    }

    /// True if we have already paired with `pubkey`.
    pub fn is_known(&self, pubkey: &[u8; 32]) -> (r: bool)
        ensures
            r == self@.dom().contains(pubkey@),
    {
        let found = self.find(pubkey);
        proof { lemma_assoc_dom(spec_entry_pairs(self.entries@), pubkey@); }
        match found {
            Some(i) => {
                assert(spec_entry_pairs(self.entries@)[i as int].0 == pubkey@);
                true
            },
            None => false,
        }
    }

    /// Look up a paired peer.
    pub fn get(&self, pubkey: &[u8; 32]) -> (r: Option<&KnownPeer>)
        ensures
            match r {
                Some(p) => self@.dom().contains(pubkey@) && p@ == self@[pubkey@],
                None => !self@.dom().contains(pubkey@),
            },
    {
        proof { use_type_invariant(self); }
        let found = self.find(pubkey);
        proof { lemma_assoc_dom(spec_entry_pairs(self.entries@), pubkey@); }
        match found {
            Some(i) => {
                proof { lemma_assoc_index(spec_entry_pairs(self.entries@), i as int); }
                Some(&self.entries[i].1)
            },
            None => None,
        }
    }

    /// Number of trusted peers.
    pub fn len(&self) -> (n: usize)
        ensures
            n == self@.len(),
            spec_peers_valid(self@),
    {
        proof {
            use_type_invariant(self);
            self.lemma_view_facts();
        }
        self.entries.len()
    }

    /// True if the store is empty.
    pub fn is_empty(&self) -> (r: bool)
        ensures
            r == (self@.len() == 0),
            spec_peers_valid(self@),
    {
        self.len() == 0
    }

    /// All peers, each once, in unspecified order.
    pub fn iter(&self) -> (v: Vec<KnownPeer>)
        ensures
            spec_peers_valid(self@),
            v@.len() == self@.len(),
            forall|i: int| 0 <= i < v@.len() ==> (#[trigger] spec_peer_key(v@[i]@) matches Some(k)
                && self@.dom().contains(k) && self@[k] == v@[i]@),
            forall|i: int, j: int| 0 <= i < j < v@.len() ==> spec_peer_key(#[trigger] v@[i]@) != spec_peer_key(#[trigger] v@[j]@),
    {
        proof {
            use_type_invariant(self);
            self.lemma_view_facts();
        }
        let ghost pairs = spec_entry_pairs(self.entries@);
        let mut v: Vec<KnownPeer> = Vec::new();
        let mut i: usize = 0;
        while i < self.entries.len()
            invariant
                0 <= i <= self.entries@.len(),
                pairs == spec_entry_pairs(self.entries@),
                assoc_unique(pairs),
                forall|q: int| 0 <= q < pairs.len() ==> #[trigger] spec_peer_key(pairs[q].1) == Some(pairs[q].0),
                v@.len() == i,
                forall|q: int| 0 <= q < i ==> #[trigger] v@[q]@ == pairs[q].1,
            decreases self.entries.len() - i,
        {
            v.push(self.entries[i].1.duplicate());
            i = i + 1;
        }
        assert forall|q: int| 0 <= q < v@.len() implies (#[trigger] spec_peer_key(v@[q]@) matches Some(k)
            && self@.dom().contains(k) && self@[k] == v@[q]@) by {
            assert(v@[q]@ == pairs[q].1);
            assert(spec_peer_key(pairs[q].1) == Some(pairs[q].0));
            lemma_assoc_index(pairs, q);
        }
        assert forall|a: int, b: int| 0 <= a < b < v@.len() implies spec_peer_key(#[trigger] v@[a]@) != spec_peer_key(#[trigger] v@[b]@) by {
            assert(v@[a]@ == pairs[a].1);
            assert(v@[b]@ == pairs[b].1);
            assert(spec_peer_key(pairs[a].1) == Some(pairs[a].0));
            assert(spec_peer_key(pairs[b].1) == Some(pairs[b].0));
        }
        v
    }

    /// Record a new (or re-paired) peer.
    pub fn insert(&mut self, pubkey: [u8; 32], name: String, paired_at: u64)
        ensures
            final(self)@ == old(self)@.insert(pubkey@, spec_new_peer(pubkey@, name@, paired_at)),
            spec_peers_valid(final(self)@),
    {
        let text = hex_encode(pubkey.as_slice());
        proof { law_hex_round_trip(pubkey@); }
        let peer = KnownPeer { name, pubkey: text, paired_at };
        self.put(pubkey, peer);
    }

    /// Forget a peer.
    pub fn remove(&mut self, pubkey: &[u8; 32])
        ensures
            final(self)@ == old(self)@.remove(pubkey@),
            spec_peers_valid(final(self)@),
    {
        proof { use_type_invariant(&*self); }
        let ghost pairs = spec_entry_pairs(self.entries@);
        let found = self.find(pubkey);
        match found {
            Some(i) => {
                let mut v: Vec<([u8; 32], KnownPeer)> = Vec::new();
                std::mem::swap(&mut v, &mut self.entries);
                proof { lemma_assoc_remove(pairs, i as int); }
                let _ = v.remove(i);
                assert(spec_entry_pairs(v@) =~= pairs.remove(i as int));
                self.entries = v;
            },
            None => {
                proof { lemma_assoc_dom(pairs, pubkey@); }
                assert(self@ =~= old(self)@.remove(pubkey@));
            },
        }
        proof {
            use_type_invariant(&*self);
            self.lemma_view_facts();
        }
    }
}

/// Law: forgetting a peer removes exactly that peer: the count drops by
/// one when it was known (and stays otherwise), it is no longer known, and
/// every other peer keeps its entry.
pub proof fn law_remove_forgets_one(m: Map<Seq<u8>, KnownPeerModel>, k: Seq<u8>)
    requires
        spec_peers_valid(m),
    ensures
        spec_peers_valid(m.remove(k)),
        m.remove(k).len() == if m.dom().contains(k) { m.len() - 1 } else { m.len() as int },
        !m.remove(k).dom().contains(k),
        forall|q: Seq<u8>| q != k ==> (#[trigger] m.remove(k).dom().contains(q) <==> m.dom().contains(q))
            && (m.dom().contains(q) ==> m.remove(k)[q] == m[q]),
{
    if !m.dom().contains(k) {
        assert(m.remove(k).dom() =~= m.dom());
    }
}

/// Law: once paired, a peer is known, and its entry records the name, the
/// key's hex text and the pairing time.
pub proof fn law_insert_then_known(m: Map<Seq<u8>, KnownPeerModel>, pubkey: Seq<u8>, name: Seq<char>, paired_at: u64)
    ensures
        m.insert(pubkey, spec_new_peer(pubkey, name, paired_at)).dom().contains(pubkey),
        m.insert(pubkey, spec_new_peer(pubkey, name, paired_at))[pubkey].name == name,
        m.insert(pubkey, spec_new_peer(pubkey, name, paired_at))[pubkey].paired_at == paired_at,
{
}

/// Law: what a store writes to its file reads back as the same store.
pub proof fn law_file_round_trip(m: Map<Seq<u8>, KnownPeerModel>, file: Seq<KnownPeerModel>)
    requires
        spec_keys_match(m),
        m.dom().finite(),
        file.len() == m.len(),
        forall|i: int| 0 <= i < file.len() ==> (#[trigger] spec_peer_key(file[i]) matches Some(k) && m.dom().contains(k) && m[k] == file[i]),
        forall|i: int, j: int| 0 <= i < j < file.len() ==> spec_peer_key(#[trigger] file[i]) != spec_peer_key(#[trigger] file[j]),
    ensures
        spec_file_peers(file) == m,
{
    lemma_file_pairs_exact(file);
    let p = spec_file_pairs(file);
    assert(assoc_unique(p)) by {
        assert forall|a: int, b: int| 0 <= a < b < p.len() implies p[a].0 != p[b].0 by {
            assert(spec_peer_key(file[a]) == Some(p[a].0));
            assert(spec_peer_key(file[b]) == Some(p[b].0));
        }
    }
    lemma_assoc_len(p);
    assert forall|k: Seq<u8>| #[trigger] m.dom().contains(k) implies spec_file_peers(file).dom().contains(k) && spec_file_peers(file)[k] == m[k] by {
        // The file's keys are |m| distinct keys of m, so they are all of m's keys.
        lemma_keys_cover(m, p, k);
        let i = choose|i: int| 0 <= i < p.len() && p[i].0 == k;
        lemma_assoc_index(p, i);
        assert(spec_peer_key(file[i]) == Some(k));
    }
    assert forall|k: Seq<u8>| #[trigger] spec_file_peers(file).dom().contains(k) implies m.dom().contains(k) by {
        lemma_assoc_dom(p, k);
        let i = choose|i: int| 0 <= i < p.len() && p[i].0 == k;
        assert(spec_peer_key(file[i]) == Some(k));
    }
    assert(spec_file_peers(file) =~= m);
}

/// When every entry's key decodes, the keyed entries are the entries.
proof fn lemma_file_pairs_exact(file: Seq<KnownPeerModel>)
    requires
        forall|i: int| 0 <= i < file.len() ==> (#[trigger] spec_peer_key(file[i])) is Some,
    ensures
        spec_file_pairs(file).len() == file.len(),
        forall|i: int| 0 <= i < file.len() ==> #[trigger] spec_file_pairs(file)[i] == (spec_peer_key(file[i])->0, file[i]),
    decreases file.len(),
{
    if file.len() > 0 {
        let d = file.drop_last();
        assert forall|i: int| 0 <= i < d.len() implies (#[trigger] spec_peer_key(d[i])) is Some by {
            assert(d[i] == file[i]);
        }
        lemma_file_pairs_exact(d);
        assert(spec_peer_key(file[file.len() - 1]) is Some);
        assert forall|i: int| 0 <= i < file.len() implies #[trigger] spec_file_pairs(file)[i] == (spec_peer_key(file[i])->0, file[i]) by {
            if i < file.len() - 1 {
                assert(d[i] == file[i]);
            }
        }
    }
}

/// `n` distinct keys of a finite map with `n` keys are all of its keys.
proof fn lemma_keys_cover(m: Map<Seq<u8>, KnownPeerModel>, p: Seq<(Seq<u8>, KnownPeerModel)>, k: Seq<u8>)
    requires
        m.dom().finite(),
        assoc_unique(p),
        p.len() == m.len(),
        forall|i: int| 0 <= i < p.len() ==> m.dom().contains(#[trigger] p[i].0),
        m.dom().contains(k),
    ensures
        exists|i: int| 0 <= i < p.len() && p[i].0 == k,
{
    let keys = assoc_map(p).dom();
    lemma_assoc_len(p);
    assert(keys.subset_of(m.dom())) by {
        assert forall|x: Seq<u8>| keys.contains(x) implies m.dom().contains(x) by {
            lemma_assoc_dom(p, x);
        }
    }
    vstd::set_lib::lemma_len_subset(keys, m.dom());
    if !keys.contains(k) {
        assert(keys.subset_of(m.dom().remove(k)));
        vstd::set_lib::lemma_len_subset(keys, m.dom().remove(k));
        assert(false);
    }
    lemma_assoc_dom(p, k);
}

} // verus!
