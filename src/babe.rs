use vstd::prelude::*;

verus! {

/// A public key of a block author (sr25519, 32 bytes).
pub type AuthorityId = [u8; 32];

/// The randomness of an epoch.
pub type Randomness = [u8; 32];

/// The hash of a block.
pub type BlockHash = [u8; 32];

/// The identifier of a consensus engine in a digest item.
pub type EngineId = [u8; 4];

/// The BABE engine identifier (`BABE`).
pub const BABE_ENGINE_ID: EngineId = [66, 65, 66, 69];

/// An authority with its weight.
#[derive(Clone, Copy, Debug)]
pub struct Authority {
    pub id: AuthorityId,
    pub weight: u64,
}

/// The public key of the well-known development account `Alice`.
pub const DEV_AUTHORITY_ID: AuthorityId = [
    212, 53, 147, 199, 21, 253, 211, 28, 97, 20, 26, 189, 4, 169, 159, 214,
    130, 44, 133, 88, 133, 76, 205, 227, 154, 86, 132, 231, 165, 109, 162, 125,
];

/// The weight given to the development authority when it is installed.
pub const DEV_AUTHORITY_WEIGHT: u64 = 1000;

/// The BABE configuration read from the chain's genesis state.
pub struct Config {
    /// Milliseconds per slot.
    pub slot_duration: u64,
    /// Slots per epoch.
    pub epoch_length: u64,
    pub genesis_authorities: Vec<Authority>,
    pub randomness: Randomness,
}

/// A run of slots that share one authority set and one randomness.
pub struct Epoch {
    pub epoch_index: u64,
    pub start_slot: u64,
    pub duration: u64,
    pub authorities: Vec<Authority>,
    pub randomness: Randomness,
}

/// An epoch as a mathematical value.
pub ghost struct EpochView {
    pub epoch_index: u64,
    pub start_slot: u64,
    pub duration: u64,
    pub authorities: Seq<Authority>,
    pub randomness: Randomness,
}

impl View for Epoch {
    type V = EpochView;

    open spec fn view(&self) -> EpochView {
        EpochView {
            epoch_index: self.epoch_index,
            start_slot: self.start_slot,
            duration: self.duration,
            authorities: self.authorities@,
            randomness: self.randomness,
        }
    }
}

/// Epoch zero, as the genesis configuration describes it, starting at `slot`.
pub open spec fn genesis_epoch(config: &Config, slot: u64) -> EpochView {
    EpochView {
        epoch_index: 0,
        start_slot: slot,
        duration: config.epoch_length,
        authorities: config.genesis_authorities@,
        randomness: config.randomness,
    }
}

/// Copies a list of authorities.
pub fn copy_authorities(v: &Vec<Authority>) -> (r: Vec<Authority>)
    ensures
        r@ == v@,
{
    let mut r: Vec<Authority> = Vec::new();
    let mut i: usize = 0;
    while i < v.len()
        invariant
            i <= v@.len(),
            r@ == v@.subrange(0, i as int),
        decreases v@.len() - i,
    {
        let a = v[i];
        r.push(Authority { id: a.id, weight: a.weight });
        i = i + 1;
        assert(r@ =~= v@.subrange(0, i as int));
    }
    assert(v@.subrange(0, v@.len() as int) =~= v@);
    r
}

impl Epoch {
    /// Epoch zero, built from the genesis configuration, starting at `slot`.
    pub fn genesis(config: &Config, slot: u64) -> (r: Epoch)
        ensures
            r@ == genesis_epoch(config, slot),
    {
        Epoch {
            epoch_index: 0,
            start_slot: slot,
            duration: config.epoch_length,
            authorities: copy_authorities(&config.genesis_authorities),
            randomness: config.randomness,
        }
    }

    /// A copy of this epoch.
    pub fn copy(&self) -> (r: Epoch)
        ensures
            r@ == self@,
    {
        Epoch {
            epoch_index: self.epoch_index,
            start_slot: self.start_slot,
            duration: self.duration,
            authorities: copy_authorities(&self.authorities),
            randomness: self.randomness,
        }
    }
}

/// Where an epoch stands in the epoch tree.
#[derive(Clone, Copy, Debug, PartialEq, Eq, Structural)]
pub enum EpochIdentifierPosition {
    Genesis0,
    Genesis1,
    Regular,
}

/// Names one node of the epoch tree: the block that signaled the epoch.
#[derive(Clone, Copy, Debug)]
pub struct EpochIdentifier {
    pub position: EpochIdentifierPosition,
    pub hash: BlockHash,
    pub number: u64,
}

/// The epoch-tree node that is viable for a block being built.
#[derive(Clone, Copy, Debug)]
pub enum EpochDescriptor {
    /// The genesis epoch, not imported yet, to start at this slot.
    UnimportedGenesis(u64),
    /// An epoch that a block has signaled.
    Signaled(EpochIdentifier),
}

/// One imported epoch of the tree.
pub struct EpochEntry {
    pub identifier: EpochIdentifier,
    pub epoch: Epoch,
}

/// The imported epochs, each under the identifier of the block that signaled it.
pub struct EpochChanges {
    pub epochs: Vec<EpochEntry>,
}

/// The epoch stored under `id`: the last entry that carries it.
pub open spec fn find_epoch(s: Seq<EpochEntry>, id: EpochIdentifier) -> Option<EpochView>
    decreases s.len(),
{
    if s.len() == 0 {
        None
    } else if s.last().identifier == id {
        Some(s.last().epoch@)
    } else {
        find_epoch(s.drop_last(), id)
    }
}

/// The epoch that a descriptor names: epoch zero from `config` for an
/// unimported genesis, else the stored epoch, if any.
pub open spec fn viable_epoch_spec(epochs: Seq<EpochEntry>, config: &Config, d: EpochDescriptor) -> Option<EpochView> {
    match d {
        EpochDescriptor::UnimportedGenesis(slot) => Some(genesis_epoch(config, slot)),
        EpochDescriptor::Signaled(id) => find_epoch(epochs, id),
    }
}

/// Compares two block hashes byte by byte.
pub fn hashes_equal(a: &BlockHash, b: &BlockHash) -> (r: bool)
    ensures
        r == (*a == *b),
{
    let mut i: usize = 0;
    while i < 32
        invariant
            i <= 32,
            forall|k: int| 0 <= k < i ==> a[k] == b[k],
        decreases 32 - i,
    {
        if a[i] != b[i] {
            return false;
        }
        i = i + 1;
    }
    assert(*a =~= *b);
    true
}

/// Compares two epoch identifiers.
pub fn identifiers_equal(a: &EpochIdentifier, b: &EpochIdentifier) -> (r: bool)
    ensures
        r == (*a == *b),
{
    a.position == b.position && a.number == b.number && hashes_equal(&a.hash, &b.hash)
}

impl EpochChanges {
    /// An epoch tree with no imported epoch.
    pub fn new() -> (r: EpochChanges)
        ensures
            r.epochs@.len() == 0,
    {
        EpochChanges { epochs: Vec::new() }
    }

    /// Records `epoch` under `identifier`.
    pub fn import(&mut self, identifier: EpochIdentifier, epoch: Epoch)
        ensures
            final(self).epochs@.len() == old(self).epochs@.len() + 1,
            final(self).epochs@.drop_last() == old(self).epochs@,
            final(self).epochs@.last().identifier == identifier,
            final(self).epochs@.last().epoch@ == epoch@,
    {
        self.epochs.push(EpochEntry { identifier, epoch });
        assert(self.epochs@.drop_last() =~= old(self).epochs@);
    }

    /// The epoch that `descriptor` names: epoch zero synthesized from `config`
    /// for an unimported genesis, else the stored epoch; `None` when the tree
    /// holds no epoch under the identifier.
    pub fn viable_epoch(&self, descriptor: &EpochDescriptor, config: &Config) -> (r: Option<Epoch>)
        ensures
            r.is_some() == viable_epoch_spec(self.epochs@, config, *descriptor).is_some(),
            r matches Some(e) ==> Some(e@) == viable_epoch_spec(self.epochs@, config, *descriptor),
    {
        match descriptor {
            EpochDescriptor::UnimportedGenesis(slot) => Some(Epoch::genesis(config, *slot)),
            EpochDescriptor::Signaled(id) => {
                let mut i: usize = self.epochs.len();
                assert(self.epochs@.subrange(0, i as int) =~= self.epochs@);
                while i > 0
                    invariant
                        i <= self.epochs@.len(),
                        *descriptor == EpochDescriptor::Signaled(*id),
                        find_epoch(self.epochs@, *id) == find_epoch(self.epochs@.subrange(0, i as int), *id),
                    decreases i,
                {
                    let ghost pre = self.epochs@.subrange(0, i as int);
                    assert(pre.drop_last() =~= self.epochs@.subrange(0, i - 1));
                    assert(pre.last() == self.epochs@[i - 1]);
                    if identifiers_equal(&self.epochs[i - 1].identifier, id) {
                        assert(find_epoch(pre, *id) == Some(self.epochs@[i - 1].epoch@));
                        return Some(self.epochs[i - 1].epoch.copy());
                    }
                    i = i - 1;
                }
                None
            },
        }
    }
}

/// The predigest that a block author puts in the header.
#[derive(Clone, Copy, Debug)]
pub enum PreDigest {
    /// A primary slot claim, with its VRF output and proof.
    Primary { authority_index: u32, slot_number: u64, vrf_output: [u8; 32], vrf_proof: [u8; 64] },
    /// A secondary claim with no VRF.
    SecondaryPlain { authority_index: u32, slot_number: u64 },
    /// A secondary claim with a VRF output and proof.
    SecondaryVRF { authority_index: u32, slot_number: u64, vrf_output: [u8; 32], vrf_proof: [u8; 64] },
}

/// The authorities and randomness of the next epoch.
pub struct NextEpochDescriptor {
    pub authorities: Vec<Authority>,
    pub randomness: Randomness,
}

/// A consensus log entry of BABE.
pub enum ConsensusLog {
    /// The data of the epoch that follows the current one.
    NextEpochData(NextEpochDescriptor),
}

/// One item of a header's digest.
pub enum DigestItem {
    /// A predigest, under an engine identifier.
    PreRuntime(EngineId, PreDigest),
    /// A consensus log entry, under an engine identifier.
    Consensus(EngineId, ConsensusLog),
}

/// The digest logs of a new block.
pub struct Digest {
    pub logs: Vec<DigestItem>,
}

/// `d` holds the claimed predigest alone.
pub open spec fn is_claimed_digest(d: &Digest, p: PreDigest) -> bool {
    &&& d.logs@.len() == 1
    &&& d.logs@[0] == DigestItem::PreRuntime(BABE_ENGINE_ID, p)
}

/// `d` holds a secondary plain predigest for `slot` by authority zero, then an
/// announcement that the next epoch has `fallback` as its sole authority and
/// keeps `randomness`.
pub open spec fn is_fallback_digest(d: &Digest, slot: u64, randomness: Randomness, fallback: Authority) -> bool {
    &&& d.logs@.len() == 2
    &&& d.logs@[0] == DigestItem::PreRuntime(
        BABE_ENGINE_ID,
        PreDigest::SecondaryPlain { authority_index: 0, slot_number: slot },
    )
    &&& d.logs@[1] matches DigestItem::Consensus(engine, ConsensusLog::NextEpochData(next))
    &&& engine == BABE_ENGINE_ID
    &&& next.authorities@ == seq![fallback]
    &&& next.randomness == randomness
}

/// The digest logs for a block in `slot` under `epoch`: the claimed predigest
/// when the slot was claimed; else a secondary plain predigest by authority zero
/// and an announcement that installs `fallback` as the sole authority of the
/// next epoch, with the randomness of `epoch` unchanged.
pub fn build_digest(slot: u64, epoch: &Epoch, claim: Option<PreDigest>, fallback: Authority) -> (r: Digest)
    ensures
        claim matches Some(p) ==> is_claimed_digest(&r, p),
        claim is None ==> is_fallback_digest(&r, slot, epoch.randomness, fallback),
{
    match claim {
        Some(p) => Digest { logs: vec![DigestItem::PreRuntime(BABE_ENGINE_ID, p)] },
        None => {
            let predigest = PreDigest::SecondaryPlain { authority_index: 0, slot_number: slot };
            let next = NextEpochDescriptor { authorities: vec![fallback], randomness: epoch.randomness };
            let r = Digest {
                logs: vec![
                    DigestItem::PreRuntime(BABE_ENGINE_ID, predigest),
                    DigestItem::Consensus(BABE_ENGINE_ID, ConsensusLog::NextEpochData(next)),
                ],
            };
            assert(r.logs@[1] matches DigestItem::Consensus(_, ConsensusLog::NextEpochData(n)) && n.authorities@ =~= seq![fallback]);
            r
        },
    }
}

} // verus!
