use vstd::prelude::*;
use crate::babe::{
    build_digest, genesis_epoch, is_claimed_digest, is_fallback_digest, viable_epoch_spec, ConsensusLog, DigestItem, Authority, BlockHash,
    Config, Digest, EpochChanges, EpochDescriptor, PreDigest, DEV_AUTHORITY_ID, DEV_AUTHORITY_WEIGHT,
};
use crate::clock::{clock_step, provide_slot_inherent, slot_inherent_spec, SlotTimestampProvider};
use crate::error::{Error, InherentIdentifier};
use crate::import::{intermediate_key, intermediate_key_spec, BlockImportParams};
use crate::inherents::{
    get_u64_spec, le_bytes, InherentData, BABE_INHERENT_IDENTIFIER,
    TIMESTAMP_INHERENT_IDENTIFIER,
};

verus! {

/// The inherent data providers of the node: the slot clock, which writes the
/// timestamp, and the BABE slot provider, which derives the slot from it.
pub struct InherentDataProviders {
    pub timestamp: Option<SlotTimestampProvider>,
    /// The slot duration of the registered BABE slot provider.
    pub slot_duration: Option<u64>,
}

/// The inherent data that the providers in `p` collect, in registration order:
/// the timestamp first, then the slot.
pub open spec fn collect_spec(p: InherentDataProviders) -> Result<Map<InherentIdentifier, Seq<u8>>, Error> {
    let m = match p.timestamp {
        Some(c) => Map::empty().insert(TIMESTAMP_INHERENT_IDENTIFIER, le_bytes(c.time)),
        None => Map::empty(),
    };
    match p.slot_duration {
        None => Ok(m),
        Some(d) => match slot_inherent_spec(m, d).0 {
            Ok(_) => Ok(slot_inherent_spec(m, d).1),
            Err(e) => Err(e),
        },
    }
}

impl InherentDataProviders {
    /// A registered slot provider has a positive slot duration.
    pub open spec fn wf(&self) -> bool {
        self.slot_duration matches Some(d) ==> d > 0
    }

    /// No provider registered.
    pub fn new() -> (r: InherentDataProviders)
        ensures
            r.wf(),
            r.timestamp is None,
            r.slot_duration is None,
    {
        InherentDataProviders { timestamp: None, slot_duration: None }
    }

    /// Registers the slot clock; fails when a timestamp provider is registered.
    pub fn register_timestamp_provider(&mut self, clock: SlotTimestampProvider) -> (r: Result<(), Error>)
        ensures
            old(self).timestamp is Some ==> (r matches Err(Error::ProviderAlreadyRegistered(id))
                && id == TIMESTAMP_INHERENT_IDENTIFIER && *final(self) == *old(self)),
            old(self).timestamp is None ==> r is Ok && final(self).timestamp == Some(clock)
                && final(self).slot_duration == old(self).slot_duration,
    {
        if self.timestamp.is_some() {
            return Err(Error::ProviderAlreadyRegistered(TIMESTAMP_INHERENT_IDENTIFIER));
        }
        self.timestamp = Some(clock);
        Ok(())
    }

    /// Registers the BABE slot provider; fails when one is registered.
    pub fn register_babe_provider(&mut self, slot_duration: u64) -> (r: Result<(), Error>)
        requires
            slot_duration > 0,
        ensures
            old(self).slot_duration is Some ==> (r matches Err(Error::ProviderAlreadyRegistered(id))
                && id == BABE_INHERENT_IDENTIFIER && *final(self) == *old(self)),
            old(self).slot_duration is None ==> r is Ok && final(self).slot_duration == Some(slot_duration)
                && final(self).timestamp == old(self).timestamp,
    {
        if self.slot_duration.is_some() {
            return Err(Error::ProviderAlreadyRegistered(BABE_INHERENT_IDENTIFIER));
        }
        self.slot_duration = Some(slot_duration);
        Ok(())
    }

    /// Runs the registered providers in order and returns what they wrote.
    /// The clock moves on by one slot at each call.
    pub fn create_inherent_data(&mut self) -> (r: Result<InherentData, Error>)
        requires
            old(self).wf(),
        ensures
            final(self).wf(),
            final(self).slot_duration == old(self).slot_duration,
            old(self).timestamp matches Some(c) ==> final(self).timestamp == Some(clock_step(c).1),
            old(self).timestamp is None ==> final(self).timestamp is None,
            r is Ok == collect_spec(*old(self)) is Ok,
            r matches Ok(d) ==> d.wf() && collect_spec(*old(self)) == Ok::<_, Error>(d@),
            r matches Err(e) ==> collect_spec(*old(self)) == Err::<Map<InherentIdentifier, Seq<u8>>, Error>(e),
    {
        let mut data = InherentData::new();
        match &mut self.timestamp {
            Some(clock) => {
                let r = clock.provide_inherent_data(&mut data);
                assert(r is Ok);
            },
            None => {},
        }
        match self.slot_duration {
            Some(d) => match provide_slot_inherent(d, &mut data) {
                Ok(()) => Ok(data),
                Err(e) => Err(e),
            },
            None => Ok(data),
        }
    }
}

/// The parent of the block being built: its hash and number.
#[derive(Clone, Copy, Debug)]
pub struct Header {
    pub hash: BlockHash,
    pub number: u64,
}

/// The slot in the inherent data, or the error that reading it gives.
pub open spec fn slot_of(m: Map<InherentIdentifier, Seq<u8>>) -> Result<u64, Error> {
    match get_u64_spec(m, BABE_INHERENT_IDENTIFIER) {
        Ok(Some(slot)) => Ok(slot),
        Ok(None) => Err(Error::InherentDataNotFound(BABE_INHERENT_IDENTIFIER)),
        Err(e) => Err(e),
    }
}

/// The epoch descriptor viable for a child of `parent` in `slot`: the genesis
/// epoch, unimported, for a child of the genesis block; else what the epoch
/// tree's descendant query found among the parent's ancestors.
pub open spec fn descriptor_for_child_of(parent: Header, slot: u64, ancestor_epoch: Option<EpochDescriptor>) -> Option<EpochDescriptor> {
    if parent.number == 0 {
        Some(EpochDescriptor::UnimportedGenesis(slot))
    } else {
        ancestor_epoch
    }
}

/// The slot and epoch descriptor for a child of `parent`, or the error.
pub open spec fn resolve_spec(
    m: Map<InherentIdentifier, Seq<u8>>,
    parent: Header,
    ancestor_epoch: Option<EpochDescriptor>,
) -> Result<(u64, EpochDescriptor), Error> {
    match slot_of(m) {
        Err(e) => Err(e),
        Ok(slot) => match descriptor_for_child_of(parent, slot, ancestor_epoch) {
            None => Err(Error::InvalidAuthoritiesSet),
            Some(d) => Ok((slot, d)),
        },
    }
}

/// The error that digest creation gives, or `None` when it succeeds.
pub open spec fn digest_error(
    config: &Config,
    epoch_changes: &EpochChanges,
    m: Map<InherentIdentifier, Seq<u8>>,
    parent: Header,
    ancestor_epoch: Option<EpochDescriptor>,
) -> Option<Error> {
    match resolve_spec(m, parent, ancestor_epoch) {
        Err(e) => Some(e),
        Ok((_, d)) => if viable_epoch_spec(epoch_changes.epochs@, config, d) is None {
            Some(Error::InvalidAuthoritiesSet)
        } else {
            None
        },
    }
}

/// `digest` is what creation gives for the resolved slot and epoch: the claimed
/// predigest, or the fallback with the epoch's randomness.
pub open spec fn digest_matches(
    config: &Config,
    epoch_changes: &EpochChanges,
    m: Map<InherentIdentifier, Seq<u8>>,
    parent: Header,
    ancestor_epoch: Option<EpochDescriptor>,
    claim: Option<PreDigest>,
    fallback: Authority,
    digest: &Digest,
) -> bool {
    &&& resolve_spec(m, parent, ancestor_epoch) matches Ok((slot, d))
    &&& viable_epoch_spec(epoch_changes.epochs@, config, d) matches Some(e)
    &&& claim matches Some(p) ==> is_claimed_digest(digest, p)
    &&& claim is None ==> is_fallback_digest(digest, slot, e.randomness, fallback)
}

/// Digest creation and block import resolve a child of the same parent, from the
/// same inherent data and the same descendant-query answer, alike: when the
/// resolution fails both fail with the same error, and when digest creation
/// succeeds, block import succeeds with the descriptor the digest was built under.
pub proof fn lemma_create_and_import_agree(
    config: &Config,
    epoch_changes: &EpochChanges,
    m: Map<InherentIdentifier, Seq<u8>>,
    parent: Header,
    ancestor_epoch: Option<EpochDescriptor>,
)
    ensures
        resolve_spec(m, parent, ancestor_epoch) matches Err(e)
            ==> digest_error(config, epoch_changes, m, parent, ancestor_epoch) == Some(e),
        digest_error(config, epoch_changes, m, parent, ancestor_epoch) is None
            ==> resolve_spec(m, parent, ancestor_epoch) is Ok,
{
}

/// A created digest is never empty, and it has two log entries exactly when
/// the slot was not claimed.
pub proof fn lemma_digest_shape(
    config: &Config,
    epoch_changes: &EpochChanges,
    m: Map<InherentIdentifier, Seq<u8>>,
    parent: Header,
    ancestor_epoch: Option<EpochDescriptor>,
    claim: Option<PreDigest>,
    fallback: Authority,
    digest: &Digest,
)
    requires
        digest_matches(config, epoch_changes, m, parent, ancestor_epoch, claim, fallback, digest),
    ensures
        digest.logs@.len() >= 1,
        digest.logs@.len() == 2 <==> claim is None,
{
}

/// Without a claim, the next-epoch announcement keeps the randomness of the
/// resolved epoch and names exactly one authority.
pub proof fn lemma_fallback_announcement(
    config: &Config,
    epoch_changes: &EpochChanges,
    m: Map<InherentIdentifier, Seq<u8>>,
    parent: Header,
    ancestor_epoch: Option<EpochDescriptor>,
    fallback: Authority,
    digest: &Digest,
)
    requires
        digest_matches(config, epoch_changes, m, parent, ancestor_epoch, None, fallback, digest),
    ensures
        resolve_spec(m, parent, ancestor_epoch) matches Ok((_, d))
            && viable_epoch_spec(epoch_changes.epochs@, config, d) matches Some(e)
            && digest.logs@[1] matches DigestItem::Consensus(_, ConsensusLog::NextEpochData(next))
            && next.randomness == e.randomness
            && next.authorities@.len() == 1,
{
}

/// With an empty epoch tree, a child of genesis resolves to epoch zero built
/// from the configuration, and digest creation fails only when the slot cannot
/// be read.
pub proof fn lemma_genesis_bootstrap(
    config: &Config,
    epoch_changes: &EpochChanges,
    m: Map<InherentIdentifier, Seq<u8>>,
    parent: Header,
    ancestor_epoch: Option<EpochDescriptor>,
)
    requires
        epoch_changes.epochs@.len() == 0,
        parent.number == 0,
    ensures
        slot_of(m) matches Ok(slot) ==> resolve_spec(m, parent, ancestor_epoch)
            == Ok::<(u64, EpochDescriptor), Error>((slot, EpochDescriptor::UnimportedGenesis(slot)))
            && viable_epoch_spec(epoch_changes.epochs@, config, EpochDescriptor::UnimportedGenesis(slot))
            == Some(genesis_epoch(config, slot)),
        slot_of(m) is Ok ==> digest_error(config, epoch_changes, m, parent, ancestor_epoch) is None,
{
}

/// Provides BABE predigests and the epoch intermediate for manually sealed blocks.
pub struct BabeConsensusDataProvider {
    /// The BABE configuration of the chain.
    pub config: Config,
    /// The authority installed for the next epoch when the slot cannot be claimed.
    pub fallback_authority: Authority,
}

impl BabeConsensusDataProvider {
    /// Builds the provider from `config` and a slot clock, and registers the
    /// clock and the BABE slot provider with `providers`, in that order. Fails
    /// when either is registered already; a clock registered before the second
    /// registration fails stays registered.
    pub fn with_clock(
        config: Config,
        clock: SlotTimestampProvider,
        providers: &mut InherentDataProviders,
    ) -> (r: Result<BabeConsensusDataProvider, Error>)
        requires
            config.slot_duration > 0,
            old(providers).wf(),
        ensures
            final(providers).wf(),
            old(providers).timestamp is Some ==> (r matches Err(Error::ProviderAlreadyRegistered(id))
                && id == TIMESTAMP_INHERENT_IDENTIFIER && *final(providers) == *old(providers)),
            old(providers).timestamp is None ==> final(providers).timestamp == Some(clock),
            old(providers).timestamp is None && old(providers).slot_duration is Some
                ==> (r matches Err(Error::ProviderAlreadyRegistered(id)) && id == BABE_INHERENT_IDENTIFIER
                && final(providers).slot_duration == old(providers).slot_duration),
            old(providers).timestamp is None && old(providers).slot_duration is None
                ==> r is Ok && final(providers).slot_duration == Some(config.slot_duration),
            r matches Ok(p) ==> p.config == config && p.fallback_authority.id == DEV_AUTHORITY_ID
                && p.fallback_authority.weight == DEV_AUTHORITY_WEIGHT,
    {
        let slot_duration = config.slot_duration;
        match providers.register_timestamp_provider(clock) {
            Err(e) => return Err(e),
            Ok(()) => {},
        }
        match providers.register_babe_provider(slot_duration) {
            Err(e) => return Err(e),
            Ok(()) => {},
        }
        Ok(BabeConsensusDataProvider {
            config,
            fallback_authority: Authority { id: DEV_AUTHORITY_ID, weight: DEV_AUTHORITY_WEIGHT },
        })
    }

    /// Builds the provider with a slot clock that starts at the current time, and
    /// registers the clock and the BABE slot provider with `providers`.
    pub fn new(config: Config, providers: &mut InherentDataProviders) -> (r: Result<BabeConsensusDataProvider, Error>)
        requires
            config.slot_duration > 0,
            old(providers).wf(),
        ensures
            final(providers).wf(),
            r matches Err(Error::ClockBeforeUnixEpoch) ==> *final(providers) == *old(providers),
            old(providers).timestamp is Some ==> r is Err && *final(providers) == *old(providers),
            old(providers).slot_duration is Some ==> r is Err
                && final(providers).slot_duration == old(providers).slot_duration,
            r matches Ok(p) ==> p.config == config && final(providers).slot_duration == Some(config.slot_duration)
                && (final(providers).timestamp matches Some(c) && c.slot_duration == config.slot_duration),
    {
        let clock = match SlotTimestampProvider::new(config.slot_duration) {
            Ok(c) => c,
            Err(e) => return Err(e),
        };
        Self::with_clock(config, clock, providers)
    }

    /// The slot in `inherents` and the epoch descriptor viable for a child of
    /// `parent` in it. `ancestor_epoch` is what the epoch tree's descendant
    /// query found for `parent`; it is not consulted for a child of genesis.
    pub fn resolve_descriptor(
        &self,
        parent: &Header,
        inherents: &InherentData,
        ancestor_epoch: Option<EpochDescriptor>,
    ) -> (r: Result<(u64, EpochDescriptor), Error>)
        requires
            inherents.wf(),
        ensures
            r == resolve_spec(inherents@, *parent, ancestor_epoch),
    {
        let slot = match inherents.get_u64(&BABE_INHERENT_IDENTIFIER) {
            Ok(Some(slot)) => slot,
            Ok(None) => return Err(Error::InherentDataNotFound(BABE_INHERENT_IDENTIFIER)),
            Err(e) => return Err(e),
        };
        if parent.number == 0 {
            Ok((slot, EpochDescriptor::UnimportedGenesis(slot)))
        } else {
            match ancestor_epoch {
                None => Err(Error::InvalidAuthoritiesSet),
                Some(d) => Ok((slot, d)),
            }
        }
    }

    /// The digest logs of a child of `parent`. `claim` is the outcome of
    /// claiming the slot under the resolved epoch with the local keys: with a
    /// claim the digest holds its predigest alone; without one it holds a
    /// secondary plain predigest and installs the fallback authority as the sole
    /// authority of the next epoch, keeping the epoch's randomness. Fails when
    /// the slot cannot be read, or no viable epoch is found.
    pub fn create_digest(
        &self,
        epoch_changes: &EpochChanges,
        parent: &Header,
        inherents: &InherentData,
        ancestor_epoch: Option<EpochDescriptor>,
        claim: Option<PreDigest>,
    ) -> (r: Result<Digest, Error>)
        requires
            inherents.wf(),
        ensures
            r is Err <==> digest_error(&self.config, epoch_changes, inherents@, *parent, ancestor_epoch) is Some,
            r matches Err(e) ==> digest_error(&self.config, epoch_changes, inherents@, *parent, ancestor_epoch) == Some(e),
            r matches Ok(d) ==> digest_matches(&self.config, epoch_changes, inherents@, *parent, ancestor_epoch,
                claim, self.fallback_authority, &d),
    {
        let (slot, descriptor) = match self.resolve_descriptor(parent, inherents, ancestor_epoch) {
            Ok(x) => x,
            Err(e) => return Err(e),
        };
        let epoch = match epoch_changes.viable_epoch(&descriptor, &self.config) {
            Some(e) => e,
            None => return Err(Error::InvalidAuthoritiesSet),
        };
        Ok(build_digest(slot, &epoch, claim, self.fallback_authority))
    }

    /// Stores the epoch descriptor viable for a child of `parent` in `params`
    /// under the BABE intermediate key. The descriptor is resolved anew, as in
    /// `create_digest`: the two calls agree when given the same parent, inherent
    /// data and descendant-query answer. Fails, leaving `params` as it was, when
    /// the slot cannot be read or no descriptor is found.
    pub fn append_block_import(
        &self,
        parent: &Header,
        params: &mut BlockImportParams,
        inherents: &InherentData,
        ancestor_epoch: Option<EpochDescriptor>,
    ) -> (r: Result<(), Error>)
        requires
            inherents.wf(),
            old(params).wf(),
        ensures
            final(params).wf(),
            r is Ok == resolve_spec(inherents@, *parent, ancestor_epoch) is Ok,
            r matches Err(e) ==> resolve_spec(inherents@, *parent, ancestor_epoch) == Err::<(u64, EpochDescriptor), Error>(e)
                && final(params)@ == old(params)@,
            resolve_spec(inherents@, *parent, ancestor_epoch) matches Ok((_, d))
                ==> final(params)@ == old(params)@.insert(intermediate_key_spec(), d),
    {
        let (_, descriptor) = match self.resolve_descriptor(parent, inherents, ancestor_epoch) {
            Ok(x) => x,
            Err(e) => return Err(e),
        };
        params.insert_intermediate(intermediate_key(), descriptor);
        Ok(())
    }
}

} // verus!
