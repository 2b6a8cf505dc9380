use vstd::prelude::*;
use crate::babe::EpochDescriptor;

verus! {

/// The key of the BABE intermediate (`babe1`).
pub open spec fn intermediate_key_spec() -> Seq<u8> {
    seq![98u8, 97u8, 98u8, 101u8, 49u8]
}

/// The key under which the epoch descriptor is handed to block import.
pub fn intermediate_key() -> (r: Vec<u8>)
    ensures
        r@ == intermediate_key_spec(),
{
    let r = vec![98u8, 97u8, 98u8, 101u8, 49u8];
    assert(r@ =~= intermediate_key_spec());
    r
}

/// A value handed from digest creation to block import, under a key.
pub struct Intermediate {
    pub key: Vec<u8>,
    pub epoch_descriptor: EpochDescriptor,
}

/// The parts of block import parameters that this library fills: the
/// intermediates, at most one per key.
pub struct BlockImportParams {
    pub intermediates: Vec<Intermediate>,
}

/// The intermediates as a map from key to descriptor.
pub open spec fn intermediates_map(s: Seq<Intermediate>) -> Map<Seq<u8>, EpochDescriptor>
    decreases s.len(),
{
    if s.len() == 0 {
        Map::empty()
    } else {
        intermediates_map(s.drop_last()).insert(s.last().key@, s.last().epoch_descriptor)
    }
}

/// No two intermediates share a key.
pub open spec fn unique_keys(s: Seq<Intermediate>) -> bool {
    forall|i: int, j: int| 0 <= i < s.len() && 0 <= j < s.len() && i != j ==> s[i].key@ != s[j].key@
}

proof fn lemma_intermediates_domain(s: Seq<Intermediate>, k: Seq<u8>)
    ensures
        intermediates_map(s).contains_key(k) <==> exists|i: int| 0 <= i < s.len() && s[i].key@ == k,
    decreases s.len(),
{
    if s.len() > 0 {
        lemma_intermediates_domain(s.drop_last(), k);
        if intermediates_map(s.drop_last()).contains_key(k) {
            let i = choose|i: int| 0 <= i < s.drop_last().len() && s.drop_last()[i].key@ == k;
            assert(s[i].key@ == k);
        }
        if exists|i: int| 0 <= i < s.len() && s[i].key@ == k {
            let i = choose|i: int| 0 <= i < s.len() && s[i].key@ == k;
            if i < s.len() - 1 {
                assert(s.drop_last()[i].key@ == k);
            }
        }
    }
}

proof fn lemma_intermediates_update(s: Seq<Intermediate>, i: int, x: Intermediate)
    requires
        unique_keys(s),
        0 <= i < s.len(),
        x.key@ == s[i].key@,
    ensures
        unique_keys(s.update(i, x)),
        intermediates_map(s.update(i, x)) == intermediates_map(s).insert(x.key@, x.epoch_descriptor),
    decreases s.len(),
{
    let t = s.update(i, x);
    if i == s.len() - 1 {
        assert(t.drop_last() =~= s.drop_last());
        assert(intermediates_map(t) =~= intermediates_map(s).insert(x.key@, x.epoch_descriptor));
    } else {
        assert(unique_keys(s.drop_last()));
        lemma_intermediates_update(s.drop_last(), i, x);
        assert(t.drop_last() =~= s.drop_last().update(i, x));
        assert(s.last().key@ != x.key@);
        assert(intermediates_map(t) =~= intermediates_map(s).insert(x.key@, x.epoch_descriptor));
    }
}

/// Compares two byte strings.
pub fn bytes_equal(a: &Vec<u8>, b: &Vec<u8>) -> (r: bool)
    ensures
        r == (a@ == b@),
{
    if a.len() != b.len() {
        return false;
    }
    let mut i: usize = 0;
    while i < a.len()
        invariant
            i <= a@.len(),
            a@.len() == b@.len(),
            forall|k: int| 0 <= k < i ==> a@[k] == b@[k],
        decreases a@.len() - i,
    {
        if a[i] != b[i] {
            return false;
        }
        i = i + 1;
    }
    assert(a@ =~= b@);
    true
}

impl BlockImportParams {
    /// The intermediates as a map from key to descriptor.
    pub open spec fn view(&self) -> Map<Seq<u8>, EpochDescriptor> {
        intermediates_map(self.intermediates@)
    }

    /// No key appears twice.
    pub open spec fn wf(&self) -> bool {
        unique_keys(self.intermediates@)
    }

    /// Parameters with no intermediate.
    pub fn new() -> (r: BlockImportParams)
        ensures
            r.wf(),
            r@ == Map::<Seq<u8>, EpochDescriptor>::empty(),
    {
        BlockImportParams { intermediates: Vec::new() }
    }

    /// Stores `descriptor` under `key`, replacing what was stored there.
    pub fn insert_intermediate(&mut self, key: Vec<u8>, descriptor: EpochDescriptor)
        requires
            old(self).wf(),
        ensures
            final(self).wf(),
            final(self)@ == old(self)@.insert(key@, descriptor),
    {
        let mut i: usize = 0;
        while i < self.intermediates.len()
            invariant
                i <= self.intermediates@.len(),
                self.intermediates@ == old(self).intermediates@,
                unique_keys(self.intermediates@),
                forall|k: int| 0 <= k < i ==> self.intermediates@[k].key@ != key@,
            decreases self.intermediates@.len() - i,
        {
            if bytes_equal(&self.intermediates[i].key, &key) {
                let x = Intermediate { key, epoch_descriptor: descriptor };
                proof {
                    lemma_intermediates_update(self.intermediates@, i as int, x);
                }
                self.intermediates.set(i, x);
                return;
            }
            i = i + 1;
        }
        proof {
            lemma_intermediates_domain(self.intermediates@, key@);
        }
        let ghost k = key@;
        self.intermediates.push(Intermediate { key, epoch_descriptor: descriptor });
        assert(self.intermediates@.drop_last() =~= old(self).intermediates@);
        assert(self@ =~= old(self)@.insert(k, descriptor));
    }
}

} // verus!
