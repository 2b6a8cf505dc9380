use vstd::prelude::*;
use crate::error::{Error, InherentIdentifier};

verus! {

/// Identifier of the timestamp inherent (`timstap0`).
pub const TIMESTAMP_INHERENT_IDENTIFIER: InherentIdentifier = [116, 105, 109, 115, 116, 97, 112, 48];

/// Identifier of the BABE slot inherent (`babeslot`).
pub const BABE_INHERENT_IDENTIFIER: InherentIdentifier = [98, 97, 98, 101, 115, 108, 111, 116];

/// The little-endian encoding of a `u64`: eight bytes, least significant first.
pub open spec fn le_bytes(v: u64) -> Seq<u8> {
    seq![
        (v & 0xff) as u8,
        ((v >> 8u64) & 0xff) as u8,
        ((v >> 16u64) & 0xff) as u8,
        ((v >> 24u64) & 0xff) as u8,
        ((v >> 32u64) & 0xff) as u8,
        ((v >> 40u64) & 0xff) as u8,
        ((v >> 48u64) & 0xff) as u8,
        ((v >> 56u64) & 0xff) as u8,
    ]
}

/// The `u64` whose little-endian encoding is the first eight bytes of `s`.
pub open spec fn le_value(s: Seq<u8>) -> u64
    recommends
        s.len() >= 8,
{
    (s[0] as u64) | ((s[1] as u64) << 8u64) | ((s[2] as u64) << 16u64) | ((s[3] as u64) << 24u64)
        | ((s[4] as u64) << 32u64) | ((s[5] as u64) << 40u64) | ((s[6] as u64) << 48u64)
        | ((s[7] as u64) << 56u64)
}

/// Decoding an encoded `u64` gives the value back.
pub proof fn lemma_le_round_trip(v: u64)
    ensures
        le_bytes(v).len() == 8,
        le_value(le_bytes(v)) == v,
{
    let s = le_bytes(v);
    let (b0, b1, b2, b3) = (s[0], s[1], s[2], s[3]);
    let (b4, b5, b6, b7) = (s[4], s[5], s[6], s[7]);
    assert(b0 == (v & 0xff) as u8 && b1 == ((v >> 8u64) & 0xff) as u8 && b2 == ((v >> 16u64) & 0xff) as u8
        && b3 == ((v >> 24u64) & 0xff) as u8 && b4 == ((v >> 32u64) & 0xff) as u8 && b5 == ((v >> 40u64) & 0xff) as u8
        && b6 == ((v >> 48u64) & 0xff) as u8 && b7 == ((v >> 56u64) & 0xff) as u8);
    assert(b0 == (v & 0xff) as u8 && b1 == ((v >> 8u64) & 0xff) as u8 && b2 == ((v >> 16u64) & 0xff) as u8
        && b3 == ((v >> 24u64) & 0xff) as u8 && b4 == ((v >> 32u64) & 0xff) as u8 && b5 == ((v >> 40u64) & 0xff) as u8
        && b6 == ((v >> 48u64) & 0xff) as u8 && b7 == ((v >> 56u64) & 0xff) as u8
        ==> ((b0 as u64) | ((b1 as u64) << 8u64) | ((b2 as u64) << 16u64) | ((b3 as u64) << 24u64)
        | ((b4 as u64) << 32u64) | ((b5 as u64) << 40u64) | ((b6 as u64) << 48u64)
        | ((b7 as u64) << 56u64)) == v) by (bit_vector);
}

/// Encodes `v` as eight little-endian bytes.
pub fn encode_u64(v: u64) -> (r: Vec<u8>)
    ensures
        r@ == le_bytes(v),
{
    let r = vec![
        (v & 0xff) as u8,
        ((v >> 8u64) & 0xff) as u8,
        ((v >> 16u64) & 0xff) as u8,
        ((v >> 24u64) & 0xff) as u8,
        ((v >> 32u64) & 0xff) as u8,
        ((v >> 40u64) & 0xff) as u8,
        ((v >> 48u64) & 0xff) as u8,
        ((v >> 56u64) & 0xff) as u8,
    ];
    assert(r@ =~= le_bytes(v));
    r
}

/// Decodes a `u64` from the first eight bytes of `b`; `None` when fewer are given.
/// Bytes after the eighth are left unread.
pub fn decode_u64(b: &[u8]) -> (r: Option<u64>)
    ensures
        b@.len() < 8 ==> r.is_none(),
        b@.len() >= 8 ==> r == Some(le_value(b@)),
{
    if b.len() < 8 {
        return None;
    }
    Some((b[0] as u64) | ((b[1] as u64) << 8u64) | ((b[2] as u64) << 16u64) | ((b[3] as u64) << 24u64)
        | ((b[4] as u64) << 32u64) | ((b[5] as u64) << 40u64) | ((b[6] as u64) << 48u64)
        | ((b[7] as u64) << 56u64))
}

/// One entry of inherent data: an identifier and the encoded value.
pub struct InherentEntry {
    pub identifier: InherentIdentifier,
    pub data: Vec<u8>,
}

/// The inherent data collected for a block: at most one entry per identifier.
pub struct InherentData {
    pub entries: Vec<InherentEntry>,
}

/// The entries of inherent data as a map from identifier to encoded bytes.
pub open spec fn entries_map(s: Seq<InherentEntry>) -> Map<InherentIdentifier, Seq<u8>>
    decreases s.len(),
{
    if s.len() == 0 {
        Map::empty()
    } else {
        entries_map(s.drop_last()).insert(s.last().identifier, s.last().data@)
    }
}

/// No two entries share an identifier.
pub open spec fn unique_ids(s: Seq<InherentEntry>) -> bool {
    forall|i: int, j: int|
        0 <= i < s.len() && 0 <= j < s.len() && i != j ==> s[i].identifier != s[j].identifier
}

proof fn lemma_entries_map_domain(s: Seq<InherentEntry>, id: InherentIdentifier)
    ensures
        entries_map(s).contains_key(id) <==> exists|i: int| 0 <= i < s.len() && s[i].identifier == id,
    decreases s.len(),
{
    if s.len() > 0 {
        lemma_entries_map_domain(s.drop_last(), id);
        if entries_map(s.drop_last()).contains_key(id) {
            let i = choose|i: int| 0 <= i < s.drop_last().len() && s.drop_last()[i].identifier == id;
            assert(s[i].identifier == id);
        }
        if exists|i: int| 0 <= i < s.len() && s[i].identifier == id {
            let i = choose|i: int| 0 <= i < s.len() && s[i].identifier == id;
            if i < s.len() - 1 {
                assert(s.drop_last()[i].identifier == id);
            }
        }
    }
}

proof fn lemma_entries_map_at(s: Seq<InherentEntry>, i: int)
    requires
        unique_ids(s),
        0 <= i < s.len(),
    ensures
        entries_map(s).contains_key(s[i].identifier),
        entries_map(s)[s[i].identifier] == s[i].data@,
    decreases s.len(),
{
    if i < s.len() - 1 {
        assert(unique_ids(s.drop_last()));
        lemma_entries_map_at(s.drop_last(), i);
        assert(s.last().identifier != s[i].identifier);
    }
}

impl InherentData {
    /// The entries as a map from identifier to encoded bytes.
    pub open spec fn view(&self) -> Map<InherentIdentifier, Seq<u8>> {
        entries_map(self.entries@)
    }

    /// No identifier appears twice.
    pub open spec fn wf(&self) -> bool {
        unique_ids(self.entries@)
    }

    /// Inherent data with no entries.
    pub fn new() -> (r: InherentData)
        ensures
            r.wf(),
            r@ == Map::<InherentIdentifier, Seq<u8>>::empty(),
    {
        InherentData { entries: Vec::new() }
    }

    /// The position of the entry under `id`, if any.
    fn position(&self, id: &InherentIdentifier) -> (r: Option<usize>)
        requires
            self.wf(),
        ensures
            r.is_none() <==> !self@.contains_key(*id),
            r matches Some(i) ==> i < self.entries@.len() && self.entries@[i as int].identifier == *id
                && self@[*id] == self.entries@[i as int].data@,
    {
        let mut i: usize = 0;
        while i < self.entries.len()
            invariant
                i <= self.entries@.len(),
                self.wf(),
                forall|k: int| 0 <= k < i ==> self.entries@[k].identifier != *id,
            decreases self.entries@.len() - i,
        {
            if ids_equal(&self.entries[i].identifier, id) {
                proof {
                    lemma_entries_map_at(self.entries@, i as int);
                }
                return Some(i);
            }
            i = i + 1;
        }
        proof {
            lemma_entries_map_domain(self.entries@, *id);
        }
        None
    }

    /// Stores the encoding of `value` under `id`; fails when `id` is already present.
    pub fn put_data(&mut self, id: InherentIdentifier, value: u64) -> (r: Result<(), Error>)
        requires
            old(self).wf(),
        ensures
            final(self).wf(),
            r == put_spec(old(self)@, id),
            final(self)@ == put_result(old(self)@, id, value),
    {
        match self.position(&id) {
            Some(_) => Err(Error::InherentDataExists(id)),
            None => {
                let data = encode_u64(value);
                proof {
                    lemma_entries_map_domain(self.entries@, id);
                }
                self.entries.push(InherentEntry { identifier: id, data });
                proof {
                    assert(self.entries@.drop_last() =~= old(self).entries@);
                }
                Ok(())
            },
        }
    }

    /// Reads the `u64` stored under `id`: `Ok(None)` when absent, an error when
    /// the stored bytes are too short to decode.
    pub fn get_u64(&self, id: &InherentIdentifier) -> (r: Result<Option<u64>, Error>)
        requires
            self.wf(),
        ensures
            r == get_u64_spec(self@, *id),
    {
        match self.position(id) {
            None => Ok(None),
            Some(i) => match decode_u64(self.entries[i].data.as_slice()) {
                Some(v) => Ok(Some(v)),
                None => Err(Error::InherentDataMalformed(*id)),
            },
        }
    }
}

/// What storing under `id` returns: an error when `id` is present.
pub open spec fn put_spec(m: Map<InherentIdentifier, Seq<u8>>, id: InherentIdentifier) -> Result<(), Error> {
    if m.contains_key(id) {
        Err(Error::InherentDataExists(id))
    } else {
        Ok(())
    }
}

/// The inherent data after storing `v` under `id`: unchanged when `id` is present.
pub open spec fn put_result(m: Map<InherentIdentifier, Seq<u8>>, id: InherentIdentifier, v: u64) -> Map<InherentIdentifier, Seq<u8>> {
    if m.contains_key(id) {
        m
    } else {
        m.insert(id, le_bytes(v))
    }
}

/// What reading a `u64` under `id` gives.
pub open spec fn get_u64_spec(m: Map<InherentIdentifier, Seq<u8>>, id: InherentIdentifier) -> Result<Option<u64>, Error> {
    if !m.contains_key(id) {
        Ok(None)
    } else if m[id].len() < 8 {
        Err(Error::InherentDataMalformed(id))
    } else {
        Ok(Some(le_value(m[id])))
    }
}

/// A `u64` stored under a fresh identifier is read back unchanged.
pub proof fn lemma_put_then_get(m: Map<InherentIdentifier, Seq<u8>>, id: InherentIdentifier, v: u64)
    requires
        !m.contains_key(id),
    ensures
        get_u64_spec(put_result(m, id, v), id) == Ok::<Option<u64>, Error>(Some(v)),
{
    lemma_le_round_trip(v);
}

/// Compares two identifiers byte by byte.
pub fn ids_equal(a: &InherentIdentifier, b: &InherentIdentifier) -> (r: bool)
    ensures
        r == (*a == *b),
{
    let mut i: usize = 0;
    while i < 8
        invariant
            i <= 8,
            forall|k: int| 0 <= k < i ==> a[k] == b[k],
        decreases 8 - i,
    {
        if a[i] != b[i] {
            return false;
        }
        i = i + 1;
    }
    assert(*a =~= *b);
    true
}

} // verus!
