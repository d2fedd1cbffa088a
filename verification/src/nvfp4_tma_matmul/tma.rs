use vstd::prelude::*;

verus! {

/// 64-bit words in one TMA descriptor.
pub const TMA_DESCRIPTOR_WORDS: u64 = 16;

/// Descriptors per GEMM: A, B, A scales, B scales.
pub const TMA_DESCRIPTOR_COUNT: u64 = 4;

/// Cache entries per device allocation.
pub const TMA_DESCRIPTOR_CACHE_CHUNK_ENTRIES: u64 = 64;

/// Bytes of one descriptor.
pub const TMA_DESCRIPTOR_BYTES: u64 = 128;

/// Bytes of the four descriptors of one cache entry.
pub const PACKED_TMA_DESCRIPTORS_BYTES: u64 = 512;

/// What a set of GEMM descriptors was encoded for: the device addresses of the
/// four operands and the `[token_count, input_dim, output_dim]` shape.
#[derive(Clone, Copy, Debug, PartialEq, Eq, Structural)]
pub struct TmaNvfp4DeviceScaleDescriptorKey {
    pub input_address: u64,
    pub weight_address: u64,
    pub input_scale_address: u64,
    pub weight_scale_address: u64,
    pub token_count: u32,
    pub input_dim: u32,
    pub output_dim: u32,
}

impl TmaNvfp4DeviceScaleDescriptorKey {
    pub fn new(addresses: [u64; 4], token_count: u32, input_dim: u32, output_dim: u32) -> (key:
        Self)
        ensures
            key == (TmaNvfp4DeviceScaleDescriptorKey {
                input_address: addresses@[0],
                weight_address: addresses@[1],
                input_scale_address: addresses@[2],
                weight_scale_address: addresses@[3],
                token_count,
                input_dim,
                output_dim,
            }),
    {
        TmaNvfp4DeviceScaleDescriptorKey {
            input_address: addresses[0],
            weight_address: addresses[1],
            input_scale_address: addresses[2],
            weight_scale_address: addresses[3],
            token_count,
            input_dim,
            output_dim,
        }
    }
}

/// Bytes of one device chunk of cache entries.
pub open spec fn chunk_bytes() -> int {
    TMA_DESCRIPTOR_CACHE_CHUNK_ENTRIES * PACKED_TMA_DESCRIPTORS_BYTES
}

/// Device base address of cache entry `index`: its slot in its chunk.
pub open spec fn entry_base(chunk_bases: Seq<u64>, index: int) -> int {
    chunk_bases[index / (TMA_DESCRIPTOR_CACHE_CHUNK_ENTRIES as int)] + (index % (
    TMA_DESCRIPTOR_CACHE_CHUNK_ENTRIES as int)) * (PACKED_TMA_DESCRIPTORS_BYTES as int)
}

/// A cache of encoded GEMM descriptors on the device. Entry `i` was encoded
/// for `keys[i]` and lives at `entry_bases[i]`, in slot `i % 64` of device
/// chunk `i / 64`; `active` is the entry that the next GEMM uses.
pub struct TmaNvfp4DeviceScaleDescriptors {
    keys: Vec<TmaNvfp4DeviceScaleDescriptorKey>,
    entry_bases: Vec<u64>,
    chunk_bases: Vec<u64>,
    active: Option<usize>,
}

impl TmaNvfp4DeviceScaleDescriptors {
    /// The cache's keys, in insertion order.
    pub closed spec fn keys(&self) -> Seq<TmaNvfp4DeviceScaleDescriptorKey> {
        self.keys@
    }

    /// Device base addresses of the cache's entries.
    pub closed spec fn entry_bases(&self) -> Seq<u64> {
        self.entry_bases@
    }

    /// Device base addresses of the cache's chunks.
    pub closed spec fn chunk_bases(&self) -> Seq<u64> {
        self.chunk_bases@
    }

    /// The entry the next GEMM uses.
    pub closed spec fn active(&self) -> Option<usize> {
        self.active
    }

    /// The cache's invariant: one base per key, no key twice, every entry in
    /// its chunk slot, and the active entry among the entries.
    pub closed spec fn wf(&self) -> bool {
        &&& self.keys@.len() == self.entry_bases@.len()
        &&& self.chunk_bases@.len() >= 1
        &&& self.keys@.len() <= self.chunk_bases@.len() * (TMA_DESCRIPTOR_CACHE_CHUNK_ENTRIES as int)
        &&& forall|i: int, j: int|
            0 <= i < j < self.keys@.len() ==> self.keys@[i] != self.keys@[j]
        &&& forall|i: int|
            0 <= i < self.entry_bases@.len() ==> self.entry_bases@[i] == entry_base(
                self.chunk_bases@,
                i,
            )
        &&& self.active matches Some(index) ==> index < self.keys@.len()
        &&& forall|c: int|
            0 <= c < self.chunk_bases@.len() ==> self.chunk_bases@[c] + chunk_bytes() <= u64::MAX
    }

    /// An empty cache whose first chunk lives at `first_chunk_base`.
    pub fn new(first_chunk_base: u64) -> (cache: Self)
        requires
            first_chunk_base + chunk_bytes() <= u64::MAX,
        ensures
            cache.wf(),
            cache.keys() == Seq::<TmaNvfp4DeviceScaleDescriptorKey>::empty(),
            cache.chunk_bases() == seq![first_chunk_base],
            cache.active() is None,
    {
        let mut chunk_bases = Vec::new();
        chunk_bases.push(first_chunk_base);
        TmaNvfp4DeviceScaleDescriptors {
            keys: Vec::new(),
            entry_bases: Vec::new(),
            chunk_bases,
            active: None,
        }
    }

    /// Makes the entry for `key` active, if the cache has one.
    pub fn activate(&mut self, key: TmaNvfp4DeviceScaleDescriptorKey) -> (found: bool)
        requires
            old(self).wf(),
        ensures
            final(self).wf(),
            found == old(self).keys().contains(key),
            final(self).keys() == old(self).keys(),
            final(self).entry_bases() == old(self).entry_bases(),
            final(self).chunk_bases() == old(self).chunk_bases(),
            found ==> (final(self).active() matches Some(index) && index < final(self).keys().len()
                && final(self).keys()[index as int] == key),
            !found ==> final(self).active() == old(self).active(),
    {
        match self.find(key) {
            Some(index) => {
                self.active = Some(index);
                true
            },
            None => false,
        }
    }

    /// Position of `key` among the cache's keys.
    fn find(&self, key: TmaNvfp4DeviceScaleDescriptorKey) -> (found: Option<usize>)
        requires
            self.wf(),
        ensures
            found matches Some(index) ==> index < self.keys().len() && self.keys()[index as int]
                == key,
            found is None ==> !self.keys().contains(key),
    {
        let mut index: usize = 0;
        while index < self.keys.len()
            invariant
                index <= self.keys@.len(),
                forall|j: int| 0 <= j < index ==> self.keys@[j] != key,
            decreases self.keys@.len() - index,
        {
            if self.keys[index] == key {
                return Some(index);
            }
            index += 1;
        }
        None
    }

    /// Whether the next insertion needs a new device chunk.
    pub fn needs_chunk(&self) -> (needed: bool)
        requires
            self.wf(),
        ensures
            needed == (self.keys().len() == self.chunk_bases().len()
                * TMA_DESCRIPTOR_CACHE_CHUNK_ENTRIES),
    {
        let index = self.keys.len();
        let chunks = self.chunk_bases.len();
        assert(index / 64 == chunks <==> index == chunks * 64);
        index / TMA_DESCRIPTOR_CACHE_CHUNK_ENTRIES as usize == chunks
    }

    /// Whether the cache holds an entry for `key`.
    pub fn contains(&self, key: TmaNvfp4DeviceScaleDescriptorKey) -> (found: bool)
        requires
            self.wf(),
        ensures
            found == self.keys().contains(key),
    {
        self.find(key).is_some()
    }

    /// The entry the next GEMM uses, if one was prepared.
    pub fn active_entry(&self) -> (active: Option<usize>)
        ensures
            active == self.active(),
    {
        self.active
    }

    /// Number of entries in the cache.
    pub fn len(&self) -> (count: usize)
        requires
            self.wf(),
        ensures
            count == self.keys().len(),
    {
        self.keys.len()
    }

    /// The device address that the next inserted entry will get, with the
    /// chunk at `new_chunk` opened when the last chunk is full.
    pub fn next_entry_base(&self, new_chunk: Option<u64>) -> (device_base: u64)
        requires
            self.wf(),
            self.keys().len() == self.chunk_bases().len() * TMA_DESCRIPTOR_CACHE_CHUNK_ENTRIES ==> (
            new_chunk matches Some(base) && base + chunk_bytes() <= u64::MAX),
        ensures
            device_base == entry_base(
                if self.keys().len() == self.chunk_bases().len() * TMA_DESCRIPTOR_CACHE_CHUNK_ENTRIES {
                    self.chunk_bases().push(new_chunk->0)
                } else {
                    self.chunk_bases()
                },
                self.keys().len() as int,
            ),
    {
        let index = self.keys.len();
        let entries_per_chunk = TMA_DESCRIPTOR_CACHE_CHUNK_ENTRIES as usize;
        let chunk_index = index / entries_per_chunk;
        let chunk_slot = index % entries_per_chunk;
        let ghost chunks = self.chunk_bases@.len();
        assert(chunk_index == chunks <==> index == chunks * 64);
        let chunk_base = if chunk_index == self.chunk_bases.len() {
            match new_chunk {
                Some(base) => base,
                None => 0,
            }
        } else {
            self.chunk_bases[chunk_index]
        };
        proof {
            assert(chunk_slot * 512 <= 63 * 512);
            assert(chunk_base + chunk_bytes() <= u64::MAX);
        }
        chunk_base + chunk_slot as u64 * PACKED_TMA_DESCRIPTORS_BYTES
    }

    /// Records the descriptors for `key`, which the cache does not hold yet, in
    /// the next free slot, opening the chunk at `new_chunk` when the last chunk
    /// is full. Returns the device address that the four descriptors are copied
    /// to; the new entry becomes active.
    pub fn insert(&mut self, key: TmaNvfp4DeviceScaleDescriptorKey, new_chunk: Option<u64>) -> (
        device_base: u64)
        requires
            old(self).wf(),
            !old(self).keys().contains(key),
            old(self).keys().len() < usize::MAX,
            old(self).keys().len() == old(self).chunk_bases().len()
                * TMA_DESCRIPTOR_CACHE_CHUNK_ENTRIES ==> (new_chunk matches Some(base) && base
                + chunk_bytes() <= u64::MAX),
        ensures
            final(self).wf(),
            final(self).keys() == old(self).keys().push(key),
            final(self).chunk_bases() == if old(self).keys().len() == old(self).chunk_bases().len()
                * TMA_DESCRIPTOR_CACHE_CHUNK_ENTRIES {
                old(self).chunk_bases().push(new_chunk->0)
            } else {
                old(self).chunk_bases()
            },
            device_base == entry_base(final(self).chunk_bases(), old(self).keys().len() as int),
            final(self).entry_bases() == old(self).entry_bases().push(device_base),
            final(self).active() == Some(old(self).keys().len() as usize),
    {
        let index = self.keys.len();
        let entries_per_chunk = TMA_DESCRIPTOR_CACHE_CHUNK_ENTRIES as usize;
        let chunk_index = index / entries_per_chunk;
        let chunk_slot = index % entries_per_chunk;
        let ghost old_chunks = self.chunk_bases@.len();
        assert(chunk_index == old_chunks <==> index == old_chunks * 64);
        if chunk_index == self.chunk_bases.len() {
            match new_chunk {
                Some(base) => self.chunk_bases.push(base),
                None => {},
            }
        }
        proof {
            assert(chunk_index < self.chunk_bases@.len());
            assert(chunk_slot * 512 <= 63 * 512);
            assert(self.chunk_bases@[chunk_index as int] + chunk_bytes() <= u64::MAX);
        }
        let device_base = self.chunk_bases[chunk_index] + chunk_slot as u64
            * PACKED_TMA_DESCRIPTORS_BYTES;
        let ghost old_keys = self.keys@;
        self.keys.push(key);
        self.entry_bases.push(device_base);
        self.active = Some(index);
        proof {
            assert forall|i: int, j: int| 0 <= i < j < self.keys@.len() implies self.keys@[i]
                != self.keys@[j] by {
                if j == index as int {
                    assert(old_keys[i] == self.keys@[i]);
                }
            }
        }
        device_base
    }

    /// A key names at most one entry of a cache: two entries with the same key
    /// are the same entry.
    pub proof fn lemma_key_names_one_entry(&self, i: int, j: int)
        requires
            self.wf(),
            0 <= i < self.keys().len(),
            0 <= j < self.keys().len(),
            self.keys()[i] == self.keys()[j],
        ensures
            i == j,
    {
    }

    /// The active entry of a cache is one of its entries.
    pub proof fn lemma_active_in_range(&self)
        requires
            self.wf(),
        ensures
            self.active() matches Some(index) ==> index < self.keys().len(),
            self.entry_bases().len() == self.keys().len(),
    {
    }

    /// Preparing the same operands again lands on the entry made the first
    /// time: when `first` holds `key` at `index`, `later` still holds it there
    /// at the same address (as every `insert` keeps earlier entries), and
    /// `found` is `later` after `activate(key)` succeeded, the active entry of
    /// `found` is `index`, at the address it had in `first`.
    pub proof fn lemma_reactivation_finds_first_entry(
        first: &Self,
        later: &Self,
        found: &Self,
        key: TmaNvfp4DeviceScaleDescriptorKey,
        index: int,
    )
        requires
            first.wf(),
            later.wf(),
            found.wf(),
            0 <= index < first.keys().len(),
            first.keys()[index] == key,
            index < later.keys().len(),
            later.keys()[index] == key,
            later.entry_bases()[index] == first.entry_bases()[index],
            found.keys() == later.keys(),
            found.entry_bases() == later.entry_bases(),
            found.active() matches Some(active) && found.keys()[active as int] == key,
        ensures
            found.active() == Some(index as usize),
            found.entry_bases()[index] == first.entry_bases()[index],
    {
        let active = found.active()->0 as int;
        found.lemma_key_names_one_entry(active, index);
    }

    /// What `insert` records is what `activate` finds again: when `inserted` is
    /// a cache after `key` was inserted at `device_base`, and `found` is that
    /// cache after `activate(key)` succeeded, the active entry of `found` is the
    /// inserted one, at `device_base`.
    pub proof fn lemma_activate_finds_inserted(
        before: &Self,
        inserted: &Self,
        found: &Self,
        key: TmaNvfp4DeviceScaleDescriptorKey,
        device_base: u64,
    )
        requires
            before.wf(),
            inserted.wf(),
            found.wf(),
            inserted.keys() == before.keys().push(key),
            inserted.entry_bases() == before.entry_bases().push(device_base),
            found.keys() == inserted.keys(),
            found.entry_bases() == inserted.entry_bases(),
            found.active() matches Some(index) && found.keys()[index as int] == key,
        ensures
            found.active() == Some(before.keys().len() as usize),
            found.entry_bases()[before.keys().len() as int] == device_base,
    {
        let index = found.active()->0 as int;
        found.lemma_key_names_one_entry(index, before.keys().len() as int);
    }

    /// Device address of descriptor `descriptor` (0: A, 1: B, 2: A scales,
    /// 3: B scales) of the active entry.
    fn descriptor_deviceptr(&self, descriptor: u64) -> (address: u64)
        requires
            self.wf(),
            self.active() is Some,
            descriptor < TMA_DESCRIPTOR_COUNT,
        ensures
            address == self.entry_bases()[self.active()->0 as int] + descriptor
                * TMA_DESCRIPTOR_BYTES,
    {
        let active = match self.active {
            Some(index) => index,
            None => 0,
        };
        proof {
            let i = active as int;
            assert(self.entry_bases@[i] == entry_base(self.chunk_bases@, i));
            assert(i / 64 < self.chunk_bases@.len()) by {
                assert(i < self.chunk_bases@.len() * 64);
            }
            assert(self.chunk_bases@[i / 64] + chunk_bytes() <= u64::MAX);
            assert((i % 64) * 512 <= 63 * 512);
        }
        self.entry_bases[active] + descriptor * TMA_DESCRIPTOR_BYTES
    }

    /// Device address of the active entry's A-operand descriptor.
    pub fn a_deviceptr(&self) -> (address: u64)
        requires
            self.wf(),
            self.active() is Some,
        ensures
            address == self.entry_bases()[self.active()->0 as int],
    {
        self.descriptor_deviceptr(0)
    }

    /// Device address of the active entry's B-operand descriptor.
    pub fn b_deviceptr(&self) -> (address: u64)
        requires
            self.wf(),
            self.active() is Some,
        ensures
            address == self.entry_bases()[self.active()->0 as int] + TMA_DESCRIPTOR_BYTES,
    {
        self.descriptor_deviceptr(1)
    }

    /// Device address of the active entry's A-scale descriptor.
    pub fn a_scales_deviceptr(&self) -> (address: u64)
        requires
            self.wf(),
            self.active() is Some,
        ensures
            address == self.entry_bases()[self.active()->0 as int] + 2 * TMA_DESCRIPTOR_BYTES,
    {
        self.descriptor_deviceptr(2)
    }

    /// Device address of the active entry's B-scale descriptor.
    pub fn b_scales_deviceptr(&self) -> (address: u64)
        requires
            self.wf(),
            self.active() is Some,
        ensures
            address == self.entry_bases()[self.active()->0 as int] + 3 * TMA_DESCRIPTOR_BYTES,
    {
        self.descriptor_deviceptr(3)
    }
}


} // verus!
