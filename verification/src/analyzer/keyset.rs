//! A set of identifier keys as a bitmap in chunks. Its size follows the identifier
//! space, not the traffic: a device that walks all 29-bit identifiers fills 64 MiB.

use std::collections::HashMap;

use vstd::prelude::*;

verus! {

broadcast use vstd::std_specs::hash::group_hash_axioms;

/// Keys in one chunk of 512 bytes.
pub const CHUNK_KEYS: u64 = 4096;

/// Keys of extended identifiers start here; those of standard ones lie below
/// [`STANDARD_KEYS`].
pub const EXTENDED_KEY: u64 = 0x1_0000_0000;

/// Keys of standard identifiers, as 16-bit numbers.
pub const STANDARD_KEYS: u64 = 0x1_0000;

/// One past the last key of an extended identifier, as a 32-bit number.
pub const KEY_END: u64 = 0x2_0000_0000;

/// No set of keys takes more chunks than this.
pub const MAX_CHUNKS: u64 = 0x10_0010;

/// No set of 11-bit and 29-bit identifiers takes more chunks than this.
pub const MAX_BUS_CHUNKS: u64 = 0x2_0001;

/// The key stands for an identifier number, whether or not that fits its width.
pub open spec fn is_key(k: u64) -> bool {
    k < STANDARD_KEYS || EXTENDED_KEY <= k < KEY_END
}

/// The key stands for an identifier that a bus can carry: 11 bits, or 29 bits.
pub open spec fn is_bus_key(k: u64) -> bool {
    k <= 0x7FF || EXTENDED_KEY <= k <= EXTENDED_KEY + 0x1FFF_FFFF
}

spec fn bit(word: u64, b: u64) -> bool {
    word & (1u64 << b) != 0
}

proof fn bit_of_zero(b: u64)
    requires
        b < 64,
    ensures
        !bit(0, b),
{
    assert(0u64 & (1u64 << b) == 0) by (bit_vector);
}

proof fn bit_of_or(word: u64, b: u64, c: u64)
    requires
        b < 64,
        c < 64,
    ensures
        bit(word | (1u64 << b), c) == (b == c || bit(word, c)),
{
    assert((word | (1u64 << b)) & (1u64 << c) != 0 <==> (b == c || word & (1u64 << c) != 0))
        by (bit_vector)
        requires
            b < 64,
            c < 64,
    ;
}

/// A set of keys.
pub struct KeySet {
    chunks: HashMap<u64, [u64; 64]>,
    len: u64,
}

spec fn member(chunks: Map<u64, [u64; 64]>, k: u64) -> bool {
    &&& chunks.contains_key(k / CHUNK_KEYS)
    &&& bit(chunks[k / CHUNK_KEYS]@[k as int / 64 % 64], k % 64)
}

spec fn members(chunks: Map<u64, [u64; 64]>) -> Set<u64> {
    Set::new(|k: u64| member(chunks, k))
}

impl View for KeySet {
    type V = Set<u64>;

    closed spec fn view(&self) -> Set<u64> {
        members(self.chunks@)
    }
}

/// Every chunk holds a key.
spec fn inhabited(chunks: Map<u64, [u64; 64]>) -> bool {
    forall|c: u64| #[trigger]
        chunks.contains_key(c) ==> exists|k: u64| #[trigger]
            member(chunks, k) && k / CHUNK_KEYS == c
}

/// Chunk numbers below `standard`, and `extended` of them from 2^20 on, are no more
/// than the two together.
proof fn few_numbers(numbers: Set<u64>, standard: u64, extended: u64)
    requires
        standard <= 0x10_0000,
        extended <= 0x10_0000,
        forall|c: u64| #[trigger]
            numbers.contains(c) ==> c < standard || 0x10_0000 <= c < 0x10_0000 + extended,
    ensures
        numbers.finite(),
        numbers.len() <= standard + extended,
{
    let place = |c: u64|
        if c < standard {
            c as int
        } else {
            c - 0x10_0000 + standard
        };
    let image = numbers.map(place);
    let range = vstd::set_lib::set_int_range(0, standard + extended);
    vstd::set_lib::lemma_int_range(0, standard + extended);
    assert(image.subset_of(range)) by {
        assert forall|i: int| image.contains(i) implies range.contains(i) by {
            let c = choose|c: u64| numbers.contains(c) && place(c) == i;
            assert(numbers.contains(c));
        }
    }
    vstd::set_lib::lemma_len_subset(image, range);
    let back = |i: int|
        if i < standard {
            i as u64
        } else {
            (i - standard + 0x10_0000) as u64
        };
    assert(image.map(back) =~= numbers) by {
        assert forall|c: u64| numbers.contains(c) implies image.map(back).contains(c) by {
            assert(image.contains(place(c)));
            assert(back(place(c)) == c);
        }
        assert forall|c: u64| image.map(back).contains(c) implies numbers.contains(c) by {
            let i = choose|i: int| image.contains(i) && back(i) == c;
            let d = choose|d: u64| numbers.contains(d) && place(d) == i;
            assert(numbers.contains(d));
        }
    }
    vstd::set_lib::lemma_map_size_bound(image, numbers, back);
}

impl KeySet {
    /// How many chunks the set takes.
    pub closed spec fn chunk_count(&self) -> nat {
        self.chunks@.dom().len()
    }

    /// The set is finite, its size is known, and its storage is bounded: by the number
    /// of its keys, and by the identifier space.
    pub open spec fn wf(&self) -> bool {
        &&& self@.finite()
        &&& self.chunks_ok()
        &&& self.chunk_count() <= self@.len()
        &&& self.chunk_count() <= MAX_CHUNKS
        &&& (forall|k: u64| #[trigger] self@.contains(k) ==> is_bus_key(k)) ==> self.chunk_count()
            <= MAX_BUS_CHUNKS
    }

    /// Chunks hold identifier keys, at least one each, and are counted.
    pub closed spec fn chunks_ok(&self) -> bool {
        &&& self.chunks@.dom().finite()
        &&& inhabited(self.chunks@)
        &&& forall|k: u64| #[trigger] member(self.chunks@, k) ==> is_key(k)
        &&& self.len == self@.len()
    }

    pub fn new() -> (r: Self)
        ensures
            r.wf(),
            r@ == Set::<u64>::empty(),
    {
        let r: KeySet = KeySet { chunks: HashMap::new(), len: 0 };
        assert(r@ =~= Set::<u64>::empty());
        r
    }

    pub fn len(&self) -> (n: u64)
        requires
            self.wf(),
        ensures
            n == self@.len(),
    {
        self.len
    }

    pub fn clear(&mut self)
        ensures
            final(self).wf(),
            final(self)@ == Set::<u64>::empty(),
    {
        self.chunks.clear();
        self.len = 0;
        assert(self@ =~= Set::<u64>::empty());
    }

    /// Adds a key.
    pub fn insert(&mut self, k: u64)
        requires
            old(self).wf(),
            is_key(k),
            old(self)@.len() < u64::MAX,
        ensures
            final(self).wf(),
            final(self)@ == old(self)@.insert(k),
    {
        let number: u64 = k / CHUNK_KEYS;
        let w: usize = (k / 64 % 64) as usize;
        let b: u64 = k % 64;
        let known: Option<[u64; 64]> = match self.chunks.get(&number) {
            Some(chunk) => Some(*chunk),
            None => None,
        };
        let ghost before = self.chunks@;
        let mut chunk: [u64; 64] = match known {
            Some(chunk) => chunk,
            None => [0u64;64],
        };
        let ghost was = chunk@;
        let word: u64 = chunk[w];
        let present: bool = word & (1u64 << b) != 0;
        chunk[w] = word | (1u64 << b);
        if !present {
            self.len = self.len + 1;
        }
        self.chunks.insert(number, chunk);
        proof {
            let after = self.chunks@;
            assert forall|j: u64| member(after, j) <==> (j == k || member(before, j)) by {
                let c = j / CHUNK_KEYS;
                let v = j as int / 64 % 64;
                if c == number {
                    assert(j == k <==> (v == w && j % 64 == b)) by {
                        assert(j == c * 4096 + v * 64 + j % 64);
                        assert(k == number * 4096 + w * 64 + b);
                    }
                    bit_of_or(word, b, j % 64);
                    bit_of_zero(j % 64);
                    if v == w {
                        assert(after[c]@[v] == word | (1u64 << b));
                    } else {
                        assert(after[c]@[v] == was[v]);
                    }
                }
            }
            assert(self@ =~= old(self)@.insert(k));
            assert(present <==> old(self)@.contains(k)) by {
                bit_of_zero(b);
            }
            if present {
                assert(old(self)@.insert(k) =~= old(self)@);
            }
            assert(inhabited(after)) by {
                assert forall|c: u64| #[trigger] after.contains_key(c) implies exists|j: u64|
                    #[trigger] member(after, j) && j / CHUNK_KEYS == c by {
                    if c == number {
                        assert(member(after, k));
                    } else {
                        assert(before.contains_key(c));
                        let j = choose|j: u64| #[trigger]
                            member(before, j) && j / CHUNK_KEYS == c;
                        assert(member(after, j));
                    }
                }
            }
            storage_bounds(*self);
        }
    }
}

/// What [`KeySet::wf`] says of the storage follows from the chunks being inhabited.
proof fn storage_bounds(s: KeySet)
    requires
        s@.finite(),
        s.chunks_ok(),
    ensures
        s.wf(),
{
    let numbers = s.chunks@.dom();
    assert forall|c: u64| #[trigger] numbers.contains(c) implies c < 16 || 0x10_0000 <= c
        < 0x10_0000 + 0x10_0000 by {
        assert(s.chunks@.contains_key(c));
        let k = choose|k: u64| #[trigger] member(s.chunks@, k) && k / CHUNK_KEYS == c;
        assert(is_key(k));
    }
    few_numbers(numbers, 16, 0x10_0000);
    if forall|k: u64| #[trigger] s@.contains(k) ==> is_bus_key(k) {
        assert forall|c: u64| #[trigger] numbers.contains(c) implies c < 1 || 0x10_0000 <= c
            < 0x10_0000 + 0x2_0000 by {
            assert(s.chunks@.contains_key(c));
            let k = choose|k: u64| #[trigger] member(s.chunks@, k) && k / CHUNK_KEYS == c;
            assert(s@.contains(k));
        }
        few_numbers(numbers, 1, 0x2_0000);
    }
    let f = |k: u64| k / CHUNK_KEYS;
    assert(numbers =~= s@.map(f)) by {
        assert forall|c: u64| numbers.contains(c) implies s@.map(f).contains(c) by {
            assert(s.chunks@.contains_key(c));
            let k = choose|k: u64| #[trigger] member(s.chunks@, k) && k / CHUNK_KEYS == c;
            assert(s@.contains(k));
            assert(f(k) == c);
        }
        assert forall|c: u64| s@.map(f).contains(c) implies numbers.contains(c) by {
            let k = choose|k: u64| s@.contains(k) && f(k) == c;
            assert(member(s.chunks@, k));
        }
    }
    vstd::set_lib::lemma_map_size_bound(s@, numbers, f);
}

} // verus!
