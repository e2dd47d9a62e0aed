//! Memory-conscious containers: a pool of reusable vectors, a compact
//! fixed-width price record and a fixed-capacity circular buffer for rolling
//! windows.

use vstd::prelude::*;
use vstd::std_specs::ops::AddSpec;

verus! {

/// The capacity that a vector's allocation reports. Nothing is claimed of
/// it: the allocator decides.
#[verifier::external_body]
fn vec_capacity<T>(v: &Vec<T>) -> (r: usize) {
    v.capacity()
}

/// Memory pool for frequent allocations to reduce allocation overhead.
/// Every vector held in the pool is empty.
pub struct MemoryPool<T> {
    pool: Vec<Vec<T>>,
    default_capacity: usize,
}

impl<T> MemoryPool<T> {
    #[verifier::type_invariant]
    closed spec fn pooled_are_empty(&self) -> bool {
        forall|i: int| 0 <= i < self.pool@.len() ==> #[trigger] self.pool@[i]@.len() == 0
    }

    /// The vectors held for reuse, the most recently returned last.
    pub closed spec fn pooled(&self) -> Seq<Vec<T>> {
        self.pool@
    }

    /// Number of vectors held for reuse.
    pub open spec fn spec_pool_size(&self) -> nat {
        self.pooled().len()
    }

    /// The capacity that fresh vectors are requested with.
    pub closed spec fn spec_default_capacity(&self) -> usize {
        self.default_capacity
    }

    /// Whether a returned vector of capacity `capacity` is kept for reuse:
    /// exactly when it is at most twice the default capacity.
    pub open spec fn spec_keeps(default_capacity: usize, capacity: usize) -> bool {
        capacity <= 2 * default_capacity
    }

    /// Create a new memory pool with specified default capacity
    pub fn new(default_capacity: usize) -> (r: Self)
        ensures
            r.pooled() == Seq::<Vec<T>>::empty(),
            r.spec_default_capacity() == default_capacity,
    {
        Self { pool: Vec::new(), default_capacity }
    }

    /// Get a vector from the pool or create a new one. The vector is empty;
    /// when the pool holds any, the one returned most recently is taken.
    pub fn get(&mut self) -> (r: Vec<T>)
        ensures
            r@.len() == 0,
            final(self).spec_default_capacity() == old(self).spec_default_capacity(),
            old(self).pooled().len() > 0 ==> r == old(self).pooled().last()
                && final(self).pooled() == old(self).pooled().drop_last(),
            old(self).pooled().len() == 0 ==> final(self).pooled() == old(self).pooled(),
    {
        proof {
            use_type_invariant(&*self);
        }
        let mut pool = Vec::new();
        std::mem::swap(&mut pool, &mut self.pool);
        let taken = pool.pop();
        self.pool = pool;
        match taken {
            Some(v) => v,
            None => Vec::with_capacity(self.default_capacity),
        }
    }

    /// Whether a returned vector with the given capacity is kept for reuse.
    pub fn keeps(&self, capacity: usize) -> (r: bool)
        ensures
            r == Self::spec_keeps(self.spec_default_capacity(), capacity),
    {
        capacity <= self.default_capacity || capacity - self.default_capacity <= self.default_capacity
    }

    /// Keeps an emptied vector whose allocation has the given capacity:
    /// it is pushed onto the pool exactly when `keeps` accepts the
    /// capacity, and dropped otherwise.
    pub fn keep_returned(&mut self, vec: Vec<T>, capacity: usize)
        requires
            vec@.len() == 0,
        ensures
            final(self).spec_default_capacity() == old(self).spec_default_capacity(),
            final(self).pooled() == if Self::spec_keeps(old(self).spec_default_capacity(), capacity) {
                old(self).pooled().push(vec)
            } else {
                old(self).pooled()
            },
    {
        proof {
            use_type_invariant(&*self);
        }
        if self.keeps(capacity) {
            let mut pool = Vec::new();
            std::mem::swap(&mut pool, &mut self.pool);
            pool.push(vec);
            self.pool = pool;
        }
    }

    /// Return a vector to the pool for reuse. It is emptied and kept when its
    /// capacity is at most twice the default capacity, dropped otherwise.
    /// The capacity is the allocator's: whatever it is, the pool either
    /// stays as it was or gains the emptied vector on top, as
    /// `keep_returned` says for that capacity.
    pub fn return_vec(&mut self, vec: Vec<T>)
        ensures
            final(self).spec_default_capacity() == old(self).spec_default_capacity(),
            exists|capacity: usize, kept: Vec<T>|
                kept@.len() == 0 && final(self).pooled() == if Self::spec_keeps(
                    old(self).spec_default_capacity(),
                    capacity,
                ) {
                    old(self).pooled().push(kept)
                } else {
                    old(self).pooled()
                },
    {
        let mut vec = vec;
        vec.clear();
        let capacity = vec_capacity(&vec);
        let ghost emptied = vec;
        self.keep_returned(vec, capacity);
        assert(emptied@.len() == 0 && self.pooled() == if Self::spec_keeps(old(self).spec_default_capacity(), capacity) {
            old(self).pooled().push(emptied)
        } else {
            old(self).pooled()
        });
    }

    /// Get current pool size
    pub fn pool_size(&self) -> (r: usize)
        ensures
            r == self.spec_pool_size(),
    {
        self.pool.len()
    }

    /// Clear the pool
    pub fn clear(&mut self)
        ensures
            final(self).spec_pool_size() == 0,
            final(self).spec_default_capacity() == old(self).spec_default_capacity(),
    {
        self.pool = Vec::new();
    }
}


/// Which returned vectors the pool keeps: exactly those whose capacity is
/// at most twice the default capacity; so every vector no larger than the
/// default is kept, and one more than twice as large never is.
pub proof fn lemma_keeps_rule(default_capacity: usize, capacity: usize)
    ensures
        MemoryPool::<u8>::spec_keeps(default_capacity, capacity) <==> capacity <= 2 * default_capacity,
        capacity <= default_capacity ==> MemoryPool::<u8>::spec_keeps(default_capacity, capacity),
        capacity > 2 * default_capacity ==> !MemoryPool::<u8>::spec_keeps(default_capacity, capacity),
{
}


/// Compact price record: price in units of 1/10000, volume and a timestamp
/// offset, each in 32 bits.
#[derive(Debug, Clone, Copy)]
pub struct CompactPrice {
    price_scaled: u32,
    volume: u32,
    timestamp_offset: u32,
}

/// Scale of the stored price: the price is held in units of 1/10000.
pub const PRICE_SCALE: u32 = 10000;

/// Epoch that stored timestamps are offsets from.
pub const TIMESTAMP_EPOCH: u64 = 1_000_000_000;

impl CompactPrice {
    /// The stored price, in units of 1/10000.
    pub closed spec fn spec_price_scaled(&self) -> u32 {
        self.price_scaled
    }

    /// The stored volume.
    pub closed spec fn spec_volume(&self) -> u64 {
        self.volume as u64
    }

    /// The stored timestamp.
    pub closed spec fn spec_timestamp(&self) -> u64 {
        (TIMESTAMP_EPOCH + self.timestamp_offset) as u64
    }

    /// Creates a record from a price already scaled to units of 1/10000.
    /// The volume saturates at `u32::MAX`, the timestamp at
    /// `TIMESTAMP_EPOCH + u32::MAX`.
    pub fn new_scaled(price_scaled: u32, volume: u64, timestamp: u64) -> (r: Self)
        requires
            timestamp >= TIMESTAMP_EPOCH,
        ensures
            r.spec_price_scaled() == price_scaled,
            r.spec_volume() == if volume <= u32::MAX { volume } else { u32::MAX as u64 },
            r.spec_timestamp() == if timestamp - TIMESTAMP_EPOCH <= u32::MAX { timestamp } else {
                (TIMESTAMP_EPOCH + u32::MAX) as u64
            },
    {
        let volume: u32 = if volume <= u32::MAX as u64 { volume as u32 } else { u32::MAX };
        let offset_wide = timestamp - TIMESTAMP_EPOCH;
        let timestamp_offset: u32 = if offset_wide <= u32::MAX as u64 { offset_wide as u32 } else { u32::MAX };
        Self { price_scaled, volume, timestamp_offset }
    }

    /// The stored price, in units of 1/10000.
    pub fn price_scaled(&self) -> (r: u32)
        ensures
            r == self.spec_price_scaled(),
    {
        self.price_scaled
    }

    /// Get the volume
    pub fn volume(&self) -> (r: u64)
        ensures
            r == self.spec_volume(),
    {
        self.volume as u64
    }

    /// Get the timestamp
    pub fn timestamp(&self) -> (r: u64)
        ensures
            r == self.spec_timestamp(),
    {
        TIMESTAMP_EPOCH + self.timestamp_offset as u64
    }

    /// Memory size of this structure
    pub fn memory_size() -> (r: usize)
        ensures
            r as nat == vstd::layout::size_of::<CompactPrice>(),
    {
        core::mem::size_of::<CompactPrice>()
    }
}

/// A record keeps a volume up to `u32::MAX` and a timestamp up to
/// `u32::MAX` seconds past the epoch exactly: reading them back gives what
/// was stored.
pub proof fn lemma_compact_price_round_trip(p: CompactPrice, price_scaled: u32, volume: u64, timestamp: u64)
    requires
        timestamp >= TIMESTAMP_EPOCH,
        p.spec_price_scaled() == price_scaled,
        p.spec_volume() == if volume <= u32::MAX { volume } else { u32::MAX as u64 },
        p.spec_timestamp() == if timestamp - TIMESTAMP_EPOCH <= u32::MAX { timestamp } else {
            (TIMESTAMP_EPOCH + u32::MAX) as u64
        },
        volume <= u32::MAX,
        timestamp - TIMESTAMP_EPOCH <= u32::MAX,
    ensures
        p.spec_volume() == volume,
        p.spec_timestamp() == timestamp,
        p.spec_price_scaled() == price_scaled,
{
}


/// Fixed-capacity circular buffer for rolling window calculations: once full,
/// each push overwrites the oldest element.
pub struct CacheOptimizedCircularBuffer<T> {
    data: Vec<T>,
    head: usize,
    tail: usize,
    capacity: usize,
    is_full: bool,
}

impl<T> CacheOptimizedCircularBuffer<T> {
    #[verifier::type_invariant]
    closed spec fn well_formed(&self) -> bool {
        &&& self.data@.len() == self.capacity
        &&& self.capacity == 0 ==> self.head == 0 && self.tail == 0 && !self.is_full
        &&& self.capacity > 0 ==> self.head < self.capacity && self.tail < self.capacity
        &&& !self.is_full ==> self.tail == 0
        &&& self.is_full ==> self.head == self.tail
    }

    /// The fixed number of elements the buffer holds when full.
    pub closed spec fn spec_capacity(&self) -> nat {
        self.capacity as nat
    }

    /// Number of elements held.
    pub closed spec fn spec_len(&self) -> nat {
        if self.is_full { self.capacity as nat } else { self.head as nat }
    }

    /// Whether the buffer holds `capacity` elements.
    pub closed spec fn spec_is_full(&self) -> bool {
        self.is_full
    }

    /// The elements held, oldest first.
    pub closed spec fn contents(&self) -> Seq<T> {
        Seq::new(self.spec_len(), |i: int| self.data@[(self.tail + i) % (self.capacity as int)])
    }

    /// The physical slot holding logical position `i` (oldest first).
    fn slot(&self, start: usize, i: usize) -> (r: usize)
        requires
            self.capacity > 0,
            start < self.capacity,
            i < self.capacity,
        ensures
            r < self.capacity,
            r as int == (start + i) % (self.capacity as int),
    {
        let off = self.capacity - start;
        let ghost c = self.capacity as int;
        if i < off {
            proof {
                vstd::arithmetic::div_mod::lemma_small_mod((start + i) as nat, c as nat);
            }
            start + i
        } else {
            proof {
                vstd::arithmetic::div_mod::lemma_mod_add_multiples_vanish((i - off) as int, c);
                vstd::arithmetic::div_mod::lemma_small_mod((i - off) as nat, c as nat);
            }
            i - off
        }
    }
}

impl<T: Clone + Default> CacheOptimizedCircularBuffer<T> {
    /// Create a new circular buffer with specified capacity
    pub fn new(capacity: usize) -> (r: Self)
        ensures
            r.spec_capacity() == capacity,
            r.spec_len() == 0,
            !r.spec_is_full(),
            r.contents() == Seq::<T>::empty(),
    {
        let mut data: Vec<T> = Vec::with_capacity(capacity);
        data.resize(capacity, T::default());
        let r = Self { data, head: 0, tail: 0, capacity, is_full: false };
        assert(r.contents() =~= Seq::<T>::empty());
        r
    }
}

impl<T> CacheOptimizedCircularBuffer<T> {
    /// Push a new element, overwriting the oldest if buffer is full
    pub fn push(&mut self, item: T)
        requires
            old(self).spec_capacity() > 0,
        ensures
            final(self).spec_capacity() == old(self).spec_capacity(),
            old(self).spec_len() < old(self).spec_capacity() ==> final(self).contents() == old(self).contents().push(item),
            old(self).spec_len() == old(self).spec_capacity() ==> final(self).contents() == old(self).contents().drop_first().push(item),
            final(self).spec_len() == if old(self).spec_len() < old(self).spec_capacity() {
                old(self).spec_len() + 1
            } else {
                old(self).spec_len()
            },
            final(self).spec_is_full() == (final(self).spec_len() == final(self).spec_capacity()),
            final(self).contents() == push_step(old(self).contents(), item, old(self).spec_capacity()),
    {
        proof {
            use_type_invariant(&*self);
        }
        let ghost old_contents = self.contents();
        let ghost old_len = self.spec_len();
        let ghost old_data = self.data@;
        let mut taken = Self { data: Vec::new(), head: 0, tail: 0, capacity: 0, is_full: false };
        std::mem::swap(self, &mut taken);
        let Self { data, head, tail, capacity: cap, is_full: full } = taken;
        let mut data = data;
        data.set(head, item);
        let new_tail = if full { if tail + 1 == cap { 0 } else { tail + 1 } } else { tail };
        let new_head = if head + 1 == cap { 0 } else { head + 1 };
        let new_full = full || new_head == new_tail;
        let ghost old_head = head;
        let ghost old_tail = tail;
        *self = Self { data, head: new_head, tail: new_tail, capacity: cap, is_full: new_full };
        proof {
            let c = cap as int;
            if !full {
                assert(old_tail == 0);
                assert(old_len == old_head);
                if new_full {
                    assert(new_head == 0);
                    assert(old_head + 1 == c);
                }
                assert forall|i: int| 0 <= i < self.spec_len() implies #[trigger] self.contents()[i]
                    == old_contents.push(item)[i] by {
                    assert((0 + i) % c == i) by {
                        vstd::arithmetic::div_mod::lemma_small_mod(i as nat, c as nat);
                    }
                    if i < old_len {
                        assert(old_contents[i] == old_data[(old_tail + i) % c]);
                    }
                }
                assert(self.contents() =~= old_contents.push(item));
            } else {
                assert(old_len == c);
                assert(old_head == old_tail);
                assert forall|i: int| 0 <= i < self.spec_len() implies #[trigger] self.contents()[i]
                    == old_contents.drop_first().push(item)[i] by {
                    let j = (new_tail + i) % c;
                    assert(new_tail == (old_tail + 1) % c) by {
                        if old_tail + 1 < c {
                            vstd::arithmetic::div_mod::lemma_small_mod(old_tail as nat + 1, c as nat);
                        } else {
                            vstd::arithmetic::div_mod::lemma_mod_self_0(c);
                        }
                    }
                    assert(j == (old_tail + 1 + i) % c) by {
                        vstd::arithmetic::div_mod::lemma_add_mod_noop(old_tail + 1, i, c);
                        vstd::arithmetic::div_mod::lemma_mod_twice(old_tail + 1, c);
                        vstd::arithmetic::div_mod::lemma_add_mod_noop((old_tail + 1) % c, i, c);
                    }
                    if i < c - 1 {
                        assert(old_contents[i + 1] == old_data[(old_tail + (i + 1)) % c]);
                        assert(j != old_head) by {
                            let x = old_tail + 1 + i;
                            if x < c {
                                vstd::arithmetic::div_mod::lemma_small_mod(x as nat, c as nat);
                            } else {
                                vstd::arithmetic::div_mod::lemma_mod_add_multiples_vanish(x - c, c);
                                vstd::arithmetic::div_mod::lemma_small_mod((x - c) as nat, c as nat);
                            }
                        }
                    } else {
                        assert(i == c - 1);
                        assert(j == old_head) by {
                            assert(old_tail + 1 + i == old_tail + c);
                            vstd::arithmetic::div_mod::lemma_mod_add_multiples_vanish(old_tail as int, c);
                            vstd::arithmetic::div_mod::lemma_small_mod(old_tail as nat, c as nat);
                        }
                    }
                }
                assert(self.contents() =~= old_contents.drop_first().push(item));
            }
        }
    }

    /// Get the current length of the buffer
    pub fn len(&self) -> (r: usize)
        ensures
            r == self.spec_len(),
            r == self.contents().len(),
            r <= self.spec_capacity(),
    {
        proof {
            use_type_invariant(self);
        }
        if self.is_full {
            self.capacity
        } else {
            self.head
        }
    }

    /// Check if the buffer is empty
    pub fn is_empty(&self) -> (r: bool)
        ensures
            r == (self.spec_len() == 0),
            r == (self.contents().len() == 0),
    {
        proof {
            use_type_invariant(self);
        }
        !self.is_full && self.head == 0
    }

    /// Check if the buffer is full
    pub fn is_full(&self) -> (r: bool)
        ensures
            r == self.spec_is_full(),
            r == (self.spec_capacity() > 0 && self.contents().len() == self.spec_capacity()),
    {
        proof {
            use_type_invariant(self);
        }
        self.is_full
    }

    /// The most recent `n` elements (all of them when fewer are held), oldest first.
    pub fn recent_slice(&self, n: usize) -> (r: Vec<&T>)
        ensures
            r@.len() == if n <= self.spec_len() { n as nat } else { self.spec_len() },
            forall|i: int| 0 <= i < r@.len() ==> *#[trigger] r@[i] == self.contents()[self.spec_len() - r@.len() + i],
    {
        proof {
            use_type_invariant(self);
        }
        let len = self.len();
        let take = if n < len { n } else { len };
        let mut result: Vec<&T> = Vec::with_capacity(take);
        if take == 0 {
            return result;
        }
        let start_index = if len >= n {
            if self.head >= n { self.head - n } else { self.head + (self.capacity - n) }
        } else {
            self.tail
        };
        let ghost c = self.capacity as int;
        proof {
            assert(start_index as int == (self.tail + (len - take)) % c) by {
                if len >= n {
                    if self.is_full {
                        assert(self.head == self.tail);
                        vstd::arithmetic::div_mod::lemma_small_mod(start_index as nat, c as nat);
                        if self.head >= n {
                            assert(self.tail + (len - take) == start_index + c);
                            vstd::arithmetic::div_mod::lemma_mod_add_multiples_vanish(start_index as int, c);
                        } else {
                            assert(self.tail + (len - take) == start_index);
                        }
                    } else {
                        assert(self.tail == 0);
                        vstd::arithmetic::div_mod::lemma_small_mod(start_index as nat, c as nat);
                    }
                } else {
                    vstd::arithmetic::div_mod::lemma_small_mod(self.tail as nat, c as nat);
                }
            }
        }
        let mut i: usize = 0;
        while i < take
            invariant
                c == self.capacity,
                c > 0,
                self.data@.len() == c,
                take <= len,
                len == self.spec_len(),
                len <= c,
                start_index < c,
                start_index as int == (self.tail + (len - take)) % c,
                i <= take,
                result@.len() == i,
                forall|j: int| 0 <= j < i ==> *#[trigger] result@[j] == self.contents()[len - take + j],
            decreases take - i,
        {
            let idx = self.slot(start_index, i);
            proof {
                let k = len - take + i;
                assert(idx as int == (self.tail + k) % c) by {
                    vstd::arithmetic::div_mod::lemma_add_mod_noop(self.tail + (len - take), i as int, c);
                    vstd::arithmetic::div_mod::lemma_mod_twice(self.tail + (len - take), c);
                    vstd::arithmetic::div_mod::lemma_small_mod(i as nat, c as nat);
                    vstd::arithmetic::div_mod::lemma_add_mod_noop(start_index as int, i as int, c);
                }
            }
            result.push(&self.data[idx]);
            i = i + 1;
        }
        result
    }
}


/// The elements of `s` added up from `init`, left to right.
pub open spec fn fold_add<T: core::ops::Add<Output = T>>(init: T, s: Seq<T>) -> T
    decreases s.len(),
{
    if s.len() == 0 {
        init
    } else {
        fold_add(init, s.drop_last()).add_spec(s.last())
    }
}

/// Every addition of the left-to-right sum of `s` from `init` is defined.
pub open spec fn fold_add_defined<T: core::ops::Add<Output = T>>(init: T, s: Seq<T>) -> bool
    decreases s.len(),
{
    if s.len() == 0 {
        true
    } else {
        fold_add_defined(init, s.drop_last()) && fold_add(init, s.drop_last()).add_req(s.last())
    }
}

/// Definedness of a sum carries over to its prefixes.
proof fn lemma_fold_add_defined_prefix<T: core::ops::Add<Output = T>>(init: T, s: Seq<T>, k: int)
    requires
        fold_add_defined(init, s),
        0 <= k <= s.len(),
    ensures
        fold_add_defined(init, s.subrange(0, k)),
    decreases s.len(),
{
    if k < s.len() {
        assert(s.drop_last().subrange(0, k) =~= s.subrange(0, k));
        lemma_fold_add_defined_prefix(init, s.drop_last(), k);
    } else {
        assert(s.subrange(0, k) =~= s);
    }
}

impl<T: Copy + Default + core::ops::Add<Output = T>> CacheOptimizedCircularBuffer<T> {
    /// Calculate sum of all elements, oldest first, starting from the default value.
    /// Every step of the sum must be allowed by the element type's `+` (for
    /// integers: no overflow); for a `+` that does not follow vstd's
    /// specification of addition, every addition must be allowed. Where that
    /// `+` follows the specification, the result is the sum of the elements
    /// held, folded from the default value; only the kept elements count,
    /// overwritten ones do not.
    pub fn sum(&self) -> (r: T)
        requires
            T::obeys_add_spec() ==> forall|d: T| call_ensures(T::default, (), d) ==> fold_add_defined(d, self.contents()),
            !T::obeys_add_spec() ==> forall|x: T, y: T| #[trigger] x.add_req(y),
        ensures
            T::obeys_add_spec() ==> exists|d: T| call_ensures(T::default, (), d) && r == fold_add(d, self.contents()),
    {
        proof {
            use_type_invariant(self);
        }
        let mut total = T::default();
        let ghost d = total;
        let len = self.len();
        let mut i: usize = 0;
        while i < len
            invariant
                len == self.spec_len(),
                len <= self.capacity,
                self.data@.len() == self.capacity,
                !self.is_full ==> self.tail == 0,
                self.capacity > 0 ==> self.tail < self.capacity,
                call_ensures(T::default, (), d),
                T::obeys_add_spec() ==> fold_add_defined(d, self.contents()),
                !T::obeys_add_spec() ==> forall|x: T, y: T| #[trigger] x.add_req(y),
                i <= len,
                T::obeys_add_spec() ==> total == fold_add(d, self.contents().subrange(0, i as int)),
            decreases len - i,
        {
            let idx = if self.is_full { self.slot(self.tail, i) } else { i };
            proof {
                let c = self.capacity as int;
                if !self.is_full {
                    vstd::arithmetic::div_mod::lemma_small_mod(i as nat, c as nat);
                }
                assert(self.data@[idx as int] == self.contents()[i as int]);
                let pre = self.contents().subrange(0, i + 1);
                assert(pre.drop_last() =~= self.contents().subrange(0, i as int));
                assert(pre.last() == self.contents()[i as int]);
                if T::obeys_add_spec() {
                    lemma_fold_add_defined_prefix(d, self.contents(), i + 1);
                }
            }
            total = total + self.data[idx];
            i = i + 1;
        }
        assert(self.contents().subrange(0, len as int) =~= self.contents());
        assert(T::obeys_add_spec() ==> call_ensures(T::default, (), d) && total == fold_add(d, self.contents()));
        total
    }
}


/// The last `c` items of `history` (all of them when there are fewer).
pub open spec fn window<T>(history: Seq<T>, c: nat) -> Seq<T> {
    if history.len() <= c {
        history
    } else {
        history.subrange(history.len() - c, history.len() as int)
    }
}

/// The contents that a push of `x` leaves in a buffer of capacity `c`
/// holding `contents`: `x` is appended, and the oldest element dropped when
/// the buffer was full.
pub open spec fn push_step<T>(contents: Seq<T>, x: T, c: nat) -> Seq<T> {
    if contents.len() < c {
        contents.push(x)
    } else {
        contents.drop_first().push(x)
    }
}

/// The contents of a buffer of capacity `c` made by `new` after the items
/// of `history` were pushed in order.
pub open spec fn contents_after<T>(history: Seq<T>, c: nat) -> Seq<T>
    decreases history.len(),
{
    if history.len() == 0 {
        Seq::empty()
    } else {
        push_step(contents_after(history.drop_last(), c), history.last(), c)
    }
}

/// A circular buffer of capacity `c` holds the last `c` items pushed:
/// after any run of pushes from `new`, its contents are the last `c` items
/// of the run, oldest first, so that it holds `min(k, c)` items after `k`
/// pushes, and is full exactly when `k >= c`.
pub proof fn lemma_pushes_keep_window<T>(history: Seq<T>, c: nat)
    requires
        c > 0,
    ensures
        contents_after(history, c) == window(history, c),
        contents_after(history, c).len() == if history.len() <= c { history.len() } else { c },
        (contents_after(history, c).len() == c) == (history.len() >= c),
    decreases history.len(),
{
    if history.len() > 0 {
        let prev = history.drop_last();
        lemma_pushes_keep_window(prev, c);
        lemma_window_push(contents_after(prev, c), prev, history.last(), c);
        assert(prev.push(history.last()) =~= history);
    } else {
        assert(window(history, c) =~= Seq::<T>::empty());
    }
}

/// A circular buffer of capacity `c` holds the last `c` items pushed:
/// when its contents are the window of a history, the contents that `push`
/// leaves are the window of the history extended by the pushed item.
pub proof fn lemma_window_push<T>(contents: Seq<T>, history: Seq<T>, x: T, c: nat)
    requires
        c > 0,
        contents == window(history, c),
    ensures
        contents.len() <= c,
        contents.len() < c ==> window(history.push(x), c) == contents.push(x),
        contents.len() == c ==> window(history.push(x), c) == contents.drop_first().push(x),
{
    let h = history.push(x);
    if history.len() < c {
        assert(window(h, c) =~= contents.push(x));
    } else if history.len() == c {
        assert(window(h, c) =~= contents.drop_first().push(x));
    } else {
        assert(window(h, c) =~= contents.drop_first().push(x));
    }
}

} // verus!
