//! CPU sets, as `sched_getaffinity` and `sched_setaffinity` take them: a
//! bit per CPU, packed into 64-bit words.
use vstd::prelude::*;
use vstd::arithmetic::power2::{pow2, lemma_pow2_unfold, lemma2_to64};

verus! {

/// `CPU_SETSIZE`: the number of CPUs that a CPU set can hold.
pub const CPU_SETSIZE: usize = 1024;

/// The number of bits in a word of a CPU set.
pub const BITS_PER_WORD: usize = 64;

/// `cpu_set_t`: a bit per CPU, 64 CPUs to a word.
#[derive(Clone, Copy, Debug)]
pub struct RawCpuSet {
    bits: [u64; 16],
}

/// Whether bit `b` of `w` is set.
pub open spec fn bit_of(w: u64, b: int) -> bool {
    (w >> (b as u64)) & 1u64 == 1u64
}

/// The number of set bits of `w`.
pub open spec fn popcount(w: u64) -> nat
    decreases w,
{
    if w == 0 {
        0
    } else {
        (w % 2) as nat + popcount(w / 2)
    }
}

/// The number of set bits in the first `n` words of `words`.
pub open spec fn count_words(words: Seq<u64>, n: int) -> nat
    decreases n,
{
    if n <= 0 {
        0
    } else {
        count_words(words, n - 1) + popcount(words[n - 1])
    }
}

impl RawCpuSet {
    /// Word `i` of the set.
    pub closed spec fn word(&self, i: int) -> u64 {
        self.bits[i]
    }

    /// The words of the set.
    pub closed spec fn words(&self) -> Seq<u64> {
        self.bits@
    }

    /// Whether `cpu` is in the set.
    pub open spec fn contains(&self, cpu: int) -> bool {
        0 <= cpu < 1024 && bit_of(self.word(cpu / 64), cpu % 64)
    }

    /// The number of CPUs in the set: the set bits of its 16 words.
    pub open spec fn count(&self) -> nat {
        count_words(self.words(), 16)
    }

    /// An empty CPU set.
    pub fn new() -> (s: Self)
        ensures
            forall|cpu: int| !s.contains(cpu),
            s.count() == 0,
    {
        let s = Self { bits: [0u64; 16] };
        assert forall|cpu: int| !s.contains(cpu) by {
            if 0 <= cpu < 1024 {
                let b = (cpu % 64) as u64;
                assert(s.word(cpu / 64) == 0);
                assert((0u64 >> b) & 1u64 == 0u64) by (bit_vector);
            }
        }
        proof {
            lemma_count_words_zero(s.words(), 16);
        }
        s
    }

    /// The set whose words are `words`, as the kernel writes them.
    pub fn from_words(words: [u64; 16]) -> (s: Self)
        ensures
            s.words() == words@,
            forall|i: int| 0 <= i < 16 ==> #[trigger] s.word(i) == words[i],
    {
        Self { bits: words }
    }

    /// The words of the set, as the kernel reads them.
    pub fn to_words(&self) -> (r: [u64; 16])
        ensures
            r@ == self.words(),
            forall|i: int| 0 <= i < 16 ==> #[trigger] self.word(i) == r[i],
    {
        self.bits
    }
}

proof fn lemma_count_words_zero(words: Seq<u64>, n: int)
    requires
        n <= words.len(),
        forall|i: int| 0 <= i < n ==> words[i] == 0,
    ensures
        count_words(words, n) == 0,
    decreases n,
{
    if n > 0 {
        lemma_count_words_zero(words, n - 1);
    }
}

/// Setting bit `k` of a word sets that bit and keeps the others.
proof fn lemma_bit_set(w: u64, k: u64, j: u64)
    requires
        k < 64,
        j < 64,
    ensures
        ((w | (1u64 << k)) >> j) & 1u64 == 1u64 <==> (j == k || (w >> j) & 1u64 == 1u64),
{
    assert(((w | (1u64 << k)) >> j) & 1u64 == 1u64 <==> (j == k || (w >> j) & 1u64 == 1u64))
        by (bit_vector)
        requires
            k < 64,
            j < 64,
    ;
}

/// Clearing bit `k` of a word clears that bit and keeps the others.
proof fn lemma_bit_clear(w: u64, k: u64, j: u64)
    requires
        k < 64,
        j < 64,
    ensures
        ((w & !(1u64 << k)) >> j) & 1u64 == 1u64 <==> (j != k && (w >> j) & 1u64 == 1u64),
{
    assert(((w & !(1u64 << k)) >> j) & 1u64 == 1u64 <==> (j != k && (w >> j) & 1u64 == 1u64))
        by (bit_vector)
        requires
            k < 64,
            j < 64,
    ;
}

/// `CPU_SET(cpu, cpuset)`: add `cpu` to the set.
#[allow(non_snake_case)]
pub fn CPU_SET(cpu: usize, cpuset: &mut RawCpuSet)
    requires
        cpu < CPU_SETSIZE,
    ensures
        forall|c: int| #[trigger]
            final(cpuset).contains(c) <==> (c == cpu || old(cpuset).contains(c)),
        forall|i: int| 0 <= i < 16 && i != cpu as int / 64 ==> #[trigger] final(cpuset).word(i)
            == old(cpuset).word(i),
        final(cpuset).word(cpu as int / 64) == old(cpuset).word(cpu as int / 64) | (1u64 << (cpu % 64) as u64),
{
    let size_in_bits = BITS_PER_WORD;
    let idx = cpu / size_in_bits;
    let offset = (cpu % size_in_bits) as u64;
    let ghost old_set = *cpuset;
    let w = cpuset.bits[idx];
    cpuset.bits[idx] = w | (1u64 << offset);
    assert forall|c: int| #[trigger]
        cpuset.contains(c) <==> (c == cpu || old_set.contains(c)) by {
        if 0 <= c < 1024 && c / 64 == idx {
            lemma_bit_set(w, offset, (c % 64) as u64);
        }
    }
}

/// `CPU_CLR(cpu, cpuset)`: remove `cpu` from the set.
#[allow(non_snake_case)]
pub fn CPU_CLR(cpu: usize, cpuset: &mut RawCpuSet)
    requires
        cpu < CPU_SETSIZE,
    ensures
        forall|c: int| #[trigger]
            final(cpuset).contains(c) <==> (c != cpu && old(cpuset).contains(c)),
        forall|i: int| 0 <= i < 16 && i != cpu as int / 64 ==> #[trigger] final(cpuset).word(i)
            == old(cpuset).word(i),
        final(cpuset).word(cpu as int / 64) == old(cpuset).word(cpu as int / 64) & !(1u64 << (cpu % 64) as u64),
{
    let size_in_bits = BITS_PER_WORD;
    let idx = cpu / size_in_bits;
    let offset = (cpu % size_in_bits) as u64;
    let ghost old_set = *cpuset;
    let w = cpuset.bits[idx];
    cpuset.bits[idx] = w & !(1u64 << offset);
    assert forall|c: int| #[trigger]
        cpuset.contains(c) <==> (c != cpu && old_set.contains(c)) by {
        if 0 <= c < 1024 && c / 64 == idx {
            lemma_bit_clear(w, offset, (c % 64) as u64);
        }
    }
}

/// `CPU_ISSET(cpu, cpuset)`: whether `cpu` is in the set.
#[allow(non_snake_case)]
pub fn CPU_ISSET(cpu: usize, cpuset: &RawCpuSet) -> (r: bool)
    requires
        cpu < CPU_SETSIZE,
    ensures
        r == cpuset.contains(cpu as int),
{
    let size_in_bits = BITS_PER_WORD;
    let idx = cpu / size_in_bits;
    let offset = (cpu % size_in_bits) as u64;
    let w = cpuset.bits[idx];
    let r = 0 != (w & (1u64 << offset));
    assert(r == ((w >> offset) & 1u64 == 1u64)) by (bit_vector)
        requires
            offset < 64,
            r == (0 != (w & (1u64 << offset))),
    ;
    r
}

/// `CPU_ZERO(cpuset)`: empty the set.
#[allow(non_snake_case)]
pub fn CPU_ZERO(cpuset: &mut RawCpuSet)
    ensures
        forall|c: int| !final(cpuset).contains(c),
        final(cpuset).count() == 0,
{
    *cpuset = RawCpuSet::new();
}

/// The number of set bits of `w`.
pub fn count_ones(w: u64) -> (r: u32)
    ensures
        r == popcount(w),
{
    let mut x = w;
    let mut c: u32 = 0;
    proof {
        lemma2_to64();
        lemma_popcount_bound(w, 64);
    }
    while x != 0
        invariant
            c + popcount(x) == popcount(w),
            popcount(w) <= 64,
        decreases x,
    {
        let b = x & 1u64;
        let next = x >> 1u64;
        assert(b == x % 2 && next == x / 2) by (bit_vector)
            requires
                b == x & 1u64,
                next == x >> 1u64,
        ;
        c = c + b as u32;
        x = next;
    }
    c
}

/// A word below `2^n` has at most `n` set bits.
proof fn lemma_popcount_bound(x: u64, n: nat)
    requires
        x < pow2(n),
    ensures
        popcount(x) <= n,
    decreases n,
{
    if x != 0 {
        if n == 0 {
            assert(pow2(0) == 1) by {
                lemma2_to64();
            }
        } else {
            lemma_pow2_unfold(n);
            lemma_popcount_bound(x / 2, (n - 1) as nat);
        }
    }
}

/// Setting a clear bit adds one to the number of set bits.
proof fn lemma_popcount_set_bit(w: u64, k: u64)
    requires
        k < 64,
        (w >> k) & 1u64 == 0u64,
    ensures
        popcount(w | (1u64 << k)) == popcount(w) + 1,
    decreases k,
{
    let v = w | (1u64 << k);
    if k == 0 {
        assert(v % 2 == 1 && v / 2 == w / 2 && w % 2 == 0) by (bit_vector)
            requires
                v == w | (1u64 << 0u64),
                (w >> 0u64) & 1u64 == 0u64,
        ;
        assert(popcount(v) == v % 2 + popcount(v / 2));
    } else {
        let k1 = (k - 1) as u64;
        assert(v % 2 == w % 2 && v / 2 == (w / 2) | (1u64 << k1) && ((w / 2) >> k1) & 1u64 == 0u64
            && v != 0) by (bit_vector)
            requires
                0 < k < 64,
                k1 == k - 1,
                v == w | (1u64 << k),
                (w >> k) & 1u64 == 0u64,
        ;
        lemma_popcount_set_bit(w / 2, k1);
        assert(popcount(v) == v % 2 + popcount(v / 2));
        assert(popcount(w) == w % 2 + popcount(w / 2));
    }
}

/// Replacing one of the first `n` words changes the count by the
/// difference of the two words' counts.
proof fn lemma_count_words_update(words: Seq<u64>, n: int, i: int, v: u64)
    requires
        0 <= i < n <= words.len(),
    ensures
        count_words(words.update(i, v), n) + popcount(words[i]) == count_words(words, n)
            + popcount(v),
    decreases n,
{
    if n - 1 > i {
        lemma_count_words_update(words, n - 1, i, v);
    } else {
        lemma_count_words_same(words, words.update(i, v), n - 1);
    }
}

proof fn lemma_count_words_same(a: Seq<u64>, b: Seq<u64>, n: int)
    requires
        n <= a.len(),
        n <= b.len(),
        forall|i: int| 0 <= i < n ==> a[i] == b[i],
    ensures
        count_words(a, n) == count_words(b, n),
    decreases n,
{
    if n > 0 {
        lemma_count_words_same(a, b, n - 1);
    }
}

/// Adding a CPU that is not in a set adds one to the set's count.
pub proof fn lemma_cpu_set_count(before: RawCpuSet, after: RawCpuSet, cpu: int)
    requires
        0 <= cpu < 1024,
        !before.contains(cpu),
        forall|i: int| 0 <= i < 16 && i != cpu / 64 ==> #[trigger] after.word(i) == before.word(
            i,
        ),
        after.word(cpu / 64) == before.word(cpu / 64) | (1u64 << (cpu % 64) as u64),
    ensures
        after.count() == before.count() + 1,
{
    let i = cpu / 64;
    let k = (cpu % 64) as u64;
    assert(before.words().len() == 16 && after.words().len() == 16) by {
        reveal_words_len(before);
        reveal_words_len(after);
    }
    let w = before.word(i);
    assert((w >> k) & 1u64 == 0u64) by (bit_vector)
        requires
            (w >> k) & 1u64 != 1u64,
    ;
    lemma_popcount_set_bit(w, k);
    let upd = before.words().update(i, after.word(i));
    assert forall|j: int| 0 <= j < 16 implies upd[j] == after.words()[j] by {
        reveal_words_index(before, j);
        reveal_words_index(after, j);
    }
    reveal_words_index(before, i);
    lemma_count_words_update(before.words(), 16, i, after.word(i));
    lemma_count_words_same(upd, after.words(), 16);
}

/// Removing a CPU that is in a set takes one off the set's count.
pub proof fn lemma_cpu_clr_count(before: RawCpuSet, after: RawCpuSet, cpu: int)
    requires
        0 <= cpu < 1024,
        before.contains(cpu),
        forall|i: int| 0 <= i < 16 && i != cpu / 64 ==> #[trigger] after.word(i) == before.word(
            i,
        ),
        after.word(cpu / 64) == before.word(cpu / 64) & !(1u64 << (cpu % 64) as u64),
    ensures
        after.count() + 1 == before.count(),
{
    let i = cpu / 64;
    let k = (cpu % 64) as u64;
    let w = before.word(i);
    let cleared = w & !(1u64 << k);
    assert((cleared >> k) & 1u64 == 0u64 && (cleared | (1u64 << k)) == w) by (bit_vector)
        requires
            k < 64,
            cleared == w & !(1u64 << k),
            (w >> k) & 1u64 == 1u64,
    ;
    lemma_popcount_set_bit(cleared, k);
    assert(before.words().len() == 16 && after.words().len() == 16) by {
        reveal_words_len(before);
        reveal_words_len(after);
    }
    let upd = before.words().update(i, after.word(i));
    assert forall|j: int| 0 <= j < 16 implies upd[j] == after.words()[j] by {
        reveal_words_index(before, j);
        reveal_words_index(after, j);
    }
    reveal_words_index(before, i);
    lemma_count_words_update(before.words(), 16, i, after.word(i));
    lemma_count_words_same(upd, after.words(), 16);
}

proof fn reveal_words_len(s: RawCpuSet)
    ensures
        s.words().len() == 16,
{
}

proof fn reveal_words_index(s: RawCpuSet, j: int)
    requires
        0 <= j < 16,
    ensures
        s.words()[j] == s.word(j),
{
}

/// `CPU_COUNT_S(size, cpuset)`: the number of CPUs in the first `size`
/// bytes of the set.
#[allow(non_snake_case)]
pub fn CPU_COUNT_S(size: usize, cpuset: &RawCpuSet) -> (r: u32)
    requires
        size / 8 <= 16,
    ensures
        r == count_words(cpuset.words(), size as int / 8),
{
    let mut s: u32 = 0;
    let size_of_mask: usize = 8;
    let n = size / size_of_mask;
    let mut i: usize = 0;
    proof {
        reveal_words_len(*cpuset);
    }
    while i < n
        invariant
            i <= n <= 16,
            cpuset.words().len() == 16,
            s == count_words(cpuset.words(), i as int),
            s <= 64 * i,
        decreases n - i,
    {
        let c = count_ones(cpuset.bits[i]);
        proof {
            reveal_words_index(*cpuset, i as int);
            lemma2_to64();
            lemma_popcount_bound(cpuset.word(i as int), 64);
        }
        s = s + c;
        i = i + 1;
    }
    s
}

/// `CPU_COUNT(cpuset)`: the number of CPUs in the set.
#[allow(non_snake_case)]
pub fn CPU_COUNT(cpuset: &RawCpuSet) -> (r: u32)
    ensures
        r == cpuset.count(),
{
    CPU_COUNT_S(128, cpuset)
}

} // verus!
