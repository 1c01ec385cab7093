//! The seal set algebra: seals and sets of seals, as bit masks.

use vstd::prelude::*;
use vstd::string::StringExecFns;

verus! {

/// Bit value of [`Seal::Seal`], fixed by the kernel ABI (`F_SEAL_SEAL`).
pub const SEAL_SEAL_BIT: u32 = 0x1;

/// Bit value of [`Seal::Shrink`], fixed by the kernel ABI (`F_SEAL_SHRINK`).
pub const SEAL_SHRINK_BIT: u32 = 0x2;

/// Bit value of [`Seal::Grow`], fixed by the kernel ABI (`F_SEAL_GROW`).
pub const SEAL_GROW_BIT: u32 = 0x4;

/// Bit value of [`Seal::Write`], fixed by the kernel ABI (`F_SEAL_WRITE`).
pub const SEAL_WRITE_BIT: u32 = 0x8;

/// Bit value of [`Seal::FutureWrite`], fixed by the kernel ABI (`F_SEAL_FUTURE_WRITE`).
pub const SEAL_FUTURE_WRITE_BIT: u32 = 0x10;

/// The mask of every seal bit recognized on this platform.
pub const SEAL_MASK: u32 = SEAL_SEAL_BIT | SEAL_SHRINK_BIT | SEAL_GROW_BIT | SEAL_WRITE_BIT
    | SEAL_FUTURE_WRITE_BIT;

/// A seal that prevents certain actions from being performed on a file.
///
/// Note that seals apply to a file, not a file descriptor.
/// If two file descriptors refer to the same file, they share the same set of seals.
///
/// Seals can not be removed from a file once applied.
#[derive(Copy, Clone, Debug, PartialEq, Eq, PartialOrd, Ord, Hash, Structural)]
pub enum Seal {
    /// Prevent adding more seals to the file.
    Seal,
    /// Prevent the file from being shrunk with `truncate` or similar.
    ///
    /// Combine with [`Seal::Grow`] to prevent the file from being resized in any way.
    Shrink,
    /// Prevent the file from being extended with `truncate`, `fallocate` or similar.
    ///
    /// Combine with [`Seal::Shrink`] to prevent the file from being resized in any way.
    Grow,
    /// Prevent writes to the file.
    ///
    /// This blocks *all* writes to the file and prevents any shared, writable
    /// memory mappings from being created.
    ///
    /// If a shared, writable memory mapping already exists, adding this seal will fail.
    Write,
    /// Similar to [`Seal::Write`], but allows existing shared, writable memory
    /// mappings to modify the file contents.
    FutureWrite,
}

/// The bit value a seal occupies inside a seal mask.
pub open spec fn seal_bit(seal: Seal) -> u32 {
    match seal {
        Seal::Seal => SEAL_SEAL_BIT,
        Seal::Shrink => SEAL_SHRINK_BIT,
        Seal::Grow => SEAL_GROW_BIT,
        Seal::Write => SEAL_WRITE_BIT,
        Seal::FutureWrite => SEAL_FUTURE_WRITE_BIT,
    }
}

impl Seal {
    /// The raw bit value of this seal inside a seal mask.
    pub fn bit(self) -> (r: u32)
        ensures
            r == seal_bit(self),
    {
        match self {
            Seal::Seal => SEAL_SEAL_BIT,
            Seal::Shrink => SEAL_SHRINK_BIT,
            Seal::Grow => SEAL_GROW_BIT,
            Seal::Write => SEAL_WRITE_BIT,
            Seal::FutureWrite => SEAL_FUTURE_WRITE_BIT,
        }
    }
}

/// The number of set bits in a mask.
pub open spec fn popcount(bits: nat) -> nat
    decreases bits,
{
    if bits == 0 {
        0
    } else {
        bits % 2 + popcount(bits / 2)
    }
}

/// A mask has at most as many set bits as its value.
proof fn lemma_popcount_le(bits: nat)
    ensures
        popcount(bits) <= bits,
    decreases bits,
{
    if bits > 0 {
        lemma_popcount_le(bits / 2);
    }
}

/// A set of [seals][Seal], stored as a bit mask.
///
/// In specifications a `Seals` value is its mask: the view of a set is the
/// `u32` whose set bits are exactly the seals it contains.
#[derive(Copy, Clone, PartialEq, Eq, PartialOrd, Ord, Hash, Structural)]
pub struct Seals {
    bits: u32,
}

impl View for Seals {
    type V = u32;

    closed spec fn view(&self) -> u32 {
        self.bits
    }
}

impl Seals {
    /// Construct a set of seals from a bitmask.
    ///
    /// Unknown bits are truncated.
    pub fn from_bits_truncate(bits: u32) -> (r: Self)
        ensures
            r@ == bits & SEAL_MASK,
    {
        Self::from_bits(bits & SEAL_MASK)
    }

    /// Construct a set of seals from a bitmask, keeping every bit.
    fn from_bits(bits: u32) -> (r: Self)
        ensures
            r@ == bits,
    {
        Self { bits }
    }

    /// The set containing exactly one seal.
    pub fn from_seal(seal: Seal) -> (r: Self)
        ensures
            r@ == seal_bit(seal),
    {
        proof {
            let b = seal_bit(seal);
            assert(b & SEAL_MASK == b) by (bit_vector)
                requires
                    b == 0x1u32 || b == 0x2u32 || b == 0x4u32 || b == 0x8u32 || b == 0x10u32,
            ;
        }
        Self::from_bits_truncate(seal.bit())
    }

    /// The raw bit mask of this set.
    pub fn bits(self) -> (r: u32)
        ensures
            r == self@,
    {
        self.bits
    }

    /// Get an empty set of seals.
    pub fn empty() -> (r: Self)
        ensures
            r@ == 0,
    {
        proof {
            assert(0u32 & SEAL_MASK == 0) by (bit_vector);
        }
        Self::from_bits_truncate(0)
    }

    /// Get a set of seals containing all possible seals.
    pub fn all() -> (r: Self)
        ensures
            r@ == SEAL_MASK,
    {
        Self::from_bits(SEAL_MASK)
    }

    /// Get the number of seals in the set: the population count of the mask.
    pub fn len(self) -> (r: usize)
        ensures
            r == popcount(self@ as nat),
    {
        proof {
            lemma_popcount_le(self@ as nat);
        }
        let mut n: usize = 0;
        let mut b: u32 = self.bits;
        while b != 0
            invariant
                n + popcount(b as nat) == popcount(self@ as nat),
                popcount(self@ as nat) <= u32::MAX,
            decreases b,
        {
            proof {
                assert(b & 1 == b % 2) by (bit_vector);
                assert(b >> 1u32 == b / 2) by (bit_vector);
                assert(popcount(b as nat) == b % 2 + popcount(b as nat / 2));
            }
            n = n + ((b & 1) as usize);
            b = b >> 1u32;
        }
        n
    }

    /// Check if the set of seals is empty.
    pub fn is_empty(self) -> (r: bool)
        ensures
            r == (self@ == 0),
    {
        self.bits == 0
    }

    /// Check if the set of seals contains all possible seals.
    pub fn is_all(self) -> (r: bool)
        ensures
            r == (self@ == SEAL_MASK),
    {
        self.bits == SEAL_MASK
    }

    /// Check if the set of seals contains all the given seals.
    pub fn contains(self, other: Self) -> (r: bool)
        ensures
            r == (self@ & other@ == other@),
    {
        self.bits & other.bits == other.bits
    }

    /// Check if the set of seals contains at least one of the given seals.
    pub fn intersects(self, other: Self) -> (r: bool)
        ensures
            r == (self@ & other@ != 0),
    {
        self.bits & other.bits != 0
    }

    /// The union of two sets: every seal found in either one.
    pub fn union(self, other: Self) -> (r: Self)
        ensures
            r@ == self@ | other@,
    {
        Self::from_bits(self.bits | other.bits)
    }

    /// The intersection of two sets: every seal found in both.
    pub fn intersection(self, other: Self) -> (r: Self)
        ensures
            r@ == self@ & other@,
    {
        Self::from_bits(self.bits & other.bits)
    }

    /// The difference of two sets: every seal of `self` not found in `other`.
    pub fn difference(self, other: Self) -> (r: Self)
        ensures
            r@ == self@ & !other@,
    {
        Self::from_bits(self.bits & !other.bits)
    }

    /// The symmetric difference of two sets: every seal found in exactly one.
    pub fn symmetric_difference(self, other: Self) -> (r: Self)
        ensures
            r@ == self@ ^ other@,
    {
        Self::from_bits(self.bits ^ other.bits)
    }

    /// The complement over the full mask width, matching raw bitwise NOT:
    /// the result may carry bits outside [`SEAL_MASK`].
    pub fn complement(self) -> (r: Self)
        ensures
            r@ == !self@,
    {
        Self::from_bits(!self.bits)
    }

    /// The canonical text of the set: the names of its seals in canonical
    /// order, separated by `|`, inside `Seals { ... }`.
    pub fn debug_string(&self) -> (r: String)
        ensures
            r@ == spec_render(self@),
    {
        let b = self.bits;
        let mut out: String = "Seals { ".to_owned();
        if b & SEAL_SEAL_BIT != 0 {
            out.append("Seal ");
        }
        if b & SEAL_SHRINK_BIT != 0 {
            if b & SEAL_SEAL_BIT == 0 {
                out.append("Shrink ");
            } else {
                out.append("| Shrink ");
            }
        }
        if b & SEAL_GROW_BIT != 0 {
            if b & (SEAL_SEAL_BIT | SEAL_SHRINK_BIT) == 0 {
                out.append("Grow ");
            } else {
                out.append("| Grow ");
            }
        }
        if b & SEAL_WRITE_BIT != 0 {
            if b & (SEAL_SEAL_BIT | SEAL_SHRINK_BIT | SEAL_GROW_BIT) == 0 {
                out.append("Write ");
            } else {
                out.append("| Write ");
            }
        }
        if b & SEAL_FUTURE_WRITE_BIT != 0 {
            if b & (SEAL_SEAL_BIT | SEAL_SHRINK_BIT | SEAL_GROW_BIT | SEAL_WRITE_BIT) == 0 {
                out.append("FutureWrite ");
            } else {
                out.append("| FutureWrite ");
            }
        }
        out.append("}");
        proof {
            assert(out@ =~= spec_render(self@));
        }
        out
    }

    /// Iterate over the seals in the set, in canonical order.
    pub fn iter(&self) -> (r: SealsIterator)
        ensures
            r@ == seq_of_seals(self@),
    {
        SealsIterator::new(*self)
    }

    /// Add every seal of `other` to this set in place.
    pub fn union_with(&mut self, other: Self)
        ensures
            final(self)@ == old(self)@ | other@,
    {
        self.bits = self.bits | other.bits;
    }

    /// Keep only the seals of `other` in this set, in place.
    pub fn intersect_with(&mut self, other: Self)
        ensures
            final(self)@ == old(self)@ & other@,
    {
        self.bits = self.bits & other.bits;
    }

    /// Remove every seal of `other` from this set in place.
    pub fn difference_with(&mut self, other: Self)
        ensures
            final(self)@ == old(self)@ & !other@,
    {
        self.bits = self.bits & !other.bits;
    }

    /// Toggle every seal of `other` in this set in place.
    pub fn symmetric_difference_with(&mut self, other: Self)
        ensures
            final(self)@ == old(self)@ ^ other@,
    {
        self.bits = self.bits ^ other.bits;
    }
}

/// One entry of the canonical text: the seal's name when the entry is the
/// first one, the separator and the name otherwise, nothing when the seal
/// is absent.
pub open spec fn render_chunk(present: bool, first: bool, lone: Seq<char>, separated: Seq<
    char,
>) -> Seq<char> {
    if present {
        if first {
            lone
        } else {
            separated
        }
    } else {
        Seq::empty()
    }
}

/// The canonical text of a seal mask: the names of its seals in canonical
/// order, separated by `|`, inside `Seals { ... }`.
pub open spec fn spec_render(bits: u32) -> Seq<char> {
    "Seals { "@ + render_chunk(bits & SEAL_SEAL_BIT != 0, true, "Seal "@, "| Seal "@)
        + render_chunk(bits & SEAL_SHRINK_BIT != 0, bits & SEAL_SEAL_BIT == 0, "Shrink "@, "| Shrink "@)
        + render_chunk(
        bits & SEAL_GROW_BIT != 0,
        bits & (SEAL_SEAL_BIT | SEAL_SHRINK_BIT) == 0,
        "Grow "@,
        "| Grow "@,
    ) + render_chunk(
        bits & SEAL_WRITE_BIT != 0,
        bits & (SEAL_SEAL_BIT | SEAL_SHRINK_BIT | SEAL_GROW_BIT) == 0,
        "Write "@,
        "| Write "@,
    ) + render_chunk(
        bits & SEAL_FUTURE_WRITE_BIT != 0,
        bits & (SEAL_SEAL_BIT | SEAL_SHRINK_BIT | SEAL_GROW_BIT | SEAL_WRITE_BIT) == 0,
        "FutureWrite "@,
        "| FutureWrite "@,
    ) + "}"@
}

/// The seal at a given position of the canonical order.
pub open spec fn seal_at(k: int) -> Seal {
    if k == 0 {
        Seal::Seal
    } else if k == 1 {
        Seal::Shrink
    } else if k == 2 {
        Seal::Grow
    } else if k == 3 {
        Seal::Write
    } else {
        Seal::FutureWrite
    }
}

/// The position of a seal in the canonical order.
pub open spec fn canonical_index(seal: Seal) -> int {
    match seal {
        Seal::Seal => 0,
        Seal::Shrink => 1,
        Seal::Grow => 2,
        Seal::Write => 3,
        Seal::FutureWrite => 4,
    }
}

/// The seals of a mask from canonical position `k` on, in canonical order.
pub open spec fn seq_from(bits: u32, k: int) -> Seq<Seal>
    decreases 5 - k when k <= 5
{
    if k < 0 || k >= 5 {
        Seq::empty()
    } else if bits & seal_bit(seal_at(k)) != 0 {
        seq![seal_at(k)] + seq_from(bits, k + 1)
    } else {
        seq_from(bits, k + 1)
    }
}

/// The seals of a mask, in the canonical order:
/// `Seal`, `Shrink`, `Grow`, `Write`, `FutureWrite`.
pub open spec fn seq_of_seals(bits: u32) -> Seq<Seal> {
    seq_from(bits, 0)
}

/// Two seals are the same exactly when they share a canonical position.
proof fn lemma_canonical_index_injective(a: Seal, b: Seal)
    ensures
        (a == b) <==> (canonical_index(a) == canonical_index(b)),
{
}

/// Distinct seals occupy disjoint bits.
proof fn lemma_seal_bits_disjoint(a: Seal, b: Seal)
    requires
        a != b,
    ensures
        seal_bit(a) & seal_bit(b) == 0,
{
    let x = seal_bit(a);
    let y = seal_bit(b);
    assert(x & y == 0) by (bit_vector)
        requires
            x == 0x1u32 || x == 0x2u32 || x == 0x4u32 || x == 0x8u32 || x == 0x10u32,
            y == 0x1u32 || y == 0x2u32 || y == 0x4u32 || y == 0x8u32 || y == 0x10u32,
            x != y,
    ;
}

/// Positions whose seal bit is clear contribute nothing to the sequence.
proof fn lemma_seq_from_clear(bits: u32, i: int, k: int)
    requires
        0 <= i <= k <= 5,
        forall|j: int| i <= j < k ==> bits & seal_bit(seal_at(j)) == 0,
    ensures
        seq_from(bits, i) == seq_from(bits, k),
    decreases k - i,
{
    if i < k {
        lemma_seq_from_clear(bits, i + 1, k);
    }
}

/// The sequence depends only on the bits at the positions it reads.
proof fn lemma_seq_from_agree(b1: u32, b2: u32, k: int)
    requires
        0 <= k <= 5,
        forall|j: int| k <= j < 5 ==> b1 & seal_bit(seal_at(j)) == b2 & seal_bit(seal_at(j)),
    ensures
        seq_from(b1, k) == seq_from(b2, k),
    decreases 5 - k,
{
    if k < 5 {
        lemma_seq_from_agree(b1, b2, k + 1);
    }
}

/// Taking the first seal of the sequence leaves the sequence of the mask
/// with that seal's bit cleared.
proof fn lemma_seq_step(bits: u32, k: int)
    requires
        0 <= k < 5,
        forall|j: int| 0 <= j < k ==> bits & seal_bit(seal_at(j)) == 0,
        bits & seal_bit(seal_at(k)) != 0,
    ensures
        seq_of_seals(bits).len() > 0,
        seq_of_seals(bits)[0] == seal_at(k),
        seq_of_seals(bits & !seal_bit(seal_at(k))) == seq_of_seals(bits).skip(1),
{
    let m = seal_bit(seal_at(k));
    let cleared = bits & !m;
    lemma_seq_from_clear(bits, 0, k);
    assert(seq_from(bits, k) == seq![seal_at(k)] + seq_from(bits, k + 1));
    assert(seq_of_seals(bits).skip(1) =~= seq_from(bits, k + 1));

    assert(cleared & m == 0) by (bit_vector)
        requires
            cleared == bits & !m,
    ;
    assert forall|j: int| 0 <= j < 5 && j != k implies cleared & seal_bit(seal_at(j)) == bits
        & seal_bit(seal_at(j)) by {
        lemma_canonical_index_injective(seal_at(k), seal_at(j));
        lemma_seal_bits_disjoint(seal_at(k), seal_at(j));
        let t = seal_bit(seal_at(j));
        assert(cleared & t == bits & t) by (bit_vector)
            requires
                cleared == bits & !m,
                m & t == 0,
        ;
    }
    assert forall|j: int| 0 <= j < k + 1 implies cleared & seal_bit(seal_at(j)) == 0 by {
        if j < k {
            assert(cleared & seal_bit(seal_at(j)) == bits & seal_bit(seal_at(j)));
        } else {
            assert(cleared & m == 0);
        }
    }
    lemma_seq_from_clear(cleared, 0, k + 1);
    lemma_seq_from_agree(cleared, bits, k + 1);
}

/// Every element of the sequence sits at canonical position `k` or later,
/// and the elements appear in strictly increasing canonical position.
proof fn lemma_seq_from_sorted(bits: u32, k: int)
    requires
        0 <= k <= 5,
    ensures
        forall|i: int| 0 <= i < seq_from(bits, k).len() ==> canonical_index(
            #[trigger] seq_from(bits, k)[i],
        ) >= k,
        forall|i: int, j: int| 0 <= i < j < seq_from(bits, k).len() ==> canonical_index(
            #[trigger] seq_from(bits, k)[i],
        ) < canonical_index(#[trigger] seq_from(bits, k)[j]),
    decreases 5 - k,
{
    if k < 5 {
        lemma_seq_from_sorted(bits, k + 1);
        let s = seq_from(bits, k);
        let tail = seq_from(bits, k + 1);
        if bits & seal_bit(seal_at(k)) != 0 {
            assert(s == seq![seal_at(k)] + tail);
            assert forall|i: int| 0 <= i < s.len() implies canonical_index(#[trigger] s[i])
                >= k by {
                if i > 0 {
                    assert(s[i] == tail[i - 1]);
                }
            }
            assert forall|i: int, j: int| 0 <= i < j < s.len() implies canonical_index(
                #[trigger] s[i],
            ) < canonical_index(#[trigger] s[j]) by {
                assert(s[j] == tail[j - 1]);
                if i > 0 {
                    assert(s[i] == tail[i - 1]);
                }
            }
        }
    }
}

/// A seal stands in the sequence from position `k` exactly when its
/// canonical position is `k` or later and its bit is set in the mask.
proof fn lemma_seq_from_membership(bits: u32, k: int, seal: Seal)
    requires
        0 <= k <= 5,
    ensures
        seq_from(bits, k).contains(seal) <==> (canonical_index(seal) >= k && bits & seal_bit(
            seal,
        ) != 0),
    decreases 5 - k,
{
    if k < 5 {
        lemma_seq_from_membership(bits, k + 1, seal);
        let s = seq_from(bits, k);
        let tail = seq_from(bits, k + 1);
        if bits & seal_bit(seal_at(k)) != 0 {
            assert(s == seq![seal_at(k)] + tail);
            if s.contains(seal) {
                let i = choose|i: int| 0 <= i < s.len() && s[i] == seal;
                if i > 0 {
                    assert(tail[i - 1] == seal);
                    assert(tail.contains(seal));
                }
            }
            if canonical_index(seal) >= k && bits & seal_bit(seal) != 0 {
                if seal == seal_at(k) {
                    assert(s[0] == seal);
                } else {
                    assert(canonical_index(seal) >= k + 1);
                    let i = choose|i: int| 0 <= i < tail.len() && tail[i] == seal;
                    assert(s[i + 1] == seal);
                }
            }
        } else {
            if canonical_index(seal) == k {
                assert(seal == seal_at(k));
            }
        }
    }
}

/// Iteration never reorders: the canonical sequence of any mask lists its
/// seals in strictly increasing canonical position, that is in the order
/// `Seal`, `Shrink`, `Grow`, `Write`, `FutureWrite` — however the mask was
/// put together.
pub proof fn lemma_iteration_canonical_order(bits: u32)
    ensures
        forall|i: int, j: int| 0 <= i < j < seq_of_seals(bits).len() ==> canonical_index(
            #[trigger] seq_of_seals(bits)[i],
        ) < canonical_index(#[trigger] seq_of_seals(bits)[j]),
{
    lemma_seq_from_sorted(bits, 0);
}

/// Iteration never skips a seal and never invents one: a seal appears in
/// the canonical sequence of a mask exactly when its bit is set. Together
/// with the strict order this means each present seal is yielded exactly
/// once.
pub proof fn lemma_iteration_complete(bits: u32, seal: Seal)
    ensures
        seq_of_seals(bits).contains(seal) <==> bits & seal_bit(seal) != 0,
{
    lemma_seq_from_membership(bits, 0, seal);
}

/// An iterator over the seals of a [`Seals`] set, in canonical order.
///
/// In specifications an iterator is the sequence of seals it has yet to
/// yield.
pub struct SealsIterator {
    seals: Seals,
}

impl View for SealsIterator {
    type V = Seq<Seal>;

    closed spec fn view(&self) -> Seq<Seal> {
        seq_of_seals(self.seals@)
    }
}

impl SealsIterator {
    /// Start iterating over the seals of a set, in canonical order.
    pub fn new(seals: Seals) -> (r: Self)
        ensures
            r@ == seq_of_seals(seals@),
    {
        Self { seals }
    }

    /// The next seal of the set in canonical order, if one is left.
    pub fn next(&mut self) -> (r: Option<Seal>)
        ensures
            old(self)@.len() == 0 ==> r is None && final(self)@ == old(self)@,
            old(self)@.len() > 0 ==> r == Some(old(self)@[0]) && final(self)@ == old(self)@.skip(
                1,
            ),
    {
        let b = self.seals.bits;
        if b & SEAL_SEAL_BIT != 0 {
            proof {
                lemma_seq_step(b, 0);
            }
            self.seals.bits = b & !SEAL_SEAL_BIT;
            Some(Seal::Seal)
        } else if b & SEAL_SHRINK_BIT != 0 {
            proof {
                lemma_seq_step(b, 1);
            }
            self.seals.bits = b & !SEAL_SHRINK_BIT;
            Some(Seal::Shrink)
        } else if b & SEAL_GROW_BIT != 0 {
            proof {
                lemma_seq_step(b, 2);
            }
            self.seals.bits = b & !SEAL_GROW_BIT;
            Some(Seal::Grow)
        } else if b & SEAL_WRITE_BIT != 0 {
            proof {
                lemma_seq_step(b, 3);
            }
            self.seals.bits = b & !SEAL_WRITE_BIT;
            Some(Seal::Write)
        } else if b & SEAL_FUTURE_WRITE_BIT != 0 {
            proof {
                lemma_seq_step(b, 4);
            }
            self.seals.bits = b & !SEAL_FUTURE_WRITE_BIT;
            Some(Seal::FutureWrite)
        } else {
            proof {
                lemma_seq_from_clear(b, 0, 5);
            }
            None
        }
    }
}

/// A set is its mask: two sets are equal exactly when their views are.
pub proof fn lemma_view_injective(a: Seals, b: Seals)
    ensures
        (a == b) <==> (a@ == b@),
{
}

/// Containment is intersection absorption: `A` contains `B` — the test of
/// [`Seals::contains`] succeeds — exactly when `A & B == B`.
pub proof fn lemma_contains_characterisation(a: Seals, b: Seals, i: Seals)
    requires
        i@ == a@ & b@,
    ensures
        (a@ & b@ == b@) <==> (i == b),
{
    lemma_view_injective(i, b);
}

/// Two sets intersect — the test of [`Seals::intersects`] succeeds —
/// exactly when their intersection is not the empty set.
pub proof fn lemma_intersects_characterisation(a: Seals, b: Seals, i: Seals, e: Seals)
    requires
        i@ == a@ & b@,
        e@ == 0,
    ensures
        (a@ & b@ != 0) <==> !(i == e),
{
    lemma_view_injective(i, e);
}

/// A bit present in an intersection is present in both operands.
proof fn lemma_shared_bit(x: u32, y: u32, t: u32)
    requires
        (x & y) & t != 0,
    ensures
        x & t != 0,
        y & t != 0,
{
    assert((x & y) & t != 0 ==> x & t != 0 && y & t != 0) by (bit_vector);
}

/// Containment is seal-wise: `A` contains `B` — the test of
/// [`Seals::contains`] succeeds — exactly when every seal of `B` is also
/// a seal of `A`, for any `B` within the canonical seal set.
pub proof fn lemma_contains_means_every_seal(a: Seals, b: Seals)
    requires
        b@ & SEAL_MASK == b@,
    ensures
        (a@ & b@ == b@) <==> (forall|s: Seal|
            b@ & (#[trigger] seal_bit(s)) != 0 ==> a@ & seal_bit(s) != 0),
{
    let x = a@;
    let y = b@;
    if x & y == y {
        assert forall|s: Seal| y & (#[trigger] seal_bit(s)) != 0 implies x & seal_bit(s)
            != 0 by {
            let t = seal_bit(s);
            assert(x & t != 0) by (bit_vector)
                requires
                    x & y == y,
                    y & t != 0,
            ;
        }
    }
    if forall|s: Seal| y & (#[trigger] seal_bit(s)) != 0 ==> x & seal_bit(s) != 0 {
        assert(y & seal_bit(Seal::Seal) != 0 ==> x & seal_bit(Seal::Seal) != 0);
        assert(y & seal_bit(Seal::Shrink) != 0 ==> x & seal_bit(Seal::Shrink) != 0);
        assert(y & seal_bit(Seal::Grow) != 0 ==> x & seal_bit(Seal::Grow) != 0);
        assert(y & seal_bit(Seal::Write) != 0 ==> x & seal_bit(Seal::Write) != 0);
        assert(y & seal_bit(Seal::FutureWrite) != 0 ==> x & seal_bit(Seal::FutureWrite) != 0);
        assert(x & y == y) by (bit_vector)
            requires
                y & SEAL_MASK == y,
                y & 0x1u32 != 0 ==> x & 0x1u32 != 0,
                y & 0x2u32 != 0 ==> x & 0x2u32 != 0,
                y & 0x4u32 != 0 ==> x & 0x4u32 != 0,
                y & 0x8u32 != 0 ==> x & 0x8u32 != 0,
                y & 0x10u32 != 0 ==> x & 0x10u32 != 0,
        ;
    }
}

/// Intersection is seal-wise: `A` intersects `B` — the test of
/// [`Seals::intersects`] succeeds — exactly when some seal stands in
/// both, for any `A` within the canonical seal set.
pub proof fn lemma_intersects_means_shared_seal(a: Seals, b: Seals)
    requires
        a@ & SEAL_MASK == a@,
    ensures
        (a@ & b@ != 0) <==> (exists|s: Seal|
            a@ & (#[trigger] seal_bit(s)) != 0 && b@ & seal_bit(s) != 0),
{
    let x = a@;
    let y = b@;
    if x & y != 0 {
        assert((x & y) & 0x1u32 != 0 || (x & y) & 0x2u32 != 0 || (x & y) & 0x4u32 != 0 || (x
            & y) & 0x8u32 != 0 || (x & y) & 0x10u32 != 0) by (bit_vector)
            requires
                x & SEAL_MASK == x,
                x & y != 0,
        ;
        if (x & y) & 0x1u32 != 0 {
            lemma_shared_bit(x, y, seal_bit(Seal::Seal));
            assert(x & seal_bit(Seal::Seal) != 0 && y & seal_bit(Seal::Seal) != 0);
        } else if (x & y) & 0x2u32 != 0 {
            lemma_shared_bit(x, y, seal_bit(Seal::Shrink));
            assert(x & seal_bit(Seal::Shrink) != 0 && y & seal_bit(Seal::Shrink) != 0);
        } else if (x & y) & 0x4u32 != 0 {
            lemma_shared_bit(x, y, seal_bit(Seal::Grow));
            assert(x & seal_bit(Seal::Grow) != 0 && y & seal_bit(Seal::Grow) != 0);
        } else if (x & y) & 0x8u32 != 0 {
            lemma_shared_bit(x, y, seal_bit(Seal::Write));
            assert(x & seal_bit(Seal::Write) != 0 && y & seal_bit(Seal::Write) != 0);
        } else {
            lemma_shared_bit(x, y, seal_bit(Seal::FutureWrite));
            assert(x & seal_bit(Seal::FutureWrite) != 0 && y & seal_bit(Seal::FutureWrite)
                != 0);
        }
    }
    if exists|s: Seal| x & (#[trigger] seal_bit(s)) != 0 && y & seal_bit(s) != 0 {
        let s = choose|s: Seal| x & (#[trigger] seal_bit(s)) != 0 && y & seal_bit(s) != 0;
        let t = seal_bit(s);
        assert(x & y != 0) by (bit_vector)
            requires
                t == 0x1u32 || t == 0x2u32 || t == 0x4u32 || t == 0x8u32 || t == 0x10u32,
                x & t != 0,
                y & t != 0,
        ;
    }
}

/// Union is idempotent: adding a set to a union that already holds it
/// changes nothing, `(A | B) | A == A | B`.
pub proof fn lemma_union_idempotent(a: Seals, b: Seals)
    ensures
        (a@ | b@) | a@ == a@ | b@,
{
    let x = a@;
    let y = b@;
    assert((x | y) | x == x | y) by (bit_vector);
}

/// Intersection is idempotent: `A & A == A`.
pub proof fn lemma_intersection_idempotent(a: Seals)
    ensures
        a@ & a@ == a@,
{
    let x = a@;
    assert(x & x == x) by (bit_vector);
}

/// Complement is an involution over the full mask width: `!(!A) == A`.
pub proof fn lemma_complement_involutive(a: Seals)
    ensures
        !(!a@) == a@,
{
    let x = a@;
    assert(!(!x) == x) by (bit_vector);
}

/// The symmetric difference of a set with itself is empty: `A ^ A == empty`.
pub proof fn lemma_symmetric_difference_self(a: Seals)
    ensures
        a@ ^ a@ == 0,
{
    let x = a@;
    assert(x ^ x == 0) by (bit_vector);
}

/// The empty set is contained in every set: `A & empty == empty`, the
/// containment test of [`Seals::contains`] with an empty argument.
pub proof fn lemma_empty_contained_in_every_set(a: Seals)
    ensures
        a@ & 0 == 0,
{
    let x = a@;
    assert(x & 0 == 0) by (bit_vector);
}

/// Every subset of the canonical seal set is contained in the full set:
/// the containment test of [`Seals::all`] succeeds on it.
pub proof fn lemma_all_contains_every_set(a: Seals)
    requires
        a@ & SEAL_MASK == a@,
    ensures
        SEAL_MASK & a@ == a@,
{
    let x = a@;
    assert(x & SEAL_MASK == x ==> SEAL_MASK & x == x) by (bit_vector);
}

/// Truncation ignores extraneous bits: a mask truncates to the same set
/// as the mask with its unknown bits already cleared.
pub proof fn lemma_truncate_extraneous_bits(mask: u32)
    ensures
        (mask & SEAL_MASK) & SEAL_MASK == mask & SEAL_MASK,
{
    assert((mask & SEAL_MASK) & SEAL_MASK == mask & SEAL_MASK) by (bit_vector);
}

} // verus!
