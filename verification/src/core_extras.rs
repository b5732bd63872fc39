//! Things that I wish were in core, but aren't: volatile hardware addresses.
//!
//! The types here name and step through addresses; reading and writing
//! through an address is the caller's job.
use vstd::prelude::*;
use core::marker::PhantomData;
use vstd::layout::{size_of, align_of, layout_for_type_is_valid};
use vstd::std_specs::cmp::{PartialEqSpecImpl, PartialOrdSpecImpl};
use core::cmp::Ordering;

verus! {

/// The number of distinct `usize` values.
pub open spec fn address_space() -> int {
    usize::MAX as int + 1
}

/// The address `slot` slots of `T` past `base`, wrapping around the address
/// space.
pub open spec fn slot_address<T>(base: usize, slot: int) -> int {
    (base + slot * size_of::<T>()) % address_space()
}

/// Every address from `base` to `slots` slots past it (inclusive) is
/// non-null, and stepping `slots` slots does not overflow the slot
/// arithmetic.
pub open spec fn valid_run<T>(base: usize, slots: usize) -> bool {
    &&& slots * size_of::<T>() <= usize::MAX
    &&& forall|i: int| 0 <= i <= slots ==> #[trigger] slot_address::<T>(base, i) != 0
}

/// Abstracts the use of a volatile hardware address.
///
/// A volatile address doesn't store a value in the normal way: it maps to
/// some real hardware other than RAM. This type only names the address (it
/// is never null); reads and writes through it are made by the caller.
#[derive(Debug)]
pub struct VolAddress<T> {
    address: usize,
    marker: PhantomData<T>,
}

impl<T> View for VolAddress<T> {
    type V = usize;

    /// The address.
    closed spec fn view(&self) -> usize {
        self.address
    }
}

impl<T> VolAddress<T> {
    #[verifier::type_invariant]
    spec fn non_null(self) -> bool {
        self.address != 0
    }

    /// Constructs a new address.
    pub fn new_unchecked(address: usize) -> (r: Self)
        requires
            address != 0,
        ensures
            r@ == address,
    {
        VolAddress { address, marker: PhantomData }
    }

    /// The address as a plain number.
    pub fn address(self) -> (r: usize)
        ensures
            r == self@,
            r != 0,
    {
        proof {
            use_type_invariant(self);
        }
        self.address
    }

    /// Casts the type of `T` into type `Z`.
    pub fn cast<Z>(self) -> (r: VolAddress<Z>)
        ensures
            r@ == self@,
    {
        proof {
            use_type_invariant(self);
        }
        VolAddress { address: self.address, marker: PhantomData }
    }

    /// Offsets the address by `offset` slots (like `pointer::wrapping_offset`):
    /// the address moves by `offset * size_of::<T>()` bytes, wrapping around
    /// the address space.
    ///
    /// The resulting address must not be null.
    pub fn offset(self, offset: isize) -> (r: Self)
        requires
            (self@ + offset * size_of::<T>()) % address_space() != 0,
        ensures
            r@ == (self@ + offset * size_of::<T>()) % address_space(),
    {
        layout_for_type_is_valid::<T>();
        let size: usize = core::mem::size_of::<T>();
        let address = if offset >= 0 {
            let delta: usize = (offset as usize).wrapping_mul(size);
            proof {
                lemma_wrap_once(self.address + delta, address_space());
                vstd::arithmetic::div_mod::lemma_add_mod_noop(self.address as int, offset * size, address_space());
                vstd::arithmetic::div_mod::lemma_small_mod(self.address as nat, address_space() as nat);
                vstd::arithmetic::div_mod::lemma_small_mod(delta as nat, address_space() as nat);
            }
            self.address.wrapping_add(delta)
        } else {
            let magnitude: usize = ((-(offset + 1)) as usize) + 1;
            let delta: usize = magnitude.wrapping_mul(size);
            proof {
                lemma_wrap_back_once(self.address - delta, address_space());
                vstd::arithmetic::div_mod::lemma_sub_mod_noop(self.address as int, magnitude * size, address_space());
                vstd::arithmetic::div_mod::lemma_small_mod(self.address as nat, address_space() as nat);
                vstd::arithmetic::div_mod::lemma_small_mod(delta as nat, address_space() as nat);
                assert(offset * size == -(magnitude * size)) by (nonlinear_arith)
                    requires
                        magnitude == -offset,
                ;
            }
            self.address.wrapping_sub(delta)
        };
        VolAddress { address, marker: PhantomData }
    }

    /// Checks that the current target type of this address is aligned at this
    /// address value.
    pub fn is_aligned(self) -> (r: bool)
        ensures
            r == (self@ as nat % align_of::<T>() == 0),
    {
        layout_for_type_is_valid::<T>();
        self.address % core::mem::align_of::<T>() == 0
    }

    /// Makes an iterator starting here across the given number of slots.
    pub fn iter_slots(self, slots: usize) -> (r: VolAddressIter<T>)
        requires
            valid_run::<T>(self@, slots),
        ensures
            r.remaining() == Seq::new(slots as nat, |i: int| slot_address::<T>(self@, i) as usize),
    {
        VolAddressIter { vol_address: self, slots }
    }
}

impl<T> Clone for VolAddress<T> {
    fn clone(&self) -> (r: Self)
        ensures
            r@ == self@,
    {
        proof {
            use_type_invariant(self);
        }
        VolAddress { address: self.address, marker: PhantomData }
    }
}

impl<T> Copy for VolAddress<T> {

}

/// An iterator that produces a series of `VolAddress` values.
#[derive(Debug)]
pub struct VolAddressIter<T> {
    vol_address: VolAddress<T>,
    slots: usize,
}

impl<T> VolAddressIter<T> {
    #[verifier::type_invariant]
    spec fn in_range(self) -> bool {
        valid_run::<T>(self.vol_address@, self.slots)
    }

    /// The address the iterator gives next (if it has slots left).
    pub closed spec fn position(self) -> usize {
        self.vol_address@
    }

    /// The addresses that the iterator still has to give, in order.
    pub closed spec fn remaining(self) -> Seq<usize> {
        Seq::new(self.slots as nat, |i: int| slot_address::<T>(self.vol_address@, i) as usize)
    }

    /// Gives the next address, or `None` once all slots were given.
    pub fn next(&mut self) -> (r: Option<VolAddress<T>>)
        ensures
            old(self).remaining().len() == 0 ==> r is None && final(self).remaining() == old(self).remaining(),
            old(self).remaining().len() > 0 ==> (r matches Some(a) && a@ == old(self).remaining()[0]
                && final(self).remaining() == old(self).remaining().drop_first()),
    {
        proof {
            use_type_invariant(&*self);
        }
        if self.slots > 0 {
            let out = self.vol_address;
            proof {
                lemma_slot_step::<T>(self.vol_address@, self.slots);
                assert(slot_address::<T>(self.vol_address@, 0) == self.vol_address@) by {
                    vstd::arithmetic::div_mod::lemma_small_mod(self.vol_address@ as nat, address_space() as nat);
                }
                assert(slot_address::<T>(self.vol_address@, 1) != 0);
            }
            layout_for_type_is_valid::<T>();
            let next_address = self.vol_address.offset(1);
            self.slots = self.slots - 1;
            self.vol_address = next_address;
            proof {
                assert(self.remaining() =~= old(self).remaining().drop_first());
            }
            Some(out)
        } else {
            None
        }
    }
}

/// Stepping one slot from `base` and then `i` more slots is stepping `i + 1`
/// slots from `base`; a valid run from `base` is still valid one slot on.
proof fn lemma_slot_step<T>(base: usize, slots: usize)
    requires
        valid_run::<T>(base, slots),
        slots > 0,
    ensures
        slot_address::<T>(base, 1) == (base + 1 * size_of::<T>()) % address_space(),
        forall|i: int|
            0 <= i <= slots - 1 ==> #[trigger] slot_address::<T>(slot_address::<T>(base, 1) as usize, i)
                == slot_address::<T>(base, i + 1),
        valid_run::<T>(slot_address::<T>(base, 1) as usize, (slots - 1) as usize),
{
    let m = address_space();
    let s = size_of::<T>() as int;
    assert(slot_address::<T>(base, 1) != 0);
    assert forall|i: int| 0 <= i <= slots - 1 implies #[trigger] slot_address::<T>(
        slot_address::<T>(base, 1) as usize,
        i,
    ) == slot_address::<T>(base, i + 1) by {
        let b1 = (base + s) % m;
        vstd::arithmetic::div_mod::lemma_add_mod_noop(base + s, i * s, m);
        vstd::arithmetic::div_mod::lemma_mod_twice(base + s, m);
        vstd::arithmetic::div_mod::lemma_mod_bound(base + s, m);
        assert((base + s) + i * s == base + (i + 1) * s) by (nonlinear_arith);
        assert((b1 + i * s) % m == ((b1 % m) + (i * s) % m) % m) by {
            vstd::arithmetic::div_mod::lemma_add_mod_noop(b1, i * s, m);
        }
    }
    assert forall|i: int| 0 <= i <= slots - 1 implies #[trigger] slot_address::<T>(
        slot_address::<T>(base, 1) as usize,
        i,
    ) != 0 by {
        assert(slot_address::<T>(base, i + 1) != 0);
    }
    assert((slots - 1) * s <= slots * s) by (nonlinear_arith)
        requires
            slots > 0,
            s >= 0,
    ;
}

/// This type is like `VolAddress`, but for when you have a block of values all
/// in a row.
///
/// This is similar to the idea of an array or a slice, but called a "block"
/// because you could _also_ construct a `[VolAddress]`, and we want to avoid
/// any accidental confusion.
#[derive(Debug)]
pub struct VolAddressBlock<T> {
    vol_address: VolAddress<T>,
    slots: usize,
}

impl<T> VolAddressBlock<T> {
    #[verifier::type_invariant]
    spec fn in_range(self) -> bool {
        valid_run::<T>(self.vol_address@, self.slots)
    }

    /// The first address of the block.
    pub closed spec fn base(self) -> usize {
        self.vol_address@
    }

    /// The number of slots in the block.
    pub closed spec fn len(self) -> usize {
        self.slots
    }

    /// Constructs a new `VolAddressBlock`.
    ///
    /// The given `VolAddress` must be valid when offset by each of `0 ..= slots`.
    pub fn new_unchecked(vol_address: VolAddress<T>, slots: usize) -> (r: Self)
        requires
            valid_run::<T>(vol_address@, slots),
        ensures
            r.base() == vol_address@,
            r.len() == slots,
    {
        VolAddressBlock { vol_address, slots }
    }

    /// Gives an iterator over this block's slots.
    pub fn iter(self) -> (r: VolAddressIter<T>)
        ensures
            r.remaining() == Seq::new(self.len() as nat, |i: int| slot_address::<T>(self.base(), i) as usize),
    {
        proof {
            use_type_invariant(&self);
        }
        VolAddressIter { vol_address: self.vol_address, slots: self.slots }
    }

    /// Unchecked indexing into the block: the slot must be in bounds.
    pub fn index_unchecked(self, slot: usize) -> (r: VolAddress<T>)
        requires
            slot < self.len(),
        ensures
            r@ == slot_address::<T>(self.base(), slot as int),
    {
        layout_for_type_is_valid::<T>();
        proof {
            use_type_invariant(&self);
            assert(slot * size_of::<T>() <= self.slots * size_of::<T>()) by (nonlinear_arith)
                requires
                    slot < self.slots,
            ;
            assert(slot_address::<T>(self.vol_address@, slot as int) != 0);
        }
        let delta: usize = slot * core::mem::size_of::<T>();
        let address = self.vol_address.address.wrapping_add(delta);
        proof {
            lemma_wrap_once(self.vol_address.address + delta, address_space());
        }
        VolAddress { address, marker: PhantomData }
    }

    /// Checked "indexing" style access of the block; the slot must be in
    /// bounds.
    pub fn index(self, slot: usize) -> (r: VolAddress<T>)
        requires
            slot < self.len(),
        ensures
            r@ == slot_address::<T>(self.base(), slot as int),
    {
        self.index_unchecked(slot)
    }

    /// Checked "getting" style access of the block, giving an Option value.
    pub fn get(self, slot: usize) -> (r: Option<VolAddress<T>>)
        ensures
            slot < self.len() ==> (r matches Some(a) && a@ == slot_address::<T>(self.base(), slot as int)),
            slot >= self.len() ==> r is None,
    {
        if slot < self.slots {
            Some(self.index_unchecked(slot))
        } else {
            None
        }
    }
}

/// Two addresses are equal when they name the same address.
impl<T> PartialEq for VolAddress<T> {
    fn eq(&self, other: &Self) -> (r: bool) {
        self.address == other.address
    }
}

impl<T> PartialEqSpecImpl for VolAddress<T> {
    open spec fn obeys_eq_spec() -> bool {
        true
    }

    open spec fn eq_spec(&self, other: &Self) -> bool {
        self@ == other@
    }
}

impl<T> Eq for VolAddress<T> {

}

/// Addresses are ordered by their numbers.
impl<T> PartialOrd for VolAddress<T> {
    fn partial_cmp(&self, other: &Self) -> (r: Option<Ordering>) {
        if self.address < other.address {
            Some(Ordering::Less)
        } else if self.address == other.address {
            Some(Ordering::Equal)
        } else {
            Some(Ordering::Greater)
        }
    }
}

impl<T> PartialOrdSpecImpl for VolAddress<T> {
    open spec fn obeys_partial_cmp_spec() -> bool {
        true
    }

    open spec fn partial_cmp_spec(&self, other: &Self) -> Option<Ordering> {
        if self@ < other@ {
            Some(Ordering::Less)
        } else if self@ == other@ {
            Some(Ordering::Equal)
        } else {
            Some(Ordering::Greater)
        }
    }
}

impl<T> Clone for VolAddressIter<T> {
    fn clone(&self) -> (r: Self)
        ensures
            r.position() == self.position(),
            r.remaining() == self.remaining(),
    {
        proof {
            use_type_invariant(self);
        }
        VolAddressIter { vol_address: self.vol_address, slots: self.slots }
    }
}

/// Two iterators are equal when they are at the same address with the same
/// number of slots left.
impl<T> PartialEq for VolAddressIter<T> {
    fn eq(&self, other: &Self) -> (r: bool) {
        self.vol_address.address == other.vol_address.address && self.slots == other.slots
    }
}

impl<T> PartialEqSpecImpl for VolAddressIter<T> {
    open spec fn obeys_eq_spec() -> bool {
        true
    }

    open spec fn eq_spec(&self, other: &Self) -> bool {
        self.position() == other.position() && self.remaining().len() == other.remaining().len()
    }
}

impl<T> Eq for VolAddressIter<T> {

}

impl<T> Clone for VolAddressBlock<T> {
    fn clone(&self) -> (r: Self)
        ensures
            r.base() == self.base(),
            r.len() == self.len(),
    {
        proof {
            use_type_invariant(self);
        }
        VolAddressBlock { vol_address: self.vol_address, slots: self.slots }
    }
}

/// Two blocks are equal when they start at the same address and have the
/// same number of slots.
impl<T> PartialEq for VolAddressBlock<T> {
    fn eq(&self, other: &Self) -> (r: bool) {
        self.vol_address.address == other.vol_address.address && self.slots == other.slots
    }
}

impl<T> PartialEqSpecImpl for VolAddressBlock<T> {
    open spec fn obeys_eq_spec() -> bool {
        true
    }

    open spec fn eq_spec(&self, other: &Self) -> bool {
        self.base() == other.base() && self.len() == other.len()
    }
}

impl<T> Eq for VolAddressBlock<T> {

}

/// A sum below twice the modulus wraps around at most once.
proof fn lemma_wrap_once(x: int, m: int)
    requires
        0 <= x < 2 * m,
        m > 0,
    ensures
        x % m == if x < m { x } else { x - m },
{
    if x < m {
        vstd::arithmetic::div_mod::lemma_small_mod(x as nat, m as nat);
    } else {
        vstd::arithmetic::div_mod::lemma_small_mod((x - m) as nat, m as nat);
        vstd::arithmetic::div_mod::lemma_mod_add_multiples_vanish(x - m, m);
    }
}

/// A difference above minus the modulus wraps around at most once.
proof fn lemma_wrap_back_once(x: int, m: int)
    requires
        -m <= x < m,
        m > 0,
    ensures
        x % m == if x < 0 { x + m } else { x },
{
    if x < 0 {
        vstd::arithmetic::div_mod::lemma_small_mod((x + m) as nat, m as nat);
        vstd::arithmetic::div_mod::lemma_mod_add_multiples_vanish(x, m);
    } else {
        vstd::arithmetic::div_mod::lemma_small_mod(x as nat, m as nat);
    }
}

} // verus!
