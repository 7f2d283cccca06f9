use vstd::arithmetic::div_mod::{
    lemma_add_mod_noop_right,
    lemma_fundamental_div_mod_converse,
    lemma_sub_mod_noop_right,
};
use vstd::layout::size_of;
use vstd::prelude::*;

use crate::render::{hex_digits, hex_text};

verus! {

/// The number of distinct addresses: one more than the largest `usize`.
pub open spec fn address_space() -> int {
    usize::MAX as int + 1
}

/// `n` brought into the address range modulo the address space, as
/// wrapping arithmetic on addresses does.
pub open spec fn wrap_addr(n: int) -> usize {
    (n % address_space()) as usize
}

/// Wrapping by at most one turn of the address space.
pub(crate) proof fn lemma_wrap_one_turn(n: int)
    requires
        -address_space() <= n < 2 * address_space(),
    ensures
        wrap_addr(n) == (if n < 0 {
            n + address_space()
        } else if n >= address_space() {
            n - address_space()
        } else {
            n
        }),
{
    let m = address_space();
    if n < 0 {
        lemma_fundamental_div_mod_converse(n, m, -1, n + m);
    } else if n >= m {
        lemma_fundamental_div_mod_converse(n, m, 1, n - m);
    } else {
        lemma_fundamental_div_mod_converse(n, m, 0, n);
    }
}

/// Relies on `<*const T>::expose_provenance`: the address of a shared
/// reference, never zero since a reference is never null.
#[verifier::external_body]
fn exposed_addr_of_ref<T: ?Sized>(p: &T) -> (r: usize)
    ensures
        r != 0,
{
    core::ptr::from_ref(p).expose_provenance()
}

/// Relies on `<*mut T>::expose_provenance`: the address of a unique
/// reference, never zero; taking it leaves the referent as it was.
#[verifier::external_body]
fn exposed_addr_of_mut<T: ?Sized>(p: &mut T) -> (r: usize)
    ensures
        r != 0,
        &*final(p) == &*old(p),
{
    core::ptr::from_mut(p).expose_provenance()
}

/// The number of hexadecimal digits that render an address: two per byte.
pub open spec fn addr_hex_width() -> nat {
    usize::BITS as nat / 4
}

/// An address as `0x` and its zero-padded lowercase hexadecimal digits, two
/// per byte of the address width.
pub open spec fn addr_text(a: usize) -> Seq<char> {
    seq!['0', 'x'] + hex_digits(a as nat, addr_hex_width())
}

/// A pointer with its pointee type erased: nothing but an address.
///
/// The address is held as an integer. Constructors that start from a
/// reference expose its provenance, so that a typed pointer rebuilt from the
/// address may be used to reach the same allocation.
#[derive(Clone, Copy, PartialEq, Eq, Structural, Ord)]
pub struct ptr {
    /// The address, as a plain integer.
    pub addr: usize,
}

impl View for ptr {
    type V = usize;

    open spec fn view(&self) -> usize {
        self.addr
    }
}

impl ptr {
    /// The null pointer: address zero.
    #[verifier::allow_in_spec]
    pub fn null() -> (r: ptr)
        returns
            (ptr { addr: 0 }),
    {
        ptr { addr: 0 }
    }

    /// A pointer at `addr`, with no claim that anything lives there.
    #[verifier::allow_in_spec]
    pub fn invalid(addr: usize) -> (r: ptr)
        returns
            (ptr { addr }),
    {
        ptr { addr }
    }

    /// The numeric address.
    #[verifier::allow_in_spec]
    pub fn addr(self) -> (r: usize)
        returns
            self.addr,
    {
        self.addr
    }

    /// The address of a shared reference.
    pub fn from_ref<T: ?Sized>(p: &T) -> (r: ptr)
        ensures
            r@ != 0,
    {
        ptr { addr: exposed_addr_of_ref(p) }
    }

    /// The address of a unique reference; the referent is left unchanged.
    pub fn from_mut_ref<T: ?Sized>(p: &mut T) -> (r: ptr)
        ensures
            r@ != 0,
            &*final(p) == &*old(p),
    {
        ptr { addr: exposed_addr_of_mut(p) }
    }

    /// The debugging text of the pointer: `0x` and the address in
    /// lowercase hexadecimal, zero-padded to two digits per byte.
    pub fn to_debug_string(&self) -> (r: String)
        ensures
            r@ == addr_text(self@),
    {
        hex_text(self.addr, (usize::BITS / 4) as usize)
    }

    /// The pointer as a non-null one: `Some(self)` exactly when the address
    /// is not zero.
    #[verifier::allow_in_spec]
    pub fn as_non_null(self) -> (r: Option<ptr>)
        returns
            (if self.addr == 0 {
                None
            } else {
                Some(self)
            }),
    {
        if self.addr == 0 {
            None
        } else {
            Some(self)
        }
    }

    /// Whether the address is zero.
    #[verifier::allow_in_spec]
    pub fn is_null(self) -> (r: bool)
        returns
            self.addr == 0,
    {
        self.addr == 0
    }

    /// The pointer `offset` bytes further on, wrapping around the address
    /// space.
    #[verifier::allow_in_spec]
    pub fn add(self, offset: usize) -> (r: ptr)
        returns
            (ptr { addr: wrap_addr(self.addr + offset) }),
    {
        proof {
            lemma_wrap_one_turn(self@ + offset);
        }
        ptr { addr: self.addr.wrapping_add(offset) }
    }

    /// The pointer `offset` bytes back, wrapping around the address space.
    #[verifier::allow_in_spec]
    pub fn sub(self, offset: usize) -> (r: ptr)
        returns
            (ptr { addr: wrap_addr(self.addr - offset) }),
    {
        proof {
            lemma_wrap_one_turn(self@ - offset);
        }
        ptr { addr: self.addr.wrapping_sub(offset) }
    }

    /// The distance in bytes from `base` up to `self`, wrapping: defined
    /// also where `self` lies below `base`.
    #[verifier::allow_in_spec]
    pub fn diff(self, base: ptr) -> (r: usize)
        returns
            wrap_addr(self.addr - base.addr),
    {
        proof {
            lemma_wrap_one_turn(self@ - base@);
        }
        self.addr.wrapping_sub(base.addr)
    }

    /// The pointer with every address bit that is clear in `mask` cleared:
    /// with `mask == !(align - 1)`, the address rounded down to `align`.
    #[verifier::allow_in_spec]
    pub fn mask(self, mask: usize) -> (r: ptr)
        returns
            (ptr { addr: self.addr & mask }),
    {
        let a = self.addr;
        let cleared = a & !mask;
        assert(cleared <= a && a - cleared == a & mask) by (bit_vector)
            requires
                cleared == a & !mask,
        ;
        proof {
            lemma_wrap_one_turn(a - cleared);
        }
        self.sub(cleared)
    }

    /// The pointer `count` elements of `T` further on, wrapping around the
    /// address space.
    #[verifier::allow_in_spec]
    pub fn strided_add<T>(self, count: usize) -> (r: ptr)
        returns
            (ptr { addr: wrap_addr(self.addr + count * size_of::<T>()) }),
    {
        let size = core::mem::size_of::<T>();
        let offset = count.wrapping_mul(size);
        proof {
            lemma_add_mod_noop_right(self@ as int, count * size, address_space());
        }
        self.add(offset)
    }

    /// The pointer `count` elements of `T` back, wrapping around the address
    /// space.
    #[verifier::allow_in_spec]
    pub fn strided_sub<T>(self, count: usize) -> (r: ptr)
        returns
            (ptr { addr: wrap_addr(self.addr - count * size_of::<T>()) }),
    {
        let size = core::mem::size_of::<T>();
        let offset = count.wrapping_mul(size);
        proof {
            lemma_sub_mod_noop_right(self@ as int, count * size, address_space());
        }
        self.sub(offset)
    }

    /// The wrapping distance from `base` up to `self`, counted in whole
    /// elements of `T` (rounded down); `T` must not be zero-sized.
    pub fn strided_diff<T>(self, base: ptr) -> (r: usize)
        requires
            size_of::<T>() > 0,
        ensures
            r as int == wrap_addr(self@ - base@) as int / size_of::<T>() as int,
    {
        self.diff(base) / core::mem::size_of::<T>()
    }
}

impl PartialOrd for ptr {
    fn partial_cmp(&self, other: &ptr) -> (r: Option<core::cmp::Ordering>) {
        if self.addr < other.addr {
            Some(core::cmp::Ordering::Less)
        } else if self.addr > other.addr {
            Some(core::cmp::Ordering::Greater)
        } else {
            Some(core::cmp::Ordering::Equal)
        }
    }
}

/// Pointers are ordered by address.
impl vstd::std_specs::cmp::PartialOrdSpecImpl for ptr {
    open spec fn obeys_partial_cmp_spec() -> bool {
        true
    }

    open spec fn partial_cmp_spec(&self, other: &ptr) -> Option<core::cmp::Ordering> {
        if self.addr < other.addr {
            Some(core::cmp::Ordering::Less)
        } else if self.addr > other.addr {
            Some(core::cmp::Ordering::Greater)
        } else {
            Some(core::cmp::Ordering::Equal)
        }
    }
}

impl core::ops::Add<usize> for ptr {
    type Output = ptr;

    fn add(self, rhs: usize) -> (r: ptr) {
        self.add(rhs)
    }
}

/// `p + n` is `p.add(n)`.
impl vstd::std_specs::ops::AddSpecImpl<usize> for ptr {
    open spec fn obeys_add_spec() -> bool {
        true
    }

    open spec fn add_req(self, rhs: usize) -> bool {
        true
    }

    open spec fn add_spec(self, rhs: usize) -> ptr {
        ptr { addr: wrap_addr(self.addr + rhs) }
    }
}

impl core::ops::Sub<usize> for ptr {
    type Output = ptr;

    fn sub(self, rhs: usize) -> (r: ptr) {
        self.sub(rhs)
    }
}

/// `p - n` is `p.sub(n)`.
impl vstd::std_specs::ops::SubSpecImpl<usize> for ptr {
    open spec fn obeys_sub_spec() -> bool {
        true
    }

    open spec fn sub_req(self, rhs: usize) -> bool {
        true
    }

    open spec fn sub_spec(self, rhs: usize) -> ptr {
        ptr { addr: wrap_addr(self.addr - rhs) }
    }
}

impl core::ops::Sub<ptr> for ptr {
    type Output = usize;

    fn sub(self, rhs: ptr) -> (r: usize) {
        self.diff(rhs)
    }
}

/// `p - q` is `p.diff(q)`.
impl vstd::std_specs::ops::SubSpecImpl<ptr> for ptr {
    open spec fn obeys_sub_spec() -> bool {
        true
    }

    open spec fn sub_req(self, rhs: ptr) -> bool {
        true
    }

    open spec fn sub_spec(self, rhs: ptr) -> usize {
        wrap_addr(self.addr - rhs.addr)
    }
}

impl core::ops::BitAnd<usize> for ptr {
    type Output = ptr;

    fn bitand(self, rhs: usize) -> (r: ptr) {
        self.mask(rhs)
    }
}

/// `p & m` is `p.mask(m)`.
impl vstd::std_specs::ops::BitAndSpecImpl<usize> for ptr {
    open spec fn obeys_bitand_spec() -> bool {
        true
    }

    open spec fn bitand_req(self, rhs: usize) -> bool {
        true
    }

    open spec fn bitand_spec(self, rhs: usize) -> ptr {
        ptr { addr: self.addr & rhs }
    }
}

impl core::ops::AddAssign<usize> for ptr {
    fn add_assign(&mut self, rhs: usize)
        ensures
            final(self)@ == wrap_addr(old(self)@ + rhs),
    {
        *self = self.add(rhs);
    }
}

impl core::ops::SubAssign<usize> for ptr {
    fn sub_assign(&mut self, rhs: usize)
        ensures
            final(self)@ == wrap_addr(old(self)@ - rhs),
    {
        *self = self.sub(rhs);
    }
}

impl core::ops::BitAndAssign<usize> for ptr {
    fn bitand_assign(&mut self, rhs: usize)
        ensures
            final(self)@ == old(self)@ & rhs,
    {
        *self = self.mask(rhs);
    }
}

} // verus!
