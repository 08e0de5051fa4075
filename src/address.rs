//! Addresses inside the controller's RAM banks, with wrapping arithmetic.
use core::marker::PhantomData;
use vstd::prelude::*;

verus! {

/// A RAM bank of the controller, described by the size of its address space.
pub trait Overflow {
    /// The number of addresses of the bank.
    spec fn spec_upper_bound() -> u8;

    /// Every bank has at least one address.
    proof fn lemma_upper_bound_positive()
        ensures
            0 < Self::spec_upper_bound(),
    ;

    /// The number of addresses of the bank.
    fn upper_bound() -> (r: u8)
        ensures
            r == Self::spec_upper_bound(),
    ;
}

/// Display data RAM: the characters currently shown, 128 addresses.
#[derive(Debug, Clone, Copy)]
pub struct DdRam;

/// Character generator RAM: the user defined glyphs, 64 addresses.
#[derive(Debug, Clone, Copy)]
pub struct CgRam;

/// Number of addresses of the display data RAM.
pub const DDRAM_UPPER_BOUND: u8 = 128;

/// Number of addresses of the character generator RAM.
pub const CGRAM_UPPER_BOUND: u8 = 64;

impl Overflow for DdRam {
    open spec fn spec_upper_bound() -> u8 {
        DDRAM_UPPER_BOUND
    }

    proof fn lemma_upper_bound_positive() {
    }

    fn upper_bound() -> (r: u8) {
        DDRAM_UPPER_BOUND
    }
}

impl Overflow for CgRam {
    open spec fn spec_upper_bound() -> u8 {
        CGRAM_UPPER_BOUND
    }

    proof fn lemma_upper_bound_positive() {
    }

    fn upper_bound() -> (r: u8) {
        CGRAM_UPPER_BOUND
    }
}

/// An address in the RAM bank `T`, always below the bank's upper bound.
#[derive(Debug)]
pub struct Address<T: Overflow> {
    raw: u8,
    ram: PhantomData<T>,
}

impl<T: Overflow> Address<T> {
    /// Every address lies below the upper bound of its bank.
    #[verifier::type_invariant]
    pub closed spec fn in_range(self) -> bool {
        self.raw < T::spec_upper_bound()
    }

    /// What the type invariant says of the address's number.
    pub proof fn lemma_in_range(self)
        requires
            self.in_range(),
        ensures
            self.value() < T::spec_upper_bound(),
    {
    }

    /// The address as a number.
    pub closed spec fn value(self) -> u8 {
        self.raw
    }

    /// The address whose number is `raw`.
    pub closed spec fn spec_new(raw: u8) -> Self {
        Address { raw, ram: PhantomData }
    }

    /// The number of an address built by `spec_new` is the one it was given.
    pub broadcast proof fn lemma_spec_new_value(raw: u8)
        ensures
            #[trigger] Self::spec_new(raw).value() == raw,
    {
    }

    /// The address that a raw byte stands for: the byte modulo the bank's size.
    pub open spec fn spec_from_raw(value: u8) -> u8 {
        (value as nat % T::spec_upper_bound() as nat) as u8
    }

    /// The sum of two addresses, wrapping at the bank's upper bound.
    pub open spec fn spec_add(a: u8, b: u8) -> u8 {
        ((a + b) % (T::spec_upper_bound() as int)) as u8
    }

    /// The difference of two addresses, wrapping backwards through the top of the bank.
    pub open spec fn spec_sub(a: u8, b: u8) -> u8 {
        ((a - b + T::spec_upper_bound()) % (T::spec_upper_bound() as int)) as u8
    }

    /// Normalizes a raw byte into the bank.
    pub fn from_raw(value: u8) -> (r: Self)
        ensures
            r == Self::spec_new(Self::spec_from_raw(value)),
            r.value() == Self::spec_from_raw(value),
    {
        let bound = T::upper_bound();
        proof {
            T::lemma_upper_bound_positive();
        }
        Address { raw: value % bound, ram: PhantomData }
    }

    /// The address as a byte, ready to be combined into an instruction.
    pub fn to_raw(&self) -> (r: u8)
        ensures
            r == self.value(),
            r < T::spec_upper_bound(),
    {
        proof {
            use_type_invariant(self);
        }
        self.raw
    }

    /// Adds two addresses modulo the bank's upper bound.
    pub fn wrapping_add(self, other: Self) -> (r: Self)
        ensures
            r == Self::spec_new(Self::spec_add(self.value(), other.value())),
            r.value() == Self::spec_add(self.value(), other.value()),
    {
        proof {
            use_type_invariant(&self);
            use_type_invariant(&other);
        }
        let bound = T::upper_bound();
        let sum: u16 = self.raw as u16 + other.raw as u16;
        Address { raw: (sum % bound as u16) as u8, ram: PhantomData }
    }

    /// Subtracts two addresses modulo the bank's upper bound.
    pub fn wrapping_sub(self, other: Self) -> (r: Self)
        ensures
            r == Self::spec_new(Self::spec_sub(self.value(), other.value())),
            r.value() == Self::spec_sub(self.value(), other.value()),
    {
        proof {
            use_type_invariant(&self);
            use_type_invariant(&other);
        }
        let bound = T::upper_bound();
        let raw = if self.raw >= other.raw {
            self.raw - other.raw
        } else {
            bound - (other.raw - self.raw)
        };
        proof {
            let a = self.raw as int;
            let b = other.raw as int;
            let n = bound as int;
            if a >= b {
                vstd::arithmetic::div_mod::lemma_mod_add_multiples_vanish(a - b, n);
                vstd::arithmetic::div_mod::lemma_small_mod((a - b) as nat, n as nat);
            } else {
                vstd::arithmetic::div_mod::lemma_small_mod((a - b + n) as nat, n as nat);
            }
        }
        Address { raw, ram: PhantomData }
    }
}

impl<T: Overflow> From<u8> for Address<T> {
    fn from(value: u8) -> (r: Self) {
        Self::from_raw(value)
    }
}

impl<T: Overflow> vstd::std_specs::convert::FromSpecImpl<u8> for Address<T> {
    open spec fn obeys_from_spec() -> bool {
        true
    }

    open spec fn from_spec(value: u8) -> Self {
        Self::spec_new(Self::spec_from_raw(value))
    }
}

impl<T: Overflow> From<Address<T>> for u8 {
    fn from(address: Address<T>) -> (r: u8) {
        address.to_raw()
    }
}

impl<T: Overflow> vstd::std_specs::convert::FromSpecImpl<Address<T>> for u8 {
    open spec fn obeys_from_spec() -> bool {
        true
    }

    open spec fn from_spec(address: Address<T>) -> u8 {
        address.value()
    }
}

/// Address wraparound: for numbers below the bank's upper bound, adding their addresses gives
/// their sum modulo the upper bound, and subtracting gives their difference wrapped back
/// through the top of the bank.
pub proof fn lemma_wraparound<T: Overflow>(a: u8, b: u8)
    requires
        a < T::spec_upper_bound(),
        b < T::spec_upper_bound(),
    ensures
        Address::<T>::spec_add(Address::<T>::spec_from_raw(a), Address::<T>::spec_from_raw(b)) == (
        a + b) % (T::spec_upper_bound() as int),
        Address::<T>::spec_sub(Address::<T>::spec_from_raw(a), Address::<T>::spec_from_raw(b)) == (
        a - b + T::spec_upper_bound()) % (T::spec_upper_bound() as int),
{
    vstd::arithmetic::div_mod::lemma_small_mod(a as nat, T::spec_upper_bound() as nat);
    vstd::arithmetic::div_mod::lemma_small_mod(b as nat, T::spec_upper_bound() as nat);
}

impl<T: Overflow> Clone for Address<T> {
    fn clone(&self) -> (r: Self)
        ensures
            r == *self,
    {
        *self
    }
}

impl<T: Overflow> Copy for Address<T> {

}

impl<T: Overflow> Default for Address<T> {
    fn default() -> (r: Self)
        ensures
            r.value() == 0,
    {
        proof {
            T::lemma_upper_bound_positive();
        }
        Self::from_raw(0)
    }
}

impl<T: Overflow> PartialEq for Address<T> {
    fn eq(&self, other: &Self) -> (r: bool) {
        self.raw == other.raw
    }
}

impl<T: Overflow> vstd::std_specs::cmp::PartialEqSpecImpl for Address<T> {
    open spec fn obeys_eq_spec() -> bool {
        true
    }

    open spec fn eq_spec(&self, other: &Self) -> bool {
        self.value() == other.value()
    }
}

impl<T: Overflow> core::ops::Add for Address<T> {
    type Output = Address<T>;

    fn add(self, other: Self) -> (r: Self) {
        self.wrapping_add(other)
    }
}

impl<T: Overflow> vstd::std_specs::ops::AddSpecImpl for Address<T> {
    open spec fn obeys_add_spec() -> bool {
        true
    }

    open spec fn add_req(self, other: Self) -> bool {
        true
    }

    open spec fn add_spec(self, other: Self) -> Self {
        Self::spec_new(Self::spec_add(self.value(), other.value()))
    }
}

impl<T: Overflow> core::ops::Sub for Address<T> {
    type Output = Address<T>;

    fn sub(self, other: Self) -> (r: Self) {
        self.wrapping_sub(other)
    }
}

impl<T: Overflow> vstd::std_specs::ops::SubSpecImpl for Address<T> {
    open spec fn obeys_sub_spec() -> bool {
        true
    }

    open spec fn sub_req(self, other: Self) -> bool {
        true
    }

    open spec fn sub_spec(self, other: Self) -> Self {
        Self::spec_new(Self::spec_sub(self.value(), other.value()))
    }
}

impl<T: Overflow> core::ops::AddAssign for Address<T> {
    fn add_assign(&mut self, other: Self)
        ensures
            final(self).value() == Self::spec_add(old(self).value(), other.value()),
    {
        *self = self.wrapping_add(other);
    }
}

impl<T: Overflow> core::ops::SubAssign for Address<T> {
    fn sub_assign(&mut self, other: Self)
        ensures
            final(self).value() == Self::spec_sub(old(self).value(), other.value()),
    {
        *self = self.wrapping_sub(other);
    }
}

} // verus!
