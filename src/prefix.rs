//! Power-of-two aligned windows of the 32-bit address space, and an ordered
//! table that routes an address to the first window containing it.

use vstd::prelude::*;

verus! {

/// The 32-bit mask whose `len` leading bits are ones and the rest zeros.
pub open spec fn prefix_mask_spec(len: u32) -> u32 {
    (0xffff_ffff_0000_0000u64 >> len) as u32
}

/// Computes the mask with `len` leading ones.
pub fn prefix_mask(len: u32) -> (m: u32)
    requires
        len <= 32,
    ensures
        m == prefix_mask_spec(len),
{
    (0xffff_ffff_0000_0000u64 >> len) as u32
}

/// An address window given by its base address and a mask of leading ones.
#[derive(PartialEq, Eq, Structural, Debug, Clone, Copy)]
pub struct Prefix {
    pub mask: u32,
    pub address: u32,
}

impl Prefix {
    /// The mask is a run of leading ones and the base has no bit outside it.
    pub open spec fn wf(&self) -> bool {
        &&& exists|len: u32| len <= 32 && self.mask == prefix_mask_spec(len)
        &&& self.address & !self.mask == 0
    }

    /// Last address of the window.
    pub open spec fn last(&self) -> u32 {
        self.address | !self.mask
    }

    pub open spec fn contains_spec(&self, address: u32) -> bool {
        address & self.mask == self.address
    }

    /// Whether the window holds the whole access `[address, address + size)`.
    pub open spec fn holds(&self, address: u32, size: int) -> bool {
        &&& size >= 1
        &&& address + size - 1 <= u32::MAX
        &&& self.contains_spec(address)
        &&& self.contains_spec((address + size - 1) as u32)
    }

    pub fn holds_span(&self, address: u32, size: u32) -> (r: bool)
        ensures
            r == self.holds(address, size as int),
    {
        if size == 0 || address as u64 + size as u64 - 1 > 0xffff_ffff {
            return false;
        }
        let last = (address as u64 + size as u64 - 1) as u32;
        (address & self.mask) == self.address && (last & self.mask) == self.address
    }

    /// The window of prefix length `length` based at `address`.
    pub open spec fn new_spec(address: u32, length: u32) -> Prefix {
        Prefix { mask: prefix_mask_spec(length), address }
    }

    pub fn new(address: u32, length: u32) -> (r: Prefix)
        requires
            length <= 32,
            address & !prefix_mask_spec(length) == 0,
        ensures
            r == Prefix::new_spec(address, length),
            r.mask == prefix_mask_spec(length),
            r.address == address,
            r.wf(),
    {
        let mask = prefix_mask(length);
        Prefix { mask, address }
    }

    pub fn contains_value(&self, address: u32) -> (r: bool)
        ensures
            r == self.contains_spec(address),
            self.wf() ==> (r <==> self.address <= address <= self.last()),
    {
        proof {
            if self.wf() {
                let len = choose|len: u32| len <= 32 && self.mask == prefix_mask_spec(len);
                lemma_prefix_contains(len, self.address, address);
            }
        }
        (address & self.mask) == self.address
    }

    pub fn contains_prefix(&self, other: Prefix) -> (r: bool)
        ensures
            r == ((self.mask & !other.mask) == 0 && self.contains_spec(other.address)),
    {
        if (self.mask & !other.mask) != 0 {
            // a longer prefix cannot contain a shorter one
            false
        } else {
            (other.address & self.mask) == self.address
        }
    }
}

/// For a window of prefix length `len` based at `base`, masking an address
/// and comparing with the base is the same as an interval check.
pub proof fn lemma_prefix_contains(len: u32, base: u32, a: u32)
    requires
        len <= 32,
        base & !prefix_mask_spec(len) == 0,
    ensures
        (a & prefix_mask_spec(len) == base) <==> (base <= a && a <= (base | !prefix_mask_spec(len))),
{
    assert(len <= 32 && base & !((0xffff_ffff_0000_0000u64 >> len) as u32) == 0 ==> ((a & ((
    0xffff_ffff_0000_0000u64 >> len) as u32) == base) <==> (base <= a && a <= (base | !((
    0xffff_ffff_0000_0000u64 >> len) as u32))))) by (bit_vector);
}

/// An ordered table of windows; a lookup answers with the first entry whose
/// window contains the address.
pub struct PrefixMap<T> {
    children: Vec<(Prefix, T)>,
}

impl<T> View for PrefixMap<T> {
    type V = Seq<(Prefix, T)>;

    closed spec fn view(&self) -> Seq<(Prefix, T)> {
        self.children@
    }
}

/// Index of the first entry of `s` whose window holds the access of `size`
/// bytes at `address`, if any.
pub open spec fn first_holding<T>(s: Seq<(Prefix, T)>, address: u32, size: int) -> Option<int>
    decreases s.len(),
{
    if s.len() == 0 {
        None
    } else if s[0].0.holds(address, size) {
        Some(0)
    } else {
        match first_holding(s.drop_first(), address, size) {
            Some(i) => Some(i + 1),
            None => None,
        }
    }
}

/// What `first_holding` answers, stated by quantifiers.
pub proof fn lemma_first_holding<T>(s: Seq<(Prefix, T)>, address: u32, size: int)
    ensures
        match first_holding(s, address, size) {
            Some(i) => 0 <= i < s.len() && s[i].0.holds(address, size) && forall|j: int|
                0 <= j < i ==> !(#[trigger] s[j]).0.holds(address, size),
            None => forall|j: int| 0 <= j < s.len() ==> !(#[trigger] s[j]).0.holds(address, size),
        },
    decreases s.len(),
{
    if s.len() > 0 {
        lemma_first_holding(s.drop_first(), address, size);
        assert forall|j: int| 1 <= j < s.len() implies s[j] == s.drop_first()[j - 1] by {}
    }
}

/// `first_holding` is fixed by the scan: the first hit, after misses.
pub proof fn lemma_first_holding_at<T>(s: Seq<(Prefix, T)>, address: u32, size: int, i: int)
    requires
        0 <= i <= s.len(),
        forall|j: int| 0 <= j < i ==> !(#[trigger] s[j]).0.holds(address, size),
    ensures
        i < s.len() && s[i].0.holds(address, size) ==> first_holding(s, address, size) == Some(i),
        i == s.len() ==> first_holding(s, address, size) is None,
{
    lemma_first_holding(s, address, size);
    match first_holding(s, address, size) {
        Some(k) => {
            if k < i {
                assert(!s[k].0.holds(address, size));
            }
        },
        None => {},
    }
}

/// Two tables with the same windows in the same order route alike.
pub proof fn lemma_first_holding_windows<A, B>(
    s: Seq<(Prefix, A)>,
    t: Seq<(Prefix, B)>,
    address: u32,
    size: int,
)
    requires
        s.len() == t.len(),
        forall|j: int| 0 <= j < s.len() ==> (#[trigger] s[j]).0 == t[j].0,
    ensures
        first_holding(s, address, size) == first_holding(t, address, size),
{
    lemma_first_holding(s, address, size);
    match first_holding(s, address, size) {
        Some(i) => {
            assert forall|j: int| 0 <= j < i implies !(#[trigger] t[j]).0.holds(address, size) by {
                assert(s[j].0 == t[j].0);
            }
            assert(s[i].0 == t[i].0);
            lemma_first_holding_at(t, address, size, i);
        },
        None => {
            assert forall|j: int| 0 <= j < t.len() implies !(#[trigger] t[j]).0.holds(address, size) by {
                assert(s[j].0 == t[j].0);
            }
            lemma_first_holding_at(t, address, size, t.len() as int);
        },
    }
}

impl<T> PrefixMap<T> {
    pub fn from(vec: Vec<(Prefix, T)>) -> (r: PrefixMap<T>)
        ensures
            r@ == vec@,
    {
        PrefixMap { children: vec }
    }

    pub fn len(&self) -> (r: usize)
        ensures
            r == self@.len(),
    {
        self.children.len()
    }

    /// Finds the first entry whose window contains `address`; answers with
    /// the offset of the address in that window and the entry's value.
    pub fn locate(&self, address: u32) -> (r: Option<(u32, &T)>)
        ensures
            match first_holding(self@, address, 1) {
                Some(i) => r matches Some((off, v)) && off == address & !self@[i].0.mask && *v
                    == self@[i].1,
                None => r is None,
            },
    {
        let mut i: usize = 0;
        while i < self.children.len()
            invariant
                0 <= i <= self@.len(),
                forall|j: int| 0 <= j < i ==> !(#[trigger] self@[j]).0.holds(address, 1),
            decreases self@.len() - i,
        {
            let entry = &self.children[i];
            if entry.0.contains_value(address) {
                proof {
                    lemma_first_holding_at(self@, address, 1, i as int);
                }
                return Some((address & !entry.0.mask, &entry.1));
            }
            i += 1;
        }
        proof {
            lemma_first_holding_at(self@, address, 1, i as int);
        }
        None
    }

    /// Index and offset of the first entry whose window contains `address`.
    pub fn locate_index(&self, address: u32) -> (r: Option<(u32, usize)>)
        ensures
            r matches Some((o, j)) ==> first_holding(self@, address, 1) == Some(j as int) && j
                < self@.len() && o == address & !self@[j as int].0.mask,
            match first_holding(self@, address, 1) {
                Some(i) => r == Some((address & !self@[i].0.mask, i as usize)),
                None => r is None,
            },
    {
        let mut i: usize = 0;
        while i < self.children.len()
            invariant
                0 <= i <= self@.len(),
                forall|j: int| 0 <= j < i ==> !(#[trigger] self@[j]).0.holds(address, 1),
            decreases self@.len() - i,
        {
            if self.children[i].0.contains_value(address) {
                proof {
                    lemma_first_holding_at(self@, address, 1, i as int);
                }
                return Some((address & !self.children[i].0.mask, i));
            }
            i += 1;
        }
        proof {
            lemma_first_holding_at(self@, address, 1, i as int);
        }
        None
    }

    pub fn locate_mut(&mut self, address: u32) -> (r: Option<(u32, &mut T)>)
        ensures
            first_holding(old(self)@, address, 1) is None ==> r is None && final(self)@ == old(
                self,
            )@,
            first_holding(old(self)@, address, 1) matches Some(i) ==> r matches Some((off, v))
                && off == address & !old(self)@[i].0.mask && *v == old(self)@[i].1,
            first_holding(old(self)@, address, 1) matches Some(i) ==> r matches Some((off, v))
                && final(self)@ == old(self)@.update(i, (old(self)@[i].0, *final(v))),
    {
        proof {
            lemma_first_holding(self@, address, 1);
        }
        match self.locate_index(address) {
            Some((off, i)) => Some((off, &mut self.children[i].1)),
            None => None,
        }
    }

    /// Index and offset of the first entry whose window holds the whole
    /// access of `size` bytes at `address`.
    pub fn locate_span(&self, address: u32, size: u32) -> (r: Option<(u32, usize)>)
        ensures
            r matches Some((o, j)) ==> first_holding(self@, address, size as int) == Some(j as int)
                && j < self@.len() && o == address & !self@[j as int].0.mask,
            match first_holding(self@, address, size as int) {
                Some(i) => r == Some((address & !self@[i].0.mask, i as usize)),
                None => r is None,
            },
    {
        let mut i: usize = 0;
        while i < self.children.len()
            invariant
                0 <= i <= self@.len(),
                forall|j: int| 0 <= j < i ==> !(#[trigger] self@[j]).0.holds(address, size as int),
            decreases self@.len() - i,
        {
            if self.children[i].0.holds_span(address, size) {
                proof {
                    lemma_first_holding_at(self@, address, size as int, i as int);
                }
                return Some((address & !self.children[i].0.mask, i));
            }
            i += 1;
        }
        proof {
            lemma_first_holding_at(self@, address, size as int, i as int);
        }
        None
    }

    pub fn value(&self, i: usize) -> (r: &T)
        requires
            i < self@.len(),
        ensures
            *r == self@[i as int].1,
    {
        &self.children[i].1
    }

    pub fn value_mut(&mut self, i: usize) -> (r: &mut T)
        requires
            i < old(self)@.len(),
        ensures
            *r == old(self)@[i as int].1,
            final(self)@ == old(self)@.update(i as int, (old(self)@[i as int].0, *final(r))),
    {
        &mut self.children[i].1
    }

    /// Appends an entry; it is consulted after every earlier one.
    pub fn add_prefix(&mut self, prefix: Prefix, value: T)
        ensures
            final(self)@ == old(self)@.push((prefix, value)),
    {
        self.children.push((prefix, value));
    }
}

} // verus!
