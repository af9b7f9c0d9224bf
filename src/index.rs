use vstd::prelude::*;

verus! {

/// The 32-bit unsigned index that an integer value becomes: its value modulo 2^32,
/// as an `as u32` cast gives it.
pub open spec fn index_to_u32(v: int) -> u32 {
    (v % 0x1_0000_0000) as u32
}

/// Integer types accepted as vertex indices.
pub trait IndexElem: Copy {
    /// The integer that the index stands for.
    spec fn index_value(&self) -> int;

    /// The index as a 32-bit unsigned integer, as the element buffers hold it.
    fn to_u32(&self) -> (r: u32)
        ensures
            r == index_to_u32(self.index_value()),
    ;
}

/// Relies on num-traits' `AsPrimitive<u32>` for `u8`: the `as` cast, which keeps the value.
pub assume_specification[ <u8 as num_traits::AsPrimitive<u32>>::as_ ](x: u8) -> (r: u32)
    ensures
        r == x as u32,
;

impl IndexElem for u8 {
    open spec fn index_value(&self) -> int {
        *self as int
    }

    fn to_u32(&self) -> (r: u32) {
        num_traits::AsPrimitive::<u32>::as_(*self)
    }
}

/// Relies on num-traits' `AsPrimitive<u32>` for `u16`: the `as` cast, which keeps the value.
pub assume_specification[ <u16 as num_traits::AsPrimitive<u32>>::as_ ](x: u16) -> (r: u32)
    ensures
        r == x as u32,
;

impl IndexElem for u16 {
    open spec fn index_value(&self) -> int {
        *self as int
    }

    fn to_u32(&self) -> (r: u32) {
        num_traits::AsPrimitive::<u32>::as_(*self)
    }
}

/// Relies on num-traits' `AsPrimitive<u32>` for `u32`: the value itself.
pub assume_specification[ <u32 as num_traits::AsPrimitive<u32>>::as_ ](x: u32) -> (r: u32)
    ensures
        r == x,
;

impl IndexElem for u32 {
    open spec fn index_value(&self) -> int {
        *self as int
    }

    fn to_u32(&self) -> (r: u32) {
        num_traits::AsPrimitive::<u32>::as_(*self)
    }
}

/// Relies on num-traits' `AsPrimitive<u32>` for `u64`: the `as` cast, which keeps the value modulo 2^32.
pub assume_specification[ <u64 as num_traits::AsPrimitive<u32>>::as_ ](x: u64) -> (r: u32)
    ensures
        r == index_to_u32(x as int),
;

impl IndexElem for u64 {
    open spec fn index_value(&self) -> int {
        *self as int
    }

    fn to_u32(&self) -> (r: u32) {
        num_traits::AsPrimitive::<u32>::as_(*self)
    }
}

/// Relies on num-traits' `AsPrimitive<u32>` for `usize`: the `as` cast, which keeps the value modulo 2^32.
pub assume_specification[ <usize as num_traits::AsPrimitive<u32>>::as_ ](x: usize) -> (r: u32)
    ensures
        r == index_to_u32(x as int),
;

impl IndexElem for usize {
    open spec fn index_value(&self) -> int {
        *self as int
    }

    fn to_u32(&self) -> (r: u32) {
        num_traits::AsPrimitive::<u32>::as_(*self)
    }
}

/// Relies on num-traits' `AsPrimitive<u32>` for `i32`: the `as` cast, which keeps the value modulo 2^32.
pub assume_specification[ <i32 as num_traits::AsPrimitive<u32>>::as_ ](x: i32) -> (r: u32)
    ensures
        r == index_to_u32(x as int),
;

impl IndexElem for i32 {
    open spec fn index_value(&self) -> int {
        *self as int
    }

    fn to_u32(&self) -> (r: u32) {
        num_traits::AsPrimitive::<u32>::as_(*self)
    }
}

/// The indices of `s`, each as a 32-bit unsigned integer.
pub open spec fn normalized_indices<T: IndexElem>(s: Seq<T>) -> Seq<u32> {
    Seq::new(s.len(), |i: int| index_to_u32(s[i].index_value()))
}

/// Two index lists that stand for the same integers normalize to the same
/// 32-bit indices, whatever the width of their element types.
pub proof fn lemma_normalized_indices_width_independent<A: IndexElem, B: IndexElem>(
    a: Seq<A>,
    b: Seq<B>,
)
    requires
        a.len() == b.len(),
        forall|i: int| 0 <= i < a.len() ==> #[trigger] a[i].index_value() == b[i].index_value(),
    ensures
        normalized_indices(a) == normalized_indices(b),
{
    assert(normalized_indices(a) =~= normalized_indices(b));
}

/// The indices of `elem2vtx`, each as a 32-bit unsigned integer.
pub fn to_u32_indices<T: IndexElem>(elem2vtx: &[T]) -> (r: Vec<u32>)
    ensures
        r@ == normalized_indices(elem2vtx@),
{
    let mut r: Vec<u32> = Vec::with_capacity(elem2vtx.len());
    let mut i: usize = 0;
    while i < elem2vtx.len()
        invariant
            i <= elem2vtx@.len(),
            r@ == normalized_indices(elem2vtx@.take(i as int)),
        decreases elem2vtx@.len() - i,
    {
        r.push(elem2vtx[i].to_u32());
        assert(normalized_indices(elem2vtx@.take(i + 1)) =~= normalized_indices(
            elem2vtx@.take(i as int),
        ).push(index_to_u32(elem2vtx@[i as int].index_value())));
        i += 1;
    }
    assert(elem2vtx@.take(i as int) =~= elem2vtx@);
    r
}

} // verus!
