//! Scalars that lie on the number line.
//!
//! A span's algebra needs an order only. Its length needs more: that the
//! difference of two endpoints is the distance between them. [`Measured`]
//! says so, and the primitive integers have it.

use std::ops::Sub;
use vstd::laws_cmp::obeys_cmp;
use vstd::prelude::*;
use vstd::std_specs::cmp::PartialOrdIs;
use vstd::std_specs::ops::SubSpec;

verus! {

/// A scalar with a place on the number line, ordered and subtracted as the
/// integers are.
pub trait Measured: Ord + Copy + Sub<Output = Self> {
    /// Where the scalar lies on the number line.
    spec fn position(self) -> int;

    /// The order is total and is that of the positions; a difference that
    /// `Sub` accepts is the difference of the positions.
    proof fn lemma_measured(a: Self, b: Self)
        ensures
            obeys_cmp::<Self>(),
            Self::obeys_sub_spec(),
            a.is_lt(&b) <==> a.position() < b.position(),
            a.is_le(&b) <==> a.position() <= b.position(),
            a.sub_req(b) ==> a.sub_spec(b).position() == a.position() - b.position(),
    ;
}

impl Measured for u8 {
    open spec fn position(self) -> int {
        self as int
    }

    proof fn lemma_measured(a: Self, b: Self) {
        broadcast use vstd::laws_cmp::group_laws_cmp;
    }
}

impl Measured for u16 {
    open spec fn position(self) -> int {
        self as int
    }

    proof fn lemma_measured(a: Self, b: Self) {
        broadcast use vstd::laws_cmp::group_laws_cmp;
    }
}

impl Measured for u32 {
    open spec fn position(self) -> int {
        self as int
    }

    proof fn lemma_measured(a: Self, b: Self) {
        broadcast use vstd::laws_cmp::group_laws_cmp;
    }
}

impl Measured for u64 {
    open spec fn position(self) -> int {
        self as int
    }

    proof fn lemma_measured(a: Self, b: Self) {
        broadcast use vstd::laws_cmp::group_laws_cmp;
    }
}

impl Measured for u128 {
    open spec fn position(self) -> int {
        self as int
    }

    proof fn lemma_measured(a: Self, b: Self) {
        broadcast use vstd::laws_cmp::group_laws_cmp;
    }
}

impl Measured for usize {
    open spec fn position(self) -> int {
        self as int
    }

    proof fn lemma_measured(a: Self, b: Self) {
        broadcast use vstd::laws_cmp::group_laws_cmp;
    }
}

impl Measured for i8 {
    open spec fn position(self) -> int {
        self as int
    }

    proof fn lemma_measured(a: Self, b: Self) {
        broadcast use vstd::laws_cmp::group_laws_cmp;
    }
}

impl Measured for i16 {
    open spec fn position(self) -> int {
        self as int
    }

    proof fn lemma_measured(a: Self, b: Self) {
        broadcast use vstd::laws_cmp::group_laws_cmp;
    }
}

impl Measured for i32 {
    open spec fn position(self) -> int {
        self as int
    }

    proof fn lemma_measured(a: Self, b: Self) {
        broadcast use vstd::laws_cmp::group_laws_cmp;
    }
}

impl Measured for i64 {
    open spec fn position(self) -> int {
        self as int
    }

    proof fn lemma_measured(a: Self, b: Self) {
        broadcast use vstd::laws_cmp::group_laws_cmp;
    }
}

impl Measured for i128 {
    open spec fn position(self) -> int {
        self as int
    }

    proof fn lemma_measured(a: Self, b: Self) {
        broadcast use vstd::laws_cmp::group_laws_cmp;
    }
}

impl Measured for isize {
    open spec fn position(self) -> int {
        self as int
    }

    proof fn lemma_measured(a: Self, b: Self) {
        broadcast use vstd::laws_cmp::group_laws_cmp;
    }
}

} // verus!
