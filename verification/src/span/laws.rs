//! What holds of every span over a totally ordered scalar.
//!
//! Each law is stated over the spec functions of [`Vlmspan`] that the
//! contracts of the operations are stated over.

use crate::scalar::Measured;
use crate::span::lemma_order_laws;
use crate::span::max_of;
use crate::span::min_of;
use crate::span::Vlmspan;
use std::cmp::Ordering;
use vstd::laws_cmp::obeys_cmp;
use vstd::laws_eq::obeys_concrete_eq;
use vstd::prelude::*;
use vstd::std_specs::cmp::PartialEqSpec;
use vstd::std_specs::cmp::PartialOrdIs;
use vstd::std_specs::cmp::PartialOrdSpec;
use vstd::std_specs::ops::SubSpec;

verus! {

/// The order on `T` is total: reflexive, transitive, and any two scalars
/// compare one way or the other, equal only when `==` says so.
pub proof fn lemma_total_order<T: Ord>(x: T, y: T, z: T)
    requires
        obeys_cmp::<T>(),
    ensures
        x.is_le(&x),
        x.eq_spec(&x),
        x.is_le(&y) || y.is_le(&x),
        x.is_le(&y) <==> !y.is_lt(&x),
        x.is_lt(&y) <==> y.is_gt(&x),
        x.eq_spec(&y) <==> y.eq_spec(&x),
        x.is_lt(&y) <==> x.is_le(&y) && !x.eq_spec(&y),
        x.is_le(&y) && y.is_le(&x) ==> x.eq_spec(&y),
        x.is_le(&y) && y.is_le(&z) ==> x.is_le(&z),
        x.is_lt(&y) && y.is_le(&z) ==> x.is_lt(&z),
        x.is_le(&y) && y.is_lt(&z) ==> x.is_lt(&z),
{
    reveal(vstd::laws_cmp::obeys_cmp_ord);
    reveal(vstd::laws_cmp::obeys_partial_cmp_spec_properties);
    reveal(vstd::laws_eq::obeys_eq_spec_properties);
}

/// However the two endpoints are given, the constructed span has `lo <= hi`.
pub proof fn lemma_new_well_formed<T: Ord + Copy>(a: T, b: T)
    requires
        obeys_cmp::<T>(),
    ensures
        Vlmspan::normalized(a, b).well_formed(),
        Vlmspan::normalized(a, b).lo.is_le(&Vlmspan::normalized(a, b).hi),
{
    lemma_order_laws::<T>();
}

/// The order in which the two endpoints are given makes no difference:
/// `new(a, b) == new(b, a)`. Where `==` on `T` is identity, the two spans
/// are the same value.
pub proof fn lemma_new_symmetric<T: Ord + Copy>(a: T, b: T)
    requires
        obeys_cmp::<T>(),
    ensures
        Vlmspan::normalized(a, b).eq_spec(&Vlmspan::normalized(b, a)),
        obeys_concrete_eq::<T>() ==> Vlmspan::normalized(a, b) == Vlmspan::normalized(b, a),
{
    reveal(vstd::laws_eq::obeys_concrete_eq);
    lemma_total_order(a, b, a);
    lemma_total_order(b, a, b);
}

/// A span in order is left as it is by the constructor.
pub proof fn lemma_new_keeps_ordered<T: Ord + Copy>(s: Vlmspan<T>)
    requires
        obeys_cmp::<T>(),
        s.well_formed(),
    ensures
        Vlmspan::normalized(s.lo, s.hi) == s,
{
    lemma_order_laws::<T>();
}

/// The length of a span in order is never negative, and is zero exactly
/// when the span is empty.
pub proof fn lemma_len_nonnegative<T: Measured>(s: Vlmspan<T>)
    requires
        s.well_formed(),
        s.hi.sub_req(s.lo),
    ensures
        s.length().position() >= 0,
        s.length().position() == s.hi.position() - s.lo.position(),
        s.length().position() == 0 <==> s.empty(),
{
    T::lemma_measured(s.hi, s.lo);
    T::lemma_measured(s.lo, s.hi);
}

/// An empty span overlaps nothing: no other span, whichever of the two is
/// asked, and not itself.
pub proof fn lemma_empty_span_overlaps_nothing<T: Ord + Copy>(s: Vlmspan<T>, other: Vlmspan<T>)
    requires
        obeys_cmp::<T>(),
        s.empty(),
    ensures
        !s.meets(other),
        !other.meets(s),
        !s.meets(s),
{
}

/// Overlap does not depend on which span is asked.
pub proof fn lemma_overlaps_symmetric<T: Ord + Copy>(a: Vlmspan<T>, b: Vlmspan<T>)
    requires
        obeys_cmp::<T>(),
    ensures
        a.meets(b) == b.meets(a),
{
    lemma_order_laws::<T>();
}

/// Two spans where one ends at the point at which the other starts do not
/// overlap.
pub proof fn lemma_adjacent_spans_do_not_overlap<T: Ord + Copy>(a: Vlmspan<T>, b: Vlmspan<T>)
    requires
        obeys_cmp::<T>(),
        a.hi.eq_spec(&b.lo),
    ensures
        !a.meets(b),
        !b.meets(a),
{
    lemma_total_order(b.lo, a.hi, b.lo);
}

/// Two spans have a common part exactly when they overlap, and that part
/// lies within both of them and holds a point.
pub proof fn lemma_intersection_contained<T: Ord + Copy>(a: Vlmspan<T>, b: Vlmspan<T>)
    requires
        obeys_cmp::<T>(),
    ensures
        a.common(b).is_some() <==> a.meets(b),
        a.common(b) matches Some(c) ==> {
            &&& a.lo.is_le(&c.lo)
            &&& c.hi.is_le(&a.hi)
            &&& b.lo.is_le(&c.lo)
            &&& c.hi.is_le(&b.hi)
            &&& c.lo.is_lt(&c.hi)
            &&& c.well_formed()
            &&& !c.empty()
        },
{
    lemma_order_laws::<T>();
    let lo = max_of(a.lo, b.lo);
    let hi = min_of(a.hi, b.hi);
    lemma_total_order(a.lo, lo, hi);
    lemma_total_order(b.lo, lo, hi);
    lemma_total_order(a.lo, b.hi, a.hi);
    lemma_total_order(b.lo, a.hi, b.hi);
    lemma_total_order(a.lo, a.hi, b.hi);
    lemma_total_order(b.lo, b.hi, a.hi);
}

/// The hull of two spans in order starts at the smaller `lo`, ends at the
/// larger `hi`, and so has both spans within it, and whatever lies between
/// them as well.
pub proof fn lemma_union_bounds<T: Ord + Copy>(a: Vlmspan<T>, b: Vlmspan<T>)
    requires
        obeys_cmp::<T>(),
        a.well_formed(),
        b.well_formed(),
    ensures
        a.hull(b).lo == min_of(a.lo, b.lo),
        a.hull(b).hi == max_of(a.hi, b.hi),
        a.hull(b).well_formed(),
        a.hull(b).lo.is_le(&a.lo) && a.hi.is_le(&a.hull(b).hi),
        a.hull(b).lo.is_le(&b.lo) && b.hi.is_le(&a.hull(b).hi),
{
    lemma_order_laws::<T>();
    let lo = min_of(a.lo, b.lo);
    let hi = max_of(a.hi, b.hi);
    lemma_total_order(lo, a.lo, a.hi);
    lemma_total_order(lo, b.lo, b.hi);
}

/// A cut of a span in order leaves `[lo, p)` and `[p, hi)`, where `p` is
/// the position moved into `[lo, hi]`: the halves meet at `p`, do not
/// overlap, and no endpoint of theirs lies outside the span. A cut at `lo`
/// or before it leaves the first half empty and the span as the second; a
/// cut at `hi` or after it leaves the span as the first half and the second
/// empty.
pub proof fn lemma_split_exact<T: Ord + Copy>(s: Vlmspan<T>, position: T)
    requires
        obeys_cmp::<T>(),
        s.well_formed(),
    ensures
        s.halves(position).0 == (Vlmspan { lo: s.lo, hi: s.clamped(position) }),
        s.halves(position).1 == (Vlmspan { lo: s.clamped(position), hi: s.hi }),
        s.lo.is_le(&s.clamped(position)) && s.clamped(position).is_le(&s.hi),
        s.holds(position) ==> s.clamped(position).eq_spec(&position),
        !s.halves(position).0.meets(s.halves(position).1),
        position.is_le(&s.lo) ==> s.halves(position).0.empty() && s.halves(position).1.eq_spec(&s),
        s.hi.is_le(&position) ==> s.halves(position).1.empty() && s.halves(position).0.eq_spec(&s),
{
    lemma_order_laws::<T>();
    let p = s.clamped(position);
    lemma_total_order(position, s.lo, s.hi);
    lemma_total_order(s.lo, position, s.hi);
    lemma_total_order(p, s.hi, p);
}

/// Spans are totally ordered by `lo` first and `hi` second: any two spans
/// compare, they compare equal exactly when both endpoints are equal, one
/// is less exactly when the other is greater, and less follows from less.
pub proof fn lemma_span_order_total<T: Ord + Copy>(a: Vlmspan<T>, b: Vlmspan<T>, c: Vlmspan<T>)
    requires
        obeys_cmp::<T>(),
    ensures
        a.partial_cmp_spec(&b).is_some(),
        a.partial_cmp_spec(&b) == Some(Ordering::Equal) <==> a.eq_spec(&b),
        a.partial_cmp_spec(&b) == Some(Ordering::Less) <==> b.partial_cmp_spec(&a) == Some(
            Ordering::Greater,
        ),
        a.partial_cmp_spec(&b) == Some(Ordering::Less) <==> a.lo.is_lt(&b.lo) || (a.lo.eq_spec(
            &b.lo,
        ) && a.hi.is_lt(&b.hi)),
        a.partial_cmp_spec(&b) == Some(Ordering::Less) && b.partial_cmp_spec(&c) == Some(
            Ordering::Less,
        ) ==> a.partial_cmp_spec(&c) == Some(Ordering::Less),
{
    reveal(vstd::laws_cmp::obeys_cmp_ord);
    reveal(vstd::laws_cmp::obeys_partial_cmp_spec_properties);
    reveal(vstd::laws_eq::obeys_eq_spec_properties);
}

} // verus!
