//! Half-open spans `[lo, hi)` over any totally ordered, copyable scalar.
//!
//! Every contract in this module is stated for scalars whose comparison
//! operators form a total order, which is what `obeys_cmp::<T>()` says. The
//! executable code never panics on other types, but nothing is promised of
//! what it returns for them.

pub mod laws;

use std::fmt::Debug;
use std::ops::Range;
use std::ops::Sub;
use vstd::laws_cmp::obeys_cmp;
use vstd::prelude::*;
use vstd::std_specs::cmp::OrdSpec;
use vstd::std_specs::cmp::PartialEqSpec;
use vstd::std_specs::cmp::PartialOrdIs;
use vstd::std_specs::cmp::PartialOrdSpec;
use vstd::std_specs::ops::SubSpec;

verus! {

/// The smaller of two scalars; the first one where neither is smaller.
pub open spec fn min_of<T: Ord>(a: T, b: T) -> T {
    if b.is_lt(&a) {
        b
    } else {
        a
    }
}

/// The larger of two scalars; the second one where neither is larger.
pub open spec fn max_of<T: Ord>(a: T, b: T) -> T {
    if b.is_lt(&a) {
        a
    } else {
        b
    }
}

/// A half-open range `[lo, hi)`.
///
/// The fields are public, so a span with `lo > hi` can be written down by
/// hand; every constructor and operation of this module returns spans that
/// are [`Vlmspan::well_formed`].
#[derive(Debug, Clone, Eq, Ord)]
pub struct Vlmspan<T> {
    pub lo: T,
    pub hi: T,
}

impl<T: Ord + Copy> Vlmspan<T> {
    /// `lo <= hi`.
    pub open spec fn well_formed(self) -> bool {
        self.lo.is_le(&self.hi)
    }

    /// The span that the constructor makes of two endpoints given in any order.
    pub open spec fn normalized(a: T, b: T) -> Self {
        Vlmspan { lo: min_of(a, b), hi: max_of(a, b) }
    }

    /// A span holds no point exactly when `lo >= hi`.
    pub open spec fn empty(self) -> bool {
        self.lo.is_ge(&self.hi)
    }

    /// `p` lies in `[lo, hi)`.
    pub open spec fn holds(self, p: T) -> bool {
        self.lo.is_le(&p) && p.is_lt(&self.hi)
    }

    /// The two spans share a point: neither is empty, `self.lo < other.hi`
    /// and `self.hi > other.lo`.
    pub open spec fn meets(self, other: Self) -> bool {
        &&& !self.empty()
        &&& !other.empty()
        &&& self.lo.is_lt(&other.hi)
        &&& self.hi.is_gt(&other.lo)
    }

    /// The common part of two spans, absent where it would hold no point.
    pub open spec fn common(self, other: Self) -> Option<Self> {
        let lo = max_of(self.lo, other.lo);
        let hi = min_of(self.hi, other.hi);
        if lo.is_lt(&hi) {
            Some(Vlmspan { lo, hi })
        } else {
            None
        }
    }

    /// The bounding hull of two spans: from the smaller `lo` to the larger
    /// `hi`, whatever lies between them.
    pub open spec fn hull(self, other: Self) -> Self {
        Self::normalized(min_of(self.lo, other.lo), max_of(self.hi, other.hi))
    }

    /// `position` moved into `[lo, hi]`.
    pub open spec fn clamped(self, position: T) -> T {
        min_of(max_of(position, self.lo), self.hi)
    }

    /// `hi - lo`, in `T`'s own subtraction.
    pub open spec fn length(self) -> T where T: Sub<Output = T> {
        self.hi.sub_spec(self.lo)
    }

    /// The two halves that a cut at `position` leaves.
    pub open spec fn halves(self, position: T) -> (Self, Self) {
        let p = self.clamped(position);
        (Self::normalized(self.lo, p), Self::normalized(p, self.hi))
    }
}

/// The operations of a span over `T`.
///
/// An implementor is read through [`VLMSpanCore::span`], its pair of
/// endpoints; each contract says what the operation does to that pair.
pub trait VLMSpanCore<T: Ord + Copy>: Sized {
    /// The endpoints that this value stands for.
    open spec fn span(&self) -> Vlmspan<T> {
        arbitrary()
    }

    /// Makes the span between two endpoints, given in any order: the
    /// smaller one becomes `lo` and the larger one `hi`.
    fn new(lo: T, hi: T) -> (s: Self)
        ensures
            obeys_cmp::<T>() ==> s.span() == Vlmspan::normalized(lo, hi),
            obeys_cmp::<T>() ==> s.span().well_formed(),
    ;

    /// The endpoints as a range `lo..hi`.
    fn range(&self) -> (r: Range<T>)
        ensures
            r == (Range { start: self.span().lo, end: self.span().hi }),
    ;

    /// `hi - lo`, in `T`'s own subtraction.
    fn len(&self) -> (n: T) where T: Sub<Output = T>
        requires
            self.span().hi.sub_req(self.span().lo),
        ensures
            T::obeys_sub_spec() ==> n == self.span().length(),
    ;

    /// Whether the span holds no point.
    fn is_empty(&self) -> (b: bool)
        ensures
            obeys_cmp::<T>() ==> b == self.span().empty(),
    ;

    /// Whether two spans share a point: neither is empty,
    /// `self.lo < other.hi` and `self.hi > other.lo`. Spans that only touch
    /// do not overlap, and an empty span overlaps nothing, itself included.
    fn overlaps(&self, other: &Self) -> (b: bool)
        ensures
            obeys_cmp::<T>() ==> b == self.span().meets(other.span()),
    ;

    /// The common part of two spans, from the larger `lo` to the smaller
    /// `hi`, or nothing where that part would hold no point.
    fn intersection(&self, other: &Self) -> (c: Option<Self>)
        ensures
            obeys_cmp::<T>() ==> match self.span().common(other.span()) {
                Some(part) => c.is_some() && c.unwrap().span() == part,
                None => c.is_none(),
            },
            obeys_cmp::<T>() && c.is_some() ==> c.unwrap().span().well_formed(),
    ;

    /// The bounding hull of two spans, from the smaller `lo` to the larger
    /// `hi`. This is no set union: a gap between the spans is part of it.
    fn union(&self, other: &Self) -> (u: Self)
        ensures
            obeys_cmp::<T>() ==> u.span() == self.span().hull(other.span()),
            obeys_cmp::<T>() ==> u.span().well_formed(),
    ;

    /// Cuts the span at `position`, moved into `[lo, hi]` first, into the
    /// part before the cut and the part from the cut on.
    fn split_at(&self, position: T) -> (halves: (Self, Self))
        ensures
            obeys_cmp::<T>() ==> halves.0.span() == self.span().halves(position).0,
            obeys_cmp::<T>() ==> halves.1.span() == self.span().halves(position).1,
            obeys_cmp::<T>() ==> halves.0.span().well_formed() && halves.1.span().well_formed(),
    ;
}

impl<T: Ord + Copy> VLMSpanCore<T> for Vlmspan<T> {
    open spec fn span(&self) -> Vlmspan<T> {
        *self
    }

    fn new(lo: T, hi: T) -> (s: Self) {
        proof {
            lemma_order_laws::<T>();
        }
        Vlmspan { lo: lo.min(hi), hi: lo.max(hi) }
    }

    fn range(&self) -> (r: Range<T>) {
        self.lo..self.hi
    }

    fn len(&self) -> (n: T) where T: Sub<Output = T> {
        self.hi - self.lo
    }

    fn is_empty(&self) -> (b: bool) {
        proof {
            lemma_order_laws::<T>();
        }
        self.lo >= self.hi
    }

    fn overlaps(&self, other: &Self) -> (b: bool) {
        proof {
            lemma_order_laws::<T>();
        }
        if self.is_empty() || other.is_empty() {
            false
        } else {
            self.lo < other.hi && self.hi > other.lo
        }
    }

    fn intersection(&self, other: &Self) -> (c: Option<Self>) {
        proof {
            lemma_order_laws::<T>();
        }
        let lo = self.lo.max(other.lo);
        let hi = self.hi.min(other.hi);
        if lo < hi {
            Some(Self::new(lo, hi))
        } else {
            None
        }
    }

    fn union(&self, other: &Self) -> (u: Self) {
        proof {
            lemma_order_laws::<T>();
        }
        Self::new(self.lo.min(other.lo), self.hi.max(other.hi))
    }

    fn split_at(&self, position: T) -> (halves: (Self, Self)) {
        proof {
            lemma_order_laws::<T>();
        }
        let pos = position.max(self.lo).min(self.hi);
        (Self::new(self.lo, pos), Self::new(pos, self.hi))
    }
}

impl<T: PartialEq> PartialEq for Vlmspan<T> {
    /// Two spans are equal when both endpoints are.
    fn eq(&self, other: &Self) -> (b: bool) {
        self.lo == other.lo && self.hi == other.hi
    }
}

impl<T: PartialEq> vstd::std_specs::cmp::PartialEqSpecImpl for Vlmspan<T> {
    open spec fn obeys_eq_spec() -> bool {
        T::obeys_eq_spec()
    }

    open spec fn eq_spec(&self, other: &Self) -> bool {
        self.lo.eq_spec(&other.lo) && self.hi.eq_spec(&other.hi)
    }
}

impl<T: PartialOrd> PartialOrd for Vlmspan<T> {
    /// Spans are ordered by `lo` first and by `hi` among equal `lo`.
    fn partial_cmp(&self, other: &Self) -> (o: Option<std::cmp::Ordering>) {
        match self.lo.partial_cmp(&other.lo) {
            Some(std::cmp::Ordering::Equal) => self.hi.partial_cmp(&other.hi),
            first => first,
        }
    }
}

impl<T: PartialOrd> vstd::std_specs::cmp::PartialOrdSpecImpl for Vlmspan<T> {
    open spec fn obeys_partial_cmp_spec() -> bool {
        T::obeys_partial_cmp_spec()
    }

    open spec fn partial_cmp_spec(&self, other: &Self) -> Option<std::cmp::Ordering> {
        match self.lo.partial_cmp_spec(&other.lo) {
            Some(std::cmp::Ordering::Equal) => self.hi.partial_cmp_spec(&other.hi),
            first => first,
        }
    }
}

/// What can be asked of a span besides its algebra: its text, whether it
/// holds a point, and a change of both endpoints at once.
pub trait VLMSpanUtils<T: Ord + Copy>: VLMSpanCore<T> {
    /// The span as text: `Vlmspan { lo: .., hi: .. }`, each endpoint as its
    /// own `Debug` impl writes it.
    fn to_string(&self) -> (text: String) where T: Debug
        ensures
            exists|lo: Seq<char>, hi: Seq<char>| text@ == debug_frame(lo, hi),
    ;

    /// Whether `position` lies in `[lo, hi)`.
    fn contains_p(&self, position: T) -> (b: bool)
        ensures
            obeys_cmp::<T>() ==> b == self.span().holds(position),
    ;

    /// Replaces both endpoints by those of `vlmspan`, put in order as the
    /// constructor does. Returns whether they came in order already.
    fn update(&mut self, vlmspan: Range<T>) -> (ordered: bool)
        ensures
            obeys_cmp::<T>() ==> final(self).span() == Vlmspan::normalized(
                vlmspan.start,
                vlmspan.end,
            ),
            obeys_cmp::<T>() ==> final(self).span().well_formed(),
            obeys_cmp::<T>() ==> ordered == vlmspan.start.is_le(&vlmspan.end),
    ;
}

/// The text of a span whose endpoints are written as `lo` and `hi`.
pub open spec fn debug_frame(lo: Seq<char>, hi: Seq<char>) -> Seq<char> {
    "Vlmspan { lo: "@ + lo + ", hi: "@ + hi + " }"@
}

/// Calls `format!` with `{:?}`, that is `T`'s `Debug` impl. Nothing is
/// claimed of the text: it is whatever that impl writes.
#[verifier::external_body]
fn debug_of<T: Debug>(value: &T) -> String {
    format!("{:?}", value)
}

/// The text of a span whose endpoints are written as `lo` and `hi`:
/// `Vlmspan { lo: .., hi: .. }` around the two.
pub fn span_text(lo: &str, hi: &str) -> (text: String)
    ensures
        text@ == debug_frame(lo@, hi@),
{
    let mut text = String::from_str("Vlmspan { lo: ");
    text.append(lo);
    text.append(", hi: ");
    text.append(hi);
    text.append(" }");
    text
}

impl<T: Ord + Copy> VLMSpanUtils<T> for Vlmspan<T> {
    fn to_string(&self) -> (text: String) where T: Debug {
        let lo = debug_of(&self.lo);
        let hi = debug_of(&self.hi);
        let text = span_text(lo.as_str(), hi.as_str());
        assert(text@ == debug_frame(lo@, hi@));
        text
    }

    fn contains_p(&self, position: T) -> (b: bool) {
        proof {
            lemma_order_laws::<T>();
        }
        self.lo <= position && position < self.hi
    }

    fn update(&mut self, vlmspan: Range<T>) -> (ordered: bool) {
        proof {
            lemma_order_laws::<T>();
        }
        let ordered = vlmspan.start <= vlmspan.end;
        self.lo = vlmspan.start.min(vlmspan.end);
        self.hi = vlmspan.start.max(vlmspan.end);
        ordered
    }
}

/// What a total order gives: the comparison operators agree with each other.
pub proof fn lemma_order_laws<T: Ord>()
    ensures
        obeys_cmp::<T>() ==> {
            &&& T::obeys_eq_spec()
            &&& T::obeys_partial_cmp_spec()
            &&& T::obeys_cmp_spec()
            &&& forall|x: T, y: T| #[trigger] x.partial_cmp_spec(&y) == Some(x.cmp_spec(&y))
            &&& forall|x: T, y: T|
                #![trigger x.partial_cmp_spec(&y)]
                x.is_lt(&y) <==> y.is_gt(&x)
            &&& forall|x: T, y: T|
                #![trigger x.partial_cmp_spec(&y)]
                x.is_le(&y) <==> !y.is_lt(&x)
            &&& forall|x: T, y: T|
                #![trigger x.partial_cmp_spec(&y)]
                x.eq_spec(&y) <==> x.is_le(&y) && y.is_le(&x)
        },
{
    reveal(vstd::laws_cmp::obeys_cmp_ord);
    reveal(vstd::laws_cmp::obeys_cmp_partial_ord);
    reveal(vstd::laws_cmp::obeys_partial_cmp_spec_properties);
    reveal(vstd::laws_eq::obeys_eq_spec_properties);
}

} // verus!
