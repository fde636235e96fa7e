use vstd::prelude::*;

use crate::error::{overflow_message, overflow_text, QuantityError};

verus! {

/// Exponents over length, time, mass, electric current, temperature, amount of
/// substance, luminous intensity, and a final orthogonality marker.
#[derive(Debug, Clone, Copy, Hash)]
pub struct DimensionVector(pub [i8; 8]);

impl View for DimensionVector {
    type V = Seq<i8>;

    open spec fn view(&self) -> Seq<i8> {
        self.0@
    }
}

/// Sum of a sequence of exponents.
pub open spec fn exponent_total(s: Seq<i8>) -> int
    decreases s.len(),
{
    if s.len() == 0 {
        0
    } else {
        exponent_total(s.drop_last()) + s.last() as int
    }
}

/// Whether an exponent computed in a wider range is representable in a slot.
pub open spec fn fits_slot(v: int) -> bool {
    i8::MIN <= v <= i8::MAX
}

/// Per-slot sums of two exponent sequences, unbounded.
pub open spec fn slot_sums(a: Seq<i8>, b: Seq<i8>) -> Seq<int> {
    Seq::new(8, |i: int| a[i] as int + b[i] as int)
}

/// Per-slot differences of two exponent sequences, unbounded.
pub open spec fn slot_differences(a: Seq<i8>, b: Seq<i8>) -> Seq<int> {
    Seq::new(8, |i: int| a[i] as int - b[i] as int)
}

/// Every one of the eight wide values fits in a slot.
pub open spec fn all_fit(w: Seq<int>) -> bool {
    forall|i: int| 0 <= i < 8 ==> fits_slot(#[trigger] w[i])
}

/// Slot `k` is the lowest whose wide value does not fit.
pub open spec fn lowest_overflow(w: Seq<int>, k: int) -> bool {
    &&& 0 <= k < 8
    &&& !fits_slot(w[k])
    &&& forall|j: int| 0 <= j < k ==> fits_slot(#[trigger] w[j])
}

/// The exponents `v` are the wide values `w`, slot for slot.
pub open spec fn holds_values(v: Seq<i8>, w: Seq<int>) -> bool {
    forall|i: int| 0 <= i < 8 ==> #[trigger] v[i] as int == w[i]
}

/// `e` reports an overflow at the lowest slot of `w` that does not fit, with
/// the value that slot would have taken.
pub open spec fn reports_overflow(w: Seq<int>, e: QuantityError) -> bool {
    &&& e matches QuantityError::DimensionOverflow { dimension_index, attempted_value, message }
    &&& lowest_overflow(w, dimension_index as int)
    &&& attempted_value as int == w[dimension_index as int]
    &&& message@ == overflow_text(dimension_index as nat, attempted_value as int)
}

/// What a checked slot-wise operation whose wide results are `w` returns: the
/// narrowed vector when every slot fits, else an overflow at the lowest slot
/// that does not.
pub open spec fn checked_outcome(w: Seq<int>, r: Result<DimensionVector, QuantityError>) -> bool {
    if all_fit(w) {
        r is Ok && holds_values(r->Ok_0@, w)
    } else {
        r is Err && reports_overflow(w, r->Err_0)
    }
}

impl DimensionVector {
    /// The wrapped exponents as a plain array.
    pub fn to_array(self) -> (r: [i8; 8])
        ensures
            r == self.0,
    {
        self.0
    }

    /// The exponent in slot `index`.
    pub fn get(&self, index: usize) -> (r: i8)
        requires
            index < 8,
        ensures
            r == self@[index as int],
    {
        self.0[index]
    }

    /// Overwrites the exponent in slot `index`, leaving the others.
    pub fn set(&mut self, index: usize, value: i8)
        requires
            index < 8,
        ensures
            final(self)@ == old(self)@.update(index as int, value),
    {
        self.0[index] = value;
    }

    /// The sum of all eight exponents.
    pub fn sum(&self) -> (r: i16)
        ensures
            r as int == exponent_total(self@),
    {
        let mut total: i16 = 0;
        let mut i: usize = 0;
        while i < 8
            invariant
                0 <= i <= 8,
                total as int == exponent_total(self@.subrange(0, i as int)),
                -128 * i <= total <= 127 * i,
            decreases 8 - i,
        {
            assert(self@.subrange(0, i as int + 1).drop_last() =~= self@.subrange(0, i as int));
            total = total + self.0[i] as i16;
            i = i + 1;
        }
        assert(self@.subrange(0, 8) =~= self@);
        total
    }

    /// Slot-wise sum (or difference, when `subtract`) computed in `i16`,
    /// failing at the first slot whose result leaves the `i8` range.
    fn combine(self, other: DimensionVector, subtract: bool) -> (r: Result<
        DimensionVector,
        QuantityError,
    >)
        ensures
            checked_outcome(
                if subtract {
                    slot_differences(self@, other@)
                } else {
                    slot_sums(self@, other@)
                },
                r,
            ),
    {
        let ghost w = if subtract {
            slot_differences(self@, other@)
        } else {
            slot_sums(self@, other@)
        };
        let mut result: [i8; 8] = [0, 0, 0, 0, 0, 0, 0, 0];
        let mut i: usize = 0;
        while i < 8
            invariant
                0 <= i <= 8,
                w == (if subtract {
                    slot_differences(self@, other@)
                } else {
                    slot_sums(self@, other@)
                }),
                forall|j: int| 0 <= j < i ==> fits_slot(#[trigger] w[j]),
                forall|j: int| 0 <= j < i ==> #[trigger] result@[j] as int == w[j],
            decreases 8 - i,
        {
            let value: i16 = if subtract {
                self.0[i] as i16 - other.0[i] as i16
            } else {
                self.0[i] as i16 + other.0[i] as i16
            };
            assert(value as int == w[i as int]);
            if value > i8::MAX as i16 || value < i8::MIN as i16 {
                let message = overflow_message(i, value);
                return Err(
                    QuantityError::DimensionOverflow {
                        dimension_index: i,
                        attempted_value: value,
                        message,
                    },
                );
            }
            result[i] = value as i8;
            i = i + 1;
        }
        Ok(DimensionVector(result))
    }
}

impl vstd::std_specs::ops::AddSpecImpl for DimensionVector {
    /// The sum is described by `add`'s own postcondition, which also fixes
    /// the overflow message; no spec-level value is offered.
    open spec fn obeys_add_spec() -> bool {
        false
    }

    open spec fn add_req(self, rhs: DimensionVector) -> bool {
        true
    }

    open spec fn add_spec(self, rhs: DimensionVector) -> Result<DimensionVector, QuantityError> {
        arbitrary()
    }
}

impl core::ops::Add for DimensionVector {
    type Output = Result<DimensionVector, QuantityError>;

    /// Adds exponents slot by slot, failing on the lowest slot whose sum
    /// leaves the `i8` range.
    fn add(self, other: DimensionVector) -> (r: Result<DimensionVector, QuantityError>)
        ensures
            checked_outcome(slot_sums(self@, other@), r),
    {
        self.combine(other, false)
    }
}

impl vstd::std_specs::ops::SubSpecImpl for DimensionVector {
    /// The difference is described by `sub`'s own postcondition, which also
    /// fixes the overflow message; no spec-level value is offered.
    open spec fn obeys_sub_spec() -> bool {
        false
    }

    open spec fn sub_req(self, rhs: DimensionVector) -> bool {
        true
    }

    open spec fn sub_spec(self, rhs: DimensionVector) -> Result<DimensionVector, QuantityError> {
        arbitrary()
    }
}

impl core::ops::Sub for DimensionVector {
    type Output = Result<DimensionVector, QuantityError>;

    /// Subtracts exponents slot by slot, failing on the lowest slot whose
    /// difference leaves the `i8` range.
    fn sub(self, other: DimensionVector) -> (r: Result<DimensionVector, QuantityError>)
        ensures
            checked_outcome(slot_differences(self@, other@), r),
    {
        self.combine(other, true)
    }
}

impl PartialEq for DimensionVector {
    fn eq(&self, other: &DimensionVector) -> (r: bool) {
        let mut i: usize = 0;
        while i < 8
            invariant
                0 <= i <= 8,
                forall|j: int| 0 <= j < i ==> self@[j] == other@[j],
            decreases 8 - i,
        {
            if self.0[i] != other.0[i] {
                return false;
            }
            i = i + 1;
        }
        assert(self@ =~= other@);
        true
    }
}

impl vstd::std_specs::cmp::PartialEqSpecImpl for DimensionVector {
    open spec fn obeys_eq_spec() -> bool {
        true
    }

    open spec fn eq_spec(&self, other: &DimensionVector) -> bool {
        self@ == other@
    }
}

impl Eq for DimensionVector {
}

impl From<[i8; 8]> for DimensionVector {
    fn from(array: [i8; 8]) -> (r: DimensionVector) {
        DimensionVector(array)
    }
}

impl vstd::std_specs::convert::FromSpecImpl<[i8; 8]> for DimensionVector {
    open spec fn obeys_from_spec() -> bool {
        true
    }

    open spec fn from_spec(array: [i8; 8]) -> DimensionVector {
        DimensionVector(array)
    }
}

/// Two vectors with the same exponents are the same vector.
pub proof fn lemma_view_determines(a: DimensionVector, b: DimensionVector)
    requires
        a@ == b@,
    ensures
        a == b,
{
    assert(a.0 =~= b.0);
}

/// Adding `b` and then subtracting it again gives back `a`, whenever both
/// operations succeed.
pub proof fn lemma_add_then_sub(
    a: DimensionVector,
    b: DimensionVector,
    sum: Result<DimensionVector, QuantityError>,
    back: Result<DimensionVector, QuantityError>,
)
    requires
        checked_outcome(slot_sums(a@, b@), sum),
        sum is Ok,
        checked_outcome(slot_differences(sum->Ok_0@, b@), back),
        back is Ok,
    ensures
        back->Ok_0 == a,
{
    let s = sum->Ok_0;
    let d = back->Ok_0;
    assert forall|i: int| 0 <= i < 8 implies d@[i] == a@[i] by {
        assert(d@[i] as int == slot_differences(s@, b@)[i]);
        assert(s@[i] as int == slot_sums(a@, b@)[i]);
    }
    assert(d@ =~= a@);
    lemma_view_determines(d, a);
}

/// Converting a vector to its array and back gives the same vector.
pub proof fn lemma_array_round_trip(v: DimensionVector, a: [i8; 8])
    requires
        a == v.0,
    ensures
        <DimensionVector as vstd::std_specs::convert::FromSpec<[i8; 8]>>::from_spec(a) == v,
{
}

} // verus!
