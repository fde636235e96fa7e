use vstd::prelude::*;

use crate::dimension::DimensionVector;

verus! {

/// The named kinds of physical quantity that the classifier recognises.
#[derive(Debug, Clone, Copy, PartialEq, Eq, Hash, Structural)]
pub enum Quantity {
    Length,
    Time,
    Mass,
    Current,
    Temperature,
    AmountOfSubstance,
    LuminousIntensity,
    Velocity,
    Force,
    Energy,
    Power,
    Torque,
}

/// The exponent vector that names a quantity: one unit exponent for a base
/// quantity; for torque, energy's exponents with the orthogonality slot set.
pub open spec fn canonical(q: Quantity) -> Seq<i8> {
    match q {
        Quantity::Length => seq![1i8, 0, 0, 0, 0, 0, 0, 0],
        Quantity::Time => seq![0i8, 1, 0, 0, 0, 0, 0, 0],
        Quantity::Mass => seq![0i8, 0, 1, 0, 0, 0, 0, 0],
        Quantity::Current => seq![0i8, 0, 0, 1, 0, 0, 0, 0],
        Quantity::Temperature => seq![0i8, 0, 0, 0, 1, 0, 0, 0],
        Quantity::AmountOfSubstance => seq![0i8, 0, 0, 0, 0, 1, 0, 0],
        Quantity::LuminousIntensity => seq![0i8, 0, 0, 0, 0, 0, 1, 0],
        Quantity::Velocity => seq![1i8, -1i8, 0, 0, 0, 0, 0, 0],
        Quantity::Force => seq![1i8, -2i8, 1, 0, 0, 0, 0, 0],
        Quantity::Energy => seq![2i8, -2i8, 1, 0, 0, 0, 0, 0],
        Quantity::Power => seq![2i8, -3i8, 1, 0, 0, 0, 0, 0],
        Quantity::Torque => seq![2i8, -2i8, 1, 0, 0, 0, 0, 1],
    }
}

/// Every quantity, in declaration order.
pub open spec fn quantity_list() -> Seq<Quantity> {
    seq![
        Quantity::Length,
        Quantity::Time,
        Quantity::Mass,
        Quantity::Current,
        Quantity::Temperature,
        Quantity::AmountOfSubstance,
        Quantity::LuminousIntensity,
        Quantity::Velocity,
        Quantity::Force,
        Quantity::Energy,
        Quantity::Power,
        Quantity::Torque,
    ]
}

/// The quantity whose canonical vector is exactly `v`, if there is one.
pub open spec fn classification(v: Seq<i8>) -> Option<Quantity> {
    if exists|q: Quantity| canonical(q) == v {
        Some(choose|q: Quantity| canonical(q) == v)
    } else {
        None
    }
}

/// No two quantities share a canonical vector.
pub proof fn lemma_canonical_injective(p: Quantity, q: Quantity)
    requires
        canonical(p) == canonical(q),
    ensures
        p == q,
{
    let a = canonical(p);
    let b = canonical(q);
    assert(a[0] == b[0] && a[1] == b[1] && a[2] == b[2] && a[3] == b[3]);
    assert(a[4] == b[4] && a[5] == b[5] && a[6] == b[6] && a[7] == b[7]);
}

/// Every quantity appears in the list of all quantities.
pub proof fn lemma_list_complete(q: Quantity)
    ensures
        quantity_list().contains(q),
{
    let l = quantity_list();
    let i: int = match q {
        Quantity::Length => 0,
        Quantity::Time => 1,
        Quantity::Mass => 2,
        Quantity::Current => 3,
        Quantity::Temperature => 4,
        Quantity::AmountOfSubstance => 5,
        Quantity::LuminousIntensity => 6,
        Quantity::Velocity => 7,
        Quantity::Force => 8,
        Quantity::Energy => 9,
        Quantity::Power => 10,
        Quantity::Torque => 11,
    };
    assert(l[i] == q);
}

/// Each quantity's canonical vector classifies as that quantity, and as no other.
pub proof fn lemma_classify_canonical(q: Quantity)
    ensures
        classification(canonical(q)) == Some(q),
{
    let p = choose|p: Quantity| canonical(p) == canonical(q);
    lemma_canonical_injective(p, q);
}

/// Energy and torque agree on the seven base slots, differ in the
/// orthogonality slot, and classify as different quantities.
pub proof fn lemma_energy_torque_split()
    ensures
        canonical(Quantity::Energy).take(7) == canonical(Quantity::Torque).take(7),
        canonical(Quantity::Energy)[7] != canonical(Quantity::Torque)[7],
        classification(canonical(Quantity::Energy)) != classification(canonical(Quantity::Torque)),
{
    assert(canonical(Quantity::Energy).take(7) =~= canonical(Quantity::Torque).take(7));
    lemma_classify_canonical(Quantity::Energy);
    lemma_classify_canonical(Quantity::Torque);
}

/// Every quantity, in declaration order.
pub fn all_quantities() -> (r: Vec<Quantity>)
    ensures
        r@ == quantity_list(),
{
    let r = vec![
        Quantity::Length,
        Quantity::Time,
        Quantity::Mass,
        Quantity::Current,
        Quantity::Temperature,
        Quantity::AmountOfSubstance,
        Quantity::LuminousIntensity,
        Quantity::Velocity,
        Quantity::Force,
        Quantity::Energy,
        Quantity::Power,
        Quantity::Torque,
    ];
    assert(r@ =~= quantity_list());
    r
}

impl Quantity {
    /// The canonical exponent vector of this quantity.
    pub fn dimension(self) -> (r: DimensionVector)
        ensures
            r@ == canonical(self),
    {
        let r = match self {
            Quantity::Length => DimensionVector([1, 0, 0, 0, 0, 0, 0, 0]),
            Quantity::Time => DimensionVector([0, 1, 0, 0, 0, 0, 0, 0]),
            Quantity::Mass => DimensionVector([0, 0, 1, 0, 0, 0, 0, 0]),
            Quantity::Current => DimensionVector([0, 0, 0, 1, 0, 0, 0, 0]),
            Quantity::Temperature => DimensionVector([0, 0, 0, 0, 1, 0, 0, 0]),
            Quantity::AmountOfSubstance => DimensionVector([0, 0, 0, 0, 0, 1, 0, 0]),
            Quantity::LuminousIntensity => DimensionVector([0, 0, 0, 0, 0, 0, 1, 0]),
            Quantity::Velocity => DimensionVector([1, -1, 0, 0, 0, 0, 0, 0]),
            Quantity::Force => DimensionVector([1, -2, 1, 0, 0, 0, 0, 0]),
            Quantity::Energy => DimensionVector([2, -2, 1, 0, 0, 0, 0, 0]),
            Quantity::Power => DimensionVector([2, -3, 1, 0, 0, 0, 0, 0]),
            Quantity::Torque => DimensionVector([2, -2, 1, 0, 0, 0, 0, 1]),
        };
        assert(r@ =~= canonical(self));
        r
    }
}

/// The quantity whose canonical vector is exactly `v`; no nearest match.
pub fn classify(v: &DimensionVector) -> (r: Option<Quantity>)
    ensures
        r == classification(v@),
{
    let all = all_quantities();
    let mut i: usize = 0;
    while i < all.len()
        invariant
            all@ == quantity_list(),
            0 <= i <= all@.len(),
            forall|j: int| 0 <= j < i ==> canonical(#[trigger] all@[j]) != v@,
        decreases all@.len() - i,
    {
        let q = all[i];
        if q.dimension() == *v {
            proof {
                lemma_classify_canonical(q);
            }
            return Some(q);
        }
        i = i + 1;
    }
    proof {
        assert forall|q: Quantity| canonical(q) != v@ by {
            lemma_list_complete(q);
            let j = choose|j: int| 0 <= j < all@.len() && all@[j] == q;
            assert(canonical(all@[j]) != v@);
        }
    }
    None
}

} // verus!
