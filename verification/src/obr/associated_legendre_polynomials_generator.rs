//! Indexing of associated Legendre polynomial values by degree and order.

use vstd::prelude::*;

verus! {

/// Generator of associated Legendre polynomial (ALP) values up to a maximum degree.
///
/// The values are stored in a flat array ordered by degree, then by order.
#[derive(Debug, Clone, PartialEq, Eq)]
pub struct AssociatedLegendrePolynomialsGenerator {
    max_degree: i32,
    condon_shortley_phase: bool,
    compute_negative_order: bool,
}

/// Number of values stored for degrees `0..=max_degree`.
pub open spec fn spec_num_values(max_degree: int, negative_orders: bool) -> int {
    if negative_orders {
        (max_degree + 1) * (max_degree + 1)
    } else {
        (max_degree + 1) * (max_degree + 2) / 2
    }
}

/// Smallest order stored for a degree.
pub open spec fn first_order(degree: int, negative_orders: bool) -> int {
    if negative_orders {
        -degree
    } else {
        0
    }
}

/// Flat index of the value of the given degree and order.
pub open spec fn spec_index(degree: int, order: int, negative_orders: bool) -> int {
    if negative_orders {
        degree * (degree + 1) + order
    } else {
        (degree * (degree + 1)) / 2 + order
    }
}

/// A degree and order for which a value is stored.
pub open spec fn valid_index(max_degree: int, negative_orders: bool, degree: int, order: int) -> bool {
    &&& 0 <= degree <= max_degree
    &&& first_order(degree, negative_orders) <= order <= degree
}

impl AssociatedLegendrePolynomialsGenerator {
    pub closed spec fn spec_max_degree(&self) -> int {
        self.max_degree as int
    }

    pub closed spec fn spec_condon_shortley_phase(&self) -> bool {
        self.condon_shortley_phase
    }

    pub closed spec fn spec_compute_negative_order(&self) -> bool {
        self.compute_negative_order
    }

    /// Constructs a generator for degrees `0..=max_degree`.
    pub fn new(max_degree: i32, condon_shortley_phase: bool, compute_negative_order: bool) -> (g: Self)
        requires
            max_degree >= 0,
        ensures
            g.spec_max_degree() == max_degree,
            g.spec_condon_shortley_phase() == condon_shortley_phase,
            g.spec_compute_negative_order() == compute_negative_order,
    {
        Self { max_degree, condon_shortley_phase, compute_negative_order }
    }

    /// Returns the number of polynomial values this generator computes.
    pub fn get_num_values(&self) -> (n: usize)
        requires
            0 <= self.spec_max_degree() <= 46339,
        ensures
            n == spec_num_values(self.spec_max_degree(), self.spec_compute_negative_order()),
    {
        let m = self.max_degree;
        assert(0 < (m + 1) * (m + 1) <= (m + 1) * (m + 2) <= 46340 * 46341) by (nonlinear_arith)
            requires
                0 <= m <= 46339,
        ;
        if self.compute_negative_order {
            ((m + 1) * (m + 1)) as usize
        } else {
            (((m + 1) * (m + 2)) / 2) as usize
        }
    }

    /// Whether a value of the given degree and order is stored by this generator.
    pub fn check_index_validity(&self, degree: i32, order: i32) -> (r: bool)
        ensures
            r == valid_index(self.spec_max_degree(), self.spec_compute_negative_order(), degree as int, order as int),
    {
        if degree < 0 || degree > self.max_degree {
            return false;
        }
        if self.compute_negative_order {
            -degree <= order && order <= degree
        } else {
            order >= 0 && order <= degree
        }
    }

    /// Computes the flat index of the value of the given degree and order.
    pub fn get_index(&self, degree: i32, order: i32) -> (r: usize)
        requires
            0 <= self.spec_max_degree() <= 46339,
            valid_index(self.spec_max_degree(), self.spec_compute_negative_order(), degree as int, order as int),
        ensures
            r == spec_index(degree as int, order as int, self.spec_compute_negative_order()),
            r < spec_num_values(self.spec_max_degree(), self.spec_compute_negative_order()),
    {
        let ghost m = self.max_degree as int;
        proof {
            lemma_index_in_range(m, self.compute_negative_order, degree as int, order as int);
        }
        assert(0 <= degree * (degree + 1) <= 46339 * 46340) by (nonlinear_arith)
            requires
                0 <= degree <= 46339,
        ;
        if self.compute_negative_order {
            (degree * (degree + 1) + order) as usize
        } else {
            ((degree * (degree + 1)) / 2 + order) as usize
        }
    }
}

/// `d * (d + 1)` is even.
proof fn lemma_pronic_even(d: int)
    requires
        d >= 0,
    ensures
        (d * (d + 1)) % 2 == 0,
        (d + 1) * (d + 2) == d * (d + 1) + 2 * (d + 1),
    decreases d,
{
    assert((d + 1) * (d + 2) == d * (d + 1) + 2 * (d + 1)) by (nonlinear_arith);
    if d > 0 {
        lemma_pronic_even(d - 1);
    }
}

proof fn lemma_index_in_range(m: int, neg: bool, degree: int, order: int)
    requires
        m >= 0,
        valid_index(m, neg, degree, order),
    ensures
        0 <= spec_index(degree, order, neg) < spec_num_values(m, neg),
{
    lemma_successive_bound(m, neg, degree);
    lemma_pronic_even(degree);
    assert(degree * (degree + 1) >= degree) by (nonlinear_arith)
        requires
            degree >= 0,
    ;
}

/// The last index of a degree is one less than the first index of the next degree,
/// and the last index of degree `d` is below the number of values of any maximum degree `m >= d`.
proof fn lemma_successive_bound(m: int, neg: bool, d: int)
    requires
        0 <= d <= m,
    ensures
        spec_index(d, d, neg) + 1 == spec_index(d + 1, first_order(d + 1, neg), neg),
        spec_index(d, d, neg) + 1 == spec_num_values(d, neg),
        spec_num_values(d, neg) <= spec_num_values(m, neg),
{
    lemma_pronic_even(d);
    lemma_pronic_even(d + 1);
    lemma_pronic_even(m);
    assert((d + 1) * (d + 2) <= (m + 1) * (m + 2)) by (nonlinear_arith)
        requires
            0 <= d <= m,
    ;
    assert((d + 1) * (d + 1) <= (m + 1) * (m + 1)) by (nonlinear_arith)
        requires
            0 <= d <= m,
    ;
    assert((d + 1) * (d + 2) == (d + 1) * (d + 1) + (d + 1)) by (nonlinear_arith);
}

/// The flat indices enumerate `0..num_values` in order of degree, then order: the first
/// value has index 0, each value's successor (next order, or first order of the next
/// degree) has the next index, and the last value has index `num_values - 1`.
pub proof fn lemma_indices_are_successive(m: int, neg: bool, degree: int, order: int)
    requires
        m >= 0,
        valid_index(m, neg, degree, order),
    ensures
        spec_index(0, 0, neg) == 0,
        order < degree ==> spec_index(degree, order + 1, neg) == spec_index(degree, order, neg) + 1,
        order == degree && degree < m ==> spec_index(degree + 1, first_order(degree + 1, neg), neg)
            == spec_index(degree, order, neg) + 1,
        order == degree && degree == m ==> spec_index(degree, order, neg) + 1 == spec_num_values(m, neg),
{
    lemma_successive_bound(m, neg, degree);
}

} // verus!
