use vstd::prelude::*;

verus! {

/// The index of a neighbourhood `(left, center, right)` read as a 3-bit
/// integer, left cell most significant.
pub open spec fn neighborhood_index(left: bool, center: bool, right: bool) -> nat {
    (if left { 4nat } else { 0nat }) + (if center { 2nat } else { 0nat }) + (if right { 1nat } else { 0nat })
}

/// Whether bit `n` of the Wolfram code `code` is set.
pub open spec fn code_bit(code: u8, n: u8) -> bool {
    (code >> n) & 1u8 != 0u8
}

/// The new value of a cell whose neighbourhood is `(left, center, right)`
/// under the rule with Wolfram code `code`.
pub open spec fn rule_output(code: u8, left: bool, center: bool, right: bool) -> bool {
    code_bit(code, neighborhood_index(left, center, right) as u8)
}

/// The rule with code 255 turns every neighbourhood live, the rule with
/// code 0 turns every neighbourhood dead, and the rule with code 2 turns live
/// exactly the neighbourhood `(dead, dead, live)`, whose index is 1.
pub proof fn rule_code_encoding(left: bool, center: bool, right: bool)
    ensures
        rule_output(255, left, center, right),
        !rule_output(0, left, center, right),
        rule_output(2, left, center, right) <==> (!left && !center && right),
{
    let n = neighborhood_index(left, center, right) as u8;
    assert(n < 8);
    assert((255u8 >> n) & 1u8 != 0u8) by (bit_vector)
        requires
            n < 8,
    ;
    assert((0u8 >> n) & 1u8 == 0u8) by (bit_vector);
    assert(((2u8 >> n) & 1u8 != 0u8) <==> n == 1) by (bit_vector)
        requires
            n < 8,
    ;
}

/// A rule: a boolean outcome for each of the 8 possible 3-cell
/// neighbourhoods, represented by its Wolfram code.
#[derive(Clone, Copy, Debug, PartialEq, Eq, Structural)]
pub struct Rule(pub u8);

impl Rule {
    /// Applies the rule to a neighbourhood `[left, center, right]`: the result
    /// is bit `n` of the code, where `n = left*4 + center*2 + right`.
    pub fn apply(&self, neighborhood: [bool; 3]) -> (r: bool)
        ensures
            r == rule_output(self.0, neighborhood[0], neighborhood[1], neighborhood[2]),
    {
        let left: u8 = if neighborhood[0] { 4 } else { 0 };
        let center: u8 = if neighborhood[1] { 2 } else { 0 };
        let right: u8 = if neighborhood[2] { 1 } else { 0 };
        let n: u8 = left + center + right;
        (self.0 >> n) & 1 != 0
    }
}

} // verus!
