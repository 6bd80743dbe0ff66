use vstd::prelude::*;

verus! {

/// Length, in whole epochs, of one compounding cycle of a deposit.
pub const CYCLE: u64 = 180;

/// A position on the chain's epoch axis: the rational `number + index / length`.
#[derive(Clone, Copy, Debug, PartialEq, Eq)]
pub struct EpochPoint {
    pub number: u64,
    pub index: u64,
    pub length: u64,
}

/// `(an + ai / al) <= (bn + bi / bl)` over exact rationals, by cross-multiplication.
pub open spec fn point_le(an: int, ai: int, al: int, bn: int, bi: int, bl: int) -> bool {
    (an * al + ai) * bl <= (bn * bl + bi) * al
}

impl EpochPoint {
    /// A point as chain headers carry it: a positive length and an index below it.
    pub open spec fn well_formed(self) -> bool {
        self.length > 0 && self.index < self.length
    }

    /// `self <= other` as exact rationals.
    pub open spec fn le(self, other: EpochPoint) -> bool {
        point_le(
            self.number as int,
            self.index as int,
            self.length as int,
            other.number as int,
            other.index as int,
            other.length as int,
        )
    }

    pub fn new(number: u64, index: u64, length: u64) -> (r: EpochPoint)
        ensures
            r == (EpochPoint { number, index, length }),
    {
        EpochPoint { number, index, length }
    }

    pub fn is_well_formed(&self) -> (r: bool)
        ensures
            r == self.well_formed(),
    {
        self.length > 0 && self.index < self.length
    }

    /// Compares two well-formed points as exact rationals: by epoch number, then by
    /// cross-multiplied fraction; no rounding ever takes place.
    pub fn is_at_most(&self, other: &EpochPoint) -> (r: bool)
        requires
            self.well_formed(),
            other.well_formed(),
        ensures
            r == self.le(*other),
    {
        proof {
            lemma_wide_product(self.index, other.length);
            lemma_wide_product(other.index, self.length);
        }
        let own_fraction: u128 = self.index as u128 * other.length as u128;
        let other_fraction: u128 = other.index as u128 * self.length as u128;
        proof {
            lemma_point_le_iff(
                self.number as int,
                self.index as int,
                self.length as int,
                other.number as int,
                other.index as int,
                other.length as int,
            );
        }
        self.number < other.number || (self.number == other.number && own_fraction
            <= other_fraction)
    }
}

/// The product of two `u64` values fits in a `u128`.
pub proof fn lemma_wide_product(a: u64, b: u64)
    ensures
        a * b <= u128::MAX,
{
    assert(a * b <= u64::MAX * u64::MAX) by (nonlinear_arith)
        requires
            a <= u64::MAX,
            b <= u64::MAX,
    ;
}

/// For fractions in `[0, 1)`, the rational order is the order of the epoch numbers,
/// with the fractions deciding a tie.
pub proof fn lemma_point_le_iff(an: int, ai: int, al: int, bn: int, bi: int, bl: int)
    requires
        al > 0,
        bl > 0,
        0 <= ai < al,
        0 <= bi < bl,
    ensures
        point_le(an, ai, al, bn, bi, bl) <==> an - bn + (if ai * bl > bi * al {
            1int
        } else {
            0int
        }) <= 0,
{
    let l = al * bl;
    let a = ai * bl;
    let b = bi * al;
    assert(l > 0 && 0 <= a < l && 0 <= b < l) by (nonlinear_arith)
        requires
            al > 0,
            bl > 0,
            0 <= ai < al,
            0 <= bi < bl,
            l == al * bl,
            a == ai * bl,
            b == bi * al,
    ;
    assert(((an * al + ai) * bl <= (bn * bl + bi) * al) <==> ((an - bn) * l <= b - a))
        by (nonlinear_arith)
        requires
            l == al * bl,
            a == ai * bl,
            b == bi * al,
    ;
    lemma_cross(an - bn, l, a, b);
}

/// The candidate `deposit + k * CYCLE` (same fraction as the deposit) is not below `prepare`.
pub open spec fn reaches(deposit: EpochPoint, k: int, prepare: EpochPoint) -> bool {
    point_le(
        prepare.number as int,
        prepare.index as int,
        prepare.length as int,
        deposit.number + CYCLE * k,
        deposit.index as int,
        deposit.length as int,
    )
}

/// `unlock` is the smallest candidate `deposit + k * CYCLE` (`k >= 0`, same fraction as
/// `deposit`) that is not below `prepare`.
pub open spec fn is_minimal_unlock_point(
    deposit: EpochPoint,
    prepare: EpochPoint,
    unlock: EpochPoint,
) -> bool {
    let k = (unlock.number - deposit.number) / (CYCLE as int);
    &&& unlock.index == deposit.index
    &&& unlock.length == deposit.length
    &&& unlock.number >= deposit.number
    &&& (unlock.number - deposit.number) % (CYCLE as int) == 0
    &&& reaches(deposit, k, prepare)
    &&& (k == 0 || !reaches(deposit, k - 1, prepare))
}

/// Whole epochs that must pass, counted from the deposit, before `prepare` is covered:
/// the epoch difference, plus one when the prepare fraction exceeds the deposit fraction.
pub open spec fn passed_epochs(deposit: EpochPoint, prepare: EpochPoint) -> int {
    prepare.number - deposit.number + if prepare.index * deposit.length > deposit.index
        * prepare.length {
        1int
    } else {
        0int
    }
}

/// `x * l <= b - a` for fractions `a / l`, `b / l` in `[0, 1)` is a question on `x` alone.
proof fn lemma_cross(x: int, l: int, a: int, b: int)
    requires
        l > 0,
        0 <= a < l,
        0 <= b < l,
    ensures
        (x * l <= b - a) <==> (x + (if a > b { 1int } else { 0int }) <= 0),
{
    if x >= 1 {
        assert(x * l >= l) by (nonlinear_arith)
            requires
                x >= 1,
                l > 0,
        ;
    } else if x <= -1 {
        assert(x * l <= -l) by (nonlinear_arith)
            requires
                x <= -1,
                l > 0,
        ;
    } else {
        assert(x == 0);
    }
}

/// Candidate `k` covers `prepare` exactly when `k` cycles span the passed epochs.
proof fn lemma_reaches_iff(deposit: EpochPoint, k: int, prepare: EpochPoint)
    requires
        deposit.well_formed(),
        prepare.well_formed(),
    ensures
        reaches(deposit, k, prepare) <==> CYCLE * k >= passed_epochs(deposit, prepare),
{
    lemma_point_le_iff(
        prepare.number as int,
        prepare.index as int,
        prepare.length as int,
        deposit.number + CYCLE * k,
        deposit.index as int,
        deposit.length as int,
    );
}

/// The earliest epoch point, on the deposit's cycle grid, at which the prepared
/// deposit can be withdrawn.
pub fn minimal_unlock_point(deposit: &EpochPoint, prepare: &EpochPoint) -> (r: EpochPoint)
    requires
        deposit.well_formed(),
        prepare.well_formed(),
        prepare.number + CYCLE <= u64::MAX,
    ensures
        is_minimal_unlock_point(*deposit, *prepare, r),
{
    proof {
        lemma_wide_product(prepare.index, deposit.length);
        lemma_wide_product(deposit.index, prepare.length);
    }
    let prepare_fraction: u128 = prepare.index as u128 * deposit.length as u128;
    let deposit_fraction: u128 = deposit.index as u128 * prepare.length as u128;
    proof {
        lemma_reaches_iff(*deposit, 0, *prepare);
    }
    if prepare.number < deposit.number || (prepare.number == deposit.number && prepare_fraction
        <= deposit_fraction) {
        proof {
            assert((deposit.number - deposit.number) / (CYCLE as int) == 0);
        }
        return *deposit;
    }
    let passed: u64 = if prepare_fraction > deposit_fraction {
        prepare.number - deposit.number + 1
    } else {
        prepare.number - deposit.number
    };
    let k: u64 = (passed + (CYCLE - 1)) / CYCLE;
    let number: u64 = deposit.number + k * CYCLE;
    let r = EpochPoint { number, index: deposit.index, length: deposit.length };
    proof {
        assert(passed == passed_epochs(*deposit, *prepare));
        assert(k * CYCLE >= passed && k * CYCLE < passed + CYCLE && k >= 1);
        assert((number - deposit.number) / (CYCLE as int) == k);
        lemma_reaches_iff(*deposit, k as int, *prepare);
        lemma_reaches_iff(*deposit, k - 1, *prepare);
    }
    r
}

/// For a prepare point not below the deposit point, the unlock point covers the
/// prepare point, one cycle less would not, and it keeps the deposit's fraction.
pub proof fn lemma_unlock_point_is_tight(deposit: EpochPoint, prepare: EpochPoint, unlock: EpochPoint)
    requires
        deposit.well_formed(),
        prepare.well_formed(),
        deposit.le(prepare),
        is_minimal_unlock_point(deposit, prepare, unlock),
    ensures
        prepare.le(unlock),
        !point_le(
            prepare.number as int,
            prepare.index as int,
            prepare.length as int,
            unlock.number - CYCLE,
            unlock.index as int,
            unlock.length as int,
        ),
        unlock.index == deposit.index,
        unlock.length == deposit.length,
{
    let k = (unlock.number - deposit.number) / (CYCLE as int);
    assert(unlock.number == deposit.number + CYCLE * k);
    assert(unlock.number - CYCLE == deposit.number + CYCLE * (k - 1));
    lemma_reaches_iff(deposit, k, prepare);
    lemma_reaches_iff(deposit, k - 1, prepare);
    if k == 0 {
        // deposit <= prepare: no epochs are owed back, so `passed_epochs >= 0`
        lemma_point_le_iff(
            deposit.number as int,
            deposit.index as int,
            deposit.length as int,
            prepare.number as int,
            prepare.index as int,
            prepare.length as int,
        );
    }
}

/// Taking the unlock point again, from the unlock point itself, changes nothing.
pub proof fn lemma_unlock_point_idempotent(
    deposit: EpochPoint,
    prepare: EpochPoint,
    unlock: EpochPoint,
    again: EpochPoint,
)
    requires
        deposit.well_formed(),
        prepare.well_formed(),
        is_minimal_unlock_point(deposit, prepare, unlock),
        is_minimal_unlock_point(deposit, unlock, again),
    ensures
        again == unlock,
{
    let k = (unlock.number - deposit.number) / (CYCLE as int);
    let j = (again.number - deposit.number) / (CYCLE as int);
    assert(unlock.well_formed());
    assert(unlock.number == deposit.number + CYCLE * k);
    assert(again.number == deposit.number + CYCLE * j);
    assert(passed_epochs(deposit, unlock) == CYCLE * k) by (nonlinear_arith)
        requires
            unlock.index == deposit.index,
            unlock.length == deposit.length,
            unlock.number == deposit.number + CYCLE * k,
    ;
    lemma_reaches_iff(deposit, j, unlock);
    lemma_reaches_iff(deposit, j - 1, unlock);
    assert(j == k);
}

} // verus!
