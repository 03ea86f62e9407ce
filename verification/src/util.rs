use vstd::prelude::*;

verus! {

/// A supplier of initial weight values for a freshly constructed network.
///
/// The draws may be random, so nothing is promised about any single value
/// beyond membership in the source's own range; training correctness never
/// depends on which values were drawn. A uniform source over
/// `[-1/sqrt(fan_in), 1/sqrt(fan_in)]` is the canonical choice, supplied by
/// the caller.
pub trait WeightSource<T>: Sized {
    /// The set of values this source may ever hand out.
    spec fn in_range(self, value: T) -> bool;

    /// Draws the next weight: a value in range. Drawing never changes which
    /// values are in range.
    fn draw(&mut self) -> (r: T)
        ensures
            old(self).in_range(r),
            forall|v: T| #[trigger] final(self).in_range(v) <==> old(self).in_range(v),
    ;
}

/// A source that hands out one fixed value over and over: deterministic
/// weight injection for reproducible networks.
pub struct FixedSource<T> {
    pub value: T,
}

impl<T: Copy> WeightSource<T> for FixedSource<T> {
    open spec fn in_range(self, v: T) -> bool {
        v == self.value
    }

    fn draw(&mut self) -> (r: T) {
        self.value
    }
}

/// Every cell of the grid lies in the source's range.
pub open spec fn cells_in_range<T, S: WeightSource<T>>(source: S, m: Seq<Seq<T>>) -> bool {
    forall|i: int, j: int|
        0 <= i < m.len() && 0 <= j < m[i].len() ==> source.in_range(#[trigger] m[i][j])
}

/// A row of `x` freshly drawn weights.
pub fn create_weighting_row<T, S: WeightSource<T>>(x: u64, source: &mut S) -> (row: Vec<T>)
    requires
        x <= usize::MAX,
    ensures
        row@.len() == x,
        forall|i: int| 0 <= i < row@.len() ==> old(source).in_range(#[trigger] row@[i]),
        forall|v: T| #[trigger] final(source).in_range(v) <==> old(source).in_range(v),
{
    let mut row: Vec<T> = Vec::new();

    for _number in 0..x
        invariant
            row@.len() == _number,
            forall|i: int| 0 <= i < row@.len() ==> old(source).in_range(#[trigger] row@[i]),
            forall|v: T| #[trigger] source.in_range(v) <==> old(source).in_range(v),
    {
        let value = source.draw();
        row.push(value);
    }
    row
}

} // verus!
