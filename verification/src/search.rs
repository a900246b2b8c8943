//! The attack-line search: which cells can hold a useful bomb, which targets
//! a bomb leaves standing, and how two bombs are found that leave none.

use vstd::prelude::*;
use crate::coord::Coord;
use crate::coord_set::CoordSet;

verus! {

/// The distance between `a` and `b` on one axis.
pub open spec fn gap(a: usize, b: usize) -> int {
    if a < b {
        b - a
    } else {
        a - b
    }
}

/// A bomb at `bomb` eliminates a target at `target`: they share a column, a
/// row or a diagonal. Nothing blocks a line.
pub open spec fn eliminates(bomb: Coord, target: Coord) -> bool {
    ||| target.x == bomb.x
    ||| target.y == bomb.y
    ||| gap(target.x, bomb.x) == gap(target.y, bomb.y)
}

/// The targets that a bomb at `bomb` leaves standing.
pub open spec fn survivors(bomb: Coord, targets: Set<Coord>) -> Set<Coord> {
    Set::new(|t: Coord| targets.contains(t) && !eliminates(bomb, t))
}

/// `cell` is found from `target` by a scan whose distances stay below
/// `reach`, on a grid of side `dim`: it is in the target's column or row at
/// an index below `reach`, or inside the grid on one of the target's
/// diagonals at a distance below `reach`.
pub open spec fn within_reach(target: Coord, cell: Coord, reach: usize, dim: usize) -> bool {
    ||| cell.x == target.x && cell.y < reach
    ||| cell.y == target.y && cell.x < reach
    ||| {
        &&& cell.x < dim
        &&& cell.y < dim
        &&& gap(cell.x, target.x) == gap(cell.y, target.y)
        &&& gap(cell.x, target.x) < reach
    }
}

/// `cell` is an attack point for `target` on a grid of side `dim`.
pub open spec fn on_attack_line(target: Coord, cell: Coord, dim: usize) -> bool {
    within_reach(target, cell, dim, dim)
}

/// The cells on the attack lines of one target.
pub open spec fn attack_line(target: Coord, dim: usize) -> Set<Coord> {
    Set::new(|c: Coord| on_attack_line(target, c, dim))
}

/// The candidate cells for a bomb: every cell that is an attack point for at
/// least one of the targets.
pub open spec fn attack_points(targets: Set<Coord>, dim: usize) -> Set<Coord> {
    Set::new(|c: Coord| exists|t: Coord| targets.contains(t) && on_attack_line(t, c, dim))
}

/// No target of `targets` is left after a bomb at `first` and one at `second`.
pub open spec fn covers(first: Coord, second: Coord, targets: Set<Coord>) -> bool {
    forall|t: Coord| targets.contains(t) ==> eliminates(first, t) || eliminates(second, t)
}

/// `(first, second)` is a pair that the two-stage search accepts: `first` is
/// a candidate for the targets, `second` a candidate for what `first` leaves
/// standing, and `second` leaves none of that standing.
pub open spec fn is_solution(targets: Set<Coord>, dim: usize, first: Coord, second: Coord) -> bool {
    &&& attack_points(targets, dim).contains(first)
    &&& attack_points(survivors(first, targets), dim).contains(second)
    &&& survivors(second, survivors(first, targets)) == Set::<Coord>::empty()
}

/// Every cell of `cells` lies on the grid of side `dim`.
pub open spec fn all_on_grid(cells: Set<Coord>, dim: usize) -> bool {
    forall|c: Coord| cells.contains(c) ==> c.x < dim && c.y < dim
}

/// The cells that a scan from `target` has found once all distances below
/// `reach` are done.
spec fn scanned(target: Coord, reach: usize, dim: usize) -> Set<Coord> {
    Set::new(|c: Coord| within_reach(target, c, reach, dim))
}

/// The cells that a scan from `target` finds at distance `i`: one in the
/// target's column, one in its row, and those on its diagonals that lie on
/// the grid.
spec fn found_at(target: Coord, i: usize, dim: usize) -> Set<Coord> {
    Set::new(
        |c: Coord|
            {
                ||| c == Coord { x: target.x, y: i }
                ||| c == Coord { x: i, y: target.y }
                ||| c.x < dim && c.y < dim && gap(c.x, target.x) == i && gap(c.y, target.y) == i
            },
    )
}

/// One more distance adds to what was scanned exactly what is found at it.
proof fn lemma_scan_step(target: Coord, i: usize, dim: usize)
    requires
        i < dim,
    ensures
        scanned(target, (i + 1) as usize, dim) == scanned(target, i, dim).union(
            found_at(target, i, dim),
        ),
{
    assert(scanned(target, (i + 1) as usize, dim) =~= scanned(target, i, dim).union(
        found_at(target, i, dim),
    ));
}

/// One more target adds its own attack line to the candidates.
proof fn lemma_attack_points_insert(targets: Set<Coord>, target: Coord, dim: usize)
    ensures
        attack_points(targets.insert(target), dim) == attack_points(targets, dim).union(
            attack_line(target, dim),
        ),
{
    let more = attack_points(targets.insert(target), dim);
    let both = attack_points(targets, dim).union(attack_line(target, dim));
    assert forall|c: Coord| more.contains(c) <==> both.contains(c) by {
        if more.contains(c) {
            let t = choose|t: Coord| targets.insert(target).contains(t) && on_attack_line(t, c, dim);
            if t != target {
                assert(targets.contains(t) && on_attack_line(t, c, dim));
            }
        }
        if attack_points(targets, dim).contains(c) {
            let t = choose|t: Coord| targets.contains(t) && on_attack_line(t, c, dim);
            assert(targets.insert(target).contains(t) && on_attack_line(t, c, dim));
        }
        if attack_line(target, dim).contains(c) {
            assert(targets.insert(target).contains(target) && on_attack_line(target, c, dim));
        }
    }
    assert(more =~= both);
}

/// The first `k + 1` members of a sequence, as a set, are the first `k` and
/// the member at `k`.
proof fn lemma_take_next(s: Seq<Coord>, k: int)
    requires
        0 <= k < s.len(),
    ensures
        s.take(k + 1).to_set() == s.take(k).to_set().insert(s[k]),
{
    assert(s.take(k + 1) =~= s.take(k).push(s[k]));
    s.take(k).lemma_push_to_set_commute(s[k]);
}

/// A bomb eliminates a target in its own cell.
pub proof fn lemma_bomb_eliminates_own_cell(bomb: Coord)
    ensures
        eliminates(bomb, bomb),
{
}

/// Detonation is a filter: a bomb leaves standing exactly the targets that
/// share neither column, row nor diagonal with it, and nothing else.
pub proof fn lemma_survivors_exact(bomb: Coord, targets: Set<Coord>)
    ensures
        survivors(bomb, targets).subset_of(targets),
        forall|t: Coord| #[trigger]
            survivors(bomb, targets).contains(t) <==> {
                &&& targets.contains(t)
                &&& t.x != bomb.x
                &&& t.y != bomb.y
                &&& gap(t.x, bomb.x) != gap(t.y, bomb.y)
            },
{
}

/// Attack points for targets on the grid are on the grid.
pub proof fn lemma_attack_points_on_grid(targets: Set<Coord>, dim: usize)
    requires
        all_on_grid(targets, dim),
    ensures
        all_on_grid(attack_points(targets, dim), dim),
{
    assert forall|c: Coord| attack_points(targets, dim).contains(c) implies c.x < dim && c.y
        < dim by {
        let t = choose|t: Coord| targets.contains(t) && on_attack_line(t, c, dim);
        assert(targets.contains(t));
    }
}

/// The two bombs of an accepted pair leave no target standing.
pub proof fn lemma_solution_covers(targets: Set<Coord>, dim: usize, first: Coord, second: Coord)
    requires
        is_solution(targets, dim, first, second),
    ensures
        covers(first, second, targets),
        survivors(second, survivors(first, targets)) == Set::<Coord>::empty(),
{
    assert forall|t: Coord| targets.contains(t) implies eliminates(first, t) || eliminates(
        second,
        t,
    ) by {
        if !eliminates(first, t) && !eliminates(second, t) {
            assert(survivors(first, targets).contains(t));
            assert(survivors(second, survivors(first, targets)).contains(t));
        }
    }
}

/// The search accepts a pair only if its first bomb leaves a target for the
/// second: on no targets, or where every candidate eliminates all of them at
/// once, it accepts none.
pub proof fn lemma_solution_leaves_work(targets: Set<Coord>, dim: usize, first: Coord, second: Coord)
    requires
        is_solution(targets, dim, first, second),
    ensures
        exists|t: Coord| targets.contains(t) && eliminates(first, t),
        exists|t: Coord| targets.contains(t) && !eliminates(first, t),
{
    let hit = choose|t: Coord| targets.contains(t) && on_attack_line(t, first, dim);
    assert(targets.contains(hit) && eliminates(first, hit));
    let left = choose|t: Coord|
        survivors(first, targets).contains(t) && on_attack_line(t, second, dim);
    assert(targets.contains(left) && !eliminates(first, left));
}

/// Where no two cells at all eliminate every target, the search accepts no
/// pair.
pub proof fn lemma_no_cover_no_solution(targets: Set<Coord>, dim: usize)
    requires
        forall|a: Coord, b: Coord| !covers(a, b, targets),
    ensures
        forall|first: Coord, second: Coord| !is_solution(targets, dim, first, second),
{
    assert forall|first: Coord, second: Coord| !is_solution(targets, dim, first, second) by {
        if is_solution(targets, dim, first, second) {
            lemma_solution_covers(targets, dim, first, second);
        }
    }
}

/// The search is complete for covers in two steps: with the targets on the
/// grid, any two cells of the grid that eliminate every target, the first of
/// them eliminating at least one target but not all, are a pair that the
/// search accepts.
pub proof fn lemma_cover_is_solution(targets: Set<Coord>, dim: usize, first: Coord, second: Coord)
    requires
        all_on_grid(targets, dim),
        first.x < dim && first.y < dim,
        second.x < dim && second.y < dim,
        covers(first, second, targets),
        exists|t: Coord| targets.contains(t) && eliminates(first, t),
        exists|t: Coord| targets.contains(t) && !eliminates(first, t),
    ensures
        is_solution(targets, dim, first, second),
{
    let hit = choose|t: Coord| targets.contains(t) && eliminates(first, t);
    assert(targets.contains(hit) && on_attack_line(hit, first, dim));
    let left = choose|t: Coord| targets.contains(t) && !eliminates(first, t);
    assert(survivors(first, targets).contains(left) && on_attack_line(left, second, dim));
    assert(survivors(second, survivors(first, targets)) =~= Set::<Coord>::empty());
}


/// The distance between `x` and `y`.
pub fn abs_difference(x: usize, y: usize) -> (d: usize)
    ensures
        d == gap(x, y),
{
    if x < y {
        y - x
    } else {
        x - y
    }
}

/// Whether a bomb at `bomb` eliminates a target at `target`.
pub fn hits(bomb: &Coord, target: &Coord) -> (hit: bool)
    ensures
        hit == eliminates(*bomb, *target),
{
    target.x == bomb.x || target.y == bomb.y || abs_difference(target.x, bomb.x) == abs_difference(
        target.y,
        bomb.y,
    )
}

/// `value + by`, or `value - by` where `back` is set, if that is a `usize`.
fn shifted(value: usize, by: usize, back: bool) -> (to: Option<usize>)
    ensures
        match to {
            Some(v) => v == (if back { value - by } else { value + by }),
            None => if back { value < by } else { value + by > usize::MAX },
        },
{
    if back {
        value.checked_sub(by)
    } else {
        value.checked_add(by)
    }
}

/// Puts the cell `(x, y)` into `points` if both of its coordinates exist and
/// it lies on the grid of side `dim`.
fn insert_on_grid(points: &mut CoordSet, x: Option<usize>, y: Option<usize>, dim: usize)
    ensures
        final(points)@ == match (x, y) {
            (Some(x), Some(y)) if x < dim && y < dim => old(points)@.insert(Coord { x, y }),
            _ => old(points)@,
        },
{
    if let Some(x) = x {
        if let Some(y) = y {
            if x < dim && y < dim {
                points.insert(Coord { x, y });
            }
        }
    }
}

/// Puts into `points` the cells that the scan from `target` finds at distance
/// `i`.
fn scan_at(points: &mut CoordSet, target: &Coord, i: usize, dim: usize)
    ensures
        final(points)@ == old(points)@.union(found_at(*target, i, dim)),
{
    points.insert(Coord { x: target.x, y: i });
    points.insert(Coord { x: i, y: target.y });
    let right = shifted(target.x, i, false);
    let left = shifted(target.x, i, true);
    let below = shifted(target.y, i, false);
    let above = shifted(target.y, i, true);
    insert_on_grid(points, right, below, dim);
    insert_on_grid(points, right, above, dim);
    insert_on_grid(points, left, below, dim);
    insert_on_grid(points, left, above, dim);
    proof {
        let found = found_at(*target, i, dim);
        assert forall|c: Coord| points@.contains(c) <==> old(points)@.contains(c) || found.contains(
            c,
        ) by {
            if found.contains(c) && c.x < dim && c.y < dim && gap(c.x, target.x) == i && gap(
                c.y,
                target.y,
            ) == i {
                if c.x >= target.x {
                    assert(right == Some(c.x));
                } else {
                    assert(left == Some(c.x));
                }
                if c.y >= target.y {
                    assert(below == Some(c.y));
                } else {
                    assert(above == Some(c.y));
                }
            }
        }
        assert(points@ =~= old(points)@.union(found));
    }
}

/// The candidate cells for a bomb against `targets` on a grid of side `dim`.
/// From each target the scan walks the distances `0..dim`: at distance `i` it
/// takes the cell of the target's column in row `i`, the cell of its row in
/// column `i`, and the four diagonal cells at distance `i` that lie on the
/// grid.
pub fn find_attack_points(targets: &CoordSet, dim: usize) -> (points: CoordSet)
    ensures
        points@ == attack_points(targets@, dim),
{
    let members = targets.members();
    let mut points = CoordSet::new();
    let mut k: usize = 0;
    assert(members@.take(0).to_set() =~= Set::<Coord>::empty());
    assert(attack_points(Set::<Coord>::empty(), dim) =~= Set::<Coord>::empty());
    while k < members.len()
        invariant
            k <= members.len(),
            points@ == attack_points(members@.take(k as int).to_set(), dim),
        decreases members.len() - k,
    {
        let target = members[k];
        let ghost done = points@;
        let mut i: usize = 0;
        assert(done.union(scanned(target, 0, dim)) =~= done);
        while i < dim
            invariant
                i <= dim,
                points@ == done.union(scanned(target, i, dim)),
            decreases dim - i,
        {
            scan_at(&mut points, &target, i, dim);
            proof {
                lemma_scan_step(target, i, dim);
                assert(done.union(scanned(target, i, dim)).union(found_at(target, i, dim))
                    =~= done.union(scanned(target, (i + 1) as usize, dim)));
            }
            i += 1;
        }
        proof {
            assert(scanned(target, dim, dim) =~= attack_line(target, dim));
            lemma_take_next(members@, k as int);
            lemma_attack_points_insert(members@.take(k as int).to_set(), target, dim);
        }
        k += 1;
    }
    assert(members@.take(members@.len() as int) =~= members@);
    points
}

/// The targets that a bomb at `attack_point` leaves standing.
pub fn test_explode(attack_point: &Coord, targets: &CoordSet) -> (remaining: CoordSet)
    ensures
        remaining@ == survivors(*attack_point, targets@),
{
    let members = targets.members();
    let mut remaining = CoordSet::new();
    let mut k: usize = 0;
    assert(members@.take(0).to_set() =~= Set::<Coord>::empty());
    assert(survivors(*attack_point, Set::<Coord>::empty()) =~= Set::<Coord>::empty());
    while k < members.len()
        invariant
            k <= members.len(),
            members@.no_duplicates(),
            remaining@ == survivors(*attack_point, members@.take(k as int).to_set()),
        decreases members.len() - k,
    {
        let target = members[k];
        proof {
            lemma_take_next(members@, k as int);
            let seen = members@.take(k as int);
            if seen.to_set().contains(target) {
                let j = choose|j: int| 0 <= j < seen.len() && seen[j] == target;
                assert(members@[j] == members@[k as int]);
            }
            assert(survivors(*attack_point, seen.to_set().insert(target)) =~= if eliminates(
                *attack_point,
                target,
            ) {
                survivors(*attack_point, seen.to_set())
            } else {
                survivors(*attack_point, seen.to_set()).insert(target)
            });
        }
        if !hits(attack_point, &target) {
            remaining.insert_new(target);
        }
        k += 1;
    }
    assert(members@.take(members@.len() as int) =~= members@);
    remaining
}

/// Two cells for bombs that between them eliminate every target, if the
/// two-stage search finds any: the first bomb is tried on every candidate for
/// the targets, the second on every candidate for what the first leaves
/// standing. Which pair is returned when there are several is not fixed.
pub fn find_bombs(targets: &CoordSet, dim: usize) -> (bombs: Option<(Coord, Coord)>)
    ensures
        match bombs {
            Some((first, second)) => is_solution(targets@, dim, first, second),
            None => forall|first: Coord, second: Coord|
                !is_solution(targets@, dim, first, second),
        },
{
    let first_points = find_attack_points(targets, dim);
    let firsts = first_points.members();
    let mut k: usize = 0;
    while k < firsts.len()
        invariant
            k <= firsts.len(),
            firsts@.to_set() == attack_points(targets@, dim),
            forall|j: int, second: Coord|
                0 <= j < k ==> !#[trigger] is_solution(targets@, dim, firsts@[j], second),
        decreases firsts.len() - k,
    {
        let first = firsts[k];
        let remaining = test_explode(&first, targets);
        let second_points = find_attack_points(&remaining, dim);
        let seconds = second_points.members();
        let mut m: usize = 0;
        while m < seconds.len()
            invariant
                m <= seconds.len(),
                first == firsts@[k as int],
                0 <= k < firsts@.len(),
                firsts@.to_set() == attack_points(targets@, dim),
                remaining@ == survivors(first, targets@),
                seconds@.to_set() == attack_points(remaining@, dim),
                forall|j: int|
                    0 <= j < m ==> survivors(#[trigger] seconds@[j], remaining@) != Set::<
                        Coord,
                    >::empty(),
            decreases seconds.len() - m,
        {
            let second = seconds[m];
            let left = test_explode(&second, &remaining);
            if left.is_empty() {
                proof {
                    assert(firsts@.contains(first));
                    assert(firsts@.to_set().contains(first));
                    assert(seconds@.contains(second));
                    assert(seconds@.to_set().contains(second));
                }
                return Some((first, second));
            }
            m += 1;
        }
        proof {
            assert forall|second: Coord| !is_solution(targets@, dim, first, second) by {
                if is_solution(targets@, dim, first, second) {
                    assert(seconds@.to_set().contains(second));
                    let j = choose|j: int| 0 <= j < seconds@.len() && seconds@[j] == second;
                    assert(survivors(seconds@[j], remaining@) != Set::<Coord>::empty());
                }
            }
        }
        k += 1;
    }
    proof {
        assert forall|first: Coord, second: Coord| !is_solution(targets@, dim, first, second) by {
            if is_solution(targets@, dim, first, second) {
                assert(firsts@.to_set().contains(first));
                let j = choose|j: int| 0 <= j < firsts@.len() && firsts@[j] == first;
                assert(!is_solution(targets@, dim, firsts@[j], second));
            }
        }
    }
    None
}

} // verus!
