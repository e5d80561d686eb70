use vstd::prelude::*;
use crate::geometry::{boxes_overlap, overlaps, Pos, UNIT};

verus! {

/// Half the side of the square within which the player reaches food (72 px).
pub const EATER_HALF: i64 = 36_000_000;

/// Half the side of a food's square (25 px).
pub const FOOD_HALF: i64 = 12_500_000;

/// Number of food items on the field.
pub const FOOD_COUNT: usize = 8;

/// A pickup at a fixed place, shown or eaten.
#[derive(Clone, Copy, Debug, PartialEq, Eq, Structural)]
pub struct Food {
    pub pos: Pos,
    pub visible: bool,
}

/// The `k`-th food of the grid: pairs at `-d` and `+d` pixels, for
/// `d = 50, 151, 252, 353`.
pub open spec fn grid_food(k: int) -> Food {
    let d = (50 + 101 * (k / 2)) * UNIT;
    Food { pos: Pos { x: (if k % 2 == 0 { -d } else { d }) as i64, y: 0 }, visible: true }
}

pub open spec fn grid() -> Seq<Food> {
    Seq::new(FOOD_COUNT as nat, |k: int| grid_food(k))
}

/// Whether the player at `player` eats `f` this frame.
pub open spec fn eats(player: Pos, f: Food) -> bool {
    f.visible && boxes_overlap(player, EATER_HALF as int, f.pos, FOOD_HALF as int)
}

pub open spec fn any_visible(foods: Seq<Food>) -> bool {
    exists|i: int| 0 <= i < foods.len() && #[trigger] foods[i].visible
}

pub open spec fn eaten_count(player: Pos, foods: Seq<Food>) -> nat
    decreases foods.len(),
{
    if foods.len() == 0 {
        0
    } else {
        eaten_count(player, foods.drop_last()) + if eats(player, foods.last()) { 1nat } else { 0nat }
    }
}

pub open spec fn hidden_count(foods: Seq<Food>) -> nat
    decreases foods.len(),
{
    if foods.len() == 0 {
        0
    } else {
        hidden_count(foods.drop_last()) + if foods.last().visible { 0nat } else { 1nat }
    }
}

pub open spec fn after_bite(player: Pos, f: Food) -> Food {
    if eats(player, f) { Food { visible: false, ..f } } else { f }
}

pub open spec fn bitten(player: Pos, foods: Seq<Food>) -> Seq<Food> {
    Seq::new(foods.len(), |i: int| after_bite(player, foods[i]))
}

/// The food after one pass of the player at `player`: when some food is
/// shown, each shown food it touches is eaten; when none is, all come back.
pub open spec fn after_eating(player: Pos, foods: Seq<Food>) -> Seq<Food> {
    if any_visible(foods) {
        bitten(player, foods)
    } else {
        Seq::new(foods.len(), |i: int| Food { visible: true, ..foods[i] })
    }
}

/// The score after that pass: one point per food eaten.
pub open spec fn score_after_eating(player: Pos, foods: Seq<Food>, score: nat) -> nat {
    if any_visible(foods) { score + eaten_count(player, foods) } else { score }
}

/// The food grid, all shown.
pub fn food_grid() -> (r: Vec<Food>)
    ensures
        r@ == grid(),
{
    let mut r: Vec<Food> = Vec::new();
    let mut d: i64 = 50;
    while d < 400
        invariant
            r@.len() == 2 * ((d - 50) / 101),
            (d - 50) % 101 == 0,
            50 <= d <= 454,
            forall|k: int| 0 <= k < r@.len() ==> #[trigger] r@[k] == grid_food(k),
        decreases 454 - d,
    {
        let k: Ghost<int> = Ghost(r@.len() as int);
        for j in 0..2usize
            invariant
                r@.len() == k@ + j,
                k@ == 2 * ((d - 50) / 101),
                (d - 50) % 101 == 0,
                50 <= d < 400,
                forall|m: int| 0 <= m < r@.len() ==> #[trigger] r@[m] == grid_food(m),
        {
            let x: i64 = if j == 0 { -d * UNIT } else { d * UNIT };
            assert((k@ + j) / 2 == (d - 50) / 101 && (k@ + j) % 2 == j as int);
            r.push(Food { pos: Pos { x, y: 0 }, visible: true });
        }
        d = d + 101;
    }
    assert(r@ =~= grid());
    r
}

proof fn lemma_eaten_count_bound(player: Pos, foods: Seq<Food>)
    ensures
        eaten_count(player, foods) <= foods.len(),
    decreases foods.len(),
{
    if foods.len() > 0 {
        lemma_eaten_count_bound(player, foods.drop_last());
    }
}

proof fn lemma_nothing_shown_nothing_eaten(player: Pos, foods: Seq<Food>)
    requires
        !any_visible(foods),
    ensures
        eaten_count(player, foods) == 0,
    decreases foods.len(),
{
    if foods.len() > 0 {
        assert(!any_visible(foods.drop_last())) by {
            if any_visible(foods.drop_last()) {
                let i = choose|i: int| 0 <= i < foods.len() - 1 && #[trigger] foods.drop_last()[i].visible;
                assert(foods[i].visible);
            }
        }
        lemma_nothing_shown_nothing_eaten(player, foods.drop_last());
        assert(!foods[foods.len() - 1].visible);
    }
}

/// One pass of the player at `player` over the food, in order: each shown
/// food that it touches is eaten and scores a point. When no food was shown
/// at the start of the pass, all food is shown again.
pub fn eat(player: Pos, foods: &mut Vec<Food>, score: &mut u64)
    requires
        *old(score) + old(foods)@.len() <= u64::MAX,
    ensures
        final(foods)@ == after_eating(player, old(foods)@),
        *final(score) == score_after_eating(player, old(foods)@, *old(score) as nat),
{
    let ghost start = foods@;
    let n = foods.len();
    let mut seen: usize = 0;
    let mut i: usize = 0;
    while i < n
        invariant
            n == start.len(),
            foods@.len() == n,
            0 <= i <= n,
            seen <= i,
            (seen > 0) == (exists|k: int| 0 <= k < i && #[trigger] start[k].visible),
            forall|k: int| 0 <= k < i ==> #[trigger] foods@[k] == after_bite(player, start[k]),
            forall|k: int| i <= k < n ==> #[trigger] foods@[k] == start[k],
            *score == *old(score) + eaten_count(player, start.subrange(0, i as int)),
            *old(score) + n <= u64::MAX,
        decreases n - i,
    {
        let f = foods[i];
        proof {
            assert(start.subrange(0, i + 1).drop_last() =~= start.subrange(0, i as int));
            lemma_eaten_count_bound(player, start.subrange(0, i as int));
        }
        if f.visible {
            seen = seen + 1;
            if overlaps(player, EATER_HALF, f.pos, FOOD_HALF) {
                foods.set(i, Food { pos: f.pos, visible: false });
                *score = *score + 1;
            }
        }
        i = i + 1;
    }
    assert(start.subrange(0, n as int) =~= start);
    if seen == 0 {
        proof {
            lemma_nothing_shown_nothing_eaten(player, start);
        }
        let mut j: usize = 0;
        while j < n
            invariant
                n == start.len(),
                foods@.len() == n,
                0 <= j <= n,
                forall|k: int| 0 <= k < j ==> #[trigger] foods@[k] == (Food { visible: true, ..start[k] }),
                forall|k: int| j <= k < n ==> #[trigger] foods@[k] == start[k],
            decreases n - j,
        {
            let f = foods[j];
            foods.set(j, Food { pos: f.pos, visible: true });
            j = j + 1;
        }
    }
    assert(foods@ =~= after_eating(player, start));
}

pub open spec fn all_visible(foods: Seq<Food>) -> bool {
    forall|i: int| 0 <= i < foods.len() ==> #[trigger] foods[i].visible
}

pub open spec fn all_hidden(foods: Seq<Food>) -> bool {
    forall|i: int| 0 <= i < foods.len() ==> !#[trigger] foods[i].visible
}

/// Food and score after one pass for each player position of `path`, in order.
pub open spec fn run_eats(foods: Seq<Food>, score: nat, path: Seq<Pos>) -> (Seq<Food>, nat)
    decreases path.len(),
{
    if path.len() == 0 {
        (foods, score)
    } else {
        let before = run_eats(foods, score, path.drop_last());
        (after_eating(path.last(), before.0), score_after_eating(path.last(), before.0, before.1))
    }
}

proof fn lemma_hidden_after_bites(player: Pos, foods: Seq<Food>)
    ensures
        hidden_count(bitten(player, foods)) == hidden_count(foods) + eaten_count(player, foods),
    decreases foods.len(),
{
    if foods.len() > 0 {
        assert(bitten(player, foods).drop_last() =~= bitten(player, foods.drop_last()));
        lemma_hidden_after_bites(player, foods.drop_last());
    }
}

proof fn lemma_hidden_count_extremes(foods: Seq<Food>)
    ensures
        all_visible(foods) ==> hidden_count(foods) == 0,
        all_hidden(foods) ==> hidden_count(foods) == foods.len(),
    decreases foods.len(),
{
    if foods.len() > 0 {
        let rest = foods.drop_last();
        assert(all_visible(foods) ==> all_visible(rest));
        assert(all_hidden(foods) ==> all_hidden(rest));
        lemma_hidden_count_extremes(rest);
    }
}

proof fn lemma_tally(foods: Seq<Food>, score: nat, path: Seq<Pos>)
    requires
        forall|j: int| 0 <= j < path.len() ==> any_visible(#[trigger] run_eats(foods, score, path.take(j)).0),
    ensures
        run_eats(foods, score, path).0.len() == foods.len(),
        run_eats(foods, score, path).1 + hidden_count(foods) == score + hidden_count(run_eats(foods, score, path).0),
    decreases path.len(),
{
    if path.len() > 0 {
        let rest = path.drop_last();
        assert forall|j: int| 0 <= j < rest.len() implies any_visible(#[trigger] run_eats(foods, score, rest.take(j)).0) by {
            assert(rest.take(j) =~= path.take(j));
            assert(any_visible(run_eats(foods, score, path.take(j)).0));
        }
        lemma_tally(foods, score, rest);
        assert(path.take(rest.len() as int) =~= rest);
        assert(any_visible(run_eats(foods, score, path.take(rest.len() as int)).0));
        lemma_hidden_after_bites(path.last(), run_eats(foods, score, rest).0);
    }
}

/// Replenishment: starting from all food shown, a run of passes that leaves
/// every food eaten, with some food still shown before each pass, has scored
/// exactly one point per food; the pass after it shows all food again and
/// scores nothing.
pub proof fn lemma_round_of_food(foods: Seq<Food>, score: nat, path: Seq<Pos>, next: Pos)
    requires
        all_visible(foods),
        all_hidden(run_eats(foods, score, path).0),
        forall|j: int| 0 <= j < path.len() ==> any_visible(#[trigger] run_eats(foods, score, path.take(j)).0),
    ensures
        run_eats(foods, score, path).1 == score + foods.len(),
        all_visible(after_eating(next, run_eats(foods, score, path).0)),
        after_eating(next, run_eats(foods, score, path).0).len() == foods.len(),
        score_after_eating(next, run_eats(foods, score, path).0, run_eats(foods, score, path).1)
            == run_eats(foods, score, path).1,
{
    lemma_tally(foods, score, path);
    let end = run_eats(foods, score, path).0;
    lemma_hidden_count_extremes(foods);
    lemma_hidden_count_extremes(end);
    assert(!any_visible(end));
}

} // verus!
