//! Laws of the game, proved of the model that the operations are specified by.

use vstd::prelude::*;
use crate::capacity::{lemma_drop_last_distinct, lemma_free_cell_iff_room, lemma_prepend_distinct};
use crate::grid::{Direction, Position};
use crate::state::State;

verus! {

/// The state after the same request for a heading was made `times` times.
pub open spec fn turned_repeatedly(s: State, requested: Direction, times: nat) -> State
    decreases times,
{
    if times == 0 {
        s
    } else {
        turned_repeatedly(s, requested, (times - 1) as nat).turned(requested)
    }
}

/// However often the snake is asked to turn straight back, nothing changes.
pub proof fn lemma_reversal_never_turns(s: State, times: nat)
    ensures
        turned_repeatedly(s, s.direction.reversed(), times) == s,
    decreases times,
{
    if times > 0 {
        lemma_reversal_never_turns(s, (times - 1) as nat);
    }
}

/// A request for any heading but the reverse of the current one is followed,
/// and changes nothing but the heading.
pub proof fn lemma_other_turns_succeed(s: State, requested: Direction)
    requires
        requested != s.direction.reversed(),
    ensures
        s.turned(requested) == (State { direction: requested, ..s }),
{
}

/// Asking twice for a heading is the same as asking once.
pub proof fn lemma_turn_idempotent(s: State, requested: Direction)
    ensures
        s.turned(requested).turned(requested) == s.turned(requested),
{
}

/// A tick of a running game does one of three things. Where the head stays
/// clear of walls, snake and food, every segment moves to the cell of the one
/// before it and the head one cell on, and nothing else changes. Where it
/// reaches the food, the snake is the old one with the new head in front, and
/// one more is scored. Where it would hit a wall or the snake, the game ends
/// and snake, score, food and heading stay.
pub proof fn lemma_tick_outcomes(s: State, refill: Position)
    requires
        s.inv(),
        !s.game_over,
    ensures
        ({
            let t = s.tick(refill);
            let n = s.snake.len() as int;
            &&& t.width == s.width && t.height == s.height && t.direction == s.direction
            &&& !s.crashes() ==> t.snake[0] == s.head().neighbor(s.direction)
            &&& !s.crashes() ==> forall|i: int| 1 <= i < t.snake.len() ==> t.snake[i] == s.snake[i - 1]
            &&& !s.crashes() && !s.eats() ==> {
                &&& t.snake.len() == n
                &&& t.score == s.score
                &&& t.food == s.food
                &&& !t.game_over
            }
            &&& s.eats() ==> {
                &&& t.snake.len() == n + 1
                &&& t.score == s.score + 1
                &&& t.game_over <==> n + 1 == s.cells()
                &&& !t.game_over ==> t.food == refill
            }
            &&& s.crashes() ==> {
                &&& t.game_over
                &&& t.snake == s.snake
                &&& t.score == s.score
                &&& t.food == s.food
            }
        }),
{
    if s.eats() {
        lemma_grown_valid(s);
        lemma_free_cell_iff_room(s.grown());
    }
}

/// A game that is over stays as it is, whatever is ticked.
pub proof fn lemma_game_over_absorbs(s: State, refill: Position)
    requires
        s.game_over,
    ensures
        s.tick(refill) == s,
{
}

/// A tick never restarts a game: once over, always over.
pub proof fn lemma_game_over_is_final(s: State, refill: Position)
    ensures
        s.game_over ==> s.tick(refill).game_over,
{
}

/// A snake that grows into a free cell stays valid.
pub proof fn lemma_grown_valid(s: State)
    requires
        s.inv(),
        !s.crashes(),
    ensures
        s.grown().snake_valid(),
{
    lemma_prepend_distinct(s.snake, s.next_head(), s.width, s.height);
}

/// A snake that slides into a free cell other than the food's keeps the invariant.
pub proof fn lemma_slid_valid(s: State)
    requires
        s.inv(),
        !s.game_over,
        !s.crashes(),
        !s.eats(),
    ensures
        s.slid().inv(),
{
    lemma_drop_last_distinct(s.snake, s.width, s.height);
    lemma_prepend_distinct(s.snake.drop_last(), s.next_head(), s.width, s.height);
    let t = s.slid().snake;
    if t.contains(s.food) {
        let i = choose|i: int| 0 <= i < t.len() && t[i] == s.food;
        assert(s.snake.drop_last()[i - 1] == s.food);
    }
}

/// A tick keeps the invariant, provided that food which is laid out anew
/// goes to a free cell.
pub proof fn lemma_tick_keeps_invariant(s: State, refill: Position)
    requires
        s.inv(),
        s.eats() && s.grown().has_room() ==> s.grown().free(refill),
    ensures
        s.tick(refill).inv(),
{
    if s.game_over || s.crashes() {
    } else if s.eats() {
        lemma_grown_valid(s);
    } else {
        lemma_slid_valid(s);
    }
}

/// How many steps the head can take in its heading before it leaves the board.
pub open spec fn distance_to_wall(s: State) -> int {
    match s.direction {
        Direction::Up => s.head().y as int,
        Direction::Down => s.height - 1 - s.head().y,
        Direction::Left => s.head().x as int,
        Direction::Right => s.width - 1 - s.head().x,
    }
}

/// The cell `k` steps ahead of the head.
pub open spec fn ahead(s: State, k: int) -> Position {
    s.head().shifted(s.direction, k)
}

/// Whether the way from the head to the wall is empty: it holds neither a
/// segment of the snake nor the food.
pub open spec fn lane_clear(s: State) -> bool {
    forall|k: int|
        1 <= k <= distance_to_wall(s) ==> !s.occupied(#[trigger] ahead(s, k)) && ahead(s, k)
            != s.food
}

/// Whether `after` is what a tick makes of `before`.
pub open spec fn follows(before: State, after: State) -> bool {
    after == before.tick(after.food)
}

/// Whether each state but the first is what a tick makes of the one before it.
pub open spec fn is_run(states: Seq<State>) -> bool {
    forall|i: int| 1 <= i < states.len() ==> follows(states[i - 1], #[trigger] states[i])
}

/// The state after `n` ticks straight ahead on a clear lane: the first `n`
/// segments lie on the lane, the rest where the snake's front was.
pub open spec fn coasted(s: State, n: int) -> State {
    State {
        snake: Seq::new(
            s.snake.len(),
            |i: int|
                if i < n {
                    ahead(s, n - i)
                } else {
                    s.snake[i - n]
                },
        ),
        ..s
    }
}

proof fn lemma_coasting(states: Seq<State>, n: int)
    requires
        states.len() >= 1,
        states[0].inv(),
        !states[0].game_over,
        lane_clear(states[0]),
        is_run(states),
        0 <= n < states.len(),
        n <= distance_to_wall(states[0]),
    ensures
        states[n] == coasted(states[0], n),
        states[n].inv(),
    decreases n,
{
    let s = states[0];
    assert(s.on_board(s.snake[0]));
    if n == 0 {
        assert(coasted(s, 0).snake =~= s.snake);
    } else {
        lemma_coasting(states, n - 1);
        let p = states[n - 1];
        assert(follows(p, states[n]));
        assert(p.next_head() == ahead(s, n));
        assert(!s.occupied(ahead(s, n)));
        if p.occupied(ahead(s, n)) {
            let i = choose|i: int| 0 <= i < p.snake.len() && p.snake[i] == ahead(s, n);
            if i < n - 1 {
                assert(p.snake[i] == ahead(s, n - 1 - i));
            } else {
                assert(p.snake[i] == s.snake[i - (n - 1)]);
            }
        }
        lemma_slid_valid(p);
        assert(p.slid().snake =~= coasted(s, n).snake);
    }
}

proof fn lemma_wall_ends_run(states: Seq<State>, n: int)
    requires
        states.len() >= 1,
        states[0].inv(),
        !states[0].game_over,
        lane_clear(states[0]),
        is_run(states),
        distance_to_wall(states[0]) < n < states.len(),
    ensures
        states[n].game_over,
    decreases n,
{
    let s = states[0];
    let d = distance_to_wall(s);
    assert(s.on_board(s.snake[0]));
    assert(follows(states[n - 1], states[n]));
    if n == d + 1 {
        lemma_coasting(states, d);
        assert(states[d].next_head() == ahead(s, d + 1));
    } else {
        lemma_wall_ends_run(states, n - 1);
    }
}

/// On a clear lane the snake runs straight to the wall. Take the states that
/// ticks make one after another, with the heading left alone, from a running
/// game whose lane is clear, and let `d` be the head's distance to the wall.
/// Then the game is still running after each of the first `d` ticks, the
/// head having moved one cell each time and the snake as long as before, so
/// that after `d` ticks the head lies at the wall; and the game is over after
/// tick `d + 1` and from then on.
pub proof fn lemma_straight_run(states: Seq<State>)
    requires
        states.len() >= 1,
        states[0].inv(),
        !states[0].game_over,
        lane_clear(states[0]),
        is_run(states),
    ensures
        0 <= distance_to_wall(states[0]),
        forall|n: int|
            0 <= n < states.len() ==> ((#[trigger] states[n]).game_over <==> n > distance_to_wall(
                states[0],
            )),
        forall|n: int|
            0 <= n < states.len() && n <= distance_to_wall(states[0]) ==> {
                &&& (#[trigger] states[n]).head() == ahead(states[0], n)
                &&& states[n].snake.len() == states[0].snake.len()
                &&& states[n].score == states[0].score
                &&& states[n].food == states[0].food
                &&& distance_to_wall(states[n]) == distance_to_wall(states[0]) - n
            },
{
    let s = states[0];
    assert(s.on_board(s.snake[0]));
    assert forall|n: int| 0 <= n < states.len() implies ((#[trigger] states[n]).game_over <==> n
        > distance_to_wall(s)) by {
        if n <= distance_to_wall(s) {
            lemma_coasting(states, n);
        } else {
            lemma_wall_ends_run(states, n);
        }
    }
    assert forall|n: int| 0 <= n < states.len() && n <= distance_to_wall(s) implies {
        &&& (#[trigger] states[n]).head() == ahead(s, n)
        &&& states[n].snake.len() == s.snake.len()
        &&& states[n].score == s.score
        &&& states[n].food == s.food
        &&& distance_to_wall(states[n]) == distance_to_wall(s) - n
    } by {
        lemma_coasting(states, n);
    }
}

} // verus!
