//! Moving through the matches of a search.
use std::ops::Range;

use vstd::prelude::*;

use crate::text;

verus! {

/// The place of an anchor in the order of the anchors of a snapshot.
pub type Anchor = usize;

/// Which way to go through the matches.
#[derive(Clone, Copy, Debug, PartialEq, Eq, Structural)]
pub enum Direction {
    Prev,
    Next,
}

/// Whether a match ends before the cursor.
pub open spec fn is_before(range: Range<Anchor>, cursor: Anchor) -> bool {
    range.end < cursor
}

/// Whether a match starts after the cursor.
pub open spec fn is_after(range: Range<Anchor>, cursor: Anchor) -> bool {
    !is_before(range, cursor) && cursor < range.start
}

/// Whether the cursor is in a match or at one of its ends.
pub open spec fn is_at(range: Range<Anchor>, cursor: Anchor) -> bool {
    !is_before(range, cursor) && !is_after(range, cursor)
}

/// Whether the matches before the cursor come first, then those that it is in, then those after
/// it.
pub open spec fn sorted_around(ranges: Seq<Range<Anchor>>, cursor: Anchor) -> bool {
    &&& forall|i: int, j: int|
        0 <= i < j < ranges.len() && is_before(#[trigger] ranges[j], cursor) ==> is_before(
            #[trigger] ranges[i],
            cursor,
        )
    &&& forall|i: int, j: int|
        0 <= i < j < ranges.len() && is_after(#[trigger] ranges[i], cursor) ==> is_after(
            #[trigger] ranges[j],
            cursor,
        )
}

/// Whether each match lies after the one before it.
pub open spec fn in_order(ranges: Seq<Range<Anchor>>) -> bool {
    &&& forall|i: int| 0 <= i < ranges.len() ==> (#[trigger] ranges[i]).start <= ranges[i].end
    &&& forall|i: int, j: int|
        0 <= i < j < ranges.len() ==> (#[trigger] ranges[i]).end <= (#[trigger] ranges[j]).start
}

/// Whether the match at `index` is the active one: one that the cursor is in where there is one,
/// else the first one after the cursor, else the last one.
pub open spec fn is_active(ranges: Seq<Range<Anchor>>, cursor: Anchor, index: int) -> bool {
    if exists|i: int| 0 <= i < ranges.len() && is_at(#[trigger] ranges[i], cursor) {
        is_at(ranges[index], cursor)
    } else {
        &&& forall|i: int| 0 <= i < index ==> is_before(#[trigger] ranges[i], cursor)
        &&& is_after(ranges[index], cursor) || index == ranges.len() - 1
    }
}

/// The match that halving the matches between two indices again and again leads to: one at the
/// cursor, or else where one would be.
pub open spec fn halved(ranges: Seq<Range<Anchor>>, cursor: Anchor, from: int, to: int) -> int
    decreases to - from,
{
    if from >= to {
        from
    } else {
        let middle = from + (to - from) / 2;
        if is_before(ranges[middle], cursor) {
            halved(ranges, cursor, middle + 1, to)
        } else if is_after(ranges[middle], cursor) {
            halved(ranges, cursor, from, middle)
        } else {
            middle
        }
    }
}

/// The active match, among matches of which there is one. Which of several at the cursor it is
/// depends on how many matches there are.
pub open spec fn active_match(ranges: Seq<Range<Anchor>>, cursor: Anchor) -> int {
    let found = halved(ranges, cursor, 0, ranges.len() as int);
    if found < ranges.len() {
        found
    } else {
        ranges.len() - 1
    }
}

/// The index of the active match.
pub fn active_match_index(ranges: &[Range<Anchor>], cursor: &Anchor) -> (r: Option<usize>)
    ensures
        r is None <==> ranges@.len() == 0,
        r is Some ==> r->0 < ranges@.len() && r->0 == active_match(ranges@, *cursor),
        r is Some && sorted_around(ranges@, *cursor) ==> is_active(ranges@, *cursor, r->0 as int),
{
    let len = ranges.len();
    if len == 0 {
        return None;
    }
    let mut from: usize = 0;
    let mut to: usize = len;
    proof {
        lemma_halved_in_bounds(ranges@, *cursor, 0, len as int);
        if sorted_around(ranges@, *cursor) {
            lemma_active_match(ranges@, *cursor);
        }
    }
    while from < to
        invariant
            from <= to <= len,
            len == ranges@.len(),
            len > 0,
            halved(ranges@, *cursor, 0, len as int) == halved(
                ranges@,
                *cursor,
                from as int,
                to as int,
            ),
            sorted_around(ranges@, *cursor) ==> is_active(
                ranges@,
                *cursor,
                active_match(ranges@, *cursor),
            ),
        decreases to - from,
    {
        let middle = from + (to - from) / 2;
        if ranges[middle].end < *cursor {
            from = middle + 1;
        } else if ranges[middle].start > *cursor {
            to = middle;
        } else {
            return Some(middle);
        }
    }
    if from < len {
        Some(from)
    } else {
        Some(len - 1)
    }
}

proof fn lemma_halved_in_bounds(
    ranges: Seq<Range<Anchor>>,
    cursor: Anchor,
    from: int,
    to: int,
)
    requires
        0 <= from <= to <= ranges.len(),
    ensures
        from <= halved(ranges, cursor, from, to) <= to,
    decreases to - from,
{
    if from < to {
        let middle = from + (to - from) / 2;
        if is_before(ranges[middle], cursor) {
            lemma_halved_in_bounds(ranges, cursor, middle + 1, to);
        } else if is_after(ranges[middle], cursor) {
            lemma_halved_in_bounds(ranges, cursor, from, middle);
        }
    }
}

/// What halving leads to, when all before the two indices is before the cursor and all after
/// them is after it.
proof fn lemma_halved(ranges: Seq<Range<Anchor>>, cursor: Anchor, from: int, to: int)
    requires
        sorted_around(ranges, cursor),
        0 <= from <= to <= ranges.len(),
        forall|i: int| 0 <= i < from ==> is_before(#[trigger] ranges[i], cursor),
        forall|i: int| to <= i < ranges.len() ==> is_after(#[trigger] ranges[i], cursor),
    ensures
        ({
            let found = halved(ranges, cursor, from, to);
            ||| found < ranges.len() && is_at(ranges[found], cursor)
            ||| {
                &&& forall|i: int| 0 <= i < found ==> is_before(#[trigger] ranges[i], cursor)
                &&& forall|i: int| found <= i < ranges.len() ==> is_after(#[trigger] ranges[i], cursor)
            }
        }),
    decreases to - from,
{
    if from < to {
        let middle = from + (to - from) / 2;
        if is_before(ranges[middle], cursor) {
            lemma_halved(ranges, cursor, middle + 1, to);
        } else if is_after(ranges[middle], cursor) {
            lemma_halved(ranges, cursor, from, middle);
        }
    }
}

proof fn lemma_active_match(ranges: Seq<Range<Anchor>>, cursor: Anchor)
    requires
        ranges.len() > 0,
        sorted_around(ranges, cursor),
    ensures
        0 <= active_match(ranges, cursor) < ranges.len(),
        is_active(ranges, cursor, active_match(ranges, cursor)),
{
    let len = ranges.len() as int;
    let found = halved(ranges, cursor, 0, len);
    lemma_halved_in_bounds(ranges, cursor, 0, len);
    lemma_halved(ranges, cursor, 0, len);
    if !(found < len && is_at(ranges[found], cursor)) {
        assert forall|i: int| 0 <= i < len implies !is_at(#[trigger] ranges[i], cursor) by {
            if i < found {
                assert(is_before(ranges[i], cursor));
            } else {
                assert(is_after(ranges[i], cursor));
            }
        }
    }
}

/// The active match never moves back as the cursor moves on; and where matches are at the cursor
/// it is one of them.
pub proof fn law_active_match_moves_with_the_cursor(
    ranges: Seq<Range<Anchor>>,
    before: Anchor,
    after: Anchor,
)
    requires
        ranges.len() > 0,
        in_order(ranges),
        before <= after,
    ensures
        0 <= active_match(ranges, before) <= active_match(ranges, after) < ranges.len(),
        (exists|i: int| 0 <= i < ranges.len() && is_at(#[trigger] ranges[i], before))
            ==> is_at(ranges[active_match(ranges, before)], before),
{
    law_matches_in_order_are_sorted(ranges, before);
    law_matches_in_order_are_sorted(ranges, after);
    lemma_active_match(ranges, before);
    lemma_active_match(ranges, after);
    let first = active_match(ranges, before);
    let second = active_match(ranges, after);
    if before < after && second < first {
        assert(ranges[second].end <= ranges[first].start);
    }
}

/// Matches that lie one after the other are sorted around every cursor, so that the active one
/// is always determined.
pub proof fn law_matches_in_order_are_sorted(ranges: Seq<Range<Anchor>>, cursor: Anchor)
    requires
        in_order(ranges),
    ensures
        sorted_around(ranges, cursor),
{
}

/// How many matches to go, out of `len`, when asked to go `count` from the match `current` with
/// the cursor at `position`: one fewer where that match lies between the cursor and where it is
/// to go.
pub open spec fn steps(
    current: Range<Anchor>,
    position: Anchor,
    direction: Direction,
    count: nat,
    len: nat,
) -> int
    recommends
        len > 0,
{
    let count = count % len;
    if count == 0 {
        0
    } else {
        match direction {
            Direction::Next => if current.start > position {
                count - 1
            } else {
                count as int
            },
            Direction::Prev => if current.end < position {
                count - 1
            } else {
                count as int
            },
        }
    }
}

/// Where the cursor counts as being: at the head of the selection where there is only one, else
/// at the start of the current match.
pub open spec fn search_position(
    current: Range<Anchor>,
    selections: nat,
    newest_head: Anchor,
) -> Anchor {
    if selections == 1 {
        newest_head
    } else {
        current.start
    }
}

/// The match to go to from the match `current_index`, round the ends of the list.
pub open spec fn match_to_go_to(
    matches: Seq<Range<Anchor>>,
    current_index: int,
    direction: Direction,
    count: nat,
    selections: nat,
    newest_head: Anchor,
) -> int {
    let current = matches[current_index];
    let position = search_position(current, selections, newest_head);
    let steps = steps(current, position, direction, count, matches.len());
    match direction {
        Direction::Next => (current_index + steps) % matches.len() as int,
        Direction::Prev => (current_index - steps) % matches.len() as int,
    }
}

/// The match to go to when asked to go `count` matches from the match `current_index`.
/// `selections` is how many selections there are, `newest_head` where the newest one has its
/// head.
pub fn match_index_for_direction(
    matches: &Vec<Range<Anchor>>,
    current_index: usize,
    direction: Direction,
    count: usize,
    selections: usize,
    newest_head: Anchor,
) -> (r: usize)
    requires
        matches@.len() > 0,
        current_index < matches@.len() || (selections == 1 && count as int % matches@.len() as int
            == 0),
    ensures
        current_index < matches@.len() ==> r == match_to_go_to(
            matches@,
            current_index as int,
            direction,
            count as nat,
            selections as nat,
            newest_head,
        ),
        current_index >= matches@.len() ==> r == current_index,
{
    let len = matches.len();
    let mut count = count % len;
    if count == 0 {
        proof {
            if current_index < matches@.len() {
                vstd::arithmetic::div_mod::lemma_small_mod(current_index as nat, len as nat);
            }
        }
        return current_index;
    }
    let position = if selections == 1 {
        newest_head
    } else {
        matches[current_index].start
    };
    match direction {
        Direction::Next => {
            if matches[current_index].start > position {
                count = count - 1;
            }
            if count < len - current_index {
                proof {
                    vstd::arithmetic::div_mod::lemma_small_mod(
                        (current_index + count) as nat,
                        len as nat,
                    );
                }
                current_index + count
            } else {
                proof {
                    let sum = current_index + count;
                    vstd::arithmetic::div_mod::lemma_small_mod((sum - len) as nat, len as nat);
                    vstd::arithmetic::div_mod::lemma_mod_add_multiples_vanish(
                        sum - len,
                        len as int,
                    );
                }
                count - (len - current_index)
            }
        },
        Direction::Prev => {
            if matches[current_index].end < position {
                count = count - 1;
            }
            if current_index >= count {
                proof {
                    vstd::arithmetic::div_mod::lemma_small_mod(
                        (current_index - count) as nat,
                        len as nat,
                    );
                }
                current_index - count
            } else {
                proof {
                    let difference = current_index - count;
                    vstd::arithmetic::div_mod::lemma_small_mod(
                        (difference + len) as nat,
                        len as nat,
                    );
                    vstd::arithmetic::div_mod::lemma_mod_add_multiples_vanish(
                        difference,
                        len as int,
                    );
                }
                len - (count - current_index)
            }
        },
    }
}

/// The match to go to is one of the matches.
pub proof fn law_match_to_go_to_exists(
    matches: Seq<Range<Anchor>>,
    current_index: int,
    direction: Direction,
    count: nat,
    selections: nat,
    newest_head: Anchor,
)
    requires
        matches.len() > 0,
    ensures
        0 <= match_to_go_to(matches, current_index, direction, count, selections, newest_head)
            < matches.len(),
{
    let steps = steps(
        matches[current_index],
        search_position(matches[current_index], selections, newest_head),
        direction,
        count,
        matches.len(),
    );
    let len = matches.len() as int;
    vstd::arithmetic::div_mod::lemma_mod_bound(current_index + steps, len);
    vstd::arithmetic::div_mod::lemma_mod_bound(current_index - steps, len);
}

/// Going round the whole list any number of times leads back to where one was.
pub proof fn law_going_round_leads_back(
    matches: Seq<Range<Anchor>>,
    current_index: int,
    direction: Direction,
    rounds: nat,
    selections: nat,
    newest_head: Anchor,
)
    requires
        0 <= current_index < matches.len(),
    ensures
        match_to_go_to(
            matches,
            current_index,
            direction,
            rounds * matches.len(),
            selections,
            newest_head,
        ) == current_index,
{
    let len = matches.len() as int;
    vstd::arithmetic::div_mod::lemma_mod_multiples_basic(rounds as int, len);
    vstd::arithmetic::div_mod::lemma_small_mod(current_index as nat, matches.len());
}

/// With several selections, going forward and then as far back leads to where one was.
pub proof fn law_going_back_undoes_going_forward(
    matches: Seq<Range<Anchor>>,
    current_index: int,
    count: nat,
    selections: nat,
    newest_head: Anchor,
)
    requires
        0 <= current_index < matches.len(),
        selections != 1,
        forall|i: int| 0 <= i < matches.len() ==> (#[trigger] matches[i]).start <= matches[i].end,
    ensures
        match_to_go_to(
            matches,
            match_to_go_to(
                matches,
                current_index,
                Direction::Next,
                count,
                selections,
                newest_head,
            ),
            Direction::Prev,
            count,
            selections,
            newest_head,
        ) == current_index,
{
    let len = matches.len() as int;
    let steps = count as int % len;
    law_match_to_go_to_exists(
        matches,
        current_index,
        Direction::Next,
        count,
        selections,
        newest_head,
    );
    let there = (current_index + steps) % len;
    assert(matches[there].start <= matches[there].end);
    vstd::arithmetic::div_mod::lemma_mod_bound(count as int, len);
    assert((there - steps) % len == (current_index + steps - steps) % len) by {
        vstd::arithmetic::div_mod::lemma_sub_mod_noop(current_index + steps, steps, len);
        vstd::arithmetic::div_mod::lemma_sub_mod_noop(there, steps, len);
        vstd::arithmetic::div_mod::lemma_mod_twice(current_index + steps, len);
    }
    vstd::arithmetic::div_mod::lemma_small_mod(current_index as nat, matches.len());
}

proof fn lemma_following(x: int, len: int)
    requires
        len > 0,
    ensures
        0 <= x % len < len,
        (x + 1) % len == if x % len + 1 < len {
            x % len + 1
        } else {
            0
        },
        (x - 1) % len == if x % len > 0 {
            x % len - 1
        } else {
            len - 1
        },
{
    vstd::arithmetic::div_mod::lemma_fundamental_div_mod(x, len);
    vstd::arithmetic::div_mod::lemma_mod_bound(x, len);
    let rounds = x / len;
    let rest = x % len;
    if rest + 1 < len {
        assert(x + 1 == rounds * len + (rest + 1)) by (nonlinear_arith)
            requires
                x == len * rounds + rest,
        ;
        vstd::arithmetic::div_mod::lemma_fundamental_div_mod_converse(x + 1, len, rounds, rest + 1);
    } else {
        assert(x + 1 == (rounds + 1) * len + 0) by (nonlinear_arith)
            requires
                x == len * rounds + rest,
                rest + 1 == len,
        ;
        vstd::arithmetic::div_mod::lemma_fundamental_div_mod_converse(x + 1, len, rounds + 1, 0);
    }
    if rest > 0 {
        assert(x - 1 == rounds * len + (rest - 1)) by (nonlinear_arith)
            requires
                x == len * rounds + rest,
        ;
        vstd::arithmetic::div_mod::lemma_fundamental_div_mod_converse(x - 1, len, rounds, rest - 1);
    } else {
        assert(x - 1 == (rounds - 1) * len + (len - 1)) by (nonlinear_arith)
            requires
                x == len * rounds + rest,
                rest == 0,
        ;
        vstd::arithmetic::div_mod::lemma_fundamental_div_mod_converse(
            x - 1,
            len,
            rounds - 1,
            len - 1,
        );
    }
}

/// With one selection, going one match forward leads to the match that one is at where it starts
/// after the cursor, and else to the one that follows it; going one match back leads to the match
/// that one is at where it ends before the cursor, and else to the one before it. The first match
/// follows the last.
pub proof fn law_next_match_lies_past_the_cursor(
    matches: Seq<Range<Anchor>>,
    current_index: int,
    cursor: Anchor,
)
    requires
        0 <= current_index < matches.len(),
    ensures
        match_to_go_to(matches, current_index, Direction::Next, 1, 1, cursor)
            == if matches[current_index].start > cursor {
            current_index
        } else if current_index + 1 < matches.len() {
            current_index + 1
        } else {
            0
        },
        match_to_go_to(matches, current_index, Direction::Prev, 1, 1, cursor)
            == if matches[current_index].end < cursor {
            current_index
        } else if current_index > 0 {
            current_index - 1
        } else {
            matches.len() - 1
        },
{
    let len = matches.len() as int;
    vstd::arithmetic::div_mod::lemma_small_mod(current_index as nat, matches.len());
    lemma_following(current_index, len);
    if len == 1 {
        assert(1int % 1 == 0);
    } else {
        vstd::arithmetic::div_mod::lemma_small_mod(1, matches.len());
    }
}

/// With several selections, or with none, the cursor does not count: going one match leads to the
/// one that follows, or to the one before.
pub proof fn law_next_match_without_a_cursor(
    matches: Seq<Range<Anchor>>,
    current_index: int,
    selections: nat,
    cursor: Anchor,
)
    requires
        0 <= current_index < matches.len(),
        selections != 1,
        matches[current_index].start <= matches[current_index].end,
    ensures
        match_to_go_to(matches, current_index, Direction::Next, 1, selections, cursor)
            == if current_index + 1 < matches.len() {
            current_index + 1
        } else {
            0
        },
        match_to_go_to(matches, current_index, Direction::Prev, 1, selections, cursor)
            == if current_index > 0 {
            current_index - 1
        } else {
            matches.len() - 1
        },
{
    let len = matches.len() as int;
    vstd::arithmetic::div_mod::lemma_small_mod(current_index as nat, matches.len());
    lemma_following(current_index, len);
    if len == 1 {
        assert(1int % 1 == 0);
    } else {
        vstd::arithmetic::div_mod::lemma_small_mod(1, matches.len());
    }
}

/// Going one match further leads to the match that follows where one would have come to, or to the
/// one before it; and going round the list once more makes no difference.
pub proof fn law_each_match_counts_once(
    matches: Seq<Range<Anchor>>,
    current_index: int,
    direction: Direction,
    count: nat,
    selections: nat,
    cursor: Anchor,
)
    requires
        0 <= current_index < matches.len(),
    ensures
        0 < count && count + 1 < matches.len() ==> ({
            let there = match_to_go_to(
                matches,
                current_index,
                direction,
                count,
                selections,
                cursor,
            );
            let further = match_to_go_to(
                matches,
                current_index,
                direction,
                count + 1,
                selections,
                cursor,
            );
            match direction {
                Direction::Next => further == if there + 1 < matches.len() {
                    there + 1
                } else {
                    0
                },
                Direction::Prev => further == if there > 0 {
                    there - 1
                } else {
                    matches.len() - 1
                },
            }
        }),
        match_to_go_to(
            matches,
            current_index,
            direction,
            count + matches.len(),
            selections,
            cursor,
        ) == match_to_go_to(matches, current_index, direction, count, selections, cursor),
{
    let len = matches.len() as int;
    vstd::arithmetic::div_mod::lemma_mod_add_multiples_vanish(count as int, len);
    assert((count + matches.len()) % matches.len() == count % matches.len());
    if 0 < count && count + 1 < matches.len() {
        vstd::arithmetic::div_mod::lemma_small_mod(count, matches.len());
        vstd::arithmetic::div_mod::lemma_small_mod(count + 1, matches.len());
        let current = matches[current_index];
        let position = search_position(current, selections, cursor);
        let gone = steps(current, position, direction, count, matches.len());
        assert(steps(current, position, direction, count + 1, matches.len()) == gone + 1);
        lemma_following(current_index + gone, len);
        lemma_following(current_index - gone, len);
    }
}

/// Among matches that lie one after the other, the active one holds the cursor, or has it at one
/// of its ends, where any does. Else it is the first that starts after the cursor where any does,
/// and else the last.
pub proof fn law_active_match_is_nearest(ranges: Seq<Range<Anchor>>, cursor: Anchor)
    requires
        ranges.len() > 0,
        forall|i: int| 0 <= i < ranges.len() ==> (#[trigger] ranges[i]).start <= ranges[i].end,
        forall|i: int, j: int|
            0 <= i < j < ranges.len() ==> (#[trigger] ranges[i]).end <= (#[trigger] ranges[j]).start,
    ensures
        ({
            let active = active_match(ranges, cursor);
            &&& 0 <= active < ranges.len()
            &&& (exists|i: int|
                0 <= i < ranges.len() && (#[trigger] ranges[i]).start <= cursor <= ranges[i].end)
                ==> ranges[active].start <= cursor <= ranges[active].end
            &&& ranges[active].start > cursor ==> forall|i: int|
                0 <= i < active ==> (#[trigger] ranges[i]).end < cursor
            &&& ranges[active].end < cursor ==> forall|i: int|
                0 <= i < ranges.len() ==> (#[trigger] ranges[i]).end < cursor
            &&& ranges[active].end < cursor ==> active == ranges.len() - 1
        }),
{
    assert(in_order(ranges));
    law_matches_in_order_are_sorted(ranges, cursor);
    lemma_active_match(ranges, cursor);
    let active = active_match(ranges, cursor);
    if exists|i: int|
        0 <= i < ranges.len() && (#[trigger] ranges[i]).start <= cursor <= ranges[i].end {
        let i = choose|i: int|
            0 <= i < ranges.len() && (#[trigger] ranges[i]).start <= cursor <= ranges[i].end;
        assert(is_at(ranges[i], cursor));
    } else {
        assert forall|i: int| 0 <= i < ranges.len() implies !is_at(#[trigger] ranges[i], cursor) by {
        }
    }
}

/// From the active match, one match forward is the first that starts after the cursor where the
/// active one starts after it, and else the one that follows the active one; one match back is
/// the last that ends before the cursor where the active one ends before it, and else the one
/// before the active one.
pub proof fn law_next_match_from_the_active_one(matches: Seq<Range<Anchor>>, cursor: Anchor)
    requires
        matches.len() > 0,
        forall|i: int| 0 <= i < matches.len() ==> (#[trigger] matches[i]).start <= matches[i].end,
        forall|i: int, j: int|
            0 <= i < j < matches.len() ==> (#[trigger] matches[i]).end <= (
            #[trigger] matches[j]).start,
    ensures
        ({
            let active = active_match(matches, cursor);
            let next = match_to_go_to(matches, active, Direction::Next, 1, 1, cursor);
            let prev = match_to_go_to(matches, active, Direction::Prev, 1, 1, cursor);
            &&& 0 <= active < matches.len()
            &&& 0 <= next < matches.len()
            &&& 0 <= prev < matches.len()
            &&& if matches[active].start > cursor {
                &&& matches[next].start > cursor
                &&& forall|i: int| 0 <= i < next ==> (#[trigger] matches[i]).start <= cursor
            } else {
                next == if active == matches.len() - 1 {
                    0
                } else {
                    active + 1
                }
            }
            &&& if matches[active].end < cursor {
                &&& matches[prev].end < cursor
                &&& forall|i: int| prev < i < matches.len() ==> (#[trigger] matches[i]).end >= cursor
            } else {
                prev == if active == 0 {
                    matches.len() - 1
                } else {
                    active - 1
                }
            }
        }),
{
    law_active_match_is_nearest(matches, cursor);
    law_next_match_lies_past_the_cursor(matches, active_match(matches, cursor), cursor);
}

/// Which side of a place an anchor keeps to when text is inserted there.
#[derive(Clone, Copy, Debug, PartialEq, Eq, Structural)]
pub enum Bias {
    Left,
    Right,
}

/// An anchor that is to be made in a buffer, at an offset into it.
#[derive(Clone, Copy, Debug, PartialEq, Eq, Structural)]
pub struct OffsetAnchor {
    /// The excerpt that the anchor lies in, where the buffer is made of excerpts.
    pub excerpt: Option<u64>,
    pub offset: usize,
    pub bias: Bias,
}

/// The matches in one excerpt.
#[derive(Debug)]
pub struct ExcerptMatches {
    pub id: u64,
    /// Where the excerpt begins in the buffer that it is taken from.
    pub start: usize,
    /// The matches, as offsets from there.
    pub matches: Vec<Range<usize>>,
}

/// What a search has found.
#[derive(Debug)]
pub enum SearchResults {
    /// In a buffer that is shown whole.
    Singleton(Vec<Range<usize>>),
    /// In excerpts, in the order in which they are shown.
    Excerpts(Vec<ExcerptMatches>),
}

/// The anchors of a match: it grows neither at its start nor at its end.
pub open spec fn match_anchors(excerpt: Option<u64>, base: usize, found: Range<usize>) -> Range<
    OffsetAnchor,
> {
    Range {
        start: OffsetAnchor { excerpt, offset: (base + found.start) as usize, bias: Bias::Right },
        end: OffsetAnchor { excerpt, offset: (base + found.end) as usize, bias: Bias::Left },
    }
}

/// The anchors of the matches that begin at `base`.
pub open spec fn anchors_of(
    excerpt: Option<u64>,
    base: usize,
    found: Seq<Range<usize>>,
) -> Seq<Range<OffsetAnchor>> {
    found.map_values(|range: Range<usize>| match_anchors(excerpt, base, range))
}

/// The anchors of the matches in excerpts, those of the first excerpt first.
pub open spec fn anchors_in_excerpts(excerpts: Seq<ExcerptMatches>) -> Seq<Range<OffsetAnchor>>
    decreases excerpts.len(),
{
    if excerpts.len() == 0 {
        Seq::empty()
    } else {
        let last = excerpts.last();
        anchors_in_excerpts(excerpts.drop_last()) + anchors_of(
            Some(last.id),
            last.start,
            last.matches@,
        )
    }
}

/// Whether the matches lie within what offsets can express.
pub open spec fn offsets_fit(base: usize, found: Seq<Range<usize>>) -> bool {
    forall|i: int|
        0 <= i < found.len() ==> base + (#[trigger] found[i]).start <= usize::MAX && base
            + found[i].end <= usize::MAX
}

fn push_anchors(
    ranges: &mut Vec<Range<OffsetAnchor>>,
    excerpt: Option<u64>,
    base: usize,
    found: &Vec<Range<usize>>,
)
    requires
        offsets_fit(base, found@),
    ensures
        final(ranges)@ == old(ranges)@ + anchors_of(excerpt, base, found@),
{
    let mut i: usize = 0;
    while i < found.len()
        invariant
            i <= found.len(),
            offsets_fit(base, found@),
            ranges@ == old(ranges)@ + anchors_of(excerpt, base, found@).take(i as int),
        decreases found.len() - i,
    {
        let range = Range {
            start: OffsetAnchor {
                excerpt,
                offset: base + found[i].start,
                bias: Bias::Right,
            },
            end: OffsetAnchor { excerpt, offset: base + found[i].end, bias: Bias::Left },
        };
        ranges.push(range);
        proof {
            let all = anchors_of(excerpt, base, found@);
            assert(all[i as int] == range);
            assert(all.take(i + 1) =~= all.take(i as int).push(range));
            assert(ranges@ =~= old(ranges)@ + all.take(i + 1));
        }
        i = i + 1;
    }
    assert(anchors_of(excerpt, base, found@).take(found.len() as int) =~= anchors_of(
        excerpt,
        base,
        found@,
    ));
}

/// The anchors of everything that a search has found.
pub fn find_matches(results: &SearchResults) -> (r: Vec<Range<OffsetAnchor>>)
    requires
        match results {
            SearchResults::Singleton(_) => true,
            SearchResults::Excerpts(excerpts) => forall|i: int|
                0 <= i < excerpts@.len() ==> offsets_fit(
                    (#[trigger] excerpts@[i]).start,
                    excerpts@[i].matches@,
                ),
        },
    ensures
        r@ == match results {
            SearchResults::Singleton(found) => anchors_of(None, 0, found@),
            SearchResults::Excerpts(excerpts) => anchors_in_excerpts(excerpts@),
        },
{
    let mut ranges: Vec<Range<OffsetAnchor>> = Vec::new();
    match results {
        SearchResults::Singleton(found) => {
            push_anchors(&mut ranges, None, 0, found);
        },
        SearchResults::Excerpts(excerpts) => {
            let mut i: usize = 0;
            assert(excerpts@.take(0) =~= Seq::empty());
            while i < excerpts.len()
                invariant
                    i <= excerpts.len(),
                    forall|j: int|
                        0 <= j < excerpts@.len() ==> offsets_fit(
                            (#[trigger] excerpts@[j]).start,
                            excerpts@[j].matches@,
                        ),
                    ranges@ == anchors_in_excerpts(excerpts@.take(i as int)),
                decreases excerpts.len() - i,
            {
                let excerpt = &excerpts[i];
                push_anchors(&mut ranges, Some(excerpt.id), excerpt.start, &excerpt.matches);
                proof {
                    let next = excerpts@.take(i + 1);
                    assert(next.drop_last() =~= excerpts@.take(i as int));
                    assert(next.last() == excerpts@[i as int]);
                }
                i = i + 1;
            }
            assert(excerpts@.take(excerpts.len() as int) =~= excerpts@);
        },
    }
    ranges
}

/// Each match of a buffer that is shown whole gets its own anchors, in order, at its own ends, in
/// no excerpt; it grows at neither.
pub proof fn law_matches_of_a_buffer(found: Seq<Range<usize>>)
    ensures
        anchors_of(None, 0, found).len() == found.len(),
        forall|i: int|
            #![trigger anchors_of(None, 0, found)[i]]
            0 <= i < found.len() ==> {
                let anchors = anchors_of(None, 0, found)[i];
                &&& anchors.start.excerpt is None && anchors.end.excerpt is None
                &&& anchors.start.offset == found[i].start && anchors.end.offset == found[i].end
                &&& anchors.start.bias == Bias::Right && anchors.end.bias == Bias::Left
            },
{
}

/// Each match in an excerpt gets its own anchors, in order, in that excerpt, as far from the start
/// of the excerpt as its ends are; it grows at neither. What is found in excerpts that follow each
/// other follows each other.
pub proof fn law_matches_of_excerpts(
    excerpt: ExcerptMatches,
    first: Seq<ExcerptMatches>,
    second: Seq<ExcerptMatches>,
)
    requires
        forall|i: int|
            #![trigger excerpt.matches@[i]]
            0 <= i < excerpt.matches@.len() ==> excerpt.start + excerpt.matches@[i].start
                <= usize::MAX && excerpt.start + excerpt.matches@[i].end <= usize::MAX,
    ensures
        anchors_in_excerpts(Seq::empty()).len() == 0,
        anchors_in_excerpts(seq![excerpt]).len() == excerpt.matches@.len(),
        forall|i: int|
            #![trigger anchors_in_excerpts(seq![excerpt])[i]]
            0 <= i < excerpt.matches@.len() ==> {
                let anchors = anchors_in_excerpts(seq![excerpt])[i];
                let found = excerpt.matches@[i];
                &&& anchors.start.excerpt == Some(excerpt.id)
                &&& anchors.end.excerpt == Some(excerpt.id)
                &&& anchors.start.offset == excerpt.start + found.start
                &&& anchors.end.offset == excerpt.start + found.end
                &&& anchors.start.bias == Bias::Right && anchors.end.bias == Bias::Left
            },
        anchors_in_excerpts(first + second) == anchors_in_excerpts(first) + anchors_in_excerpts(
            second,
        ),
    decreases second.len(),
{
    reveal_with_fuel(anchors_in_excerpts, 2);
    assert(seq![excerpt].drop_last() =~= Seq::empty());
    let alone = anchors_of(Some(excerpt.id), excerpt.start, excerpt.matches@);
    assert(anchors_in_excerpts(seq![excerpt]) =~= alone);
    if second.len() == 0 {
        assert(first + second =~= first);
        assert(anchors_in_excerpts(first) + anchors_in_excerpts(second) =~= anchors_in_excerpts(
            first,
        ));
    } else {
        let rest = second.drop_last();
        law_matches_of_excerpts(excerpt, first, rest);
        assert((first + second).drop_last() =~= first + rest);
        assert((first + second).last() == second.last());
        assert(anchors_in_excerpts(first + second) =~= anchors_in_excerpts(first)
            + anchors_in_excerpts(second));
    }
}

/// Where the first query of a search comes from.
#[derive(Clone, Copy, Debug, PartialEq, Eq, Structural)]
pub enum SeedQuerySetting {
    Always,
    Selection,
    Never,
}

/// What kind of character stands at a place.
#[derive(Clone, Copy, Debug, PartialEq, Eq, Structural)]
pub enum CharKind {
    Punctuation,
    Whitespace,
    Word,
}

/// The query that a search starts with: the selected text where something is selected, and, if
/// the setting allows it, else the word at the cursor.
pub open spec fn suggested_query(
    setting: SeedQuerySetting,
    selection: Range<usize>,
    selected_text: Seq<char>,
    kind: Option<CharKind>,
    word: Seq<char>,
) -> Seq<char> {
    if setting is Never {
        Seq::empty()
    } else if selection.start != selection.end {
        selected_text
    } else if setting is Always && kind == Some(CharKind::Word) && text::trimmed(word).len() > 0 {
        word
    } else {
        Seq::empty()
    }
}

/// The query that a search starts with. `selected_text` is the text of the newest selection;
/// `kind` and `word` tell what surrounds its start.
pub fn query_suggestion(
    setting: SeedQuerySetting,
    selection: &Range<usize>,
    selected_text: &str,
    kind: Option<CharKind>,
    word: &str,
) -> (r: String)
    ensures
        r@ == suggested_query(setting, *selection, selected_text@, kind, word@),
{
    let is_word = match kind {
        Some(CharKind::Word) => true,
        _ => false,
    };
    match setting {
        SeedQuerySetting::Never => String::new(),
        SeedQuerySetting::Selection => if selection.start != selection.end {
            selected_text.to_string()
        } else {
            String::new()
        },
        SeedQuerySetting::Always => {
            if selection.start != selection.end {
                return selected_text.to_string();
            }
            if is_word && !text::trim(word).is_empty() {
                return word.to_string();
            }
            String::new()
        },
    }
}

/// Where a search is never given a query, it starts with none. What is selected is the query
/// otherwise, all of it. Where nothing is selected, what surrounds the cursor is the query, all
/// of it, exactly where the setting asks for it always and it is a word and not blank.
pub proof fn law_where_a_query_comes_from(
    setting: SeedQuerySetting,
    selection: Range<usize>,
    selected_text: Seq<char>,
    kind: Option<CharKind>,
    word: Seq<char>,
)
    ensures
        ({
            let query = suggested_query(setting, selection, selected_text, kind, word);
            match setting {
                SeedQuerySetting::Never => query.len() == 0,
                SeedQuerySetting::Selection => if selection.start == selection.end {
                    query.len() == 0
                } else {
                    query == selected_text
                },
                SeedQuerySetting::Always => if selection.start != selection.end {
                    query == selected_text
                } else {
                    match kind {
                        Some(CharKind::Word) => if text::trimmed(word).len() == 0 {
                            query.len() == 0
                        } else {
                            query == word
                        },
                        Some(CharKind::Punctuation) => query.len() == 0,
                        Some(CharKind::Whitespace) => query.len() == 0,
                        None => query.len() == 0,
                    }
                },
            }
        }),
{
}

/// The text of chunks that follow each other.
pub open spec fn joined(chunks: Seq<String>) -> Seq<char>
    decreases chunks.len(),
{
    if chunks.len() == 0 {
        Seq::empty()
    } else {
        joined(chunks.drop_last()) + chunks.last()@
    }
}

/// The text that a replacement is looked for, given the chunks of it that the buffer holds.
pub fn text_to_replace(chunks: &Vec<String>) -> (r: String)
    ensures
        r@ == joined(chunks@),
{
    let mut text = String::new();
    let mut i: usize = 0;
    assert(chunks@.take(0) =~= Seq::empty());
    while i < chunks.len()
        invariant
            i <= chunks.len(),
            text@ == joined(chunks@.take(i as int)),
        decreases chunks.len() - i,
    {
        text.append(chunks[i].as_str());
        proof {
            let next = chunks@.take(i + 1);
            assert(next.drop_last() =~= chunks@.take(i as int));
            assert(next.last() == chunks@[i as int]);
        }
        i = i + 1;
    }
    assert(chunks@.take(chunks.len() as int) =~= chunks@);
    text
}

/// Chunks make up a text by following each other: none make none, one makes its own text, and
/// those of joined lists make what each list makes, one after the other.
pub proof fn law_chunks_follow_each_other(first: Seq<String>, second: Seq<String>, chunk: String)
    ensures
        joined(Seq::empty()).len() == 0,
        joined(seq![chunk]) == chunk@,
        joined(first + second) == joined(first) + joined(second),
    decreases second.len(),
{
    reveal_with_fuel(joined, 2);
    assert(seq![chunk].drop_last() =~= Seq::empty());
    assert(joined(seq![chunk]) =~= chunk@);
    if second.len() == 0 {
        assert(first + second =~= first);
        assert(joined(first) + joined(second) =~= joined(first));
    } else {
        let rest = second.drop_last();
        law_chunks_follow_each_other(first, rest, chunk);
        assert((first + second).drop_last() =~= first + rest);
        assert((first + second).last() == second.last());
        assert(joined(first + second) =~= joined(first) + joined(second));
    }
}

/// A change of the text of a buffer.
#[derive(Debug)]
pub struct Edit {
    pub range: Range<Anchor>,
    pub new_text: String,
}

/// The edit that replaces a match, if the query has a replacement for its text.
pub fn replace(identifier: Range<Anchor>, replacement: Option<String>) -> (r: Option<Edit>)
    ensures
        r == match replacement {
            Some(new_text) => Some(Edit { range: identifier, new_text }),
            None => None,
        },
{
    match replacement {
        Some(new_text) => Some(Edit { range: identifier, new_text }),
        None => None,
    }
}

/// Matches that are to be unfolded, and what is to be selected for them.
#[derive(Debug)]
pub struct MatchSelection {
    pub unfold: Vec<Range<Anchor>>,
    pub select: Vec<Range<Anchor>>,
    /// Whether the editor scrolls to what is unfolded and selected.
    pub autoscroll: bool,
}

/// Goes to one of the matches, given the range that is selected for it.
pub fn activate_match(
    index: usize,
    matches: &Vec<Range<Anchor>>,
    range: Range<Anchor>,
) -> (r: MatchSelection)
    requires
        index < matches@.len(),
    ensures
        r.unfold@ == seq![matches@[index as int]],
        r.select@ == seq![range],
        r.autoscroll,
{
    let mut unfold: Vec<Range<Anchor>> = Vec::new();
    unfold.push(Range { start: matches[index].start, end: matches[index].end });
    let mut select: Vec<Range<Anchor>> = Vec::new();
    select.push(range);
    assert(unfold@ =~= seq![matches@[index as int]]);
    assert(select@ =~= seq![range]);
    MatchSelection { unfold, select, autoscroll: true }
}

/// Selects all the matches, given the ranges that are selected for them, without leaving the
/// place that is shown.
pub fn select_matches(matches: Vec<Range<Anchor>>, ranges: Vec<Range<Anchor>>) -> (r:
    MatchSelection)
    requires
        ranges@.len() == matches@.len(),
    ensures
        r == (MatchSelection { unfold: matches, select: ranges, autoscroll: false }),
{
    MatchSelection { unfold: matches, select: ranges, autoscroll: false }
}

}
