//! What several handlers answer, one after the other.

use vstd::prelude::*;

verus! {

/// The answers of all handlers, in the order in which these are registered.
pub open spec fn gathered<H, A>(hooks: Seq<H>, answer: spec_fn(H) -> Seq<A>) -> Seq<A>
    decreases hooks.len(),
{
    if hooks.len() == 0 {
        Seq::empty()
    } else {
        gathered(hooks.drop_last(), answer) + answer(hooks.last())
    }
}

/// Every handler hears of every event: all that it answers stands among the
/// gathered answers, behind those of the handlers before it and before those
/// of the handlers behind it.
pub proof fn law_every_hook_answers<H, A>(hooks: Seq<H>, at: int, answer: spec_fn(H) -> Seq<A>)
    requires
        0 <= at < hooks.len(),
    ensures
        gathered(hooks, answer) == gathered(hooks.take(at), answer) + answer(hooks[at]) + gathered(
            hooks.skip(at + 1),
            answer,
        ),
    decreases hooks.len(),
{
    let front = hooks.drop_last();
    if at == hooks.len() - 1 {
        assert(hooks.take(at) =~= front);
        assert(hooks.skip(at + 1).len() == 0);
        assert(gathered(hooks, answer) =~= gathered(hooks.take(at), answer) + answer(hooks[at])
            + gathered(hooks.skip(at + 1), answer));
    } else {
        law_every_hook_answers(front, at, answer);
        assert(front.take(at) =~= hooks.take(at));
        assert(hooks.skip(at + 1).drop_last() =~= front.skip(at + 1));
        assert(hooks.skip(at + 1).last() == hooks.last());
        assert(gathered(hooks, answer) =~= gathered(hooks.take(at), answer) + answer(hooks[at]) + (
        gathered(front.skip(at + 1), answer) + answer(hooks.last())));
    }
}

/// One value as a vector.
pub(crate) fn only<T>(value: T) -> (values: Vec<T>)
    ensures
        values@ == seq![value],
{
    let mut values = Vec::new();
    values.push(value);
    values
}

} // verus!
