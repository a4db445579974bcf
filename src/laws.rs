//! What holds of every run of a mirror.
use vstd::prelude::*;

use crate::event::{is_content_change, is_metadata_change, Notice};
use crate::mirror::{decide, run, step, Action, Input, MirrorModel, ReadError};

verus! {

/// Whether an input is a successful re-read.
pub open spec fn is_read_ok(i: Input) -> bool {
    i matches Input::Reread(Ok(_))
}

/// A freshly opened mirror publishes what the initial read returned, so an
/// empty file gives an empty snapshot; a run of no inputs keeps it.
pub proof fn lemma_initial_state(s: Seq<char>)
    ensures
        run(MirrorModel { current: s, live: true, last_failure: None }, Seq::empty()).current == s,
{
}

/// Convergence: while the watch stays registered, the published snapshot is
/// the text of the last successful re-read, whatever notices, failed
/// re-reads or earlier writes came before or after it.
pub proof fn lemma_convergence(m: MirrorModel, inputs: Seq<Input>, i: int, c: Seq<char>)
    requires
        m.live,
        forall|j: int| 0 <= j < inputs.len() ==> !(inputs[j] is Shutdown),
        0 <= i < inputs.len(),
        inputs[i] == Input::Reread(Ok::<Seq<char>, ReadError>(c)),
        forall|j: int| i < j < inputs.len() ==> !is_read_ok(#[trigger] inputs[j]),
    ensures
        run(m, inputs).current == c,
        run(m, inputs).live,
    decreases inputs.len(),
{
    lemma_live_stays(m, inputs);
    let prefix = inputs.drop_last();
    if i < inputs.len() - 1 {
        lemma_convergence(m, prefix, i, c);
        assert(!is_read_ok(inputs[inputs.len() - 1]));
    } else {
        lemma_live_stays(m, prefix);
    }
}

/// Without a shutdown, a live mirror stays live.
pub proof fn lemma_live_stays(m: MirrorModel, inputs: Seq<Input>)
    requires
        m.live,
        forall|j: int| 0 <= j < inputs.len() ==> !(inputs[j] is Shutdown),
    ensures
        run(m, inputs).live,
    decreases inputs.len(),
{
    if inputs.len() > 0 {
        lemma_live_stays(m, inputs.drop_last());
        assert(!(inputs[inputs.len() - 1] is Shutdown));
    }
}

/// No tearing: the published snapshot is always exactly the initial text or
/// the whole text of one successful re-read, never a splice of several.
pub proof fn lemma_no_tearing(m: MirrorModel, inputs: Seq<Input>)
    ensures
        run(m, inputs).current == m.current || exists|j: int|
            0 <= j < inputs.len() && #[trigger] inputs[j] == Input::Reread(
                Ok::<Seq<char>, ReadError>(run(m, inputs).current),
            ),
    decreases inputs.len(),
{
    if inputs.len() > 0 {
        let prefix = inputs.drop_last();
        lemma_no_tearing(m, prefix);
        let before = run(m, prefix).current;
        let after = run(m, inputs).current;
        if after != before {
            assert(inputs[inputs.len() - 1] == Input::Reread(Ok::<Seq<char>, ReadError>(after)));
        } else if before != m.current {
            let j = choose|j: int|
                0 <= j < prefix.len() && #[trigger] prefix[j] == Input::Reread(
                    Ok::<Seq<char>, ReadError>(before),
                );
            assert(inputs[j] == prefix[j]);
        }
    }
}

/// Idempotence: a content notice delivered twice, each followed by a re-read
/// with the same outcome (no write in between), leaves the mirror as
/// delivering it once does.
pub proof fn lemma_duplicate_notice(m: MirrorModel, n: Notice, r: Result<Seq<char>, ReadError>)
    requires
        is_content_change(n),
    ensures
        run(m, seq![Input::Notice(n), Input::Reread(r), Input::Notice(n), Input::Reread(r)])
            == run(m, seq![Input::Notice(n), Input::Reread(r)]),
{
    let twice = seq![Input::Notice(n), Input::Reread(r), Input::Notice(n), Input::Reread(r)];
    let once = seq![Input::Notice(n), Input::Reread(r)];
    let after_once = step(step(m, Input::Notice(n)), Input::Reread(r));
    let first = seq![Input::Notice(n)];
    assert(first.drop_last() =~= Seq::<Input>::empty());
    assert(once.drop_last() =~= first);
    assert(run(m, Seq::<Input>::empty()) == m);
    assert(first.last() == Input::Notice(n));
    assert(run(m, first) == step(m, Input::Notice(n)));
    assert(run(m, once.drop_last()) == step(m, Input::Notice(n)));
    assert(run(m, once) == after_once);
    assert(twice.drop_last().drop_last() =~= once);
    assert(twice.drop_last().last() == Input::Notice(n));
    assert(run(m, twice.drop_last()) == step(after_once, Input::Notice(n)));
    assert(run(m, twice) == step(after_once, Input::Reread(r)));
}

/// A notice that changes metadata only asks for no re-read and leaves the
/// mirror as it was.
pub proof fn lemma_metadata_ignored(m: MirrorModel, n: Notice)
    requires
        is_metadata_change(n),
    ensures
        decide(m, n) == Action::Observe,
        step(m, Input::Notice(n)) == m,
{
}

/// Shutdown freezing: after the watch is released, no input asks for a
/// re-read and none changes the snapshot.
pub proof fn lemma_shutdown_freezes(m: MirrorModel, inputs: Seq<Input>)
    ensures
        run(step(m, Input::Shutdown), inputs) == step(m, Input::Shutdown),
        forall|n: Notice| decide(step(m, Input::Shutdown), n) == Action::Observe,
    decreases inputs.len(),
{
    if inputs.len() > 0 {
        lemma_shutdown_freezes(m, inputs.drop_last());
    }
}

} // verus!
