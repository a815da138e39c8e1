use crate::hint::{accepts, after_set, flag_text, lookup, no_nul, video_minimize_on_focus_loss, Hint, HintMap};
use crate::names::VIDEO_MINIMIZE_ON_FOCUS_LOSS;
use vstd::prelude::*;

verus! {

/// One write request: name, value and priority.
pub type Write = (Seq<char>, Seq<char>, Hint);

/// The store after the writes are applied in order.
pub open spec fn replay(m: HintMap, writes: Seq<Write>) -> HintMap
    decreases writes.len(),
{
    if writes.len() == 0 {
        m
    } else {
        replay(after_set(m, writes[0].0, writes[0].1, writes[0].2), writes.drop_first())
    }
}

/// A value stronger than `Normal` is present at `k`.
pub open spec fn blocked_for_normal(m: HintMap, k: Seq<char>) -> bool {
    m.contains_key(k) && m[k].1.level() > Hint::Normal.level()
}

/// A `Normal` write followed by a read of the same name: where no stronger
/// value is present the read gives the value written; otherwise the write is
/// refused and the read gives the value that was there.
pub proof fn law_set_then_get(m: HintMap, k: Seq<char>, v: Seq<char>)
    requires
        no_nul(k),
        no_nul(v),
    ensures
        accepts(m, k, Hint::Normal) == !blocked_for_normal(m, k),
        !blocked_for_normal(m, k) ==> lookup(after_set(m, k, v, Hint::Normal), k) == Some(v),
        blocked_for_normal(m, k) ==> after_set(m, k, v, Hint::Normal) == m && lookup(
            after_set(m, k, v, Hint::Normal),
            k,
        ) == Some(m[k].0),
{
}

proof fn lemma_replay_keeps_unset(m: HintMap, writes: Seq<Write>, k: Seq<char>)
    requires
        !m.contains_key(k),
        forall|i: int| 0 <= i < writes.len() ==> (#[trigger] writes[i]).0 != k,
    ensures
        !replay(m, writes).contains_key(k),
    decreases writes.len(),
{
    if writes.len() > 0 {
        let next = after_set(m, writes[0].0, writes[0].1, writes[0].2);
        assert forall|i: int| 0 <= i < writes.drop_first().len() implies (
        #[trigger] writes.drop_first()[i]).0 != k by {
            assert(writes.drop_first()[i] == writes[i + 1]);
        }
        lemma_replay_keeps_unset(next, writes.drop_first(), k);
    }
}

/// Starting from an empty store, a name that no write names reads as unset.
pub proof fn law_never_set_is_none(writes: Seq<Write>, k: Seq<char>)
    requires
        forall|i: int| 0 <= i < writes.len() ==> (#[trigger] writes[i]).0 != k,
    ensures
        lookup(replay(Map::empty(), writes), k) == None::<Seq<char>>,
{
    lemma_replay_keeps_unset(Map::empty(), writes, k);
}

/// An `Override` write is always applied, whatever is stored at `k`; a
/// `Normal` write after it is refused and leaves its value in place.
pub proof fn law_override_then_set(m: HintMap, k: Seq<char>, v: Seq<char>, v2: Seq<char>)
    requires
        no_nul(k),
        no_nul(v),
        no_nul(v2),
    ensures
        accepts(m, k, Hint::Override),
        lookup(after_set(m, k, v, Hint::Override), k) == Some(v),
        !accepts(after_set(m, k, v, Hint::Override), k, Hint::Normal),
        lookup(after_set(after_set(m, k, v, Hint::Override), k, v2, Hint::Normal), k) == Some(v),
{
}

/// The focus-loss minimize hint reads as enabled while unset, as disabled
/// after it is set to `false`, and as enabled again after it is set to `true`.
pub proof fn law_video_round_trip()
    ensures
        video_minimize_on_focus_loss(Map::empty()),
        !video_minimize_on_focus_loss(
            after_set(Map::empty(), VIDEO_MINIMIZE_ON_FOCUS_LOSS@, flag_text(false), Hint::Normal),
        ),
        video_minimize_on_focus_loss(
            after_set(
                after_set(
                    Map::empty(),
                    VIDEO_MINIMIZE_ON_FOCUS_LOSS@,
                    flag_text(false),
                    Hint::Normal,
                ),
                VIDEO_MINIMIZE_ON_FOCUS_LOSS@,
                flag_text(true),
                Hint::Normal,
            ),
        ),
{
    reveal_strlit("0");
    reveal_strlit("1");
    assert("0"@ != "1"@) by {
        assert("0"@[0] != "1"@[0]);
    }
}

/// A `Normal` write of a boolean to the focus-loss minimize hint, where no
/// stronger value blocks it, reads back as that boolean.
pub proof fn law_video_set_then_get(m: HintMap, b: bool)
    requires
        !blocked_for_normal(m, VIDEO_MINIMIZE_ON_FOCUS_LOSS@),
    ensures
        video_minimize_on_focus_loss(
            after_set(m, VIDEO_MINIMIZE_ON_FOCUS_LOSS@, flag_text(b), Hint::Normal),
        ) == b,
{
    reveal_strlit("0");
    reveal_strlit("1");
    assert("0"@ != "1"@) by {
        assert("0"@[0] != "1"@[0]);
    }
}

} // verus!
