use vstd::prelude::*;
use crate::cd::Cd;
use crate::cd::CdView;

verus! {

/// One use of a container, as far as its state is concerned. A write carries
/// the value that the mutable view left behind.
pub ghost enum Access<T> {
    /// A shared view was taken, or the flag was inspected.
    Read,
    /// A tracked mutable view was taken.
    Write(T),
    /// A silent mutable view was taken.
    SilentWrite(T),
    /// The flag was reset.
    Reset,
}

impl<T> CdView<T> {
    /// The state after one access.
    pub open spec fn after(self, access: Access<T>) -> CdView<T> {
        match access {
            Access::Read => self,
            Access::Write(data) => self.written(data),
            Access::SilentWrite(data) => self.silently_written(data),
            Access::Reset => self.reset(),
        }
    }

    /// The state after a history of accesses, oldest first.
    pub open spec fn after_all(self, history: Seq<Access<T>>) -> CdView<T>
        decreases history.len(),
    {
        if history.len() == 0 {
            self
        } else {
            self.after_all(history.drop_last()).after(history.last())
        }
    }
}

/// A history holds a tracked write that no reset follows.
pub open spec fn written_since_reset<T>(history: Seq<Access<T>>) -> bool {
    exists|i: int|
        0 <= i < history.len() && #[trigger] history[i] is Write && forall|j: int|
            i < j < history.len() ==> !(#[trigger] history[j] is Reset)
}

/// A history holds no reset.
pub open spec fn never_reset<T>(history: Seq<Access<T>>) -> bool {
    forall|j: int| 0 <= j < history.len() ==> !(#[trigger] history[j] is Reset)
}

/// A history holds reads only.
pub open spec fn only_reads<T>(history: Seq<Access<T>>) -> bool {
    forall|j: int| 0 <= j < history.len() ==> #[trigger] history[j] is Read
}

/// A tracked write sets the flag, whatever the flag was and whatever value is
/// left behind, the old value included.
pub proof fn write_sets_flag<T>(state: CdView<T>, data: T)
    ensures
        state.written(data).changed,
        state.written(data).data == data,
        state.written(state.data).changed,
{
}

/// A reset clears the flag and keeps the value.
pub proof fn reset_clears_flag_keeps_value<T>(state: CdView<T>)
    ensures
        !state.reset().changed,
        state.reset().data == state.data,
{
}

/// A silent write leaves the flag as it was, while the value is the one left
/// behind. In particular a clear flag stays clear.
pub proof fn silent_write_keeps_flag<T>(state: CdView<T>, data: T)
    ensures
        state.silently_written(data).changed == state.changed,
        state.silently_written(data).data == data,
        !state.changed ==> !state.silently_written(data).changed,
{
}

/// Resetting twice in a row gives the state that resetting once gives.
pub proof fn reset_is_idempotent<T>(state: CdView<T>)
    ensures
        state.reset().reset() == state.reset(),
{
}

/// Any number of reads leaves the state, and so the flag, as it was.
pub proof fn reads_keep_state<T>(state: CdView<T>, history: Seq<Access<T>>)
    requires
        only_reads(history),
    ensures
        state.after_all(history) == state,
    decreases history.len(),
{
    if history.len() > 0 {
        reads_keep_state(state, history.drop_last());
    }
}

/// The flag after a history is set exactly if the history holds a tracked
/// write that no reset follows, or the flag was set at the start and the
/// history holds no reset.
pub proof fn flag_follows_history<T>(state: CdView<T>, history: Seq<Access<T>>)
    ensures
        state.after_all(history).changed <==> written_since_reset(history) || (state.changed
            && never_reset(history)),
    decreases history.len(),
{
    if history.len() > 0 {
        let earlier = history.drop_last();
        let last = (history.len() - 1) as int;
        flag_follows_history(state, earlier);
        assert forall|j: int| 0 <= j < earlier.len() implies earlier[j] == history[j] by {}
        match history.last() {
            Access::Reset => {
                assert(history[last] is Reset);
            },
            Access::Write(_) => {
                assert(history[last] is Write);
            },
            _ => {
                if written_since_reset(earlier) {
                    let i = choose|i: int|
                        0 <= i < earlier.len() && #[trigger] earlier[i] is Write && forall|j: int|
                            i < j < earlier.len() ==> !(#[trigger] earlier[j] is Reset);
                    assert(history[i] is Write);
                }
                if written_since_reset(history) {
                    let i = choose|i: int|
                        0 <= i < history.len() && #[trigger] history[i] is Write && forall|j: int|
                            i < j < history.len() ==> !(#[trigger] history[j] is Reset);
                    assert(earlier[i] is Write);
                }
            },
        }
    }
}

/// Where cloning a `T` gives back an equal `T`, every clone of a container
/// is equal to it in value and in flag.
pub proof fn clone_is_faithful<T: Clone>(original: Cd<T>, copy: Cd<T>)
    requires
        call_ensures(<Cd<T> as Clone>::clone, (&original,), copy),
        forall|a: T, b: T| cloned(a, b) ==> a == b,
    ensures
        copy@ == original@,
{
}

} // verus!
