use vstd::prelude::*;

verus! {

/// How far the loading of an asset has come.
#[derive(Debug, Clone, Copy, PartialEq, Eq, Structural)]
pub enum LoadState {
    NotLoaded,
    Loading,
    Loaded,
    Failed,
    Unloaded,
}

/// The assets that the game waits for, each named by the number of its
/// handle: those still awaited, and those that have arrived.
#[derive(Debug)]
pub struct AssetLoadState {
    pub handles: Vec<u64>,
    pub loaded_handles: Vec<u64>,
}

/// Whether the asset at place `i` of the awaited handles has arrived, given
/// one load state per place. A place without a load state has not arrived.
pub open spec fn has_arrived(load_states: Seq<LoadState>, i: int) -> bool {
    0 <= i < load_states.len() && load_states[i] == LoadState::Loaded
}

/// The handles from place `from` on that stay awaited, in their order.
pub open spec fn still_awaited(handles: Seq<u64>, load_states: Seq<LoadState>, from: int) -> Seq<
    u64,
>
    decreases handles.len() - from,
{
    if from < 0 || from >= handles.len() {
        Seq::empty()
    } else if has_arrived(load_states, from) {
        still_awaited(handles, load_states, from + 1)
    } else {
        seq![handles[from]] + still_awaited(handles, load_states, from + 1)
    }
}

/// The handles from place `from` on that have arrived, the last one first.
pub open spec fn newly_loaded(handles: Seq<u64>, load_states: Seq<LoadState>, from: int) -> Seq<
    u64,
>
    decreases handles.len() - from,
{
    if from < 0 || from >= handles.len() {
        Seq::empty()
    } else if has_arrived(load_states, from) {
        newly_loaded(handles, load_states, from + 1).push(handles[from])
    } else {
        newly_loaded(handles, load_states, from + 1)
    }
}

/// One step of waiting, given the load state of each awaited handle. With
/// nothing awaited the loading is over: the answer is `true` and nothing
/// changes. Else the answer is `false`, and each handle that has arrived
/// moves from the awaited handles to the loaded ones, the last one first.
pub fn on_load_update(asset_load_state: &mut AssetLoadState, load_states: &Vec<LoadState>) -> (finished:
    bool)
    ensures
        finished == (old(asset_load_state).handles@.len() == 0),
        final(asset_load_state).handles@ == still_awaited(
            old(asset_load_state).handles@,
            load_states@,
            0,
        ),
        final(asset_load_state).loaded_handles@ == old(asset_load_state).loaded_handles@
            + newly_loaded(old(asset_load_state).handles@, load_states@, 0),
{
    if asset_load_state.handles.len() == 0 {
        assert(asset_load_state.loaded_handles@ + Seq::<u64>::empty()
            =~= asset_load_state.loaded_handles@);
        return true;
    }
    let ghost handles = asset_load_state.handles@;
    let ghost loaded = asset_load_state.loaded_handles@;
    let mut i: usize = asset_load_state.handles.len();
    assert(asset_load_state.handles@ =~= handles.subrange(0, i as int) + still_awaited(
        handles,
        load_states@,
        i as int,
    ));
    assert(asset_load_state.loaded_handles@ =~= loaded + newly_loaded(
        handles,
        load_states@,
        i as int,
    ));
    while i > 0
        invariant
            i <= handles.len(),
            asset_load_state.handles@ == handles.subrange(0, i as int) + still_awaited(
                handles,
                load_states@,
                i as int,
            ),
            asset_load_state.loaded_handles@ == loaded + newly_loaded(
                handles,
                load_states@,
                i as int,
            ),
        decreases i,
    {
        i -= 1;
        let arrived = i < load_states.len() && matches!(load_states[i], LoadState::Loaded);
        assert(arrived == has_arrived(load_states@, i as int));
        if arrived {
            let loaded_handle = asset_load_state.handles.remove(i);
            asset_load_state.loaded_handles.push(loaded_handle);
        }
        assert(asset_load_state.handles@ =~= handles.subrange(0, i as int) + still_awaited(
            handles,
            load_states@,
            i as int,
        ));
        assert(asset_load_state.loaded_handles@ =~= loaded + newly_loaded(
            handles,
            load_states@,
            i as int,
        ));
    }
    assert(handles.subrange(0, 0) + still_awaited(handles, load_states@, 0) =~= still_awaited(
        handles,
        load_states@,
        0,
    ));
    false
}

/// A step of waiting loses no handle and makes none: what stays awaited
/// and what has arrived are together as many as were awaited.
pub proof fn lemma_every_handle_is_kept(handles: Seq<u64>, load_states: Seq<LoadState>, from: int)
    requires
        0 <= from <= handles.len(),
    ensures
        still_awaited(handles, load_states, from).len() + newly_loaded(
            handles,
            load_states,
            from,
        ).len() == handles.len() - from,
    decreases handles.len() - from,
{
    if from < handles.len() {
        lemma_every_handle_is_kept(handles, load_states, from + 1);
    }
}

} // verus!
