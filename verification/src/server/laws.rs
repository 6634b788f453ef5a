//! What holds of the server over many steps.

use crate::messages::{ClientMessage, Input, Kill, ProcessSequenceId};
use crate::messages::{psid_text, ServerMessage, Spawn};
use crate::results::{first_failure, law_first_failure};
use crate::server::{announces, child, command_text, display_command, drain_outcome, drain_result};
use crate::server::{fails, follows, goes_on, killed, maybe_kill, Server};
use crate::server::{stdin_next, stdin_step, stdout_next, stdout_step};
use crate::server::{Drained, Error, Event, Phase, ServerState, Work};
use crate::wire::{lemma_read_task, lemma_write_task, read_task_run, write_task_run, DecodeError};
use crate::wire::{Flow, ReadErrorKind, ReadEvent, ReadWork, WriteEvent, WriteWork};
use std::ops::ControlFlow;
use vstd::multiset::Multiset;
use vstd::prelude::*;
use vstd::string::*;
use vstd::utf8::*;

verus! {

/// One step of a server.
pub struct Step<C, E> {
    pub pre: ServerState<C>,
    pub event: Event<C, E>,
    pub post: ServerState<C>,
    pub flow: Flow<Work<C>, Error<E>>,
}

/// The steps of a server from its start.
pub open spec fn is_run<C, E>(steps: Seq<Step<C, E>>) -> bool {
    &&& forall|i: int|
        0 <= i < steps.len() ==> {
            let step = #[trigger] steps[i];
            follows(step.pre, step.event, step.post, step.flow)
        }
    &&& forall|i: int|
        0 <= i < steps.len() ==> (#[trigger] steps[i]).pre == state_after(steps.take(i))
}

/// The state of a server after these steps.
pub open spec fn state_after<C, E>(steps: Seq<Step<C, E>>) -> ServerState<C> {
    if steps.len() == 0 {
        ServerState::initial()
    } else {
        steps.last().post
    }
}

proof fn lemma_run_before<C, E>(steps: Seq<Step<C, E>>)
    requires
        is_run(steps),
        steps.len() > 0,
    ensures
        is_run(steps.drop_last()),
        steps.last().pre == state_after(steps.drop_last()),
{
    let before = steps.drop_last();
    assert forall|i: int| 0 <= i < before.len() implies (#[trigger] before[i]).pre == state_after(
        before.take(i),
    ) by {
        assert(before.take(i) =~= steps.take(i));
        assert(before[i] == steps[i]);
    }
    assert(steps.take(steps.len() - 1) =~= before);
    assert(steps[steps.len() - 1].pre == state_after(steps.take(steps.len() - 1)));
}

/// The children of a map, as many times as they occur, up to a key.
pub open spec fn owned_below<C>(children: Map<u32, C>, n: nat) -> Multiset<C>
    decreases n,
{
    if n == 0 {
        Multiset::empty()
    } else {
        let below = owned_below(children, (n - 1) as nat);
        let key = (n - 1) as u32;
        if children.contains_key(key) {
            below.insert(children[key])
        } else {
            below
        }
    }
}

/// The children of a map, as many times as they occur.
pub open spec fn owned<C>(children: Map<u32, C>) -> Multiset<C> {
    owned_below(children, 0x1_0000_0000)
}

/// The child that the server is given.
pub open spec fn received<C, E>(event: Event<C, E>) -> Multiset<C> {
    match event {
        Event::Spawned(Ok(child)) => Multiset::singleton(child),
        _ => Multiset::empty(),
    }
}

/// The children that the server hands out to be shut down.
pub open spec fn handed_out<C, E>(flow: Flow<Work<C>, Error<E>>) -> Multiset<C> {
    match flow {
        ControlFlow::Continue(Work::ShutDown(child)) => Multiset::singleton(child),
        ControlFlow::Continue(Work::Drain(children)) => children@.to_multiset(),
        _ => Multiset::empty(),
    }
}

/// The children that the server is given in these steps.
pub open spec fn all_received<C, E>(steps: Seq<Step<C, E>>) -> Multiset<C>
    decreases steps.len(),
{
    if steps.len() == 0 {
        Multiset::empty()
    } else {
        all_received(steps.drop_last()).add(received(steps.last().event))
    }
}

/// The children that the server hands out in these steps.
pub open spec fn all_handed_out<C, E>(steps: Seq<Step<C, E>>) -> Multiset<C>
    decreases steps.len(),
{
    if steps.len() == 0 {
        Multiset::empty()
    } else {
        all_handed_out(steps.drop_last()).add(handed_out(steps.last().flow))
    }
}

proof fn lemma_owned_agree<C>(a: Map<u32, C>, b: Map<u32, C>, n: nat)
    requires
        n <= 0x1_0000_0000,
        forall|k: u32|
            k < n ==> {
                &&& a.contains_key(k) == #[trigger] b.contains_key(k)
                &&& a.contains_key(k) ==> a[k] == b[k]
            },
    ensures
        owned_below(a, n) == owned_below(b, n),
    decreases n,
{
    if n > 0 {
        lemma_owned_agree(a, b, (n - 1) as nat);
        let key = (n - 1) as u32;
        assert(key < n && a.contains_key(key) == b.contains_key(key));
    }
}

proof fn lemma_owned_remove<C>(children: Map<u32, C>, key: u32, n: nat)
    requires
        key < n <= 0x1_0000_0000,
        children.contains_key(key),
    ensures
        owned_below(children, n) == owned_below(children.remove(key), n).insert(children[key]),
    decreases n,
{
    let rest = children.remove(key);
    if n - 1 == key {
        lemma_owned_agree(children, rest, (n - 1) as nat);
    } else {
        lemma_owned_remove(children, key, (n - 1) as nat);
        let last = (n - 1) as u32;
        assert(rest.contains_key(last) == children.contains_key(last));
        if children.contains_key(last) {
            assert(owned_below(children, n) =~= owned_below(rest, n).insert(children[key]));
        }
    }
}

proof fn lemma_owned_insert<C>(children: Map<u32, C>, key: u32, child: C)
    ensures
        owned(children.insert(key, child)) == owned(children.remove(key)).insert(child),
{
    let after = children.insert(key, child);
    lemma_owned_remove(after, key, 0x1_0000_0000);
    assert(after.remove(key) =~= children.remove(key));
}

proof fn lemma_owned_empty<C>(n: nat)
    ensures
        owned_below(Map::<u32, C>::empty(), n) == Multiset::<C>::empty(),
    decreases n,
{
    if n > 0 {
        lemma_owned_empty::<C>((n - 1) as nat);
    }
}

proof fn lemma_owned_values<C>(children: Map<u32, C>, keys: Seq<u32>)
    requires
        keys.to_set() == children.dom(),
        forall|i: int, j: int| 0 <= i < j < keys.len() ==> keys[i] < keys[j],
    ensures
        keys.map_values(|k: u32| children[k]).to_multiset() == owned(children),
    decreases keys.len(),
{
    broadcast use vstd::seq_lib::group_to_multiset_ensures;

    let values = keys.map_values(|k: u32| children[k]);
    if keys.len() == 0 {
        assert(children =~= Map::<u32, C>::empty()) by {
            assert forall|k: u32| !children.contains_key(k) by {
                assert(keys.to_set().contains(k) == keys.contains(k));
            }
        }
        lemma_owned_empty::<C>(0x1_0000_0000);
        assert(values =~= Seq::<C>::empty());
        assert(values.to_multiset() =~= Multiset::<C>::empty());
    } else {
        let key = keys.last();
        let rest = children.remove(key);
        let before = keys.drop_last();
        assert(children.contains_key(key)) by {
            assert(keys.to_set().contains(key));
        }
        assert(before.to_set() =~= rest.dom()) by {
            assert forall|k: u32| before.to_set().contains(k) <==> rest.dom().contains(k) by {
                if before.contains(k) {
                    let i = choose|i: int| 0 <= i < before.len() && before[i] == k;
                    assert(keys[i] == k && keys[i] < keys[keys.len() - 1]);
                    assert(keys.to_set().contains(k));
                }
                if rest.contains_key(k) {
                    assert(keys.to_set().contains(k));
                    let i = choose|i: int| 0 <= i < keys.len() && keys[i] == k;
                    assert(before[i] == k);
                }
            }
        }
        lemma_owned_values(rest, before);
        lemma_owned_remove(children, key, 0x1_0000_0000);
        let rest_values = before.map_values(|k: u32| rest[k]);
        assert forall|i: int| 0 <= i < before.len() implies rest_values[i] == values[i] by {
            assert(keys[i] < keys[keys.len() - 1]);
        }
        assert(values =~= rest_values.push(children[key]));
    }
}

/// One step neither loses nor makes up a child: those that the server had and was given are those
/// that it has and hands out.
pub proof fn law_step_keeps_children<C, E>(
    pre: ServerState<C>,
    event: Event<C, E>,
    post: ServerState<C>,
    flow: Flow<Work<C>, Error<E>>,
)
    requires
        follows(pre, event, post, flow),
    ensures
        owned(pre.children).add(received(event)) == owned(post.children).add(handed_out(flow)),
{
    match (pre.phase, event) {
        (Phase::Listening, Event::Message(Some(ServerMessage::Kill(kill)))) => {
            let key = kill.psid.0;
            if pre.children.contains_key(key) {
                lemma_owned_remove(pre.children, key, 0x1_0000_0000);
            } else {
                assert(pre.children.remove(key) =~= pre.children);
            }
        },
        (Phase::Listening, Event::Message(None)) => {
            if let ControlFlow::Continue(Work::Drain(children)) = flow {
                let keys = choose|keys: Seq<u32>|
                    {
                        &&& #[trigger] keys.to_set() == pre.children.dom()
                        &&& forall|i: int, j: int| 0 <= i < j < keys.len() ==> keys[i] < keys[j]
                        &&& children@ == keys.map_values(|k: u32| pre.children[k])
                    };
                lemma_owned_values(pre.children, keys);
            }
            lemma_owned_empty::<C>(0x1_0000_0000);
        },
        (Phase::Spawning(psid), Event::Spawned(Ok(child))) => {
            lemma_owned_insert(pre.children, psid.0, child);
            if pre.children.contains_key(psid.0) {
                lemma_owned_remove(pre.children, psid.0, 0x1_0000_0000);
            } else {
                assert(pre.children.remove(psid.0) =~= pre.children);
            }
        },
        _ => {},
    }
    assert(owned(pre.children).add(received(event)) =~= owned(post.children).add(handed_out(flow)));
}

/// No child is lost and none is shut down twice: at any time, the children that were ever started
/// are those that are running and those that were handed out to be shut down.
pub proof fn law_children_are_kept<C, E>(steps: Seq<Step<C, E>>)
    requires
        is_run(steps),
    ensures
        all_received(steps) == owned(state_after(steps).children).add(all_handed_out(steps)),
    decreases steps.len(),
{
    if steps.len() == 0 {
        lemma_owned_empty::<C>(0x1_0000_0000);
        assert(all_received(steps) =~= owned(state_after(steps).children).add(
            all_handed_out(steps),
        ));
    } else {
        let before = steps.drop_last();
        let last = steps.last();
        lemma_run_before(steps);
        law_children_are_kept(before);
        assert(steps[steps.len() - 1] == last);
        law_step_keeps_children(last.pre, last.event, last.post, last.flow);
        let (kept, gone) = (owned(last.pre.children), all_handed_out(before));
        assert(all_received(steps) =~= kept.add(received(last.event)).add(gone));
        assert(all_received(steps) =~= owned(last.post.children).add(all_handed_out(steps)));
    }
}

/// A server that ends well, or is about to end because the client has gone away, has handed out
/// every child that was ever started to be shut down.
pub proof fn law_drain_leaves_no_child<C, E>(steps: Seq<Step<C, E>>)
    requires
        is_run(steps),
        steps.len() > 0,
        state_after(steps).phase == Phase::Draining || steps.last().flow == ControlFlow::<
            Result<(), Error<E>>,
            Work<C>,
        >::Break(Ok(())),
    ensures
        all_handed_out(steps) == all_received(steps),
{
    law_children_are_kept(steps);
    lemma_run_before(steps);
    assert(steps[steps.len() - 1] == steps.last());
    if steps.last().pre.phase == Phase::Draining {
        let before = steps.drop_last();
        lemma_run_before(before);
        assert(before[before.len() - 1] == before.last());
    }
    lemma_owned_empty::<C>(0x1_0000_0000);
    assert(all_handed_out(steps) =~= all_received(steps));
}

/// The ids under which processes were started in these steps, in order.
pub open spec fn started_ids<C, E>(steps: Seq<Step<C, E>>) -> Seq<ProcessSequenceId>
    decreases steps.len(),
{
    if steps.len() == 0 {
        seq![]
    } else {
        let before = started_ids(steps.drop_last());
        match (steps.last().pre.phase, steps.last().event) {
            (Phase::Spawning(psid), Event::Spawned(Ok(_))) => before.push(psid),
            _ => before,
        }
    }
}

/// The ids of which the client was told in these steps that the child has started, in order.
pub open spec fn announced_ids<C, E>(steps: Seq<Step<C, E>>) -> Seq<ProcessSequenceId>
    decreases steps.len(),
{
    if steps.len() == 0 {
        seq![]
    } else {
        let before = announced_ids(steps.drop_last());
        match steps.last().flow {
            ControlFlow::Continue(Work::Announce(ClientMessage::ChildStarted(started))) => {
                before.push(started.psid)
            },
            _ => before,
        }
    }
}

/// Every start of a child is announced to the client, once, in order, and before the server
/// listens for another message; and nothing else is announced. Only the child that takes the place
/// of another is announced later, once the other is shut down, and never where that fails.
pub proof fn law_starts_are_announced<C, E>(steps: Seq<Step<C, E>>)
    requires
        is_run(steps),
    ensures
        ({
            let (started, announced) = (started_ids(steps), announced_ids(steps));
            match state_after(steps).phase {
                Phase::Replacing(psid) => started == announced.push(psid),
                Phase::Exited => match steps.last().pre.phase {
                    Phase::Replacing(psid) => started == announced.push(psid),
                    _ => started == announced,
                },
                _ => started == announced,
            }
        }),
    decreases steps.len(),
{
    if steps.len() > 0 {
        let before = steps.drop_last();
        lemma_run_before(steps);
        law_starts_are_announced(before);
        assert(steps[steps.len() - 1] == steps.last());
        if let Phase::Replacing(psid) = steps.last().pre.phase {
            assert(announced_ids(before).push(psid).drop_last() =~= announced_ids(before));
        }
    }
}

/// A process started under an id that is free runs under it, and the client is told.
pub proof fn law_spawn<C, E>(
    s0: ServerState<C>,
    spawn: Spawn,
    s1: ServerState<C>,
    f1: Flow<Work<C>, Error<E>>,
    child: C,
    s2: ServerState<C>,
    f2: Flow<Work<C>, Error<E>>,
)
    requires
        s0.phase == Phase::Listening,
        !s0.children.contains_key(spawn.psid.0),
        follows(s0, Event::<C, E>::Message(Some(ServerMessage::Spawn(spawn))), s1, f1),
        follows(s1, Event::<C, E>::Spawned(Ok(child)), s2, f2),
    ensures
        f1 == goes_on::<C, E>(Work::Spawn(spawn)),
        f2 == announces::<C, E>(spawn.psid),
        s2.children == s0.children.insert(spawn.psid.0, child),
{
}

/// A process started under the id of a running child takes its place: the old child is shut down,
/// and then the client is told that the new one has started.
pub proof fn law_spawn_replaces<C, E>(
    s0: ServerState<C>,
    spawn: Spawn,
    s1: ServerState<C>,
    f1: Flow<Work<C>, Error<E>>,
    child: C,
    s2: ServerState<C>,
    f2: Flow<Work<C>, Error<E>>,
    s3: ServerState<C>,
    f3: Flow<Work<C>, Error<E>>,
)
    requires
        s0.phase == Phase::Listening,
        s0.children.contains_key(spawn.psid.0),
        follows(s0, Event::<C, E>::Message(Some(ServerMessage::Spawn(spawn))), s1, f1),
        follows(s1, Event::<C, E>::Spawned(Ok(child)), s2, f2),
        follows(s2, Event::<C, E>::ShutDown(Ok(())), s3, f3),
    ensures
        f1 == goes_on::<C, E>(Work::Spawn(spawn)),
        f2 == goes_on::<C, E>(Work::ShutDown(s0.children[spawn.psid.0])),
        f3 == announces::<C, E>(spawn.psid),
        s3.children == s0.children.insert(spawn.psid.0, child),
{
}

/// Input for an id under which no child runs ends the server with a failure that names the id.
pub proof fn law_input_needs_a_child<C, E>(
    pre: ServerState<C>,
    input: Input,
    post: ServerState<C>,
    flow: Flow<Work<C>, Error<E>>,
)
    requires
        pre.phase == Phase::Listening,
        follows(pre, Event::<C, E>::Message(Some(ServerMessage::Input(input))), post, flow),
    ensures
        pre.children.contains_key(input.psid.0) ==> flow == goes_on::<C, E>(Work::Relay(input)),
        !pre.children.contains_key(input.psid.0) ==> flow == fails::<C, E>(
            Error::ChildNotRunning { psid: input.psid },
        ),
        post.children == pre.children,
{
}

/// A kill takes the child out at once: after it, and after the shutdown that it asks for if a
/// child was running, input for the id is refused, and another kill of it is ignored.
pub proof fn law_kill<C, E>(
    s0: ServerState<C>,
    kill: Kill,
    s1: ServerState<C>,
    f1: Flow<Work<C>, Error<E>>,
    s2: ServerState<C>,
    f2: Flow<Work<C>, Error<E>>,
)
    requires
        s0.phase == Phase::Listening,
        follows(s0, Event::<C, E>::Message(Some(ServerMessage::Kill(kill))), s1, f1),
        if s0.children.contains_key(kill.psid.0) {
            follows(s1, Event::<C, E>::ShutDown(Ok(())), s2, f2)
        } else {
            s2 == s1 && f2 == f1
        },
    ensures
        s0.children.contains_key(kill.psid.0) ==> f1 == goes_on::<C, E>(
            Work::ShutDown(s0.children[kill.psid.0]),
        ),
        f2 == goes_on::<C, E>(Work::Receive),
        s2.phase == Phase::Listening,
        s2.children == s0.children.remove(kill.psid.0),
        forall|input: Input, s3: ServerState<C>, f3: Flow<Work<C>, Error<E>>|
            input.psid == kill.psid && #[trigger] follows(
                s2,
                Event::<C, E>::Message(Some(ServerMessage::Input(input))),
                s3,
                f3,
            ) ==> f3 == fails::<C, E>(Error::ChildNotRunning { psid: kill.psid }),
        forall|s3: ServerState<C>, f3: Flow<Work<C>, Error<E>>| #[trigger]
            follows(s2, Event::<C, E>::Message(Some(ServerMessage::Kill(kill))), s3, f3) ==> s3
                == s2 && f3 == goes_on::<C, E>(Work::Receive),
{
    assert forall|s3: ServerState<C>, f3: Flow<Work<C>, Error<E>>| #[trigger]
        follows(s2, Event::<C, E>::Message(Some(ServerMessage::Kill(kill))), s3, f3) implies s3
        == s2 && f3 == goes_on::<C, E>(Work::Receive) by {
        assert(s2.children.remove(kill.psid.0) =~= s2.children);
    }
}

/// Until the client goes away, a step leaves every child alone but the one that it is about.
pub proof fn law_other_children_stay<C, E>(
    pre: ServerState<C>,
    event: Event<C, E>,
    post: ServerState<C>,
    flow: Flow<Work<C>, Error<E>>,
    other: ProcessSequenceId,
)
    requires
        follows(pre, event, post, flow),
        !(event matches Event::Message(None)),
        pre.phase != Phase::Spawning(other),
        event matches Event::Message(Some(ServerMessage::Kill(kill))) ==> kill.psid != other,
    ensures
        post.children.contains_key(other.0) == pre.children.contains_key(other.0),
        pre.children.contains_key(other.0) ==> post.children[other.0] == pre.children[other.0],
{
}

/// A drained server succeeds exactly where every child was shut down without a failure and both
/// tasks were joined and succeeded.
pub proof fn law_drain_needs_everything<E>(drained: Drained<E>)
    ensures
        drain_outcome(drained) is Ok <==> {
            &&& forall|i: int|
                0 <= i < drained.children@.len() ==> #[trigger] drained.children@[i] is Ok
            &&& drained.stdout_task matches Ok(Ok(()))
            &&& drained.stdin_task matches Ok(Ok(()))
        },
{
    law_first_failure(drained.children@);
}

/// The numbers of the ids of the children that were started in these steps and not killed since.
pub open spec fn running<C, E>(steps: Seq<Step<C, E>>) -> Set<u32>
    decreases steps.len(),
{
    if steps.len() == 0 {
        Set::empty()
    } else {
        let before = running(steps.drop_last());
        match (steps.last().pre.phase, steps.last().event) {
            (Phase::Spawning(psid), Event::Spawned(Ok(_))) => before.insert(psid.0),
            (_, Event::Message(Some(ServerMessage::Kill(kill)))) => before.remove(kill.psid.0),
            (_, Event::Message(None)) => Set::empty(),
            _ => before,
        }
    }
}

/// The server knows exactly the children that were started and not killed since. So it is for
/// these, and no others, that it takes input.
pub proof fn law_started_children_run_until_killed<C, E>(steps: Seq<Step<C, E>>)
    requires
        is_run(steps),
    ensures
        state_after(steps).children.dom() == running(steps),
    decreases steps.len(),
{
    if steps.len() > 0 {
        lemma_run_before(steps);
        law_started_children_run_until_killed(steps.drop_last());
        assert(steps[steps.len() - 1] == steps.last());
    }
    assert(state_after(steps).children.dom() =~= running(steps));
}

/// The children that the client's requests leave running in these steps, by the number of their id:
/// a process that was started runs under the id of the request before it, until it is replaced or
/// killed, or the client goes away.
pub open spec fn requested_children<C, E>(steps: Seq<Step<C, E>>) -> Map<u32, C>
    decreases steps.len(),
{
    if steps.len() == 0 {
        Map::empty()
    } else {
        let before = requested_children(steps.drop_last());
        match steps.last().event {
            Event::Spawned(Ok(child)) => match steps[steps.len() - 2].event {
                Event::Message(Some(ServerMessage::Spawn(spawn))) => {
                    before.insert(spawn.psid.0, child)
                },
                _ => before,
            },
            Event::Message(Some(ServerMessage::Kill(kill))) => before.remove(kill.psid.0),
            Event::Message(None) => Map::empty(),
            _ => before,
        }
    }
}

/// What came before an outcome that the server waits for.
proof fn lemma_phase_comes_from<C, E>(steps: Seq<Step<C, E>>)
    requires
        is_run(steps),
    ensures
        ({
            let n = steps.len() as int;
            match state_after(steps).phase {
                Phase::Listening => true,
                Phase::Spawning(psid) => {
                    &&& n > 0
                    &&& steps[n - 1].event matches Event::Message(Some(ServerMessage::Spawn(spawn)))
                    &&& spawn.psid == psid
                },
                Phase::Replacing(psid) => {
                    &&& n > 1
                    &&& steps[n - 1].event matches Event::Spawned(Ok(_))
                    &&& steps[n - 2].event matches Event::Message(Some(ServerMessage::Spawn(spawn)))
                    &&& spawn.psid == psid
                },
                Phase::Killing(psid) => {
                    &&& n > 0
                    &&& steps[n - 1].event matches Event::Message(Some(ServerMessage::Kill(kill)))
                    &&& kill.psid == psid
                },
                _ => n > 0,
            }
        }),
{
    if steps.len() > 0 {
        let before = steps.drop_last();
        lemma_run_before(steps);
        assert(steps[steps.len() - 1] == steps.last());
        if let Phase::Spawning(_) = steps.last().pre.phase {
            lemma_run_before(before);
            assert(before[before.len() - 1] == before.last());
            assert(steps[steps.len() - 2] == before.last());
        }
    }
}

/// The server knows exactly the children that the client's requests leave running, each by the id
/// of the request that it was started for.
pub proof fn law_children_are_those_requested<C, E>(steps: Seq<Step<C, E>>)
    requires
        is_run(steps),
    ensures
        state_after(steps).children == requested_children(steps),
    decreases steps.len(),
{
    if steps.len() > 0 {
        let before = steps.drop_last();
        lemma_run_before(steps);
        law_children_are_those_requested(before);
        lemma_phase_comes_from(before);
        assert(steps[steps.len() - 1] == steps.last());
        if before.len() > 0 {
            assert(steps[steps.len() - 2] == before[before.len() - 1]);
        }
    }
    assert(state_after(steps).children =~= requested_children(steps));
}

/// Every request of the client is taken up at once, whatever it holds. A process is started for
/// every spawn. A kill shuts down the child that runs under the id, and is ignored where there is
/// none. Input goes as it is to the child that runs under the id, and ends the server where there
/// is none. The end of the requests shuts down every running child, in the order of the ids.
pub proof fn law_requests_are_taken_up<C, E>(steps: Seq<Step<C, E>>)
    requires
        is_run(steps),
        steps.len() > 0,
    ensures
        ({
            let children = requested_children(steps.drop_last());
            let flow = steps.last().flow;
            match steps.last().event {
                Event::Message(Some(ServerMessage::Spawn(spawn))) => {
                    flow matches ControlFlow::Continue(Work::Spawn(asked)) && asked == spawn
                },
                Event::Message(Some(ServerMessage::Kill(kill))) => {
                    if children.contains_key(kill.psid.0) {
                        &&& flow matches ControlFlow::Continue(Work::ShutDown(child))
                        &&& child == children[kill.psid.0]
                    } else {
                        flow matches ControlFlow::Continue(Work::Receive)
                    }
                },
                Event::Message(Some(ServerMessage::Input(input))) => {
                    if children.contains_key(input.psid.0) {
                        flow matches ControlFlow::Continue(Work::Relay(relayed)) && relayed == input
                    } else {
                        &&& flow matches ControlFlow::Break(Err(Error::ChildNotRunning { psid }))
                        &&& psid == input.psid
                    }
                },
                Event::Message(None) => {
                    &&& flow matches ControlFlow::Continue(Work::Drain(drained))
                    &&& exists|keys: Seq<u32>|
                        {
                            &&& #[trigger] keys.to_set() == children.dom()
                            &&& forall|i: int, j: int|
                                0 <= i < j < keys.len() ==> keys[i] < keys[j]
                            &&& drained@.len() == keys.len()
                            &&& forall|i: int|
                                0 <= i < keys.len() ==> #[trigger] drained@[i] == children[keys[i]]
                        }
                },
                _ => true,
            }
        }),
{
    let before = steps.drop_last();
    lemma_run_before(steps);
    law_children_are_those_requested(before);
    assert(steps[steps.len() - 1] == steps.last());
    if let Event::Message(None) = steps.last().event {
        if let ControlFlow::Continue(Work::Drain(drained)) = steps.last().flow {
            let children = requested_children(before);
            let keys = choose|keys: Seq<u32>|
                {
                    &&& #[trigger] keys.to_set() == children.dom()
                    &&& forall|i: int, j: int| 0 <= i < j < keys.len() ==> keys[i] < keys[j]
                    &&& drained@ == keys.map_values(|k: u32| children[k])
                };
            assert(keys.to_set() == children.dom());
            assert(forall|i: int|
                0 <= i < keys.len() ==> #[trigger] drained@[i] == children[keys[i]]);
        }
    }
}

/// What was asked for and went well leads on. A process that was started is announced under the id
/// of its request; where a child ran under that id, it is first shut down. After a kill, an
/// announcement or input the server receives the next request.
pub proof fn law_successes_lead_on<C, E>(steps: Seq<Step<C, E>>)
    requires
        is_run(steps),
        steps.len() > 0,
    ensures
        ({
            let n = steps.len() as int;
            let children = requested_children(steps.drop_last());
            let flow = steps.last().flow;
            match steps.last().event {
                Event::Spawned(Ok(_)) => {
                    &&& n > 1
                    &&& steps[n - 2].event matches Event::Message(Some(ServerMessage::Spawn(spawn)))
                    &&& if children.contains_key(spawn.psid.0) {
                        &&& flow matches ControlFlow::Continue(Work::ShutDown(child))
                        &&& child == children[spawn.psid.0]
                    } else {
                        &&& flow matches ControlFlow::Continue(
                            Work::Announce(ClientMessage::ChildStarted(started)),
                        )
                        &&& started.psid == spawn.psid
                    }
                },
                Event::ShutDown(Ok(())) => {
                    &&& n > 1
                    &&& match steps[n - 2].event {
                        Event::Message(Some(ServerMessage::Kill(_))) => {
                            flow matches ControlFlow::Continue(Work::Receive)
                        },
                        _ => {
                            &&& n > 2
                            &&& steps[n - 3].event matches Event::Message(
                                Some(ServerMessage::Spawn(spawn)),
                            )
                            &&& flow matches ControlFlow::Continue(
                                Work::Announce(ClientMessage::ChildStarted(started)),
                            )
                            &&& started.psid == spawn.psid
                        },
                    }
                },
                Event::Announced(Ok(())) => flow matches ControlFlow::Continue(Work::Receive),
                Event::Relayed(Ok(())) => flow matches ControlFlow::Continue(Work::Receive),
                _ => true,
            }
        }),
{
    let before = steps.drop_last();
    lemma_run_before(steps);
    law_children_are_those_requested(before);
    lemma_phase_comes_from(before);
    assert(steps[steps.len() - 1] == steps.last());
    assert(forall|i: int| 0 <= i < before.len() ==> before[i] == #[trigger] steps[i]);
}

/// No failure is passed over, whatever it is: it ends the server at once, with an error that says
/// what had been asked for, holds the failure itself and names the id of the request. Nothing is
/// waited for after it.
pub proof fn law_failures_end_the_server<C, E>(steps: Seq<Step<C, E>>)
    requires
        is_run(steps),
        steps.len() > 0,
    ensures
        ({
            let n = steps.len() as int;
            let flow = steps.last().flow;
            match steps.last().event {
                Event::Spawned(Err(e)) => {
                    &&& flow matches ControlFlow::Break(Err(Error::UnableToSpawnChild { source }))
                    &&& source == e
                },
                Event::ShutDown(Err(e)) => {
                    &&& n > 1
                    &&& match steps[n - 2].event {
                        Event::Message(Some(ServerMessage::Kill(kill))) => {
                            &&& flow matches ControlFlow::Break(
                                Err(Error::UnableToKillChild { source, psid }),
                            )
                            &&& source == e
                            &&& psid == kill.psid
                        },
                        _ => {
                            &&& n > 2
                            &&& steps[n - 3].event matches Event::Message(
                                Some(ServerMessage::Spawn(spawn)),
                            )
                            &&& flow matches ControlFlow::Break(
                                Err(Error::UnableToKillReplacedChild { source, psid }),
                            )
                            &&& source == e
                            &&& psid == spawn.psid
                        },
                    }
                },
                Event::Announced(Err(e)) => {
                    &&& flow matches ControlFlow::Break(
                        Err(Error::UnableToRelayChildStartedToClient { source }),
                    )
                    &&& source == e
                },
                Event::Relayed(Err(e)) => {
                    &&& flow matches ControlFlow::Break(
                        Err(Error::UnableToRelayInputToChild { source }),
                    )
                    &&& source == e
                },
                _ => true,
            }
        }),
        steps.last().flow is Break ==> forall|event: Event<C, E>| !#[trigger]
            state_after(steps).awaits(event),
{
    let before = steps.drop_last();
    lemma_run_before(steps);
    lemma_phase_comes_from(before);
    assert(steps[steps.len() - 1] == steps.last());
    assert(forall|i: int| 0 <= i < before.len() ==> before[i] == #[trigger] steps[i]);
}

/// The server ends only for a reason: a failure that came up, input for a child that does not run,
/// or that everything is drained after the client has gone away.
pub proof fn law_server_ends_for_a_reason<C, E>(steps: Seq<Step<C, E>>)
    requires
        is_run(steps),
        steps.len() > 0,
        steps.last().flow is Break,
    ensures
        match steps.last().event {
            Event::Spawned(spawned) => spawned is Err,
            Event::ShutDown(shut_down) => shut_down is Err,
            Event::Announced(announced) => announced is Err,
            Event::Relayed(relayed) => relayed is Err,
            Event::Message(Some(ServerMessage::Input(input))) => {
                !requested_children(steps.drop_last()).contains_key(input.psid.0)
            },
            Event::Message(_) => false,
            Event::Drained(_) => {
                &&& steps.len() > 1
                &&& steps[steps.len() - 2].event matches Event::Message(None)
            },
        },
{
    let before = steps.drop_last();
    lemma_run_before(steps);
    law_children_are_those_requested(before);
    assert(steps[steps.len() - 1] == steps.last());
    if before.len() > 0 {
        lemma_run_before(before);
        assert(before[before.len() - 1] == before.last());
        assert(steps[steps.len() - 2] == before.last());
    }
}

/// The server waits for the outcome of the work that it asked for last, whatever the outcome is,
/// and for nothing else; a server that has just started waits for a request.
pub proof fn law_server_awaits_the_outcome_of_its_work<C, E>(
    steps: Seq<Step<C, E>>,
    event: Event<C, E>,
)
    requires
        is_run(steps),
    ensures
        state_after(steps).awaits(event) <==> if steps.len() == 0 {
            event is Message
        } else {
            match steps.last().flow {
                ControlFlow::Continue(Work::Receive) => event is Message,
                ControlFlow::Continue(Work::Spawn(_)) => event is Spawned,
                ControlFlow::Continue(Work::ShutDown(_)) => event is ShutDown,
                ControlFlow::Continue(Work::Announce(_)) => event is Announced,
                ControlFlow::Continue(Work::Relay(_)) => event is Relayed,
                ControlFlow::Continue(Work::Drain(_)) => event is Drained,
                ControlFlow::Break(_) => false,
            }
        },
{
    if steps.len() > 0 {
        lemma_run_before(steps);
        assert(steps[steps.len() - 1] == steps.last());
    }
}

/// Every spawn that was taken up is answered before the next request is received: the start of a
/// child under its id is announced, or the server ends.
pub proof fn law_every_spawn_is_answered<C, E>(steps: Seq<Step<C, E>>, i: int, j: int, spawn: Spawn)
    requires
        is_run(steps),
        0 <= i < j < steps.len(),
        steps[i].event == Event::<C, E>::Message(Some(ServerMessage::Spawn(spawn))),
        steps[j].flow == ControlFlow::<Result<(), Error<E>>, Work<C>>::Continue(Work::Receive),
    ensures
        exists|k: int|
            {
                &&& i < k < j
                &&& (#[trigger] steps[k]).flow matches ControlFlow::Continue(
                    Work::Announce(ClientMessage::ChildStarted(started)),
                )
                &&& started.psid == spawn.psid
            },
{
    lemma_step_after(steps, i);
    if i + 2 < steps.len() {
        lemma_step_after(steps, i + 1);
    }
    if i + 3 < steps.len() {
        lemma_step_after(steps, i + 2);
    }
    let k = lemma_answer_comes_before(steps, i, j, spawn);
    assert(i < k < j);
}

/// Where the step is that answers a spawn.
proof fn lemma_answer_comes_before<C, E>(
    steps: Seq<Step<C, E>>,
    i: int,
    j: int,
    spawn: Spawn,
) -> (k: int)
    requires
        0 <= i < j < steps.len(),
        steps[i].event == Event::<C, E>::Message(Some(ServerMessage::Spawn(spawn))),
        steps[j].flow == ControlFlow::<Result<(), Error<E>>, Work<C>>::Continue(Work::Receive),
        are_linked(steps[i], steps[i + 1]),
        i + 2 < steps.len() ==> are_linked(steps[i + 1], steps[i + 2]),
        i + 3 < steps.len() ==> are_linked(steps[i + 2], steps[i + 3]),
    ensures
        i < k < j,
        steps[k].flow matches ControlFlow::Continue(
            Work::Announce(ClientMessage::ChildStarted(started)),
        ) && started.psid == spawn.psid,
{
    lemma_spawn_is_answered(steps[i], steps[i + 1], spawn);
    assert(j > i + 1);
    lemma_replacement_is_answered(steps[i], steps[i + 1], steps[i + 2], spawn);
    if steps[i + 1].flow matches ControlFlow::Continue(Work::Announce(_)) {
        i + 1
    } else {
        i + 2
    }
}

/// The start that a spawn asks for is announced, or the child in its place is shut down, or the
/// server ends.
proof fn lemma_spawn_is_answered<C, E>(asked: Step<C, E>, started: Step<C, E>, spawn: Spawn)
    requires
        are_linked(asked, started),
        asked.event == Event::<C, E>::Message(Some(ServerMessage::Spawn(spawn))),
    ensures
        match started.flow {
            ControlFlow::Continue(Work::Announce(ClientMessage::ChildStarted(told))) => told.psid
                == spawn.psid,
            ControlFlow::Continue(Work::ShutDown(_)) => started.post.phase == Phase::Replacing(
                spawn.psid,
            ),
            ControlFlow::Continue(_) => false,
            ControlFlow::Break(_) => started.post.phase == Phase::Exited,
        },
{
}

/// Once the child in the place of a new one is shut down, the start is announced, or the server
/// ends.
proof fn lemma_replacement_is_answered<C, E>(
    asked: Step<C, E>,
    started: Step<C, E>,
    replaced: Step<C, E>,
    spawn: Spawn,
)
    requires
        are_linked(asked, started),
        are_linked(started, replaced),
        asked.event == Event::<C, E>::Message(Some(ServerMessage::Spawn(spawn))),
    ensures
        started.flow is Continue,
        started.flow matches ControlFlow::Continue(Work::ShutDown(_)) ==> match replaced.flow {
            ControlFlow::Continue(Work::Announce(ClientMessage::ChildStarted(told))) => told.psid
                == spawn.psid,
            ControlFlow::Continue(_) => false,
            ControlFlow::Break(_) => replaced.post.phase == Phase::Exited,
        },
{
    lemma_spawn_is_answered(asked, started, spawn);
}

/// Two steps, the second of which goes on from where the first left the server.
spec fn are_linked<C, E>(first: Step<C, E>, second: Step<C, E>) -> bool {
    &&& follows(first.pre, first.event, first.post, first.flow)
    &&& follows(second.pre, second.event, second.post, second.flow)
    &&& second.pre == first.post
}

/// A step of a run goes on from where the one before it left the server.
proof fn lemma_step_after<C, E>(steps: Seq<Step<C, E>>, i: int)
    requires
        is_run(steps),
        0 <= i < steps.len() - 1,
    ensures
        are_linked(steps[i], steps[i + 1]),
{
    assert(steps.take(i + 1).last() == steps[i]);
    assert(steps[i + 1].pre == state_after(steps.take(i + 1)));
}

/// A drained server ends with the first failure there was: of the children in the order in which
/// they were handed out, then of the task for standard output, then of the one for standard input.
pub proof fn law_drain_reports_the_first_failure<E>(
    drained: Drained<E>,
    result: Result<(), Error<E>>,
)
    requires
        call_ensures(drain_result::<E>, (drained,), result),
    ensures
        forall|n: int|
            {
                &&& 0 <= n < drained.children@.len()
                &&& (#[trigger] drained.children@[n]) is Err
                &&& forall|i: int| 0 <= i < n ==> #[trigger] drained.children@[i] is Ok
            } ==> {
                &&& result matches Err(Error::UnableToShutdownChild { source })
                &&& drained.children@[n] == Err::<(), child::Error<E>>(source)
            },
        (forall|i: int| 0 <= i < drained.children@.len() ==> #[trigger] drained.children@[i] is Ok)
            ==> match (drained.stdout_task, drained.stdin_task) {
            (Err(e), _) => {
                result matches Err(Error::UnableToJoinStdoutTask { source }) && source == e
            },
            (Ok(Err(e)), _) => result == Err::<(), Error<E>>(e),
            (Ok(Ok(())), Err(e)) => {
                result matches Err(Error::UnableToJoinStdinTask { source }) && source == e
            },
            (Ok(Ok(())), Ok(Err(e))) => result == Err::<(), Error<E>>(e),
            (Ok(Ok(())), Ok(Ok(()))) => result is Ok,
        },
        result == drain_outcome(drained),
{
    law_first_failure(drained.children@);
    assert forall|n: int|
        {
            &&& 0 <= n < drained.children@.len()
            &&& (#[trigger] drained.children@[n]) is Err
            &&& forall|i: int| 0 <= i < n ==> #[trigger] drained.children@[i] is Ok
        } implies {
        &&& result matches Err(Error::UnableToShutdownChild { source })
        &&& drained.children@[n] == Err::<(), child::Error<E>>(source)
    } by {
        if let Some(e) = first_failure(drained.children@) {
            let m = choose|m: int|
                {
                    &&& 0 <= m < drained.children@.len()
                    &&& #[trigger] drained.children@[m] == Err::<(), child::Error<E>>(e)
                    &&& forall|i: int| 0 <= i < m ==> #[trigger] drained.children@[i] is Ok
                };
            assert(drained.children@[m] is Err);
            assert(m == n);
        }
    }
}

/// A server that has drained everything ends with what the draining came to.
pub proof fn law_drained_server_ends<C, E>(steps: Seq<Step<C, E>>, drained: Drained<E>)
    requires
        is_run(steps),
        steps.len() > 0,
        steps.last().event == Event::<C, E>::Drained(drained),
    ensures
        steps.last().flow matches ControlFlow::Break(end) && end == drain_outcome(drained),
{
    lemma_run_before(steps);
    assert(steps[steps.len() - 1] == steps.last());
}

/// The task for standard input relays to the server exactly the messages that were decoded, of
/// every kind, in order, none dropped, changed or made up; and it ends cleanly only where the
/// stream ended where a marker was due, and with a failure only where that failure came up.
pub proof fn law_stdin_relays_every_message<E>(
    rounds: Seq<(Result<ServerMessage, DecodeError<E>>, Result<(), E>)>,
)
    ensures
        ({
            let (relayed, end) = read_task_run(
                |event: ReadEvent<ServerMessage, E>| stdin_next(event),
                rounds,
            );
            let n = relayed.len() as int;
            &&& n <= rounds.len()
            &&& forall|i: int|
                0 <= i < n ==> ((#[trigger] rounds[i]).0 matches Ok(message) && relayed[i]
                    == message)
            &&& forall|i: int| 0 <= i < n - 1 ==> (#[trigger] rounds[i]).1 is Ok
            &&& match end {
                None => n == rounds.len() && (n > 0 ==> rounds[n - 1].1 is Ok),
                Some(Ok(())) => {
                    &&& n < rounds.len()
                    &&& rounds[n].0 matches Err(
                        DecodeError::InvalidMarkerRead { kind: ReadErrorKind::UnexpectedEof, .. },
                    )
                    &&& n > 0 ==> rounds[n - 1].1 is Ok
                },
                Some(Err(Error::UnableToDecodeServerMessage { source })) => {
                    &&& n < rounds.len()
                    &&& match rounds[n].0 {
                        Err(DecodeError::InvalidMarkerRead { kind, source: e }) => {
                            kind != ReadErrorKind::UnexpectedEof && source == e
                        },
                        Err(DecodeError::Other { source: e }) => source == e,
                        Ok(_) => false,
                    }
                    &&& n > 0 ==> rounds[n - 1].1 is Ok
                },
                Some(Err(Error::UnableToSendServerMessage { source })) => {
                    n > 0 && rounds[n - 1].1 == Err::<(), E>(source)
                },
                Some(Err(_)) => false,
            }
        }),
{
    lemma_read_task(
        |event: ReadEvent<ServerMessage, E>| stdin_next(event),
        |source: E| Error::UnableToDecodeServerMessage { source },
        |source: E| Error::UnableToSendServerMessage { source },
        rounds,
    );
}

/// The task for standard output writes exactly the messages for the client that it receives, of
/// every kind, in order, none dropped, changed or made up, and asks for a flush after each before
/// it receives the next; it ends cleanly only where there are no more, and with a failure only
/// where that write or that flush of the last message failed.
pub proof fn law_stdout_writes_every_message<E>(
    rounds: Seq<(Option<ClientMessage>, Result<(), E>, Result<(), E>)>,
)
    ensures
        ({
            let (written, flushes, end) = write_task_run(
                |event: WriteEvent<ClientMessage, E>| stdout_next(event),
                rounds,
            );
            let n = written.len() as int;
            &&& n <= rounds.len()
            &&& forall|i: int|
                0 <= i < n ==> ((#[trigger] rounds[i]).0 matches Some(message) && written[i]
                    == message)
            &&& forall|i: int|
                0 <= i < n - 1 ==> (#[trigger] rounds[i]).1 is Ok && rounds[i].2 is Ok
            &&& match end {
                None => {
                    &&& n == rounds.len()
                    &&& flushes == n
                    &&& n > 0 ==> rounds[n - 1].1 is Ok && rounds[n - 1].2 is Ok
                },
                Some(Ok(())) => {
                    &&& n < rounds.len()
                    &&& rounds[n].0 is None
                    &&& flushes == n
                    &&& n > 0 ==> rounds[n - 1].1 is Ok && rounds[n - 1].2 is Ok
                },
                Some(Err(Error::UnableToEncodeClientMessage { source })) => {
                    &&& n > 0
                    &&& rounds[n - 1].1 == Err::<(), E>(source)
                    &&& flushes == n - 1
                },
                Some(Err(Error::UnableToFlushClientMessage { source })) => {
                    &&& n > 0
                    &&& rounds[n - 1].1 is Ok
                    &&& rounds[n - 1].2 == Err::<(), E>(source)
                    &&& flushes == n
                },
                Some(Err(_)) => false,
            }
        }),
{
    lemma_write_task(
        |event: WriteEvent<ClientMessage, E>| stdout_next(event),
        |message: ClientMessage| message,
        |source: E| Error::UnableToEncodeClientMessage { source },
        |source: E| Error::UnableToFlushClientMessage { source },
        rounds,
    );
}

/// A child that is there is the one to shut down, and a kill has happened exactly where its
/// shutdown went well.
pub proof fn law_a_kill_shuts_down_its_child<C, E>(
    child: Option<C>,
    flow: ControlFlow<bool, C>,
    shut_down: Result<(), child::Error<E>>,
    result: Result<bool, child::Error<E>>,
)
    requires
        call_ensures(maybe_kill::<C>, (child,), flow),
        call_ensures(killed::<E>, (shut_down,), result),
    ensures
        child matches Some(c) ==> flow == ControlFlow::<bool, C>::Continue(c),
        child is None ==> flow == ControlFlow::<bool, C>::Break(false),
        shut_down is Ok ==> result == Ok::<bool, child::Error<E>>(true),
        shut_down matches Err(e) ==> result == Err::<bool, child::Error<E>>(e),
{
}

/// A command is shown as the text that its bytes encode, all of it; only one that is no text is
/// shown as a stand-in.
pub proof fn law_commands_are_shown_whole(command: &[u8], text: String)
    requires
        call_ensures(display_command, (command,), text),
    ensures
        valid_utf8(command@) ==> encode_utf8(text@) == command@,
        !valid_utf8(command@) ==> text@ == "<non-UTF-8 command>"@,
        text@ == command_text(command@),
{
    if valid_utf8(command@) {
        decode_utf8_encode_utf8(command@);
    }
}

/// What a failure of the server reads as. One with words of its own reads the same whatever is
/// behind it, and names the id that it is about; any other is its name and what is behind it.
pub proof fn law_server_failure_text<E>(
    e: Error<E>,
    source: &str,
    text: String,
    nested: Seq<char>,
)
    requires
        call_ensures(Error::<E>::to_text, (&e, source), text),
        e matches Error::UnableToShutdownChild { source: inner } ==> nested == inner.text(source@),
        e matches Error::UnableToSpawnChild { source: inner } ==> nested == inner.text(source@),
        e matches Error::UnableToRelayInputToChild { source: inner } ==> nested == inner.text(
            source@,
        ),
    ensures
        match e {
            Error::UnableToDecodeServerMessage { .. } => text@
                == "Could not decode the message from the client"@,
            Error::UnableToSendServerMessage { .. } => text@
                == "Could not transmit the client's message to core loop"@,
            Error::UnableToEncodeClientMessage { .. } => text@
                == "Could not encode the message to the client"@,
            Error::UnableToFlushClientMessage { .. } => text@
                == "Could not flush message to the client"@,
            Error::ChildNotRunning { psid } => text@ == "The child is not currently running ("@
                + psid_text(psid) + ")"@,
            Error::UnableToKillReplacedChild { psid, .. } => text@
                == "Could not kill the child process being replaced ("@ + psid_text(psid) + ")"@,
            Error::UnableToKillChild { psid, .. } => text@
                == "Could not kill the currently-running child process ("@ + psid_text(psid)
                + ")"@,
            Error::UnableToShutdownChild { .. } => text@ == "UnableToShutdownChild: "@ + nested,
            Error::UnableToSpawnChild { .. } => text@ == "UnableToSpawnChild: "@ + nested,
            Error::UnableToRelayChildStartedToClient { .. } => text@
                == "UnableToRelayChildStartedToClient: "@ + source@,
            Error::UnableToRelayInputToChild { .. } => text@ == "UnableToRelayInputToChild: "@
                + nested,
            Error::UnableToJoinStdinTask { .. } => text@ == "Could not join to the stdin task"@,
            Error::UnableToJoinStdoutTask { .. } => text@ == "Could not join to the stdout task"@,
        },
{
}

/// The outside failure behind a failure of the server is the one that it was made with, at whatever
/// depth; and there is none behind a failure that was made without one.
pub proof fn law_server_failure_keeps_its_source<E>(e: Error<E>, found: Option<&E>)
    requires
        call_ensures(Error::<E>::outside_source, (&e,), found),
    ensures
        ({
            let outside = match found {
                Some(found) => Some(*found),
                None => None,
            };
            match e {
                Error::ChildNotRunning { .. } => outside is None,
                Error::UnableToDecodeServerMessage { source } => outside == Some(source),
                Error::UnableToSendServerMessage { source } => outside == Some(source),
                Error::UnableToEncodeClientMessage { source } => outside == Some(source),
                Error::UnableToFlushClientMessage { source } => outside == Some(source),
                Error::UnableToRelayChildStartedToClient { source } => outside == Some(source),
                Error::UnableToJoinStdinTask { source } => outside == Some(source),
                Error::UnableToJoinStdoutTask { source } => outside == Some(source),
                Error::UnableToKillReplacedChild { source, .. } => outside == source.outside(),
                Error::UnableToKillChild { source, .. } => outside == source.outside(),
                Error::UnableToShutdownChild { source } => outside == source.outside(),
                Error::UnableToSpawnChild { source } => outside == source.outside(),
                Error::UnableToRelayInputToChild { source } => outside == source.outside(),
            }
        }),
{
}

/// A server starts without children and with the receipt of a request.
pub proof fn law_a_server_starts_with_nothing<C, E>(server: Server<C>, work: Work<C>)
    requires
        call_ensures(Server::<C>::start, (), (server, work)),
    ensures
        work is Receive,
        server@ == state_after(Seq::<Step<C, E>>::empty()),
        server@.children.dom() == Set::<u32>::empty(),
{
    assert(server@.children.dom() =~= Set::<u32>::empty());
}

/// The server finds under an id exactly the child that the client's requests leave running there;
/// so wherever it asks for input to be relayed, there is a child that the input is for.
pub proof fn law_a_child_is_found_by_its_id<C, E>(
    steps: Seq<Step<C, E>>,
    server: Server<C>,
    psid: ProcessSequenceId,
    found: Option<&C>,
)
    requires
        is_run(steps),
        server@ == state_after(steps),
        call_ensures(Server::<C>::child, (&server, psid), found),
    ensures
        found is Some <==> requested_children(steps).contains_key(psid.0),
        found matches Some(child) ==> *child == requested_children(steps)[psid.0],
        steps.len() > 0 && (steps.last().flow matches ControlFlow::Continue(Work::Relay(input))
            && input.psid == psid) ==> found is Some,
{
    law_children_are_those_requested(steps);
    if steps.len() > 0 {
        lemma_run_before(steps);
        assert(steps[steps.len() - 1] == steps.last());
    }
}

/// The server says of every outcome truly whether it waits for it.
pub proof fn law_awaited_outcomes_are_told<C, E>(
    steps: Seq<Step<C, E>>,
    server: Server<C>,
    event: Event<C, E>,
    awaited: bool,
)
    requires
        is_run(steps),
        server@ == state_after(steps),
        call_ensures(Server::<C>::awaits::<E>, (&server, &event), awaited),
    ensures
        awaited <==> if steps.len() == 0 {
            event is Message
        } else {
            match steps.last().flow {
                ControlFlow::Continue(Work::Receive) => event is Message,
                ControlFlow::Continue(Work::Spawn(_)) => event is Spawned,
                ControlFlow::Continue(Work::ShutDown(_)) => event is ShutDown,
                ControlFlow::Continue(Work::Announce(_)) => event is Announced,
                ControlFlow::Continue(Work::Relay(_)) => event is Relayed,
                ControlFlow::Continue(Work::Drain(_)) => event is Drained,
                ControlFlow::Break(_) => false,
            }
        },
{
    law_server_awaits_the_outcome_of_its_work(steps, event);
}

/// Neither task holds a message back: every request that was decoded is relayed next, and every
/// message for the client that was received is written next, just as it is. Whatever else comes up,
/// each task goes on by its own steps.
pub proof fn law_server_tasks_pass_everything_on<E>(
    read: ReadEvent<ServerMessage, E>,
    after_read: Flow<ReadWork<ServerMessage>, Error<E>>,
    write: WriteEvent<ClientMessage, E>,
    after_write: Flow<WriteWork<ClientMessage>, Error<E>>,
)
    requires
        call_ensures(stdin_step::<E>, (read,), after_read),
        call_ensures(stdout_step::<E>, (write,), after_write),
    ensures
        read matches ReadEvent::Decoded(Ok(message)) ==> {
            after_read matches ControlFlow::Continue(ReadWork::Relay(relayed)) && relayed == message
        },
        write matches WriteEvent::Received(Some(message)) ==> {
            after_write matches ControlFlow::Continue(WriteWork::Write(written)) && written
                == message
        },
        after_read == stdin_next(read),
        after_write == stdout_next(write),
{
}

/// The calls of a server's `step` make up a run: each takes it on from where the one before it left
/// the server.
pub proof fn law_calls_make_up_a_run<C, E>(steps: Seq<Step<C, E>>)
    requires
        is_run(steps),
    ensures
        forall|server: &mut Server<C>, event: Event<C, E>, flow: Flow<Work<C>, Error<E>>|
            (*server)@ == state_after(steps) && #[trigger] call_ensures(
                Server::<C>::step::<E>,
                (server, event),
                flow,
            ) ==> is_run(
                steps.push((Step { pre: (*server)@, event, post: (*final(server))@, flow })),
            ),
{
    assert forall|server: &mut Server<C>, event: Event<C, E>, flow: Flow<Work<C>, Error<E>>|
        (*server)@ == state_after(steps) && #[trigger] call_ensures(
            Server::<C>::step::<E>,
            (server, event),
            flow,
        ) implies is_run(
        steps.push((Step { pre: (*server)@, event, post: (*final(server))@, flow })),
    ) by {
        let step = Step { pre: (*server)@, event, post: (*final(server))@, flow };
        let after = steps.push(step);
        assert(follows(step.pre, step.event, step.post, step.flow));
        assert forall|i: int| 0 <= i < after.len() implies {
            let step = #[trigger] after[i];
            &&& follows(step.pre, step.event, step.post, step.flow)
            &&& step.pre == state_after(after.take(i))
        } by {
            if i < steps.len() {
                assert(after[i] == steps[i]);
                assert(after.take(i) =~= steps.take(i));
            } else {
                assert(after.take(i) =~= steps);
            }
        }
    }
}

} // verus!
