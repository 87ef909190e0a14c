//! What holds of every session, proved of the model: which requests a fetch
//! makes and in what order, which links follow, and that a failure is final.

use crate::config::{resolved, ArgumentsView, ConfigView};
use crate::error::Error;
use crate::model::{
    failed, failure, fetch_next, link_next, list_request, start, step, ActionView, EventView,
    FileListData, Phase, SessionView,
};
use crate::path::joined;
use crate::url::{filename_url, lemma_filename_url_names_its_index};
use vstd::prelude::*;

verus! {

/// The state that a session in `s` is in after the driver has reported
/// `events`, one after the other.
pub open spec fn run(s: SessionView, events: Seq<EventView>) -> SessionView
    decreases events.len(),
{
    if events.len() == 0 {
        s
    } else {
        step(run(s, events.drop_last()), events.last()).0
    }
}

/// The actions that a session in `s` asks for as the driver reports `events`:
/// one for each event, in order.
pub open spec fn trace(s: SessionView, events: Seq<EventView>) -> Seq<ActionView>
    decreases events.len(),
{
    if events.len() == 0 {
        Seq::empty()
    } else {
        trace(s, events.drop_last()).push(step(run(s, events.drop_last()), events.last()).1)
    }
}

/// The URLs of the requests among `actions`, in order.
pub open spec fn requests(actions: Seq<ActionView>) -> Seq<Seq<char>>
    decreases actions.len(),
{
    if actions.len() == 0 {
        Seq::empty()
    } else {
        match actions.last() {
            ActionView::Get(url) => requests(actions.drop_last()).push(url),
            _ => requests(actions.drop_last()),
        }
    }
}

/// The links among `actions`, in order, each as the pair of its source and
/// its target.
pub open spec fn links(actions: Seq<ActionView>) -> Seq<(Seq<char>, Seq<char>)>
    decreases actions.len(),
{
    if actions.len() == 0 {
        Seq::empty()
    } else {
        match actions.last() {
            ActionView::Link { source, target } => links(actions.drop_last()).push(
                (source, target),
            ),
            _ => links(actions.drop_last()),
        }
    }
}

/// The file-name requests for the first `count` indices of a list, in
/// ascending order of the index.
pub open spec fn filename_requests(port: u32, list_id: u32, count: nat) -> Seq<Seq<char>> {
    Seq::new(count, |index: int| filename_url(port, list_id, index as nat))
}

/// The links for the first `count` of `names`, in the order of the names:
/// each name joined onto the source directory and onto the target directory.
pub open spec fn name_links(config: ConfigView, names: Seq<Seq<char>>, count: nat) -> Seq<
    (Seq<char>, Seq<char>),
> {
    Seq::new(
        count,
        |index: int|
            (joined(config.source_dir, names[index]), joined(config.target_dir, names[index])),
    )
}

/// What the driver reports while a list is resolved to `list` and its first
/// names are fetched without failure: the list, then for each of `names` a
/// status of 200 and the name as the text of the body.
pub open spec fn fetch_events(list: FileListData, names: Seq<Seq<char>>) -> Seq<EventView>
    decreases names.len(),
{
    if names.len() == 0 {
        seq![EventView::ListData(list)]
    } else {
        fetch_events(list, names.drop_last()).push(EventView::Status(200)).push(
            EventView::Text(names.last()),
        )
    }
}

/// The events of [`fetch_events`], and after them `made` times the report
/// that a link was created.
pub open spec fn link_events(list: FileListData, names: Seq<Seq<char>>, made: nat) -> Seq<
    EventView,
>
    decreases made,
{
    if made == 0 {
        fetch_events(list, names)
    } else {
        link_events(list, names, (made - 1) as nat).push(EventView::Linked)
    }
}

/// Whether two sessions are alike in all but the selectors of their
/// configurations.
pub open spec fn alike_but_selectors(a: SessionView, b: SessionView) -> bool {
    &&& a.config.port == b.config.port
    &&& a.config.source_dir == b.config.source_dir
    &&& a.config.target_dir == b.config.target_dir
    &&& a.phase == b.phase
    &&& a.list == b.list
    &&& a.names == b.names
    &&& a.linked == b.linked
}

/// How many of `total` steps have been asked for when `done` of them are
/// done: those, and the next one while there is one.
spec fn asked_for(done: nat, total: nat) -> nat {
    if done < total {
        done + 1
    } else {
        done
    }
}

/// How many links have been asked for when `fetched` of `total` names are
/// there: the first one as soon as the last name has come.
spec fn first_link(fetched: nat, total: nat) -> nat {
    if fetched == total && fetched > 0 {
        1
    } else {
        0
    }
}

proof fn lemma_one_more_event(s: SessionView, events: Seq<EventView>, event: EventView)
    ensures
        run(s, events.push(event)) == step(run(s, events), event).0,
        trace(s, events.push(event)) == trace(s, events).push(step(run(s, events), event).1),
{
    assert(events.push(event).drop_last() =~= events);
}

proof fn lemma_one_more_action(actions: Seq<ActionView>, action: ActionView)
    ensures
        requests(actions.push(action)) == match action {
            ActionView::Get(url) => requests(actions).push(url),
            _ => requests(actions),
        },
        links(actions.push(action)) == match action {
            ActionView::Link { source, target } => links(actions).push((source, target)),
            _ => links(actions),
        },
{
    assert(actions.push(action).drop_last() =~= actions);
}

/// A configuration that the command line resolves to selects a list: a
/// session that starts from it starts with a request, never with a failure.
pub proof fn lemma_resolved_configuration_selects_a_list(arguments: ArgumentsView)
    requires
        resolved(arguments) is Ok,
    ensures
        list_request(resolved(arguments)->Ok_0) is Some,
        start(resolved(arguments)->Ok_0).1 is Get,
{
}

/// A session starts in a well-formed state, and the state that follows a
/// well-formed state is well formed.
pub proof fn lemma_step_keeps_well_formed(config: ConfigView, s: SessionView, event: EventView)
    ensures
        start(config).0.well_formed(),
        s.well_formed() ==> step(s, event).0.well_formed(),
{
}

/// Every state that a session reaches is well formed, whatever the driver
/// reports: at no time are there more names than the list has entries, and
/// no link is asked for before all names are there.
pub proof fn lemma_sessions_stay_well_formed(config: ConfigView, events: Seq<EventView>)
    ensures
        run(start(config).0, events).well_formed(),
    decreases events.len(),
{
    if events.len() > 0 {
        lemma_sessions_stay_well_formed(config, events.drop_last());
    }
}

/// A session that has ended, in success or in failure, stays as it is
/// whatever is reported to it, and asks for nothing more: each of its answers
/// repeats the end.
pub proof fn lemma_the_end_is_final(s: SessionView, events: Seq<EventView>)
    requires
        s.phase is Finished || s.phase is Failed,
    ensures
        run(s, events) == s,
        trace(s, events).len() == events.len(),
        forall|i: int|
            0 <= i < events.len() ==> #[trigger] trace(s, events)[i] == step(s, events[i]).1,
        forall|i: int|
            0 <= i < events.len() ==> #[trigger] trace(s, events)[i] == (match s.phase {
                Phase::Failed(error) => ActionView::Abort(error),
                _ => ActionView::Finish,
            }),
        requests(trace(s, events)).len() == 0,
        links(trace(s, events)).len() == 0,
    decreases events.len(),
{
    if events.len() > 0 {
        lemma_the_end_is_final(s, events.drop_last());
        lemma_one_more_action(
            trace(s, events.drop_last()),
            step(run(s, events.drop_last()), events.last()).1,
        );
    }
}

/// An event that makes a waiting session fail ends it at once: the answer is
/// `Abort` with the error, and whatever is reported later, no request and no
/// link is asked for again.
pub proof fn lemma_failure_ends_session(
    s: SessionView,
    event: EventView,
    error: Error,
    later: Seq<EventView>,
)
    requires
        !(s.phase is Finished || s.phase is Failed),
        failure(s.phase, event) == Some(error),
    ensures
        step(s, event) == failed(s, error),
        step(s, event).1 == ActionView::Abort(error),
        run(step(s, event).0, later).phase == Phase::Failed(error),
        forall|i: int|
            0 <= i < later.len() ==> #[trigger] trace(step(s, event).0, later)[i]
                == ActionView::Abort(error),
        requests(trace(step(s, event).0, later)).len() == 0,
        links(trace(step(s, event).0, later)).len() == 0,
{
    lemma_the_end_is_final(step(s, event).0, later);
}

/// A reply with a status other than 200, to the list request or to a
/// file-name request, makes the session fail with that status, and no
/// further request is made, whatever the driver reports afterwards.
pub proof fn lemma_rejected_status_ends_session(
    s: SessionView,
    status: u16,
    later: Seq<EventView>,
)
    requires
        s.phase is ListStatus || s.phase is NameStatus,
        status != 200,
    ensures
        step(s, EventView::Status(status)).1 == ActionView::Abort(Error::InvalidStatus(status)),
        run(step(s, EventView::Status(status)).0, later).phase == Phase::Failed(
            Error::InvalidStatus(status),
        ),
        forall|i: int|
            0 <= i < later.len() ==> #[trigger] trace(step(s, EventView::Status(status)).0, later)[i]
                == ActionView::Abort(Error::InvalidStatus(status)),
        requests(trace(step(s, EventView::Status(status)).0, later)).len() == 0,
        links(trace(step(s, EventView::Status(status)).0, later)).len() == 0,
{
    lemma_failure_ends_session(s, EventView::Status(status), Error::InvalidStatus(status), later);
}

proof fn lemma_fetch_so_far(s: SessionView, list: FileListData, names: Seq<Seq<char>>, k: nat)
    requires
        s.phase is ListBody,
        s.well_formed(),
        names.len() == list.length,
        k <= names.len(),
    ensures
        run(s, fetch_events(list, names.take(k as int))) == fetch_next(
            SessionView { list, names: names.take(k as int), ..s },
        ).0,
        requests(trace(s, fetch_events(list, names.take(k as int)))) == filename_requests(
            s.config.port,
            list.id,
            asked_for(k, names.len()),
        ),
        links(trace(s, fetch_events(list, names.take(k as int)))) == name_links(
            s.config,
            names,
            first_link(k, names.len()),
        ),
    decreases k,
{
    if k == 0 {
        // The list arrives: the first request follows, or the end.
        let first = EventView::ListData(list);
        lemma_one_more_event(s, Seq::empty(), first);
        lemma_one_more_action(Seq::empty(), step(s, first).1);
    } else {
        // One more name arrives: its status, then its text.
        let before = names.take(k - 1);
        let earlier = fetch_events(list, before);
        lemma_fetch_so_far(s, list, names, (k - 1) as nat);
        assert(names.take(k as int).drop_last() =~= before);
        let ok = EventView::Status(200);
        let text = EventView::Text(names[k - 1]);
        lemma_one_more_event(s, earlier, ok);
        lemma_one_more_event(s, earlier.push(ok), text);
        let reading = step(run(s, earlier), ok).0;
        lemma_one_more_action(trace(s, earlier), ActionView::ReadText);
        lemma_one_more_action(
            trace(s, earlier).push(ActionView::ReadText),
            step(reading, text).1,
        );
    }
}

/// Once the list is known, a fetch in which every reply has status 200 makes
/// exactly one request for each index of the list, in ascending order of the
/// index, and nothing else is requested; no two of these requests are the
/// same. It ends with as many names as the list has entries: the texts of the
/// replies, unchanged and in the order of their indices.
pub proof fn lemma_fetch_requests_each_index_in_order(
    s: SessionView,
    list: FileListData,
    names: Seq<Seq<char>>,
)
    requires
        s.phase is ListBody,
        s.well_formed(),
        names.len() == list.length,
    ensures
        requests(trace(s, fetch_events(list, names))) == filename_requests(
            s.config.port,
            list.id,
            list.length as nat,
        ),
        requests(trace(s, fetch_events(list, names))).len() == list.length,
        forall|i: int, j: int|
            0 <= i < j < list.length ==> #[trigger] requests(trace(s, fetch_events(list, names)))[i]
                != #[trigger] requests(trace(s, fetch_events(list, names)))[j],
        run(s, fetch_events(list, names)).names == names,
        run(s, fetch_events(list, names)).names.len() == list.length,
        run(s, fetch_events(list, names)).phase == if list.length == 0 {
            Phase::Finished
        } else {
            Phase::Linking
        },
{
    lemma_fetch_so_far(s, list, names, names.len());
    assert(names.take(names.len() as int) =~= names);
    let made = requests(trace(s, fetch_events(list, names)));
    assert forall|i: int, j: int| 0 <= i < j < list.length implies #[trigger] made[i]
        != #[trigger] made[j] by {
        if made[i] == made[j] {
            lemma_filename_url_names_its_index(s.config.port, list.id, i as nat, j as nat);
        }
    }
}

proof fn lemma_links_so_far(s: SessionView, list: FileListData, names: Seq<Seq<char>>, made: nat)
    requires
        s.phase is ListBody,
        s.well_formed(),
        names.len() == list.length,
        made <= names.len(),
    ensures
        run(s, link_events(list, names, made)) == link_next(
            SessionView { list, names, linked: made, ..s },
        ).0,
        requests(trace(s, link_events(list, names, made))) == filename_requests(
            s.config.port,
            list.id,
            names.len(),
        ),
        links(trace(s, link_events(list, names, made))) == name_links(
            s.config,
            names,
            asked_for(made, names.len()),
        ),
    decreases made,
{
    if made == 0 {
        lemma_fetch_so_far(s, list, names, names.len());
        assert(names.take(names.len() as int) =~= names);
    } else {
        let earlier = link_events(list, names, (made - 1) as nat);
        lemma_links_so_far(s, list, names, (made - 1) as nat);
        lemma_one_more_event(s, earlier, EventView::Linked);
        lemma_one_more_action(trace(s, earlier), step(run(s, earlier), EventView::Linked).1);
    }
}

/// For every file name that was fetched exactly one link is asked for, in the
/// order of the names: its source is the name joined onto the source
/// directory, its target the name joined onto the target directory. When the
/// driver has made them all the session has finished, having requested each
/// name once.
pub proof fn lemma_each_name_is_linked_by_its_joined_paths(
    s: SessionView,
    list: FileListData,
    names: Seq<Seq<char>>,
)
    requires
        s.phase is ListBody,
        s.well_formed(),
        names.len() == list.length,
    ensures
        links(trace(s, link_events(list, names, names.len()))) == name_links(
            s.config,
            names,
            names.len(),
        ),
        forall|i: int|
            0 <= i < names.len() ==> #[trigger] links(
                trace(s, link_events(list, names, names.len())),
            )[i] == (joined(s.config.source_dir, names[i]), joined(s.config.target_dir, names[i])),
        requests(trace(s, link_events(list, names, names.len()))) == filename_requests(
            s.config.port,
            list.id,
            names.len(),
        ),
        run(s, link_events(list, names, names.len())).phase == Phase::Finished,
{
    lemma_links_so_far(s, list, names, names.len());
}

/// A session in which nothing fails, from its start to its end: it asks for
/// the list by the request that its configuration selects, then for each name
/// of the list in the order of the indices, then for one link for each name,
/// and it has finished when the last link is made.
pub proof fn lemma_session_without_failure(
    config: ConfigView,
    list: FileListData,
    names: Seq<Seq<char>>,
)
    requires
        list_request(config) is Some,
        names.len() == list.length,
    ensures
        start(config).1 == ActionView::Get(list_request(config)->0),
        step(start(config).0, EventView::Status(200)).1 == ActionView::DecodeList,
        ({
            let awaiting_list = step(start(config).0, EventView::Status(200)).0;
            let events = link_events(list, names, names.len());
            &&& requests(trace(awaiting_list, events)) == filename_requests(
                config.port,
                list.id,
                names.len(),
            )
            &&& links(trace(awaiting_list, events)) == name_links(config, names, names.len())
            &&& run(awaiting_list, events).phase == Phase::Finished
            &&& run(awaiting_list, events).names == names
        }),
{
    let awaiting_list = step(start(config).0, EventView::Status(200)).0;
    lemma_links_so_far(awaiting_list, list, names, names.len());
}

/// A list without entries needs no work: when it is resolved the session has
/// finished. No file name is requested and no link is asked for, then or
/// later, and the names that were fetched are none.
pub proof fn lemma_empty_list_needs_no_work(s: SessionView, list_id: u32, later: Seq<EventView>)
    requires
        s.phase is ListBody,
        s.well_formed(),
    ensures
        ({
            let resolved = step(s, EventView::ListData(FileListData { id: list_id, length: 0 }));
            &&& resolved.1 == ActionView::Finish
            &&& resolved.0.phase == Phase::Finished
            &&& resolved.0.names.len() == 0
            &&& requests(trace(resolved.0, later)).len() == 0
            &&& links(trace(resolved.0, later)).len() == 0
        }),
{
    let resolved = step(s, EventView::ListData(FileListData { id: list_id, length: 0 }));
    lemma_the_end_is_final(resolved.0, later);
}

proof fn lemma_alike_sessions_step_alike(a: SessionView, b: SessionView, event: EventView)
    requires
        alike_but_selectors(a, b),
    ensures
        alike_but_selectors(step(a, event).0, step(b, event).0),
        step(a, event).1 == step(b, event).1,
{
}

/// How the list is selected has no part in what follows the list request:
/// two sessions that are alike in all but their selectors ask for the same
/// actions when the same events are reported to them.
pub proof fn lemma_selector_is_used_once(a: SessionView, b: SessionView, events: Seq<EventView>)
    requires
        alike_but_selectors(a, b),
    ensures
        trace(a, events) == trace(b, events),
        alike_but_selectors(run(a, events), run(b, events)),
    decreases events.len(),
{
    if events.len() > 0 {
        lemma_selector_is_used_once(a, b, events.drop_last());
        lemma_alike_sessions_step_alike(
            run(a, events.drop_last()),
            run(b, events.drop_last()),
            events.last(),
        );
    }
}

/// A session started by search term and one started by list id, with the same
/// port and directories, differ in their first request only: on the same
/// replies each asks for the same actions as the other, and so for the same
/// file-name requests and the same links.
pub proof fn lemma_search_and_list_id_fetch_alike(
    a: ConfigView,
    b: ConfigView,
    events: Seq<EventView>,
)
    requires
        a.port == b.port,
        a.source_dir == b.source_dir,
        a.target_dir == b.target_dir,
        list_request(a) is Some,
        list_request(b) is Some,
    ensures
        trace(start(a).0, events) == trace(start(b).0, events),
        requests(trace(start(a).0, events)) == requests(trace(start(b).0, events)),
        links(trace(start(a).0, events)) == links(trace(start(b).0, events)),
{
    lemma_selector_is_used_once(start(a).0, start(b).0, events);
}

} // verus!
