//! What holds of whole bootstraps: of every sequence of events that the compositor may
//! send.

use crate::object::{ObjectId, WlDynObj};
use crate::pixel_format::{
    lemma_negotiated_push, lemma_negotiation_ignores_order, negotiated, PixelFormat,
};
use crate::protocol::{
    classified, lemma_delete_and_missing_messages_differ, Announced, Event, GlobalKind, InitError,
    Phase, WlRequest, FIRST_CALLBACK, OUTPUT_MIN_VERSION,
};
use crate::state::{bound_objects, run, State, Trace};
use vstd::prelude::*;

verus! {

/// `event` announces `global`.
pub open spec fn announces(event: Event, global: GlobalKind) -> bool {
    event matches Event::Global { interface, .. } && classified(interface@) == Announced::Known(
        global,
    )
}

/// One of `events` announces `global`.
pub open spec fn is_announced(events: Seq<Event>, global: GlobalKind) -> bool {
    exists|i: int| 0 <= i < events.len() && announces(#[trigger] events[i], global)
}

/// `event` neither ends discovery nor makes it fail: it is no deletion and no withdrawal,
/// and where it announces a global that the bootstrap binds, then under a name other
/// than 0 and, for a required global, at a sufficient version.
pub open spec fn fits_discovery(event: Event) -> bool {
    match event {
        Event::DeleteId { .. } => false,
        Event::GlobalRemove { .. } => false,
        Event::Done { .. } => true,
        Event::Format { .. } => true,
        Event::Global { name, interface, version } => match classified(interface@) {
            Announced::Known(global) => name != 0 && (global.spec_is_required() ==> version
                >= global.spec_version()),
            _ => true,
        },
    }
}

/// Every one of `events` fits discovery.
pub open spec fn all_fit_discovery(events: Seq<Event>) -> bool {
    forall|i: int| 0 <= i < events.len() ==> fits_discovery(#[trigger] events[i])
}

/// The name under which `global` was last announced in `events`, 0 if it never was.
pub open spec fn last_name(events: Seq<Event>, global: GlobalKind) -> u32
    decreases events.len(),
{
    if events.len() == 0 {
        0
    } else if announces(events.last(), global) {
        events.last()->Global_name
    } else {
        last_name(events.drop_last(), global)
    }
}

/// The names of the outputs announced in `events` at a usable version, in order.
pub open spec fn usable_outputs(events: Seq<Event>) -> Seq<u32>
    decreases events.len(),
{
    if events.len() == 0 {
        Seq::empty()
    } else {
        let earlier = usable_outputs(events.drop_last());
        match events.last() {
            Event::Global { name, interface, version } => if classified(interface@)
                == Announced::Output && version >= OUTPUT_MIN_VERSION {
                earlier.push(name)
            } else {
                earlier
            },
            _ => earlier,
        }
    }
}

/// The pixel formats offered in `events`, in order.
pub open spec fn offered_formats(events: Seq<Event>) -> Seq<u32>
    decreases events.len(),
{
    if events.len() == 0 {
        Seq::empty()
    } else {
        let earlier = offered_formats(events.drop_last());
        match events.last() {
            Event::Format { format } => earlier.push(format),
            _ => earlier,
        }
    }
}

/// The pixel format that a bootstrap starts with.
pub open spec fn starting_format(cli_format: Option<PixelFormat>) -> PixelFormat {
    State::initial(cli_format).pixel_format
}

/// What discovery has noted after `events`: the last name of each global, the usable
/// outputs, and nothing bound.
pub open spec fn discovered(cli_format: Option<PixelFormat>, events: Seq<Event>) -> State {
    State {
        phase: Phase::AwaitingDiscovery,
        global_names: seq![
            last_name(events, GlobalKind::Compositor),
            last_name(events, GlobalKind::Shm),
            last_name(events, GlobalKind::Viewporter),
            last_name(events, GlobalKind::LayerShell),
        ],
        output_names: usable_outputs(events),
        fractional_scale: if last_name(events, GlobalKind::FractionalScale) == 0 {
            None
        } else {
            Some(last_name(events, GlobalKind::FractionalScale))
        },
        forced_shm_format: cli_format is Some,
        pixel_format: negotiated(
            starting_format(cli_format),
            cli_format is Some,
            offered_formats(events),
        ),
        fractional_scale_support: false,
    }
}

/// A global has a name after `events` exactly if one of them announces it.
pub proof fn lemma_named_iff_announced(events: Seq<Event>, global: GlobalKind)
    requires
        all_fit_discovery(events),
    ensures
        last_name(events, global) != 0 <==> is_announced(events, global),
    decreases events.len(),
{
    if events.len() > 0 {
        let earlier = events.drop_last();
        assert forall|i: int| 0 <= i < earlier.len() implies fits_discovery(
            #[trigger] earlier[i],
        ) by {
            assert(earlier[i] == events[i]);
        }
        lemma_named_iff_announced(earlier, global);
        let last = events.len() - 1;
        assert(fits_discovery(events[last]));
        if announces(events.last(), global) {
            assert(announces(events[last], global));
        } else if last_name(earlier, global) != 0 {
            let i = choose|i: int| 0 <= i < earlier.len() && announces(#[trigger] earlier[i], global);
            assert(announces(events[i], global));
        } else {
            assert forall|i: int| 0 <= i < events.len() implies !announces(
                #[trigger] events[i],
                global,
            ) by {
                if i < last {
                    assert(earlier[i] == events[i]);
                }
            }
        }
    }
}

/// Events that fit discovery are all handled, lead to no request, and leave exactly
/// what discovery has noted of them, in whatever order they come.
pub proof fn lemma_discovery_notes_events(cli_format: Option<PixelFormat>, events: Seq<Event>)
    requires
        all_fit_discovery(events),
    ensures
        run(cli_format, events) == (Trace {
            state: discovered(cli_format, events),
            sent: Seq::empty(),
            failure: None,
        }),
    decreases events.len(),
{
    if events.len() == 0 {
        assert(discovered(cli_format, events).global_names =~= State::initial(
            cli_format,
        ).global_names);
    } else {
        let earlier = events.drop_last();
        assert forall|i: int| 0 <= i < earlier.len() implies fits_discovery(
            #[trigger] earlier[i],
        ) by {
            assert(earlier[i] == events[i]);
        }
        lemma_discovery_notes_events(cli_format, earlier);
        let before = discovered(cli_format, earlier);
        let event = events.last();
        assert(fits_discovery(events[events.len() - 1]));
        let next = before.after_event(event)->Ok_0;
        assert(before.after_event(event) is Ok);
        if let Event::Format { format } = event {
            lemma_negotiated_push(
                starting_format(cli_format),
                cli_format is Some,
                offered_formats(earlier),
                format,
            );
        }
        assert(next.global_names =~= discovered(cli_format, events).global_names);
        assert(next == discovered(cli_format, events));
        assert(run(cli_format, events).sent =~= Seq::<WlRequest>::empty());
    }
}

/// Where every required global is announced during discovery, in whatever order, under
/// whatever names other than 0 and at a sufficient version, the end of discovery binds
/// exactly the four of them, each to its own identifier and under its last name, then
/// the fractional-scale manager if it was announced, and the compositor's confirmation
/// leaves these objects and no others beside the display and the registry.
pub proof fn theorem_required_globals_are_bound(
    cli_format: Option<PixelFormat>,
    events: Seq<Event>,
)
    requires
        all_fit_discovery(events),
        forall|global: GlobalKind|
            global.spec_is_required() ==> #[trigger] is_announced(events, global),
    ensures
        ({
            let noted = discovered(cli_format, events);
            let bound = run(cli_format, events.push(Event::DeleteId { id: FIRST_CALLBACK }));
            let confirmed = bound.state.handled(Event::DeleteId { id: bound.state.callback_id() });
            &&& bound.failure is None
            &&& bound.state == noted.after_bind()
            &&& bound.sent == noted.bind_requests()
            &&& forall|global: GlobalKind|
                global.spec_is_required() ==> #[trigger] bound.sent[global.spec_index()]
                    == (WlRequest::Bind { name: last_name(events, global), global })
                    && last_name(events, global) != 0
            &&& bound.state.objects() == bound_objects(noted.fractional_scale is Some).insert(
                bound.state.callback_id(),
                WlDynObj::Callback,
            )
            &&& confirmed.failure is None
            &&& confirmed.state.phase == Phase::Ready
            &&& confirmed.state.objects() == bound_objects(noted.fractional_scale is Some)
            &&& forall|global: GlobalKind|
                global.spec_is_required() ==> #[trigger] confirmed.state.objects()[global.spec_object_id()]
                    == global.spec_object_type()
        }),
{
    let noted = discovered(cli_format, events);
    let all = events.push(Event::DeleteId { id: FIRST_CALLBACK });
    lemma_discovery_notes_events(cli_format, events);
    assert(all.drop_last() =~= events);
    lemma_named_iff_announced(events, GlobalKind::Compositor);
    lemma_named_iff_announced(events, GlobalKind::Shm);
    lemma_named_iff_announced(events, GlobalKind::Viewporter);
    lemma_named_iff_announced(events, GlobalKind::LayerShell);
    assert(GlobalKind::Compositor.spec_is_required());
    assert(GlobalKind::Shm.spec_is_required());
    assert(GlobalKind::Viewporter.spec_is_required());
    assert(GlobalKind::LayerShell.spec_is_required());
    let ended = noted.after_event(all.last())->Ok_0;
    assert(ended.missing() is None);
    let bound = run(cli_format, all);
    assert(bound.sent =~= noted.bind_requests());
}

/// Events that are the same but for their order are the same to discovery: they all fit
/// it or not, and they announce the same globals.
pub proof fn lemma_reordered_events(first: Seq<Event>, second: Seq<Event>)
    requires
        first.to_multiset() == second.to_multiset(),
    ensures
        all_fit_discovery(first) ==> all_fit_discovery(second),
        forall|global: GlobalKind|
            is_announced(first, global) ==> #[trigger] is_announced(second, global),
{
    first.to_multiset_ensures();
    second.to_multiset_ensures();
    if all_fit_discovery(first) {
        assert forall|i: int| 0 <= i < second.len() implies fits_discovery(
            #[trigger] second[i],
        ) by {
            assert(second.contains(second[i]));
            assert(second.to_multiset().count(second[i]) > 0);
            assert(first.contains(second[i]));
            let j = choose|j: int| 0 <= j < first.len() && first[j] == second[i];
            assert(fits_discovery(first[j]));
        }
    }
    assert forall|global: GlobalKind| is_announced(first, global) implies #[trigger] is_announced(
        second,
        global,
    ) by {
        let i = choose|i: int| 0 <= i < first.len() && announces(#[trigger] first[i], global);
        assert(first.contains(first[i]));
        assert(first.to_multiset().count(first[i]) > 0);
        assert(second.contains(first[i]));
        let j = choose|j: int| 0 <= j < second.len() && second[j] == first[i];
        assert(announces(second[j], global));
    }
}

/// The order in which the globals are announced during discovery makes no difference
/// to what is bound: the same events in another order lead to the same live objects,
/// and to requests that bind the same globals to the same identifiers.
pub proof fn theorem_binding_ignores_order(
    cli_format: Option<PixelFormat>,
    first: Seq<Event>,
    second: Seq<Event>,
)
    requires
        all_fit_discovery(first),
        forall|global: GlobalKind|
            global.spec_is_required() ==> #[trigger] is_announced(first, global),
        first.to_multiset() == second.to_multiset(),
    ensures
        ({
            let one = run(cli_format, first.push(Event::DeleteId { id: FIRST_CALLBACK }));
            let other = run(cli_format, second.push(Event::DeleteId { id: FIRST_CALLBACK }));
            &&& one.failure is None
            &&& other.failure is None
            &&& other.state.objects() == one.state.objects()
            &&& other.state.callback_id() == one.state.callback_id()
            &&& other.sent.len() == one.sent.len()
            &&& forall|k: int|
                0 <= k < one.sent.len() ==> match #[trigger] one.sent[k] {
                    WlRequest::Bind { global, .. } => other.sent[k] matches WlRequest::Bind {
                        global: same,
                        ..
                    } && same == global,
                    request => other.sent[k] == request,
                }
        }),
{
    lemma_reordered_events(first, second);
    lemma_reordered_events(second, first);
    theorem_required_globals_are_bound(cli_format, first);
    theorem_required_globals_are_bound(cli_format, second);
    lemma_named_iff_announced(first, GlobalKind::FractionalScale);
    lemma_named_iff_announced(second, GlobalKind::FractionalScale);
}

/// Where a required global is not announced during discovery, the end of discovery
/// fails, names the first such global, and sends nothing.
pub proof fn theorem_missing_global_is_named(
    cli_format: Option<PixelFormat>,
    events: Seq<Event>,
    absent: GlobalKind,
)
    requires
        all_fit_discovery(events),
        absent.spec_is_required(),
        !is_announced(events, absent),
    ensures
        ({
            let failed = run(cli_format, events.push(Event::DeleteId { id: FIRST_CALLBACK }));
            &&& failed.sent.len() == 0
            &&& failed.failure matches Some(InitError::MissingGlobal(named))
            &&& named.spec_is_required()
            &&& named.spec_index() <= absent.spec_index()
            &&& !is_announced(events, named)
            &&& forall|earlier: GlobalKind|
                earlier.spec_is_required() && earlier.spec_index() < named.spec_index()
                    ==> #[trigger] is_announced(events, earlier)
            &&& InitError::MissingGlobal(named).spec_message()
                == "Compositor does not implement required interface: "@
                + named.spec_interface()
        }),
{
    let all = events.push(Event::DeleteId { id: FIRST_CALLBACK });
    lemma_discovery_notes_events(cli_format, events);
    assert(all.drop_last() =~= events);
    lemma_named_iff_announced(events, GlobalKind::Compositor);
    lemma_named_iff_announced(events, GlobalKind::Shm);
    lemma_named_iff_announced(events, GlobalKind::Viewporter);
    lemma_named_iff_announced(events, GlobalKind::LayerShell);
    let failed = run(cli_format, all);
    assert(failed.sent =~= Seq::<WlRequest>::empty());
}

/// While nothing is bound nothing has been sent, and the other way round; and a
/// bootstrap stops between discovery and binding only by failing.
pub proof fn lemma_sent_iff_bound(cli_format: Option<PixelFormat>, events: Seq<Event>)
    ensures
        run(cli_format, events).state.wf(),
        run(cli_format, events).state.is_bound() <==> run(cli_format, events).sent.len() > 0,
        run(cli_format, events).state.phase == Phase::Discovered ==> run(
            cli_format,
            events,
        ).failure is Some,
    decreases events.len(),
{
    if events.len() > 0 {
        lemma_sent_iff_bound(cli_format, events.drop_last());
    }
}

/// A required global announced during discovery below the version needed makes the
/// bootstrap fail on the spot, before any request to bind was sent.
pub proof fn theorem_low_version_fails_before_binding(
    cli_format: Option<PixelFormat>,
    events: Seq<Event>,
    name: u32,
    interface: String,
    version: u32,
    global: GlobalKind,
)
    requires
        run(cli_format, events).failure is None,
        run(cli_format, events).state.phase == Phase::AwaitingDiscovery,
        classified(interface@) == Announced::Known(global),
        global.spec_is_required(),
        version < global.spec_version(),
    ensures
        ({
            let failed = run(cli_format, events.push(Event::Global { name, interface, version }));
            &&& failed.failure == Some(InitError::VersionTooLow(global))
            &&& failed.sent.len() == 0
            &&& failed.state == run(cli_format, events).state
        }),
{
    let all = events.push(Event::Global { name, interface, version });
    assert(all.drop_last() =~= events);
    lemma_sent_iff_bound(cli_format, events);
}

/// The deletion of any object but the awaited callback makes the bootstrap fail, in
/// every phase, with an error whose line differs from that for any missing global.
pub proof fn theorem_unexpected_delete_fails(state: State, id: u32, global: GlobalKind)
    requires
        state.awaited_callback() != Some(id),
    ensures
        state.handled(Event::DeleteId { id }).failure == Some(InitError::UnexpectedDelete { id }),
        state.handled(Event::DeleteId { id }).state == state,
        (InitError::UnexpectedDelete { id }).spec_message() != InitError::MissingGlobal(
            global,
        ).spec_message(),
{
    lemma_delete_and_missing_messages_differ(id, global);
}

/// The fractional-scale manager, where it was announced, is bound right after the four
/// required globals, to the identifier that follows theirs, and the callback of the
/// second roundtrip takes the identifier after that; where it was not announced, the
/// callback takes the identifier that follows the required globals.
pub proof fn theorem_callback_follows_bound_globals(state: State)
    requires
        state.wf(),
        state.phase == Phase::Discovered,
        state.missing() is None,
    ensures
        ({
            let requests = state.bound().requests;
            let last_required = GlobalKind::LayerShell.spec_object_id();
            match state.fractional_scale {
                Some(name) => {
                    &&& requests.len() == 6
                    &&& requests[4] == (WlRequest::Bind { name, global: GlobalKind::FractionalScale })
                    &&& GlobalKind::FractionalScale.spec_object_id() == last_required + 1
                    &&& requests[5] == (WlRequest::Sync {
                        callback: ObjectId::of((last_required + 2) as u32),
                    })
                    &&& state.bound().state.awaited_callback() == Some((last_required + 2) as u32)
                    &&& state.bound().state.fractional_scale_support
                },
                None => {
                    &&& requests.len() == 5
                    &&& requests[4] == (WlRequest::Sync {
                        callback: ObjectId::of((last_required + 1) as u32),
                    })
                    &&& state.bound().state.awaited_callback() == Some((last_required + 1) as u32)
                    &&& !state.bound().state.fractional_scale_support
                },
            }
        }),
{
}

/// As long as a bootstrap has not failed, its pixel format is what the offers so far
/// lead to, whatever else has happened.
pub proof fn lemma_format_follows_offers(cli_format: Option<PixelFormat>, events: Seq<Event>)
    requires
        run(cli_format, events).failure is None,
    ensures
        run(cli_format, events).state.forced_shm_format == (cli_format is Some),
        run(cli_format, events).state.pixel_format == negotiated(
            starting_format(cli_format),
            cli_format is Some,
            offered_formats(events),
        ),
    decreases events.len(),
{
    if events.len() > 0 {
        lemma_format_follows_offers(cli_format, events.drop_last());
        if let Event::Format { format } = events.last() {
            lemma_negotiated_push(
                starting_format(cli_format),
                cli_format is Some,
                offered_formats(events.drop_last()),
                format,
            );
        }
    }
}

/// Two bootstraps that have not failed and were offered the same formats, in whatever
/// order and among whatever other events, have decided on the same pixel format.
pub proof fn theorem_format_ignores_order(
    cli_format: Option<PixelFormat>,
    first: Seq<Event>,
    second: Seq<Event>,
)
    requires
        run(cli_format, first).failure is None,
        run(cli_format, second).failure is None,
        offered_formats(first).to_multiset() == offered_formats(second).to_multiset(),
    ensures
        run(cli_format, first).state.pixel_format == run(cli_format, second).state.pixel_format,
{
    lemma_format_follows_offers(cli_format, first);
    lemma_format_follows_offers(cli_format, second);
    lemma_negotiation_ignores_order(
        starting_format(cli_format),
        cli_format is Some,
        offered_formats(first),
        offered_formats(second),
    );
}

/// A forced pixel format is the decision whatever the compositor sends.
pub proof fn theorem_forced_format_never_changes(forced: PixelFormat, events: Seq<Event>)
    ensures
        run(Some(forced), events).state.pixel_format == forced,
    decreases events.len(),
{
    if events.len() > 0 {
        theorem_forced_format_never_changes(forced, events.drop_last());
        lemma_sent_iff_bound(Some(forced), events.drop_last());
        let before = run(Some(forced), events.drop_last());
        if before.failure is None {
            lemma_format_follows_offers(Some(forced), events.drop_last());
        }
    }
}

} // verus!
