//! The bootstrap as a state machine over plain values: what each event does to the
//! negotiation, and what a whole sequence of events leads to.

use crate::object::{Bindings, ObjectId, WlDynObj};
use crate::pixel_format::{after_offer, PixelFormat};
use crate::protocol::{
    classified, Announced, Event, GlobalKind, InitError, Phase, WlRequest, FIRST_CALLBACK,
    OUTPUT_MIN_VERSION, WL_DISPLAY, WL_REGISTRY, WL_SHM,
};
use vstd::prelude::*;

verus! {

/// What the bootstrap knows at one moment.
pub struct State {
    pub phase: Phase,
    /// The name under which each required global was last announced, 0 for none.
    pub global_names: Seq<u32>,
    /// The names of the usable outputs, in the order of their announcement.
    pub output_names: Seq<u32>,
    /// The name under which the fractional-scale manager was last announced.
    pub fractional_scale: Option<u32>,
    /// Whether the pixel format was chosen by the caller.
    pub forced_shm_format: bool,
    pub pixel_format: PixelFormat,
    /// Whether the fractional-scale manager was bound.
    pub fractional_scale_support: bool,
}

/// What to do with a message, told by its sender.
#[derive(Clone, Copy, Debug, PartialEq, Eq, Structural)]
pub enum Route {
    /// Decode it as an event of this interface and handle the event.
    Decode(WlDynObj),
    /// Report it and go on.
    Ignore,
}

/// What one event leads to.
pub struct Step {
    /// The state after the event.
    pub state: State,
    /// The requests to send in answer, in order.
    pub requests: Seq<WlRequest>,
    /// Why the bootstrap has failed, if it has.
    pub failure: Option<InitError>,
}

/// What a sequence of events leads to.
pub struct Trace {
    /// The state after the last event that was handled.
    pub state: State,
    /// The requests sent in answer to the events, in order.
    pub sent: Seq<WlRequest>,
    /// Why the bootstrap has failed, if it has.
    pub failure: Option<InitError>,
}

/// The two requests that open the bootstrap.
pub open spec fn opening_requests() -> Seq<WlRequest> {
    seq![WlRequest::GetRegistry, WlRequest::Sync { callback: ObjectId::of(FIRST_CALLBACK) }]
}

/// The objects of a bootstrap that has bound its globals, the fractional-scale manager
/// among them or not.
pub open spec fn bound_objects(fractional_scale: bool) -> Bindings {
    let required = map![
        WL_DISPLAY => WlDynObj::Display,
        WL_REGISTRY => WlDynObj::Registry,
        GlobalKind::Compositor.spec_object_id() => WlDynObj::Compositor,
        GlobalKind::Shm.spec_object_id() => WlDynObj::Shm,
        GlobalKind::Viewporter.spec_object_id() => WlDynObj::Viewporter,
        GlobalKind::LayerShell.spec_object_id() => WlDynObj::LayerShell,
    ];
    if fractional_scale {
        required.insert(
            GlobalKind::FractionalScale.spec_object_id(),
            WlDynObj::FractionalScaleManager,
        )
    } else {
        required
    }
}

impl State {
    /// The state in which the bootstrap starts.
    pub open spec fn initial(cli_format: Option<PixelFormat>) -> State {
        State {
            phase: Phase::AwaitingDiscovery,
            global_names: seq![0u32, 0u32, 0u32, 0u32],
            output_names: Seq::empty(),
            fractional_scale: None,
            forced_shm_format: cli_format is Some,
            pixel_format: match cli_format {
                Some(format) => format,
                None => PixelFormat::Xrgb,
            },
            fractional_scale_support: false,
        }
    }

    /// What holds of every state that the bootstrap can be in.
    pub open spec fn wf(self) -> bool {
        &&& self.global_names.len() == 4
        &&& self.fractional_scale != Some(0u32)
        &&& self.fractional_scale_support ==> self.is_bound()
    }

    /// Whether the globals have been bound.
    pub open spec fn is_bound(self) -> bool {
        self.phase == Phase::AwaitingConfirmation || self.phase == Phase::Ready
    }

    /// Whether the fractional-scale manager takes an identifier: before the globals are
    /// bound, whether it has been announced; afterwards, whether it was bound.
    pub open spec fn takes_fractional_scale(self) -> bool {
        if self.is_bound() {
            self.fractional_scale_support
        } else {
            self.fractional_scale is Some
        }
    }

    /// The number of the callback of the second roundtrip: the one that follows the last
    /// bound global.
    pub open spec fn callback_id(self) -> u32 {
        if self.takes_fractional_scale() {
            (GlobalKind::FractionalScale.spec_object_id() + 1) as u32
        } else {
            (GlobalKind::LayerShell.spec_object_id() + 1) as u32
        }
    }

    /// The number of the callback whose deletion the bootstrap waits for.
    pub open spec fn awaited_callback(self) -> Option<u32> {
        match self.phase {
            Phase::AwaitingDiscovery => Some(FIRST_CALLBACK),
            Phase::AwaitingConfirmation => Some(self.callback_id()),
            _ => None,
        }
    }

    /// The objects that are live in this state.
    pub open spec fn objects(self) -> Bindings {
        let base = map![WL_DISPLAY => WlDynObj::Display, WL_REGISTRY => WlDynObj::Registry];
        match self.phase {
            Phase::AwaitingDiscovery => base.insert(FIRST_CALLBACK, WlDynObj::Callback),
            Phase::Discovered => base,
            Phase::AwaitingConfirmation => bound_objects(self.fractional_scale_support).insert(
                self.callback_id(),
                WlDynObj::Callback,
            ),
            Phase::Ready => bound_objects(self.fractional_scale_support),
        }
    }

    /// What to do with a message from the object numbered `sender`. During discovery
    /// only the callback, the display and the registry may speak. While the compositor
    /// confirms, the shared-memory global may speak too, and anyone else is ignored.
    pub open spec fn routed(self, sender: u32) -> Result<Route, InitError>
        recommends
            self.awaited_callback() is Some,
    {
        if sender == WL_DISPLAY {
            Ok(Route::Decode(WlDynObj::Display))
        } else if sender == WL_REGISTRY {
            Ok(Route::Decode(WlDynObj::Registry))
        } else if self.awaited_callback() == Some(sender) {
            Ok(Route::Decode(WlDynObj::Callback))
        } else if self.phase == Phase::AwaitingDiscovery {
            Err(InitError::UnexpectedSender)
        } else if sender == WL_SHM {
            Ok(Route::Decode(WlDynObj::Shm))
        } else {
            Ok(Route::Ignore)
        }
    }

    /// The state after the display has told that object `id` is gone: the next phase
    /// where `id` is the awaited callback, a failure where it is not.
    pub open spec fn after_delete_id(self, id: u32) -> Result<State, InitError> {
        if self.awaited_callback() == Some(id) {
            Ok(
                State {
                    phase: if self.phase == Phase::AwaitingDiscovery {
                        Phase::Discovered
                    } else {
                        Phase::Ready
                    },
                    ..self
                },
            )
        } else {
            Err(InitError::UnexpectedDelete { id })
        }
    }

    /// The state after the registry has announced a global.
    pub open spec fn after_global(self, name: u32, interface: Seq<char>, version: u32) -> Result<
        State,
        InitError,
    > {
        match classified(interface) {
            Announced::Known(GlobalKind::FractionalScale) => if name == 0 {
                Err(InitError::InvalidName)
            } else {
                Ok(State { fractional_scale: Some(name), ..self })
            },
            Announced::Known(global) => if version < global.spec_version() {
                Err(InitError::VersionTooLow(global))
            } else {
                Ok(
                    State {
                        global_names: self.global_names.update(global.spec_index(), name),
                        ..self
                    },
                )
            },
            Announced::Output => if version < OUTPUT_MIN_VERSION {
                Ok(self)
            } else {
                Ok(State { output_names: self.output_names.push(name), ..self })
            },
            Announced::Other => Ok(self),
        }
    }

    /// The state after the shared-memory global has offered the format `code`.
    pub open spec fn after_format(self, code: u32) -> State {
        State {
            pixel_format: after_offer(self.pixel_format, self.forced_shm_format, code),
            ..self
        }
    }

    /// The state after `event`, before anything is bound.
    pub open spec fn after_event(self, event: Event) -> Result<State, InitError> {
        match event {
            Event::DeleteId { id } => self.after_delete_id(id),
            Event::Done { .. } => Ok(self),
            Event::Global { name, interface, version } => self.after_global(
                name,
                interface@,
                version,
            ),
            Event::GlobalRemove { name } => Err(InitError::GlobalRemoved { name }),
            Event::Format { format } => Ok(self.after_format(format)),
        }
    }

    /// The first required global that has no name.
    pub open spec fn missing(self) -> Option<GlobalKind> {
        if self.global_names[0] == 0 {
            Some(GlobalKind::Compositor)
        } else if self.global_names[1] == 0 {
            Some(GlobalKind::Shm)
        } else if self.global_names[2] == 0 {
            Some(GlobalKind::Viewporter)
        } else if self.global_names[3] == 0 {
            Some(GlobalKind::LayerShell)
        } else {
            None
        }
    }

    /// The requests that bind the globals: the four required ones in the order of their
    /// identifiers, the fractional-scale manager where one was announced, and the
    /// roundtrip that confirms them.
    pub open spec fn bind_requests(self) -> Seq<WlRequest> {
        let required = seq![
            WlRequest::Bind { name: self.global_names[0], global: GlobalKind::Compositor },
            WlRequest::Bind { name: self.global_names[1], global: GlobalKind::Shm },
            WlRequest::Bind { name: self.global_names[2], global: GlobalKind::Viewporter },
            WlRequest::Bind { name: self.global_names[3], global: GlobalKind::LayerShell },
        ];
        let optional = match self.fractional_scale {
            Some(name) => seq![WlRequest::Bind { name, global: GlobalKind::FractionalScale }],
            None => Seq::<WlRequest>::empty(),
        };
        required + optional + seq![WlRequest::Sync { callback: ObjectId::of(self.callback_id()) }]
    }

    /// The state after the globals were bound.
    pub open spec fn after_bind(self) -> State {
        State {
            phase: Phase::AwaitingConfirmation,
            fractional_scale_support: self.fractional_scale is Some,
            ..self
        }
    }

    /// What the discovered globals lead to: their binding, or a failure that names the
    /// first required one that is missing.
    pub open spec fn bound(self) -> Step {
        match self.missing() {
            Some(global) => Step {
                state: self,
                requests: Seq::empty(),
                failure: Some(InitError::MissingGlobal(global)),
            },
            None => Step { state: self.after_bind(), requests: self.bind_requests(), failure: None },
        }
    }

    /// What `event` leads to. A failed event leaves the state as it was; the event that
    /// ends discovery binds the globals at once.
    pub open spec fn handled(self, event: Event) -> Step {
        match self.after_event(event) {
            Err(error) => Step { state: self, requests: Seq::empty(), failure: Some(error) },
            Ok(next) => if next.phase == Phase::Discovered {
                next.bound()
            } else {
                Step { state: next, requests: Seq::empty(), failure: None }
            },
        }
    }
}

/// What `events` lead to, taken one after the other from the start of a bootstrap; the
/// events after a failure are not looked at.
pub open spec fn run(cli_format: Option<PixelFormat>, events: Seq<Event>) -> Trace
    decreases events.len(),
{
    if events.len() == 0 {
        Trace { state: State::initial(cli_format), sent: Seq::empty(), failure: None }
    } else {
        let before = run(cli_format, events.drop_last());
        if before.failure is Some {
            before
        } else {
            let step = before.state.handled(events.last());
            Trace {
                state: step.state,
                sent: before.sent + step.requests,
                failure: step.failure,
            }
        }
    }
}

/// Every step keeps a state well formed.
pub proof fn lemma_handled_keeps_wf(state: State, event: Event)
    requires
        state.wf(),
    ensures
        state.handled(event).state.wf(),
{
}

/// A message is decoded by the interface that its sender is bound to.
pub proof fn lemma_routed_by_binding(state: State, sender: u32, object: WlDynObj)
    requires
        state.wf(),
        state.awaited_callback() is Some,
        state.routed(sender) == Ok::<Route, InitError>(Route::Decode(object)),
    ensures
        state.objects().dom().contains(sender),
        state.objects()[sender] == object,
{
}

} // verus!
