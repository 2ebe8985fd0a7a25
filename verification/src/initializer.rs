//! The negotiator that drives the bootstrap: it takes decoded events, keeps what they
//! tell, and says which requests to send.

use crate::globals::Globals;
use crate::object::{ObjectId, ObjectManager, WlDynObj};
use crate::pixel_format::PixelFormat;
use crate::protocol::{
    classify, outcome_of, Action, Announced, Event, GlobalKind, GlobalOutcome, InitError, Phase,
    WlRequest, FIRST_CALLBACK, OUTPUT_MIN_VERSION, WL_DISPLAY, WL_REGISTRY, WL_SHM,
};
use crate::state::{opening_requests, Route, State};
use vstd::prelude::*;

verus! {

/// Does the whole bootstrap: discovery of the globals, their binding, and the wait for
/// the compositor's confirmation.
pub struct Initializer {
    global_names: [u32; 4],
    output_names: Vec<u32>,
    fractional_scale: Option<(ObjectId, u32)>,
    forced_shm_format: bool,
    phase: Phase,
    pixel_format: PixelFormat,
    fractional_scale_support: bool,
    objects: ObjectManager,
}

impl View for Initializer {
    type V = State;

    closed spec fn view(&self) -> State {
        State {
            phase: self.phase,
            global_names: self.global_names@,
            output_names: self.output_names@,
            fractional_scale: match self.fractional_scale {
                Some(descriptor) => Some(descriptor.1),
                None => None,
            },
            forced_shm_format: self.forced_shm_format,
            pixel_format: self.pixel_format,
            fractional_scale_support: self.fractional_scale_support,
        }
    }
}

impl Initializer {
    /// The representation invariant.
    pub closed spec fn wf(&self) -> bool {
        &&& self@.wf()
        &&& self.objects.wf()
        &&& self.objects@ == self@.objects()
        &&& self.fractional_scale matches Some(descriptor) ==> descriptor.0@
            == GlobalKind::FractionalScale.spec_object_id()
    }

    /// A bootstrap at its start: the display, the registry and the callback of the first
    /// roundtrip are live, and the pixel format is the forced one, or the one that every
    /// compositor offers.
    pub fn new(cli_format: Option<PixelFormat>) -> (initializer: Initializer)
        ensures
            initializer.wf(),
            initializer@ == State::initial(cli_format),
    {
        let mut objects = ObjectManager::new();
        objects.bind(ObjectId::new(FIRST_CALLBACK).unwrap(), WlDynObj::Callback);
        let initializer = Initializer {
            global_names: [0; 4],
            output_names: Vec::new(),
            fractional_scale: None,
            forced_shm_format: cli_format.is_some(),
            phase: Phase::AwaitingDiscovery,
            pixel_format: match cli_format {
                Some(format) => format,
                None => PixelFormat::Xrgb,
            },
            fractional_scale_support: false,
            objects,
        };
        assert(initializer@.global_names =~= State::initial(cli_format).global_names);
        initializer
    }

    /// The requests that open the bootstrap: for the registry, and for the first
    /// roundtrip.
    pub fn opening_requests() -> (requests: Vec<WlRequest>)
        ensures
            requests@ == opening_requests(),
    {
        let mut requests: Vec<WlRequest> = Vec::new();
        requests.push(WlRequest::GetRegistry);
        requests.push(WlRequest::Sync { callback: ObjectId::new(FIRST_CALLBACK).unwrap() });
        assert(requests@ =~= opening_requests());
        requests
    }

    /// The stage the bootstrap is in.
    pub fn phase(&self) -> (phase: Phase)
        ensures
            phase == self@.phase,
    {
        self.phase
    }

    /// The pixel format decided on so far.
    pub fn pixel_format(&self) -> (format: PixelFormat)
        ensures
            format == self@.pixel_format,
    {
        self.pixel_format
    }

    /// Whether the fractional-scale manager was bound.
    pub fn fractional_scale_support(&self) -> (support: bool)
        ensures
            support == self@.fractional_scale_support,
    {
        self.fractional_scale_support
    }

    /// The objects that are live.
    pub fn objects(&self) -> (objects: &ObjectManager)
        requires
            self.wf(),
        ensures
            objects.wf(),
            objects@ == self@.objects(),
    {
        &self.objects
    }

    /// The identifier of the callback of the second roundtrip.
    pub fn callback_id(&self) -> (id: ObjectId)
        ensures
            id@ == self@.callback_id(),
            id == ObjectId::of(self@.callback_id()),
    {
        let bound = match self.phase {
            Phase::AwaitingConfirmation | Phase::Ready => true,
            _ => false,
        };
        let taken = if bound {
            self.fractional_scale_support
        } else {
            self.fractional_scale.is_some()
        };
        if taken {
            ObjectId::new(8).unwrap()
        } else {
            ObjectId::new(7).unwrap()
        }
    }

    /// The names of the usable outputs, in the order of their announcement.
    pub fn output_names(&self) -> (names: &[u32])
        ensures
            names@ == self@.output_names,
    {
        self.output_names.as_slice()
    }

    /// The identifier kept for the fractional-scale manager and the name under which it
    /// was last announced, if it was.
    pub fn fractional_scale(&self) -> (descriptor: Option<&(ObjectId, u32)>)
        requires
            self.wf(),
        ensures
            match descriptor {
                Some(found) => self@.fractional_scale == Some(found.1) && found.1 != 0 && found.0@
                    == GlobalKind::FractionalScale.spec_object_id(),
                None => self@.fractional_scale is None,
            },
    {
        self.fractional_scale.as_ref()
    }

    fn awaited_callback(&self) -> (awaited: Option<u32>)
        ensures
            awaited == self@.awaited_callback(),
    {
        match self.phase {
            Phase::AwaitingDiscovery => Some(FIRST_CALLBACK),
            Phase::AwaitingConfirmation => Some(self.callback_id().get()),
            _ => None,
        }
    }

    /// What to do with a message from `sender` while the bootstrap waits for a
    /// callback.
    pub fn route(&self, sender: ObjectId) -> (route: Result<Route, InitError>)
        requires
            self.wf(),
            self@.awaited_callback() is Some,
        ensures
            route == self@.routed(sender@),
    {
        let raw: u32 = sender.get();
        let awaited: u32 = self.awaited_callback().unwrap();
        match self.phase {
            Phase::AwaitingDiscovery => {
                if raw == awaited {
                    Ok(Route::Decode(WlDynObj::Callback))
                } else if raw == WL_DISPLAY {
                    Ok(Route::Decode(WlDynObj::Display))
                } else if raw == WL_REGISTRY {
                    Ok(Route::Decode(WlDynObj::Registry))
                } else {
                    Err(InitError::UnexpectedSender)
                }
            },
            _ => {
                if raw == WL_DISPLAY {
                    Ok(Route::Decode(WlDynObj::Display))
                } else if raw == WL_REGISTRY {
                    Ok(Route::Decode(WlDynObj::Registry))
                } else if raw == WL_SHM {
                    Ok(Route::Decode(WlDynObj::Shm))
                } else if raw == awaited {
                    Ok(Route::Decode(WlDynObj::Callback))
                } else {
                    Ok(Route::Ignore)
                }
            },
        }
    }

    /// Takes note that object `id` is gone. Where `id` is the callback that the
    /// bootstrap waits for, the phase ends; any other deletion is an error and changes
    /// nothing.
    pub fn delete_id(&mut self, id: u32) -> (result: Result<(), InitError>)
        requires
            old(self).wf(),
        ensures
            final(self).wf(),
            match old(self)@.after_delete_id(id) {
                Ok(next) => result is Ok && final(self)@ == next,
                Err(error) => result == Err::<(), InitError>(error) && final(self)@ == old(self)@,
            },
    {
        let awaited = self.awaited_callback();
        if awaited.is_some() && awaited.unwrap() == id {
            self.objects.remove(ObjectId::new(id).unwrap());
            self.phase = match self.phase {
                Phase::AwaitingDiscovery => Phase::Discovered,
                _ => Phase::Ready,
            };
            assert(self.objects@ =~= self@.objects());
            Ok(())
        } else {
            Err(InitError::UnexpectedDelete { id })
        }
    }

    /// Tells which roundtrip the callback `sender_id` belongs to. That a callback has
    /// fired changes nothing: a phase ends when its callback is deleted.
    pub fn done(&self, sender_id: ObjectId, _callback_data: u32) -> (roundtrip: &'static str)
        ensures
            roundtrip@ == (if sender_id@ == FIRST_CALLBACK {
                "first"@
            } else {
                "second"@
            }),
    {
        if sender_id.get() == FIRST_CALLBACK {
            "first"
        } else {
            "second"
        }
    }

    /// Takes note of an announced global. The name of a global that the bootstrap
    /// binds is kept, the last announcement winning; an output is added to the list
    /// unless its version is too low. A required global below the version needed, or
    /// a fractional-scale manager under the name 0, is an error and changes nothing.
    pub fn global(&mut self, name: u32, interface: &str, version: u32) -> (result: Result<
        GlobalOutcome,
        InitError,
    >)
        requires
            old(self).wf(),
        ensures
            final(self).wf(),
            match old(self)@.after_global(name, interface@, version) {
                Ok(next) => result == Ok::<GlobalOutcome, InitError>(
                    outcome_of(interface@, version),
                ) && final(self)@ == next,
                Err(error) => result == Err::<GlobalOutcome, InitError>(error) && final(self)@
                    == old(self)@,
            },
    {
        match classify(interface) {
            Announced::Known(GlobalKind::FractionalScale) => {
                if name == 0 {
                    return Err(InitError::InvalidName);
                }
                self.fractional_scale = Some((GlobalKind::FractionalScale.object_id(), name));
                Ok(GlobalOutcome::Recorded)
            },
            Announced::Known(global) => {
                if version < global.version() {
                    return Err(InitError::VersionTooLow(global));
                }
                let i: usize = (global.object_id().get() - GlobalKind::Compositor.object_id().get()) as usize;
                self.global_names[i] = name;
                Ok(GlobalOutcome::Recorded)
            },
            Announced::Output => {
                if version < OUTPUT_MIN_VERSION {
                    Ok(GlobalOutcome::OutputTooOld)
                } else {
                    self.output_names.push(name);
                    Ok(GlobalOutcome::Recorded)
                }
            },
            Announced::Other => Ok(GlobalOutcome::Ignored),
        }
    }

    /// A global was withdrawn: an error at any time, which changes nothing.
    pub fn global_remove(&mut self, name: u32) -> (result: Result<(), InitError>)
        ensures
            result == Err::<(), InitError>(InitError::GlobalRemoved { name }),
            *final(self) == *old(self),
    {
        Err(InitError::GlobalRemoved { name })
    }

    /// Takes note of a pixel format that the compositor offers.
    pub fn format(&mut self, format: u32)
        requires
            old(self).wf(),
        ensures
            final(self).wf(),
            final(self)@ == old(self)@.after_format(format),
    {
        if !self.forced_shm_format {
            self.pixel_format = self.pixel_format.refine(format);
        }
    }

    fn missing(&self) -> (missing: Option<GlobalKind>)
        ensures
            missing == self@.missing(),
    {
        if self.global_names[0] == 0 {
            Some(GlobalKind::Compositor)
        } else if self.global_names[1] == 0 {
            Some(GlobalKind::Shm)
        } else if self.global_names[2] == 0 {
            Some(GlobalKind::Viewporter)
        } else if self.global_names[3] == 0 {
            Some(GlobalKind::LayerShell)
        } else {
            None
        }
    }

    fn bind(&mut self, name: u32, global: GlobalKind, requests: &mut Vec<WlRequest>)
        requires
            old(self).objects.wf(),
            !old(self).objects@.dom().contains(global.spec_object_id()),
        ensures
            final(self).objects.wf(),
            final(self).objects@ == old(self).objects@.insert(
                global.spec_object_id(),
                global.spec_object_type(),
            ),
            final(self)@ == old(self)@,
            final(self).fractional_scale == old(self).fractional_scale,
            final(requests)@ == old(requests)@.push(WlRequest::Bind { name, global }),
    {
        self.objects.bind(global.object_id(), global.object_type());
        requests.push(WlRequest::Bind { name, global });
    }

    /// Binds the discovered globals and says which requests do so. Where a required
    /// global was never announced, nothing is bound and the error names the first such
    /// global.
    pub fn bind_globals(&mut self) -> (result: Result<Vec<WlRequest>, InitError>)
        requires
            old(self).wf(),
            old(self)@.phase == Phase::Discovered,
        ensures
            final(self).wf(),
            final(self)@ == old(self)@.bound().state,
            match result {
                Ok(requests) => old(self)@.bound().failure is None && requests@ == old(self)@.bound().requests,
                Err(error) => old(self)@.bound().failure == Some(error),
            },
    {
        if let Some(global) = self.missing() {
            return Err(InitError::MissingGlobal(global));
        }
        let mut requests: Vec<WlRequest> = Vec::new();
        let callback = self.callback_id();
        self.bind(self.global_names[0], GlobalKind::Compositor, &mut requests);
        self.bind(self.global_names[1], GlobalKind::Shm, &mut requests);
        self.bind(self.global_names[2], GlobalKind::Viewporter, &mut requests);
        self.bind(self.global_names[3], GlobalKind::LayerShell, &mut requests);
        if let Some((_, name)) = self.fractional_scale {
            self.bind(name, GlobalKind::FractionalScale, &mut requests);
            self.fractional_scale_support = true;
        }
        self.objects.bind(callback, WlDynObj::Callback);
        requests.push(WlRequest::Sync { callback });
        self.phase = Phase::AwaitingConfirmation;
        assert(requests@ =~= old(self)@.bind_requests());
        Ok(requests)
    }

    /// Handles one decoded event: takes note of what it tells and says what to do
    /// next. The event that ends discovery binds the globals at once.
    pub fn handle(&mut self, event: &Event) -> (result: Result<Action, InitError>)
        requires
            old(self).wf(),
        ensures
            final(self).wf(),
            final(self)@ == old(self)@.handled(*event).state,
            match result {
                Ok(Action::Continue) => {
                    let step = old(self)@.handled(*event);
                    step.failure is None && step.requests.len() == 0 && step.state.phase
                        != Phase::Ready
                },
                Ok(Action::Send(requests)) => {
                    let step = old(self)@.handled(*event);
                    step.failure is None && step.requests.len() > 0 && requests@
                        == step.requests
                },
                Ok(Action::Finished) => {
                    let step = old(self)@.handled(*event);
                    step.failure is None && step.requests.len() == 0 && step.state.phase
                        == Phase::Ready
                },
                Err(error) => old(self)@.handled(*event).failure == Some(error),
            },
    {
        let noted: Result<(), InitError> = match event {
            Event::DeleteId { id } => self.delete_id(*id),
            Event::Done { .. } => Ok(()),
            Event::Global { name, interface, version } => match self.global(
                *name,
                interface.as_str(),
                *version,
            ) {
                Ok(_) => Ok(()),
                Err(error) => Err(error),
            },
            Event::GlobalRemove { name } => self.global_remove(*name),
            Event::Format { format } => {
                self.format(*format);
                Ok(())
            },
        };
        if let Err(error) = noted {
            return Err(error);
        }
        match self.phase {
            Phase::Discovered => match self.bind_globals() {
                Ok(requests) => Ok(Action::Send(requests)),
                Err(error) => Err(error),
            },
            Phase::Ready => Ok(Action::Finished),
            _ => Ok(Action::Continue),
        }
    }

    /// The negotiated state, once the bootstrap is complete.
    pub fn globals(&self) -> (globals: Option<Globals>)
        requires
            self.wf(),
        ensures
            globals is Some <==> self@.phase == Phase::Ready,
            globals matches Some(published) ==> {
                &&& published.wf()
                &&& published.objects() == self@.objects()
                &&& published.spec_pixel_format() == self@.pixel_format
                &&& published.spec_fractional_scale_support() == self@.fractional_scale_support
            },
    {
        match self.phase {
            Phase::Ready => Some(
                Globals::new(
                    self.objects.clone(),
                    self.pixel_format,
                    self.fractional_scale_support,
                ),
            ),
            _ => None,
        }
    }
}

} // verus!
