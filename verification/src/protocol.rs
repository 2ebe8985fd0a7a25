//! What the bootstrap exchanges with the compositor: the globals it binds, the events it
//! takes, the requests it sends and the errors that end it.

use crate::object::{ObjectId, WlDynObj};
use crate::text::{decimal, push_decimal};
use vstd::prelude::*;
use vstd::string::*;

verus! {

/// Number of the display, the object every connection starts with.
pub const WL_DISPLAY: u32 = 1;

/// Number of the registry object.
pub const WL_REGISTRY: u32 = 2;

/// Number the compositor global is bound to.
pub const WL_COMPOSITOR: u32 = 3;

/// Number the shared-memory global is bound to.
pub const WL_SHM: u32 = 4;

/// Number the viewporter global is bound to.
pub const WP_VIEWPORTER: u32 = 5;

/// Number the layer-shell global is bound to.
pub const ZWLR_LAYER_SHELL_V1: u32 = 6;

/// Number the fractional-scale manager is bound to, where the compositor has one.
pub const WP_FRACTIONAL_SCALE_MANAGER_V1: u32 = 7;

/// Number of the callback of the first roundtrip.
pub const FIRST_CALLBACK: u32 = 3;

/// Outputs announced below this version are of no use.
pub const OUTPUT_MIN_VERSION: u32 = 4;

/// A global that the bootstrap binds: the four it cannot do without, in the order of
/// their identifiers, and the optional fractional-scale manager.
#[derive(Clone, Copy, Debug, PartialEq, Eq, Structural)]
pub enum GlobalKind {
    Compositor,
    Shm,
    Viewporter,
    LayerShell,
    FractionalScale,
}

impl GlobalKind {
    /// Whether the bootstrap fails without this global.
    pub open spec fn spec_is_required(self) -> bool {
        self != GlobalKind::FractionalScale
    }

    /// Position among the required globals.
    pub open spec fn spec_index(self) -> int {
        self.spec_object_id() - WL_COMPOSITOR
    }

    /// The interface name under which the compositor announces this global.
    pub open spec fn spec_interface(self) -> Seq<char> {
        match self {
            GlobalKind::Compositor => "wl_compositor"@,
            GlobalKind::Shm => "wl_shm"@,
            GlobalKind::Viewporter => "wp_viewporter"@,
            GlobalKind::LayerShell => "zwlr_layer_shell_v1"@,
            GlobalKind::FractionalScale => "wp_fractional_scale_manager_v1"@,
        }
    }

    /// The version this global is bound at; for a required global also the lowest
    /// version the compositor may announce.
    pub open spec fn spec_version(self) -> u32 {
        match self {
            GlobalKind::Compositor => 4,
            GlobalKind::Shm => 1,
            GlobalKind::Viewporter => 1,
            GlobalKind::LayerShell => 3,
            GlobalKind::FractionalScale => 1,
        }
    }

    /// The number of the identifier this global is bound to.
    pub open spec fn spec_object_id(self) -> u32 {
        match self {
            GlobalKind::Compositor => WL_COMPOSITOR,
            GlobalKind::Shm => WL_SHM,
            GlobalKind::Viewporter => WP_VIEWPORTER,
            GlobalKind::LayerShell => ZWLR_LAYER_SHELL_V1,
            GlobalKind::FractionalScale => WP_FRACTIONAL_SCALE_MANAGER_V1,
        }
    }

    /// The interface that the bound object speaks.
    pub open spec fn spec_object_type(self) -> WlDynObj {
        match self {
            GlobalKind::Compositor => WlDynObj::Compositor,
            GlobalKind::Shm => WlDynObj::Shm,
            GlobalKind::Viewporter => WlDynObj::Viewporter,
            GlobalKind::LayerShell => WlDynObj::LayerShell,
            GlobalKind::FractionalScale => WlDynObj::FractionalScaleManager,
        }
    }

    /// Whether the bootstrap fails without this global.
    pub fn is_required(&self) -> (required: bool)
        ensures
            required == self.spec_is_required(),
    {
        match self {
            GlobalKind::FractionalScale => false,
            _ => true,
        }
    }

    /// The interface name under which the compositor announces this global.
    pub fn interface(&self) -> (name: &'static str)
        ensures
            name@ == self.spec_interface(),
    {
        match self {
            GlobalKind::Compositor => "wl_compositor",
            GlobalKind::Shm => "wl_shm",
            GlobalKind::Viewporter => "wp_viewporter",
            GlobalKind::LayerShell => "zwlr_layer_shell_v1",
            GlobalKind::FractionalScale => "wp_fractional_scale_manager_v1",
        }
    }

    /// The version this global is bound at.
    pub fn version(&self) -> (version: u32)
        ensures
            version == self.spec_version(),
    {
        match self {
            GlobalKind::Compositor => 4,
            GlobalKind::Shm => 1,
            GlobalKind::Viewporter => 1,
            GlobalKind::LayerShell => 3,
            GlobalKind::FractionalScale => 1,
        }
    }

    /// The identifier this global is bound to.
    pub fn object_id(&self) -> (id: ObjectId)
        ensures
            id@ == self.spec_object_id(),
            id == ObjectId::of(self.spec_object_id()),
    {
        let raw: u32 = match self {
            GlobalKind::Compositor => WL_COMPOSITOR,
            GlobalKind::Shm => WL_SHM,
            GlobalKind::Viewporter => WP_VIEWPORTER,
            GlobalKind::LayerShell => ZWLR_LAYER_SHELL_V1,
            GlobalKind::FractionalScale => WP_FRACTIONAL_SCALE_MANAGER_V1,
        };
        ObjectId::new(raw).unwrap()
    }

    /// The interface that the bound object speaks.
    pub fn object_type(&self) -> (object: WlDynObj)
        ensures
            object == self.spec_object_type(),
    {
        match self {
            GlobalKind::Compositor => WlDynObj::Compositor,
            GlobalKind::Shm => WlDynObj::Shm,
            GlobalKind::Viewporter => WlDynObj::Viewporter,
            GlobalKind::LayerShell => WlDynObj::LayerShell,
            GlobalKind::FractionalScale => WlDynObj::FractionalScaleManager,
        }
    }
}

/// What an announced interface name means to the bootstrap.
#[derive(Clone, Copy, Debug, PartialEq, Eq, Structural)]
pub enum Announced {
    /// One of the globals that the bootstrap binds.
    Known(GlobalKind),
    /// An output.
    Output,
    /// Anything else.
    Other,
}

/// What the interface name `interface` means to the bootstrap.
pub open spec fn classified(interface: Seq<char>) -> Announced {
    if interface == GlobalKind::FractionalScale.spec_interface() {
        Announced::Known(GlobalKind::FractionalScale)
    } else if interface == "wl_output"@ {
        Announced::Output
    } else if interface == GlobalKind::Compositor.spec_interface() {
        Announced::Known(GlobalKind::Compositor)
    } else if interface == GlobalKind::Shm.spec_interface() {
        Announced::Known(GlobalKind::Shm)
    } else if interface == GlobalKind::Viewporter.spec_interface() {
        Announced::Known(GlobalKind::Viewporter)
    } else if interface == GlobalKind::LayerShell.spec_interface() {
        Announced::Known(GlobalKind::LayerShell)
    } else {
        Announced::Other
    }
}

fn same_text(a: &str, b: &str) -> (same: bool)
    ensures
        same == (a@ == b@),
{
    let a = a.to_owned();
    let b = b.to_owned();
    a == b
}

/// What the interface name `interface` means to the bootstrap.
pub fn classify(interface: &str) -> (announced: Announced)
    ensures
        announced == classified(interface@),
{
    if same_text(interface, GlobalKind::FractionalScale.interface()) {
        Announced::Known(GlobalKind::FractionalScale)
    } else if same_text(interface, "wl_output") {
        Announced::Output
    } else if same_text(interface, GlobalKind::Compositor.interface()) {
        Announced::Known(GlobalKind::Compositor)
    } else if same_text(interface, GlobalKind::Shm.interface()) {
        Announced::Known(GlobalKind::Shm)
    } else if same_text(interface, GlobalKind::Viewporter.interface()) {
        Announced::Known(GlobalKind::Viewporter)
    } else if same_text(interface, GlobalKind::LayerShell.interface()) {
        Announced::Known(GlobalKind::LayerShell)
    } else {
        Announced::Other
    }
}

/// Every global is recognised by its own interface name, and an output by its.
pub proof fn lemma_interface_names_are_recognised(global: GlobalKind)
    ensures
        classified(global.spec_interface()) == Announced::Known(global),
        classified("wl_output"@) == Announced::Output,
{
    reveal_strlit("wl_compositor");
    reveal_strlit("wl_shm");
    reveal_strlit("wp_viewporter");
    reveal_strlit("zwlr_layer_shell_v1");
    reveal_strlit("wp_fractional_scale_manager_v1");
    reveal_strlit("wl_output");
    assert("wl_compositor"@.len() == 13 && "wl_compositor"@[1] == 'l');
    assert("wp_viewporter"@.len() == 13 && "wp_viewporter"@[1] == 'p');
    assert("wl_shm"@.len() == 6);
    assert("zwlr_layer_shell_v1"@.len() == 19);
    assert("wp_fractional_scale_manager_v1"@.len() == 30);
    assert("wl_output"@.len() == 9);
}

/// A request that the bootstrap sends.
#[derive(Clone, Copy, Debug, PartialEq, Eq, Structural)]
pub enum WlRequest {
    /// Asks the display for the registry, which becomes object 2.
    GetRegistry,
    /// Asks the display for a callback that is deleted once everything sent before has
    /// been handled.
    Sync { callback: ObjectId },
    /// Binds the global announced under `name` to the identifier, at the version and
    /// under the interface name of `global`.
    Bind { name: u32, global: GlobalKind },
}

/// An event that the bootstrap takes, decoded.
#[derive(Debug)]
pub enum Event {
    /// The display tells that object `id` is gone.
    DeleteId { id: u32 },
    /// A callback has fired.
    Done { sender_id: ObjectId, callback_data: u32 },
    /// The registry announces a global.
    Global { name: u32, interface: String, version: u32 },
    /// The registry withdraws a global.
    GlobalRemove { name: u32 },
    /// The shared-memory global offers a pixel format.
    Format { format: u32 },
}

/// What became of an announced global.
#[derive(Clone, Copy, Debug, PartialEq, Eq, Structural)]
pub enum GlobalOutcome {
    /// Its name was taken down.
    Recorded,
    /// It is an output of too low a version and was passed over.
    OutputTooOld,
    /// The bootstrap has no use for it.
    Ignored,
}

/// What became of a global announced as `interface` at `version`, where the
/// announcement did no harm.
pub open spec fn outcome_of(interface: Seq<char>, version: u32) -> GlobalOutcome {
    match classified(interface) {
        Announced::Known(_) => GlobalOutcome::Recorded,
        Announced::Output => if version < OUTPUT_MIN_VERSION {
            GlobalOutcome::OutputTooOld
        } else {
            GlobalOutcome::Recorded
        },
        Announced::Other => GlobalOutcome::Ignored,
    }
}

/// What the caller is to do after an event was handled.
#[derive(Debug)]
pub enum Action {
    /// Receive the next message.
    Continue,
    /// Send these requests, in order, then receive the next message.
    Send(Vec<WlRequest>),
    /// Stop: the bootstrap is complete.
    Finished,
}

/// The stages of the bootstrap.
#[derive(Clone, Copy, Debug, PartialEq, Eq, Structural)]
pub enum Phase {
    /// The registry was asked for; globals are coming in.
    AwaitingDiscovery,
    /// All globals are known; nothing is bound yet.
    Discovered,
    /// The globals are bound; the compositor has yet to confirm.
    AwaitingConfirmation,
    /// The compositor has handled every request.
    Ready,
}

/// Why the bootstrap cannot go on.
#[derive(Clone, Copy, Debug, PartialEq, Eq, Structural)]
pub enum InitError {
    /// The compositor never announced a required global.
    MissingGlobal(GlobalKind),
    /// The compositor announced a required global below the version needed.
    VersionTooLow(GlobalKind),
    /// A message came from an object that discovery does not listen to.
    UnexpectedSender,
    /// An object other than the awaited callback was deleted.
    UnexpectedDelete { id: u32 },
    /// A global was withdrawn.
    GlobalRemoved { name: u32 },
    /// The fractional-scale manager was announced under the name 0.
    InvalidName,
}

impl InitError {
    /// The line shown to the user.
    pub open spec fn spec_message(self) -> Seq<char> {
        match self {
            InitError::MissingGlobal(global) => "Compositor does not implement required interface: "@
                + global.spec_interface(),
            InitError::VersionTooLow(global) => global.spec_interface()
                + " version must be at least "@ + decimal(global.spec_version() as nat)
                + " for swww"@,
            InitError::UnexpectedSender => "Did not receive expected global events from registry"@,
            InitError::UnexpectedDelete { id } => "ObjectId removed during initialization! This should be very rare, which is why we don't deal with it"@,
            InitError::GlobalRemoved { name } => "Global removed during initialization! This should be very rare, which is why we don't deal with it"@,
            InitError::InvalidName => "wp_fractional_scale_manager_v1 announced under an invalid name"@,
        }
    }

    /// The line shown to the user.
    pub fn message(&self) -> (line: String)
        ensures
            line@ == self.spec_message(),
    {
        match self {
            InitError::MissingGlobal(global) => {
                let line = String::from_str("Compositor does not implement required interface: ");
                line.concat(global.interface())
            },
            InitError::VersionTooLow(global) => {
                let mut line = String::from_str(global.interface());
                line.append(" version must be at least ");
                push_decimal(&mut line, global.version() as u64);
                line.append(" for swww");
                line
            },
            InitError::UnexpectedSender => String::from_str(
                "Did not receive expected global events from registry",
            ),
            InitError::UnexpectedDelete { .. } => String::from_str(
                "ObjectId removed during initialization! This should be very rare, which is why we don't deal with it",
            ),
            InitError::GlobalRemoved { .. } => String::from_str(
                "Global removed during initialization! This should be very rare, which is why we don't deal with it",
            ),
            InitError::InvalidName => String::from_str(
                "wp_fractional_scale_manager_v1 announced under an invalid name",
            ),
        }
    }
}

/// The line that tells of an unexpected deletion cannot be taken for one that tells of
/// a missing global.
pub proof fn lemma_delete_and_missing_messages_differ(id: u32, global: GlobalKind)
    ensures
        (InitError::UnexpectedDelete { id }).spec_message() != InitError::MissingGlobal(
            global,
        ).spec_message(),
{
    reveal_strlit("Compositor does not implement required interface: ");
    reveal_strlit(
        "ObjectId removed during initialization! This should be very rare, which is why we don't deal with it",
    );
    let deleted = (InitError::UnexpectedDelete { id }).spec_message();
    let missing = InitError::MissingGlobal(global).spec_message();
    assert(deleted[0] == 'O');
    assert(missing[0] == 'C');
}

} // verus!
