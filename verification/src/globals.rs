//! What a completed bootstrap hands to the rest of the program: the object registry,
//! the pixel format and whether fractional scaling can be used.

use crate::object::{has_room, is_lowest_free, Bindings, ObjectId, ObjectManager, WlDynObj};
use crate::pixel_format::PixelFormat;
use vstd::prelude::*;

verus! {

/// The negotiated state. Only a completed bootstrap makes one.
pub struct Globals {
    objects: ObjectManager,
    pixel_format: PixelFormat,
    fractional_scale_support: bool,
}

impl Globals {
    /// The representation invariant.
    pub closed spec fn wf(&self) -> bool {
        self.objects.wf()
    }

    /// Which interface each live identifier is bound to.
    pub closed spec fn objects(&self) -> Bindings {
        self.objects@
    }

    /// The pixel format that was decided on.
    pub closed spec fn spec_pixel_format(&self) -> PixelFormat {
        self.pixel_format
    }

    /// Whether the fractional-scale manager was bound.
    pub closed spec fn spec_fractional_scale_support(&self) -> bool {
        self.fractional_scale_support
    }

    pub(crate) fn new(
        objects: ObjectManager,
        pixel_format: PixelFormat,
        fractional_scale_support: bool,
    ) -> (globals: Globals)
        requires
            objects.wf(),
        ensures
            globals.wf(),
            globals.objects() == objects@,
            globals.spec_pixel_format() == pixel_format,
            globals.spec_fractional_scale_support() == fractional_scale_support,
    {
        Globals { objects, pixel_format, fractional_scale_support }
    }
}

/// Whether the compositor has a fractional-scale manager and it was bound.
#[must_use]
pub fn fractional_scale_support(globals: &Globals) -> (support: bool)
    ensures
        support == globals.spec_fractional_scale_support(),
{
    globals.fractional_scale_support
}

/// The pixel format that was decided on.
#[must_use]
pub fn pixel_format(globals: &Globals) -> (format: PixelFormat)
    ensures
        format == globals.spec_pixel_format(),
{
    globals.pixel_format
}

/// The code under which the compositor knows the pixel format that was decided on.
#[must_use]
pub fn wl_shm_format(globals: &Globals) -> (code: u32)
    ensures
        code == globals.spec_pixel_format().spec_wl_shm_format(),
{
    globals.pixel_format.wl_shm_format()
}

/// Whether `object_id` is bound.
#[must_use]
pub fn object_is_bound(globals: &Globals, object_id: ObjectId) -> (bound: bool)
    requires
        globals.wf(),
    ensures
        bound == globals.objects().dom().contains(object_id@),
{
    globals.objects.contains(object_id)
}

/// The interface bound to `object_id`.
#[must_use]
pub fn object_type_get(globals: &Globals, object_id: ObjectId) -> (object_type: WlDynObj)
    requires
        globals.wf(),
        globals.objects().dom().contains(object_id@),
    ensures
        object_type == globals.objects()[object_id@],
{
    globals.objects.get(object_id)
}

/// Binds the lowest free identifier above the reserved range to `object_type` and
/// returns it; `None`, with nothing changed, when no such identifier is free.
#[must_use]
pub fn object_try_create(globals: &mut Globals, object_type: WlDynObj) -> (created: Option<
    ObjectId,
>)
    requires
        old(globals).wf(),
    ensures
        final(globals).wf(),
        final(globals).spec_pixel_format() == old(globals).spec_pixel_format(),
        final(globals).spec_fractional_scale_support() == old(globals).spec_fractional_scale_support(),
        created is Some <==> has_room(old(globals).objects()),
        created matches Some(id) ==> is_lowest_free(old(globals).objects(), id@) && final(globals).objects() == old(globals).objects().insert(id@, object_type),
        created is None ==> final(globals).objects() == old(globals).objects(),
{
    globals.objects.try_create(object_type)
}

/// Binds the lowest free identifier above the reserved range to `object_type` and
/// returns it.
#[must_use]
pub fn object_create(globals: &mut Globals, object_type: WlDynObj) -> (object_id: ObjectId)
    requires
        old(globals).wf(),
        has_room(old(globals).objects()),
    ensures
        final(globals).wf(),
        final(globals).spec_pixel_format() == old(globals).spec_pixel_format(),
        final(globals).spec_fractional_scale_support() == old(globals).spec_fractional_scale_support(),
        is_lowest_free(old(globals).objects(), object_id@),
        final(globals).objects() == old(globals).objects().insert(object_id@, object_type),
{
    globals.objects.create(object_type)
}

/// Unbinds `object_id`, which may then be handed out again.
pub fn object_remove(globals: &mut Globals, object_id: ObjectId)
    requires
        old(globals).wf(),
        old(globals).objects().dom().contains(object_id@),
    ensures
        final(globals).wf(),
        final(globals).spec_pixel_format() == old(globals).spec_pixel_format(),
        final(globals).spec_fractional_scale_support() == old(globals).spec_fractional_scale_support(),
        final(globals).objects() == old(globals).objects().remove(object_id@),
{
    globals.objects.remove(object_id)
}

} // verus!
