use swww_proto::globals::{
    fractional_scale_support, object_create, object_is_bound, object_remove, object_try_create,
    object_type_get, pixel_format, wl_shm_format,
};
use swww_proto::initializer::Initializer;
use swww_proto::object::{ObjectId, ObjectManager, WlDynObj, RESERVED_IDS};
use swww_proto::pixel_format::PixelFormat;
use swww_proto::protocol::{Action, Event};

fn id(raw: u32) -> ObjectId {
    ObjectId::new(raw).unwrap()
}

fn announce(name: u32, interface: &str, version: u32) -> Event {
    Event::Global { name, interface: interface.to_string(), version }
}

fn ready(cli_format: Option<PixelFormat>, fractional_scale: bool) -> Initializer {
    let mut init = Initializer::new(cli_format);
    assert!(matches!(init.handle(&announce(1, "wl_compositor", 5)), Ok(Action::Continue)));
    assert!(matches!(init.handle(&announce(2, "wl_shm", 1)), Ok(Action::Continue)));
    assert!(matches!(init.handle(&announce(3, "wp_viewporter", 1)), Ok(Action::Continue)));
    assert!(matches!(init.handle(&announce(4, "zwlr_layer_shell_v1", 4)), Ok(Action::Continue)));
    if fractional_scale {
        let fs = announce(5, "wp_fractional_scale_manager_v1", 1);
        assert!(matches!(init.handle(&fs), Ok(Action::Continue)));
    }
    assert!(matches!(init.handle(&Event::DeleteId { id: 3 }), Ok(Action::Send(_))));
    let callback = init.callback_id().get();
    assert!(matches!(init.handle(&Event::DeleteId { id: callback }), Ok(Action::Finished)));
    init
}

#[test]
fn object_id_is_never_zero() {
    assert!(ObjectId::new(0).is_none());
    assert_eq!(ObjectId::new(1).unwrap().get(), 1);
    assert_eq!(ObjectId::new(u32::MAX).unwrap().get(), u32::MAX);
    assert_eq!(id(7), id(7));
    assert_ne!(id(7), id(8));
}

#[test]
fn new_registry_holds_display_and_registry() {
    let objects = ObjectManager::new();
    assert!(objects.contains(id(1)));
    assert!(objects.contains(id(2)));
    assert_eq!(objects.get(id(1)), WlDynObj::Display);
    assert_eq!(objects.get(id(2)), WlDynObj::Registry);
    for raw in 3..=20 {
        assert!(!objects.contains(id(raw)));
    }
    assert!(!objects.contains(id(u32::MAX)));
}

#[test]
fn create_starts_above_the_reserved_range() {
    let mut objects = ObjectManager::new();
    assert_eq!(RESERVED_IDS, 8);
    assert_eq!(objects.create(WlDynObj::Output).get(), 9);
    assert_eq!(objects.create(WlDynObj::Callback).get(), 10);
    assert_eq!(objects.create(WlDynObj::Output).get(), 11);
}

#[test]
fn get_after_create_returns_the_created_type() {
    let mut objects = ObjectManager::new();
    let output = objects.create(WlDynObj::Output);
    let callback = objects.create(WlDynObj::Callback);
    assert!(objects.contains(output));
    assert_eq!(objects.get(output), WlDynObj::Output);
    assert_eq!(objects.get(callback), WlDynObj::Callback);
    assert_eq!(objects.get(id(1)), WlDynObj::Display);
}

#[test]
fn removed_identifier_is_unbound_and_reused() {
    let mut objects = ObjectManager::new();
    let a = objects.create(WlDynObj::Output);
    let b = objects.create(WlDynObj::Callback);
    let c = objects.create(WlDynObj::Output);
    assert_eq!((a.get(), b.get(), c.get()), (9, 10, 11));
    objects.remove(b);
    assert!(!objects.contains(b));
    assert!(objects.contains(a));
    assert!(objects.contains(c));
    let again = objects.create(WlDynObj::Shm);
    assert_eq!(again.get(), 10);
    assert_eq!(objects.get(again), WlDynObj::Shm);
    assert_eq!(objects.create(WlDynObj::Output).get(), 12);
}

#[test]
fn create_takes_the_lowest_of_several_free_identifiers() {
    let mut objects = ObjectManager::new();
    let ids: Vec<ObjectId> = (0..6).map(|_| objects.create(WlDynObj::Output)).collect();
    assert_eq!(ids[5].get(), 14);
    objects.remove(ids[4]);
    objects.remove(ids[1]);
    objects.remove(ids[3]);
    assert_eq!(objects.create(WlDynObj::Callback).get(), 10);
    assert_eq!(objects.create(WlDynObj::Callback).get(), 12);
    assert_eq!(objects.create(WlDynObj::Callback).get(), 13);
    assert_eq!(objects.create(WlDynObj::Callback).get(), 15);
}

#[test]
fn try_create_succeeds_while_there_is_room() {
    let mut objects = ObjectManager::new();
    let created = objects.try_create(WlDynObj::Output);
    assert_eq!(created.map(|id| id.get()), Some(9));
}

#[test]
fn bind_fills_a_reserved_identifier() {
    let mut objects = ObjectManager::new();
    objects.bind(id(3), WlDynObj::Callback);
    assert_eq!(objects.get(id(3)), WlDynObj::Callback);
    objects.remove(id(3));
    assert!(!objects.contains(id(3)));
    objects.bind(id(3), WlDynObj::Compositor);
    assert_eq!(objects.get(id(3)), WlDynObj::Compositor);
    assert_eq!(objects.create(WlDynObj::Output).get(), 9);
}

#[test]
fn freed_reserved_identifier_is_not_handed_out() {
    let mut objects = ObjectManager::new();
    objects.bind(id(7), WlDynObj::Callback);
    objects.remove(id(7));
    assert_eq!(objects.create(WlDynObj::Output).get(), 9);
}

#[test]
fn published_state_serves_the_registry() {
    let init = ready(None, false);
    let mut globals = init.globals().unwrap();
    assert_eq!(object_type_get(&globals, id(1)), WlDynObj::Display);
    assert_eq!(object_type_get(&globals, id(2)), WlDynObj::Registry);
    assert_eq!(object_type_get(&globals, id(3)), WlDynObj::Compositor);
    assert_eq!(object_type_get(&globals, id(4)), WlDynObj::Shm);
    assert_eq!(object_type_get(&globals, id(5)), WlDynObj::Viewporter);
    assert_eq!(object_type_get(&globals, id(6)), WlDynObj::LayerShell);
    assert!(!object_is_bound(&globals, id(7)));
    assert!(!object_is_bound(&globals, id(8)));
    let output = object_create(&mut globals, WlDynObj::Output);
    assert_eq!(output.get(), 9);
    assert_eq!(object_type_get(&globals, output), WlDynObj::Output);
    object_remove(&mut globals, output);
    assert!(!object_is_bound(&globals, output));
    assert_eq!(object_try_create(&mut globals, WlDynObj::Callback).map(|id| id.get()), Some(9));
    assert_eq!(object_type_get(&globals, id(9)), WlDynObj::Callback);
}

#[test]
fn published_state_with_fractional_scale() {
    let init = ready(None, true);
    let globals = init.globals().unwrap();
    assert!(fractional_scale_support(&globals));
    assert_eq!(object_type_get(&globals, id(7)), WlDynObj::FractionalScaleManager);
    assert!(!object_is_bound(&globals, id(8)));
    assert_eq!(pixel_format(&globals), PixelFormat::Xrgb);
    assert_eq!(wl_shm_format(&globals), 1);
}

#[test]
fn published_state_keeps_the_forced_format() {
    let init = ready(Some(PixelFormat::Bgr), false);
    let globals = init.globals().unwrap();
    assert!(!fractional_scale_support(&globals));
    assert_eq!(pixel_format(&globals), PixelFormat::Bgr);
    assert_eq!(wl_shm_format(&globals), 0x34324742);
}

#[test]
fn nothing_is_published_before_the_bootstrap_is_complete() {
    assert!(Initializer::new(None).globals().is_none());
    let mut init = Initializer::new(None);
    init.handle(&announce(1, "wl_compositor", 4)).unwrap();
    init.handle(&announce(2, "wl_shm", 1)).unwrap();
    init.handle(&announce(3, "wp_viewporter", 1)).unwrap();
    init.handle(&announce(4, "zwlr_layer_shell_v1", 3)).unwrap();
    init.handle(&Event::DeleteId { id: 3 }).unwrap();
    assert!(init.globals().is_none());
}
