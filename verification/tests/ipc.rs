use std::time::Duration;
use swww_proto::ipc::{
    get_cache_path, get_socket_path, is_cacheable, retries_read, Animation, Answer, BgImg, BgInfo, Clear, Img,
    TransitionType, READ_RETRIES,
};
use swww_proto::pixel_format::PixelFormat;

fn info(name: &str, dim: (u32, u32), scale_factor: i32, img: BgImg) -> BgInfo {
    BgInfo { name: name.to_string(), dim, scale_factor, img, pixel_format: PixelFormat::Xrgb }
}

#[test]
fn color_is_written_in_upper_case_hex() {
    assert_eq!(BgImg::Color([0, 0, 0]).to_string(), "color: 000000");
    assert_eq!(BgImg::Color([0x0a, 0xff, 0x10]).to_string(), "color: 0AFF10");
    assert_eq!(BgImg::Color([1, 35, 69]).to_string(), "color: 012345");
    assert_eq!(BgImg::Color([0x9f, 0xbc, 0xde]).to_string(), "color: 9FBCDE");
}

#[test]
fn every_byte_in_hex() {
    for byte in 0..=255u8 {
        assert_eq!(
            BgImg::Color([byte, 0, byte]).to_string(),
            format!("color: {:02X}{:02X}{:02X}", byte, 0, byte)
        );
    }
}

#[test]
fn image_is_written_with_its_path() {
    assert_eq!(BgImg::Img("/home/me/wall.png".to_string()).to_string(), "image: /home/me/wall.png");
    assert_eq!(BgImg::Img(String::new()).to_string(), "image: ");
    assert_eq!(BgImg::Img("-".to_string()).to_string(), "image: -");
}

#[test]
fn output_is_written_in_one_line() {
    let shown = info("eDP-1", (1920, 1080), 2, BgImg::Img("/a.png".to_string()));
    assert_eq!(shown.to_string(), "eDP-1: 1920x1080, scale: 2, currently displaying: image: /a.png");
    let shown = info("HDMI-A-1", (0, 10), 1, BgImg::Color([255, 0, 171]));
    assert_eq!(shown.to_string(), "HDMI-A-1: 0x10, scale: 1, currently displaying: color: FF00AB");
}

#[test]
fn numbers_are_written_in_decimal() {
    let shown = info("", (u32::MAX, 1000000), i32::MIN, BgImg::Color([0, 0, 0]));
    assert_eq!(
        shown.to_string(),
        ": 4294967295x1000000, scale: -2147483648, currently displaying: color: 000000"
    );
    let shown = info("x", (9, 10), -1, BgImg::Color([0, 0, 0]));
    assert_eq!(shown.to_string(), "x: 9x10, scale: -1, currently displaying: color: 000000");
    let shown = info("x", (99, 100), i32::MAX, BgImg::Color([0, 0, 0]));
    assert_eq!(shown.to_string(), "x: 99x100, scale: 2147483647, currently displaying: color: 000000");
    let shown = info("x", (1, 2), 0, BgImg::Color([0, 0, 0]));
    assert_eq!(shown.to_string(), "x: 1x2, scale: 0, currently displaying: color: 000000");
}

#[test]
fn real_dim_scales_both_sides() {
    let img = BgImg::Color([0, 0, 0]);
    assert_eq!(info("a", (1920, 1080), 1, img.clone()).real_dim(), (1920, 1080));
    assert_eq!(info("a", (1920, 1080), 2, img.clone()).real_dim(), (3840, 2160));
    assert_eq!(info("a", (1280, 720), 3, img.clone()).real_dim(), (3840, 2160));
    assert_eq!(info("a", (1920, 1080), 0, img.clone()).real_dim(), (0, 0));
    assert_eq!(info("a", (0, 0), i32::MAX, img.clone()).real_dim(), (0, 0));
    assert_eq!(info("a", (2, 1), i32::MAX, img.clone()).real_dim(), (4294967294, 2147483647));
    assert_eq!(info("a", (1, 0), -1, img).real_dim(), (u32::MAX, 0));
}

#[test]
fn clone_keeps_every_field() {
    let original = info("DP-2", (800, 600), 2, BgImg::Img("/b.jpg".to_string()));
    let copy = original.clone();
    assert_eq!(copy.name, "DP-2");
    assert_eq!(copy.dim, (800, 600));
    assert_eq!(copy.scale_factor, 2);
    assert_eq!(copy.pixel_format, PixelFormat::Xrgb);
    assert_eq!(copy.to_string(), original.to_string());
    assert!(matches!(BgImg::Color([1, 2, 3]).clone(), BgImg::Color([1, 2, 3])));
}

#[test]
fn socket_is_in_the_runtime_directory() {
    assert_eq!(get_socket_path(Some(b"/run/user/1000")), b"/run/user/1000/swww.socket");
    assert_eq!(get_socket_path(Some(b"/run/user/1000/")), b"/run/user/1000/swww.socket");
    assert_eq!(get_socket_path(Some(b"relative")), b"relative/swww.socket");
    assert_eq!(get_socket_path(Some(b"")), b"swww.socket");
}

#[test]
fn socket_falls_back_to_tmp() {
    assert_eq!(get_socket_path(None), b"/tmp/swww/swww.socket");
}

#[test]
fn cache_is_under_the_cache_home() {
    assert_eq!(get_cache_path(Some(b"/home/me/.cache"), None), Ok(b"/home/me/.cache/swww".to_vec()));
    assert_eq!(
        get_cache_path(Some(b"/var/cache/"), Some(b"/home/me")),
        Ok(b"/var/cache/swww".to_vec())
    );
    assert_eq!(get_cache_path(Some(b""), Some(b"/home/me")), Ok(b"swww".to_vec()));
}

#[test]
fn cache_falls_back_to_the_home() {
    assert_eq!(get_cache_path(None, Some(b"/home/me")), Ok(b"/home/me/.cache/swww".to_vec()));
    assert_eq!(get_cache_path(None, Some(b"/")), Ok(b"/.cache/swww".to_vec()));
}

#[test]
fn cache_needs_one_of_the_two() {
    assert_eq!(
        get_cache_path(None, None),
        Err("failed to read both XDG_CACHE_HOME and HOME env vars".to_string())
    );
}

#[test]
fn blocked_read_is_retried_five_times() {
    assert_eq!(READ_RETRIES, 5);
    for tries in 0..5 {
        assert!(retries_read(true, tries));
    }
    assert!(!retries_read(true, 5));
    assert!(!retries_read(true, 6));
    assert!(!retries_read(true, u32::MAX));
    for tries in [0, 1, 4, 5, 6] {
        assert!(!retries_read(false, tries));
    }
}

#[test]
fn frames_from_stdin_are_not_cached() {
    assert!(!is_cacheable("-"));
    for path in ["/a.gif", "", "--", "- ", "./-", " -"] {
        assert!(is_cacheable(path));
    }
}

#[test]
fn plain_data_holds_what_it_is_given() {
    let animation = Animation {
        animation: vec![(vec![1u8, 2, 3], Duration::from_millis(40))].into_boxed_slice(),
        path: "/a.gif".to_string(),
        dimensions: (4, 4),
        pixel_format: PixelFormat::Rgb,
    };
    assert_eq!(animation.animation.len(), 1);
    assert_eq!(animation.dimensions, (4, 4));
    assert!(is_cacheable(&animation.path));
    let clear = Clear { color: [1, 2, 3], outputs: vec!["eDP-1".to_string()].into_boxed_slice() };
    assert_eq!(clear.color, [1, 2, 3]);
    assert_eq!(clear.outputs.len(), 1);
    let img = Img { path: "/a.png".to_string(), img: vec![0u8; 12].into_boxed_slice() };
    assert_eq!(img.img.len(), 12);
    assert_eq!(img.path, "/a.png");
    assert_ne!(TransitionType::Simple, TransitionType::Wave);
    let answer = Answer::Info(
        vec![info("eDP-1", (1, 1), 1, BgImg::Color([0, 0, 0]))].into_boxed_slice(),
    );
    match answer {
        Answer::Info(infos) => assert_eq!(infos[0].real_dim(), (1, 1)),
        _ => unreachable!(),
    }
    assert!(matches!(Answer::Ping(true), Answer::Ping(true)));
    assert!(matches!(Answer::Error("no".to_string()), Answer::Error(_)));
    assert!(matches!(Answer::Okay, Answer::Okay));
}
