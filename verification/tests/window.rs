use sdl::init;
use sdl::native::SDL_WindowFlags;
use sdl::video::ModeSetRequest;
use sdl::video::WindowBuildError;
use sdl::Error;

fn stub_error(text: &str) -> Error {
    Error::Other(String::from(text))
}

#[test]
fn window_builder_captures_the_configuration() {
    let root = init(0, stub_error("unused")).unwrap();
    let video = root.video(0, stub_error("unused")).unwrap();
    let b = video.window("demo", 640, 480);
    assert_eq!(b.title, "demo");
    assert_eq!(b.width, 640);
    assert_eq!(b.height, 480);
    assert_eq!(b.window_flags, 0);
}

#[test]
fn flag_setters_accumulate_bits() {
    let root = init(0, stub_error("unused")).unwrap();
    let video = root.video(0, stub_error("unused")).unwrap();
    let mut b = video.window("demo", 640, 480);
    b.fullscreen().opengl();
    b.borderless().resizable();
    assert_eq!(b.window_flags, 0x8000_0000 | 0x0000_0002 | 0x0000_0020 | 0x0000_0010);
}

#[test]
fn flag_setters_match_the_native_flag_bits() {
    let root = init(0, stub_error("unused")).unwrap();
    let video = root.video(0, stub_error("unused")).unwrap();
    let mut b = video.window("demo", 640, 480);
    b.fullscreen();
    assert_eq!(b.window_flags, SDL_WindowFlags::SDL_FULLSCREEN.bits());
    b.opengl();
    assert_eq!(
        b.window_flags,
        SDL_WindowFlags::SDL_FULLSCREEN.bits() | SDL_WindowFlags::SDL_OPENGL.bits()
    );
    assert_eq!(SDL_WindowFlags::SDL_NOFRAME.bits(), 0x0000_0020);
    assert_eq!(SDL_WindowFlags::SDL_RESIZABLE.bits(), 0x0000_0010);
    assert_eq!(SDL_WindowFlags::SDL_SWSURFACE.bits(), 0);
    assert_eq!(SDL_WindowFlags::SDL_DOUBLEBUF.bits(), 0x4000_0000);
}

#[test]
fn empty_title_is_valid() {
    let root = init(0, stub_error("unused")).unwrap();
    let video = root.video(0, stub_error("unused")).unwrap();
    let req = video.window("", 1, 1).build().unwrap();
    assert_eq!(req.title, "");
}

#[test]
fn width_overflow_fails_before_any_request_exists() {
    let root = init(0, stub_error("unused")).unwrap();
    let video = root.video(0, stub_error("unused")).unwrap();
    let b = video.window("demo", 1 << 31, 480);
    // The only path to a native mode-set call is a returned request; an
    // overflowing width never produces one.
    assert_eq!(b.build().unwrap_err(), WindowBuildError::WidthOverflows(1 << 31));
}

#[test]
fn height_overflow_fails_before_any_request_exists() {
    let root = init(0, stub_error("unused")).unwrap();
    let video = root.video(0, stub_error("unused")).unwrap();
    let b = video.window("demo", 640, u32::MAX);
    assert_eq!(b.build().unwrap_err(), WindowBuildError::HeightOverflows(u32::MAX));
}

#[test]
fn embedded_terminator_in_title_is_rejected_first() {
    let root = init(0, stub_error("unused")).unwrap();
    let video = root.video(0, stub_error("unused")).unwrap();
    let b = video.window("de\0mo", 1 << 31, 480);
    assert_eq!(b.build().unwrap_err(), WindowBuildError::InvalidTitle);
}

#[test]
fn valid_configuration_yields_the_one_mode_set_request() {
    let root = init(0, stub_error("unused")).unwrap();
    let video = root.video(0, stub_error("unused")).unwrap();
    let mut b = video.window("demo", 640, 480);
    b.fullscreen();
    let req: ModeSetRequest = b.build().unwrap();
    assert_eq!(req.title, "demo");
    assert_eq!(req.width, 640);
    assert_eq!(req.height, 480);
    assert_eq!(req.bpp, 32);
    assert_eq!(req.flags, 0x8000_0000);
}

#[test]
fn null_mode_set_result_surfaces_the_translated_error() {
    let root = init(0, stub_error("unused")).unwrap();
    let video = root.video(0, stub_error("unused")).unwrap();
    let req = video.window("demo", 640, 480).build().unwrap();
    let r = req.complete(0, stub_error("out of video memory"));
    assert_eq!(
        r.unwrap_err(),
        WindowBuildError::SdlError(stub_error("out of video memory"))
    );
}

#[test]
fn non_null_mode_set_result_becomes_an_owned_surface() {
    let root = init(0, stub_error("unused")).unwrap();
    let video = root.video(0, stub_error("unused")).unwrap();
    let req = video.window("demo", 640, 480).build().unwrap();
    let surface = req.complete(0x1000, stub_error("unused")).unwrap();
    assert_eq!(surface.raw(), 0x1000);
    assert_eq!(surface.release(), 0x1000);
}

#[test]
fn build_twice_yields_two_independent_surfaces() {
    let root = init(0, stub_error("unused")).unwrap();
    let video = root.video(0, stub_error("unused")).unwrap();
    let b = video.window("demo", 640, 480);
    let first_req = b.build().unwrap();
    let second_req = b.build().unwrap();
    assert_eq!(first_req.width, second_req.width);
    let first = first_req.complete(0x2000, stub_error("unused")).unwrap();
    let second = second_req.complete(0x3000, stub_error("unused")).unwrap();
    assert_eq!(first.raw(), 0x2000);
    assert_eq!(second.raw(), 0x3000);
    // Each surface hands out its own handle for the matching free call.
    assert_eq!(second.release(), 0x3000);
    assert_eq!(first.release(), 0x2000);
}

#[test]
fn flip_maps_status_to_result() {
    let root = init(0, stub_error("unused")).unwrap();
    let video = root.video(0, stub_error("unused")).unwrap();
    let req = video.window("demo", 640, 480).build().unwrap();
    let mut surface = req.complete(0x4000, stub_error("unused")).unwrap();
    assert!(surface.flip(0, stub_error("unused")).is_ok());
    let e = surface.flip(-1, stub_error("flip failed"));
    assert_eq!(e.unwrap_err(), stub_error("flip failed"));
}
