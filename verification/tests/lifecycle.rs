use sdl::init;
use sdl::Error;

fn stub_error(text: &str) -> Error {
    Error::Other(String::from(text))
}

#[test]
fn init_succeeds_on_zero_status() {
    let r = init(0, stub_error("unused"));
    assert!(r.is_ok());
}

#[test]
fn init_surfaces_the_reported_error() {
    let r = init(-1, stub_error("init failed"));
    assert_eq!(r.unwrap_err(), stub_error("init failed"));
}

#[test]
fn video_guard_comes_from_the_root_context() {
    let root = init(0, stub_error("unused")).unwrap();
    let video = root.video(0, stub_error("unused")).unwrap();
    assert_eq!(video.release(), 0x0000_0020);
}

#[test]
fn video_guard_failure_surfaces_the_reported_error() {
    let root = init(0, stub_error("unused")).unwrap();
    let r = root.video(1, stub_error("no video"));
    assert_eq!(r.unwrap_err(), stub_error("no video"));
}

#[test]
fn timer_guard_releases_its_own_mask() {
    let root = init(0, stub_error("unused")).unwrap();
    let timer = sdl::timer::Subsystem::new(&root, 0, stub_error("unused")).unwrap();
    assert_eq!(timer.release(), 0x0000_0001);
}

#[test]
fn cdrom_guard_releases_its_own_mask() {
    let root = init(0, stub_error("unused")).unwrap();
    let cdrom = sdl::cdrom::Subsystem::new(&root, 0, stub_error("unused")).unwrap();
    assert_eq!(cdrom.release(), 0x0000_0100);
}

#[test]
fn event_thread_guard_releases_its_own_mask() {
    let root = init(0, stub_error("unused")).unwrap();
    let events = sdl::event::Subsystem::new(&root, 0, stub_error("unused")).unwrap();
    assert_eq!(events.release(), 0x0100_0000);
}

#[test]
fn subsystem_guard_failure_surfaces_the_reported_error() {
    let root = init(0, stub_error("unused")).unwrap();
    let r = sdl::timer::Subsystem::new(&root, 5, stub_error("no timer"));
    assert_eq!(r.unwrap_err(), stub_error("no timer"));
}

#[test]
fn guards_coexist_and_release_independently() {
    let root = init(0, stub_error("unused")).unwrap();
    let timer = sdl::timer::Subsystem::new(&root, 0, stub_error("unused")).unwrap();
    let cdrom = sdl::cdrom::Subsystem::new(&root, 0, stub_error("unused")).unwrap();
    // Each guard is consumed by its own release; the masks never mix.
    assert_eq!(cdrom.release(), 0x0000_0100);
    assert_eq!(timer.release(), 0x0000_0001);
}
