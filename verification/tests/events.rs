use sdl::event::ActiveEvent;
use sdl::event::Button;
use sdl::event::Event;
use sdl::event::JoyAxisEvent;
use sdl::event::JoyBallEvent;
use sdl::event::JoyButtonEvent;
use sdl::event::JoyHatEvent;
use sdl::event::KeyboardEvent;
use sdl::event::MouseButtonEvent;
use sdl::event::MouseMotionEvent;
use sdl::event::ResizeEvent;
use sdl::native::KeySym;
use sdl::native::SDL_ActiveEvent;
use sdl::native::SDL_Event;
use sdl::native::SDL_JoyAxisEvent;
use sdl::native::SDL_JoyBallEvent;
use sdl::native::SDL_JoyButtonEvent;
use sdl::native::SDL_JoyHatEvent;
use sdl::native::SDL_KeyboardEvent;
use sdl::native::SDL_MouseButtonEvent;
use sdl::native::SDL_MouseMotionEvent;
use sdl::native::SDL_ResizeEvent;

fn blank_keysym() -> KeySym {
    KeySym { scancode: 0, sym: 0, modifiers: 0, unicode: 0 }
}

fn blank_event(kind: u8) -> SDL_Event {
    SDL_Event {
        kind,
        active: SDL_ActiveEvent { gain: 0, state: 0 },
        key: SDL_KeyboardEvent { which: 0, state: 0, keysym: blank_keysym() },
        motion: SDL_MouseMotionEvent { state: 0, x: 0, y: 0, xrel: 0, yrel: 0 },
        button: SDL_MouseButtonEvent { which: 0, button: 0, state: 0, x: 0, y: 0 },
        jaxis: SDL_JoyAxisEvent { which: 0, axis: 0, value: 0 },
        jball: SDL_JoyBallEvent { which: 0, ball: 0, xrel: 0, yrel: 0 },
        jhat: SDL_JoyHatEvent { which: 0, hat: 0, value: 0 },
        jbutton: SDL_JoyButtonEvent { which: 0, button: 0, state: 0 },
        resize: SDL_ResizeEvent { w: 0, h: 0 },
    }
}

#[test]
fn active_pair_table_is_exhaustive() {
    // (focus kind, gain) pairs in table order, then one undefined pair.
    let cases: [(u8, u8, ActiveEvent); 7] = [
        (0x01, 0, ActiveEvent::MouseLeave),
        (0x01, 1, ActiveEvent::MouseEnter),
        (0x02, 0, ActiveEvent::AppUnfocused),
        (0x02, 1, ActiveEvent::AppFocused),
        (0x04, 0, ActiveEvent::Minimized),
        (0x04, 1, ActiveEvent::Restored),
        (0x02, 7, ActiveEvent::Unknown),
    ];
    for (state, gain, expected) in cases {
        assert_eq!(ActiveEvent::from(SDL_ActiveEvent { gain, state }), expected);
    }
}

#[test]
fn active_pair_outside_table_degrades_to_unknown() {
    assert_eq!(
        ActiveEvent::from(SDL_ActiveEvent { gain: 1, state: 0x03 }),
        ActiveEvent::Unknown
    );
    assert_eq!(
        ActiveEvent::from(SDL_ActiveEvent { gain: 2, state: 0x01 }),
        ActiveEvent::Unknown
    );
}

#[test]
fn keyboard_state_maps_released_and_pressed() {
    let keysym = KeySym { scancode: 5, sym: 97, modifiers: 1, unicode: 97 };
    let up = SDL_KeyboardEvent { which: 0, state: 0, keysym };
    assert_eq!(KeyboardEvent::from(up), KeyboardEvent::KeyUp(keysym));
    let down = SDL_KeyboardEvent { which: 0, state: 1, keysym };
    assert_eq!(KeyboardEvent::from(down), KeyboardEvent::KeyDown(keysym));
    let odd = SDL_KeyboardEvent { which: 0, state: 9, keysym };
    assert_eq!(KeyboardEvent::from(odd), KeyboardEvent::Unknown);
}

#[test]
fn button_index_table_is_total() {
    let cases: [(u8, Button); 8] = [
        (1, Button::Left),
        (2, Button::Middle),
        (3, Button::Right),
        (4, Button::WheelUp),
        (5, Button::WheelDown),
        (6, Button::X1),
        (7, Button::X2),
        (9, Button::Other(9)),
    ];
    for (raw, expected) in cases {
        assert_eq!(Button::from(raw), expected);
    }
}

#[test]
fn mouse_button_record_decodes_state_and_position() {
    let raw = SDL_MouseButtonEvent { which: 0, button: 3, state: 1, x: 100, y: 200 };
    assert_eq!(
        MouseButtonEvent::from(raw),
        MouseButtonEvent { button: Button::Right, pressed: true, x: 100, y: 200 }
    );
    let released = SDL_MouseButtonEvent { which: 0, button: 1, state: 0, x: 7, y: 8 };
    assert!(!MouseButtonEvent::from(released).pressed);
}

#[test]
fn mouse_motion_record_is_copied_verbatim() {
    let raw = SDL_MouseMotionEvent { state: 0, x: 10, y: 20, xrel: -3, yrel: 4 };
    assert_eq!(
        MouseMotionEvent::from(raw),
        MouseMotionEvent { x: 10, y: 20, xrel: -3, yrel: 4 }
    );
}

#[test]
fn joystick_records_are_copied_verbatim() {
    assert_eq!(
        JoyAxisEvent::from(SDL_JoyAxisEvent { which: 1, axis: 2, value: -300 }),
        JoyAxisEvent { device: 1, axis: 2, value: -300 }
    );
    assert_eq!(
        JoyBallEvent::from(SDL_JoyBallEvent { which: 1, ball: 0, xrel: 5, yrel: -6 }),
        JoyBallEvent { device: 1, ball: 0, xrel: 5, yrel: -6 }
    );
    assert_eq!(
        JoyHatEvent::from(SDL_JoyHatEvent { which: 2, hat: 1, value: 8 }),
        JoyHatEvent { device: 2, hat: 1, value: 8 }
    );
    let down = SDL_JoyButtonEvent { which: 0, button: 3, state: 1 };
    assert_eq!(
        JoyButtonEvent::from(down),
        JoyButtonEvent { device: 0, button: 3, pressed: true }
    );
}

#[test]
fn resize_record_is_copied_verbatim() {
    assert_eq!(
        ResizeEvent::from(SDL_ResizeEvent { w: 800, h: 600 }),
        ResizeEvent { w: 800, h: 600 }
    );
}

#[test]
fn decode_dispatches_on_the_discriminant() {
    let mut active = blank_event(1);
    active.active = SDL_ActiveEvent { gain: 1, state: 0x01 };
    assert_eq!(
        Event::<()>::decode(&active),
        Event::Active(ActiveEvent::MouseEnter)
    );

    let mut key = blank_event(2);
    key.key.state = 1;
    assert_eq!(
        Event::<()>::decode(&key),
        Event::Keyboard(KeyboardEvent::KeyDown(blank_keysym()))
    );
    let mut key_up = blank_event(3);
    key_up.key.state = 0;
    assert_eq!(
        Event::<()>::decode(&key_up),
        Event::Keyboard(KeyboardEvent::KeyUp(blank_keysym()))
    );

    let mut motion = blank_event(4);
    motion.motion.x = 9;
    assert_eq!(
        Event::<()>::decode(&motion),
        Event::MouseMotion(MouseMotionEvent { x: 9, y: 0, xrel: 0, yrel: 0 })
    );

    let mut button_down = blank_event(5);
    button_down.button = SDL_MouseButtonEvent { which: 0, button: 1, state: 1, x: 1, y: 2 };
    assert_eq!(
        Event::<()>::decode(&button_down),
        Event::MouseButton(MouseButtonEvent { button: Button::Left, pressed: true, x: 1, y: 2 })
    );

    assert!(matches!(Event::<()>::decode(&blank_event(7)), Event::JoyAxis(_)));
    assert!(matches!(Event::<()>::decode(&blank_event(8)), Event::JoyBall(_)));
    assert!(matches!(Event::<()>::decode(&blank_event(9)), Event::JoyHat(_)));
    assert!(matches!(Event::<()>::decode(&blank_event(10)), Event::JoyButton(_)));
    assert!(matches!(Event::<()>::decode(&blank_event(11)), Event::JoyButton(_)));

    let mut resize = blank_event(16);
    resize.resize = SDL_ResizeEvent { w: 1024, h: 768 };
    assert_eq!(
        Event::<()>::decode(&resize),
        Event::Resize(ResizeEvent { w: 1024, h: 768 })
    );

    assert_eq!(Event::<()>::decode(&blank_event(12)), Event::Quit);
    assert_eq!(Event::<()>::decode(&blank_event(17)), Event::Expose);
}

#[test]
fn unrecognized_discriminant_decodes_to_unknown() {
    for kind in [0u8, 13, 14, 15, 18, 24, 31, 200, 255] {
        assert_eq!(Event::<()>::decode(&blank_event(kind)), Event::Unknown);
    }
}

#[test]
fn payloads_wrap_into_events() {
    assert_eq!(
        Event::<()>::from(ActiveEvent::Restored),
        Event::Active(ActiveEvent::Restored)
    );
    assert_eq!(
        Event::<()>::from(ResizeEvent { w: 1, h: 2 }),
        Event::Resize(ResizeEvent { w: 1, h: 2 })
    );
    assert_eq!(
        Event::<()>::from(KeyboardEvent::Unknown),
        Event::Keyboard(KeyboardEvent::Unknown)
    );
}
