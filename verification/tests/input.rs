use voxelgame::geometry::{block_face, block_mesh, Side, TexCoord, UvRect, Vertex};
use voxelgame::input::{
    is_copy_command, is_cut_command, is_paste_command, translate_keycode, translate_modifiers,
    translate_mouse_button, Event, Input, Key, Modifiers, ModifiersState, MouseButton, Platform,
    PointerButton, PointerPos, VirtualKeyCode,
};
use voxelgame::mesh::{Instance, InstancedMesh, RenderCommand};
use voxelgame::net::Position;

fn none() -> Modifiers {
    Modifiers { alt: false, ctrl: false, shift: false, mac_cmd: false, command: false }
}

fn command() -> Modifiers {
    Modifiers { command: true, ..none() }
}

fn shift() -> Modifiers {
    Modifiers { shift: true, ..none() }
}

fn ctrl() -> Modifiers {
    Modifiers { ctrl: true, ..none() }
}

#[test]
fn arrows_and_editing_keys_are_translated() {
    let table = [
        (VirtualKeyCode::Down, Key::ArrowDown),
        (VirtualKeyCode::Left, Key::ArrowLeft),
        (VirtualKeyCode::Right, Key::ArrowRight),
        (VirtualKeyCode::Up, Key::ArrowUp),
        (VirtualKeyCode::Escape, Key::Escape),
        (VirtualKeyCode::Tab, Key::Tab),
        (VirtualKeyCode::Back, Key::Backspace),
        (VirtualKeyCode::Return, Key::Enter),
        (VirtualKeyCode::Space, Key::Space),
        (VirtualKeyCode::Insert, Key::Insert),
        (VirtualKeyCode::Delete, Key::Delete),
        (VirtualKeyCode::Home, Key::Home),
        (VirtualKeyCode::End, Key::End),
        (VirtualKeyCode::PageUp, Key::PageUp),
        (VirtualKeyCode::PageDown, Key::PageDown),
    ];
    for (code, key) in table {
        assert_eq!(translate_keycode(code), Some(key));
    }
}

#[test]
fn digits_of_the_main_row_and_of_the_pad_are_the_same_key() {
    let table = [
        (VirtualKeyCode::Key0, VirtualKeyCode::Numpad0, Key::Num0),
        (VirtualKeyCode::Key1, VirtualKeyCode::Numpad1, Key::Num1),
        (VirtualKeyCode::Key2, VirtualKeyCode::Numpad2, Key::Num2),
        (VirtualKeyCode::Key3, VirtualKeyCode::Numpad3, Key::Num3),
        (VirtualKeyCode::Key4, VirtualKeyCode::Numpad4, Key::Num4),
        (VirtualKeyCode::Key5, VirtualKeyCode::Numpad5, Key::Num5),
        (VirtualKeyCode::Key6, VirtualKeyCode::Numpad6, Key::Num6),
        (VirtualKeyCode::Key7, VirtualKeyCode::Numpad7, Key::Num7),
        (VirtualKeyCode::Key8, VirtualKeyCode::Numpad8, Key::Num8),
        (VirtualKeyCode::Key9, VirtualKeyCode::Numpad9, Key::Num9),
    ];
    for (row, pad, key) in table {
        assert_eq!(translate_keycode(row), Some(key));
        assert_eq!(translate_keycode(pad), Some(key));
    }
}

#[test]
fn letters_are_translated() {
    let table = [
        (VirtualKeyCode::A, Key::A),
        (VirtualKeyCode::B, Key::B),
        (VirtualKeyCode::C, Key::C),
        (VirtualKeyCode::D, Key::D),
        (VirtualKeyCode::E, Key::E),
        (VirtualKeyCode::F, Key::F),
        (VirtualKeyCode::G, Key::G),
        (VirtualKeyCode::H, Key::H),
        (VirtualKeyCode::I, Key::I),
        (VirtualKeyCode::J, Key::J),
        (VirtualKeyCode::K, Key::K),
        (VirtualKeyCode::L, Key::L),
        (VirtualKeyCode::M, Key::M),
        (VirtualKeyCode::N, Key::N),
        (VirtualKeyCode::O, Key::O),
        (VirtualKeyCode::P, Key::P),
        (VirtualKeyCode::Q, Key::Q),
        (VirtualKeyCode::R, Key::R),
        (VirtualKeyCode::S, Key::S),
        (VirtualKeyCode::T, Key::T),
        (VirtualKeyCode::U, Key::U),
        (VirtualKeyCode::V, Key::V),
        (VirtualKeyCode::W, Key::W),
        (VirtualKeyCode::X, Key::X),
        (VirtualKeyCode::Y, Key::Y),
        (VirtualKeyCode::Z, Key::Z),
    ];
    for (code, key) in table {
        assert_eq!(translate_keycode(code), Some(key));
    }
}

#[test]
fn other_keys_are_not_translated() {
    for code in [
        VirtualKeyCode::F1,
        VirtualKeyCode::F24,
        VirtualKeyCode::LShift,
        VirtualKeyCode::RControl,
        VirtualKeyCode::NumpadEnter,
        VirtualKeyCode::NumpadAdd,
        VirtualKeyCode::Comma,
        VirtualKeyCode::Copy,
        VirtualKeyCode::Paste,
        VirtualKeyCode::Cut,
        VirtualKeyCode::Snapshot,
        VirtualKeyCode::Yen,
    ] {
        assert_eq!(translate_keycode(code), None);
    }
}

#[test]
fn cut_is_command_x_or_on_windows_shift_delete() {
    for platform in [Platform::Windows, Platform::MacOs, Platform::Other] {
        assert!(is_cut_command(platform, command(), VirtualKeyCode::X));
        assert!(!is_cut_command(platform, none(), VirtualKeyCode::X));
        assert!(!is_cut_command(platform, ctrl(), VirtualKeyCode::X));
        assert!(!is_cut_command(platform, command(), VirtualKeyCode::C));
    }
    assert!(is_cut_command(Platform::Windows, shift(), VirtualKeyCode::Delete));
    assert!(!is_cut_command(Platform::MacOs, shift(), VirtualKeyCode::Delete));
    assert!(!is_cut_command(Platform::Other, shift(), VirtualKeyCode::Delete));
    assert!(!is_cut_command(Platform::Windows, none(), VirtualKeyCode::Delete));
    assert!(!is_cut_command(Platform::Windows, shift(), VirtualKeyCode::Insert));
}

#[test]
fn copy_is_command_c_or_on_windows_control_insert() {
    for platform in [Platform::Windows, Platform::MacOs, Platform::Other] {
        assert!(is_copy_command(platform, command(), VirtualKeyCode::C));
        assert!(!is_copy_command(platform, none(), VirtualKeyCode::C));
        assert!(!is_copy_command(platform, command(), VirtualKeyCode::V));
    }
    assert!(is_copy_command(Platform::Windows, ctrl(), VirtualKeyCode::Insert));
    assert!(!is_copy_command(Platform::Other, ctrl(), VirtualKeyCode::Insert));
    assert!(!is_copy_command(Platform::Windows, shift(), VirtualKeyCode::Insert));
}

#[test]
fn paste_is_command_v_or_on_windows_shift_insert() {
    for platform in [Platform::Windows, Platform::MacOs, Platform::Other] {
        assert!(is_paste_command(platform, command(), VirtualKeyCode::V));
        assert!(!is_paste_command(platform, none(), VirtualKeyCode::V));
        assert!(!is_paste_command(platform, command(), VirtualKeyCode::X));
    }
    assert!(is_paste_command(Platform::Windows, shift(), VirtualKeyCode::Insert));
    assert!(!is_paste_command(Platform::MacOs, shift(), VirtualKeyCode::Insert));
    assert!(!is_paste_command(Platform::Windows, ctrl(), VirtualKeyCode::Insert));
}

#[test]
fn modifiers_take_command_from_control_off_the_mac() {
    let state = ModifiersState { shift: true, ctrl: true, alt: false, logo: false };
    for platform in [Platform::Windows, Platform::Other] {
        assert_eq!(
            translate_modifiers(platform, state),
            Modifiers { alt: false, ctrl: true, shift: true, mac_cmd: false, command: true }
        );
    }
    let logo = ModifiersState { shift: false, ctrl: false, alt: true, logo: true };
    for platform in [Platform::Windows, Platform::Other] {
        assert_eq!(
            translate_modifiers(platform, logo),
            Modifiers { alt: true, ctrl: false, shift: false, mac_cmd: false, command: false }
        );
    }
}

#[test]
fn modifiers_take_command_from_the_logo_key_on_the_mac() {
    let logo = ModifiersState { shift: false, ctrl: false, alt: true, logo: true };
    assert_eq!(
        translate_modifiers(Platform::MacOs, logo),
        Modifiers { alt: true, ctrl: false, shift: false, mac_cmd: true, command: true }
    );
    let ctrl = ModifiersState { shift: false, ctrl: true, alt: false, logo: false };
    assert_eq!(
        translate_modifiers(Platform::MacOs, ctrl),
        Modifiers { alt: false, ctrl: true, shift: false, mac_cmd: false, command: false }
    );
}

#[test]
fn three_mouse_buttons_are_translated() {
    assert_eq!(translate_mouse_button(MouseButton::Left), Some(PointerButton::Primary));
    assert_eq!(translate_mouse_button(MouseButton::Right), Some(PointerButton::Secondary));
    assert_eq!(translate_mouse_button(MouseButton::Middle), Some(PointerButton::Middle));
    assert_eq!(translate_mouse_button(MouseButton::Other(0)), None);
    assert_eq!(translate_mouse_button(MouseButton::Other(4)), None);
}

#[test]
fn new_input_is_idle() {
    let input = Input::new(Platform::Other);
    assert_eq!(input.platform, Platform::Other);
    assert_eq!(input.state, ModifiersState::default());
    assert_eq!(input.modifiers, Modifiers::default());
    assert_eq!(input.modifiers, none());
    assert_eq!(input.pointer, PointerPos { x: 0, y: 0 });
    assert!(input.events.is_empty());
}

#[test]
fn key_press_becomes_a_key_event_with_the_reported_modifiers() {
    let mut input = Input::new(Platform::Other);
    input.state = ModifiersState { shift: true, ctrl: false, alt: false, logo: false };
    input.on_key_input(Some(VirtualKeyCode::A), true);
    input.on_key_input(Some(VirtualKeyCode::A), false);
    assert_eq!(
        input.events,
        vec![
            Event::Key { key: Key::A, pressed: true, modifiers: shift() },
            Event::Key { key: Key::A, pressed: false, modifiers: shift() },
        ]
    );
}

#[test]
fn cut_and_copy_come_before_the_key_and_only_on_press() {
    let mut input = Input::new(Platform::Other);
    input.modifiers = command();
    input.on_key_input(Some(VirtualKeyCode::X), true);
    input.on_key_input(Some(VirtualKeyCode::X), false);
    input.on_key_input(Some(VirtualKeyCode::C), true);
    assert_eq!(
        input.events,
        vec![
            Event::Cut,
            Event::Key { key: Key::X, pressed: true, modifiers: none() },
            Event::Key { key: Key::X, pressed: false, modifiers: none() },
            Event::Copy,
            Event::Key { key: Key::C, pressed: true, modifiers: none() },
        ]
    );
}

#[test]
fn paste_causes_no_event_of_its_own() {
    let mut input = Input::new(Platform::Other);
    input.modifiers = command();
    input.on_key_input(Some(VirtualKeyCode::V), true);
    assert_eq!(input.events, vec![Event::Key { key: Key::V, pressed: true, modifiers: none() }]);
}

#[test]
fn windows_shortcuts_with_delete_and_insert() {
    let mut input = Input::new(Platform::Windows);
    input.modifiers = shift();
    input.on_key_input(Some(VirtualKeyCode::Delete), true);
    input.modifiers = ctrl();
    input.on_key_input(Some(VirtualKeyCode::Insert), true);
    assert_eq!(
        input.events,
        vec![
            Event::Cut,
            Event::Key { key: Key::Delete, pressed: true, modifiers: none() },
            Event::Copy,
            Event::Key { key: Key::Insert, pressed: true, modifiers: none() },
        ]
    );
    let mut other = Input::new(Platform::Other);
    other.modifiers = shift();
    other.on_key_input(Some(VirtualKeyCode::Delete), true);
    assert_eq!(
        other.events,
        vec![Event::Key { key: Key::Delete, pressed: true, modifiers: none() }]
    );
}

#[test]
fn unknown_key_and_missing_key_code_cause_nothing() {
    let mut input = Input::new(Platform::Other);
    input.on_key_input(Some(VirtualKeyCode::F5), true);
    input.on_key_input(None, true);
    input.on_key_input(None, false);
    assert!(input.events.is_empty());
}

#[test]
fn typed_text_is_passed_on() {
    let mut input = Input::new(Platform::Other);
    input.on_text_input('a');
    input.on_text_input('\n');
    input.on_text_input('\u{7f}');
    input.on_text_input('\u{f700}');
    input.on_text_input('ß');
    assert_eq!(input.events, vec![Event::Text('a'), Event::Text('ß')]);
}

#[test]
fn typed_text_with_a_command_held_is_dropped_on_the_mac_only() {
    for held in [ctrl(), Modifiers { mac_cmd: true, ..none() }] {
        let mut mac = Input::new(Platform::MacOs);
        mac.modifiers = held;
        mac.on_text_input('a');
        assert!(mac.events.is_empty());
        for platform in [Platform::Windows, Platform::Other] {
            let mut input = Input::new(platform);
            input.modifiers = held;
            input.on_text_input('a');
            assert_eq!(input.events, vec![Event::Text('a')]);
        }
    }
    let mut mac = Input::new(Platform::MacOs);
    mac.modifiers = shift();
    mac.on_text_input('A');
    assert_eq!(mac.events, vec![Event::Text('A')]);
}

#[test]
fn mouse_button_becomes_a_pointer_event_at_the_pointer() {
    let mut input = Input::new(Platform::Other);
    input.pointer = PointerPos { x: 10.5f32.to_bits(), y: 20.0f32.to_bits() };
    input.modifiers = shift();
    input.on_mouse_input(true, MouseButton::Left);
    input.on_mouse_input(false, MouseButton::Right);
    input.on_mouse_input(true, MouseButton::Other(8));
    assert_eq!(
        input.events,
        vec![
            Event::PointerButton {
                button: PointerButton::Primary,
                pos: PointerPos { x: 10.5f32.to_bits(), y: 20.0f32.to_bits() },
                pressed: true,
                modifiers: shift(),
            },
            Event::PointerButton {
                button: PointerButton::Secondary,
                pos: PointerPos { x: 10.5f32.to_bits(), y: 20.0f32.to_bits() },
                pressed: false,
                modifiers: shift(),
            },
        ]
    );
}

#[test]
fn pointer_move_is_reported_and_remembered() {
    let mut input = Input::new(Platform::Other);
    let to = PointerPos { x: 3.0f32.to_bits(), y: 4.0f32.to_bits() };
    input.on_mouse_move(to);
    assert_eq!(input.pointer, to);
    input.on_mouse_input(true, MouseButton::Left);
    assert_eq!(
        input.events,
        vec![
            Event::PointerMoved(to),
            Event::PointerButton {
                button: PointerButton::Primary,
                pos: to,
                pressed: true,
                modifiers: none(),
            },
        ]
    );
}

#[test]
fn events_leave_the_state_alone() {
    let mut input = Input::new(Platform::Windows);
    input.state = ModifiersState { shift: true, ctrl: true, alt: true, logo: true };
    input.modifiers = command();
    input.pointer = PointerPos { x: 1, y: 2 };
    input.on_key_input(Some(VirtualKeyCode::X), true);
    input.on_text_input('x');
    input.on_mouse_input(true, MouseButton::Middle);
    assert_eq!(input.platform, Platform::Windows);
    assert_eq!(input.state, ModifiersState { shift: true, ctrl: true, alt: true, logo: true });
    assert_eq!(input.modifiers, command());
    assert_eq!(input.pointer, PointerPos { x: 1, y: 2 });
    assert_eq!(input.events.len(), 4);
}

fn unit() -> UvRect {
    UvRect {
        min: TexCoord { u: 0.0f32.to_bits(), v: 0.0f32.to_bits() },
        max: TexCoord { u: 1.0f32.to_bits(), v: 1.0f32.to_bits() },
    }
}

#[test]
fn block_mesh_is_the_six_faces_in_order() {
    let mesh = block_mesh(0, 0, 0, unit());
    assert_eq!(mesh.len(), 36);
    let mut expected: Vec<Vertex> = vec![];
    for side in [Side::Top, Side::Bottom, Side::Right, Side::Left, Side::Front, Side::Back] {
        expected.extend(block_face(side, 0, 0, 0, unit()));
    }
    assert_eq!(mesh, expected);
    let moved = block_mesh(-2, 5, 9, unit());
    assert_eq!(&moved[6..12], &block_face(Side::Bottom, -2, 5, 9, unit())[..]);
}

#[test]
fn instanced_mesh_without_instances_is_not_drawn() {
    let mesh = InstancedMesh::new(block_mesh(0, 0, 0, unit()), vec![]);
    let mut pass = vec![RenderCommand::BindAtlas { index: 0 }];
    mesh.draw(3, 4, &mut pass);
    assert_eq!(pass, vec![RenderCommand::BindAtlas { index: 0 }]);
}

#[test]
fn instanced_mesh_is_drawn_once_for_all_instances() {
    let at = Instance::at(Position { x: 0, y: 0, z: 0 });
    let mesh = InstancedMesh::new(block_mesh(0, 0, 0, unit()), vec![at, at, at]);
    assert_eq!(mesh.vertices.len(), 36);
    assert_eq!(mesh.instances, vec![at, at, at]);
    let mut pass = vec![];
    mesh.draw(3, 4, &mut pass);
    assert_eq!(
        pass,
        vec![
            RenderCommand::SetVertexBuffer { slot: 0, buffer: 3 },
            RenderCommand::SetVertexBuffer { slot: 1, buffer: 4 },
            RenderCommand::Draw { vertices: 36, instances: 3 },
        ]
    );
}
