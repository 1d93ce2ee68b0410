use sdl_safe::SdlError;
use sdl_safe::color::Rgb;
use sdl_safe::video::window::Window;
use sdl_safe::video::window::message_box::Button;
use sdl_safe::video::window::message_box::ButtonKind;
use sdl_safe::video::window::message_box::ColorScheme;
use sdl_safe::video::window::message_box::MessageBox;
use sdl_safe::video::window::message_box::MessageBoxKind;
use sdl_safe::video::window::message_box::ShowReport;

fn scheme() -> ColorScheme {
    let grey = Rgb { r: 128, g: 128, b: 128 };
    ColorScheme {
        background: grey,
        text: Rgb { r: 0, g: 0, b: 0 },
        button_border: grey,
        button_background: Rgb { r: 200, g: 200, b: 200 },
        button_selected: Rgb { r: 255, g: 255, b: 0 },
    }
}

fn build() -> MessageBox {
    MessageBox::new(MessageBoxKind::Warning)
        .title("Unsaved changes")
        .message("Save before closing?")
        .add_button(Button { id: 1, text: "Save".to_string(), kind: ButtonKind::ReturnKeyDefault })
        .add_button(Button { id: 2, text: "Discard".to_string(), kind: ButtonKind::Plain })
        .add_button(Button { id: 0, text: "Cancel".to_string(), kind: ButtonKind::EscapeKeyDefault })
        .color_scheme(Some(scheme()))
}

#[test]
fn show_returns_the_activated_button_id() {
    let parent = Window::new(900);
    let report = ShowReport { ret: 0, pressed: 2, error: String::new() };
    assert_eq!(build().show(&parent, report), Ok(2));
}

#[test]
fn show_surfaces_a_native_failure_with_its_message() {
    let parent = Window::new(900);
    let report = ShowReport { ret: -1, pressed: 0, error: "No video driver".to_string() };
    assert_eq!(
        build().show(&parent, report),
        Err(SdlError::Others { msg: "No video driver".to_string() })
    );
}

#[test]
fn an_empty_request_can_still_be_shown() {
    let parent = Window::new(1);
    let report = ShowReport { ret: 0, pressed: 0, error: String::new() };
    let r = MessageBox::new(MessageBoxKind::Information).show(&parent, report);
    assert_eq!(r, Ok(0));
}

#[test]
fn the_parent_window_keeps_its_handle() {
    let parent = Window::new(321);
    assert_eq!(parent.as_raw(), 321);
}

#[test]
fn the_request_carries_exactly_what_was_accumulated() {
    let b = build();
    let request = b.request();
    assert_eq!(request.flags, 0x20); // warning
    assert_eq!(request.title, "Unsaved changes");
    assert_eq!(request.message, "Save before closing?");
    assert_eq!(request.buttons.len(), 3);
    assert_eq!(request.buttons[0].id, 1);
    assert_eq!(request.buttons[0].text, "Save");
    assert_eq!(request.buttons[0].kind, ButtonKind::ReturnKeyDefault);
    assert_eq!(request.buttons[1].id, 2);
    assert_eq!(request.buttons[2].text, "Cancel");
    assert_eq!(request.color_scheme, Some(scheme()));
    // the request does not consume the builder; showing still works
    let parent = Window::new(900);
    let report = ShowReport { ret: 0, pressed: 1, error: String::new() };
    assert_eq!(b.show(&parent, report), Ok(1));
}

#[test]
fn an_empty_request_has_no_text_no_buttons_no_scheme() {
    let request = MessageBox::new(MessageBoxKind::Information).request();
    assert_eq!(request.flags, 0x40);
    assert_eq!(request.title, "");
    assert_eq!(request.message, "");
    assert!(request.buttons.is_empty());
    assert_eq!(request.color_scheme, None);
}

#[test]
fn the_severity_flags_are_fixed_and_distinct() {
    assert_eq!(MessageBoxKind::Error.into_raw(), 0x10);
    assert_eq!(MessageBoxKind::Warning.into_raw(), 0x20);
    assert_eq!(MessageBoxKind::Information.into_raw(), 0x40);
}
