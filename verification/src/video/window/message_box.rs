//! The message-box request builder.
//!
//! A request accumulates its title, message, buttons and color scheme
//! while it is being built; [`MessageBox::request`] is the exact
//! plain-value submission handed to the native layer, and
//! [`MessageBox::show`] is the only way out of the building state.  It consumes the request, stands for the one
//! blocking native call, and returns the id of the button the user
//! activated, or a typed error when the native call failed.  A consumed
//! request cannot be reused or submitted twice.

use vstd::prelude::*;

use crate::SdlError;
use crate::SdlResult;
use crate::c_string_safe;
use crate::color::Rgb;
use crate::video::window::Window;

verus! {

/// The id a caller assigns to one button of a message box; the native
/// call answers with the id of the button the user activated.
pub type ButtonId = i32;

/// How a button reacts to the keyboard.
#[derive(Debug, Clone, Copy, PartialEq, Eq, Structural)]
pub enum ButtonKind {
    /// Activated only by pointing at it.
    Plain,
    /// Also activated by the return key.
    ReturnKeyDefault,
    /// Also activated by the escape key.
    EscapeKeyDefault,
}

/// One button of a message-box request.
#[derive(Debug, Clone, PartialEq, Eq)]
pub struct Button {
    pub id: ButtonId,
    pub text: String,
    pub kind: ButtonKind,
}

/// The colors a message box is drawn with.
#[derive(Debug, Clone, Copy, PartialEq, Eq, Structural)]
pub struct ColorScheme {
    pub background: Rgb,
    pub text: Rgb,
    pub button_border: Rgb,
    pub button_background: Rgb,
    pub button_selected: Rgb,
}

/// The severity a message box is presented with.
#[derive(Debug, Clone, Copy, PartialEq, Eq, Structural)]
pub enum MessageBoxKind {
    Error,
    Warning,
    Information,
}

impl MessageBoxKind {
    /// The fixed native flag bit of this severity.
    pub open spec fn spec_flags(self) -> u32 {
        match self {
            MessageBoxKind::Error => 0x10,
            MessageBoxKind::Warning => 0x20,
            MessageBoxKind::Information => 0x40,
        }
    }

    /// Encodes this severity as the flag bit the native layer expects.
    pub fn into_raw(self) -> (flags: u32)
        ensures
            flags == self.spec_flags(),
    {
        match self {
            MessageBoxKind::Error => 0x10,
            MessageBoxKind::Warning => 0x20,
            MessageBoxKind::Information => 0x40,
        }
    }
}

/// The plain-value submission a built request stands for: exactly what
/// the host must marshal into the native call, no more and no less.
pub struct MessageBoxRequest {
    /// The native flag bits encoding the severity.
    pub flags: u32,
    /// The title text.
    pub title: String,
    /// The message text.
    pub message: String,
    /// The buttons, in the order they were added.
    pub buttons: Vec<Button>,
    /// The color scheme, or the native layer's own colors.
    pub color_scheme: Option<ColorScheme>,
}

/// What the native show call returned.
pub struct ShowReport {
    /// The call's return code; `0` is success.
    pub ret: i32,
    /// The id of the button the user activated, meaningful on success.
    pub pressed: ButtonId,
    /// The last-error message, meaningful on failure.
    pub error: String,
}

/// A message-box request that is still being built.
#[derive(Debug)]
pub struct MessageBox {
    kind: MessageBoxKind,
    title: String,
    message: String,
    buttons: Vec<Button>,
    color_scheme: Option<ColorScheme>,
}

impl MessageBox {
    /// The requested severity.
    pub closed spec fn spec_kind(&self) -> MessageBoxKind {
        self.kind
    }

    /// The accumulated title text.
    pub closed spec fn spec_title(&self) -> Seq<char> {
        self.title@
    }

    /// The accumulated message text.
    pub closed spec fn spec_message(&self) -> Seq<char> {
        self.message@
    }

    /// The accumulated buttons, in the order they were added.
    pub closed spec fn spec_buttons(&self) -> Seq<Button> {
        self.buttons@
    }

    /// The requested color scheme, if any.
    pub closed spec fn spec_color_scheme(&self) -> Option<ColorScheme> {
        self.color_scheme
    }

    /// An empty request of the given severity: no title, no message,
    /// no buttons, and the native layer's own colors.
    pub fn new(kind: MessageBoxKind) -> (b: MessageBox)
        ensures
            b.spec_kind() == kind,
            b.spec_title() == Seq::<char>::empty(),
            b.spec_message() == Seq::<char>::empty(),
            b.spec_buttons() == Seq::<Button>::empty(),
            b.spec_color_scheme() is None,
    {
        MessageBox {
            kind,
            title: String::new(),
            message: String::new(),
            buttons: Vec::new(),
            color_scheme: None,
        }
    }

    /// Sets the title.  The text crosses into the native layer as a C
    /// string, so an interior NUL is a programmer error.
    pub fn title(self, title: &str) -> (b: MessageBox)
        requires
            c_string_safe(title@),
        ensures
            b.spec_kind() == self.spec_kind(),
            b.spec_title() == title@,
            b.spec_message() == self.spec_message(),
            b.spec_buttons() == self.spec_buttons(),
            b.spec_color_scheme() == self.spec_color_scheme(),
    {
        MessageBox {
            kind: self.kind,
            title: title.to_owned(),
            message: self.message,
            buttons: self.buttons,
            color_scheme: self.color_scheme,
        }
    }

    /// Sets the message text.  The text crosses into the native layer
    /// as a C string, so an interior NUL is a programmer error.
    pub fn message(self, message: &str) -> (b: MessageBox)
        requires
            c_string_safe(message@),
        ensures
            b.spec_kind() == self.spec_kind(),
            b.spec_title() == self.spec_title(),
            b.spec_message() == message@,
            b.spec_buttons() == self.spec_buttons(),
            b.spec_color_scheme() == self.spec_color_scheme(),
    {
        MessageBox {
            kind: self.kind,
            title: self.title,
            message: message.to_owned(),
            buttons: self.buttons,
            color_scheme: self.color_scheme,
        }
    }

    /// Appends one button.
    pub fn add_button(self, button: Button) -> (b: MessageBox)
        ensures
            b.spec_kind() == self.spec_kind(),
            b.spec_title() == self.spec_title(),
            b.spec_message() == self.spec_message(),
            b.spec_buttons() == self.spec_buttons().push(button),
            b.spec_color_scheme() == self.spec_color_scheme(),
    {
        let mut buttons = self.buttons;
        buttons.push(button);
        MessageBox {
            kind: self.kind,
            title: self.title,
            message: self.message,
            buttons,
            color_scheme: self.color_scheme,
        }
    }

    /// Sets or clears the color scheme.
    pub fn color_scheme(self, scheme: Option<ColorScheme>) -> (b: MessageBox)
        ensures
            b.spec_kind() == self.spec_kind(),
            b.spec_title() == self.spec_title(),
            b.spec_message() == self.spec_message(),
            b.spec_buttons() == self.spec_buttons(),
            b.spec_color_scheme() == scheme,
    {
        MessageBox {
            kind: self.kind,
            title: self.title,
            message: self.message,
            buttons: self.buttons,
            color_scheme: scheme,
        }
    }

    /// The submission this builder stands for: the flags encode the
    /// severity, and the accumulated title, message, buttons (in
    /// insertion order) and color scheme are carried exactly.  This is
    /// what the host hands to the one blocking native call that
    /// [`MessageBox::show`] accounts for.
    pub fn request(&self) -> (r: MessageBoxRequest)
        ensures
            r.flags == self.spec_kind().spec_flags(),
            r.title@ == self.spec_title(),
            r.message@ == self.spec_message(),
            r.buttons@ == self.spec_buttons(),
            r.color_scheme == self.spec_color_scheme(),
    {
        let mut buttons: Vec<Button> = Vec::new();
        let n = self.buttons.len();
        let mut i: usize = 0;
        while i < n
            invariant
                i <= n,
                n == self.buttons@.len(),
                buttons@ == self.buttons@.take(i as int),
            decreases n - i,
        {
            let b = &self.buttons[i];
            let entry = Button { id: b.id, text: b.text.clone(), kind: b.kind };
            proof {
                assert(entry == self.buttons@[i as int]);
                assert(self.buttons@.take(i + 1 as int) =~= self.buttons@.take(i as int).push(
                    self.buttons@[i as int],
                ));
            }
            buttons.push(entry);
            i = i + 1;
        }
        proof {
            assert(self.buttons@.take(n as int) =~= self.buttons@);
        }
        MessageBoxRequest {
            flags: self.kind.into_raw(),
            title: self.title.clone(),
            message: self.message.clone(),
            buttons,
            color_scheme: self.color_scheme,
        }
    }

    /// Submits the request over `parent`: the terminal transition out
    /// of the building state, consuming the request so it cannot be
    /// submitted twice.
    ///
    /// The native call is handed exactly [`MessageBox::request`];
    /// `report` is what it returned: a nonzero return code is always an
    /// error carrying the last-error message, and success carries the
    /// id of the button the user activated.
    #[allow(unused_variables)]
    pub fn show(self, parent: &Window, report: ShowReport) -> (r: SdlResult<ButtonId>)
        ensures
            report.ret != 0 ==> r == Err::<ButtonId, SdlError>(
                (SdlError::Others { msg: report.error }),
            ),
            report.ret == 0 ==> r == Ok::<ButtonId, SdlError>(report.pressed),
    {
        if report.ret != 0 {
            return Err(SdlError::Others { msg: report.error });
        }
        Ok(report.pressed)
    }
}

} // verus!
