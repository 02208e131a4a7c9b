//! The state behind the graphical front end: what the form holds, the
//! events that reach it, and how each event changes it. Drawing the form is
//! left to the program that shows it.

use vstd::prelude::*;

verus! {

/// The direction in which the form is to work.
#[derive(Debug, Clone, Copy, PartialEq, Eq, Structural)]
pub enum Mode {
    Encrypt,
    Decrypt,
}

impl Mode {
    /// The two modes, in the order in which they are offered.
    pub fn all() -> (modes: [Mode; 2])
        ensures
            modes@ == seq![Mode::Encrypt, Mode::Decrypt],
    {
        let modes = [Mode::Encrypt, Mode::Decrypt];
        assert(modes@ =~= seq![Mode::Encrypt, Mode::Decrypt]);
        modes
    }

    /// The word that stands for a mode.
    pub open spec fn spec_label(self) -> Seq<char> {
        match self {
            Mode::Encrypt => "encrypt"@,
            Mode::Decrypt => "decrypt"@,
        }
    }

    /// The word under which a mode is shown.
    pub fn label(&self) -> (word: &'static str)
        ensures
            word@ == self.spec_label(),
    {
        match self {
            Mode::Encrypt => "encrypt",
            Mode::Decrypt => "decrypt",
        }
    }
}

impl Default for Mode {
    fn default() -> (mode: Self)
        ensures
            mode == Mode::Encrypt,
    {
        Mode::Encrypt
    }
}

/// An event of the form.
#[derive(Debug, Clone)]
pub enum Message {
    /// The button was pressed.
    CryptPressed,
    /// The passphrase field now holds this text.
    PassInputChanged(String),
    /// The source field now holds this text.
    SourceInputChanged(String),
    /// This mode was picked.
    ModeSelected(Mode),
}

/// What a form amounts to: the texts of its two fields and its mode.
pub struct Form {
    pub pass: Seq<char>,
    pub source: Seq<char>,
    pub mode: Mode,
}

/// The form after an event: a change of a field or of the mode is stored
/// and leaves the rest as it was, and a press of the button changes
/// nothing.
pub open spec fn updated(form: Form, message: Message) -> Form {
    match message {
        Message::CryptPressed => form,
        Message::PassInputChanged(text) => Form { pass: text@, ..form },
        Message::SourceInputChanged(text) => Form { source: text@, ..form },
        Message::ModeSelected(mode) => Form { mode: mode, ..form },
    }
}

/// What the form holds: the passphrase, the source text and the mode.
#[derive(Debug)]
pub struct Application {
    pass: String,
    source: String,
    selected_mode: Mode,
}

impl Default for Application {
    /// An empty form in encrypt mode.
    fn default() -> (app: Self)
        ensures
            app@ == (Form {
                pass: Seq::<char>::empty(),
                source: Seq::<char>::empty(),
                mode: Mode::Encrypt,
            }),
    {
        Application { pass: String::new(), source: String::new(), selected_mode: Mode::default() }
    }
}

impl View for Application {
    type V = Form;

    closed spec fn view(&self) -> Form {
        Form { pass: self.pass@, source: self.source@, mode: self.selected_mode }
    }
}

impl Application {
    /// An empty form in encrypt mode.
    pub fn new() -> (app: Self)
        ensures
            app@ == (Form {
                pass: Seq::<char>::empty(),
                source: Seq::<char>::empty(),
                mode: Mode::Encrypt,
            }),
    {
        Application::default()
    }

    /// The passphrase that was typed.
    pub fn pass(&self) -> (text: &str)
        ensures
            text@ == self@.pass,
    {
        self.pass.as_str()
    }

    /// The source text that was typed.
    pub fn source(&self) -> (text: &str)
        ensures
            text@ == self@.source,
    {
        self.source.as_str()
    }

    /// The mode that is selected.
    pub fn selected_mode(&self) -> (mode: Mode)
        ensures
            mode == self@.mode,
    {
        self.selected_mode
    }

    /// Takes an event in and stores what it changes. The result says
    /// whether the button was pressed, so that the caller can act on what
    /// the form holds.
    pub fn update(&mut self, message: Message) -> (pressed: bool)
        ensures
            final(self)@ == updated(old(self)@, message),
            pressed == (message is CryptPressed),
    {
        match message {
            Message::CryptPressed => true,
            Message::PassInputChanged(value) => {
                self.pass = value;
                false
            },
            Message::SourceInputChanged(value) => {
                self.source = value;
                false
            },
            Message::ModeSelected(value) => {
                self.selected_mode = value;
                false
            },
        }
    }
}

} // verus!
