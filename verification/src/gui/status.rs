//! The status line: whether the vault is unlocked, the last message and its color.
use vstd::prelude::*;
use vstd::string::StringExecFns;

verus! {

/// The colors the front end paints with (the user interface maps them to its own).
#[derive(Clone, Copy, PartialEq, Eq, Structural, Debug)]
pub enum Color {
    Transparent,
    Red,
    Green,
    White,
}

enum StatusMessage {
    Locked,
    Unlocked,
    Error(String),
    Message(String),
}

/// The text of the status line for a message.
spec fn message_text(m: StatusMessage) -> Seq<char> {
    match m {
        StatusMessage::Locked => "🔒 Locked"@,
        StatusMessage::Unlocked => "🔓 Unlocked"@,
        StatusMessage::Error(e) => "❎ : "@ + e@,
        StatusMessage::Message(s) => "✅ : "@ + s@,
    }
}

/// Whether the vault is unlocked, and what the status line says in which color.
pub struct Status {
    is_unlocked: bool,
    message: StatusMessage,
    color: Color,
}

/// The status line text for a locked vault.
pub open spec fn locked_text() -> Seq<char> {
    "🔒 Locked"@
}

/// The status line text for an unlocked vault.
pub open spec fn unlocked_text() -> Seq<char> {
    "🔓 Unlocked"@
}

/// The status line text for an error.
pub open spec fn error_text(e: Seq<char>) -> Seq<char> {
    "❎ : "@ + e
}

/// The status line text for a message.
pub open spec fn message_line(m: Seq<char>) -> Seq<char> {
    "✅ : "@ + m
}

impl Status {
    /// Whether the vault is unlocked.
    pub closed spec fn unlocked(&self) -> bool {
        self.is_unlocked
    }

    /// The text of the status line.
    pub closed spec fn text(&self) -> Seq<char> {
        message_text(self.message)
    }

    /// The color of the status line.
    pub closed spec fn tint(&self) -> Color {
        self.color
    }

    /// Whether the vault is locked.
    pub fn is_locked(&self) -> (r: bool)
        ensures
            r == !self.unlocked(),
    {
        !self.is_unlocked
    }

    /// The text of the status line.
    pub fn status(&self) -> (r: String)
        ensures
            r@ == self.text(),
    {
        match &self.message {
            StatusMessage::Locked => String::from_str("🔒 Locked"),
            StatusMessage::Unlocked => String::from_str("🔓 Unlocked"),
            StatusMessage::Error(e) => {
                let mut s = String::from_str("❎ : ");
                s.append(e.as_str());
                s
            },
            StatusMessage::Message(m) => {
                let mut s = String::from_str("✅ : ");
                s.append(m.as_str());
                s
            },
        }
    }

    /// Marks the vault locked.
    pub fn lock(&mut self)
        ensures
            !final(self).unlocked(),
            final(self).text() == locked_text(),
            final(self).tint() == Color::Red,
    {
        self.is_unlocked = false;
        self.message = StatusMessage::Locked;
        self.color = Color::Red;
    }

    /// Marks the vault unlocked.
    pub fn unlock(&mut self)
        ensures
            final(self).unlocked(),
            final(self).text() == unlocked_text(),
            final(self).tint() == Color::Green,
    {
        self.is_unlocked = true;
        self.message = StatusMessage::Unlocked;
        self.color = Color::Green;
    }

    /// Shows an error, in red; the vault stays as locked or unlocked as it was.
    pub fn error(&mut self, err: String)
        ensures
            final(self).unlocked() == old(self).unlocked(),
            final(self).text() == error_text(err@),
            final(self).tint() == Color::Red,
    {
        self.message = StatusMessage::Error(err);
        self.color = Color::Red;
    }

    /// Shows a message, in green; the vault stays as locked or unlocked as it was.
    pub fn message(&mut self, msg: String)
        ensures
            final(self).unlocked() == old(self).unlocked(),
            final(self).text() == message_line(msg@),
            final(self).tint() == Color::Green,
    {
        self.message = StatusMessage::Message(msg);
        self.color = Color::Green;
    }

    /// The color of the status line.
    pub fn color(&self) -> (r: Color)
        ensures
            r == self.tint(),
    {
        self.color
    }
}

impl Default for Status {
    fn default() -> (s: Status)
        ensures
            !s.unlocked(),
            s.text() == locked_text(),
            s.tint() == Color::Transparent,
    {
        Status { is_unlocked: false, message: StatusMessage::Locked, color: Color::Transparent }
    }
}

} // verus!
