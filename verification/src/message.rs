//! What the assistant tells its user: each notice with its wording and the
//! tone in which it is to be shown.

use crate::architecture::Architecture;
use crate::process::Platform;
use vstd::prelude::*;
use vstd::string::StringExecFns;

verus! {

/// Tone of a notice.
#[derive(Clone, Copy, Debug, PartialEq, Eq, Structural)]
pub enum Tone {
    Plain,
    /// Good news, to stand out.
    Success,
    /// Something failed.
    Failure,
    /// Something went wrong that the run survives.
    Warning,
}

/// Colour of a text on a terminal.
#[derive(Clone, Copy, Debug, PartialEq, Eq, Structural)]
pub enum Colour {
    Green,
    Red,
    Yellow,
}

/// Look of a text on a terminal: its colour, if it has one, and its weight.
#[derive(Clone, Copy, Debug, PartialEq, Eq, Structural)]
pub struct Style {
    pub colour: Option<Colour>,
    pub bold: bool,
}

impl Tone {
    /// How a tone looks: success is green and bold, failure red, a warning
    /// yellow; plain text has no look of its own.
    pub open spec fn look(self) -> Style {
        match self {
            Tone::Plain => Style { colour: None, bold: false },
            Tone::Success => Style { colour: Some(Colour::Green), bold: true },
            Tone::Failure => Style { colour: Some(Colour::Red), bold: false },
            Tone::Warning => Style { colour: Some(Colour::Yellow), bold: false },
        }
    }

    /// The look to show the tone in.
    pub fn style(&self) -> (style: Style)
        ensures
            style == self.look(),
    {
        match self {
            Tone::Plain => Style { colour: None, bold: false },
            Tone::Success => Style { colour: Some(Colour::Green), bold: true },
            Tone::Failure => Style { colour: Some(Colour::Red), bold: false },
            Tone::Warning => Style { colour: Some(Colour::Yellow), bold: false },
        }
    }
}

/// A notice for the user.
#[derive(Debug)]
pub struct Message {
    pub tone: Tone,
    pub text: String,
}

/// What a [`Message`] holds, as a mathematical value.
pub struct MessageView {
    pub tone: Tone,
    pub text: Seq<char>,
}

impl View for Message {
    type V = MessageView;

    open spec fn view(&self) -> MessageView {
        MessageView { tone: self.tone, text: self.text@ }
    }
}

impl DeepView for Message {
    type V = MessageView;

    open spec fn deep_view(&self) -> MessageView {
        self@
    }
}

impl MessageView {
    /// Announces that the project `name` is being prepared in `style`.
    pub open spec fn preparing(name: Seq<char>, style: Architecture) -> MessageView {
        MessageView {
            tone: Tone::Success,
            text: "🚀 "@ + name + " projesi "@ + style.label_text() + " ile hazırlanıyor..."@,
        }
    }

    /// Tells that the generator reported a failure.
    pub open spec fn generator_failed() -> MessageView {
        MessageView { tone: Tone::Failure, text: "Flutter projesi oluşturulurken hata oluştu!"@ }
    }

    /// Tells that the directories of `style` were added.
    pub open spec fn folders_added(style: Architecture) -> MessageView {
        MessageView {
            tone: Tone::Plain,
            text: "📂 "@ + style.label_text() + " mimarisine uygun klasörler eklendi."@,
        }
    }

    /// Tells that the scaffold is complete.
    pub open spec fn completed() -> MessageView {
        MessageView {
            tone: Tone::Success,
            text: "\n✅ İşlem Başarıyla Tamamlandı! Klasörler oluşturuldu."@,
        }
    }

    /// Announces the launch of the editor `command`.
    pub open spec fn launching_editor(command: Seq<char>) -> MessageView {
        MessageView {
            tone: Tone::Plain,
            text: "🖥️  '"@ + command + "' komutu ile editör başlatılıyor..."@,
        }
    }

    /// Warns that the editor `command` could not be launched.
    pub open spec fn editor_not_found(platform: Platform, command: Seq<char>) -> MessageView {
        MessageView {
            tone: Tone::Warning,
            text: "⚠️  Uyarı: '"@ + command + match platform {
                Platform::Windows => "' komutu bulunamadı veya çalıştırılamadı."@,
                Platform::Other => "' komutu bulunamadı."@,
            },
        }
    }

    /// Advises to check the search path.
    pub open spec fn path_hint() -> MessageView {
        MessageView { tone: Tone::Plain, text: "Lütfen komutun PATH'e ekli olduğundan emin olun."@ }
    }

    /// Heads the commands to run by hand.
    pub open spec fn manual_heading() -> MessageView {
        MessageView { tone: Tone::Plain, text: "Terminalden girmek için:"@ }
    }

    /// The two commands that enter the project `name` and start it.
    pub open spec fn manual_steps(name: Seq<char>) -> MessageView {
        MessageView { tone: Tone::Plain, text: "cd "@ + name + "\nflutter run"@ }
    }
}

impl Message {
    /// Announces that the project `name` is being prepared in `style`.
    pub fn preparing(name: &str, style: Architecture) -> (message: Message)
        ensures
            message@ == MessageView::preparing(name@, style),
    {
        let mut text = String::from_str("🚀 ");
        text.append(name);
        text.append(" projesi ");
        text.append(style.label());
        text.append(" ile hazırlanıyor...");
        Message { tone: Tone::Success, text }
    }

    /// Tells that the generator reported a failure.
    pub fn generator_failed() -> (message: Message)
        ensures
            message@ == MessageView::generator_failed(),
    {
        Message {
            tone: Tone::Failure,
            text: String::from_str("Flutter projesi oluşturulurken hata oluştu!"),
        }
    }

    /// Tells that the directories of `style` were added.
    pub fn folders_added(style: Architecture) -> (message: Message)
        ensures
            message@ == MessageView::folders_added(style),
    {
        let mut text = String::from_str("📂 ");
        text.append(style.label());
        text.append(" mimarisine uygun klasörler eklendi.");
        Message { tone: Tone::Plain, text }
    }

    /// Tells that the scaffold is complete.
    pub fn completed() -> (message: Message)
        ensures
            message@ == MessageView::completed(),
    {
        Message {
            tone: Tone::Success,
            text: String::from_str("\n✅ İşlem Başarıyla Tamamlandı! Klasörler oluşturuldu."),
        }
    }

    /// Announces the launch of the editor `command`.
    pub fn launching_editor(command: &str) -> (message: Message)
        ensures
            message@ == MessageView::launching_editor(command@),
    {
        let mut text = String::from_str("🖥️  '");
        text.append(command);
        text.append("' komutu ile editör başlatılıyor...");
        Message { tone: Tone::Plain, text }
    }

    /// Warns that the editor `command` could not be launched.
    pub fn editor_not_found(platform: Platform, command: &str) -> (message: Message)
        ensures
            message@ == MessageView::editor_not_found(platform, command@),
    {
        let mut text = String::from_str("⚠️  Uyarı: '");
        text.append(command);
        match platform {
            Platform::Windows => text.append("' komutu bulunamadı veya çalıştırılamadı."),
            Platform::Other => text.append("' komutu bulunamadı."),
        }
        Message { tone: Tone::Warning, text }
    }

    /// Advises to check the search path.
    pub fn path_hint() -> (message: Message)
        ensures
            message@ == MessageView::path_hint(),
    {
        Message {
            tone: Tone::Plain,
            text: String::from_str("Lütfen komutun PATH'e ekli olduğundan emin olun."),
        }
    }

    /// Heads the commands to run by hand.
    pub fn manual_heading() -> (message: Message)
        ensures
            message@ == MessageView::manual_heading(),
    {
        Message { tone: Tone::Plain, text: String::from_str("Terminalden girmek için:") }
    }

    /// The two commands that enter the project `name` and start it.
    pub fn manual_steps(name: &str) -> (message: Message)
        ensures
            message@ == MessageView::manual_steps(name@),
    {
        let mut text = String::from_str("cd ");
        text.append(name);
        text.append("\nflutter run");
        Message { tone: Tone::Plain, text }
    }
}

} // verus!
