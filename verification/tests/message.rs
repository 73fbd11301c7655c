use flutter_cli::architecture::Architecture;
use flutter_cli::message::{Colour, Message, Style, Tone};
use flutter_cli::process::Platform;
use flutter_cli::selection::Question;

#[test]
fn preparing_names_the_project_and_the_style() {
    let message = Message::preparing("demo_app", Architecture::Clean);
    assert_eq!(message.tone, Tone::Success);
    assert_eq!(message.text, "🚀 demo_app projesi Clean Architecture ile hazırlanıyor...");
    let message = Message::preparing("shop", Architecture::Mvvm);
    assert_eq!(message.text, "🚀 shop projesi MVVM ile hazırlanıyor...");
}

#[test]
fn generator_failure_is_told_as_a_failure() {
    let message = Message::generator_failed();
    assert_eq!(message.tone, Tone::Failure);
    assert_eq!(message.text, "Flutter projesi oluşturulurken hata oluştu!");
}

#[test]
fn folders_added_names_the_style() {
    let message = Message::folders_added(Architecture::Mvvm);
    assert_eq!(message.tone, Tone::Plain);
    assert_eq!(message.text, "📂 MVVM mimarisine uygun klasörler eklendi.");
    assert_eq!(
        Message::folders_added(Architecture::Clean).text,
        "📂 Clean Architecture mimarisine uygun klasörler eklendi."
    );
}

#[test]
fn completed_stands_out() {
    let message = Message::completed();
    assert_eq!(message.tone, Tone::Success);
    assert_eq!(message.text, "\n✅ İşlem Başarıyla Tamamlandı! Klasörler oluşturuldu.");
}

#[test]
fn launching_editor_quotes_the_command() {
    let message = Message::launching_editor("nvim");
    assert_eq!(message.tone, Tone::Plain);
    assert_eq!(message.text, "🖥️  'nvim' komutu ile editör başlatılıyor...");
}

#[test]
fn editor_warning_depends_on_the_platform() {
    let message = Message::editor_not_found(Platform::Other, "subl");
    assert_eq!(message.tone, Tone::Warning);
    assert_eq!(message.text, "⚠️  Uyarı: 'subl' komutu bulunamadı.");
    let message = Message::editor_not_found(Platform::Windows, "subl");
    assert_eq!(message.tone, Tone::Warning);
    assert_eq!(message.text, "⚠️  Uyarı: 'subl' komutu bulunamadı veya çalıştırılamadı.");
    let hint = Message::path_hint();
    assert_eq!(hint.tone, Tone::Plain);
    assert_eq!(hint.text, "Lütfen komutun PATH'e ekli olduğundan emin olun.");
}

#[test]
fn manual_steps_enter_and_start_the_project() {
    let heading = Message::manual_heading();
    assert_eq!(heading.tone, Tone::Plain);
    assert_eq!(heading.text, "Terminalden girmek için:");
    let steps = Message::manual_steps("demo_app");
    assert_eq!(steps.tone, Tone::Plain);
    assert_eq!(steps.text, "cd demo_app\nflutter run");
}

#[test]
fn questions_have_their_wording() {
    assert_eq!(Question::ProjectName.prompt(), "Proje ismi nedir?");
    assert_eq!(Question::Architecture.prompt(), "Hangi mimariyi kullanmak istersin?");
    assert_eq!(
        Question::Editor.prompt(),
        "Projeyi oluşturduktan sonra nerede açmak istersiniz?"
    );
    assert_eq!(
        Question::EditorCommand.prompt(),
        "Editör komutunu giriniz (örn: nvim, subl, atom):"
    );
}

#[test]
fn tones_have_their_looks() {
    assert_eq!(Tone::Plain.style(), Style { colour: None, bold: false });
    assert_eq!(Tone::Success.style(), Style { colour: Some(Colour::Green), bold: true });
    assert_eq!(Tone::Failure.style(), Style { colour: Some(Colour::Red), bold: false });
    assert_eq!(Tone::Warning.style(), Style { colour: Some(Colour::Yellow), bold: false });
}
