use widget_core::button::{Button, State as ButtonState};
use widget_core::color::Color;
use widget_core::hasher::Hasher;
use widget_core::label_text::{State, TextLabel};
use widget_core::length::Length;
use widget_core::renderer::Monospace;
use widget_core::widget::Widget;

fn label_fingerprint(label: &TextLabel<'_>) -> Vec<u64> {
    let mut hasher = Hasher::new();
    <TextLabel<'_> as Widget<Monospace>>::hash_layout(label, &mut hasher);
    hasher.finish()
}

fn button_fingerprint(button: &Button<'_>) -> Vec<u64> {
    let mut hasher = Hasher::new();
    <Button<'_> as Widget<Monospace>>::hash_layout(button, &mut hasher);
    hasher.finish()
}

#[test]
fn hasher_encodes_strings_exactly() {
    let mut hasher = Hasher::new();
    hasher.write(7);
    hasher.write_str("ab");
    let words = hasher.finish();
    assert_eq!(words, vec![7, 2, 'a' as u64, 'b' as u64]);
}

#[test]
fn hasher_encodes_empty_string() {
    let mut hasher = Hasher::new();
    hasher.write_str("");
    assert_eq!(hasher.finish(), vec![0]);
}

#[test]
fn fingerprint_differs_on_empty_versus_space() {
    let state = State::default();
    let a = TextLabel::new(&state, String::new());
    let b = TextLabel::new(&state, String::from(" "));
    assert_ne!(label_fingerprint(&a), label_fingerprint(&b));
}

#[test]
fn fingerprint_handles_unicode_text() {
    let state = State::default();
    let a = TextLabel::new(&state, String::from("héllo"));
    let b = TextLabel::new(&state, String::from("hèllo"));
    assert_ne!(label_fingerprint(&a), label_fingerprint(&b));
    let c = TextLabel::new(&state, String::from("héllo"));
    assert_eq!(label_fingerprint(&a), label_fingerprint(&c));
}

#[test]
fn fingerprint_determinism() {
    let state = State::default();
    let label = TextLabel::new(&state, String::from("hello")).size(14).width(Length::Fill);
    let first = label_fingerprint(&label);
    let second = label_fingerprint(&label);
    assert_eq!(first, second);
}

#[test]
fn fingerprint_same_for_identical_rebuild() {
    let state_a = State::default();
    let state_b = State::default();
    let a = TextLabel::new(&state_a, String::from("hello")).size(14);
    let b = TextLabel::new(&state_b, String::from("hello")).size(14);
    assert_eq!(label_fingerprint(&a), label_fingerprint(&b));
}

#[test]
fn fingerprint_differs_on_text() {
    let state = State::default();
    let a = TextLabel::new(&state, String::from("hello"));
    let b = TextLabel::new(&state, String::from("hellp"));
    assert_ne!(label_fingerprint(&a), label_fingerprint(&b));
}

#[test]
fn fingerprint_differs_on_text_length() {
    let state = State::default();
    let a = TextLabel::new(&state, String::from("hello"));
    let b = TextLabel::new(&state, String::from("hello "));
    assert_ne!(label_fingerprint(&a), label_fingerprint(&b));
}

#[test]
fn fingerprint_differs_on_size() {
    let state = State::default();
    let a = TextLabel::new(&state, String::from("hello")).size(14);
    let b = TextLabel::new(&state, String::from("hello")).size(15);
    let c = TextLabel::new(&state, String::from("hello"));
    assert_ne!(label_fingerprint(&a), label_fingerprint(&b));
    assert_ne!(label_fingerprint(&a), label_fingerprint(&c));
}

#[test]
fn fingerprint_differs_on_sizing_policy() {
    let state = State::default();
    let a = TextLabel::new(&state, String::from("hello")).width(Length::Fill);
    let b = TextLabel::new(&state, String::from("hello")).width(Length::Shrink);
    let c = TextLabel::new(&state, String::from("hello")).width(Length::Units(0));
    let d = TextLabel::new(&state, String::from("hello")).width(Length::FillPortion(0));
    assert_ne!(label_fingerprint(&a), label_fingerprint(&b));
    assert_ne!(label_fingerprint(&b), label_fingerprint(&c));
    assert_ne!(label_fingerprint(&a), label_fingerprint(&d));
}

#[test]
fn fingerprint_differs_on_font() {
    let state = State::default();
    let a = TextLabel::new(&state, String::from("hello"));
    let b = TextLabel::new(&state, String::from("hello"))
        .font(widget_core::text::Font { key: 7 });
    assert_ne!(label_fingerprint(&a), label_fingerprint(&b));
}

#[test]
fn fingerprint_ignores_mnemonic() {
    let state = State::default();
    let a = TextLabel::new(&state, String::from("hello"));
    let b = TextLabel::new(&state, String::from("hello")).mnemonic('h');
    assert_eq!(label_fingerprint(&a), label_fingerprint(&b));
}

#[test]
fn fingerprint_ignores_cosmetic_fields() {
    let state = State::default();
    let plain = TextLabel::new(&state, String::from("hello"));
    let styled = TextLabel::new(&state, String::from("hello"))
        .color(Color::from_rgb(255, 0, 0))
        .mnemonic('h')
        .horizontal_alignment(widget_core::alignment::Horizontal::Right)
        .vertical_alignment(widget_core::alignment::Vertical::Bottom);
    assert_eq!(label_fingerprint(&plain), label_fingerprint(&styled));
}

#[test]
fn fingerprint_distinguishes_widget_kinds() {
    let label_state = State::default();
    let button_state = ButtonState::default();
    let label = TextLabel::new(&label_state, String::from("ok"));
    let content = TextLabel::new(&label_state, String::from("ok"));
    let button = Button::new(&button_state, content);
    assert_ne!(label_fingerprint(&label), button_fingerprint(&button));
}

#[test]
fn button_fingerprint_covers_content() {
    let button_state = ButtonState::default();
    let label_state = State::default();
    let a = Button::new(&button_state, TextLabel::new(&label_state, String::from("yes")));
    let b = Button::new(&button_state, TextLabel::new(&label_state, String::from("no")));
    assert_ne!(button_fingerprint(&a), button_fingerprint(&b));
    let c = Button::new(&button_state, TextLabel::new(&label_state, String::from("yes")))
        .padding(9);
    assert_ne!(button_fingerprint(&a), button_fingerprint(&c));
}
