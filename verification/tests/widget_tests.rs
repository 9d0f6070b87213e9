use widget_core::button::{Button, State as ButtonState};
use widget_core::color::Color;
use widget_core::geometry::{Point, Rectangle, Size};
use widget_core::label_text::{draw, State, TextLabel};
use widget_core::layout::{Layout, Limits, Node};
use widget_core::length::Length;
use widget_core::renderer::{Monospace, Style};
use widget_core::text::Font;
use widget_core::settings::{PlatformSpecific, WindowId};
use widget_core::widget::Widget;

fn limits(max_w: u32, max_h: u32) -> Limits {
    Limits::new(Size::new(0, 0), Size::new(max_w, max_h))
}

#[test]
fn label_layout_measures_text() {
    let renderer = Monospace::new(20);
    let state = State::default();
    let label = TextLabel::new(&state, String::from("hello")).size(10);
    let node = label.layout(&renderer, &limits(1000, 1000));
    assert_eq!(node.size, Size::new(50, 10));
    assert!(node.children.is_empty());
}

#[test]
fn label_layout_uses_default_size() {
    let renderer = Monospace::new(20);
    let state = State::default();
    let label = TextLabel::new(&state, String::from("abc"));
    let node = label.layout(&renderer, &limits(1000, 1000));
    assert_eq!(node.size, Size::new(60, 20));
}

#[test]
fn label_layout_measures_unicode_by_characters() {
    let renderer = Monospace::new(20);
    let state = State::default();
    let label = TextLabel::new(&state, String::from("héllo")).size(10);
    let node = label.layout(&renderer, &limits(1000, 1000));
    assert_eq!(node.size, Size::new(50, 10));
}

#[test]
fn label_layout_of_empty_text() {
    let renderer = Monospace::new(20);
    let state = State::default();
    let label = TextLabel::new(&state, String::new()).size(10);
    let node = label.layout(&renderer, &limits(1000, 1000));
    assert_eq!(node.size, Size::new(0, 10));
}

#[test]
fn label_layout_within_limits() {
    let renderer = Monospace::new(20);
    let state = State::default();
    let label = TextLabel::new(&state, String::from("a very long line of text")).size(40);
    let tight = Limits::new(Size::new(30, 25), Size::new(100, 35));
    let node = label.layout(&renderer, &tight);
    assert!(30 <= node.size.width && node.size.width <= 100);
    assert!(25 <= node.size.height && node.size.height <= 35);
    assert_eq!(node.size, Size::new(100, 35));
}

#[test]
fn label_layout_respects_fixed_width() {
    let renderer = Monospace::new(20);
    let state = State::default();
    let label = TextLabel::new(&state, String::from("hi")).size(10).width(Length::Units(77));
    let node = label.layout(&renderer, &limits(1000, 1000));
    assert_eq!(node.size, Size::new(77, 10));
}

#[test]
fn label_width_height_report_policies() {
    let state = State::default();
    let label = TextLabel::new(&state, String::from("hi"))
        .width(Length::Fill)
        .height(Length::Units(3));
    assert_eq!(<TextLabel<'_> as Widget<Monospace>>::width(&label), Length::Fill);
    assert_eq!(<TextLabel<'_> as Widget<Monospace>>::height(&label), Length::Units(3));
}

#[test]
fn draw_records_one_primitive() {
    let mut renderer = Monospace::new(20);
    let state = State::default();
    let label = TextLabel::new(&state, String::from("hello")).size(10);
    let node = label.layout(&renderer, &limits(1000, 1000));
    let style = Style::default();
    label.draw(
        &mut renderer,
        &style,
        Layout::new(&node),
        Point::new(0, 0),
        &Rectangle { x: 0, y: 0, width: 1000, height: 1000 },
    );
    assert_eq!(renderer.drawn_count(), 1);
    assert_eq!(renderer.recorded[0].content, "hello");
    assert_eq!(renderer.recorded[0].size, 10);
}

#[test]
fn draw_falls_back_to_defaults() {
    let mut renderer = Monospace::new(20);
    let style = Style { text_color: Color::from_rgb(1, 2, 3) };
    let node = Node::new(Size::new(100, 20));
    draw(
        &mut renderer,
        &style,
        Layout::new(&node),
        "abc",
        Font { key: 0 },
        None,
        None,
        widget_core::alignment::Horizontal::Left,
        widget_core::alignment::Vertical::Top,
    );
    assert_eq!(renderer.recorded[0].size, 20);
    assert_eq!(renderer.recorded[0].color, Color::from_rgb(1, 2, 3));
}

#[test]
fn draw_keeps_explicit_attributes() {
    let mut renderer = Monospace::new(20);
    let style = Style::default();
    let node = Node::new(Size::new(100, 20));
    draw(
        &mut renderer,
        &style,
        Layout::new(&node),
        "abc",
        Font { key: 4 },
        Some(11),
        Some(Color::from_rgb(9, 9, 9)),
        widget_core::alignment::Horizontal::Left,
        widget_core::alignment::Vertical::Top,
    );
    assert_eq!(renderer.recorded[0].size, 11);
    assert_eq!(renderer.recorded[0].color, Color::from_rgb(9, 9, 9));
    assert_eq!(renderer.recorded[0].font, Font { key: 4 });
}

#[test]
fn draw_anchors_bounds() {
    let mut renderer = Monospace::new(20);
    let style = Style::default();
    let node = Node::new(Size::new(100, 20));
    let layout = Layout::at(Point::new(10, 10), &node);
    draw(
        &mut renderer,
        &style,
        layout,
        "abc",
        Font { key: 0 },
        None,
        None,
        widget_core::alignment::Horizontal::Right,
        widget_core::alignment::Vertical::Bottom,
    );
    let bounds = renderer.recorded[0].bounds;
    assert_eq!((bounds.x, bounds.y), (110, 30));
    assert_eq!((bounds.width, bounds.height), (100, 20));
}

#[test]
fn button_layout_pads_content() {
    let renderer = Monospace::new(20);
    let label_state = State::default();
    let button_state = ButtonState::default();
    let content = TextLabel::new(&label_state, String::from("ok")).size(10);
    let button = Button::new(&button_state, content).padding(5);
    let node = button.layout(&renderer, &limits(1000, 1000));
    assert_eq!(node.size, Size::new(30, 20));
    assert_eq!(node.children.len(), 1);
    assert_eq!(node.children[0].offset, Point { x: 5, y: 5 });
    assert_eq!(node.children[0].node.size, Size::new(20, 10));
}

#[test]
fn button_layout_within_limits() {
    let renderer = Monospace::new(20);
    let label_state = State::default();
    let button_state = ButtonState::default();
    let content = TextLabel::new(&label_state, String::from("a long label")).size(40);
    let button = Button::new(&button_state, content);
    let tight = Limits::new(Size::new(10, 10), Size::new(60, 30));
    let node = button.layout(&renderer, &tight);
    assert!(10 <= node.size.width && node.size.width <= 60);
    assert!(10 <= node.size.height && node.size.height <= 30);
}

#[test]
fn button_draw_draws_content_inside_padding() {
    let mut renderer = Monospace::new(20);
    let label_state = State::default();
    let button_state = ButtonState::default();
    let content = TextLabel::new(&label_state, String::from("ok")).size(10);
    let button = Button::new(&button_state, content).padding(5);
    let node = button.layout(&renderer, &limits(1000, 1000));
    let style = Style::default();
    button.draw(
        &mut renderer,
        &style,
        Layout::at(Point::new(100, 100), &node),
        Point::new(0, 0),
        &Rectangle { x: 0, y: 0, width: 1000, height: 1000 },
    );
    assert_eq!(renderer.drawn_count(), 1);
    let bounds = renderer.recorded[0].bounds;
    assert_eq!((bounds.x, bounds.y), (105, 105));
    assert_eq!((bounds.width, bounds.height), (20, 10));
}

#[test]
fn settings_defaults() {
    let p = PlatformSpecific::default();
    assert!(p.id.is_none());
    let w = WindowId::default();
    assert_eq!(w.instance, "");
    assert_eq!(w.general, "");
}

#[test]
fn settings_equality() {
    let a = WindowId { instance: String::from("editor"), general: String::from("app") };
    let b = WindowId { instance: String::from("editor"), general: String::from("app") };
    let c = WindowId { instance: String::from("other"), general: String::from("app") };
    assert!(a == b);
    assert!(a != c);
    let pa = PlatformSpecific { id: Some(a) };
    let pb = PlatformSpecific { id: Some(b) };
    assert!(pa == pb);
    assert!(pa != PlatformSpecific::default());
}

#[test]
fn widget_states_default() {
    let label_state = State::default();
    assert!(label_state.marked.is_none());
    assert!(!label_state.hovered);
    let button_state = ButtonState::default();
    assert!(!button_state.is_pressed);
}
