use coffee_ui::column::Column;
use coffee_ui::geometry::{Color, HorizontalAlignment, Point, Rectangle, VerticalAlignment};
use coffee_ui::hasher::Hasher;
use coffee_ui::input::{ButtonState, Event, KeyboardEvent, MouseButton, MouseEvent};
use coffee_ui::interface::{dispatch, layout_hash};
use coffee_ui::layout::{Align, Direction, Layout, Length};
use coffee_ui::radio::{draw_bounds, Radio};
use coffee_ui::recorder::{Call, Recorder};
use coffee_ui::text::Renderer as _;
use coffee_ui::widget::{Element, MouseCursor, Widget};

#[derive(Debug, Clone, Copy, PartialEq, Eq)]
enum Choice {
    A,
    B,
}

#[derive(Debug, Clone, Copy, PartialEq, Eq)]
enum Message {
    RadioSelected(Choice),
}

fn left_press() -> Event {
    Event::Mouse(MouseEvent::Input { button: MouseButton::Left, state: ButtonState::Pressed })
}

fn radio_layout(x: i32, y: i32) -> Layout {
    Layout::new(
        Rectangle::new(x, y, 100, 28),
        vec![
            Layout::new(Rectangle::new(x, y, 28, 28), vec![]),
            Layout::new(Rectangle::new(x + 43, y + 4, 57, 20), vec![]),
        ],
    )
}

fn radio(choice: Choice, label: &str, selected: Option<Choice>) -> Radio<Message> {
    Radio::new(choice, label, selected, Message::RadioSelected)
}

fn press(r: &mut Radio<Message>, event: Event, layout: &Layout, cursor: Point) -> Vec<Message> {
    let mut messages = Vec::new();
    Widget::<Message, Recorder>::on_event(r, event, layout, cursor, &mut messages);
    messages
}

fn hash_of(r: &Radio<Message>) -> (u64, Hasher) {
    let mut h = Hasher::new();
    Widget::<Message, Recorder>::hash(r, &mut h);
    (h.finish(), h)
}

#[test]
fn selected_when_value_matches() {
    let r = radio(Choice::A, "This is A", Some(Choice::A));
    assert!(r.is_selected());
    assert_eq!(*r.on_click(), Message::RadioSelected(Choice::A));
    assert_eq!(r.label(), "This is A");
    assert_eq!(r.get_label_color(), Color::white());
}

#[test]
fn not_selected_for_none_or_other_value() {
    assert!(!radio(Choice::A, "A", None).is_selected());
    assert!(!radio(Choice::A, "A", Some(Choice::B)).is_selected());
}

#[test]
fn selection_fixed_after_events() {
    let mut r = radio(Choice::B, "B", Some(Choice::A));
    let layout = radio_layout(0, 0);
    let out = press(&mut r, left_press(), &layout, Point::new(5, 5));
    assert_eq!(out, vec![Message::RadioSelected(Choice::B)]);
    assert!(!r.is_selected());
}

#[test]
fn label_color_keeps_the_rest() {
    let r = radio(Choice::A, "A", Some(Choice::A)).label_color(Color::black());
    assert_eq!(r.get_label_color(), Color { r: 0, g: 0, b: 0, a: 255 });
    assert!(r.is_selected());
    assert_eq!(r.label(), "A");
}

#[test]
fn left_press_inside_emits_one_message() {
    let mut r = radio(Choice::A, "A", None);
    let layout = radio_layout(10, 10);
    let out = press(&mut r, left_press(), &layout, Point::new(50, 20));
    assert_eq!(out, vec![Message::RadioSelected(Choice::A)]);
    let edge = press(&mut r, left_press(), &layout, Point::new(110, 38));
    assert_eq!(edge, vec![Message::RadioSelected(Choice::A)]);
}

#[test]
fn left_press_outside_emits_nothing() {
    let mut r = radio(Choice::A, "A", None);
    let layout = radio_layout(10, 10);
    assert!(press(&mut r, left_press(), &layout, Point::new(9, 20)).is_empty());
    assert!(press(&mut r, left_press(), &layout, Point::new(111, 20)).is_empty());
    assert!(press(&mut r, left_press(), &layout, Point::new(50, 39)).is_empty());
}

#[test]
fn other_events_inside_emit_nothing() {
    let mut r = radio(Choice::A, "A", None);
    let layout = radio_layout(0, 0);
    let inside = Point::new(5, 5);
    let events = vec![
        Event::Mouse(MouseEvent::Input { button: MouseButton::Right, state: ButtonState::Pressed }),
        Event::Mouse(MouseEvent::Input { button: MouseButton::Left, state: ButtonState::Released }),
        Event::Mouse(MouseEvent::CursorMoved { x: 5, y: 5 }),
        Event::Keyboard(KeyboardEvent::TextEntered { character: 'a' }),
    ];
    for e in events {
        assert!(press(&mut r, e, &layout, inside).is_empty());
    }
}

#[test]
fn hash_ignores_color_and_selection() {
    let a = radio(Choice::A, "same", Some(Choice::A));
    let b = radio(Choice::B, "same", None).label_color(Color::black());
    assert_eq!(hash_of(&a).0, hash_of(&b).0);
}

#[test]
fn hash_changes_with_label() {
    let a = radio(Choice::A, "one", None);
    let b = radio(Choice::A, "two", None);
    assert_ne!(hash_of(&a).0, hash_of(&b).0);
}

#[test]
fn hash_of_label_exact_value() {
    let r = radio(Choice::A, "a", None);
    assert_eq!(hash_of(&r).0, 0x089ce207b546a4e4);
}

#[test]
fn node_puts_indicator_first() {
    let r = radio(Choice::A, "abcd", None);
    let renderer = Recorder::new();
    let n = Widget::<Message, Recorder>::node(&r, &renderer);
    assert_eq!(n.direction, Direction::Row);
    assert_eq!(n.spacing, 15);
    assert_eq!(n.align_items, Align::Center);
    assert_eq!(n.children.len(), 2);
    assert_eq!(n.children[0].width, Length::Units(28));
    assert_eq!(n.children[0].height, Length::Units(28));
    assert_eq!(n.children[1].width, Length::Units(40));
}

#[test]
fn draw_reads_indicator_then_label() {
    let r = radio(Choice::A, "A", Some(Choice::A));
    let layout = radio_layout(0, 0);
    let mut renderer = Recorder::new();
    let cursor = Point::new(3, 3);
    let shape = Widget::<Message, Recorder>::draw(&r, &mut renderer, &layout, cursor);
    assert_eq!(shape, MouseCursor::Pointer);
    assert_eq!(
        *renderer.calls(),
        vec![
            Call::Text {
                bounds: Rectangle::new(43, 2, 57, 20),
                content: "A".to_string(),
                size: 20,
                color: Color::white(),
                horizontal_alignment: HorizontalAlignment::Left,
                vertical_alignment: VerticalAlignment::Top,
            },
            Call::Indicator {
                cursor,
                bounds: Rectangle::new(0, 0, 28, 28),
                button_bounds: Rectangle::new(0, 0, 100, 28),
                is_selected: true,
            },
        ]
    );
}

#[test]
fn draw_bounds_lift_stops_at_the_top() {
    let layout = Layout::new(
        Rectangle::new(0, i32::MIN, 100, 28),
        vec![
            Layout::new(Rectangle::new(0, i32::MIN, 28, 28), vec![]),
            Layout::new(Rectangle::new(43, i32::MIN + 1, 57, 20), vec![]),
        ],
    );
    let (indicator, label) = draw_bounds(&layout);
    assert_eq!(indicator, Rectangle::new(0, i32::MIN, 28, 28));
    assert_eq!(label, Rectangle::new(43, i32::MIN, 57, 20));
}

#[test]
fn column_dispatches_in_child_order() {
    let col: Column<Message, Recorder> = Column::new()
        .push(radio(Choice::B, "first", None).into())
        .push(radio(Choice::A, "second", None).into())
        .push(radio(Choice::B, "third", None).into());
    let mut root = Element::new(col);
    let layout = Layout::new(
        Rectangle::new(0, 0, 100, 100),
        vec![radio_layout(0, 0), radio_layout(0, 0), radio_layout(0, 0)],
    );
    let out = dispatch(&mut root, left_press(), &layout, Point::new(5, 5));
    assert_eq!(
        out,
        vec![
            Message::RadioSelected(Choice::B),
            Message::RadioSelected(Choice::A),
            Message::RadioSelected(Choice::B),
        ]
    );
}

#[test]
fn two_choices_share_one_selection() {
    let selected = Some(Choice::A);
    let a = radio(Choice::A, "This is A", selected);
    let b = radio(Choice::B, "This is B", selected);
    assert!(a.is_selected());
    assert!(!b.is_selected());
    let col: Column<Message, Recorder> = Column::new().spacing(20).push(a.into()).push(b.into());
    let mut root = Element::new(col);
    let layout = Layout::new(
        Rectangle::new(0, 0, 100, 76),
        vec![radio_layout(0, 0), radio_layout(0, 48)],
    );
    let out = dispatch(&mut root, left_press(), &layout, Point::new(10, 60));
    assert_eq!(out, vec![Message::RadioSelected(Choice::B)]);
    let rebuilt_b = radio(Choice::B, "This is B", Some(Choice::B));
    assert!(rebuilt_b.is_selected());
    let rebuilt_a = radio(Choice::A, "This is A", Some(Choice::B));
    assert!(!rebuilt_a.is_selected());
}

#[test]
fn column_hash_tracks_spacing_and_children() {
    let make = |spacing: u16, label: &str| -> Element<Message, Recorder> {
        Element::new(Column::new().spacing(spacing).push(radio(Choice::A, label, None).into()))
    };
    assert_eq!(layout_hash(&make(10, "x")), layout_hash(&make(10, "x")));
    assert_ne!(layout_hash(&make(10, "x")), layout_hash(&make(11, "x")));
    assert_ne!(layout_hash(&make(10, "x")), layout_hash(&make(10, "y")));
}

#[test]
fn column_draw_takes_last_cursor_request() {
    let col: Column<Message, Recorder> = Column::new()
        .push(radio(Choice::A, "a", None).into())
        .push(radio(Choice::B, "b", None).into());
    let root = Element::new(col);
    let layout = Layout::new(
        Rectangle::new(0, 0, 100, 76),
        vec![radio_layout(0, 0), radio_layout(0, 48)],
    );
    let mut renderer = Recorder::new();
    let shape = root.draw(&mut renderer, &layout, Point::new(5, 50));
    assert_eq!(shape, MouseCursor::Pointer);
    assert_eq!(renderer.calls().len(), 4);
    let none = root.draw(&mut renderer, &layout, Point::new(90, 90));
    assert_eq!(none, MouseCursor::OutOfBounds);
}

#[test]
fn element_from_holds_the_radio() {
    let e: Element<Message, Recorder> = radio(Choice::A, "A", Some(Choice::A)).into();
    match &e {
        Element::Radio(r) => {
            assert!(r.is_selected());
            assert_eq!(r.label(), "A");
        }
        Element::Boxed(_) => panic!("expected the radio variant"),
    }
    let mut h = Hasher::new();
    e.hash(&mut h);
    assert_eq!(h.finish(), hash_of(&radio(Choice::B, "A", None)).0);
}

#[test]
fn recorder_measures_half_size_per_byte() {
    let rec = Recorder::new();
    assert_eq!(rec.measure("abc", 20), (30, 20));
    assert_eq!(rec.measure("", 20), (0, 20));
    assert_eq!(rec.measure("é", 10), (10, 10));
}
