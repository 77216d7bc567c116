use coffee_ui::geometry::{Point, Rectangle};
use coffee_ui::hasher::{Hasher, FNV_OFFSET};
use coffee_ui::interface::{layout_hash, needs_relayout, LayoutCache};
use coffee_ui::recorder::Recorder;
use coffee_ui::radio::Radio;
use coffee_ui::widget::Element;

#[test]
fn empty_hasher_digest_is_offset() {
    assert_eq!(Hasher::new().finish(), FNV_OFFSET);
    assert_eq!(FNV_OFFSET, 0xcbf29ce484222325);
}

#[test]
fn hasher_word_exact_value() {
    let mut h = Hasher::new();
    h.write_u64(0x61);
    assert_eq!(h.finish(), 0xaf63dc4c8601ec8c);
    let mut g = Hasher::new();
    g.write_u64(7);
    assert_eq!(g.finish(), 0xaf63ba4c8601b2c6);
}

#[test]
fn hasher_string_is_bytes_then_end() {
    let mut h = Hasher::new();
    h.write_str("a");
    let mut g = Hasher::new();
    g.write_u64(0x61);
    g.write_u64(0x100);
    assert_eq!(h.finish(), g.finish());
    assert_eq!(h.finish(), 0x089ce207b546a4e4);
}

#[test]
fn relayout_only_when_hash_changes() {
    assert!(needs_relayout(None, 5));
    assert!(needs_relayout(Some(4), 5));
    assert!(!needs_relayout(Some(5), 5));
}

#[test]
fn cache_records_each_frame() {
    let mut cache = LayoutCache::new();
    assert_eq!(cache.last(), None);
    assert!(cache.check(9));
    assert!(!cache.check(9));
    assert!(cache.check(10));
    assert_eq!(cache.last(), Some(10));
}

#[test]
fn rectangle_contains_edges() {
    let r = Rectangle::new(-5, -5, 10, 10);
    assert!(r.contains(Point::new(-5, -5)));
    assert!(r.contains(Point::new(5, 5)));
    assert!(!r.contains(Point::new(6, 0)));
    assert!(!r.contains(Point::new(0, -6)));
    let wide = Rectangle::new(i32::MAX, 0, u32::MAX, 1);
    assert!(wide.contains(Point::new(i32::MAX, 1)));
}

fn build(label: &str, selected: Option<u8>) -> Element<u8, Recorder> {
    Radio::new(1u8, label, selected, |v| v).into()
}

#[test]
fn cache_refresh_follows_the_tree() {
    let mut cache = LayoutCache::new();
    assert!(cache.refresh(&build("x", None)));
    assert_eq!(cache.last(), Some(layout_hash(&build("x", None))));
    assert!(!cache.refresh(&build("x", Some(1))));
    assert!(cache.refresh(&build("xy", Some(1))));
}
