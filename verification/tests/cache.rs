use pixel_canvas::cache::{CanvasCache, EncodingCache, TTL_NANOS};
use pixel_canvas::canvas::{Canvas, EncodeError};
use pixel_canvas::pixel::Rgb;
use std::time::{Duration, Instant};

fn wait_past_ttl() {
    let start = Instant::now();
    while start.elapsed() < Duration::from_millis(130) {
        std::hint::spin_loop();
    }
}

fn black(width: u32, height: u32) -> Canvas {
    let samples = vec![0u8; 3 * width as usize * height as usize];
    Canvas::from_raw(width, height, samples).unwrap()
}

#[test]
fn ttl_is_one_hundred_milliseconds() {
    assert_eq!(TTL_NANOS, 100_000_000);
    assert_eq!(TTL_NANOS, Duration::from_millis(100).as_nanos());
}

#[test]
fn get_at_age_serves_strictly_below_the_ttl() {
    let entry = CanvasCache::new(vec![1u8, 2, 3]);
    assert_eq!(entry.get_at_age(0), Some(&vec![1u8, 2, 3]));
    assert_eq!(entry.get_at_age(99_999_999), Some(&vec![1u8, 2, 3]));
    assert_eq!(entry.get_at_age(100_000_000), None);
    assert_eq!(entry.get_at_age(100_000_001), None);
    assert_eq!(entry.get_at_age(u128::MAX), None);
}

#[test]
fn get_serves_a_new_entry_and_drops_an_old_one() {
    let entry = CanvasCache::new(7u32);
    assert_eq!(entry.get(), Some(&7));
    assert!(entry.age_nanos() < TTL_NANOS);
    wait_past_ttl();
    assert!(entry.age_nanos() >= TTL_NANOS);
    assert_eq!(entry.get(), None);
}

#[test]
fn empty_cache_serves_nothing_at_any_age() {
    let cache = EncodingCache::new();
    assert_eq!(cache.age_nanos(), 0);
    assert_eq!(cache.lookup_at_age(0), None);
    assert_eq!(cache.lookup(), None);
}

#[test]
fn lookup_at_age_follows_the_ttl() {
    let mut cache = EncodingCache::new();
    cache.store(vec![4u8, 5, 6]);
    assert_eq!(cache.lookup_at_age(0), Some(vec![4u8, 5, 6]));
    assert_eq!(cache.lookup_at_age(99_999_999), Some(vec![4u8, 5, 6]));
    assert_eq!(cache.lookup_at_age(100_000_000), None);
    cache.store(vec![9u8]);
    assert_eq!(cache.lookup_at_age(1), Some(vec![9u8]));
}

#[test]
fn lookup_by_the_clock_expires() {
    let mut cache = EncodingCache::new();
    cache.store(vec![1u8]);
    assert_eq!(cache.lookup(), Some(vec![1u8]));
    wait_past_ttl();
    assert_eq!(cache.lookup(), None);
}

#[test]
fn miss_encodes_the_canvas_and_caches_it() {
    let canvas = black(2, 2);
    let expected = canvas.encode_png().unwrap();
    let mut cache = EncodingCache::new();
    assert_eq!(cache.get_or_encode_at_age(&canvas, 0), Ok(expected.clone()));
    assert_eq!(cache.lookup_at_age(0), Some(expected));
}

#[test]
fn fresh_entry_is_served_without_looking_at_the_canvas() {
    let mut canvas = black(2, 2);
    let before = canvas.encode_png().unwrap();
    let mut cache = EncodingCache::new();
    cache.get_or_encode_at_age(&canvas, 0).unwrap();
    canvas.put_pixel(0, 0, Rgb { r: 255, g: 255, b: 255 });
    let after = canvas.encode_png().unwrap();
    assert_ne!(before, after);
    assert_eq!(cache.get_or_encode_at_age(&canvas, 99_999_999), Ok(before));
    assert_eq!(cache.get_or_encode_at_age(&canvas, 100_000_000), Ok(after.clone()));
    assert_eq!(cache.lookup_at_age(0), Some(after));
}

#[test]
fn failed_encoding_leaves_the_cache_alone() {
    let empty = Canvas::from_raw(0, 0, Vec::new()).unwrap();
    let mut cache = EncodingCache::new();
    assert_eq!(cache.get_or_encode_at_age(&empty, 0), Err(EncodeError {}));
    assert_eq!(cache.lookup_at_age(0), None);
    cache.store(vec![1u8, 2]);
    assert_eq!(cache.get_or_encode_at_age(&empty, 100_000_000), Err(EncodeError {}));
    assert_eq!(cache.lookup_at_age(0), Some(vec![1u8, 2]));
    assert_eq!(cache.get_or_encode_at_age(&empty, 5), Ok(vec![1u8, 2]));
}

#[test]
fn get_or_encode_by_the_clock() {
    let mut canvas = black(3, 1);
    let before = canvas.encode_png().unwrap();
    let mut cache = EncodingCache::new();
    assert_eq!(cache.get_or_encode(&canvas), Ok(before.clone()));
    canvas.put_pixel(1, 0, Rgb { r: 8, g: 8, b: 8 });
    let after = canvas.encode_png().unwrap();
    assert_eq!(cache.get_or_encode(&canvas), Ok(before));
    wait_past_ttl();
    assert_eq!(cache.get_or_encode(&canvas), Ok(after));
}
