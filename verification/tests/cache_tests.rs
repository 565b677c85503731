use img2color::cache::{get_or_compute, ColorStore};
use img2color::errors::PipelineError;
use img2color::fingerprint::fingerprint;

fn png_bytes(w: u32, h: u32, px: [u8; 3]) -> Vec<u8> {
    let img = image::ImageBuffer::from_pixel(w, h, image::Rgb(px));
    let dynimg = image::DynamicImage::ImageRgb8(img);
    let mut buf: Vec<u8> = Vec::new();
    dynimg
        .write_to(&mut std::io::Cursor::new(&mut buf), image::ImageOutputFormat::Png)
        .unwrap();
    buf
}

#[test]
fn get_on_empty_store_misses() {
    let store = ColorStore::new();
    assert!(store.get(&String::from("abc")).is_none());
}

#[test]
fn put_then_get_returns_value() {
    let mut store = ColorStore::new();
    store.put(&String::from("k1"), &String::from("#010203"));
    assert_eq!(store.get(&String::from("k1")).unwrap().as_str(), "#010203");
    assert!(store.get(&String::from("k2")).is_none());
}

#[test]
fn last_write_wins() {
    let mut store = ColorStore::new();
    store.put(&String::from("k"), &String::from("#000000"));
    store.put(&String::from("k"), &String::from("#FFFFFF"));
    assert_eq!(store.get(&String::from("k")).unwrap().as_str(), "#FFFFFF");
}

#[test]
fn cache_hit_short_circuits_compute() {
    // the bytes do not even decode, so a computation would fail: the call
    // can only succeed by returning the stored color without computing
    let mut store = ColorStore::new();
    let fp = String::from("0123456789abcdef0123456789abcdef");
    store.put(&fp, &String::from("#123456"));
    let garbage: Vec<u8> = vec![1, 2, 3];
    let (color, computed) = get_or_compute(&mut store, &fp, &garbage).unwrap();
    assert_eq!(color.as_str(), "#123456");
    assert!(!computed);
}

#[test]
fn miss_computes_and_writes() {
    let mut store = ColorStore::new();
    let bytes = png_bytes(2, 2, [10, 20, 30]);
    let fp = fingerprint(&bytes);
    let (color, computed) = get_or_compute(&mut store, &fp, &bytes).unwrap();
    assert_eq!(color.as_str(), "#0A141E");
    assert!(computed);
    assert_eq!(store.get(&fp).unwrap().as_str(), "#0A141E");
}

#[test]
fn second_call_hits_and_computes_at_most_once() {
    let mut store = ColorStore::new();
    let bytes = png_bytes(3, 3, [200, 100, 50]);
    let fp = fingerprint(&bytes);
    let (c1, computed1) = get_or_compute(&mut store, &fp, &bytes).unwrap();
    let (c2, computed2) = get_or_compute(&mut store, &fp, &bytes).unwrap();
    assert_eq!(c1, c2);
    assert!(computed1);
    assert!(!computed2);
}

#[test]
fn miss_with_bad_bytes_fails_and_writes_nothing() {
    let mut store = ColorStore::new();
    let fp = String::from("ffffffffffffffffffffffffffffffff");
    let garbage: Vec<u8> = vec![9, 9, 9];
    let err = get_or_compute(&mut store, &fp, &garbage).unwrap_err();
    assert_eq!(err, PipelineError::DecodeError);
    assert!(store.get(&fp).is_none());
}
