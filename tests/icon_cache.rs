use std::collections::HashMap;

use quick_launcher::codec::{cache_file_name, hash_key, key_bytes, IconKey};
use quick_launcher::disk::{disk_put, png_data_url, DiskWrite};
use quick_launcher::guards::{
    CoGuard, HbitmapGuard, HdcGuard, HiconGuard, NativeHandle, ResourceKind, ResourceScope,
};
use quick_launcher::memory::{CacheEntry, HitKind, IconCache, NEGATIVE_CACHE_TTL_MS};
use quick_launcher::raster::{
    bgra_to_rgba, bitmap_to_png, icon_size_class, is_apps_folder_path, pixel_buffer_len,
    IconSizeClass, RasterError,
};
use quick_launcher::resolve::{
    begin_resolve, finish_disk, finish_rasterize, get_icon_cache, icon_key, Step,
};

/// A process's view of the cache: its memory tier, a shared disk, and a
/// count of rasterizer calls.
struct Harness {
    cache: IconCache,
    calls: usize,
}

fn resolve_with(
    h: &mut Harness,
    disk: &mut HashMap<String, Vec<u8>>,
    path: &str,
    size: u32,
    now: u64,
    raster: &dyn Fn(&str, u32) -> Result<Vec<u8>, RasterError>,
) -> Option<String> {
    let key = icon_key(path.to_string(), Some(size));
    if let Step::Done(answer) = begin_resolve(&h.cache, &key, now) {
        return answer;
    }
    let name = cache_file_name(&key);
    let found = disk.get(&name).cloned();
    if let Step::Done(answer) = finish_disk(&mut h.cache, key.duplicate(), found, now) {
        return answer;
    }
    h.calls += 1;
    let result = raster(path, size);
    let resolved = finish_rasterize(&mut h.cache, key.duplicate(), result, now);
    if let Some(png) = resolved.persist {
        let present = disk.contains_key(&name);
        if let DiskWrite::Create { file_name, bytes } = disk_put(&key, png, present) {
            disk.insert(file_name, bytes);
        }
    }
    resolved.answer
}

fn harness() -> Harness {
    Harness { cache: get_icon_cache(), calls: 0 }
}

fn stable(_path: &str, size: u32) -> Result<Vec<u8>, RasterError> {
    Ok(vec![0x89, b'P', b'N', b'G', size as u8])
}

fn failing(_path: &str, _size: u32) -> Result<Vec<u8>, RasterError> {
    Err(RasterError::IconNotFound)
}

#[test]
fn second_resolve_is_served_from_memory() {
    let mut h = harness();
    let mut disk = HashMap::new();
    let first = resolve_with(&mut h, &mut disk, "C:\\Apps\\x.exe", 32, 1000, &stable);
    let second = resolve_with(&mut h, &mut disk, "C:\\Apps\\x.exe", 32, 2000, &stable);
    assert!(first.is_some());
    assert_eq!(first, second);
    assert_eq!(h.calls, 1);
}

#[test]
fn negative_entry_holds_for_the_ttl_then_retries_once() {
    let mut h = harness();
    let mut disk = HashMap::new();
    assert_eq!(resolve_with(&mut h, &mut disk, "missing", 32, 0, &failing), None);
    assert_eq!(h.calls, 1);
    assert_eq!(resolve_with(&mut h, &mut disk, "missing", 32, 1, &failing), None);
    assert_eq!(
        resolve_with(&mut h, &mut disk, "missing", 32, NEGATIVE_CACHE_TTL_MS - 1, &failing),
        None
    );
    assert_eq!(h.calls, 1);
    assert_eq!(
        resolve_with(&mut h, &mut disk, "missing", 32, NEGATIVE_CACHE_TTL_MS, &failing),
        None
    );
    assert_eq!(h.calls, 2);
    assert_eq!(
        resolve_with(&mut h, &mut disk, "missing", 32, NEGATIVE_CACHE_TTL_MS + 10, &failing),
        None
    );
    assert_eq!(h.calls, 2);
    assert!(disk.is_empty());
}

#[test]
fn expired_failure_is_replaced_by_a_later_image() {
    let mut h = harness();
    let mut disk = HashMap::new();
    assert_eq!(resolve_with(&mut h, &mut disk, "late", 16, 0, &failing), None);
    let got = resolve_with(&mut h, &mut disk, "late", 16, NEGATIVE_CACHE_TTL_MS, &stable);
    assert_eq!(got, Some(png_data_url(&[0x89, b'P', b'N', b'G', 16])));
    assert_eq!(h.calls, 2);
    let again = resolve_with(&mut h, &mut disk, "late", 16, 10 * NEGATIVE_CACHE_TTL_MS, &failing);
    assert_eq!(again, got);
    assert_eq!(h.calls, 2);
}

#[test]
fn disk_entry_survives_a_fresh_instance() {
    let mut disk = HashMap::new();
    let mut first = harness();
    let a = resolve_with(&mut first, &mut disk, "app.exe", 32, 5, &stable);
    assert_eq!(first.calls, 1);
    let mut second = harness();
    let b = resolve_with(&mut second, &mut disk, "app.exe", 32, 6, &failing);
    assert_eq!(a, b);
    assert_eq!(second.calls, 0);
}

#[test]
fn sizes_are_independent_entries() {
    let mut h = harness();
    let mut disk = HashMap::new();
    let small = resolve_with(&mut h, &mut disk, "A", 16, 0, &stable);
    let large = resolve_with(&mut h, &mut disk, "A", 32, 0, &stable);
    assert_ne!(small, large);
    assert_eq!(disk.len(), 2);
    assert_eq!(h.cache.len(), 2);
    assert_eq!(resolve_with(&mut h, &mut disk, "A", 16, 1, &failing), small);
    assert_eq!(resolve_with(&mut h, &mut disk, "A", 32, 1, &failing), large);
    assert_eq!(h.calls, 2);
}

#[test]
fn racing_misses_leave_one_file_and_one_answer() {
    let n = 5;
    let mut disk: HashMap<String, Vec<u8>> = HashMap::new();
    let mut cache = get_icon_cache();
    let key = icon_key("race.exe".to_string(), None);
    let name = cache_file_name(&key);
    // Every caller misses both tiers before any of them finishes.
    for _ in 0..n {
        assert!(matches!(begin_resolve(&cache, &key, 0), Step::ReadDisk));
        assert!(matches!(
            finish_disk(&mut cache, key.duplicate(), disk.get(&name).cloned(), 0),
            Step::Rasterize
        ));
    }
    let mut answers = Vec::new();
    for i in 0..n {
        let png = stable("race.exe", 32).unwrap();
        let r = finish_rasterize(&mut cache, key.duplicate(), Ok(png), i as u64);
        let present = disk.contains_key(&name);
        if let DiskWrite::Create { file_name, bytes } = disk_put(&key, r.persist.unwrap(), present) {
            assert!(disk.insert(file_name, bytes).is_none());
        }
        answers.push(r.answer);
    }
    assert_eq!(disk.len(), 1);
    assert_eq!(disk[&name], stable("race.exe", 32).unwrap());
    assert!(answers.iter().all(|a| *a == answers[0]));
    assert!(matches!(begin_resolve(&cache, &key, 99), Step::Done(Some(_))));
}

#[test]
fn default_size_is_thirty_two() {
    let key = icon_key("x".to_string(), None);
    assert_eq!(key.size, 32);
    assert_eq!(icon_key("x".to_string(), Some(48)).size, 48);
}

#[test]
fn key_text_and_hash() {
    let key = IconKey::new("A".to_string(), 16);
    assert_eq!(key_bytes(&key), b"A:16".to_vec());
    assert_eq!(
        hash_key(&key),
        "6657c601dc10a47240b0e278f8ae0a359d3fc298033a13e24357af323818f819"
    );
    assert_eq!(
        hash_key(&IconKey::new("A".to_string(), 32)),
        "5a8b0a7aaae36575144f37f1280eb8f28e870399b63d5fbc9006382243d8f56c"
    );
    assert_eq!(
        cache_file_name(&IconKey::new("C:\\Apps\\x.exe".to_string(), 32)),
        "aea9ea3e29996dd1acf1d78367553457c773f1410539d61dc20b0a47f61cd59d.png"
    );
    assert_eq!(key_bytes(&IconKey::new("a".to_string(), 0)), b"a:0".to_vec());
    assert_eq!(
        key_bytes(&IconKey::new("é".to_string(), 4294967295)),
        "é:4294967295".as_bytes().to_vec()
    );
}

#[test]
fn identifier_is_case_sensitive() {
    let a = IconKey::new("App".to_string(), 32);
    let b = IconKey::new("app".to_string(), 32);
    assert!(!a.same_as(&b));
    assert_ne!(hash_key(&a), hash_key(&b));
}

#[test]
fn data_url_wraps_base64() {
    assert_eq!(png_data_url(b"hello"), "data:image/png;base64,aGVsbG8=");
    assert_eq!(png_data_url(&[]), "data:image/png;base64,");
}

#[test]
fn disk_put_skips_an_existing_file() {
    let key = IconKey::new("A".to_string(), 16);
    assert!(matches!(disk_put(&key, vec![1, 2], true), DiskWrite::Skip));
    match disk_put(&key, vec![1, 2], false) {
        DiskWrite::Create { file_name, bytes } => {
            assert_eq!(file_name, cache_file_name(&key));
            assert_eq!(bytes, vec![1, 2]);
        }
        DiskWrite::Skip => panic!("expected a write"),
    }
}

#[test]
fn memory_lookup_kinds() {
    let mut cache = IconCache::new();
    let key = IconKey::new("k".to_string(), 32);
    assert!(matches!(cache.lookup(&key, 0), HitKind::Absent));
    cache.insert(key.duplicate(), CacheEntry { data: None, created_at: 100 });
    assert!(matches!(cache.lookup(&key, 100), HitKind::NegativeFresh));
    assert!(matches!(cache.lookup(&key, 50), HitKind::NegativeFresh));
    assert!(matches!(cache.lookup(&key, 100 + NEGATIVE_CACHE_TTL_MS - 1), HitKind::NegativeFresh));
    assert!(matches!(cache.lookup(&key, 100 + NEGATIVE_CACHE_TTL_MS), HitKind::NegativeExpired));
    cache.insert(key.duplicate(), CacheEntry { data: Some("d".to_string()), created_at: 0 });
    match cache.lookup(&key, u64::MAX) {
        HitKind::Positive(d) => assert_eq!(d, "d"),
        _ => panic!("expected an image"),
    }
    assert_eq!(cache.len(), 1);
}

#[test]
fn scope_releases_every_handle_whatever_the_failure_point() {
    let n = 6;
    for k in 0..=n {
        let mut acquired = 0;
        let mut released = 0;
        let mut scope = ResourceScope::new();
        // A stub extraction that obtains handles one by one and fails after the k-th.
        for i in 0..k {
            scope.acquire(NativeHandle { kind: ResourceKind::Bitmap, raw: 100 + i as u64 });
            acquired += 1;
        }
        for h in scope.release_all() {
            assert_ne!(h.raw, 0);
            released += 1;
        }
        assert_eq!(acquired, released);
        assert_eq!(scope.outstanding(), 0);
    }
}

#[test]
fn scope_releases_in_reverse_and_skips_null() {
    let mut scope = ResourceScope::new();
    scope.acquire(NativeHandle { kind: ResourceKind::Icon, raw: 7 });
    scope.acquire(NativeHandle { kind: ResourceKind::Bitmap, raw: 0 });
    scope.acquire(NativeHandle { kind: ResourceKind::DeviceContext, raw: 9 });
    scope.acquire(CoGuard(true).handle());
    scope.acquire(CoGuard(false).handle());
    assert_eq!(scope.outstanding(), 3);
    let out: Vec<u64> = scope.release_all().iter().map(|h| h.raw).collect();
    assert_eq!(out, vec![1, 9, 7]);
    assert_eq!(scope.outstanding(), 0);
    assert!(scope.release_all().is_empty());
}

#[test]
fn pixel_buffer_lengths() {
    assert_eq!(pixel_buffer_len(2, 3).ok(), Some(24));
    assert!(matches!(pixel_buffer_len(0, 3), Err(RasterError::InvalidSize)));
    assert!(matches!(pixel_buffer_len(3, -1), Err(RasterError::InvalidSize)));
    assert!(matches!(pixel_buffer_len(65536, 65536), Err(RasterError::InvalidSize)));
    assert_eq!(pixel_buffer_len(1, 0x1fff_ffff).ok(), Some(0x7fff_fffc));
}

#[test]
fn channel_swap() {
    let mut px = vec![1, 2, 3, 4, 5, 6, 7, 8, 9, 10];
    bgra_to_rgba(&mut px);
    assert_eq!(px, vec![3, 2, 1, 4, 7, 6, 5, 8, 9, 10]);
}

#[test]
fn bitmap_becomes_png() {
    // One blue, one red pixel, as blue-green-red-alpha.
    let bgra = vec![255, 0, 0, 255, 0, 0, 255, 255];
    let png = bitmap_to_png(bgra, 2, 1, 1).ok().unwrap();
    assert_eq!(&png[..8], &[0x89, b'P', b'N', b'G', 0x0d, 0x0a, 0x1a, 0x0a]);
    let img = image::load_from_memory(&png).unwrap().to_rgba8();
    assert_eq!(img.get_pixel(0, 0).0, [0, 0, 255, 255]);
    assert_eq!(img.get_pixel(1, 0).0, [255, 0, 0, 255]);
}

#[test]
fn bitmap_errors() {
    assert!(matches!(bitmap_to_png(vec![0; 4], 0, 1, 1), Err(RasterError::InvalidSize)));
    assert!(matches!(bitmap_to_png(vec![0; 3], 1, 1, 1), Err(RasterError::InvalidSize)));
    assert!(matches!(bitmap_to_png(vec![0; 4], 1, 1, 0), Err(RasterError::NoScanLines)));
}

#[test]
fn extraction_decisions() {
    assert!(is_apps_folder_path("Shell:AppsFolder\\Microsoft.Windows.Calc"));
    assert!(!is_apps_folder_path("shell:appsfolder"));
    assert!(!is_apps_folder_path("C:\\shell:appsfolder\\x"));
    assert!(matches!(icon_size_class(16), IconSizeClass::Small));
    assert!(matches!(icon_size_class(17), IconSizeClass::Large));
}

#[test]
fn guards_name_their_handles() {
    let mut scope = ResourceScope::new();
    scope.acquire(HiconGuard(11).handle());
    scope.acquire(HbitmapGuard(0).handle());
    scope.acquire(HbitmapGuard(12).handle());
    scope.acquire(HdcGuard { hdc: 13 }.handle());
    let out = scope.release_all();
    assert_eq!(out.len(), 3);
    assert_eq!(out[0], NativeHandle { kind: ResourceKind::DeviceContext, raw: 13 });
    assert_eq!(out[1], NativeHandle { kind: ResourceKind::Bitmap, raw: 12 });
    assert_eq!(out[2], NativeHandle { kind: ResourceKind::Icon, raw: 11 });
}

#[test]
fn data_url_uses_the_full_alphabet_and_padding() {
    assert_eq!(png_data_url(&[0xfb, 0xff]), "data:image/png;base64,+/8=");
    assert_eq!(png_data_url(&[0x41]), "data:image/png;base64,QQ==");
    let bytes: Vec<u8> = vec![
        0, 16, 131, 16, 81, 135, 32, 146, 139, 48, 211, 143, 65, 20, 147, 81, 85, 151, 97, 150,
        155, 113, 215, 159, 130, 24, 163, 146, 89, 167, 162, 154, 171, 178, 219, 175, 195, 93,
        183, 211, 158, 187, 227, 223, 191,
    ];
    assert_eq!(
        png_data_url(&bytes),
        "data:image/png;base64,ABCDEFGHIJKLMNOPQRSTUVWXYZabcdefghijklmnopqrstuvw123056749+/"
    );
}

#[test]
fn valid_bitmap_always_encodes() {
    for (w, h) in [(1, 1), (3, 2), (16, 16)] {
        let bgra = vec![7u8; (w * h * 4) as usize];
        assert!(bitmap_to_png(bgra, w, h, h).is_ok());
    }
}
