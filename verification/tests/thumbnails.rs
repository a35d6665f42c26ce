use std::io::Cursor;

use image::{DynamicImage, ImageFormat, Rgb, RgbImage};
use oxicloud::errors::ErrorKind;
use oxicloud::thumbnail::generation::{
    AfterCheck, GenerationFailure, LoadFile, SaveAll,
};
use oxicloud::thumbnail::hooks::ThumbnailRefreshHook;
use oxicloud::thumbnail::render::{
    accept_external, bounds_for, check_dimensions, collect_rendered, decode_for_thumbnail,
    filter_for, finish_external, needs_no_scaling, render_thumbnail, request_scale, scale_for,
    ExternalThumbnail, ScaleFilter, JPEG_QUALITY, MAX_DECODE_PIXELS,
};
use oxicloud::thumbnail::service::{
    begin_decoding, cache_weight, max_concurrent_decodes, original_read, serve, timed_out,
    AfterCache, AfterExternal, DiskReply, TaskReply, ThumbnailService, TimeSpan, THUMBNAILS_DIR,
};
use oxicloud::thumbnail::size::{PortThumbnailSize, ThumbnailError, ThumbnailSize};
use oxicloud::thumbnail::store::{Step, ThumbnailCacheKey, ThumbnailPath};

fn service() -> ThumbnailService {
    ThumbnailService::new(100, 1_000_000, None)
}

fn picture(width: u32, height: u32) -> DynamicImage {
    DynamicImage::ImageRgb8(RgbImage::from_fn(width, height, |x, y| {
        Rgb([(x % 256) as u8, (y % 256) as u8, 90])
    }))
}

fn encoded(width: u32, height: u32, format: ImageFormat) -> Vec<u8> {
    let mut bytes = Cursor::new(Vec::new());
    picture(width, height).write_to(&mut bytes, format).unwrap();
    bytes.into_inner()
}

fn scaled(max: u32, long: u32, short: u32) -> u32 {
    (short as f32 * (max as f32 / long as f32)) as u32
}

fn dimensions(jpeg: &[u8]) -> (u32, u32) {
    assert_eq!(image::guess_format(jpeg).unwrap(), ImageFormat::Jpeg);
    let img = image::load_from_memory(jpeg).unwrap();
    (img.width(), img.height())
}

fn path_is(path: &ThumbnailPath, dir: &str, name: &str) -> bool {
    path.dir == dir && path.name == name
}

// ── Sizes ───────────────────────────────────────────────────────────────────

#[test]
fn sizes_have_dimensions_and_directories() {
    let all = ThumbnailSize::all();
    assert!(all == [ThumbnailSize::Icon, ThumbnailSize::Preview, ThumbnailSize::Large]);
    assert_eq!(all.map(|s| s.max_dimension()), [150, 400, 800]);
    assert_eq!(all.map(|s| s.dir_name()), ["icon", "preview", "large"]);
    assert!(ThumbnailSize::from(PortThumbnailSize::Icon) == ThumbnailSize::Icon);
    assert!(ThumbnailSize::from(PortThumbnailSize::Preview) == ThumbnailSize::Preview);
    assert!(ThumbnailSize::from(PortThumbnailSize::Large) == ThumbnailSize::Large);
}

#[test]
fn thumbnail_errors_have_messages() {
    assert_eq!(ThumbnailError::IoError("x".into()).message(), "IO error: x");
    assert_eq!(ThumbnailError::ImageError("x".into()).message(), "Image processing error: x");
    assert_eq!(ThumbnailError::TaskError("x".into()).message(), "Task error: x");
    assert_eq!(ThumbnailError::UnsupportedFormat.message(), "Unsupported image format");
    let e = ThumbnailError::IoError("x".into()).to_domain_error();
    assert!(e.kind == ErrorKind::InternalError);
    assert_eq!((e.entity.as_str(), e.message.as_str()), ("Thumbnail", "IO error: x"));
}

// ── The service ─────────────────────────────────────────────────────────────

#[test]
fn the_service_is_configured() {
    let service = service();
    assert_eq!(service.max_cache_bytes(), 1_000_000);
    assert!(service.generation_timeout() == TimeSpan { secs: 30, nanos: 0 });
    let hurried = ThumbnailService::new(0, 0, Some(TimeSpan { secs: 1, nanos: 500_000_000 }));
    assert!(hurried.generation_timeout() == TimeSpan { secs: 1, nanos: 500_000_000 });
    assert_eq!(service.initialize(), vec!["icon", "preview", "large"]);
    assert_eq!(THUMBNAILS_DIR, ".thumbnails");
    let stats = service.get_stats(12, 3456);
    assert_eq!(stats.cached_thumbnails, 12);
    assert_eq!(stats.cache_size_bytes, 3456);
    assert_eq!(stats.max_cache_bytes, 1_000_000);
}

#[test]
fn image_types_are_recognised() {
    for yes in ["image/jpeg", "image/jpg", "image/png", "image/gif", "image/webp"] {
        assert!(ThumbnailService::is_supported_image(yes));
    }
    for no in ["image/svg+xml", "IMAGE/PNG", "video/mp4", ""] {
        assert!(!ThumbnailService::is_supported_image(no));
    }
}

#[test]
fn decoding_is_limited() {
    assert_eq!(max_concurrent_decodes(None), 2);
    assert_eq!(max_concurrent_decodes(Some(1)), 2);
    assert_eq!(max_concurrent_decodes(Some(9)), 4);
    assert_eq!(max_concurrent_decodes(Some(64)), 32);
    assert!(begin_decoding(true).is_ok());
    assert!(matches!(
        begin_decoding(false),
        Err(ThumbnailError::TaskError(m)) if m == "Decode semaphore closed"
    ));
}

#[test]
fn weights_are_lengths() {
    assert_eq!(cache_weight(0), 0);
    assert_eq!(cache_weight(12_345), 12_345);
    assert_eq!(cache_weight(u32::MAX as usize), u32::MAX);
    assert_eq!(cache_weight(usize::MAX), u32::MAX);
}

#[test]
fn rendering_tasks_end_with_an_outcome() {
    let service = service();
    assert!(matches!(
        service.finish_generation(TaskReply::TimedOut),
        Err(ThumbnailError::TaskError(m)) if m == "Thumbnail generation timed out after 30s"
    ));
    let hurried = ThumbnailService::new(0, 0, Some(TimeSpan { secs: 0, nanos: 1_500_000 }));
    assert!(matches!(
        hurried.finish_generation(TaskReply::TimedOut),
        Err(ThumbnailError::TaskError(m)) if m == "Thumbnail generation timed out after 1.5ms"
    ));
    assert!(matches!(
        service.finish_generation(TaskReply::Failed("panicked".into())),
        Err(ThumbnailError::TaskError(m)) if m == "panicked"
    ));
    assert_eq!(service.finish_generation(TaskReply::Done(Ok(vec![1, 2]))).unwrap(), vec![1, 2]);
    assert!(matches!(
        service.finish_generation(TaskReply::Done(Err(ThumbnailError::UnsupportedFormat))),
        Err(ThumbnailError::UnsupportedFormat)
    ));
    assert_eq!(
        timed_out("2s").message(),
        "Task error: Thumbnail generation timed out after 2s"
    );
    assert_eq!(original_read(Ok(vec![7])).unwrap(), vec![7]);
    assert!(matches!(
        original_read(Err("no file".into())),
        Err(ThumbnailError::ImageError(m)) if m == "no file"
    ));
}

// ── On demand ───────────────────────────────────────────────────────────────

#[test]
fn a_thumbnail_is_loaded_or_rendered() {
    let service = service();
    let request = service.get_thumbnail("f1", "abc", ThumbnailSize::Preview);
    assert_eq!(request.key.file_id, "f1");
    assert!(request.key.size == ThumbnailSize::Preview);
    assert!(path_is(&request.path, "preview", "abc.jpg"));
    assert!(matches!(
        request.on_disk(Some(vec![5])),
        DiskReply::Loaded(bytes) if bytes == vec![5]
    ));

    let request = service.get_thumbnail_from_bytes("f1", "abc", ThumbnailSize::Icon);
    let render = match request.on_disk(None) {
        DiskReply::Render(render) => render,
        DiskReply::Loaded(_) => panic!("there is no file"),
    };
    let entry = render.rendered(Ok(vec![1, 2, 3]));
    assert_eq!(entry.bytes, vec![1, 2, 3]);
    assert!(path_is(&entry.save.unwrap(), "icon", "abc.jpg"));
}

#[test]
fn a_failed_rendering_is_an_error_and_is_forgotten() {
    let request = service().get_thumbnail("f1", "abc", ThumbnailSize::Large);
    let render = match request.on_disk(None) {
        DiskReply::Render(render) => render,
        DiskReply::Loaded(_) => panic!("there is no file"),
    };
    let entry = render.rendered(Err(ThumbnailError::UnsupportedFormat));
    assert!(entry.bytes.is_empty());
    assert!(entry.save.is_none());
    match serve(ThumbnailCacheKey::new("f1", ThumbnailSize::Large), entry.bytes.len()) {
        Err((ThumbnailError::ImageError(m), Step::Forget(key))) => {
            assert_eq!(m, "Thumbnail generation failed");
            assert_eq!(key, ThumbnailCacheKey::new("f1", ThumbnailSize::Large));
        }
        _ => panic!("an empty entry is never served"),
    }
    assert!(serve(ThumbnailCacheKey::new("f1", ThumbnailSize::Large), 1).is_ok());
}

// ── Lookup ──────────────────────────────────────────────────────────────────

#[test]
fn lookups_try_cache_then_files() {
    let service = service();
    let lookup = || service.get_cached_thumbnail("f1", Some("abc"), ThumbnailSize::Icon);
    assert!(matches!(lookup().in_cache(Some(3)), AfterCache::Serve));

    let in_files = |cached: Option<usize>| match lookup().in_cache(cached) {
        AfterCache::Read(next) => next,
        _ => panic!("the files are asked"),
    };
    assert!(path_is(&in_files(None).external, "icon", "ext-f1.jpg"));
    assert!(matches!(
        in_files(Some(0)).on_disk(Some(vec![9])),
        AfterExternal::Serve(key, bytes) if key.file_id == "f1" && bytes == vec![9]
    ));
    let blob = match in_files(None).on_disk(None) {
        AfterExternal::Read(blob) => blob,
        _ => panic!("the content's thumbnail is next"),
    };
    assert!(path_is(&blob.blob, "icon", "abc.jpg"));
    assert_eq!(blob.on_disk(Some(vec![4])).unwrap().1, vec![4]);
}

#[test]
fn lookups_without_a_hash_ask_the_cache_only() {
    let lookup = || service().get_cached_thumbnail("f1", None, ThumbnailSize::Icon);
    assert!(matches!(lookup().in_cache(None), AfterCache::Nothing));
    assert!(matches!(lookup().in_cache(Some(0)), AfterCache::Nothing));
    assert!(matches!(lookup().in_cache(Some(3)), AfterCache::Serve));
}

#[test]
fn a_lookup_may_find_nothing() {
    let lookup = service().get_cached_thumbnail("f1", Some("abc"), ThumbnailSize::Icon);
    if let AfterCache::Read(in_files) = lookup.in_cache(None) {
        if let AfterExternal::Read(blob) = in_files.on_disk(None) {
            assert!(blob.on_disk(None).is_none());
            return;
        }
    }
    panic!("all places are asked");
}

// ── Cleaning up ─────────────────────────────────────────────────────────────

#[test]
fn deleting_a_file_drops_its_entries_and_external_files() {
    let steps = service().delete_thumbnails("f1");
    assert_eq!(steps.len(), 6);
    for (pair, size) in steps.chunks(2).zip(ThumbnailSize::all()) {
        match pair {
            [Step::Forget(key), Step::Remove(path)] => {
                assert_eq!(*key, ThumbnailCacheKey::new("f1", size));
                assert!(path_is(path, size.dir_name(), "ext-f1.jpg"));
            }
            _ => panic!("an entry and a file for each size"),
        }
    }
}

#[test]
fn deleting_a_blob_removes_its_files() {
    let steps = service().delete_blob_thumbnails("abc");
    assert_eq!(steps.len(), 3);
    for (step, size) in steps.iter().zip(ThumbnailSize::all()) {
        assert!(matches!(step, Step::Remove(path) if path_is(path, size.dir_name(), "abc.jpg")));
    }
}

#[test]
fn blob_and_external_files_are_told_apart() {
    let blob = ThumbnailPath::of_blob("f1", ThumbnailSize::Icon);
    let external = ThumbnailPath::of_external("f1", ThumbnailSize::Icon);
    assert!(blob.name != external.name);
    let clash = ThumbnailPath::of_blob("ext-f1", ThumbnailSize::Icon);
    assert_eq!(clash.name, external.name);
}

// ── Made elsewhere ──────────────────────────────────────────────────────────

#[test]
fn a_fitting_jpeg_is_stored_as_it_is() {
    let data = encoded(300, 200, ImageFormat::Jpeg);
    match accept_external(data.clone(), ThumbnailSize::Preview).unwrap() {
        ExternalThumbnail::Ready(bytes) => assert_eq!(bytes, data),
        ExternalThumbnail::TooLarge(_) => panic!("it fits"),
    }
}

#[test]
fn other_images_are_encoded_anew() {
    match accept_external(encoded(300, 200, ImageFormat::Png), ThumbnailSize::Preview).unwrap() {
        ExternalThumbnail::Ready(bytes) => {
            assert_eq!(bytes[..2], [0xFF, 0xD8]);
            assert_eq!(dimensions(&bytes), (300, 200));
        }
        ExternalThumbnail::TooLarge(_) => panic!("it fits"),
    }
}

#[test]
fn larger_images_are_scaled_first() {
    for format in [ImageFormat::Jpeg, ImageFormat::Png] {
        let img = match accept_external(encoded(900, 300, format), ThumbnailSize::Preview).unwrap() {
            ExternalThumbnail::TooLarge(img) => img,
            ExternalThumbnail::Ready(_) => panic!("it does not fit"),
        };
        let request = request_scale(&img, ThumbnailSize::Preview);
        assert_eq!((request.max, request.long, request.short), (400, 900, 300));
        let bytes = finish_external(
            &img,
            ThumbnailSize::Preview,
            scaled(request.max, request.long, request.short),
        )
        .unwrap();
        let (w, h) = dimensions(&bytes);
        assert!(w <= 400 && h <= 400 && w >= 397 && (132..=134).contains(&h));
    }
}

#[test]
fn what_is_stored_never_exceeds_its_size() {
    for (width, height) in [(2000, 3), (3, 2000), (900, 900), (401, 400)] {
        for size in ThumbnailSize::all() {
            let max = size.max_dimension();
            for computed in [0, 1, max, 100_000, u32::MAX] {
                let data = encoded(width, height, ImageFormat::Png);
                let stored = match accept_external(data, size).unwrap() {
                    ExternalThumbnail::Ready(bytes) => bytes,
                    ExternalThumbnail::TooLarge(img) => {
                        finish_external(&img, size, computed).unwrap()
                    }
                };
                let (w, h) = dimensions(&stored);
                assert!(1 <= w && w <= max && 1 <= h && h <= max);
                assert_eq!(w < h, width < height && w != h);
            }
        }
    }
}

#[test]
fn what_is_no_image_is_refused() {
    match accept_external(b"no image at all".to_vec(), ThumbnailSize::Icon) {
        Err(ThumbnailError::ImageError(m)) => assert!(m.starts_with("Invalid image data: ")),
        _ => panic!("it is no image"),
    }
    assert!(accept_external(vec![0xFF, 0xD8], ThumbnailSize::Icon).is_err());
}

#[test]
fn storing_takes_two_steps() {
    let request = || service().store_external_thumbnail("f1", ThumbnailSize::Icon);
    let write = request().prepared(Ok(Ok(vec![1]))).unwrap();
    assert!(path_is(&write.path, "icon", "ext-f1.jpg"));
    let (key, bytes) = write.written(Ok(())).unwrap();
    assert_eq!(key, ThumbnailCacheKey::new("f1", ThumbnailSize::Icon));
    assert_eq!(bytes, vec![1]);
    assert!(matches!(
        request().prepared(Err("cancelled".into())),
        Err(ThumbnailError::TaskError(m)) if m == "cancelled"
    ));
    assert!(matches!(
        request().prepared(Ok(Err(ThumbnailError::UnsupportedFormat))),
        Err(ThumbnailError::UnsupportedFormat)
    ));
    assert!(matches!(
        request().prepared(Ok(Ok(vec![1]))).unwrap().written(Err("disk full".into())),
        Err(ThumbnailError::IoError(m)) if m == "disk full"
    ));
}

// ── Rendering ───────────────────────────────────────────────────────────────

#[test]
fn landscapes_and_portraits_are_scaled_to_the_longer_side() {
    assert_eq!(JPEG_QUALITY, 80);
    for (width, height) in [(1200, 600), (600, 1200), (500, 500)] {
        let img = decode_for_thumbnail(&encoded(width, height, ImageFormat::Png)).unwrap();
        for size in ThumbnailSize::all() {
            let request = request_scale(&img, size);
            assert_eq!(request.max, size.max_dimension());
            assert_eq!(request.long, width.max(height));
            assert_eq!(request.short, width.min(height));
            let short = scaled(request.max, request.long, request.short);
            let bytes = render_thumbnail(&img, size, short).unwrap();
            let (w, h) = dimensions(&bytes);
            assert_eq!((w.max(h), w.min(h)), (request.max, short));
            assert_eq!(w > h, width > height);
        }
    }
}

#[test]
fn rendered_thumbnails_depend_on_size_and_image() {
    let img = decode_for_thumbnail(&encoded(640, 480, ImageFormat::Png)).unwrap();
    let icon = render_thumbnail(&img, ThumbnailSize::Icon, 112).unwrap();
    let large = render_thumbnail(&img, ThumbnailSize::Large, 600).unwrap();
    assert!(icon != large);
    assert_eq!(icon[..2], [0xFF, 0xD8]);
    let external = finish_external(&img, ThumbnailSize::Icon, 112).unwrap();
    assert!(icon != external);
}

#[test]
fn images_that_cannot_be_read_are_refused() {
    assert!(matches!(
        decode_for_thumbnail(&b"nothing".to_vec()),
        Err(ThumbnailError::ImageError(_))
    ));
    let mut broken = encoded(64, 64, ImageFormat::Png);
    broken.truncate(60);
    assert!(matches!(decode_for_thumbnail(&broken), Err(ThumbnailError::ImageError(_))));
}

#[test]
fn images_with_too_many_pixels_are_refused() {
    assert_eq!(MAX_DECODE_PIXELS, 50_000_000);
    let mut huge = encoded(1, 1, ImageFormat::Gif);
    for byte in &mut huge[6..10] {
        *byte = 0xFF;
    }
    match decode_for_thumbnail(&huge) {
        Err(ThumbnailError::ImageError(m)) => assert_eq!(
            m,
            "Image too large for thumbnail: 65535×65535 (4294 MP, max 50000000)"
        ),
        _ => panic!("it has too many pixels"),
    }
}

#[test]
fn dimensions_decide_on_decoding() {
    assert!(check_dimensions(Ok((10_000, 5_000))).is_ok());
    assert!(matches!(
        check_dimensions(Ok((10_000, 5_001))),
        Err(ThumbnailError::ImageError(m))
            if m == "Image too large for thumbnail: 10000×5001 (50 MP, max 50000000)"
    ));
    assert!(matches!(
        check_dimensions(Err("unreadable".into())),
        Err(ThumbnailError::ImageError(m)) if m == "unreadable"
    ));
}

#[test]
fn scaling_is_decided_by_the_longer_side() {
    let request = scale_for(300, 100, ThumbnailSize::Icon);
    assert_eq!((request.max, request.long, request.short), (150, 300, 100));
    let request = scale_for(100, 300, ThumbnailSize::Large);
    assert_eq!((request.max, request.long, request.short), (800, 300, 100));
    assert_eq!(bounds_for(300, 100, ThumbnailSize::Icon, 50), (150, 50));
    assert_eq!(bounds_for(100, 300, ThumbnailSize::Icon, 50), (50, 150));
    assert_eq!(bounds_for(100, 100, ThumbnailSize::Preview, 400), (400, 400));
    assert!(filter_for(ThumbnailSize::Icon) == ScaleFilter::Triangle);
    assert!(filter_for(ThumbnailSize::Preview) == ScaleFilter::CatmullRom);
    assert!(filter_for(ThumbnailSize::Large) == ScaleFilter::CatmullRom);
}

#[test]
fn only_small_jpegs_need_no_scaling() {
    let jpeg = vec![0xFF, 0xD8, 0xFF];
    assert!(needs_no_scaling(&jpeg, &Ok((150, 150)), ThumbnailSize::Icon));
    assert!(!needs_no_scaling(&jpeg, &Ok((151, 1)), ThumbnailSize::Icon));
    assert!(!needs_no_scaling(&jpeg, &Ok((1, 151)), ThumbnailSize::Icon));
    assert!(!needs_no_scaling(&jpeg, &Err("unreadable".into()), ThumbnailSize::Icon));
    assert!(!needs_no_scaling(&vec![0xFF], &Ok((1, 1)), ThumbnailSize::Icon));
    assert!(!needs_no_scaling(&vec![0x89, 0x50], &Ok((1, 1)), ThumbnailSize::Icon));
}

#[test]
fn renderings_are_collected() {
    let all = collect_rendered(vec![
        (ThumbnailSize::Icon, Ok(vec![1])),
        (ThumbnailSize::Large, Ok(vec![2])),
    ])
    .unwrap();
    assert!(all == vec![(ThumbnailSize::Icon, vec![1]), (ThumbnailSize::Large, vec![2])]);
    assert!(matches!(
        collect_rendered(vec![
            (ThumbnailSize::Icon, Ok(vec![1])),
            (ThumbnailSize::Preview, Err(ThumbnailError::ImageError("first".into()))),
            (ThumbnailSize::Large, Err(ThumbnailError::ImageError("second".into()))),
        ]),
        Err(ThumbnailError::ImageError(m)) if m == "first"
    ));
    assert!(collect_rendered(vec![]).unwrap().is_empty());
}

// ── In the background ───────────────────────────────────────────────────────

#[test]
fn existing_thumbnails_are_loaded() {
    let mut check = service().generate_all_sizes_background("f1".into(), "abc".into());
    let mut asked = Vec::new();
    let load = loop {
        asked.push(check.path().dir);
        match check.checked(true) {
            AfterCheck::Check(next) => check = next,
            AfterCheck::Load(load) => break load,
            AfterCheck::Acquire(_) => panic!("all of them exist"),
        }
    };
    assert_eq!(asked, vec!["icon", "preview", "large"]);
    let mut kept = Vec::new();
    let mut next: Option<LoadFile> = Some(load);
    let mut replies = vec![Some(vec![1]), None, Some(vec![3])].into_iter();
    while let Some(load) = next {
        assert_eq!(load.path().name, "abc.jpg");
        let (keep, rest) = load.loaded(replies.next().unwrap());
        kept.extend(keep);
        next = rest;
    }
    assert_eq!(
        kept,
        vec![
            (ThumbnailCacheKey::new("f1", ThumbnailSize::Icon), vec![1]),
            (ThumbnailCacheKey::new("f1", ThumbnailSize::Large), vec![3]),
        ]
    );
}

#[test]
fn a_refresh_deletes_before_it_makes() {
    let hook = ThumbnailRefreshHook::new(service());
    let refresh = hook.refresh_thumbnails("f1".into(), "new".into());
    assert_eq!(refresh.first.len(), 6);
    assert!(matches!(
        &refresh.first[0],
        Step::Forget(key) if *key == ThumbnailCacheKey::new("f1", ThumbnailSize::Icon)
    ));
    assert!(matches!(
        &refresh.first[5],
        Step::Remove(path) if path_is(path, "large", "ext-f1.jpg")
    ));
    let guard = refresh.rest.read(true).unwrap();
    assert_eq!((guard.work.file_id.as_str(), guard.work.blob_hash.as_str()), ("f1", "new"));
    assert!(ThumbnailRefreshHook::spawn_thumbnail_generation("f1".into(), "new".into())
        .read(false)
        .is_none());
}

#[test]
fn missing_thumbnails_are_rendered_and_saved() {
    let check = service().generate_all_sizes_background("f1".into(), "abc".into());
    let check = match check.checked(true) {
        AfterCheck::Check(next) => next,
        _ => panic!("two sizes are left"),
    };
    let permit = match check.checked(false) {
        AfterCheck::Acquire(permit) => permit,
        _ => panic!("a size is missing"),
    };
    let render = permit.acquired(true).unwrap();
    let save = render
        .rendered(Ok(Ok(vec![(ThumbnailSize::Icon, vec![1]), (ThumbnailSize::Large, vec![2])])))
        .ok()
        .unwrap();
    let mut saves = save.saves();
    assert_eq!(saves.len(), 2);
    let second = saves.pop().unwrap();
    let first = saves.pop().unwrap();
    assert!(path_is(&first.path, "icon", "abc.jpg"));
    assert!(path_is(&second.path, "large", "abc.jpg"));
    assert_eq!(
        first.written(true),
        Some((ThumbnailCacheKey::new("f1", ThumbnailSize::Icon), vec![1]))
    );
    assert_eq!(second.written(false), None);
}

#[test]
fn generation_ends_early() {
    let guard =
        || service().generate_all_sizes_background_from_bytes("f1".into(), "abc".into());
    assert!(guard().checked(false).is_none());
    let check = guard().checked(true).unwrap();
    let permit = match check.checked(false) {
        AfterCheck::Acquire(permit) => permit,
        _ => panic!("a size is missing"),
    };
    assert!(permit.acquired(false).is_none());

    let render = || {
        let check = service().generate_all_sizes_background("f1".into(), "abc".into());
        match check.checked(false) {
            AfterCheck::Acquire(permit) => permit.acquired(true).unwrap(),
            _ => panic!("a size is missing"),
        }
    };
    assert!(matches!(
        render().rendered(Ok(Err(ThumbnailError::UnsupportedFormat))),
        Err(GenerationFailure::Failed(ThumbnailError::UnsupportedFormat))
    ));
    assert!(matches!(
        render().rendered(Err("panicked".into())),
        Err(GenerationFailure::Panicked(m)) if m == "panicked"
    ));
    let nothing: SaveAll = render().rendered(Ok(Ok(vec![]))).ok().unwrap();
    assert!(nothing.saves().is_empty());
}
