use maestro::album::Album;
use image::GenericImageView;
use maestro::cover::{
    extension, file_name, CoverCell, Lookup, Outcome, Place, Progress, Reply, Request, Variant,
};
use maestro::image::{
    encode_smaller, has_pixels, smaller_encoding, transform_image, transform_image_vw, Format,
    Image, LoadError, LoadWithCacheError,
};
use maestro::raw;
use maestro::text::Text;
use std::collections::HashMap;
use std::io::{Error, ErrorKind};

fn probe(place: Place, file: &str) -> Request {
    Request::Exists {
        place,
        file: file.to_string(),
    }
}

fn png() -> Image {
    Image::from_png(vec![1, 2, 3])
}

fn jpeg() -> Image {
    Image::from_jpeg(vec![4, 5])
}

fn ask(outcome: Outcome) -> (Lookup, Request) {
    match outcome {
        Outcome::Ask(lookup, request) => (lookup, request),
        Outcome::Done(done) => panic!("the lookup is over: {:?}", done),
    }
}

#[test]
fn format_has_extension_and_mime_type() {
    assert_eq!(Format::Png.ext(), "png");
    assert_eq!(Format::Jpeg.ext(), "jpg");
    assert_eq!(Format::Png.mime(), "image/png");
    assert_eq!(Format::Jpeg.mime(), "image/jpeg");
    assert_eq!(extension(0), "png");
    assert_eq!(extension(1), "jpg");
    assert_eq!(extension(2), "jpeg");
    assert_eq!(file_name("Front Cover", "png"), "Front Cover.png");
}

#[test]
fn image_keeps_data_and_format() {
    let image = Image::new(vec![7, 8], Format::Jpeg);
    assert_eq!(image.data(), &[7, 8]);
    assert_eq!(image.format, Format::Jpeg);
    assert_eq!(Image::from_png(vec![1]).format, Format::Png);
    assert_eq!(Image::from_jpeg(vec![1]).format, Format::Jpeg);
    assert_eq!(image.clone(), image);
}

#[test]
fn smaller_encoding_wins_and_png_wins_ties() {
    assert_eq!(smaller_encoding(vec![1, 2], vec![3, 4, 5]), Image::from_png(vec![1, 2]));
    assert_eq!(smaller_encoding(vec![1, 2, 3], vec![4, 5]), Image::from_jpeg(vec![4, 5]));
    assert_eq!(smaller_encoding(vec![1, 2], vec![3, 4]), Image::from_png(vec![1, 2]));
    assert_eq!(smaller_encoding(vec![], vec![]), Image::from_png(vec![]));
}

#[test]
fn cached_file_is_read_as_it_is() {
    let lookup = Lookup::start("coast");
    assert_eq!(lookup.pending(), probe(Place::Cache, "coast.png"));
    let (lookup, request) = ask(lookup.advance(Reply::Exists(false)));
    assert_eq!(request, probe(Place::Cache, "coast.jpg"));
    let (lookup, request) = ask(lookup.advance(Reply::Exists(true)));
    assert_eq!(
        request,
        Request::Read {
            file: "coast.jpg".to_string()
        }
    );
    match lookup.advance(Reply::Loaded(Ok(jpeg()))) {
        Outcome::Done(Ok(Some(image))) => assert_eq!(image, jpeg()),
        other => panic!("unexpected: {:?}", other),
    }
}

#[test]
fn source_image_is_processed_and_cached() {
    let mut lookup = Lookup::start("coast");
    for file in ["coast.png", "coast.jpg", "coast.jpeg"] {
        assert_eq!(lookup.pending(), probe(Place::Cache, file));
        lookup = ask(lookup.advance(Reply::Exists(false))).0;
    }
    assert_eq!(lookup.pending(), probe(Place::Images, "coast.png"));
    let (lookup, _) = ask(lookup.advance(Reply::Exists(false)));
    assert_eq!(lookup.pending(), probe(Place::Images, "coast.jpg"));
    let (lookup, _) = ask(lookup.advance(Reply::Exists(false)));
    assert_eq!(lookup.pending(), probe(Place::Images, "coast.jpeg"));
    let (lookup, request) = ask(lookup.advance(Reply::Exists(true)));
    assert_eq!(
        request,
        Request::Open {
            file: "coast.jpeg".to_string()
        }
    );
    let (lookup, request) = ask(lookup.advance(Reply::Processed(Ok(jpeg()))));
    assert_eq!(request, Request::CreateCacheFolder);
    let (lookup, request) = ask(lookup.advance(Reply::Created(Ok(()))));
    assert_eq!(
        request,
        Request::Write {
            file: "coast.jpg".to_string(),
            data: vec![4, 5]
        }
    );
    match lookup.advance(Reply::Written(Ok(()))) {
        Outcome::Done(Ok(Some(image))) => assert_eq!(image, jpeg()),
        other => panic!("unexpected: {:?}", other),
    }
}

#[test]
fn transformed_png_is_cached_as_png() {
    let mut lookup = Lookup::start("x");
    for _ in 0..3 {
        lookup = ask(lookup.advance(Reply::Exists(false))).0;
    }
    let (lookup, _) = ask(lookup.advance(Reply::Exists(true)));
    let (lookup, _) = ask(lookup.advance(Reply::Processed(Ok(png()))));
    let (_, request) = ask(lookup.advance(Reply::Created(Ok(()))));
    assert_eq!(
        request,
        Request::Write {
            file: "x.png".to_string(),
            data: vec![1, 2, 3]
        }
    );
}

#[test]
fn no_file_anywhere_is_no_image() {
    let mut lookup = Lookup::start("x");
    for _ in 0..5 {
        lookup = ask(lookup.advance(Reply::Exists(false))).0;
    }
    assert!(matches!(
        lookup.advance(Reply::Exists(false)),
        Outcome::Done(Ok(None))
    ));
}

#[test]
fn every_failure_ends_the_lookup() {
    let io = || Error::new(ErrorKind::Other, "no");
    let at_read = || ask(Lookup::start("x").advance(Reply::Exists(true))).0;
    assert!(matches!(
        at_read().advance(Reply::Loaded(Err(LoadError::NoImage))),
        Outcome::Done(Err(LoadWithCacheError::CacheLoadError(LoadError::NoImage)))
    ));
    assert!(matches!(
        at_read().advance(Reply::Loaded(Image::from_read(Err(io())))),
        Outcome::Done(Err(LoadWithCacheError::CacheLoadError(
            LoadError::CouldntReadFile(_)
        )))
    ));
    let at_open = || {
        let mut lookup = Lookup::start("x");
        for _ in 0..3 {
            lookup = ask(lookup.advance(Reply::Exists(false))).0;
        }
        ask(lookup.advance(Reply::Exists(true))).0
    };
    assert!(matches!(
        at_open().advance(Reply::Processed(Err(LoadWithCacheError::EmptyImage))),
        Outcome::Done(Err(LoadWithCacheError::EmptyImage))
    ));
    let at_create = || ask(at_open().advance(Reply::Processed(Ok(png())))).0;
    assert!(matches!(
        at_create().advance(Reply::Created(Err(io()))),
        Outcome::Done(Err(LoadWithCacheError::CouldntCreateCacheFolder(_)))
    ));
    let at_write = || ask(at_create().advance(Reply::Created(Ok(())))).0;
    assert!(matches!(
        at_write().advance(Reply::Written(Err(io()))),
        Outcome::Done(Err(LoadWithCacheError::CouldntWriteCachedFile(_)))
    ));
}

#[test]
fn reply_to_another_request_changes_nothing() {
    let lookup = Lookup::start("x");
    let (lookup, request) = ask(lookup.advance(Reply::Written(Ok(()))));
    assert_eq!(request, probe(Place::Cache, "x.png"));
    let (lookup, _) = ask(lookup.advance(Reply::Exists(true)));
    let (lookup, request) = ask(lookup.advance(Reply::Exists(true)));
    assert_eq!(
        request,
        Request::Read {
            file: "x.png".to_string()
        }
    );
    assert_eq!(lookup.pending(), request);
}

#[test]
fn cell_is_resolved_once() {
    let mut cell = CoverCell::new();
    assert!(!cell.is_resolved());
    assert!(matches!(cell.step(Some("x"), None), Progress::Ask(_)));
    assert!(matches!(cell.step(Some("x"), None), Progress::Ask(_)));
    assert!(matches!(
        cell.step(Some("x"), Some(Reply::Exists(true))),
        Progress::Ask(Request::Read { .. })
    ));
    assert!(matches!(
        cell.step(Some("x"), Some(Reply::Loaded(Ok(png())))),
        Progress::Ready
    ));
    assert!(cell.is_resolved());
    assert_eq!(cell.image(), Some(&png()));
    assert!(matches!(cell.step(Some("x"), None), Progress::Ready));
    assert!(matches!(
        cell.step(Some("x"), Some(Reply::Exists(false))),
        Progress::Ready
    ));
    assert_eq!(cell.image(), Some(&png()));
}

#[test]
fn failed_cell_begins_again() {
    let mut cell = CoverCell::new();
    cell.step(Some("x"), None);
    cell.step(Some("x"), Some(Reply::Exists(true)));
    assert!(matches!(
        cell.step(Some("x"), Some(Reply::Loaded(Err(LoadError::NoImage)))),
        Progress::Failed(LoadWithCacheError::CacheLoadError(LoadError::NoImage))
    ));
    assert!(!cell.is_resolved());
    assert_eq!(cell.image(), None);
    match cell.step(Some("x"), None) {
        Progress::Ask(request) => assert_eq!(request, probe(Place::Cache, "x.png")),
        other => panic!("unexpected: {:?}", other),
    }
    let mut nameless = CoverCell::new();
    assert!(matches!(nameless.step(None, None), Progress::Ready));
    assert!(nameless.is_resolved());
    assert_eq!(nameless.image(), None);
}

fn two_disc_album() -> Album {
    let album = raw::Album::new(Text::from("foo")).with_discs(vec![
        raw::Disc::from_tracks(vec![raw::Track::new(Text::from("what?"))]),
        raw::Disc::new(),
    ]);
    Album::new(album, String::from("."))
}

fn answer_no(progress: Progress) -> Option<Reply> {
    match progress {
        Progress::Ask(Request::Exists { .. }) => Some(Reply::Exists(false)),
        other => panic!("unexpected: {:?}", other),
    }
}

#[test]
fn track_without_cover_has_the_cover_of_its_disc() {
    let album = two_disc_album();
    let mut track = album.disc(1).unwrap().into_track(1).unwrap();
    assert_eq!(track.cover(), None);
    let mut asked = Vec::new();
    let mut progress = track.resolve_cover(None);
    for _ in 0..6 {
        if let Progress::Ask(Request::Exists { place, file }) = &progress {
            asked.push((*place, file.clone()));
        }
        let reply = answer_no(progress);
        progress = track.resolve_cover(reply);
    }
    assert_eq!(asked[0], (Place::Cache, "what.png".to_string()));
    assert_eq!(asked[5], (Place::Images, "what.jpeg".to_string()));
    match &progress {
        Progress::Ask(request) => assert_eq!(request, &probe(Place::Cache, "Disc 1.png")),
        other => panic!("unexpected: {:?}", other),
    }
    assert_eq!(track.cover(), None);
    let progress = track.resolve_cover(Some(Reply::Exists(true)));
    assert!(matches!(progress, Progress::Ask(Request::Read { .. })));
    let progress = track.resolve_cover(Some(Reply::Loaded(Ok(png()))));
    assert!(matches!(progress, Progress::Ready));
    assert_eq!(track.cover(), Some(&png()));
    assert!(matches!(track.resolve_cover(None), Progress::Ready));
    assert!(matches!(
        track.resolve_cover(Some(Reply::Exists(true))),
        Progress::Ready
    ));
    assert_eq!(track.cover(), Some(&png()));
    assert_eq!(track.cover_vw(), None);
    assert_eq!(track.disc().cover(), Some(&png()));
    assert_eq!(track.tag().picture.unwrap().mime_type, "image/png");
}

#[test]
fn disc_without_cover_has_the_cover_of_the_album() {
    let mut album = two_disc_album();
    assert!(matches!(album.resolve_cover_vw(None), Progress::Ask(_)));
    assert!(matches!(
        album.resolve_cover_vw(Some(Reply::Exists(true))),
        Progress::Ask(Request::Read { .. })
    ));
    assert!(matches!(
        album.resolve_cover_vw(Some(Reply::Loaded(Ok(jpeg())))),
        Progress::Ready
    ));
    assert_eq!(album.cover_vw(), Some(&jpeg()));
    assert_eq!(album.cover(), None);
    assert!(album.cover_is_resolved(Variant::Vw));
    assert!(!album.cover_is_resolved(Variant::Standard));
    let mut disc = album.disc(2).unwrap();
    let mut progress = disc.resolve_cover_vw(None);
    for _ in 0..6 {
        progress = disc.resolve_cover_vw(answer_no(progress));
    }
    assert!(matches!(progress, Progress::Ready));
    assert_eq!(disc.cover_vw(), Some(&jpeg()));
    let mut progress = disc.resolve_cover(None);
    for _ in 0..6 {
        progress = disc.resolve_cover(answer_no(progress));
    }
    match &progress {
        Progress::Ask(request) => assert_eq!(request, &probe(Place::Cache, "Front Cover.png")),
        other => panic!("unexpected: {:?}", other),
    }
    for _ in 0..6 {
        progress = disc.resolve_cover(answer_no(progress));
    }
    assert!(matches!(progress, Progress::Ready));
    assert_eq!(disc.cover(), None);
    assert!(matches!(disc.resolve_cover(None), Progress::Ready));
}

#[test]
fn only_disc_asks_for_the_album_cover_at_once() {
    let album = Album::new(
        raw::Album::new(Text::from("foo")).with_discs(vec![raw::Disc::new()]),
        String::from("."),
    );
    let mut disc = album.disc(1).unwrap();
    match disc.resolve_cover(None) {
        Progress::Ask(request) => assert_eq!(request, probe(Place::Cache, "Front Cover.png")),
        other => panic!("unexpected: {:?}", other),
    }
}

#[test]
fn image_without_pixels_is_not_processed() {
    assert!(!has_pixels(&image::DynamicImage::new_rgb8(0, 5)));
    assert!(!has_pixels(&image::DynamicImage::new_rgb8(5, 0)));
    assert!(has_pixels(&image::DynamicImage::new_rgb8(3, 4)));
    assert!(matches!(
        Variant::Vw.process(Ok(image::DynamicImage::new_rgb8(0, 0))),
        Err(LoadWithCacheError::EmptyImage)
    ));
    let opened = image::load_from_memory(&[1, 2, 3]);
    assert!(matches!(
        Variant::Standard.process(opened),
        Err(LoadWithCacheError::CouldntOpenUncachedImage(_))
    ));
}

#[test]
fn transform_image_vw_upsizes_to_300_px_image() {
    let img = image::DynamicImage::new_rgba8(200, 250);
    let new_img = transform_image_vw(img).ok().unwrap();
    assert_eq!(new_img.format, Format::Jpeg);
    let new_img = new_img.as_dynamic().unwrap();
    assert_eq!(new_img.height(), 300);
    assert_eq!(new_img.width(), 240);
}

#[test]
fn transform_image_vw_downsizes_to_300_px_image() {
    let img = image::DynamicImage::new_rgba8(600, 500);
    let new_img = transform_image_vw(img).ok().unwrap().as_dynamic().unwrap();
    assert_eq!(new_img.width(), 300);
}

#[test]
fn transform_image_keeps_the_smaller_encoding() {
    let img = image::DynamicImage::new_rgba8(20, 10);
    let new_img = transform_image(img).ok().unwrap();
    assert_eq!(new_img.format, Format::Png);
    let decoded = new_img.as_dynamic().unwrap();
    assert_eq!(decoded.width(), 1000);
    assert_eq!(decoded.height(), 500);
    let processed = Variant::Vw
        .process(Ok(image::DynamicImage::new_rgb8(30, 30)))
        .unwrap();
    assert_eq!(processed.format, Format::Jpeg);
}

#[test]
fn loaded_image_has_the_format_of_its_data() {
    let vw = transform_image_vw(image::DynamicImage::new_rgb8(4, 4)).unwrap();
    let loaded = Image::from_data(vw.data.clone()).unwrap();
    assert_eq!(loaded, vw);
    let std = transform_image(image::DynamicImage::new_rgb8(4, 4)).unwrap();
    let loaded = Image::from_read(Ok(std.data.clone())).unwrap();
    assert_eq!(loaded.format, Format::Png);
    assert!(matches!(
        Image::from_data(vec![0, 1, 2, 3]),
        Err(LoadError::CouldntDetectFormat(_))
    ));
    assert!(matches!(
        Image::from_data(b"GIF89a".to_vec()),
        Err(LoadError::UnsupportedFormat(_))
    ));
}

struct Folders {
    cache: HashMap<String, Image>,
    images: Vec<String>,
    probes: usize,
    opened: usize,
}

fn resolve_with(cell: &mut CoverCell, name: &str, folders: &mut Folders) -> Option<Image> {
    let mut reply = None;
    loop {
        match cell.step(Some(name), reply.take()) {
            Progress::Ready => return cell.image().cloned(),
            Progress::Failed(e) => panic!("failed: {:?}", e),
            Progress::Ask(request) => {
                reply = Some(match request {
                    Request::Exists { place, file } => {
                        folders.probes += 1;
                        Reply::Exists(match place {
                            Place::Cache => folders.cache.contains_key(&file),
                            Place::Images => folders.images.contains(&file),
                        })
                    }
                    Request::Read { file } => Reply::Loaded(Ok(folders.cache[&file].clone())),
                    Request::Open { .. } => {
                        folders.opened += 1;
                        Reply::Processed(Ok(jpeg()))
                    }
                    Request::CreateCacheFolder => Reply::Created(Ok(())),
                    Request::Write { file, data } => {
                        let format = if file.ends_with(".png") {
                            Format::Png
                        } else {
                            Format::Jpeg
                        };
                        folders.cache.insert(file, Image::new(data, format));
                        Reply::Written(Ok(()))
                    }
                })
            }
        }
    }
}

#[test]
fn cached_image_is_used_after_the_first_lookup() {
    let mut folders = Folders {
        cache: HashMap::new(),
        images: vec!["coast.png".to_string()],
        probes: 0,
        opened: 0,
    };
    let mut first = CoverCell::new();
    assert_eq!(resolve_with(&mut first, "coast", &mut folders), Some(jpeg()));
    assert_eq!(folders.opened, 1);
    assert_eq!(folders.probes, 4);
    assert!(folders.cache.contains_key("coast.jpg"));
    assert_eq!(resolve_with(&mut first, "coast", &mut folders), Some(jpeg()));
    assert_eq!(folders.probes, 4);
    let mut second = CoverCell::new();
    assert_eq!(resolve_with(&mut second, "coast", &mut folders), Some(jpeg()));
    assert_eq!(folders.opened, 1);
    assert_eq!(folders.probes, 6);
    let mut none = CoverCell::new();
    assert_eq!(resolve_with(&mut none, "other", &mut folders), None);
    assert_eq!(folders.opened, 1);
    assert_eq!(folders.probes, 12);
}

#[test]
fn transformed_picture_keeps_its_colours() {
    let red = image::RgbaImage::from_pixel(40, 20, image::Rgba([255, 0, 0, 255]));
    let source = image::DynamicImage::ImageRgba8(red);
    let car = transform_image_vw(source.clone()).unwrap();
    let decoded = car.as_dynamic().unwrap().to_rgb8();
    assert_eq!(decoded.dimensions(), (300, 150));
    for (x, y) in [(0, 0), (1, 0), (2, 0), (150, 75), (299, 149)] {
        let pixel = decoded.get_pixel(x, y);
        assert!(pixel[0] > 200 && pixel[1] < 60 && pixel[2] < 60);
    }
    let standard = transform_image(source).unwrap();
    assert_eq!(standard.format, Format::Png);
    let decoded = standard.as_dynamic().unwrap().to_rgb8();
    assert_eq!(decoded.dimensions(), (1000, 500));
    assert_eq!(decoded.get_pixel(1, 0), &image::Rgb([255, 0, 0]));
    assert_eq!(decoded.get_pixel(999, 499), &image::Rgb([255, 0, 0]));
}

#[test]
fn shorter_side_keeps_at_least_one_pixel() {
    let thin = image::DynamicImage::new_rgb8(1, 5000);
    let decoded = transform_image_vw(thin).unwrap().as_dynamic().unwrap();
    assert_eq!(decoded.dimensions(), (1, 300));
    let flat = image::DynamicImage::new_rgb8(700, 1);
    let decoded = transform_image_vw(flat).unwrap().as_dynamic().unwrap();
    assert_eq!(decoded.dimensions(), (300, 1));
    let square = image::DynamicImage::new_rgb8(7, 7);
    let decoded = transform_image_vw(square).unwrap().as_dynamic().unwrap();
    assert_eq!(decoded.dimensions(), (300, 300));
}

#[test]
fn picture_is_encoded_in_the_smaller_way() {
    let rgb = [0u8, 0, 255, 0, 0, 255, 0, 0, 255, 0, 0, 255];
    let image = encode_smaller(&rgb, 2, 2).unwrap();
    let decoded = image.as_dynamic().unwrap().to_rgb8();
    assert_eq!(decoded.dimensions(), (2, 2));
    if image.format == Format::Png {
        assert_eq!(decoded.into_raw(), rgb.to_vec());
    }
    let wide = encode_smaller(&rgb, 4, 1).unwrap();
    assert_eq!(wide.as_dynamic().unwrap().dimensions(), (4, 1));
    assert!(Image::from_png(vec![1, 2, 3]).as_dynamic().is_err());
    assert!(Image::from_jpeg(image.data.clone()).as_dynamic().is_err() || image.format == Format::Jpeg);
}

#[test]
fn format_is_told_by_the_first_bytes() {
    let png = vec![0x89, 0x50, 0x4e, 0x47, 0x0d, 0x0a, 0x1a, 0x0a, 1, 2, 3];
    assert_eq!(Image::from_data(png.clone()).unwrap(), Image::from_png(png.clone()));
    let jpeg = vec![0xff, 0xd8, 0xff, 9];
    assert_eq!(Image::from_data(jpeg.clone()).unwrap(), Image::from_jpeg(jpeg.clone()));
    assert_eq!(
        Image::from_read(Ok(vec![0xff, 0xd8, 0xff])).unwrap(),
        Image::from_jpeg(vec![0xff, 0xd8, 0xff])
    );
    assert!(Image::from_data(vec![0x89, 0x50, 0x4e, 0x47, 0x0d, 0x0a, 0x1a]).is_err());
    assert!(Image::from_data(vec![0xff, 0xd8]).is_err());
    assert!(Image::from_data(vec![]).is_err());
    assert!(Image::from_data(vec![0, 0x89, 0x50, 0x4e, 0x47, 0x0d, 0x0a, 0x1a, 0x0a]).is_err());
    assert!(matches!(
        Image::from_data(b"BM123".to_vec()),
        Err(LoadError::UnsupportedFormat(_))
    ));
    assert!(matches!(
        Image::from_read(Err(Error::new(ErrorKind::NotFound, "gone"))),
        Err(LoadError::CouldntReadFile(_))
    ));
}
