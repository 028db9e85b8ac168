use media_formats::extractor::{content_type_from_kind, extractor_from_matches};
use media_formats::{
    default_codec, get_extractor, get_instagram_content_type, AppError, BestFormats, Extractor,
    Field, FileDetails, FileEncoding, FileFormat, FileSize, FileSizeUnit, InstagramContentType,
    RawCatalog, RawFileFormat, Resolution,
};

fn raw(id: &str, filesize: Option<u64>, tbr: Option<u64>, acodec: &str, vcodec: &str, dims: Option<(u16, u16)>) -> RawFileFormat {
    RawFileFormat {
        format_id: id.to_string(),
        ext: "mp4".to_string(),
        filesize,
        acodec: acodec.to_string(),
        vcodec: vcodec.to_string(),
        width: dims.map(|d| d.0),
        height: dims.map(|d| d.1),
        tbr,
    }
}

fn catalog(formats: Vec<RawFileFormat>) -> RawCatalog {
    RawCatalog {
        title: Some("clip".to_string()),
        duration: Some(10_000),
        ext: Some("mp4".to_string()),
        extractor: Some("youtube".to_string()),
        extractor_key: Some("Youtube".to_string()),
        formats: Some(formats),
    }
}

fn format(id: &str, bytes: u64, encoding: FileEncoding, resolution: Option<Resolution>) -> FileFormat {
    FileFormat {
        id: id.to_string(),
        extension: "mp4".to_string(),
        resolution,
        file_size: FileSize::new(bytes as u128, 1),
        file_encoding: encoding,
    }
}

const MB: u64 = 1024 * 1024;

#[test]
fn zero_bytes_stay_bytes() {
    assert_eq!(FileSize::new(0, 1), FileSize { hundredths: 0, unit: FileSizeUnit::Bytes });
}

#[test]
fn small_counts_are_bytes() {
    assert_eq!(FileSize::new(1023, 1), FileSize { hundredths: 102300, unit: FileSizeUnit::Bytes });
}

#[test]
fn one_kilobyte() {
    assert_eq!(FileSize::new(1024, 1), FileSize { hundredths: 100, unit: FileSizeUnit::Kilobytes });
}

#[test]
fn fractional_bytes_round_up() {
    // 3 / 8 of a byte shows as 0.38B
    assert_eq!(FileSize::new(3, 8), FileSize { hundredths: 38, unit: FileSizeUnit::Bytes });
}

#[test]
fn rounding_up_moves_to_next_unit() {
    // 1048575 bytes are 1023.999 KB, which rounds up to 1024.00 KB: shown as 1MB
    assert_eq!(FileSize::new(1_048_575, 1), FileSize { hundredths: 100, unit: FileSizeUnit::Megabytes });
}

#[test]
fn gigabytes_do_not_scale_further() {
    let five_tb = 5u128 * 1024 * 1024 * 1024 * 1024;
    assert_eq!(FileSize::new(five_tb, 1), FileSize { hundredths: 512000, unit: FileSizeUnit::Gigabytes });
}

#[test]
fn largest_count_is_gigabytes() {
    let s = FileSize::new(u128::MAX, 1);
    assert_eq!(s.unit, FileSizeUnit::Gigabytes);
    assert!(s.hundredths as f64 / 100.0 * 1073741824.0 >= u128::MAX as f64);
}

#[test]
fn size_text_trims_zeros() {
    assert_eq!(FileSize::new(1_000_000, 1).to_text(), "976.57KB");
    assert_eq!(FileSize::new(3 * MB as u128 / 2, 1).to_text(), "1.5MB");
    assert_eq!(FileSize::new(3 * 1024 * MB as u128, 1).to_text(), "3GB");
    assert_eq!(FileSize::new(0, 1).to_text(), "0B");
}

#[test]
fn magnitude_stays_below_1024_and_never_understates() {
    let counts: [u128; 8] = [0, 1, 1023, 1024, 1025, 1_000_000, 1_048_575, 123_456_789_012];
    for &b in counts.iter() {
        let s = FileSize::new(b, 1);
        if s.unit != FileSizeUnit::Gigabytes {
            assert!(s.hundredths < 102400);
        }
        let per_unit: u128 = match s.unit {
            FileSizeUnit::Bytes => 1,
            FileSizeUnit::Kilobytes => 1024,
            FileSizeUnit::Megabytes => 1024 * 1024,
            FileSizeUnit::Gigabytes => 1024 * 1024 * 1024,
        };
        assert!(s.hundredths * per_unit >= 100 * b);
    }
}

#[test]
fn kilobytes_come_before_megabytes() {
    let kb = FileSize { hundredths: 102399, unit: FileSizeUnit::Kilobytes };
    let mb = FileSize { hundredths: 100, unit: FileSizeUnit::Megabytes };
    assert!(kb.is_smaller_than(&mb));
    assert!(!mb.is_smaller_than(&kb));
}

#[test]
fn equal_units_compare_by_magnitude() {
    let a = FileSize { hundredths: 1000, unit: FileSizeUnit::Megabytes };
    let b = FileSize { hundredths: 1200, unit: FileSizeUnit::Megabytes };
    assert!(a.is_smaller_than(&b));
    assert!(!b.is_smaller_than(&a));
    assert!(!a.is_smaller_than(&a));
}

#[test]
fn either_dimension_names_the_tier() {
    assert_eq!(Resolution::try_new(1080, 1), Ok(Resolution::P1080));
    assert_eq!(Resolution::try_new(1920, 1080), Ok(Resolution::P1080));
    assert_eq!(Resolution::try_new(144, 4320), Ok(Resolution::P4320));
    assert_eq!(Resolution::try_new(720, 1280), Ok(Resolution::P720));
}

#[test]
fn unknown_dimensions_are_rejected() {
    assert_eq!(Resolution::try_new(7, 9), Err(AppError::InvalidResolution(7, 9)));
}

#[test]
fn resolution_labels() {
    assert_eq!(Resolution::P1080.label(), "1080p");
    assert_eq!(Resolution::P144.label(), "144p");
}

#[test]
fn silent_video_is_video_only() {
    assert_eq!(FileEncoding::classify("unknown", "vp9", Some(1920), Some(1080)), FileEncoding::VideoOnly);
    assert_eq!(FileEncoding::classify("none", "vp9", Some(1920), Some(1080)), FileEncoding::VideoOnly);
}

#[test]
fn audio_without_dimensions_is_audio_only() {
    assert_eq!(FileEncoding::classify("aac", "unknown", None, None), FileEncoding::AudioOnly);
    assert_eq!(FileEncoding::classify("aac", "none", None, None), FileEncoding::AudioOnly);
    assert_eq!(FileEncoding::classify("aac", "none", Some(1), None), FileEncoding::Unknown);
}

#[test]
fn unknown_codecs_without_dimensions_are_unknown() {
    assert_eq!(FileEncoding::classify("unknown", "unknown", None, None), FileEncoding::Unknown);
}

#[test]
fn both_codecs_with_dimensions_are_video_and_audio() {
    assert_eq!(FileEncoding::classify("aac", "avc1", Some(1280), Some(720)), FileEncoding::VideoAndAudio);
    assert_eq!(FileEncoding::classify("aac", "avc1", Some(1280), None), FileEncoding::Unknown);
    assert_eq!(FileEncoding::VideoOnly.label(), "Video Only");
}

#[test]
fn default_codec_is_unknown() {
    assert_eq!(default_codec(), "unknown");
}

#[test]
fn size_is_derived_from_bitrate() {
    let f = FileFormat::try_new(raw("a", None, Some(800_000), "aac", "none", None), 10_000);
    let f = match f {
        Ok(f) => f,
        Err(_) => panic!("variant should normalise"),
    };
    assert_eq!(f.file_size, FileSize { hundredths: 97657, unit: FileSizeUnit::Kilobytes });
    assert_eq!(f.file_size.to_text(), "976.57KB");
    assert_eq!(f.file_encoding, FileEncoding::AudioOnly);
    assert_eq!(f.resolution, None);
}

#[test]
fn given_size_wins_over_bitrate() {
    let f = FileFormat::try_new(raw("b", Some(2048), Some(800_000), "aac", "h264", Some((1280, 720))), 10_000);
    let f = match f {
        Ok(f) => f,
        Err(_) => panic!("variant should normalise"),
    };
    assert_eq!(f.file_size, FileSize { hundredths: 200, unit: FileSizeUnit::Kilobytes });
    assert_eq!(f.resolution, Some(Resolution::P720));
    assert_eq!(f.file_encoding, FileEncoding::VideoAndAudio);
    assert_eq!(f.id, "b");
    assert_eq!(f.extension, "mp4");
}

#[test]
fn variant_without_size_or_bitrate_fails() {
    let r = FileFormat::try_new(raw("c", None, None, "aac", "none", None), 10_000);
    assert!(matches!(r, Err(AppError::MissingField(Field::Tbr))));
}

#[test]
fn variant_with_bad_resolution_fails() {
    let r = FileFormat::try_new(raw("d", Some(10), None, "aac", "h264", Some((7, 9))), 10_000);
    assert!(matches!(r, Err(AppError::InvalidResolution(7, 9))));
}

#[test]
fn missing_extractor_key_fails_the_catalog() {
    let mut c = catalog(vec![raw("a", Some(10), None, "aac", "none", None)]);
    c.extractor_key = None;
    assert!(matches!(FileDetails::from_raw(c), Err(AppError::MissingField(Field::ExtractorKey))));
}

#[test]
fn first_missing_field_is_reported() {
    let mut c = catalog(vec![]);
    c.duration = None;
    c.formats = None;
    assert!(matches!(FileDetails::from_raw(c), Err(AppError::MissingField(Field::Duration))));
    let mut c = catalog(vec![]);
    c.formats = None;
    assert!(matches!(FileDetails::from_raw(c), Err(AppError::MissingField(Field::Formats))));
    assert_eq!(Field::ExtractorKey.name(), "extractor_key");
}

#[test]
fn bad_variant_is_dropped() {
    let c = catalog(vec![
        raw("a", Some(10), None, "aac", "none", None),
        raw("b", None, None, "aac", "none", None),
        raw("c", None, Some(800_000), "aac", "none", None),
    ]);
    let d = match FileDetails::from_raw(c) {
        Ok(d) => d,
        Err(_) => panic!("catalog should parse"),
    };
    assert_eq!(d.formats.len(), 2);
    assert_eq!(d.formats[0].id, "a");
    assert_eq!(d.formats[1].id, "c");
    assert_eq!(d.title, "clip");
    assert_eq!(d.duration, 10_000);
    assert_eq!(d.extractor_key, "Youtube");
}

#[test]
fn larger_combined_format_is_kept() {
    let formats = vec![
        format("small", 10 * MB, FileEncoding::VideoAndAudio, Some(Resolution::P720)),
        format("large", 12 * MB, FileEncoding::VideoAndAudio, Some(Resolution::P720)),
    ];
    let best = BestFormats::from_formats(&formats);
    let kept = best.video_and_audio(Resolution::P720).expect("720p entry");
    assert_eq!(kept.id, "large");
    assert!(best.video_and_audio(Resolution::P1080).is_none());
    assert!(best.video_only(Resolution::P720).is_none());
    assert!(best.audio_only().is_none());
}

#[test]
fn equal_sizes_keep_the_first() {
    let formats = vec![
        format("first", 10 * MB, FileEncoding::VideoOnly, Some(Resolution::P480)),
        format("second", 10 * MB, FileEncoding::VideoOnly, Some(Resolution::P480)),
    ];
    let best = BestFormats::from_formats(&formats);
    assert_eq!(best.video_only(Resolution::P480).expect("480p entry").id, "first");
}

#[test]
fn audio_only_catalog_fills_audio_only() {
    let formats = vec![
        format("low", MB, FileEncoding::AudioOnly, None),
        format("high", 3 * MB, FileEncoding::AudioOnly, None),
        format("mid", 2 * MB, FileEncoding::AudioOnly, None),
    ];
    let best = BestFormats::from_formats(&formats);
    assert_eq!(best.audio_only().expect("audio entry").id, "high");
    for r in [Resolution::P144, Resolution::P720, Resolution::P1080, Resolution::P4320] {
        assert!(best.video_and_audio(r).is_none());
        assert!(best.video_only(r).is_none());
    }
}

#[test]
fn unplaceable_formats_are_skipped() {
    let formats = vec![
        format("no_res", 5 * MB, FileEncoding::VideoAndAudio, None),
        format("image", 5 * MB, FileEncoding::Image, Some(Resolution::P720)),
        format("unknown", 5 * MB, FileEncoding::Unknown, Some(Resolution::P720)),
    ];
    let best = BestFormats::from_formats(&formats);
    assert!(best.video_and_audio(Resolution::P720).is_none());
    assert!(best.video_only(Resolution::P720).is_none());
    assert!(best.audio_only().is_none());
}

#[test]
fn empty_input_selects_nothing() {
    let best = BestFormats::from_formats(&vec![]);
    assert!(best.audio_only().is_none());
    assert!(best.video_and_audio(Resolution::P144).is_none());
    let fresh = BestFormats::new();
    assert!(fresh.audio_only().is_none());
}

#[test]
fn unit_bucket_decides_the_best() {
    let formats = vec![
        format("kb", 1000 * 1024, FileEncoding::VideoOnly, Some(Resolution::P360)),
        format("mb", MB, FileEncoding::VideoOnly, Some(Resolution::P360)),
    ];
    let best = BestFormats::from_formats(&formats);
    assert_eq!(best.video_only(Resolution::P360).expect("360p entry").id, "mb");
}

#[test]
fn video_site_address() {
    assert_eq!(get_extractor("https://www.youtube.com/watch?v=abc"), Some(Extractor::Youtube));
    assert_eq!(get_extractor("https://youtu.be/abc"), Some(Extractor::Youtube));
}

#[test]
fn photo_site_addresses() {
    assert_eq!(
        get_extractor("https://www.instagram.com/reel/Cabc_1/"),
        Some(Extractor::Instagram(InstagramContentType::Reel))
    );
    assert_eq!(
        get_extractor("https://instagram.com/p/xyz"),
        Some(Extractor::Instagram(InstagramContentType::Post))
    );
    assert_eq!(
        get_instagram_content_type("https://www.instagram.com/stories/someone/123"),
        Some(InstagramContentType::Story)
    );
}

#[test]
fn other_addresses_have_no_profile() {
    assert_eq!(get_extractor("https://example.com/video"), None);
    assert_eq!(get_instagram_content_type("https://www.youtube.com/watch?v=abc"), None);
}

#[test]
fn size_operators_follow_unit_buckets() {
    let kb = FileSize { hundredths: 90000, unit: FileSizeUnit::Kilobytes };
    let mb = FileSize { hundredths: 100, unit: FileSizeUnit::Megabytes };
    assert!(kb < mb);
    assert!(mb > kb);
    assert_eq!(kb.partial_cmp(&kb), Some(std::cmp::Ordering::Equal));
}

#[test]
fn encoding_from_raw_record() {
    let r = raw("v", Some(1), None, "none", "vp9", Some((1920, 1080)));
    assert_eq!(FileEncoding::from(r), FileEncoding::VideoOnly);
}

#[test]
fn profile_from_pattern_results() {
    assert_eq!(extractor_from_matches(Some(true), Some(true), Some("p")), Some(Extractor::Youtube));
    assert_eq!(
        extractor_from_matches(Some(false), Some(true), Some("stories")),
        Some(Extractor::Instagram(InstagramContentType::Story))
    );
    assert_eq!(extractor_from_matches(Some(false), Some(true), Some("tv")), None);
    assert_eq!(extractor_from_matches(Some(false), Some(false), Some("p")), None);
    assert_eq!(extractor_from_matches(None, None, None), None);
    assert_eq!(content_type_from_kind(Some("reel")), Some(InstagramContentType::Reel));
    assert_eq!(content_type_from_kind(None), None);
}

#[test]
fn format_text_lists_fields() {
    let f = format("137", 3 * MB / 2, FileEncoding::VideoOnly, Some(Resolution::P1080));
    assert_eq!(
        f.to_text(),
        "FileFormat (id: 137, extension: mp4, resolution: 1080p, file size: 1.5MB, file encoding: Video Only)"
    );
    let g = format("140", 2048, FileEncoding::AudioOnly, None);
    assert_eq!(
        g.to_text(),
        "FileFormat (id: 140, extension: mp4, resolution: None, file size: 2KB, file encoding: Audio Only)"
    );
}

#[test]
fn details_text_lists_fields() {
    let mut c = catalog(vec![
        raw("a", Some(2048), None, "aac", "none", None),
        raw("b", Some(1), None, "none", "vp9", Some((1920, 1080))),
    ]);
    c.duration = Some(12_340);
    let d = match FileDetails::from_raw(c) {
        Ok(d) => d,
        Err(_) => panic!("catalog should parse"),
    };
    assert_eq!(
        d.to_text(),
        "FileDetails (\ntitle: clip,\nduration: 12.34,\next: mp4,\nextractor: youtube,\nextractor_key: Youtube,\nformats: \
FileFormat (id: a, extension: mp4, resolution: None, file size: 2KB, file encoding: Audio Only)\n\t\
FileFormat (id: b, extension: mp4, resolution: 1080p, file size: 1B, file encoding: Video Only)\n)"
    );
}
