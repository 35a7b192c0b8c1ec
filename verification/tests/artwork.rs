use kopuz::artwork::{
    album_cover, artist_cover, artist_cover_by_key, chunk_fits, hash_name, local_cache_name, parse_cover, ref_for,
    remote_cache_name, remote_length_ok, sniff_content_type, strategy_from_id, strategy_id,
    ArtistImageRef, ArtistImages, ArtworkTarget, CoverRef, MAX_REMOTE_ARTWORK_BYTES,
};
use kopuz::config::FetchStrategy;

#[test]
fn content_type_sniffing_recognizes_magic_bytes() {
    assert_eq!(sniff_content_type(b"\x89PNG\r\n\x1a\n"), "image/png");
    assert_eq!(
        sniff_content_type(b"RIFF\x00\x00\x00\x00WEBPVP8 "),
        "image/webp"
    );
    assert_eq!(sniff_content_type(b"\xff\xd8\xff\xe0"), "image/jpeg");
}

#[test]
fn gif_is_recognized_and_unknown_bytes_sniff_as_jpeg() {
    assert_eq!(sniff_content_type(b"GIF89a"), "image/gif");
    assert_eq!(sniff_content_type(b""), "image/jpeg");
    assert_eq!(sniff_content_type(b"RIFF\x00\x00\x00\x00WEB"), "image/jpeg");
}

/// A row without a cover advertises nothing, so a client draws the
/// placeholder instead of asking for a picture that does not exist.
#[test]
fn a_row_without_a_cover_advertises_no_artwork() {
    assert!(ref_for(ArtworkTarget::Track("t".to_string()), &CoverRef::Absent, 7).is_none());
    assert!(ref_for(ArtworkTarget::Track("t".to_string()), &parse_cover(""), 7).is_none());
    assert!(ref_for(ArtworkTarget::Album("al".to_string()), &album_cover(None), 7).is_none());
}

#[test]
fn a_cover_gets_a_ref_for_its_target_and_version() {
    let r = ref_for(
        ArtworkTarget::Album("al".to_string()),
        &album_cover(Some("/music/a.jpg")),
        42,
    )
    .expect("artwork");
    assert_eq!(r.target, ArtworkTarget::Album("al".to_string()));
    assert_eq!(r.version, 42);
}

#[test]
fn stored_cover_paths_read_as_urls_or_files() {
    assert_eq!(parse_cover(""), CoverRef::Absent);
    assert_eq!(
        parse_cover("https://p/x.jpg"),
        CoverRef::EmbeddedUrl("https://p/x.jpg".to_string())
    );
    assert_eq!(
        parse_cover("http://p/x.jpg"),
        CoverRef::EmbeddedUrl("http://p/x.jpg".to_string())
    );
    assert_eq!(
        parse_cover("/music/a.jpg"),
        CoverRef::Local("/music/a.jpg".to_string())
    );
}

/// The artist chain the grid depends on: an override wins, then the
/// source's photo, then an album cover -- but only for a library source.
#[test]
fn artist_art_falls_back_through_override_photo_then_album() {
    let album = "/music/band/cover.jpg";
    let photos = vec![(
        "band".to_string(),
        ArtistImageRef::Remote("https://p/band.jpg".to_string()),
    )];
    let images = ArtistImages { overrides: Vec::new(), photos: photos.clone() };
    assert_eq!(
        artist_cover("Band", &images, Some(album), true),
        CoverRef::EmbeddedUrl("https://p/band.jpg".to_string())
    );

    let images = ArtistImages {
        overrides: vec![("band".to_string(), "/pics/band.png".to_string())],
        photos,
    };
    assert_eq!(
        artist_cover("Band", &images, Some(album), true),
        CoverRef::Local("/pics/band.png".to_string())
    );

    let empty = ArtistImages { overrides: Vec::new(), photos: Vec::new() };
    assert_eq!(
        artist_cover("Band", &empty, Some(album), true),
        CoverRef::Local(album.to_string()),
        "a library artist may borrow an album cover"
    );
    assert_eq!(
        artist_cover("Band", &empty, Some(album), false),
        CoverRef::Absent,
        "a remote catalog never renders an album as the artist"
    );
}

#[test]
fn an_artist_name_is_matched_trimmed_and_lower_cased() {
    let images = ArtistImages {
        overrides: vec![("the band".to_string(), "/pics/b.png".to_string())],
        photos: Vec::new(),
    };
    assert_eq!(
        artist_cover("  The BAND ", &images, None, true),
        CoverRef::Local("/pics/b.png".to_string())
    );
    assert_eq!(artist_cover("Other", &images, None, true), CoverRef::Absent);
}

#[test]
fn cache_names_are_the_sha256_of_their_key() {
    let abc = "ba7816bf8f01cfea414140de5dae2223b00361a396177a9cb410ff61f20015ad";
    assert_eq!(hash_name("abc"), abc);
    assert_eq!(remote_cache_name("abc"), format!("remote_{abc}"));
    assert_eq!(local_cache_name("abc", true), format!("hq_{abc}.jpg"));
    assert_eq!(local_cache_name("abc", false), format!("thumb_{abc}.jpg"));
    assert_ne!(hash_name("abd"), abc);
    assert_eq!(hash_name("").len(), 64);
}

#[test]
fn remote_covers_are_held_to_the_size_limit() {
    assert!(remote_length_ok(None));
    assert!(remote_length_ok(Some(MAX_REMOTE_ARTWORK_BYTES as u64)));
    assert!(!remote_length_ok(Some(MAX_REMOTE_ARTWORK_BYTES as u64 + 1)));
    assert!(chunk_fits(MAX_REMOTE_ARTWORK_BYTES - 10, 10));
    assert!(!chunk_fits(MAX_REMOTE_ARTWORK_BYTES - 10, 11));
    assert!(!chunk_fits(usize::MAX, 1));
}

#[test]
fn a_strategy_id_reads_back_as_the_strategy() {
    for s in [
        FetchStrategy::MusicBrainzFirst,
        FetchStrategy::LastFmFirst,
        FetchStrategy::MusicBrainzOnly,
        FetchStrategy::LastFmOnly,
    ] {
        assert_eq!(strategy_from_id(strategy_id(s)), s);
    }
    assert_eq!(strategy_id(FetchStrategy::LastFmOnly), "lastfm_only");
    assert_eq!(strategy_from_id("nonsense"), FetchStrategy::MusicBrainzFirst);
}

#[test]
fn an_artist_key_is_looked_up_as_given() {
    let images = ArtistImages {
        overrides: vec![("the band".to_string(), "/pics/b.png".to_string())],
        photos: Vec::new(),
    };
    assert_eq!(
        artist_cover_by_key("the band", &images, None, true),
        CoverRef::Local("/pics/b.png".to_string())
    );
    assert_eq!(artist_cover_by_key("The BAND", &images, None, true), CoverRef::Absent);
    assert_eq!(
        artist_cover_by_key("nobody", &images, Some("/music/a/cover.jpg"), true),
        CoverRef::Local("/music/a/cover.jpg".to_string())
    );
}
