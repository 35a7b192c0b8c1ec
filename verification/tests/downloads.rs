use kopuz::config::{AppConfig, FetchStrategy, Source, YtdlpHistoryEntry, YtdlpOptions};
use kopuz::error::ErrorCode;
use kopuz::url_download::{
    check_start, clear_history, command_args, formats, history, parse_line, record_history,
    DownloadRun, Format, Line, Report, Request, HISTORY_LIMIT, OUTPUT_TEMPLATE,
};
use kopuz::url_download::{exit_outcome, work_folder};

fn quiet_options() -> YtdlpOptions {
    YtdlpOptions {
        embed_metadata: false,
        embed_thumbnail: false,
        embed_chapters: false,
        embed_subs: false,
        embed_info_json: false,
        write_thumbnail: false,
        write_description: false,
        write_info_json: false,
        write_subs: false,
        write_auto_subs: false,
        write_comments: false,
        sponsorblock: false,
        sponsorblock_mark: false,
        split_chapters: false,
        postprocess_thumbnail_square: false,
        no_playlist: false,
        xattrs: false,
        no_mtime: false,
        convert_thumbnail: String::new(),
        rate_limit: String::new(),
        cookies_from_browser: String::new(),
        js_runtimes: String::new(),
        audio_quality: 0,
    }
}

fn download_config() -> AppConfig {
    AppConfig {
        active_source: Source::Local,
        server: None,
        servers: Vec::new(),
        local_sources: Vec::new(),
        music_directory: Vec::new(),
        server_folders: Vec::new(),
        spotify_browser: None,
        spotify_prefer_active_device: false,
        auto_fetch_covers: true,
        cover_fetch_strategy: FetchStrategy::MusicBrainzFirst,
        ytdlp_output_dir: String::new(),
        ytdlp_options: quiet_options(),
        ytdlp_history: Vec::new(),
        offline_tracks: Vec::new(),
    }
}

/// The progress line is the only structured output yt-dlp gives, and it
/// is whitespace-formatted text -- worth pinning.
#[test]
fn a_download_progress_line_yields_a_percentage() {
    let line = "[download]  42.5% of 5.00MiB at 1.20MiB/s ETA 00:03";
    match parse_line(line).expect("a progress line") {
        Line::Progress { percent } => {
            let percent: f64 = percent.parse().expect("a number");
            assert!((percent - 42.5).abs() < f64::EPSILON)
        }
        other => panic!("expected progress, got {other:?}"),
    }
}

#[test]
fn destination_names_the_track_and_errors_are_failures() {
    match parse_line("[download] Destination: /music/Album/Artist - Song.opus") {
        Some(Line::Title(title)) => assert_eq!(title, "Artist - Song.opus"),
        other => panic!("expected a title, got {other:?}"),
    }
    assert!(matches!(
        parse_line("ERROR: Video unavailable"),
        Some(Line::Failed(_))
    ));
    assert!(parse_line("[youtube] Extracting URL").is_none());
}

#[test]
fn conversion_lines_read_as_processing() {
    assert_eq!(
        parse_line("[ExtractAudio] Destination: x.mp3").map(|l| matches!(l, Line::Title(_))),
        Some(true)
    );
    assert!(matches!(
        parse_line("[Merger] Merging formats into \"x.mp4\""),
        Some(Line::Processing)
    ));
}

/// History written before the rename stored the label, and those rows are
/// still on disk.
#[test]
fn a_stored_format_reads_back_as_an_option_id() {
    assert_eq!(Format::from_stored("Video (MP4)").id(), "video");
    assert_eq!(Format::from_stored("MP3").id(), "mp3");
    assert_eq!(Format::from_stored("flac").id(), "flac");
    assert_eq!(Format::from_stored("nonsense").id(), "best_audio");
}

#[test]
fn every_format_id_names_its_format() {
    for f in Format::all() {
        assert_eq!(Format::from_id(f.id()), Some(f));
        assert_eq!(Format::from_stored(f.id()), f);
    }
    assert_eq!(Format::from_id("nonsense"), None);
    assert_eq!(formats().len(), 6);
}

#[test]
fn a_download_needs_a_url_and_a_known_format() {
    let (url, format) = check_start("  https://x/y  ", "mp3").expect("starts");
    assert_eq!(url, "https://x/y");
    assert_eq!(format, Format::Mp3);
    let e = check_start("   ", "mp3").expect_err("no url");
    assert_eq!(e.code, ErrorCode::InvalidInput);
    assert_eq!(e.message, "a download needs a URL");
    let e = check_start("https://x/y", "mp5").expect_err("no format");
    assert_eq!(e.message, "no such download format");
}

#[test]
fn the_command_line_follows_the_request() {
    let mut config = download_config();
    config.ytdlp_output_dir = "/music".to_string();
    config.ytdlp_options.no_playlist = true;
    config.ytdlp_options.rate_limit = " 2M ".to_string();
    let request = Request::new("https://x/y".to_string(), Format::Flac, &config);
    let args = command_args(&request, Some("/usr/bin/ffmpeg"));
    let expected: Vec<String> = [
        "--ffmpeg-location",
        "/usr/bin/ffmpeg",
        "--newline",
        "--no-warnings",
        "-o",
        OUTPUT_TEMPLATE,
        "--paths",
        "/music",
        "-x",
        "--audio-format",
        "flac",
        "--audio-quality",
        "0",
        "--no-playlist",
        "--limit-rate",
        "2M",
        "https://x/y",
    ]
    .iter()
    .map(|s| s.to_string())
    .collect();
    assert_eq!(args, expected);

    let video = Request::new("u".to_string(), Format::Video, &download_config());
    let args = command_args(&video, None);
    assert!(!args.iter().any(|a| a == "--audio-quality"));
    assert_eq!(args.last().map(String::as_str), Some("u"));
}

#[test]
fn history_keeps_the_newest_fifty_first() {
    let mut config = download_config();
    for n in 0..(HISTORY_LIMIT + 5) {
        record_history(&mut config, &format!("u{n}"), "t", Format::Mp3, None);
    }
    assert_eq!(config.ytdlp_history.len(), HISTORY_LIMIT);
    assert_eq!(config.ytdlp_history[0].url, format!("u{}", HISTORY_LIMIT + 4));
    record_history(&mut config, "bad", "t", Format::Video, Some("boom".to_string()));
    let first: &YtdlpHistoryEntry = &config.ytdlp_history[0];
    assert_eq!(first.status, "failed");
    assert_eq!(first.format, "video");
    assert_eq!(first.error.as_deref(), Some("boom"));
    assert_eq!(history(&config).len(), HISTORY_LIMIT);
    clear_history(&mut config);
    assert!(config.ytdlp_history.is_empty());
}

#[test]
fn an_error_line_fails_a_clean_exit() {
    let mut run = DownloadRun::new("https://x/y");
    assert_eq!(run.title, "https://x/y");
    assert_eq!(run.observe(Line::Title("Song.opus".to_string())), Report::Downloading);
    assert_eq!(run.observe(Line::Processing), Report::Processing);
    assert_eq!(run.observe(Line::Failed("ERROR: x".to_string())), Report::Quiet);
    assert_eq!(run.title, "Song.opus");
    assert_eq!(run.finish(Ok(())), Err("ERROR: x".to_string()));
    let run = DownloadRun::new("u");
    assert_eq!(run.finish(Ok(())), Ok(()));
    let run = DownloadRun::new("u");
    assert_eq!(run.finish(Err("exit 1".to_string())), Err("exit 1".to_string()));
}

#[test]
fn a_failed_exit_is_explained_by_the_error_lines_first() {
    let none: Vec<String> = Vec::new();
    let lines = vec!["ERROR: one".to_string(), "ERROR: two".to_string()];
    assert_eq!(exit_outcome(Ok((true, "exit status: 0".to_string())), &lines), Ok(()));
    assert_eq!(
        exit_outcome(Ok((false, "exit status: 1".to_string())), &lines),
        Err("ERROR: one\nERROR: two".to_string())
    );
    assert_eq!(
        exit_outcome(Ok((false, "exit status: 1".to_string())), &none),
        Err("yt-dlp exited with exit status: 1".to_string())
    );
    assert_eq!(
        exit_outcome(Err("interrupted".to_string()), &none),
        Err("yt-dlp could not be waited on: interrupted".to_string())
    );
}

#[test]
fn yt_dlp_runs_in_the_output_folder_else_home() {
    assert_eq!(work_folder("/music/dl", Some("/home/ada")), "/music/dl");
    assert_eq!(work_folder("", Some("/home/ada")), "/home/ada");
    assert_eq!(work_folder("", None), ".");
}
