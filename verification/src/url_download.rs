//! Fetching a URL to a file, with yt-dlp.
//!
//! The download runs as an ordinary job, so progress arrives on the event
//! stream like every other long-running task, and errors are codes rather
//! than translated strings: the client owns the locale.
//!
//! The options are published as a field list too. A frontend picks a format
//! and renders the rows it is given; which yt-dlp flag each one turns into is
//! this module's business.

use vstd::prelude::*;
use vstd::seq_lib::lemma_concat_associative;
use crate::config::{AppConfig, YtdlpHistoryEntry, YtdlpHistoryEntryV, YtdlpOptions};
use crate::jobs::{DownloadHistoryEntry, DownloadHistoryEntryV, DownloadState};
use crate::error::{ApiError, ErrorCode};
use crate::schema::{
    answer_of, toggle_answer, toggle_of, value_of, ChoiceOption, ChoiceOptionV, FieldKind,
    FieldKindV, FieldSpec, FieldSpecV, FieldValue, FieldValueV, Text, TextV,
};
use crate::services::field_row;
use crate::text::{
    before_char, before_first, bool_text, bool_to_string, chars_of, contains_str, decimal,
    has_infix, has_prefix, last_word, last_word_of, owned, parse_usize, piece_after,
    piece_after_str, push_deep, append_deep, starts_with, str_eq, string_of, trim, trimmed, u64_to_string,
    unsigned_value, concat2, join, joined,
};

verus! {

// ---------------------------------------------------------------- keys

/// The one field that is not part of `ytdlp_options`.
pub const OUTPUT_DIR: &'static str = "output_dir";

/// The settings keys behind the published rows.
pub const OUTPUT_DIR_KEY: &'static str = "ytdlp_output_dir";
pub const OPTIONS_KEY: &'static str = "ytdlp_options";
pub const HISTORY_KEY: &'static str = "ytdlp_history";

/// How many finished downloads the history keeps.
pub const HISTORY_LIMIT: usize = 50;

// ---------------------------------------------------------------- formats

/// What a download is converted to.
#[derive(Debug, Clone, Copy, PartialEq, Eq, Structural)]
pub enum Format {
    BestAudio,
    Mp3,
    Flac,
    Opus,
    Wav,
    Video,
}

/// Every format, in the order a client offers them.
pub open spec fn all_formats() -> Seq<Format> {
    seq![Format::BestAudio, Format::Mp3, Format::Flac, Format::Opus, Format::Wav, Format::Video]
}

/// The id a format is asked for and stored under.
pub open spec fn format_id(f: Format) -> Seq<char> {
    match f {
        Format::BestAudio => "best_audio"@,
        Format::Mp3 => "mp3"@,
        Format::Flac => "flac"@,
        Format::Opus => "opus"@,
        Format::Wav => "wav"@,
        Format::Video => "video"@,
    }
}

/// The translation key a format is labelled by.
pub open spec fn format_label(f: Format) -> Seq<char> {
    match f {
        Format::BestAudio => "ytdlp_format_best_audio"@,
        Format::Mp3 => "ytdlp_format_mp3"@,
        Format::Flac => "ytdlp_format_flac"@,
        Format::Opus => "ytdlp_format_opus"@,
        Format::Wav => "ytdlp_format_wav"@,
        Format::Video => "ytdlp_format_video"@,
    }
}

/// The format an id names, if any.
pub open spec fn format_named(id: Seq<char>) -> Option<Format> {
    if id == "best_audio"@ {
        Some(Format::BestAudio)
    } else if id == "mp3"@ {
        Some(Format::Mp3)
    } else if id == "flac"@ {
        Some(Format::Flac)
    } else if id == "opus"@ {
        Some(Format::Opus)
    } else if id == "wav"@ {
        Some(Format::Wav)
    } else if id == "video"@ {
        Some(Format::Video)
    } else {
        None
    }
}

/// The format a history row names: rows written before formats had ids hold
/// the label, and anything unknown reads as the best audio.
pub open spec fn stored_format(stored: Seq<char>) -> Format {
    if stored == "MP3"@ {
        Format::Mp3
    } else if stored == "FLAC"@ {
        Format::Flac
    } else if stored == "OPUS"@ {
        Format::Opus
    } else if stored == "WAV"@ {
        Format::Wav
    } else if stored == "Video (MP4)"@ {
        Format::Video
    } else {
        match format_named(stored) {
            Some(f) => f,
            None => Format::BestAudio,
        }
    }
}

/// The yt-dlp arguments a format turns into.
pub open spec fn format_args(f: Format) -> Seq<Seq<char>> {
    match f {
        Format::BestAudio => seq!["-x"@, "--audio-quality"@, "0"@],
        Format::Mp3 => seq!["-x"@, "--audio-format"@, "mp3"@, "--audio-quality"@, "0"@],
        Format::Flac => seq!["-x"@, "--audio-format"@, "flac"@],
        Format::Opus => seq!["-x"@, "--audio-format"@, "opus"@],
        Format::Wav => seq!["-x"@, "--audio-format"@, "wav"@],
        Format::Video => seq!["-f"@, "bestvideo+bestaudio"@, "--merge-output-format"@, "mp4"@],
    }
}

/// Every format's id names it and no other.
pub proof fn format_id_round_trip(f: Format)
    ensures
        format_named(format_id(f)) == Some(f),
        stored_format(format_id(f)) == f,
{
    reveal_strlit("best_audio");
    reveal_strlit("mp3");
    reveal_strlit("flac");
    reveal_strlit("opus");
    reveal_strlit("wav");
    reveal_strlit("video");
    reveal_strlit("MP3");
    reveal_strlit("FLAC");
    reveal_strlit("OPUS");
    reveal_strlit("WAV");
    reveal_strlit("Video (MP4)");
    assert("mp3"@[0] != "MP3"@[0] && "mp3"@[0] != "WAV"@[0]);
    assert("flac"@[0] != "FLAC"@[0] && "flac"@[0] != "OPUS"@[0]);
    assert("opus"@[0] != "FLAC"@[0] && "opus"@[0] != "OPUS"@[0] && "opus"@[0] != "flac"@[0]);
    assert("wav"@[0] != "MP3"@[0] && "wav"@[0] != "WAV"@[0] && "wav"@[0] != "mp3"@[0]);
    let id = format_id(f);
    assert(id != "MP3"@ && id != "FLAC"@ && id != "OPUS"@ && id != "WAV"@ && id != "Video (MP4)"@)
        by {
        assert(id.len() != "Video (MP4)"@.len());
    }
    match f {
        Format::BestAudio => {},
        Format::Mp3 => assert(id != "best_audio"@),
        Format::Flac => assert(id != "best_audio"@ && id != "mp3"@),
        Format::Opus => assert(id != "best_audio"@ && id != "mp3"@ && id != "flac"@),
        Format::Wav => assert(id != "best_audio"@ && id != "mp3"@ && id != "flac"@ && id != "opus"@),
        Format::Video => assert(id != "best_audio"@ && id != "mp3"@ && id != "flac"@ && id
            != "opus"@ && id != "wav"@),
    }
}

impl Format {
    pub fn all() -> (r: Vec<Format>)
        ensures
            r@ == all_formats(),
    {
        let r = vec![
            Format::BestAudio,
            Format::Mp3,
            Format::Flac,
            Format::Opus,
            Format::Wav,
            Format::Video,
        ];
        assert(r@ =~= all_formats());
        r
    }

    pub fn id(self) -> (r: &'static str)
        ensures
            r@ == format_id(self),
    {
        match self {
            Format::BestAudio => "best_audio",
            Format::Mp3 => "mp3",
            Format::Flac => "flac",
            Format::Opus => "opus",
            Format::Wav => "wav",
            Format::Video => "video",
        }
    }

    pub fn label(self) -> (t: Text)
        ensures
            t.deep_view() == TextV::Key(format_label(self)),
    {
        Text::key(
            match self {
                Format::BestAudio => "ytdlp_format_best_audio",
                Format::Mp3 => "ytdlp_format_mp3",
                Format::Flac => "ytdlp_format_flac",
                Format::Opus => "ytdlp_format_opus",
                Format::Wav => "ytdlp_format_wav",
                Format::Video => "ytdlp_format_video",
            },
        )
    }

    pub fn from_id(id: &str) -> (r: Option<Format>)
        ensures
            r == format_named(id@),
    {
        if str_eq(id, "best_audio") {
            Some(Format::BestAudio)
        } else if str_eq(id, "mp3") {
            Some(Format::Mp3)
        } else if str_eq(id, "flac") {
            Some(Format::Flac)
        } else if str_eq(id, "opus") {
            Some(Format::Opus)
        } else if str_eq(id, "wav") {
            Some(Format::Wav)
        } else if str_eq(id, "video") {
            Some(Format::Video)
        } else {
            None
        }
    }

    /// A history row from before formats had ids stored the label instead, so
    /// those are read back as the format they named.
    pub fn from_stored(stored: &str) -> (r: Format)
        ensures
            r == stored_format(stored@),
    {
        if str_eq(stored, "MP3") {
            Format::Mp3
        } else if str_eq(stored, "FLAC") {
            Format::Flac
        } else if str_eq(stored, "OPUS") {
            Format::Opus
        } else if str_eq(stored, "WAV") {
            Format::Wav
        } else if str_eq(stored, "Video (MP4)") {
            Format::Video
        } else {
            match Format::from_id(stored) {
                Some(f) => f,
                None => Format::BestAudio,
            }
        }
    }

    pub fn args(self) -> (r: Vec<&'static str>)
        ensures
            r@.map_values(|a: &str| a@) == format_args(self),
    {
        let r = match self {
            Format::BestAudio => vec!["-x", "--audio-quality", "0"],
            Format::Mp3 => vec!["-x", "--audio-format", "mp3", "--audio-quality", "0"],
            Format::Flac => vec!["-x", "--audio-format", "flac"],
            Format::Opus => vec!["-x", "--audio-format", "opus"],
            Format::Wav => vec!["-x", "--audio-format", "wav"],
            Format::Video => vec!["-f", "bestvideo+bestaudio", "--merge-output-format", "mp4"],
        };
        assert(r@.map_values(|a: &str| a@) =~= format_args(self));
        r
    }
}

/// The formats a download can be asked for. Everything else about it comes
/// from the stored options.
pub fn formats() -> (r: Vec<ChoiceOption>)
    ensures
        r.deep_view() == all_formats().map_values(
            |f: Format| ChoiceOptionV { value: format_id(f), label: TextV::Key(format_label(f)) },
        ),
{
    let all = Format::all();
    let ghost want = all_formats().map_values(
        |f: Format| ChoiceOptionV { value: format_id(f), label: TextV::Key(format_label(f)) },
    );
    let mut r: Vec<ChoiceOption> = Vec::new();
    let mut i: usize = 0;
    while i < all.len()
        invariant
            i <= all.len(),
            all@ == all_formats(),
            want == all_formats().map_values(
                |f: Format| ChoiceOptionV { value: format_id(f), label: TextV::Key(format_label(f)) },
            ),
            r.deep_view() == want.take(i as int),
        decreases all.len() - i,
    {
        push_deep(&mut r, ChoiceOption { value: owned(all[i].id()), label: all[i].label() });
        assert(r.deep_view() =~= want.take(i + 1));
        i += 1;
    }
    assert(want.take(all.len() as int) =~= want);
    r
}

// ---------------------------------------------------------------- output lines

/// What one line of yt-dlp's output means. A percentage is kept as the text
/// yt-dlp printed; the one reading it as a number rounds it for display.
#[derive(Debug, Clone, PartialEq, Eq)]
pub enum Line {
    Progress { percent: String },
    Title(String),
    Processing,
    Failed(String),
}

pub enum LineV {
    Progress(Seq<char>),
    Title(Seq<char>),
    Processing,
    Failed(Seq<char>),
}

impl DeepView for Line {
    type V = LineV;

    open spec fn deep_view(&self) -> LineV {
        match self {
            Line::Progress { percent } => LineV::Progress(percent@),
            Line::Title(t) => LineV::Title(t@),
            Line::Processing => LineV::Processing,
            Line::Failed(m) => LineV::Failed(m@),
        }
    }
}

/// What a file name taken from `path` can be, on any platform: absent, or a
/// non-empty run of the path's text with no `/` in it.
pub open spec fn name_fits(path: Seq<char>, name: Option<Seq<char>>) -> bool {
    match name {
        Some(n) => n.len() > 0 && !n.contains('/') && has_infix(path, n),
        None => true,
    }
}

/// The text after the last `/` of a path: all of it where it has none.
pub open spec fn after_last_slash(p: Seq<char>) -> Seq<char>
    decreases p.len(),
{
    if p.len() == 0 || p.last() == '/' {
        Seq::empty()
    } else {
        after_last_slash(p.drop_last()).push(p.last())
    }
}

/// A path that every platform splits the same way: no `\`, no `:`, no
/// leading `//`, and a last component that is a plain name (not empty, `.`
/// or `..`). Its file name is the text after its last `/`.
pub open spec fn plain_path(p: Seq<char>) -> bool {
    &&& p.len() > 0
    &&& !p.contains('\\')
    &&& !p.contains(':')
    &&& !has_prefix(p, "//"@)
    &&& after_last_slash(p).len() > 0
    &&& after_last_slash(p) != "."@
    &&& after_last_slash(p) != ".."@
}

/// The path a `Destination:` line names.
pub open spec fn destination(t: Seq<char>) -> Seq<char> {
    trimmed(piece_after(t, "Destination:"@))
}

/// The title a destination gives: its file name, else the path itself.
pub open spec fn title_of(path: Seq<char>, name: Option<Seq<char>>) -> Seq<char> {
    match name {
        Some(n) => n,
        None => path,
    }
}

/// Whether a line reports post-processing.
pub open spec fn processing_line(t: Seq<char>) -> bool {
    has_infix(t, "[ExtractAudio]"@) || has_infix(t, "Deleting original"@) || has_infix(
        t,
        "[Merger]"@,
    ) || has_infix(t, "[ffmpeg]"@)
}

/// What a line means, given the file name its destination (if any) has.
pub open spec fn line_meaning(line: Seq<char>, name: Option<Seq<char>>) -> Option<LineV> {
    let t = trimmed(line);
    if has_prefix(t, "ERROR"@) || has_infix(t, "ERROR:"@) {
        Some(LineV::Failed(t))
    } else if has_prefix(t, "[download]"@) && has_infix(t, "%"@) && has_infix(t, "at"@) {
        Some(LineV::Progress(last_word(before_char(t, '%'))))
    } else if has_infix(t, "Destination:"@) && title_of(destination(t), name).len() > 0 {
        Some(LineV::Title(title_of(destination(t), name)))
    } else if processing_line(t) {
        Some(LineV::Processing)
    } else {
        None
    }
}

/// How a line of yt-dlp's output reads, whatever file name its destination
/// has. A line carrying `ERROR` first or `ERROR:` anywhere is a failure with
/// the trimmed line as its message; else a `[download]` line with a
/// percentage is progress; else a destination with a file name is titled by
/// that name. Otherwise, a line that is no progress
/// report and names no destination reports post-processing exactly when it
/// mentions audio extraction, deleting the original, merging or ffmpeg, and
/// means nothing else.
pub proof fn post_processing_lines_are_recognized(line: Seq<char>, name: Option<Seq<char>>)
    ensures
        ({
            let t = trimmed(line);
            let failed = has_prefix(t, "ERROR"@) || has_infix(t, "ERROR:"@);
            let progress = has_prefix(t, "[download]"@) && has_infix(t, "%"@) && has_infix(t, "at"@);
            let marked = has_infix(t, "[ExtractAudio]"@) || has_infix(t, "Deleting original"@)
                || has_infix(t, "[Merger]"@) || has_infix(t, "[ffmpeg]"@);
            &&& failed ==> line_meaning(line, name) == Some(LineV::Failed(t))
            &&& (!failed && progress ==> (line_meaning(line, name) matches Some(LineV::Progress(_))))
            &&& (!failed && !progress && has_infix(t, "Destination:"@) && name is Some
                && name->0.len() > 0 ==> line_meaning(line, name) == Some(LineV::Title(name->0)))
            &&& !failed && !progress && !has_infix(t, "Destination:"@) && marked ==> line_meaning(
                line,
                name,
            ) == Some(LineV::Processing)
            &&& !failed && !progress && !has_infix(t, "Destination:"@) && !marked ==> line_meaning(
                line,
                name,
            ) is None
        }),
{
}

/// `std::path::Path::file_name`, as text. Which characters separate path
/// components is the platform's, so of any path only what holds on every
/// platform is stated: a name is non-empty, holds no `/`, and is a run of
/// the path's text. Of a path every platform splits the same way, the name
/// is the text after its last `/`.
#[verifier::external_body]
pub(crate) fn path_file_name(path: &str) -> (r: Option<String>)
    ensures
        name_fits(path@, r.deep_view()),
        plain_path(path@) ==> r.deep_view() == Some(after_last_slash(path@)),
{
    std::path::Path::new(path).file_name().and_then(|name| name.to_str()).map(|name| name.to_string())
}

/// What one line of yt-dlp's output means, if anything.
pub fn parse_line(line: &str) -> (r: Option<Line>)
    ensures
        exists|name: Option<Seq<char>>|
            name_fits(destination(trimmed(line@)), name) && r.deep_view() == #[trigger] line_meaning(
                line@,
                name,
            ),
        plain_path(destination(trimmed(line@))) ==> r.deep_view() == line_meaning(
            line@,
            Some(after_last_slash(destination(trimmed(line@)))),
        ),
{
    let t = trim(line);
    let ghost tv = t@;
    let tc = chars_of(t.as_str());
    if starts_with(t.as_str(), "ERROR") || contains_str(t.as_str(), "ERROR:") {
        let r = Some(Line::Failed(t));
        assert(name_fits(destination(tv), None) && r.deep_view() == line_meaning(line@, None));
        return r;
    }
    if starts_with(t.as_str(), "[download]") && contains_str(t.as_str(), "%") && contains_str(
        t.as_str(),
        "at",
    ) {
        let before = before_first(tc.as_slice(), '%');
        let word = last_word_of(before.as_slice());
        let r = Some(Line::Progress { percent: string_of(word.as_slice()) });
        assert(name_fits(destination(tv), None) && r.deep_view() == line_meaning(line@, None));
        return r;
    }
    let mut seen: Option<String> = None;
    if contains_str(t.as_str(), "Destination:") {
        let piece = piece_after_str(tc.as_slice(), "Destination:");
        let piece = string_of(piece.as_slice());
        let path = trim(piece.as_str());
        let name = path_file_name(path.as_str());
        let title = match &name {
            Some(n) => n.clone(),
            None => path.clone(),
        };
        if !title.as_str().is_empty() {
            let r = Some(Line::Title(title));
            assert(name_fits(destination(tv), name.deep_view()) && r.deep_view() == line_meaning(
                line@,
                name.deep_view(),
            ));
            return r;
        }
        seen = name;
    }
    let r = if contains_str(t.as_str(), "[ExtractAudio]") || contains_str(
        t.as_str(),
        "Deleting original",
    ) || contains_str(t.as_str(), "[Merger]") || contains_str(t.as_str(), "[ffmpeg]") {
        Some(Line::Processing)
    } else {
        None
    };
    assert(name_fits(destination(tv), seen.deep_view()) && r.deep_view() == line_meaning(
        line@,
        seen.deep_view(),
    ));
    r
}

// ---------------------------------------------------------------- published options

/// One published option, named by its `YtdlpOptions` field and labelled by the
/// flag it becomes.
pub open spec fn option_row(
    key: Seq<char>,
    label: Seq<char>,
    flag: Seq<char>,
    kind: FieldKindV,
    value: Seq<char>,
) -> FieldSpecV {
    field_row(
        key,
        TextV::Key(label),
        Some(TextV::Literal(flag)),
        None,
        kind,
        false,
        Some(value),
        Some(OPTIONS_KEY@),
        None,
    )
}

/// A row labelled by the flag itself.
pub open spec fn flag_row(key: Seq<char>, flag: Seq<char>, kind: FieldKindV, value: Seq<char>) -> FieldSpecV {
    field_row(key, TextV::Literal(flag), None, None, kind, false, Some(value), Some(OPTIONS_KEY@), None)
}

pub open spec fn toggle_row(key: Seq<char>, label: Seq<char>, flag: Seq<char>, on: bool) -> FieldSpecV {
    option_row(key, label, flag, FieldKindV::Toggle, bool_text(on))
}

/// `f`, starting a titled group.
pub open spec fn opened(section: Seq<char>, f: FieldSpecV) -> FieldSpecV {
    FieldSpecV { section: Some(TextV::Key(section)), ..f }
}

/// `f` with a placeholder and help text.
pub open spec fn explained(f: FieldSpecV, placeholder: TextV, help: TextV) -> FieldSpecV {
    FieldSpecV { placeholder: Some(placeholder), help: Some(help), ..f }
}

pub open spec fn thumbnail_choices() -> Seq<ChoiceOptionV> {
    seq![
        ChoiceOptionV { value: ""@, label: TextV::Key("ytdlp_none"@) },
        ChoiceOptionV { value: "jpg"@, label: TextV::Literal("JPG"@) },
        ChoiceOptionV { value: "png"@, label: TextV::Literal("PNG"@) },
        ChoiceOptionV { value: "webp"@, label: TextV::Literal("WebP"@) },
    ]
}

pub open spec fn cookie_choices() -> Seq<ChoiceOptionV> {
    seq![
        ChoiceOptionV { value: ""@, label: TextV::Key("ytdlp_none"@) },
        ChoiceOptionV { value: "chrome"@, label: TextV::Literal("Chrome"@) },
        ChoiceOptionV { value: "firefox"@, label: TextV::Literal("Firefox"@) },
        ChoiceOptionV { value: "chromium"@, label: TextV::Literal("Chromium"@) },
        ChoiceOptionV { value: "edge"@, label: TextV::Literal("Edge"@) },
        ChoiceOptionV { value: "safari"@, label: TextV::Literal("Safari"@) },
        ChoiceOptionV { value: "brave"@, label: TextV::Literal("Brave"@) },
        ChoiceOptionV { value: "vivaldi"@, label: TextV::Literal("Vivaldi"@) },
    ]
}

/// yt-dlp's own scale: 0 is the best it can do, 10 the smallest file.
pub open spec fn quality_choices() -> Seq<ChoiceOptionV> {
    Seq::new(
        11,
        |i: int| ChoiceOptionV { value: decimal(i as nat), label: TextV::Literal(decimal(i as nat)) },
    )
}

pub open spec fn choice_kind(options: Seq<ChoiceOptionV>) -> FieldKindV {
    FieldKindV::Choice { options, custom: false }
}

/// The options a download embeds in the file.
pub open spec fn embed_rows(o: YtdlpOptions) -> Seq<FieldSpecV> {
    seq![
        opened(
            "ytdlp_section_embed"@,
            toggle_row("embed_metadata"@, "ytdlp_embed_metadata"@, "--embed-metadata"@, o.embed_metadata),
        ),
        toggle_row("embed_thumbnail"@, "ytdlp_embed_thumbnail"@, "--embed-thumbnail"@, o.embed_thumbnail),
        toggle_row("embed_chapters"@, "ytdlp_embed_chapters"@, "--embed-chapters"@, o.embed_chapters),
        toggle_row("embed_subs"@, "ytdlp_embed_subtitles"@, "--embed-subs"@, o.embed_subs),
        toggle_row("embed_info_json"@, "ytdlp_embed_info_json"@, "--embed-info-json"@, o.embed_info_json),
    ]
}

/// The files a download writes beside the media.
pub open spec fn write_rows(o: YtdlpOptions) -> Seq<FieldSpecV> {
    seq![
        opened(
            "ytdlp_section_write"@,
            toggle_row("write_thumbnail"@, "ytdlp_write_thumbnail"@, "--write-thumbnail"@, o.write_thumbnail),
        ),
        toggle_row("write_description"@, "ytdlp_write_description"@, "--write-description"@, o.write_description),
        toggle_row("write_info_json"@, "ytdlp_write_info_json"@, "--write-info-json"@, o.write_info_json),
        toggle_row("write_subs"@, "ytdlp_write_subtitles"@, "--write-subs"@, o.write_subs),
        toggle_row("write_auto_subs"@, "ytdlp_write_auto_subtitles"@, "--write-auto-subs"@, o.write_auto_subs),
        toggle_row("write_comments"@, "ytdlp_write_comments"@, "--write-comments"@, o.write_comments),
    ]
}

/// What happens to a download once it is fetched.
pub open spec fn postprocess_rows(o: YtdlpOptions) -> Seq<FieldSpecV> {
    seq![
        opened(
            "ytdlp_section_postprocess"@,
            toggle_row("sponsorblock"@, "ytdlp_remove_sponsors"@, "--sponsorblock-remove"@, o.sponsorblock),
        ),
        toggle_row("sponsorblock_mark"@, "ytdlp_mark_sponsors"@, "--sponsorblock-mark"@, o.sponsorblock_mark),
        toggle_row("split_chapters"@, "ytdlp_split_chapters"@, "--split-chapters"@, o.split_chapters),
        toggle_row(
            "postprocess_thumbnail_square"@,
            "ytdlp_crop_thumbnails"@,
            "--postprocessor-args"@,
            o.postprocess_thumbnail_square,
        ),
        flag_row("convert_thumbnail"@, "--convert-thumbnails"@, choice_kind(thumbnail_choices()), o.convert_thumbnail@),
        flag_row("audio_quality"@, "--audio-quality"@, choice_kind(quality_choices()), decimal(o.audio_quality as nat)),
    ]
}

/// How yt-dlp itself behaves.
pub open spec fn behavior_rows(o: YtdlpOptions) -> Seq<FieldSpecV> {
    seq![
        opened(
            "ytdlp_section_behavior"@,
            toggle_row("no_playlist"@, "ytdlp_single_video"@, "--no-playlist"@, o.no_playlist),
        ),
        toggle_row("xattrs"@, "ytdlp_write_xattrs"@, "--xattrs"@, o.xattrs),
        toggle_row("no_mtime"@, "ytdlp_no_mtime"@, "--no-mtime"@, o.no_mtime),
        explained(
            flag_row("rate_limit"@, "--limit-rate"@, FieldKindV::Text, o.rate_limit@),
            TextV::Key("ytdlp_unlimited"@),
            TextV::Literal("e.g. 1M, 500K"@),
        ),
        flag_row("cookies_from_browser"@, "--cookies-from-browser"@, choice_kind(cookie_choices()), o.cookies_from_browser@),
        explained(
            flag_row("js_runtimes"@, "--js-runtimes"@, FieldKindV::Text, o.js_runtimes@),
            TextV::Literal("deno, node, bun or quickjs[:/path]"@),
            TextV::Key("ytdlp_js_runtimes_tooltip"@),
        ),
    ]
}

/// The downloader's options, with what they currently hold.
pub open spec fn download_rows(output_dir: Seq<char>, o: YtdlpOptions) -> Seq<FieldSpecV> {
    seq![
        field_row(
            OUTPUT_DIR@,
            TextV::Key("ytdlp_output_dir_placeholder"@),
            None,
            None,
            FieldKindV::Directory,
            false,
            Some(output_dir),
            Some(OUTPUT_DIR_KEY@),
            None,
        ),
    ] + embed_rows(o) + write_rows(o) + postprocess_rows(o) + behavior_rows(o)
}

fn option_field(key: &str, label: &str, flag: &str, kind: FieldKind, value: String) -> (f: FieldSpec)
    ensures
        f.deep_view() == option_row(key@, label@, flag@, kind.deep_view(), value@),
{
    let mut f = FieldSpec::blank(key, Text::key(label), kind);
    f.help = Some(Text::literal(flag));
    f.value = Some(value);
    f.config_key = Some(owned(OPTIONS_KEY));
    f
}

/// The rows the page labels with the flag itself, having no wording of their
/// own to translate.
fn flag_field(key: &str, flag: &str, kind: FieldKind, value: String) -> (f: FieldSpec)
    ensures
        f.deep_view() == flag_row(key@, flag@, kind.deep_view(), value@),
{
    let mut f = FieldSpec::blank(key, Text::literal(flag), kind);
    f.value = Some(value);
    f.config_key = Some(owned(OPTIONS_KEY));
    f
}

fn toggle_field(key: &str, label: &str, flag: &str, on: bool) -> (f: FieldSpec)
    ensures
        f.deep_view() == toggle_row(key@, label@, flag@, on),
{
    option_field(key, label, flag, FieldKind::Toggle, bool_to_string(on))
}

/// Start a titled group before this row.
fn opens(section: &str, field: FieldSpec) -> (f: FieldSpec)
    ensures
        f.deep_view() == opened(section@, field.deep_view()),
{
    let mut field = field;
    field.section = Some(Text::key(section));
    field
}

fn choice(options: Vec<ChoiceOption>) -> (k: FieldKind)
    ensures
        k.deep_view() == choice_kind(options.deep_view()),
{
    FieldKind::Choice { options, custom: false }
}

fn thumbnail_formats() -> (k: FieldKind)
    ensures
        k.deep_view() == choice_kind(thumbnail_choices()),
{
    let mut o: Vec<ChoiceOption> = Vec::new();
    push_deep(&mut o, ChoiceOption { value: owned(""), label: Text::key("ytdlp_none") });
    push_deep(&mut o, ChoiceOption { value: owned("jpg"), label: Text::literal("JPG") });
    push_deep(&mut o, ChoiceOption { value: owned("png"), label: Text::literal("PNG") });
    push_deep(&mut o, ChoiceOption { value: owned("webp"), label: Text::literal("WebP") });
    assert(o.deep_view() =~= thumbnail_choices());
    choice(o)
}

fn cookie_browsers() -> (k: FieldKind)
    ensures
        k.deep_view() == choice_kind(cookie_choices()),
{
    let mut o: Vec<ChoiceOption> = Vec::new();
    push_deep(&mut o, ChoiceOption { value: owned(""), label: Text::key("ytdlp_none") });
    push_deep(&mut o, ChoiceOption { value: owned("chrome"), label: Text::literal("Chrome") });
    push_deep(&mut o, ChoiceOption { value: owned("firefox"), label: Text::literal("Firefox") });
    push_deep(&mut o, ChoiceOption { value: owned("chromium"), label: Text::literal("Chromium") });
    push_deep(&mut o, ChoiceOption { value: owned("edge"), label: Text::literal("Edge") });
    push_deep(&mut o, ChoiceOption { value: owned("safari"), label: Text::literal("Safari") });
    push_deep(&mut o, ChoiceOption { value: owned("brave"), label: Text::literal("Brave") });
    push_deep(&mut o, ChoiceOption { value: owned("vivaldi"), label: Text::literal("Vivaldi") });
    assert(o.deep_view() =~= cookie_choices());
    choice(o)
}

/// yt-dlp's own scale: 0 is the best it can do, 10 the smallest file.
fn audio_qualities() -> (k: FieldKind)
    ensures
        k.deep_view() == choice_kind(quality_choices()),
{
    let mut o: Vec<ChoiceOption> = Vec::new();
    let mut level: u64 = 0;
    while level <= 10
        invariant
            level <= 11,
            o.deep_view() == quality_choices().take(level as int),
        decreases 11 - level,
    {
        let text = u64_to_string(level);
        push_deep(&mut o, ChoiceOption { value: text.clone(), label: Text::Literal(text) });
        assert(o.deep_view() =~= quality_choices().take(level + 1));
        level += 1;
    }
    assert(quality_choices().take(11) =~= quality_choices());
    choice(o)
}

fn embed_fields(o: &YtdlpOptions) -> (r: Vec<FieldSpec>)
    ensures
        r.deep_view() == embed_rows(*o),
{
    let mut r: Vec<FieldSpec> = Vec::new();
    push_deep(&mut r, opens("ytdlp_section_embed", toggle_field("embed_metadata", "ytdlp_embed_metadata", "--embed-metadata", o.embed_metadata)));
    push_deep(&mut r, toggle_field("embed_thumbnail", "ytdlp_embed_thumbnail", "--embed-thumbnail", o.embed_thumbnail));
    push_deep(&mut r, toggle_field("embed_chapters", "ytdlp_embed_chapters", "--embed-chapters", o.embed_chapters));
    push_deep(&mut r, toggle_field("embed_subs", "ytdlp_embed_subtitles", "--embed-subs", o.embed_subs));
    push_deep(&mut r, toggle_field("embed_info_json", "ytdlp_embed_info_json", "--embed-info-json", o.embed_info_json));
    assert(r.deep_view() =~= embed_rows(*o));
    r
}

fn write_fields(o: &YtdlpOptions) -> (r: Vec<FieldSpec>)
    ensures
        r.deep_view() == write_rows(*o),
{
    let mut r: Vec<FieldSpec> = Vec::new();
    push_deep(&mut r, opens("ytdlp_section_write", toggle_field("write_thumbnail", "ytdlp_write_thumbnail", "--write-thumbnail", o.write_thumbnail)));
    push_deep(&mut r, toggle_field("write_description", "ytdlp_write_description", "--write-description", o.write_description));
    push_deep(&mut r, toggle_field("write_info_json", "ytdlp_write_info_json", "--write-info-json", o.write_info_json));
    push_deep(&mut r, toggle_field("write_subs", "ytdlp_write_subtitles", "--write-subs", o.write_subs));
    push_deep(&mut r, toggle_field("write_auto_subs", "ytdlp_write_auto_subtitles", "--write-auto-subs", o.write_auto_subs));
    push_deep(&mut r, toggle_field("write_comments", "ytdlp_write_comments", "--write-comments", o.write_comments));
    assert(r.deep_view() =~= write_rows(*o));
    r
}

fn postprocess_fields(o: &YtdlpOptions) -> (r: Vec<FieldSpec>)
    ensures
        r.deep_view() == postprocess_rows(*o),
{
    let mut r: Vec<FieldSpec> = Vec::new();
    push_deep(&mut r, opens("ytdlp_section_postprocess", toggle_field("sponsorblock", "ytdlp_remove_sponsors", "--sponsorblock-remove", o.sponsorblock)));
    push_deep(&mut r, toggle_field("sponsorblock_mark", "ytdlp_mark_sponsors", "--sponsorblock-mark", o.sponsorblock_mark));
    push_deep(&mut r, toggle_field("split_chapters", "ytdlp_split_chapters", "--split-chapters", o.split_chapters));
    push_deep(&mut r, toggle_field("postprocess_thumbnail_square", "ytdlp_crop_thumbnails", "--postprocessor-args", o.postprocess_thumbnail_square));
    push_deep(&mut r, flag_field("convert_thumbnail", "--convert-thumbnails", thumbnail_formats(), o.convert_thumbnail.clone()));
    push_deep(&mut r, flag_field("audio_quality", "--audio-quality", audio_qualities(), u64_to_string(o.audio_quality as u64)));
    assert(r.deep_view() =~= postprocess_rows(*o));
    r
}

fn behavior_fields(o: &YtdlpOptions) -> (r: Vec<FieldSpec>)
    ensures
        r.deep_view() == behavior_rows(*o),
{
    let mut r: Vec<FieldSpec> = Vec::new();
    push_deep(&mut r, opens("ytdlp_section_behavior", toggle_field("no_playlist", "ytdlp_single_video", "--no-playlist", o.no_playlist)));
    push_deep(&mut r, toggle_field("xattrs", "ytdlp_write_xattrs", "--xattrs", o.xattrs));
    push_deep(&mut r, toggle_field("no_mtime", "ytdlp_no_mtime", "--no-mtime", o.no_mtime));
    let mut rate = flag_field("rate_limit", "--limit-rate", FieldKind::Text, o.rate_limit.clone());
    rate.placeholder = Some(Text::key("ytdlp_unlimited"));
    rate.help = Some(Text::literal("e.g. 1M, 500K"));
    push_deep(&mut r, rate);
    push_deep(&mut r, flag_field("cookies_from_browser", "--cookies-from-browser", cookie_browsers(), o.cookies_from_browser.clone()));
    let mut js = flag_field("js_runtimes", "--js-runtimes", FieldKind::Text, o.js_runtimes.clone());
    js.placeholder = Some(Text::literal("deno, node, bun or quickjs[:/path]"));
    js.help = Some(Text::key("ytdlp_js_runtimes_tooltip"));
    push_deep(&mut r, js);
    assert(r.deep_view() =~= behavior_rows(*o));
    r
}

/// The downloader's options, with what they currently hold.
pub fn settings(config: &AppConfig) -> (r: Vec<FieldSpec>)
    ensures
        r.deep_view() == download_rows(config.ytdlp_output_dir@, config.ytdlp_options),
{
    let o = &config.ytdlp_options;
    let mut r: Vec<FieldSpec> = Vec::new();
    let mut dir = FieldSpec::blank(
        OUTPUT_DIR,
        Text::key("ytdlp_output_dir_placeholder"),
        FieldKind::Directory,
    );
    dir.value = Some(config.ytdlp_output_dir.clone());
    dir.config_key = Some(owned(OUTPUT_DIR_KEY));
    push_deep(&mut r, dir);
    append_deep(&mut r, embed_fields(o));
    append_deep(&mut r, write_fields(o));
    append_deep(&mut r, postprocess_fields(o));
    append_deep(&mut r, behavior_fields(o));
    r
}

// ---------------------------------------------------------------- answering the options

/// A text answer, or what was there.
pub open spec fn text_answer(values: Seq<FieldValueV>, key: Seq<char>, current: Seq<char>) -> Seq<char> {
    match answer_of(values, key) {
        Some(v) => v,
        None => current,
    }
}

/// What `u8::from_str` reads from a text, if it is a number that fits.
pub open spec fn u8_value(s: Seq<char>) -> Option<u8> {
    match unsigned_value(s) {
        Some(n) => if n <= 255 {
            Some(n as u8)
        } else {
            None
        },
        None => None,
    }
}

/// The audio quality an answer sets, or what was there.
pub open spec fn quality_answer(values: Seq<FieldValueV>, current: u8) -> u8 {
    match answer_of(values, "audio_quality"@) {
        Some(v) => match u8_value(v) {
            Some(q) => q,
            None => current,
        },
        None => current,
    }
}

/// `new` is `old` with every answered option folded in; an absent key, or a
/// quality that is not a number, leaves its option alone.
pub open spec fn options_answered(values: Seq<FieldValueV>, old: YtdlpOptions, new: YtdlpOptions) -> bool {
    &&& new.embed_metadata == toggle_answer(values, "embed_metadata"@, old.embed_metadata)
    &&& new.embed_thumbnail == toggle_answer(values, "embed_thumbnail"@, old.embed_thumbnail)
    &&& new.embed_chapters == toggle_answer(values, "embed_chapters"@, old.embed_chapters)
    &&& new.embed_subs == toggle_answer(values, "embed_subs"@, old.embed_subs)
    &&& new.embed_info_json == toggle_answer(values, "embed_info_json"@, old.embed_info_json)
    &&& new.write_thumbnail == toggle_answer(values, "write_thumbnail"@, old.write_thumbnail)
    &&& new.write_description == toggle_answer(values, "write_description"@, old.write_description)
    &&& new.write_info_json == toggle_answer(values, "write_info_json"@, old.write_info_json)
    &&& new.write_subs == toggle_answer(values, "write_subs"@, old.write_subs)
    &&& new.write_auto_subs == toggle_answer(values, "write_auto_subs"@, old.write_auto_subs)
    &&& new.write_comments == toggle_answer(values, "write_comments"@, old.write_comments)
    &&& new.sponsorblock == toggle_answer(values, "sponsorblock"@, old.sponsorblock)
    &&& new.sponsorblock_mark == toggle_answer(values, "sponsorblock_mark"@, old.sponsorblock_mark)
    &&& new.split_chapters == toggle_answer(values, "split_chapters"@, old.split_chapters)
    &&& new.postprocess_thumbnail_square == toggle_answer(
        values,
        "postprocess_thumbnail_square"@,
        old.postprocess_thumbnail_square,
    )
    &&& new.no_playlist == toggle_answer(values, "no_playlist"@, old.no_playlist)
    &&& new.xattrs == toggle_answer(values, "xattrs"@, old.xattrs)
    &&& new.no_mtime == toggle_answer(values, "no_mtime"@, old.no_mtime)
    &&& new.convert_thumbnail@ == text_answer(values, "convert_thumbnail"@, old.convert_thumbnail@)
    &&& new.rate_limit@ == text_answer(values, "rate_limit"@, old.rate_limit@)
    &&& new.cookies_from_browser@ == text_answer(values, "cookies_from_browser"@, old.cookies_from_browser@)
    &&& new.js_runtimes@ == text_answer(values, "js_runtimes"@, old.js_runtimes@)
    &&& new.audio_quality == quality_answer(values, old.audio_quality)
}

/// `u8::from_str`.
fn parse_u8(s: &str) -> (r: Option<u8>)
    ensures
        r == u8_value(s@),
{
    match parse_usize(s) {
        Some(n) => if n <= 255 {
            Some(n as u8)
        } else {
            None
        },
        None => None,
    }
}

fn text_of(values: &[FieldValue], key: &str, current: &String) -> (r: String)
    ensures
        r@ == text_answer(values.deep_view(), key@, current@),
{
    match value_of(values, key) {
        Some(value) => owned(value),
        None => current.clone(),
    }
}

fn quality_of(values: &[FieldValue], current: u8) -> (r: u8)
    ensures
        r == quality_answer(values.deep_view(), current),
{
    match value_of(values, "audio_quality") {
        Some(value) => match parse_u8(value) {
            Some(quality) => quality,
            None => current,
        },
        None => current,
    }
}

/// Fold answered options into the stored ones.
pub fn apply_options(values: &[FieldValue], options: &mut YtdlpOptions)
    ensures
        options_answered(values.deep_view(), *old(options), *final(options)),
{
    let o = &*options;
    let updated = YtdlpOptions {
        embed_metadata: toggle_of(values, "embed_metadata", o.embed_metadata),
        embed_thumbnail: toggle_of(values, "embed_thumbnail", o.embed_thumbnail),
        embed_chapters: toggle_of(values, "embed_chapters", o.embed_chapters),
        embed_subs: toggle_of(values, "embed_subs", o.embed_subs),
        embed_info_json: toggle_of(values, "embed_info_json", o.embed_info_json),
        write_thumbnail: toggle_of(values, "write_thumbnail", o.write_thumbnail),
        write_description: toggle_of(values, "write_description", o.write_description),
        write_info_json: toggle_of(values, "write_info_json", o.write_info_json),
        write_subs: toggle_of(values, "write_subs", o.write_subs),
        write_auto_subs: toggle_of(values, "write_auto_subs", o.write_auto_subs),
        write_comments: toggle_of(values, "write_comments", o.write_comments),
        sponsorblock: toggle_of(values, "sponsorblock", o.sponsorblock),
        sponsorblock_mark: toggle_of(values, "sponsorblock_mark", o.sponsorblock_mark),
        split_chapters: toggle_of(values, "split_chapters", o.split_chapters),
        postprocess_thumbnail_square: toggle_of(
            values,
            "postprocess_thumbnail_square",
            o.postprocess_thumbnail_square,
        ),
        no_playlist: toggle_of(values, "no_playlist", o.no_playlist),
        xattrs: toggle_of(values, "xattrs", o.xattrs),
        no_mtime: toggle_of(values, "no_mtime", o.no_mtime),
        convert_thumbnail: text_of(values, "convert_thumbnail", &o.convert_thumbnail),
        rate_limit: text_of(values, "rate_limit", &o.rate_limit),
        cookies_from_browser: text_of(values, "cookies_from_browser", &o.cookies_from_browser),
        js_runtimes: text_of(values, "js_runtimes", &o.js_runtimes),
        audio_quality: quality_of(values, o.audio_quality),
    };
    *options = updated;
}

/// Whether any answer is for an option rather than the output folder.
pub open spec fn answers_an_option(values: Seq<FieldValueV>) -> bool {
    exists|i: int| 0 <= i < values.len() && values[i].key != OUTPUT_DIR@
}

/// The settings keys an answer list writes: the folder's own key, and the
/// one key every other row belongs to.
pub open spec fn written_settings_keys(values: Seq<FieldValueV>) -> Seq<Seq<char>> {
    (if answer_of(values, OUTPUT_DIR@) is Some {
        seq![OUTPUT_DIR_KEY@]
    } else {
        Seq::empty()
    }) + (if answers_an_option(values) {
        seq![OPTIONS_KEY@]
    } else {
        Seq::empty()
    })
}

/// The settings keys answering these values writes, which a lock may refuse.
pub fn settings_keys(values: &[FieldValue]) -> (r: Vec<&'static str>)
    ensures
        r@.map_values(|k: &str| k@) == written_settings_keys(values.deep_view()),
{
    let mut keys: Vec<&'static str> = Vec::new();
    if value_of(values, OUTPUT_DIR).is_some() {
        keys.push(OUTPUT_DIR_KEY);
    }
    let mut i: usize = 0;
    let mut other = false;
    while i < values.len()
        invariant
            i <= values.len(),
            other == exists|j: int| 0 <= j < i && values.deep_view()[j].key != OUTPUT_DIR@,
        decreases values.len() - i,
    {
        assert(values.deep_view()[i as int] == values[i as int].deep_view());
        if !str_eq(values[i].key.as_str(), OUTPUT_DIR) {
            other = true;
        }
        i += 1;
    }
    if other {
        keys.push(OPTIONS_KEY);
    }
    assert(keys@.map_values(|k: &str| k@) =~= written_settings_keys(values.deep_view()));
    keys
}

/// Answer the published options in the settings: the folder is trimmed, every
/// other row is a field of the options. Nothing else changes.
pub fn apply_settings(values: &[FieldValue], config: &mut AppConfig)
    ensures
        *final(config) == (AppConfig {
            ytdlp_output_dir: final(config).ytdlp_output_dir,
            ytdlp_options: final(config).ytdlp_options,
            ..*old(config)
        }),
        final(config).ytdlp_output_dir@ == match answer_of(values.deep_view(), OUTPUT_DIR@) {
            Some(d) => trimmed(d),
            None => old(config).ytdlp_output_dir@,
        },
        options_answered(values.deep_view(), old(config).ytdlp_options, final(config).ytdlp_options),
{
    if let Some(dir) = value_of(values, OUTPUT_DIR) {
        config.ytdlp_output_dir = trim(dir);
    }
    apply_options(values, &mut config.ytdlp_options);
}

// ---------------------------------------------------------------- history

/// A stored history row, as the downloader page lists it.
pub open spec fn listed_entry(e: YtdlpHistoryEntryV) -> DownloadHistoryEntryV {
    DownloadHistoryEntryV {
        url: e.url,
        title: e.title,
        format: format_id(stored_format(e.format)),
        state: if e.status == "completed"@ {
            DownloadState::Finished
        } else {
            DownloadState::Failed
        },
        error: e.error,
    }
}

/// The remembered downloads, newest first.
pub fn history(config: &AppConfig) -> (r: Vec<DownloadHistoryEntry>)
    ensures
        r.deep_view() == config.ytdlp_history.deep_view().map_values(
            |e: YtdlpHistoryEntryV| listed_entry(e),
        ),
{
    let rows = &config.ytdlp_history;
    let ghost want = rows.deep_view().map_values(|e: YtdlpHistoryEntryV| listed_entry(e));
    let mut r: Vec<DownloadHistoryEntry> = Vec::new();
    let mut i: usize = 0;
    while i < rows.len()
        invariant
            i <= rows.len(),
            want == rows.deep_view().map_values(|e: YtdlpHistoryEntryV| listed_entry(e)),
            r.deep_view() == want.take(i as int),
        decreases rows.len() - i,
    {
        let entry = &rows[i];
        assert(rows.deep_view()[i as int] == entry.deep_view());
        push_deep(
            &mut r,
            DownloadHistoryEntry {
                url: entry.url.clone(),
                title: entry.title.clone(),
                format: owned(Format::from_stored(entry.format.as_str()).id()),
                state: if str_eq(entry.status.as_str(), "completed") {
                    DownloadState::Finished
                } else {
                    DownloadState::Failed
                },
                error: match &entry.error {
                    Some(e) => Some(e.clone()),
                    None => None,
                },
            },
        );
        assert(r.deep_view() =~= want.take(i + 1));
        i += 1;
    }
    assert(want.take(rows.len() as int) =~= want);
    r
}

/// The row a finished download is remembered by.
pub open spec fn history_row(
    url: Seq<char>,
    title: Seq<char>,
    format: Format,
    error: Option<Seq<char>>,
) -> YtdlpHistoryEntryV {
    YtdlpHistoryEntryV {
        url,
        title,
        format: format_id(format),
        status: if error is Some {
            "failed"@
        } else {
            "completed"@
        },
        error,
    }
}

/// The history after one more download: it goes first, and only the newest
/// rows up to the limit are kept.
pub open spec fn history_after(
    rows: Seq<YtdlpHistoryEntryV>,
    row: YtdlpHistoryEntryV,
) -> Seq<YtdlpHistoryEntryV> {
    let all = seq![row] + rows;
    if all.len() > HISTORY_LIMIT {
        all.take(HISTORY_LIMIT as int)
    } else {
        all
    }
}

/// Downloads are remembered so the page can show what happened after a
/// restart, which is why this is config rather than a job list.
pub fn record_history(
    config: &mut AppConfig,
    url: &str,
    title: &str,
    format: Format,
    error: Option<String>,
)
    ensures
        *final(config) == (AppConfig { ytdlp_history: final(config).ytdlp_history, ..*old(config) }),
        final(config).ytdlp_history.deep_view() == history_after(
            old(config).ytdlp_history.deep_view(),
            history_row(url@, title@, format, error.deep_view()),
        ),
{
    let entry = YtdlpHistoryEntry {
        url: owned(url),
        title: owned(title),
        format: owned(format.id()),
        status: if error.is_some() {
            owned("failed")
        } else {
            owned("completed")
        },
        error,
    };
    let ghost row = entry.deep_view();
    let ghost before = config.ytdlp_history.deep_view();
    if config.ytdlp_history.len() == usize::MAX {
        config.ytdlp_history.truncate(HISTORY_LIMIT - 1);
    }
    let ghost kept = config.ytdlp_history.deep_view();
    config.ytdlp_history.insert(0, entry);
    assert(config.ytdlp_history.deep_view() =~= seq![row] + kept);
    config.ytdlp_history.truncate(HISTORY_LIMIT);
    assert(config.ytdlp_history.deep_view() =~= history_after(before, row));
}

/// Forget every remembered download.
pub fn clear_history(config: &mut AppConfig)
    ensures
        *final(config) == (AppConfig { ytdlp_history: final(config).ytdlp_history, ..*old(config) }),
        final(config).ytdlp_history@.len() == 0,
{
    config.ytdlp_history.clear();
}

// ---------------------------------------------------------------- starting one

/// Why a download request is refused before anything runs: a blank URL, or a
/// format no one offered. `None` where it can start.
pub open spec fn start_refusal(url: Seq<char>, format: Seq<char>) -> Option<Seq<char>> {
    if trimmed(url).len() == 0 {
        Some("a download needs a URL"@)
    } else if format_named(format) is None {
        Some("no such download format"@)
    } else {
        None
    }
}

/// Check what a caller asked for: the URL, trimmed, and the format it names.
pub fn check_start(url: &str, format: &str) -> (r: Result<(String, Format), ApiError>)
    ensures
        match r {
            Ok((u, f)) => start_refusal(url@, format@) is None && u@ == trimmed(url@) && Some(f)
                == format_named(format@),
            Err(e) => e.code == ErrorCode::InvalidInput && start_refusal(url@, format@) == Some(
                e.message@,
            ),
        },
{
    let url = trim(url);
    if url.as_str().is_empty() {
        return Err(ApiError::invalid_input("a download needs a URL"));
    }
    match Format::from_id(format) {
        Some(f) => Ok((url, f)),
        None => Err(ApiError::invalid_input("no such download format")),
    }
}

/// What one download was asked for, resolved from the caller's format and the
/// stored options.
pub struct Request {
    pub url: String,
    pub output_dir: String,
    pub format: Format,
    pub options: YtdlpOptions,
}

impl Request {
    /// A request for `url` in `format`, with the folder and options the
    /// settings hold.
    pub fn new(url: String, format: Format, config: &AppConfig) -> (r: Request)
        ensures
            r.url == url,
            r.format == format,
            r.output_dir@ == config.ytdlp_output_dir@,
            r.options == config.ytdlp_options,
    {
        Request {
            url,
            output_dir: config.ytdlp_output_dir.clone(),
            format,
            options: config.ytdlp_options.duplicate(),
        }
    }
}

/// Where yt-dlp names each file.
pub const OUTPUT_TEMPLATE: &'static str = "%(album,playlist_title,title)s/%(uploader)s - %(title)s.%(ext)s";

/// The crop the square-thumbnail option hands ffmpeg.
pub const SQUARE_CROP: &'static str = "ThumbnailsConvertor+FFmpeg_o:-c:v png -vf crop=\"'if(gt(ih,iw),iw,ih)':'if(gt(iw,ih),ih,iw)'\"";

/// The sponsor segments SponsorBlock acts on.
pub const SPONSOR_CATEGORIES: &'static str = "sponsor,selfpromo,interaction";

/// `args` where `on` holds, else nothing.
pub open spec fn args_if(on: bool, args: Seq<Seq<char>>) -> Seq<Seq<char>> {
    if on {
        args
    } else {
        Seq::empty()
    }
}

/// The flags of `pairs` that are switched on, in order.
pub open spec fn flags_on(pairs: Seq<(bool, Seq<char>)>) -> Seq<Seq<char>>
    decreases pairs.len(),
{
    if pairs.len() == 0 {
        Seq::empty()
    } else {
        flags_on(pairs.drop_last()) + args_if(pairs.last().0, seq![pairs.last().1])
    }
}

/// Each plain switch and the flag it turns into.
pub open spec fn switch_pairs(o: YtdlpOptions) -> Seq<(bool, Seq<char>)> {
    seq![
        (o.embed_metadata, "--embed-metadata"@),
        (o.embed_thumbnail, "--embed-thumbnail"@),
        (o.embed_chapters, "--embed-chapters"@),
        (o.embed_subs, "--embed-subs"@),
        (o.embed_info_json, "--embed-info-json"@),
        (o.write_thumbnail, "--write-thumbnail"@),
        (o.write_description, "--write-description"@),
        (o.write_info_json, "--write-info-json"@),
        (o.write_subs, "--write-subs"@),
        (o.write_auto_subs, "--write-auto-subs"@),
        (o.write_comments, "--write-comments"@),
        (o.split_chapters, "--split-chapters"@),
        (o.no_playlist, "--no-playlist"@),
        (o.xattrs, "--xattrs"@),
        (o.no_mtime, "--no-mtime"@),
    ]
}

/// The flags the plain switches turn into.
pub open spec fn switch_args(o: YtdlpOptions) -> Seq<Seq<char>> {
    flags_on(switch_pairs(o))
}

/// The flags the valued options turn into.
pub open spec fn valued_args(o: YtdlpOptions) -> Seq<Seq<char>> {
    args_if(o.sponsorblock, seq!["--sponsorblock-remove"@, SPONSOR_CATEGORIES@]) + args_if(
        o.sponsorblock_mark,
        seq!["--sponsorblock-mark"@, SPONSOR_CATEGORIES@],
    ) + (if o.postprocess_thumbnail_square {
        seq!["--convert-thumbnails"@, "png"@, "--postprocessor-args"@, SQUARE_CROP@]
    } else {
        args_if(o.convert_thumbnail@.len() > 0, seq!["--convert-thumbnails"@, o.convert_thumbnail@])
    }) + args_if(
        trimmed(o.rate_limit@).len() > 0,
        seq!["--limit-rate"@, trimmed(o.rate_limit@)],
    ) + args_if(
        o.cookies_from_browser@.len() > 0,
        seq!["--cookies-from-browser"@, o.cookies_from_browser@],
    ) + args_if(
        trimmed(o.js_runtimes@).len() > 0,
        seq!["--js-runtimes"@, trimmed(o.js_runtimes@)],
    )
}

/// Everything yt-dlp is run with for a request, after the program itself;
/// `ffmpeg` is where ffmpeg was found, if it was.
pub open spec fn command_line(
    url: Seq<char>,
    output_dir: Seq<char>,
    format: Format,
    o: YtdlpOptions,
    ffmpeg: Option<Seq<char>>,
) -> Seq<Seq<char>> {
    (match ffmpeg {
        Some(f) => seq!["--ffmpeg-location"@, f],
        None => Seq::empty(),
    }) + seq!["--newline"@, "--no-warnings"@, "-o"@, OUTPUT_TEMPLATE@] + args_if(
        output_dir.len() > 0,
        seq!["--paths"@, output_dir],
    ) + format_args(format) + args_if(
        format != Format::Video,
        seq!["--audio-quality"@, decimal(o.audio_quality as nat)],
    ) + switch_args(o) + valued_args(o) + seq![url]
}

/// Appends `items`, as strings.
fn push_all(args: &mut Vec<String>, items: &Vec<&str>)
    ensures
        final(args).deep_view() == old(args).deep_view() + items@.map_values(|a: &str| a@),
{
    let ghost start = args.deep_view();
    let mut i: usize = 0;
    while i < items.len()
        invariant
            i <= items.len(),
            args.deep_view() == start + items@.map_values(|a: &str| a@).take(i as int),
        decreases items.len() - i,
    {
        push_deep(args, owned(items[i]));
        assert(args.deep_view() =~= start + items@.map_values(|a: &str| a@).take(i + 1));
        i += 1;
    }
    assert(items@.map_values(|a: &str| a@).take(items.len() as int) =~= items@.map_values(
        |a: &str| a@,
    ));
}

/// Appends `flag` where `on` holds.
fn push_if(args: &mut Vec<String>, on: bool, flag: &str)
    ensures
        final(args).deep_view() == old(args).deep_view() + args_if(on, seq![flag@]),
{
    if on {
        push_deep(args, owned(flag));
    }
    assert(args.deep_view() =~= old(args).deep_view() + args_if(on, seq![flag@]));
}

/// Appends `flag` and its value where `on` holds.
fn push_pair_if(args: &mut Vec<String>, on: bool, flag: &str, value: String)
    ensures
        final(args).deep_view() == old(args).deep_view() + args_if(on, seq![flag@, value@]),
{
    if on {
        push_deep(args, owned(flag));
        push_deep(args, value);
    }
    assert(args.deep_view() =~= old(args).deep_view() + args_if(on, seq![flag@, value@]));
}

fn switches(o: &YtdlpOptions, args: &mut Vec<String>)
    ensures
        final(args).deep_view() == old(args).deep_view() + switch_args(*o),
{
    let ghost start = args.deep_view();
    let pairs: Vec<(bool, &str)> = vec![
        (o.embed_metadata, "--embed-metadata"),
        (o.embed_thumbnail, "--embed-thumbnail"),
        (o.embed_chapters, "--embed-chapters"),
        (o.embed_subs, "--embed-subs"),
        (o.embed_info_json, "--embed-info-json"),
        (o.write_thumbnail, "--write-thumbnail"),
        (o.write_description, "--write-description"),
        (o.write_info_json, "--write-info-json"),
        (o.write_subs, "--write-subs"),
        (o.write_auto_subs, "--write-auto-subs"),
        (o.write_comments, "--write-comments"),
        (o.split_chapters, "--split-chapters"),
        (o.no_playlist, "--no-playlist"),
        (o.xattrs, "--xattrs"),
        (o.no_mtime, "--no-mtime"),
    ];
    let ghost want = switch_pairs(*o);
    assert(pairs@.map_values(|p: (bool, &str)| (p.0, p.1@)) =~= want);
    let mut i: usize = 0;
    assert(want.take(0) =~= Seq::<(bool, Seq<char>)>::empty());
    assert(args.deep_view() =~= start + flags_on(want.take(0)));
    while i < pairs.len()
        invariant
            i <= pairs.len(),
            pairs@.map_values(|p: (bool, &str)| (p.0, p.1@)) == want,
            args.deep_view() == start + flags_on(want.take(i as int)),
        decreases pairs.len() - i,
    {
        let (on, flag) = pairs[i];
        let ghost before = args.deep_view();
        assert(want[i as int] == (on, flag@));
        push_if(args, on, flag);
        assert(want.take(i + 1).drop_last() =~= want.take(i as int));
        assert(args.deep_view() =~= start + flags_on(want.take(i + 1)));
        i += 1;
    }
    assert(want.take(pairs.len() as int) =~= want);
}

fn thumbnail_args(o: &YtdlpOptions, args: &mut Vec<String>)
    ensures
        final(args).deep_view() == old(args).deep_view() + (if o.postprocess_thumbnail_square {
            seq!["--convert-thumbnails"@, "png"@, "--postprocessor-args"@, SQUARE_CROP@]
        } else {
            args_if(o.convert_thumbnail@.len() > 0, seq!["--convert-thumbnails"@, o.convert_thumbnail@])
        }),
{
    if o.postprocess_thumbnail_square {
        push_deep(args, owned("--convert-thumbnails"));
        push_deep(args, owned("png"));
        push_deep(args, owned("--postprocessor-args"));
        push_deep(args, owned(SQUARE_CROP));
        assert(args.deep_view() =~= old(args).deep_view() + seq![
            "--convert-thumbnails"@,
            "png"@,
            "--postprocessor-args"@,
            SQUARE_CROP@,
        ]);
    } else {
        push_pair_if(
            args,
            !o.convert_thumbnail.as_str().is_empty(),
            "--convert-thumbnails",
            o.convert_thumbnail.clone(),
        );
    }
}

fn valued(o: &YtdlpOptions, args: &mut Vec<String>)
    ensures
        final(args).deep_view() == old(args).deep_view() + valued_args(*o),
{
    let ghost start = args.deep_view();
    let ghost p1 = args_if(o.sponsorblock, seq!["--sponsorblock-remove"@, SPONSOR_CATEGORIES@]);
    let ghost p2 = args_if(o.sponsorblock_mark, seq!["--sponsorblock-mark"@, SPONSOR_CATEGORIES@]);
    let ghost p3 = if o.postprocess_thumbnail_square {
        seq!["--convert-thumbnails"@, "png"@, "--postprocessor-args"@, SQUARE_CROP@]
    } else {
        args_if(o.convert_thumbnail@.len() > 0, seq!["--convert-thumbnails"@, o.convert_thumbnail@])
    };
    let ghost p4 = args_if(trimmed(o.rate_limit@).len() > 0, seq!["--limit-rate"@, trimmed(o.rate_limit@)]);
    let ghost p5 = args_if(o.cookies_from_browser@.len() > 0, seq!["--cookies-from-browser"@, o.cookies_from_browser@]);
    let ghost p6 = args_if(trimmed(o.js_runtimes@).len() > 0, seq!["--js-runtimes"@, trimmed(o.js_runtimes@)]);
    push_pair_if(args, o.sponsorblock, "--sponsorblock-remove", owned(SPONSOR_CATEGORIES));
    push_pair_if(args, o.sponsorblock_mark, "--sponsorblock-mark", owned(SPONSOR_CATEGORIES));
    proof {
        lemma_concat_associative(start, p1, p2);
    }
    thumbnail_args(o, args);
    proof {
        lemma_concat_associative(start, p1 + p2, p3);
    }
    let rate = trim(o.rate_limit.as_str());
    push_pair_if(args, !rate.as_str().is_empty(), "--limit-rate", rate);
    proof {
        lemma_concat_associative(start, p1 + p2 + p3, p4);
    }
    push_pair_if(
        args,
        !o.cookies_from_browser.as_str().is_empty(),
        "--cookies-from-browser",
        o.cookies_from_browser.clone(),
    );
    proof {
        lemma_concat_associative(start, p1 + p2 + p3 + p4, p5);
    }
    let js = trim(o.js_runtimes.as_str());
    push_pair_if(args, !js.as_str().is_empty(), "--js-runtimes", js);
    proof {
        lemma_concat_associative(start, p1 + p2 + p3 + p4 + p5, p6);
    }
}

/// Everything yt-dlp is run with, after the program itself. The process, its
/// PATH and its working folder are the caller's.
pub fn command_args(request: &Request, ffmpeg: Option<&str>) -> (r: Vec<String>)
    ensures
        r.deep_view() == command_line(
            request.url@,
            request.output_dir@,
            request.format,
            request.options,
            match ffmpeg {
                Some(f) => Some(f@),
                None => None,
            },
        ),
{
    let o = &request.options;
    let ghost p0 = match ffmpeg {
        Some(f) => seq!["--ffmpeg-location"@, f@],
        None => Seq::<Seq<char>>::empty(),
    };
    let ghost p1 = seq!["--newline"@, "--no-warnings"@, "-o"@, OUTPUT_TEMPLATE@];
    let ghost p2 = args_if(request.output_dir@.len() > 0, seq!["--paths"@, request.output_dir@]);
    let ghost p3 = format_args(request.format);
    let ghost p4 = args_if(
        request.format != Format::Video,
        seq!["--audio-quality"@, decimal(o.audio_quality as nat)],
    );
    let ghost p5 = switch_args(*o);
    let ghost p6 = valued_args(*o);
    let mut args: Vec<String> = Vec::new();
    if let Some(f) = ffmpeg {
        push_deep(&mut args, owned("--ffmpeg-location"));
        push_deep(&mut args, owned(f));
    }
    assert(args.deep_view() =~= p0);
    push_deep(&mut args, owned("--newline"));
    push_deep(&mut args, owned("--no-warnings"));
    push_deep(&mut args, owned("-o"));
    push_deep(&mut args, owned(OUTPUT_TEMPLATE));
    assert(args.deep_view() =~= p0 + p1);
    push_pair_if(
        &mut args,
        !request.output_dir.as_str().is_empty(),
        "--paths",
        request.output_dir.clone(),
    );
    let format_flags = request.format.args();
    push_all(&mut args, &format_flags);
    assert(args.deep_view() =~= p0 + p1 + p2 + p3);
    push_pair_if(
        &mut args,
        request.format != Format::Video,
        "--audio-quality",
        u64_to_string(o.audio_quality as u64),
    );
    switches(o, &mut args);
    assert(args.deep_view() =~= p0 + p1 + p2 + p3 + p4 + p5);
    valued(o, &mut args);
    push_deep(&mut args, request.url.clone());
    assert(args.deep_view() =~= p0 + p1 + p2 + p3 + p4 + p5 + p6 + seq![request.url@]);
    args
}

// ---------------------------------------------------------------- following one

/// What a line read from a running download asks the job to report.
#[derive(Debug, Clone, PartialEq, Eq)]
pub enum Report {
    /// The file is named: downloading starts from zero under that title.
    Downloading,
    /// A percentage, as yt-dlp printed it.
    Progress(String),
    /// Converting: the bar holds at the top while ffmpeg works.
    Processing,
    /// Nothing to show; a failure is kept for the end.
    Quiet,
}

/// What a running download has learned from its output so far.
pub struct DownloadRun {
    /// The file's name once yt-dlp gives it; the URL until then.
    pub title: String,
    /// The last error line, if any.
    pub failure: Option<String>,
}

impl DownloadRun {
    pub fn new(url: &str) -> (r: DownloadRun)
        ensures
            r.title@ == url@,
            r.failure is None,
    {
        DownloadRun { title: owned(url), failure: None }
    }

    /// Take in one parsed line.
    pub fn observe(&mut self, line: Line) -> (r: Report)
        ensures
            match line {
                Line::Title(t) => final(self).title == t && final(self).failure == old(
                    self,
                ).failure && r == Report::Downloading,
                Line::Progress { percent } => *final(self) == *old(self) && r == Report::Progress(
                    percent,
                ),
                Line::Processing => *final(self) == *old(self) && r == Report::Processing,
                Line::Failed(m) => final(self).title == old(self).title && final(self).failure
                    == Some(m) && r == Report::Quiet,
            },
    {
        match line {
            Line::Title(found) => {
                self.title = found;
                Report::Downloading
            },
            Line::Progress { percent } => Report::Progress(percent),
            Line::Processing => Report::Processing,
            Line::Failed(message) => {
                self.failure = Some(message);
                Report::Quiet
            },
        }
    }

    /// The outcome once yt-dlp has exited: an error line seen on the way
    /// fails a run that exited cleanly, and a failed exit is its own error.
    pub fn finish(self, exit: Result<(), String>) -> (r: Result<(), String>)
        ensures
            r == match (exit, self.failure) {
                (Ok(()), None) => Ok(()),
                (Ok(()), Some(m)) => Err(m),
                (Err(m), _) => Err(m),
            },
    {
        match (exit, self.failure) {
            (Ok(()), None) => Ok(()),
            (Ok(()), Some(message)) => Err(message),
            (Err(message), _) => Err(message),
        }
    }
}


/// How yt-dlp's exit reads: `Ok(())` for a clean exit; a failed one is
/// explained by the error lines it printed, one per line, or else by its exit
/// status; and a wait that itself failed says so.
pub open spec fn exit_reading(wait: Result<(bool, String), String>, errors: Seq<Seq<char>>) -> Result<(), Seq<char>> {
    match wait {
        Ok((true, _)) => Ok(()),
        Ok((false, status)) => if errors.len() > 0 {
            Err(joined(errors, "\n"@))
        } else {
            Err("yt-dlp exited with "@ + status@)
        },
        Err(e) => Err("yt-dlp could not be waited on: "@ + e@),
    }
}

/// Read yt-dlp's exit. `wait` is whether the process succeeded with its
/// exit status as text, or why waiting on it failed; `errors` are the error
/// lines it printed.
pub fn exit_outcome(wait: Result<(bool, String), String>, errors: &Vec<String>) -> (r: Result<(), String>)
    ensures
        match r {
            Ok(()) => exit_reading(wait, errors.deep_view()) == Ok::<(), Seq<char>>(()),
            Err(m) => exit_reading(wait, errors.deep_view()) == Err::<(), Seq<char>>(m@),
        },
{
    match wait {
        Ok((true, _)) => Ok(()),
        Ok((false, status)) => if errors.len() > 0 {
            Err(join(errors, "\n"))
        } else {
            Err(concat2("yt-dlp exited with ", status.as_str()))
        },
        Err(e) => Err(concat2("yt-dlp could not be waited on: ", e.as_str())),
    }
}


/// The folder yt-dlp runs in: the output folder where one is set, else the
/// home folder where one is known, else the current one.
pub fn work_folder(output_dir: &str, home: Option<&str>) -> (r: String)
    ensures
        r@ == (if output_dir@.len() > 0 {
            output_dir@
        } else {
            match home {
                Some(h) => h@,
                None => "."@,
            }
        }),
{
    if !output_dir.is_empty() {
        owned(output_dir)
    } else {
        match home {
            Some(h) => owned(h),
            None => owned("."),
        }
    }
}

} // verus!
