//! What each service is, and what configuring one takes.
//!
//! Everything a client would otherwise have to know about a backend lives
//! here: its name, its mark, the form that adds one, the options it has once
//! it exists, and what signing it in means. A frontend renders the field lists
//! and sends the answers back.

use vstd::prelude::*;
use crate::config::{
    all_browsers, all_services, browser_id, browser_label, browser_named, service_display_name,
    service_id, spec_uses_browser_signin, AppConfig, Browser, MusicServer, MusicService,
    SavedServer,
};
use crate::schema::{
    answer_of, blank_spec, value_of, ChoiceOption, ChoiceOptionV, FieldKind, FieldKindV,
    FieldSpec, FieldSpecV, FieldValue, FieldValueV, Icon, IconV, Problem, ProblemV, Text, TextV,
};
use crate::sources::{
    ServerDraft, ServerDraftV, ServiceInfo, ServiceInfoV, ServiceRef, ServiceRefV, SignInKind,
};
use crate::text::{
    bool_text, bool_to_string, has_prefix, is_blank, owned, push_deep, starts_with, str_eq,
    to_uppercase, trim, trim_end_char, trimmed, uppercase_of, without_trailing,
};

verus! {

// ---------------------------------------------------------------- keys

/// The field keys a form and its answers agree on.
pub const URL: &'static str = "url";
pub const CLIENT_ID: &'static str = "client_id";
pub const AUTH_METHOD: &'static str = "auth_method";
pub const BROWSER: &'static str = "browser";
pub const STOREFRONT: &'static str = "storefront";
pub const LANGUAGE: &'static str = "language";
pub const TOKEN: &'static str = "token";
pub const PLAYBACK_BROWSER: &'static str = "playback_browser";
pub const PREFER_ACTIVE_DEVICE: &'static str = "prefer_active_device";

/// `auth_method` values.
pub const BY_BROWSER: &'static str = "browser";
pub const ANONYMOUS: &'static str = "anonymous";
pub const MANUAL: &'static str = "manual";

/// The playback-browser choice that leaves the pick to the daemon.
pub const AUTOMATIC: &'static str = "auto";

/// The Nextcloud mark, from the Simple Icons set (CC0); the icon font carries
/// no glyph for it.
pub const NEXTCLOUD_MARK: &'static str = "M12.018 6.537c-2.5 0-4.6 1.712-5.241 4.015-.56-1.232-1.793-2.105-3.225-2.105A3.569 3.569 0 0 0 0 12a3.569 3.569 0 0 0 3.552 3.553c1.432 0 2.664-.874 3.224-2.106.641 2.304 2.742 4.016 5.242 4.016 2.487 0 4.576-1.693 5.231-3.977.569 1.21 1.783 2.067 3.198 2.067A3.568 3.568 0 0 0 24 12a3.569 3.569 0 0 0-3.553-3.553c-1.416 0-2.63.858-3.199 2.067-.654-2.284-2.743-3.978-5.23-3.977zm0 2.085c1.878 0 3.378 1.5 3.378 3.378 0 1.878-1.5 3.378-3.378 3.378A3.362 3.362 0 0 1 8.641 12c0-1.878 1.5-3.378 3.377-3.378zm-8.466 1.91c.822 0 1.467.645 1.467 1.468s-.644 1.467-1.467 1.468A1.452 1.452 0 0 1 2.085 12c0-.823.644-1.467 1.467-1.467zm16.895 0c.823 0 1.468.645 1.468 1.468s-.645 1.468-1.468 1.468A1.452 1.452 0 0 1 18.98 12c0-.823.644-1.467 1.467-1.467z";

// ---------------------------------------------------------------- the tables

/// What a service is called.
pub open spec fn service_name(s: MusicService) -> TextV {
    match s {
        MusicService::Jellyfin => TextV::Key("jellyfin"@),
        MusicService::Subsonic => TextV::Key("subsonic"@),
        MusicService::Custom => TextV::Key("custom_manual"@),
        _ => TextV::Literal(service_display_name(s)),
    }
}

/// How a service is drawn.
pub open spec fn service_icon(s: MusicService) -> IconV {
    match s {
        MusicService::YtMusic => IconV::Class("fa-brands fa-youtube"@),
        MusicService::SoundCloud => IconV::Class("fa-brands fa-soundcloud"@),
        MusicService::AppleMusic => IconV::Class("fa-brands fa-apple"@),
        MusicService::Spotify => IconV::Class("fa-brands fa-spotify"@),
        MusicService::Jellyfin => IconV::Class("fa-solid fa-server"@),
        MusicService::Subsonic | MusicService::Custom => IconV::Class("fa-solid fa-compact-disc"@),
        MusicService::Nextcloud => IconV::Svg(NEXTCLOUD_MARK@),
    }
}

/// The colour a service's rows are tinted with.
pub open spec fn service_accent(s: MusicService) -> Seq<char> {
    match s {
        MusicService::YtMusic => "#ff3355"@,
        MusicService::SoundCloud => "#ff7a33"@,
        MusicService::AppleMusic => "#ffffff"@,
        MusicService::Spotify => "#1DB954"@,
        MusicService::Jellyfin => "#b277ee"@,
        MusicService::Subsonic | MusicService::Custom => "#f0a84b"@,
        MusicService::Nextcloud => "#0082c9"@,
    }
}

/// A row with every part given (no section).
pub open spec fn field_row(
    key: Seq<char>,
    label: TextV,
    help: Option<TextV>,
    placeholder: Option<TextV>,
    kind: FieldKindV,
    required: bool,
    value: Option<Seq<char>>,
    config_key: Option<Seq<char>>,
    show_when: Option<FieldValueV>,
) -> FieldSpecV {
    FieldSpecV {
        key,
        label,
        help,
        placeholder,
        section: None,
        kind,
        required,
        value,
        config_key,
        show_when,
    }
}

/// A row labelled by a translation key, with nothing else set.
pub open spec fn text_row(key: Seq<char>, label: Seq<char>, kind: FieldKindV) -> FieldSpecV {
    blank_spec(key, TextV::Key(label), kind)
}

/// The browsers a sign-in can drive, as choices.
pub open spec fn browser_choices() -> Seq<ChoiceOptionV> {
    all_browsers().map_values(
        |b: Browser| ChoiceOptionV { value: browser_id(b), label: TextV::Literal(browser_label(b)) },
    )
}

/// The browser row, holding `value` or Chrome.
pub open spec fn browser_row(value: Option<Seq<char>>, show_when: Option<FieldValueV>) -> FieldSpecV {
    field_row(
        BROWSER@,
        TextV::Key("sign_in_browser"@),
        None,
        None,
        FieldKindV::Choice { options: browser_choices(), custom: false },
        false,
        Some(
            match value {
                Some(v) => v,
                None => browser_id(Browser::Chrome),
            },
        ),
        None,
        show_when,
    )
}

/// Codes offered as themselves.
pub open spec fn code_choices(codes: Seq<Seq<char>>) -> Seq<ChoiceOptionV> {
    codes.map_values(|c: Seq<char>| ChoiceOptionV { value: c, label: TextV::Literal(c) })
}

/// The Apple Music storefronts offered.
pub open spec fn storefront_codes() -> Seq<Seq<char>> {
    seq![
        "us"@, "gb"@, "jp"@, "de"@, "fr"@, "au"@, "br"@, "mx"@, "kr"@, "nl"@, "it"@, "es"@,
        "ca"@, "ua"@, "tr"@,
    ]
}

/// The Apple Music languages offered.
pub open spec fn language_codes() -> Seq<Seq<char>> {
    seq!["en"@, "ja"@, "de"@, "fr"@, "es"@, "pt"@, "it"@, "nl"@, "ko"@, "zh-Hans"@, "zh-Hant"@]
}

/// An explanation row: no answer, its text in `help`.
pub open spec fn note_row(help: Seq<char>, show_when: Option<FieldValueV>) -> FieldSpecV {
    field_row(
        "note"@,
        TextV::Literal(Seq::empty()),
        Some(TextV::Key(help)),
        None,
        FieldKindV::Note,
        false,
        None,
        None,
        show_when,
    )
}

/// The server address row.
pub open spec fn url_row(placeholder: Seq<char>) -> FieldSpecV {
    field_row(
        URL@,
        TextV::Key("server_url"@),
        None,
        Some(TextV::Key(placeholder)),
        FieldKindV::Url,
        true,
        None,
        None,
        None,
    )
}

/// A sign-in method choice between the browser and `other`.
pub open spec fn method_row(other: Seq<char>, other_label: Seq<char>) -> FieldSpecV {
    field_row(
        AUTH_METHOD@,
        TextV::Key("sign_in_method"@),
        None,
        None,
        FieldKindV::Radio {
            options: seq![
                ChoiceOptionV { value: BY_BROWSER@, label: TextV::Key("sign_in_with_browser"@) },
                ChoiceOptionV { value: other, label: TextV::Key(other_label) },
            ],
        },
        true,
        Some(BY_BROWSER@),
        None,
        None,
    )
}

/// A row choosing one of `codes`, or a typed one.
pub open spec fn code_row(
    key: Seq<char>,
    label: Seq<char>,
    codes: Seq<Seq<char>>,
    required: bool,
    value: Seq<char>,
) -> FieldSpecV {
    field_row(
        key,
        TextV::Key(label),
        None,
        None,
        FieldKindV::Choice { options: code_choices(codes), custom: true },
        required,
        Some(value),
        None,
        None,
    )
}

/// Shown while the sign-in method is `method`.
pub open spec fn when_method(method: Seq<char>) -> Option<FieldValueV> {
    Some(FieldValueV { key: AUTH_METHOD@, value: method })
}

/// The form that adds a server of this service.
pub open spec fn add_rows(s: MusicService) -> Seq<FieldSpecV> {
    match s {
        MusicService::YtMusic => seq![
            method_row(ANONYMOUS@, "sign_in_anonymously"@),
            note_row("yt_anonymous_help"@, when_method(ANONYMOUS@)),
            browser_row(None, when_method(BY_BROWSER@)),
        ],
        MusicService::SoundCloud => seq![
            note_row("soundcloud_sign_in_help"@, None),
            browser_row(None, None),
        ],
        MusicService::AppleMusic => seq![
            code_row(STOREFRONT@, "apple_music_storefront"@, storefront_codes(), true, "us"@),
            code_row(LANGUAGE@, "apple_music_language"@, language_codes(), false, "en"@),
            method_row(MANUAL@, "apple_music_paste_token"@),
            field_row(
                TOKEN@,
                TextV::Key("apple_music_token"@),
                None,
                Some(TextV::Literal("media-user-token"@)),
                FieldKindV::Secret,
                false,
                None,
                None,
                when_method(MANUAL@),
            ),
            browser_row(None, when_method(BY_BROWSER@)),
        ],
        MusicService::Spotify => seq![
            field_row(
                CLIENT_ID@,
                TextV::Key("spotify_client_id"@),
                Some(TextV::Key("spotify_client_id_help"@)),
                Some(TextV::Literal("Spotify Client ID"@)),
                FieldKindV::Text,
                true,
                None,
                None,
                None,
            ),
            browser_row(None, None),
        ],
        MusicService::Nextcloud => seq![
            url_row("nextcloud_url_placeholder"@),
            note_row("nextcloud_help"@, None),
        ],
        _ => seq![url_row("server_url_placeholder"@)],
    }
}

/// What a client is told about a service.
pub open spec fn service_entry(s: MusicService) -> ServiceInfoV {
    ServiceInfoV {
        id: service_id(s),
        name: service_name(s),
        icon: service_icon(s),
        accent: service_accent(s),
        experimental: s == MusicService::Spotify,
        fields: add_rows(s),
    }
}

/// Which service a configured source speaks.
pub open spec fn service_reference(s: MusicService) -> ServiceRefV {
    ServiceRefV {
        id: service_id(s),
        name: service_name(s),
        icon: service_icon(s),
        accent: service_accent(s),
    }
}

/// The options a configured source has, with the values it holds.
pub open spec fn settings_rows(
    service: MusicService,
    browser: Option<Browser>,
    anonymous: bool,
    storefront: Seq<char>,
    language: Seq<char>,
    spotify_browser: Option<Seq<char>>,
    prefer_active_device: bool,
) -> Seq<FieldSpecV> {
    let chosen = match browser {
        Some(b) => Some(browser_id(b)),
        None => None,
    };
    if (service == MusicService::YtMusic || service == MusicService::SoundCloud) && !anonymous {
        seq![browser_row(chosen, None)]
    } else if service == MusicService::AppleMusic {
        seq![
            code_row(STOREFRONT@, "apple_music_storefront"@, storefront_codes(), false, storefront),
            code_row(LANGUAGE@, "apple_music_language"@, language_codes(), false, language),
            browser_row(chosen, None),
        ]
    } else if service == MusicService::Spotify {
        let hosts = seq![
            ChoiceOptionV { value: AUTOMATIC@, label: TextV::Key("playback_browser_auto"@) },
        ] + browser_choices();
        seq![
            field_row(
                PLAYBACK_BROWSER@,
                TextV::Key("playback_browser"@),
                None,
                None,
                FieldKindV::Choice { options: hosts, custom: false },
                false,
                Some(
                    match spotify_browser {
                        Some(b) => b,
                        None => AUTOMATIC@,
                    },
                ),
                Some("spotify_browser"@),
                None,
            ),
            field_row(
                PREFER_ACTIVE_DEVICE@,
                TextV::Key("prefer_active_device"@),
                Some(TextV::Key("prefer_active_device_help"@)),
                None,
                FieldKindV::Toggle,
                false,
                Some(bool_text(prefer_active_device)),
                Some("spotify_prefer_active_device"@),
                None,
            ),
        ]
    } else {
        Seq::empty()
    }
}

/// What signing in a draft or a source means, before any credential.
pub open spec fn sign_in_needed(service: MusicService, anonymous: bool) -> SignInKind {
    if anonymous {
        SignInKind::NotNeeded
    } else if spec_uses_browser_signin(service) {
        SignInKind::Browser
    } else {
        SignInKind::Password
    }
}

/// An answer, trimmed; empty where it was not given.
pub open spec fn trimmed_answer(values: Seq<FieldValueV>, key: Seq<char>) -> Seq<char> {
    match answer_of(values, key) {
        Some(v) => trimmed(v),
        None => Seq::empty(),
    }
}

/// Whether a draft signs in without an account.
pub open spec fn draft_is_anonymous(values: Seq<FieldValueV>) -> bool {
    answer_of(values, AUTH_METHOD@) == Some(ANONYMOUS@)
}

/// A problem under a row, labelled by a translation key.
pub open spec fn problem_on(field: Seq<char>, label: Seq<char>) -> ProblemV {
    ProblemV { field: Some(field), label: TextV::Key(label) }
}

/// `p` as a one-element list where `bad` holds.
pub open spec fn problem_if(bad: bool, p: ProblemV) -> Seq<ProblemV> {
    if bad {
        seq![p]
    } else {
        Seq::empty()
    }
}

/// Everything wrong with a draft, in the order a form lists its rows.
pub open spec fn draft_problems(service: MusicService, draft: ServerDraftV) -> Seq<ProblemV> {
    let named = problem_if(
        trimmed(draft.name).len() == 0,
        problem_on("name"@, "server_name_required"@),
    );
    let rest = match service {
        MusicService::Spotify => problem_if(
            trimmed_answer(draft.values, CLIENT_ID@).len() == 0,
            problem_on(CLIENT_ID@, "spotify_client_id_required"@),
        ),
        MusicService::AppleMusic => problem_if(
            trimmed_answer(draft.values, STOREFRONT@).len() == 0,
            problem_on(STOREFRONT@, "apple_music_storefront_required"@),
        ) + problem_if(
            answer_of(draft.values, AUTH_METHOD@) == Some(MANUAL@) && trimmed_answer(
                draft.secrets,
                TOKEN@,
            ).len() == 0,
            problem_on(TOKEN@, "apple_music_token_required"@),
        ),
        MusicService::YtMusic | MusicService::SoundCloud => Seq::empty(),
        _ => problem_if(
            !has_prefix(trimmed_answer(draft.values, URL@), "http"@),
            problem_on(URL@, "invalid_server_url"@),
        ),
    };
    named + rest
}

/// The address a draft stores: Spotify's client id, or the URL without
/// trailing slashes.
pub open spec fn draft_address(service: MusicService, values: Seq<FieldValueV>) -> Seq<char> {
    if service == MusicService::Spotify {
        trimmed_answer(values, CLIENT_ID@)
    } else {
        without_trailing(trimmed_answer(values, URL@), '/')
    }
}

/// The browser a draft signs in with.
pub open spec fn draft_browser(values: Seq<FieldValueV>) -> Option<Browser> {
    if draft_is_anonymous(values) {
        None
    } else {
        match answer_of(values, BROWSER@) {
            Some(b) => browser_named(b),
            None => None,
        }
    }
}

/// A non-empty trimmed answer replaces `current`.
pub open spec fn nonblank_or(values: Seq<FieldValueV>, key: Seq<char>, current: Seq<char>) -> Seq<
    char,
> {
    let v = trimmed_answer(values, key);
    if v.len() > 0 {
        v
    } else {
        current
    }
}

/// The settings keys among the answers that belong to the config.
pub open spec fn config_key_list(service: MusicService, values: Seq<FieldValueV>) -> Seq<Seq<char>> {
    if service != MusicService::Spotify {
        Seq::empty()
    } else {
        (if answer_of(values, PLAYBACK_BROWSER@) is Some {
            seq!["spotify_browser"@]
        } else {
            Seq::empty()
        }) + (if answer_of(values, PREFER_ACTIVE_DEVICE@) is Some {
            seq!["spotify_prefer_active_device"@]
        } else {
            Seq::empty()
        })
    }
}

/// The playback browser an answer picks: `None` for automatic.
pub open spec fn playback_choice(answer: Seq<char>) -> Option<Seq<char>> {
    if answer == AUTOMATIC@ {
        None
    } else {
        Some(answer)
    }
}

// ---------------------------------------------------------------- building

fn name(service: MusicService) -> (t: Text)
    ensures
        t.deep_view() == service_name(service),
{
    match service {
        MusicService::Jellyfin => Text::key("jellyfin"),
        MusicService::Subsonic => Text::key("subsonic"),
        MusicService::Custom => Text::key("custom_manual"),
        other => Text::literal(other.display_name()),
    }
}

fn icon(service: MusicService) -> (i: Icon)
    ensures
        i.deep_view() == service_icon(service),
{
    match service {
        MusicService::YtMusic => Icon::Class(owned("fa-brands fa-youtube")),
        MusicService::SoundCloud => Icon::Class(owned("fa-brands fa-soundcloud")),
        MusicService::AppleMusic => Icon::Class(owned("fa-brands fa-apple")),
        MusicService::Spotify => Icon::Class(owned("fa-brands fa-spotify")),
        MusicService::Jellyfin => Icon::Class(owned("fa-solid fa-server")),
        MusicService::Subsonic | MusicService::Custom => Icon::Class(
            owned("fa-solid fa-compact-disc"),
        ),
        MusicService::Nextcloud => Icon::Svg(owned(NEXTCLOUD_MARK)),
    }
}

fn accent(service: MusicService) -> (r: &'static str)
    ensures
        r@ == service_accent(service),
{
    match service {
        MusicService::YtMusic => "#ff3355",
        MusicService::SoundCloud => "#ff7a33",
        MusicService::AppleMusic => "#ffffff",
        MusicService::Spotify => "#1DB954",
        MusicService::Jellyfin => "#b277ee",
        MusicService::Subsonic | MusicService::Custom => "#f0a84b",
        MusicService::Nextcloud => "#0082c9",
    }
}

fn text_field(key: &str, label: &str, kind: FieldKind) -> (f: FieldSpec)
    ensures
        f.deep_view() == text_row(key@, label@, kind.deep_view()),
{
    FieldSpec::blank(key, Text::key(label), kind)
}

fn browser_options() -> (r: Vec<ChoiceOption>)
    ensures
        r.deep_view() == browser_choices(),
{
    let all = Browser::all();
    let mut r: Vec<ChoiceOption> = Vec::new();
    let mut i: usize = 0;
    while i < all.len()
        invariant
            i <= all.len(),
            all@ == all_browsers(),
            r.deep_view() == browser_choices().take(i as int),
        decreases all.len() - i,
    {
        let b = all[i];
        push_deep(&mut r, ChoiceOption { value: owned(b.id()), label: Text::literal(b.label()) });
        assert(r.deep_view() =~= browser_choices().take(i + 1));
        i += 1;
    }
    assert(browser_choices().take(all.len() as int) =~= browser_choices());
    r
}

fn browser_field(value: Option<&str>, show_when: Option<FieldValue>) -> (f: FieldSpec)
    ensures
        f.deep_view() == browser_row(
            match value {
                Some(v) => Some(v@),
                None => None,
            },
            show_when.deep_view(),
        ),
{
    let mut f = FieldSpec::blank(
        BROWSER,
        Text::key("sign_in_browser"),
        FieldKind::Choice { options: browser_options(), custom: false },
    );
    f.value = Some(
        owned(
            match value {
                Some(v) => v,
                None => Browser::Chrome.id(),
            },
        ),
    );
    f.show_when = show_when;
    f
}

fn code_options(codes: &[&str]) -> (r: Vec<ChoiceOption>)
    ensures
        r.deep_view() == code_choices(codes@.map_values(|c: &str| c@)),
{
    let ghost want = code_choices(codes@.map_values(|c: &str| c@));
    let mut r: Vec<ChoiceOption> = Vec::new();
    let mut i: usize = 0;
    while i < codes.len()
        invariant
            i <= codes.len(),
            want == code_choices(codes@.map_values(|c: &str| c@)),
            r.deep_view() == want.take(i as int),
        decreases codes.len() - i,
    {
        push_deep(&mut r, ChoiceOption { value: owned(codes[i]), label: Text::literal(codes[i]) });
        assert(r.deep_view() =~= want.take(i + 1));
        i += 1;
    }
    assert(want.take(codes.len() as int) =~= want);
    r
}

fn apple_storefronts() -> (r: Vec<&'static str>)
    ensures
        r@.map_values(|c: &str| c@) == storefront_codes(),
{
    let r = vec![
        "us", "gb", "jp", "de", "fr", "au", "br", "mx", "kr", "nl", "it", "es", "ca", "ua", "tr",
    ];
    assert(r@.map_values(|c: &str| c@) =~= storefront_codes());
    r
}

fn apple_languages() -> (r: Vec<&'static str>)
    ensures
        r@.map_values(|c: &str| c@) == language_codes(),
{
    let r = vec!["en", "ja", "de", "fr", "es", "pt", "it", "nl", "ko", "zh-Hans", "zh-Hant"];
    assert(r@.map_values(|c: &str| c@) =~= language_codes());
    r
}

/// A row that is only an explanation. It carries no answer, so its key is
/// never read back and its text is the help under it.
fn note_field(help: &str, show_when: Option<FieldValue>) -> (f: FieldSpec)
    ensures
        f.deep_view() == note_row(help@, show_when.deep_view()),
{
    let mut f = FieldSpec::blank("note", Text::Literal(String::new()), FieldKind::Note);
    f.help = Some(Text::key(help));
    f.show_when = show_when;
    f
}

fn url_field(placeholder: &str) -> (f: FieldSpec)
    ensures
        f.deep_view() == url_row(placeholder@),
{
    let mut f = FieldSpec::blank(URL, Text::key("server_url"), FieldKind::Url);
    f.placeholder = Some(Text::key(placeholder));
    f.required = true;
    f
}

fn method_field(other: &str, other_label: &str) -> (f: FieldSpec)
    ensures
        f.deep_view() == method_row(other@, other_label@),
{
    let mut options: Vec<ChoiceOption> = Vec::new();
    push_deep(
        &mut options,
        ChoiceOption { value: owned(BY_BROWSER), label: Text::key("sign_in_with_browser") },
    );
    push_deep(&mut options, ChoiceOption { value: owned(other), label: Text::key(other_label) });
    assert(options.deep_view() =~= seq![
        ChoiceOptionV { value: BY_BROWSER@, label: TextV::Key("sign_in_with_browser"@) },
        ChoiceOptionV { value: other@, label: TextV::Key(other_label@) },
    ]);
    let mut f = text_field(AUTH_METHOD, "sign_in_method", FieldKind::Radio { options });
    f.required = true;
    f.value = Some(owned(BY_BROWSER));
    f
}

fn code_field(key: &str, label: &str, codes: &[&str], required: bool, value: &str) -> (f: FieldSpec)
    ensures
        f.deep_view() == code_row(key@, label@, codes@.map_values(|c: &str| c@), required, value@),
{
    let mut f = text_field(
        key,
        label,
        FieldKind::Choice { options: code_options(codes), custom: true },
    );
    f.required = required;
    f.value = Some(owned(value));
    f
}

/// The form that adds one of these.
pub fn add_fields(service: MusicService) -> (r: Vec<FieldSpec>)
    ensures
        r.deep_view() == add_rows(service),
{
    let mut r: Vec<FieldSpec> = Vec::new();
    match service {
        MusicService::YtMusic => {
            push_deep(&mut r, method_field(ANONYMOUS, "sign_in_anonymously"));
            push_deep(
                &mut r,
                note_field("yt_anonymous_help", Some(FieldValue::new(AUTH_METHOD, ANONYMOUS))),
            );
            push_deep(&mut r, browser_field(None, Some(FieldValue::new(AUTH_METHOD, BY_BROWSER))));
        },
        MusicService::SoundCloud => {
            push_deep(&mut r, note_field("soundcloud_sign_in_help", None));
            push_deep(&mut r, browser_field(None, None));
        },
        MusicService::AppleMusic => {
            let storefronts = apple_storefronts();
            let languages = apple_languages();
            push_deep(
                &mut r,
                code_field(STOREFRONT, "apple_music_storefront", storefronts.as_slice(), true, "us"),
            );
            push_deep(
                &mut r,
                code_field(LANGUAGE, "apple_music_language", languages.as_slice(), false, "en"),
            );
            push_deep(&mut r, method_field(MANUAL, "apple_music_paste_token"));
            let mut token = text_field(TOKEN, "apple_music_token", FieldKind::Secret);
            token.placeholder = Some(Text::literal("media-user-token"));
            token.show_when = Some(FieldValue::new(AUTH_METHOD, MANUAL));
            push_deep(&mut r, token);
            push_deep(&mut r, browser_field(None, Some(FieldValue::new(AUTH_METHOD, BY_BROWSER))));
        },
        MusicService::Spotify => {
            let mut client = text_field(CLIENT_ID, "spotify_client_id", FieldKind::Text);
            client.required = true;
            client.placeholder = Some(Text::literal("Spotify Client ID"));
            client.help = Some(Text::key("spotify_client_id_help"));
            push_deep(&mut r, client);
            push_deep(&mut r, browser_field(None, None));
        },
        MusicService::Nextcloud => {
            push_deep(&mut r, url_field("nextcloud_url_placeholder"));
            push_deep(&mut r, note_field("nextcloud_help", None));
        },
        MusicService::Jellyfin | MusicService::Subsonic | MusicService::Custom => {
            push_deep(&mut r, url_field("server_url_placeholder"));
        },
    }
    assert(r.deep_view() =~= add_rows(service));
    r
}

/// Every service, with the form that adds one.
pub fn all() -> (r: Vec<ServiceInfo>)
    ensures
        r.deep_view() == all_services().map_values(|s: MusicService| service_entry(s)),
{
    let services = MusicService::all();
    let ghost want = all_services().map_values(|s: MusicService| service_entry(s));
    let mut r: Vec<ServiceInfo> = Vec::new();
    let mut i: usize = 0;
    while i < services.len()
        invariant
            i <= services.len(),
            services@ == all_services(),
            want == all_services().map_values(|s: MusicService| service_entry(s)),
            r.deep_view() == want.take(i as int),
        decreases services.len() - i,
    {
        let service = services[i];
        push_deep(
            &mut r,
            ServiceInfo {
                id: owned(service.id()),
                name: name(service),
                icon: icon(service),
                accent: owned(accent(service)),
                experimental: service == MusicService::Spotify,
                fields: add_fields(service),
            },
        );
        assert(r.deep_view() =~= want.take(i + 1));
        i += 1;
    }
    assert(want.take(services.len() as int) =~= want);
    r
}

/// What to call and how to draw the service a source speaks.
pub fn service_ref(service: MusicService) -> (r: ServiceRef)
    ensures
        r.deep_view() == service_reference(service),
{
    ServiceRef {
        id: owned(service.id()),
        name: name(service),
        icon: icon(service),
        accent: owned(accent(service)),
    }
}

// ---------------------------------------------------------------- configured servers

/// The parts of a configured server the registry reads, borrowed from either
/// the stored row or the hydrated active one.
pub struct ServerView<'a> {
    pub service: MusicService,
    pub url: &'a str,
    pub browser: Option<Browser>,
    pub anonymous: bool,
    pub storefront: &'a str,
    pub language: &'a str,
}

impl<'a> ServerView<'a> {
    /// The view of a stored row.
    pub fn of_saved(server: &'a SavedServer) -> (v: ServerView<'a>)
        ensures
            v.service == server.service,
            v.url@ == server.url@,
            v.browser == server.yt_browser,
            v.anonymous == server.yt_anonymous,
            v.storefront@ == server.apple_music_storefront@,
            v.language@ == server.apple_music_language@,
    {
        ServerView {
            service: server.service,
            url: server.url.as_str(),
            browser: server.yt_browser,
            anonymous: server.yt_anonymous,
            storefront: server.apple_music_storefront.as_str(),
            language: server.apple_music_language.as_str(),
        }
    }

    /// The view of the active server.
    pub fn of_active(server: &'a MusicServer) -> (v: ServerView<'a>)
        ensures
            v.service == server.service,
            v.url@ == server.url@,
            v.browser == server.yt_browser,
            v.anonymous == server.yt_anonymous,
            v.storefront@ == server.apple_music_storefront@,
            v.language@ == server.apple_music_language@,
    {
        ServerView {
            service: server.service,
            url: server.url.as_str(),
            browser: server.yt_browser,
            anonymous: server.yt_anonymous,
            storefront: server.apple_music_storefront.as_str(),
            language: server.apple_music_language.as_str(),
        }
    }
}

/// The options a configured source has, with the values it currently holds.
pub fn settings(server: &ServerView<'_>, config: &AppConfig) -> (r: Vec<FieldSpec>)
    ensures
        r.deep_view() == settings_rows(
            server.service,
            server.browser,
            server.anonymous,
            server.storefront@,
            server.language@,
            config.spotify_browser.deep_view(),
            config.spotify_prefer_active_device,
        ),
{
    let ghost want = settings_rows(
        server.service,
        server.browser,
        server.anonymous,
        server.storefront@,
        server.language@,
        config.spotify_browser.deep_view(),
        config.spotify_prefer_active_device,
    );
    let chosen: Option<&str> = match server.browser {
        Some(b) => Some(b.id()),
        None => None,
    };
    let mut r: Vec<FieldSpec> = Vec::new();
    if (server.service == MusicService::YtMusic || server.service == MusicService::SoundCloud)
        && !server.anonymous {
        push_deep(&mut r, browser_field(chosen, None));
        assert(r.deep_view() =~= want);
    } else if server.service == MusicService::AppleMusic {
        let storefronts = apple_storefronts();
        let languages = apple_languages();
        push_deep(
            &mut r,
            code_field(
                STOREFRONT,
                "apple_music_storefront",
                storefronts.as_slice(),
                false,
                server.storefront,
            ),
        );
        push_deep(
            &mut r,
            code_field(
                LANGUAGE,
                "apple_music_language",
                languages.as_slice(),
                false,
                server.language,
            ),
        );
        push_deep(&mut r, browser_field(chosen, None));
        assert(r.deep_view() =~= want);
    } else if server.service == MusicService::Spotify {
        let mut hosts: Vec<ChoiceOption> = Vec::new();
        push_deep(
            &mut hosts,
            ChoiceOption { value: owned(AUTOMATIC), label: Text::key("playback_browser_auto") },
        );
        let browsers = browser_options();
        let ghost before = hosts.deep_view();
        let mut i: usize = 0;
        while i < browsers.len()
            invariant
                i <= browsers.len(),
                hosts.deep_view() == before + browsers.deep_view().take(i as int),
            decreases browsers.len() - i,
        {
            push_deep(&mut hosts, browsers[i].duplicate());
            assert(hosts.deep_view() =~= before + browsers.deep_view().take(i + 1));
            i += 1;
        }
        assert(browsers.deep_view().take(browsers.len() as int) =~= browsers.deep_view());
        let ghost hosts_view = hosts.deep_view();
        let mut host = text_field(
            PLAYBACK_BROWSER,
            "playback_browser",
            FieldKind::Choice { options: hosts, custom: false },
        );
        host.value = Some(
            match &config.spotify_browser {
                Some(b) => b.clone(),
                None => owned(AUTOMATIC),
            },
        );
        host.config_key = Some(owned("spotify_browser"));
        push_deep(&mut r, host);
        let mut prefer = text_field(PREFER_ACTIVE_DEVICE, "prefer_active_device", FieldKind::Toggle);
        prefer.value = Some(bool_to_string(config.spotify_prefer_active_device));
        prefer.config_key = Some(owned("spotify_prefer_active_device"));
        prefer.help = Some(Text::key("prefer_active_device_help"));
        push_deep(&mut r, prefer);
        assert(hosts_view =~= seq![
            ChoiceOptionV { value: AUTOMATIC@, label: TextV::Key("playback_browser_auto"@) },
        ] + browser_choices());
        assert(r.deep_view() =~= want);
    } else {
        assert(r.deep_view() =~= want);
    }
    r
}

/// The line under a source's name.
pub fn detail(server: &ServerView<'_>) -> (r: Option<String>)
    ensures
        r.deep_view() == match server.service {
            MusicService::Spotify | MusicService::YtMusic | MusicService::SoundCloud => None,
            MusicService::AppleMusic => Some(uppercase_of(server.storefront@)),
            _ => Some(server.url@),
        },
{
    match server.service {
        MusicService::Spotify | MusicService::YtMusic | MusicService::SoundCloud => None,
        MusicService::AppleMusic => Some(to_uppercase(server.storefront)),
        _ => Some(owned(server.url)),
    }
}

/// What making this source usable would take, given what it already has.
pub fn sign_in(server: &ServerView<'_>, authenticated: bool) -> (r: SignInKind)
    ensures
        r == if authenticated {
            SignInKind::NotNeeded
        } else {
            sign_in_needed(server.service, server.anonymous)
        },
{
    if authenticated {
        return SignInKind::NotNeeded;
    }
    draft_sign_in(server.service, server.anonymous)
}

fn draft_sign_in(service: MusicService, anonymous: bool) -> (r: SignInKind)
    ensures
        r == sign_in_needed(service, anonymous),
{
    if anonymous {
        SignInKind::NotNeeded
    } else if service.uses_browser_signin() {
        SignInKind::Browser
    } else {
        SignInKind::Password
    }
}

fn anonymous_draft(draft: &ServerDraft) -> (r: bool)
    ensures
        r == draft_is_anonymous(draft.values.deep_view()),
{
    match value_of(draft.values.as_slice(), AUTH_METHOD) {
        Some(v) => str_eq(v, ANONYMOUS),
        None => false,
    }
}

/// An answer, trimmed, or empty.
fn answer(values: &[FieldValue], key: &str) -> (r: String)
    ensures
        r@ == trimmed_answer(values.deep_view(), key@),
{
    match value_of(values, key) {
        Some(v) => trim(v),
        None => String::new(),
    }
}

/// What saving this draft would need, and what is wrong with it.
pub fn check(service: MusicService, draft: &ServerDraft) -> (r: (SignInKind, Vec<Problem>))
    ensures
        r.0 == sign_in_needed(service, draft_is_anonymous(draft.values.deep_view())),
        r.1.deep_view() == draft_problems(service, draft.deep_view()),
{
    let ghost d = draft.deep_view();
    let mut problems: Vec<Problem> = Vec::new();
    if is_blank(draft.name.as_str()) {
        push_deep(&mut problems, Problem::on("name", Text::key("server_name_required")));
    }
    let ghost named = problems.deep_view();
    let values = draft.values.as_slice();
    match service {
        MusicService::Spotify => {
            if answer(values, CLIENT_ID).as_str().is_empty() {
                push_deep(
                    &mut problems,
                    Problem::on(CLIENT_ID, Text::key("spotify_client_id_required")),
                );
            }
        },
        MusicService::AppleMusic => {
            if answer(values, STOREFRONT).as_str().is_empty() {
                push_deep(
                    &mut problems,
                    Problem::on(STOREFRONT, Text::key("apple_music_storefront_required")),
                );
            }
            let manual = match value_of(values, AUTH_METHOD) {
                Some(m) => str_eq(m, MANUAL),
                None => false,
            };
            if manual && answer(draft.secrets.as_slice(), TOKEN).as_str().is_empty() {
                push_deep(
                    &mut problems,
                    Problem::on(TOKEN, Text::key("apple_music_token_required")),
                );
            }
        },
        MusicService::YtMusic | MusicService::SoundCloud => {},
        _ => {
            let url = answer(values, URL);
            if !starts_with(url.as_str(), "http") {
                push_deep(&mut problems, Problem::on(URL, Text::key("invalid_server_url")));
            }
        },
    }
    assert(problems.deep_view() =~= draft_problems(service, d));
    (draft_sign_in(service, anonymous_draft(draft)), problems)
}

/// Fold a draft's answers into the row that is stored.
pub fn apply(service: MusicService, draft: &ServerDraft, saved: &mut SavedServer)
    ensures
        final(saved).id == old(saved).id,
        final(saved).service == service,
        final(saved).name@ == trimmed(draft.name@),
        final(saved).url@ == draft_address(service, draft.values.deep_view()),
        final(saved).yt_anonymous == draft_is_anonymous(draft.values.deep_view()),
        final(saved).yt_browser == draft_browser(draft.values.deep_view()),
        final(saved).apple_music_storefront@ == if service == MusicService::AppleMusic {
            nonblank_or(draft.values.deep_view(), STOREFRONT@, old(saved).apple_music_storefront@)
        } else {
            old(saved).apple_music_storefront@
        },
        final(saved).apple_music_language@ == if service == MusicService::AppleMusic {
            nonblank_or(draft.values.deep_view(), LANGUAGE@, old(saved).apple_music_language@)
        } else {
            old(saved).apple_music_language@
        },
{
    let values = draft.values.as_slice();
    saved.service = service;
    saved.name = trim(draft.name.as_str());
    saved.url = match service {
        // Spotify's address field holds the client id its sign-in flow needs.
        MusicService::Spotify => answer(values, CLIENT_ID),
        _ => {
            let url = answer(values, URL);
            trim_end_char(url.as_str(), '/')
        },
    };
    saved.yt_anonymous = anonymous_draft(draft);
    saved.yt_browser = if saved.yt_anonymous {
        None
    } else {
        match value_of(values, BROWSER) {
            Some(b) => Browser::from_id(b),
            None => None,
        }
    };
    if service == MusicService::AppleMusic {
        let storefront = answer(values, STOREFRONT);
        if !storefront.as_str().is_empty() {
            saved.apple_music_storefront = storefront;
        }
        let language = answer(values, LANGUAGE);
        if !language.as_str().is_empty() {
            saved.apple_music_language = language;
        }
    }
}

/// Which settings keys belong to the config rather than the server row.
pub fn config_keys(server: &SavedServer, values: &[FieldValue]) -> (r: Vec<&'static str>)
    ensures
        r@.map_values(|k: &str| k@) == config_key_list(server.service, values.deep_view()),
{
    let mut keys: Vec<&'static str> = Vec::new();
    if server.service != MusicService::Spotify {
        assert(keys@.map_values(|k: &str| k@) =~= Seq::<Seq<char>>::empty());
        return keys;
    }
    if value_of(values, PLAYBACK_BROWSER).is_some() {
        keys.push("spotify_browser");
    }
    if value_of(values, PREFER_ACTIVE_DEVICE).is_some() {
        keys.push("spotify_prefer_active_device");
    }
    assert(keys@.map_values(|k: &str| k@) =~= config_key_list(server.service, values.deep_view()));
    keys
}

/// Fold answered options into the stored row. An absent key is left alone.
pub fn apply_server_settings(values: &[FieldValue], saved: &mut SavedServer)
    ensures
        final(saved).id == old(saved).id,
        final(saved).name == old(saved).name,
        final(saved).url == old(saved).url,
        final(saved).service == old(saved).service,
        final(saved).yt_anonymous == old(saved).yt_anonymous,
        final(saved).yt_browser == match answer_of(values.deep_view(), BROWSER@) {
            Some(b) => browser_named(b),
            None => old(saved).yt_browser,
        },
        final(saved).apple_music_storefront@ == nonblank_or(
            values.deep_view(),
            STOREFRONT@,
            old(saved).apple_music_storefront@,
        ),
        final(saved).apple_music_language@ == nonblank_or(
            values.deep_view(),
            LANGUAGE@,
            old(saved).apple_music_language@,
        ),
{
    if let Some(browser) = value_of(values, BROWSER) {
        saved.yt_browser = Browser::from_id(browser);
    }
    let storefront = answer(values, STOREFRONT);
    if !storefront.as_str().is_empty() {
        saved.apple_music_storefront = storefront;
    }
    let language = answer(values, LANGUAGE);
    if !language.as_str().is_empty() {
        saved.apple_music_language = language;
    }
}

/// The same for the answers that live in the settings rather than on the row.
pub fn apply_config_settings(service: MusicService, values: &[FieldValue], config: &mut AppConfig)
    ensures
        *final(config) == (AppConfig {
            spotify_browser: final(config).spotify_browser,
            spotify_prefer_active_device: final(config).spotify_prefer_active_device,
            ..*old(config)
        }),
        final(config).spotify_browser.deep_view() == if service == MusicService::Spotify {
            match answer_of(values.deep_view(), PLAYBACK_BROWSER@) {
                Some(h) => playback_choice(h),
                None => old(config).spotify_browser.deep_view(),
            }
        } else {
            old(config).spotify_browser.deep_view()
        },
        final(config).spotify_prefer_active_device == if service == MusicService::Spotify {
            match answer_of(values.deep_view(), PREFER_ACTIVE_DEVICE@) {
                Some(p) => p == "true"@,
                None => old(config).spotify_prefer_active_device,
            }
        } else {
            old(config).spotify_prefer_active_device
        },
{
    if service != MusicService::Spotify {
        return;
    }
    if let Some(host) = value_of(values, PLAYBACK_BROWSER) {
        config.spotify_browser = if str_eq(host, AUTOMATIC) {
            None
        } else {
            Some(owned(host))
        };
    }
    if let Some(prefer) = value_of(values, PREFER_ACTIVE_DEVICE) {
        config.spotify_prefer_active_device = str_eq(prefer, "true");
    }
}

/// What a refusal says when a draft is saved without being checked first. A
/// client renders the [`Problem`] itself; this is for the log.
pub fn problem_text(problem: &Problem) -> (r: String)
    ensures
        r@ == match problem.label.deep_view() {
            TextV::Key(k) => k,
            TextV::Literal(t) => t,
        },
{
    match &problem.label {
        Text::Key(key) => key.clone(),
        Text::Literal(text) => text.clone(),
    }
}

} // verus!
