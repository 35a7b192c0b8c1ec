//! Authority over the running settings: what a caller may write, what it is
//! shown, and which keys a write changed.
//!
//! The settings are handled here as a document: each top-level key with its
//! serialized value, in the order the serializer writes them. Reading and
//! persisting that document is the caller's; deciding what a write may do is
//! this module's.

use vstd::prelude::*;
use crate::config::{AppConfig, MusicServer, MusicService, OfflineTrack, SavedServer, Source};
use crate::error::{ApiError, ErrorCode};
use crate::text::{concat2, join, joined, owned, push_deep, str_eq};

verus! {

// ---------------------------------------------------------------- the document

/// One top-level key and its serialized value.
#[derive(Debug, Clone, PartialEq, Eq)]
pub struct ConfigEntry {
    pub key: String,
    pub value: String,
}

/// The settings as a document of top-level keys.
#[derive(Debug, Clone, PartialEq, Eq)]
pub struct ConfigDoc {
    pub entries: Vec<ConfigEntry>,
}

impl DeepView for ConfigEntry {
    type V = (Seq<char>, Seq<char>);

    open spec fn deep_view(&self) -> (Seq<char>, Seq<char>) {
        (self.key@, self.value@)
    }
}

impl View for ConfigDoc {
    type V = Seq<(Seq<char>, Seq<char>)>;

    open spec fn view(&self) -> Seq<(Seq<char>, Seq<char>)> {
        self.entries.deep_view()
    }
}

/// No key occurs twice.
pub open spec fn unique_keys(doc: Seq<(Seq<char>, Seq<char>)>) -> bool {
    forall|i: int, j: int| 0 <= i < j < doc.len() ==> doc[i].0 != doc[j].0
}

/// The value of the first entry with this key.
pub open spec fn value_in(doc: Seq<(Seq<char>, Seq<char>)>, key: Seq<char>) -> Option<Seq<char>>
    decreases doc.len(),
{
    if doc.len() == 0 {
        None
    } else if doc[0].0 == key {
        Some(doc[0].1)
    } else {
        value_in(doc.drop_first(), key)
    }
}

/// The keys the daemon owns: credentials, path state that only means
/// something on this machine, and the settings it publishes as field lists
/// of its own.
pub open spec fn daemon_owned_keys() -> Seq<Seq<char>> {
    seq![
        "server"@,
        "servers"@,
        "musicbrainz_token"@,
        "lastfm_api_key"@,
        "lastfm_api_secret"@,
        "lastfm_session_key"@,
        "librefm_api_key"@,
        "librefm_api_secret"@,
        "librefm_session_key"@,
        "offline_tracks"@,
        "spotify_browser"@,
        "spotify_prefer_active_device"@,
        "discord_presence"@,
        "discord_presence_paused"@,
        "discord_presence_source"@,
        "ytdlp_output_dir"@,
        "ytdlp_options"@,
        "ytdlp_history"@,
    ]
}

/// An entry with the value `current` holds for it, where its key is the
/// daemon's.
pub open spec fn keep_owned(
    e: (Seq<char>, Seq<char>),
    current: Seq<(Seq<char>, Seq<char>)>,
) -> (Seq<char>, Seq<char>) {
    if daemon_owned_keys().contains(e.0) {
        match value_in(current, e.0) {
            Some(v) => (e.0, v),
            None => e,
        }
    } else {
        e
    }
}

/// A caller's document with the daemon's keys restored from `current`.
pub open spec fn with_owned(
    incoming: Seq<(Seq<char>, Seq<char>)>,
    current: Seq<(Seq<char>, Seq<char>)>,
) -> Seq<(Seq<char>, Seq<char>)> {
    incoming.map_values(|e: (Seq<char>, Seq<char>)| keep_owned(e, current))
}

/// An entry as a caller reads it: the daemon's keys show their defaults,
/// except which tracks have an offline copy.
pub open spec fn strip_entry(
    e: (Seq<char>, Seq<char>),
    defaults: Seq<(Seq<char>, Seq<char>)>,
) -> (Seq<char>, Seq<char>) {
    if daemon_owned_keys().contains(e.0) && e.0 != "offline_tracks"@ {
        match value_in(defaults, e.0) {
            Some(v) => (e.0, v),
            None => e,
        }
    } else {
        e
    }
}

/// The document a caller reads.
pub open spec fn stripped_doc(
    config: Seq<(Seq<char>, Seq<char>)>,
    defaults: Seq<(Seq<char>, Seq<char>)>,
) -> Seq<(Seq<char>, Seq<char>)> {
    config.map_values(|e: (Seq<char>, Seq<char>)| strip_entry(e, defaults))
}

/// The keys of `updated` whose value `current` does not hold, in order.
pub open spec fn changed_in(
    current: Seq<(Seq<char>, Seq<char>)>,
    updated: Seq<(Seq<char>, Seq<char>)>,
) -> Seq<Seq<char>>
    decreases updated.len(),
{
    if updated.len() == 0 {
        Seq::empty()
    } else {
        changed_in(current, updated.drop_last()) + if value_in(current, updated.last().0) != Some(
            updated.last().1,
        ) {
            seq![updated.last().0]
        } else {
            Seq::empty()
        }
    }
}

/// The keys among `keys` that `locked` holds, in order.
pub open spec fn locked_among(keys: Seq<Seq<char>>, locked: Seq<Seq<char>>) -> Seq<Seq<char>>
    decreases keys.len(),
{
    if keys.len() == 0 {
        Seq::empty()
    } else {
        locked_among(keys.drop_last(), locked) + if locked.contains(keys.last()) {
            seq![keys.last()]
        } else {
            Seq::empty()
        }
    }
}

// ---------------------------------------------------------------- lemmas

proof fn lemma_value_in_unique(doc: Seq<(Seq<char>, Seq<char>)>, i: int)
    requires
        unique_keys(doc),
        0 <= i < doc.len(),
    ensures
        value_in(doc, doc[i].0) == Some(doc[i].1),
    decreases doc.len(),
{
    if i > 0 {
        assert(doc[0].0 != doc[i].0);
        let rest = doc.drop_first();
        assert(rest[i - 1] == doc[i]);
        lemma_value_in_unique(rest, i - 1);
    }
}

proof fn lemma_value_in_mapped(
    doc: Seq<(Seq<char>, Seq<char>)>,
    current: Seq<(Seq<char>, Seq<char>)>,
    key: Seq<char>,
)
    ensures
        value_in(with_owned(doc, current), key) == match value_in(doc, key) {
            Some(v) => Some(keep_owned((key, v), current).1),
            None => None,
        },
    decreases doc.len(),
{
    if doc.len() > 0 {
        assert(with_owned(doc, current).drop_first() =~= with_owned(doc.drop_first(), current));
        lemma_value_in_mapped(doc.drop_first(), current, key);
    }
}

proof fn lemma_unchanged(current: Seq<(Seq<char>, Seq<char>)>, n: int)
    requires
        unique_keys(current),
        0 <= n <= current.len(),
    ensures
        changed_in(current, current.take(n)).len() == 0,
    decreases n,
{
    if n > 0 {
        assert(current.take(n).drop_last() =~= current.take(n - 1));
        lemma_unchanged(current, n - 1);
        lemma_value_in_unique(current, n - 1);
    }
}

proof fn lemma_with_owned_keys(incoming: Seq<(Seq<char>, Seq<char>)>, current: Seq<(Seq<char>, Seq<char>)>)
    ensures
        with_owned(incoming, current).len() == incoming.len(),
        forall|i: int| 0 <= i < incoming.len() ==> #[trigger] with_owned(incoming, current)[i].0
            == incoming[i].0,
        unique_keys(incoming) ==> unique_keys(with_owned(incoming, current)),
{
    let out = with_owned(incoming, current);
    assert forall|i: int, j: int| unique_keys(incoming) && 0 <= i < j < out.len() implies out[i].0
        != out[j].0 by {
        assert(out[i].0 == incoming[i].0 && out[j].0 == incoming[j].0);
    }
}

proof fn lemma_stripped_keys(config: Seq<(Seq<char>, Seq<char>)>, defaults: Seq<(Seq<char>, Seq<char>)>)
    ensures
        unique_keys(config) ==> unique_keys(stripped_doc(config, defaults)),
{
    let out = stripped_doc(config, defaults);
    assert forall|i: int, j: int| unique_keys(config) && 0 <= i < j < out.len() implies out[i].0
        != out[j].0 by {
        assert(out[i].0 == config[i].0 && out[j].0 == config[j].0);
    }
}

// ---------------------------------------------------------------- laws

/// A caller that writes back exactly what it read changes nothing: the
/// daemon's keys come back from what it holds, and no key reads as changed.
pub proof fn unchanged_write_changes_nothing(
    current: Seq<(Seq<char>, Seq<char>)>,
    defaults: Seq<(Seq<char>, Seq<char>)>,
)
    requires
        unique_keys(current),
    ensures
        with_owned(stripped_doc(current, defaults), current) == current,
        changed_in(current, with_owned(stripped_doc(current, defaults), current)).len() == 0,
{
    let back = with_owned(stripped_doc(current, defaults), current);
    assert forall|i: int| 0 <= i < current.len() implies back[i] == current[i] by {
        lemma_value_in_unique(current, i);
    }
    assert(back =~= current);
    lemma_unchanged(current, current.len() as int);
    assert(current.take(current.len() as int) =~= current);
}

/// Whatever a caller writes, a key the daemon owns keeps the value the
/// daemon holds for it.
pub proof fn owned_keys_survive_a_write(
    incoming: Seq<(Seq<char>, Seq<char>)>,
    current: Seq<(Seq<char>, Seq<char>)>,
    key: Seq<char>,
)
    requires
        daemon_owned_keys().contains(key),
        value_in(incoming, key) is Some,
        value_in(current, key) is Some,
    ensures
        value_in(with_owned(incoming, current), key) == value_in(current, key),
{
    lemma_value_in_mapped(incoming, current, key);
}

proof fn lemma_changed_differs(current: Seq<(Seq<char>, Seq<char>)>, updated: Seq<(Seq<char>, Seq<char>)>, i: int)
    requires
        0 <= i < changed_in(current, updated).len(),
    ensures
        exists|j: int|
            0 <= j < updated.len() && #[trigger] updated[j].0 == changed_in(current, updated)[i]
                && value_in(current, updated[j].0) != Some(updated[j].1),
    decreases updated.len(),
{
    let before = changed_in(current, updated.drop_last());
    if i < before.len() {
        lemma_changed_differs(current, updated.drop_last(), i);
        let j = choose|j: int|
            0 <= j < updated.drop_last().len() && #[trigger] updated.drop_last()[j].0 == before[i]
                && value_in(current, updated.drop_last()[j].0) != Some(updated.drop_last()[j].1);
        assert(updated[j] == updated.drop_last()[j]);
    } else {
        let j = updated.len() - 1;
        assert(updated[j].0 == changed_in(current, updated)[i]);
    }
}

proof fn lemma_none_locked(keys: Seq<Seq<char>>, locked: Seq<Seq<char>>)
    requires
        forall|i: int| 0 <= i < keys.len() ==> !locked.contains(#[trigger] keys[i]),
    ensures
        locked_among(keys, locked).len() == 0,
    decreases keys.len(),
{
    if keys.len() > 0 {
        lemma_none_locked(keys.drop_last(), locked);
        assert(!locked.contains(keys[keys.len() - 1]));
    }
}

/// A write that leaves every locked key as the daemon holds it is never
/// refused, so a read-modify-write of any other key still succeeds while a
/// managed settings file pins one.
pub proof fn untouched_locked_keys_are_never_refused(
    incoming: Seq<(Seq<char>, Seq<char>)>,
    current: Seq<(Seq<char>, Seq<char>)>,
    locked: Seq<Seq<char>>,
)
    requires
        unique_keys(incoming),
        forall|k: Seq<char>|
            #[trigger] locked.contains(k) && value_in(incoming, k) is Some ==> value_in(
                incoming,
                k,
            ) == value_in(current, k),
    ensures
        locked_among(changed_in(current, with_owned(incoming, current)), locked).len() == 0,
{
    let updated = with_owned(incoming, current);
    let changed = changed_in(current, updated);
    assert(unique_keys(updated)) by {
        assert forall|i: int, j: int| 0 <= i < j < updated.len() implies updated[i].0
            != updated[j].0 by {
            assert(updated[i].0 == incoming[i].0 && updated[j].0 == incoming[j].0);
        }
    }
    assert forall|i: int| 0 <= i < changed.len() implies !locked.contains(#[trigger] changed[i]) by {
        lemma_changed_differs(current, updated, i);
        let j = choose|j: int|
            0 <= j < updated.len() && #[trigger] updated[j].0 == changed[i] && value_in(
                current,
                updated[j].0,
            ) != Some(updated[j].1);
        let k = updated[j].0;
        lemma_value_in_unique(updated, j);
        lemma_value_in_mapped(incoming, current, k);
        if locked.contains(k) {
            assert(value_in(incoming, k) is Some);
            assert(value_in(incoming, k) == value_in(current, k));
            match value_in(incoming, k) {
                Some(v) => {
                    assert(keep_owned((k, v), current).1 == v);
                },
                None => {},
            }
        }
    }
    lemma_none_locked(changed, locked);
}

proof fn lemma_value_in_index(doc: Seq<(Seq<char>, Seq<char>)>, key: Seq<char>)
    requires
        value_in(doc, key) is Some,
    ensures
        exists|j: int| 0 <= j < doc.len() && #[trigger] doc[j].0 == key && value_in(doc, key) == Some(doc[j].1),
    decreases doc.len(),
{
    if doc[0].0 == key {
        assert(doc[0].0 == key);
    } else {
        lemma_value_in_index(doc.drop_first(), key);
        let j = choose|j: int|
            0 <= j < doc.drop_first().len() && #[trigger] doc.drop_first()[j].0 == key && value_in(
                doc.drop_first(),
                key,
            ) == Some(doc.drop_first()[j].1);
        assert(doc[j + 1] == doc.drop_first()[j]);
    }
}

proof fn lemma_changed_contains(current: Seq<(Seq<char>, Seq<char>)>, updated: Seq<(Seq<char>, Seq<char>)>, j: int)
    requires
        0 <= j < updated.len(),
        value_in(current, updated[j].0) != Some(updated[j].1),
    ensures
        changed_in(current, updated).contains(updated[j].0),
    decreases updated.len(),
{
    let before = changed_in(current, updated.drop_last());
    let all = changed_in(current, updated);
    if j == updated.len() - 1 {
        assert(all[all.len() - 1] == updated[j].0);
    } else {
        assert(updated.drop_last()[j] == updated[j]);
        lemma_changed_contains(current, updated.drop_last(), j);
        let k = choose|k: int| 0 <= k < before.len() && before[k] == updated[j].0;
        assert(all[k] == before[k]);
    }
}

/// The keys a write reports as changed are exactly those whose value the
/// written settings hold differently from what was held, each once looked
/// up by key.
pub proof fn changed_keys_are_the_differing_ones(
    current: Seq<(Seq<char>, Seq<char>)>,
    updated: Seq<(Seq<char>, Seq<char>)>,
    key: Seq<char>,
)
    requires
        unique_keys(updated),
    ensures
        changed_in(current, updated).contains(key) <==> (value_in(updated, key) is Some && value_in(
            updated,
            key,
        ) != value_in(current, key)),
{
    let changed = changed_in(current, updated);
    if changed.contains(key) {
        let i = choose|i: int| 0 <= i < changed.len() && changed[i] == key;
        lemma_changed_differs(current, updated, i);
        let j = choose|j: int|
            0 <= j < updated.len() && #[trigger] updated[j].0 == changed[i] && value_in(
                current,
                updated[j].0,
            ) != Some(updated[j].1);
        lemma_value_in_unique(updated, j);
    }
    if value_in(updated, key) is Some && value_in(updated, key) != value_in(current, key) {
        lemma_value_in_index(updated, key);
        let j = choose|j: int|
            0 <= j < updated.len() && #[trigger] updated[j].0 == key && value_in(updated, key) == Some(
                updated[j].1,
            );
        lemma_changed_contains(current, updated, j);
    }
}

// ---------------------------------------------------------------- reading it

impl ConfigDoc {
    /// Whether no key occurs twice, as in every document read from a
    /// serialized settings object.
    pub fn has_unique_keys(&self) -> (r: bool)
        ensures
            r == unique_keys(self@),
    {
        let n = self.entries.len();
        let mut i: usize = 0;
        while i < n
            invariant
                n == self@.len(),
                i <= n,
                forall|a: int, b: int| 0 <= a < b < n && a < i ==> self@[a].0 != self@[b].0,
            decreases n - i,
        {
            let mut j: usize = i + 1;
            while j < n
                invariant
                    n == self@.len(),
                    i < n,
                    i + 1 <= j <= n,
                    forall|b: int| i < b < j ==> self@[i as int].0 != #[trigger] self@[b].0,
                decreases n - j,
            {
                if str_eq(self.entries[i].key.as_str(), self.entries[j].key.as_str()) {
                    assert(self@[i as int].0 == self@[j as int].0);
                    return false;
                }
                j += 1;
            }
            i += 1;
        }
        true
    }

    /// A copy with the same entries.
    pub fn duplicate(&self) -> (r: ConfigDoc)
        ensures
            r@ == self@,
    {
        let mut entries: Vec<ConfigEntry> = Vec::new();
        let mut i: usize = 0;
        while i < self.entries.len()
            invariant
                i <= self.entries.len(),
                entries.deep_view() == self@.take(i as int),
            decreases self.entries.len() - i,
        {
            let e = &self.entries[i];
            assert(self@[i as int] == e.deep_view());
            push_deep(&mut entries, ConfigEntry { key: e.key.clone(), value: e.value.clone() });
            assert(entries.deep_view() =~= self@.take(i + 1));
            i += 1;
        }
        assert(self@.take(self.entries.len() as int) =~= self@);
        ConfigDoc { entries }
    }
}

/// The value the document holds for a key.
pub fn lookup<'a>(doc: &'a ConfigDoc, key: &str) -> (r: Option<&'a str>)
    ensures
        r.deep_view() == value_in(doc@, key@),
{
    let entries = &doc.entries;
    let mut i: usize = 0;
    assert(doc@.skip(0) =~= doc@);
    while i < entries.len()
        invariant
            i <= entries.len(),
            doc@ == entries.deep_view(),
            value_in(doc@, key@) == value_in(doc@.skip(i as int), key@),
        decreases entries.len() - i,
    {
        assert(doc@.skip(i as int)[0] == entries[i as int].deep_view());
        if str_eq(entries[i].key.as_str(), key) {
            return Some(entries[i].value.as_str());
        }
        assert(doc@.skip(i as int).drop_first() =~= doc@.skip(i + 1));
        i += 1;
    }
    None
}

proof fn lemma_owned_keys(k: Seq<char>)
    ensures
        daemon_owned_keys().contains(k) <==> (
            k == "server"@ || k == "servers"@ || k == "musicbrainz_token"@ ||
                k == "lastfm_api_key"@ || k == "lastfm_api_secret"@ ||
                k == "lastfm_session_key"@ || k == "librefm_api_key"@ ||
                k == "librefm_api_secret"@ || k == "librefm_session_key"@ ||
                k == "offline_tracks"@ || k == "spotify_browser"@ ||
                k == "spotify_prefer_active_device"@ || k == "discord_presence"@ ||
                k == "discord_presence_paused"@ || k == "discord_presence_source"@ ||
                k == "ytdlp_output_dir"@ || k == "ytdlp_options"@ || k == "ytdlp_history"@
        ),
{
    let s = daemon_owned_keys();
    if k == "server"@ {
        assert(s[0] == k);
    }
    if k == "servers"@ {
        assert(s[1] == k);
    }
    if k == "musicbrainz_token"@ {
        assert(s[2] == k);
    }
    if k == "lastfm_api_key"@ {
        assert(s[3] == k);
    }
    if k == "lastfm_api_secret"@ {
        assert(s[4] == k);
    }
    if k == "lastfm_session_key"@ {
        assert(s[5] == k);
    }
    if k == "librefm_api_key"@ {
        assert(s[6] == k);
    }
    if k == "librefm_api_secret"@ {
        assert(s[7] == k);
    }
    if k == "librefm_session_key"@ {
        assert(s[8] == k);
    }
    if k == "offline_tracks"@ {
        assert(s[9] == k);
    }
    if k == "spotify_browser"@ {
        assert(s[10] == k);
    }
    if k == "spotify_prefer_active_device"@ {
        assert(s[11] == k);
    }
    if k == "discord_presence"@ {
        assert(s[12] == k);
    }
    if k == "discord_presence_paused"@ {
        assert(s[13] == k);
    }
    if k == "discord_presence_source"@ {
        assert(s[14] == k);
    }
    if k == "ytdlp_output_dir"@ {
        assert(s[15] == k);
    }
    if k == "ytdlp_options"@ {
        assert(s[16] == k);
    }
    if k == "ytdlp_history"@ {
        assert(s[17] == k);
    }
}

/// A caller's write-back never decides what the daemon owns: every entry
/// under a credential, a path or state of this machine, or a setting the
/// daemon publishes as its own field list takes the value the current
/// document holds for it, where it holds one; every other entry is kept as
/// written, and nothing is added or dropped.
pub proof fn a_write_back_keeps_what_the_daemon_owns(
    incoming: Seq<(Seq<char>, Seq<char>)>,
    current: Seq<(Seq<char>, Seq<char>)>,
    i: int,
)
    requires
        0 <= i < incoming.len(),
    ensures
        with_owned(incoming, current).len() == incoming.len(),
        ({
            let k = incoming[i].0;
            let owned = (
                k == "server"@ || k == "servers"@ || k == "musicbrainz_token"@ ||
                    k == "lastfm_api_key"@ || k == "lastfm_api_secret"@ ||
                    k == "lastfm_session_key"@ || k == "librefm_api_key"@ ||
                    k == "librefm_api_secret"@ || k == "librefm_session_key"@ ||
                    k == "offline_tracks"@ || k == "spotify_browser"@ ||
                    k == "spotify_prefer_active_device"@ || k == "discord_presence"@ ||
                    k == "discord_presence_paused"@ || k == "discord_presence_source"@ ||
                    k == "ytdlp_output_dir"@ || k == "ytdlp_options"@ || k == "ytdlp_history"@
            );
            let out = with_owned(incoming, current)[i];
            &&& owned && value_in(current, k) is Some ==> out == (k, value_in(current, k)->0)
            &&& !owned ==> out == incoming[i]
            &&& value_in(current, k) is None ==> out == incoming[i]
        }),
{
    lemma_owned_keys(incoming[i].0);
}

/// What a caller reads hides what the daemon owns: every entry under a
/// credential, a path or state of this machine, or a setting the daemon
/// publishes as its own field list shows its default value, where a default
/// is known; which tracks have an offline copy is shown as it is, not being
/// a secret; every other entry is shown as it is, and nothing is added or
/// dropped.
pub proof fn a_caller_reads_defaults_for_what_the_daemon_owns(
    config: Seq<(Seq<char>, Seq<char>)>,
    defaults: Seq<(Seq<char>, Seq<char>)>,
    i: int,
)
    requires
        0 <= i < config.len(),
    ensures
        stripped_doc(config, defaults).len() == config.len(),
        ({
            let k = config[i].0;
            let owned = (
                k == "server"@ || k == "servers"@ || k == "musicbrainz_token"@ ||
                    k == "lastfm_api_key"@ || k == "lastfm_api_secret"@ ||
                    k == "lastfm_session_key"@ || k == "librefm_api_key"@ ||
                    k == "librefm_api_secret"@ || k == "librefm_session_key"@ ||
                    k == "offline_tracks"@ || k == "spotify_browser"@ ||
                    k == "spotify_prefer_active_device"@ || k == "discord_presence"@ ||
                    k == "discord_presence_paused"@ || k == "discord_presence_source"@ ||
                    k == "ytdlp_output_dir"@ || k == "ytdlp_options"@ || k == "ytdlp_history"@
            );
            let out = stripped_doc(config, defaults)[i];
            &&& owned && k != "offline_tracks"@ && value_in(defaults, k) is Some ==> out == (
                k,
                value_in(defaults, k)->0,
            )
            &&& k == "offline_tracks"@ ==> out == config[i]
            &&& !owned ==> out == config[i]
            &&& value_in(defaults, k) is None ==> out == config[i]
        }),
{
    lemma_owned_keys(config[i].0);
}

/// Whether the daemon owns a key.
pub fn is_daemon_owned(key: &str) -> (r: bool)
    ensures
        r == daemon_owned_keys().contains(key@),
{
    let owned_keys: Vec<&str> = vec![
        "server",
        "servers",
        "musicbrainz_token",
        "lastfm_api_key",
        "lastfm_api_secret",
        "lastfm_session_key",
        "librefm_api_key",
        "librefm_api_secret",
        "librefm_session_key",
        "offline_tracks",
        "spotify_browser",
        "spotify_prefer_active_device",
        "discord_presence",
        "discord_presence_paused",
        "discord_presence_source",
        "ytdlp_output_dir",
        "ytdlp_options",
        "ytdlp_history",
    ];
    let ghost want = daemon_owned_keys();
    assert(owned_keys@.map_values(|k: &str| k@) =~= want);
    let mut i: usize = 0;
    while i < owned_keys.len()
        invariant
            i <= owned_keys.len(),
            owned_keys@.map_values(|k: &str| k@) == want,
            want == daemon_owned_keys(),
            forall|j: int| 0 <= j < i ==> want[j] != key@,
        decreases owned_keys.len() - i,
    {
        assert(want[i as int] == owned_keys@[i as int]@);
        if str_eq(owned_keys[i], key) {
            assert(want.contains(key@)) by {
                assert(want[i as int] == key@);
            }
            return true;
        }
        i += 1;
    }
    false
}

/// Keep what the daemon owns: the credentials, and the settings it publishes
/// as field lists of its own. Both are absent from the surface a caller reads,
/// so a caller writing that surface back must not be able to blank them.
pub fn with_daemon_owned_fields(incoming: ConfigDoc, current: &ConfigDoc) -> (r: ConfigDoc)
    ensures
        r@ == with_owned(incoming@, current@),
        unique_keys(incoming@) ==> unique_keys(r@),
{
    proof {
        lemma_with_owned_keys(incoming@, current@);
    }
    let ghost want = with_owned(incoming@, current@);
    let mut entries: Vec<ConfigEntry> = Vec::new();
    let mut i: usize = 0;
    while i < incoming.entries.len()
        invariant
            i <= incoming.entries.len(),
            want == with_owned(incoming@, current@),
            entries.deep_view() == want.take(i as int),
        decreases incoming.entries.len() - i,
    {
        let e = &incoming.entries[i];
        assert(incoming@[i as int] == e.deep_view());
        let value = if is_daemon_owned(e.key.as_str()) {
            match lookup(current, e.key.as_str()) {
                Some(v) => owned(v),
                None => e.value.clone(),
            }
        } else {
            e.value.clone()
        };
        push_deep(&mut entries, ConfigEntry { key: e.key.clone(), value });
        assert(entries.deep_view() =~= want.take(i + 1));
        i += 1;
    }
    assert(want.take(incoming.entries.len() as int) =~= want);
    ConfigDoc { entries }
}

/// The settings blanked for a caller: what the daemon owns reads as its
/// default. Not a security boundary on a socket only this user can open; it
/// keeps secrets out of a surface that is written back wholesale. Which
/// tracks have an offline copy is not a secret, and is kept.
pub fn stripped(config: &ConfigDoc, defaults: &ConfigDoc) -> (r: ConfigDoc)
    ensures
        r@ == stripped_doc(config@, defaults@),
        unique_keys(config@) ==> unique_keys(r@),
{
    proof {
        lemma_stripped_keys(config@, defaults@);
    }
    let ghost want = stripped_doc(config@, defaults@);
    let mut entries: Vec<ConfigEntry> = Vec::new();
    let mut i: usize = 0;
    while i < config.entries.len()
        invariant
            i <= config.entries.len(),
            want == stripped_doc(config@, defaults@),
            entries.deep_view() == want.take(i as int),
        decreases config.entries.len() - i,
    {
        let e = &config.entries[i];
        assert(config@[i as int] == e.deep_view());
        let value = if is_daemon_owned(e.key.as_str()) && !str_eq(
            e.key.as_str(),
            "offline_tracks",
        ) {
            match lookup(defaults, e.key.as_str()) {
                Some(v) => owned(v),
                None => e.value.clone(),
            }
        } else {
            e.value.clone()
        };
        push_deep(&mut entries, ConfigEntry { key: e.key.clone(), value });
        assert(entries.deep_view() =~= want.take(i + 1));
        i += 1;
    }
    assert(want.take(config.entries.len() as int) =~= want);
    ConfigDoc { entries }
}

/// Which top-level keys differ: those of `updated` whose value `current`
/// does not hold.
pub fn changed_keys(current: &ConfigDoc, updated: &ConfigDoc) -> (r: Vec<String>)
    ensures
        r.deep_view() == changed_in(current@, updated@),
{
    let mut keys: Vec<String> = Vec::new();
    let mut i: usize = 0;
    while i < updated.entries.len()
        invariant
            i <= updated.entries.len(),
            keys.deep_view() == changed_in(current@, updated@.take(i as int)),
        decreases updated.entries.len() - i,
    {
        let e = &updated.entries[i];
        assert(updated@[i as int] == e.deep_view());
        assert(updated@.take(i + 1).drop_last() =~= updated@.take(i as int));
        let same = match lookup(current, e.key.as_str()) {
            Some(v) => str_eq(v, e.value.as_str()),
            None => false,
        };
        if !same {
            push_deep(&mut keys, e.key.clone());
        }
        assert(keys.deep_view() =~= changed_in(current@, updated@.take(i + 1)));
        i += 1;
    }
    assert(updated@.take(updated.entries.len() as int) =~= updated@);
    keys
}

/// Whether `locked` holds `key`.
fn holds(locked: &[String], key: &str) -> (r: bool)
    ensures
        r == locked.deep_view().contains(key@),
{
    let mut i: usize = 0;
    while i < locked.len()
        invariant
            i <= locked.len(),
            forall|j: int| 0 <= j < i ==> locked.deep_view()[j] != key@,
        decreases locked.len() - i,
    {
        assert(locked.deep_view()[i as int] == locked[i as int]@);
        if str_eq(locked[i].as_str(), key) {
            return true;
        }
        i += 1;
    }
    false
}

/// The keys among `keys` that a managed file pins.
pub fn refused_keys(keys: &Vec<String>, locked: &[String]) -> (r: Vec<String>)
    ensures
        r.deep_view() == locked_among(keys.deep_view(), locked.deep_view()),
{
    let mut refused: Vec<String> = Vec::new();
    let mut i: usize = 0;
    while i < keys.len()
        invariant
            i <= keys.len(),
            refused.deep_view() == locked_among(keys.deep_view().take(i as int), locked.deep_view()),
        decreases keys.len() - i,
    {
        assert(keys.deep_view().take(i + 1).drop_last() =~= keys.deep_view().take(i as int));
        assert(keys.deep_view()[i as int] == keys[i as int]@);
        if holds(locked, keys[i].as_str()) {
            push_deep(&mut refused, keys[i].clone());
        }
        assert(refused.deep_view() =~= locked_among(keys.deep_view().take(i + 1), locked.deep_view()));
        i += 1;
    }
    assert(keys.deep_view().take(keys.len() as int) =~= keys.deep_view());
    refused
}

// ---------------------------------------------------------------- writing it

/// What replacing the settings with `incoming` does: the daemon's keys are
/// restored from `current`, and a write that changes a pinned key is refused.
/// `Ok` holds the settings to keep and the keys that changed; a write that
/// changes nothing keeps `current`.
pub fn set(incoming: ConfigDoc, current: &ConfigDoc, locked: &[String]) -> (r: Result<
    (ConfigDoc, Vec<String>),
    ApiError,
>)
    ensures
        ({
            let updated = with_owned(incoming@, current@);
            let changed = changed_in(current@, updated);
            let refused = locked_among(changed, locked.deep_view());
            match r {
                Ok((kept, keys)) => refused.len() == 0 && keys.deep_view() == changed && kept@ == (
                if changed.len() == 0 {
                    current@
                } else {
                    updated
                }),
                Err(e) => refused.len() > 0 && e.code == ErrorCode::InvalidInput && e.message@
                    == "keys locked by a managed settings file: "@ + joined(refused, ", "@),
            }
        }),
        unique_keys(incoming@) && unique_keys(current@) ==> (r matches Ok((kept, _)) ==> unique_keys(
            kept@,
        )),
{
    let updated = with_daemon_owned_fields(incoming, current);
    let changed = changed_keys(current, &updated);
    if changed.len() == 0 {
        return Ok((current.duplicate(), changed));
    }
    let refused = refused_keys(&changed, locked);
    if refused.len() > 0 {
        let names = join(&refused, ", ");
        return Err(
            ApiError::invalid_input(
                concat2("keys locked by a managed settings file: ", names.as_str()).as_str(),
            ),
        );
    }
    Ok((updated, changed))
}

/// Refuse a write that a managed settings file has pinned. A caller checks
/// the keys it is about to change, so the refusal names them.
pub fn ensure_unlocked(keys: &[&str], locked: &[String]) -> (r: Result<(), ApiError>)
    ensures
        ({
            let refused = locked_among(keys@.map_values(|k: &str| k@), locked.deep_view());
            match r {
                Ok(()) => refused.len() == 0,
                Err(e) => refused.len() > 0 && e.code == ErrorCode::InvalidInput && e.message@
                    == "these settings are pinned by a managed file: "@ + joined(refused, ", "@),
            }
        }),
{
    let mut names: Vec<String> = Vec::new();
    let mut i: usize = 0;
    while i < keys.len()
        invariant
            i <= keys.len(),
            names.deep_view() == keys@.map_values(|k: &str| k@).take(i as int),
        decreases keys.len() - i,
    {
        push_deep(&mut names, owned(keys[i]));
        assert(names.deep_view() =~= keys@.map_values(|k: &str| k@).take(i + 1));
        i += 1;
    }
    assert(keys@.map_values(|k: &str| k@).take(keys.len() as int) =~= keys@.map_values(
        |k: &str| k@,
    ));
    let refused = refused_keys(&names, locked);
    if refused.len() == 0 {
        Ok(())
    } else {
        let list = join(&refused, ", ");
        Err(
            ApiError::invalid_input(
                concat2("these settings are pinned by a managed file: ", list.as_str()).as_str(),
            ),
        )
    }
}

// ---------------------------------------------------------------- offline copies

/// Which item each registered offline copy belongs to, as a map: a later
/// registration of the same item wins.
pub open spec fn offline_map(tracks: Seq<(Seq<char>, Seq<char>)>) -> Map<Seq<char>, Seq<char>>
    decreases tracks.len(),
{
    if tracks.len() == 0 {
        Map::empty()
    } else {
        offline_map(tracks.drop_last()).insert(tracks.last().0, tracks.last().1)
    }
}

/// The registrations that are not for `item`.
pub open spec fn without_item(tracks: Seq<(Seq<char>, Seq<char>)>, item: Seq<char>) -> Seq<
    (Seq<char>, Seq<char>),
>
    decreases tracks.len(),
{
    if tracks.len() == 0 {
        tracks
    } else {
        let rest = without_item(tracks.drop_last(), item);
        if tracks.last().0 == item {
            rest
        } else {
            rest.push(tracks.last())
        }
    }
}

proof fn lemma_without_item(tracks: Seq<(Seq<char>, Seq<char>)>, item: Seq<char>)
    ensures
        offline_map(without_item(tracks, item)) == offline_map(tracks).remove(item),
    decreases tracks.len(),
{
    if tracks.len() > 0 {
        lemma_without_item(tracks.drop_last(), item);
        let e = tracks.last();
        let rest = without_item(tracks.drop_last(), item);
        if e.0 != item {
            assert(rest.push(e).drop_last() =~= rest);
        }
        assert(offline_map(without_item(tracks, item)) =~= offline_map(tracks).remove(item));
    }
}

/// Register, or with `None` forget, the offline copy of one item. Nothing
/// else in the settings changes.
pub fn set_offline_track(config: &mut AppConfig, item_id: &str, path: Option<String>)
    ensures
        *final(config) == (AppConfig { offline_tracks: final(config).offline_tracks, ..*old(config) }),
        offline_map(final(config).offline_tracks.deep_view()) == match path {
            Some(p) => offline_map(old(config).offline_tracks.deep_view()).insert(item_id@, p@),
            None => offline_map(old(config).offline_tracks.deep_view()).remove(item_id@),
        },
{
    let ghost before = config.offline_tracks.deep_view();
    let mut kept: Vec<OfflineTrack> = Vec::new();
    let mut i: usize = 0;
    while i < config.offline_tracks.len()
        invariant
            i <= config.offline_tracks.len(),
            before == config.offline_tracks.deep_view(),
            kept.deep_view() == without_item(before.take(i as int), item_id@),
        decreases config.offline_tracks.len() - i,
    {
        let t = &config.offline_tracks[i];
        assert(before[i as int] == t.deep_view());
        assert(before.take(i + 1).drop_last() =~= before.take(i as int));
        if !str_eq(t.item_id.as_str(), item_id) {
            push_deep(&mut kept, OfflineTrack { item_id: t.item_id.clone(), path: t.path.clone() });
        }
        i += 1;
    }
    assert(before.take(config.offline_tracks.len() as int) =~= before);
    proof {
        lemma_without_item(before, item_id@);
    }
    let ghost rest = kept.deep_view();
    match path {
        Some(p) => {
            push_deep(&mut kept, OfflineTrack { item_id: owned(item_id), path: p });
            assert(kept.deep_view().drop_last() =~= rest);
            assert(offline_map(kept.deep_view()) =~= offline_map(before).insert(item_id@, kept.deep_view().last().1));
        },
        None => {},
    }
    config.offline_tracks = kept;
}

// ---------------------------------------------------------------- switching

/// The first saved server with this id.
pub open spec fn saved_server(servers: Seq<SavedServer>, id: Seq<char>) -> Option<SavedServer>
    decreases servers.len(),
{
    if servers.len() == 0 {
        None
    } else if servers[0].id@ == id {
        Some(servers[0])
    } else {
        saved_server(servers.drop_first(), id)
    }
}

/// Find a saved server by id.
pub fn find_saved_server<'a>(config: &'a AppConfig, id: &str) -> (r: Option<&'a SavedServer>)
    ensures
        match r {
            Some(s) => saved_server(config.servers@, id@) == Some(*s),
            None => saved_server(config.servers@, id@) is None,
        },
{
    let servers = &config.servers;
    let mut i: usize = 0;
    assert(servers@.skip(0) =~= servers@);
    while i < servers.len()
        invariant
            i <= servers.len(),
            servers@ == config.servers@,
            saved_server(servers@, id@) == saved_server(servers@.skip(i as int), id@),
        decreases servers.len() - i,
    {
        assert(servers@.skip(i as int)[0] == servers@[i as int]);
        if str_eq(servers[i].id.as_str(), id) {
            return Some(&servers[i]);
        }
        assert(servers@.skip(i as int).drop_first() =~= servers@.skip(i + 1));
        i += 1;
    }
    None
}

/// What the daemon keeps about a server's sign-in.
pub struct StoredCredentials {
    pub access_token: Option<String>,
    pub user_id: Option<String>,
}

/// Whether a YouTube Music server signs in without an account.
pub open spec fn anonymous_server(s: SavedServer) -> bool {
    s.service == MusicService::YtMusic && s.yt_anonymous
}

/// Whether credentials hold a token that is not empty.
pub open spec fn has_token(stored: Option<StoredCredentials>) -> bool {
    match stored {
        Some(c) => match c.access_token {
            Some(t) => t@.len() > 0,
            None => false,
        },
        None => false,
    }
}

/// The keys a switch of source changes.
pub open spec fn switched_keys() -> Seq<Seq<char>> {
    seq!["active_source"@, "server"@]
}

fn switched_key_names() -> (r: Vec<String>)
    ensures
        r.deep_view() == switched_keys(),
{
    let mut r: Vec<String> = Vec::new();
    r.push(owned("active_source"));
    r.push(owned("server"));
    r
}

/// Make `source` the active one. A local source simply becomes active; a
/// server must be configured, and becomes active with the credentials kept
/// for it, whether or not it has any. `Ok` says whether the source is usable
/// now: a server with no token needs a sign-in, unless it is an anonymous
/// YouTube Music one, whose empty token marks it as anonymous rather than
/// signed out. Only the active source and the active server change, and the
/// answer names those two keys.
pub fn switch_source(config: &mut AppConfig, source: Source, stored: Option<StoredCredentials>) -> (r:
    Result<(bool, Vec<String>), ApiError>)
    ensures
        *final(config) == (AppConfig {
            active_source: final(config).active_source,
            server: final(config).server,
            ..*old(config)
        }),
        match source {
            Source::Server(id) => match saved_server(old(config).servers@, id@) {
                None => *final(config) == *old(config) && match r {
                    Err(e) => e.code == ErrorCode::NotFound && e.message@ == "no such server"@,
                    Ok(_) => false,
                },
                Some(saved) => {
                    let anonymous = anonymous_server(saved);
                    &&& r matches Ok((usable, changed)) && usable == (has_token(stored) || anonymous)
                        && changed.deep_view() == switched_keys()
                    &&& final(config).active_source == Source::Server(saved.id)
                    &&& final(config).server matches Some(s) && s.id == Some(saved.id) && s.name
                        == saved.name && s.url == saved.url && s.service == saved.service
                        && s.yt_browser == saved.yt_browser && s.yt_anonymous == anonymous
                        && s.apple_music_storefront == saved.apple_music_storefront
                        && s.apple_music_language == saved.apple_music_language
                        && s.access_token.deep_view() == (if anonymous {
                        Some(Seq::<char>::empty())
                    } else {
                        match stored {
                            Some(c) => c.access_token.deep_view(),
                            None => None,
                        }
                    }) && s.user_id.deep_view() == match stored {
                        Some(c) => c.user_id.deep_view(),
                        None => None,
                    }
                },
            },
            _ => r matches Ok((usable, changed)) && usable && changed.deep_view() == switched_keys()
                && final(config).active_source == source
                && final(config).server is None,
        },
{
    match source {
        Source::Server(id) => {
            let saved = match find_saved_server(config, id.as_str()) {
                Some(s) => s,
                None => {
                    return Err(ApiError::not_found("no such server"));
                },
            };
            let anonymous = saved.service == MusicService::YtMusic && saved.yt_anonymous;
            let (token, user_id) = match stored {
                Some(c) => (c.access_token, c.user_id),
                None => (None, None),
            };
            let has_creds = match &token {
                Some(t) => !t.as_str().is_empty(),
                None => false,
            };
            let snapshot = MusicServer {
                id: Some(saved.id.clone()),
                name: saved.name.clone(),
                url: saved.url.clone(),
                service: saved.service,
                access_token: if anonymous {
                    Some(String::new())
                } else {
                    token
                },
                user_id,
                yt_browser: saved.yt_browser,
                yt_anonymous: anonymous,
                apple_music_storefront: saved.apple_music_storefront.clone(),
                apple_music_language: saved.apple_music_language.clone(),
            };
            config.active_source = Source::Server(saved.id.clone());
            config.server = Some(snapshot);
            Ok((has_creds || anonymous, switched_key_names()))
        },
        local => {
            config.active_source = local;
            config.server = None;
            Ok((true, switched_key_names()))
        },
    }
}

} // verus!
