# kopuz

The decision logic of the Kopuz music daemon and its frontends, as a Verus
library. Every function in `src/` carries a contract. Verus proves all of them
but seven: the wrappers marked `#[verifier::external_body]` around calls into
std and outside crates (`String::push`, case mapping and `Path::file_name` in
`text` and `url_download`, SHA-256 in `artwork`, the random bytes and the UUID
text in `source_service`), whose contracts Verus believes as written.

- `src/` — the verified library.
  - `config`, `config_service`: the settings model; what a caller may write,
    what it is shown, which keys a write changed, source switching.
  - `services`, `schema`, `sources`: the service registry and the field lists
    the daemon publishes.
  - `source_service`: adding, editing and removing libraries and servers,
    sign-in flows, credential upkeep.
  - `library`, `wire`: paging, search, queue assembly by keys, the transient
    track cache, recents, radio rows and the wire row of a track.
  - `artwork`: covers, cache names, the cover lookup settings.
  - `url_download`: the yt-dlp downloader's formats, settings, command line,
    output parsing and history.
  - `presence`: Discord presence text, connection pacing and cover URLs.
  - `spotify`, `android_exo`, `player_task`, `frontend`: the state machines of
    the playback engines, the player's tick and the frontends' small decisions.
  - `text`, `error`, `jobs`: shared helpers and wire types.
- `tests/` — tests that run the compiled library.
- `app/` — the unverified edges: the yt-dlp process, the Discord pipe, network
  lookups for covers, and the values that need floating point or a hasher.
