//! The process supervisor's decision logic: release-asset selection,
//! archive extraction, the generated configuration, the start/stop
//! rules over the process handle, and the abstract machine on which
//! the lifecycle laws are stated. Fetching, file writes and process
//! spawning are I/O and belong to the caller.

use vstd::prelude::*;

use crate::platform::{ArchiveKind, Platform, archive_kind, binary_name};
use crate::text::{spec_after_last_slash, spec_contains, spec_decimal, spec_ends_with};
use crate::text::{after_last_slash, spec_trim, str_contains, str_ends_with, trim_text};
use crate::text::u64_to_string;

verus! {

/// One downloadable asset of a release: its file name and URL.
#[derive(Debug, Clone)]
pub struct ReleaseAsset {
    pub name: String,
    pub url: String,
}

/// The view of an asset list: (name, URL) pairs.
pub open spec fn assets_view(assets: Seq<ReleaseAsset>) -> Seq<(Seq<char>, Seq<char>)> {
    assets.map_values(|a: ReleaseAsset| (a.name@, a.url@))
}

/// What a release document parses to: its version tag and its assets,
/// or a decoding error.
pub uninterp spec fn release_of(text: Seq<char>) -> Result<
    (Seq<char>, Seq<(Seq<char>, Seq<char>)>),
    Seq<char>,
>;

/// Relies on serde_json: decodes a "latest release" document — a
/// `tag_name` and a list of assets each holding `name` and
/// `browser_download_url`.
#[verifier::external_body]
pub fn parse_release(text: &str) -> (r: Result<(String, Vec<ReleaseAsset>), String>)
    ensures
        match r {
            Ok(rel) => release_of(text@) == Ok::<(Seq<char>, Seq<(Seq<char>, Seq<char>)>), Seq<char>>(
                (rel.0@, assets_view(rel.1@)),
            ),
            Err(e) => release_of(text@) == Err::<(Seq<char>, Seq<(Seq<char>, Seq<char>)>), Seq<char>>(
                e@,
            ),
        },
{
    let v: serde_json::Value = serde_json::from_str(text).map_err(|e| e.to_string())?;
    let tag = v.get("tag_name").and_then(|t| t.as_str()).ok_or("missing tag_name")?.to_string();
    let arr = v.get("assets").and_then(|a| a.as_array()).ok_or("missing assets")?;
    let mut assets = Vec::new();
    for a in arr {
        let name = a.get("name").and_then(|x| x.as_str()).ok_or("missing name")?.to_string();
        let url = a.get("browser_download_url").and_then(|x| x.as_str()).ok_or("missing url")?;
        assets.push(ReleaseAsset { name, url: url.to_string() });
    }
    Ok((tag, assets))
}

/// Whether an asset name is this platform's binary: it carries the
/// platform pattern and is not a checksum sidecar file.
pub open spec fn spec_asset_matches(name: Seq<char>, pattern: Seq<char>) -> bool {
    spec_contains(name, pattern) && !spec_contains(name, ".sha256"@)
}

/// The index of the first matching asset, if any.
pub open spec fn spec_select_asset(names: Seq<(Seq<char>, Seq<char>)>, pattern: Seq<char>) -> Option<
    int,
>
    decreases names.len(),
{
    if names.len() == 0 {
        None
    } else if spec_asset_matches(names[0].0, pattern) {
        Some(0)
    } else {
        match spec_select_asset(names.drop_first(), pattern) {
            Some(i) => Some(i + 1),
            None => None,
        }
    }
}

/// `spec_select_asset` returns the first match, and `None` only when
/// nothing matches.
pub proof fn lemma_spec_select_asset(names: Seq<(Seq<char>, Seq<char>)>, pattern: Seq<char>)
    ensures
        match spec_select_asset(names, pattern) {
            Some(i) => 0 <= i < names.len() && spec_asset_matches(names[i].0, pattern)
                && forall|j: int| 0 <= j < i ==> !spec_asset_matches(names[j].0, pattern),
            None => forall|j: int|
                0 <= j < names.len() ==> !spec_asset_matches(names[j].0, pattern),
        },
    decreases names.len(),
{
    if names.len() > 0 && !spec_asset_matches(names[0].0, pattern) {
        lemma_spec_select_asset(names.drop_first(), pattern);
        assert(forall|j: int| 1 <= j < names.len() ==> names[j] == names.drop_first()[j - 1]);
    }
}

/// Pick this platform's asset out of a release: the version tag and
/// the first matching asset's URL, or the error naming the pattern
/// when no asset matches.
pub fn choose_release(tag: String, assets: &Vec<ReleaseAsset>, pattern: &str) -> (r: Result<
    (String, String),
    String,
>)
    ensures
        match spec_select_asset(assets_view(assets@), pattern@) {
            Some(i) => r matches Ok(p) && p.0@ == tag@ && p.1@ == assets_view(assets@)[i].1,
            None => r matches Err(e) && e@ == "No binary found for platform: "@ + pattern@,
        },
{
    proof {
        lemma_spec_select_asset(assets_view(assets@), pattern@);
    }
    let mut i: usize = 0;
    while i < assets.len()
        invariant
            i <= assets@.len(),
            forall|j: int| 0 <= j < i ==> !spec_asset_matches(assets_view(assets@)[j].0, pattern@),
        decreases assets@.len() - i,
    {
        let matches_pattern = str_contains(assets[i].name.as_str(), pattern);
        let is_checksum = str_contains(assets[i].name.as_str(), ".sha256");
        if matches_pattern && !is_checksum {
            proof {
                assert(assets_view(assets@)[i as int].0 == assets@[i as int].name@);
                lemma_spec_select_asset(assets_view(assets@), pattern@);
                match spec_select_asset(assets_view(assets@), pattern@) {
                    Some(k) => {
                        if k < i {
                            assert(!spec_asset_matches(assets_view(assets@)[k].0, pattern@));
                        }
                        if k > i {
                            assert(!spec_asset_matches(assets_view(assets@)[i as int].0, pattern@));
                        }
                    },
                    None => {
                        assert(spec_asset_matches(assets_view(assets@)[i as int].0, pattern@));
                    },
                }
            }
            return Ok((tag, assets[i].url.clone()));
        }
        i = i + 1;
    }
    let mut msg = "No binary found for platform: ".to_owned();
    msg.append(pattern);
    Err(msg)
}

/// The view of an archive's entries: (path, bytes) pairs.
pub open spec fn entries_view(entries: Seq<(String, Vec<u8>)>) -> Seq<(Seq<char>, Seq<u8>)> {
    entries.map_values(|p: (String, Vec<u8>)| (p.0@, p.1@))
}

/// What a zip archive's bytes unpack to: its entries as (path, bytes)
/// pairs, or a decoding error.
pub uninterp spec fn zip_entries_of(data: Seq<u8>) -> Result<Seq<(Seq<char>, Seq<u8>)>, Seq<char>>;

/// Relies on zip::ZipArchive: reads every entry of the archive into
/// memory, in archive order.
#[verifier::external_body]
fn zip_entries(data: &Vec<u8>) -> (r: Result<Vec<(String, Vec<u8>)>, String>)
    ensures
        match r {
            Ok(es) => zip_entries_of(data@) == Ok::<Seq<(Seq<char>, Seq<u8>)>, Seq<char>>(
                entries_view(es@),
            ),
            Err(e) => zip_entries_of(data@) == Err::<Seq<(Seq<char>, Seq<u8>)>, Seq<char>>(e@),
        },
{
    let cursor = std::io::Cursor::new(data.as_slice());
    let mut archive = zip::ZipArchive::new(cursor).map_err(|e| e.to_string())?;
    let mut out: Vec<(String, Vec<u8>)> = Vec::new();
    for i in 0..archive.len() {
        let mut f = archive.by_index(i).map_err(|e| e.to_string())?;
        let name = f.name().to_string();
        let mut bytes = Vec::new();
        std::io::Read::read_to_end(&mut f, &mut bytes).map_err(|e| e.to_string())?;
        out.push((name, bytes));
    }
    Ok(out)
}

/// What a gzip stream's bytes decompress to, or a decoding error.
pub uninterp spec fn gunzip_of(data: Seq<u8>) -> Result<Seq<u8>, Seq<char>>;

/// Relies on flate2::read::GzDecoder: decompresses the gzip stream
/// into memory.
#[verifier::external_body]
fn gunzip(data: &Vec<u8>) -> (r: Result<Vec<u8>, String>)
    ensures
        match r {
            Ok(out) => gunzip_of(data@) == Ok::<Seq<u8>, Seq<char>>(out@),
            Err(e) => gunzip_of(data@) == Err::<Seq<u8>, Seq<char>>(e@),
        },
{
    let mut d = flate2::read::GzDecoder::new(std::io::Cursor::new(data.as_slice()));
    let mut out: Vec<u8> = Vec::new();
    std::io::Read::read_to_end(&mut d, &mut out).map_err(|e| e.to_string())?;
    Ok(out)
}

/// What a tar archive's bytes unpack to: its entries as (path, bytes)
/// pairs, or a decoding error.
pub uninterp spec fn tar_entries_of(data: Seq<u8>) -> Result<Seq<(Seq<char>, Seq<u8>)>, Seq<char>>;

/// Relies on tar::Archive: reads every entry of the archive into
/// memory, in archive order. Entry names are converted to text per
/// compile target: a non-UTF-8 name errors on Windows builds and is
/// lossily converted elsewhere, so the named result is a function of
/// the bytes within any one build.
#[verifier::external_body]
fn tar_entries(data: &Vec<u8>) -> (r: Result<Vec<(String, Vec<u8>)>, String>)
    ensures
        match r {
            Ok(es) => tar_entries_of(data@) == Ok::<Seq<(Seq<char>, Seq<u8>)>, Seq<char>>(
                entries_view(es@),
            ),
            Err(e) => tar_entries_of(data@) == Err::<Seq<(Seq<char>, Seq<u8>)>, Seq<char>>(e@),
        },
{
    let mut archive = tar::Archive::new(std::io::Cursor::new(data.as_slice()));
    let mut out: Vec<(String, Vec<u8>)> = Vec::new();
    for entry in archive.entries().map_err(|e| e.to_string())? {
        let mut entry = entry.map_err(|e| e.to_string())?;
        let name = entry.path().map_err(|e| e.to_string())?.to_string_lossy().to_string();
        let mut bytes = Vec::new();
        std::io::Read::read_to_end(&mut entry, &mut bytes).map_err(|e| e.to_string())?;
        out.push((name, bytes));
    }
    Ok(out)
}

/// Whether a zip entry is the executable to install.
pub open spec fn spec_zip_binary_entry(name: Seq<char>) -> bool {
    spec_ends_with(name, ".exe"@)
}

/// Whether a tar entry is the executable to install: its file-name
/// component is the server's.
pub open spec fn spec_tar_binary_entry(name: Seq<char>) -> bool {
    spec_after_last_slash(name) == "CLIProxyAPI"@
}

/// The index of the first entry the predicate for `kind` accepts.
pub open spec fn spec_select_entry(
    entries: Seq<(Seq<char>, Seq<u8>)>,
    kind: ArchiveKind,
) -> Option<int>
    decreases entries.len(),
{
    if entries.len() == 0 {
        None
    } else if (match kind {
        ArchiveKind::Zip => spec_zip_binary_entry(entries[0].0),
        ArchiveKind::TarGz => spec_tar_binary_entry(entries[0].0),
    }) {
        Some(0)
    } else {
        match spec_select_entry(entries.drop_first(), kind) {
            Some(i) => Some(i + 1),
            None => None,
        }
    }
}

/// Whether one entry is the binary under the given archive kind.
pub open spec fn spec_entry_matches(name: Seq<char>, kind: ArchiveKind) -> bool {
    match kind {
        ArchiveKind::Zip => spec_zip_binary_entry(name),
        ArchiveKind::TarGz => spec_tar_binary_entry(name),
    }
}

/// `spec_select_entry` returns the first match, and `None` only when
/// nothing matches.
pub proof fn lemma_spec_select_entry(entries: Seq<(Seq<char>, Seq<u8>)>, kind: ArchiveKind)
    ensures
        match spec_select_entry(entries, kind) {
            Some(i) => 0 <= i < entries.len() && spec_entry_matches(entries[i].0, kind)
                && forall|j: int| 0 <= j < i ==> !spec_entry_matches(entries[j].0, kind),
            None => forall|j: int|
                0 <= j < entries.len() ==> !spec_entry_matches(entries[j].0, kind),
        },
    decreases entries.len(),
{
    if entries.len() > 0 && !spec_entry_matches(entries[0].0, kind) {
        lemma_spec_select_entry(entries.drop_first(), kind);
        assert(forall|j: int| 1 <= j < entries.len() ==> entries[j] == entries.drop_first()[j - 1]);
    }
}

/// The index of the first entry holding the executable, or nothing
/// when the archive carries none.
fn find_binary_entry(entries: &Vec<(String, Vec<u8>)>, kind: ArchiveKind) -> (r: Option<usize>)
    ensures
        match r {
            Some(i) => spec_select_entry(entries_view(entries@), kind) == Some(i as int),
            None => spec_select_entry(entries_view(entries@), kind) is None,
        },
{
    let ghost orig = entries_view(entries@);
    let mut i: usize = 0;
    while i < entries.len()
        invariant
            i <= entries@.len(),
            orig == entries_view(entries@),
            forall|j: int| 0 <= j < i ==> !spec_entry_matches(orig[j].0, kind),
        decreases entries@.len() - i,
    {
        let hit = match kind {
            ArchiveKind::Zip => str_ends_with(entries[i].0.as_str(), ".exe"),
            ArchiveKind::TarGz => {
                let component = after_last_slash(entries[i].0.as_str());
                crate::text::str_eq(component, "CLIProxyAPI")
            },
        };
        if hit {
            proof {
                assert(orig[i as int].0 == entries@[i as int].0@);
                lemma_spec_select_entry(orig, kind);
                match spec_select_entry(orig, kind) {
                    Some(k) => {
                        if k < i {
                            assert(!spec_entry_matches(orig[k].0, kind));
                        }
                        if k > i {
                            assert(!spec_entry_matches(orig[i as int].0, kind));
                        }
                    },
                    None => {
                        assert(spec_entry_matches(orig[i as int].0, kind));
                    },
                }
            }
            return Some(i);
        }
        i = i + 1;
    }
    proof {
        lemma_spec_select_entry(orig, kind);
    }
    None
}

/// Unpack a fetched release archive and pick the server executable out
/// of it: the first `.exe` entry of a zip, the first entry named
/// `CLIProxyAPI` of a gzip-compressed tar. `Ok(None)` means the
/// archive decoded but held no such entry.
pub fn extract_binary(data: &Vec<u8>, platform: Platform) -> (r: Result<Option<Vec<u8>>, String>)
    ensures
        archive_kind_of(platform) is Zip ==> match zip_entries_of(data@) {
            Err(e) => r matches Err(m) && m@ == e,
            Ok(es) => match spec_select_entry(es, ArchiveKind::Zip) {
                Some(i) => r matches Ok(o) && o matches Some(b) && b@ == es[i].1,
                None => r == Ok::<Option<Vec<u8>>, String>(None),
            },
        },
        archive_kind_of(platform) is TarGz ==> match gunzip_of(data@) {
            Err(e) => r matches Err(m) && m@ == e,
            Ok(t) => match tar_entries_of(t) {
                Err(e) => r matches Err(m) && m@ == e,
                Ok(es) => match spec_select_entry(es, ArchiveKind::TarGz) {
                    Some(i) => r matches Ok(o) && o matches Some(b) && b@ == es[i].1,
                    None => r == Ok::<Option<Vec<u8>>, String>(None),
                },
            },
        },
{
    match archive_kind(platform) {
        ArchiveKind::Zip => {
            match zip_entries(data) {
                Err(e) => Err(e),
                Ok(es) => {
                    let ghost ev = entries_view(es@);
                    match find_binary_entry(&es, ArchiveKind::Zip) {
                        Some(i) => {
                            proof {
                                lemma_spec_select_entry(ev, ArchiveKind::Zip);
                            }
                            let mut es = es;
                            let entry = es.remove(i);
                            proof {
                                assert(entry.1@ == ev[i as int].1);
                            }
                            Ok(Some(entry.1))
                        },
                        None => Ok(None),
                    }
                },
            }
        },
        ArchiveKind::TarGz => {
            match gunzip(data) {
                Err(e) => Err(e),
                Ok(t) => match tar_entries(&t) {
                    Err(e) => Err(e),
                    Ok(es) => {
                        let ghost ev = entries_view(es@);
                        match find_binary_entry(&es, ArchiveKind::TarGz) {
                            Some(i) => {
                                proof {
                                    lemma_spec_select_entry(ev, ArchiveKind::TarGz);
                                }
                                let mut es = es;
                                let entry = es.remove(i);
                                proof {
                                    assert(entry.1@ == ev[i as int].1);
                                }
                                Ok(Some(entry.1))
                            },
                            None => Ok(None),
                        }
                    },
                },
            }
        },
    }
}

/// The archive kind of a platform, at the specification level.
pub open spec fn archive_kind_of(p: Platform) -> ArchiveKind {
    match p {
        Platform::Windows => ArchiveKind::Zip,
        _ => ArchiveKind::TarGz,
    }
}

/// The generated server configuration: bind host and port, log level,
/// and the authentication-material directory.
pub open spec fn spec_config_text(port: int) -> Seq<char> {
    "# CLIProxyAPI Configuration for OpenMusic\nhost: 127.0.0.1\nport: "@ + spec_decimal(port)
        + "\nlog-level: info\nauth-dir: ~/.openmusic-cliproxyapi\n\n# Add your OAuth accounts in auth-dir\n# See: https://help.router-for.me/\n"@
}

/// Render the default configuration file for the given port.
pub fn default_config_text(port: u16) -> (r: String)
    ensures
        r@ == spec_config_text(port as int),
{
    let mut r = "# CLIProxyAPI Configuration for OpenMusic\nhost: 127.0.0.1\nport: ".to_owned();
    let p = u64_to_string(port as u64);
    r.append(p.as_str());
    r.append(
        "\nlog-level: info\nauth-dir: ~/.openmusic-cliproxyapi\n\n# Add your OAuth accounts in auth-dir\n# See: https://help.router-for.me/\n",
    );
    r
}

/// What the install directory holds: the binary's bytes and the
/// configuration file's text, each when present.
#[derive(Debug)]
pub struct DiskState {
    pub binary: Option<Vec<u8>>,
    pub config: Option<String>,
}

/// The mathematical shape of a [`DiskState`].
pub ghost struct DiskView {
    pub binary: Option<Seq<u8>>,
    pub config: Option<Seq<char>>,
}

impl View for DiskState {
    type V = DiskView;

    open spec fn view(&self) -> DiskView {
        DiskView {
            binary: match self.binary {
                Some(ref b) => Some(b@),
                None => None,
            },
            config: match self.config {
                Some(ref c) => Some(c@),
                None => None,
            },
        }
    }
}

/// A download's effect on the install directory: the binary is always
/// replaced with the fetched bytes; the configuration is written only
/// where none exists yet, and an existing one is never touched.
pub open spec fn spec_download_disk(d: DiskView, fetched: Seq<u8>, port: int) -> DiskView {
    DiskView {
        binary: Some(fetched),
        config: match d.config {
            Some(c) => Some(c),
            None => Some(spec_config_text(port)),
        },
    }
}

/// Apply a download's file effects to the install directory, as
/// [`spec_download_disk`] describes.
pub fn apply_download(disk: &mut DiskState, fetched: Vec<u8>, port: u16)
    ensures
        final(disk)@ == spec_download_disk(old(disk)@, fetched@, port as int),
{
    disk.binary = Some(fetched);
    match disk.config {
        Some(_) => {},
        None => {
            disk.config = Some(default_config_text(port));
        },
    }
}

/// Running the download twice never alters the configuration the
/// first run left behind, while the binary is replaced anew each time.
pub proof fn lemma_download_config_stable(d: DiskView, f1: Seq<u8>, f2: Seq<u8>, port: int)
    ensures
        spec_download_disk(spec_download_disk(d, f1, port), f2, port).config == spec_download_disk(
            d,
            f1,
            port,
        ).config,
        spec_download_disk(spec_download_disk(d, f1, port), f2, port).binary == Some(f2),
{
}

/// What the supervisor can observe of its child-process handle: none
/// is held, the held process still runs, or it has exited on its own.
#[derive(Clone, Copy, Debug, PartialEq, Eq, Structural)]
pub enum HandleProbe {
    Absent,
    Running,
    Exited,
}

/// What a start call decides to do.
#[derive(Clone, Copy, Debug, PartialEq, Eq, Structural)]
pub enum StartAction {
    /// A live process is already held: succeed without spawning.
    AlreadyRunning,
    /// Spawn the binary, replacing any stale handle.
    Spawn,
}

/// The start rule: fail when the binary is not installed; do nothing
/// when the held process still runs; spawn otherwise.
pub open spec fn spec_start_decision(installed: bool, probe: HandleProbe) -> Result<
    StartAction,
    Seq<char>,
> {
    if !installed {
        Err("CLIProxyAPI not installed. Call download() first."@)
    } else if probe is Running {
        Ok(StartAction::AlreadyRunning)
    } else {
        Ok(StartAction::Spawn)
    }
}

/// Decide what a start call does, as [`spec_start_decision`]
/// describes.
pub fn start_decision(installed: bool, probe: HandleProbe) -> (r: Result<StartAction, String>)
    ensures
        match r {
            Ok(a) => spec_start_decision(installed, probe) == Ok::<StartAction, Seq<char>>(a),
            Err(e) => spec_start_decision(installed, probe) == Err::<StartAction, Seq<char>>(e@),
        },
{
    if !installed {
        Err("CLIProxyAPI not installed. Call download() first.".to_owned())
    } else {
        match probe {
            HandleProbe::Running => Ok(StartAction::AlreadyRunning),
            _ => Ok(StartAction::Spawn),
        }
    }
}

/// The stop rule: terminate the held process when one is held, and in
/// every case sweep for orphans by process name. Stop never fails the
/// caller; both layers are always planned.
pub fn stop_actions(handle_held: bool) -> (r: (bool, bool))
    ensures
        r.0 == handle_held,
        r.1 == true,
{
    (handle_held, true)
}

/// The abstract machine the lifecycle laws are stated on: whether the
/// binary is installed, whether the supervisor's own handle points at
/// a live process, how many orphaned server processes remain from
/// earlier runs, and whether the configured port is accepting
/// connections.
pub ghost struct WorldView {
    pub installed: bool,
    pub handle_live: bool,
    pub orphans: nat,
    pub listening: bool,
}

/// How many server processes are alive.
pub open spec fn spec_live_processes(w: WorldView) -> nat {
    w.orphans + (if w.handle_live {
        1nat
    } else {
        0nat
    })
}

/// The probe a start call would observe in this world.
pub open spec fn spec_probe_of(w: WorldView) -> HandleProbe {
    if w.handle_live {
        HandleProbe::Running
    } else {
        HandleProbe::Absent
    }
}

/// A start call's effect on the world: spawning makes the handle live;
/// a failure or a no-op changes nothing.
pub open spec fn spec_start_world(w: WorldView) -> WorldView {
    match spec_start_decision(w.installed, spec_probe_of(w)) {
        Err(_) => w,
        Ok(StartAction::AlreadyRunning) => w,
        Ok(StartAction::Spawn) => WorldView { handle_live: true, ..w },
    }
}

/// A stop call's effect on the world: the held process and every
/// orphan are reclaimed, and the port stops listening.
pub open spec fn spec_stop_world(w: WorldView) -> WorldView {
    WorldView { handle_live: false, orphans: 0, listening: false, ..w }
}

/// The world immediately after construction: nothing spawned by us,
/// no orphan, the port silent.
pub open spec fn spec_init_world(installed: bool) -> WorldView {
    WorldView { installed, handle_live: false, orphans: 0, listening: false }
}

/// Whether the server is running: the configured port accepts
/// connections. Deliberately independent of the in-memory handle.
pub open spec fn spec_is_running(w: WorldView) -> bool {
    w.listening
}

/// Starting twice without an intervening stop results in exactly one
/// live process: the second start observes the live handle and spawns
/// nothing.
pub proof fn lemma_start_idempotent(w: WorldView)
    ensures
        spec_start_world(spec_start_world(w)) == spec_start_world(w),
        w.installed && !w.handle_live && w.orphans == 0 ==> spec_live_processes(
            spec_start_world(w),
        ) == 1,
{
}

/// `is_running` is false immediately after construction, and a start
/// alone does not make it true: only the port actually listening does.
pub proof fn lemma_is_running_from_port_only(installed: bool, w: WorldView)
    ensures
        !spec_is_running(spec_init_world(installed)),
        spec_is_running(spec_start_world(w)) == w.listening,
{
}

/// Stop reclaims the held process and every orphan alike: no server
/// process outlives it.
pub proof fn lemma_stop_reclaims_all(w: WorldView)
    ensures
        spec_live_processes(spec_stop_world(w)) == 0,
        !spec_is_running(spec_stop_world(w)),
{
}

/// The installed version from the binary's version invocation: its
/// trimmed standard output, or nothing when the binary is absent or
/// the invocation failed (both arrive here as `None`).
pub fn version_from_output(output: Option<String>) -> (r: Option<String>)
    ensures
        match output {
            Some(o) => r matches Some(v) && v@ == spec_trim(o@),
            None => r is None,
        },
{
    match output {
        Some(o) => Some(trim_text(o.as_str())),
        None => None,
    }
}

/// The update decision: report the latest version exactly when an
/// installed version is known and differs from it as text.
pub fn check_update(installed: Option<String>, latest: &str) -> (r: Option<String>)
    ensures
        match installed {
            Some(v) => if v@ != latest@ {
                r matches Some(l) && l@ == latest@
            } else {
                r is None
            },
            None => r is None,
        },
{
    match installed {
        Some(v) => {
            if !crate::text::str_eq(v.as_str(), latest) {
                Some(latest.to_owned())
            } else {
                None
            }
        },
        None => None,
    }
}

/// Whether the manager's paths sit under the data directory `d`.
pub open spec fn spec_paths_under(
    m: CLIProxyAPIManager,
    d: Seq<char>,
    platform: Platform,
) -> bool {
    &&& m.binary_path@ == d + "/openmusic/cliproxyapi/"@ + crate::platform::spec_binary_name(
        platform,
    )
    &&& m.config_path@ == d + "/openmusic/cliproxyapi/config.yaml"@
}

/// The supervisor's static configuration: where the binary and its
/// configuration live, and the port the server binds.
#[derive(Debug)]
pub struct CLIProxyAPIManager {
    pub binary_path: String,
    pub config_path: String,
    pub port: u16,
}

impl CLIProxyAPIManager {
    /// Lay the install paths out under an explicit data directory.
    pub fn new_with_dir(data_dir: &str, platform: Platform, port: u16) -> (m: CLIProxyAPIManager)
        ensures
            m.port == port,
            spec_paths_under(m, data_dir@, platform),
    {
        let mut bin = data_dir.to_owned();
        bin.append("/openmusic/cliproxyapi/");
        bin.append(binary_name(platform));
        let mut cfg = data_dir.to_owned();
        cfg.append("/openmusic/cliproxyapi/config.yaml");
        CLIProxyAPIManager { binary_path: bin, config_path: cfg, port }
    }

    /// Lay the install paths out under the platform's local data
    /// directory (the current directory when none is reported).
    pub fn new(port: u16, platform: Platform) -> (m: CLIProxyAPIManager)
        ensures
            m.port == port,
            exists|d: Seq<char>| #[trigger] spec_paths_under(m, d, platform),
    {
        let dir = crate::osdirs::data_local_dir_string();
        let dir_s = match dir {
            Some(d) => d,
            None => ".".to_owned(),
        };
        let m = Self::new_with_dir(dir_s.as_str(), platform, port);
        proof {
            assert(spec_paths_under(m, dir_s@, platform));
        }
        m
    }

    /// The URL the supervised server serves under.
    pub fn get_url(&self) -> (r: String)
        ensures
            r@ == "http://localhost:"@ + spec_decimal(self.port as int),
    {
        let mut r = "http://localhost:".to_owned();
        let p = u64_to_string(self.port as u64);
        r.append(p.as_str());
        r
    }
}

} // verus!
