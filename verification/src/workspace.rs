//! The scratch directory of one export and the names of the files in it.

use vstd::prelude::*;
use crate::text::decimal;
use crate::text::lemma_decimal_is_digits;
use crate::text::lemma_numbered_injective;
use crate::text::lemma_stopped_numeral_injective;
use crate::text::render_decimal;
use crate::text::numbered;

verus! {

/// A file that an export keeps in its scratch directory. Numbered files are
/// named by the clip's position in its track.
#[derive(Debug, Clone, Copy, PartialEq, Eq)]
pub enum Asset {
    /// The black canvas under the main track.
    Background,
    /// A main-track clip, trimmed, video only.
    MainClip(usize),
    /// The assembled main track, video only.
    MainVideo,
    /// The audio of a main-track clip.
    MainAudioClip(usize),
    /// The assembled audio track.
    MainAudio,
    /// The list file of the audio concatenation.
    AudioList,
    /// An overlay clip, trimmed, video only.
    Overlay(usize),
    /// A clip of a single-track export, trimmed.
    Clip(usize),
    /// The list file of a single-track concatenation.
    ClipList,
}

/// The file name of an asset.
pub open spec fn asset_name(asset: Asset) -> Seq<char> {
    match asset {
        Asset::Background => "background.mp4"@,
        Asset::MainClip(i) => "main_clip_"@ + decimal(i as nat) + ".mp4"@,
        Asset::MainVideo => "main_video.mp4"@,
        Asset::MainAudioClip(i) => "main_audio_"@ + decimal(i as nat) + ".mp3"@,
        Asset::MainAudio => "main_audio.mp3"@,
        Asset::AudioList => "audio_concat_list.txt"@,
        Asset::Overlay(i) => "overlay_"@ + decimal(i as nat) + ".mp4"@,
        Asset::Clip(i) => "clip_"@ + decimal(i as nat) + ".mp4"@,
        Asset::ClipList => "concat_list.txt"@,
    }
}

/// The scratch directory of the export `export_id` under `temp_dir`.
pub open spec fn workspace_dir(temp_dir: Seq<char>, export_id: nat) -> Seq<char> {
    temp_dir + "/nolanforge_export_"@ + decimal(export_id)
}

/// The path of an asset in the scratch directory `dir`.
pub open spec fn asset_path(dir: Seq<char>, asset: Asset) -> Seq<char> {
    dir + "/"@ + asset_name(asset)
}

/// The first character of the name of an asset.
spec fn first_mark(asset: Asset) -> char {
    match asset {
        Asset::Background => 'b',
        Asset::MainClip(_) => 'm',
        Asset::MainVideo => 'm',
        Asset::MainAudioClip(_) => 'm',
        Asset::MainAudio => 'm',
        Asset::AudioList => 'a',
        Asset::Overlay(_) => 'o',
        Asset::Clip(_) => 'c',
        Asset::ClipList => 'c',
    }
}

/// The second character of the name of an asset.
spec fn second_mark(asset: Asset) -> char {
    match asset {
        Asset::Background => 'a',
        Asset::MainClip(_) => 'a',
        Asset::MainVideo => 'a',
        Asset::MainAudioClip(_) => 'a',
        Asset::MainAudio => 'a',
        Asset::AudioList => 'u',
        Asset::Overlay(_) => 'v',
        Asset::Clip(_) => 'l',
        Asset::ClipList => 'o',
    }
}

/// Whether the name of the asset begins with `main_`.
spec fn of_main_track(asset: Asset) -> bool {
    asset is MainClip || asset is MainVideo || asset is MainAudioClip || asset is MainAudio
}

proof fn lemma_asset_marks(asset: Asset)
    ensures
        asset_name(asset).len() >= 10,
        asset_name(asset)[0] == first_mark(asset),
        asset_name(asset)[1] == second_mark(asset),
        of_main_track(asset) ==> asset_name(asset).len() >= 14,
        asset is MainClip ==> asset_name(asset)[5] == 'c',
        asset is MainVideo ==> asset_name(asset)[5] == 'v',
        asset is MainAudioClip ==> asset_name(asset)[5] == 'a' && asset_name(asset)[10] == '_',
        asset is MainAudio ==> asset_name(asset)[5] == 'a' && asset_name(asset)[10] == '.',
{
    reveal_strlit("background.mp4");
    reveal_strlit("main_clip_");
    reveal_strlit("main_video.mp4");
    reveal_strlit("main_audio_");
    reveal_strlit("main_audio.mp3");
    reveal_strlit("audio_concat_list.txt");
    reveal_strlit("overlay_");
    reveal_strlit("clip_");
    reveal_strlit("concat_list.txt");
    reveal_strlit(".mp4");
    reveal_strlit(".mp3");
    match asset {
        Asset::MainClip(i) => {
            lemma_decimal_is_digits(i as nat);
        },
        Asset::MainAudioClip(i) => {
            lemma_decimal_is_digits(i as nat);
        },
        Asset::Overlay(i) => {
            lemma_decimal_is_digits(i as nat);
        },
        Asset::Clip(i) => {
            lemma_decimal_is_digits(i as nat);
        },
        _ => {},
    }
}

/// No name is used twice: different assets have different file names.
pub proof fn lemma_asset_names_distinct(a: Asset, b: Asset)
    requires
        asset_name(a) == asset_name(b),
    ensures
        a == b,
{
    lemma_asset_marks(a);
    lemma_asset_marks(b);
    match (a, b) {
        (Asset::MainClip(i), Asset::MainClip(j)) => {
            lemma_numbered_injective("main_clip_"@, i as nat, j as nat, ".mp4"@);
        },
        (Asset::MainAudioClip(i), Asset::MainAudioClip(j)) => {
            lemma_numbered_injective("main_audio_"@, i as nat, j as nat, ".mp3"@);
        },
        (Asset::Overlay(i), Asset::Overlay(j)) => {
            lemma_numbered_injective("overlay_"@, i as nat, j as nat, ".mp4"@);
        },
        (Asset::Clip(i), Asset::Clip(j)) => {
            lemma_numbered_injective("clip_"@, i as nat, j as nat, ".mp4"@);
        },
        _ => {},
    }
}

/// Within one scratch directory, different assets have different paths.
pub proof fn lemma_asset_paths_distinct(dir: Seq<char>, a: Asset, b: Asset)
    requires
        asset_path(dir, a) == asset_path(dir, b),
    ensures
        a == b,
{
    let head = dir + "/"@;
    let x = asset_path(dir, a);
    let y = asset_path(dir, b);
    assert(asset_name(a).len() == asset_name(b).len()) by {
        assert(x.len() == head.len() + asset_name(a).len());
        assert(y.len() == head.len() + asset_name(b).len());
    }
    assert forall|i: int| 0 <= i < asset_name(a).len() implies asset_name(a)[i] == asset_name(
        b,
    )[i] by {
        assert(x[head.len() + i] == asset_name(a)[i]);
        assert(y[head.len() + i] == asset_name(b)[i]);
    }
    assert(asset_name(a) =~= asset_name(b));
    lemma_asset_names_distinct(a, b);
}

/// Exports with different identifiers, under the same temporary directory,
/// have different scratch directories, and no file of one has the path of a
/// file of the other.
pub proof fn lemma_exports_share_no_path(temp_dir: Seq<char>, a: nat, b: nat, x: Asset, y: Asset)
    requires
        a != b,
    ensures
        workspace_dir(temp_dir, a) != workspace_dir(temp_dir, b),
        asset_path(workspace_dir(temp_dir, a), x) != asset_path(workspace_dir(temp_dir, b), y),
{
    let head = temp_dir + "/nolanforge_export_"@;
    let none = Seq::<char>::empty();
    if workspace_dir(temp_dir, a) == workspace_dir(temp_dir, b) {
        assert(head + decimal(a) + none =~= workspace_dir(temp_dir, a));
        assert(head + decimal(b) + none =~= workspace_dir(temp_dir, b));
        lemma_numbered_injective(head, a, b, none);
    }
    if asset_path(workspace_dir(temp_dir, a), x) == asset_path(workspace_dir(temp_dir, b), y) {
        reveal_strlit("/");
        assert("/"@ =~= seq!['/']);
        lemma_stopped_numeral_injective(head, a, b, '/', asset_name(x), asset_name(y));
    }
}

/// The scratch directory of one export. It belongs to that export alone,
/// from its creation to its removal.
#[derive(Debug, Clone, PartialEq, Eq)]
pub struct Workspace {
    pub dir: String,
}

impl Workspace {
    /// Names the scratch directory of the export `export_id` under
    /// `temp_dir`. Nothing is created on disk.
    pub fn for_export(temp_dir: &str, export_id: u64) -> (w: Workspace)
        ensures
            w.dir@ == workspace_dir(temp_dir@, export_id as nat),
    {
        let mut dir = String::from_str(temp_dir);
        dir.append("/nolanforge_export_");
        let digits = render_decimal(export_id as u128);
        dir.append(digits.as_str());
        Workspace { dir }
    }

    /// The path of `asset` in this workspace.
    pub fn path_of(&self, asset: Asset) -> (p: String)
        ensures
            p@ == asset_path(self.dir@, asset),
    {
        let mut p = self.dir.clone();
        p.append("/");
        let name = file_name(asset);
        p.append(name.as_str());
        p
    }
}

/// The file name of `asset`.
pub fn file_name(asset: Asset) -> (s: String)
    ensures
        s@ == asset_name(asset),
{
    match asset {
        Asset::Background => String::from_str("background.mp4"),
        Asset::MainClip(i) => numbered("main_clip_", i, ".mp4"),
        Asset::MainVideo => String::from_str("main_video.mp4"),
        Asset::MainAudioClip(i) => numbered("main_audio_", i, ".mp3"),
        Asset::MainAudio => String::from_str("main_audio.mp3"),
        Asset::AudioList => String::from_str("audio_concat_list.txt"),
        Asset::Overlay(i) => numbered("overlay_", i, ".mp4"),
        Asset::Clip(i) => numbered("clip_", i, ".mp4"),
        Asset::ClipList => String::from_str("concat_list.txt"),
    }
}

} // verus!
