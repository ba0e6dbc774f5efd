use vstd::prelude::*;
use crate::pomodoro::{Pomodoro, PomodoroView, no_music_name};
use crate::text::{ends_with_mp3, has_mp3_suffix};

verus! {

broadcast use vstd::seq_lib::group_seq_properties;

/// The names of a list of strings.
pub open spec fn names_of(v: Seq<String>) -> Seq<Seq<char>> {
    v.map_values(|s: String| s@)
}

/// The music list built from the file names of the music folder: `None`
/// first, then the names that end with `.mp3`, in the order given.
pub open spec fn track_names(files: Seq<Seq<char>>) -> Seq<Seq<char>> {
    seq![no_music_name()] + files.filter(|n: Seq<char>| ends_with_mp3(n))
}

/// Builds the music list from the file names of the music folder.
pub fn track_list(files: &Vec<String>) -> (r: Vec<String>)
    ensures
        names_of(r@) == track_names(names_of(files@)),
{
    let ghost pred = |n: Seq<char>| ends_with_mp3(n);
    let ghost all = names_of(files@);
    let mut r: Vec<String> = Vec::new();
    r.push(String::from_str("None"));
    let mut i: usize = 0;
    assert(all.take(0) =~= Seq::<Seq<char>>::empty());
    assert(names_of(r@) =~= seq![no_music_name()] + all.take(0).filter(pred)) by {
        reveal(Seq::filter);
    }
    while i < files.len()
        invariant
            i <= files.len(),
            all == names_of(files@),
            pred == (|n: Seq<char>| ends_with_mp3(n)),
            names_of(r@) == seq![no_music_name()] + all.take(i as int).filter(pred),
        decreases files.len() - i,
    {
        let keep = has_mp3_suffix(files[i].as_str());
        proof {
            assert(all.take(i + 1) =~= all.take(i as int).push(all[i as int]));
            all.take(i as int).lemma_filter_push(all[i as int], pred);
        }
        let ghost before = r@;
        assert(all[i as int] == files@[i as int]@);
        assert(pred(all[i as int]) == keep);
        if keep {
            let name = files[i].clone();
            r.push(name);
            assert(names_of(r@) =~= names_of(before).push(all[i as int]));
        }
        assert(names_of(r@) =~= seq![no_music_name()] + all.take(i + 1).filter(pred));
        i = i + 1;
    }
    assert(all.take(files.len() as int) =~= all);
    r
}

impl Pomodoro {
    /// Replaces the music list by the one built from the music folder's file
    /// names; nothing else changes.
    pub fn refresh_bgm(&mut self, files: &Vec<String>)
        requires
            old(self).wf(),
        ensures
            final(self).wf(),
            final(self)@ == (PomodoroView { bgm_list: track_names(names_of(files@)), ..old(self)@ }),
    {
        self.bgm_list = track_list(files);
        proof {
            let kept = names_of(files@).filter(|n: Seq<char>| ends_with_mp3(n));
            assert forall|i: int| 1 <= i < self@.bgm_list.len() implies ends_with_mp3(
                #[trigger] self@.bgm_list[i],
            ) by {
                assert(self@.bgm_list[i] == kept[i - 1]);
                names_of(files@).lemma_filter_pred(|n: Seq<char>| ends_with_mp3(n), i - 1);
            }
        }
    }
}

/// How a download ended: the downloader succeeded, failed, or could not be run.
#[derive(Clone, Copy, Debug, PartialEq, Eq, Structural)]
pub enum DownloadOutcome {
    Succeeded,
    Failed,
    ToolMissing,
}

/// The status line once a download has ended.
pub open spec fn outcome_text(o: DownloadOutcome) -> Seq<char> {
    match o {
        DownloadOutcome::Succeeded => "✅ Success! Press ENTER"@,
        DownloadOutcome::Failed => "❌ Failed"@,
        DownloadOutcome::ToolMissing => "❌ yt-dlp missing"@,
    }
}

/// The status line once a download has ended.
pub fn outcome_message(o: DownloadOutcome) -> (r: &'static str)
    ensures
        r@ == outcome_text(o),
{
    match o {
        DownloadOutcome::Succeeded => "✅ Success! Press ENTER",
        DownloadOutcome::Failed => "❌ Failed",
        DownloadOutcome::ToolMissing => "❌ yt-dlp missing",
    }
}

/// The status line before any download.
pub fn idle_message() -> (r: &'static str)
    ensures
        r@ == "Ready"@,
{
    "Ready"
}

/// The status line while a download runs.
pub fn downloading_message() -> (r: &'static str)
    ensures
        r@ == "📥 Downloading to system storage..."@,
{
    "📥 Downloading to system storage..."
}

/// The program that downloads the audio.
pub fn downloader() -> (r: &'static str)
    ensures
        r@ == "yt-dlp"@,
{
    "yt-dlp"
}

/// The name, inside the music folder, that the downloader gives the file:
/// the video's title with the audio's extension.
pub fn download_file_pattern() -> (r: &'static str)
    ensures
        r@ == "%(title)s.%(ext)s"@,
{
    "%(title)s.%(ext)s"
}

/// The downloader's arguments: extract the audio as a quiet MP3 into
/// `target`, from `url`.
pub open spec fn download_arg_list(target: Seq<char>, url: Seq<char>) -> Seq<Seq<char>> {
    seq!["-x"@, "--audio-format"@, "mp3"@, "--quiet"@, "--no-warnings"@, "-o"@, target, url]
}

/// The downloader's arguments for saving the audio at `url` under `target`.
pub fn download_args(target: &str, url: &str) -> (r: Vec<String>)
    ensures
        names_of(r@) == download_arg_list(target@, url@),
{
    let mut r: Vec<String> = Vec::new();
    r.push(String::from_str("-x"));
    r.push(String::from_str("--audio-format"));
    r.push(String::from_str("mp3"));
    r.push(String::from_str("--quiet"));
    r.push(String::from_str("--no-warnings"));
    r.push(String::from_str("-o"));
    r.push(String::from_str(target));
    r.push(String::from_str(url));
    assert(names_of(r@) =~= download_arg_list(target@, url@));
    r
}

} // verus!
