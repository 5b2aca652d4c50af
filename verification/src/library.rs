//! The video library manager: configured once with the library folder path
//! and the platform, it decides every operation on plain values. The
//! surrounding application resolves the home directory, performs the HTTP
//! fetch, reads the folder, writes files and spawns players, feeding results
//! in and carrying decisions out.
use vstd::prelude::*;
use vstd::string::*;

use crate::errors::VideoError;
use crate::listing::{list_videos, sorted_mp4_paths, mp4_stems, mp4_paths};
use crate::paths::{library_folder_path, library_folder_view, video_file_path, video_path_view};
use crate::playback::{
    Platform, SpawnRequest, PlayAllState, single_request, is_single_request, play_all_start,
    is_batch_request,
};
use crate::text::{views_of, lex_sorted};

verus! {

/// A fetched HTTP response: the status code and the full body, already
/// buffered in memory.
pub struct FetchResponse {
    pub status: u16,
    pub body: Vec<u8>,
}

/// One file write the application must perform: the full response body,
/// stored at `path`, overwriting any file of that name.
pub struct WriteCommand {
    pub path: String,
    pub bytes: Vec<u8>,
}

/// The success range of HTTP status codes.
pub open spec fn spec_status_success(status: u16) -> bool {
    200 <= status < 300
}

/// Decides whether an HTTP status code means success.
pub fn status_is_success(status: u16) -> (r: bool)
    ensures
        r == spec_status_success(status),
{
    200 <= status && status < 300
}

/// Resolves the library folder from the home-directory variable's value:
/// unset is fatal, otherwise the fixed folder name is appended.
pub fn resolve_library_folder(home: Option<String>) -> (r: Result<String, VideoError>)
    ensures
        home is None <==> r is Err,
        r is Err ==> r == Err::<String, VideoError>(VideoError::Environment),
        home matches Some(h) ==> r matches Ok(f) && f@ == library_folder_view(h@),
{
    match home {
        None => Err(VideoError::Environment),
        Some(h) => Ok(library_folder_path(h.as_str())),
    }
}

/// The manager, configured with the resolved library folder path and the
/// platform whose launch mechanisms playback uses.
pub struct VideoLibrary {
    pub folder: String,
    pub platform: Platform,
}

impl VideoLibrary {
    /// Configures a manager for the given folder and platform.
    pub fn new(folder: String, platform: Platform) -> (r: VideoLibrary)
        ensures
            r.folder@ == folder@,
            r.platform == platform,
    {
        VideoLibrary { folder, platform }
    }

    /// The full path of the video stored under `stem`.
    pub fn video_path(&self, stem: &str) -> (r: String)
        ensures
            r@ == video_path_view(self.folder@, stem@),
    {
        video_file_path(self.folder.as_str(), stem)
    }

    /// Decides a download: a success status yields the one write to
    /// perform — the fetched bytes, stored at `<folder>/<stem>.mp4` —
    /// and any other status yields the fetch error with that status and
    /// no write at all.
    pub fn plan_download(&self, stem: &str, response: FetchResponse) -> (r: Result<
        WriteCommand,
        VideoError,
    >)
        ensures
            spec_status_success(response.status) <==> r is Ok,
            r matches Ok(w) ==> w.path@ == video_path_view(self.folder@, stem@) && w.bytes
                == response.body,
            r is Err ==> r == Err::<WriteCommand, VideoError>(
                VideoError::RemoteFetch { status: response.status },
            ),
    {
        if status_is_success(response.status) {
            Ok(WriteCommand { path: self.video_path(stem), bytes: response.body })
        } else {
            Err(VideoError::RemoteFetch { status: response.status })
        }
    }

    /// Lists the stored videos among the folder's entry names: the stems
    /// of the `.mp4` entries, sorted ascending lexicographically.
    pub fn list_videos(&self, names: &Vec<String>) -> (r: Vec<String>)
        ensures
            lex_sorted(views_of(r@)),
            views_of(r@).to_multiset() == mp4_stems(views_of(names@)).to_multiset(),
            names@.len() == 0 ==> r@.len() == 0,
    {
        list_videos(names)
    }

    /// The request that plays the video stored under `stem`. No existence
    /// check happens: a missing file surfaces only through the player, not
    /// here, and spawning the mechanism on a missing path still succeeds.
    pub fn play_video_request(&self, stem: &str) -> (r: SpawnRequest)
        ensures
            is_single_request(r, self.platform, video_path_view(self.folder@, stem@)),
    {
        let path = self.video_path(stem);
        single_request(self.platform, path)
    }

    /// Starts batch playback from the folder's entry names: the `.mp4`
    /// entries' full paths, sorted ascending, handed to the batch player in
    /// one spawn — or the empty-library error, with nothing launched, when
    /// there are none.
    pub fn play_all_from_names(&self, names: &Vec<String>) -> (r: Result<
        (PlayAllState, SpawnRequest),
        VideoError,
    >)
        ensures
            mp4_paths(self.folder@, views_of(names@)).len() == 0 <==> r is Err,
            r is Err ==> r == Err::<(PlayAllState, SpawnRequest), VideoError>(
                VideoError::EmptyLibrary,
            ),
            r matches Ok(p) ==> p.0 matches PlayAllState::Batch { paths: q } && ({
                &&& q@.len() > 0
                &&& lex_sorted(views_of(q@))
                &&& views_of(q@).to_multiset() == mp4_paths(
                    self.folder@,
                    views_of(names@),
                ).to_multiset()
                &&& is_batch_request(p.1, self.platform, views_of(q@))
                &&& p.0.wf()
            }),
    {
        let paths = sorted_mp4_paths(self.folder.as_str(), names);
        proof {
            vstd::seq_lib::to_multiset_len(views_of(paths@));
            vstd::seq_lib::to_multiset_len(mp4_paths(self.folder@, views_of(names@)));
        }
        play_all_start(self.platform, paths)
    }
}

} // verus!
