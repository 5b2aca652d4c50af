//! Names and paths of stored videos: the library folder under the user's
//! home directory, the `<folder>/<stem>.mp4` file path, and recognition of
//! `.mp4` directory entries (case-sensitive, exact).
use vstd::prelude::*;
use vstd::string::*;

verus! {

/// The file extension every stored video carries, dot included.
pub open spec fn mp4_suffix() -> Seq<char> {
    ".mp4"@
}

/// The fixed name of the library folder inside the home directory.
pub open spec fn library_dir_name() -> Seq<char> {
    "Video Hub Videos"@
}

/// The library folder path: the home directory, a separator, and the fixed
/// folder name.
pub open spec fn library_folder_view(home: Seq<char>) -> Seq<char> {
    home + "/"@ + library_dir_name()
}

/// The full path of the video stored under `stem`.
pub open spec fn video_path_view(folder: Seq<char>, stem: Seq<char>) -> Seq<char> {
    folder + "/"@ + stem + mp4_suffix()
}

/// A directory entry names a stored video exactly when it ends in `.mp4`
/// and something precedes the extension.
pub open spec fn is_mp4_name(name: Seq<char>) -> bool {
    name.len() > 4 && name.subrange(name.len() - 4, name.len() as int) == mp4_suffix()
}

/// The stem of an `.mp4` entry name: everything before the extension.
pub open spec fn stem_of(name: Seq<char>) -> Seq<char>
    recommends
        is_mp4_name(name),
{
    name.subrange(0, name.len() - 4)
}

/// The stored video's path is the library folder, the separator, and the
/// entry name `<stem>.mp4`: a download's write lands inside the folder
/// under exactly the entry name whose stem a listing reports.
pub proof fn lemma_video_path_in_folder(folder: Seq<char>, stem: Seq<char>)
    ensures
        video_path_view(folder, stem) == folder + "/"@ + (stem + mp4_suffix()),
{
    assert(video_path_view(folder, stem) =~= folder + "/"@ + (stem + mp4_suffix()));
}

/// Builds the library folder path from the home directory path.
pub fn library_folder_path(home: &str) -> (r: String)
    ensures
        r@ == library_folder_view(home@),
{
    home.to_owned().concat("/").concat("Video Hub Videos")
}

/// Builds the full path of the video stored under `stem`.
pub fn video_file_path(folder: &str, stem: &str) -> (r: String)
    ensures
        r@ == video_path_view(folder@, stem@),
{
    folder.to_owned().concat("/").concat(stem).concat(".mp4")
}

/// Builds the file name `<stem>.mp4`, whose stem is `stem` again.
pub fn video_file_name(stem: &str) -> (r: String)
    ensures
        r@ == stem@ + mp4_suffix(),
        stem@.len() > 0 ==> is_mp4_name(r@) && stem_of(r@) == stem@,
{
    let r = stem.to_owned().concat(".mp4");
    proof {
        reveal_strlit(".mp4");
        if stem@.len() > 0 {
            assert(r@.subrange(r@.len() - 4, r@.len() as int) =~= mp4_suffix());
            assert(stem_of(r@) =~= stem@);
        }
    }
    r
}

/// Decides whether a directory entry name is a stored video's file name.
pub fn is_mp4_file_name(name: &str) -> (r: bool)
    ensures
        r == is_mp4_name(name@),
{
    let len = name.unicode_len();
    if len <= 4 {
        return false;
    }
    proof {
        reveal_strlit(".mp4");
    }
    let dot = name.get_char(len - 4);
    let m = name.get_char(len - 3);
    let p = name.get_char(len - 2);
    let four = name.get_char(len - 1);
    let matched = dot == '.' && m == 'm' && p == 'p' && four == '4';
    proof {
        let tail = name@.subrange(name@.len() - 4, name@.len() as int);
        if matched {
            assert(tail =~= mp4_suffix());
        } else {
            assert(tail.len() == 4);
            if tail == mp4_suffix() {
                assert(tail[0] == '.' && tail[1] == 'm' && tail[2] == 'p' && tail[3] == '4');
                assert(false);
            }
        }
    }
    matched
}

/// Extracts the stem from an `.mp4` entry name.
pub fn video_stem(name: &str) -> (r: String)
    requires
        is_mp4_name(name@),
    ensures
        r@ == stem_of(name@),
{
    let len = name.unicode_len();
    let s = name.substring_char(0, len - 4);
    s.to_owned()
}

} // verus!
