use video_hub::errors::VideoError;
use video_hub::library::{
    resolve_library_folder, status_is_success, FetchResponse, VideoLibrary,
};
use video_hub::listing::list_videos;
use video_hub::paths::{is_mp4_file_name, video_file_name, video_file_path, video_stem};
use video_hub::playback::{
    play_all_step, single_play_result, single_request, PlayAllAction, PlayAllState, Platform,
    SpawnOutcome, SpawnRequest,
};
use video_hub::errors::decimal_string;
use video_hub::text::{sort_strings, str_lex_le};

fn strings(xs: &[&str]) -> Vec<String> {
    xs.iter().map(|s| s.to_string()).collect()
}

fn lib_other() -> VideoLibrary {
    VideoLibrary::new("/home/u/Video Hub Videos".to_string(), Platform::Other)
}

fn lib_windows() -> VideoLibrary {
    VideoLibrary::new("C:/Users/u/Video Hub Videos".to_string(), Platform::Windows)
}

#[test]
fn folder_is_resolved_from_home() {
    let r = resolve_library_folder(Some("/home/u".to_string())).unwrap();
    assert_eq!(r, "/home/u/Video Hub Videos");
}

#[test]
fn missing_home_is_an_environment_error() {
    let r = resolve_library_folder(None);
    assert_eq!(r, Err(VideoError::Environment));
    assert_eq!(
        r.unwrap_err().message(),
        "home directory is not set"
    );
}

#[test]
fn video_path_is_folder_stem_extension() {
    assert_eq!(
        video_file_path("/home/u/Video Hub Videos", "clip1"),
        "/home/u/Video Hub Videos/clip1.mp4"
    );
    assert_eq!(lib_other().video_path("clip1"), "/home/u/Video Hub Videos/clip1.mp4");
    assert_eq!(video_file_name("clip1"), "clip1.mp4");
}

#[test]
fn status_success_range_is_two_hundreds() {
    assert!(status_is_success(200));
    assert!(status_is_success(204));
    assert!(status_is_success(299));
    assert!(!status_is_success(199));
    assert!(!status_is_success(300));
    assert!(!status_is_success(404));
    assert!(!status_is_success(500));
}

#[test]
fn successful_download_writes_fetched_bytes_at_video_path() {
    let lib = lib_other();
    let w = lib
        .plan_download("clip1", FetchResponse { status: 200, body: vec![0x00, 0x01, 0x02] })
        .unwrap();
    assert_eq!(w.path, "/home/u/Video Hub Videos/clip1.mp4");
    assert_eq!(w.bytes, vec![0x00, 0x01, 0x02]);
    // the file name the write creates is then listed under its stem
    let listed = list_videos(&strings(&["clip1.mp4"]));
    assert_eq!(listed, strings(&["clip1"]));
}

#[test]
fn failed_download_surfaces_status_and_writes_nothing() {
    let lib = lib_other();
    let r = lib.plan_download("clip1", FetchResponse { status: 404, body: vec![1, 2, 3] });
    match r {
        Ok(_) => panic!("a non-success status must not produce a write"),
        Err(e) => {
            assert_eq!(e, VideoError::RemoteFetch { status: 404 });
            assert_eq!(e.message(), "HTTP error: 404");
        }
    }
}

#[test]
fn second_download_overwrites_same_path() {
    let lib = lib_other();
    let w1 = lib
        .plan_download("clip1", FetchResponse { status: 200, body: vec![0x00, 0x01, 0x02] })
        .unwrap();
    let w2 = lib
        .plan_download("clip1", FetchResponse { status: 200, body: vec![0xFF] })
        .unwrap();
    // both writes target the same file, so the later one wins on disk
    assert_eq!(w1.path, w2.path);
    assert_eq!(w2.bytes, vec![0xFF]);
    // the stem is still listed exactly once
    let listed = list_videos(&strings(&["clip1.mp4"]));
    assert_eq!(listed, strings(&["clip1"]));
}

#[test]
fn listing_empty_folder_is_empty() {
    let listed = list_videos(&strings(&[]));
    assert!(listed.is_empty());
}

#[test]
fn listing_excludes_other_extensions() {
    let listed = list_videos(&strings(&["a.mp4", "b.txt", "c.mp4"]));
    assert_eq!(listed, strings(&["a", "c"]));
}

#[test]
fn listing_sorts_stems_lexicographically() {
    let listed = list_videos(&strings(&["b.mp4", "A.mp4", "10.mp4", "2.mp4"]));
    assert_eq!(listed, strings(&["10", "2", "A", "b"]));
}

#[test]
fn extension_match_is_exact_and_case_sensitive() {
    assert!(is_mp4_file_name("a.mp4"));
    assert!(is_mp4_file_name("a.b.mp4"));
    assert!(!is_mp4_file_name("a.MP4"));
    assert!(!is_mp4_file_name("a.mp4.txt"));
    assert!(!is_mp4_file_name(".mp4"));
    assert!(!is_mp4_file_name("mp4"));
    assert!(!is_mp4_file_name(""));
    assert_eq!(video_stem("a.b.mp4"), "a.b");
    let listed = list_videos(&strings(&[".mp4", "x.MP4", "ok.mp4"]));
    assert_eq!(listed, strings(&["ok"]));
}

#[test]
fn string_comparison_is_plain_lexicographic() {
    assert!(str_lex_le("10", "2"));
    assert!(str_lex_le("A", "b"));
    assert!(!str_lex_le("b", "A"));
    assert!(str_lex_le("", "a"));
    assert!(str_lex_le("a", "ab"));
    assert!(!str_lex_le("ab", "a"));
    assert!(str_lex_le("same", "same"));
}

#[test]
fn sorting_orders_and_keeps_all_strings() {
    let mut v = strings(&["b", "A", "10", "2", "A"]);
    sort_strings(&mut v);
    assert_eq!(v, strings(&["10", "2", "A", "A", "b"]));
}

#[test]
fn decimal_rendering_is_exact() {
    assert_eq!(decimal_string(0), "0");
    assert_eq!(decimal_string(7), "7");
    assert_eq!(decimal_string(404), "404");
    assert_eq!(decimal_string(65535), "65535");
}

#[test]
fn error_messages_are_the_surfaced_strings() {
    assert_eq!(VideoError::EmptyLibrary.message(), "No videos found");
    assert_eq!(VideoError::RemoteFetch { status: 500 }.message(), "HTTP error: 500");
    assert_eq!(VideoError::Io { message: "disk full".to_string() }.message(), "disk full");
    assert_eq!(VideoError::Launch { message: "no player".to_string() }.message(), "no player");
}

#[test]
fn play_missing_video_still_builds_a_spawn() {
    // no existence check: the launcher is asked to open the path as it is
    let req = lib_other().play_video_request("missing");
    assert_eq!(req.program, "mpv");
    assert_eq!(req.args, strings(&["/home/u/Video Hub Videos/missing.mp4"]));
}

#[test]
fn play_video_on_windows_uses_shell_start() {
    let req = lib_windows().play_video_request("clip1");
    assert_eq!(req.program, "cmd");
    assert_eq!(
        req.args,
        strings(&["/C", "start", "", "C:/Users/u/Video Hub Videos/clip1.mp4"])
    );
}

#[test]
fn play_all_with_no_videos_is_empty_library_error() {
    let lib = lib_other();
    match lib.play_all_from_names(&strings(&[])) {
        Ok(_) => panic!("an empty folder must not start playback"),
        Err(e) => assert_eq!(e, VideoError::EmptyLibrary),
    }
    // entries of other extensions do not count either
    match lib.play_all_from_names(&strings(&["notes.txt"])) {
        Ok(_) => panic!("a folder with no .mp4 entries must not start playback"),
        Err(e) => assert_eq!(e.message(), "No videos found"),
    }
}

#[test]
fn play_all_spawns_batch_player_on_sorted_paths() {
    let lib = lib_other();
    let (state, req) = lib
        .play_all_from_names(&strings(&["b.mp4", "a.mp4", "skip.txt"]))
        .unwrap();
    assert_eq!(req.program, "mpv");
    assert_eq!(
        req.args,
        strings(&[
            "/home/u/Video Hub Videos/a.mp4",
            "/home/u/Video Hub Videos/b.mp4",
        ])
    );
    match state {
        PlayAllState::Batch { paths } => assert_eq!(paths, req.args),
        _ => panic!("batch playback must start in the batch state"),
    }
}

#[test]
fn batch_spawn_failure_falls_back_per_file_on_windows() {
    let lib = lib_windows();
    let (state, req) = lib.play_all_from_names(&strings(&["a.mp4", "b.mp4"])).unwrap();
    assert_eq!(req.program, "vlc");
    let a = "C:/Users/u/Video Hub Videos/a.mp4".to_string();
    let b = "C:/Users/u/Video Hub Videos/b.mp4".to_string();
    assert_eq!(req.args, vec![a.clone(), b.clone()]);

    // the batch player cannot be spawned: fall back to the first file
    let (state, action) = play_all_step(
        Platform::Windows,
        state,
        SpawnOutcome::Failed { message: "vlc not found".to_string() },
    );
    let req1 = match action {
        PlayAllAction::Spawn(r) => r,
        _ => panic!("a failed batch spawn on Windows must fall back"),
    };
    assert_eq!(req1.program, "cmd");
    assert_eq!(req1.args, vec!["/C".to_string(), "start".to_string(), "".to_string(), a]);

    // the first file opened: the second follows, in sorted order
    let (state, action) = play_all_step(Platform::Windows, state, SpawnOutcome::Spawned);
    let req2 = match action {
        PlayAllAction::Spawn(r) => r,
        _ => panic!("the fallback must continue with the next file"),
    };
    assert_eq!(req2.args[3], b);

    // the last file opened: the operation succeeds
    let (state, action) = play_all_step(Platform::Windows, state, SpawnOutcome::Spawned);
    assert!(matches!(action, PlayAllAction::Succeed));
    assert!(matches!(state, PlayAllState::Finished));
}

#[test]
fn fallback_aborts_on_first_spawn_failure() {
    let lib = lib_windows();
    let (state, _req) = lib.play_all_from_names(&strings(&["a.mp4", "b.mp4"])).unwrap();
    let (state, action) = play_all_step(
        Platform::Windows,
        state,
        SpawnOutcome::Failed { message: "vlc not found".to_string() },
    );
    assert!(matches!(action, PlayAllAction::Spawn(_)));
    let (state, action) = play_all_step(
        Platform::Windows,
        state,
        SpawnOutcome::Failed { message: "cmd not found".to_string() },
    );
    assert!(matches!(state, PlayAllState::Finished));
    match action {
        PlayAllAction::Fail(e) => {
            assert_eq!(e, VideoError::Launch { message: "cmd not found".to_string() })
        }
        _ => panic!("a failed fallback spawn must abort the batch"),
    }
}

#[test]
fn batch_spawn_failure_elsewhere_also_falls_back_per_file() {
    let lib = lib_other();
    let (state, req) = lib
        .play_all_from_names(&strings(&["b.mp4", "a.mp4"]))
        .unwrap();
    assert_eq!(req.program, "mpv");
    let a = "/home/u/Video Hub Videos/a.mp4".to_string();
    let b = "/home/u/Video Hub Videos/b.mp4".to_string();
    assert_eq!(req.args, vec![a.clone(), b.clone()]);

    // the batch spawn failed: each file is opened individually, in order
    let (state, action) = play_all_step(
        Platform::Other,
        state,
        SpawnOutcome::Failed { message: "mpv not found".to_string() },
    );
    let req1 = match action {
        PlayAllAction::Spawn(r) => r,
        _ => panic!("a failed batch spawn must fall back to per-file opening"),
    };
    assert_eq!(req1.program, "mpv");
    assert_eq!(req1.args, vec![a]);

    let (state, action) = play_all_step(Platform::Other, state, SpawnOutcome::Spawned);
    let req2 = match action {
        PlayAllAction::Spawn(r) => r,
        _ => panic!("the fallback must continue with the next file"),
    };
    assert_eq!(req2.args, vec![b]);

    let (state, action) = play_all_step(Platform::Other, state, SpawnOutcome::Spawned);
    assert!(matches!(state, PlayAllState::Finished));
    assert!(matches!(action, PlayAllAction::Succeed));
}

#[test]
fn fallback_spawn_failure_elsewhere_is_a_launch_error() {
    let lib = lib_other();
    let (state, _req) = lib.play_all_from_names(&strings(&["a.mp4"])).unwrap();
    let (state, action) = play_all_step(
        Platform::Other,
        state,
        SpawnOutcome::Failed { message: "mpv not found".to_string() },
    );
    assert!(matches!(action, PlayAllAction::Spawn(_)));
    // the per-file opener could not be started either: the error surfaces
    let (state, action) = play_all_step(
        Platform::Other,
        state,
        SpawnOutcome::Failed { message: "mpv not found".to_string() },
    );
    assert!(matches!(state, PlayAllState::Finished));
    match action {
        PlayAllAction::Fail(e) => assert_eq!(e.message(), "mpv not found"),
        _ => panic!("a failed fallback spawn must abort the batch"),
    }
}

#[test]
fn single_play_outcome_maps_to_result() {
    assert_eq!(single_play_result(SpawnOutcome::Spawned), Ok(()));
    assert_eq!(
        single_play_result(SpawnOutcome::Failed { message: "no player".to_string() }),
        Err(VideoError::Launch { message: "no player".to_string() })
    );
}

#[test]
fn batch_spawn_success_finishes_the_session() {
    let lib = lib_other();
    let (state, _req) = lib.play_all_from_names(&strings(&["a.mp4"])).unwrap();
    let (state, action) = play_all_step(Platform::Other, state, SpawnOutcome::Spawned);
    assert!(matches!(state, PlayAllState::Finished));
    assert!(matches!(action, PlayAllAction::Succeed));
}

#[test]
fn single_request_carries_the_path_verbatim() {
    let req: SpawnRequest = single_request(Platform::Other, "/tmp/x.mp4".to_string());
    assert_eq!(req.program, "mpv");
    assert_eq!(req.args, vec!["/tmp/x.mp4".to_string()]);
}
