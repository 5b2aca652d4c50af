//! Playback dispatch: which process to spawn to play one video or all of
//! them, and the fallback strategy when the batch player cannot be spawned.
//!
//! The library only decides; the surrounding application performs each spawn
//! (fire-and-forget, never waiting for the player to exit) and reports back
//! whether the process could be started at all.
use vstd::prelude::*;

use crate::errors::VideoError;
use crate::text::{views_of, clone_strings};

verus! {

/// The two-way OS branch: one platform opens files through its shell, all
/// others use fixed player binaries.
#[derive(Debug, Clone, Copy, PartialEq, Eq, Structural)]
pub enum Platform {
    Windows,
    Other,
}

/// A process to spawn and detach: a program name and its arguments.
#[derive(Debug, Clone, PartialEq, Eq)]
pub struct SpawnRequest {
    pub program: String,
    pub args: Vec<String>,
}

/// The program that opens a single video with the default mechanism:
/// the shell's `start` on Windows, the fixed player elsewhere.
pub open spec fn single_program(platform: Platform) -> Seq<char> {
    match platform {
        Platform::Windows => "cmd"@,
        Platform::Other => "mpv"@,
    }
}

/// The argument list that opens the single video at `path`.
pub open spec fn single_args(platform: Platform, path: Seq<char>) -> Seq<Seq<char>> {
    match platform {
        Platform::Windows => seq!["/C"@, "start"@, ""@, path],
        Platform::Other => seq![path],
    }
}

/// The batch player asked to play several videos in one spawn.
pub open spec fn batch_program(platform: Platform) -> Seq<char> {
    match platform {
        Platform::Windows => "vlc"@,
        Platform::Other => "mpv"@,
    }
}

/// Whether a spawn request launches the default-open mechanism on `path`.
pub open spec fn is_single_request(req: SpawnRequest, platform: Platform, path: Seq<char>) -> bool {
    req.program@ == single_program(platform) && views_of(req.args@) == single_args(platform, path)
}

/// Whether a spawn request launches the batch player on exactly `paths`,
/// in that order.
pub open spec fn is_batch_request(
    req: SpawnRequest,
    platform: Platform,
    paths: Seq<Seq<char>>,
) -> bool {
    req.program@ == batch_program(platform) && views_of(req.args@) == paths
}

/// Builds the request that opens the single video at `path`.
pub fn single_request(platform: Platform, path: String) -> (r: SpawnRequest)
    ensures
        is_single_request(r, platform, path@),
{
    match platform {
        Platform::Windows => {
            let mut args: Vec<String> = Vec::new();
            args.push("/C".to_owned());
            args.push("start".to_owned());
            args.push("".to_owned());
            args.push(path);
            proof {
                assert(views_of(args@) =~= single_args(platform, args@[3]@));
            }
            SpawnRequest { program: "cmd".to_owned(), args }
        },
        Platform::Other => {
            let mut args: Vec<String> = Vec::new();
            args.push(path);
            proof {
                assert(views_of(args@) =~= single_args(platform, args@[0]@));
            }
            SpawnRequest { program: "mpv".to_owned(), args }
        },
    }
}

/// Builds the request that plays all of `paths` with the batch player.
pub fn batch_request(platform: Platform, paths: &Vec<String>) -> (r: SpawnRequest)
    ensures
        is_batch_request(r, platform, views_of(paths@)),
{
    let args = clone_strings(paths);
    let program = match platform {
        Platform::Windows => "vlc".to_owned(),
        Platform::Other => "mpv".to_owned(),
    };
    SpawnRequest { program, args }
}

/// Where a batch playback session stands.
pub enum PlayAllState {
    /// The batch player was asked to play all paths in one spawn.
    Batch { paths: Vec<String> },
    /// The batch player could not be spawned; the paths are opened one by
    /// one, `next` being the one whose spawn is pending.
    Fallback { paths: Vec<String>, next: usize },
    /// The session is over.
    Finished,
}

/// What the application must do next with a batch playback session.
pub enum PlayAllAction {
    /// Spawn this process and report the outcome.
    Spawn(SpawnRequest),
    /// Every required spawn started: the operation succeeded.
    Succeed,
    /// A spawn failed where no fallback remains: surface this error.
    Fail(VideoError),
}

/// What the application observed of one spawn attempt.
pub enum SpawnOutcome {
    /// The process started (nothing is known of how playback went).
    Spawned,
    /// The process could not be started.
    Failed { message: String },
}

impl PlayAllState {
    /// A state the session can actually be in.
    pub open spec fn wf(self) -> bool {
        match self {
            PlayAllState::Batch { paths } => paths@.len() > 0,
            PlayAllState::Fallback { paths, next } => next < paths@.len(),
            PlayAllState::Finished => true,
        }
    }

    /// Decides well-formedness, for callers outside the library.
    pub fn is_wf(&self) -> (r: bool)
        ensures
            r == self.wf(),
    {
        match self {
            PlayAllState::Batch { paths } => paths.len() > 0,
            PlayAllState::Fallback { paths, next } => *next < paths.len(),
            PlayAllState::Finished => true,
        }
    }
}

/// Settles a single-video launch from the observed spawn outcome: a
/// started process is success (playback itself is never observed), and a
/// process that could not be started is a launch error carrying the
/// spawner's message.
pub fn single_play_result(outcome: SpawnOutcome) -> (r: Result<(), VideoError>)
    ensures
        outcome is Spawned <==> r is Ok,
        outcome matches SpawnOutcome::Failed { message } ==> r == Err::<(), VideoError>(
            VideoError::Launch { message },
        ),
{
    match outcome {
        SpawnOutcome::Spawned => Ok(()),
        SpawnOutcome::Failed { message } => Err(VideoError::Launch { message }),
    }
}

/// The transition relation of one batch playback step: from the state and
/// the outcome of the spawn just attempted to the next state and action.
pub open spec fn step_spec(
    platform: Platform,
    state: PlayAllState,
    outcome: SpawnOutcome,
    next_state: PlayAllState,
    action: PlayAllAction,
) -> bool {
    match (state, outcome) {
        (PlayAllState::Batch { paths }, SpawnOutcome::Spawned) => next_state is Finished
            && action is Succeed,
        (PlayAllState::Batch { paths }, SpawnOutcome::Failed { message: _ }) => {
            &&& next_state matches PlayAllState::Fallback { paths: q, next } && q@ == paths@
                && next == 0
            &&& action matches PlayAllAction::Spawn(req) && is_single_request(
                req,
                platform,
                paths@[0]@,
            )
        },
        (PlayAllState::Fallback { paths, next }, SpawnOutcome::Spawned) => if next + 1
            < paths@.len() {
            &&& next_state matches PlayAllState::Fallback { paths: q, next: n } && q@ == paths@
                && n == next + 1
            &&& action matches PlayAllAction::Spawn(req) && is_single_request(
                req,
                platform,
                paths@[next + 1]@,
            )
        } else {
            next_state is Finished && action is Succeed
        },
        (PlayAllState::Fallback { paths, next }, SpawnOutcome::Failed { message }) => {
            &&& next_state is Finished
            &&& action matches PlayAllAction::Fail(e) && e == (VideoError::Launch { message })
        },
        (PlayAllState::Finished, _) => next_state is Finished && action is Succeed,
    }
}

/// Starts batch playback over the sorted full paths: with no stored videos
/// it fails with the empty-library error and nothing is launched; otherwise
/// the batch player is to be spawned on all paths at once.
pub fn play_all_start(platform: Platform, paths: Vec<String>) -> (r: Result<
    (PlayAllState, SpawnRequest),
    VideoError,
>)
    ensures
        paths@.len() == 0 <==> r is Err,
        r is Err ==> r == Err::<(PlayAllState, SpawnRequest), VideoError>(
            VideoError::EmptyLibrary,
        ),
        r matches Ok(p) ==> p.0 matches PlayAllState::Batch { paths: q } && q@ == paths@
            && is_batch_request(p.1, platform, views_of(paths@)) && p.0.wf(),
{
    if paths.len() == 0 {
        return Err(VideoError::EmptyLibrary);
    }
    let req = batch_request(platform, &paths);
    Ok((PlayAllState::Batch { paths }, req))
}

/// Advances batch playback by one observed spawn outcome, as `step_spec`
/// says: a started batch player means success; a failed one falls back to
/// opening each file individually with the default mechanism; the per-file
/// pass opens the paths in sorted order and aborts on the first spawn
/// failure.
pub fn play_all_step(platform: Platform, state: PlayAllState, outcome: SpawnOutcome) -> (r: (
    PlayAllState,
    PlayAllAction,
))
    requires
        state.wf(),
    ensures
        step_spec(platform, state, outcome, r.0, r.1),
        r.0.wf(),
{
    match state {
        PlayAllState::Batch { paths } => match outcome {
            SpawnOutcome::Spawned => (PlayAllState::Finished, PlayAllAction::Succeed),
            SpawnOutcome::Failed { message: _ } => {
                let first = paths[0].clone();
                let req = single_request(platform, first);
                (
                    PlayAllState::Fallback { paths, next: 0 },
                    PlayAllAction::Spawn(req),
                )
            },
        },
        PlayAllState::Fallback { paths, next } => match outcome {
            SpawnOutcome::Spawned => {
                if next < paths.len() - 1 {
                    let upcoming = paths[next + 1].clone();
                    let req = single_request(platform, upcoming);
                    (
                        PlayAllState::Fallback { paths, next: next + 1 },
                        PlayAllAction::Spawn(req),
                    )
                } else {
                    (PlayAllState::Finished, PlayAllAction::Succeed)
                }
            },
            SpawnOutcome::Failed { message } => (
                PlayAllState::Finished,
                PlayAllAction::Fail(VideoError::Launch { message }),
            ),
        },
        PlayAllState::Finished => (PlayAllState::Finished, PlayAllAction::Succeed),
    }
}

} // verus!
