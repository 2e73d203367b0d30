use vstd::prelude::*;

verus! {

/// The files that an update touches, all named after the running executable.
#[derive(Clone, Copy, Debug, PartialEq, Eq, Hash, Structural)]
pub enum FileRole {
    /// The live binary at its canonical path.
    Executable,
    /// The downloaded artifact awaiting the swap.
    Download,
    /// The previous binary, kept for one start-up.
    Backup,
    /// The sentinel whose presence says a swap is in progress.
    Marker,
    /// The helper script of the deferred strategy.
    Helper,
}

impl FileRole {
    /// The extension that replaces the executable's own to name this file;
    /// empty for the executable itself.
    pub fn extension(&self, windows: bool) -> (r: &'static str)
        ensures
            *self == FileRole::Executable ==> r@ == ""@,
            *self == FileRole::Download ==> r@ == "new"@,
            *self == FileRole::Backup ==> r@ == "old"@,
            *self == FileRole::Marker ==> r@ == "updating"@,
            *self == FileRole::Helper && windows ==> r@ == "bat"@,
            *self == FileRole::Helper && !windows ==> r@ == "sh"@,
    {
        match self {
            FileRole::Executable => "",
            FileRole::Download => "new",
            FileRole::Backup => "old",
            FileRole::Marker => "updating",
            FileRole::Helper => if windows {
                "bat"
            } else {
                "sh"
            },
        }
    }
}

/// How the executable is replaced.
#[derive(Clone, Copy, Debug, PartialEq, Eq, Structural)]
pub enum Strategy {
    /// The platform lets a running executable be renamed: the swap is two
    /// renames made by this process.
    RenameInPlace,
    /// The platform does not: the executable is copied to the backup, and a
    /// helper script started here replaces it once this process has exited.
    DeferredHelper,
}

/// How an update cycle ends.
#[derive(Clone, Copy, Debug, PartialEq, Eq, Structural)]
pub enum Outcome {
    /// No update was made; the running version goes on.
    ContinuedOldVersion,
    /// The new version was installed and started; this process should exit with 0.
    TerminatedForNewVersion,
    /// The swap failed where the files are no longer the old version's; this
    /// process must exit with a non-zero code.
    FatalSwapFailure,
}

impl Outcome {
    /// The exit code that the process ends with, or `None` where it goes on.
    pub fn exit_code(&self) -> (r: Option<i32>)
        ensures
            *self == Outcome::ContinuedOldVersion ==> r == None::<i32>,
            *self == Outcome::TerminatedForNewVersion ==> r == Some(0i32),
            *self == Outcome::FatalSwapFailure ==> r == Some(1i32),
    {
        match self {
            Outcome::ContinuedOldVersion => None,
            Outcome::TerminatedForNewVersion => Some(0),
            Outcome::FatalSwapFailure => Some(1),
        }
    }
}

/// The swap's phase: each names the step whose result is awaited.
#[derive(Clone, Copy, Debug, PartialEq, Eq, Structural)]
pub enum SwapPhase {
    /// Writing the in-progress marker.
    MarkingStart,
    /// Renaming the executable to the backup.
    BackingUp,
    /// Renaming the download to the executable.
    Installing,
    /// Removing the marker after the install.
    ClearingMarker,
    /// Starting the new executable.
    Launching,
    /// Starting the new executable a second time.
    Relaunching,
    /// Copying the executable to the backup.
    CopyingBackup,
    /// Writing and starting the helper script.
    StartingHelper,
    /// The swap is over.
    Finished(Outcome),
}

/// What the caller performs next.
#[derive(Clone, Copy, Debug, PartialEq, Eq, Structural)]
pub enum SwapStep {
    /// Write the marker with the current time.
    WriteMarker,
    /// Rename the executable to the backup path.
    RenameExecutableToBackup,
    /// Rename the download to the executable path.
    RenameDownloadToExecutable,
    /// Remove the marker.
    RemoveMarker,
    /// Start the executable at its canonical path as a detached process.
    Launch,
    /// Copy the executable to the backup path.
    CopyExecutableToBackup,
    /// Write the helper script and start it as a detached process.
    StartHelper,
    /// End the swap with this outcome.
    Finish(Outcome),
}

/// The phase in which a swap begins.
pub open spec fn swap_start() -> SwapPhase {
    SwapPhase::MarkingStart
}

/// The step that a phase asks for.
pub open spec fn step_of(p: SwapPhase) -> SwapStep {
    match p {
        SwapPhase::MarkingStart => SwapStep::WriteMarker,
        SwapPhase::BackingUp => SwapStep::RenameExecutableToBackup,
        SwapPhase::Installing => SwapStep::RenameDownloadToExecutable,
        SwapPhase::ClearingMarker => SwapStep::RemoveMarker,
        SwapPhase::Launching => SwapStep::Launch,
        SwapPhase::Relaunching => SwapStep::Launch,
        SwapPhase::CopyingBackup => SwapStep::CopyExecutableToBackup,
        SwapPhase::StartingHelper => SwapStep::StartHelper,
        SwapPhase::Finished(o) => SwapStep::Finish(o),
    }
}

/// The phase that follows `p` once its step has succeeded (`ok`) or failed.
/// Failing to write or remove the marker is harmless and goes unheeded; a
/// failed backup leaves the executable in place; a failed install after the
/// backup is fatal; a failed launch is retried once.
pub open spec fn next_phase(s: Strategy, p: SwapPhase, ok: bool) -> SwapPhase {
    match p {
        SwapPhase::MarkingStart => match s {
            Strategy::RenameInPlace => SwapPhase::BackingUp,
            Strategy::DeferredHelper => SwapPhase::CopyingBackup,
        },
        SwapPhase::BackingUp => if ok {
            SwapPhase::Installing
        } else {
            SwapPhase::Finished(Outcome::ContinuedOldVersion)
        },
        SwapPhase::Installing => if ok {
            SwapPhase::ClearingMarker
        } else {
            SwapPhase::Finished(Outcome::FatalSwapFailure)
        },
        SwapPhase::ClearingMarker => SwapPhase::Launching,
        SwapPhase::Launching => if ok {
            SwapPhase::Finished(Outcome::TerminatedForNewVersion)
        } else {
            SwapPhase::Relaunching
        },
        SwapPhase::Relaunching => if ok {
            SwapPhase::Finished(Outcome::TerminatedForNewVersion)
        } else {
            SwapPhase::Finished(Outcome::FatalSwapFailure)
        },
        SwapPhase::CopyingBackup => if ok {
            SwapPhase::StartingHelper
        } else {
            SwapPhase::Finished(Outcome::ContinuedOldVersion)
        },
        SwapPhase::StartingHelper => if ok {
            SwapPhase::Finished(Outcome::TerminatedForNewVersion)
        } else {
            SwapPhase::Finished(Outcome::ContinuedOldVersion)
        },
        SwapPhase::Finished(o) => SwapPhase::Finished(o),
    }
}

/// The first step of a swap.
pub fn begin_swap() -> (r: (SwapPhase, SwapStep))
    ensures
        r.0 == swap_start(),
        r.1 == step_of(r.0),
{
    (SwapPhase::MarkingStart, SwapStep::WriteMarker)
}

/// Advances a swap by the result of the step that `phase` asked for, and
/// gives the next phase with the step it asks for.
pub fn advance_swap(strategy: Strategy, phase: SwapPhase, ok: bool) -> (r: (SwapPhase, SwapStep))
    ensures
        r.0 == next_phase(strategy, phase, ok),
        r.1 == step_of(r.0),
{
    let next = match phase {
        SwapPhase::MarkingStart => match strategy {
            Strategy::RenameInPlace => SwapPhase::BackingUp,
            Strategy::DeferredHelper => SwapPhase::CopyingBackup,
        },
        SwapPhase::BackingUp => if ok {
            SwapPhase::Installing
        } else {
            SwapPhase::Finished(Outcome::ContinuedOldVersion)
        },
        SwapPhase::Installing => if ok {
            SwapPhase::ClearingMarker
        } else {
            SwapPhase::Finished(Outcome::FatalSwapFailure)
        },
        SwapPhase::ClearingMarker => SwapPhase::Launching,
        SwapPhase::Launching => if ok {
            SwapPhase::Finished(Outcome::TerminatedForNewVersion)
        } else {
            SwapPhase::Relaunching
        },
        SwapPhase::Relaunching => if ok {
            SwapPhase::Finished(Outcome::TerminatedForNewVersion)
        } else {
            SwapPhase::Finished(Outcome::FatalSwapFailure)
        },
        SwapPhase::CopyingBackup => if ok {
            SwapPhase::StartingHelper
        } else {
            SwapPhase::Finished(Outcome::ContinuedOldVersion)
        },
        SwapPhase::StartingHelper => if ok {
            SwapPhase::Finished(Outcome::TerminatedForNewVersion)
        } else {
            SwapPhase::Finished(Outcome::ContinuedOldVersion)
        },
        SwapPhase::Finished(o) => SwapPhase::Finished(o),
    };
    (next, step_for(next))
}

/// The step that a phase asks for.
pub fn step_for(p: SwapPhase) -> (r: SwapStep)
    ensures
        r == step_of(p),
{
    match p {
        SwapPhase::MarkingStart => SwapStep::WriteMarker,
        SwapPhase::BackingUp => SwapStep::RenameExecutableToBackup,
        SwapPhase::Installing => SwapStep::RenameDownloadToExecutable,
        SwapPhase::ClearingMarker => SwapStep::RemoveMarker,
        SwapPhase::Launching => SwapStep::Launch,
        SwapPhase::Relaunching => SwapStep::Launch,
        SwapPhase::CopyingBackup => SwapStep::CopyExecutableToBackup,
        SwapPhase::StartingHelper => SwapStep::StartHelper,
        SwapPhase::Finished(o) => SwapStep::Finish(o),
    }
}

// ---- the files beside the executable, as a map from role to content ----

/// Renames `from` to `to`, replacing `to`; nothing happens where `from` is absent.
pub open spec fn rename(fs: Map<FileRole, Seq<u8>>, from: FileRole, to: FileRole) -> Map<
    FileRole,
    Seq<u8>,
> {
    if fs.contains_key(from) {
        fs.remove(from).insert(to, fs[from])
    } else {
        fs
    }
}

/// What a step that succeeded does to the files; a failed step changes none
/// of them, each being a single write or an atomic rename.
pub open spec fn effect(fs: Map<FileRole, Seq<u8>>, st: SwapStep, ok: bool) -> Map<
    FileRole,
    Seq<u8>,
> {
    if !ok {
        fs
    } else {
        match st {
            SwapStep::WriteMarker => fs.insert(FileRole::Marker, Seq::empty()),
            SwapStep::RenameExecutableToBackup => rename(
                fs,
                FileRole::Executable,
                FileRole::Backup,
            ),
            SwapStep::RenameDownloadToExecutable => rename(
                fs,
                FileRole::Download,
                FileRole::Executable,
            ),
            SwapStep::RemoveMarker => fs.remove(FileRole::Marker),
            SwapStep::CopyExecutableToBackup => if fs.contains_key(FileRole::Executable) {
                fs.insert(FileRole::Backup, fs[FileRole::Executable])
            } else {
                fs
            },
            SwapStep::StartHelper => fs.insert(FileRole::Helper, Seq::empty()),
            _ => fs,
        }
    }
}

/// What the helper script does once this process has exited: it deletes the
/// executable, moves the download in its place, and removes the marker.
pub open spec fn helper_effect(fs: Map<FileRole, Seq<u8>>) -> Map<FileRole, Seq<u8>> {
    rename(fs.remove(FileRole::Executable), FileRole::Download, FileRole::Executable).remove(
        FileRole::Marker,
    )
}

/// A swap from `p` over the files `fs`, where `results` gives, in turn, whether
/// each step succeeded; the phase it ends in and the files then.
pub open spec fn run_swap(
    s: Strategy,
    p: SwapPhase,
    fs: Map<FileRole, Seq<u8>>,
    results: Seq<bool>,
) -> (SwapPhase, Map<FileRole, Seq<u8>>)
    decreases results.len(),
{
    if results.len() == 0 || p is Finished {
        (p, fs)
    } else {
        run_swap(s, next_phase(s, p, results[0]), effect(fs, step_of(p), results[0]), results.skip(1))
    }
}

/// What holds of the files in each phase of an in-place swap of `old_bin` by `new_bin`.
pub open spec fn in_place_inv(
    p: SwapPhase,
    fs: Map<FileRole, Seq<u8>>,
    old_bin: Seq<u8>,
    new_bin: Seq<u8>,
) -> bool {
    match p {
        SwapPhase::MarkingStart | SwapPhase::BackingUp => {
            &&& fs.contains_key(FileRole::Executable) && fs[FileRole::Executable] == old_bin
            &&& fs.contains_key(FileRole::Download) && fs[FileRole::Download] == new_bin
        },
        SwapPhase::Installing => {
            &&& fs.contains_key(FileRole::Backup) && fs[FileRole::Backup] == old_bin
            &&& fs.contains_key(FileRole::Download) && fs[FileRole::Download] == new_bin
        },
        SwapPhase::ClearingMarker | SwapPhase::Launching | SwapPhase::Relaunching | SwapPhase::Finished(
            Outcome::TerminatedForNewVersion,
        ) => {
            &&& fs.contains_key(FileRole::Executable) && fs[FileRole::Executable] == new_bin
            &&& fs.contains_key(FileRole::Backup) && fs[FileRole::Backup] == old_bin
        },
        SwapPhase::CopyingBackup | SwapPhase::StartingHelper => false,
        _ => true,
    }
}

proof fn lemma_in_place_run(
    p: SwapPhase,
    fs: Map<FileRole, Seq<u8>>,
    results: Seq<bool>,
    old_bin: Seq<u8>,
    new_bin: Seq<u8>,
)
    requires
        in_place_inv(p, fs, old_bin, new_bin),
    ensures
        in_place_inv(
            run_swap(Strategy::RenameInPlace, p, fs, results).0,
            run_swap(Strategy::RenameInPlace, p, fs, results).1,
            old_bin,
            new_bin,
        ),
    decreases results.len(),
{
    if results.len() > 0 && !(p is Finished) {
        let ok = results[0];
        let p_next = next_phase(Strategy::RenameInPlace, p, ok);
        let fs2 = effect(fs, step_of(p), ok);
        assert(in_place_inv(p_next, fs2, old_bin, new_bin));
        lemma_in_place_run(p_next, fs2, results.skip(1), old_bin, new_bin);
    }
}

/// An in-place swap that ends with the new version started leaves the
/// download's content at the executable's path and the old executable's
/// content in the backup, whatever steps failed on the way.
pub proof fn lemma_swap_installs_download(fs: Map<FileRole, Seq<u8>>, results: Seq<bool>)
    requires
        fs.contains_key(FileRole::Executable),
        fs.contains_key(FileRole::Download),
        run_swap(Strategy::RenameInPlace, swap_start(), fs, results).0 == SwapPhase::Finished(
            Outcome::TerminatedForNewVersion,
        ),
    ensures
        ({
            let after = run_swap(Strategy::RenameInPlace, swap_start(), fs, results).1;
            &&& after.contains_key(FileRole::Executable)
            &&& after[FileRole::Executable] == fs[FileRole::Download]
            &&& after.contains_key(FileRole::Backup)
            &&& after[FileRole::Backup] == fs[FileRole::Executable]
        }),
{
    lemma_in_place_run(
        swap_start(),
        fs,
        results,
        fs[FileRole::Executable],
        fs[FileRole::Download],
    );
}

/// What holds of the files in each phase of a deferred swap of `old_bin` by `new_bin`.
pub open spec fn deferred_inv(
    p: SwapPhase,
    fs: Map<FileRole, Seq<u8>>,
    old_bin: Seq<u8>,
    new_bin: Seq<u8>,
) -> bool {
    match p {
        SwapPhase::MarkingStart | SwapPhase::CopyingBackup => {
            &&& fs.contains_key(FileRole::Executable) && fs[FileRole::Executable] == old_bin
            &&& fs.contains_key(FileRole::Download) && fs[FileRole::Download] == new_bin
        },
        SwapPhase::StartingHelper | SwapPhase::Finished(Outcome::TerminatedForNewVersion) => {
            &&& fs.contains_key(FileRole::Backup) && fs[FileRole::Backup] == old_bin
            &&& fs.contains_key(FileRole::Download) && fs[FileRole::Download] == new_bin
        },
        SwapPhase::Finished(_) => true,
        _ => false,
    }
}

proof fn lemma_deferred_run(
    p: SwapPhase,
    fs: Map<FileRole, Seq<u8>>,
    results: Seq<bool>,
    old_bin: Seq<u8>,
    new_bin: Seq<u8>,
)
    requires
        deferred_inv(p, fs, old_bin, new_bin),
    ensures
        deferred_inv(
            run_swap(Strategy::DeferredHelper, p, fs, results).0,
            run_swap(Strategy::DeferredHelper, p, fs, results).1,
            old_bin,
            new_bin,
        ),
    decreases results.len(),
{
    if results.len() > 0 && !(p is Finished) {
        let ok = results[0];
        let p_next = next_phase(Strategy::DeferredHelper, p, ok);
        let fs2 = effect(fs, step_of(p), ok);
        assert(deferred_inv(p_next, fs2, old_bin, new_bin));
        lemma_deferred_run(p_next, fs2, results.skip(1), old_bin, new_bin);
    }
}

/// A deferred swap that ends with the helper started leaves, once the helper
/// has run, the download's content at the executable's path and the old
/// executable's content in the backup, whatever steps failed on the way.
pub proof fn lemma_helper_installs_download(fs: Map<FileRole, Seq<u8>>, results: Seq<bool>)
    requires
        fs.contains_key(FileRole::Executable),
        fs.contains_key(FileRole::Download),
        run_swap(Strategy::DeferredHelper, swap_start(), fs, results).0 == SwapPhase::Finished(
            Outcome::TerminatedForNewVersion,
        ),
    ensures
        ({
            let after = helper_effect(
                run_swap(Strategy::DeferredHelper, swap_start(), fs, results).1,
            );
            &&& after.contains_key(FileRole::Executable)
            &&& after[FileRole::Executable] == fs[FileRole::Download]
            &&& after.contains_key(FileRole::Backup)
            &&& after[FileRole::Backup] == fs[FileRole::Executable]
        }),
{
    lemma_deferred_run(
        swap_start(),
        fs,
        results,
        fs[FileRole::Executable],
        fs[FileRole::Download],
    );
}

/// Where the backup rename succeeds and the install rename then fails, the
/// swap ends as a fatal failure, and nothing is left at the executable's path.
pub proof fn lemma_failed_install_is_fatal(fs: Map<FileRole, Seq<u8>>, marker_written: bool)
    requires
        fs.contains_key(FileRole::Executable),
    ensures
        ({
            let r = run_swap(
                Strategy::RenameInPlace,
                swap_start(),
                fs,
                seq![marker_written, true, false],
            );
            &&& r.0 == SwapPhase::Finished(Outcome::FatalSwapFailure)
            &&& !r.1.contains_key(FileRole::Executable)
        }),
{
    let s = Strategy::RenameInPlace;
    let results = seq![marker_written, true, false];
    let fs1 = effect(fs, SwapStep::WriteMarker, marker_written);
    let fs2 = effect(fs1, SwapStep::RenameExecutableToBackup, true);
    assert(results.skip(1) =~= seq![true, false]);
    assert(results.skip(1).skip(1) =~= seq![false]);
    assert(results.skip(1).skip(1).skip(1) =~= Seq::<bool>::empty());
    assert(!fs2.contains_key(FileRole::Executable));
    let fin = SwapPhase::Finished(Outcome::FatalSwapFailure);
    assert(run_swap(s, fin, fs2, Seq::<bool>::empty()) == (fin, fs2));
    assert(run_swap(s, SwapPhase::Installing, fs2, seq![false]) == (fin, fs2));
    assert(run_swap(s, SwapPhase::BackingUp, fs1, seq![true, false]) == (fin, fs2));
    assert(run_swap(s, swap_start(), fs, results) == (fin, fs2));
}

} // verus!
