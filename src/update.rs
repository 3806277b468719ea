use vstd::prelude::*;
use crate::error::PipelineError;
use crate::integrity::{artifact_matches, same_digest, sha256_upper_hex};
use crate::manifest::{resolve_current_version, resolve_patch, PatchInfo, PatchManifest};
use crate::progress::{close, emits, lemma_lines, emits_then_ends, emits_then_fails, say, ProgressEvent, ProgressStream};
use crate::proton::{join, path_join};

verus! {

/// The file name of the game's executable, which the user selects.
pub const EXE_NAME: &'static str = "VotV.exe";

/// Where the patchable content file lies, under the game's directory.
pub const PAK_RELATIVE_PATH: &'static str = "VotV/Content/Paks/VotV-WindowsNoEditor.pak";

/// Whether a selected file name is the game's executable.
pub fn is_game_executable(file_name: &String) -> (r: bool)
    ensures
        r == (file_name@ == EXE_NAME@),
{
    *file_name == String::from_str(EXE_NAME)
}

/// The content file to patch, for the game directory `game_dir`.
pub fn pak_path(game_dir: &String) -> (r: String)
    ensures
        r@ == path_join(game_dir@, PAK_RELATIVE_PATH@),
{
    join(game_dir, PAK_RELATIVE_PATH)
}

/// What the driver of an update run must do next.
pub enum UpdateAction {
    /// Fetch and parse the version manifest.
    FetchManifest,
    /// Download the artifact at this URL.
    Download(String),
    /// Extract these verified archive bytes into the installation's parent
    /// directory.
    Extract(Vec<u8>),
    /// Search the extracted tree for the diff-application script.
    FindScript,
    /// Run the script found, streaming its output as log lines.
    RunScript,
    /// Remove the script's directory; a failure here is only logged.
    Cleanup,
    /// The run has ended; its outcome and the sentinel have been emitted.
    Finished,
}

/// What the driver reports back after performing an action.
pub enum UpdateEvent {
    ManifestFetched(Result<PatchManifest, PipelineError>),
    Downloaded(Result<Vec<u8>, PipelineError>),
    Extracted(Result<(), PipelineError>),
    /// Whether the script was found.
    ScriptLocated(bool),
    /// The script's exit code, or the error that kept it from running.
    ScriptExited(Result<i32, PipelineError>),
    CleanedUp,
}

/// The step an update run is waiting on.
pub enum UpdatePhase {
    AwaitManifest { content_hash: String },
    AwaitDownload { patch: PatchInfo },
    AwaitExtract,
    AwaitScript,
    AwaitRun,
    AwaitCleanup { outcome: Result<i32, PipelineError> },
    Done,
}

/// Whether `e` answers the action that `p` waits on.
pub open spec fn answers(p: UpdatePhase, e: UpdateEvent) -> bool {
    match p {
        UpdatePhase::AwaitManifest { .. } => e is ManifestFetched,
        UpdatePhase::AwaitDownload { .. } => e is Downloaded,
        UpdatePhase::AwaitExtract => e is Extracted,
        UpdatePhase::AwaitScript => e is ScriptLocated,
        UpdatePhase::AwaitRun => e is ScriptExited,
        UpdatePhase::AwaitCleanup { .. } => e is CleanedUp,
        UpdatePhase::Done => false,
    }
}

/// The entry point of the two workflows: each run is a session driven by
/// the caller, which performs the actions the session asks for.
pub struct Patcher {}

impl Patcher {
    pub fn new() -> (r: Patcher) {
        Patcher {}
    }

    /// Starts an update of installed content whose digest is `content_hash`.
    pub fn start_update(&self, content_hash: String, out: &mut ProgressStream) -> (r: (
        UpdateSession,
        UpdateAction,
    ))
        requires
            old(out).wf(),
            !old(out).is_closed(),
        ensures
            final(out).wf(),
            !final(out).is_closed(),
            emits(old(out).history(), final(out).history(), seq!["Fetching patch manifest..."@]),
            r.0.phase() == (UpdatePhase::AwaitManifest { content_hash }),
            r.1 is FetchManifest,
    {
        UpdateSession::start(content_hash, out)
    }
}

/// The outcome an update run ends with once its script has exited.
pub open spec fn script_outcome(res: Result<i32, PipelineError>) -> Result<i32, PipelineError> {
    match res {
        Ok(code) => if code == 0 {
            Ok(0)
        } else {
            Err(PipelineError::ScriptExecutionFailed(code))
        },
        Err(e) => Err(e),
    }
}

/// One update run: the decisions between the steps that the driver performs.
pub struct UpdateSession {
    phase: UpdatePhase,
}

impl UpdateSession {
    pub closed spec fn phase(&self) -> UpdatePhase {
        self.phase
    }

    /// Starts a run for installed content with digest `content_hash`: the
    /// first step is to fetch the manifest.
    pub fn start(content_hash: String, out: &mut ProgressStream) -> (r: (UpdateSession, UpdateAction))
        requires
            old(out).wf(),
            !old(out).is_closed(),
        ensures
            final(out).wf(),
            !final(out).is_closed(),
            emits(old(out).history(), final(out).history(), seq!["Fetching patch manifest..."@]),
            r.0.phase() == (UpdatePhase::AwaitManifest { content_hash }),
            r.1 is FetchManifest,
    {
        let ghost h0 = out.history();
        say(out, String::from_str("Fetching patch manifest..."), Ghost(h0), Ghost(Seq::empty()));
        (UpdateSession { phase: UpdatePhase::AwaitManifest { content_hash } }, UpdateAction::FetchManifest)
    }

    /// Ends the run with `outcome`, after the log lines `lines` since `h0`.
    fn stop(
        &mut self,
        outcome: Result<i32, PipelineError>,
        out: &mut ProgressStream,
        h0: Ghost<Seq<ProgressEvent>>,
        lines: Ghost<Seq<Seq<char>>>,
    ) -> (r: UpdateAction)
        requires
            old(out).wf(),
            !old(out).is_closed(),
            emits(h0@, old(out).history(), lines@),
        ensures
            final(out).wf(),
            final(out).is_closed(),
            emits_then_ends(h0@, final(out).history(), lines@, outcome),
            final(self).phase() is Done,
            r is Finished,
    {
        close(out, outcome, h0, lines);
        self.phase = UpdatePhase::Done;
        UpdateAction::Finished
    }

    /// Takes the outcome of the last action and decides the next one. Each
    /// step states every event it emits.
    pub fn step(&mut self, event: UpdateEvent, out: &mut ProgressStream) -> (r: UpdateAction)
        requires
            old(out).wf(),
            !old(out).is_closed(),
            answers(old(self).phase(), event),
        ensures
            final(out).wf(),
            final(out).is_closed() == (r is Finished),
            (final(self).phase() is Done) == (r is Finished),
            ({
                let h0 = old(out).history();
                let h = final(out).history();
                let next = final(self).phase();
                match (old(self).phase(), event) {
                    (
                        UpdatePhase::AwaitManifest { content_hash },
                        UpdateEvent::ManifestFetched(Ok(m)),
                    ) => manifest_step(content_hash@, m, h0, h, r, next),
                    (UpdatePhase::AwaitDownload { patch }, UpdateEvent::Downloaded(Ok(bytes))) => {
                        if same_digest(sha256_upper_hex(bytes@), patch.sha256@) {
                            r == UpdateAction::Extract(bytes) && next is AwaitExtract && emits(
                                h0,
                                h,
                                seq!["Verifying patch integrity..."@, "Patch verified successfully"@],
                            )
                        } else {
                            r is Finished && emits_then_ends(
                                h0,
                                h,
                                seq!["Verifying patch integrity..."@],
                                Err(PipelineError::IntegrityError),
                            )
                        }
                    },
                    (_, UpdateEvent::ManifestFetched(Err(e))) => r is Finished && emits_then_ends(
                        h0,
                        h,
                        seq![],
                        Err(e),
                    ),
                    (_, UpdateEvent::Downloaded(Err(e))) => r is Finished && emits_then_ends(
                        h0,
                        h,
                        seq![],
                        Err(e),
                    ),
                    (_, UpdateEvent::Extracted(Ok(()))) => r is FindScript && next is AwaitScript
                        && emits(
                        h0,
                        h,
                        seq!["Extraction complete"@, "Looking for apply_patch.sh..."@],
                    ),
                    (_, UpdateEvent::Extracted(Err(e))) => r is Finished && emits_then_ends(
                        h0,
                        h,
                        seq![],
                        Err(e),
                    ),
                    (_, UpdateEvent::ScriptLocated(found)) => if found {
                        r is RunScript && next is AwaitRun && emits(h0, h, seq!["Applying patch..."@])
                    } else {
                        r is Finished && emits_then_ends(h0, h, seq![], Err(PipelineError::ScriptNotFound))
                    },
                    (_, UpdateEvent::ScriptExited(res)) => r is Cleanup && next == (
                    UpdatePhase::AwaitCleanup { outcome: script_outcome(res) }) && emits(
                        h0,
                        h,
                        seq!["Cleaning up temporary files..."@],
                    ),
                    (UpdatePhase::AwaitCleanup { outcome }, UpdateEvent::CleanedUp) => r is Finished
                        && if outcome is Ok {
                        emits_then_ends(h0, h, seq!["Update complete!"@], outcome)
                    } else {
                        emits_then_ends(h0, h, seq![], outcome)
                    },
                    _ => true,
                }
            }),
    {
        let ghost h0 = out.history();
        proof {
            let e = Seq::<char>::empty();
            lemma_lines("Verifying patch integrity..."@, "Patch verified successfully"@, e, e, e);
            lemma_lines("Extraction complete"@, "Looking for apply_patch.sh..."@, e, e, e);
        }
        let mut phase = UpdatePhase::Done;
        core::mem::swap(&mut phase, &mut self.phase);
        match event {
            UpdateEvent::ManifestFetched(Ok(m)) => {
                let content_hash = match phase {
                    UpdatePhase::AwaitManifest { content_hash } => content_hash,
                    _ => String::new(),
                };
                self.on_manifest(&m, &content_hash, out)
            },
            UpdateEvent::Downloaded(Ok(bytes)) => {
                let patch = match phase {
                    UpdatePhase::AwaitDownload { patch } => patch,
                    _ => PatchInfo { url: String::new(), sha256: String::new() },
                };
                say(out, String::from_str("Verifying patch integrity..."), Ghost(h0), Ghost(Seq::empty()));
                if artifact_matches(bytes.as_slice(), &patch.sha256) {
                    say(
                        out,
                        String::from_str("Patch verified successfully"),
                        Ghost(h0),
                        Ghost(Seq::empty().push("Verifying patch integrity..."@)),
                    );
                    self.phase = UpdatePhase::AwaitExtract;
                    UpdateAction::Extract(bytes)
                } else {
                    self.stop(
                        Err(PipelineError::IntegrityError),
                        out,
                        Ghost(h0),
                        Ghost(Seq::empty().push("Verifying patch integrity..."@)),
                    )
                }
            },
            UpdateEvent::ManifestFetched(Err(e)) => self.stop(Err(e), out, Ghost(h0), Ghost(Seq::empty())),
            UpdateEvent::Downloaded(Err(e)) => self.stop(Err(e), out, Ghost(h0), Ghost(Seq::empty())),
            UpdateEvent::Extracted(Ok(())) => {
                say(out, String::from_str("Extraction complete"), Ghost(h0), Ghost(Seq::empty()));
                say(
                    out,
                    String::from_str("Looking for apply_patch.sh..."),
                    Ghost(h0),
                    Ghost(Seq::empty().push("Extraction complete"@)),
                );
                self.phase = UpdatePhase::AwaitScript;
                UpdateAction::FindScript
            },
            UpdateEvent::Extracted(Err(e)) => self.stop(Err(e), out, Ghost(h0), Ghost(Seq::empty())),
            UpdateEvent::ScriptLocated(found) => {
                if found {
                    say(out, String::from_str("Applying patch..."), Ghost(h0), Ghost(Seq::empty()));
                    self.phase = UpdatePhase::AwaitRun;
                    UpdateAction::RunScript
                } else {
                    self.stop(Err(PipelineError::ScriptNotFound), out, Ghost(h0), Ghost(Seq::empty()))
                }
            },
            UpdateEvent::ScriptExited(res) => {
                let outcome = match res {
                    Ok(code) => if code == 0 {
                        Ok(0)
                    } else {
                        Err(PipelineError::ScriptExecutionFailed(code))
                    },
                    Err(e) => Err(e),
                };
                say(out, String::from_str("Cleaning up temporary files..."), Ghost(h0), Ghost(Seq::empty()));
                self.phase = UpdatePhase::AwaitCleanup { outcome };
                UpdateAction::Cleanup
            },
            UpdateEvent::CleanedUp => {
                let outcome = match phase {
                    UpdatePhase::AwaitCleanup { outcome } => outcome,
                    _ => Ok(0),
                };
                if outcome.is_ok() {
                    say(out, String::from_str("Update complete!"), Ghost(h0), Ghost(Seq::empty()));
                    self.stop(outcome, out, Ghost(h0), Ghost(Seq::empty().push("Update complete!"@)))
                } else {
                    self.stop(outcome, out, Ghost(h0), Ghost(Seq::empty()))
                }
            },
        }
    }

    /// The decision once the manifest is in hand.
    fn on_manifest(&mut self, m: &PatchManifest, content_hash: &String, out: &mut ProgressStream) -> (r:
        UpdateAction)
        requires
            old(out).wf(),
            !old(out).is_closed(),
        ensures
            final(out).wf(),
            final(out).is_closed() == (r is Finished),
            (final(self).phase() is Done) == (r is Finished),
            manifest_step(
                content_hash@,
                *m,
                old(out).history(),
                final(out).history(),
                r,
                final(self).phase(),
            ),
    {
        let ghost h0 = out.history();
        match resolve_current_version(m, content_hash) {
            Err(e) => self.stop(Err(e), out, Ghost(h0), Ghost(Seq::empty())),
            Ok(current) => {
                let ghost cur = "Current version: "@ + current@;
                let ghost lat = "Latest version: "@ + m.latest@;
                proof {
                    lemma_lines(cur, lat, "Already at latest version!"@, cur, cur);
                }
                say(out, String::from_str("Current version: ").concat(current.as_str()), Ghost(h0), Ghost(Seq::empty()));
                say(out, String::from_str("Latest version: ").concat(m.latest.as_str()), Ghost(h0), Ghost(Seq::empty().push(cur)));
                if current == m.latest {
                    say(out, String::from_str("Already at latest version!"), Ghost(h0), Ghost(Seq::empty().push(cur).push(lat)));
                    self.stop(Ok(0), out, Ghost(h0), Ghost(Seq::empty().push(cur).push(lat).push("Already at latest version!"@)))
                } else {
                    match resolve_patch(m, &current) {
                        Err(e) => self.stop(Err(e), out, Ghost(h0), Ghost(Seq::empty().push(cur).push(lat))),
                        Ok(p) => {
                            let ghost from = "Downloading patch from: "@ + p.url@;
                            proof {
                                lemma_lines(cur, lat, from, "Expected SHA256: "@ + p.sha256@, cur);
                            }
                            say(
                                out,
                                String::from_str("Downloading patch from: ").concat(p.url.as_str()),
                                Ghost(h0),
                                Ghost(Seq::empty().push(cur).push(lat)),
                            );
                            say(
                                out,
                                String::from_str("Expected SHA256: ").concat(p.sha256.as_str()),
                                Ghost(h0),
                                Ghost(Seq::empty().push(cur).push(lat).push(from)),
                            );
                            let url = p.url.clone();
                            self.phase = UpdatePhase::AwaitDownload { patch: p };
                            UpdateAction::Download(url)
                        },
                    }
                }
            },
        }
    }
}

/// What a step on a fetched manifest `m` does, for content with digest `h`:
/// the events it adds to `h0` to make `h`, its action `r` and next phase.
pub open spec fn manifest_step(
    hash: Seq<char>,
    m: PatchManifest,
    h0: Seq<ProgressEvent>,
    h: Seq<ProgressEvent>,
    r: UpdateAction,
    next: UpdatePhase,
) -> bool {
    match m.current_version(hash) {
        None => r is Finished && emits_then_ends(h0, h, seq![], Err(PipelineError::UnrecognizedVersion)),
        Some(v) => {
            let cur = "Current version: "@ + v;
            let lat = "Latest version: "@ + m.latest@;
            if v == m.latest@ {
                r is Finished && emits_then_ends(
                    h0,
                    h,
                    seq![cur, lat, "Already at latest version!"@],
                    Ok(0),
                )
            } else {
                match m.patch_for(v) {
                    None => r is Finished && emits_then_fails(
                        h0,
                        h,
                        seq![cur, lat],
                        |err: PipelineError| err matches PipelineError::NoPatchAvailable(s) && s@ == v,
                    ),
                    Some(p) => r == UpdateAction::Download(p.url) && next == (UpdatePhase::AwaitDownload {
                        patch: p,
                    }) && emits(
                        h0,
                        h,
                        seq![
                            cur,
                            lat,
                            "Downloading patch from: "@ + p.url@,
                            "Expected SHA256: "@ + p.sha256@,
                        ],
                    ),
                }
            }
        },
    }
}

} // verus!
