use vstd::prelude::*;
use crate::error::PipelineError;
use crate::manifest::GameVersion;
use crate::progress::{close, emits, lemma_lines, emits_then_ends, emits_then_fails, say, ProgressEvent, ProgressStream};

verus! {

/// The chunk store that the synchronization tool fetches from.
pub const STORE_URL: &'static str = "https://votv.dev/patcher_assets/256-1024-4096-store";

/// The release archive that holds the synchronization tool.
pub const TOOL_ARCHIVE_URL: &'static str =
    "https://github.com/folbricht/desync/releases/download/v0.9.6/desync_0.9.6_linux_amd64.tar.gz";

/// Where the tool is kept, relative to the working directory.
pub const LOCAL_TOOL: &'static str = "./desync";

/// The file name of the tool's binary.
pub const TOOL_NAME: &'static str = "desync";

/// How many chunks the tool fetches at once.
pub const TOOL_CONCURRENCY: &'static str = "16";

/// The views of a list of strings.
pub open spec fn views(v: Seq<String>) -> Seq<Seq<char>> {
    v.map_values(|s: String| s@)
}

/// The arguments of the synchronization tool: unpack, verbosely and without
/// the source's ownership, the index at `index` from the chunk store into
/// `target`, with a bounded number of workers.
pub open spec fn tool_arguments(index: Seq<char>, target: Seq<char>) -> Seq<Seq<char>> {
    seq![
        "untar"@,
        "--verbose"@,
        "--no-same-owner"@,
        "-i"@,
        "-s"@,
        STORE_URL@,
        index,
        target,
        "-n"@,
        TOOL_CONCURRENCY@,
    ]
}

/// Builds the argument list of the synchronization tool.
pub fn tool_arguments_for(index: &String, target: &String) -> (r: Vec<String>)
    ensures
        views(r@) == tool_arguments(index@, target@),
{
    let mut v: Vec<String> = Vec::new();
    v.push(String::from_str("untar"));
    v.push(String::from_str("--verbose"));
    v.push(String::from_str("--no-same-owner"));
    v.push(String::from_str("-i"));
    v.push(String::from_str("-s"));
    v.push(String::from_str(STORE_URL));
    v.push(index.clone());
    v.push(target.clone());
    v.push(String::from_str("-n"));
    v.push(String::from_str(TOOL_CONCURRENCY));
    assert(views(v@) =~= tool_arguments(index@, target@));
    v
}

/// The characters with the Unicode White_Space property, which
/// `char::is_whitespace` and `str::trim` go by.
pub open spec fn is_white_space(c: char) -> bool {
    ('\u{9}' <= c && c <= '\u{d}') || c == ' ' || c == '\u{85}' || c == '\u{a0}' || c
        == '\u{1680}' || ('\u{2000}' <= c && c <= '\u{200a}') || c == '\u{2028}' || c == '\u{2029}'
        || c == '\u{202f}' || c == '\u{205f}' || c == '\u{3000}'
}

fn white_space(c: char) -> (r: bool)
    ensures
        r == is_white_space(c),
{
    ('\u{9}' <= c && c <= '\u{d}') || c == ' ' || c == '\u{85}' || c == '\u{a0}' || c
        == '\u{1680}' || ('\u{2000}' <= c && c <= '\u{200a}') || c == '\u{2028}' || c == '\u{2029}'
        || c == '\u{202f}' || c == '\u{205f}' || c == '\u{3000}'
}

/// `s` without its leading white space.
pub open spec fn trim_start(s: Seq<char>) -> Seq<char>
    decreases s.len(),
{
    if s.len() > 0 && is_white_space(s[0]) {
        trim_start(s.drop_first())
    } else {
        s
    }
}

/// `s` without its trailing white space.
pub open spec fn trim_end(s: Seq<char>) -> Seq<char>
    decreases s.len(),
{
    if s.len() > 0 && is_white_space(s.last()) {
        trim_end(s.drop_last())
    } else {
        s
    }
}

/// `s` without leading and trailing white space.
pub open spec fn trim_of(s: Seq<char>) -> Seq<char> {
    trim_end(trim_start(s))
}

/// `s` without leading and trailing white space, as `str::trim` gives it.
pub fn trimmed(s: &str) -> (r: String)
    ensures
        r@ == trim_of(s@),
{
    let n = s.unicode_len();
    let mut i: usize = 0;
    assert(s@.subrange(0, n as int) =~= s@);
    while i < n && white_space(s.get_char(i))
        invariant
            i <= n,
            n == s@.len(),
            trim_start(s@) == trim_start(s@.subrange(i as int, n as int)),
        decreases n - i,
    {
        assert(s@.subrange(i as int, n as int).drop_first() =~= s@.subrange(i as int + 1, n as int));
        i = i + 1;
    }
    assert(trim_start(s@) == s@.subrange(i as int, n as int));
    let mut j: usize = n;
    while j > i && white_space(s.get_char(j - 1))
        invariant
            i <= j <= n,
            n == s@.len(),
            trim_end(s@.subrange(i as int, n as int)) == trim_end(s@.subrange(i as int, j as int)),
        decreases j - i,
    {
        assert(s@.subrange(i as int, j as int).drop_last() =~= s@.subrange(i as int, j as int - 1));
        j = j - 1;
    }
    assert(trim_end(s@.subrange(i as int, j as int)) == s@.subrange(i as int, j as int));
    String::from_str(s.substring_char(i, j))
}

/// What the driver of an install run must do next.
pub enum InstallAction {
    /// Check whether the tool is a file at the working-directory path.
    CheckLocalTool,
    /// Look the tool up through the search path.
    SearchPath,
    /// Download the tool's release archive from this URL.
    FetchTool(String),
    /// Extract these archive bytes into a scratch directory.
    UnpackTool(Vec<u8>),
    /// Search the scratch directory for the tool's binary.
    LocateTool,
    /// Copy the binary found at this path to the working-directory path, mark
    /// it executable and remove the scratch directory.
    PlaceTool(String),
    /// Create this directory, succeeding if it exists.
    CreateTarget(String),
    /// Download the chunk-store index at this URL.
    DownloadIndex(String),
    /// Write these index bytes to a file of the run's workspace.
    SaveIndex(Vec<u8>),
    /// Run `program` with `args`, with a heartbeat while it lives.
    RunTool { program: String, args: Vec<String> },
    /// Remove the run's workspace; a failure here is only logged.
    Cleanup,
    /// The run has ended; its outcome and the sentinel have been emitted.
    Finished,
}

/// What the driver reports back after performing an action.
pub enum InstallEvent {
    LocalTool(bool),
    /// The search's output when it succeeded.
    PathSearched(Option<String>),
    ToolFetched(Result<Vec<u8>, String>),
    ToolUnpacked(Result<(), String>),
    /// The path of the binary, if one was found.
    ToolLocated(Option<String>),
    ToolPlaced(Result<(), String>),
    TargetCreated(Result<(), PipelineError>),
    IndexDownloaded(Result<Vec<u8>, PipelineError>),
    /// The path the index was written to.
    IndexSaved(Result<String, PipelineError>),
    /// The tool's exit status, or the error that kept it from running.
    ToolExited(Result<i32, PipelineError>),
    CleanedUp,
}

/// The step an install run is waiting on.
pub enum InstallPhase {
    AwaitLocal,
    AwaitSearch,
    AwaitFetch,
    AwaitUnpack,
    AwaitLocate,
    AwaitPlace,
    AwaitTarget,
    AwaitIndex,
    AwaitSave,
    AwaitRun,
    AwaitCleanup { outcome: Result<i32, PipelineError> },
    Done,
}

/// Whether `e` answers the action that `p` waits on.
pub open spec fn install_answers(p: InstallPhase, e: InstallEvent) -> bool {
    match p {
        InstallPhase::AwaitLocal => e is LocalTool,
        InstallPhase::AwaitSearch => e is PathSearched,
        InstallPhase::AwaitFetch => e is ToolFetched,
        InstallPhase::AwaitUnpack => e is ToolUnpacked,
        InstallPhase::AwaitLocate => e is ToolLocated,
        InstallPhase::AwaitPlace => e is ToolPlaced,
        InstallPhase::AwaitTarget => e is TargetCreated,
        InstallPhase::AwaitIndex => e is IndexDownloaded,
        InstallPhase::AwaitSave => e is IndexSaved,
        InstallPhase::AwaitRun => e is ToolExited,
        InstallPhase::AwaitCleanup { .. } => e is CleanedUp,
        InstallPhase::Done => false,
    }
}

/// The bootstrap failure reported when the release archive holds no binary
/// of the tool's name.
pub const MISSING_BINARY: &'static str = "binary not found in the release archive";

/// The outcome an install run ends with once the tool has exited.
pub open spec fn tool_outcome(res: Result<i32, PipelineError>) -> Result<i32, PipelineError> {
    match res {
        Ok(code) => if code == 0 {
            Ok(0)
        } else {
            Err(PipelineError::InstallToolFailed(code))
        },
        Err(e) => Err(e),
    }
}

/// The line that names the tool in use.
pub open spec fn using_line(tool: Seq<char>) -> Seq<char> {
    "Using desync: "@ + tool
}

/// One install run of a catalog version into a target directory.
pub struct InstallSession {
    phase: InstallPhase,
    tool: String,
    target: String,
    link: String,
}

impl InstallSession {
    pub closed spec fn phase(&self) -> InstallPhase {
        self.phase
    }

    /// The path of the synchronization tool, once resolved.
    pub closed spec fn tool(&self) -> Seq<char> {
        self.tool@
    }

    /// The directory installed into.
    pub closed spec fn target(&self) -> Seq<char> {
        self.target@
    }

    /// The index URL of the version installed.
    pub closed spec fn link(&self) -> Seq<char> {
        self.link@
    }

    /// Starts an install of `version` into `target_dir`: the first step is to
    /// look for the tool in the working directory.
    pub fn start(version: &GameVersion, target_dir: String, out: &mut ProgressStream) -> (r: (
        InstallSession,
        InstallAction,
    ))
        requires
            old(out).wf(),
            !old(out).is_closed(),
        ensures
            final(out).wf(),
            !final(out).is_closed(),
            emits(
                old(out).history(),
                final(out).history(),
                seq![
                    "Installing VotV version: "@ + version.name@,
                    "Target directory: "@ + target_dir@,
                    "Index URL: "@ + version.link@,
                    "Store URL: "@ + STORE_URL@,
                    "Checking for desync binary..."@,
                ],
            ),
            r.0.phase() is AwaitLocal,
            r.0.target() == target_dir@,
            r.0.link() == version.link@,
            r.1 is CheckLocalTool,
    {
        let ghost h0 = out.history();
        let ghost l1 = "Installing VotV version: "@ + version.name@;
        let ghost l2 = "Target directory: "@ + target_dir@;
        let ghost l3 = "Index URL: "@ + version.link@;
        let ghost l4 = "Store URL: "@ + STORE_URL@;
        proof {
            lemma_lines(l1, l2, l3, l4, "Checking for desync binary..."@);
        }
        say(
            out,
            String::from_str("Installing VotV version: ").concat(version.name.as_str()),
            Ghost(h0),
            Ghost(Seq::empty()),
        );
        say(out, String::from_str("Target directory: ").concat(target_dir.as_str()), Ghost(h0), Ghost(Seq::empty().push(l1)));
        say(out, String::from_str("Index URL: ").concat(version.link.as_str()), Ghost(h0), Ghost(Seq::empty().push(l1).push(l2)));
        say(out, String::from_str("Store URL: ").concat(STORE_URL), Ghost(h0), Ghost(Seq::empty().push(l1).push(l2).push(l3)));
        say(
            out,
            String::from_str("Checking for desync binary..."),
            Ghost(h0),
            Ghost(Seq::empty().push(l1).push(l2).push(l3).push(l4)),
        );
        (
            InstallSession {
                phase: InstallPhase::AwaitLocal,
                tool: String::new(),
                target: target_dir,
                link: version.link.clone(),
            },
            InstallAction::CheckLocalTool,
        )
    }

    /// Ends the run with `outcome`, after the log lines `lines` since `h0`.
    fn stop(
        &mut self,
        outcome: Result<i32, PipelineError>,
        out: &mut ProgressStream,
        h0: Ghost<Seq<ProgressEvent>>,
        lines: Ghost<Seq<Seq<char>>>,
    ) -> (r: InstallAction)
        requires
            old(out).wf(),
            !old(out).is_closed(),
            emits(h0@, old(out).history(), lines@),
        ensures
            final(out).wf(),
            final(out).is_closed(),
            emits_then_ends(h0@, final(out).history(), lines@, outcome),
            final(self).phase() is Done,
            final(self).tool() == old(self).tool(),
            final(self).target() == old(self).target(),
            final(self).link() == old(self).link(),
            r is Finished,
    {
        close(out, outcome, h0, lines);
        self.phase = InstallPhase::Done;
        InstallAction::Finished
    }

    /// The tool is resolved to `tool`, after the log lines `lines` since
    /// `h0`: the next step creates the target.
    fn resolved(
        &mut self,
        tool: String,
        out: &mut ProgressStream,
        h0: Ghost<Seq<ProgressEvent>>,
        lines: Ghost<Seq<Seq<char>>>,
    ) -> (r: InstallAction)
        requires
            old(out).wf(),
            !old(out).is_closed(),
            emits(h0@, old(out).history(), lines@),
        ensures
            final(out).wf(),
            !final(out).is_closed(),
            emits(h0@, final(out).history(), lines@.push(using_line(tool@))),
            final(self).phase() is AwaitTarget,
            final(self).tool() == tool@,
            final(self).target() == old(self).target(),
            final(self).link() == old(self).link(),
            r matches InstallAction::CreateTarget(d) && d@ == old(self).target(),
    {
        say(out, String::from_str("Using desync: ").concat(tool.as_str()), h0, lines);
        self.tool = tool;
        self.phase = InstallPhase::AwaitTarget;
        InstallAction::CreateTarget(self.target.clone())
    }

    /// Takes the outcome of the last action and decides the next one. Each
    /// step states every event it emits.
    pub fn step(&mut self, event: InstallEvent, out: &mut ProgressStream) -> (r: InstallAction)
        requires
            old(out).wf(),
            !old(out).is_closed(),
            install_answers(old(self).phase(), event),
        ensures
            final(out).wf(),
            final(out).is_closed() == (r is Finished),
            (final(self).phase() is Done) == (r is Finished),
            final(self).target() == old(self).target(),
            final(self).link() == old(self).link(),
            !(r is CreateTarget) ==> final(self).tool() == old(self).tool(),
            ({
                let h0 = old(out).history();
                let h = final(out).history();
                let next = final(self).phase();
                let create = r matches InstallAction::CreateTarget(d) && d@ == old(self).target()
                    && next is AwaitTarget;
                match (old(self).phase(), event) {
                    (_, InstallEvent::LocalTool(present)) => if present {
                        create && final(self).tool() == LOCAL_TOOL@ && emits(
                            h0,
                            h,
                            seq![using_line(LOCAL_TOOL@)],
                        )
                    } else {
                        r is SearchPath && next is AwaitSearch && emits(h0, h, seq![])
                    },
                    (_, InstallEvent::PathSearched(found)) => {
                        let t = match found {
                            Some(text) => trim_of(text@),
                            None => Seq::<char>::empty(),
                        };
                        if t.len() > 0 {
                            create && final(self).tool() == t && emits(h0, h, seq![using_line(t)])
                        } else {
                            r matches InstallAction::FetchTool(u) && u@ == TOOL_ARCHIVE_URL@
                                && next is AwaitFetch && emits(
                                h0,
                                h,
                                seq!["Downloading desync binary..."@, "From: "@ + TOOL_ARCHIVE_URL@],
                            )
                        }
                    },
                    (_, InstallEvent::ToolFetched(res)) => match res {
                        Ok(bytes) => r == InstallAction::UnpackTool(bytes) && next is AwaitUnpack
                            && emits(h0, h, seq!["Extracting desync..."@]),
                        Err(m) => r is Finished && emits_then_ends(
                            h0,
                            h,
                            seq![],
                            Err(PipelineError::ToolBootstrapFailed(m)),
                        ),
                    },
                    (_, InstallEvent::ToolUnpacked(res)) => match res {
                        Ok(()) => r is LocateTool && next is AwaitLocate && emits(h0, h, seq![]),
                        Err(m) => r is Finished && emits_then_ends(
                            h0,
                            h,
                            seq![],
                            Err(PipelineError::ToolBootstrapFailed(m)),
                        ),
                    },
                    (_, InstallEvent::ToolLocated(found)) => match found {
                        Some(p) => r == InstallAction::PlaceTool(p) && next is AwaitPlace && emits(
                            h0,
                            h,
                            seq![],
                        ),
                        None => r is Finished && emits_then_fails(
                            h0,
                            h,
                            seq![],
                            |err: PipelineError|
                                err matches PipelineError::ToolBootstrapFailed(s) && s@
                                    == MISSING_BINARY@,
                        ),
                    },
                    (_, InstallEvent::ToolPlaced(res)) => match res {
                        Ok(()) => create && final(self).tool() == LOCAL_TOOL@ && emits(
                            h0,
                            h,
                            seq!["desync installed to: "@ + LOCAL_TOOL@, using_line(LOCAL_TOOL@)],
                        ),
                        Err(m) => r is Finished && emits_then_ends(
                            h0,
                            h,
                            seq![],
                            Err(PipelineError::ToolBootstrapFailed(m)),
                        ),
                    },
                    (_, InstallEvent::TargetCreated(res)) => match res {
                        Ok(()) => r matches InstallAction::DownloadIndex(u) && u@ == old(self).link()
                            && next is AwaitIndex && emits(h0, h, seq!["Downloading index file..."@]),
                        Err(e) => r is Finished && emits_then_ends(h0, h, seq![], Err(e)),
                    },
                    (_, InstallEvent::IndexDownloaded(res)) => match res {
                        Ok(bytes) => r == InstallAction::SaveIndex(bytes) && next is AwaitSave && emits(
                            h0,
                            h,
                            seq![],
                        ),
                        Err(e) => r is Finished && emits_then_ends(h0, h, seq![], Err(e)),
                    },
                    (_, InstallEvent::IndexSaved(res)) => match res {
                        Ok(index) => r matches InstallAction::RunTool { program, args }
                            && program@ == old(self).tool()
                            && views(args@) == tool_arguments(index@, old(self).target())
                            && next is AwaitRun && emits(
                            h0,
                            h,
                            seq![
                                "Index saved to: "@ + index@,
                                "Running desync to extract game files..."@,
                                "This may take a while depending on your connection..."@,
                            ],
                        ),
                        Err(e) => r is Cleanup && next == (InstallPhase::AwaitCleanup {
                            outcome: Err(e),
                        }) && emits(h0, h, seq!["Cleaning up temporary files..."@]),
                    },
                    (_, InstallEvent::ToolExited(res)) => r is Cleanup && next == (
                    InstallPhase::AwaitCleanup { outcome: tool_outcome(res) }) && if tool_outcome(
                        res,
                    ) is Ok {
                        emits(
                            h0,
                            h,
                            seq!["desync command complete."@, "Cleaning up temporary files..."@],
                        )
                    } else {
                        emits(h0, h, seq!["Cleaning up temporary files..."@])
                    },
                    (InstallPhase::AwaitCleanup { outcome }, InstallEvent::CleanedUp) => r is Finished
                        && if outcome is Ok {
                        emits_then_ends(
                            h0,
                            h,
                            seq!["Installation complete!"@, "Game installed to: "@ + old(self).target()],
                            outcome,
                        )
                    } else {
                        emits_then_ends(h0, h, seq![], outcome)
                    },
                    _ => true,
                }
            }),
    {
        let ghost h0 = out.history();
        proof {
            let e = Seq::<char>::empty();
            lemma_lines("Downloading desync binary..."@, "From: "@ + TOOL_ARCHIVE_URL@, e, e, e);
            lemma_lines("desync installed to: "@ + LOCAL_TOOL@, using_line(LOCAL_TOOL@), e, e, e);
            lemma_lines("desync command complete."@, "Cleaning up temporary files..."@, e, e, e);
            lemma_lines("Installation complete!"@, "Game installed to: "@ + self.target@, e, e, e);
        }
        let mut phase = InstallPhase::Done;
        core::mem::swap(&mut phase, &mut self.phase);
        match event {
            InstallEvent::LocalTool(present) => {
                if present {
                    self.resolved(String::from_str(LOCAL_TOOL), out, Ghost(h0), Ghost(Seq::empty()))
                } else {
                    self.phase = InstallPhase::AwaitSearch;
                    InstallAction::SearchPath
                }
            },
            InstallEvent::PathSearched(found) => {
                let path = match found {
                    Some(text) => trimmed(text.as_str()),
                    None => String::new(),
                };
                if path.unicode_len() > 0 {
                    self.resolved(path, out, Ghost(h0), Ghost(Seq::empty()))
                } else {
                    say(out, String::from_str("Downloading desync binary..."), Ghost(h0), Ghost(Seq::empty()));
                    say(
                        out,
                        String::from_str("From: ").concat(TOOL_ARCHIVE_URL),
                        Ghost(h0),
                        Ghost(Seq::empty().push("Downloading desync binary..."@)),
                    );
                    self.phase = InstallPhase::AwaitFetch;
                    InstallAction::FetchTool(String::from_str(TOOL_ARCHIVE_URL))
                }
            },
            InstallEvent::ToolFetched(Ok(bytes)) => {
                say(out, String::from_str("Extracting desync..."), Ghost(h0), Ghost(Seq::empty()));
                self.phase = InstallPhase::AwaitUnpack;
                InstallAction::UnpackTool(bytes)
            },
            InstallEvent::ToolUnpacked(Ok(())) => {
                self.phase = InstallPhase::AwaitLocate;
                InstallAction::LocateTool
            },
            InstallEvent::ToolLocated(Some(p)) => {
                self.phase = InstallPhase::AwaitPlace;
                InstallAction::PlaceTool(p)
            },
            InstallEvent::ToolLocated(None) => self.stop(
                Err(PipelineError::ToolBootstrapFailed(String::from_str(MISSING_BINARY))),
                out,
                Ghost(h0),
                Ghost(Seq::empty()),
            ),
            InstallEvent::ToolPlaced(Ok(())) => {
                say(
                    out,
                    String::from_str("desync installed to: ").concat(LOCAL_TOOL),
                    Ghost(h0),
                    Ghost(Seq::empty()),
                );
                self.resolved(
                    String::from_str(LOCAL_TOOL),
                    out,
                    Ghost(h0),
                    Ghost(Seq::empty().push("desync installed to: "@ + LOCAL_TOOL@)),
                )
            },
            InstallEvent::ToolFetched(Err(m)) => self.stop(
                Err(PipelineError::ToolBootstrapFailed(m)),
                out,
                Ghost(h0),
                Ghost(Seq::empty()),
            ),
            InstallEvent::ToolUnpacked(Err(m)) => self.stop(
                Err(PipelineError::ToolBootstrapFailed(m)),
                out,
                Ghost(h0),
                Ghost(Seq::empty()),
            ),
            InstallEvent::ToolPlaced(Err(m)) => self.stop(
                Err(PipelineError::ToolBootstrapFailed(m)),
                out,
                Ghost(h0),
                Ghost(Seq::empty()),
            ),
            InstallEvent::TargetCreated(Ok(())) => {
                say(out, String::from_str("Downloading index file..."), Ghost(h0), Ghost(Seq::empty()));
                self.phase = InstallPhase::AwaitIndex;
                InstallAction::DownloadIndex(self.link.clone())
            },
            InstallEvent::TargetCreated(Err(e)) => self.stop(Err(e), out, Ghost(h0), Ghost(Seq::empty())),
            InstallEvent::IndexDownloaded(Ok(bytes)) => {
                self.phase = InstallPhase::AwaitSave;
                InstallAction::SaveIndex(bytes)
            },
            InstallEvent::IndexDownloaded(Err(e)) => self.stop(Err(e), out, Ghost(h0), Ghost(Seq::empty())),
            InstallEvent::IndexSaved(Ok(index)) => {
                let ghost l1 = "Index saved to: "@ + index@;
                proof {
                    lemma_lines(
                        l1,
                        "Running desync to extract game files..."@,
                        "This may take a while depending on your connection..."@,
                        l1,
                        l1,
                    );
                }
                say(out, String::from_str("Index saved to: ").concat(index.as_str()), Ghost(h0), Ghost(Seq::empty()));
                say(
                    out,
                    String::from_str("Running desync to extract game files..."),
                    Ghost(h0),
                    Ghost(Seq::empty().push(l1)),
                );
                say(
                    out,
                    String::from_str("This may take a while depending on your connection..."),
                    Ghost(h0),
                    Ghost(Seq::empty().push(l1).push("Running desync to extract game files..."@)),
                );
                let args = tool_arguments_for(&index, &self.target);
                self.phase = InstallPhase::AwaitRun;
                InstallAction::RunTool { program: self.tool.clone(), args }
            },
            InstallEvent::IndexSaved(Err(e)) => {
                say(out, String::from_str("Cleaning up temporary files..."), Ghost(h0), Ghost(Seq::empty()));
                self.phase = InstallPhase::AwaitCleanup { outcome: Err(e) };
                InstallAction::Cleanup
            },
            InstallEvent::ToolExited(res) => {
                let outcome = match res {
                    Ok(code) => if code == 0 {
                        Ok(0)
                    } else {
                        Err(PipelineError::InstallToolFailed(code))
                    },
                    Err(e) => Err(e),
                };
                if outcome.is_ok() {
                    say(out, String::from_str("desync command complete."), Ghost(h0), Ghost(Seq::empty()));
                    say(
                        out,
                        String::from_str("Cleaning up temporary files..."),
                        Ghost(h0),
                        Ghost(Seq::empty().push("desync command complete."@)),
                    );
                } else {
                    say(out, String::from_str("Cleaning up temporary files..."), Ghost(h0), Ghost(Seq::empty()));
                }
                self.phase = InstallPhase::AwaitCleanup { outcome };
                InstallAction::Cleanup
            },
            InstallEvent::CleanedUp => {
                let outcome = match phase {
                    InstallPhase::AwaitCleanup { outcome } => outcome,
                    _ => Ok(0),
                };
                if outcome.is_ok() {
                    say(out, String::from_str("Installation complete!"), Ghost(h0), Ghost(Seq::empty()));
                    say(
                        out,
                        String::from_str("Game installed to: ").concat(self.target.as_str()),
                        Ghost(h0),
                        Ghost(Seq::empty().push("Installation complete!"@)),
                    );
                    self.stop(
                        outcome,
                        out,
                        Ghost(h0),
                        Ghost(Seq::empty().push("Installation complete!"@).push("Game installed to: "@ + self.target@)),
                    )
                } else {
                    self.stop(outcome, out, Ghost(h0), Ghost(Seq::empty()))
                }
            },
        }
    }
}

} // verus!
