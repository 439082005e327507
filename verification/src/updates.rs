//! Updates of this desktop application: the check, the download, and the
//! installation.
use vstd::prelude::*;
use crate::clock::{moment, moment_text};
use crate::text::{decimal, decimal_text, is_text, join2, join3, starts_with};

verus! {

/// A release that can be installed.
#[derive(Debug)]
pub struct Manifest {
    pub version: String,
    pub notes_url: String,
}

/// What a release is.
#[verifier::ext_equal]
pub struct Release {
    pub version: Seq<char>,
    pub notes_url: Seq<char>,
}

impl DeepView for Manifest {
    type V = Release;

    open spec fn deep_view(&self) -> Release {
        Release { version: self.version@, notes_url: self.notes_url@ }
    }
}

/// Where an update stands. A staged one is named by its path.
#[derive(Debug)]
pub enum UpdateFlow {
    Idle,
    Downloading,
    Ready(String),
    Installing,
    Failed(String),
}

/// What the flow says.
pub enum Flow {
    Idle,
    Downloading,
    Ready(Seq<char>),
    Installing,
    Failed(Seq<char>),
}

impl View for UpdateFlow {
    type V = Flow;

    open spec fn view(&self) -> Flow {
        match self {
            UpdateFlow::Idle => Flow::Idle,
            UpdateFlow::Downloading => Flow::Downloading,
            UpdateFlow::Ready(staged) => Flow::Ready(staged@),
            UpdateFlow::Installing => Flow::Installing,
            UpdateFlow::Failed(message) => Flow::Failed(message@),
        }
    }
}

/// What the application knows of its updates.
#[derive(Debug)]
pub struct Updates {
    pub checking: bool,
    pub status: String,
    pub dismissed: Option<String>,
    pub checked_at: Option<String>,
    pub manifest: Option<Manifest>,
    pub flow: UpdateFlow,
    /// A notice in the sidebar.
    pub notice: Option<String>,
}

/// What is known of updates.
#[verifier::ext_equal]
pub struct Known {
    pub checking: bool,
    pub status: Seq<char>,
    pub dismissed: Option<Seq<char>>,
    pub checked_at: Option<Seq<char>>,
    pub release: Option<Release>,
    pub flow: Flow,
    pub notice: Option<Seq<char>>,
}

impl View for Updates {
    type V = Known;

    open spec fn view(&self) -> Known {
        Known {
            checking: self.checking,
            status: self.status@,
            dismissed: self.dismissed.deep_view(),
            checked_at: self.checked_at.deep_view(),
            release: self.manifest.deep_view(),
            flow: self.flow@,
            notice: self.notice.deep_view(),
        }
    }
}

/// What came of a check.
#[derive(Debug)]
pub enum CheckOutcome {
    /// The latest release, and whether it is newer than this application.
    Latest { manifest: Manifest, newer: bool },
    Failed { error: String },
}

/// What a click on the update asks for.
#[derive(Debug)]
pub enum UpdateDeed {
    Nothing,
    /// The release is downloaded and staged.
    Download,
    /// The staged update is installed.
    Apply { staged: String },
}

/// What installing asks for next.
#[derive(Debug, Clone, Copy, PartialEq, Eq, Structural)]
pub enum InstallStep {
    Nothing,
    /// Editors are asked whether the application may exit.
    PrepareExit,
    /// The local engine is asked whether it may be updated.
    AskEngine,
    /// No engine has to be asked.
    SkipEngine,
    /// The staged update is put in place.
    Install,
    Quit,
}

/// The page of updates.
#[derive(Debug)]
pub struct UpdatesPage {
    pub identity: String,
    pub build: String,
    pub label: String,
    pub status: String,
    pub checked: Option<String>,
    pub check_button: bool,
    pub install_button: Option<&'static str>,
    pub unmanaged: bool,
    pub release_notes: Option<String>,
}

impl Known {
    /// A download or an installation runs, or one is ready.
    pub open spec fn underway(self) -> bool {
        self.flow is Downloading || self.flow is Ready || self.flow is Installing
    }

    /// The label: the status while nothing is underway, else how far it got.
    pub open spec fn label(
        self,
        received: nat,
        total: nat,
        received_mb: Seq<char>,
        total_mb: Seq<char>,
    ) -> Seq<char> {
        match self.flow {
            Flow::Idle => self.status,
            Flow::Downloading => if total > 0 && received >= total {
                "Verifying and preparing update…"@
            } else if total > 0 {
                "Downloading… "@ + decimal_text(received * 100 / total) + "% ("@ + received_mb
                    + " / "@ + total_mb + " MB)"@
            } else {
                "Starting download…"@
            },
            Flow::Ready(_) => "Update ready. Install and restart when your work is finished."@,
            Flow::Installing => "Installing update…"@,
            Flow::Failed(message) => "Update failed: "@ + message,
        }
    }

    /// An installation that did not happen leaves the update ready, with the
    /// reason as the status.
    pub open spec fn held_back(self, staged: Seq<char>, status: Seq<char>) -> Known {
        Known { flow: Flow::Ready(staged), status, ..self }
    }
}

impl Updates {
    /// Begins a check, unless one runs or an update is underway. Returns
    /// whether the latest release has to be fetched. Asking by hand brings a
    /// dismissed strip back.
    pub fn check_for_updates(&mut self, manual: bool, distributed: bool) -> (r: bool)
        ensures
            r == (!old(self)@.checking && !old(self)@.underway() && distributed),
            final(self)@ == (if old(self)@.checking || old(self)@.underway() {
                old(self)@
            } else if !distributed {
                Known {
                    status: "Local source build. Install Noches or Noches Dev to receive application updates."@,
                    ..old(self)@
                }
            } else {
                Known {
                    checking: true,
                    status: "Checking for updates…"@,
                    dismissed: if manual {
                        None
                    } else {
                        old(self)@.dismissed
                    },
                    ..old(self)@
                }
            }),
    {
        if self.checking {
            return false;
        }
        match self.flow {
            UpdateFlow::Downloading => return false,
            UpdateFlow::Ready(_) => return false,
            UpdateFlow::Installing => return false,
            _ => {},
        }
        if !distributed {
            self.status =
                "Local source build. Install Noches or Noches Dev to receive application updates.".to_owned();
            return false;
        }
        self.checking = true;
        self.status = "Checking for updates…".to_owned();
        if manual {
            self.dismissed = None;
        }
        true
    }

    /// Takes over what came of a check at a moment.
    pub fn update_checked(&mut self, now_ms: i64, outcome: CheckOutcome)
        ensures
            ({
                let done = Known {
                    checking: false,
                    checked_at: moment_text(now_ms),
                    ..old(self)@
                };
                final(self)@ == (match outcome {
                    CheckOutcome::Latest { manifest, newer } => Known {
                        status: if newer {
                            "Version "@ + manifest.version@ + " is available."@
                        } else {
                            "You're up to date."@
                        },
                        release: if newer {
                            Some(manifest.deep_view())
                        } else {
                            None
                        },
                        ..done
                    },
                    CheckOutcome::Failed { error } => Known {
                        status: "Could not check for updates: "@ + error@,
                        release: None,
                        ..done
                    },
                })
            }),
    {
        self.checking = false;
        self.checked_at = moment(now_ms);
        match outcome {
            CheckOutcome::Latest { manifest, newer } => {
                if newer {
                    self.status = join3("Version ", manifest.version.as_str(), " is available.");
                    self.manifest = Some(manifest);
                } else {
                    self.status = "You're up to date.".to_owned();
                    self.manifest = None;
                }
            },
            CheckOutcome::Failed { error } => {
                self.manifest = None;
                self.status = join2("Could not check for updates: ", error.as_str());
            },
        }
    }

    /// The label of the update. The megabytes are given as written out.
    pub fn update_label(&self, received: u64, total: u64, received_mb: &str, total_mb: &str) -> (r:
        String)
        requires
            received < total ==> received * 100 <= u64::MAX,
        ensures
            r@ == self@.label(received as nat, total as nat, received_mb@, total_mb@),
    {
        match &self.flow {
            UpdateFlow::Idle => self.status.clone(),
            UpdateFlow::Downloading => {
                if total > 0 && received >= total {
                    "Verifying and preparing update…".to_owned()
                } else if total > 0 {
                    let percent: String = decimal(received * 100 / total);
                    let mut out: String = join3("Downloading… ", percent.as_str(), "% (");
                    out.append(received_mb);
                    out.append(" / ");
                    out.append(total_mb);
                    out.append(" MB)");
                    out
                } else {
                    "Starting download…".to_owned()
                }
            },
            UpdateFlow::Ready(_) => {
                "Update ready. Install and restart when your work is finished.".to_owned()
            },
            UpdateFlow::Installing => "Installing update…".to_owned(),
            UpdateFlow::Failed(message) => join2("Update failed: ", message.as_str()),
        }
    }

    /// The strip in the sidebar: the label, while there is a release that was
    /// not dismissed.
    pub fn render_update_strip(
        &self,
        received: u64,
        total: u64,
        received_mb: &str,
        total_mb: &str,
    ) -> (r: Option<String>)
        requires
            received < total ==> received * 100 <= u64::MAX,
        ensures
            r.deep_view() == (match self@.release {
                Some(release) if self@.dismissed != Some(release.version) => Some(
                    self@.label(received as nat, total as nat, received_mb@, total_mb@),
                ),
                _ => None,
            }),
    {
        match &self.manifest {
            Some(manifest) => {
                if is_text(&self.dismissed, manifest.version.as_str()) {
                    None
                } else {
                    Some(self.update_label(received, total, received_mb, total_mb))
                }
            },
            None => None,
        }
    }

    /// The page of updates. `managed` says that this installation can update
    /// itself.
    pub fn render_updates_page(
        &self,
        app_name: &str,
        version: &str,
        channel: &str,
        commit: &str,
        managed: bool,
        received: u64,
        total: u64,
        received_mb: &str,
        total_mb: &str,
    ) -> (r: UpdatesPage)
        requires
            received < total ==> received * 100 <= u64::MAX,
        ensures
            ({
                let known = self@;
                let busy = known.checking || known.flow is Downloading || known.flow is Installing;
                let ready = known.flow is Ready;
                &&& r.identity@ == app_name@ + " "@ + version@ + " · "@ + channel@ + " channel"@
                &&& r.build@ == "Build "@ + commit@
                &&& r.label@ == known.label(
                    received as nat,
                    total as nat,
                    received_mb@,
                    total_mb@,
                )
                &&& r.status@ == known.status
                &&& r.checked.deep_view() == (match known.checked_at {
                    Some(at) => Some("Last checked "@ + at),
                    None => None,
                })
                &&& r.check_button == (!busy && !ready)
                &&& r.install_button.deep_view() == (if known.release is Some && managed && !busy {
                    Some(
                        if ready {
                            "Install and restart"@
                        } else {
                            "Download update"@
                        },
                    )
                } else {
                    None
                })
                &&& r.unmanaged == !managed
                &&& r.release_notes.deep_view() == (match known.release {
                    Some(release) if "https://github.com/"@.is_prefix_of(
                        release.notes_url,
                    ) => Some(release.notes_url),
                    _ => None,
                })
            }),
    {
        let ready: bool = match self.flow {
            UpdateFlow::Ready(_) => true,
            _ => false,
        };
        let busy: bool = self.checking || match self.flow {
            UpdateFlow::Downloading => true,
            UpdateFlow::Installing => true,
            _ => false,
        };
        let mut identity: String = join3(app_name, " ", version);
        identity.append(" · ");
        identity.append(channel);
        identity.append(" channel");
        let checked: Option<String> = match &self.checked_at {
            Some(at) => Some(join2("Last checked ", at.as_str())),
            None => None,
        };
        let install_button: Option<&'static str> = if self.manifest.is_some() && managed && !busy {
            if ready {
                Some("Install and restart")
            } else {
                Some("Download update")
            }
        } else {
            None
        };
        let release_notes: Option<String> = match &self.manifest {
            Some(manifest) => {
                if starts_with(manifest.notes_url.as_str(), "https://github.com/") {
                    Some(manifest.notes_url.clone())
                } else {
                    None
                }
            },
            None => None,
        };
        UpdatesPage {
            identity,
            build: join2("Build ", commit),
            label: self.update_label(received, total, received_mb, total_mb),
            status: self.status.clone(),
            checked,
            check_button: !busy && !ready,
            install_button,
            unmanaged: !managed,
            release_notes,
        }
    }

    /// Begins a download, where there is a release.
    pub fn begin_update_download(&mut self) -> (r: bool)
        ensures
            r == old(self)@.release is Some,
            final(self)@ == (if r {
                Known { flow: Flow::Downloading, ..old(self)@ }
            } else {
                old(self)@
            }),
    {
        if self.manifest.is_none() {
            return false;
        }
        self.flow = UpdateFlow::Downloading;
        true
    }

    /// A click on the update: a ready one is applied, a running one is left
    /// alone, and otherwise a download begins.
    pub fn on_update_strip_click(&mut self) -> (r: UpdateDeed)
        ensures
            (match old(self)@.flow {
                Flow::Ready(staged) => {
                    &&& r is Apply && r->staged@ == staged
                    &&& final(self)@ == (Known { flow: Flow::Idle, ..old(self)@ })
                },
                Flow::Downloading | Flow::Installing => {
                    &&& r is Nothing
                    &&& final(self)@ == old(self)@
                },
                Flow::Idle | Flow::Failed(_) => if old(self)@.release is Some {
                    &&& r is Download
                    &&& final(self)@ == (Known { flow: Flow::Downloading, ..old(self)@ })
                } else {
                    &&& r is Nothing
                    &&& final(self)@ == (Known { flow: Flow::Idle, ..old(self)@ })
                },
            }),
    {
        let mut flow: UpdateFlow = UpdateFlow::Idle;
        std::mem::swap(&mut flow, &mut self.flow);
        match flow {
            UpdateFlow::Ready(staged) => UpdateDeed::Apply { staged },
            UpdateFlow::Downloading => {
                self.flow = UpdateFlow::Downloading;
                UpdateDeed::Nothing
            },
            UpdateFlow::Installing => {
                self.flow = UpdateFlow::Installing;
                UpdateDeed::Nothing
            },
            _ => {
                if self.begin_update_download() {
                    UpdateDeed::Download
                } else {
                    UpdateDeed::Nothing
                }
            },
        }
    }

    /// Takes over how a download ended: the staged path, or an error.
    pub fn download_finished(&mut self, result: Result<String, String>)
        ensures
            final(self)@ == (Known {
                flow: match result {
                    Ok(staged) => Flow::Ready(staged@),
                    Err(error) => Flow::Failed(error@),
                },
                ..old(self)@
            }),
    {
        self.flow = match result {
            Ok(staged) => UpdateFlow::Ready(staged),
            Err(error) => UpdateFlow::Failed(error),
        };
    }

    /// Whether the progress of a download is still watched.
    pub fn watches_progress(&self) -> (r: bool)
        ensures
            r == self@.flow is Downloading,
    {
        match self.flow {
            UpdateFlow::Downloading => true,
            _ => false,
        }
    }

    /// Begins to install a staged update, in the last window only.
    pub fn apply_staged_update(&mut self, staged: &str, windows: usize) -> (r: InstallStep)
        ensures
            r == (if windows > 1 {
                InstallStep::Nothing
            } else {
                InstallStep::PrepareExit
            }),
            final(self)@ == (if windows > 1 {
                old(self)@.held_back(
                    staged@,
                    "Close other Noches windows before installing so their editors and local work remain safe."@,
                )
            } else {
                old(self)@
            }),
    {
        if windows > 1 {
            self.flow = UpdateFlow::Ready(staged.to_owned());
            self.status =
                "Close other Noches windows before installing so their editors and local work remain safe.".to_owned();
            return InstallStep::Nothing;
        }
        InstallStep::PrepareExit
    }

    /// Goes on where the application may exit. A local engine has to be
    /// connected, and is asked first.
    pub fn exit_prepared(&mut self, staged: &str, allowed: bool, remote: bool, engine: bool) -> (r:
        InstallStep)
        ensures
            r == (if !allowed || (!remote && !engine) {
                InstallStep::Nothing
            } else if remote {
                InstallStep::SkipEngine
            } else {
                InstallStep::AskEngine
            }),
            final(self)@ == (if !allowed {
                old(self)@
            } else if !remote && !engine {
                old(self)@.held_back(
                    staged@,
                    "Wait for the local engine to connect before restarting."@,
                )
            } else {
                Known { flow: Flow::Installing, ..old(self)@ }
            }),
    {
        if !allowed {
            return InstallStep::Nothing;
        }
        if !remote && !engine {
            self.flow = UpdateFlow::Ready(staged.to_owned());
            self.status = "Wait for the local engine to connect before restarting.".to_owned();
            return InstallStep::Nothing;
        }
        self.flow = UpdateFlow::Installing;
        if remote {
            InstallStep::SkipEngine
        } else {
            InstallStep::AskEngine
        }
    }

    /// Takes over what the engine said. Where it agreed, editors are asked
    /// once more.
    pub fn engine_answered(&mut self, staged: &str, answer: Result<(), String>) -> (r: InstallStep)
        ensures
            r == (if answer is Ok {
                InstallStep::PrepareExit
            } else {
                InstallStep::Nothing
            }),
            final(self)@ == (match answer {
                Ok(_) => old(self)@,
                Err(message) => Known {
                    notice: Some(message@),
                    ..old(self)@.held_back(staged@, message@)
                },
            }),
    {
        match answer {
            Ok(_) => InstallStep::PrepareExit,
            Err(message) => {
                self.notice = Some(message.clone());
                self.status = message;
                self.flow = UpdateFlow::Ready(staged.to_owned());
                InstallStep::Nothing
            },
        }
    }

    /// Installs where the application may still exit; else the update stays
    /// ready.
    pub fn exit_confirmed(&mut self, staged: &str, allowed: bool) -> (r: InstallStep)
        ensures
            r == (if allowed {
                InstallStep::Install
            } else {
                InstallStep::Nothing
            }),
            final(self)@ == (if allowed {
                old(self)@
            } else {
                Known { flow: Flow::Ready(staged@), ..old(self)@ }
            }),
    {
        if allowed {
            return InstallStep::Install;
        }
        self.flow = UpdateFlow::Ready(staged.to_owned());
        InstallStep::Nothing
    }

    /// Quits where the update is in place; else it stays ready.
    pub fn installed(&mut self, staged: &str, result: Result<(), String>) -> (r: InstallStep)
        ensures
            r == (if result is Ok {
                InstallStep::Quit
            } else {
                InstallStep::Nothing
            }),
            final(self)@ == (match result {
                Ok(_) => old(self)@,
                Err(error) => {
                    let status = "Could not install: "@ + error@;
                    Known { notice: Some(status), ..old(self)@.held_back(staged@, status) }
                },
            }),
    {
        match result {
            Ok(_) => InstallStep::Quit,
            Err(error) => {
                self.status = join2("Could not install: ", error.as_str());
                self.flow = UpdateFlow::Ready(staged.to_owned());
                self.notice = Some(self.status.clone());
                InstallStep::Nothing
            },
        }
    }
}

/// Why an engine did not agree: it did not answer in time, or it refused.
pub fn guard_error(refusal: Option<String>) -> (r: String)
    ensures
        r@ == (match refusal {
            Some(message) => message@,
            None => "The engine did not answer. Retry once it is connected."@,
        }),
{
    match refusal {
        Some(message) => message,
        None => "The engine did not answer. Retry once it is connected.".to_owned(),
    }
}

/// Whatever holds an installation back, the staged update is not lost.
pub proof fn a_held_back_update_stays_ready(known: Known, staged: Seq<char>, status: Seq<char>)
    ensures
        known.held_back(staged, status).flow == Flow::Ready(staged),
        known.held_back(staged, status).release == known.release,
        known.held_back(staged, status).underway(),
{
}

} // verus!
