//! The surface lifecycle state machine: it owns the last-applied
//! configuration, reconciles it against each frame's window snapshot, and
//! decides how every texture-acquisition outcome is absorbed — one bounded
//! retry after an outdated configuration, a skipped frame on a recognized
//! driver-quirk timeout, and a fatal stop on everything else.
//!
//! The machine works on plain model values: the caller performs the native
//! surface operations (create, apply a configuration, acquire a texture)
//! and reports their outcomes as events.

use vstd::prelude::*;
use crate::config::{build_surface_configuration, spec_build_config, ConfigurationModel,
    SurfaceConfiguration};
use crate::formats::SurfaceFormat;
use crate::negotiate::{negotiate_format, spec_negotiate, ConfigError, SurfaceCapabilities};
use crate::quirks::{is_spurious_timeout, spec_spurious_timeout, OsFamily, PresentEnvironment,
    TimeoutPolicy};
use crate::snapshot::WindowSnapshot;

verus! {

/// Where the managed surface stands in its life.
#[derive(Clone, Copy, PartialEq, Eq, Structural, Debug)]
pub enum Phase {
    /// No native surface exists yet.
    Unconfigured,
    /// The surface exists and the last-applied configuration is known; no
    /// texture is held for the current frame.
    Configured,
    /// An acquisition reported the configuration outdated; it was
    /// re-applied and exactly one retry is pending.
    AwaitingRetry,
    /// A presentable texture is held, pending the draw.
    FrameAcquired,
    /// A fatal presentation error was seen; the machine never leaves this.
    Failed,
}

/// What one `ensure_ready` call did, and what the caller must do next.
#[derive(Clone, Copy, PartialEq, Eq, Structural, Debug)]
pub enum ReadyAction {
    /// No window handle or usable snapshot this frame: nothing happened,
    /// and the draw is skipped.
    Skipped,
    /// The snapshot matches the last-applied configuration: nothing to do.
    Unchanged,
    /// The first configuration was built; the caller must apply it to the
    /// freshly created native surface.
    ApplyInitial,
    /// The snapshot changed, so the configuration was rebuilt with the
    /// already-chosen format; the caller must re-apply it.
    ApplyResized,
}

/// How one native texture-acquisition attempt ended, as the caller
/// observed it.
#[derive(Clone, Copy, PartialEq, Eq, Structural, Debug)]
pub enum AcquireOutcome {
    /// A presentable texture was handed out.
    Acquired,
    /// The surface's configuration no longer matches the compositor.
    Outdated,
    /// The attempt timed out.
    Timeout,
    /// Any other acquisition error.
    OtherError,
}

/// What the machine decided about an acquisition outcome.
#[derive(Clone, Copy, PartialEq, Eq, Structural, Debug)]
pub enum AcquireDecision {
    /// The texture is held; the draw may proceed.
    Proceed,
    /// Re-apply the current configuration and retry the acquisition once,
    /// then report the retry's outcome.
    ReconfigureAndRetry,
    /// A recognized spurious timeout: drop this frame and try again next
    /// frame; the surface stays configured.
    SkipFrame,
    /// An unrecoverable presentation error: the caller must stop with a
    /// diagnostic naming the native error.
    Fatal,
}

/// The mathematical model of the lifecycle manager.
#[verifier::ext_equal]
pub struct LifecycleModel {
    pub phase: Phase,
    pub config: Option<ConfigurationModel>,
    pub last_snapshot: Option<WindowSnapshot>,
}

impl LifecycleModel {
    /// Well-formedness: whenever a configuration is held, it is exactly
    /// what the builder produces from its own format and the snapshot it
    /// was last reconciled against, and that snapshot is nonzero-sized.
    pub open spec fn wf(self) -> bool {
        match self.phase {
            Phase::Unconfigured => self.config is None && self.last_snapshot is None,
            Phase::Failed => true,
            _ => self.config is Some && self.last_snapshot is Some
                && self.last_snapshot.unwrap().spec_valid() && self.config.unwrap()
                == spec_build_config(self.config.unwrap().format, self.last_snapshot.unwrap()),
        }
    }
}

/// The long-lived lifecycle manager for the one managed surface.
pub struct SurfaceLifecycle {
    pub phase: Phase,
    pub config: Option<SurfaceConfiguration>,
    pub last_snapshot: Option<WindowSnapshot>,
}

impl View for SurfaceLifecycle {
    type V = LifecycleModel;

    open spec fn view(&self) -> LifecycleModel {
        LifecycleModel {
            phase: self.phase,
            config: match self.config {
                Some(c) => Some(c@),
                None => None,
            },
            last_snapshot: self.last_snapshot,
        }
    }
}

/// The capability sequence the caller handed in, if any.
pub open spec fn spec_caps_of(caps: Option<&SurfaceCapabilities>) -> Option<Seq<SurfaceFormat>> {
    match caps {
        Some(c) => Some(c.formats@),
        None => None,
    }
}

/// The snapshot the caller handed in, if any.
pub open spec fn spec_snapshot_of(snapshot: Option<&WindowSnapshot>) -> Option<WindowSnapshot> {
    match snapshot {
        Some(s) => Some(*s),
        None => None,
    }
}

/// The `ensure_ready` transition. From `Unconfigured`, with a created
/// surface's capabilities and a nonzero snapshot at hand, it negotiates a
/// format once and builds the first configuration; an empty capability set
/// is fatal. From `Configured`, a snapshot equal to the last one is left
/// alone, and a changed nonzero snapshot rebuilds the configuration with
/// the format chosen at creation. Everything else is a skipped frame.
pub open spec fn spec_ensure_ready(
    s: LifecycleModel,
    caps: Option<Seq<SurfaceFormat>>,
    snap: Option<WindowSnapshot>,
) -> (LifecycleModel, Result<ReadyAction, ConfigError>) {
    match s.phase {
        Phase::Unconfigured => match (caps, snap) {
            (Some(formats), Some(sn)) => {
                if !sn.spec_valid() {
                    (s, Ok(ReadyAction::Skipped))
                } else if formats.len() == 0 {
                    (
                        LifecycleModel { phase: Phase::Failed, ..s },
                        Err(ConfigError::NoSupportedFormats),
                    )
                } else {
                    (
                        LifecycleModel {
                            phase: Phase::Configured,
                            config: Some(spec_build_config(spec_negotiate(formats), sn)),
                            last_snapshot: Some(sn),
                        },
                        Ok(ReadyAction::ApplyInitial),
                    )
                }
            },
            _ => (s, Ok(ReadyAction::Skipped)),
        },
        _ => match snap {
            None => (s, Ok(ReadyAction::Skipped)),
            Some(sn) => {
                if Some(sn) == s.last_snapshot {
                    (s, Ok(ReadyAction::Unchanged))
                } else if !sn.spec_valid() {
                    (s, Ok(ReadyAction::Skipped))
                } else {
                    (
                        LifecycleModel {
                            phase: Phase::Configured,
                            config: Some(spec_build_config(s.config.unwrap().format, sn)),
                            last_snapshot: Some(sn),
                        },
                        Ok(ReadyAction::ApplyResized),
                    )
                }
            },
        },
    }
}

/// The acquisition transition: how the machine absorbs one reported
/// outcome. `spurious` is whether a timeout is recognized as the driver
/// quirk. From `Configured`: success acquires the frame, an outdated
/// configuration grants exactly one retry, a recognized timeout skips the
/// frame, and anything else is fatal. From `AwaitingRetry`: success
/// acquires the frame and any failure is fatal.
pub open spec fn spec_on_acquire(s: LifecycleModel, outcome: AcquireOutcome, spurious: bool) -> (
    LifecycleModel,
    AcquireDecision,
) {
    match (s.phase, outcome) {
        (Phase::Configured, AcquireOutcome::Acquired) => (
            LifecycleModel { phase: Phase::FrameAcquired, ..s },
            AcquireDecision::Proceed,
        ),
        (Phase::Configured, AcquireOutcome::Outdated) => (
            LifecycleModel { phase: Phase::AwaitingRetry, ..s },
            AcquireDecision::ReconfigureAndRetry,
        ),
        (Phase::Configured, AcquireOutcome::Timeout) => {
            if spurious {
                (s, AcquireDecision::SkipFrame)
            } else {
                (LifecycleModel { phase: Phase::Failed, ..s }, AcquireDecision::Fatal)
            }
        },
        (Phase::Configured, AcquireOutcome::OtherError) => (
            LifecycleModel { phase: Phase::Failed, ..s },
            AcquireDecision::Fatal,
        ),
        (Phase::AwaitingRetry, AcquireOutcome::Acquired) => (
            LifecycleModel { phase: Phase::FrameAcquired, ..s },
            AcquireDecision::Proceed,
        ),
        (Phase::AwaitingRetry, _) => (
            LifecycleModel { phase: Phase::Failed, ..s },
            AcquireDecision::Fatal,
        ),
        _ => (s, AcquireDecision::Fatal),
    }
}

/// Law: from `Unconfigured`, one `ensure_ready` with a created surface's
/// non-empty capability set and a valid snapshot configures exactly once:
/// the machine is `Configured`, holding the configuration built from the
/// negotiated format and that snapshot.
pub proof fn lemma_first_ready_configures(
    s: LifecycleModel,
    formats: Seq<SurfaceFormat>,
    snap: WindowSnapshot,
)
    requires
        s.wf(),
        s.phase == Phase::Unconfigured,
        formats.len() > 0,
        snap.spec_valid(),
    ensures
        spec_ensure_ready(s, Some(formats), Some(snap)).0.phase == Phase::Configured,
        spec_ensure_ready(s, Some(formats), Some(snap)).0.config == Some(
            spec_build_config(spec_negotiate(formats), snap),
        ),
        spec_ensure_ready(s, Some(formats), Some(snap)).0.last_snapshot == Some(snap),
        spec_ensure_ready(s, Some(formats), Some(snap)).1 == Ok::<ReadyAction, ConfigError>(
            ReadyAction::ApplyInitial,
        ),
{
}

/// Law: an empty capability set never yields a fabricated format — the
/// first configuration attempt fails fatally instead.
pub proof fn lemma_empty_capabilities_fatal(
    s: LifecycleModel,
    formats: Seq<SurfaceFormat>,
    snap: WindowSnapshot,
)
    requires
        s.wf(),
        s.phase == Phase::Unconfigured,
        formats.len() == 0,
        snap.spec_valid(),
    ensures
        spec_ensure_ready(s, Some(formats), Some(snap)).0.phase == Phase::Failed,
        spec_ensure_ready(s, Some(formats), Some(snap)).1 == Err::<ReadyAction, ConfigError>(
            ConfigError::NoSupportedFormats,
        ),
{
}

/// Law: `ensure_ready` is idempotent — with the snapshot unchanged since
/// the last reconciliation, the machine performs no reconfiguration and is
/// left exactly as it was.
pub proof fn lemma_ensure_ready_idempotent(
    s: LifecycleModel,
    caps: Option<Seq<SurfaceFormat>>,
    snap: WindowSnapshot,
)
    requires
        s.wf(),
        s.phase == Phase::Configured,
        s.last_snapshot == Some(snap),
    ensures
        spec_ensure_ready(s, caps, Some(snap)).0 == s,
        spec_ensure_ready(s, caps, Some(snap)).1 == Ok::<ReadyAction, ConfigError>(
            ReadyAction::Unchanged,
        ),
{
}

/// Law: a changed, valid snapshot triggers exactly one reconfiguration,
/// and the format is the one chosen at creation — it is never
/// re-negotiated on resize.
pub proof fn lemma_resize_keeps_format(
    s: LifecycleModel,
    caps: Option<Seq<SurfaceFormat>>,
    snap: WindowSnapshot,
)
    requires
        s.wf(),
        s.phase == Phase::Configured,
        snap.spec_valid(),
        s.last_snapshot != Some(snap),
    ensures
        spec_ensure_ready(s, caps, Some(snap)).0.phase == Phase::Configured,
        spec_ensure_ready(s, caps, Some(snap)).0.config == Some(
            spec_build_config(s.config.unwrap().format, snap),
        ),
        spec_ensure_ready(s, caps, Some(snap)).0.config.unwrap().format
            == s.config.unwrap().format,
        spec_ensure_ready(s, caps, Some(snap)).0.config.unwrap().width == snap.physical_width,
        spec_ensure_ready(s, caps, Some(snap)).0.config.unwrap().height == snap.physical_height,
        spec_ensure_ready(s, caps, Some(snap)).1 == Ok::<ReadyAction, ConfigError>(
            ReadyAction::ApplyResized,
        ),
{
}

/// Law: a first `Outdated` outcome makes the machine keep its
/// configuration for re-application and grant exactly one retry; a failure
/// on that retry — a second `Outdated` included — is fatal, never retried
/// again, while a successful retry acquires the frame.
pub proof fn lemma_outdated_retries_exactly_once(
    s: LifecycleModel,
    spurious: bool,
    retry_outcome: AcquireOutcome,
)
    requires
        s.wf(),
        s.phase == Phase::Configured,
    ensures
        spec_on_acquire(s, AcquireOutcome::Outdated, spurious).0.phase == Phase::AwaitingRetry,
        spec_on_acquire(s, AcquireOutcome::Outdated, spurious).0.config == s.config,
        spec_on_acquire(s, AcquireOutcome::Outdated, spurious).1
            == AcquireDecision::ReconfigureAndRetry,
        retry_outcome == AcquireOutcome::Acquired ==> spec_on_acquire(
            spec_on_acquire(s, AcquireOutcome::Outdated, spurious).0,
            retry_outcome,
            spurious,
        ).0.phase == Phase::FrameAcquired && spec_on_acquire(
            spec_on_acquire(s, AcquireOutcome::Outdated, spurious).0,
            retry_outcome,
            spurious,
        ).1 == AcquireDecision::Proceed,
        retry_outcome != AcquireOutcome::Acquired ==> spec_on_acquire(
            spec_on_acquire(s, AcquireOutcome::Outdated, spurious).0,
            retry_outcome,
            spurious,
        ).0.phase == Phase::Failed && spec_on_acquire(
            spec_on_acquire(s, AcquireOutcome::Outdated, spurious).0,
            retry_outcome,
            spurious,
        ).1 == AcquireDecision::Fatal,
{
}

/// Law: a timeout recognized as the driver quirk — qualifying platform and
/// an allow-listed adapter vendor — skips the frame and leaves the machine
/// `Configured` exactly as it was; an unrecognized timeout is fatal.
pub proof fn lemma_timeout_skip_or_fatal(
    s: LifecycleModel,
    os: OsFamily,
    names: Seq<Seq<char>>,
    prefixes: Seq<Seq<char>>,
)
    requires
        s.wf(),
        s.phase == Phase::Configured,
    ensures
        spec_spurious_timeout(os, names, prefixes) ==> spec_on_acquire(
            s,
            AcquireOutcome::Timeout,
            spec_spurious_timeout(os, names, prefixes),
        ).0 == s && spec_on_acquire(
            s,
            AcquireOutcome::Timeout,
            spec_spurious_timeout(os, names, prefixes),
        ).1 == AcquireDecision::SkipFrame,
        !spec_spurious_timeout(os, names, prefixes) ==> spec_on_acquire(
            s,
            AcquireOutcome::Timeout,
            spec_spurious_timeout(os, names, prefixes),
        ).0.phase == Phase::Failed && spec_on_acquire(
            s,
            AcquireOutcome::Timeout,
            spec_spurious_timeout(os, names, prefixes),
        ).1 == AcquireDecision::Fatal,
{
}

impl SurfaceLifecycle {
    /// A fresh manager: no native surface yet.
    pub fn new() -> (m: SurfaceLifecycle)
        ensures
            m@.wf(),
            m@.phase == Phase::Unconfigured,
            m@.config is None,
            m@.last_snapshot is None,
    {
        SurfaceLifecycle { phase: Phase::Unconfigured, config: None, last_snapshot: None }
    }

    /// Reconcile the surface against this frame's snapshot. When the
    /// machine is `Unconfigured` and the caller could create the native
    /// surface, `caps` holds the capability set it queried; `snapshot` is
    /// this frame's window snapshot, if one was published. The result says
    /// what the caller must apply to the native surface, and the one error
    /// reports the fatally misconfigured empty capability set.
    pub fn ensure_ready(
        &mut self,
        caps: Option<&SurfaceCapabilities>,
        snapshot: Option<&WindowSnapshot>,
    ) -> (r: Result<ReadyAction, ConfigError>)
        requires
            old(self)@.wf(),
            old(self)@.phase == Phase::Unconfigured || old(self)@.phase == Phase::Configured,
        ensures
            final(self)@.wf(),
            final(self)@ == spec_ensure_ready(
                old(self)@,
                spec_caps_of(caps),
                spec_snapshot_of(snapshot),
            ).0,
            r == spec_ensure_ready(old(self)@, spec_caps_of(caps), spec_snapshot_of(snapshot)).1,
    {
        match self.phase {
            Phase::Unconfigured => match (caps, snapshot) {
                (Some(c), Some(snap)) => {
                    if !snap.valid() {
                        Ok(ReadyAction::Skipped)
                    } else {
                        match negotiate_format(&c.formats) {
                            Ok(format) => {
                                let config = build_surface_configuration(format, snap);
                                self.config = Some(config);
                                self.last_snapshot = Some(*snap);
                                self.phase = Phase::Configured;
                                Ok(ReadyAction::ApplyInitial)
                            },
                            Err(e) => {
                                self.phase = Phase::Failed;
                                Err(e)
                            },
                        }
                    }
                },
                _ => Ok(ReadyAction::Skipped),
            },
            _ => match snapshot {
                None => Ok(ReadyAction::Skipped),
                Some(snap) => {
                    let same = match &self.last_snapshot {
                        Some(last) => *snap == *last,
                        None => false,
                    };
                    if same {
                        Ok(ReadyAction::Unchanged)
                    } else if !snap.valid() {
                        Ok(ReadyAction::Skipped)
                    } else {
                        let format = self.config.as_ref().unwrap().format;
                        let config = build_surface_configuration(format, snap);
                        self.config = Some(config);
                        self.last_snapshot = Some(*snap);
                        Ok(ReadyAction::ApplyResized)
                    }
                },
            },
        }
    }

    /// Absorb the outcome of one native texture-acquisition attempt. The
    /// environment and the vendor allow-list decide whether a timeout is
    /// the recognized driver quirk.
    pub fn on_acquire_result(
        &mut self,
        outcome: AcquireOutcome,
        env: &PresentEnvironment,
        policy: &TimeoutPolicy,
    ) -> (d: AcquireDecision)
        requires
            old(self)@.wf(),
            old(self)@.phase == Phase::Configured || old(self)@.phase == Phase::AwaitingRetry,
        ensures
            final(self)@.wf(),
            final(self)@ == spec_on_acquire(
                old(self)@,
                outcome,
                spec_spurious_timeout(
                    env.os,
                    env.adapter_names.deep_view(),
                    policy.vendor_prefixes.deep_view(),
                ),
            ).0,
            d == spec_on_acquire(
                old(self)@,
                outcome,
                spec_spurious_timeout(
                    env.os,
                    env.adapter_names.deep_view(),
                    policy.vendor_prefixes.deep_view(),
                ),
            ).1,
    {
        match (self.phase, outcome) {
            (Phase::Configured, AcquireOutcome::Acquired) => {
                self.phase = Phase::FrameAcquired;
                AcquireDecision::Proceed
            },
            (Phase::Configured, AcquireOutcome::Outdated) => {
                self.phase = Phase::AwaitingRetry;
                AcquireDecision::ReconfigureAndRetry
            },
            (Phase::Configured, AcquireOutcome::Timeout) => {
                if is_spurious_timeout(env, policy) {
                    AcquireDecision::SkipFrame
                } else {
                    self.phase = Phase::Failed;
                    AcquireDecision::Fatal
                }
            },
            (Phase::Configured, AcquireOutcome::OtherError) => {
                self.phase = Phase::Failed;
                AcquireDecision::Fatal
            },
            (Phase::AwaitingRetry, AcquireOutcome::Acquired) => {
                self.phase = Phase::FrameAcquired;
                AcquireDecision::Proceed
            },
            (Phase::AwaitingRetry, _) => {
                self.phase = Phase::Failed;
                AcquireDecision::Fatal
            },
            _ => {
                proof {
                    assert(false);
                }
                AcquireDecision::Fatal
            },
        }
    }

    /// The draw consumed the acquired texture and relinquished it for
    /// presentation; it is never carried into the next frame.
    pub fn frame_presented(&mut self)
        requires
            old(self)@.wf(),
            old(self)@.phase == Phase::FrameAcquired,
        ensures
            final(self)@.wf(),
            final(self)@ == (LifecycleModel { phase: Phase::Configured, ..old(self)@ }),
    {
        self.phase = Phase::Configured;
    }

    /// The configuration that is currently applied to the native surface.
    pub fn current_config(&self) -> (c: &SurfaceConfiguration)
        requires
            self@.config is Some,
        ensures
            c@ == self@.config.unwrap(),
    {
        self.config.as_ref().unwrap()
    }
}

} // verus!
