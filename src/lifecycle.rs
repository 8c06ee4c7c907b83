//! The render backend lifecycle, driven by the host's callbacks.
use vstd::prelude::*;
use crate::context::{
    announce, normalized, preference_outcome, request_for, resolve_preference, wants_negotiation_interface,
    HardwareRenderCallback, HardwareRenderError, HwContextType,
};

verus! {

/// Where the player stands: `B` is the deferred player builder, `P` the
/// running player.
pub enum PlayerState<B, P> {
    /// No game is loaded.
    Uninitialized,
    /// A game is loaded and the player waits for a graphics context.
    Pending(B),
    /// Graphics are ready and frames are produced.
    Active(P),
    /// The graphics context was lost; the host is asked to shut down.
    Exiting,
}

/// Failures of loading content.
#[derive(Clone, Copy, Debug, PartialEq, Eq, Structural)]
pub enum CoreError {
    NoGameProvided,
    FailedToLoadSwf,
}

/// Why a game load was refused.
#[derive(Clone, Copy, Debug, PartialEq, Eq, Structural)]
pub enum LoadError {
    Hardware(HardwareRenderError),
    Core(CoreError),
}

/// What the lifecycle reads of a parsed movie: its size in pixels.
#[derive(Clone, Copy, Debug, PartialEq, Eq, Structural)]
pub struct MovieInfo {
    pub width: u32,
    pub height: u32,
}

/// The graphics path a renderer is built on.
#[derive(Clone, Copy, Debug, PartialEq, Eq, Structural)]
pub enum RenderPath {
    OpenGl,
    Vulkan,
}

/// The path for an announced kind: every OpenGL kind renders through OpenGL,
/// Vulkan through Vulkan, and nothing else is supported.
pub open spec fn path_for(t: HwContextType) -> Result<RenderPath, HardwareRenderError> {
    match t {
        HwContextType::OpenGl | HwContextType::OpenGlEs2 | HwContextType::OpenGlEs3 | HwContextType::OpenGlCore
        | HwContextType::OpenGlEsVersion => Ok(RenderPath::OpenGl),
        HwContextType::Vulkan => Ok(RenderPath::Vulkan),
        _ => Err(HardwareRenderError::UnsupportedHardwareContext(t)),
    }
}

/// Chooses the graphics path for an announced kind.
pub fn render_path(t: HwContextType) -> (r: Result<RenderPath, HardwareRenderError>)
    ensures
        r == path_for(t),
{
    match t {
        HwContextType::OpenGl | HwContextType::OpenGlEs2 | HwContextType::OpenGlEs3 | HwContextType::OpenGlCore
        | HwContextType::OpenGlEsVersion => Ok(RenderPath::OpenGl),
        HwContextType::Vulkan => Ok(RenderPath::Vulkan),
        _ => Err(HardwareRenderError::UnsupportedHardwareContext(t)),
    }
}

/// Failures while preparing the renderer.
#[derive(Clone, Copy, Debug, PartialEq, Eq, Structural)]
pub enum RenderInterfaceError {
    AvInfoNotReady,
    HwRenderCallbackNotReady,
    UnsupportedHardwareContext(HwContextType),
    NoRenderState,
}

/// The renderer's path and size for what was announced and loaded.
pub open spec fn backend_outcome(
    announced: Option<HardwareRenderCallback>,
    viewport: Option<(u32, u32)>,
) -> Result<(RenderPath, (u32, u32)), RenderInterfaceError> {
    match announced {
        None => Err(RenderInterfaceError::HwRenderCallbackNotReady),
        Some(a) => match viewport {
            None => Err(RenderInterfaceError::AvInfoNotReady),
            Some(v) => match path_for(a.context_type) {
                Ok(p) => Ok((p, v)),
                Err(_) => Err(RenderInterfaceError::UnsupportedHardwareContext(a.context_type)),
            },
        },
    }
}

/// Chooses the renderer's path and size.
pub fn plan_backend(
    announced: Option<HardwareRenderCallback>,
    viewport: Option<(u32, u32)>,
) -> (r: Result<(RenderPath, (u32, u32)), RenderInterfaceError>)
    ensures
        r == backend_outcome(announced, viewport),
{
    match announced {
        None => Err(RenderInterfaceError::HwRenderCallbackNotReady),
        Some(a) => match viewport {
            None => Err(RenderInterfaceError::AvInfoNotReady),
            Some(v) => match render_path(a.context_type) {
                Ok(p) => Ok((p, v)),
                Err(_) => Err(RenderInterfaceError::UnsupportedHardwareContext(a.context_type)),
            },
        },
    }
}

/// What the caller does on a context reset.
pub enum ResetAction<B> {
    /// Build a renderer of this size on this path, finish the builder into a
    /// player, and hand the outcome to `player_ready`.
    Finalize { builder: B, path: RenderPath, width: u32, height: u32 },
    /// The renderer cannot be prepared; the loaded game is dropped.
    Fail(RenderInterfaceError),
    /// Ask the host to shut down.
    Shutdown,
    /// Nothing to do: no game is waiting, or the session already failed.
    Ignore,
}

/// What the caller does on a frame tick.
#[derive(Clone, Copy, Debug, PartialEq, Eq, Structural)]
pub enum RunAction {
    /// Advance the player by this many microseconds, render, and present the
    /// frame to the host once.
    Frame { delta_us: i64 },
    /// Tell the user that the context was lost and ask the host to shut down.
    NotifyAndShutdown,
    /// Only the host's mandatory polling.
    Idle,
}

/// The core's lifecycle: the player state with what the host told it.
pub struct Lifecycle<B, P> {
    pub player: PlayerState<B, P>,
    /// The answer to the preferred-context query, once asked.
    pub preferred: Option<Result<HwContextType, HardwareRenderError>>,
    /// The announced request, once a game is loaded.
    pub announced: Option<HardwareRenderCallback>,
    /// The viewport of the loaded movie.
    pub viewport: Option<(u32, u32)>,
    /// A builder was handed out to be finished into a player.
    pub finalizing: bool,
    /// The user was told that the context was lost.
    pub exit_notified: bool,
}

impl<B, P> Lifecycle<B, P> {
    /// A lifecycle before the host set anything up.
    pub fn new() -> (r: Lifecycle<B, P>)
        ensures
            r.player is Uninitialized,
            r.preferred is None,
            r.announced is None,
            r.viewport is None,
            !r.finalizing,
            !r.exit_notified,
    {
        Lifecycle {
            player: PlayerState::Uninitialized,
            preferred: None,
            announced: None,
            viewport: None,
            finalizing: false,
            exit_notified: false,
        }
    }

    /// Records the host's answer to the preferred-context query.
    pub fn on_init(&mut self, reply: Option<(u32, bool)>)
        ensures
            *final(self) == (Lifecycle { preferred: Some(preference_outcome(reply)), ..*old(self) }),
    {
        self.preferred = Some(resolve_preference(reply));
    }

    /// The request to announce to the host for the preferred kind.
    pub fn render_request(&self) -> (r: Result<HardwareRenderCallback, HardwareRenderError>)
        ensures
            r == match self.preferred {
                Some(Ok(t)) => Ok(request_for(t)),
                Some(Err(e)) => Err(e),
                None => Err(HardwareRenderError::InvalidEnvironmentCallback),
            },
    {
        match self.preferred {
            Some(Ok(t)) => Ok(HardwareRenderCallback::for_preference(t)),
            Some(Err(e)) => Err(e),
            None => Err(HardwareRenderError::InvalidEnvironmentCallback),
        }
    }

    /// Loads a game. `render_accepted` is the host's answer to the announced
    /// request and `negotiation_accepted` its answer to the Vulkan negotiation
    /// interface (read only for Vulkan); `None` where the environment callback
    /// could not be used. `game` is the parsed movie, `Some(None)` where the
    /// content is no movie, `None` where no content was given. On success the
    /// player waits for a context with the builder; on failure nothing changes.
    pub fn on_load_game(
        &mut self,
        render_accepted: Option<bool>,
        negotiation_accepted: Option<bool>,
        game: Option<Option<MovieInfo>>,
        builder: B,
    ) -> (r: Result<(), LoadError>)
        ensures
            load_outcome(old(self).preferred, render_accepted, negotiation_accepted, game) == r,
            r is Err ==> *final(self) == *old(self),
            r is Ok ==> {
                let t = old(self).preferred.unwrap().unwrap();
                let m = game.unwrap().unwrap();
                &&& final(self).player == PlayerState::<B, P>::Pending(builder)
                &&& final(self).announced == Some(request_for(t))
                &&& final(self).viewport == Some((m.width, m.height))
                &&& final(self).preferred == old(self).preferred
                &&& !final(self).finalizing
                &&& final(self).exit_notified == old(self).exit_notified
            },
    {
        let preferred = match self.preferred {
            Some(Ok(t)) => t,
            Some(Err(e)) => {
                return Err(LoadError::Hardware(e));
            },
            None => {
                return Err(LoadError::Hardware(HardwareRenderError::InvalidEnvironmentCallback));
            },
        };
        let announced = match announce(preferred, render_accepted) {
            Ok(a) => a,
            Err(e) => {
                assert(render_accepted == Some(false) || render_accepted is None);
                return Err(LoadError::Hardware(e));
            },
        };
        if wants_negotiation_interface(announced.context_type) {
            match negotiation_accepted {
                Some(true) => {},
                Some(false) => {
                    return Err(
                        LoadError::Hardware(HardwareRenderError::FailedToSetNegotiationInterface(announced.context_type)),
                    );
                },
                None => {
                    return Err(LoadError::Hardware(HardwareRenderError::InvalidEnvironmentCallback));
                },
            }
        }
        let movie = match game {
            None => {
                return Err(LoadError::Core(CoreError::NoGameProvided));
            },
            Some(None) => {
                return Err(LoadError::Core(CoreError::FailedToLoadSwf));
            },
            Some(Some(m)) => m,
        };
        self.announced = Some(announced);
        self.viewport = Some((movie.width, movie.height));
        self.player = PlayerState::Pending(builder);
        self.finalizing = false;
        Ok(())
    }

    /// The host reset the graphics context. A waiting builder is handed out to
    /// be finished on the announced path; an active session cannot re-create
    /// its graphics and exits; otherwise nothing happens.
    pub fn on_hw_context_reset(&mut self) -> (r: ResetAction<B>)
        ensures
            match old(self).player {
                PlayerState::Active(_) => r is Shutdown && final(self).player is Exiting
                    && *final(self) == (Lifecycle { player: PlayerState::Exiting, exit_notified: false, ..*old(self) }),
                PlayerState::Pending(b) => match backend_outcome(old(self).announced, old(self).viewport) {
                    Ok((p, (w, h))) => r == (ResetAction::Finalize { builder: b, path: p, width: w, height: h })
                        && final(self).player is Uninitialized && final(self).finalizing,
                    Err(e) => r == ResetAction::<B>::Fail(e) && final(self).player is Uninitialized
                        && !final(self).finalizing,
                },
                _ => r is Ignore && *final(self) == *old(self),
            },
            final(self).announced == old(self).announced,
            final(self).viewport == old(self).viewport,
            final(self).preferred == old(self).preferred,
            !(old(self).player is Active) ==> final(self).exit_notified == old(self).exit_notified,
    {
        let mut state = PlayerState::Uninitialized;
        core::mem::swap(&mut state, &mut self.player);
        match state {
            PlayerState::Active(p) => {
                self.player = PlayerState::Exiting;
                self.exit_notified = false;
                ResetAction::Shutdown
            },
            PlayerState::Pending(b) => {
                match plan_backend(self.announced, self.viewport) {
                    Ok((p, (w, h))) => {
                        self.finalizing = true;
                        ResetAction::Finalize { builder: b, path: p, width: w, height: h }
                    },
                    Err(e) => {
                        self.finalizing = false;
                        ResetAction::Fail(e)
                    },
                }
            },
            PlayerState::Uninitialized => {
                self.player = PlayerState::Uninitialized;
                ResetAction::Ignore
            },
            PlayerState::Exiting => {
                self.player = PlayerState::Exiting;
                ResetAction::Ignore
            },
        }
    }

    /// The outcome of finishing a handed-out builder: the player, or `None`
    /// where the renderer could not be built.
    pub fn player_ready(&mut self, player: Option<P>)
        requires
            old(self).finalizing,
        ensures
            !final(self).finalizing,
            final(self).player == match player {
                Some(p) => PlayerState::<B, P>::Active(p),
                None => PlayerState::<B, P>::Uninitialized,
            },
            final(self).announced == old(self).announced,
            final(self).viewport == old(self).viewport,
            final(self).preferred == old(self).preferred,
            final(self).exit_notified == old(self).exit_notified,
    {
        self.finalizing = false;
        self.player = match player {
            Some(p) => PlayerState::Active(p),
            None => PlayerState::Uninitialized,
        };
    }

    /// The host destroyed the graphics context. An active session exits and
    /// asks the host to shut down (the result is whether to ask); in any other
    /// state nothing happens.
    pub fn on_hw_context_destroyed(&mut self) -> (shutdown: bool)
        ensures
            (*final(self), shutdown) == destroyed(*old(self)),
    {
        let mut state = PlayerState::Uninitialized;
        core::mem::swap(&mut state, &mut self.player);
        match state {
            PlayerState::Active(_) => {
                self.player = PlayerState::Exiting;
                self.exit_notified = false;
                true
            },
            other => {
                self.player = other;
                false
            },
        }
    }

    /// A frame tick, `delta_us` microseconds after the last one if the host
    /// says. An active session plays a frame; an exiting one tells the user and
    /// asks to shut down, once.
    pub fn on_run(&mut self, delta_us: Option<i64>) -> (r: RunAction)
        ensures
            (*final(self), r) == ran(*old(self), delta_us),
    {
        match self.player {
            PlayerState::Exiting => {
                if self.exit_notified {
                    RunAction::Idle
                } else {
                    self.exit_notified = true;
                    RunAction::NotifyAndShutdown
                }
            },
            PlayerState::Active(_) => match delta_us {
                Some(d) => RunAction::Frame { delta_us: d },
                None => RunAction::Idle,
            },
            _ => RunAction::Idle,
        }
    }

    /// The host unloaded the game: whatever was loaded is released, and a
    /// later session starts with no notice of a lost context given.
    pub fn on_unload_game(&mut self)
        ensures
            final(self).player is Uninitialized,
            !final(self).finalizing,
            !final(self).exit_notified,
            final(self).preferred == old(self).preferred,
    {
        self.player = PlayerState::Uninitialized;
        self.finalizing = false;
        self.exit_notified = false;
    }

    /// The viewport of the loaded movie, if any.
    pub fn viewport(&self) -> (r: Option<(u32, u32)>)
        ensures
            r == self.viewport,
    {
        self.viewport
    }

    /// Whether the player is running.
    pub fn is_active(&self) -> (r: bool)
        ensures
            r == self.player is Active,
    {
        match self.player {
            PlayerState::Active(_) => true,
            _ => false,
        }
    }

    /// Whether the player waits for a context.
    pub fn is_pending(&self) -> (r: bool)
        ensures
            r == self.player is Pending,
    {
        match self.player {
            PlayerState::Pending(_) => true,
            _ => false,
        }
    }

    /// Whether no game is loaded.
    pub fn is_uninitialized(&self) -> (r: bool)
        ensures
            r == self.player is Uninitialized,
    {
        match self.player {
            PlayerState::Uninitialized => true,
            _ => false,
        }
    }

    /// Whether the session is exiting.
    pub fn is_exiting(&self) -> (r: bool)
        ensures
            r == self.player is Exiting,
    {
        match self.player {
            PlayerState::Exiting => true,
            _ => false,
        }
    }
}

/// The outcome of a game load from what the host answered.
pub open spec fn load_outcome(
    preferred: Option<Result<HwContextType, HardwareRenderError>>,
    render_accepted: Option<bool>,
    negotiation_accepted: Option<bool>,
    game: Option<Option<MovieInfo>>,
) -> Result<(), LoadError> {
    match preferred {
        None => Err(LoadError::Hardware(HardwareRenderError::InvalidEnvironmentCallback)),
        Some(Err(e)) => Err(LoadError::Hardware(e)),
        Some(Ok(t)) => if render_accepted == Some(false) {
            Err(LoadError::Hardware(HardwareRenderError::FailedToSetRenderer(normalized(t))))
        } else if render_accepted is None {
            Err(LoadError::Hardware(HardwareRenderError::InvalidEnvironmentCallback))
        } else if normalized(t) == HwContextType::Vulkan && negotiation_accepted == Some(false) {
            Err(LoadError::Hardware(HardwareRenderError::FailedToSetNegotiationInterface(HwContextType::Vulkan)))
        } else if normalized(t) == HwContextType::Vulkan && negotiation_accepted is None {
            Err(LoadError::Hardware(HardwareRenderError::InvalidEnvironmentCallback))
        } else {
            match game {
                None => Err(LoadError::Core(CoreError::NoGameProvided)),
                Some(None) => Err(LoadError::Core(CoreError::FailedToLoadSwf)),
                Some(Some(_)) => Ok(()),
            }
        },
    }
}

/// The lifecycle after a context loss, and whether shutdown is asked for.
pub open spec fn destroyed<B, P>(c: Lifecycle<B, P>) -> (Lifecycle<B, P>, bool) {
    match c.player {
        PlayerState::Active(_) => (Lifecycle { player: PlayerState::Exiting, exit_notified: false, ..c }, true),
        _ => (c, false),
    }
}

/// The lifecycle after a frame tick, and what the caller does.
pub open spec fn ran<B, P>(c: Lifecycle<B, P>, delta_us: Option<i64>) -> (Lifecycle<B, P>, RunAction) {
    match c.player {
        PlayerState::Exiting => if c.exit_notified {
            (c, RunAction::Idle)
        } else {
            (Lifecycle { exit_notified: true, ..c }, RunAction::NotifyAndShutdown)
        },
        PlayerState::Active(_) => match delta_us {
            Some(d) => (c, RunAction::Frame { delta_us: d }),
            None => (c, RunAction::Idle),
        },
        _ => (c, RunAction::Idle),
    }
}

/// Losing the context of an active session exits and asks for shutdown once;
/// losing it again while exiting changes nothing and asks for nothing more.
pub proof fn lemma_context_loss_shuts_down_once<B, P>(c: Lifecycle<B, P>)
    requires
        c.player is Active,
    ensures
        destroyed(c).0.player is Exiting,
        destroyed(c).1,
        destroyed(destroyed(c).0).0 == destroyed(c).0,
        !destroyed(destroyed(c).0).1,
{
}

/// An exiting session tells the user and asks for shutdown on one tick only,
/// whatever the ticks say.
pub proof fn lemma_exit_notified_once<B, P>(c: Lifecycle<B, P>, first: Option<i64>, second: Option<i64>)
    requires
        c.player is Exiting,
        !c.exit_notified,
    ensures
        ran(c, first).1 == RunAction::NotifyAndShutdown,
        ran(ran(c, first).0, second).1 == RunAction::Idle,
        ran(ran(c, first).0, second).0.player is Exiting,
{
}

/// Every session that loses its context gets the notice and the shutdown
/// request on its first tick after the loss, whatever earlier sessions did.
pub proof fn lemma_each_loss_notified<B, P>(c: Lifecycle<B, P>, tick: Option<i64>)
    requires
        c.player is Active,
    ensures
        ran(destroyed(c).0, tick).1 == RunAction::NotifyAndShutdown,
{
}

/// A host that forbids driver switching makes every load fail with that
/// error, and leaves the lifecycle as it was.
pub proof fn lemma_no_driver_switching_blocks_load(
    code: u32,
    render_accepted: Option<bool>,
    negotiation_accepted: Option<bool>,
    game: Option<Option<MovieInfo>>,
)
    ensures
        load_outcome(Some(preference_outcome(Some((code, false)))), render_accepted, negotiation_accepted, game)
            == Err::<(), LoadError>(LoadError::Hardware(HardwareRenderError::DriverSwitchingNotAvailable)),
{
}

} // verus!
