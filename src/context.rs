//! Hardware context preference and announcement.
use vstd::prelude::*;

verus! {

/// The libretro code of `RETRO_HW_CONTEXT_NONE`.
pub const CODE_NONE: u32 = 0;
/// The libretro code of `RETRO_HW_CONTEXT_OPENGL`.
pub const CODE_OPENGL: u32 = 1;
/// The libretro code of `RETRO_HW_CONTEXT_OPENGLES2`.
pub const CODE_OPENGLES2: u32 = 2;
/// The libretro code of `RETRO_HW_CONTEXT_OPENGL_CORE`.
pub const CODE_OPENGL_CORE: u32 = 3;
/// The libretro code of `RETRO_HW_CONTEXT_OPENGLES3`.
pub const CODE_OPENGLES3: u32 = 4;
/// The libretro code of `RETRO_HW_CONTEXT_OPENGLES_VERSION`.
pub const CODE_OPENGLES_VERSION: u32 = 5;
/// The libretro code of `RETRO_HW_CONTEXT_VULKAN`.
pub const CODE_VULKAN: u32 = 6;
/// The libretro code of `RETRO_HW_CONTEXT_DIRECT3D`.
pub const CODE_DIRECT3D: u32 = 7;

/// A graphics context kind that the host may prefer or be asked for.
#[derive(Clone, Copy, Debug, PartialEq, Eq, Structural)]
pub enum HwContextType {
    NoContext,
    OpenGl,
    OpenGlEs2,
    OpenGlCore,
    OpenGlEs3,
    OpenGlEsVersion,
    Vulkan,
    Direct3D,
}

/// The context kind that a libretro code stands for, if any.
pub open spec fn context_of_code(code: u32) -> Option<HwContextType> {
    if code == CODE_NONE {
        Some(HwContextType::NoContext)
    } else if code == CODE_OPENGL {
        Some(HwContextType::OpenGl)
    } else if code == CODE_OPENGLES2 {
        Some(HwContextType::OpenGlEs2)
    } else if code == CODE_OPENGL_CORE {
        Some(HwContextType::OpenGlCore)
    } else if code == CODE_OPENGLES3 {
        Some(HwContextType::OpenGlEs3)
    } else if code == CODE_OPENGLES_VERSION {
        Some(HwContextType::OpenGlEsVersion)
    } else if code == CODE_VULKAN {
        Some(HwContextType::Vulkan)
    } else if code == CODE_DIRECT3D {
        Some(HwContextType::Direct3D)
    } else {
        None
    }
}

/// The libretro code of a context kind.
pub open spec fn code_of_context(t: HwContextType) -> u32 {
    match t {
        HwContextType::NoContext => CODE_NONE,
        HwContextType::OpenGl => CODE_OPENGL,
        HwContextType::OpenGlEs2 => CODE_OPENGLES2,
        HwContextType::OpenGlCore => CODE_OPENGL_CORE,
        HwContextType::OpenGlEs3 => CODE_OPENGLES3,
        HwContextType::OpenGlEsVersion => CODE_OPENGLES_VERSION,
        HwContextType::Vulkan => CODE_VULKAN,
        HwContextType::Direct3D => CODE_DIRECT3D,
    }
}

impl HwContextType {
    /// The kind that a libretro code stands for; `None` for a code that no kind has.
    pub fn from_code(code: u32) -> (r: Option<HwContextType>)
        ensures
            r == context_of_code(code),
    {
        if code == CODE_NONE {
            Some(HwContextType::NoContext)
        } else if code == CODE_OPENGL {
            Some(HwContextType::OpenGl)
        } else if code == CODE_OPENGLES2 {
            Some(HwContextType::OpenGlEs2)
        } else if code == CODE_OPENGL_CORE {
            Some(HwContextType::OpenGlCore)
        } else if code == CODE_OPENGLES3 {
            Some(HwContextType::OpenGlEs3)
        } else if code == CODE_OPENGLES_VERSION {
            Some(HwContextType::OpenGlEsVersion)
        } else if code == CODE_VULKAN {
            Some(HwContextType::Vulkan)
        } else if code == CODE_DIRECT3D {
            Some(HwContextType::Direct3D)
        } else {
            None
        }
    }

    /// The libretro code of this kind.
    pub fn code(&self) -> (r: u32)
        ensures
            r == code_of_context(*self),
            context_of_code(r) == Some(*self),
    {
        match self {
            HwContextType::NoContext => CODE_NONE,
            HwContextType::OpenGl => CODE_OPENGL,
            HwContextType::OpenGlEs2 => CODE_OPENGLES2,
            HwContextType::OpenGlCore => CODE_OPENGL_CORE,
            HwContextType::OpenGlEs3 => CODE_OPENGLES3,
            HwContextType::OpenGlEsVersion => CODE_OPENGLES_VERSION,
            HwContextType::Vulkan => CODE_VULKAN,
            HwContextType::Direct3D => CODE_DIRECT3D,
        }
    }
}

/// The functions of the host's Vulkan render interface that the core calls.
#[derive(Clone, Copy, Debug, PartialEq, Eq, Structural)]
pub enum InterfaceFunction {
    GetSyncIndex,
    SetImage,
    GetSyncIndexMask,
    WaitSyncIndex,
    LockQueue,
    UnlockQueue,
    SetCommandBuffers,
    SetSignalSemaphore,
}

/// Failures while choosing, announcing or obtaining a hardware context.
#[derive(Clone, Copy, Debug, PartialEq, Eq, Structural)]
pub enum HardwareRenderError {
    /// The environment callback is missing or did not answer.
    InvalidEnvironmentCallback,
    /// The host prefers a context kind with this code, which no kind has.
    UnknownContextType(u32),
    /// The host refused a context of this kind.
    FailedToSetRenderer(HwContextType),
    /// The host refused the negotiation interface for a context of this kind.
    FailedToSetNegotiationInterface(HwContextType),
    /// The host does not let the core choose its video driver.
    DriverSwitchingNotAvailable,
    /// The core cannot render with a context of this kind.
    UnsupportedHardwareContext(HwContextType),
    /// The host gave a render interface of another type (expected, received).
    WrongRenderInterfaceType(u32, u32),
    /// The host could not give a render interface of this type.
    FailedToGetRenderInterface(u32),
    /// The host gave a null render interface of this type.
    NullRenderInterface(u32),
    /// A function of the host's render interface was null.
    NullInterfaceFunction(InterfaceFunction),
}

/// What the host's answer to the preferred-context query yields: `reply` is `None`
/// where the environment callback could not be used, else the code and whether
/// the host lets the core switch drivers.
pub open spec fn preference_outcome(reply: Option<(u32, bool)>) -> Result<HwContextType, HardwareRenderError> {
    match reply {
        None => Err(HardwareRenderError::InvalidEnvironmentCallback),
        Some((code, allowed)) => if !allowed {
            Err(HardwareRenderError::DriverSwitchingNotAvailable)
        } else {
            match context_of_code(code) {
                Some(t) => Ok(t),
                None => Err(HardwareRenderError::UnknownContextType(code)),
            }
        },
    }
}

/// Maps the host's answer to the preferred-context query to a context kind.
pub fn resolve_preference(reply: Option<(u32, bool)>) -> (r: Result<HwContextType, HardwareRenderError>)
    ensures
        r == preference_outcome(reply),
{
    match reply {
        None => Err(HardwareRenderError::InvalidEnvironmentCallback),
        Some((code, allowed)) => {
            if !allowed {
                Err(HardwareRenderError::DriverSwitchingNotAvailable)
            } else {
                match HwContextType::from_code(code) {
                    Some(t) => Ok(t),
                    None => Err(HardwareRenderError::UnknownContextType(code)),
                }
            }
        },
    }
}

/// The kind that is announced for a preferred kind: the graphics layer renders
/// with OpenGL ES only, so desktop OpenGL becomes ES2 and the versioned and core
/// profiles become ES3; every other kind passes through.
pub open spec fn normalized(t: HwContextType) -> HwContextType {
    match t {
        HwContextType::OpenGl => HwContextType::OpenGlEs2,
        HwContextType::OpenGlCore => HwContextType::OpenGlEs3,
        HwContextType::OpenGlEsVersion => HwContextType::OpenGlEs3,
        _ => t,
    }
}

/// The (major, minor) version requested for an announced kind.
pub open spec fn version_of(t: HwContextType) -> (u32, u32) {
    match t {
        HwContextType::OpenGlEs3 => (3, 1),
        HwContextType::OpenGlEs2 => (2, 0),
        HwContextType::OpenGl => (2, 0),
        HwContextType::Direct3D => (11, 0),
        HwContextType::Vulkan => (1, 3),
        _ => (0, 0),
    }
}

/// Normalizes a preferred kind for announcement.
pub fn normalize(t: HwContextType) -> (r: HwContextType)
    ensures
        r == normalized(t),
{
    match t {
        HwContextType::OpenGl => HwContextType::OpenGlEs2,
        HwContextType::OpenGlCore => HwContextType::OpenGlEs3,
        HwContextType::OpenGlEsVersion => HwContextType::OpenGlEs3,
        _ => t,
    }
}

/// The version to request for an announced kind.
pub fn required_version(t: HwContextType) -> (r: (u32, u32))
    ensures
        r == version_of(t),
{
    match t {
        HwContextType::OpenGlEs3 => (3, 1),
        HwContextType::OpenGlEs2 => (2, 0),
        HwContextType::OpenGl => (2, 0),
        HwContextType::Direct3D => (11, 0),
        HwContextType::Vulkan => (1, 3),
        _ => (0, 0),
    }
}

/// The hardware render request that the core hands to the host: the fields of
/// `retro_hw_render_callback` that the core sets. The two lifecycle callbacks
/// are always registered and carry no state.
#[derive(Clone, Copy, Debug, PartialEq, Eq, Structural)]
pub struct HardwareRenderCallback {
    pub context_type: HwContextType,
    pub bottom_left_origin: bool,
    pub version_major: u32,
    pub version_minor: u32,
    pub cache_context: bool,
    pub debug_context: bool,
}

/// The request announced for a preferred kind.
pub open spec fn request_for(preferred: HwContextType) -> HardwareRenderCallback {
    HardwareRenderCallback {
        context_type: normalized(preferred),
        bottom_left_origin: true,
        version_major: version_of(normalized(preferred)).0,
        version_minor: version_of(normalized(preferred)).1,
        cache_context: true,
        debug_context: true,
    }
}

impl HardwareRenderCallback {
    /// Builds the request for a preferred kind.
    pub fn for_preference(preferred: HwContextType) -> (r: HardwareRenderCallback)
        ensures
            r == request_for(preferred),
    {
        let context_type = normalize(preferred);
        let (version_major, version_minor) = required_version(context_type);
        HardwareRenderCallback {
            context_type,
            bottom_left_origin: true,
            version_major,
            version_minor,
            cache_context: true,
            debug_context: true,
        }
    }

    /// The announced kind.
    pub fn context_type(&self) -> (r: HwContextType)
        ensures
            r == self.context_type,
    {
        self.context_type
    }
}

/// Completes the announcement of a preferred kind from the host's answer to
/// the request `HardwareRenderCallback::for_preference(preferred)`: `accepted` is
/// `None` where the environment callback could not be used.
pub fn announce(preferred: HwContextType, accepted: Option<bool>) -> (r: Result<HardwareRenderCallback, HardwareRenderError>)
    ensures
        accepted == Some(true) <==> r.is_ok(),
        accepted == Some(true) ==> r == Ok::<HardwareRenderCallback, HardwareRenderError>(request_for(preferred)),
        accepted == Some(false) ==> r == Err::<HardwareRenderCallback, HardwareRenderError>(
            HardwareRenderError::FailedToSetRenderer(normalized(preferred)),
        ),
        accepted is None ==> r == Err::<HardwareRenderCallback, HardwareRenderError>(
            HardwareRenderError::InvalidEnvironmentCallback,
        ),
{
    let request = HardwareRenderCallback::for_preference(preferred);
    match accepted {
        None => Err(HardwareRenderError::InvalidEnvironmentCallback),
        Some(false) => Err(HardwareRenderError::FailedToSetRenderer(request.context_type)),
        Some(true) => Ok(request),
    }
}

/// Whether the Vulkan negotiation interface is installed for an announced kind.
pub fn wants_negotiation_interface(t: HwContextType) -> (r: bool)
    ensures
        r == (t == HwContextType::Vulkan),
{
    match t {
        HwContextType::Vulkan => true,
        _ => false,
    }
}

/// Every code that names a kind resolves to that kind when the host lets the
/// core choose; every other code is reported as unknown; and a host that does
/// not let the core choose is reported as such whatever the code.
pub proof fn lemma_preference_resolution(code: u32)
    ensures
        context_of_code(code) is Some ==> preference_outcome(Some((code, true))) == Ok::<HwContextType, HardwareRenderError>(
            context_of_code(code).unwrap(),
        ),
        context_of_code(code) is None ==> preference_outcome(Some((code, true))) == Err::<HwContextType, HardwareRenderError>(
            HardwareRenderError::UnknownContextType(code),
        ),
        preference_outcome(Some((code, false))) == Err::<HwContextType, HardwareRenderError>(
            HardwareRenderError::DriverSwitchingNotAvailable,
        ),
        code <= CODE_DIRECT3D <==> context_of_code(code) is Some,
{
}

/// Each kind's code resolves back to that kind.
pub proof fn lemma_code_round_trip(t: HwContextType)
    ensures
        context_of_code(code_of_context(t)) == Some(t),
{
}

/// Desktop OpenGL is announced as ES2, the core and versioned profiles as
/// ES3, and Vulkan and Direct3D pass through.
pub proof fn lemma_normalization()
    ensures
        normalized(HwContextType::OpenGl) == HwContextType::OpenGlEs2,
        normalized(HwContextType::OpenGlCore) == HwContextType::OpenGlEs3,
        normalized(HwContextType::OpenGlEsVersion) == HwContextType::OpenGlEs3,
        normalized(HwContextType::Vulkan) == HwContextType::Vulkan,
        normalized(HwContextType::Direct3D) == HwContextType::Direct3D,
        request_for(HwContextType::OpenGl).context_type == HwContextType::OpenGlEs2,
        request_for(HwContextType::OpenGlCore).context_type == HwContextType::OpenGlEs3,
        request_for(HwContextType::OpenGlEsVersion).context_type == HwContextType::OpenGlEs3,
        request_for(HwContextType::Vulkan).context_type == HwContextType::Vulkan,
        request_for(HwContextType::Direct3D).context_type == HwContextType::Direct3D,
{
}

} // verus!
