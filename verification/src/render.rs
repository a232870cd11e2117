//! The renderer contract, its errors, and the backend that does nothing.

use vstd::prelude::*;

pub mod vulkan;

verus! {

/// What the platform reported when a backend step failed.
#[derive(Debug, Clone, Copy, PartialEq, Eq, Structural)]
pub enum PlatformError {
    /// The native GPU API library could not be located or loaded.
    LoaderUnavailable,
    /// A native call returned this result code.
    Native(i32),
    /// A native call reported success but handed back a null handle.
    NullHandle,
    /// Layer enumeration came back empty although layers were requested.
    NoLayers,
    /// An enumerated layer name is not valid text.
    MalformedLayerName,
    /// A requested validation layer is not among the enumerated layers.
    LayerUnavailable,
}

/// Why a backend could not be constructed.
#[derive(Debug, Clone, Copy, PartialEq, Eq, Structural)]
pub enum RendererError {
    /// Loading the entry point or creating the native instance failed.
    InitializationFailed(PlatformError),
    /// Enumerating layers failed, or the requested layers are not offered.
    EnumerateDevicesFailed(PlatformError),
    /// Attaching the debug messenger to an existing instance failed.
    DebugSetupFailed(PlatformError),
}

pub type RendererResult<T> = Result<T, RendererError>;

impl RendererError {
    /// The platform error this error was built from.
    pub open spec fn spec_cause(self) -> PlatformError {
        match self {
            RendererError::InitializationFailed(e) => e,
            RendererError::EnumerateDevicesFailed(e) => e,
            RendererError::DebugSetupFailed(e) => e,
        }
    }

    /// The text a user is shown for this error.
    pub open spec fn spec_message(self) -> Seq<char> {
        match self {
            RendererError::InitializationFailed(_) => "Failed to initialize renderer"@,
            RendererError::EnumerateDevicesFailed(_) => "Failed to enumerate devices"@,
            RendererError::DebugSetupFailed(_) => "Failed to initialize debug"@,
        }
    }

    /// The platform error this error was built from.
    #[verifier::when_used_as_spec(spec_cause)]
    pub fn cause(self) -> (e: PlatformError)
        ensures
            e == self.spec_cause(),
    {
        match self {
            RendererError::InitializationFailed(e) => e,
            RendererError::EnumerateDevicesFailed(e) => e,
            RendererError::DebugSetupFailed(e) => e,
        }
    }

    /// The text a user is shown for this error; it depends on the kind only.
    pub fn message(&self) -> (text: String)
        ensures
            text@ == self.spec_message(),
    {
        match self {
            RendererError::InitializationFailed(_) => "Failed to initialize renderer".to_owned(),
            RendererError::EnumerateDevicesFailed(_) => "Failed to enumerate devices".to_owned(),
            RendererError::DebugSetupFailed(_) => "Failed to initialize debug".to_owned(),
        }
    }
}

/// The build target families a GPU backend can present to.
#[derive(Debug, Clone, Copy, PartialEq, Eq, Structural)]
pub enum Platform {
    Windows,
    MacOs,
    Unix,
}

/// What a backend reads of the windowing system's display handle: the
/// platform whose surface integration it has to ask for.
#[derive(Debug, Clone, Copy, PartialEq, Eq, Structural)]
pub struct DisplayHandle {
    pub platform: Platform,
}

/// What every rendering backend offers to the application shell.
pub trait Renderer {
    /// Create an instance of the renderer using the given name.
    fn create(name: &str, display_handle: &DisplayHandle) -> RendererResult<Self> where
        Self: Sized,
    ;

    /// Execute one rendering pass. Safe to call on every redraw tick.
    fn render(&self);
}

/// A backend that holds nothing and draws nothing.
#[derive(Debug, Clone, Copy, PartialEq, Eq, Structural)]
pub struct VoidRenderer {}

impl VoidRenderer {
    /// The void backend.
    pub fn empty() -> (renderer: Self)
        ensures
            renderer == (VoidRenderer {}),
    {
        VoidRenderer {  }
    }
}

impl Renderer for VoidRenderer {
    /// Never fails, whatever the name and the display.
    fn create(_name: &str, _display_handle: &DisplayHandle) -> (created: RendererResult<Self>)
        ensures
            created == Ok::<VoidRenderer, RendererError>(VoidRenderer {}),
    {
        Ok(VoidRenderer {  })
    }

    fn render(&self) {
    }
}

/// A void backend has no state: any two are the same value, so no number of
/// render passes can leave an observable trace in it.
pub proof fn lemma_void_renderer_is_stateless(a: VoidRenderer, b: VoidRenderer)
    ensures
        a == b,
{
}

} // verus!
