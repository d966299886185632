//! The errors of EGL calls: one variant for each EGL entry point that can
//! fail, and one for an attribute list that is refused before any call.

use vstd::prelude::*;

verus! {

/// The EGL entry point whose call failed, or the attribute list that was
/// refused.
#[derive(Debug, Clone, Copy, PartialEq, Eq, Structural)]
pub enum EglCallError {
    BindAPI,
    BindTexImage,
    ChooseConfig,
    CopyBuffers,
    CreateContext,
    CreatePbufferFromClientBuffer,
    CreatePbufferSurface,
    CreatePixmapSurface,
    CreatePlatformWindowSurface,
    CreateWindowSurface,
    DestroyContext,
    DestroySurface,
    GetConfigAttrib,
    GetConfigs,
    GetCurrentContext,
    GetCurrentDisplay,
    GetCurrentSurface,
    GetDisplay,
    Initialize,
    MakeCurrent,
    QueryContext,
    QueryString,
    QuerySurface,
    ReleaseTexImage,
    ReleaseThread,
    SurfaceAttrib,
    SwapBuffers,
    SwapInterval,
    Terminate,
    WaitClient,
    WaitGL,
    WaitNative,
    /// A non-empty attribute list without `EGL_NONE` at an attribute
    /// position: EGL would read past its end, so no call was made.
    UnterminatedAttribList,
}

/// What a checked EGL call returns.
pub type EglCallResult<T> = Result<T, EglCallError>;

} // verus!
