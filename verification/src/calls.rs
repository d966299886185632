//! The checked EGL calls.
//!
//! Each function here is the rule of one EGL call of the binding: it takes
//! what libEGL answered and returns what the caller gets. A call that
//! answers with a status succeeds exactly when the status is `EGL_TRUE`
//! (`eglBindAPI` only fails on `EGL_FALSE`); a call that answers with a
//! handle succeeds exactly when the handle is not null, and then returns it;
//! a call that answers with a count returns that count when its status is
//! `EGL_TRUE`. A failure is always the variant of [`EglCallError`] named
//! after the EGL entry point.
//!
//! Where the binding computes the arguments of a call, the computation is
//! here too: [`attrib_list_arg`], [`attrib_words_arg`],
//! [`widen_attrib_list`], [`config_capacity`] and
//! [`proc_name_bytes`].

use vstd::prelude::*;
use vstd::string::StringSliceAdditionalSpecFns;
use crate::types::{EGLAttrib, EGLBoolean, EGLHandle, EGLint, EGL_FALSE, EGL_NONE, EGL_TRUE};
use crate::error::{EglCallError, EglCallResult};

verus! {

/// What a call that answers with a status returns: `Ok` exactly on
/// `EGL_TRUE`, else the given error.
pub open spec fn status_result(status: EGLBoolean, error: EglCallError) -> EglCallResult<()> {
    if status == EGL_TRUE {
        Ok(())
    } else {
        Err(error)
    }
}

/// What a call that answers with a handle returns: the handle exactly when
/// it is not null, else the given error.
pub open spec fn handle_result(handle: EGLHandle, error: EglCallError) -> EglCallResult<EGLHandle> {
    if handle != 0 {
        Ok(handle)
    } else {
        Err(error)
    }
}

/// What a call that answers with a status and a count returns: the count
/// exactly on `EGL_TRUE`, else the given error.
pub open spec fn count_result(status: EGLBoolean, count: EGLint, error: EglCallError) -> EglCallResult<EGLint> {
    if status == EGL_TRUE {
        Ok(count)
    } else {
        Err(error)
    }
}

fn check_status(status: EGLBoolean, error: EglCallError) -> (result: EglCallResult<()>)
    ensures
        result == status_result(status, error),
{
    if status != EGL_TRUE {
        return Err(error);
    }
    Ok(())
}

fn check_handle(handle: EGLHandle, error: EglCallError) -> (result: EglCallResult<EGLHandle>)
    ensures
        result == handle_result(handle, error),
{
    if handle != 0 {
        Ok(handle)
    } else {
        Err(error)
    }
}

fn check_count(status: EGLBoolean, count: EGLint, error: EglCallError) -> (result: EglCallResult<EGLint>)
    ensures
        result == count_result(status, count, error),
{
    if status != EGL_TRUE {
        return Err(error);
    }
    Ok(count)
}

/// What `eglBindAPI`'s status gives: a failure only on `EGL_FALSE`.
pub open spec fn bind_api_result(status: EGLBoolean) -> EglCallResult<()> {
    if status == EGL_FALSE {
        Err(EglCallError::BindAPI)
    } else {
        Ok(())
    }
}

/// `[EGL 1.2]` Set the current rendering API: the outcome of `eglBindAPI`,
/// decided from the status it returned. Only `EGL_FALSE` is a failure.
pub fn bind_api(status: EGLBoolean) -> (result: EglCallResult<()>)
    ensures
        result == bind_api_result(status),
{
    if status == EGL_FALSE {
        return Err(EglCallError::BindAPI);
    }
    Ok(())
}

/// `[EGL 1.1]` Defines a two-dimensional texture image.
///
/// The outcome of `eglBindTexImage`, decided from the status it returned.
pub fn bind_tex_image(status: EGLBoolean) -> (result: EglCallResult<()>)
    ensures
        result == status_result(status, EglCallError::BindTexImage),
{
    check_status(status, EglCallError::BindTexImage)
}

/// `[EGL 1.0]` Copy EGL surface color buffer to a native pixmap.
///
/// The outcome of `eglCopyBuffers`, decided from the status it returned.
pub fn copy_buffers(status: EGLBoolean) -> (result: EglCallResult<()>)
    ensures
        result == status_result(status, EglCallError::CopyBuffers),
{
    check_status(status, EglCallError::CopyBuffers)
}

/// `[EGL 1.0]` Destroy an EGL rendering context.
///
/// The outcome of `eglDestroyContext`, decided from the status it returned.
pub fn destroy_context(status: EGLBoolean) -> (result: EglCallResult<()>)
    ensures
        result == status_result(status, EglCallError::DestroyContext),
{
    check_status(status, EglCallError::DestroyContext)
}

/// `[EGL 1.0]` Destroy an EGL surface.
///
/// The outcome of `eglDestroySurface`, decided from the status it returned.
pub fn destroy_surface(status: EGLBoolean) -> (result: EglCallResult<()>)
    ensures
        result == status_result(status, EglCallError::DestroySurface),
{
    check_status(status, EglCallError::DestroySurface)
}

/// `[EGL 1.0]` Return information about an EGL frame buffer configuration.
///
/// The outcome of `eglGetConfigAttrib`, decided from the status it returned.
pub fn get_config_attrib(status: EGLBoolean) -> (result: EglCallResult<()>)
    ensures
        result == status_result(status, EglCallError::GetConfigAttrib),
{
    check_status(status, EglCallError::GetConfigAttrib)
}

/// `[EGL 1.0]` Initialize an EGL display connection.
///
/// The outcome of `eglInitialize`, decided from the status it returned.
pub fn initialize(status: EGLBoolean) -> (result: EglCallResult<()>)
    ensures
        result == status_result(status, EglCallError::Initialize),
{
    check_status(status, EglCallError::Initialize)
}

/// `[EGL 1.0]` Initialize an EGL display connection and get EGL version.
///
/// The outcome of `eglInitialize`, decided from the status it returned.
pub fn initialize_and_get_version(status: EGLBoolean) -> (result: EglCallResult<()>)
    ensures
        result == status_result(status, EglCallError::Initialize),
{
    check_status(status, EglCallError::Initialize)
}

/// `[EGL 1.0]` Attach an EGL rendering context to EGL surfaces.
///
/// The outcome of `eglMakeCurrent`, decided from the status it returned.
pub fn make_current(status: EGLBoolean) -> (result: EglCallResult<()>)
    ensures
        result == status_result(status, EglCallError::MakeCurrent),
{
    check_status(status, EglCallError::MakeCurrent)
}

/// `[EGL 1.0]` Return EGL rendering context information.
///
/// The outcome of `eglQueryContext`, decided from the status it returned.
pub fn query_context(status: EGLBoolean) -> (result: EglCallResult<()>)
    ensures
        result == status_result(status, EglCallError::QueryContext),
{
    check_status(status, EglCallError::QueryContext)
}

/// `[EGL 1.0]` Return EGL surface information.
///
/// The outcome of `eglQuerySurface`, decided from the status it returned.
pub fn query_surface(status: EGLBoolean) -> (result: EglCallResult<()>)
    ensures
        result == status_result(status, EglCallError::QuerySurface),
{
    check_status(status, EglCallError::QuerySurface)
}

/// `[EGL 1.1]` Releases a color buffer that is being used as a texture.
///
/// The outcome of `eglReleaseTexImage`, decided from the status it returned.
pub fn release_tex_image(status: EGLBoolean) -> (result: EglCallResult<()>)
    ensures
        result == status_result(status, EglCallError::ReleaseTexImage),
{
    check_status(status, EglCallError::ReleaseTexImage)
}

/// `[EGL 1.2]` Release EGL per-thread state.
///
/// The outcome of `eglReleaseThread`, decided from the status it returned.
pub fn release_thread(status: EGLBoolean) -> (result: EglCallResult<()>)
    ensures
        result == status_result(status, EglCallError::ReleaseThread),
{
    check_status(status, EglCallError::ReleaseThread)
}

/// `[EGL 1.1]` Set an EGL surface attribute.
///
/// The outcome of `eglSurfaceAttrib`, decided from the status it returned.
pub fn surface_attrib(status: EGLBoolean) -> (result: EglCallResult<()>)
    ensures
        result == status_result(status, EglCallError::SurfaceAttrib),
{
    check_status(status, EglCallError::SurfaceAttrib)
}

/// `[EGL 1.0]` Post EGL surface color buffer to a native window.
///
/// The outcome of `eglSwapBuffers`, decided from the status it returned.
pub fn swap_buffers(status: EGLBoolean) -> (result: EglCallResult<()>)
    ensures
        result == status_result(status, EglCallError::SwapBuffers),
{
    check_status(status, EglCallError::SwapBuffers)
}

/// `[EGL 1.1]` Specifies the minimum number of video frame periods per buffer swap for the window
/// associated with the current context.
///
/// The outcome of `eglSwapInterval`, decided from the status it returned.
pub fn swap_interval(status: EGLBoolean) -> (result: EglCallResult<()>)
    ensures
        result == status_result(status, EglCallError::SwapInterval),
{
    check_status(status, EglCallError::SwapInterval)
}

/// `[EGL 1.0]` Terminate an EGL display connection.
///
/// The outcome of `eglTerminate`, decided from the status it returned.
pub fn terminate(status: EGLBoolean) -> (result: EglCallResult<()>)
    ensures
        result == status_result(status, EglCallError::Terminate),
{
    check_status(status, EglCallError::Terminate)
}

/// `[EGL 1.2]` Complete client API execution prior to subsequent native rendering calls.
///
/// The outcome of `eglWaitClient`, decided from the status it returned.
pub fn wait_client(status: EGLBoolean) -> (result: EglCallResult<()>)
    ensures
        result == status_result(status, EglCallError::WaitClient),
{
    check_status(status, EglCallError::WaitClient)
}

/// `[EGL 1.0]` Complete GL execution prior to subsequent native rendering calls.
///
/// The outcome of `eglWaitGL`, decided from the status it returned.
pub fn wait_gl(status: EGLBoolean) -> (result: EglCallResult<()>)
    ensures
        result == status_result(status, EglCallError::WaitGL),
{
    check_status(status, EglCallError::WaitGL)
}

/// `[EGL 1.0]` Complete native execution prior to subsequent GL rendering calls.
///
/// The outcome of `eglWaitNative`, decided from the status it returned.
pub fn wait_native(status: EGLBoolean) -> (result: EglCallResult<()>)
    ensures
        result == status_result(status, EglCallError::WaitNative),
{
    check_status(status, EglCallError::WaitNative)
}

/// `[EGL 1.0]` Return the total number of display configs that match specified attributes.
///
/// The outcome of `eglChooseConfig`, decided from the status it returned and the
/// count it wrote: on success, the number of matching configs.
pub fn num_filtered_configs(status: EGLBoolean, count: EGLint) -> (result: EglCallResult<EGLint>)
    ensures
        result == count_result(status, count, EglCallError::ChooseConfig),
{
    check_count(status, count, EglCallError::ChooseConfig)
}

/// `[EGL 1.0]` Return a list of EGL frame buffer configurations that match specified attributes.
///
/// The outcome of `eglChooseConfig`, decided from the status it returned and the
/// count it wrote: on success, the number of configs written.
pub fn get_filtered_configs(status: EGLBoolean, count: EGLint) -> (result: EglCallResult<EGLint>)
    ensures
        result == count_result(status, count, EglCallError::ChooseConfig),
{
    check_count(status, count, EglCallError::ChooseConfig)
}

/// `[EGL 1.0]` Return the total number of all available display configs.
///
/// The outcome of `eglGetConfigs`, decided from the status it returned and the
/// count it wrote: on success, the number of configs.
pub fn num_configs(status: EGLBoolean, count: EGLint) -> (result: EglCallResult<EGLint>)
    ensures
        result == count_result(status, count, EglCallError::GetConfigs),
{
    check_count(status, count, EglCallError::GetConfigs)
}

/// `[EGL 1.0]` Return a list of all EGL frame buffer configurations for a display.
///
/// The outcome of `eglGetConfigs`, decided from the status it returned and the
/// count it wrote: on success, the number of configs written.
pub fn get_configs(status: EGLBoolean, count: EGLint) -> (result: EglCallResult<EGLint>)
    ensures
        result == count_result(status, count, EglCallError::GetConfigs),
{
    check_count(status, count, EglCallError::GetConfigs)
}

/// `[EGL 1.0]` Create a new EGL rendering context.
///
/// The outcome of `eglCreateContext`, decided from the context handle it returned: on
/// success, the context.
pub fn create_context(context: EGLHandle) -> (result: EglCallResult<EGLHandle>)
    ensures
        result == handle_result(context, EglCallError::CreateContext),
{
    check_handle(context, EglCallError::CreateContext)
}

/// `[EGL 1.0]` Create a new EGL rendering context.
///
/// The outcome of `eglCreateContext`, decided from the context handle it returned: on
/// success, the context.
pub fn create_context_with_attribs(context: EGLHandle) -> (result: EglCallResult<EGLHandle>)
    ensures
        result == handle_result(context, EglCallError::CreateContext),
{
    check_handle(context, EglCallError::CreateContext)
}

/// `[EGL 1.2]` Create a new EGL pixel buffer surface bound to an OpenVG image.
///
/// The outcome of `eglCreatePbufferFromClientBuffer`, decided from the surface handle it returned: on
/// success, the surface.
pub fn create_pbuffer_from_client_buffer(surface: EGLHandle) -> (result: EglCallResult<EGLHandle>)
    ensures
        result == handle_result(surface, EglCallError::CreatePbufferFromClientBuffer),
{
    check_handle(surface, EglCallError::CreatePbufferFromClientBuffer)
}

/// `[EGL 1.0]` Create a new EGL pixel buffer surface.
///
/// The outcome of `eglCreatePbufferSurface`, decided from the surface handle it returned: on
/// success, the surface.
pub fn create_pbuffer_surface(surface: EGLHandle) -> (result: EglCallResult<EGLHandle>)
    ensures
        result == handle_result(surface, EglCallError::CreatePbufferSurface),
{
    check_handle(surface, EglCallError::CreatePbufferSurface)
}

/// `[EGL 1.0]` Create a new EGL pixmap surface.
///
/// The outcome of `eglCreatePixmapSurface`, decided from the surface handle it returned: on
/// success, the surface.
pub fn create_pixmap_surface(surface: EGLHandle) -> (result: EglCallResult<EGLHandle>)
    ensures
        result == handle_result(surface, EglCallError::CreatePixmapSurface),
{
    check_handle(surface, EglCallError::CreatePixmapSurface)
}

/// `[EGL 1.0]` Create a new EGL window surface.
///
/// The outcome of `eglCreateWindowSurface`, decided from the surface handle it returned: on
/// success, the surface.
pub fn create_window_surface(surface: EGLHandle) -> (result: EglCallResult<EGLHandle>)
    ensures
        result == handle_result(surface, EglCallError::CreateWindowSurface),
{
    check_handle(surface, EglCallError::CreateWindowSurface)
}

/// `[EGL 1.0]` Create a new EGL window surface.
///
/// The outcome of `eglCreateWindowSurface`, decided from the surface handle it returned: on
/// success, the surface.
pub fn create_window_surface_with_attribs(surface: EGLHandle) -> (result: EglCallResult<EGLHandle>)
    ensures
        result == handle_result(surface, EglCallError::CreateWindowSurface),
{
    check_handle(surface, EglCallError::CreateWindowSurface)
}

/// `[EGL 1.5]` Create a new EGL window surface.
///
/// The outcome of `eglCreatePlatformWindowSurface`, decided from the surface handle it returned: on
/// success, the surface.
pub fn create_platform_window_surface(surface: EGLHandle) -> (result: EglCallResult<EGLHandle>)
    ensures
        result == handle_result(surface, EglCallError::CreatePlatformWindowSurface),
{
    check_handle(surface, EglCallError::CreatePlatformWindowSurface)
}

/// `[EGL 1.4]` Return the current EGL rendering context.
///
/// The outcome of `eglGetCurrentContext`, decided from the context handle it returned: on
/// success, the context.
pub fn get_current_context(context: EGLHandle) -> (result: EglCallResult<EGLHandle>)
    ensures
        result == handle_result(context, EglCallError::GetCurrentContext),
{
    check_handle(context, EglCallError::GetCurrentContext)
}

/// `[EGL 1.0]` Return the display for the current EGL rendering context.
///
/// The outcome of `eglGetCurrentDisplay`, decided from the display handle it returned: on
/// success, the display.
pub fn get_current_display(display: EGLHandle) -> (result: EglCallResult<EGLHandle>)
    ensures
        result == handle_result(display, EglCallError::GetCurrentDisplay),
{
    check_handle(display, EglCallError::GetCurrentDisplay)
}

/// `[EGL 1.0]` Return the read or draw surface for the current EGL rendering context.
///
/// The outcome of `eglGetCurrentSurface`, decided from the surface handle it returned: on
/// success, the surface.
pub fn get_current_surface(surface: EGLHandle) -> (result: EglCallResult<EGLHandle>)
    ensures
        result == handle_result(surface, EglCallError::GetCurrentSurface),
{
    check_handle(surface, EglCallError::GetCurrentSurface)
}

/// `[EGL 1.0]` Return an EGL display connection.
///
/// The outcome of `eglGetDisplay`, decided from the display handle it returned: on
/// success, the display.
pub fn get_display(display: EGLHandle) -> (result: EglCallResult<EGLHandle>)
    ensures
        result == handle_result(display, EglCallError::GetDisplay),
{
    check_handle(display, EglCallError::GetDisplay)
}

/// `[EGL 1.5]` Return an EGL display connection for a specific platform.
///
/// The outcome of `eglGetPlatformDisplay`, decided from the display handle it returned: on
/// success, the display.
pub fn get_platform_display(display: EGLHandle) -> (result: EglCallResult<EGLHandle>)
    ensures
        result == handle_result(display, EglCallError::GetDisplay),
{
    check_handle(display, EglCallError::GetDisplay)
}

/// `[EGL 1.0]` Return a string describing an EGL display connection.
///
/// The outcome of `eglQueryString`, decided from the string handle it returned: on
/// success, the address of the string.
pub fn query_string(string: EGLHandle) -> (result: EglCallResult<EGLHandle>)
    ensures
        result == handle_result(string, EglCallError::QueryString),
{
    check_handle(string, EglCallError::QueryString)
}

/// Whether EGL, reading `list` as attribute/value pairs up to the first
/// `EGL_NONE` in an attribute position, stops inside the list: some even
/// position of the list holds `EGL_NONE`.
pub open spec fn is_terminated(list: Seq<EGLint>) -> bool {
    exists|i: int| 0 <= i < list.len() && i % 2 == 0 && #[trigger] list[i] == EGL_NONE
}

/// [`is_terminated`] for a list of `EGLAttrib` words.
pub open spec fn is_terminated_words(list: Seq<EGLAttrib>) -> bool {
    exists|i: int| 0 <= i < list.len() && i % 2 == 0 && #[trigger] list[i] == EGL_NONE as EGLAttrib
}

/// What an attribute list becomes when handed to EGL: `None`, the null
/// list, when it is empty; the list itself when EGL stops reading inside
/// it; refused otherwise, as EGL would read past its end.
pub open spec fn attrib_list_result<T>(list: &[T], terminated: bool) -> EglCallResult<Option<&[T]>> {
    if list@.len() == 0 {
        Ok(None)
    } else if terminated {
        Ok(Some(list))
    } else {
        Err(EglCallError::UnterminatedAttribList)
    }
}

/// The attribute list handed to a call that takes `EGLint` attributes
/// (`eglChooseConfig`, `eglCreateContext`, `eglCreatePbufferFromClientBuffer`,
/// `eglCreatePbufferSurface`, `eglCreatePixmapSurface`,
/// `eglCreateWindowSurface`): null for an empty list, the list itself when
/// it holds `EGL_NONE` at an attribute position, and
/// `Err(UnterminatedAttribList)` otherwise, so that EGL never reads outside
/// the slice.
pub fn attrib_list_arg(attrib_list: &[EGLint]) -> (arg: EglCallResult<Option<&[EGLint]>>)
    ensures
        arg == attrib_list_result(attrib_list, is_terminated(attrib_list@)),
        attrib_list@.len() == 0 ==> arg == Ok::<Option<&[EGLint]>, EglCallError>(None),
        forall|k: int|
            0 <= k < attrib_list@.len() && k % 2 == 0 && #[trigger] attrib_list@[k] == EGL_NONE
                ==> arg == Ok::<Option<&[EGLint]>, EglCallError>(Some(attrib_list)),
        (attrib_list@.len() > 0 && forall|k: int|
            0 <= k < attrib_list@.len() && k % 2 == 0 ==> #[trigger] attrib_list@[k] != EGL_NONE)
            ==> arg == Err::<Option<&[EGLint]>, EglCallError>(EglCallError::UnterminatedAttribList),
{
    if attrib_list.len() == 0 {
        return Ok(None);
    }
    for i in 0..attrib_list.len()
        invariant
            forall|j: int| 0 <= j < i && j % 2 == 0 ==> attrib_list@[j] != EGL_NONE,
    {
        if i % 2 == 0 && attrib_list[i] == EGL_NONE {
            return Ok(Some(attrib_list));
        }
    }
    Err(EglCallError::UnterminatedAttribList)
}

/// [`attrib_list_arg`] for the `EGLAttrib` lists of
/// `eglCreatePlatformWindowSurface` and `eglGetPlatformDisplay`, which EGL
/// reads as pointer-wide words.
pub fn attrib_words_arg(attrib_list: &[EGLAttrib]) -> (arg: EglCallResult<Option<&[EGLAttrib]>>)
    ensures
        arg == attrib_list_result(attrib_list, is_terminated_words(attrib_list@)),
        attrib_list@.len() == 0 ==> arg == Ok::<Option<&[EGLAttrib]>, EglCallError>(None),
        forall|k: int|
            0 <= k < attrib_list@.len() && k % 2 == 0 && #[trigger] attrib_list@[k] == EGL_NONE as EGLAttrib
                ==> arg == Ok::<Option<&[EGLAttrib]>, EglCallError>(Some(attrib_list)),
        (attrib_list@.len() > 0 && forall|k: int|
            0 <= k < attrib_list@.len() && k % 2 == 0 ==> #[trigger] attrib_list@[k] != EGL_NONE as EGLAttrib)
            ==> arg == Err::<Option<&[EGLAttrib]>, EglCallError>(EglCallError::UnterminatedAttribList),
{
    if attrib_list.len() == 0 {
        return Ok(None);
    }
    let none: EGLAttrib = EGL_NONE as EGLAttrib;
    for i in 0..attrib_list.len()
        invariant
            none == EGL_NONE as EGLAttrib,
            forall|j: int| 0 <= j < i && j % 2 == 0 ==> attrib_list@[j] != none,
    {
        if i % 2 == 0 && attrib_list[i] == none {
            return Ok(Some(attrib_list));
        }
    }
    Err(EglCallError::UnterminatedAttribList)
}

/// An `EGLint` attribute list widened to the `EGLAttrib` words that
/// `eglGetPlatformDisplay` reads: the same values, one word each.
pub open spec fn widened(list: Seq<EGLint>) -> Seq<EGLAttrib> {
    list.map_values(|v: EGLint| v as EGLAttrib)
}

/// The `EGLAttrib` words of an `EGLint` attribute list, for
/// `eglGetPlatformDisplay`: each value converted, in order. A list is
/// terminated exactly when its words are.
pub fn widen_attrib_list(attrib_list: &[EGLint]) -> (words: Vec<EGLAttrib>)
    ensures
        words@ == widened(attrib_list@),
        words@.len() == attrib_list@.len(),
        forall|i: int| 0 <= i < attrib_list@.len() ==> #[trigger] words@[i] == attrib_list@[i] as EGLAttrib,
        is_terminated_words(words@) == is_terminated(attrib_list@),
{
    let mut words: Vec<EGLAttrib> = Vec::new();
    for i in 0..attrib_list.len()
        invariant
            words@ == widened(attrib_list@.take(i as int)),
    {
        words.push(attrib_list[i] as EGLAttrib);
        assert(attrib_list@.take(i + 1) =~= attrib_list@.take(i as int).push(attrib_list@[i as int]));
        assert(words@ =~= widened(attrib_list@.take(i + 1)));
    }
    assert(attrib_list@.take(attrib_list@.len() as int) =~= attrib_list@);
    proof {
        let l = attrib_list@;
        let w = words@;
        if is_terminated(l) {
            let i = choose|i: int| 0 <= i < l.len() && i % 2 == 0 && #[trigger] l[i] == EGL_NONE;
            assert(w[i] == EGL_NONE as EGLAttrib);
        }
        if is_terminated_words(w) {
            let i = choose|i: int| 0 <= i < w.len() && i % 2 == 0 && #[trigger] w[i] == EGL_NONE as EGLAttrib;
            assert(w[i] == l[i] as EGLAttrib);
            assert(l[i] == EGL_NONE);
        }
    }
    words
}

/// What `eglGetProcAddress`'s answer gives: no function when it answered
/// with the null address, the address otherwise.
pub open spec fn proc_address_result(address: EGLHandle) -> Option<EGLHandle> {
    if address == 0 {
        None
    } else {
        Some(address)
    }
}

/// `[EGL 1.0]` Return a GL or an EGL extension function: the outcome of
/// `eglGetProcAddress`, decided from the address it returned. A null
/// address, which EGL gives for an unknown name, is the absence of a
/// function.
pub fn get_proc_address(address: EGLHandle) -> (function: Option<EGLHandle>)
    ensures
        function == proc_address_result(address),
{
    if address == 0 {
        None
    } else {
        Some(address)
    }
}

/// The capacity handed to `eglChooseConfig` and `eglGetConfigs` for a
/// buffer of `configs_len` configs: the length converted to `EGLint` as a
/// C `int` conversion does, keeping the low 32 bits.
pub fn config_capacity(configs_len: usize) -> (capacity: EGLint)
    ensures
        capacity == configs_len as i32,
        configs_len <= i32::MAX ==> capacity == configs_len,
{
    configs_len as i32
}

/// The NUL-terminated name handed to `eglGetProcAddress` for `procname`:
/// its UTF-8 bytes followed by one `0` byte. A name that holds a `0` byte
/// has no such form and is not accepted.
pub fn proc_name_bytes(procname: &str) -> (name: Vec<u8>)
    requires
        !procname.spec_bytes().contains(0u8),
    ensures
        name@ == procname.spec_bytes().push(0u8),
{
    let bytes = procname.as_bytes();
    let mut name: Vec<u8> = Vec::new();
    let mut i: usize = 0;
    while i < bytes.len()
        invariant
            bytes@ == procname.spec_bytes(),
            i <= bytes@.len(),
            name@ == bytes@.take(i as int),
        decreases bytes@.len() - i,
    {
        name.push(bytes[i]);
        i = i + 1;
        assert(name@ =~= bytes@.take(i as int));
    }
    assert(bytes@.take(i as int) =~= bytes@);
    name.push(0u8);
    name
}

} // verus!
