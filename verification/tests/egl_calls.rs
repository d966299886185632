use egl::calls::{
    bind_api, bind_tex_image, copy_buffers, create_context, create_context_with_attribs, create_pbuffer_from_client_buffer, create_pbuffer_surface, create_pixmap_surface, create_platform_window_surface, create_window_surface, create_window_surface_with_attribs, destroy_context, destroy_surface, get_config_attrib, get_configs, get_current_context, get_current_display, get_current_surface, get_display, get_filtered_configs, get_platform_display, initialize, initialize_and_get_version, make_current, num_configs, num_filtered_configs, query_context, query_string, query_surface, release_tex_image, release_thread, surface_attrib, swap_buffers, swap_interval, terminate, wait_client, wait_gl, wait_native,
};
use egl::error::EglCallError;
use egl::types::{EGL_FALSE, EGL_TRUE};

#[test]
fn bind_api_succeeds_on_true() {
    assert_eq!(bind_api(EGL_TRUE), Ok(()));
}

#[test]
fn bind_api_fails_only_on_false() {
    assert_eq!(bind_api(EGL_FALSE), Err(EglCallError::BindAPI));
    assert_eq!(bind_api(2), Ok(()));
    assert_eq!(bind_api(u32::MAX), Ok(()));
}

#[test]
fn bind_tex_image_follows_status() {
    assert_eq!(bind_tex_image(EGL_TRUE), Ok(()));
    assert_eq!(bind_tex_image(EGL_FALSE), Err(EglCallError::BindTexImage));
    assert_eq!(bind_tex_image(2), Err(EglCallError::BindTexImage));
}

#[test]
fn copy_buffers_follows_status() {
    assert_eq!(copy_buffers(EGL_TRUE), Ok(()));
    assert_eq!(copy_buffers(EGL_FALSE), Err(EglCallError::CopyBuffers));
    assert_eq!(copy_buffers(2), Err(EglCallError::CopyBuffers));
}

#[test]
fn destroy_context_follows_status() {
    assert_eq!(destroy_context(EGL_TRUE), Ok(()));
    assert_eq!(destroy_context(EGL_FALSE), Err(EglCallError::DestroyContext));
    assert_eq!(destroy_context(2), Err(EglCallError::DestroyContext));
}

#[test]
fn destroy_surface_follows_status() {
    assert_eq!(destroy_surface(EGL_TRUE), Ok(()));
    assert_eq!(destroy_surface(EGL_FALSE), Err(EglCallError::DestroySurface));
    assert_eq!(destroy_surface(2), Err(EglCallError::DestroySurface));
}

#[test]
fn get_config_attrib_follows_status() {
    assert_eq!(get_config_attrib(EGL_TRUE), Ok(()));
    assert_eq!(get_config_attrib(EGL_FALSE), Err(EglCallError::GetConfigAttrib));
    assert_eq!(get_config_attrib(2), Err(EglCallError::GetConfigAttrib));
}

#[test]
fn initialize_follows_status() {
    assert_eq!(initialize(EGL_TRUE), Ok(()));
    assert_eq!(initialize(EGL_FALSE), Err(EglCallError::Initialize));
    assert_eq!(initialize(2), Err(EglCallError::Initialize));
}

#[test]
fn initialize_and_get_version_follows_status() {
    assert_eq!(initialize_and_get_version(EGL_TRUE), Ok(()));
    assert_eq!(initialize_and_get_version(EGL_FALSE), Err(EglCallError::Initialize));
    assert_eq!(initialize_and_get_version(2), Err(EglCallError::Initialize));
}

#[test]
fn make_current_follows_status() {
    assert_eq!(make_current(EGL_TRUE), Ok(()));
    assert_eq!(make_current(EGL_FALSE), Err(EglCallError::MakeCurrent));
    assert_eq!(make_current(2), Err(EglCallError::MakeCurrent));
}

#[test]
fn query_context_follows_status() {
    assert_eq!(query_context(EGL_TRUE), Ok(()));
    assert_eq!(query_context(EGL_FALSE), Err(EglCallError::QueryContext));
    assert_eq!(query_context(2), Err(EglCallError::QueryContext));
}

#[test]
fn query_surface_follows_status() {
    assert_eq!(query_surface(EGL_TRUE), Ok(()));
    assert_eq!(query_surface(EGL_FALSE), Err(EglCallError::QuerySurface));
    assert_eq!(query_surface(2), Err(EglCallError::QuerySurface));
}

#[test]
fn release_tex_image_follows_status() {
    assert_eq!(release_tex_image(EGL_TRUE), Ok(()));
    assert_eq!(release_tex_image(EGL_FALSE), Err(EglCallError::ReleaseTexImage));
    assert_eq!(release_tex_image(2), Err(EglCallError::ReleaseTexImage));
}

#[test]
fn release_thread_follows_status() {
    assert_eq!(release_thread(EGL_TRUE), Ok(()));
    assert_eq!(release_thread(EGL_FALSE), Err(EglCallError::ReleaseThread));
    assert_eq!(release_thread(2), Err(EglCallError::ReleaseThread));
}

#[test]
fn surface_attrib_follows_status() {
    assert_eq!(surface_attrib(EGL_TRUE), Ok(()));
    assert_eq!(surface_attrib(EGL_FALSE), Err(EglCallError::SurfaceAttrib));
    assert_eq!(surface_attrib(2), Err(EglCallError::SurfaceAttrib));
}

#[test]
fn swap_buffers_follows_status() {
    assert_eq!(swap_buffers(EGL_TRUE), Ok(()));
    assert_eq!(swap_buffers(EGL_FALSE), Err(EglCallError::SwapBuffers));
    assert_eq!(swap_buffers(2), Err(EglCallError::SwapBuffers));
}

#[test]
fn swap_interval_follows_status() {
    assert_eq!(swap_interval(EGL_TRUE), Ok(()));
    assert_eq!(swap_interval(EGL_FALSE), Err(EglCallError::SwapInterval));
    assert_eq!(swap_interval(2), Err(EglCallError::SwapInterval));
}

#[test]
fn terminate_follows_status() {
    assert_eq!(terminate(EGL_TRUE), Ok(()));
    assert_eq!(terminate(EGL_FALSE), Err(EglCallError::Terminate));
    assert_eq!(terminate(2), Err(EglCallError::Terminate));
}

#[test]
fn wait_client_follows_status() {
    assert_eq!(wait_client(EGL_TRUE), Ok(()));
    assert_eq!(wait_client(EGL_FALSE), Err(EglCallError::WaitClient));
    assert_eq!(wait_client(2), Err(EglCallError::WaitClient));
}

#[test]
fn wait_gl_follows_status() {
    assert_eq!(wait_gl(EGL_TRUE), Ok(()));
    assert_eq!(wait_gl(EGL_FALSE), Err(EglCallError::WaitGL));
    assert_eq!(wait_gl(2), Err(EglCallError::WaitGL));
}

#[test]
fn wait_native_follows_status() {
    assert_eq!(wait_native(EGL_TRUE), Ok(()));
    assert_eq!(wait_native(EGL_FALSE), Err(EglCallError::WaitNative));
    assert_eq!(wait_native(2), Err(EglCallError::WaitNative));
}

#[test]
fn num_filtered_configs_returns_count_on_success() {
    assert_eq!(num_filtered_configs(EGL_TRUE, 7), Ok(7));
    assert_eq!(num_filtered_configs(EGL_TRUE, 0), Ok(0));
    assert_eq!(num_filtered_configs(EGL_FALSE, 7), Err(EglCallError::ChooseConfig));
    assert_eq!(num_filtered_configs(3, 7), Err(EglCallError::ChooseConfig));
}

#[test]
fn get_filtered_configs_returns_count_on_success() {
    assert_eq!(get_filtered_configs(EGL_TRUE, 7), Ok(7));
    assert_eq!(get_filtered_configs(EGL_TRUE, 0), Ok(0));
    assert_eq!(get_filtered_configs(EGL_FALSE, 7), Err(EglCallError::ChooseConfig));
    assert_eq!(get_filtered_configs(3, 7), Err(EglCallError::ChooseConfig));
}

#[test]
fn num_configs_returns_count_on_success() {
    assert_eq!(num_configs(EGL_TRUE, 7), Ok(7));
    assert_eq!(num_configs(EGL_TRUE, 0), Ok(0));
    assert_eq!(num_configs(EGL_FALSE, 7), Err(EglCallError::GetConfigs));
    assert_eq!(num_configs(3, 7), Err(EglCallError::GetConfigs));
}

#[test]
fn get_configs_returns_count_on_success() {
    assert_eq!(get_configs(EGL_TRUE, 7), Ok(7));
    assert_eq!(get_configs(EGL_TRUE, 0), Ok(0));
    assert_eq!(get_configs(EGL_FALSE, 7), Err(EglCallError::GetConfigs));
    assert_eq!(get_configs(3, 7), Err(EglCallError::GetConfigs));
}

#[test]
fn create_context_hands_out_only_non_null() {
    assert_eq!(create_context(0x5000), Ok(0x5000));
    assert_eq!(create_context(1), Ok(1));
    assert_eq!(create_context(0), Err(EglCallError::CreateContext));
}

#[test]
fn create_context_with_attribs_hands_out_only_non_null() {
    assert_eq!(create_context_with_attribs(0x5000), Ok(0x5000));
    assert_eq!(create_context_with_attribs(1), Ok(1));
    assert_eq!(create_context_with_attribs(0), Err(EglCallError::CreateContext));
}

#[test]
fn create_pbuffer_from_client_buffer_hands_out_only_non_null() {
    assert_eq!(create_pbuffer_from_client_buffer(0x5000), Ok(0x5000));
    assert_eq!(create_pbuffer_from_client_buffer(1), Ok(1));
    assert_eq!(create_pbuffer_from_client_buffer(0), Err(EglCallError::CreatePbufferFromClientBuffer));
}

#[test]
fn create_pbuffer_surface_hands_out_only_non_null() {
    assert_eq!(create_pbuffer_surface(0x5000), Ok(0x5000));
    assert_eq!(create_pbuffer_surface(1), Ok(1));
    assert_eq!(create_pbuffer_surface(0), Err(EglCallError::CreatePbufferSurface));
}

#[test]
fn create_pixmap_surface_hands_out_only_non_null() {
    assert_eq!(create_pixmap_surface(0x5000), Ok(0x5000));
    assert_eq!(create_pixmap_surface(1), Ok(1));
    assert_eq!(create_pixmap_surface(0), Err(EglCallError::CreatePixmapSurface));
}

#[test]
fn create_window_surface_hands_out_only_non_null() {
    assert_eq!(create_window_surface(0x5000), Ok(0x5000));
    assert_eq!(create_window_surface(1), Ok(1));
    assert_eq!(create_window_surface(0), Err(EglCallError::CreateWindowSurface));
}

#[test]
fn create_window_surface_with_attribs_hands_out_only_non_null() {
    assert_eq!(create_window_surface_with_attribs(0x5000), Ok(0x5000));
    assert_eq!(create_window_surface_with_attribs(1), Ok(1));
    assert_eq!(create_window_surface_with_attribs(0), Err(EglCallError::CreateWindowSurface));
}

#[test]
fn create_platform_window_surface_hands_out_only_non_null() {
    assert_eq!(create_platform_window_surface(0x5000), Ok(0x5000));
    assert_eq!(create_platform_window_surface(1), Ok(1));
    assert_eq!(create_platform_window_surface(0), Err(EglCallError::CreatePlatformWindowSurface));
}

#[test]
fn get_current_context_hands_out_only_non_null() {
    assert_eq!(get_current_context(0x5000), Ok(0x5000));
    assert_eq!(get_current_context(1), Ok(1));
    assert_eq!(get_current_context(0), Err(EglCallError::GetCurrentContext));
}

#[test]
fn get_current_display_hands_out_only_non_null() {
    assert_eq!(get_current_display(0x5000), Ok(0x5000));
    assert_eq!(get_current_display(1), Ok(1));
    assert_eq!(get_current_display(0), Err(EglCallError::GetCurrentDisplay));
}

#[test]
fn get_current_surface_hands_out_only_non_null() {
    assert_eq!(get_current_surface(0x5000), Ok(0x5000));
    assert_eq!(get_current_surface(1), Ok(1));
    assert_eq!(get_current_surface(0), Err(EglCallError::GetCurrentSurface));
}

#[test]
fn get_display_hands_out_only_non_null() {
    assert_eq!(get_display(0x5000), Ok(0x5000));
    assert_eq!(get_display(1), Ok(1));
    assert_eq!(get_display(0), Err(EglCallError::GetDisplay));
}

#[test]
fn get_platform_display_hands_out_only_non_null() {
    assert_eq!(get_platform_display(0x5000), Ok(0x5000));
    assert_eq!(get_platform_display(1), Ok(1));
    assert_eq!(get_platform_display(0), Err(EglCallError::GetDisplay));
}

#[test]
fn query_string_hands_out_only_non_null() {
    assert_eq!(query_string(0x5000), Ok(0x5000));
    assert_eq!(query_string(1), Ok(1));
    assert_eq!(query_string(0), Err(EglCallError::QueryString));
}
