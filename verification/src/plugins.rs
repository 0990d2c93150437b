//! Which Bevy plugins the app runs with, by target platform. On iOS and
//! Android the host app owns the native view, so winit does not drive the
//! window and the plugins are finished by hand; on Android rendering is
//! Vulkan only and assets are read through the NDK asset manager.

use vstd::prelude::*;

verus! {

/// The platform that the app is built for.
#[derive(Clone, Copy, Debug, PartialEq, Eq, Structural)]
pub enum TargetPlatform {
    Android,
    Ios,
    Desktop,
}

/// Whether the platform embeds Bevy in a native view of a host app.
pub open spec fn is_mobile(platform: TargetPlatform) -> bool {
    platform == TargetPlatform::Android || platform == TargetPlatform::Ios
}

/// How the default plugin group is adjusted.
#[derive(Clone, Copy, Debug, PartialEq, Eq, Structural)]
pub struct PluginPlan {
    /// Whether winit drives the windows.
    pub winit: bool,
    /// Whether the window plugin is reset to its default settings.
    pub default_window_plugin: bool,
    /// Whether the renderer is restricted to the Vulkan backend.
    pub vulkan_only: bool,
    /// Whether the Android asset reader plugin goes in before the asset plugin.
    pub android_asset_io: bool,
}

/// How the app is put together around the plugin group.
#[derive(Clone, Copy, Debug, PartialEq, Eq, Structural)]
pub struct AppSetup {
    /// Whether the Android asset manager is inserted as a resource.
    pub android_asset_manager: bool,
    /// The adjustments of the default plugin group.
    pub plugins: PluginPlan,
    /// Whether the plugin that binds the native view is added.
    pub app_view_plugin: bool,
    /// Whether the plugins are finished and cleaned up by hand.
    pub finish_plugins: bool,
}

/// The plugin adjustments of a platform.
pub open spec fn spec_plugin_plan(platform: TargetPlatform) -> PluginPlan {
    PluginPlan {
        winit: !is_mobile(platform),
        default_window_plugin: is_mobile(platform),
        vulkan_only: platform == TargetPlatform::Android,
        android_asset_io: platform == TargetPlatform::Android,
    }
}

/// The setup of the app on a platform.
pub open spec fn spec_app_setup(platform: TargetPlatform) -> AppSetup {
    AppSetup {
        android_asset_manager: platform == TargetPlatform::Android,
        plugins: spec_plugin_plan(platform),
        app_view_plugin: is_mobile(platform),
        finish_plugins: is_mobile(platform),
    }
}

/// Configures the default plugins for the target platform.
pub fn configure_plugins(platform: TargetPlatform) -> (plan: PluginPlan)
    ensures
        plan == spec_plugin_plan(platform),
{
    let mobile = match platform {
        TargetPlatform::Android => true,
        TargetPlatform::Ios => true,
        TargetPlatform::Desktop => false,
    };
    let android = match platform {
        TargetPlatform::Android => true,
        _ => false,
    };
    PluginPlan { winit: !mobile, default_window_plugin: mobile, vulkan_only: android, android_asset_io: android }
}

/// How the app is created for the target platform.
pub fn app_setup(platform: TargetPlatform) -> (setup: AppSetup)
    ensures
        setup == spec_app_setup(platform),
{
    let plugins = configure_plugins(platform);
    let mobile = !plugins.winit;
    AppSetup {
        android_asset_manager: plugins.android_asset_io,
        plugins,
        app_view_plugin: mobile,
        finish_plugins: mobile,
    }
}

/// On every platform exactly one of winit and the native view drives the
/// window, and the Android-only pieces (asset manager, asset reader, Vulkan)
/// come and go together.
pub proof fn lemma_one_window_driver(platform: TargetPlatform)
    ensures
        spec_app_setup(platform).plugins.winit != spec_app_setup(platform).app_view_plugin,
        spec_app_setup(platform).app_view_plugin == spec_app_setup(platform).finish_plugins,
        spec_app_setup(platform).android_asset_manager == spec_app_setup(platform).plugins.android_asset_io,
        spec_app_setup(platform).plugins.android_asset_io == spec_app_setup(platform).plugins.vulkan_only,
        spec_app_setup(platform).android_asset_manager ==> spec_app_setup(platform).app_view_plugin,
{
}

} // verus!
