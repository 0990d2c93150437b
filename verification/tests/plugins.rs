use bevy_in_app::plugins::{app_setup, configure_plugins, AppSetup, PluginPlan, TargetPlatform};

#[test]
fn desktop_plugins() {
    assert_eq!(
        configure_plugins(TargetPlatform::Desktop),
        PluginPlan { winit: true, default_window_plugin: false, vulkan_only: false, android_asset_io: false }
    );
}

#[test]
fn ios_plugins() {
    assert_eq!(
        configure_plugins(TargetPlatform::Ios),
        PluginPlan { winit: false, default_window_plugin: true, vulkan_only: false, android_asset_io: false }
    );
}

#[test]
fn android_plugins() {
    assert_eq!(
        configure_plugins(TargetPlatform::Android),
        PluginPlan { winit: false, default_window_plugin: true, vulkan_only: true, android_asset_io: true }
    );
}

#[test]
fn app_setup_by_platform() {
    assert_eq!(
        app_setup(TargetPlatform::Android),
        AppSetup {
            android_asset_manager: true,
            plugins: configure_plugins(TargetPlatform::Android),
            app_view_plugin: true,
            finish_plugins: true,
        }
    );
    assert_eq!(
        app_setup(TargetPlatform::Ios),
        AppSetup {
            android_asset_manager: false,
            plugins: configure_plugins(TargetPlatform::Ios),
            app_view_plugin: true,
            finish_plugins: true,
        }
    );
    assert_eq!(
        app_setup(TargetPlatform::Desktop),
        AppSetup {
            android_asset_manager: false,
            plugins: configure_plugins(TargetPlatform::Desktop),
            app_view_plugin: false,
            finish_plugins: false,
        }
    );
}

#[test]
fn one_window_driver_on_every_platform() {
    for p in [TargetPlatform::Android, TargetPlatform::Ios, TargetPlatform::Desktop] {
        let s = app_setup(p);
        assert_ne!(s.plugins.winit, s.app_view_plugin);
        assert_eq!(s.app_view_plugin, s.finish_plugins);
        assert_eq!(s.android_asset_manager, s.plugins.android_asset_io);
    }
}
