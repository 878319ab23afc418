use wrac_gain_plugin::context::{BuildProfile, Context, Platform, PluginMetadata};
use wrac_gain_plugin::gui::{default_gui_size, gui_size_limits, GuiSize, ResizeDragTracker};
use wrac_gain_plugin::paths::JoinedPath;

fn segments(path: &JoinedPath) -> Vec<&str> {
    path.segments.iter().map(|s| s.as_str()).collect()
}

fn metadata() -> PluginMetadata {
    PluginMetadata {
        clap_bundle_name: "Gain.clap".to_string(),
        vst3_bundle_name: "Gain.vst3".to_string(),
        au_bundle_name: "Gain.component".to_string(),
        standalone_name: "Gain".to_string(),
    }
}

fn debug() -> BuildProfile {
    BuildProfile {
        cargo_dir: "debug".to_string(),
        artifact_dir: "debug".to_string(),
        cmake_suffix: "debug".to_string(),
    }
}

fn release() -> BuildProfile {
    BuildProfile {
        cargo_dir: "release".to_string(),
        artifact_dir: "release".to_string(),
        cmake_suffix: "release".to_string(),
    }
}

fn context(platform: Platform) -> Context {
    Context::new(JoinedPath::new("/repo"), None, None, metadata(), platform, "libgain.dylib".to_string())
}

#[test]
fn default_directories_are_under_root() {
    let ctx = context(Platform::Linux);
    assert_eq!(ctx.target_dir.base, "/repo");
    assert_eq!(segments(&ctx.target_dir), vec!["target"]);
    assert_eq!(segments(&ctx.wrapper_dir), vec!["clap_wrapper_builder"]);
    assert_eq!(segments(&ctx.gui_dir()), vec!["src-gui"]);
    assert_eq!(segments(&ctx.plugin_manifest()), vec!["src-plugin", "Cargo.toml"]);
}

#[test]
fn overridden_directories_are_taken_as_given() {
    let ctx = Context::new(
        JoinedPath::new("/repo"),
        Some(JoinedPath::new("/cache/target")),
        Some(JoinedPath::new("/sdk/wrapper")),
        metadata(),
        Platform::Windows,
        "gain.dll".to_string(),
    );
    assert_eq!(ctx.target_dir.base, "/cache/target");
    assert!(ctx.target_dir.segments.is_empty());
    assert_eq!(ctx.wrapper_dir.base, "/sdk/wrapper");
    assert_eq!(segments(&ctx.wrac_dir()), vec!["wrac"]);
}

#[test]
fn artifacts_have_stable_paths() {
    let ctx = context(Platform::Macos);
    let profile = release();
    assert_eq!(segments(&ctx.cargo_profile_dir(&profile)), vec!["target", "release"]);
    assert_eq!(segments(&ctx.wrac_dir()), vec!["target", "wrac"]);
    assert_eq!(segments(&ctx.plugins_dir(&profile)), vec!["target", "wrac", "plugins", "release"]);
    assert_eq!(segments(&ctx.cmake_dir("vst3", &profile)), vec!["target", "wrac", "cmake", "vst3-release"]);
    assert_eq!(segments(&ctx.standalone_dir(&profile)), vec!["target", "wrac", "standalone", "release"]);
    assert_eq!(segments(&ctx.clap_bundle(&profile)), vec!["target", "wrac", "plugins", "release", "Gain.clap"]);
    assert_eq!(segments(&ctx.vst3_bundle(&profile)), vec!["target", "wrac", "plugins", "release", "Gain.vst3"]);
    assert_eq!(segments(&ctx.au_bundle(&profile)), vec!["target", "wrac", "plugins", "release", "Gain.component"]);
    assert_eq!(segments(&ctx.dynamic_library(&profile)), vec!["target", "release", "libgain.dylib"]);
}

#[test]
fn standalone_file_name_follows_platform() {
    let profile = debug();
    assert_eq!(segments(&context(Platform::Macos).standalone_artifact(&profile)).last(), Some(&"Gain.app"));
    assert_eq!(segments(&context(Platform::Windows).standalone_artifact(&profile)).last(), Some(&"Gain.exe"));
    assert_eq!(segments(&context(Platform::Linux).standalone_artifact(&profile)).last(), Some(&"Gain"));
}

#[test]
fn profiles_do_not_collide() {
    let ctx = context(Platform::Linux);
    assert_ne!(segments(&ctx.clap_bundle(&debug())), segments(&ctx.clap_bundle(&release())));
    assert_ne!(
        segments(&ctx.standalone_artifact(&debug())),
        segments(&ctx.standalone_artifact(&release()))
    );
}

#[test]
fn join_appends_one_segment() {
    let base = JoinedPath::new("/a");
    let joined = base.join("b").join("c d");
    assert_eq!(joined.base, "/a");
    assert_eq!(segments(&joined), vec!["b", "c d"]);
    assert!(base.segments.is_empty());
}

#[test]
fn gui_default_size_within_limits() {
    let size = default_gui_size();
    let limits = gui_size_limits();
    assert_eq!(size, GuiSize { width: 360, height: 360 });
    assert_eq!(limits.min, GuiSize { width: 280, height: 280 });
    assert_eq!(limits.max, GuiSize { width: 720, height: 720 });
    assert!(limits.min.width <= size.width && size.width <= limits.max.width);
    assert!(limits.min.height <= size.height && size.height <= limits.max.height);
}

#[test]
fn resize_drag_lifecycle() {
    let mut tracker = ResizeDragTracker::new();
    assert_eq!(tracker.active_drag(), None);
    assert!(!tracker.follows_drag(Some(1)));
    assert!(tracker.begin_drag(1, true));
    assert!(tracker.follows_drag(Some(1)));
    assert!(!tracker.follows_drag(Some(2)));
    assert!(!tracker.follows_drag(None));
    tracker.end_drag(2);
    assert_eq!(tracker.active_drag(), Some(1));
    tracker.end_drag(1);
    assert_eq!(tracker.active_drag(), None);
}

#[test]
fn resize_drag_without_pointer_is_refused() {
    let mut tracker = ResizeDragTracker::new();
    assert!(tracker.begin_drag(3, true));
    assert!(!tracker.begin_drag(4, false));
    assert_eq!(tracker.active_drag(), Some(3));
    assert!(tracker.begin_drag(5, true));
    assert_eq!(tracker.active_drag(), Some(5));
}
