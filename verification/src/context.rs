//! Where the build tooling puts its inputs and artifacts.
//!
//! Every artifact lives under `<target>/wrac` at a stable path, so that later
//! steps (install, validate, launch) never have to search for build outputs.
use vstd::prelude::*;

use crate::paths::JoinedPath;

verus! {

/// Operating system that the artifacts are built for.
#[derive(Debug, Clone, Copy, PartialEq, Eq, Structural)]
pub enum Platform {
    Macos,
    Windows,
    Linux,
}

/// Names that a build profile (debug or release) gives to its directories.
pub struct BuildProfile {
    /// Directory that cargo uses for the profile under the target directory.
    pub cargo_dir: String,
    /// Directory of the profile's artifacts under the plugin and standalone folders.
    pub artifact_dir: String,
    /// Suffix of the profile's CMake build directories.
    pub cmake_suffix: String,
}

/// Identity of the plugin product, as its manifest declares it.
pub struct PluginMetadata {
    pub clap_bundle_name: String,
    pub vst3_bundle_name: String,
    pub au_bundle_name: String,
    pub standalone_name: String,
}

/// Paths and identity that every build step shares.
pub struct Context {
    pub root: JoinedPath,
    pub platform: Platform,
    pub target_dir: JoinedPath,
    pub wrapper_dir: JoinedPath,
    pub metadata: PluginMetadata,
    /// File name that the platform gives to the plugin's dynamic library.
    pub dynamic_library_name: String,
}

/// `path` with `segments` joined at its end, in order.
pub open spec fn spec_joined(
    path: (Seq<char>, Seq<Seq<char>>),
    segments: Seq<Seq<char>>,
) -> (Seq<char>, Seq<Seq<char>>) {
    (path.0, path.1 + segments)
}

/// File name of the standalone application on a platform.
pub open spec fn spec_standalone_file_name(platform: Platform, standalone_name: Seq<char>) -> Seq<
    char,
> {
    match platform {
        Platform::Macos => standalone_name + ".app"@,
        Platform::Windows => standalone_name + ".exe"@,
        Platform::Linux => standalone_name,
    }
}

/// `<target>/wrac`.
pub open spec fn spec_wrac_dir(ctx: &Context) -> (Seq<char>, Seq<Seq<char>>) {
    spec_joined(ctx.target_dir@, seq!["wrac"@])
}

/// `<target>/wrac/plugins/<artifact dir>`.
pub open spec fn spec_plugins_dir(ctx: &Context, profile: &BuildProfile) -> (Seq<char>, Seq<Seq<char>>) {
    spec_joined(spec_wrac_dir(ctx), seq!["plugins"@, profile.artifact_dir@])
}

/// `<target>/wrac/standalone/<artifact dir>`.
pub open spec fn spec_standalone_dir(ctx: &Context, profile: &BuildProfile) -> (Seq<char>, Seq<Seq<char>>) {
    spec_joined(spec_wrac_dir(ctx), seq!["standalone"@, profile.artifact_dir@])
}

/// `<target>/wrac/cmake/<purpose>-<cmake suffix>`.
pub open spec fn spec_cmake_dir(ctx: &Context, purpose: Seq<char>, profile: &BuildProfile) -> (Seq<char>, Seq<Seq<char>>) {
    spec_joined(spec_wrac_dir(ctx), seq!["cmake"@, purpose + "-"@ + profile.cmake_suffix@])
}

/// A bundle named `name` in the plugins directory of a profile.
pub open spec fn spec_bundle(ctx: &Context, profile: &BuildProfile, name: Seq<char>) -> (Seq<char>, Seq<Seq<char>>) {
    spec_joined(spec_plugins_dir(ctx, profile), seq![name])
}

/// The standalone application of a profile.
pub open spec fn spec_standalone_artifact(ctx: &Context, profile: &BuildProfile) -> (Seq<char>, Seq<Seq<char>>) {
    spec_joined(spec_standalone_dir(ctx, profile), seq![spec_standalone_file_name(ctx.platform, ctx.metadata.standalone_name@)])
}

/// `inner` is `outer` with zero or more segments joined to it.
pub open spec fn is_within(inner: (Seq<char>, Seq<Seq<char>>), outer: (Seq<char>, Seq<Seq<char>>)) -> bool {
    inner.0 == outer.0 && outer.1.len() <= inner.1.len() && inner.1.subrange(0, outer.1.len() as int) == outer.1
}

impl Context {
    /// A context rooted at the repository `root`. The target directory is
    /// `cargo_target_dir` when given (cargo may share one between workspaces),
    /// else `<root>/target`; the wrapper checkout is `clap_wrapper_dir` when given,
    /// else `<root>/clap_wrapper_builder`.
    pub fn new(
        root: JoinedPath,
        cargo_target_dir: Option<JoinedPath>,
        clap_wrapper_dir: Option<JoinedPath>,
        metadata: PluginMetadata,
        platform: Platform,
        dynamic_library_name: String,
    ) -> (ctx: Context)
        ensures
            ctx.root@ == root@,
            ctx.platform == platform,
            ctx.metadata == metadata,
            ctx.dynamic_library_name == dynamic_library_name,
            ctx.target_dir@ == match cargo_target_dir {
                Some(dir) => dir@,
                None => spec_joined(root@, seq!["target"@]),
            },
            ctx.wrapper_dir@ == match clap_wrapper_dir {
                Some(dir) => dir@,
                None => spec_joined(root@, seq!["clap_wrapper_builder"@]),
            },
    {
        let target_dir = match cargo_target_dir {
            Some(dir) => dir,
            None => root.join("target"),
        };
        let wrapper_dir = match clap_wrapper_dir {
            Some(dir) => dir,
            None => root.join("clap_wrapper_builder"),
        };
        proof {
            assert(seq![].push("target"@) =~= seq!["target"@]);
            assert(root@.1.push("target"@) =~= root@.1 + seq!["target"@]);
            assert(root@.1.push("clap_wrapper_builder"@) =~= root@.1 + seq!["clap_wrapper_builder"@]);
        }
        Context { root, platform, target_dir, wrapper_dir, metadata, dynamic_library_name }
    }

    /// `<root>/src-gui`: sources of the WebView frontend.
    pub fn gui_dir(&self) -> (p: JoinedPath)
        ensures
            p@ == spec_joined(self.root@, seq!["src-gui"@]),
    {
        let p = self.root.join("src-gui");
        assert(p@.1 =~= self.root@.1 + seq!["src-gui"@]);
        p
    }

    /// `<root>/src-plugin/Cargo.toml`: the plugin manifest, source of its identity.
    pub fn plugin_manifest(&self) -> (p: JoinedPath)
        ensures
            p@ == spec_joined(self.root@, seq!["src-plugin"@, "Cargo.toml"@]),
    {
        let p = self.root.join("src-plugin").join("Cargo.toml");
        assert(p@.1 =~= self.root@.1 + seq!["src-plugin"@, "Cargo.toml"@]);
        p
    }

    /// `<target>/<cargo profile dir>`: where cargo puts the profile's outputs.
    pub fn cargo_profile_dir(&self, profile: &BuildProfile) -> (p: JoinedPath)
        ensures
            p@ == spec_joined(self.target_dir@, seq![profile.cargo_dir@]),
    {
        let p = self.target_dir.join(profile.cargo_dir.as_str());
        assert(p@.1 =~= self.target_dir@.1 + seq![profile.cargo_dir@]);
        p
    }

    /// `<target>/wrac`: root of every artifact of the build tooling.
    pub fn wrac_dir(&self) -> (p: JoinedPath)
        ensures
            p@ == spec_wrac_dir(self),
    {
        let p = self.target_dir.join("wrac");
        assert(p@.1 =~= self.target_dir@.1 + seq!["wrac"@]);
        p
    }

    /// `<target>/wrac/plugins/<artifact dir>`: the plugin bundles of a profile.
    pub fn plugins_dir(&self, profile: &BuildProfile) -> (p: JoinedPath)
        ensures
            p@ == spec_plugins_dir(self, profile),
    {
        let p = self.wrac_dir().join("plugins").join(profile.artifact_dir.as_str());
        assert(p@.1 =~= self.target_dir@.1 + seq!["wrac"@, "plugins"@, profile.artifact_dir@]);
        p
    }

    /// `<target>/wrac/cmake/<purpose>-<cmake suffix>`: a short, stable CMake build
    /// directory for one purpose and profile.
    pub fn cmake_dir(&self, purpose: &str, profile: &BuildProfile) -> (p: JoinedPath)
        ensures
            p@ == spec_cmake_dir(self, purpose@, profile),
    {
        let mut name = purpose.to_owned();
        name.append("-");
        name.append(profile.cmake_suffix.as_str());
        let p = self.wrac_dir().join("cmake").join(name.as_str());
        assert(p@.1 =~= self.target_dir@.1 + seq![
            "wrac"@,
            "cmake"@,
            purpose@ + "-"@ + profile.cmake_suffix@,
        ]);
        p
    }

    /// `<target>/wrac/standalone/<artifact dir>`: the standalone app of a profile.
    pub fn standalone_dir(&self, profile: &BuildProfile) -> (p: JoinedPath)
        ensures
            p@ == spec_standalone_dir(self, profile),
    {
        let p = self.wrac_dir().join("standalone").join(profile.artifact_dir.as_str());
        assert(p@.1 =~= self.target_dir@.1 + seq!["wrac"@, "standalone"@, profile.artifact_dir@]);
        p
    }

    /// The CLAP bundle of a profile, in its plugins directory.
    pub fn clap_bundle(&self, profile: &BuildProfile) -> (p: JoinedPath)
        ensures
            p@ == spec_bundle(self, profile, self.metadata.clap_bundle_name@),
    {
        let p = self.plugins_dir(profile).join(self.metadata.clap_bundle_name.as_str());
        assert(p@.1 =~= self.target_dir@.1 + seq![
            "wrac"@,
            "plugins"@,
            profile.artifact_dir@,
            self.metadata.clap_bundle_name@,
        ]);
        p
    }

    /// The VST3 bundle of a profile, in its plugins directory.
    pub fn vst3_bundle(&self, profile: &BuildProfile) -> (p: JoinedPath)
        ensures
            p@ == spec_bundle(self, profile, self.metadata.vst3_bundle_name@),
    {
        let p = self.plugins_dir(profile).join(self.metadata.vst3_bundle_name.as_str());
        assert(p@.1 =~= self.target_dir@.1 + seq![
            "wrac"@,
            "plugins"@,
            profile.artifact_dir@,
            self.metadata.vst3_bundle_name@,
        ]);
        p
    }

    /// The AU bundle of a profile, in its plugins directory.
    pub fn au_bundle(&self, profile: &BuildProfile) -> (p: JoinedPath)
        ensures
            p@ == spec_bundle(self, profile, self.metadata.au_bundle_name@),
    {
        let p = self.plugins_dir(profile).join(self.metadata.au_bundle_name.as_str());
        assert(p@.1 =~= self.target_dir@.1 + seq![
            "wrac"@,
            "plugins"@,
            profile.artifact_dir@,
            self.metadata.au_bundle_name@,
        ]);
        p
    }

    /// The standalone application of a profile: `<name>.app` on macOS,
    /// `<name>.exe` on Windows and `<name>` on Linux.
    pub fn standalone_artifact(&self, profile: &BuildProfile) -> (p: JoinedPath)
        ensures
            p@ == spec_standalone_artifact(self, profile),
    {
        let mut filename = self.metadata.standalone_name.clone();
        match self.platform {
            Platform::Macos => filename.append(".app"),
            Platform::Windows => filename.append(".exe"),
            Platform::Linux => {},
        }
        let p = self.standalone_dir(profile).join(filename.as_str());
        assert(p@.1 =~= self.target_dir@.1 + seq![
            "wrac"@,
            "standalone"@,
            profile.artifact_dir@,
            spec_standalone_file_name(self.platform, self.metadata.standalone_name@),
        ]);
        p
    }

    /// The plugin's dynamic library, in cargo's directory for the profile.
    pub fn dynamic_library(&self, profile: &BuildProfile) -> (p: JoinedPath)
        ensures
            p@ == spec_joined(
                self.target_dir@,
                seq![profile.cargo_dir@, self.dynamic_library_name@],
            ),
    {
        let p = self.cargo_profile_dir(profile).join(self.dynamic_library_name.as_str());
        assert(p@.1 =~= self.target_dir@.1 + seq![profile.cargo_dir@, self.dynamic_library_name@]);
        p
    }
}

/// Law: every artifact of the build tooling lies at a stable path under
/// `<target>/wrac`, and every plugin bundle of a profile lies in that profile's
/// plugins directory.
pub proof fn lemma_artifacts_under_wrac_dir(ctx: &Context, profile: &BuildProfile, purpose: Seq<char>)
    ensures
        is_within(spec_plugins_dir(ctx, profile), spec_wrac_dir(ctx)),
        is_within(spec_standalone_dir(ctx, profile), spec_wrac_dir(ctx)),
        is_within(spec_cmake_dir(ctx, purpose, profile), spec_wrac_dir(ctx)),
        is_within(spec_standalone_artifact(ctx, profile), spec_standalone_dir(ctx, profile)),
        is_within(spec_bundle(ctx, profile, ctx.metadata.clap_bundle_name@), spec_plugins_dir(ctx, profile)),
        is_within(spec_bundle(ctx, profile, ctx.metadata.vst3_bundle_name@), spec_plugins_dir(ctx, profile)),
        is_within(spec_bundle(ctx, profile, ctx.metadata.au_bundle_name@), spec_plugins_dir(ctx, profile)),
{
    let w = spec_wrac_dir(ctx).1;
    let pd = spec_plugins_dir(ctx, profile).1;
    assert((w + seq!["plugins"@, profile.artifact_dir@]).subrange(0, w.len() as int) =~= w);
    assert((w + seq!["standalone"@, profile.artifact_dir@]).subrange(0, w.len() as int) =~= w);
    assert((w + seq!["cmake"@, purpose + "-"@ + profile.cmake_suffix@]).subrange(0, w.len() as int) =~= w);
    let sd = spec_standalone_dir(ctx, profile).1;
    assert((sd + seq![spec_standalone_file_name(ctx.platform, ctx.metadata.standalone_name@)]).subrange(0, sd.len() as int) =~= sd);
    assert((pd + seq![ctx.metadata.clap_bundle_name@]).subrange(0, pd.len() as int) =~= pd);
    assert((pd + seq![ctx.metadata.vst3_bundle_name@]).subrange(0, pd.len() as int) =~= pd);
    assert((pd + seq![ctx.metadata.au_bundle_name@]).subrange(0, pd.len() as int) =~= pd);
}

/// Law: profiles with different artifact directories never share a plugin
/// bundle or a standalone application, so a release build does not overwrite
/// the debug artifacts.
pub proof fn lemma_profiles_do_not_collide(ctx: &Context, first: &BuildProfile, second: &BuildProfile, name: Seq<char>)
    requires
        first.artifact_dir@ != second.artifact_dir@,
    ensures
        spec_bundle(ctx, first, name) != spec_bundle(ctx, second, name),
        spec_standalone_artifact(ctx, first) != spec_standalone_artifact(ctx, second),
{
    let w = spec_wrac_dir(ctx).1;
    let i: int = w.len() as int + 1;
    assert(spec_bundle(ctx, first, name).1[i] == first.artifact_dir@);
    assert(spec_bundle(ctx, second, name).1[i] == second.artifact_dir@);
    assert(spec_standalone_artifact(ctx, first).1[i] == first.artifact_dir@);
    assert(spec_standalone_artifact(ctx, second).1[i] == second.artifact_dir@);
}

/// Law: a bundle's path ends with its own name inside the profile's plugins
/// directory, so bundles with different names never share a path.
pub proof fn lemma_bundles_named_by_format(ctx: &Context, profile: &BuildProfile, first: Seq<char>, second: Seq<char>)
    ensures
        spec_bundle(ctx, profile, first).1.last() == first,
        spec_bundle(ctx, profile, first).1.len() == spec_plugins_dir(ctx, profile).1.len() + 1,
        first != second ==> spec_bundle(ctx, profile, first) != spec_bundle(ctx, profile, second),
{
    let b1 = spec_bundle(ctx, profile, first).1;
    let b2 = spec_bundle(ctx, profile, second).1;
    assert(b1.last() == first);
    assert(b2.last() == second);
}

} // verus!
