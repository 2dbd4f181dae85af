use uzumaki::plugin::{
    collect_hook_failures, register_builtin_plugins, CoreRuntimePlugin, NativePlugin, PluginCapability,
    PluginLifecycleContext, PluginManifest, PluginPermissionPolicy, PluginPolicySection,
    PluginRegistry, RegisterError, UzumakiPluginPolicyConfig,
};

struct TestPlugin {
    manifest: PluginManifest,
    fail_start: bool,
}

impl NativePlugin for TestPlugin {
    fn manifest_view(&self) -> PluginManifest {
        self.manifest.clone()
    }

    fn manifest(&self) -> &PluginManifest {
        &self.manifest
    }

    fn start_fails(&self, _ctx: &PluginLifecycleContext) -> bool {
        self.fail_start
    }

    fn on_runtime_start(&mut self, _ctx: &PluginLifecycleContext) -> Result<(), anyhow::Error> {
        if self.fail_start {
            Err(anyhow::Error::msg("boom"))
        } else {
            Ok(())
        }
    }

    fn on_runtime_stop(&mut self) -> Result<(), anyhow::Error> {
        Ok(())
    }
}

fn plugin(name: &str, caps: Vec<PluginCapability>) -> TestPlugin {
    TestPlugin {
        manifest: PluginManifest {
            name: name.to_string(),
            version: "1.0.0".to_string(),
            capabilities: caps,
        },
        fail_start: false,
    }
}

fn names(v: &[&str]) -> Vec<String> {
    v.iter().map(|s| s.to_string()).collect()
}

#[test]
fn capability_names_round_trip() {
    let all = [
        PluginCapability::Camera,
        PluginCapability::Bluetooth,
        PluginCapability::FilesystemWatch,
        PluginCapability::MediaDecode,
        PluginCapability::MediaPlayback,
        PluginCapability::Notifications,
        PluginCapability::Tray,
        PluginCapability::NativeMenu,
        PluginCapability::Webview,
        PluginCapability::GpuSharedTextures,
    ];
    for cap in all {
        assert_eq!(PluginCapability::parse(cap.as_str()), Ok(cap));
    }
    assert_eq!(PluginCapability::MediaDecode.as_str(), "mediaDecode");
    assert_eq!(PluginCapability::GpuSharedTextures.as_str(), "gpuSharedTextures");
}

#[test]
fn unknown_capability_is_an_error() {
    assert_eq!(
        PluginCapability::parse("teleport"),
        Err("unknown plugin capability: teleport".to_string())
    );
    assert_eq!(
        "camera".parse::<PluginCapability>(),
        Ok(PluginCapability::Camera)
    );
}

#[test]
fn default_policy_allows_everything() {
    let p = PluginPermissionPolicy::allow_all();
    assert!(p.is_allowed(PluginCapability::Camera));
    assert!(p.is_allowed(PluginCapability::Tray));
    let info = p.info();
    assert_eq!(info.source, "default");
    assert!(info.allow.is_empty());
    assert!(info.deny.is_empty());
}

#[test]
fn deny_wins_over_allow() {
    let (p, unknown_allow, unknown_deny) = PluginPermissionPolicy::from_config(
        "cfg".to_string(),
        &names(&["bluetooth", "mediaDecode", "camera"]),
        &names(&["camera"]),
    );
    assert!(p.is_allowed(PluginCapability::Bluetooth));
    assert!(p.is_allowed(PluginCapability::MediaDecode));
    assert!(!p.is_allowed(PluginCapability::Camera));
    assert!(!p.is_allowed(PluginCapability::Tray));
    assert!(unknown_allow.is_empty());
    assert!(unknown_deny.is_empty());
    let info = p.info();
    assert_eq!(info.allow, vec![PluginCapability::Bluetooth, PluginCapability::MediaDecode]);
    assert_eq!(info.deny, vec![PluginCapability::Camera]);
}

#[test]
fn unknown_names_are_reported_and_ignored() {
    let (p, unknown_allow, unknown_deny) = PluginPermissionPolicy::from_config(
        "cfg".to_string(),
        &names(&["warp", "tray"]),
        &names(&["nope"]),
    );
    assert_eq!(unknown_allow, names(&["warp"]));
    assert_eq!(unknown_deny, names(&["nope"]));
    assert!(p.is_allowed(PluginCapability::Tray));
    assert!(!p.is_allowed(PluginCapability::Camera));
}

#[test]
fn allow_list_emptied_by_deny_allows_the_rest() {
    let (p, _, _) = PluginPermissionPolicy::from_config(
        "cfg".to_string(),
        &names(&["camera"]),
        &names(&["camera"]),
    );
    assert!(!p.is_allowed(PluginCapability::Camera));
    assert!(p.is_allowed(PluginCapability::Tray));
    assert!(p.info().allow.is_empty());
}

#[test]
fn parsed_config_without_plugins_allows_all() {
    let (p, a, d) = PluginPermissionPolicy::from_parsed(
        "x/uzumaki.config.json".to_string(),
        &UzumakiPluginPolicyConfig { plugins: None },
    );
    assert_eq!(p.info().source, "default");
    assert!(p.is_allowed(PluginCapability::Camera));
    assert!(a.is_empty() && d.is_empty());
    let (p, _, _) = PluginPermissionPolicy::from_parsed(
        "x/uzumaki.config.json".to_string(),
        &UzumakiPluginPolicyConfig {
            plugins: Some(PluginPolicySection { allow: names(&["tray"]), deny: vec![] }),
        },
    );
    assert_eq!(p.info().source, "x/uzumaki.config.json");
    assert!(!p.is_allowed(PluginCapability::Camera));
}

#[test]
fn register_grants_requested_capabilities() {
    let mut reg = PluginRegistry::with_default_policy();
    assert!(reg
        .register(plugin("cam", vec![PluginCapability::Camera, PluginCapability::Tray]))
        .is_ok());
    assert!(reg.has_capability(PluginCapability::Camera));
    assert!(reg.has_capability(PluginCapability::Tray));
    assert!(!reg.has_capability(PluginCapability::Webview));
    let manifests = reg.manifests();
    assert_eq!(manifests.len(), 1);
    assert_eq!(manifests[0].name, "cam");
    assert_eq!(manifests[0].capabilities, vec![PluginCapability::Camera, PluginCapability::Tray]);
}

#[test]
fn register_refuses_blank_and_duplicate_names() {
    let mut reg = PluginRegistry::with_default_policy();
    let err = reg.register(plugin("   ", vec![])).unwrap_err();
    assert!(matches!(err, RegisterError::EmptyName));
    assert_eq!(err.message(), "plugin name cannot be empty");
    assert!(reg.register(plugin("a", vec![])).is_ok());
    let err = reg.register(plugin("a", vec![])).unwrap_err();
    assert_eq!(err.message(), "plugin 'a' already registered");
    assert_eq!(reg.manifests().len(), 1);
}

#[test]
fn denied_capability_refuses_plugin_keeps_earlier_grants() {
    let (policy, _, _) = PluginPermissionPolicy::from_config(
        "cfg".to_string(),
        &names(&[]),
        &names(&["camera"]),
    );
    let mut reg = PluginRegistry::new(policy);
    let err = reg
        .register(plugin(
            "media",
            vec![PluginCapability::MediaDecode, PluginCapability::Camera, PluginCapability::Tray],
        ))
        .unwrap_err();
    assert_eq!(
        err.message(),
        "plugin 'media' requested denied capability 'camera'; update plugins.allow/deny in uzumaki.config.json"
    );
    assert!(reg.has_capability(PluginCapability::MediaDecode));
    assert!(!reg.has_capability(PluginCapability::Tray));
    assert_eq!(reg.denied_capabilities(), vec![PluginCapability::Camera]);
    assert!(reg.manifests().is_empty());
}

#[test]
fn require_capability_reports_why() {
    let (policy, _, _) = PluginPermissionPolicy::from_config(
        "cfg".to_string(),
        &names(&[]),
        &names(&["camera"]),
    );
    let mut reg = PluginRegistry::new(policy);
    let _ = reg.register(plugin("c", vec![PluginCapability::Camera]));
    assert!(reg.register(plugin("t", vec![PluginCapability::Tray])).is_ok());
    assert!(reg.require_capability(PluginCapability::Tray).is_ok());
    let err = reg.require_capability(PluginCapability::Camera).unwrap_err();
    assert!(err.denied);
    assert_eq!(
        err.message(),
        "required capability 'camera' unavailable: denied by policy"
    );
    let err = reg.require_capability(PluginCapability::Webview).unwrap_err();
    assert!(!err.denied);
    assert_eq!(
        err.message(),
        "required capability 'webview' unavailable: no loaded plugin provides this capability"
    );
}

#[test]
fn builtin_plugin_registers_once() {
    let mut reg = PluginRegistry::with_default_policy();
    assert!(register_builtin_plugins(&mut reg, "0.1.0").is_ok());
    let m = reg.manifests();
    assert_eq!(m.len(), 1);
    assert_eq!(m[0].name, "uzumaki.core");
    assert_eq!(m[0].version, "0.1.0");
    assert!(m[0].capabilities.is_empty());
    let err = register_builtin_plugins(&mut reg, "0.1.0").unwrap_err();
    assert_eq!(err.message(), "plugin 'uzumaki.core' already registered");
    assert_eq!(CoreRuntimePlugin::new("2.0").manifest().version, "2.0");
}

#[test]
fn failing_start_hooks_are_reported_by_name() {
    let mut reg = PluginRegistry::with_default_policy();
    assert!(reg.register(plugin("ok", vec![])).is_ok());
    let failing: Box<dyn NativePlugin> = Box::new(TestPlugin {
        manifest: PluginManifest {
            name: "bad".to_string(),
            version: "1".to_string(),
            capabilities: vec![],
        },
        fail_start: true,
    });
    assert!(reg.register(failing).is_ok());
    let ctx = PluginLifecycleContext {
        app_root: std::path::PathBuf::from("/app"),
        entrypoint: std::path::PathBuf::from("/app/index.tsx"),
    };
    let failures = reg.on_runtime_start(&ctx);
    assert_eq!(failures.len(), 1);
    assert_eq!(failures[0].plugin, "bad");
    assert_eq!(failures[0].error.to_string(), "boom");
    assert!(reg.on_runtime_stop().is_empty());
    assert_eq!(reg.manifests().len(), 2);
}

#[test]
fn hook_failures_keep_order_and_names() {
    let names = vec!["a".to_string(), "b".to_string(), "c".to_string()];
    let outcomes = vec![
        Err(anyhow::Error::msg("first")),
        Ok(()),
        Err(anyhow::Error::msg("third")),
    ];
    let failures = collect_hook_failures(&names, outcomes);
    assert_eq!(failures.len(), 2);
    assert_eq!((failures[0].plugin.as_str(), failures[0].error.to_string()), ("a", "first".to_string()));
    assert_eq!((failures[1].plugin.as_str(), failures[1].error.to_string()), ("c", "third".to_string()));
    assert!(collect_hook_failures(&names, vec![Ok(()), Ok(()), Ok(())]).is_empty());
}

#[test]
fn registrations_keep_the_policy_and_grant_registered_capabilities() {
    let (policy, _, _) = PluginPermissionPolicy::from_config(
        "uzumaki.config.json".to_string(),
        &names(&["camera", "bluetooth"]),
        &names(&["camera"]),
    );
    let before = policy.info();
    let mut reg = PluginRegistry::new(policy);
    assert!(reg.register(plugin("bt", vec![PluginCapability::Bluetooth])).is_ok());
    assert!(reg.register(plugin("cam", vec![PluginCapability::Camera])).is_err());
    assert!(reg.register(plugin("bt", vec![])).is_err());
    assert!(reg.register(plugin("  ", vec![])).is_err());
    let after = reg.policy_info();
    assert_eq!((after.source, after.allow, after.deny), (before.source, before.allow, before.deny));
    let manifests = reg.manifests();
    assert_eq!(manifests.len(), 1);
    assert_eq!(manifests[0].name, "bt");
    for m in &manifests {
        for c in &m.capabilities {
            assert!(reg.has_capability(*c));
        }
    }
}
