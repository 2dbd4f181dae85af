use vstd::prelude::*;

use crate::textkit::{str_eq, trim_end, trim_start, trim_str};

verus! {

/// Capabilities a plugin may request.
///
/// These values are part of the plugin contract: app-level permission
/// policies name them.
#[derive(Debug, Clone, Copy, PartialEq, Eq, Structural)]
pub enum PluginCapability {
    Camera,
    Bluetooth,
    FilesystemWatch,
    MediaDecode,
    MediaPlayback,
    Notifications,
    Tray,
    NativeMenu,
    Webview,
    GpuSharedTextures,
}

/// The configuration name of a capability.
pub open spec fn capability_name(c: PluginCapability) -> Seq<char> {
    match c {
        PluginCapability::Camera => "camera"@,
        PluginCapability::Bluetooth => "bluetooth"@,
        PluginCapability::FilesystemWatch => "filesystemWatch"@,
        PluginCapability::MediaDecode => "mediaDecode"@,
        PluginCapability::MediaPlayback => "mediaPlayback"@,
        PluginCapability::Notifications => "notifications"@,
        PluginCapability::Tray => "tray"@,
        PluginCapability::NativeMenu => "nativeMenu"@,
        PluginCapability::Webview => "webview"@,
        PluginCapability::GpuSharedTextures => "gpuSharedTextures"@,
    }
}

/// The capability a configuration name names.
pub open spec fn capability_named(t: Seq<char>) -> Option<PluginCapability> {
    if t == "camera"@ {
        Some(PluginCapability::Camera)
    } else if t == "bluetooth"@ {
        Some(PluginCapability::Bluetooth)
    } else if t == "filesystemWatch"@ {
        Some(PluginCapability::FilesystemWatch)
    } else if t == "mediaDecode"@ {
        Some(PluginCapability::MediaDecode)
    } else if t == "mediaPlayback"@ {
        Some(PluginCapability::MediaPlayback)
    } else if t == "notifications"@ {
        Some(PluginCapability::Notifications)
    } else if t == "tray"@ {
        Some(PluginCapability::Tray)
    } else if t == "nativeMenu"@ {
        Some(PluginCapability::NativeMenu)
    } else if t == "webview"@ {
        Some(PluginCapability::Webview)
    } else if t == "gpuSharedTextures"@ {
        Some(PluginCapability::GpuSharedTextures)
    } else {
        None
    }
}

/// Position of a capability in a fixed numbering.
pub open spec fn capability_index(c: PluginCapability) -> int {
    match c {
        PluginCapability::Camera => 0,
        PluginCapability::Bluetooth => 1,
        PluginCapability::FilesystemWatch => 2,
        PluginCapability::MediaDecode => 3,
        PluginCapability::MediaPlayback => 4,
        PluginCapability::Notifications => 5,
        PluginCapability::Tray => 6,
        PluginCapability::NativeMenu => 7,
        PluginCapability::Webview => 8,
        PluginCapability::GpuSharedTextures => 9,
    }
}

/// All capabilities, ordered by name.
pub open spec fn capabilities_by_name() -> Seq<PluginCapability> {
    seq![
        PluginCapability::Bluetooth,
        PluginCapability::Camera,
        PluginCapability::FilesystemWatch,
        PluginCapability::GpuSharedTextures,
        PluginCapability::MediaDecode,
        PluginCapability::MediaPlayback,
        PluginCapability::NativeMenu,
        PluginCapability::Notifications,
        PluginCapability::Tray,
        PluginCapability::Webview,
    ]
}

/// Each capability is parsed back from its own name: names are distinct.
pub proof fn law_capability_name_roundtrip(c: PluginCapability)
    ensures
        capability_named(capability_name(c)) == Some(c),
{
    match c {
        PluginCapability::Camera => {
            reveal_strlit("camera");
        },
        PluginCapability::Bluetooth => {
            reveal_strlit("bluetooth");
            reveal_strlit("camera");
            assert("bluetooth"@.len() != "camera"@.len());
        },
        PluginCapability::FilesystemWatch => {
            reveal_strlit("filesystemWatch");
            reveal_strlit("camera");
            assert("filesystemWatch"@.len() != "camera"@.len());
            reveal_strlit("bluetooth");
            assert("filesystemWatch"@.len() != "bluetooth"@.len());
        },
        PluginCapability::MediaDecode => {
            reveal_strlit("mediaDecode");
            reveal_strlit("camera");
            assert("mediaDecode"@.len() != "camera"@.len());
            reveal_strlit("bluetooth");
            assert("mediaDecode"@.len() != "bluetooth"@.len());
            reveal_strlit("filesystemWatch");
            assert("mediaDecode"@.len() != "filesystemWatch"@.len());
        },
        PluginCapability::MediaPlayback => {
            reveal_strlit("mediaPlayback");
            reveal_strlit("camera");
            assert("mediaPlayback"@.len() != "camera"@.len());
            reveal_strlit("bluetooth");
            assert("mediaPlayback"@.len() != "bluetooth"@.len());
            reveal_strlit("filesystemWatch");
            assert("mediaPlayback"@.len() != "filesystemWatch"@.len());
            reveal_strlit("mediaDecode");
            assert("mediaPlayback"@.len() != "mediaDecode"@.len());
        },
        PluginCapability::Notifications => {
            reveal_strlit("notifications");
            reveal_strlit("camera");
            assert("notifications"@.len() != "camera"@.len());
            reveal_strlit("bluetooth");
            assert("notifications"@.len() != "bluetooth"@.len());
            reveal_strlit("filesystemWatch");
            assert("notifications"@.len() != "filesystemWatch"@.len());
            reveal_strlit("mediaDecode");
            assert("notifications"@.len() != "mediaDecode"@.len());
            reveal_strlit("mediaPlayback");
            assert("notifications"@[0] != "mediaPlayback"@[0]);
        },
        PluginCapability::Tray => {
            reveal_strlit("tray");
            reveal_strlit("camera");
            assert("tray"@.len() != "camera"@.len());
            reveal_strlit("bluetooth");
            assert("tray"@.len() != "bluetooth"@.len());
            reveal_strlit("filesystemWatch");
            assert("tray"@.len() != "filesystemWatch"@.len());
            reveal_strlit("mediaDecode");
            assert("tray"@.len() != "mediaDecode"@.len());
            reveal_strlit("mediaPlayback");
            assert("tray"@.len() != "mediaPlayback"@.len());
            reveal_strlit("notifications");
            assert("tray"@.len() != "notifications"@.len());
        },
        PluginCapability::NativeMenu => {
            reveal_strlit("nativeMenu");
            reveal_strlit("camera");
            assert("nativeMenu"@.len() != "camera"@.len());
            reveal_strlit("bluetooth");
            assert("nativeMenu"@.len() != "bluetooth"@.len());
            reveal_strlit("filesystemWatch");
            assert("nativeMenu"@.len() != "filesystemWatch"@.len());
            reveal_strlit("mediaDecode");
            assert("nativeMenu"@.len() != "mediaDecode"@.len());
            reveal_strlit("mediaPlayback");
            assert("nativeMenu"@.len() != "mediaPlayback"@.len());
            reveal_strlit("notifications");
            assert("nativeMenu"@.len() != "notifications"@.len());
            reveal_strlit("tray");
            assert("nativeMenu"@.len() != "tray"@.len());
        },
        PluginCapability::Webview => {
            reveal_strlit("webview");
            reveal_strlit("camera");
            assert("webview"@.len() != "camera"@.len());
            reveal_strlit("bluetooth");
            assert("webview"@.len() != "bluetooth"@.len());
            reveal_strlit("filesystemWatch");
            assert("webview"@.len() != "filesystemWatch"@.len());
            reveal_strlit("mediaDecode");
            assert("webview"@.len() != "mediaDecode"@.len());
            reveal_strlit("mediaPlayback");
            assert("webview"@.len() != "mediaPlayback"@.len());
            reveal_strlit("notifications");
            assert("webview"@.len() != "notifications"@.len());
            reveal_strlit("tray");
            assert("webview"@.len() != "tray"@.len());
            reveal_strlit("nativeMenu");
            assert("webview"@.len() != "nativeMenu"@.len());
        },
        PluginCapability::GpuSharedTextures => {
            reveal_strlit("gpuSharedTextures");
            reveal_strlit("camera");
            assert("gpuSharedTextures"@.len() != "camera"@.len());
            reveal_strlit("bluetooth");
            assert("gpuSharedTextures"@.len() != "bluetooth"@.len());
            reveal_strlit("filesystemWatch");
            assert("gpuSharedTextures"@.len() != "filesystemWatch"@.len());
            reveal_strlit("mediaDecode");
            assert("gpuSharedTextures"@.len() != "mediaDecode"@.len());
            reveal_strlit("mediaPlayback");
            assert("gpuSharedTextures"@.len() != "mediaPlayback"@.len());
            reveal_strlit("notifications");
            assert("gpuSharedTextures"@.len() != "notifications"@.len());
            reveal_strlit("tray");
            assert("gpuSharedTextures"@.len() != "tray"@.len());
            reveal_strlit("nativeMenu");
            assert("gpuSharedTextures"@.len() != "nativeMenu"@.len());
            reveal_strlit("webview");
            assert("gpuSharedTextures"@.len() != "webview"@.len());
        },
    }
}

impl PluginCapability {
    /// The configuration name.
    pub fn as_str(self) -> (s: &'static str)
        ensures
            s@ == capability_name(self),
    {
        match self {
            Self::Camera => "camera",
            Self::Bluetooth => "bluetooth",
            Self::FilesystemWatch => "filesystemWatch",
            Self::MediaDecode => "mediaDecode",
            Self::MediaPlayback => "mediaPlayback",
            Self::Notifications => "notifications",
            Self::Tray => "tray",
            Self::NativeMenu => "nativeMenu",
            Self::Webview => "webview",
            Self::GpuSharedTextures => "gpuSharedTextures",
        }
    }

    fn index(self) -> (i: usize)
        ensures
            i == capability_index(self),
    {
        match self {
            Self::Camera => 0,
            Self::Bluetooth => 1,
            Self::FilesystemWatch => 2,
            Self::MediaDecode => 3,
            Self::MediaPlayback => 4,
            Self::Notifications => 5,
            Self::Tray => 6,
            Self::NativeMenu => 7,
            Self::Webview => 8,
            Self::GpuSharedTextures => 9,
        }
    }

    /// Parses a configuration name; unknown names are an error whose
    /// message names them.
    pub fn parse(s: &str) -> (r: Result<Self, String>)
        ensures
            match r {
                Ok(c) => capability_named(s@) == Some(c),
                Err(msg) => capability_named(s@) is None && msg@ == "unknown plugin capability: "@ + s@,
            },
    {
        if str_eq(s, "camera") {
            Ok(Self::Camera)
        } else if str_eq(s, "bluetooth") {
            Ok(Self::Bluetooth)
        } else if str_eq(s, "filesystemWatch") {
            Ok(Self::FilesystemWatch)
        } else if str_eq(s, "mediaDecode") {
            Ok(Self::MediaDecode)
        } else if str_eq(s, "mediaPlayback") {
            Ok(Self::MediaPlayback)
        } else if str_eq(s, "notifications") {
            Ok(Self::Notifications)
        } else if str_eq(s, "tray") {
            Ok(Self::Tray)
        } else if str_eq(s, "nativeMenu") {
            Ok(Self::NativeMenu)
        } else if str_eq(s, "webview") {
            Ok(Self::Webview)
        } else if str_eq(s, "gpuSharedTextures") {
            Ok(Self::GpuSharedTextures)
        } else {
            let mut msg = String::from_str("unknown plugin capability: ");
            msg.append(s);
            Err(msg)
        }
    }
}

/// All capabilities, ordered by name.
pub fn all_capabilities_by_name() -> (v: Vec<PluginCapability>)
    ensures
        v@ == capabilities_by_name(),
{
    let v = vec![
        PluginCapability::Bluetooth,
        PluginCapability::Camera,
        PluginCapability::FilesystemWatch,
        PluginCapability::GpuSharedTextures,
        PluginCapability::MediaDecode,
        PluginCapability::MediaPlayback,
        PluginCapability::NativeMenu,
        PluginCapability::Notifications,
        PluginCapability::Tray,
        PluginCapability::Webview,
    ];
    assert(v@ =~= capabilities_by_name());
    v
}

// ── Capability sets ───────────────────────────────────────────────────────

/// A set of capabilities: one flag per capability.
#[derive(Clone, Copy, Debug)]
pub struct CapabilitySet {
    flags: [bool; 10],
}

impl View for CapabilitySet {
    type V = Set<PluginCapability>;

    closed spec fn view(&self) -> Set<PluginCapability> {
        Set::new(|c: PluginCapability| self.flags@[capability_index(c)])
    }
}

impl CapabilitySet {
    pub fn empty() -> (s: Self)
        ensures
            s@ == Set::<PluginCapability>::empty(),
    {
        let s = CapabilitySet { flags: [false; 10] };
        assert(s@ =~= Set::<PluginCapability>::empty());
        s
    }

    pub fn contains(&self, c: PluginCapability) -> (b: bool)
        ensures
            b == self@.contains(c),
    {
        self.flags[c.index()]
    }

    pub fn insert(&mut self, c: PluginCapability)
        ensures
            final(self)@ == old(self)@.insert(c),
    {
        let i = c.index();
        self.flags[i] = true;
        proof {
            assert forall|d: PluginCapability| #[trigger] final(self)@.contains(d) == old(self)@.insert(c).contains(d) by {
                if capability_index(d) == capability_index(c) {
                    assert(d == c);
                }
            }
            assert(final(self)@ =~= old(self)@.insert(c));
        }
    }

    pub fn remove(&mut self, c: PluginCapability)
        ensures
            final(self)@ == old(self)@.remove(c),
    {
        let i = c.index();
        self.flags[i] = false;
        proof {
            assert forall|d: PluginCapability| #[trigger] final(self)@.contains(d) == old(self)@.remove(c).contains(d) by {
                if capability_index(d) == capability_index(c) {
                    assert(d == c);
                }
            }
            assert(final(self)@ =~= old(self)@.remove(c));
        }
    }

    pub fn is_empty(&self) -> (b: bool)
        ensures
            b == (self@ == Set::<PluginCapability>::empty()),
    {
        let mut i: usize = 0;
        while i < 10
            invariant
                i <= 10,
                forall|j: int| 0 <= j < i ==> !self.flags@[j],
            decreases 10 - i,
        {
            if self.flags[i] {
                proof {
                    let c = index_capability(i as int);
                    assert(self@.contains(c));
                }
                return false;
            }
            i = i + 1;
        }
        assert(self@ =~= Set::<PluginCapability>::empty());
        true
    }

    /// The members, ordered by name.
    pub fn to_sorted_vec(&self) -> (v: Vec<PluginCapability>)
        ensures
            v@ == capabilities_by_name().filter(|c: PluginCapability| self@.contains(c)),
    {
        let all = all_capabilities_by_name();
        let mut out: Vec<PluginCapability> = Vec::new();
        let n = all.len();
        for i in 0..n
            invariant
                n == all@.len(),
                all@ == capabilities_by_name(),
                out@ == all@.take(i as int).filter(|c: PluginCapability| self@.contains(c)),
        {
            let c = all[i];
            if self.contains(c) {
                out.push(c);
            }
            proof {
                assert(all@.take(i + 1).drop_last() =~= all@.take(i as int));
                reveal_with_fuel(Seq::filter, 1);
            }
        }
        assert(all@.take(n as int) =~= all@);
        out
    }
}

/// The capability numbered `i`.
pub open spec fn index_capability(i: int) -> PluginCapability {
    if i == 0 {
        PluginCapability::Camera
    } else if i == 1 {
        PluginCapability::Bluetooth
    } else if i == 2 {
        PluginCapability::FilesystemWatch
    } else if i == 3 {
        PluginCapability::MediaDecode
    } else if i == 4 {
        PluginCapability::MediaPlayback
    } else if i == 5 {
        PluginCapability::Notifications
    } else if i == 6 {
        PluginCapability::Tray
    } else if i == 7 {
        PluginCapability::NativeMenu
    } else if i == 8 {
        PluginCapability::Webview
    } else {
        PluginCapability::GpuSharedTextures
    }
}

// ── Permission policy ───────────────────────────────────────────────────────

/// A policy as values: where it came from, the allow list (`None`: all) and
/// the deny list.
pub struct PolicyView {
    pub source: Seq<char>,
    pub allow: Option<Set<PluginCapability>>,
    pub deny: Set<PluginCapability>,
}

/// Whether a policy allows a capability: denied ones never, otherwise those on
/// the allow list, or all when there is none.
pub open spec fn policy_allows(p: PolicyView, c: PluginCapability) -> bool {
    !p.deny.contains(c) && match p.allow {
        Some(a) => a.contains(c),
        None => true,
    }
}

/// The capabilities that a list of names names; unknown names are skipped.
pub open spec fn named_capabilities(names: Seq<Seq<char>>) -> Set<PluginCapability>
    decreases names.len(),
{
    if names.len() == 0 {
        Set::empty()
    } else {
        let rest = named_capabilities(names.drop_last());
        match capability_named(names.last()) {
            Some(c) => rest.insert(c),
            None => rest,
        }
    }
}

/// The names in a list that name no capability, in order.
pub open spec fn unknown_names(names: Seq<Seq<char>>) -> Seq<Seq<char>>
    decreases names.len(),
{
    if names.len() == 0 {
        Seq::empty()
    } else {
        let rest = unknown_names(names.drop_last());
        match capability_named(names.last()) {
            Some(_) => rest,
            None => rest.push(names.last()),
        }
    }
}

/// The policy that a configuration gives: deny wins over allow, and an allow
/// list that ends up empty allows everything not denied.
pub open spec fn configured_policy(
    source: Seq<char>,
    allow_names: Seq<Seq<char>>,
    deny_names: Seq<Seq<char>>,
) -> PolicyView {
    let allow = named_capabilities(allow_names);
    let deny = named_capabilities(deny_names);
    let kept = if allow != Set::<PluginCapability>::empty() {
        allow.difference(deny)
    } else {
        allow
    };
    PolicyView {
        source,
        allow: if kept == Set::<PluginCapability>::empty() {
            None
        } else {
            Some(kept)
        },
        deny,
    }
}

/// The plugin section of the app's configuration file.
pub struct PluginPolicySection {
    pub allow: Vec<String>,
    pub deny: Vec<String>,
}

/// The app's configuration file, as far as plugins go.
pub struct UzumakiPluginPolicyConfig {
    pub plugins: Option<PluginPolicySection>,
}

/// A policy as reported to the app: its source and its two lists, ordered by
/// name.
#[derive(Debug, Clone)]
pub struct PluginPermissionPolicyInfo {
    pub source: String,
    pub allow: Vec<PluginCapability>,
    pub deny: Vec<PluginCapability>,
}

/// Which capabilities plugins may be granted.
#[derive(Debug, Clone)]
pub struct PluginPermissionPolicy {
    source: String,
    allow: Option<CapabilitySet>,
    deny: CapabilitySet,
}

impl View for PluginPermissionPolicy {
    type V = PolicyView;

    closed spec fn view(&self) -> PolicyView {
        PolicyView {
            source: self.source@,
            allow: match self.allow {
                Some(a) => Some(a@),
                None => None,
            },
            deny: self.deny@,
        }
    }
}

fn names_to_set(names: &Vec<String>) -> (r: (CapabilitySet, Vec<String>))
    ensures
        r.0@ == named_capabilities(crate::textkit::views(names@)),
        crate::textkit::views(r.1@) == unknown_names(crate::textkit::views(names@)),
{
    let mut set = CapabilitySet::empty();
    let mut unknown: Vec<String> = Vec::new();
    let n = names.len();
    for i in 0..n
        invariant
            n == names@.len(),
            set@ == named_capabilities(crate::textkit::views(names@.take(i as int))),
            crate::textkit::views(unknown@) == unknown_names(crate::textkit::views(names@.take(i as int))),
    {
        proof {
            assert(crate::textkit::views(names@.take(i + 1)).drop_last() =~= crate::textkit::views(
                names@.take(i as int),
            ));
            assert(crate::textkit::views(names@.take(i + 1)).last() == names@[i as int]@);
        }
        match PluginCapability::parse(names[i].as_str()) {
            Ok(c) => {
                set.insert(c);
            },
            Err(_) => {
                let ghost before = unknown@;
                unknown.push(names[i].clone());
                proof {
                    assert(crate::textkit::views(unknown@) =~= crate::textkit::views(before).push(
                        names@[i as int]@,
                    ));
                }
            },
        }
    }
    assert(names@.take(n as int) =~= names@);
    (set, unknown)
}

impl PluginPermissionPolicy {
    /// The default policy: nothing denied, everything allowed.
    pub fn allow_all() -> (p: Self)
        ensures
            p@ == (PolicyView {
                source: "default"@,
                allow: None,
                deny: Set::<PluginCapability>::empty(),
            }),
    {
        Self { source: String::from_str("default"), allow: None, deny: CapabilitySet::empty() }
    }

    /// The policy a configuration's allow and deny lists give. Also returns
    /// the names in each list that name no capability, so that they can be
    /// reported.
    pub fn from_config(
        source: String,
        allow_names: &Vec<String>,
        deny_names: &Vec<String>,
    ) -> (r: (Self, Vec<String>, Vec<String>))
        ensures
            r.0@ == configured_policy(
                source@,
                crate::textkit::views(allow_names@),
                crate::textkit::views(deny_names@),
            ),
            crate::textkit::views(r.1@) == unknown_names(crate::textkit::views(allow_names@)),
            crate::textkit::views(r.2@) == unknown_names(crate::textkit::views(deny_names@)),
    {
        let (mut allow_set, unknown_allow) = names_to_set(allow_names);
        let (deny_set, unknown_deny) = names_to_set(deny_names);
        let ghost allow0 = allow_set@;
        if !allow_set.is_empty() {
            let all = all_capabilities_by_name();
            let mut kept = CapabilitySet::empty();
            let n = all.len();
            for i in 0..n
                invariant
                    n == all@.len(),
                    all@ == capabilities_by_name(),
                    allow_set@ == allow0,
                    kept@ == Set::new(
                        |c: PluginCapability|
                            allow0.contains(c) && !deny_set@.contains(c) && all@.take(
                                i as int,
                            ).contains(c),
                    ),
            {
                let c = all[i];
                let ghost before = kept@;
                if allow_set.contains(c) && !deny_set.contains(c) {
                    kept.insert(c);
                }
                proof {
                    assert(all@.take(i + 1) =~= all@.take(i as int).push(c));
                    assert forall|d: PluginCapability| #[trigger]
                        all@.take(i + 1).contains(d) == (all@.take(i as int).contains(d) || d
                            == c) by {
                        if all@.take(i as int).contains(d) {
                            let j = choose|j: int|
                                0 <= j < all@.take(i as int).len() && all@.take(i as int)[j] == d;
                            assert(all@.take(i + 1)[j] == d);
                        }
                        if d == c {
                            assert(all@.take(i + 1)[i as int] == d);
                        }
                    }
                    assert(kept@ =~= Set::new(
                        |d: PluginCapability|
                            allow0.contains(d) && !deny_set@.contains(d) && all@.take(
                                i + 1,
                            ).contains(d),
                    ));
                }
            }
            proof {
                assert(all@.take(n as int) =~= all@);
                assert forall|c: PluginCapability| #[trigger] all@.contains(c) by {
                    lemma_by_name_lists_all(c);
                }
                assert(kept@ =~= allow0.difference(deny_set@));
            }
            allow_set = kept;
        }
        let allow = if allow_set.is_empty() {
            None
        } else {
            Some(allow_set)
        };
        let p = Self { source, allow, deny: deny_set };
        proof {
            if allow_set@ == Set::<PluginCapability>::empty() {
                assert(p@.allow is None);
            }
        }
        (p, unknown_allow, unknown_deny)
    }

    /// The policy of a parsed configuration file at `source`: without a
    /// `plugins` section, everything is allowed; with one, its lists decide
    /// (see `from_config`).
    pub fn from_parsed(source: String, config: &UzumakiPluginPolicyConfig) -> (r: (
        Self,
        Vec<String>,
        Vec<String>,
    ))
        ensures
            match config.plugins {
                None => {
                    &&& r.0@ == (PolicyView {
                        source: "default"@,
                        allow: None,
                        deny: Set::<PluginCapability>::empty(),
                    })
                    &&& r.1@.len() == 0
                    &&& r.2@.len() == 0
                },
                Some(section) => {
                    &&& r.0@ == configured_policy(
                        source@,
                        crate::textkit::views(section.allow@),
                        crate::textkit::views(section.deny@),
                    )
                    &&& crate::textkit::views(r.1@) == unknown_names(crate::textkit::views(section.allow@))
                    &&& crate::textkit::views(r.2@) == unknown_names(crate::textkit::views(section.deny@))
                },
            },
    {
        match &config.plugins {
            None => (Self::allow_all(), Vec::new(), Vec::new()),
            Some(section) => Self::from_config(source, &section.allow, &section.deny),
        }
    }

    pub fn is_allowed(&self, capability: PluginCapability) -> (b: bool)
        ensures
            b == policy_allows(self@, capability),
    {
        if self.deny.contains(capability) {
            return false;
        }
        match &self.allow {
            Some(set) => set.contains(capability),
            None => true,
        }
    }

    /// The policy's source and lists, each list ordered by name.
    pub fn info(&self) -> (i: PluginPermissionPolicyInfo)
        ensures
            i.source@ == self@.source,
            match self@.allow {
                Some(a) => i.allow@ == capabilities_by_name().filter(|c: PluginCapability| a.contains(c)),
                None => i.allow@.len() == 0,
            },
            i.deny@ == capabilities_by_name().filter(|c: PluginCapability| self@.deny.contains(c)),
    {
        let allow = match &self.allow {
            Some(set) => set.to_sorted_vec(),
            None => Vec::new(),
        };
        PluginPermissionPolicyInfo {
            source: self.source.clone(),
            allow,
            deny: self.deny.to_sorted_vec(),
        }
    }
}

/// Every capability appears in the list ordered by name.
pub proof fn lemma_by_name_lists_all(c: PluginCapability)
    ensures
        capabilities_by_name().contains(c),
{
    let s = capabilities_by_name();
    let i = choose|i: int| 0 <= i < s.len() && s[i] == c;
    assert(exists|i: int| 0 <= i < s.len() && s[i] == c) by {
        match c {
            PluginCapability::Bluetooth => assert(s[0] == c),
            PluginCapability::Camera => assert(s[1] == c),
            PluginCapability::FilesystemWatch => assert(s[2] == c),
            PluginCapability::GpuSharedTextures => assert(s[3] == c),
            PluginCapability::MediaDecode => assert(s[4] == c),
            PluginCapability::MediaPlayback => assert(s[5] == c),
            PluginCapability::NativeMenu => assert(s[6] == c),
            PluginCapability::Notifications => assert(s[7] == c),
            PluginCapability::Tray => assert(s[8] == c),
            PluginCapability::Webview => assert(s[9] == c),
        }
    }
}

/// Deny wins: a capability named on the deny list is never allowed, whatever
/// the allow list holds.
pub proof fn law_deny_wins(
    source: Seq<char>,
    allow_names: Seq<Seq<char>>,
    deny_names: Seq<Seq<char>>,
    c: PluginCapability,
)
    requires
        named_capabilities(deny_names).contains(c),
    ensures
        !policy_allows(configured_policy(source, allow_names, deny_names), c),
{
}

/// A configuration that lists no known capability allows everything: it
/// behaves as the default policy.
pub proof fn law_empty_config_allows_all(
    source: Seq<char>,
    allow_names: Seq<Seq<char>>,
    deny_names: Seq<Seq<char>>,
    c: PluginCapability,
)
    requires
        named_capabilities(allow_names) == Set::<PluginCapability>::empty(),
        named_capabilities(deny_names) == Set::<PluginCapability>::empty(),
    ensures
        policy_allows(configured_policy(source, allow_names, deny_names), c),
{
}

/// With a non-empty allow list and a capability allowed and not denied, the
/// capability is allowed; one missing from a non-empty kept allow list is not.
pub proof fn law_allow_list_restricts(
    source: Seq<char>,
    allow_names: Seq<Seq<char>>,
    deny_names: Seq<Seq<char>>,
    c: PluginCapability,
)
    requires
        named_capabilities(allow_names).contains(c),
        !named_capabilities(deny_names).contains(c),
    ensures
        policy_allows(configured_policy(source, allow_names, deny_names), c),
{
    let p = configured_policy(source, allow_names, deny_names);
    let kept = named_capabilities(allow_names).difference(named_capabilities(deny_names));
    assert(kept.contains(c));
}

// ── Plugins ───────────────────────────────────────────────────────────────

/// Declares `std::path::PathBuf`, which the lifecycle context carries
/// through unread.
#[verifier::external_type_specification]
#[verifier::external_body]
pub struct ExPathBuf(std::path::PathBuf);

/// Declares `anyhow::Error`, what a failing plugin hook returns; the library
/// passes it on unread.
#[verifier::external_type_specification]
#[verifier::external_body]
pub struct ExAnyhowError(anyhow::Error);

/// What a plugin declares about itself.
#[derive(Debug)]
pub struct PluginManifest {
    pub name: String,
    pub version: String,
    pub capabilities: Vec<PluginCapability>,
}

/// A manifest as plain values.
pub struct ManifestView {
    pub name: Seq<char>,
    pub version: Seq<char>,
    pub capabilities: Seq<PluginCapability>,
}

impl View for PluginManifest {
    type V = ManifestView;

    open spec fn view(&self) -> ManifestView {
        ManifestView { name: self.name@, version: self.version@, capabilities: self.capabilities@ }
    }
}

fn copy_capabilities(v: &Vec<PluginCapability>) -> (r: Vec<PluginCapability>)
    ensures
        r@ == v@,
{
    let mut out: Vec<PluginCapability> = Vec::new();
    let n = v.len();
    for i in 0..n
        invariant
            n == v@.len(),
            out@ == v@.take(i as int),
    {
        out.push(v[i]);
        proof {
            assert(v@.take(i + 1) =~= v@.take(i as int).push(v@[i as int]));
        }
    }
    assert(v@.take(n as int) =~= v@);
    out
}

impl Clone for PluginManifest {
    fn clone(&self) -> (r: Self)
        ensures
            r@ == self@,
    {
        PluginManifest {
            name: self.name.clone(),
            version: self.version.clone(),
            capabilities: copy_capabilities(&self.capabilities),
        }
    }
}

/// Paths a plugin is told about when the runtime starts.
#[derive(Debug)]
pub struct PluginLifecycleContext {
    pub app_root: std::path::PathBuf,
    pub entrypoint: std::path::PathBuf,
}

/// A native plugin. Implementations must return the same manifest each time.
pub trait NativePlugin {
    /// The manifest the plugin declares.
    spec fn manifest_view(&self) -> PluginManifest;

    fn manifest(&self) -> (m: &PluginManifest)
        ensures
            *m == self.manifest_view(),
    ;

    /// Whether the start hook fails when called in the plugin's present
    /// state with `ctx`. By default it never does.
    open spec fn start_fails(&self, ctx: &PluginLifecycleContext) -> bool {
        false
    }

    /// Whether the stop hook fails when called in the plugin's present
    /// state. By default it never does.
    open spec fn stop_fails(&self) -> bool {
        false
    }

    /// Called once when the runtime starts; fails exactly as `start_fails`
    /// says.
    fn on_runtime_start(&mut self, ctx: &PluginLifecycleContext) -> (r: Result<(), anyhow::Error>)
        ensures
            r is Err == old(self).start_fails(ctx),
    ;

    /// Called before the runtime shuts down; fails exactly as `stop_fails`
    /// says.
    fn on_runtime_stop(&mut self) -> (r: Result<(), anyhow::Error>)
        ensures
            r is Err == old(self).stop_fails(),
    ;
}

/// Why a plugin was not registered.
#[derive(Debug)]
pub enum RegisterError {
    /// The plugin's name is blank.
    EmptyName,
    /// A plugin of that name is registered already.
    AlreadyRegistered(String),
    /// The plugin asked for a capability that the policy denies.
    DeniedCapability { plugin: String, capability: PluginCapability },
}

/// A lifecycle hook that failed, with the name of its plugin.
pub struct HookFailure {
    pub plugin: String,
    pub error: anyhow::Error,
}

/// The failures as (plugin name, error) pairs.
pub open spec fn failure_view(r: Seq<HookFailure>) -> Seq<(Seq<char>, anyhow::Error)> {
    r.map_values(|f: HookFailure| (f.plugin@, f.error))
}

/// The failed hooks among the first `n` outcomes, in order, each under the
/// name at its position.
pub open spec fn failures_upto(
    names: Seq<Seq<char>>,
    outcomes: Seq<Result<(), anyhow::Error>>,
    n: nat,
) -> Seq<(Seq<char>, anyhow::Error)>
    decreases n,
{
    if n == 0 {
        Seq::empty()
    } else {
        let prev = failures_upto(names, outcomes, (n - 1) as nat);
        match outcomes[n - 1] {
            Ok(_) => prev,
            Err(e) => prev.push((names[n - 1], e)),
        }
    }
}

/// The failed hooks of a run of hooks, one outcome per plugin, in order.
pub open spec fn failures_of(
    names: Seq<Seq<char>>,
    outcomes: Seq<Result<(), anyhow::Error>>,
) -> Seq<(Seq<char>, anyhow::Error)> {
    failures_upto(names, outcomes, outcomes.len())
}

/// The names of the failures, in order.
pub open spec fn failure_names(r: Seq<HookFailure>) -> Seq<Seq<char>> {
    r.map_values(|f: HookFailure| f.plugin@)
}

/// The names among the first `n` whose flag says their hook fails, in order.
pub open spec fn failing_upto(names: Seq<Seq<char>>, fails: Seq<bool>, n: nat) -> Seq<Seq<char>>
    decreases n,
{
    if n == 0 {
        Seq::empty()
    } else {
        let prev = failing_upto(names, fails, (n - 1) as nat);
        if fails[n - 1] {
            prev.push(names[n - 1])
        } else {
            prev
        }
    }
}

/// The names whose flag says their hook fails, in order.
pub open spec fn failing_names(names: Seq<Seq<char>>, fails: Seq<bool>) -> Seq<Seq<char>> {
    failing_upto(names, fails, fails.len())
}

/// The names of the failures of a run of hooks are those whose outcome is an
/// error.
proof fn lemma_failure_names(
    names: Seq<Seq<char>>,
    outcomes: Seq<Result<(), anyhow::Error>>,
    fails: Seq<bool>,
    n: nat,
)
    requires
        n <= outcomes.len(),
        n <= fails.len(),
        forall|i: int| 0 <= i < n ==> fails[i] == (#[trigger] outcomes[i] is Err),
    ensures
        failures_upto(names, outcomes, n).map_values(|p: (Seq<char>, anyhow::Error)| p.0)
            == failing_upto(names, fails, n),
    decreases n,
{
    if n > 0 {
        lemma_failure_names(names, outcomes, fails, (n - 1) as nat);
        assert(fails[n - 1] == (outcomes[n - 1] is Err));
        let prev = failures_upto(names, outcomes, (n - 1) as nat);
        let cur = failures_upto(names, outcomes, n);
        assert(cur.map_values(|p: (Seq<char>, anyhow::Error)| p.0) =~= failing_upto(names, fails, n)) by {
            match outcomes[n - 1] {
                Ok(_) => {},
                Err(e) => {
                    assert(cur == prev.push((names[n - 1], e)));
                    assert(cur.map_values(|p: (Seq<char>, anyhow::Error)| p.0) =~= prev.map_values(
                        |p: (Seq<char>, anyhow::Error)| p.0,
                    ).push(names[n - 1]));
                },
            }
        }
    }
}

/// Reading the names off the failures.
proof fn lemma_failure_view_names(r: Seq<HookFailure>)
    ensures
        failure_view(r).map_values(|p: (Seq<char>, anyhow::Error)| p.0) == failure_names(r),
{
    assert(failure_view(r).map_values(|p: (Seq<char>, anyhow::Error)| p.0) =~= failure_names(r));
}

/// Pairs each failed hook outcome with the name of its plugin, keeping the
/// order; successful outcomes are dropped.
pub fn collect_hook_failures(names: &[String], outcomes: Vec<Result<(), anyhow::Error>>) -> (r: Vec<
    HookFailure,
>)
    requires
        names@.len() == outcomes@.len(),
    ensures
        failure_view(r@) == failures_of(crate::textkit::views(names@), outcomes@),
{
    let ghost all = outcomes@;
    let ghost nv = crate::textkit::views(names@);
    let n = outcomes.len();
    let mut rest = outcomes;
    let mut out: Vec<HookFailure> = Vec::new();
    let mut i: usize = 0;
    while i < n
        invariant
            n == all.len(),
            names@.len() == n,
            nv == crate::textkit::views(names@),
            i <= n,
            rest@ == all.skip(i as int),
            failure_view(out@) == failures_upto(nv, all, i as nat),
        decreases n - i,
    {
        let ghost before = out@;
        let outcome = rest.remove(0);
        assert(outcome == all[i as int]);
        assert(rest@ =~= all.skip(i + 1));
        match outcome {
            Ok(()) => {},
            Err(error) => {
                let name = names[i].clone();
                out.push(HookFailure { plugin: name, error });
                assert(failure_view(out@) =~= failure_view(before).push((nv[i as int], error)));
            },
        }
        i = i + 1;
    }
    out
}

/// Why a capability cannot be used.
#[derive(Debug)]
pub struct CapabilityError {
    pub capability: PluginCapability,
    /// Whether the policy denied it (else no plugin provides it).
    pub denied: bool,
}

fn joined(parts: &[&str]) -> (s: String)
    ensures
        s@ == crate::textkit::flatten(parts@.map_values(|p: &str| p@)),
{
    let mut out = String::new();
    let n = parts.len();
    for i in 0..n
        invariant
            n == parts@.len(),
            out@ == crate::textkit::flatten(parts@.take(i as int).map_values(|p: &str| p@)),
    {
        out.append(parts[i]);
        proof {
            assert(parts@.take(i + 1).map_values(|p: &str| p@).drop_last() =~= parts@.take(
                i as int,
            ).map_values(|p: &str| p@));
        }
    }
    assert(parts@.take(n as int) =~= parts@);
    out
}

impl RegisterError {
    /// The error's text.
    pub fn message(&self) -> (s: String)
        ensures
            s@ == (match *self {
                RegisterError::EmptyName => "plugin name cannot be empty"@,
                RegisterError::AlreadyRegistered(name) => "plugin '"@ + name@ + "' already registered"@,
                RegisterError::DeniedCapability { plugin, capability } => "plugin '"@ + plugin@
                    + "' requested denied capability '"@ + capability_name(capability)
                    + "'; update plugins.allow/deny in uzumaki.config.json"@,
            }),
    {
        match self {
            RegisterError::EmptyName => String::from_str("plugin name cannot be empty"),
            RegisterError::AlreadyRegistered(name) => {
                let parts = [ "plugin '", name.as_str(), "' already registered" ];
                let s = joined(&parts);
                proof {
                    reveal_with_fuel(crate::textkit::flatten, 4);
                    assert(parts@.map_values(|p: &str| p@).drop_last().drop_last().drop_last()
                        =~= Seq::<Seq<char>>::empty());
                }
                s
            },
            RegisterError::DeniedCapability { plugin, capability } => {
                let parts = [
                    "plugin '",
                    plugin.as_str(),
                    "' requested denied capability '",
                    capability.as_str(),
                    "'; update plugins.allow/deny in uzumaki.config.json",
                ];
                let s = joined(&parts);
                proof {
                    reveal_with_fuel(crate::textkit::flatten, 6);
                    assert(parts@.map_values(|p: &str| p@).take(0) =~= Seq::<Seq<char>>::empty());
                }
                s
            },
        }
    }
}

impl CapabilityError {
    /// The error's text.
    pub fn message(&self) -> (s: String)
        ensures
            s@ == "required capability '"@ + capability_name(self.capability) + "' unavailable: "@
                + (if self.denied {
                "denied by policy"@
            } else {
                "no loaded plugin provides this capability"@
            }),
    {
        let reason = if self.denied {
            "denied by policy"
        } else {
            "no loaded plugin provides this capability"
        };
        let parts = [ "required capability '", self.capability.as_str(), "' unavailable: ", reason ];
        let s = joined(&parts);
        proof {
            reveal_with_fuel(crate::textkit::flatten, 5);
        }
        s
    }
}

/// Number of leading capabilities of a list that a policy allows.
pub open spec fn allowed_prefix(caps: Seq<PluginCapability>, p: PolicyView) -> nat
    decreases caps.len(),
{
    if caps.len() == 0 {
        0
    } else if policy_allows(p, caps[0]) {
        1 + allowed_prefix(caps.drop_first(), p)
    } else {
        0
    }
}

/// A registered plugin with the manifest it was registered under.
struct LoadedPlugin {
    manifest: PluginManifest,
    plugin: Box<dyn NativePlugin>,
}

/// The plugins of a runtime and the capabilities granted to them.
pub struct PluginRegistry {
    plugins: Vec<LoadedPlugin>,
    names: Vec<String>,
    granted_caps: CapabilitySet,
    denied_caps: CapabilitySet,
    policy: PluginPermissionPolicy,
}

impl PluginRegistry {
    /// Names of the registered plugins, in registration order.
    pub closed spec fn registered(&self) -> Seq<Seq<char>> {
        crate::textkit::views(self.names@)
    }

    /// Manifests of the registered plugins, in registration order.
    pub closed spec fn plugin_manifests(&self) -> Seq<ManifestView> {
        Seq::new(self.plugins@.len(), |i: int| self.plugins@[i].manifest@)
    }

    pub closed spec fn granted(&self) -> Set<PluginCapability> {
        self.granted_caps@
    }

    pub closed spec fn denied(&self) -> Set<PluginCapability> {
        self.denied_caps@
    }

    pub closed spec fn policy_view(&self) -> PolicyView {
        self.policy@
    }

    /// Well-formedness: one name per plugin, no name twice, granted
    /// capabilities allowed and denied ones not.
    pub closed spec fn wf(&self) -> bool {
        &&& self.names@.len() == self.plugins@.len()
        &&& forall|i: int, j: int|
            0 <= i < j < self.names@.len() ==> self.names@[i]@ != self.names@[j]@
        &&& forall|c: PluginCapability| #[trigger]
            self.granted_caps@.contains(c) ==> policy_allows(self.policy@, c)
        &&& forall|c: PluginCapability| #[trigger]
            self.denied_caps@.contains(c) ==> !policy_allows(self.policy@, c)
        &&& forall|i: int|
            0 <= i < self.names@.len() ==> #[trigger] self.names@[i]@ == self.plugins@[i].manifest@.name
        &&& forall|i: int|
            0 <= i < self.names@.len() ==> trim_end(trim_start(#[trigger] self.names@[i]@)).len() != 0
        &&& forall|i: int, c: PluginCapability|
            0 <= i < self.plugins@.len() && #[trigger] self.plugins@[i].manifest@.capabilities.contains(c)
                ==> self.granted_caps@.contains(c)
    }

    pub fn new(policy: PluginPermissionPolicy) -> (r: Self)
        ensures
            r.wf(),
            r.registered() == Seq::<Seq<char>>::empty(),
            r.plugin_manifests() == Seq::<ManifestView>::empty(),
            r.granted() == Set::<PluginCapability>::empty(),
            r.denied() == Set::<PluginCapability>::empty(),
            r.policy_view() == policy@,
    {
        let r = PluginRegistry {
            plugins: Vec::new(),
            names: Vec::new(),
            granted_caps: CapabilitySet::empty(),
            denied_caps: CapabilitySet::empty(),
            policy,
        };
        assert(r.registered() =~= Seq::<Seq<char>>::empty());
        assert(r.plugin_manifests() =~= Seq::<ManifestView>::empty());
        r
    }

    /// A registry with the default policy.
    pub fn with_default_policy() -> (r: Self)
        ensures
            r.wf(),
            r.registered() == Seq::<Seq<char>>::empty(),
            r.plugin_manifests() == Seq::<ManifestView>::empty(),
            r.granted() == Set::<PluginCapability>::empty(),
            r.denied() == Set::<PluginCapability>::empty(),
            r.policy_view() == (PolicyView {
                source: "default"@,
                allow: None,
                deny: Set::<PluginCapability>::empty(),
            }),
    {
        Self::new(PluginPermissionPolicy::allow_all())
    }

    fn is_registered(&self, name: &String) -> (b: bool)
        ensures
            b == self.registered().contains(name@),
    {
        let n = self.names.len();
        for i in 0..n
            invariant
                n == self.names@.len(),
                forall|j: int| 0 <= j < i ==> self.names@[j]@ != name@,
        {
            if str_eq(self.names[i].as_str(), name.as_str()) {
                assert(self.registered()[i as int] == name@);
                return true;
            }
        }
        proof {
            if self.registered().contains(name@) {
                let j = choose|j: int| 0 <= j < self.registered().len() && self.registered()[j] == name@;
                assert(self.names@[j]@ == name@);
            }
        }
        false
    }

    /// Registers a plugin. A blank or already registered name is refused. The
    /// requested capabilities are granted in order; at the first one the
    /// policy denies, it is recorded as denied and the plugin is refused, the
    /// ones before it staying granted.
    pub fn register<P: NativePlugin + 'static>(&mut self, plugin: P) -> (r: Result<(), RegisterError>)
        requires
            old(self).wf(),
        ensures
            final(self).wf(),
            final(self).policy_view() == old(self).policy_view(),
            ({
                let m = plugin.manifest_view();
                let caps = m.capabilities@;
                let k = allowed_prefix(caps, old(self).policy_view());
                if trim_end(trim_start(m.name@)).len() == 0 {
                    &&& r matches Err(RegisterError::EmptyName)
                    &&& final(self).registered() == old(self).registered()
                    &&& final(self).plugin_manifests() == old(self).plugin_manifests()
                    &&& final(self).granted() == old(self).granted()
                    &&& final(self).denied() == old(self).denied()
                } else if old(self).registered().contains(m.name@) {
                    &&& r matches Err(RegisterError::AlreadyRegistered(n)) && n@ == m.name@
                    &&& final(self).registered() == old(self).registered()
                    &&& final(self).plugin_manifests() == old(self).plugin_manifests()
                    &&& final(self).granted() == old(self).granted()
                    &&& final(self).denied() == old(self).denied()
                } else if k < caps.len() {
                    &&& r matches Err(RegisterError::DeniedCapability { plugin: n, capability })
                        && n@ == m.name@ && capability == caps[k as int]
                    &&& final(self).registered() == old(self).registered()
                    &&& final(self).plugin_manifests() == old(self).plugin_manifests()
                    &&& final(self).granted() == old(self).granted() + caps.take(k as int).to_set()
                    &&& final(self).denied() == old(self).denied().insert(caps[k as int])
                } else {
                    &&& r is Ok
                    &&& final(self).registered() == old(self).registered().push(m.name@)
                    &&& final(self).plugin_manifests() == old(self).plugin_manifests().push(m@)
                    &&& final(self).granted() == old(self).granted() + caps.to_set()
                    &&& final(self).denied() == old(self).denied()
                }
            }),
    {
        let m = plugin.manifest();
        if trim_str(m.name.as_str()).unicode_len() == 0 {
            return Err(RegisterError::EmptyName);
        }
        if self.is_registered(&m.name) {
            return Err(RegisterError::AlreadyRegistered(m.name.clone()));
        }
        let ghost caps = m.capabilities@;
        let ghost g0 = self.granted_caps@;
        let n = m.capabilities.len();
        let mut i: usize = 0;
        assert(caps.skip(0) =~= caps);
        assert(caps.take(0).to_set() =~= Set::<PluginCapability>::empty());
        assert(g0 + Set::<PluginCapability>::empty() =~= g0);
        while i < n
            invariant
                self.wf(),
                self.names@ == old(self).names@,
                self.plugins@ == old(self).plugins@,
                self.denied_caps@ == old(self).denied_caps@,
                self.policy@ == old(self).policy@,
                !self.registered().contains(m.name@),
                trim_end(trim_start(m.name@)).len() != 0,
                i <= n,
                n == caps.len(),
                caps == m.capabilities@,
                *m == plugin.manifest_view(),
                i <= allowed_prefix(caps, self.policy@),
                allowed_prefix(caps, self.policy@) == i + allowed_prefix(caps.skip(i as int), self.policy@),
                self.granted_caps@ == g0 + caps.take(i as int).to_set(),
                g0 == old(self).granted_caps@,
                forall|c: PluginCapability| #[trigger]
                    self.granted_caps@.contains(c) ==> policy_allows(self.policy@, c),
            decreases n - i,
        {
            let cap = m.capabilities[i];
            proof {
                assert(caps.skip(i as int)[0] == cap);
                assert(caps.skip(i as int).drop_first() =~= caps.skip(i + 1));
                assert(caps.take(i + 1) =~= caps.take(i as int).push(cap));
            }
            proof {
                assert forall|d: PluginCapability| #[trigger] caps.take(i + 1).contains(d) == (caps.take(
                    i as int,
                ).contains(d) || d == cap) by {
                    if caps.take(i as int).contains(d) {
                        let j = choose|j: int|
                            0 <= j < caps.take(i as int).len() && caps.take(i as int)[j] == d;
                        assert(caps.take(i + 1)[j] == d);
                    }
                    if d == cap {
                        assert(caps.take(i + 1)[i as int] == d);
                    }
                }
            }
            if self.policy.is_allowed(cap) {
                self.granted_caps.insert(cap);
                proof {
                    assert(self.granted_caps@ =~= g0 + caps.take(i + 1).to_set());
                }
            } else {
                self.denied_caps.insert(cap);
                proof {
                    assert(!policy_allows(self.policy@, caps.skip(i as int)[0]));
                    assert(allowed_prefix(caps.skip(i as int), self.policy@) == 0);
                    assert(allowed_prefix(caps, old(self).policy_view()) == i);
                    assert(caps[i as int] == cap);
                    assert(self.granted() == old(self).granted() + caps.take(i as int).to_set());
                    assert(self.denied() == old(self).denied().insert(cap));
                    assert(self.registered() == old(self).registered());
                    assert(self.plugin_manifests() == old(self).plugin_manifests());
                    assert(self.wf());
                }
                let pname = m.name.clone();
                return Err(RegisterError::DeniedCapability { plugin: pname, capability: cap });
            }
            i = i + 1;
        }
        proof {
            assert(caps.take(n as int) =~= caps);
            assert(caps.skip(n as int) =~= Seq::<PluginCapability>::empty());
        }
        let name = m.name.clone();
        let ghost mv = m@;
        let ghost old_names = self.names@;
        let ghost old_plugins = self.plugins@;
        let snapshot = m.clone();
        let boxed: Box<dyn NativePlugin> = Box::new(plugin);
        let slot = LoadedPlugin { manifest: snapshot, plugin: boxed };
        let ghost pv = slot;
        self.names.push(name);
        self.plugins.push(slot);
        proof {
            assert(self.registered() =~= crate::textkit::views(old_names).push(mv.name));
            vstd::seq::axiom_seq_push_len(old_plugins, pv);
            assert forall|j: int| 0 <= j < self.plugins@.len() implies #[trigger] self.plugin_manifests()[j]
                == old(self).plugin_manifests().push(mv)[j] by {
                if j < old_plugins.len() {
                    vstd::seq::axiom_seq_push_index_different(old_plugins, pv, j);
                } else {
                    vstd::seq::axiom_seq_push_index_same(old_plugins, pv, j);
                }
            }
            assert(self.plugin_manifests() =~= old(self).plugin_manifests().push(mv));
            assert forall|a: int, b: int| 0 <= a < b < self.names@.len() implies self.names@[a]@
                != self.names@[b]@ by {
                if b == self.names@.len() - 1 {
                    assert(crate::textkit::views(old_names)[a] == old_names[a]@);
                }
            }
            let last = old_names.len() as int;
            assert forall|j: int| 0 <= j < self.names@.len() implies #[trigger] self.names@[j]@
                == self.plugins@[j].manifest@.name && trim_end(trim_start(self.names@[j]@)).len() != 0 by {
                if j < last {
                    vstd::seq::axiom_seq_push_index_different(old_plugins, pv, j);
                    assert(self.names@[j] == old_names[j]);
                } else {
                    vstd::seq::axiom_seq_push_index_same(old_plugins, pv, j);
                }
            }
            assert forall|j: int, c: PluginCapability|
                0 <= j < self.plugins@.len() && #[trigger] self.plugins@[j].manifest@.capabilities.contains(c)
                implies self.granted_caps@.contains(c) by {
                if j < last {
                    vstd::seq::axiom_seq_push_index_different(old_plugins, pv, j);
                    assert(old_plugins[j].manifest@.capabilities.contains(c));
                    assert(g0.contains(c));
                } else {
                    vstd::seq::axiom_seq_push_index_same(old_plugins, pv, j);
                    assert(caps.to_set().contains(c));
                }
            }
        }
        Ok(())
    }

    /// Copies of the registered plugins' manifests, in registration order.
    pub fn manifests(&self) -> (v: Vec<PluginManifest>)
        ensures
            v@.len() == self.plugin_manifests().len(),
            forall|i: int| 0 <= i < v@.len() ==> (#[trigger] v@[i])@ == self.plugin_manifests()[i],
    {
        let mut out: Vec<PluginManifest> = Vec::new();
        let n = self.plugins.len();
        for i in 0..n
            invariant
                n == self.plugins@.len(),
                out@.len() == i,
                forall|j: int| 0 <= j < i ==> (#[trigger] out@[j])@ == self.plugin_manifests()[j],
        {
            out.push(self.plugins[i].manifest.clone());
        }
        out
    }

    pub fn has_capability(&self, capability: PluginCapability) -> (b: bool)
        ensures
            b == self.granted().contains(capability),
    {
        self.granted_caps.contains(capability)
    }

    /// The capabilities refused so far, ordered by name.
    pub fn denied_capabilities(&self) -> (v: Vec<PluginCapability>)
        ensures
            v@ == capabilities_by_name().filter(|c: PluginCapability| self.denied().contains(c)),
    {
        self.denied_caps.to_sorted_vec()
    }

    /// Succeeds when the capability has been granted; else says whether the
    /// policy denied it.
    pub fn require_capability(&self, capability: PluginCapability) -> (r: Result<(), CapabilityError>)
        ensures
            match r {
                Ok(()) => self.granted().contains(capability),
                Err(e) => !self.granted().contains(capability) && e.capability == capability
                    && e.denied == self.denied().contains(capability),
            },
    {
        if self.has_capability(capability) {
            return Ok(());
        }
        Err(CapabilityError { capability, denied: self.denied_caps.contains(capability) })
    }

    pub fn policy_info(&self) -> (i: PluginPermissionPolicyInfo)
        ensures
            i.source@ == self.policy_view().source,
            match self.policy_view().allow {
                Some(a) => i.allow@ == capabilities_by_name().filter(|c: PluginCapability| a.contains(c)),
                None => i.allow@.len() == 0,
            },
            i.deny@ == capabilities_by_name().filter(
                |c: PluginCapability| self.policy_view().deny.contains(c),
            ),
    {
        self.policy.info()
    }

    /// For each registered plugin, in registration order, whether its start
    /// hook fails when called now with `ctx` (its `start_fails`).
    pub closed spec fn start_failures(&self, ctx: &PluginLifecycleContext) -> Seq<bool> {
        self.hook_failures(Some(ctx))
    }

    /// For each registered plugin, in registration order, whether its stop
    /// hook fails when called now (its `stop_fails`).
    pub closed spec fn stop_failures(&self) -> Seq<bool> {
        self.hook_failures(None)
    }

    spec fn hook_failures(&self, start: Option<&PluginLifecycleContext>) -> Seq<bool> {
        Seq::new(
            self.plugins@.len(),
            |i: int|
                match start {
                    Some(ctx) => self.plugins@[i].plugin.start_fails(ctx),
                    None => self.plugins@[i].plugin.stop_fails(),
                },
        )
    }

    /// Calls each plugin's start hook (with `ctx`) or, without a context, its
    /// stop hook, once, in registration order, and returns the failed ones.
    fn run_hooks(&mut self, start: Option<&PluginLifecycleContext>) -> (r: Vec<HookFailure>)
        requires
            old(self).wf(),
        ensures
            final(self).wf(),
            final(self).registered() == old(self).registered(),
            final(self).plugin_manifests() == old(self).plugin_manifests(),
            final(self).granted() == old(self).granted(),
            final(self).denied() == old(self).denied(),
            final(self).policy_view() == old(self).policy_view(),
            old(self).hook_failures(start).len() == old(self).registered().len(),
            failure_names(r@) == failing_names(old(self).registered(), old(self).hook_failures(start)),
            exists|outcomes: Seq<Result<(), anyhow::Error>>|
                outcomes.len() == old(self).registered().len() && failure_view(r@) == failures_of(
                    old(self).registered(),
                    outcomes,
                ),
    {
        let mut outcomes: Vec<Result<(), anyhow::Error>> = Vec::new();
        let ghost flags = old(self).hook_failures(start);
        let n = self.plugins.len();
        for i in 0..n
            invariant
                old(self).wf(),
                n == old(self).plugins@.len(),
                flags == old(self).hook_failures(start),
                self.names@ == old(self).names@,
                self.granted_caps@ == old(self).granted_caps@,
                self.denied_caps@ == old(self).denied_caps@,
                self.policy@ == old(self).policy@,
                self.plugins@.len() == n,
                forall|j: int| 0 <= j < n ==> (#[trigger] self.plugins@[j]).manifest == old(self).plugins@[j].manifest,
                forall|j: int| i <= j < n ==> #[trigger] self.plugins@[j] == old(self).plugins@[j],
                outcomes@.len() == i,
                forall|j: int| 0 <= j < i ==> flags[j] == (#[trigger] outcomes@[j] is Err),
        {
            let ghost before = self.plugins@;
            let slot = &mut self.plugins[i];
            let outcome = match start {
                Some(ctx) => slot.plugin.on_runtime_start(ctx),
                None => slot.plugin.on_runtime_stop(),
            };
            proof {
                assert(before[i as int] == old(self).plugins@[i as int]);
                vstd::seq::axiom_seq_update_len(before, i as int, *slot);
                assert forall|j: int| 0 <= j < n implies (#[trigger] self.plugins@[j]).manifest == old(self).plugins@[j].manifest by {
                    if j == i {
                        vstd::seq::axiom_seq_update_same(before, i as int, *slot);
                    } else {
                        vstd::seq::axiom_seq_update_different(before, j, i as int, *slot);
                    }
                }
                assert forall|j: int| i + 1 <= j < n implies #[trigger] self.plugins@[j] == old(self).plugins@[j] by {
                    vstd::seq::axiom_seq_update_different(before, j, i as int, *slot);
                }
            }
            outcomes.push(outcome);
        }
        assert(self.plugin_manifests() =~= old(self).plugin_manifests());
        let ghost outs = outcomes@;
        let failures = collect_hook_failures(self.names.as_slice(), outcomes);
        proof {
            lemma_failure_names(old(self).registered(), outs, flags, n as nat);
            lemma_failure_view_names(failures@);
        }
        failures
    }

    /// Runs every plugin's start hook, once, in registration order, with
    /// `ctx`, and returns the hooks that failed, each under its plugin's
    /// name: exactly the plugins whose `start_fails` holds, in order.
    pub fn on_runtime_start(&mut self, ctx: &PluginLifecycleContext) -> (r: Vec<HookFailure>)
        requires
            old(self).wf(),
        ensures
            final(self).wf(),
            final(self).registered() == old(self).registered(),
            final(self).plugin_manifests() == old(self).plugin_manifests(),
            final(self).granted() == old(self).granted(),
            final(self).denied() == old(self).denied(),
            final(self).policy_view() == old(self).policy_view(),
            old(self).start_failures(ctx).len() == old(self).registered().len(),
            failure_names(r@) == failing_names(old(self).registered(), old(self).start_failures(ctx)),
            exists|outcomes: Seq<Result<(), anyhow::Error>>|
                outcomes.len() == old(self).registered().len() && failure_view(r@) == failures_of(
                    old(self).registered(),
                    outcomes,
                ),
    {
        self.run_hooks(Some(ctx))
    }

    /// Runs every plugin's stop hook, once, in registration order, and
    /// returns the hooks that failed, each under its plugin's name: exactly
    /// the plugins whose `stop_fails` holds, in order.
    pub fn on_runtime_stop(&mut self) -> (r: Vec<HookFailure>)
        requires
            old(self).wf(),
        ensures
            final(self).wf(),
            final(self).registered() == old(self).registered(),
            final(self).plugin_manifests() == old(self).plugin_manifests(),
            final(self).granted() == old(self).granted(),
            final(self).denied() == old(self).denied(),
            final(self).policy_view() == old(self).policy_view(),
            old(self).stop_failures().len() == old(self).registered().len(),
            failure_names(r@) == failing_names(old(self).registered(), old(self).stop_failures()),
            exists|outcomes: Seq<Result<(), anyhow::Error>>|
                outcomes.len() == old(self).registered().len() && failure_view(r@) == failures_of(
                    old(self).registered(),
                    outcomes,
                ),
    {
        self.run_hooks(None)
    }
}

/// A granted capability is one the policy allows, and a denied one is one it
/// does not: no capability is both granted and denied.
pub proof fn law_granted_allowed_denied_not(reg: &PluginRegistry, c: PluginCapability)
    requires
        reg.wf(),
    ensures
        reg.granted().contains(c) ==> policy_allows(reg.policy_view(), c),
        reg.denied().contains(c) ==> !policy_allows(reg.policy_view(), c),
        !(reg.granted().contains(c) && reg.denied().contains(c)),
{
}

/// Whatever registrations led to it, a registry holds one manifest per
/// registered name, under that name, in registration order; the names are
/// distinct and none is blank; and every capability a registered manifest
/// asks for is granted.
pub proof fn law_registered_manifests(reg: &PluginRegistry)
    requires
        reg.wf(),
    ensures
        reg.plugin_manifests().len() == reg.registered().len(),
        forall|i: int| 0 <= i < reg.registered().len() ==> #[trigger] reg.plugin_manifests()[i].name == reg.registered()[i],
        forall|i: int| 0 <= i < reg.registered().len() ==> trim_end(trim_start(#[trigger] reg.registered()[i])).len() != 0,
        forall|i: int, j: int| 0 <= i < j < reg.registered().len() ==> reg.registered()[i] != reg.registered()[j],
        forall|i: int, c: PluginCapability|
            0 <= i < reg.plugin_manifests().len() && #[trigger] reg.plugin_manifests()[i].capabilities.contains(c)
                ==> reg.granted().contains(c),
{
    assert forall|i: int| 0 <= i < reg.registered().len() implies #[trigger] reg.plugin_manifests()[i].name
        == reg.registered()[i] && trim_end(trim_start(reg.registered()[i])).len() != 0 by {
        assert(reg.registered()[i] == reg.names@[i]@);
    }
    assert forall|i: int, j: int| 0 <= i < j < reg.registered().len() implies reg.registered()[i]
        != reg.registered()[j] by {
        assert(reg.registered()[i] == reg.names@[i]@);
        assert(reg.registered()[j] == reg.names@[j]@);
    }
    assert forall|i: int, c: PluginCapability|
        0 <= i < reg.plugin_manifests().len() && #[trigger] reg.plugin_manifests()[i].capabilities.contains(c)
        implies reg.granted().contains(c) by {
        assert(reg.plugin_manifests()[i] == reg.plugins@[i].manifest@);
    }
}

/// The built-in plugin, so that the registry is never empty. It asks for no
/// capability.
pub struct CoreRuntimePlugin {
    manifest: PluginManifest,
}

impl CoreRuntimePlugin {
    /// The core plugin of the given runtime version.
    pub fn new(version: &str) -> (p: Self)
        ensures
            p.manifest_view()@ == (ManifestView {
                name: "uzumaki.core"@,
                version: version@,
                capabilities: Seq::<PluginCapability>::empty(),
            }),
    {
        let p = CoreRuntimePlugin {
            manifest: PluginManifest {
                name: String::from_str("uzumaki.core"),
                version: String::from_str(version),
                capabilities: Vec::new(),
            },
        };
        assert(p.manifest.capabilities@ =~= Seq::<PluginCapability>::empty());
        p
    }
}

impl NativePlugin for CoreRuntimePlugin {
    closed spec fn manifest_view(&self) -> PluginManifest {
        self.manifest
    }

    fn manifest(&self) -> (m: &PluginManifest) {
        &self.manifest
    }

    /// The core plugin has nothing to start.
    fn on_runtime_start(&mut self, _ctx: &PluginLifecycleContext) -> (r: Result<(), anyhow::Error>) {
        Ok(())
    }

    /// The core plugin has nothing to stop.
    fn on_runtime_stop(&mut self) -> (r: Result<(), anyhow::Error>) {
        Ok(())
    }
}

/// A boxed plugin is a plugin: every call goes to the plugin in the box.
impl NativePlugin for Box<dyn NativePlugin> {
    open spec fn manifest_view(&self) -> PluginManifest {
        (**self).manifest_view()
    }

    open spec fn start_fails(&self, ctx: &PluginLifecycleContext) -> bool {
        (**self).start_fails(ctx)
    }

    open spec fn stop_fails(&self) -> bool {
        (**self).stop_fails()
    }

    fn manifest(&self) -> (m: &PluginManifest) {
        (**self).manifest()
    }

    fn on_runtime_start(&mut self, ctx: &PluginLifecycleContext) -> (r: Result<(), anyhow::Error>) {
        (**self).on_runtime_start(ctx)
    }

    fn on_runtime_stop(&mut self) -> (r: Result<(), anyhow::Error>) {
        (**self).on_runtime_stop()
    }
}

/// Registers the built-in plugins. The core plugin's name is not blank and
/// it asks for nothing, so it is refused only when a plugin of its name is
/// registered already.
pub fn register_builtin_plugins(registry: &mut PluginRegistry, version: &str) -> (r: Result<(), RegisterError>)
    requires
        old(registry).wf(),
    ensures
        final(registry).wf(),
        final(registry).policy_view() == old(registry).policy_view(),
        final(registry).granted() == old(registry).granted(),
        final(registry).denied() == old(registry).denied(),
        if old(registry).registered().contains("uzumaki.core"@) {
            &&& r matches Err(RegisterError::AlreadyRegistered(n)) && n@ == "uzumaki.core"@
            &&& final(registry).registered() == old(registry).registered()
            &&& final(registry).plugin_manifests() == old(registry).plugin_manifests()
        } else {
            &&& r is Ok
            &&& final(registry).registered() == old(registry).registered().push("uzumaki.core"@)
            &&& final(registry).plugin_manifests() == old(registry).plugin_manifests().push(
                ManifestView {
                    name: "uzumaki.core"@,
                    version: version@,
                    capabilities: Seq::<PluginCapability>::empty(),
                },
            )
        },
{
    let core = CoreRuntimePlugin::new(version);
    let ghost mv = core.manifest_view();
    proof {
        reveal_strlit("uzumaki.core");
        assert(trim_start("uzumaki.core"@) == "uzumaki.core"@) by {
            reveal_with_fuel(trim_start, 2);
        }
        assert(trim_end("uzumaki.core"@) == "uzumaki.core"@) by {
            reveal_with_fuel(trim_end, 2);
        }
        assert(mv.capabilities@.to_set() =~= Set::<PluginCapability>::empty());
        assert(old(registry).granted() + Set::<PluginCapability>::empty() =~= old(registry).granted());
    }
    registry.register(core)
}

impl std::str::FromStr for PluginCapability {
    type Err = String;

    fn from_str(s: &str) -> (r: Result<Self, String>)
        ensures
            match r {
                Ok(c) => capability_named(s@) == Some(c),
                Err(msg) => capability_named(s@) is None && msg@ == "unknown plugin capability: "@ + s@,
            },
    {
        PluginCapability::parse(s)
    }
}

} // verus!
