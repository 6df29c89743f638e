//! Audio plugins: how one is named, and what is known of it.

use crate::text;
use vstd::prelude::*;
use vstd::string::*;

verus! {

/// Operating system that the agent runs on, as far as its behaviour depends on it.
#[derive(Clone, Copy, Debug, PartialEq, Eq, Structural)]
pub enum Platform {
    MacOs,
    Windows,
    Other,
}

impl Platform {
    /// Whether plugins and MIDI inputs can be used there.
    pub open spec fn hosts_plugins(self) -> bool {
        self != Platform::Other
    }

    pub fn can_host_plugins(self) -> (r: bool)
        ensures
            r == self.hosts_plugins(),
    {
        self != Platform::Other
    }
}

/// Identity of a plugin: an AudioUnit by its three codes, or a VST3 class by its file.
#[derive(Clone, Debug, PartialEq, Eq)]
pub enum PluginRef {
    Au { au_type: String, subtype: String, manufacturer: String },
    Vst3 { path: String, uid: String },
}

/// Are both references spelled the same?
pub open spec fn same_plugin(a: PluginRef, b: PluginRef) -> bool {
    match (a, b) {
        (
            PluginRef::Au { au_type: t1, subtype: s1, manufacturer: m1 },
            PluginRef::Au { au_type: t2, subtype: s2, manufacturer: m2 },
        ) => t1@ == t2@ && s1@ == s2@ && m1@ == m2@,
        (
            PluginRef::Vst3 { path: p1, uid: u1 },
            PluginRef::Vst3 { path: p2, uid: u2 },
        ) => p1@ == p2@ && u1@ == u2@,
        _ => false,
    }
}

impl PluginRef {
    pub fn is_same(&self, other: &PluginRef) -> (r: bool)
        ensures
            r == same_plugin(*self, *other),
    {
        match (self, other) {
            (
                PluginRef::Au { au_type: t1, subtype: s1, manufacturer: m1 },
                PluginRef::Au { au_type: t2, subtype: s2, manufacturer: m2 },
            ) => text::same(t1.as_str(), t2.as_str()) && text::same(s1.as_str(), s2.as_str())
                && text::same(m1.as_str(), m2.as_str()),
            (
                PluginRef::Vst3 { path: p1, uid: u1 },
                PluginRef::Vst3 { path: p2, uid: u2 },
            ) => text::same(p1.as_str(), p2.as_str()) && text::same(u1.as_str(), u2.as_str()),
            _ => false,
        }
    }

    pub fn duplicate(&self) -> (r: PluginRef)
        ensures
            r == *self,
    {
        match self {
            PluginRef::Au { au_type, subtype, manufacturer } => PluginRef::Au {
                au_type: au_type.clone(),
                subtype: subtype.clone(),
                manufacturer: manufacturer.clone(),
            },
            PluginRef::Vst3 { path, uid } => PluginRef::Vst3 {
                path: path.clone(),
                uid: uid.clone(),
            },
        }
    }

    /// How the plugin is named in the log.
    pub fn label(&self) -> (r: String)
        ensures
            r@ == match *self {
                PluginRef::Au { au_type, subtype, manufacturer } => "AU "@ + au_type@ + "/"@
                    + subtype@ + "/"@ + manufacturer@,
                PluginRef::Vst3 { path, uid } => "VST3 "@ + path@ + " (uid="@ + uid@ + ")"@,
            },
    {
        match self {
            PluginRef::Au { au_type, subtype, manufacturer } => {
                let mut r = text::joined("AU ", au_type.as_str());
                r.append("/");
                r.append(subtype.as_str());
                r.append("/");
                r.append(manufacturer.as_str());
                r
            },
            PluginRef::Vst3 { path, uid } => {
                let mut r = text::joined("VST3 ", path.as_str());
                r.append(" (uid=");
                r.append(uid.as_str());
                r.append(")");
                r
            },
        }
    }
}

/// What a scan found out about a plugin.
#[derive(Clone, Debug, PartialEq, Eq)]
pub struct PluginInfo {
    pub name: String,
    pub manufacturer: String,
    pub plugin_ref: PluginRef,
    pub latency_samples: u32,
    pub has_editor: bool,
    /// Its latency is beyond what playing live allows.
    pub incompatible: bool,
    pub has_input_bus: bool,
    pub is_instrument: bool,
}

impl PluginInfo {
    pub fn duplicate(&self) -> (r: PluginInfo)
        ensures
            r == *self,
    {
        PluginInfo {
            name: self.name.clone(),
            manufacturer: self.manufacturer.clone(),
            plugin_ref: self.plugin_ref.duplicate(),
            latency_samples: self.latency_samples,
            has_editor: self.has_editor,
            incompatible: self.incompatible,
            has_input_bus: self.has_input_bus,
            is_instrument: self.is_instrument,
        }
    }
}

/// A copy of a list of plugins.
pub fn duplicate_plugins(plugins: &Vec<PluginInfo>) -> (r: Vec<PluginInfo>)
    ensures
        r@ == plugins@,
{
    let mut r: Vec<PluginInfo> = Vec::new();
    let mut i: usize = 0;
    while i < plugins.len()
        invariant
            i <= plugins@.len(),
            r@ == plugins@.take(i as int),
        decreases plugins@.len() - i,
    {
        r.push(plugins[i].duplicate());
        assert(plugins@.take(i + 1) =~= plugins@.take(i as int).push(plugins@[i as int]));
        i = i + 1;
    }
    assert(plugins@.take(i as int) =~= plugins@);
    r
}

/// Plugins are hosted on macOS and on Windows.
pub proof fn two_platforms_host_plugins(platform: Platform)
    ensures
        platform.hosts_plugins() <==> platform == Platform::MacOs || platform == Platform::Windows,
{
}

/// Two names are of one plugin exactly if they agree in every part; which of them comes first
/// does not matter, and one format never names a plugin of the other.
pub proof fn a_plugin_is_told_by_every_part(a: PluginRef, b: PluginRef)
    ensures
        same_plugin(a, a),
        same_plugin(a, b) == same_plugin(b, a),
        a is Au != b is Au ==> !same_plugin(a, b),
        a is Au && b is Au ==> (same_plugin(a, b) <==> a->au_type@ == b->au_type@ && a->subtype@
            == b->subtype@ && a->manufacturer@ == b->manufacturer@),
        a is Vst3 && b is Vst3 ==> (same_plugin(a, b) <==> a->path@ == b->path@ && a->uid@
            == b->uid@),
{
}

} // verus!
