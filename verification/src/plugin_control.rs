//! The plugin slot of the instrument: loading, unloading and bypassing.
//!
//! Only a plugin that the scan found is loaded: its reference comes from a web page, and
//! loading it runs native code. While a plugin is being loaded or torn down the slot is
//! empty, and the signal passes dry.

use crate::plugin::{duplicate_plugins, same_plugin, PluginInfo, PluginRef};
use crate::plugin_scan::session::BlockedItem;
use vstd::prelude::*;
use vstd::string::*;

verus! {

/// A plugin instance of the native host.
#[derive(Clone, Copy, Debug, PartialEq, Eq, Structural)]
pub struct PluginHandle(pub u64);

/// Most frames that a plugin is given at a time.
pub const PLUGIN_BLOCK: usize = 128;

/// Result of a scan that has come to its end.
#[derive(Debug)]
pub struct ScanResult {
    pub plugins: Vec<PluginInfo>,
    pub blocked: Vec<BlockedItem>,
}

/// State of the scan that runs in the background.
#[derive(Debug)]
pub enum PluginScanCache {
    Scanning,
    Ready(ScanResult),
}

/// The plugin that is loaded, as the browser is told of it.
#[derive(Debug)]
pub struct LoadedPluginInfo {
    pub plugin_ref: PluginRef,
    pub name: String,
    pub latency_samples: u32,
    pub has_editor: bool,
}

impl LoadedPluginInfo {
    pub fn duplicate(&self) -> (r: LoadedPluginInfo)
        ensures
            r == *self,
    {
        LoadedPluginInfo {
            plugin_ref: self.plugin_ref.duplicate(),
            name: self.name.clone(),
            latency_samples: self.latency_samples,
            has_editor: self.has_editor,
        }
    }
}

/// Index of the first plugin that `r` names, or the number of plugins.
pub open spec fn plugin_index(plugins: Seq<PluginInfo>, r: PluginRef) -> int
    decreases plugins.len(),
{
    if plugins.len() == 0 {
        0
    } else if same_plugin(plugins[0].plugin_ref, r) {
        0
    } else {
        1 + plugin_index(plugins.skip(1), r)
    }
}

/// Has the scan found the plugin?
pub open spec fn is_known(scan: PluginScanCache, r: PluginRef) -> bool {
    match scan {
        PluginScanCache::Scanning => false,
        PluginScanCache::Ready(s) => plugin_index(s.plugins@, r) < s.plugins@.len(),
    }
}

proof fn lemma_plugin_index(plugins: Seq<PluginInfo>, r: PluginRef, i: int)
    requires
        0 <= i <= plugins.len(),
        forall|k: int| 0 <= k < i ==> !same_plugin((#[trigger] plugins[k]).plugin_ref, r),
        i < plugins.len() ==> same_plugin(plugins[i].plugin_ref, r),
    ensures
        plugin_index(plugins, r) == i,
    decreases plugins.len(),
{
    if plugins.len() > 0 && i > 0 {
        assert forall|k: int| 0 <= k < i - 1 implies !same_plugin(
            (#[trigger] plugins.skip(1)[k]).plugin_ref,
            r,
        ) by {
            assert(plugins.skip(1)[k] == plugins[k + 1]);
        }
        assert(!same_plugin(plugins[0].plugin_ref, r));
        lemma_plugin_index(plugins.skip(1), r, i - 1);
    }
}

fn find_plugin(plugins: &Vec<PluginInfo>, r: &PluginRef) -> (i: usize)
    ensures
        i == plugin_index(plugins@, *r),
        i <= plugins@.len(),
{
    let mut i: usize = 0;
    while i < plugins.len() && !plugins[i].plugin_ref.is_same(r)
        invariant
            i <= plugins@.len(),
            forall|k: int| 0 <= k < i ==> !same_plugin((#[trigger] plugins@[k]).plugin_ref, *r),
        decreases plugins@.len() - i,
    {
        i = i + 1;
    }
    proof {
        lemma_plugin_index(plugins@, *r, i as int);
    }
    i
}

/// Why a plugin was not loaded.
#[derive(Debug)]
pub enum LoadError {
    /// The scan did not find it, or is still running.
    Unknown,
    /// The native host refused it, in its own words.
    Host(String),
}

impl LoadError {
    pub open spec fn text_chars(self) -> Seq<char> {
        match self {
            LoadError::Unknown => "plugin inconnu (absent du scan) — chargement refusé"@,
            LoadError::Host(s) => s@,
        }
    }

    pub fn to_text(&self) -> (r: String)
        ensures
            r@ == self.text_chars(),
    {
        match self {
            LoadError::Unknown => "plugin inconnu (absent du scan) — chargement refusé".to_owned(),
            LoadError::Host(s) => s.clone(),
        }
    }
}

/// What is acknowledged of a plugin that was loaded.
#[derive(Debug)]
pub struct LoadedPlugin {
    pub name: String,
    pub latency_samples: u32,
    pub has_editor: bool,
}

/// The slot, and what decides over it.
#[derive(Debug)]
pub struct PluginControl {
    pub instrument_plugin_handle: Option<PluginHandle>,
    pub instrument_plugin_info: Option<LoadedPluginInfo>,
    pub instrument_plugin_bypass: bool,
    /// The plugin was bypassed because it overloaded the agent, and the user has not
    /// acted since.
    pub plugin_auto_bypass_active: bool,
    pub plugin_scan_cache: PluginScanCache,
}

impl PluginControl {
    pub fn new() -> (r: PluginControl)
        ensures
            r.instrument_plugin_handle is None,
            r.instrument_plugin_info is None,
            !r.instrument_plugin_bypass,
            !r.plugin_auto_bypass_active,
            r.plugin_scan_cache is Scanning,
    {
        PluginControl {
            instrument_plugin_handle: None,
            instrument_plugin_info: None,
            instrument_plugin_bypass: false,
            plugin_auto_bypass_active: false,
            plugin_scan_cache: PluginScanCache::Scanning,
        }
    }

    /// The slot after its plugin was taken out.
    pub open spec fn emptied(self) -> PluginControl {
        if self.instrument_plugin_handle is Some {
            PluginControl {
                instrument_plugin_handle: None,
                instrument_plugin_info: None,
                instrument_plugin_bypass: false,
                plugin_auto_bypass_active: false,
                ..self
            }
        } else {
            self
        }
    }

    /// Empties the slot. The instance that was in it, if any, is the caller's to tear
    /// down; the signal is dry from now on.
    pub fn unload(&mut self) -> (r: Option<PluginHandle>)
        ensures
            r == old(self).instrument_plugin_handle,
            *final(self) == old(self).emptied(),
    {
        let handle = self.instrument_plugin_handle.take();
        if handle.is_some() {
            self.instrument_plugin_info = None;
            self.instrument_plugin_bypass = false;
            self.plugin_auto_bypass_active = false;
        }
        handle
    }

    /// First half of loading: the slot is emptied, and the instance that was in it handed
    /// out for tearing down. A plugin that the scan does not know is refused, and the slot
    /// left as it is.
    pub fn begin_load(&mut self, plugin_ref: &PluginRef) -> (r: Result<
        Option<PluginHandle>,
        LoadError,
    >)
        ensures
            is_known(old(self).plugin_scan_cache, *plugin_ref) ==> {
                &&& r == Ok::<Option<PluginHandle>, LoadError>(old(self).instrument_plugin_handle)
                &&& *final(self) == old(self).emptied()
            },
            !is_known(old(self).plugin_scan_cache, *plugin_ref) ==> {
                &&& r == Err::<Option<PluginHandle>, LoadError>(LoadError::Unknown)
                &&& *final(self) == *old(self)
            },
    {
        let known = match &self.plugin_scan_cache {
            PluginScanCache::Scanning => false,
            PluginScanCache::Ready(s) => find_plugin(&s.plugins, plugin_ref) < s.plugins.len(),
        };
        if !known {
            return Err(LoadError::Unknown);
        }
        Ok(self.unload())
    }

    /// Second half of loading: takes what the native host made of it, an instance and its
    /// latency, or its error.
    pub fn finish_load(
        &mut self,
        plugin_ref: &PluginRef,
        loaded: Result<(PluginHandle, u32), String>,
    ) -> (r: Result<LoadedPlugin, LoadError>)
        ensures
            final(self).plugin_scan_cache == old(self).plugin_scan_cache,
            match loaded {
                Err(e) => {
                    &&& r == Err::<LoadedPlugin, LoadError>(LoadError::Host(e))
                    &&& *final(self) == *old(self)
                },
                Ok((handle, latency)) => {
                    &&& r matches Ok(ack)
                    &&& ack.latency_samples == latency
                    &&& if is_known(old(self).plugin_scan_cache, *plugin_ref) {
                        let plugins = old(self).plugin_scan_cache->Ready_0.plugins@;
                        let p = plugins[plugin_index(plugins, *plugin_ref)];
                        ack.name == p.name && ack.has_editor == p.has_editor
                    } else {
                        ack.name@ == "Unknown plugin"@ && !ack.has_editor
                    }
                    &&& final(self).instrument_plugin_handle == Some(handle)
                    &&& !final(self).instrument_plugin_bypass
                    &&& !final(self).plugin_auto_bypass_active
                    &&& final(self).instrument_plugin_info == Some(
                        LoadedPluginInfo {
                            plugin_ref: *plugin_ref,
                            name: ack.name,
                            latency_samples: latency,
                            has_editor: ack.has_editor,
                        },
                    )
                },
            },
    {
        let (handle, latency) = match loaded {
            Ok(p) => p,
            Err(e) => {
                return Err(LoadError::Host(e));
            },
        };
        let (name, has_editor) = match &self.plugin_scan_cache {
            PluginScanCache::Scanning => ("Unknown plugin".to_owned(), false),
            PluginScanCache::Ready(s) => {
                let i: usize = find_plugin(&s.plugins, plugin_ref);
                if i < s.plugins.len() {
                    (s.plugins[i].name.clone(), s.plugins[i].has_editor)
                } else {
                    ("Unknown plugin".to_owned(), false)
                }
            },
        };
        self.instrument_plugin_handle = Some(handle);
        self.instrument_plugin_bypass = false;
        self.plugin_auto_bypass_active = false;
        self.instrument_plugin_info = Some(
            LoadedPluginInfo {
                plugin_ref: plugin_ref.duplicate(),
                name: name.clone(),
                latency_samples: latency,
                has_editor,
            },
        );
        Ok(LoadedPlugin { name, latency_samples: latency, has_editor })
    }

    /// The user switches the plugin off or on. Either way the user has acted, and a
    /// further overload is reported again.
    pub fn set_instrument_plugin_bypass(&mut self, bypass: bool)
        ensures
            *final(self) == (PluginControl {
                instrument_plugin_bypass: bypass,
                plugin_auto_bypass_active: false,
                ..*old(self)
            }),
    {
        self.instrument_plugin_bypass = bypass;
        self.plugin_auto_bypass_active = false;
    }

    /// The plugin overloads the agent: it is switched off until the user acts.
    pub fn bypass_overloaded(&mut self)
        ensures
            *final(self) == (PluginControl {
                instrument_plugin_bypass: true,
                plugin_auto_bypass_active: true,
                ..*old(self)
            }),
    {
        self.instrument_plugin_bypass = true;
        self.plugin_auto_bypass_active = true;
    }

    /// The plugins to choose from, those that are condemned, and whether the scan still
    /// runs.
    pub fn list_instrument_plugins(&self) -> (r: (Vec<PluginInfo>, Vec<BlockedItem>, bool))
        ensures
            match self.plugin_scan_cache {
                PluginScanCache::Scanning => r.0@.len() == 0 && r.1@.len() == 0 && r.2,
                PluginScanCache::Ready(s) => r.0@ == s.plugins@ && r.1@ == s.blocked@ && !r.2,
            },
    {
        match &self.plugin_scan_cache {
            PluginScanCache::Scanning => (Vec::new(), Vec::new(), true),
            PluginScanCache::Ready(s) => (
                duplicate_plugins(&s.plugins),
                duplicate_blocked(&s.blocked),
                false,
            ),
        }
    }

    /// The plugin that is loaded, and whether it is bypassed.
    pub fn get_instrument_plugin_snapshot(&self) -> (r: Option<(LoadedPluginInfo, bool)>)
        ensures
            r == match self.instrument_plugin_info {
                Some(info) => Some((info, self.instrument_plugin_bypass)),
                None => None,
            },
    {
        match &self.instrument_plugin_info {
            Some(info) => Some((info.duplicate(), self.instrument_plugin_bypass)),
            None => None,
        }
    }

    /// Publishes the result of the scan.
    pub fn scan_finished(&mut self, plugins: Vec<PluginInfo>, blocked: Vec<BlockedItem>)
        ensures
            *final(self) == (PluginControl {
                plugin_scan_cache: PluginScanCache::Ready(ScanResult { plugins, blocked }),
                ..*old(self)
            }),
    {
        self.plugin_scan_cache = PluginScanCache::Ready(ScanResult { plugins, blocked });
    }
}

fn duplicate_blocked(items: &Vec<BlockedItem>) -> (r: Vec<BlockedItem>)
    ensures
        r@ == items@,
{
    let mut r: Vec<BlockedItem> = Vec::new();
    let mut i: usize = 0;
    while i < items.len()
        invariant
            i <= items@.len(),
            r@ == items@.take(i as int),
        decreases items@.len() - i,
    {
        r.push(items[i].duplicate());
        assert(items@.take(i + 1) =~= items@.take(i as int).push(items@[i as int]));
        i = i + 1;
    }
    assert(items@.take(i as int) =~= items@);
    r
}

/// Whatever becomes of loading a plugin that the scan knows, no instance of an earlier one
/// stays in the slot: it holds the new instance, or nothing.
pub proof fn a_failed_load_leaves_the_slot_empty(
    before: PluginControl,
    emptied: PluginControl,
    after: PluginControl,
)
    requires
        emptied == before.emptied(),
        after == emptied,
        before.instrument_plugin_info is Some ==> before.instrument_plugin_handle is Some,
    ensures
        after.instrument_plugin_handle is None,
        after.instrument_plugin_info is None,
{
}

/// A plugin is known exactly if a scan is over and has found it: no other is loaded.
pub proof fn only_a_found_plugin_is_known(scan: PluginScanCache, r: PluginRef)
    ensures
        scan is Scanning ==> !is_known(scan, r),
        scan matches PluginScanCache::Ready(s) ==> (is_known(scan, r) <==> exists|i: int|
            0 <= i < s.plugins@.len() && same_plugin((#[trigger] s.plugins@[i]).plugin_ref, r)),
{
    if let PluginScanCache::Ready(s) = scan {
        lemma_plugin_found(s.plugins@, r);
    }
}

proof fn lemma_plugin_found(plugins: Seq<PluginInfo>, r: PluginRef)
    ensures
        0 <= plugin_index(plugins, r) <= plugins.len(),
        plugin_index(plugins, r) < plugins.len() <==> exists|i: int|
            0 <= i < plugins.len() && same_plugin((#[trigger] plugins[i]).plugin_ref, r),
    decreases plugins.len(),
{
    if plugins.len() > 0 {
        if same_plugin(plugins[0].plugin_ref, r) {
            assert(same_plugin(plugins[0].plugin_ref, r));
        } else {
            lemma_plugin_found(plugins.skip(1), r);
            if exists|i: int|
                0 <= i < plugins.len() && same_plugin((#[trigger] plugins[i]).plugin_ref, r) {
                let i = choose|i: int|
                    0 <= i < plugins.len() && same_plugin((#[trigger] plugins[i]).plugin_ref, r);
                assert(plugins.skip(1)[i - 1] == plugins[i]);
            }
            if exists|i: int|
                0 <= i < plugins.len() - 1 && same_plugin(
                    (#[trigger] plugins.skip(1)[i]).plugin_ref,
                    r,
                ) {
                let i = choose|i: int|
                    0 <= i < plugins.len() - 1 && same_plugin(
                        (#[trigger] plugins.skip(1)[i]).plugin_ref,
                        r,
                    );
                assert(plugins[i + 1] == plugins.skip(1)[i]);
            }
        }
    }
}

/// A slot that was emptied holds no plugin and no bypass, and the list of plugins stays. An
/// empty slot is left as it is.
pub proof fn an_emptied_slot_holds_nothing(c: PluginControl)
    ensures
        c.emptied().instrument_plugin_handle is None,
        c.emptied().plugin_scan_cache == c.plugin_scan_cache,
        c.emptied().emptied() == c.emptied(),
        c.instrument_plugin_handle is None ==> c.emptied() == c,
        c.instrument_plugin_handle is Some ==> c.emptied().instrument_plugin_info is None
            && !c.emptied().instrument_plugin_bypass && !c.emptied().plugin_auto_bypass_active,
{
}

/// A plugin that no scan has found is refused in fixed words; what the host says is told as it
/// is.
pub proof fn every_refusal_has_its_words(e: LoadError)
    ensures
        e is Unknown ==> e.text_chars() == "plugin inconnu (absent du scan) — chargement refusé"@,
        e matches LoadError::Host(s) ==> e.text_chars() == s@,
{
}

/// Of several entries of one plugin the first one counts.
pub proof fn the_first_entry_of_a_plugin_counts(plugins: Seq<PluginInfo>, r: PluginRef, i: int)
    requires
        0 <= i <= plugins.len(),
        forall|k: int| 0 <= k < i ==> !same_plugin((#[trigger] plugins[k]).plugin_ref, r),
        i < plugins.len() ==> same_plugin(plugins[i].plugin_ref, r),
    ensures
        plugin_index(plugins, r) == i,
{
    lemma_plugin_index(plugins, r, i);
}

} // verus!
