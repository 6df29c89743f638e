//! The items that a scan takes: files on Windows, registered AudioUnits on macOS.

use crate::au_host::AuComponentId;
use crate::plugin::Platform;
use crate::plugin_scan::protocol::{au_chars, AuItem};
use vstd::prelude::*;
use vstd::string::*;

verus! {

/// The items to scan: the paths that were found, or the AudioUnits that are registered,
/// or nothing where there is no plugin host.
pub fn discover_items(
    platform: Platform,
    vst3_paths: Vec<String>,
    components: Vec<AuComponentId>,
) -> (r: Vec<String>)
    ensures
        platform == Platform::Windows ==> r == vst3_paths,
        platform == Platform::MacOs ==> {
            &&& r@.len() == components@.len()
            &&& forall|i: int|
                0 <= i < r@.len() ==> (#[trigger] r@[i])@ == au_chars(
                    components@[i].au_type@,
                    components@[i].subtype@,
                    components@[i].manufacturer@,
                )
        },
        platform == Platform::Other ==> r@.len() == 0,
{
    match platform {
        Platform::Windows => vst3_paths,
        Platform::MacOs => {
            let mut r: Vec<String> = Vec::new();
            let mut i: usize = 0;
            while i < components.len()
                invariant
                    i <= components@.len(),
                    r@.len() == i,
                    forall|k: int|
                        0 <= k < i ==> (#[trigger] r@[k])@ == au_chars(
                            components@[k].au_type@,
                            components@[k].subtype@,
                            components@[k].manufacturer@,
                        ),
                decreases components@.len() - i,
            {
                let c = &components[i];
                let item = AuItem {
                    au_type: c.au_type.clone(),
                    subtype: c.subtype.clone(),
                    manufacturer: c.manufacturer.clone(),
                };
                r.push(item.encode());
                i = i + 1;
            }
            r
        },
        Platform::Other => Vec::new(),
    }
}

} // verus!
