//! Who may speak to the agent, and where the agent may send sound.

use crate::text;
use vstd::prelude::*;
use vstd::string::*;

verus! {

/// End of the address of a preview that the team deployed. Nobody else can deploy under it.
pub open spec fn team_suffix() -> Seq<char> {
    "-bengo82-9540s-projects.vercel.app"@
}

/// Is the origin the agent's own window? The names are compared whole: a longer one may be
/// anybody's.
pub open spec fn is_internal(origin: Seq<char>) -> bool {
    origin == "tauri://localhost"@ || origin == "http://tauri.localhost"@
}

/// Is the origin served from here to a build for development?
pub open spec fn is_local(origin: Seq<char>) -> bool {
    "http://localhost:"@.is_prefix_of(origin) || "http://127.0.0.1:"@.is_prefix_of(origin)
}

/// May a page of this origin drive the agent?
pub open spec fn allowed(origin: Option<Seq<char>>, debug_build: bool) -> bool {
    match origin {
        None => debug_build,
        Some(o) => {
            ||| o == "https://jamodio.com"@
            ||| o == "https://www.jamodio.com"@
            ||| "https://jamodio-"@.is_prefix_of(o) && team_suffix().is_suffix_of(o)
            ||| is_internal(o)
            ||| o == "file://"@
            ||| debug_build && is_local(o)
        },
    }
}

/// Does the origin name the agent's own window?
pub fn is_internal_client_origin(origin: &str) -> (r: bool)
    ensures
        r == is_internal(origin@),
{
    text::same(origin, "tauri://localhost") || text::same(origin, "http://tauri.localhost")
}

/// Checks the origin of a request to connect. Without one only a build for development
/// connects, and so it is with pages that are served locally.
pub fn origin_allowed(origin: Option<&str>, debug_build: bool) -> (r: bool)
    ensures
        r == allowed(
            match origin {
                Some(o) => Some(o@),
                None => None,
            },
            debug_build,
        ),
{
    match origin {
        None => debug_build,
        Some(o) => {
            text::same(o, "https://jamodio.com") || text::same(o, "https://www.jamodio.com") || (
            text::starts_with(o, "https://jamodio-") && text::ends_with(
                o,
                "-bengo82-9540s-projects.vercel.app",
            )) || is_internal_client_origin(o) || text::same(o, "file://") || (debug_build && (
            text::starts_with(o, "http://localhost:") || text::starts_with(
                o,
                "http://127.0.0.1:",
            )))
        },
    }
}

/// Is one of the parts of the query, which `&` separates, this one?
pub open spec fn has_part(query: Seq<char>, part: Seq<char>) -> bool
    decreases query.len(),
{
    match text::split_at_first(query, '&') {
        Some((head, tail)) => head == part || (tail.len() < query.len() && has_part(tail, part)),
        None => query == part,
    }
}

/// Does the query ask for a connection that serves the logs only?
pub fn is_logs_only(query: &str) -> (r: bool)
    ensures
        r == has_part(query@, "op=logs"@),
    decreases query@.len(),
{
    match text::split_once(query, '&') {
        Some((head, tail)) => {
            proof {
                text::lemma_index_from(query@, '&', 0);
            }
            text::same(head.as_str(), "op=logs") || is_logs_only(tail.as_str())
        },
        None => text::same(query, "op=logs"),
    }
}

/// An address of the internet protocol.
#[derive(Clone, Copy, Debug, PartialEq, Eq)]
pub enum IpAddress {
    V4 { octets: [u8; 4] },
    V6 { segments: [u16; 8] },
}

impl IpAddress {
    /// No address in particular.
    pub open spec fn is_unspecified(self) -> bool {
        match self {
            IpAddress::V4 { octets } => forall|i: int| 0 <= i < 4 ==> #[trigger] octets@[i] == 0,
            IpAddress::V6 { segments } => forall|i: int|
                0 <= i < 8 ==> #[trigger] segments@[i] == 0,
        }
    }

    /// Many machines at once.
    pub open spec fn is_multicast(self) -> bool {
        match self {
            IpAddress::V4 { octets } => 224 <= octets@[0] <= 239,
            IpAddress::V6 { segments } => segments@[0] >= 0xff00,
        }
    }

    /// The machine itself.
    pub open spec fn is_loopback(self) -> bool {
        match self {
            IpAddress::V4 { octets } => octets@[0] == 127,
            IpAddress::V6 { segments } => segments@[7] == 1 && forall|i: int|
                0 <= i < 7 ==> #[trigger] segments@[i] == 0,
        }
    }
}

/// May sound be sent to this address? An address that cannot be read is none.
pub open spec fn valid_destination(ip: Option<IpAddress>, debug_build: bool) -> bool {
    match ip {
        None => false,
        Some(a) => !a.is_unspecified() && !a.is_multicast() && (debug_build || !a.is_loopback()),
    }
}

/// Checks the destination that the browser names, the same for the instrument and the voice.
/// `ip` is the address as it was read, nothing where it could not be read. The machine
/// itself is a destination for a build for development only.
pub fn is_valid_sfu_dest(ip: Option<IpAddress>, debug_build: bool) -> (r: bool)
    ensures
        r == valid_destination(ip, debug_build),
{
    match ip {
        None => false,
        Some(IpAddress::V4 { octets }) => {
            let zero = octets[0] == 0 && octets[1] == 0 && octets[2] == 0 && octets[3] == 0;
            let multicast = 224 <= octets[0] && octets[0] <= 239;
            let loopback = octets[0] == 127;
            assert(zero == (IpAddress::V4 { octets }).is_unspecified());
            !zero && !multicast && (debug_build || !loopback)
        },
        Some(IpAddress::V6 { segments }) => {
            let head = segments[0] == 0 && segments[1] == 0 && segments[2] == 0 && segments[3] == 0
                && segments[4] == 0 && segments[5] == 0 && segments[6] == 0;
            let zero = head && segments[7] == 0;
            let multicast = segments[0] >= 0xff00;
            let loopback = head && segments[7] == 1;
            assert(head == (forall|i: int| 0 <= i < 7 ==> #[trigger] segments@[i] == 0));
            assert(zero == (IpAddress::V6 { segments }).is_unspecified());
            !zero && !multicast && (debug_build || !loopback)
        },
    }
}

/// A build for release never sends sound to the machine itself, and talks to no page that
/// does not say where it comes from.
pub proof fn a_release_keeps_to_itself(ip: IpAddress, origin: Seq<char>)
    ensures
        ip.is_loopback() ==> !valid_destination(Some(ip), false),
        !allowed(None, false),
        is_internal(origin) ==> allowed(Some(origin), false),
        allowed(Some(origin), false) ==> allowed(Some(origin), true),
{
}

/// The pages that may connect: the site and its previews by the team, the agent's own window,
/// and a page from a file. A page of this machine may only in a build for debugging, and so
/// may one that does not say where it comes from.
pub proof fn only_known_pages_may_connect(origin: Seq<char>, debug_build: bool)
    ensures
        allowed(None, debug_build) == debug_build,
        origin == "https://jamodio.com"@ || origin == "https://www.jamodio.com"@ || origin
            == "file://"@ || origin == "tauri://localhost"@ || origin == "http://tauri.localhost"@
            ==> allowed(Some(origin), debug_build),
        "https://jamodio-"@.is_prefix_of(origin)
            && "-bengo82-9540s-projects.vercel.app"@.is_suffix_of(origin) ==> allowed(
            Some(origin),
            debug_build,
        ),
        "http://localhost:"@.is_prefix_of(origin) || "http://127.0.0.1:"@.is_prefix_of(origin)
            ==> allowed(Some(origin), true),
        allowed(Some(origin), debug_build) ==> {
            ||| origin == "https://jamodio.com"@
            ||| origin == "https://www.jamodio.com"@
            ||| "https://jamodio-"@.is_prefix_of(origin)
                && "-bengo82-9540s-projects.vercel.app"@.is_suffix_of(origin)
            ||| origin == "tauri://localhost"@
            ||| origin == "http://tauri.localhost"@
            ||| origin == "file://"@
            ||| debug_build && ("http://localhost:"@.is_prefix_of(origin)
                || "http://127.0.0.1:"@.is_prefix_of(origin))
        },
        is_internal(origin) <==> origin == "tauri://localhost"@ || origin
            == "http://tauri.localhost"@,
{
}

/// A query has a part exactly if the part stands in it from one sign to the next: as the first
/// of them, or among those that follow.
pub proof fn a_query_is_the_parts_between_its_signs(
    head: Seq<char>,
    tail: Seq<char>,
    part: Seq<char>,
)
    requires
        forall|i: int| 0 <= i < head.len() ==> #[trigger] head[i] != '&',
    ensures
        has_part(head, part) <==> head == part,
        has_part(head.push('&') + tail, part) <==> head == part || has_part(tail, part),
{
    text::a_split_puts_together_again(head, '&', tail);
}

/// Sound goes to one machine: not to no address, not to a group, and, from a build for release,
/// not to the agent's own.
pub proof fn sound_goes_to_one_machine(ip: IpAddress, debug_build: bool)
    ensures
        !valid_destination(None, debug_build),
        ip matches IpAddress::V4 { octets } ==> (valid_destination(Some(ip), debug_build) <==> {
            &&& octets@[0] != 0 || octets@[1] != 0 || octets@[2] != 0 || octets@[3] != 0
            &&& octets@[0] < 224 || octets@[0] > 239
            &&& octets@[0] != 127 || debug_build
        }),
        ip matches IpAddress::V6 { segments } ==> (valid_destination(Some(ip), debug_build) <==> {
            let head = segments@[0] == 0 && segments@[1] == 0 && segments@[2] == 0 && segments@[3]
                == 0 && segments@[4] == 0 && segments@[5] == 0 && segments@[6] == 0;
            &&& !head || segments@[7] != 0
            &&& segments@[0] < 0xff00
            &&& !head || segments@[7] != 1 || debug_build
        }),
{
    match ip {
        IpAddress::V4 { octets } => {
            let zero = octets@[0] == 0 && octets@[1] == 0 && octets@[2] == 0 && octets@[3] == 0;
            assert(zero == ip.is_unspecified());
        },
        IpAddress::V6 { segments } => {
            let head = segments@[0] == 0 && segments@[1] == 0 && segments@[2] == 0 && segments@[3]
                == 0 && segments@[4] == 0 && segments@[5] == 0 && segments@[6] == 0;
            let zero = head && segments@[7] == 0;
            assert(head == (forall|i: int| 0 <= i < 7 ==> #[trigger] segments@[i] == 0));
            assert(zero == ip.is_unspecified());
        },
    }
}

} // verus!
