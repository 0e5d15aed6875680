//! Discovery of the security-context capability among the globals that the
//! display server advertises during one round-trip.
//!
//! The resolver sees each advertisement once, in the order the display server
//! sent it. The first advertisement whose interface is the capability's is
//! bound; every other advertisement, a later duplicate included, is passed
//! over.

use vstd::prelude::*;
use vstd::string::*;

verus! {

/// Interface name under which the display server advertises the capability.
pub const SECURITY_CONTEXT_MANAGER: &'static str = "wp_security_context_manager_v1";

/// Highest version of the capability that this library drives.
pub const SUPPORTED_VERSION: u32 = 1;

/// The bound capability: the registry name it was advertised under and the
/// version that was requested for it.
#[derive(Clone, Copy, Debug, PartialEq, Eq, Structural)]
pub struct CapabilityHandle {
    pub name: u32,
    pub version: u32,
}

/// One global as the display server advertised it.
#[derive(Clone, Debug)]
pub struct Advertisement {
    pub name: u32,
    pub interface: String,
    pub version: u32,
}

/// Whether `interface` names the security-context capability.
pub open spec fn is_manager(interface: Seq<char>) -> bool {
    interface == SECURITY_CONTEXT_MANAGER@
}

/// The version to request of a capability advertised at `advertised`: the
/// advertised one, but never more than this library drives.
pub open spec fn requested_version(advertised: u32) -> u32 {
    if advertised <= SUPPORTED_VERSION {
        advertised
    } else {
        SUPPORTED_VERSION
    }
}

/// The handle that binding the global `name`, advertised at `advertised`,
/// gives.
pub open spec fn handle_for(name: u32, advertised: u32) -> CapabilityHandle {
    CapabilityHandle { name, version: requested_version(advertised) }
}

/// Whether `index` is the place of the first advertisement of the capability
/// in `globals`.
pub open spec fn is_first_manager(globals: Seq<Advertisement>, index: int) -> bool {
    &&& 0 <= index < globals.len()
    &&& is_manager(globals[index].interface@)
    &&& forall|earlier: int|
        0 <= earlier < index ==> !is_manager(#[trigger] globals[earlier].interface@)
}

/// What discovery over `globals` yields: the handle for the first
/// advertisement of the capability, or nothing where none advertises it.
pub open spec fn discovered(globals: Seq<Advertisement>) -> Option<CapabilityHandle>
    decreases globals.len(),
{
    if globals.len() == 0 {
        None
    } else if is_manager(globals[0].interface@) {
        Some(handle_for(globals[0].name, globals[0].version))
    } else {
        discovered(globals.drop_first())
    }
}

/// Whether `interface` names the security-context capability.
pub fn names_manager(interface: &str) -> (yes: bool)
    ensures
        yes == is_manager(interface@),
{
    let given = String::from_str(interface);
    let wanted = String::from_str(SECURITY_CONTEXT_MANAGER);
    given == wanted
}

/// What the resolver has learnt so far in a discovery round-trip.
#[derive(Clone, Copy, Debug, PartialEq, Eq, Structural)]
pub struct AppData {
    pub security_manager: Option<CapabilityHandle>,
}

impl AppData {
    /// The resolver before any advertisement: nothing is bound.
    pub fn new() -> (data: Self)
        ensures
            data.security_manager is None,
    {
        AppData { security_manager: None }
    }

    /// Whether an advertisement of `interface` is to be bound in this state.
    pub open spec fn binds(self, interface: Seq<char>) -> bool {
        self.security_manager is None && is_manager(interface)
    }

    /// The state after the advertisement of global `name` with `interface` at
    /// `version`.
    pub open spec fn observe(self, name: u32, interface: Seq<char>, version: u32) -> AppData {
        if self.binds(interface) {
            AppData { security_manager: Some(handle_for(name, version)) }
        } else {
            self
        }
    }

    /// The state after every advertisement of `globals`, in order.
    pub open spec fn observe_all(self, globals: Seq<Advertisement>) -> AppData
        decreases globals.len(),
    {
        if globals.len() == 0 {
            self
        } else {
            self.observe(globals[0].name, globals[0].interface@, globals[0].version).observe_all(
                globals.drop_first(),
            )
        }
    }

    /// Takes in one advertisement. Returns the handle to bind now, which is
    /// then recorded as bound, or nothing where the advertisement is passed
    /// over: it is of another interface, or the capability is bound already.
    pub fn event(&mut self, name: u32, interface: &str, version: u32) -> (bind: Option<
        CapabilityHandle,
    >)
        ensures
            *final(self) == old(self).observe(name, interface@, version),
            bind == (if old(self).binds(interface@) {
                Some(handle_for(name, version))
            } else {
                None::<CapabilityHandle>
            }),
    {
        if self.security_manager.is_none() && names_manager(interface) {
            let version = if version <= SUPPORTED_VERSION {
                version
            } else {
                SUPPORTED_VERSION
            };
            let handle = CapabilityHandle { name, version };
            self.security_manager = Some(handle);
            Some(handle)
        } else {
            None
        }
    }
}

/// Once the capability is bound, no advertisement changes the resolver.
pub proof fn lemma_bound_stays_bound(data: AppData, globals: Seq<Advertisement>)
    requires
        data.security_manager is Some,
    ensures
        data.observe_all(globals) == data,
    decreases globals.len(),
{
    if globals.len() > 0 {
        lemma_bound_stays_bound(data, globals.drop_first());
    }
}

/// Taking the advertisements in one by one, from a resolver with nothing
/// bound, binds what discovery over the whole list yields.
pub proof fn lemma_observe_all_discovers(globals: Seq<Advertisement>)
    ensures
        (AppData { security_manager: None }).observe_all(globals).security_manager == discovered(
            globals,
        ),
    decreases globals.len(),
{
    let fresh = AppData { security_manager: None };
    if globals.len() > 0 {
        if is_manager(globals[0].interface@) {
            lemma_bound_stays_bound(
                fresh.observe(globals[0].name, globals[0].interface@, globals[0].version),
                globals.drop_first(),
            );
        } else {
            lemma_observe_all_discovers(globals.drop_first());
        }
    }
}

/// Discovery binds the first advertisement of the capability and yields
/// nothing exactly where no advertisement is of the capability.
pub proof fn lemma_discovered_is_first(globals: Seq<Advertisement>)
    ensures
        discovered(globals) matches Some(handle) ==> exists|index: int|
            #![trigger is_first_manager(globals, index)]
            is_first_manager(globals, index) && handle == handle_for(
                globals[index].name,
                globals[index].version,
            ),
        discovered(globals) is None ==> forall|index: int|
            0 <= index < globals.len() ==> !is_manager(#[trigger] globals[index].interface@),
    decreases globals.len(),
{
    if globals.len() > 0 {
        if is_manager(globals[0].interface@) {
            assert(is_first_manager(globals, 0));
        } else {
            let rest = globals.drop_first();
            lemma_discovered_is_first(rest);
            match discovered(rest) {
                Some(handle) => {
                    let index = choose|index: int|
                        #![trigger is_first_manager(rest, index)]
                        is_first_manager(rest, index) && handle == handle_for(
                            rest[index].name,
                            rest[index].version,
                        );
                    assert forall|earlier: int| 0 <= earlier < index + 1 implies !is_manager(
                        #[trigger] globals[earlier].interface@,
                    ) by {
                        if earlier > 0 {
                            assert(globals[earlier] == rest[earlier - 1]);
                        }
                    }
                    assert(globals[index + 1] == rest[index]);
                    assert(is_first_manager(globals, index + 1));
                },
                None => {
                    assert forall|index: int| 0 <= index < globals.len() implies !is_manager(
                        #[trigger] globals[index].interface@,
                    ) by {
                        if index > 0 {
                            assert(globals[index] == rest[index - 1]);
                        }
                    }
                },
            }
        }
    }
}

/// Resolves the capability from the advertisements of one round-trip, taken
/// in the order they arrived.
pub fn discover(globals: &Vec<Advertisement>) -> (found: Option<CapabilityHandle>)
    ensures
        found == discovered(globals@),
{
    let mut data = AppData::new();
    let mut next: usize = 0;
    assert(globals@.subrange(0, globals@.len() as int) == globals@);
    while next < globals.len()
        invariant
            next <= globals.len(),
            data.observe_all(globals@.subrange(next as int, globals@.len() as int)) == (AppData {
                security_manager: None,
            }).observe_all(globals@),
        decreases globals.len() - next,
    {
        let global = &globals[next];
        let ghost rest = globals@.subrange(next as int, globals@.len() as int);
        assert(rest[0] == globals@[next as int]);
        assert(rest.drop_first() == globals@.subrange(next as int + 1, globals@.len() as int));
        data.event(global.name, global.interface.as_str(), global.version);
        next = next + 1;
    }
    proof {
        assert(globals@.subrange(next as int, globals@.len() as int).len() == 0);
        lemma_observe_all_discovers(globals@);
    }
    data.security_manager
}

} // verus!
