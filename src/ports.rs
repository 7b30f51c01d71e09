use vstd::prelude::*;

verus! {

/// The set of TCP ports held by live In-mode listeners.
///
/// Stored as a vector without duplicates; its view is the set of its elements.
pub struct PortRegistry {
    ports: Vec<u16>,
}

impl View for PortRegistry {
    type V = Set<u16>;

    closed spec fn view(&self) -> Set<u16> {
        self.ports@.to_set()
    }
}

impl PortRegistry {
    /// No port occurs twice.
    #[verifier::type_invariant]
    spec fn wf(&self) -> bool {
        self.ports@.no_duplicates()
    }

    /// An empty registry.
    pub fn new() -> (r: Self)
        ensures
            r@ == Set::<u16>::empty(),
    {
        let r = PortRegistry { ports: Vec::new() };
        assert(r@ =~= Set::<u16>::empty());
        r
    }

    /// Number of ports held.
    pub fn len(&self) -> (r: usize)
        ensures
            r as int == self@.len(),
    {
        proof {
            use_type_invariant(self);
            self.ports@.unique_seq_to_set();
        }
        self.ports.len()
    }

    /// Whether `port` is held.
    pub fn contains(&self, port: u16) -> (r: bool)
        ensures
            r == self@.contains(port),
    {
        let mut i: usize = 0;
        while i < self.ports.len()
            invariant
                0 <= i <= self.ports@.len(),
                forall|j: int| 0 <= j < i ==> self.ports@[j] != port,
            decreases self.ports@.len() - i,
        {
            if self.ports[i] == port {
                assert(self.ports@.to_set().contains(self.ports@[i as int]));
                return true;
            }
            i = i + 1;
        }
        proof {
            if self.ports@.to_set().contains(port) {
                let k = choose|k: int| 0 <= k < self.ports@.len() && self.ports@[k] == port;
                assert(self.ports@[k] == port);
            }
        }
        false
    }

    /// Takes `port` if it is free: returns `true` and adds it, or returns
    /// `false` and leaves the registry as it was when it is already held.
    pub fn try_allocate(&mut self, port: u16) -> (r: bool)
        ensures
            r == !old(self)@.contains(port),
            r ==> final(self)@ == old(self)@.insert(port),
            !r ==> final(self)@ == old(self)@,
    {
        proof {
            use_type_invariant(&*self);
        }
        if self.contains(port) {
            false
        } else {
            let ghost before = self.ports@;
            let mut ports = Vec::new();
            std::mem::swap(&mut ports, &mut self.ports);
            ports.push(port);
            self.ports = ports;
            proof {
                assert(self.ports@ == before.push(port));
                assert(self.ports@.no_duplicates()) by {
                    assert forall|a: int, b: int|
                        0 <= a < self.ports@.len() && 0 <= b < self.ports@.len() && a != b
                        implies self.ports@[a] != self.ports@[b] by {
                        if a == before.len() as int {
                            assert(before.to_set().contains(before[b]));
                        } else if b == before.len() as int {
                            assert(before.to_set().contains(before[a]));
                        }
                    }
                }
                assert(self.ports@.to_set() =~= before.to_set().insert(port)) by {
                    assert forall|x: u16| #[trigger] self.ports@.to_set().contains(x)
                        implies before.to_set().insert(port).contains(x) by {
                        let k = choose|k: int| 0 <= k < self.ports@.len() && self.ports@[k] == x;
                        if k < before.len() {
                            assert(before[k] == x);
                        }
                    }
                    assert forall|x: u16| #[trigger] before.to_set().insert(port).contains(x)
                        implies self.ports@.to_set().contains(x) by {
                        if x == port {
                            assert(self.ports@[before.len() as int] == x);
                        } else {
                            let k = choose|k: int| 0 <= k < before.len() && before[k] == x;
                            assert(self.ports@[k] == x);
                        }
                    }
                }
            }
            true
        }
    }

    /// Gives `port` back; a port that is not held leaves the registry unchanged.
    pub fn release(&mut self, port: u16)
        ensures
            final(self)@ == old(self)@.remove(port),
    {
        proof {
            use_type_invariant(&*self);
        }
        let ghost before = self.ports@;
        let mut i: usize = 0;
        while i < self.ports.len()
            invariant
                self.ports@ == before,
                before == old(self).ports@,
                before.no_duplicates(),
                0 <= i <= before.len(),
                forall|j: int| 0 <= j < i ==> before[j] != port,
            decreases before.len() - i,
        {
            if self.ports[i] == port {
                let mut ports = Vec::new();
                std::mem::swap(&mut ports, &mut self.ports);
                ports.remove(i);
                self.ports = ports;
                proof {
                    let after = self.ports@;
                    assert(after == before.remove(i as int));
                    assert(after.no_duplicates()) by {
                        assert forall|a: int, b: int|
                            0 <= a < after.len() && 0 <= b < after.len() && a != b
                            implies after[a] != after[b] by {
                            let a2 = if a < i { a } else { a + 1 };
                            let b2 = if b < i { b } else { b + 1 };
                            assert(after[a] == before[a2]);
                            assert(after[b] == before[b2]);
                            assert(a2 != b2);
                            assert(before.no_duplicates());
                        }
                    }
                    assert(after.to_set() =~= before.to_set().remove(port)) by {
                        assert forall|x: u16| #[trigger] after.to_set().contains(x)
                            implies before.to_set().remove(port).contains(x) by {
                            let k = choose|k: int| 0 <= k < after.len() && after[k] == x;
                            let k2 = if k < i { k } else { k + 1 };
                            assert(before[k2] == x);
                            assert(k2 != i as int);
                            assert(before.no_duplicates());
                            assert(before[i as int] == port);
                            assert(x != port);
                        }
                        assert forall|x: u16| #[trigger] before.to_set().remove(port).contains(x)
                            implies after.to_set().contains(x) by {
                            let k = choose|k: int| 0 <= k < before.len() && before[k] == x;
                            assert(k != i as int);
                            let k2 = if k < i { k } else { k - 1 };
                            assert(after[k2] == x);
                        }
                    }
                }
                return;
            }
            i = i + 1;
        }
        proof {
            assert(before.to_set() =~= before.to_set().remove(port)) by {
                if before.to_set().contains(port) {
                    let k = choose|k: int| 0 <= k < before.len() && before[k] == port;
                    assert(before[k] == port);
                }
            }
        }
    }
}

/// One change to the port registry: an In-mode login that asks for a port, or
/// the termination of the session that holds a port.
#[derive(Clone, Copy, Debug, PartialEq, Eq, Structural)]
pub enum PortEvent {
    Login(u16),
    Terminate(u16),
}

/// The registry's contents after `events`, starting from an empty registry:
/// a login allocates its port (nothing changes when the port is taken) and a
/// termination releases it, as `try_allocate` and `release` do.
pub open spec fn replay(events: Seq<PortEvent>) -> Set<u16>
    decreases events.len(),
{
    if events.len() == 0 {
        Set::empty()
    } else {
        let prev = replay(events.drop_last());
        match events.last() {
            PortEvent::Login(p) => prev.insert(p),
            PortEvent::Terminate(p) => prev.remove(p),
        }
    }
}

/// The login at index `i` succeeded: its port was free when it came.
pub open spec fn login_succeeded(events: Seq<PortEvent>, i: int) -> bool {
    &&& 0 <= i < events.len()
    &&& events[i] matches PortEvent::Login(p)
    &&& !replay(events.take(i)).contains(p)
}

/// The ports whose listener is still live after `events`: a successful login
/// bound it and no later termination of that port has come.
pub open spec fn live_listener_ports(events: Seq<PortEvent>) -> Set<u16> {
    Set::new(
        |p: u16|
            exists|i: int|
                #![trigger events[i]]
                login_succeeded(events, i) && events[i] == PortEvent::Login(p) && forall|j: int|
                    i < j < events.len() ==> events[j] != PortEvent::Terminate(p),
    )
}

/// After any sequence of In-mode logins and session terminations, the
/// registry holds exactly the ports of the listeners that are still live.
pub proof fn lemma_registry_matches_live_listeners(events: Seq<PortEvent>)
    ensures
        replay(events) == live_listener_ports(events),
    decreases events.len(),
{
    if events.len() == 0 {
        assert(live_listener_ports(events) =~= Set::empty());
    } else {
        let s = events.drop_last();
        let e = events.last();
        lemma_registry_matches_live_listeners(s);
        assert forall|i: int| 0 <= i < s.len() implies events.take(i) == s.take(i) && events[i]
            == s[i] by {
            assert(events.take(i) =~= s.take(i));
        }
        assert(events.take(s.len() as int) =~= s);
        match e {
            PortEvent::Login(p) => {
                assert forall|q: u16| #[trigger]
                    replay(events).contains(q) == live_listener_ports(events).contains(q) by {
                    if live_listener_ports(s).contains(q) {
                        let i = choose|i: int|
                            #![trigger s[i]]
                            login_succeeded(s, i) && s[i] == PortEvent::Login(q) && forall|j: int|
                                i < j < s.len() ==> s[j] != PortEvent::Terminate(q);
                        assert(events[i] == s[i]);
                        assert(login_succeeded(events, i));
                    }
                    if live_listener_ports(events).contains(q) {
                        let i = choose|i: int|
                            #![trigger events[i]]
                            login_succeeded(events, i) && events[i] == PortEvent::Login(q)
                                && forall|j: int|
                                i < j < events.len() ==> events[j] != PortEvent::Terminate(q);
                        if i < s.len() {
                            assert(s[i] == events[i]);
                            assert(login_succeeded(s, i));
                            assert(live_listener_ports(s).contains(q));
                        }
                    }
                    if q == p && !replay(s).contains(p) {
                        assert(login_succeeded(events, s.len() as int));
                        assert(live_listener_ports(events).contains(q));
                    }
                }
                assert(replay(events) =~= live_listener_ports(events));
            },
            PortEvent::Terminate(p) => {
                assert forall|q: u16| #[trigger]
                    replay(events).contains(q) == live_listener_ports(events).contains(q) by {
                    if q != p && live_listener_ports(s).contains(q) {
                        let i = choose|i: int|
                            #![trigger s[i]]
                            login_succeeded(s, i) && s[i] == PortEvent::Login(q) && forall|j: int|
                                i < j < s.len() ==> s[j] != PortEvent::Terminate(q);
                        assert(events[i] == s[i]);
                        assert(login_succeeded(events, i));
                    }
                    if live_listener_ports(events).contains(q) {
                        let i = choose|i: int|
                            #![trigger events[i]]
                            login_succeeded(events, i) && events[i] == PortEvent::Login(q)
                                && forall|j: int|
                                i < j < events.len() ==> events[j] != PortEvent::Terminate(q);
                        assert(i < s.len());
                        assert(s[i] == events[i]);
                        assert(login_succeeded(s, i));
                        assert(live_listener_ports(s).contains(q));
                        assert(q != p);
                    }
                }
                assert(replay(events) =~= live_listener_ports(events));
            },
        }
    }
}

} // verus!
