//! Special utilities for debugging ROMs on emulators.
//!
//! The decisions of the debug interfaces stand here; reading and writing the
//! emulators' registers is the caller's job.
use vstd::prelude::*;

pub mod mgba;
pub mod nocash;

verus! {

/// A cross-emulator debug level.
#[derive(Debug, Clone, Copy, PartialEq, Eq)]
pub enum DebugLevel {
    /// This causes the emulator (or debug interface) to halt!
    Fatal,
    Error,
    Warning,
    Info,
    Debug,
}

/// The emulator debug interfaces that can be detected.
#[derive(Debug, Clone, Copy, PartialEq, Eq)]
pub enum DetectedInterface {
    /// The mGBA emulator.
    MGBA,
    /// The NO$GBA emulator.
    NoCash,
}

/// Which interface to use once detection has run: mGBA is preferred, then
/// NO$GBA, else there is none.
pub fn pick_interface(mgba_detected: bool, nocash_detected: bool) -> (r: Option<DetectedInterface>)
    ensures
        r == if mgba_detected {
            Some(DetectedInterface::MGBA)
        } else if nocash_detected {
            Some(DetectedInterface::NoCash)
        } else {
            None
        },
{
    if mgba_detected {
        Some(DetectedInterface::MGBA)
    } else if nocash_detected {
        Some(DetectedInterface::NoCash)
    } else {
        None
    }
}

/// What the debug functions remember between calls: the interface in use,
/// whether debugging was switched off, and whether interface detection has
/// already run (it runs at most once).
///
/// `I` is the handle of an interface.
pub struct DebugState<I> {
    interface: Option<I>,
    no_debug: bool,
    detection_done: bool,
}

impl<I: Copy> DebugState<I> {
    /// The interface in use, if any.
    pub closed spec fn interface(self) -> Option<I> {
        self.interface
    }

    /// Whether debugging was switched off.
    pub closed spec fn disabled(self) -> bool {
        self.no_debug
    }

    /// Whether interface detection has run.
    pub closed spec fn detection_done(self) -> bool {
        self.detection_done
    }

    /// Whether the next lookup runs the detection: only while debugging is
    /// on, no interface is set and detection has not run yet.
    pub open spec fn wants_detection(self) -> bool {
        !self.disabled() && self.interface().is_none() && !self.detection_done()
    }

    /// The state after debugging is switched off.
    pub closed spec fn with_disabled(self) -> Self {
        DebugState { interface: None, no_debug: true, detection_done: self.detection_done }
    }

    /// One lookup, when the detection would find `found`: the state
    /// afterwards and the interface given.
    ///
    /// While debugging is off nothing is given and nothing changes. Otherwise
    /// the interface in use is given; when there is none and detection has
    /// not run, it runs, and what it finds becomes the interface in use.
    pub closed spec fn lookup(self, found: Option<I>) -> (Self, Option<I>) {
        if self.no_debug {
            (self, None)
        } else if self.interface.is_none() && !self.detection_done {
            let next = DebugState {
                interface: found,
                no_debug: false,
                detection_done: true,
            };
            (next, found)
        } else {
            (self, self.interface)
        }
    }

    /// The interfaces that a run of lookups gives from `self`, the detection
    /// finding `founds[k]` at the `k`-th lookup.
    pub open spec fn lookups(self, founds: Seq<Option<I>>) -> Seq<Option<I>>
        decreases founds.len(),
    {
        if founds.len() == 0 {
            Seq::empty()
        } else {
            let (next, r) = self.lookup(founds[0]);
            seq![r] + next.lookups(founds.drop_first())
        }
    }

    /// The state before any call: no interface, debugging on, no detection yet.
    pub fn new() -> (s: Self)
        ensures
            s.interface().is_none(),
            !s.disabled(),
            !s.detection_done(),
    {
        DebugState { interface: None, no_debug: false, detection_done: false }
    }

    /// Sets the debug interface in use manually.
    pub fn set_debug_interface(&mut self, interface: I)
        ensures
            final(self).interface() == Some(interface),
            !final(self).disabled(),
            final(self).detection_done() == old(self).detection_done(),
    {
        self.interface = Some(interface);
        self.no_debug = false;
    }

    /// Disables debugging: until the next [`Self::set_debug_interface`],
    /// every lookup gives `None`.
    pub fn set_debug_disabled(&mut self)
        ensures
            *final(self) == old(self).with_disabled(),
            final(self).interface().is_none(),
            final(self).disabled(),
            final(self).detection_done() == old(self).detection_done(),
    {
        self.interface = None;
        self.no_debug = true;
    }

    /// Whether debugging is disabled.
    pub fn is_debugging_disabled(&self) -> (r: bool)
        ensures
            r == self.disabled(),
    {
        self.no_debug
    }

    /// Whether the caller must run the detection before the next lookup.
    pub fn needs_detection(&self) -> (r: bool)
        ensures
            r == self.wants_detection(),
    {
        !self.no_debug && self.interface.is_none() && !self.detection_done
    }

    /// Returns the active debugging interface, if there is one.
    ///
    /// While debugging is disabled this gives `None` and changes nothing.
    /// `found` is what the detection found; it is used only when the lookup
    /// runs the detection (see [`Self::needs_detection`]), and then it becomes
    /// the interface in use when it names one.
    pub fn get_debug_interface(&mut self, found: Option<I>) -> (r: Option<I>)
        ensures
            (*final(self), r) == old(self).lookup(found),
            old(self).disabled() ==> r is None && *final(self) == *old(self),
            !old(self).disabled() && old(self).interface() is Some ==> r == old(self).interface()
                && *final(self) == *old(self),
            old(self).wants_detection() ==> {
                &&& r == found
                &&& final(self).interface() == found
                &&& final(self).detection_done()
                &&& !final(self).disabled()
            },
            !old(self).disabled() && old(self).interface() is None && old(self).detection_done()
                ==> r is None && *final(self) == *old(self),
    {
        if self.no_debug {
            return None;
        }
        if self.interface.is_none() && !self.detection_done {
            self.detection_done = true;
            self.interface = found;
        }
        self.interface
    }
}

/// Once debugging is disabled, every lookup until the next
/// `set_debug_interface` gives `None`, whatever the detection would find.
pub proof fn lemma_disabled_lookups_give_none<I: Copy>(
    s: DebugState<I>,
    founds: Seq<Option<I>>,
)
    ensures
        s.with_disabled().lookups(founds).len() == founds.len(),
        forall|k: int|
            0 <= k < founds.len() ==> (#[trigger] s.with_disabled().lookups(founds)[k]) is None,
    decreases founds.len(),
{
    if founds.len() > 0 {
        let d = s.with_disabled();
        assert(d.lookup(founds[0]) == (d, None::<I>));
        assert(d.with_disabled() == d);
        lemma_disabled_lookups_give_none(s, founds.drop_first());
        let rest = d.lookups(founds.drop_first());
        assert(d.lookups(founds) == seq![None::<I>] + rest);
        assert forall|k: int| 0 <= k < founds.len() implies (#[trigger] d.lookups(founds)[k]) is None by {
            if k > 0 {
                assert(d.lookups(founds)[k] == rest[k - 1]);
            }
        }
    }
}

/// One lookup of a detection that has kept `cached` so far, when a probe
/// would answer `found`: the answer kept afterwards and the answer given.
/// An answer kept before wins; otherwise the probe's answer is kept.
pub open spec fn detect_step(cached: Option<bool>, found: bool) -> (Option<bool>, bool) {
    match cached {
        Some(c) => (Some(c), c),
        None => (Some(found), found),
    }
}

/// An emulator detection that probes the hardware at most once: the first
/// answer is kept, and every later lookup gives it back without probing.
pub struct DetectOnce {
    result: Option<bool>,
}

impl DetectOnce {
    /// The kept answer, once the probe has run.
    pub closed spec fn cached(self) -> Option<bool> {
        self.result
    }

    /// No probe has run yet.
    pub fn new() -> (s: Self)
        ensures
            s.cached() is None,
    {
        DetectOnce { result: None }
    }

    /// The kept answer, or `None` while the probe still has to run.
    pub fn cached_result(&self) -> (r: Option<bool>)
        ensures
            r == self.cached(),
    {
        self.result
    }

    /// Keeps the answer `found` of a probe and gives the detection's answer;
    /// an answer kept before wins.
    pub fn record(&mut self, found: bool) -> (r: bool)
        ensures
            (final(self).cached(), r) == detect_step(old(self).cached(), found),
    {
        match self.result {
            Some(c) => c,
            None => {
                self.result = Some(found);
                found
            },
        }
    }
}

/// Once a detection has answered, every later lookup gives the same answer
/// and keeps it, whatever a probe would find then.
pub proof fn lemma_detect_once_keeps_first(cached: Option<bool>, first: bool, later: bool)
    ensures
        ({
            let (c1, r1) = detect_step(cached, first);
            let (c2, r2) = detect_step(c1, later);
            &&& c1 is Some
            &&& c2 == c1
            &&& r2 == r1
        }),
{
}

} // verus!
