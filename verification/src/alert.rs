//! The end-of-phase alert: an ordered chain of platform sound-player
//! commands, tried one after another until one succeeds, with the terminal
//! bell owed exactly when every attempt fails.

use vstd::prelude::*;
use vstd::string::*;

verus! {

/// The platform families with distinct sound-player chains.
#[derive(Debug, Clone, Copy, PartialEq, Eq, Structural)]
pub enum PlatformKind {
    MacOs,
    Linux,
    Other,
}

/// One candidate player invocation: a program, its single argument, and
/// whether the player must also exit cleanly to count as a success (the
/// speech fallback counts as soon as it spawns).
#[derive(Debug, Clone)]
pub struct AlertCommand {
    pub program: String,
    pub arg: String,
    pub wait_must_succeed: bool,
}

pub open spec fn candidate_is(c: AlertCommand, program: Seq<char>, arg: Seq<char>, w: bool) -> bool {
    c.program@ == program && c.arg@ == arg && c.wait_must_succeed == w
}

/// The macOS chain: four system sounds through `afplay`, then speech.
pub open spec fn mac_candidates(v: Seq<AlertCommand>) -> bool {
    v.len() == 5 && candidate_is(v[0], "afplay"@, "/System/Library/Sounds/Glass.aiff"@, true)
        && candidate_is(v[1], "afplay"@, "/System/Library/Sounds/Ping.aiff"@, true)
        && candidate_is(v[2], "afplay"@, "/System/Library/Sounds/Pop.aiff"@, true)
        && candidate_is(v[3], "afplay"@, "/System/Library/Sounds/Purr.aiff"@, true)
        && candidate_is(v[4], "say"@, "Time up"@, false)
}

/// The Linux chain: three sounds through `paplay`, then the same three
/// through `aplay`.
pub open spec fn linux_candidates(v: Seq<AlertCommand>) -> bool {
    v.len() == 6 && candidate_is(v[0], "paplay"@, "/usr/share/sounds/alsa/Front_Left.wav"@, true)
        && candidate_is(v[1], "paplay"@, "/usr/share/sounds/sound-icons/bell.wav"@, true)
        && candidate_is(v[2], "paplay"@, "/usr/share/sounds/gnome/default/alerts/glass.ogg"@, true)
        && candidate_is(v[3], "aplay"@, "/usr/share/sounds/alsa/Front_Left.wav"@, true)
        && candidate_is(v[4], "aplay"@, "/usr/share/sounds/sound-icons/bell.wav"@, true)
        && candidate_is(v[5], "aplay"@, "/usr/share/sounds/gnome/default/alerts/glass.ogg"@, true)
}

/// An unrecognized platform has no candidates: the bell alone fires.
pub open spec fn platform_candidates(p: PlatformKind, v: Seq<AlertCommand>) -> bool {
    match p {
        PlatformKind::MacOs => mac_candidates(v),
        PlatformKind::Linux => linux_candidates(v),
        PlatformKind::Other => v.len() == 0,
    }
}

fn candidate(program: &str, arg: &str, wait_must_succeed: bool) -> (r: AlertCommand)
    ensures
        candidate_is(r, program@, arg@, wait_must_succeed),
{
    AlertCommand { program: String::from_str(program), arg: String::from_str(arg), wait_must_succeed }
}

/// The candidate chain for a platform, exactly as `platform_candidates` says.
pub fn alert_candidates(p: PlatformKind) -> (r: Vec<AlertCommand>)
    ensures
        platform_candidates(p, r@),
{
    let mut v: Vec<AlertCommand> = Vec::new();
    match p {
        PlatformKind::MacOs => {
            v.push(candidate("afplay", "/System/Library/Sounds/Glass.aiff", true));
            v.push(candidate("afplay", "/System/Library/Sounds/Ping.aiff", true));
            v.push(candidate("afplay", "/System/Library/Sounds/Pop.aiff", true));
            v.push(candidate("afplay", "/System/Library/Sounds/Purr.aiff", true));
            v.push(candidate("say", "Time up", false));
        },
        PlatformKind::Linux => {
            v.push(candidate("paplay", "/usr/share/sounds/alsa/Front_Left.wav", true));
            v.push(candidate("paplay", "/usr/share/sounds/sound-icons/bell.wav", true));
            v.push(candidate("paplay", "/usr/share/sounds/gnome/default/alerts/glass.ogg", true));
            v.push(candidate("aplay", "/usr/share/sounds/alsa/Front_Left.wav", true));
            v.push(candidate("aplay", "/usr/share/sounds/sound-icons/bell.wav", true));
            v.push(candidate("aplay", "/usr/share/sounds/gnome/default/alerts/glass.ogg", true));
        },
        PlatformKind::Other => {
        },
    }
    v
}

/// The fallback chain's state while the driver walks it: which candidate is
/// next, whether one has succeeded, and the record of the attempts so far.
pub struct AlertChain {
    pub candidates: Vec<AlertCommand>,
    pub next: usize,
    pub played: bool,
    pub attempts: Ghost<Seq<bool>>,
}

impl AlertChain {
    /// The chain never walks past its candidates, stops at the first
    /// success, and remembers exactly one outcome per attempt: all failures
    /// but possibly the last, which alone can be the success.
    pub open spec fn wf(self) -> bool {
        &&& self.next <= self.candidates@.len()
        &&& self.attempts@.len() == self.next
        &&& (forall|i: int| 0 <= i < self.attempts@.len() - 1 ==> !self.attempts@[i])
        &&& self.played == (self.attempts@.len() > 0 && self.attempts@.last())
    }

    /// A fresh chain for the platform, with nothing attempted yet.
    pub fn new(p: PlatformKind) -> (r: Self)
        ensures
            r.wf(),
            platform_candidates(p, r.candidates@),
            r.next == 0,
            !r.played,
            r.attempts@ =~= Seq::<bool>::empty(),
    {
        AlertChain {
            candidates: alert_candidates(p),
            next: 0,
            played: false,
            attempts: Ghost(Seq::empty()),
        }
    }

    /// The next candidate to try: none once one has succeeded or the chain
    /// is exhausted.
    pub fn current_index(&self) -> (r: Option<usize>)
        ensures
            r == if self.played || self.next >= self.candidates@.len() {
                Option::<usize>::None
            } else {
                Option::Some(self.next)
            },
    {
        if self.played || self.next >= self.candidates.len() {
            Option::None
        } else {
            Option::Some(self.next)
        }
    }

    /// The candidate at an index.
    pub fn candidate_at(&self, i: usize) -> (r: &AlertCommand)
        requires
            i < self.candidates@.len(),
        ensures
            *r == self.candidates@[i as int],
    {
        &self.candidates[i]
    }

    /// Record one attempt's outcome: success ends the chain.
    pub fn record(&mut self, success: bool)
        requires
            old(self).wf(),
            !old(self).played,
            old(self).next < old(self).candidates@.len(),
        ensures
            final(self).wf(),
            final(self).candidates == old(self).candidates,
            final(self).next == old(self).next + 1,
            final(self).played == success,
            final(self).attempts@ =~= old(self).attempts@.push(success),
    {
        let _len = self.candidates.len();
        self.next = self.next + 1;
        self.played = success;
        proof {
            self.attempts@ = self.attempts@.push(success);
        }
    }

    /// Whether the terminal bell is owed: exactly when no candidate
    /// succeeded.
    pub fn bell_needed(&self) -> (r: bool)
        ensures
            r == !self.played,
    {
        !self.played
    }
}

/// If every attempt in the record failed, the chain never marked a success,
/// so the terminal-bell fallback is owed.
pub proof fn lemma_all_failures_bell(c: AlertChain)
    requires
        c.wf(),
        forall|i: int| 0 <= i < c.attempts@.len() ==> !c.attempts@[i],
    ensures
        !c.played,
{
}

/// Once the chain has played, the last attempt succeeded and every earlier
/// one failed: the first success stopped the chain.
pub proof fn lemma_first_success_stops(c: AlertChain)
    requires
        c.wf(),
        c.played,
    ensures
        c.attempts@.len() > 0,
        c.attempts@.last(),
        forall|i: int| 0 <= i < c.attempts@.len() - 1 ==> !c.attempts@[i],
{
}

} // verus!
