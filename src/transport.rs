//! Playback transport: which track plays, whether it plays, for how long,
//! and what comes next. The transport only decides; each command returns the
//! `Action` that the caller performs on the audio engine or the navigator,
//! and the caller reports the engine's answer back (`started`,
//! `restarted`, `record_error`).

use vstd::prelude::*;

verus! {

/// Length assumed for a track whose duration the engine cannot report (180 s).
pub const DEFAULT_TOTAL_MS: u64 = 180000;

/// One entry of the navigable listing.
#[derive(Clone, Copy, Debug, PartialEq, Eq, Structural)]
pub enum EntryKind {
    /// The marker that leads to the parent directory.
    Parent,
    Directory,
    /// A playable audio file.
    Track,
}

#[derive(Clone, Copy, Debug, PartialEq, Eq, Structural)]
pub enum PlayState {
    Stopped,
    Playing,
    Paused,
}

/// What the caller has to do after a command.
#[derive(Clone, Copy, Debug, PartialEq, Eq, Structural)]
pub enum Action {
    Nothing,
    /// Open the track at this index of the listing and play it from the start.
    Start(usize),
    /// Play the current track again from its beginning.
    Restart,
    /// Stop the engine's output.
    Halt,
    /// Hand the entry at this index (a directory or the parent marker) to the navigator.
    Enter(usize),
}

/// Entry `i` of `e` is a playable track.
pub open spec fn playable(e: Seq<EntryKind>, i: int) -> bool {
    0 <= i < e.len() && e[i] == EntryKind::Track
}

/// The first playable index in `lo .. hi`.
pub open spec fn first_track_in(e: Seq<EntryKind>, lo: int, hi: int) -> Option<int>
    decreases hi - lo,
{
    if hi <= lo {
        None
    } else if playable(e, lo) {
        Some(lo)
    } else {
        first_track_in(e, lo + 1, hi)
    }
}

/// The last playable index in `lo .. hi`.
pub open spec fn last_track_in(e: Seq<EntryKind>, lo: int, hi: int) -> Option<int>
    decreases hi - lo,
{
    if hi <= lo {
        None
    } else if playable(e, hi - 1) {
        Some(hi - 1)
    } else {
        last_track_in(e, lo, hi - 1)
    }
}

pub open spec fn min_int(a: int, b: int) -> int {
    if a < b {
        a
    } else {
        b
    }
}

/// The nearest playable entry after `from`; with `wrap`, when there is none,
/// the first playable entry before `from`.
pub open spec fn next_track(e: Seq<EntryKind>, from: int, wrap: bool) -> Option<int> {
    match first_track_in(e, from + 1, e.len() as int) {
        Some(j) => Some(j),
        None => if wrap {
            first_track_in(e, 0, min_int(from, e.len() as int))
        } else {
            None
        },
    }
}

/// The nearest playable entry before `from`.
pub open spec fn previous_track(e: Seq<EntryKind>, from: int) -> Option<int> {
    last_track_in(e, 0, min_int(from, e.len() as int))
}

/// An index, as a mathematical integer.
pub open spec fn index_of(o: Option<usize>) -> Option<int> {
    match o {
        Some(i) => Some(i as int),
        None => None,
    }
}

fn first_track(e: &Vec<EntryKind>, lo: usize, hi: usize) -> (r: Option<usize>)
    requires
        hi <= e@.len(),
    ensures
        index_of(r) == first_track_in(e@, lo as int, hi as int),
{
    let mut k = lo;
    while k < hi
        invariant
            lo <= k,
            hi <= e@.len(),
            first_track_in(e@, lo as int, hi as int) == first_track_in(e@, k as int, hi as int),
        decreases hi - k,
    {
        if matches!(e[k], EntryKind::Track) {
            return Some(k);
        }
        k = k + 1;
    }
    None
}

fn last_track(e: &Vec<EntryKind>, hi: usize) -> (r: Option<usize>)
    requires
        hi <= e@.len(),
    ensures
        index_of(r) == last_track_in(e@, 0, hi as int),
{
    let mut k = hi;
    while k > 0
        invariant
            k <= hi <= e@.len(),
            last_track_in(e@, 0, hi as int) == last_track_in(e@, 0, k as int),
        decreases k,
    {
        if matches!(e[k - 1], EntryKind::Track) {
            return Some(k - 1);
        }
        k = k - 1;
    }
    None
}

/// Index of the nearest playable entry after `from`, wrapping round to the
/// start of the listing when `wrap` is set.
pub fn next_track_index(e: &Vec<EntryKind>, from: usize, wrap: bool) -> (r: Option<usize>)
    ensures
        index_of(r) == next_track(e@, from as int, wrap),
{
    let after = if from < e.len() {
        first_track(e, from + 1, e.len())
    } else {
        None
    };
    match after {
        Some(j) => Some(j),
        None => {
            if wrap {
                let hi = if from < e.len() {
                    from
                } else {
                    e.len()
                };
                first_track(e, 0, hi)
            } else {
                None
            }
        },
    }
}

/// Index of the nearest playable entry before `from`; never wraps.
pub fn previous_track_index(e: &Vec<EntryKind>, from: usize) -> (r: Option<usize>)
    ensures
        index_of(r) == previous_track(e@, from as int),
{
    let hi = if from < e.len() {
        from
    } else {
        e.len()
    };
    last_track(e, hi)
}

/// What a transport holds, as mathematical values.
pub struct TransportModel {
    /// Kinds of the entries of the navigable listing, in order.
    pub entries: Seq<EntryKind>,
    pub state: PlayState,
    /// Index of the current track in the listing.
    pub current: Option<int>,
    pub elapsed_ms: int,
    pub total_ms: int,
    /// Clock reading, in milliseconds, when the current track started.
    pub started_ms: int,
    pub continuous: bool,
    /// Message of the last failed start, cleared by the next successful one.
    pub error: Option<Seq<char>>,
}

pub open spec fn text_of(o: Option<String>) -> Option<Seq<char>> {
    match o {
        Some(s) => Some(s@),
        None => None,
    }
}

/// Playback state machine.
pub struct Transport {
    entries: Vec<EntryKind>,
    state: PlayState,
    current: Option<usize>,
    elapsed_ms: u64,
    total_ms: u64,
    started_ms: u64,
    continuous: bool,
    error: Option<String>,
}

impl View for Transport {
    type V = TransportModel;

    closed spec fn view(&self) -> TransportModel {
        TransportModel {
            entries: self.entries@,
            state: self.state,
            current: index_of(self.current),
            elapsed_ms: self.elapsed_ms as int,
            total_ms: self.total_ms as int,
            started_ms: self.started_ms as int,
            continuous: self.continuous,
            error: text_of(self.error),
        }
    }
}

impl Transport {
    /// Nothing plays without a current track, and the elapsed time never
    /// runs past the track's length.
    pub open spec fn wf(&self) -> bool {
        &&& (self@.current is None ==> self@.state == PlayState::Stopped)
        &&& 0 <= self@.elapsed_ms <= self@.total_ms
    }

    /// A stopped transport over `entries`, with continuous play off.
    pub fn new(entries: Vec<EntryKind>) -> (r: Self)
        ensures
            r.wf(),
            r@ == (TransportModel {
                entries: entries@,
                state: PlayState::Stopped,
                current: None,
                elapsed_ms: 0,
                total_ms: 0,
                started_ms: 0,
                continuous: false,
                error: None,
            }),
    {
        Transport {
            entries,
            state: PlayState::Stopped,
            current: None,
            elapsed_ms: 0,
            total_ms: 0,
            started_ms: 0,
            continuous: false,
            error: None,
        }
    }

    pub fn state(&self) -> (r: PlayState)
        ensures
            r == self@.state,
    {
        self.state
    }

    pub fn is_playing(&self) -> (r: bool)
        ensures
            r == (self@.state == PlayState::Playing),
    {
        matches!(self.state, PlayState::Playing)
    }

    pub fn current_index(&self) -> (r: Option<usize>)
        ensures
            index_of(r) == self@.current,
    {
        self.current
    }

    pub fn elapsed_ms(&self) -> (r: u64)
        ensures
            r == self@.elapsed_ms,
    {
        self.elapsed_ms
    }

    pub fn total_ms(&self) -> (r: u64)
        ensures
            r == self@.total_ms,
    {
        self.total_ms
    }

    pub fn continuous(&self) -> (r: bool)
        ensures
            r == self@.continuous,
    {
        self.continuous
    }

    pub fn error(&self) -> (r: &Option<String>)
        ensures
            text_of(*r) == self@.error,
    {
        &self.error
    }

    pub fn entries(&self) -> (r: &Vec<EntryKind>)
        ensures
            r@ == self@.entries,
    {
        &self.entries
    }

    /// Replaces the listing after the navigator changed directory; playback
    /// goes on untouched.
    pub fn set_entries(&mut self, entries: Vec<EntryKind>)
        requires
            old(self).wf(),
        ensures
            final(self).wf(),
            final(self)@ == (TransportModel { entries: entries@, ..old(self)@ }),
    {
        self.entries = entries;
    }

    /// Flips continuous play.
    pub fn toggle_continuous(&mut self)
        requires
            old(self).wf(),
        ensures
            final(self).wf(),
            final(self)@ == (TransportModel { continuous: !old(self)@.continuous, ..old(self)@ }),
    {
        self.continuous = !self.continuous;
    }

    /// Choosing entry `index`: a track is started, a directory or the parent
    /// marker goes to the navigator, an index past the listing does nothing.
    pub fn select(&self, index: usize) -> (r: Action)
        ensures
            r == if index >= self@.entries.len() {
                Action::Nothing
            } else if self@.entries[index as int] == EntryKind::Track {
                Action::Start(index)
            } else {
                Action::Enter(index)
            },
    {
        if index >= self.entries.len() {
            Action::Nothing
        } else if matches!(self.entries[index], EntryKind::Track) {
            Action::Start(index)
        } else {
            Action::Enter(index)
        }
    }

    /// The engine started the track at `index` at clock reading `now_ms`,
    /// reporting its length if it knows it.
    pub fn started(&mut self, index: usize, total_ms: Option<u64>, now_ms: u64)
        requires
            old(self).wf(),
        ensures
            final(self).wf(),
            final(self)@ == (TransportModel {
                state: PlayState::Playing,
                current: Some(index as int),
                elapsed_ms: 0,
                total_ms: match total_ms {
                    Some(t) => t as int,
                    None => DEFAULT_TOTAL_MS as int,
                },
                started_ms: now_ms as int,
                error: None,
                ..old(self)@
            }),
    {
        self.state = PlayState::Playing;
        self.current = Some(index);
        self.elapsed_ms = 0;
        self.total_ms = match total_ms {
            Some(t) => t,
            None => DEFAULT_TOTAL_MS,
        };
        self.started_ms = now_ms;
        self.error = None;
    }

    /// The engine restarted the current track from its beginning; without a
    /// current track nothing changes.
    pub fn restarted(&mut self, total_ms: Option<u64>, now_ms: u64)
        requires
            old(self).wf(),
        ensures
            final(self).wf(),
            final(self)@ == if old(self)@.current is None {
                old(self)@
            } else {
                TransportModel {
                    state: PlayState::Playing,
                    elapsed_ms: 0,
                    total_ms: match total_ms {
                        Some(t) => t as int,
                        None => DEFAULT_TOTAL_MS as int,
                    },
                    started_ms: now_ms as int,
                    error: None,
                    ..old(self)@
                }
            },
    {
        if self.current.is_some() {
            self.state = PlayState::Playing;
            self.elapsed_ms = 0;
            self.total_ms = match total_ms {
                Some(t) => t,
                None => DEFAULT_TOTAL_MS,
            };
            self.started_ms = now_ms;
            self.error = None;
        }
    }

    /// An action failed (the engine could not start a track, or the navigator
    /// could not read a directory): the message is kept and the transport
    /// stays as it was.
    pub fn record_error(&mut self, message: String)
        requires
            old(self).wf(),
        ensures
            final(self).wf(),
            final(self)@ == (TransportModel { error: Some(message@), ..old(self)@ }),
    {
        self.error = Some(message);
    }

    /// Play/pause: a playing track pauses (the engine stops); a paused or
    /// stopped one is played again from its beginning.
    pub fn toggle(&mut self) -> (r: Action)
        requires
            old(self).wf(),
        ensures
            final(self).wf(),
            old(self)@.state == PlayState::Playing ==> r == Action::Halt && final(self)@
                == (TransportModel { state: PlayState::Paused, ..old(self)@ }),
            old(self)@.state != PlayState::Playing ==> final(self)@ == old(self)@ && r == if old(
                self,
            )@.current is Some {
                Action::Restart
            } else {
                Action::Nothing
            },
    {
        if matches!(self.state, PlayState::Playing) {
            self.state = PlayState::Paused;
            Action::Halt
        } else if self.current.is_some() {
            Action::Restart
        } else {
            Action::Nothing
        }
    }

    /// Skips to the nearest playable entry after the current track, wrapping
    /// round only under continuous play; with none, playback stops.
    pub fn next(&mut self) -> (r: Action)
        requires
            old(self).wf(),
        ensures
            final(self).wf(),
            match old(self)@.current {
                None => r == Action::Nothing && final(self)@ == old(self)@,
                Some(c) => match next_track(old(self)@.entries, c, old(self)@.continuous) {
                    Some(j) => r == Action::Start(j as usize) && final(self)@ == old(self)@,
                    None => r == Action::Halt && final(self)@ == (TransportModel {
                        state: PlayState::Stopped,
                        elapsed_ms: 0,
                        ..old(self)@
                    }),
                },
            },
    {
        match self.current {
            None => Action::Nothing,
            Some(c) => match next_track_index(&self.entries, c, self.continuous) {
                Some(j) => Action::Start(j),
                None => {
                    self.state = PlayState::Stopped;
                    self.elapsed_ms = 0;
                    Action::Halt
                },
            },
        }
    }

    /// Goes back to the nearest playable entry before the current track;
    /// never wraps, and does nothing at the start of the listing.
    pub fn previous(&self) -> (r: Action)
        ensures
            match self@.current {
                None => r == Action::Nothing,
                Some(c) => match previous_track(self@.entries, c) {
                    Some(j) => r == Action::Start(j as usize),
                    None => r == Action::Nothing,
                },
            },
    {
        match self.current {
            None => Action::Nothing,
            Some(c) => match previous_track_index(&self.entries, c) {
                Some(j) => Action::Start(j),
                None => Action::Nothing,
            },
        }
    }

    /// One UI tick at clock reading `now_ms`, with the engine's report of
    /// whether its output queue has run empty. A playing track whose queue
    /// ran empty has ended: the transport stops and, under continuous play,
    /// asks for the next playable entry (wrapping round). A track still
    /// playing has its elapsed time brought up to date, capped at its length.
    pub fn tick(&mut self, now_ms: u64, queue_empty: bool) -> (r: Action)
        requires
            old(self).wf(),
        ensures
            final(self).wf(),
            old(self)@.state != PlayState::Playing ==> r == Action::Nothing && final(self)@ == old(
                self,
            )@,
            old(self)@.state == PlayState::Playing && queue_empty ==> final(self)@ == (
            TransportModel { state: PlayState::Stopped, elapsed_ms: 0, ..old(self)@ }) && r == if old(
                self,
            )@.continuous {
                match next_track(old(self)@.entries, old(self)@.current->0, true) {
                    Some(j) => Action::Start(j as usize),
                    None => Action::Nothing,
                }
            } else {
                Action::Nothing
            },
            old(self)@.state == PlayState::Playing && !queue_empty ==> r == Action::Nothing
                && final(self)@ == (TransportModel {
                elapsed_ms: min_int(
                    if now_ms >= old(self)@.started_ms {
                        now_ms - old(self)@.started_ms
                    } else {
                        0
                    },
                    old(self)@.total_ms,
                ),
                ..old(self)@
            }),
    {
        if !matches!(self.state, PlayState::Playing) {
            return Action::Nothing;
        }
        if queue_empty {
            self.state = PlayState::Stopped;
            self.elapsed_ms = 0;
            if self.continuous {
                match self.current {
                    Some(c) => match next_track_index(&self.entries, c, true) {
                        Some(j) => Action::Start(j),
                        None => Action::Nothing,
                    },
                    None => Action::Nothing,
                }
            } else {
                Action::Nothing
            }
        } else {
            let since: u64 = if now_ms >= self.started_ms {
                now_ms - self.started_ms
            } else {
                0
            };
            self.elapsed_ms = if since < self.total_ms {
                since
            } else {
                self.total_ms
            };
            Action::Nothing
        }
    }
}

} // verus!
