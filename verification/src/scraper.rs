//! The retry and reconnect state machine. It decides; the caller fetches,
//! sleeps and prints.
//!
//! A run starts in `Scraping`. After every fetch that brings a record the
//! record is counted, filtered and, if it passes, collected; only then are
//! the bounds looked at, so a run always makes its first fetch. A bound of
//! zero is no bound. A fetch that fails is retried after the usual pause
//! while the retry budget lasts; after that the run is `Disconnected` and
//! tries again after the longer pause, for as long as it takes, or ends at
//! once where no reconnection is configured. A run that is abandoned keeps
//! what it had collected: `into_emails` hands it out or drops it, as the
//! caller chooses.

use crate::accumulator::{contents, Accumulator};
use crate::config::{keeps_going, RunConfig};
use crate::record::{Record, RecordView};
use vstd::prelude::*;

verus! {

/// Where a run stands.
#[derive(Clone, Copy, Debug, PartialEq, Eq, Structural)]
pub enum Phase {
    /// About to fetch one record.
    Scraping,
    /// Pausing between two fetches.
    Waiting,
    /// Out of retries; pausing before an attempt to reconnect.
    Disconnected,
    /// Over.
    Exiting,
}

/// A line for the user.
#[derive(Clone, Copy, Debug, PartialEq, Eq, Structural)]
pub enum Notice {
    /// A fetch failed and will be tried again.
    Retrying,
    /// The retries are used up; the run waits to reconnect.
    WillReconnect,
    /// An attempt to reconnect failed.
    FailedToReconnect,
    /// The retries are used up and the run is abandoned.
    Aborting,
    /// An attempt to reconnect brought a record.
    Reconnected,
    /// The wanted number of records is collected.
    Finished,
    /// The search volume is used up.
    ReachedMaxVolume,
}

/// How a run ended.
#[derive(Clone, Copy, Debug, PartialEq, Eq, Structural)]
pub enum ExitSignal {
    /// The run stopped because a bound was reached.
    Success,
    /// The run was abandoned.
    Failure,
}

/// What the caller does after a pause.
#[derive(Clone, Copy, Debug, PartialEq, Eq, Structural)]
pub enum Action {
    /// Fetch one record and report it with `scrape`.
    Fetch,
    /// Report the end of the pause with `resume`.
    Resume,
    /// Stop, with what `exit` returns.
    Exit,
}

/// What the caller does next: sleep for `pause` milliseconds if there is a
/// pause, then act.
#[derive(Clone, Copy, Debug, PartialEq, Eq, Structural)]
pub struct Command {
    pub pause: Option<u64>,
    pub action: Action,
}

/// The last word of a run.
#[derive(Clone, Copy, Debug, PartialEq, Eq, Structural)]
pub struct Farewell {
    pub notice: Option<Notice>,
    pub signal: ExitSignal,
}

/// The state of a run.
pub struct Session {
    pub phase: Phase,
    /// Failed fetches that will still be retried before the connection
    /// counts as lost.
    pub retries: nat,
    /// Records looked through.
    pub searched: nat,
    /// Records collected.
    pub emails: Set<RecordView>,
}

impl Notice {
    /// The text of the line.
    pub open spec fn text(self) -> Seq<char> {
        match self {
            Notice::Retrying => "Failed to reach Space Email. Retrying."@,
            Notice::WillReconnect => "Space Email is not responding. Will reconnect when possible."@,
            Notice::FailedToReconnect => "Failed to reconnect to Space Email."@,
            Notice::Aborting => "Space Email is not responding. Aborting."@,
            Notice::Reconnected => "Reconnected to Space Email."@,
            Notice::Finished => "Finished downloading emails."@,
            Notice::ReachedMaxVolume => "Reached maximum search volume."@,
        }
    }

    /// The text of the line.
    pub fn message(&self) -> (r: &'static str)
        ensures
            r@ == self.text(),
    {
        match self {
            Notice::Retrying => "Failed to reach Space Email. Retrying.",
            Notice::WillReconnect => "Space Email is not responding. Will reconnect when possible.",
            Notice::FailedToReconnect => "Failed to reconnect to Space Email.",
            Notice::Aborting => "Space Email is not responding. Aborting.",
            Notice::Reconnected => "Reconnected to Space Email.",
            Notice::Finished => "Finished downloading emails.",
            Notice::ReachedMaxVolume => "Reached maximum search volume.",
        }
    }
}

impl ExitSignal {
    /// The exit code of the process: zero for success.
    pub fn code(&self) -> (r: i32)
        ensures
            r == if *self == ExitSignal::Success {
                0int
            } else {
                -1int
            },
    {
        match self {
            ExitSignal::Success => 0,
            ExitSignal::Failure => -1,
        }
    }
}

/// The pause of `ms` milliseconds: none at all where `ms` is zero.
pub open spec fn pause_of(ms: u64) -> Option<u64> {
    if ms == 0 {
        None
    } else {
        Some(ms)
    }
}

/// The state before the first fetch.
pub open spec fn initial(config: RunConfig) -> Session {
    Session {
        phase: Phase::Scraping,
        retries: config.retries as nat,
        searched: 0,
        emails: Set::empty(),
    }
}

/// The wanted number of records is set and collected.
pub open spec fn target_reached(config: RunConfig, s: Session) -> bool {
    config.emails != 0 && s.emails.len() >= config.emails
}

/// The search volume is set and used up.
pub open spec fn volume_reached(config: RunConfig, s: Session) -> bool {
    config.max_volume != 0 && s.searched >= config.max_volume
}

/// The state after a fetch that brought `record`, and the notices it calls
/// for. Outside `Scraping` and `Disconnected` no fetch is due and nothing
/// changes.
pub open spec fn on_success(config: RunConfig, s: Session, record: RecordView) -> (
    Session,
    Seq<Notice>,
) {
    if s.phase == Phase::Scraping || s.phase == Phase::Disconnected {
        let emails = if config.filter@.holds(record) {
            s.emails.insert(record)
        } else {
            s.emails
        };
        let searched = s.searched + 1;
        let phase = if keeps_going(
            config.max_volume as nat,
            config.emails as nat,
            searched,
            emails.len(),
        ) {
            Phase::Waiting
        } else {
            Phase::Exiting
        };
        (
            Session { phase, retries: config.retries as nat, searched, emails },
            if s.phase == Phase::Disconnected {
                seq![Notice::Reconnected]
            } else {
                Seq::empty()
            },
        )
    } else {
        (s, Seq::empty())
    }
}

/// The state after a fetch that failed, and the notices it calls for.
pub open spec fn on_failure(config: RunConfig, s: Session) -> (Session, Seq<Notice>) {
    match s.phase {
        Phase::Scraping => {
            if s.retries > 0 {
                (
                    Session { phase: Phase::Waiting, retries: (s.retries - 1) as nat, ..s },
                    seq![Notice::Retrying],
                )
            } else if config.reconnect_ms is Some {
                (Session { phase: Phase::Disconnected, ..s }, seq![Notice::WillReconnect])
            } else {
                (Session { phase: Phase::Exiting, ..s }, seq![Notice::Aborting])
            }
        },
        Phase::Disconnected => (s, seq![Notice::FailedToReconnect]),
        _ => (s, Seq::empty()),
    }
}

/// The state after one fetch, which brought a record or failed.
pub open spec fn step(config: RunConfig, s: Session, fetched: Option<RecordView>) -> (
    Session,
    Seq<Notice>,
) {
    match fetched {
        Some(record) => on_success(config, s, record),
        None => on_failure(config, s),
    }
}

/// The state after a pause: `Waiting` gives way to `Scraping`.
pub open spec fn on_resume(s: Session) -> Session {
    if s.phase == Phase::Waiting {
        Session { phase: Phase::Scraping, ..s }
    } else {
        s
    }
}

/// What the caller does next in state `s`.
pub open spec fn command_of(config: RunConfig, s: Session) -> Command {
    match s.phase {
        Phase::Scraping => Command { pause: None, action: Action::Fetch },
        Phase::Waiting => Command { pause: pause_of(config.cooldown_ms), action: Action::Resume },
        Phase::Disconnected => Command {
            pause: match config.reconnect_ms {
                Some(ms) => pause_of(ms),
                None => None,
            },
            action: Action::Fetch,
        },
        Phase::Exiting => Command { pause: None, action: Action::Exit },
    }
}

/// The last word in state `s`: success with its notice where a bound is
/// reached, the wanted number of records first; failure otherwise.
pub open spec fn farewell_of(config: RunConfig, s: Session) -> Farewell {
    if target_reached(config, s) {
        Farewell { notice: Some(Notice::Finished), signal: ExitSignal::Success }
    } else if volume_reached(config, s) {
        Farewell { notice: Some(Notice::ReachedMaxVolume), signal: ExitSignal::Success }
    } else {
        Farewell { notice: None, signal: ExitSignal::Failure }
    }
}

/// The records a run hands out at its end: all it collected, unless it ended
/// in failure and partial results are not wanted.
pub open spec fn delivered(config: RunConfig, s: Session, keep_partial: bool) -> Set<RecordView> {
    if keep_partial || farewell_of(config, s).signal == ExitSignal::Success {
        s.emails
    } else {
        Set::empty()
    }
}

/// What holds of every state a run passes through.
pub open spec fn consistent(config: RunConfig, s: Session) -> bool {
    &&& s.emails.finite()
    &&& s.emails.len() <= s.searched
    &&& s.retries <= config.retries
    &&& s.phase != Phase::Exiting ==> keeps_going(
        config.max_volume as nat,
        config.emails as nat,
        s.searched,
        s.emails.len(),
    )
    &&& s.phase == Phase::Disconnected ==> s.retries == 0 && config.reconnect_ms is Some
}

/// A run: its settings and its state.
#[derive(Debug)]
pub struct Scraper {
    config: RunConfig,
    emails: Accumulator,
    searched: usize,
    retries: usize,
    phase: Phase,
}

impl View for Scraper {
    type V = Session;

    closed spec fn view(&self) -> Session {
        Session {
            phase: self.phase,
            retries: self.retries as nat,
            searched: self.searched as nat,
            emails: self.emails@,
        }
    }
}

impl Scraper {
    /// The settings of the run.
    pub closed spec fn rules(&self) -> RunConfig {
        self.config
    }

    /// The state is one a run can be in.
    pub closed spec fn well_formed(&self) -> bool {
        self.emails.well_formed() && consistent(self.config, self@)
    }

    /// A run with these settings, before its first fetch.
    pub fn scrape_with(config: RunConfig) -> (r: Scraper)
        ensures
            r.well_formed(),
            r.rules() == config,
            r@ == initial(config),
    {
        let retries = config.retries;
        Scraper {
            config,
            emails: Accumulator::new(),
            searched: 0,
            retries,
            phase: Phase::Scraping,
        }
    }

    /// The settings of the run.
    pub fn config(&self) -> (r: &RunConfig)
        ensures
            *r == self.rules(),
    {
        &self.config
    }

    /// Where the run stands.
    pub fn phase(&self) -> (r: Phase)
        ensures
            r == self@.phase,
    {
        self.phase
    }

    /// How many records were looked through.
    pub fn searched(&self) -> (r: usize)
        ensures
            r == self@.searched,
    {
        self.searched
    }

    /// How many failed fetches will still be retried.
    pub fn retries(&self) -> (r: usize)
        ensures
            r == self@.retries,
    {
        self.retries
    }

    /// The records collected so far.
    pub fn emails(&self) -> (r: &Accumulator)
        ensures
            r@ == self@.emails,
            self.well_formed() ==> r.well_formed(),
    {
        &self.emails
    }

    /// The pause of `ms` milliseconds, if it is one.
    pub fn wait_ms(ms: u64) -> (r: Option<u64>)
        ensures
            r == pause_of(ms),
    {
        if ms != 0 {
            Some(ms)
        } else {
            None
        }
    }

    /// What the caller does next.
    pub fn command(&self) -> (r: Command)
        ensures
            r == command_of(self.rules(), self@),
    {
        match self.phase {
            Phase::Scraping => Command { pause: None, action: Action::Fetch },
            Phase::Waiting => Command {
                pause: Scraper::wait_ms(self.config.cooldown_ms),
                action: Action::Resume,
            },
            Phase::Disconnected => Command {
                pause: match self.config.reconnect_ms {
                    Some(ms) => Scraper::wait_ms(ms),
                    None => None,
                },
                action: Action::Fetch,
            },
            Phase::Exiting => Command { pause: None, action: Action::Exit },
        }
    }

    /// Takes in the outcome of one fetch: the record it brought, or nothing
    /// where it failed. Returns the notices to print, in order.
    pub fn scrape(&mut self, fetched: Option<Record>) -> (notices: Vec<Notice>)
        requires
            old(self).well_formed(),
            old(self)@.searched < usize::MAX,
        ensures
            final(self).well_formed(),
            final(self).rules() == old(self).rules(),
            final(self)@ == step(
                old(self).rules(),
                old(self)@,
                match fetched {
                    Some(email) => Some(email@),
                    None => None,
                },
            ).0,
            notices@ == step(
                old(self).rules(),
                old(self)@,
                match fetched {
                    Some(email) => Some(email@),
                    None => None,
                },
            ).1,
    {
        match fetched {
            Some(email) => {
                let mut notices: Vec<Notice> = Vec::new();
                match self.phase {
                    Phase::Scraping => {},
                    Phase::Disconnected => {
                        notices.push(Notice::Reconnected);
                    },
                    _ => {
                        return notices;
                    },
                }
                self.searched += 1;
                self.retries = self.config.retries;
                if self.config.filter.matches(&email) {
                    self.emails.accept(email);
                }
                let downloaded = self.emails.len();
                if self.config.should_continue(self.searched, downloaded) {
                    self.phase = Phase::Waiting;
                } else {
                    self.phase = Phase::Exiting;
                }
                notices
            },
            None => self.handle_error(),
        }
    }

    /// Takes in a failed fetch: retries while the budget lasts, then
    /// reconnects or gives up. Returns the notices to print.
    pub fn handle_error(&mut self) -> (notices: Vec<Notice>)
        requires
            old(self).well_formed(),
        ensures
            final(self).well_formed(),
            final(self).rules() == old(self).rules(),
            final(self)@ == on_failure(old(self).rules(), old(self)@).0,
            notices@ == on_failure(old(self).rules(), old(self)@).1,
    {
        let mut notices: Vec<Notice> = Vec::new();
        match self.phase {
            Phase::Scraping => {
                if self.retries > 0 {
                    self.retries -= 1;
                    self.phase = Phase::Waiting;
                    notices.push(Notice::Retrying);
                } else if self.config.reconnect_ms.is_some() {
                    self.phase = Phase::Disconnected;
                    notices.push(Notice::WillReconnect);
                } else {
                    self.phase = Phase::Exiting;
                    notices.push(Notice::Aborting);
                }
            },
            Phase::Disconnected => {
                notices.push(Notice::FailedToReconnect);
            },
            _ => {},
        }
        notices
    }

    /// Takes in the end of a pause.
    pub fn resume(&mut self)
        requires
            old(self).well_formed(),
        ensures
            final(self).well_formed(),
            final(self).rules() == old(self).rules(),
            final(self)@ == on_resume(old(self)@),
    {
        if self.phase == Phase::Waiting {
            self.phase = Phase::Scraping;
        }
    }

    /// Ends the run and hands out the records it collected, each once. A run
    /// that ended in failure hands out what it had collected only where
    /// `keep_partial` is set, and nothing otherwise.
    pub fn into_emails(self, keep_partial: bool) -> (r: Vec<Record>)
        requires
            self.well_formed(),
        ensures
            contents(r@).to_set() == delivered(self.rules(), self@, keep_partial),
            contents(r@).no_duplicates(),
    {
        if keep_partial || self.exit().signal == ExitSignal::Success {
            self.emails.into_records()
        } else {
            let none: Vec<Record> = Vec::new();
            assert(contents(none@).to_set() =~= Set::<RecordView>::empty());
            none
        }
    }

    /// The last word of the run: its closing notice, if any, and whether it
    /// succeeded.
    pub fn exit(&self) -> (r: Farewell)
        requires
            self.well_formed(),
        ensures
            r == farewell_of(self.rules(), self@),
    {
        let downloaded = self.emails.len();
        if self.config.emails != 0 && downloaded >= self.config.emails {
            Farewell { notice: Some(Notice::Finished), signal: ExitSignal::Success }
        } else if self.config.max_volume != 0 && self.searched >= self.config.max_volume {
            Farewell { notice: Some(Notice::ReachedMaxVolume), signal: ExitSignal::Success }
        } else {
            Farewell { notice: None, signal: ExitSignal::Failure }
        }
    }
}

} // verus!
