//! The decisions of the polling daemon: which battery to read next, which
//! handler to run after a reading, when to sleep and when to give up.
//!
//! The daemon itself does no reading, running or sleeping. It names the
//! next action, and is told what came of it.

use crate::band::{band_of, classify, Band, Thresholds};
use crate::battery::{BatteryError, BatteryErrorView};
use crate::config::{copy_command, copy_names, Config, ConfigView};
use crate::tracker::{
    all_settled, fire_count, fired, lemma_band_change_fires, lemma_fires_own_band,
    lemma_observed_settled, lemma_steady_band_fires_once, observed, observed_all, seen, steady,
    Record, Sighting, Tracker,
};
use vstd::prelude::*;
use vstd::string::*;

verus! {

/// Why the daemon gave up.
#[derive(Debug, PartialEq, Eq)]
pub enum DaemonError {
    IO(String),
    Async(String),
    INotify(String),
}

/// A `DaemonError` with its texts as character sequences.
pub enum DaemonErrorView {
    IO(Seq<char>),
    Async(Seq<char>),
    INotify(Seq<char>),
}

impl DaemonErrorView {
    /// The text that describes the error: its kind, then its cause.
    pub open spec fn message(self) -> Seq<char> {
        match self {
            DaemonErrorView::IO(cause) => "IO error: "@ + cause,
            DaemonErrorView::Async(cause) => "Async error: "@ + cause,
            DaemonErrorView::INotify(cause) => "INotify error: "@ + cause,
        }
    }
}

impl View for DaemonError {
    type V = DaemonErrorView;

    open spec fn view(&self) -> DaemonErrorView {
        match self {
            DaemonError::IO(cause) => DaemonErrorView::IO(cause@),
            DaemonError::Async(cause) => DaemonErrorView::Async(cause@),
            DaemonError::INotify(cause) => DaemonErrorView::INotify(cause@),
        }
    }
}

impl DaemonError {
    /// The text that describes the error: its kind, then its cause.
    pub fn message(&self) -> (text: String)
        ensures
            text@ == self@.message(),
    {
        match self {
            DaemonError::IO(cause) => String::from_str("IO error: ").concat(cause.as_str()),
            DaemonError::Async(cause) => String::from_str("Async error: ").concat(cause.as_str()),
            DaemonError::INotify(cause) => String::from_str("INotify error: ").concat(
                cause.as_str(),
            ),
        }
    }
}

impl Clone for DaemonError {
    fn clone(&self) -> (copy: DaemonError)
        ensures
            copy@ == self@,
    {
        match self {
            DaemonError::IO(cause) => DaemonError::IO(cause.clone()),
            DaemonError::Async(cause) => DaemonError::Async(cause.clone()),
            DaemonError::INotify(cause) => DaemonError::INotify(cause.clone()),
        }
    }
}

/// The settings that the daemon runs with.
#[derive(Clone, Debug, PartialEq, Eq)]
pub struct DaemonConfig {
    pub batteries: Vec<String>,
    pub read_delay_ms: u64,
    pub good_capacity: u8,
    pub okay_capacity: u8,
    pub bad_capacity: u8,
    pub critical_capacity: u8,
    pub good_capacity_handler: Option<String>,
    pub okay_capacity_handler: Option<String>,
    pub bad_capacity_handler: Option<String>,
    pub critical_capacity_handler: Option<String>,
}

impl View for DaemonConfig {
    type V = ConfigView;

    open spec fn view(&self) -> ConfigView {
        ConfigView {
            batteries: self.batteries.deep_view(),
            read_delay_ms: self.read_delay_ms,
            good_capacity: self.good_capacity,
            okay_capacity: self.okay_capacity,
            bad_capacity: self.bad_capacity,
            critical_capacity: self.critical_capacity,
            good_capacity_handler: self.good_capacity_handler.deep_view(),
            okay_capacity_handler: self.okay_capacity_handler.deep_view(),
            bad_capacity_handler: self.bad_capacity_handler.deep_view(),
            critical_capacity_handler: self.critical_capacity_handler.deep_view(),
        }
    }
}

impl DaemonConfig {
    /// The daemon's settings, taken from the user's.
    pub fn from_config(config: &Config) -> (settings: DaemonConfig)
        ensures
            settings@ == config@,
    {
        DaemonConfig {
            batteries: copy_names(&config.batteries),
            read_delay_ms: config.read_delay_ms,
            good_capacity: config.good_capacity,
            okay_capacity: config.okay_capacity,
            bad_capacity: config.bad_capacity,
            critical_capacity: config.critical_capacity,
            good_capacity_handler: copy_command(&config.good_capacity_handler),
            okay_capacity_handler: copy_command(&config.okay_capacity_handler),
            bad_capacity_handler: copy_command(&config.bad_capacity_handler),
            critical_capacity_handler: copy_command(&config.critical_capacity_handler),
        }
    }

    /// The four thresholds.
    pub fn thresholds(&self) -> (t: Thresholds)
        ensures
            t == self@.thresholds(),
    {
        Thresholds {
            good: self.good_capacity,
            okay: self.okay_capacity,
            bad: self.bad_capacity,
            critical: self.critical_capacity,
        }
    }

    /// The command to run when a battery enters `band`, if one is set.
    pub fn handler(&self, band: Band) -> (command: &Option<String>)
        ensures
            command.deep_view() == self@.handler(band),
    {
        match band {
            Band::Good => &self.good_capacity_handler,
            Band::Okay => &self.okay_capacity_handler,
            Band::Bad => &self.bad_capacity_handler,
            Band::Critical => &self.critical_capacity_handler,
        }
    }
}

/// Takes in one capacity reading of `device`: classifies it, updates what
/// the tracker remembers of the device, and says which band's handler, if
/// any, is to run now.
pub fn handle_capacity(
    config: &DaemonConfig,
    capacity: u8,
    tracker: &mut Tracker,
    device: &str,
) -> (fire: Option<Band>)
    ensures
        final(tracker)@ == observed(
            old(tracker)@,
            device@,
            band_of(config@.thresholds(), capacity as int),
        ),
        fire == fired(old(tracker)@, device@, band_of(config@.thresholds(), capacity as int)),
        all_settled(old(tracker)@),
        all_settled(final(tracker)@),
{
    let thresholds = config.thresholds();
    let band = classify(capacity, &thresholds);
    tracker.observe(device, band)
}

/// One poll: a device was read at a capacity.
pub struct Poll {
    pub device: Seq<char>,
    pub capacity: u8,
}

/// The polls with each capacity classified.
pub open spec fn sightings_of(thresholds: Thresholds, polls: Seq<Poll>) -> Seq<Sighting> {
    Seq::new(
        polls.len(),
        |i: int|
            Sighting {
                device: polls[i].device,
                band: band_of(thresholds, polls[i].capacity as int),
            },
    )
}

/// A device that is read at one and the same capacity in every poll has
/// a handler run exactly once over a whole run that starts with nothing
/// remembered, whatever other devices are polled between.
pub proof fn lemma_steady_capacity_fires_once(
    thresholds: Thresholds,
    polls: Seq<Poll>,
    device: Seq<char>,
    capacity: u8,
)
    requires
        exists|i: int| 0 <= i < polls.len() && (#[trigger] polls[i]).device == device,
        forall|i: int|
            0 <= i < polls.len() && (#[trigger] polls[i]).device == device ==> polls[i].capacity
                == capacity,
    ensures
        fire_count(Map::empty(), sightings_of(thresholds, polls), device) == 1,
{
    let sightings = sightings_of(thresholds, polls);
    let i = choose|i: int| 0 <= i < polls.len() && (#[trigger] polls[i]).device == device;
    assert(sightings[i].device == device);
    assert forall|j: int|
        0 <= j < sightings.len() && (#[trigger] sightings[j]).device == device implies sightings[j].band
        == band_of(thresholds, capacity as int) by {
        assert(polls[j].device == device);
    }
    lemma_steady_band_fires_once(sightings, device, band_of(thresholds, capacity as int));
}

/// A device that drops from a good capacity straight to a critical one has
/// the handler of `Critical` run, and none of the bands between, whatever
/// was remembered before.
pub proof fn lemma_good_to_critical_fires_critical(
    thresholds: Thresholds,
    records: Map<Seq<char>, Record>,
    device: Seq<char>,
    good: u8,
    critical: u8,
)
    requires
        band_of(thresholds, good as int) == Band::Good,
        band_of(thresholds, critical as int) == Band::Critical,
    ensures
        fired(
            observed(records, device, band_of(thresholds, good as int)),
            device,
            band_of(thresholds, critical as int),
        ) == Some(Band::Critical),
{
    let after_good = observed(records, device, Band::Good);
    lemma_band_change_fires(after_good, device, Band::Critical);
}

/// A device that recovers from a critical capacity to a good one and then
/// drops to a critical one again has the handler of `Critical` run again.
pub proof fn lemma_critical_again_fires_again(
    thresholds: Thresholds,
    records: Map<Seq<char>, Record>,
    device: Seq<char>,
    critical: u8,
    good: u8,
    critical_again: u8,
)
    requires
        band_of(thresholds, critical as int) == Band::Critical,
        band_of(thresholds, good as int) == Band::Good,
        band_of(thresholds, critical_again as int) == Band::Critical,
    ensures
        ({
            let at_critical = observed(records, device, band_of(thresholds, critical as int));
            let at_good = observed(at_critical, device, band_of(thresholds, good as int));
            &&& at_critical[device].status.handled(Band::Critical)
            &&& fired(at_critical, device, band_of(thresholds, good as int)) == Some(Band::Good)
            &&& fired(at_good, device, band_of(thresholds, critical_again as int)) == Some(
                Band::Critical,
            )
        }),
{
    let at_critical = observed(records, device, Band::Critical);
    lemma_band_change_fires(at_critical, device, Band::Good);
    let at_good = observed(at_critical, device, Band::Good);
    lemma_band_change_fires(at_good, device, Band::Critical);
}

/// How the run of a handler ended.
#[derive(Clone, Debug, PartialEq, Eq)]
pub enum HandlerReport {
    /// The command ran and ended with this exit code, or without one.
    Exited(Option<i32>),
    /// The command could not be started; the text says why.
    SpawnFailed(String),
}

/// A `HandlerReport` with its text as a character sequence.
pub enum HandlerReportView {
    Exited(Option<i32>),
    SpawnFailed(Seq<char>),
}

impl HandlerReportView {
    /// The handler did not run to a clean end: it could not be started, or
    /// ended with another exit code than 0, or with none.
    pub open spec fn failed(self) -> bool {
        self != HandlerReportView::Exited(Some(0i32))
    }
}

impl View for HandlerReport {
    type V = HandlerReportView;

    open spec fn view(&self) -> HandlerReportView {
        match self {
            HandlerReport::Exited(code) => HandlerReportView::Exited(*code),
            HandlerReport::SpawnFailed(cause) => HandlerReportView::SpawnFailed(cause@),
        }
    }
}

impl HandlerReport {
    /// Whether the handler did not run to a clean end.
    pub fn failed(&self) -> (r: bool)
        ensures
            r == self@.failed(),
    {
        match self {
            HandlerReport::Exited(Some(code)) => *code != 0,
            HandlerReport::Exited(None) => true,
            HandlerReport::SpawnFailed(_) => true,
        }
    }
}

/// What came of the daemon's last action.
#[derive(Clone, Debug, PartialEq, Eq)]
pub enum Event {
    /// The battery was read and is at this capacity.
    Capacity(u8),
    /// The battery could not be read.
    ReadFailed(BatteryError),
    /// The handler was run.
    HandlerFinished(HandlerReport),
    /// The sleep is over.
    Woke,
}

/// An `Event` with its texts as character sequences.
pub enum EventView {
    Capacity(u8),
    ReadFailed(BatteryErrorView),
    HandlerFinished(HandlerReportView),
    Woke,
}

impl View for Event {
    type V = EventView;

    open spec fn view(&self) -> EventView {
        match self {
            Event::Capacity(capacity) => EventView::Capacity(*capacity),
            Event::ReadFailed(error) => EventView::ReadFailed(error@),
            Event::HandlerFinished(report) => EventView::HandlerFinished(report@),
            Event::Woke => EventView::Woke,
        }
    }
}

/// What the daemon wants done next.
#[derive(Clone, Debug, PartialEq, Eq)]
pub enum Action {
    /// Read the capacity of this battery.
    Read { device: String },
    /// Run this handler command for this battery.
    Run { command: String, device: String },
    /// Sleep for so many milliseconds.
    Sleep { millis: u64 },
    /// Stop: the daemon has given up with this error.
    Stop { error: DaemonError },
}

/// An `Action` with its texts as character sequences.
pub enum ActionView {
    Read { device: Seq<char> },
    Run { command: Seq<char>, device: Seq<char> },
    Sleep { millis: u64 },
    Stop { error: DaemonErrorView },
}

impl View for Action {
    type V = ActionView;

    open spec fn view(&self) -> ActionView {
        match self {
            Action::Read { device } => ActionView::Read { device: device@ },
            Action::Run { command, device } => ActionView::Run {
                command: command@,
                device: device@,
            },
            Action::Sleep { millis } => ActionView::Sleep { millis: *millis },
            Action::Stop { error } => ActionView::Stop { error: error@ },
        }
    }
}

/// A handler that did not run to a clean end. The daemon goes on after it.
#[derive(Clone, Debug, PartialEq, Eq)]
pub struct Warning {
    pub device: String,
    pub band: Band,
    pub report: HandlerReport,
}

/// A `Warning` with its texts as character sequences.
pub struct WarningView {
    pub device: Seq<char>,
    pub band: Band,
    pub report: HandlerReportView,
}

impl View for Warning {
    type V = WarningView;

    open spec fn view(&self) -> WarningView {
        WarningView { device: self.device@, band: self.band, report: self.report@ }
    }
}

/// The daemon's answer to an event: a warning to log, if the event calls
/// for one, and the next action.
#[derive(Clone, Debug, PartialEq, Eq)]
pub struct Step {
    pub warning: Option<Warning>,
    pub action: Action,
}

/// A `Step` with its texts as character sequences.
pub struct StepView {
    pub warning: Option<WarningView>,
    pub action: ActionView,
}

impl View for Step {
    type V = StepView;

    open spec fn view(&self) -> StepView {
        StepView {
            warning: match self.warning {
                Some(warning) => Some(warning@),
                None => None,
            },
            action: self.action@,
        }
    }
}

/// Where in its cycle the daemon is: which action it has asked for.
enum Phase {
    Reading { index: usize },
    Running { index: usize, band: Band },
    Sleeping,
    Stopped { error: DaemonError },
}

/// Where in its cycle the daemon is: which action it has asked for.
pub enum PhaseView {
    /// It has asked for the capacity of the battery at `index`.
    Reading { index: int },
    /// It has asked for the handler of `band` to be run for the battery at
    /// `index`.
    Running { index: int, band: Band },
    /// It has asked for a sleep.
    Sleeping,
    /// It has given up.
    Stopped { error: DaemonErrorView },
}

impl View for Phase {
    type V = PhaseView;

    closed spec fn view(&self) -> PhaseView {
        match self {
            Phase::Reading { index } => PhaseView::Reading { index: *index as int },
            Phase::Running { index, band } => PhaseView::Running {
                index: *index as int,
                band: *band,
            },
            Phase::Sleeping => PhaseView::Sleeping,
            Phase::Stopped { error } => PhaseView::Stopped { error: error@ },
        }
    }
}

/// The polling daemon's state.
pub struct Daemon {
    config: DaemonConfig,
    tracker: Tracker,
    phase: Phase,
}

/// The polling daemon's state: its settings, what it remembers of each
/// battery, and where in its cycle it is.
pub struct DaemonView {
    pub config: ConfigView,
    pub records: Map<Seq<char>, Record>,
    pub phase: PhaseView,
}

/// The phase in which the batteries from `index` on are polled: the one at
/// `index` is read, or, if there is none left, the daemon sleeps.
pub open spec fn polling_phase(config: ConfigView, index: int) -> PhaseView {
    if index < config.batteries.len() {
        PhaseView::Reading { index }
    } else {
        PhaseView::Sleeping
    }
}

impl DaemonView {
    /// The phase refers to a battery of the settings, a handler that is
    /// being run is one that the settings name, only batteries of the
    /// settings are remembered, and every record is settled.
    pub open spec fn valid(self) -> bool {
        &&& all_settled(self.records)
        &&& forall|device: Seq<char>| #[trigger]
            self.records.dom().contains(device) ==> self.config.batteries.contains(device)
        &&& match self.phase {
            PhaseView::Reading { index } => 0 <= index < self.config.batteries.len(),
            PhaseView::Running { index, band } => 0 <= index < self.config.batteries.len()
                && self.config.handler(band) is Some,
            PhaseView::Sleeping => true,
            PhaseView::Stopped { error } => true,
        }
    }

    /// The phase in which the batteries from `index` on are polled.
    pub open spec fn polling_from(self, index: int) -> PhaseView {
        polling_phase(self.config, index)
    }

    /// The action that the daemon has asked for and waits on.
    pub open spec fn pending(self) -> ActionView {
        match self.phase {
            PhaseView::Reading { index } => ActionView::Read {
                device: self.config.batteries[index],
            },
            PhaseView::Running { index, band } => ActionView::Run {
                command: self.config.handler(band)->0,
                device: self.config.batteries[index],
            },
            PhaseView::Sleeping => ActionView::Sleep { millis: self.config.read_delay_ms },
            PhaseView::Stopped { error } => ActionView::Stop { error },
        }
    }

    /// The phase after a battery's capacity was read: the handler of the
    /// band that fires is run if the settings name one, else the next
    /// battery is polled.
    pub open spec fn after_reading(self, index: int, capacity: u8) -> PhaseView {
        let band = band_of(self.config.thresholds(), capacity as int);
        match fired(self.records, self.config.batteries[index], band) {
            Some(fire) => if self.config.handler(fire) is Some {
                PhaseView::Running { index, band: fire }
            } else {
                self.polling_from(index + 1)
            },
            None => self.polling_from(index + 1),
        }
    }

    /// The state after `event`.
    ///
    /// A capacity that was asked for is taken in, and its handler or the
    /// next battery follows. A failed reading stops the daemon for good. A
    /// handler that has finished, however it ended, is followed by the next
    /// battery. The end of a sleep starts the next round with the first
    /// battery. An event that does not answer the pending action changes
    /// nothing.
    pub open spec fn stepped(self, event: EventView) -> DaemonView {
        match (self.phase, event) {
            (PhaseView::Reading { index }, EventView::Capacity(capacity)) => DaemonView {
                records: observed(
                    self.records,
                    self.config.batteries[index],
                    band_of(self.config.thresholds(), capacity as int),
                ),
                phase: self.after_reading(index, capacity),
                ..self
            },
            (PhaseView::Reading { index }, EventView::ReadFailed(error)) => DaemonView {
                phase: PhaseView::Stopped { error: DaemonErrorView::IO(error.message()) },
                ..self
            },
            (PhaseView::Running { index, band }, EventView::HandlerFinished(report)) => DaemonView {
                phase: self.polling_from(index + 1),
                ..self
            },
            (PhaseView::Sleeping, EventView::Woke) => DaemonView {
                phase: self.polling_from(0),
                ..self
            },
            _ => self,
        }
    }

    /// The state after all of `events`, in order.
    pub open spec fn stepped_all(self, events: Seq<EventView>) -> DaemonView
        decreases events.len(),
    {
        if events.len() == 0 {
            self
        } else {
            self.stepped(events[0]).stepped_all(events.drop_first())
        }
    }

    /// The battery and band that `event` lets the daemon see: those of a
    /// capacity that was asked for.
    pub open spec fn sighting(self, event: EventView) -> Option<Sighting> {
        match (self.phase, event) {
            (PhaseView::Reading { index }, EventView::Capacity(capacity)) => Some(
                Sighting {
                    device: self.config.batteries[index],
                    band: band_of(self.config.thresholds(), capacity as int),
                },
            ),
            _ => None,
        }
    }

    /// All that `events` let the daemon see, in order.
    pub open spec fn sightings(self, events: Seq<EventView>) -> Seq<Sighting>
        decreases events.len(),
    {
        if events.len() == 0 {
            Seq::empty()
        } else {
            let later = self.stepped(events[0]).sightings(events.drop_first());
            match self.sighting(events[0]) {
                Some(sighting) => seq![sighting] + later,
                None => later,
            }
        }
    }

    /// `event` makes the daemon ask for a handler to be run for `device`.
    pub open spec fn starts_run(self, event: EventView, device: Seq<char>) -> bool {
        &&& self.phase matches PhaseView::Reading { index }
        &&& self.config.batteries[index] == device
        &&& self.stepped(event).phase is Running
    }

    /// How many times the daemon asks for a handler to be run for `device`
    /// while `events` come in, in order.
    pub open spec fn run_count(self, events: Seq<EventView>, device: Seq<char>) -> nat
        decreases events.len(),
    {
        if events.len() == 0 {
            0
        } else {
            let now: nat = if self.starts_run(events[0], device) {
                1
            } else {
                0
            };
            now + self.stepped(events[0]).run_count(events.drop_first(), device)
        }
    }

    /// The warning that `event` calls for: one for a handler that was
    /// waited on and did not run to a clean end.
    pub open spec fn warned(self, event: EventView) -> Option<WarningView> {
        match (self.phase, event) {
            (PhaseView::Running { index, band }, EventView::HandlerFinished(report)) => {
                if report.failed() {
                    Some(WarningView { device: self.config.batteries[index], band, report })
                } else {
                    None
                }
            },
            _ => None,
        }
    }
}

/// The state in which a daemon with these settings starts: nothing is
/// remembered, and the first battery is polled.
pub open spec fn started(config: ConfigView) -> DaemonView {
    DaemonView { config, records: Map::empty(), phase: polling_phase(config, 0) }
}

/// The daemon's state stays valid whatever event comes.
pub proof fn lemma_step_keeps_valid(daemon: DaemonView, event: EventView)
    requires
        daemon.valid(),
    ensures
        daemon.stepped(event).valid(),
{
    match (daemon.phase, event) {
        (PhaseView::Reading { index }, EventView::Capacity(capacity)) => {
            lemma_observed_settled(
                daemon.records,
                daemon.config.batteries[index],
                band_of(daemon.config.thresholds(), capacity as int),
            );
        },
        _ => {},
    }
}

/// Nothing but a reading that fails stops the daemon.
pub proof fn lemma_only_a_failed_reading_stops(daemon: DaemonView, event: EventView)
    requires
        !(daemon.phase is Stopped),
        daemon.stepped(event).phase is Stopped,
    ensures
        daemon.phase is Reading,
        event is ReadFailed,
{
}

/// A reading that fails stops the daemon for good: whatever events come
/// later, it asks for nothing but to stop with the cause of the failure,
/// and what it remembers stays as it was.
pub proof fn lemma_read_failure_is_final(
    daemon: DaemonView,
    error: BatteryErrorView,
    later: Seq<EventView>,
)
    requires
        daemon.phase is Reading,
    ensures
        daemon.stepped(EventView::ReadFailed(error)).stepped_all(later).pending()
            == (ActionView::Stop { error: DaemonErrorView::IO(error.message()) }),
        daemon.stepped(EventView::ReadFailed(error)).stepped_all(later).records == daemon.records,
{
    lemma_stopped_stays(daemon.stepped(EventView::ReadFailed(error)), later);
}

/// A daemon that has stopped stays as it is.
pub proof fn lemma_stopped_stays(daemon: DaemonView, events: Seq<EventView>)
    requires
        daemon.phase is Stopped,
    ensures
        daemon.stepped_all(events) == daemon,
    decreases events.len(),
{
    if events.len() > 0 {
        lemma_stopped_stays(daemon.stepped(events[0]), events.drop_first());
    }
}

/// The batteries are polled in the order of the settings: once a battery's
/// capacity is taken in, and its handler, if one is asked for, has
/// finished, the daemon turns to the battery after it, or to the sleep if
/// it was the last.
pub proof fn lemma_round_goes_in_order(
    daemon: DaemonView,
    index: int,
    capacity: u8,
    report: HandlerReportView,
)
    requires
        daemon.valid(),
        daemon.phase == (PhaseView::Reading { index }),
    ensures
        ({
            let read = daemon.stepped(EventView::Capacity(capacity));
            let done = if read.phase is Running {
                read.stepped(EventView::HandlerFinished(report))
            } else {
                read
            };
            &&& read.phase is Running ==> read.pending() is Run && read.phase->Running_index
                == index
            &&& done.phase == polling_phase(daemon.config, index + 1)
            &&& done.records == read.records
        }),
{
}

/// A handler that does not run to a clean end is warned about, and the
/// daemon goes on as after any handler: with the next battery of the round,
/// or with the sleep if there is none. Nothing that it remembers changes.
pub proof fn lemma_handler_failure_goes_on(
    daemon: DaemonView,
    index: int,
    band: Band,
    report: HandlerReportView,
)
    requires
        daemon.valid(),
        daemon.phase == (PhaseView::Running { index, band }),
        report.failed(),
    ensures
        daemon.warned(EventView::HandlerFinished(report)) == Some(
            WarningView { device: daemon.config.batteries[index], band, report },
        ),
        daemon.stepped(EventView::HandlerFinished(report)) == daemon.stepped(
            EventView::HandlerFinished(HandlerReportView::Exited(Some(0i32))),
        ),
        daemon.stepped(EventView::HandlerFinished(report)).records == daemon.records,
        daemon.stepped(EventView::HandlerFinished(report)).pending() == if index + 1
            < daemon.config.batteries.len() {
            ActionView::Read { device: daemon.config.batteries[index + 1] }
        } else {
            ActionView::Sleep { millis: daemon.config.read_delay_ms }
        },
{
}

/// What the daemon remembers after `events` is what observing all that
/// they let it see leads to.
pub proof fn lemma_records_follow_sightings(daemon: DaemonView, events: Seq<EventView>)
    ensures
        daemon.stepped_all(events).records == observed_all(
            daemon.records,
            daemon.sightings(events),
        ),
    decreases events.len(),
{
    if events.len() > 0 {
        let next = daemon.stepped(events[0]);
        let later = next.sightings(events.drop_first());
        lemma_records_follow_sightings(next, events.drop_first());
        match daemon.sighting(events[0]) {
            Some(sighting) => {
                assert((seq![sighting] + later).drop_first() =~= later);
            },
            None => {},
        }
    }
}

/// For a battery that is always seen in one band whose handler is set, the
/// daemon asks for a handler as often as one is due.
proof fn lemma_runs_follow_fires(
    daemon: DaemonView,
    events: Seq<EventView>,
    device: Seq<char>,
    band: Band,
)
    requires
        steady(daemon.sightings(events), device, band),
        daemon.config.handler(band) is Some,
    ensures
        daemon.run_count(events, device) == fire_count(
            daemon.records,
            daemon.sightings(events),
            device,
        ),
    decreases events.len(),
{
    if events.len() > 0 {
        let next = daemon.stepped(events[0]);
        let later = next.sightings(events.drop_first());
        let all = daemon.sightings(events);
        match daemon.sighting(events[0]) {
            Some(sighting) => {
                assert(all == seq![sighting] + later);
                assert(all.drop_first() =~= later);
                assert(all[0] == sighting);
                assert forall|i: int|
                    0 <= i < later.len() && (#[trigger] later[i]).device == device implies later[i].band
                    == band by {
                    assert(later[i] == all[i + 1]);
                }
                lemma_fires_own_band(daemon.records, sighting.device, sighting.band);
            },
            None => {
                assert(all == later);
            },
        }
        lemma_runs_follow_fires(next, events.drop_first(), device, band);
    }
}

/// A battery that is read at one and the same capacity whenever it is read
/// has its handler asked for exactly once over a whole run of the daemon,
/// if the settings name a handler for the band of that capacity and the
/// battery is read at all.
pub proof fn lemma_steady_battery_runs_once(
    config: ConfigView,
    events: Seq<EventView>,
    device: Seq<char>,
    capacity: u8,
)
    requires
        seen(started(config).sightings(events), device),
        steady(
            started(config).sightings(events),
            device,
            band_of(config.thresholds(), capacity as int),
        ),
        config.handler(band_of(config.thresholds(), capacity as int)) is Some,
    ensures
        started(config).run_count(events, device) == 1,
{
    let band = band_of(config.thresholds(), capacity as int);
    lemma_runs_follow_fires(started(config), events, device, band);
    lemma_steady_band_fires_once(started(config).sightings(events), device, band);
}

impl View for Daemon {
    type V = DaemonView;

    closed spec fn view(&self) -> DaemonView {
        DaemonView { config: self.config@, records: self.tracker@, phase: self.phase@ }
    }
}

/// The phase in which the batteries from `index` on are polled.
fn polling_from(config: &DaemonConfig, index: usize) -> (phase: Phase)
    ensures
        phase@ == polling_phase(config@, index as int),
{
    if index < config.batteries.len() {
        Phase::Reading { index }
    } else {
        Phase::Sleeping
    }
}

/// The phase in which the batteries after the one at `index` are polled.
fn polling_after(config: &DaemonConfig, index: usize) -> (phase: Phase)
    requires
        index < config.batteries@.len(),
    ensures
        phase@ == polling_phase(config@, index + 1),
{
    let count: usize = config.batteries.len();
    if index + 1 < count {
        Phase::Reading { index: index + 1 }
    } else {
        Phase::Sleeping
    }
}

/// Starts a daemon with these settings. Its first action is pending.
pub fn start(config: DaemonConfig) -> (daemon: Daemon)
    ensures
        daemon@ == started(config@),
        daemon@.valid(),
{
    let phase = polling_from(&config, 0);
    let tracker = Tracker::new();
    Daemon { config, tracker, phase }
}

impl Daemon {
    #[verifier::type_invariant]
    spec fn well_formed(self) -> bool {
        self@.valid()
    }

    /// The settings that the daemon runs with.
    pub fn config(&self) -> (config: &DaemonConfig)
        ensures
            config@ == self@.config,
    {
        &self.config
    }

    /// What the daemon remembers of each battery.
    pub fn tracker(&self) -> (tracker: &Tracker)
        ensures
            tracker@ == self@.records,
    {
        &self.tracker
    }

    /// The action that the daemon has asked for and waits on.
    pub fn pending(&self) -> (action: Action)
        ensures
            action@ == self@.pending(),
            self@.valid(),
    {
        proof {
            use_type_invariant(self);
        }
        match &self.phase {
            Phase::Reading { index } => Action::Read {
                device: self.config.batteries[*index].clone(),
            },
            Phase::Running { index, band } => {
                let command = self.config.handler(*band);
                match command {
                    Some(text) => Action::Run {
                        command: text.clone(),
                        device: self.config.batteries[*index].clone(),
                    },
                    None => vstd::pervasive::unreached(),
                }
            },
            Phase::Sleeping => Action::Sleep { millis: self.config.read_delay_ms },
            Phase::Stopped { error } => Action::Stop { error: error.clone() },
        }
    }

    /// Takes in what came of the pending action and names the next one.
    pub fn step(self, event: Event) -> (next: (Daemon, Step))
        ensures
            self@.valid(),
            next.0@ == self@.stepped(event@),
            next.0@.valid(),
            next.1@ == (StepView {
                warning: self@.warned(event@),
                action: self@.stepped(event@).pending(),
            }),
    {
        proof {
            use_type_invariant(&self);
        }
        let Daemon { config, tracker, phase } = self;
        let mut tracker = tracker;
        let mut warning: Option<Warning> = None;
        let phase = match phase {
            Phase::Reading { index } => match event {
                Event::Capacity(capacity) => {
                    let fire = handle_capacity(
                        &config,
                        capacity,
                        &mut tracker,
                        config.batteries[index].as_str(),
                    );
                    match fire {
                        Some(band) => if config.handler(band).is_some() {
                            Phase::Running { index, band }
                        } else {
                            polling_after(&config, index)
                        },
                        None => polling_after(&config, index),
                    }
                },
                Event::ReadFailed(error) => Phase::Stopped {
                    error: DaemonError::IO(error.message()),
                },
                _ => Phase::Reading { index },
            },
            Phase::Running { index, band } => match event {
                Event::HandlerFinished(report) => {
                    if report.failed() {
                        warning = Some(
                            Warning { device: config.batteries[index].clone(), band, report },
                        );
                    }
                    polling_after(&config, index)
                },
                _ => Phase::Running { index, band },
            },
            Phase::Sleeping => match event {
                Event::Woke => polling_from(&config, 0),
                _ => Phase::Sleeping,
            },
            Phase::Stopped { error } => Phase::Stopped { error },
        };
        let daemon = Daemon { config, tracker, phase };
        let action = daemon.pending();
        (daemon, Step { warning, action })
    }
}

} // verus!
