//! The clipboard monitor: what it remembers, and what each poll cycle decides.
//!
//! The monitor itself touches neither the clipboard nor a timer. Its owner
//! runs the loop: at every tick it asks [`ClipboardMonitor::begin_cycle`]
//! whether to read the clipboard, and hands what it read to
//! [`ClipboardMonitor::observe`].

use crate::config::{HudPayload, HudPayloadView, HudPosition, TimestampConfig, TimestampConfigView};
use crate::parser::{decoded, parse_result, TimeParser};
use vstd::prelude::*;

verus! {

/// Time between two poll cycles, in milliseconds.
pub const CLIPBOARD_POLL_INTERVAL_MS: u64 = 350;

/// A recognised timestamp, ready to be presented.
#[derive(Debug)]
pub struct Detection {
    pub payload: HudPayload,
    pub position: HudPosition,
}

/// Mathematical value of a [`Detection`].
pub struct DetectionView {
    pub payload: HudPayloadView,
    pub position: HudPosition,
}

impl View for Detection {
    type V = DetectionView;

    open spec fn view(&self) -> DetectionView {
        DetectionView { payload: self.payload@, position: self.position }
    }
}

impl Clone for Detection {
    fn clone(&self) -> (copy: Detection)
        ensures
            copy@ == self@,
    {
        Detection { payload: self.payload.clone(), position: self.position }
    }
}

impl DeepView for Detection {
    type V = DetectionView;

    open spec fn deep_view(&self) -> DetectionView {
        self@
    }
}

/// Mathematical value of a [`ClipboardMonitor`].
pub struct MonitorView {
    /// The configuration in force.
    pub config: TimestampConfigView,
    /// The clipboard text that was seen last.
    pub last_content: Seq<char>,
    /// Running (`true`) or paused (`false`).
    pub running: bool,
}

impl MonitorView {
    /// The monitor as created: running, with the text found in the clipboard
    /// as its baseline, or the empty text where the clipboard could not be
    /// read.
    pub open spec fn initial(config: TimestampConfigView, found: Option<Seq<char>>) -> MonitorView {
        MonitorView {
            config,
            last_content: match found {
                Some(text) => text,
                None => Seq::<char>::empty(),
            },
            running: true,
        }
    }

    /// The same monitor under another configuration.
    pub open spec fn with_config(self, config: TimestampConfigView) -> MonitorView {
        MonitorView { config, ..self }
    }

    /// The same monitor, running or paused as `running` says.
    pub open spec fn with_running(self, running: bool) -> MonitorView {
        MonitorView { running, ..self }
    }

    /// The same monitor with running and paused exchanged.
    pub open spec fn toggled(self) -> MonitorView {
        self.with_running(!self.running)
    }

    /// Whether a poll cycle that begins in this state reads the clipboard.
    pub open spec fn reads_clipboard(self) -> bool {
        self.running
    }

    /// Whether what was read is text that differs from the text seen last.
    pub open spec fn is_news(self, read: Option<Seq<char>>) -> bool {
        read matches Some(text) && text != self.last_content
    }

    /// The monitor after a clipboard read: news becomes the text seen last,
    /// whether or not it parses; a failed read and unchanged text leave the
    /// monitor as it was.
    pub open spec fn observed(self, read: Option<Seq<char>>) -> MonitorView {
        if self.is_news(read) {
            MonitorView { last_content: read->0, ..self }
        } else {
            self
        }
    }

    /// Whether a clipboard read leads to a detection: it does where it is news
    /// that decodes under the current configuration.
    pub open spec fn detects(self, read: Option<Seq<char>>) -> bool {
        self.is_news(read) && decoded(self.config, read->0) is Some
    }

    /// What a clipboard read leads to at clock reading `now`: news that parses
    /// under the current configuration is a detection, anything else is not.
    pub open spec fn detection(self, read: Option<Seq<char>>, now: i64) -> Option<DetectionView> {
        if self.is_news(read) {
            match parse_result(self.config, read->0, now) {
                Some(payload) => Some(DetectionView { payload, position: self.config.hud_position }),
                None => None,
            }
        } else {
            None
        }
    }
}

/// Watches the clipboard for timestamps, one poll cycle at a time.
pub struct ClipboardMonitor {
    parser: TimeParser,
    last_content: String,
    running: bool,
}

impl View for ClipboardMonitor {
    type V = MonitorView;

    closed spec fn view(&self) -> MonitorView {
        MonitorView {
            config: self.parser@,
            last_content: self.last_content@,
            running: self.running,
        }
    }
}

impl ClipboardMonitor {
    /// A running monitor. `initial_content` is what the clipboard held when
    /// the monitor was set up, or `None` where it could not be read: text
    /// that was already there is never reported.
    pub fn new(config: TimestampConfig, initial_content: Option<String>) -> (monitor:
        ClipboardMonitor)
        ensures
            monitor@ == MonitorView::initial(config@, initial_content.deep_view()),
    {
        let last_content = match initial_content {
            Some(text) => text,
            None => String::new(),
        };
        ClipboardMonitor { parser: TimeParser::new(config), last_content, running: true }
    }

    /// Replaces the configuration as a whole; the next cycle parses under it.
    pub fn update_config(&mut self, config: TimestampConfig)
        ensures
            final(self)@ == old(self)@.with_config(config@),
    {
        self.parser.update_config(config);
    }

    pub fn is_running(&self) -> (running: bool)
        ensures
            running == self@.running,
    {
        self.running
    }

    pub fn set_running(&mut self, running: bool)
        ensures
            final(self)@ == old(self)@.with_running(running),
    {
        self.running = running;
    }

    /// Pauses a running monitor and resumes a paused one; returns whether it
    /// is running afterwards.
    pub fn toggle_pause(&mut self) -> (running: bool)
        ensures
            final(self)@ == old(self)@.toggled(),
            running == !old(self)@.running,
    {
        self.running = !self.running;
        self.running
    }

    /// Begins a poll cycle: says whether the clipboard is to be read. A paused
    /// monitor skips the cycle.
    pub fn begin_cycle(&self) -> (read: bool)
        ensures
            read == self@.reads_clipboard(),
    {
        self.running
    }

    /// Remembers what was read if it is news, and says whether it was.
    fn take_in(&mut self, read: Option<String>) -> (news: bool)
        ensures
            news == old(self)@.is_news(read.deep_view()),
            final(self)@ == old(self)@.observed(read.deep_view()),
    {
        match read {
            Some(text) => {
                if text == self.last_content {
                    false
                } else {
                    self.last_content = text;
                    true
                }
            },
            None => false,
        }
    }

    /// Takes in what a poll cycle read from the clipboard (`None` for a failed
    /// read) at clock reading `now`, and returns what is to be presented.
    pub fn observe_at(&mut self, read: Option<String>, now: i64) -> (detection: Option<Detection>)
        ensures
            final(self)@ == old(self)@.observed(read.deep_view()),
            detection.deep_view() == old(self)@.detection(read.deep_view(), now),
            detection is Some <==> old(self)@.detects(read.deep_view()),
    {
        if !self.take_in(read) {
            return None;
        }
        match self.parser.parse_at(self.last_content.as_str(), now) {
            Some(payload) => Some(Detection { payload, position: self.parser.get_hud_position() }),
            None => None,
        }
    }

    /// Takes in what a poll cycle read from the clipboard (`None` for a failed
    /// read), and returns what is to be presented. The relative time is taken
    /// from the wall clock.
    pub fn observe(&mut self, read: Option<String>) -> (detection: Option<Detection>)
        ensures
            final(self)@ == old(self)@.observed(read.deep_view()),
            detection is Some <==> old(self)@.detects(read.deep_view()),
            exists|now: i64|
                detection.deep_view() == #[trigger] old(self)@.detection(read.deep_view(), now),
    {
        let ghost before = self@;
        if !self.take_in(read) {
            assert(before.detection(read.deep_view(), 0) is None);
            assert(!before.detects(read.deep_view()));
            return None;
        }
        let payload = self.parser.parse(self.last_content.as_str());
        proof {
            let now = choose|now: i64|
                payload.deep_view() == #[trigger] parse_result(before.config, read.deep_view()->0, now);
            assert(match payload {
                Some(p) => before.detection(read.deep_view(), now) == Some(
                    DetectionView { payload: p@, position: before.config.hud_position },
                ),
                None => before.detection(read.deep_view(), now) is None,
            });
        }
        match payload {
            Some(payload) => Some(Detection { payload, position: self.parser.get_hud_position() }),
            None => None,
        }
    }
}

/// What can happen to a monitor short of pausing or resuming it.
pub enum MonitorStep {
    /// A poll cycle begins.
    Tick,
    /// A poll cycle hands in what it read.
    Observe(Option<Seq<char>>),
    /// The configuration is replaced.
    Configure(TimestampConfigView),
}

impl MonitorView {
    /// The monitor after one step.
    pub open spec fn after(self, step: MonitorStep) -> MonitorView {
        match step {
            MonitorStep::Tick => self,
            MonitorStep::Observe(read) => self.observed(read),
            MonitorStep::Configure(config) => self.with_config(config),
        }
    }

    /// The monitor after a run of steps.
    pub open spec fn after_all(self, steps: Seq<MonitorStep>) -> MonitorView
        decreases steps.len(),
    {
        if steps.len() == 0 {
            self
        } else {
            self.after_all(steps.drop_last()).after(steps.last())
        }
    }
}

/// Once a running monitor is paused, no poll cycle reads the clipboard,
/// whatever else happens to the monitor, until it is toggled again; toggling
/// it again gives back the monitor as it was.
pub proof fn lemma_paused_monitor_reads_nothing(state: MonitorView, steps: Seq<MonitorStep>)
    requires
        state.running,
    ensures
        !state.toggled().after_all(steps).reads_clipboard(),
        state.toggled().after_all(steps).toggled().reads_clipboard(),
        state.toggled().toggled() == state,
    decreases steps.len(),
{
    if steps.len() > 0 {
        lemma_paused_monitor_reads_nothing(state, steps.drop_last());
    }
}

/// Text that was handed in once is not reported again: a second read of the
/// same text changes nothing and detects nothing.
pub proof fn lemma_same_text_is_reported_once(state: MonitorView, text: Seq<char>, now: i64)
    ensures
        state.observed(Some(text)).observed(Some(text)) == state.observed(Some(text)),
        state.observed(Some(text)).detection(Some(text), now) is None,
{
}

/// The text that a monitor starts with is never reported.
pub proof fn lemma_initial_text_is_not_reported(
    config: TimestampConfigView,
    found: Option<Seq<char>>,
    now: i64,
)
    ensures
        MonitorView::initial(config, found).detection(found, now) is None,
{
}

} // verus!
