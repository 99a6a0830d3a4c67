use vstd::prelude::*;

verus! {

pub const DEFAULT_LOG_DIR: &'static str = "logs";

pub const DEFAULT_LOG_PREFIX: &'static str = "log";

/// The least severe level of the events that are kept.
#[derive(Debug, Clone, Copy, PartialEq, Eq)]
pub enum TracingFilterLevel {
    Error,
    Warn,
    Info,
    Debug,
    Trace,
}

impl Default for TracingFilterLevel {
    fn default() -> (r: Self)
        ensures
            r == TracingFilterLevel::Info,
    {
        TracingFilterLevel::Info
    }
}

/// How each event is written.
#[derive(Debug, Clone, Copy, PartialEq, Eq)]
pub enum TracingFormat {
    Plain,
    Json,
}

impl Default for TracingFormat {
    fn default() -> (r: Self)
        ensures
            r == TracingFormat::Plain,
    {
        TracingFormat::Plain
    }
}

/// Which clock stamps each event: the subscriber's own, or local time.
#[derive(Debug, Clone, Copy, PartialEq, Eq)]
pub enum TracingTimer {
    Default,
    Local,
}

impl Default for TracingTimer {
    fn default() -> (r: Self)
        ensures
            r == TracingTimer::Default,
    {
        TracingTimer::Default
    }
}

/// How often a new log file is begun.
#[derive(Debug, Clone, Copy, PartialEq, Eq)]
pub enum TracingFileRotation {
    Daily,
    Hourly,
    Minutely,
    Never,
}

impl Default for TracingFileRotation {
    fn default() -> (r: Self)
        ensures
            r == TracingFileRotation::Hourly,
    {
        TracingFileRotation::Hourly
    }
}

/// Where and how events are written to files.
#[derive(Debug, Clone, Copy, PartialEq, Eq)]
pub struct TracingFilePersistenceConfig {
    pub log_dir: &'static str,
    pub log_prefix: &'static str,
    pub rotation: TracingFileRotation,
}

impl Default for TracingFilePersistenceConfig {
    fn default() -> (r: Self)
        ensures
            r.log_dir@ == DEFAULT_LOG_DIR@,
            r.log_prefix@ == DEFAULT_LOG_PREFIX@,
            r.rotation == TracingFileRotation::Hourly,
    {
        TracingFilePersistenceConfig {
            log_dir: DEFAULT_LOG_DIR,
            log_prefix: DEFAULT_LOG_PREFIX,
            rotation: TracingFileRotation::default(),
        }
    }
}

/// Whether events also go to files, and how.
#[derive(Debug, Clone, Copy, PartialEq, Eq)]
pub enum TracingFilePersistence {
    Enabled(TracingFilePersistenceConfig),
    Disabled,
}

impl Default for TracingFilePersistence {
    fn default() -> (r: Self)
        ensures
            r == TracingFilePersistence::Disabled,
    {
        TracingFilePersistence::Disabled
    }
}

/// The choices of a tracing subscriber, each unset until a builder method sets it.
#[derive(Debug, Clone, Copy, PartialEq, Eq)]
pub struct TracingSubscriber {
    pub filter_level: Option<TracingFilterLevel>,
    pub format: Option<TracingFormat>,
    pub timer: Option<TracingTimer>,
    pub file_persistence: Option<TracingFilePersistence>,
}

/// The complete settings with which a subscriber is installed: every choice
/// made, and the file configuration where events go to files.
#[derive(Debug, Clone, Copy, PartialEq, Eq)]
pub struct TracingSettings {
    pub filter_level: TracingFilterLevel,
    pub format: TracingFormat,
    pub timer: TracingTimer,
    pub persistence: Option<TracingFilePersistenceConfig>,
}

impl Default for TracingSubscriber {
    fn default() -> (r: Self)
        ensures
            r.filter_level.is_none(),
            r.format.is_none(),
            r.timer.is_none(),
            r.file_persistence.is_none(),
    {
        TracingSubscriber { filter_level: None, format: None, timer: None, file_persistence: None }
    }
}

impl TracingSubscriber {
    pub fn new(
        filter_level: Option<TracingFilterLevel>,
        format: Option<TracingFormat>,
        timer: Option<TracingTimer>,
        file_persistence: Option<TracingFilePersistence>,
    ) -> (r: Self)
        ensures
            r.filter_level == filter_level,
            r.format == format,
            r.timer == timer,
            r.file_persistence == file_persistence,
    {
        TracingSubscriber { filter_level, format, timer, file_persistence }
    }

    pub fn with_filter_level(&mut self, level: TracingFilterLevel)
        ensures
            *final(self) == (TracingSubscriber { filter_level: Some(level), ..*old(self) }),
    {
        self.filter_level = Some(level);
    }

    pub fn with_format(&mut self, format: TracingFormat)
        ensures
            *final(self) == (TracingSubscriber { format: Some(format), ..*old(self) }),
    {
        self.format = Some(format);
    }

    pub fn with_timer(&mut self, timer: TracingTimer)
        ensures
            *final(self) == (TracingSubscriber { timer: Some(timer), ..*old(self) }),
    {
        self.timer = Some(timer);
    }

    pub fn with_file_persistence(&mut self, persistence: TracingFilePersistence)
        ensures
            *final(self) == (TracingSubscriber { file_persistence: Some(persistence), ..*old(self) }),
    {
        self.file_persistence = Some(persistence);
    }

    /// The settings that installing this subscriber uses: each unset choice
    /// takes its default (level `Info`, format `Plain`, timer `Default`), and
    /// events go to files exactly when persistence is set and enabled.
    pub fn settings(self) -> (r: TracingSettings)
        ensures
            r.filter_level == match self.filter_level {
                Some(level) => level,
                None => TracingFilterLevel::Info,
            },
            r.format == match self.format {
                Some(format) => format,
                None => TracingFormat::Plain,
            },
            r.timer == match self.timer {
                Some(timer) => timer,
                None => TracingTimer::Default,
            },
            r.persistence == match self.file_persistence {
                Some(TracingFilePersistence::Enabled(config)) => Some(config),
                _ => None,
            },
    {
        let filter_level = match self.filter_level {
            Some(level) => level,
            None => TracingFilterLevel::default(),
        };
        let format = match self.format {
            Some(format) => format,
            None => TracingFormat::default(),
        };
        let timer = match self.timer {
            Some(timer) => timer,
            None => TracingTimer::default(),
        };
        let persistence = match self.file_persistence {
            Some(TracingFilePersistence::Enabled(config)) => Some(config),
            _ => None,
        };
        TracingSettings { filter_level, format, timer, persistence }
    }
}

/// The subscriber installed by default: every choice at its default but the
/// timer, which is local time.
pub fn default_subscriber() -> (r: TracingSubscriber)
    ensures
        r == (TracingSubscriber {
            filter_level: None,
            format: None,
            timer: Some(TracingTimer::Local),
            file_persistence: None,
        }),
{
    let mut subscriber = TracingSubscriber::default();
    subscriber.with_timer(TracingTimer::Local);
    subscriber
}

} // verus!
