//! The logger pipeline's decisions: severity thresholds, the target filter,
//! the resolved log directory and file name, and the live handle through
//! which the threshold is changed after startup. Building the actual sinks
//! (console stream, daily-rotating buffered file writer) is I/O and lives
//! with the host process; everything the sinks are configured from is decided
//! and proved here.

use vstd::prelude::*;
use vstd::string::StringExecFns;

verus! {

/// The fixed default log directory, used when nothing else applies.
pub const DEFAULT_LOG_PATH: &'static str = "/opt/logs/apps/";

/// The severity threshold that gates which records reach the sinks.
/// `Debug` is the more verbose threshold: it admits everything; `Info`
/// drops `Debug` records.
#[derive(Clone, Copy, Debug, PartialEq, Eq, Structural)]
pub enum Severity {
    Debug,
    Info,
}

/// Whether a record at `level` passes a sink filtered at `threshold`.
pub open spec fn severity_allows(threshold: Severity, level: Severity) -> bool {
    match threshold {
        Severity::Debug => true,
        Severity::Info => level is Info,
    }
}

/// The threshold chosen at initialization: `Debug` when the caller asked for
/// debug output, `Info` otherwise.
pub open spec fn chosen_threshold(debug: bool) -> Severity {
    if debug {
        Severity::Debug
    } else {
        Severity::Info
    }
}

/// Whether a record with source tag `target` at `level` passes a filter that
/// matches each of `targets` at `threshold`. A record whose tag matches none
/// of the targets is dropped.
pub open spec fn passes(
    targets: Seq<Seq<char>>,
    threshold: Severity,
    target: Seq<char>,
    level: Severity,
) -> bool {
    targets.contains(target) && severity_allows(threshold, level)
}

/// The live reference to the active severity threshold. Created once at
/// initialization and shared for the process lifetime; a later
/// [`change_debug`] swaps the threshold without restarting the process.
pub struct LogHandle {
    pub threshold: Severity,
}

impl LogHandle {
    /// A handle whose threshold is `Debug` when `debug` holds, `Info` otherwise.
    pub fn new(debug: bool) -> (r: LogHandle)
        ensures
            r.threshold == chosen_threshold(debug),
    {
        LogHandle { threshold: if debug { Severity::Debug } else { Severity::Info } }
    }

    /// The threshold currently in force.
    pub fn threshold(&self) -> (r: Severity)
        ensures
            r == self.threshold,
    {
        self.threshold
    }
}

/// Swaps the shared threshold: `Debug` when `debug` holds, `Info` otherwise.
/// Returns `true`, the threshold having been changed.
pub fn change_debug(handle: &mut LogHandle, debug: bool) -> (r: bool)
    ensures
        final(handle).threshold == chosen_threshold(debug),
        r == true,
{
    handle.threshold = if debug { Severity::Debug } else { Severity::Info };
    true
}

/// Whether a record with source tag `target` at `level` reaches the sinks of
/// a logger that matches `targets` at the threshold `handle` holds.
pub fn record_passes(targets: &Vec<String>, handle: &LogHandle, target: &String, level: Severity) -> (r: bool)
    ensures
        r == passes(targets@.map_values(|t: String| t@), handle.threshold, target@, level),
{
    let mut found = false;
    let mut i: usize = 0;
    while i < targets.len()
        invariant
            0 <= i <= targets.len(),
            found == exists|j: int| 0 <= j < i && targets@[j]@ == target@,
        decreases targets.len() - i,
    {
        if targets[i].eq(target) {
            found = true;
            proof {
                assert(targets@[i as int]@ == target@);
            }
        }
        i = i + 1;
    }
    proof {
        let views = targets@.map_values(|t: String| t@);
        assert(found == views.contains(target@)) by {
            if found {
                let j = choose|j: int| 0 <= j < targets@.len() && targets@[j]@ == target@;
                assert(views[j] == target@);
            }
            if views.contains(target@) {
                let j = choose|j: int| 0 <= j < views.len() && views[j] == target@;
                assert(targets@[j]@ == target@);
            }
        }
    }
    let allows = match handle.threshold {
        Severity::Debug => true,
        Severity::Info => match level {
            Severity::Info => true,
            Severity::Debug => false,
        },
    };
    found && allows
}

/// Raising the live threshold from `Info` to `Debug` admits a subsequently
/// emitted `Debug`-level record that the `Info` threshold dropped, for every
/// record whose source tag the filter matches.
pub proof fn lemma_threshold_change_admits_debug(targets: Seq<Seq<char>>, target: Seq<char>)
    requires
        targets.contains(target),
    ensures
        !passes(targets, Severity::Info, target, Severity::Debug),
        passes(targets, Severity::Debug, target, Severity::Debug),
{
}

/// What `str::trim` returns: the characters with surrounding whitespace
/// removed.
pub uninterp spec fn trim_of(s: Seq<char>) -> Seq<char>;

/// Relies on `str::trim` of std: it returns the string with leading and
/// trailing whitespace removed, so it removes characters only.
pub assume_specification[ str::trim ](s: &str) -> (r: &str)
    ensures
        r@ == trim_of(s@),
        r@.len() <= s@.len(),
;

/// The effective log directory, resolved in order: the platform temporary
/// directory in development mode; the explicit path, trimmed of surrounding
/// whitespace; the value of the caller-named environment variable, where set;
/// the fixed default.
pub open spec fn resolved_log_path(
    explicit: Option<Seq<char>>,
    env_value: Option<Seq<char>>,
    dev: bool,
    temp_dir: Seq<char>,
) -> Seq<char> {
    if dev {
        temp_dir
    } else if explicit is Some {
        trim_of(explicit->0)
    } else if env_value is Some {
        env_value->0
    } else {
        DEFAULT_LOG_PATH@
    }
}

/// Computes the effective log directory from the explicit path, the value of
/// the caller-named environment variable (`None` where no variable was named
/// or it is unset), the development-mode flag, and the platform temporary
/// directory. Always returns a usable path; no error case.
pub fn log_path(explicit: Option<&str>, env_log_path: Option<String>, dev: bool, temp_dir: &str) -> (r: String)
    ensures
        r@ == resolved_log_path(
            match explicit {
                Some(p) => Some(p@),
                None => None,
            },
            match env_log_path {
                Some(v) => Some(v@),
                None => None,
            },
            dev,
            temp_dir@,
        ),
{
    if dev {
        return temp_dir.to_owned();
    }
    match explicit {
        Some(p) => p.trim().to_owned(),
        None => match env_log_path {
            Some(v) => v,
            None => DEFAULT_LOG_PATH.to_owned(),
        },
    }
}

/// Everything the host needs to build the two sinks: the severity threshold,
/// the resolved log directory, the daily-rotated file's name, and the source
/// tags the filter matches.
pub struct LogConfig {
    pub threshold: Severity,
    pub directory: String,
    pub file_name: String,
    pub targets: Vec<String>,
}

/// Whether `cfg` is the configuration that initialization owes the caller:
/// threshold from `debug`; file named `{bin_name}.log`; directory as given or
/// resolved without an explicit path or environment override; the filter
/// matching `bin_name` and every extra target, in order.
pub open spec fn log_config_for(
    cfg: LogConfig,
    bin_name: Seq<char>,
    crates_to_log: Seq<Seq<char>>,
    debug: bool,
    log_directory: Option<Seq<char>>,
    dev: bool,
    temp_dir: Seq<char>,
) -> bool {
    &&& cfg.threshold == chosen_threshold(debug)
    &&& cfg.file_name@ == bin_name + ".log"@
    &&& cfg.directory@ == (match log_directory {
        Some(d) => d,
        None => resolved_log_path(None, None, dev, temp_dir),
    })
    &&& cfg.targets@.map_values(|t: String| t@) == seq![bin_name] + crates_to_log
}

/// Decides the logger pipeline's configuration: the threshold is `Debug`
/// exactly when `debug` holds; the file sink writes `{bin_name}.log` in the
/// given directory, or in the directory the resolver yields when none is
/// given; the filter matches `bin_name` and every name in `crates_to_log` at
/// that threshold.
pub fn logger_config(
    bin_name: &str,
    crates_to_log: &Vec<String>,
    debug: bool,
    log_directory: Option<String>,
    dev: bool,
    temp_dir: &str,
) -> (r: LogConfig)
    ensures
        log_config_for(
            r,
            bin_name@,
            crates_to_log@.map_values(|t: String| t@),
            debug,
            match log_directory {
                Some(d) => Some(d@),
                None => None,
            },
            dev,
            temp_dir@,
        ),
{
    let threshold = if debug { Severity::Debug } else { Severity::Info };
    let directory = match log_directory {
        Some(d) => d,
        None => log_path(None, None, dev, temp_dir),
    };
    let file_name = bin_name.to_owned().concat(".log");
    let mut targets: Vec<String> = Vec::new();
    targets.push(bin_name.to_owned());
    let mut i: usize = 0;
    while i < crates_to_log.len()
        invariant
            0 <= i <= crates_to_log.len(),
            targets@.len() == i + 1,
            targets@[0]@ == bin_name@,
            forall|j: int| 0 <= j < i ==> targets@[j + 1]@ == crates_to_log@[j]@,
        decreases crates_to_log.len() - i,
    {
        targets.push(crates_to_log[i].clone());
        i = i + 1;
    }
    proof {
        assert(targets@.map_values(|t: String| t@) =~= seq![bin_name@] + crates_to_log@.map_values(
            |t: String| t@,
        ));
    }
    LogConfig { threshold, directory, file_name, targets }
}

} // verus!
