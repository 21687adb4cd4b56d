//! The middleware's configuration: the fields to capture, the paths left out of the log, and
//! the log target.
use vstd::prelude::*;
use vstd::string::*;

use crate::config::{default_fields, ConfigError, Fields};
use crate::field::Field;
use crate::outside::{regex_compiles, regex_is_match, regex_matches, regex_new, CompiledRegex};

verus! {

/// A regular expression that excludes the paths it matches, with the text it was compiled from.
pub struct ExcludePattern {
    compiled: CompiledRegex,
}

impl View for ExcludePattern {
    type V = Seq<char>;

    closed spec fn view(&self) -> Seq<char> {
        self.compiled@
    }
}

impl ExcludePattern {
    /// Compiles `pattern`; refused when it is no valid regular expression.
    pub fn compile(pattern: &str) -> (r: Result<ExcludePattern, ConfigError>)
        ensures
            r is Ok <==> regex_compiles(pattern@),
            r matches Ok(p) ==> p@ == pattern@,
            r matches Err(e) ==> e == ConfigError::InvalidPattern,
    {
        match regex_new(pattern) {
            Ok(compiled) => Ok(ExcludePattern { compiled }),
            Err(_) => Err(ConfigError::InvalidPattern),
        }
    }

    /// Whether the pattern matches somewhere in `path`.
    pub fn is_match(&self, path: &str) -> (r: bool)
        ensures
            r == regex_matches(self@, path@),
    {
        regex_is_match(&self.compiled, path)
    }

    /// The text the pattern was compiled from.
    pub fn as_str(&self) -> (r: &str)
        ensures
            r@ == self@,
    {
        self.compiled.as_str()
    }
}

/// What a logger is configured with.
pub struct LoggerView {
    pub fields: Seq<Field>,
    pub exclude: Seq<Seq<char>>,
    pub patterns: Seq<Seq<char>>,
    pub log_target: Seq<char>,
}

/// Whether a request for `path` is left out of the log: the path is one of the excluded
/// paths, or one of the patterns matches it.
pub open spec fn excluded(v: LoggerView, path: Seq<char>) -> bool {
    v.exclude.contains(path) || exists|i: int|
        0 <= i < v.patterns.len() && regex_matches(#[trigger] v.patterns[i], path)
}

/// The log target that a logger has unless another is set.
pub open spec fn default_target() -> Seq<char> {
    "actix_web_middleware_slogger::logger"@
}

/// Access-log middleware configuration: the fields to capture, the paths to leave out, and the
/// target under which records are logged. Built once, then only read.
pub struct SLogger {
    fields: Fields,
    exclude: Vec<String>,
    exclude_regex: Vec<ExcludePattern>,
    log_target: String,
}

impl View for SLogger {
    type V = LoggerView;

    closed spec fn view(&self) -> LoggerView {
        LoggerView {
            fields: self.fields@,
            exclude: self.exclude@.map_values(|s: String| s@),
            patterns: self.exclude_regex@.map_values(|p: ExcludePattern| p@),
            log_target: self.log_target@,
        }
    }
}

impl SLogger {
    pub closed spec fn wf(&self) -> bool {
        self.fields.wf()
    }

    /// A logger capturing `fields`, excluding nothing, with the default target.
    pub fn new(fields: Fields) -> (r: SLogger)
        requires
            fields.wf(),
        ensures
            r.wf(),
            r@.fields == fields@,
            r@.exclude.len() == 0,
            r@.patterns.len() == 0,
            r@.log_target == default_target(),
    {
        let r = SLogger {
            fields,
            exclude: Vec::new(),
            exclude_regex: Vec::new(),
            log_target: String::from_str("actix_web_middleware_slogger::logger"),
        };
        assert(r@.exclude =~= Seq::<Seq<char>>::empty());
        assert(r@.patterns =~= Seq::<Seq<char>>::empty());
        r
    }

    /// Leaves requests for exactly `path` out of the log.
    pub fn exclude(self, path: &str) -> (r: SLogger)
        requires
            self.wf(),
        ensures
            r.wf(),
            r@.fields == self@.fields,
            r@.exclude == self@.exclude.push(path@),
            r@.patterns == self@.patterns,
            r@.log_target == self@.log_target,
    {
        let SLogger { fields, exclude, exclude_regex, log_target } = self;
        let mut exclude = exclude;
        exclude.push(String::from_str(path));
        let r = SLogger { fields, exclude, exclude_regex, log_target };
        assert(r@.exclude =~= self@.exclude.push(path@));
        r
    }

    /// Leaves requests whose path the regular expression `pattern` matches out of the log;
    /// refused when `pattern` is no valid regular expression.
    pub fn exclude_regex(self, pattern: &str) -> (r: Result<SLogger, ConfigError>)
        requires
            self.wf(),
        ensures
            r is Ok <==> regex_compiles(pattern@),
            r matches Err(e) ==> e == ConfigError::InvalidPattern,
            r matches Ok(l) ==> l.wf() && l@.fields == self@.fields && l@.exclude == self@.exclude
                && l@.patterns == self@.patterns.push(pattern@) && l@.log_target
                == self@.log_target,
    {
        let SLogger { fields, exclude, exclude_regex, log_target } = self;
        match ExcludePattern::compile(pattern) {
            Ok(p) => {
                let mut exclude_regex = exclude_regex;
                exclude_regex.push(p);
                let r = SLogger { fields, exclude, exclude_regex, log_target };
                assert(r@.patterns =~= self@.patterns.push(pattern@));
                Ok(r)
            },
            Err(e) => Err(e),
        }
    }

    /// Sets the target under which records are logged.
    pub fn log_target(self, target: &str) -> (r: SLogger)
        requires
            self.wf(),
        ensures
            r.wf(),
            r@.fields == self@.fields,
            r@.exclude == self@.exclude,
            r@.patterns == self@.patterns,
            r@.log_target == target@,
    {
        let SLogger { fields, exclude, exclude_regex, log_target: _ } = self;
        SLogger { fields, exclude, exclude_regex, log_target: String::from_str(target) }
    }

    /// Whether requests for `path` are left out of the log. The excluded paths are checked
    /// first, then the patterns in the order they were added, up to the first that matches.
    pub fn should_exclude(&self, path: &str) -> (r: bool)
        ensures
            r == excluded(self@, path@),
    {
        let wanted = String::from_str(path);
        let mut i: usize = 0;
        while i < self.exclude.len()
            invariant
                i <= self.exclude@.len(),
                wanted@ == path@,
                forall|j: int| 0 <= j < i ==> self.exclude@[j]@ != path@,
            decreases self.exclude@.len() - i,
        {
            if self.exclude[i] == wanted {
                proof {
                    assert(self@.exclude[i as int] == path@);
                }
                return true;
            }
            i = i + 1;
        }
        assert(!self@.exclude.contains(path@)) by {
            if self@.exclude.contains(path@) {
                let k = choose|k: int| 0 <= k < self@.exclude.len() && self@.exclude[k] == path@;
                assert(self.exclude@[k]@ == path@);
            }
        }
        let mut k: usize = 0;
        while k < self.exclude_regex.len()
            invariant
                k <= self.exclude_regex@.len(),
                forall|j: int| 0 <= j < k ==> !regex_matches(#[trigger] self@.patterns[j], path@),
            decreases self.exclude_regex@.len() - k,
        {
            if self.exclude_regex[k].is_match(path) {
                assert(regex_matches(self@.patterns[k as int], path@));
                return true;
            }
            k = k + 1;
        }
        false
    }

    /// The fields captured.
    pub fn fields(&self) -> (r: &Fields)
        ensures
            r@ == self@.fields,
            r.wf() == self.wf(),
    {
        &self.fields
    }

    /// The target under which records are logged.
    pub fn target(&self) -> (r: &str)
        ensures
            r@ == self@.log_target,
    {
        self.log_target.as_str()
    }

    /// Whether requests for exactly `path` are left out.
    pub fn excludes_path(&self, path: &str) -> (r: bool)
        ensures
            r == self@.exclude.contains(path@),
    {
        let wanted = String::from_str(path);
        let mut i: usize = 0;
        while i < self.exclude.len()
            invariant
                i <= self.exclude@.len(),
                wanted@ == path@,
                forall|j: int| 0 <= j < i ==> self.exclude@[j]@ != path@,
            decreases self.exclude@.len() - i,
        {
            if self.exclude[i] == wanted {
                assert(self@.exclude[i as int] == path@);
                return true;
            }
            i = i + 1;
        }
        assert(!self@.exclude.contains(path@)) by {
            if self@.exclude.contains(path@) {
                let k = choose|k: int| 0 <= k < self@.exclude.len() && self@.exclude[k] == path@;
                assert(self.exclude@[k]@ == path@);
            }
        }
        false
    }

    /// The excluded paths, in the order they were added.
    pub fn exclude_paths(&self) -> (r: &Vec<String>)
        ensures
            r@.map_values(|s: String| s@) == self@.exclude,
    {
        &self.exclude
    }

    /// The exclusion patterns, in the order they were added.
    pub fn patterns(&self) -> (r: &Vec<ExcludePattern>)
        ensures
            r@.map_values(|p: ExcludePattern| p@) == self@.patterns,
    {
        &self.exclude_regex
    }
}

impl Default for SLogger {
    /// A logger capturing the default fields, excluding nothing, with the default target.
    fn default() -> (r: SLogger)
        ensures
            r.wf(),
            r@.fields == default_fields(),
            r@.exclude.len() == 0,
            r@.patterns.len() == 0,
            r@.log_target == default_target(),
    {
        SLogger::new(Fields::default())
    }
}

} // verus!
