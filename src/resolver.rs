use vstd::prelude::*;
use vstd::string::*;
use crate::config::{failure_text, outcome_of, decode_spec, Config, DecodeOutcome, ParseFailure};
use crate::paths::strings_view;

verus! {

/// What looking at one candidate location found.
#[derive(Debug)]
pub enum Probe {
    /// Nothing exists there.
    Missing,
    /// Something exists there but could not be read; why.
    Unreadable(String),
    /// The file's text.
    Read(String),
}

/// A configuration together with the location it was read from.
#[derive(Debug)]
pub struct Loaded {
    pub path: String,
    pub config: Config,
}

/// Why no configuration could be had.
#[derive(Debug)]
pub enum ConfigError {
    /// No candidate could be read; what went wrong with the last one tried.
    NotFound { last_failure: Option<String> },
    /// The file at `path` was read but does not describe a configuration.
    Parse { path: String, failure: ParseFailure },
}

/// The human-readable description of an error.
pub open spec fn error_text(e: ConfigError) -> Seq<char> {
    match e {
        ConfigError::NotFound { last_failure } => "Failed to load config from any path. Last error: "@
            + match last_failure {
            Some(s) => s@,
            None => Seq::empty(),
        },
        ConfigError::Parse { path, failure } => "Failed to parse "@ + path@ + ": "@ + failure_text(
            failure,
        ),
    }
}

impl ConfigError {
    pub fn describe(&self) -> (r: String)
        ensures
            r@ == error_text(*self),
    {
        match self {
            ConfigError::NotFound { last_failure } => {
                let head = String::from_str("Failed to load config from any path. Last error: ");
                match last_failure {
                    Some(s) => head.concat(s.as_str()),
                    None => {
                        assert(head@ + Seq::<char>::empty() =~= head@);
                        head
                    },
                }
            },
            ConfigError::Parse { path, failure } => String::from_str("Failed to parse ").concat(
                path.as_str(),
            ).concat(": ").concat(failure.describe().as_str()),
        }
    }
}

/// The result of a resolution, as plain values.
pub enum Resolution {
    Loaded(Seq<char>, Seq<char>, u16),
    NotFound(Option<Seq<char>>),
    Malformed(Seq<char>, DecodeOutcome),
}

pub open spec fn opt_view(o: Option<String>) -> Option<Seq<char>> {
    match o {
        Some(s) => Some(s@),
        None => None,
    }
}

pub open spec fn resolution_of(r: Result<Loaded, ConfigError>) -> Resolution {
    match r {
        Ok(l) => Resolution::Loaded(l.path@, l.config.message@, l.config.port),
        Err(ConfigError::NotFound { last_failure }) => Resolution::NotFound(opt_view(last_failure)),
        Err(ConfigError::Parse { path, failure }) => Resolution::Malformed(
            path@,
            outcome_of(Err(failure)),
        ),
    }
}

/// The note kept when the candidate at `path` could not be used.
pub open spec fn failure_note(path: Seq<char>, probe: Probe) -> Seq<char> {
    match probe {
        Probe::Missing => path + ": not found"@,
        Probe::Unreadable(e) => path + ": "@ + e@,
        Probe::Read(_) => path,
    }
}

/// The end of the search at a file at `path` whose text is `text`: it is
/// taken when it decodes, and stops the search with an error when it does
/// not.
pub open spec fn read_outcome(path: Seq<char>, text: Seq<char>) -> Resolution {
    match decode_spec(text) {
        DecodeOutcome::Decoded(m, p) => Resolution::Loaded(path, m, p),
        _ => Resolution::Malformed(path, decode_spec(text)),
    }
}

/// The search from candidate `i` on, with `last` the note of the last
/// candidate that could not be used.
pub open spec fn resolve_from(
    paths: Seq<Seq<char>>,
    probes: Seq<Probe>,
    i: int,
    last: Option<Seq<char>>,
) -> Resolution
    decreases probes.len() - i,
{
    if i < 0 || i >= paths.len() || i >= probes.len() {
        Resolution::NotFound(last)
    } else {
        match probes[i] {
            Probe::Read(t) => read_outcome(paths[i], t@),
            _ => resolve_from(paths, probes, i + 1, Some(failure_note(paths[i], probes[i]))),
        }
    }
}

/// The outcome of trying the candidates `paths` in order, where `probes[i]`
/// is what was found at `paths[i]`.
pub open spec fn resolution(paths: Seq<Seq<char>>, probes: Seq<Probe>) -> Resolution {
    resolve_from(paths, probes, 0, None)
}

/// The search through the candidate locations, one step at a time: the
/// caller looks at the location that `pending` names and hands what it found
/// to `advance`, until `advance` gives a result or nothing is pending.
#[derive(Debug)]
pub struct Resolver {
    pub paths: Vec<String>,
    pub next: usize,
    pub last_failure: Option<String>,
}

impl Resolver {
    pub fn new(paths: Vec<String>) -> (r: Resolver)
        ensures
            r.paths == paths,
            r.next == 0,
            r.last_failure is None,
    {
        Resolver { paths, next: 0, last_failure: None }
    }

    /// The location to look at next, if any is left.
    pub fn pending(&self) -> (r: Option<String>)
        ensures
            self.next < self.paths.len() ==> r is Some && r->0@ == self.paths@[self.next as int]@,
            self.next >= self.paths.len() ==> r is None,
    {
        if self.next < self.paths.len() {
            Some(self.paths[self.next].clone())
        } else {
            None
        }
    }

    /// Takes what was found at the pending location. A readable file ends
    /// the search, with its configuration or with a parse error; otherwise
    /// the note is kept and the search moves on.
    pub fn advance(&mut self, probe: &Probe) -> (r: Option<Result<Loaded, ConfigError>>)
        requires
            old(self).next < old(self).paths.len(),
        ensures
            final(self).paths == old(self).paths,
            match *probe {
                Probe::Read(t) => r is Some && resolution_of(r->0) == read_outcome(
                    old(self).paths@[old(self).next as int]@,
                    t@,
                ) && final(self).next == old(self).next && final(self).last_failure
                    == old(self).last_failure,
                _ => r is None && final(self).next == old(self).next + 1 && opt_view(
                    final(self).last_failure,
                ) == Some(failure_note(old(self).paths@[old(self).next as int]@, *probe)),
            },
    {
        let path = self.paths[self.next].clone();
        match probe {
            Probe::Read(text) => {
                let r = match Config::from_json(text.as_str()) {
                    Ok(config) => Ok(Loaded { path, config }),
                    Err(failure) => Err(ConfigError::Parse { path, failure }),
                };
                Some(r)
            },
            Probe::Missing => {
                self.last_failure = Some(path.concat(": not found"));
                self.next = self.next + 1;
                None
            },
            Probe::Unreadable(e) => {
                self.last_failure = Some(path.concat(": ").concat(e.as_str()));
                self.next = self.next + 1;
                None
            },
        }
    }

    /// The error once every candidate has been tried.
    pub fn give_up(&self) -> (r: ConfigError)
        ensures
            resolution_of(Err(r)) == Resolution::NotFound(opt_view(self.last_failure)),
    {
        ConfigError::NotFound { last_failure: self.last_failure.clone() }
    }
}

/// Tries the candidates `paths` in order, where `probes[i]` is what was
/// found at `paths[i]`.
pub fn resolve(paths: Vec<String>, probes: &Vec<Probe>) -> (r: Result<Loaded, ConfigError>)
    ensures
        resolution_of(r) == resolution(strings_view(paths@), probes@),
{
    let ghost pv = strings_view(paths@);
    let mut machine = Resolver::new(paths);
    while machine.next < machine.paths.len() && machine.next < probes.len()
        invariant
            pv == strings_view(paths@),
            strings_view(machine.paths@) == pv,
            machine.next <= machine.paths.len(),
            resolution(pv, probes@) == resolve_from(
                pv,
                probes@,
                machine.next as int,
                opt_view(machine.last_failure),
            ),
        decreases machine.paths.len() - machine.next,
    {
        let ghost i = machine.next as int;
        let ghost last = opt_view(machine.last_failure);
        assert(pv[i] == machine.paths@[i]@);
        match machine.advance(&probes[machine.next]) {
            Some(r) => {
                assert(resolve_from(pv, probes@, i, last) == read_outcome(
                    pv[i],
                    probes@[i]->Read_0@,
                ));
                return r;
            },
            None => {},
        }
    }
    Err(machine.give_up())
}

proof fn lemma_skip_to(
    paths: Seq<Seq<char>>,
    probes: Seq<Probe>,
    k: int,
    i: int,
    last: Option<Seq<char>>,
)
    requires
        0 <= k <= i,
        i < paths.len(),
        i < probes.len(),
        forall|j: int| k <= j < i ==> !(#[trigger] probes[j] is Read),
        probes[i] is Read,
    ensures
        resolve_from(paths, probes, k, last) == read_outcome(paths[i], probes[i]->Read_0@),
    decreases i - k,
{
    if k < i {
        lemma_skip_to(paths, probes, k + 1, i, Some(failure_note(paths[k], probes[k])));
    }
}

/// The configuration chosen is the one at the first candidate, in priority
/// order, whose file exists, can be read and decodes, whatever lies at the
/// candidates after it.
pub proof fn lemma_first_usable_candidate_wins(paths: Seq<Seq<char>>, probes: Seq<Probe>, i: int)
    requires
        0 <= i < paths.len(),
        i < probes.len(),
        forall|j: int| 0 <= j < i ==> !(#[trigger] probes[j] is Read),
        probes[i] is Read,
        decode_spec(probes[i]->Read_0@) is Decoded,
    ensures
        resolution(paths, probes) == Resolution::Loaded(
            paths[i],
            decode_spec(probes[i]->Read_0@)->Decoded_0,
            decode_spec(probes[i]->Read_0@)->Decoded_1,
        ),
{
    lemma_skip_to(paths, probes, 0, i, None);
}

/// A file that exists and is read but does not decode ends the search with
/// a parse error that names its location, even where a later candidate holds
/// a well-formed configuration.
pub proof fn lemma_malformed_candidate_stops(paths: Seq<Seq<char>>, probes: Seq<Probe>, i: int)
    requires
        0 <= i < paths.len(),
        i < probes.len(),
        forall|j: int| 0 <= j < i ==> !(#[trigger] probes[j] is Read),
        probes[i] is Read,
        !(decode_spec(probes[i]->Read_0@) is Decoded),
    ensures
        resolution(paths, probes) == Resolution::Malformed(
            paths[i],
            decode_spec(probes[i]->Read_0@),
        ),
{
    lemma_skip_to(paths, probes, 0, i, None);
}

proof fn lemma_all_missing_from(
    paths: Seq<Seq<char>>,
    probes: Seq<Probe>,
    k: int,
    last: Option<Seq<char>>,
)
    requires
        0 <= k <= probes.len(),
        paths.len() == probes.len(),
        forall|j: int| k <= j < probes.len() ==> #[trigger] probes[j] is Missing,
    ensures
        resolve_from(paths, probes, k, last) == if k < probes.len() {
            Resolution::NotFound(Some(paths.last() + ": not found"@))
        } else {
            Resolution::NotFound(last)
        },
    decreases probes.len() - k,
{
    if k < probes.len() {
        lemma_all_missing_from(paths, probes, k + 1, Some(failure_note(paths[k], probes[k])));
    }
}

/// When no candidate exists, resolution fails as not found, never as a
/// parse error, and its note names the last candidate tried.
pub proof fn lemma_nothing_found(paths: Seq<Seq<char>>, probes: Seq<Probe>)
    requires
        paths.len() == probes.len(),
        forall|j: int| 0 <= j < probes.len() ==> #[trigger] probes[j] is Missing,
    ensures
        resolution(paths, probes) is NotFound,
        probes.len() > 0 ==> resolution(paths, probes) == Resolution::NotFound(
            Some(paths.last() + ": not found"@),
        ),
{
    lemma_all_missing_from(paths, probes, 0, None);
}

} // verus!
