//! The discovery of the data sources of the driver.
//!
//! The discovery reads the path of the driver's file, lists the names of
//! the data sources of the machine and then those of the current user,
//! and lists the values of each of them. A data source is one of the
//! driver where a value named `Driver` holds the path of the driver's
//! file. The first operation that fails ends the discovery with its error.

use vstd::prelude::*;
use vstd::string::*;

use crate::common::config_error::ConfigError;
use crate::common::exchange::{
    result_view, unexpected_reply_text, Operation, OperationView, Outcome, OutcomeView,
};
use crate::common::protocol::child_path;
use crate::common::registry::{
    dsn_subpath, scope_root, DsnRecord, DsnType, RegistryDsn, RegistrySetting, Root, SettingEntry,
    DRIVER_SETTING_NAME, ODBC_INI_SUBPATH,
};
use crate::common::text::same_text;

verus! {

/// Whether the values are those of a data source of the driver: one of
/// them is named `Driver` and holds the path of the driver's file.
pub open spec fn names_driver(settings: Seq<SettingEntry>, driver_path: Seq<char>) -> bool {
    exists|i: int|
        0 <= i < settings.len() && (#[trigger] settings[i]).name == DRIVER_SETTING_NAME@
            && settings[i].value == driver_path
}

/// Whether the values are those of a data source of the driver.
pub fn is_driver_dsn(settings: &Vec<RegistrySetting>, driver_path: &str) -> (matches: bool)
    ensures
        matches == names_driver(settings.deep_view(), driver_path@),
{
    let ghost entries = settings.deep_view();
    let mut i: usize = 0;
    while i < settings.len()
        invariant
            i <= settings.len(),
            entries == settings.deep_view(),
            forall|k: int|
                0 <= k < i ==> !((#[trigger] entries[k]).name == DRIVER_SETTING_NAME@ && entries[k].value
                    == driver_path@),
        decreases settings.len() - i,
    {
        assert(entries[i as int] == settings@[i as int]@);
        if same_text(DRIVER_SETTING_NAME, settings[i].name.as_str()) && same_text(
            driver_path,
            settings[i].value.as_str(),
        ) {
            return true;
        }
        i += 1;
    }
    false
}

/// A key that may hold a data source of the driver: its scope and its
/// name.
#[derive(Debug)]
pub struct Candidate {
    pub dsn_type: DsnType,
    pub name: String,
}

/// The scope and the name of a [`Candidate`].
pub struct CandidateView {
    pub scope: DsnType,
    pub name: Seq<char>,
}

impl View for Candidate {
    type V = CandidateView;

    open spec fn view(&self) -> CandidateView {
        CandidateView { scope: self.dsn_type, name: self.name@ }
    }
}

impl DeepView for Candidate {
    type V = CandidateView;

    open spec fn deep_view(&self) -> CandidateView {
        self@
    }
}

/// The names as candidates of one scope.
pub open spec fn candidates_of(scope: DsnType, names: Seq<Seq<char>>) -> Seq<CandidateView> {
    names.map_values(|name: Seq<char>| CandidateView { scope, name })
}

/// What the discovery is doing.
#[derive(Debug, Clone, Copy, PartialEq, Eq, Structural)]
pub enum Phase {
    /// Reading the path of the driver's file.
    Driver,
    /// Listing the data sources of the machine.
    SystemNames,
    /// Listing the data sources of the current user.
    UserNames,
    /// Listing the values of one candidate after the other.
    Values,
}

/// The state of a discovery.
pub struct DiscoveryView {
    pub phase: Phase,
    /// The path of the driver's file, once it is read.
    pub driver_path: Seq<char>,
    /// The candidates, once they are listed: those of the machine, then
    /// those of the current user.
    pub candidates: Seq<CandidateView>,
    /// The number of candidates whose values were listed.
    pub next: nat,
    /// The data sources of the driver among those candidates.
    pub found: Seq<DsnRecord>,
}

/// Where a discovery stands after an operation.
pub enum DiscoveryAdvanceView {
    /// The discovery goes on with its next operation.
    Continue(DiscoveryView),
    /// The discovery has ended, with the data sources of the driver or
    /// with the message of the operation that failed.
    Finished(Result<Seq<DsnRecord>, Seq<char>>),
}

/// A discovery before its first operation.
pub open spec fn discovery_start() -> DiscoveryView {
    DiscoveryView {
        phase: Phase::Driver,
        driver_path: Seq::empty(),
        candidates: Seq::empty(),
        next: 0,
        found: Seq::empty(),
    }
}

/// The operation that is pending in a discovery.
pub open spec fn pending_operation(state: DiscoveryView) -> OperationView {
    match state.phase {
        Phase::Driver => OperationView::DriverPath,
        Phase::SystemNames => OperationView::ListSubkeys { root: Root::HKLM, path: ODBC_INI_SUBPATH@ },
        Phase::UserNames => OperationView::ListSubkeys { root: Root::HKCU, path: ODBC_INI_SUBPATH@ },
        Phase::Values => OperationView::ListValues {
            root: scope_root(state.candidates[state.next as int].scope),
            path: child_path(ODBC_INI_SUBPATH@, state.candidates[state.next as int].name),
        },
    }
}

/// The data sources that are found once the values of the pending
/// candidate are known: the candidate joins them where its values name
/// the driver.
pub open spec fn found_with(state: DiscoveryView, settings: Seq<SettingEntry>) -> Seq<DsnRecord> {
    if names_driver(settings, state.driver_path) {
        state.found.push(
            DsnRecord {
                name: state.candidates[state.next as int].name,
                scope: state.candidates[state.next as int].scope,
                settings,
            },
        )
    } else {
        state.found
    }
}

/// Where a discovery stands once the candidates are listed: at the values
/// of the first, or at its end where there is none.
pub open spec fn with_candidates(state: DiscoveryView, candidates: Seq<CandidateView>) -> DiscoveryAdvanceView {
    if candidates.len() == 0 {
        DiscoveryAdvanceView::Finished(Ok(state.found))
    } else {
        DiscoveryAdvanceView::Continue(
            DiscoveryView { phase: Phase::Values, candidates, next: 0, ..state },
        )
    }
}

/// Where a discovery stands after its pending operation has ended with
/// `result`. An operation that failed ends the discovery with its
/// message; so does one that yields what the discovery did not ask for.
pub open spec fn discovery_after(
    state: DiscoveryView,
    result: Result<OutcomeView, Seq<char>>,
) -> DiscoveryAdvanceView {
    match result {
        Err(message) => DiscoveryAdvanceView::Finished(Err(message)),
        Ok(outcome) => match (state.phase, outcome) {
            (Phase::Driver, OutcomeView::Text(path)) => DiscoveryAdvanceView::Continue(
                DiscoveryView { phase: Phase::SystemNames, driver_path: path, ..state },
            ),
            (Phase::SystemNames, OutcomeView::Names(names)) => DiscoveryAdvanceView::Continue(
                DiscoveryView {
                    phase: Phase::UserNames,
                    candidates: candidates_of(DsnType::SYSTEM, names),
                    ..state
                },
            ),
            (Phase::UserNames, OutcomeView::Names(names)) => with_candidates(
                state,
                state.candidates + candidates_of(DsnType::USER, names),
            ),
            (Phase::Values, OutcomeView::Settings(settings)) => if state.next + 1
                < state.candidates.len() {
                DiscoveryAdvanceView::Continue(
                    DiscoveryView { next: state.next + 1, found: found_with(state, settings), ..state },
                )
            } else {
                DiscoveryAdvanceView::Finished(Ok(found_with(state, settings)))
            },
            _ => DiscoveryAdvanceView::Finished(Err(unexpected_reply_text())),
        },
    }
}

/// Whether every data source names the driver: one of its values is
/// named `Driver` and holds the path of the driver's file.
pub open spec fn all_name_driver(dsns: Seq<DsnRecord>, driver_path: Seq<char>) -> bool {
    forall|i: int| 0 <= i < dsns.len() ==> names_driver((#[trigger] dsns[i]).settings, driver_path)
}

impl DiscoveryView {
    /// What holds of a discovery at every step: while values are listed
    /// there is a pending candidate, and every data source found so far
    /// names the driver.
    pub open spec fn consistent(self) -> bool {
        &&& self.phase == Phase::Values ==> self.next < self.candidates.len()
        &&& self.phase == Phase::Driver ==> self.found.len() == 0
        &&& all_name_driver(self.found, self.driver_path)
    }
}

/// Every data source that a discovery yields names the driver, with the
/// path of the driver's file as the discovery has read it: whatever the
/// operations on the registry return, a discovery that is consistent stays
/// so, keeps the path once it is read, and ends with none but such data
/// sources.
pub proof fn lemma_discovery_names_driver(state: DiscoveryView, result: Result<OutcomeView, Seq<char>>)
    requires
        state.consistent(),
    ensures
        discovery_start().consistent(),
        match discovery_after(state, result) {
            DiscoveryAdvanceView::Continue(next) => next.consistent() && (state.phase != Phase::Driver
                ==> next.driver_path == state.driver_path),
            DiscoveryAdvanceView::Finished(Ok(dsns)) => state.phase != Phase::Driver && all_name_driver(
                dsns,
                state.driver_path,
            ),
            DiscoveryAdvanceView::Finished(Err(_)) => true,
        },
{
    match result {
        Ok(OutcomeView::Settings(settings)) => {
            if state.phase == Phase::Values {
                let found = found_with(state, settings);
                assert forall|i: int| 0 <= i < found.len() implies names_driver(
                    (#[trigger] found[i]).settings,
                    state.driver_path,
                ) by {
                    if i < state.found.len() {
                        assert(found[i] == state.found[i]);
                    }
                }
            }
        },
        _ => {},
    }
}

/// The candidates of one scope, from the names of their keys.
fn to_candidates(dsn_type: DsnType, names: Vec<String>) -> (candidates: Vec<Candidate>)
    ensures
        candidates.deep_view() == candidates_of(dsn_type, names.deep_view()),
{
    let mut candidates: Vec<Candidate> = Vec::new();
    let mut i: usize = 0;
    while i < names.len()
        invariant
            i <= names.len(),
            candidates@.len() == i,
            forall|k: int|
                0 <= k < i ==> (#[trigger] candidates@[k])@ == (CandidateView {
                    scope: dsn_type,
                    name: names@[k]@,
                }),
        decreases names.len() - i,
    {
        candidates.push(Candidate { dsn_type, name: names[i].clone() });
        i += 1;
    }
    assert(candidates.deep_view() =~= candidates_of(dsn_type, names.deep_view()));
    candidates
}

/// A discovery under way.
#[derive(Debug)]
pub struct Discovery {
    phase: Phase,
    driver_path: String,
    candidates: Vec<Candidate>,
    next: usize,
    found: Vec<RegistryDsn>,
}

/// Where a discovery stands after an operation.
#[derive(Debug)]
pub enum DiscoveryAdvance {
    /// The discovery goes on: its next operation is to be run.
    Continue(Discovery),
    /// The discovery has ended, with the data sources of the driver or
    /// with the error of the operation that failed.
    Finished(Result<Vec<RegistryDsn>, ConfigError>),
}

impl View for Discovery {
    type V = DiscoveryView;

    closed spec fn view(&self) -> DiscoveryView {
        DiscoveryView {
            phase: self.phase,
            driver_path: self.driver_path@,
            candidates: self.candidates.deep_view(),
            next: self.next as nat,
            found: self.found.deep_view(),
        }
    }
}

/// The result of a discovery: the data sources, or the message of its
/// error.
pub open spec fn found_view(result: Result<Vec<RegistryDsn>, ConfigError>) -> Result<
    Seq<DsnRecord>,
    Seq<char>,
> {
    match result {
        Ok(dsns) => Ok(dsns.deep_view()),
        Err(error) => Err(error@),
    }
}

impl View for DiscoveryAdvance {
    type V = DiscoveryAdvanceView;

    open spec fn view(&self) -> DiscoveryAdvanceView {
        match self {
            DiscoveryAdvance::Continue(discovery) => DiscoveryAdvanceView::Continue(discovery@),
            DiscoveryAdvance::Finished(result) => DiscoveryAdvanceView::Finished(found_view(*result)),
        }
    }
}

/// The error for an operation that yields what the discovery did not ask
/// for.
fn unexpected() -> (advance: DiscoveryAdvance)
    ensures
        advance@ == DiscoveryAdvanceView::Finished(Err(unexpected_reply_text())),
{
    DiscoveryAdvance::Finished(
        Err(ConfigError::from_string("Unexpected reply from registry".to_string())),
    )
}

impl Discovery {
    /// What holds of a discovery at every step.
    #[verifier::type_invariant]
    spec fn consistent(&self) -> bool {
        self@.consistent()
    }

    /// A discovery before its first operation.
    pub fn new() -> (discovery: Self)
        ensures
            discovery@ == discovery_start(),
    {
        let discovery = Discovery {
            phase: Phase::Driver,
            driver_path: String::new(),
            candidates: Vec::new(),
            next: 0,
            found: Vec::new(),
        };
        assert(discovery.candidates.deep_view() =~= Seq::empty());
        assert(discovery.found.deep_view() =~= Seq::empty());
        discovery
    }

    /// The operation that is pending: the caller runs it on the registry
    /// and hands its result to [`Discovery::advance`].
    pub fn operation(&self) -> (op: Operation)
        ensures
            op@ == pending_operation(self@),
            self@.consistent(),
    {
        proof {
            use_type_invariant(self);
        }
        match self.phase {
            Phase::Driver => Operation::DriverPath,
            Phase::SystemNames => Operation::ListSubkeys {
                root: Root::HKLM,
                path: ODBC_INI_SUBPATH.to_string(),
            },
            Phase::UserNames => Operation::ListSubkeys {
                root: Root::HKCU,
                path: ODBC_INI_SUBPATH.to_string(),
            },
            Phase::Values => {
                let candidate = &self.candidates[self.next];
                assert(self.candidates.deep_view()[self.next as int] == candidate@);
                Operation::ListValues {
                    root: candidate.dsn_type.root(),
                    path: dsn_subpath(candidate.name.as_str()),
                }
            },
        }
    }

    /// Takes the result of the pending operation: the discovery goes on
    /// with its next operation, or it has ended. The data sources that it
    /// ends with all name the driver.
    pub fn advance(self, result: Result<Outcome, ConfigError>) -> (advance: DiscoveryAdvance)
        ensures
            advance@ == discovery_after(self@, result_view(result)),
            match advance {
                DiscoveryAdvance::Finished(Ok(dsns)) => all_name_driver(dsns.deep_view(), self@.driver_path),
                _ => true,
            },
    {
        proof {
            use_type_invariant(&self);
            lemma_discovery_names_driver(self@, result_view(result));
        }
        let outcome = match result {
            Err(error) => {
                return DiscoveryAdvance::Finished(Err(error));
            },
            Ok(outcome) => outcome,
        };
        match self.phase {
            Phase::Driver => match outcome {
                Outcome::Text(path) => DiscoveryAdvance::Continue(
                    Discovery {
                        phase: Phase::SystemNames,
                        driver_path: path,
                        candidates: self.candidates,
                        next: self.next,
                        found: self.found,
                    },
                ),
                _ => unexpected(),
            },
            Phase::SystemNames => match outcome {
                Outcome::Names(names) => DiscoveryAdvance::Continue(
                    Discovery {
                        phase: Phase::UserNames,
                        driver_path: self.driver_path,
                        candidates: to_candidates(DsnType::SYSTEM, names),
                        next: self.next,
                        found: self.found,
                    },
                ),
                _ => unexpected(),
            },
            Phase::UserNames => match outcome {
                Outcome::Names(names) => {
                    let ghost before = self.candidates.deep_view();
                    let mut candidates = self.candidates;
                    let mut more = to_candidates(DsnType::USER, names);
                    let ghost added = more.deep_view();
                    candidates.append(&mut more);
                    assert(candidates.deep_view() =~= before + added);
                    if candidates.len() == 0 {
                        DiscoveryAdvance::Finished(Ok(self.found))
                    } else {
                        DiscoveryAdvance::Continue(
                            Discovery {
                                phase: Phase::Values,
                                driver_path: self.driver_path,
                                candidates,
                                next: 0,
                                found: self.found,
                            },
                        )
                    }
                },
                _ => unexpected(),
            },
            Phase::Values => match outcome {
                Outcome::Settings(settings) => {
                    let ghost before = self.found.deep_view();
                    let mut found = self.found;
                    assert(self.candidates.deep_view().len() == self.candidates.len());
                    let candidate = &self.candidates[self.next];
                    assert(self.candidates.deep_view()[self.next as int] == candidate@);
                    if is_driver_dsn(&settings, self.driver_path.as_str()) {
                        let dsn = RegistryDsn {
                            name: candidate.name.clone(),
                            dsn_type: candidate.dsn_type,
                            settings,
                        };
                        found.push(dsn);
                        assert(found.deep_view() =~= before.push(dsn@));
                    }
                    if self.next + 1 < self.candidates.len() {
                        DiscoveryAdvance::Continue(
                            Discovery {
                                phase: Phase::Values,
                                driver_path: self.driver_path,
                                candidates: self.candidates,
                                next: self.next + 1,
                                found,
                            },
                        )
                    } else {
                        DiscoveryAdvance::Finished(Ok(found))
                    }
                },
                _ => unexpected(),
            },
        }
    }
}

/// Starts the discovery of the data sources of the driver.
pub fn load_dsns_from_registry() -> (discovery: Discovery)
    ensures
        discovery@ == discovery_start(),
{
    Discovery::new()
}

} // verus!
