//! What loading the data sources ends with.

use vstd::prelude::*;
use vstd::string::*;

use crate::common::config_error::ConfigError;
use crate::common::registry::{DsnRecord, RegistryDsn};

verus! {

/// A copy of the data sources.
pub fn clone_dsns(dsns: &Vec<RegistryDsn>) -> (copy: Vec<RegistryDsn>)
    ensures
        copy.deep_view() == dsns.deep_view(),
{
    let mut copy: Vec<RegistryDsn> = Vec::new();
    let mut i: usize = 0;
    while i < dsns.len()
        invariant
            i <= dsns.len(),
            copy@.len() == i,
            forall|k: int| 0 <= k < i ==> (#[trigger] copy@[k])@ == dsns@[k]@,
        decreases dsns.len() - i,
    {
        copy.push(dsns[i].clone());
        i += 1;
    }
    assert(copy.deep_view() =~= dsns.deep_view());
    copy
}

/// What the loading dialog hands to the main window: the data sources of
/// the driver; none where loading failed.
#[derive(Debug)]
pub struct LoadDsnsDialogResult {
    pub dsns: Vec<RegistryDsn>,
}

impl LoadDsnsDialogResult {
    /// The result that holds the given data sources.
    pub fn new(dsns: Vec<RegistryDsn>) -> (result: Self)
        ensures
            result.dsns == dsns,
    {
        Self { dsns }
    }
}

impl Default for LoadDsnsDialogResult {
    /// The result without data sources.
    fn default() -> (result: Self)
        ensures
            result.dsns@.len() == 0,
    {
        Self { dsns: Vec::new() }
    }
}

impl Clone for LoadDsnsDialogResult {
    fn clone(&self) -> (copy: Self)
        ensures
            copy.dsns.deep_view() == self.dsns.deep_view(),
    {
        Self { dsns: clone_dsns(&self.dsns) }
    }
}

/// What the discovery of the data sources ended with: the data sources,
/// or the message of the error.
#[derive(Debug)]
pub struct LoadDsnsResult {
    pub success: bool,
    pub message: String,
    pub dsns: Vec<RegistryDsn>,
}

/// What a [`LoadDsnsResult`] holds.
pub struct LoadOutcome {
    pub success: bool,
    pub message: Seq<char>,
    pub dsns: Seq<DsnRecord>,
}

impl View for LoadDsnsResult {
    type V = LoadOutcome;

    open spec fn view(&self) -> LoadOutcome {
        LoadOutcome { success: self.success, message: self.message@, dsns: self.dsns.deep_view() }
    }
}

/// What becomes of the result of the discovery: its data sources, or its
/// message.
pub open spec fn load_outcome(result: Result<Seq<DsnRecord>, Seq<char>>) -> LoadOutcome {
    match result {
        Ok(dsns) => LoadOutcome { success: true, message: Seq::empty(), dsns },
        Err(message) => LoadOutcome { success: false, message, dsns: Seq::empty() },
    }
}

impl LoadDsnsResult {
    /// The discovery found the given data sources.
    pub fn success(dsns: Vec<RegistryDsn>) -> (result: Self)
        ensures
            result@ == load_outcome(Ok(dsns.deep_view())),
    {
        Self { success: true, message: String::new(), dsns }
    }

    /// The discovery failed with the given message.
    pub fn failure(message: String) -> (result: Self)
        ensures
            result@ == load_outcome(Err(message@)),
    {
        let result = Self { success: false, message, dsns: Vec::new() };
        assert(result.dsns.deep_view() =~= Seq::empty());
        result
    }

    /// What becomes of the result of the discovery.
    pub fn from_discovery(found: Result<Vec<RegistryDsn>, ConfigError>) -> (result: Self)
        ensures
            result@ == load_outcome(
                match found {
                    Ok(dsns) => Ok(dsns.deep_view()),
                    Err(error) => Err(error@),
                },
            ),
    {
        match found {
            Ok(dsns) => Self::success(dsns),
            Err(error) => Self::failure(error.to_string()),
        }
    }
}

impl Default for LoadDsnsResult {
    /// A failure without a message.
    fn default() -> (result: Self)
        ensures
            result@ == load_outcome(Err(Seq::empty())),
    {
        Self::failure(String::new())
    }
}

/// The time for which the progress of loading is shown at least, in
/// milliseconds.
pub const MIN_DISPLAY_MILLIS: u64 = 1000;

/// The time that is left to wait where loading took `elapsed_millis`, so
/// that its progress is shown for a second at least.
pub fn remaining_display_millis(elapsed_millis: u128) -> (remaining: u64)
    ensures
        remaining == if elapsed_millis < MIN_DISPLAY_MILLIS {
            MIN_DISPLAY_MILLIS - elapsed_millis
        } else {
            0
        },
{
    if elapsed_millis < 1000 {
        1000 - (elapsed_millis as u64)
    } else {
        0
    }
}

} // verus!
