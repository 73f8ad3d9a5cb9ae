//! The launchd agents of one VM.

use crate::text::{lemma_texts_push, texts};
use vstd::prelude::*;

verus! {

/// Whether a path has to exist or has to be missing.
#[derive(Debug)]
pub struct PathState {
    pub path: String,
    pub exists: bool,
}

pub struct PathStateView {
    pub path: Seq<char>,
    pub exists: bool,
}

impl View for PathState {
    type V = PathStateView;

    open spec fn view(&self) -> PathStateView {
        PathStateView { path: self.path@, exists: self.exists }
    }
}

/// When launchd keeps an agent alive: while one of the paths is in its state, and
/// under no other condition.
#[derive(Debug)]
pub struct KeepAlive {
    pub path_state: Vec<PathState>,
}

pub struct KeepAliveView {
    pub path_state: Seq<PathStateView>,
}

impl View for KeepAlive {
    type V = KeepAliveView;

    open spec fn view(&self) -> KeepAliveView {
        KeepAliveView { path_state: self.path_state@.map_values(|state: PathState| state@) }
    }
}

impl KeepAliveView {
    /// While a path exists.
    pub open spec fn while_exists(path: Seq<char>) -> KeepAliveView {
        KeepAliveView { path_state: seq![PathStateView { path, exists: true }] }
    }
}

impl KeepAlive {
    pub fn while_exists(path: &str) -> (keep_alive: KeepAlive)
        ensures
            keep_alive@ == KeepAliveView::while_exists(path@),
    {
        let mut path_state: Vec<PathState> = Vec::new();
        path_state.push(PathState { path: path.to_owned(), exists: true });
        let keep_alive = KeepAlive { path_state };
        assert(keep_alive@.path_state =~= KeepAliveView::while_exists(path@).path_state);
        keep_alive
    }
}

/// The agent that keeps the VM running.
#[derive(Debug)]
pub struct AgentPlist {
    pub label: String,
    pub program_arguments: Vec<String>,
    /// The variable `HOME`.
    pub home: String,
    /// The variable `PATH`.
    pub search_path: String,
    pub keep_alive: KeepAlive,
    pub limit_load_to_session_type: String,
    pub process_type: String,
    pub throttle_interval: u32,
    pub standard_out_path: String,
    pub standard_error_path: String,
}

pub struct AgentPlistView {
    pub label: Seq<char>,
    pub program_arguments: Seq<Seq<char>>,
    pub home: Seq<char>,
    pub search_path: Seq<char>,
    pub keep_alive: KeepAliveView,
    pub limit_load_to_session_type: Seq<char>,
    pub process_type: Seq<char>,
    pub throttle_interval: u32,
    pub standard_out_path: Seq<char>,
    pub standard_error_path: Seq<char>,
}

impl View for AgentPlist {
    type V = AgentPlistView;

    open spec fn view(&self) -> AgentPlistView {
        AgentPlistView {
            label: self.label@,
            program_arguments: texts(self.program_arguments@),
            home: self.home@,
            search_path: self.search_path@,
            keep_alive: self.keep_alive@,
            limit_load_to_session_type: self.limit_load_to_session_type@,
            process_type: self.process_type@,
            throttle_interval: self.throttle_interval,
            standard_out_path: self.standard_out_path@,
            standard_error_path: self.standard_error_path@,
        }
    }
}

/// The agent that looks at the login Keychain from the background session.
#[derive(Debug)]
pub struct KeychainHelperPlist {
    pub label: String,
    pub program_arguments: Vec<String>,
    /// The variable `HOME`.
    pub home: String,
    pub limit_load_to_session_type: String,
    pub process_type: String,
    pub run_at_load: bool,
    pub standard_in_path: String,
    pub standard_out_path: String,
    pub standard_error_path: String,
}

pub struct KeychainHelperPlistView {
    pub label: Seq<char>,
    pub program_arguments: Seq<Seq<char>>,
    pub home: Seq<char>,
    pub limit_load_to_session_type: Seq<char>,
    pub process_type: Seq<char>,
    pub run_at_load: bool,
    pub standard_in_path: Seq<char>,
    pub standard_out_path: Seq<char>,
    pub standard_error_path: Seq<char>,
}

impl View for KeychainHelperPlist {
    type V = KeychainHelperPlistView;

    open spec fn view(&self) -> KeychainHelperPlistView {
        KeychainHelperPlistView {
            label: self.label@,
            program_arguments: texts(self.program_arguments@),
            home: self.home@,
            limit_load_to_session_type: self.limit_load_to_session_type@,
            process_type: self.process_type@,
            run_at_load: self.run_at_load,
            standard_in_path: self.standard_in_path@,
            standard_out_path: self.standard_out_path@,
            standard_error_path: self.standard_error_path@,
        }
    }
}

/// A property list to write.
#[derive(Debug)]
pub enum Plist {
    Agent(AgentPlist),
    KeychainHelper(KeychainHelperPlist),
}

pub enum PlistView {
    Agent(AgentPlistView),
    KeychainHelper(KeychainHelperPlistView),
}

impl View for Plist {
    type V = PlistView;

    open spec fn view(&self) -> PlistView {
        match self {
            Plist::Agent(plist) => PlistView::Agent(plist@),
            Plist::KeychainHelper(plist) => PlistView::KeychainHelper(plist@),
        }
    }
}

/// A list of two strings.
pub fn two(first: &str, second: &str) -> (list: Vec<String>)
    ensures
        texts(list@) == seq![first@, second@],
{
    let mut list: Vec<String> = Vec::new();
    list.push(first.to_owned());
    list.push(second.to_owned());
    assert(texts(list@) =~= seq![first@, second@]);
    list
}

/// A list of three strings.
pub fn three(first: &str, second: &str, third: &str) -> (list: Vec<String>)
    ensures
        texts(list@) == seq![first@, second@, third@],
{
    let mut list = two(first, second);
    let third = third.to_owned();
    proof {
        lemma_texts_push(list@, third);
    }
    list.push(third);
    assert(texts(list@) =~= seq![first@, second@, third@]);
    list
}

} // verus!
