//! Bookkeeping for auxiliary Codex agents: a bounded registry keyed by agent
//! id, and the decisions around spawning, stopping and reporting agents.
use vstd::prelude::*;

use crate::text::push_str;
use std::collections::HashMap;
use vstd::std_specs::iter::IteratorSpec;

verus! {

broadcast use {vstd::string::group_string_axioms, vstd::std_specs::hash::group_hash_axioms};

/// Why an auxiliary-agent request was refused.
#[derive(Debug, Clone, Copy, PartialEq, Eq, Structural)]
pub enum AuxAgentError {
    /// As many agents as allowed are already registered.
    LimitReached,
    /// No agent has the given id.
    NotFound,
}

impl AuxAgentError {
    /// The message reported for the refusal.
    pub fn message(&self) -> (m: String)
        ensures
            *self == AuxAgentError::LimitReached ==> m@ == "maximum number of auxiliary agents reached"@,
            *self == AuxAgentError::NotFound ==> m@ == "auxiliary agent not found"@,
    {
        match self {
            AuxAgentError::LimitReached => "maximum number of auxiliary agents reached".to_owned(),
            AuxAgentError::NotFound => "auxiliary agent not found".to_owned(),
        }
    }
}

/// Whether a registry holding `entries`, allowed `limit` agents, takes agent
/// `id`: it does when `id` is already registered or there is room.
pub open spec fn registry_admits<S>(entries: Map<u128, S>, limit: nat, id: u128) -> bool {
    entries.contains_key(id) || entries.len() < limit
}

/// The auxiliary agents registered so far, by id, never more than `max_agents`.
pub struct AuxAgentRegistry<S> {
    max_agents: usize,
    agents: HashMap<u128, S>,
}

impl<S> AuxAgentRegistry<S> {
    /// The registered agents: the state of each, by id.
    pub closed spec fn entries(self) -> Map<u128, S> {
        self.agents@
    }

    /// How many agents may run at once.
    pub closed spec fn limit(self) -> nat {
        self.max_agents as nat
    }

    #[verifier::type_invariant]
    closed spec fn well_formed(self) -> bool {
        self.agents@.len() <= self.max_agents
    }

    /// An empty registry allowing `max_agents` agents.
    pub fn new(max_agents: usize) -> (r: Self)
        ensures
            r.entries() == Map::<u128, S>::empty(),
            r.limit() == max_agents,
    {
        let agents: HashMap<u128, S> = HashMap::new();
        AuxAgentRegistry { max_agents, agents }
    }

    /// How many agents may run at once.
    pub fn max_agents(&self) -> (n: usize)
        ensures
            n == self.limit(),
    {
        self.max_agents
    }

    /// The number of registered agents, never more than the limit.
    pub fn len(&self) -> (n: usize)
        ensures
            n == self.entries().len(),
            n <= self.limit(),
    {
        proof {
            use_type_invariant(self);
        }
        self.agents.len()
    }

    /// Refuses a new agent when as many as allowed are registered.
    pub fn check_capacity(&self) -> (r: Result<(), AuxAgentError>)
        ensures
            r is Ok <==> self.entries().len() < self.limit(),
            r is Err ==> r->Err_0 == AuxAgentError::LimitReached,
    {
        if self.agents.len() >= self.max_agents {
            Err(AuxAgentError::LimitReached)
        } else {
            Ok(())
        }
    }

    /// The state of agent `id`, or `NotFound`.
    pub fn get(&self, id: u128) -> (r: Result<&S, AuxAgentError>)
        ensures
            match r {
                Ok(s) => self.entries().contains_key(id) && self.entries()[id] == *s,
                Err(e) => !self.entries().contains_key(id) && e == AuxAgentError::NotFound,
            },
    {
        match self.agents.get(&id) {
            Some(s) => Ok(s),
            None => Err(AuxAgentError::NotFound),
        }
    }

    /// Registers agent `id` with its state, replacing the state of an agent
    /// already registered under that id; a new agent is refused when as many
    /// as allowed are registered, and the registry is then left unchanged.
    pub fn try_insert(&mut self, id: u128, state: S) -> (r: Result<(), AuxAgentError>)
        ensures
            r is Ok <==> registry_admits(old(self).entries(), old(self).limit(), id),
            r is Ok ==> final(self).entries() == old(self).entries().insert(id, state),
            r is Err ==> final(self).entries() == old(self).entries() && r->Err_0 == AuxAgentError::LimitReached,
            final(self).limit() == old(self).limit(),
    {
        proof {
            use_type_invariant(&*self);
        }
        let known = self.agents.contains_key(&id);
        if !known && self.agents.len() >= self.max_agents {
            return Err(AuxAgentError::LimitReached);
        }
        let mut agents: HashMap<u128, S> = HashMap::new();
        std::mem::swap(&mut agents, &mut self.agents);
        agents.insert(id, state);
        proof {
            if !known {
                assert(agents@.dom() == old(self).entries().dom().insert(id));
            } else {
                assert(agents@.dom() =~= old(self).entries().dom());
            }
        }
        self.agents = agents;
        Ok(())
    }

    /// Takes agent `id` out of the registry, returning its state if it was there.
    pub fn remove(&mut self, id: u128) -> (r: Option<S>)
        ensures
            final(self).entries() == old(self).entries().remove(id),
            final(self).limit() == old(self).limit(),
            r == (if old(self).entries().contains_key(id) {
                Some(old(self).entries()[id])
            } else {
                None
            }),
    {
        proof {
            use_type_invariant(&*self);
        }
        let mut agents: HashMap<u128, S> = HashMap::new();
        std::mem::swap(&mut agents, &mut self.agents);
        let r = agents.remove(&id);
        proof {
            if old(self).entries().contains_key(id) {
                assert(agents@.dom() == old(self).entries().dom().remove(id));
            } else {
                assert(agents@.dom() =~= old(self).entries().dom());
            }
        }
        self.agents = agents;
        r
    }

    /// The ids of the registered agents, each once.
    pub fn ids(&self) -> (v: Vec<u128>)
        ensures
            v@.to_set() == self.entries().dom(),
            v@.no_duplicates(),
    {
        let ghost keys = vstd::std_specs::hash::spec_keys_iter(&self.agents).remaining();
        let mut v: Vec<u128> = Vec::new();
        for k in it: self.agents.keys()
            invariant
                it.seq() == keys,
                v@ == keys.take(it.index() as int).map_values(|r: &u128| *r),
        {
            v.push(*k);
            assert(v@ =~= keys.take(it.index() + 1).map_values(|r: &u128| *r));
        }
        proof {
            assert(keys.take(keys.len() as int) =~= keys);
            assert(v@ =~= keys.unref());
        }
        v
    }
}

/// Whatever is registered, a registry within its limit stays within it: an
/// admitted registration keeps the count at most the limit, and a refused one
/// changes nothing.
pub proof fn law_registry_stays_within_limit<S>(entries: Map<u128, S>, limit: nat, id: u128, state: S)
    requires
        entries.dom().finite(),
        entries.len() <= limit,
    ensures
        registry_admits(entries, limit, id) ==> entries.insert(id, state).len() <= limit,
        !registry_admits(entries, limit, id) ==> entries.len() == limit && !entries.contains_key(id),
{
    if entries.contains_key(id) {
        assert(entries.insert(id, state).dom() =~= entries.dom());
    }
}

/// A registered agent is found with its state; a removed one is not; other
/// agents are untouched by both.
pub proof fn law_register_then_find<S>(entries: Map<u128, S>, id: u128, state: S, other: u128)
    requires
        other != id,
    ensures
        entries.insert(id, state).contains_key(id) && entries.insert(id, state)[id] == state,
        !entries.insert(id, state).remove(id).contains_key(id),
        entries.insert(id, state).remove(id).contains_key(other) == entries.contains_key(other),
        entries.contains_key(other) ==> entries.insert(id, state).remove(id)[other] == entries[other],
{
}

/// The arguments an auxiliary agent is started with: `exec`, no git check,
/// never ask for approval, then the prompt.
pub open spec fn spec_aux_agent_args(prompt: Seq<char>) -> Seq<Seq<char>> {
    seq!["exec"@, "--skip-git-repo-check"@, "--ask-for-approval"@, "never"@, prompt]
}

/// The command-line arguments of a new auxiliary agent.
pub fn aux_agent_args(prompt: String) -> (v: Vec<String>)
    ensures
        v.deep_view() == spec_aux_agent_args(prompt@),
{
    let mut v: Vec<String> = Vec::new();
    v.push("exec".to_owned());
    v.push("--skip-git-repo-check".to_owned());
    v.push("--ask-for-approval".to_owned());
    v.push("never".to_owned());
    v.push(prompt);
    assert(v.deep_view() =~= spec_aux_agent_args(prompt@));
    v
}

/// What polling an agent's process reported.
#[derive(Debug, Clone, Copy, PartialEq, Eq, Structural)]
pub enum WaitOutcome {
    /// The process has exited.
    Exited,
    /// The process is still running.
    StillRunning,
    /// Polling failed.
    Failed,
}

/// An agent counts as running only when polling says it has not exited.
pub fn agent_running(outcome: WaitOutcome) -> (r: bool)
    ensures
        r == (outcome == WaitOutcome::StillRunning),
{
    match outcome {
        WaitOutcome::StillRunning => true,
        _ => false,
    }
}

/// `s` without its trailing newlines.
pub open spec fn strip_trailing_newlines(s: Seq<char>) -> Seq<char>
    decreases s.len(),
{
    if s.len() > 0 && s.last() == '\n' {
        strip_trailing_newlines(s.drop_last())
    } else {
        s
    }
}

/// An output line as forwarded to the client: its trailing newlines removed.
pub fn output_line(line: &str) -> (r: String)
    ensures
        r@ == strip_trailing_newlines(line@),
{
    let v = crate::text::chars_of(line);
    let mut j = v.len();
    assert(v@.take(j as int) =~= v@);
    while j > 0 && v[j - 1] == '\n'
        invariant
            j <= v.len(),
            v@ == line@,
            strip_trailing_newlines(line@) == strip_trailing_newlines(v@.take(j as int)),
        decreases j,
    {
        assert(v@.take(j as int).drop_last() =~= v@.take(j - 1));
        j = j - 1;
    }
    crate::text::string_of_range(&v, 0, j)
}

/// One registered agent as `list_agents` reports it.
#[derive(Debug, Clone, Copy)]
pub struct AuxAgentSummary {
    /// The agent's id.
    pub agent_id: u128,
    /// Whether its process is still running.
    pub running: bool,
}

/// The id a newly spawned agent is registered under.
#[derive(Debug, Clone, Copy)]
pub struct SpawnAuxAgentResult {
    /// The new agent's id.
    pub agent_id: u128,
}

/// The report of `list_agents`: for each registered agent, in order, its id
/// and whether polling found its process still running.
pub fn agent_summaries(ids: &Vec<u128>, outcomes: &Vec<WaitOutcome>) -> (v: Vec<AuxAgentSummary>)
    requires
        ids.len() == outcomes.len(),
    ensures
        v.len() == ids.len(),
        forall|i: int|
            0 <= i < v.len() ==> (#[trigger] v@[i]).agent_id == ids@[i] && v@[i].running == (outcomes@[i]
                == WaitOutcome::StillRunning),
{
    let mut v: Vec<AuxAgentSummary> = Vec::new();
    let mut i: usize = 0;
    while i < ids.len()
        invariant
            ids.len() == outcomes.len(),
            i <= ids.len(),
            v.len() == i,
            forall|k: int|
                0 <= k < i ==> (#[trigger] v@[k]).agent_id == ids@[k] && v@[k].running == (outcomes@[k]
                    == WaitOutcome::StillRunning),
        decreases ids.len() - i,
    {
        let running = agent_running(outcomes[i]);
        v.push(AuxAgentSummary { agent_id: ids[i], running });
        i = i + 1;
    }
    v
}

} // verus!
