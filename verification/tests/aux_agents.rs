use codex_mcp::aux_agents::{
    agent_running, agent_summaries, aux_agent_args, output_line, AuxAgentError, AuxAgentRegistry, WaitOutcome,
};

#[test]
fn registry_refuses_beyond_limit() {
    let mut reg: AuxAgentRegistry<&str> = AuxAgentRegistry::new(2);
    assert_eq!(reg.check_capacity(), Ok(()));
    assert_eq!(reg.try_insert(1, "one"), Ok(()));
    assert_eq!(reg.check_capacity(), Ok(()));
    assert_eq!(reg.try_insert(2, "two"), Ok(()));
    assert_eq!(reg.check_capacity(), Err(AuxAgentError::LimitReached));
    assert_eq!(reg.len(), 2);
    assert_eq!(reg.max_agents(), 2);
}

#[test]
fn zero_limit_refuses_every_agent() {
    let reg: AuxAgentRegistry<()> = AuxAgentRegistry::new(0);
    assert_eq!(reg.check_capacity(), Err(AuxAgentError::LimitReached));
}

#[test]
fn registered_agent_is_found_until_removed() {
    let mut reg: AuxAgentRegistry<u32> = AuxAgentRegistry::new(4);
    assert_eq!(reg.try_insert(7, 70), Ok(()));
    assert_eq!(reg.try_insert(9, 90), Ok(()));
    assert_eq!(reg.get(7), Ok(&70));
    assert_eq!(reg.get(8), Err(AuxAgentError::NotFound));
    assert_eq!(reg.remove(7), Some(70));
    assert_eq!(reg.get(7), Err(AuxAgentError::NotFound));
    assert_eq!(reg.get(9), Ok(&90));
    assert_eq!(reg.remove(7), None);
    assert_eq!(reg.ids(), vec![9]);
}

#[test]
fn reinserting_an_id_replaces_its_state() {
    let mut reg: AuxAgentRegistry<u32> = AuxAgentRegistry::new(4);
    assert_eq!(reg.try_insert(1, 10), Ok(()));
    assert_eq!(reg.try_insert(2, 20), Ok(()));
    assert_eq!(reg.try_insert(1, 11), Ok(()));
    assert_eq!(reg.len(), 2);
    assert_eq!(reg.get(1), Ok(&11));
    let mut ids = reg.ids();
    ids.sort();
    assert_eq!(ids, vec![1, 2]);
}

#[test]
fn error_messages() {
    assert_eq!(AuxAgentError::LimitReached.message(), "maximum number of auxiliary agents reached");
    assert_eq!(AuxAgentError::NotFound.message(), "auxiliary agent not found");
}

#[test]
fn agents_run_codex_exec_without_approvals() {
    assert_eq!(
        aux_agent_args("fix the tests".to_string()),
        vec![
            "exec".to_string(),
            "--skip-git-repo-check".to_string(),
            "--ask-for-approval".to_string(),
            "never".to_string(),
            "fix the tests".to_string(),
        ]
    );
}

#[test]
fn running_only_while_polling_says_so() {
    assert!(agent_running(WaitOutcome::StillRunning));
    assert!(!agent_running(WaitOutcome::Exited));
    assert!(!agent_running(WaitOutcome::Failed));
    let s = agent_summaries(&vec![5, 6], &vec![WaitOutcome::Exited, WaitOutcome::StillRunning]);
    assert_eq!(s.len(), 2);
    assert_eq!(s[0].agent_id, 5);
    assert!(!s[0].running);
    assert_eq!(s[1].agent_id, 6);
    assert!(s[1].running);
}

#[test]
fn output_lines_lose_trailing_newlines() {
    assert_eq!(output_line("hello\n"), "hello");
    assert_eq!(output_line("a\n\n"), "a");
    assert_eq!(output_line("keep\r"), "keep\r");
    assert_eq!(output_line(""), "");
}

#[test]
fn registration_past_the_limit_is_refused_and_changes_nothing() {
    let mut reg: AuxAgentRegistry<u32> = AuxAgentRegistry::new(1);
    assert_eq!(reg.try_insert(1, 10), Ok(()));
    assert_eq!(reg.try_insert(2, 20), Err(AuxAgentError::LimitReached));
    assert_eq!(reg.len(), 1);
    assert_eq!(reg.get(2), Err(AuxAgentError::NotFound));
    // Replacing a registered agent's state needs no room.
    assert_eq!(reg.try_insert(1, 11), Ok(()));
    assert_eq!(reg.get(1), Ok(&11));
    // Once one is taken out, another fits.
    assert_eq!(reg.remove(1), Some(11));
    assert_eq!(reg.try_insert(2, 20), Ok(()));
}
