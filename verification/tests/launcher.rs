use backend_launcher::launcher::LaunchSession;
use backend_launcher::launcher::candidate_interpreters;
use backend_launcher::launcher::entry_path;
use backend_launcher::launcher::start_backend;
use backend_launcher::launcher::success_message;

/// Drives a session with a scripted list of spawn outcomes, recording which
/// interpreters were attempted, in order. Stops as soon as the session stops
/// offering candidates.
fn drive(session: &mut LaunchSession, outcomes: &[bool]) -> Vec<String> {
    let mut attempted: Vec<String> = Vec::new();
    loop {
        let candidate = match session.next_interpreter() {
            Some(c) => c.clone(),
            None => break,
        };
        let spawned = outcomes[attempted.len()];
        attempted.push(candidate);
        session.record_attempt(spawned);
    }
    attempted
}

#[test]
fn resource_dir_unavailable_fails() {
    match start_backend(None) {
        Ok(_) => panic!("launch must fail without a resource directory"),
        Err(e) => {
            assert_eq!(e, "Failed to get resource directory");
            assert!(e.contains("resource directory"));
        }
    }
}

#[test]
fn resolved_dir_opens_fresh_session() {
    let dir = String::from("/opt/app/resources");
    let session = match start_backend(Some(&dir)) {
        Ok(s) => s,
        Err(_) => panic!("launch must proceed with a resolved resource directory"),
    };
    assert_eq!(session.script().as_str(), "/opt/app/resources/backend/main.py");
    assert!(session.outcome().is_none());
}

#[test]
fn all_candidates_fail_tries_every_candidate_in_order() {
    let dir = String::from("/res");
    let mut session = start_backend(Some(&dir)).unwrap_or_else(|_| panic!("session"));
    let attempted = drive(&mut session, &[false, false, false]);
    assert_eq!(
        attempted,
        vec![
            String::from("/res/backend/python/python"),
            String::from("python3"),
            String::from("python"),
        ]
    );
    match session.outcome() {
        Some(Err(e)) => {
            assert_eq!(e, "Failed to start backend with any Python executable");
        }
        _ => panic!("exhaustion must be reported as a failure"),
    }
}

#[test]
fn first_candidate_success_short_circuits() {
    let dir = String::from("/res");
    let mut session = start_backend(Some(&dir)).unwrap_or_else(|_| panic!("session"));
    let attempted = drive(&mut session, &[true]);
    assert_eq!(attempted, vec![String::from("/res/backend/python/python")]);
    assert!(session.next_interpreter().is_none());
    match session.outcome() {
        Some(Ok(m)) => {
            assert_eq!(
                m,
                "Backend started successfully with /res/backend/python/python"
            );
        }
        _ => panic!("a successful spawn must be reported as a success"),
    }
}

#[test]
fn last_candidate_success_tries_others_once_in_order() {
    let dir = String::from("/res");
    let mut session = start_backend(Some(&dir)).unwrap_or_else(|_| panic!("session"));
    let attempted = drive(&mut session, &[false, false, true]);
    assert_eq!(
        attempted,
        vec![
            String::from("/res/backend/python/python"),
            String::from("python3"),
            String::from("python"),
        ]
    );
    match session.outcome() {
        Some(Ok(m)) => {
            assert_eq!(m, "Backend started successfully with python");
        }
        _ => panic!("a successful spawn must be reported as a success"),
    }
}

#[test]
fn outcome_is_pending_while_candidates_remain() {
    let mut session = LaunchSession::new("/res");
    assert!(session.outcome().is_none());
    session.record_attempt(false);
    assert!(session.outcome().is_none());
    session.record_attempt(false);
    assert!(session.outcome().is_none());
}

#[test]
fn entry_path_appends_fixed_relative_path() {
    assert_eq!(
        entry_path("/opt/app/resources"),
        "/opt/app/resources/backend/main.py"
    );
    assert_eq!(entry_path(""), "/backend/main.py");
}

#[test]
fn candidate_list_is_bundled_then_system_names() {
    assert_eq!(
        candidate_interpreters("/r"),
        vec![
            String::from("/r/backend/python/python"),
            String::from("python3"),
            String::from("python"),
        ]
    );
}

#[test]
fn success_message_names_interpreter() {
    assert_eq!(
        success_message("python3"),
        "Backend started successfully with python3"
    );
}
