use recap_bridge::envelope::Operation;
use recap_bridge::environment::build_library_path;
use recap_bridge::environment::interpreter_candidates;
use recap_bridge::environment::library_dir_candidates;
use recap_bridge::environment::pick_first_existing;
use recap_bridge::environment::resolve_interpreter;
use recap_bridge::response::OpError;
use recap_bridge::script::locate_script;
use recap_bridge::facade::write_failure_is_fatal;
use recap_bridge::script::parent_dir;
use recap_bridge::script::script_candidates;
use recap_bridge::session::advance;
use recap_bridge::session::CallEvent;
use recap_bridge::session::CallState;

fn s(t: &str) -> String {
    t.to_string()
}

#[test]
fn interpreter_candidates_in_preference_order() {
    let c = interpreter_candidates(&Some(s("/opt/py/bin/python3")), &Some(s("/home/u")));
    assert_eq!(
        c,
        vec![
            s("/opt/py/bin/python3"),
            s("/home/u/.venv-py312/bin/python3"),
            s("/home/u/.venv/bin/python3"),
            s("/home/u/venv/bin/python3"),
        ]
    );
    let no_override = interpreter_candidates(&None, &Some(s("/home/u")));
    assert_eq!(no_override.len(), 3);
    let nothing = interpreter_candidates(&None, &None);
    assert!(nothing.is_empty());
}

#[test]
fn resolve_interpreter_takes_first_existing() {
    let c = interpreter_candidates(&Some(s("/opt/py/bin/python3")), &Some(s("/home/u")));
    let chosen = resolve_interpreter(&c, &vec![false, false, true, true]);
    assert_eq!(chosen, "/home/u/.venv/bin/python3");
    let override_wins = resolve_interpreter(&c, &vec![true, true, true, true]);
    assert_eq!(override_wins, "/opt/py/bin/python3");
}

#[test]
fn resolve_interpreter_falls_back_to_bare_name() {
    let c = interpreter_candidates(&None, &Some(s("/home/u")));
    assert_eq!(resolve_interpreter(&c, &vec![false, false, false]), "python3");
}

#[test]
fn pick_first_existing_none_when_all_missing() {
    let c = vec![s("/a"), s("/b")];
    assert_eq!(pick_first_existing(&c, &vec![false, false]), None);
    assert_eq!(pick_first_existing(&c, &vec![false, true]), Some(s("/b")));
}

#[test]
fn library_dir_candidates_in_order() {
    let d = library_dir_candidates(&Some(s("/home/u")));
    assert_eq!(
        d,
        vec![
            s("/home/u/cudnn/lib"),
            s("/home/u/miniconda3/lib"),
            s("/home/u/anaconda3/lib"),
            s("/usr/local/cuda/lib64"),
            s("/usr/local/cuda/lib"),
        ]
    );
    let no_home = library_dir_candidates(&None);
    assert_eq!(no_home, vec![s("/usr/local/cuda/lib64"), s("/usr/local/cuda/lib")]);
}

#[test]
fn library_path_joins_existing_directories() {
    let d = library_dir_candidates(&Some(s("/home/u")));
    let ex = vec![true, false, true, true, false];
    let p = build_library_path(&d, &ex, &None);
    assert_eq!(p, "/home/u/cudnn/lib:/home/u/anaconda3/lib:/usr/local/cuda/lib64");
}

#[test]
fn library_path_construction_is_idempotent() {
    let d = library_dir_candidates(&Some(s("/home/u")));
    let ex = vec![true, false, false, true, false];
    let prior = Some(s("/existing/lib:/other"));
    let first = build_library_path(&d, &ex, &prior);
    let second = build_library_path(&d, &ex, &prior);
    assert_eq!(first, second);
    assert!(first.ends_with("/existing/lib:/other"));
    assert_eq!(first, "/home/u/cudnn/lib:/usr/local/cuda/lib64:/existing/lib:/other");
}

#[test]
fn library_path_keeps_prior_value_alone_when_nothing_exists() {
    let d = library_dir_candidates(&None);
    let p = build_library_path(&d, &vec![false, false], &Some(s("/existing/lib")));
    assert_eq!(p, "/existing/lib");
    let empty = build_library_path(&d, &vec![false, false], &None);
    assert_eq!(empty, "");
}

#[test]
fn parent_dir_splits_at_last_slash() {
    assert_eq!(parent_dir("/a/b/c"), Some(s("/a/b")));
    assert_eq!(parent_dir("/a"), Some(s("")));
    assert_eq!(parent_dir("plain"), None);
}

#[test]
fn script_candidates_bundle_first_dev_last() {
    let c = script_candidates(&Some(s("/app/Contents/MacOS")), "/work/proj");
    assert_eq!(c[0], "/app/Contents/Resources/_up_/src-python/main.py");
    assert_eq!(c[1], "/app/Contents/Resources/src-python/main.py");
    assert_eq!(c[2], "/app/Contents/MacOS/src-python/main.py");
    assert_eq!(c[3], "/app/Contents/src-python/main.py");
    assert_eq!(c[c.len() - 1], "/work/proj/src-python/main.py");
}

#[test]
fn script_candidates_step_out_of_build_folder() {
    let c = script_candidates(&None, "/work/proj/src-tauri");
    assert_eq!(c, vec![s("/work/proj/src-python/main.py")]);
}

#[test]
fn bundle_layout_takes_precedence_over_development_layout() {
    let c = script_candidates(&Some(s("/app/Contents/MacOS")), "/work/proj");
    // the script "exists" under both the bundle and the development layout
    let mut ex = vec![false; c.len()];
    ex[0] = true;
    let n = c.len();
    ex[n - 1] = true;
    assert_eq!(
        locate_script(&c, &ex),
        Ok(s("/app/Contents/Resources/_up_/src-python/main.py"))
    );
}

#[test]
fn locate_script_fails_when_nothing_exists() {
    let c = script_candidates(&None, "/work/proj");
    let ex = vec![false; c.len()];
    assert_eq!(locate_script(&c, &ex), Err(OpError::ScriptNotFound));
}

#[test]
fn call_walks_forward_through_its_states() {
    let mut st = CallState::Idle;
    st = advance(st, CallEvent::EnvironmentReady);
    assert_eq!(st, CallState::EnvironmentResolved);
    st = advance(st, CallEvent::ScriptLookup(true));
    assert_eq!(st, CallState::ScriptLocated);
    st = advance(st, CallEvent::EnvelopeReady);
    assert_eq!(st, CallState::EnvelopeBuilt);
    st = advance(st, CallEvent::SpawnAttempt(true));
    assert_eq!(st, CallState::ChildSpawned);
    st = advance(st, CallEvent::InputWrite(true, true));
    assert_eq!(st, CallState::InputWritten);
    st = advance(st, CallEvent::ChildWait(true));
    assert_eq!(st, CallState::ChildExited);
    st = advance(st, CallEvent::OutputRead);
    assert_eq!(st, CallState::ResponseParsed);
    st = advance(st, CallEvent::Interpretation(true));
    assert_eq!(st, CallState::Succeeded);
    // terminal states absorb everything
    assert_eq!(advance(st, CallEvent::EnvironmentReady), CallState::Succeeded);
}

#[test]
fn lost_write_only_fatal_when_marked_so() {
    let at_spawned = CallState::ChildSpawned;
    assert_eq!(advance(at_spawned, CallEvent::InputWrite(false, true)), CallState::Failed);
    assert_eq!(advance(at_spawned, CallEvent::InputWrite(false, false)), CallState::InputWritten);
}

#[test]
fn failed_spawn_ends_the_call() {
    assert_eq!(
        advance(CallState::EnvelopeBuilt, CallEvent::SpawnAttempt(false)),
        CallState::Failed
    );
    assert_eq!(
        advance(CallState::EnvironmentResolved, CallEvent::ScriptLookup(false)),
        CallState::Failed
    );
    assert_eq!(advance(CallState::Failed, CallEvent::OutputRead), CallState::Failed);
}

#[test]
fn write_fatality_differs_by_operation() {
    let t = Operation::Transcribe {
        file: s("/a"),
        model: s("m"),
        mode: s("local"),
        whisper_host: s("h"),
    };
    assert!(write_failure_is_fatal(&t));
    let a = Operation::Analyze { file: s("/a"), ollama_host: s("h") };
    assert!(!write_failure_is_fatal(&a));
    let w = Operation::CheckWhisperHealth { whisper_host: s("h") };
    assert!(!write_failure_is_fatal(&w));
}
