use recap_bridge::envelope::build_envelope;
use recap_bridge::envelope::parse_envelope;
use recap_bridge::envelope::Operation;
use recap_bridge::facade::analyze_request;
use recap_bridge::facade::ollama_health_request;
use recap_bridge::facade::recap_request;
use recap_bridge::facade::transcribe_request;
use recap_bridge::facade::whisper_health_request;

fn s(t: &str) -> String {
    t.to_string()
}

#[test]
fn transcribe_envelope_exact_text() {
    let op = Operation::Transcribe {
        file: s("/tmp/a.wav"),
        model: s("base"),
        mode: s("local"),
        whisper_host: s("http://192.168.68.10:9000"),
    };
    let line = build_envelope(&op);
    assert_eq!(
        line,
        "{\"command\":\"transcribe\",\"file\":\"/tmp/a.wav\",\"mode\":\"local\",\
         \"model\":\"base\",\"whisper_host\":\"http://192.168.68.10:9000\"}"
    );
}

#[test]
fn analyze_envelope_exact_text() {
    let line = analyze_request(s("/tmp/t.txt"), None);
    assert_eq!(
        line,
        "{\"command\":\"analyze\",\"file\":\"/tmp/t.txt\",\
         \"ollama_host\":\"http://192.168.68.10:11434\"}"
    );
}

#[test]
fn round_trip_every_operation() {
    let ops = vec![
        Operation::Transcribe {
            file: s("/tmp/a.wav"),
            model: s("large-v3"),
            mode: s("remote"),
            whisper_host: s("http://h:9000"),
        },
        Operation::Analyze { file: s("/tmp/t.txt"), ollama_host: s("http://h:11434") },
        Operation::Recap { file: s("/tmp/an.json"), style: s("detailed") },
        Operation::CheckWhisperHealth { whisper_host: s("http://h:9000") },
        Operation::CheckOllamaHealth { ollama_host: s("http://h:11434") },
    ];
    for op in ops {
        let line = build_envelope(&op);
        let back = parse_envelope(line.as_str());
        assert_eq!(back, Some(op));
    }
}

#[test]
fn round_trip_special_characters() {
    let op = Operation::Recap {
        file: s("/tmp/we\"ird\\path\nwith\tcontrols"),
        style: s("quo\"te"),
    };
    let line = build_envelope(&op);
    assert_eq!(line.lines().count(), 1, "envelope must stay a single line");
    let back = parse_envelope(line.as_str());
    assert_eq!(back, Some(op));
}

#[test]
fn round_trip_applies_defaults() {
    let line = transcribe_request(s("/tmp/a.wav"), s("base"), None, None);
    let back = parse_envelope(line.as_str());
    assert_eq!(
        back,
        Some(Operation::Transcribe {
            file: s("/tmp/a.wav"),
            model: s("base"),
            mode: s("local"),
            whisper_host: s("http://192.168.68.10:9000"),
        })
    );
}

#[test]
fn round_trip_keeps_explicit_options() {
    let line = transcribe_request(s("/tmp/a.wav"), s("base"), Some(s("remote")), Some(s("http://x:1")));
    let back = parse_envelope(line.as_str());
    assert_eq!(
        back,
        Some(Operation::Transcribe {
            file: s("/tmp/a.wav"),
            model: s("base"),
            mode: s("remote"),
            whisper_host: s("http://x:1"),
        })
    );
}

#[test]
fn envelope_is_valid_json_for_the_worker() {
    let op = Operation::Transcribe {
        file: s("/tmp/we\"ird\\path\nwith\u{1}controls"),
        model: s("base"),
        mode: s("local"),
        whisper_host: s("http://h:9000"),
    };
    let line = build_envelope(&op);
    let v: serde_json::Value = serde_json::from_str(line.as_str()).expect("worker must parse it");
    assert_eq!(v.get("command").and_then(|c| c.as_str()), Some("transcribe"));
    assert_eq!(
        v.get("file").and_then(|c| c.as_str()),
        Some("/tmp/we\"ird\\path\nwith\u{1}controls")
    );
    assert_eq!(v.get("model").and_then(|c| c.as_str()), Some("base"));
    assert_eq!(v.get("mode").and_then(|c| c.as_str()), Some("local"));
    assert_eq!(v.get("whisper_host").and_then(|c| c.as_str()), Some("http://h:9000"));
}

#[test]
fn health_envelopes_exact_text() {
    assert_eq!(
        whisper_health_request(s("http://h:9000")),
        "{\"command\":\"check_whisper_health\",\"whisper_host\":\"http://h:9000\"}"
    );
    assert_eq!(
        ollama_health_request(s("http://h:11434")),
        "{\"command\":\"check_ollama_health\",\"ollama_host\":\"http://h:11434\"}"
    );
}

#[test]
fn recap_envelope_exact_text() {
    assert_eq!(
        recap_request(s("/tmp/an.json"), s("brief")),
        "{\"command\":\"recap\",\"file\":\"/tmp/an.json\",\"style\":\"brief\"}"
    );
}

#[test]
fn parse_rejects_malformed_lines() {
    assert_eq!(parse_envelope(""), None);
    assert_eq!(parse_envelope("{\"command\":\"transcribe\"}"), None);
    assert_eq!(parse_envelope("{\"command\":\"unknown\",\"file\":\"x\"}"), None);
    assert_eq!(
        parse_envelope("{\"command\":\"recap\",\"file\":\"x\",\"style\":\"y\"} "),
        None,
        "trailing bytes after the envelope are rejected"
    );
}
