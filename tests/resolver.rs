use pyembed::resolver::{cache_base, Action, ErrorKind, Event, Resolver};

fn start(has_payload: bool) -> (Resolver, Action) {
    Resolver::start("/opt/app", has_payload, "/home/u/.cache/octobot-pyembed", "py.tar.zst")
}

fn drive(m: &mut Resolver, events: &[Event]) -> Vec<Action> {
    events.iter().map(|e| m.step(*e)).collect()
}

fn path_of(a: &Action) -> (&'static str, String) {
    match a {
        Action::Probe(p) => ("probe", p.clone()),
        Action::RemoveDir(p) => ("remove", p.clone()),
        Action::CreateDir(p) => ("create", p.clone()),
        Action::Extract(p) => ("extract", p.clone()),
        Action::WriteMarker(p) => ("marker", p.clone()),
        Action::Finish(Ok(p)) => ("root", p.clone()),
        Action::Finish(Err(e)) => ("error", e.path.clone()),
        Action::Idle => ("idle", String::new()),
    }
}

fn trace(actions: &[Action]) -> Vec<(&'static str, String)> {
    actions.iter().map(path_of).collect()
}

fn s(kind: &'static str, p: &str) -> (&'static str, String) {
    (kind, p.to_string())
}

const TARGET: &str = "/home/u/.cache/octobot-pyembed/py.tar.zst";
const MARKER: &str = "/home/u/.cache/octobot-pyembed/py.tar.zst/.pyembed.ok";
const INNER: &str = "/home/u/.cache/octobot-pyembed/py.tar.zst/python";

#[test]
fn layout_of_the_cache_entry() {
    let (m, first) = start(true);
    assert_eq!(m.adjacent, "/opt/app/python");
    assert_eq!(m.target, TARGET);
    assert_eq!(m.marker, MARKER);
    assert_eq!(m.inner, INNER);
    assert_eq!(path_of(&first), s("probe", "/opt/app/python"));
}

#[test]
fn adjacent_install_is_chosen() {
    for payload in [true, false] {
        let (mut m, _) = start(payload);
        let acts = drive(&mut m, &[Event::Exists(true), Event::Succeeded, Event::Exists(false)]);
        assert_eq!(trace(&acts), vec![s("root", "/opt/app/python"), s("idle", ""), s("idle", "")]);
    }
}

#[test]
fn missing_runtime_without_payload() {
    let (mut m, _) = start(false);
    let acts = drive(&mut m, &[Event::Exists(false), Event::Exists(true)]);
    match &acts[0] {
        Action::Finish(Err(e)) => {
            assert_eq!(e.kind, ErrorKind::MissingRuntime);
            assert_eq!(e.path, "/opt/app/python");
        }
        other => panic!("unexpected {:?}", other),
    }
    assert!(matches!(acts[1], Action::Idle));
}

#[test]
fn cold_cache_then_warm_cache() {
    let (mut m, _) = start(true);
    let cold = drive(
        &mut m,
        &[
            Event::Exists(false),
            Event::Exists(false),
            Event::Exists(false),
            Event::Succeeded,
            Event::Succeeded,
            Event::Succeeded,
            Event::Exists(true),
        ],
    );
    assert_eq!(
        trace(&cold),
        vec![
            s("probe", MARKER),
            s("probe", TARGET),
            s("create", TARGET),
            s("extract", TARGET),
            s("marker", MARKER),
            s("probe", INNER),
            s("root", INNER),
        ]
    );
    let (mut again, _) = start(true);
    let warm = drive(&mut again, &[Event::Exists(false), Event::Exists(true), Event::Exists(true)]);
    assert_eq!(trace(&warm), vec![s("probe", MARKER), s("probe", INNER), s("root", INNER)]);
}

#[test]
fn stale_entry_is_removed_and_rebuilt() {
    let (mut m, _) = start(true);
    let acts = drive(
        &mut m,
        &[
            Event::Exists(false),
            Event::Exists(false),
            Event::Exists(true),
            Event::Succeeded,
            Event::Succeeded,
            Event::Succeeded,
            Event::Succeeded,
            Event::Exists(true),
        ],
    );
    assert_eq!(
        trace(&acts),
        vec![
            s("probe", MARKER),
            s("probe", TARGET),
            s("remove", TARGET),
            s("create", TARGET),
            s("extract", TARGET),
            s("marker", MARKER),
            s("probe", INNER),
            s("root", INNER),
        ]
    );
}

#[test]
fn corrupt_payload_is_reported() {
    let (mut m, _) = start(true);
    let acts = drive(
        &mut m,
        &[
            Event::Exists(false),
            Event::Exists(false),
            Event::Exists(false),
            Event::Succeeded,
            Event::Succeeded,
            Event::Succeeded,
            Event::Exists(false),
            Event::Succeeded,
        ],
    );
    match &acts[6] {
        Action::Finish(Err(e)) => {
            assert_eq!(e.kind, ErrorKind::CorruptPayload);
            assert_eq!(e.path, INNER);
        }
        other => panic!("unexpected {:?}", other),
    }
    assert!(matches!(acts[7], Action::Idle));
}

fn failure_kind(events: &[Event]) -> (ErrorKind, String) {
    let (mut m, _) = start(true);
    let acts = drive(&mut m, events);
    match acts.last() {
        Some(Action::Finish(Err(e))) => (e.kind, e.path.clone()),
        other => panic!("unexpected {:?}", other),
    }
}

#[test]
fn each_failing_step_has_its_error() {
    let no = Event::Exists(false);
    let ok = Event::Succeeded;
    assert_eq!(failure_kind(&[no, no, Event::Exists(true), Event::Failed]), (ErrorKind::RemoveStale, TARGET.to_string()));
    assert_eq!(failure_kind(&[no, no, no, Event::Failed]), (ErrorKind::CreateDir, TARGET.to_string()));
    assert_eq!(failure_kind(&[no, no, no, ok, Event::Undecodable]), (ErrorKind::Decompression, TARGET.to_string()));
    assert_eq!(failure_kind(&[no, no, no, ok, Event::Failed]), (ErrorKind::Unpack, TARGET.to_string()));
    assert_eq!(failure_kind(&[no, no, no, ok, ok, Event::Failed]), (ErrorKind::WriteMarker, MARKER.to_string()));
}

#[test]
fn cache_base_prefers_override() {
    assert_eq!(cache_base(Some("/tmp/x".to_string()), Some("/home/u/.cache".to_string()), "/opt/app"), "/tmp/x");
    assert_eq!(cache_base(None, Some("/home/u/.cache".to_string()), "/opt/app"), "/home/u/.cache/octobot-pyembed");
    assert_eq!(cache_base(None, None, "/opt/app"), "/opt/app/octobot-pyembed");
}
