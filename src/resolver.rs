//! Deciding where the runtime's installation root is: an install next to the
//! launcher, or a cache entry extracted from the embedded payload.
//!
//! The decisions form a state machine. Its driver performs each [`Action`]
//! on the filesystem and reports what happened as an [`Event`]; the machine
//! never touches the filesystem itself.

use vstd::prelude::*;
use crate::paths::{join_path, joined};

verus! {

/// Where the resolution stands: which answer the machine waits for.
#[derive(Clone, Copy, Debug, PartialEq, Eq, Structural)]
pub enum Stage {
    AwaitAdjacent,
    AwaitMarker,
    AwaitTarget,
    AwaitRemove,
    AwaitCreate,
    AwaitExtract,
    AwaitMarkerWrite,
    AwaitInner,
    Finished,
}

/// What went wrong, by the step that failed.
#[derive(Clone, Copy, Debug, PartialEq, Eq, Structural)]
pub enum ErrorKind {
    /// No install next to the launcher and no payload to fall back to.
    MissingRuntime,
    /// A stale cache entry could not be removed.
    RemoveStale,
    /// The cache entry's directory could not be created.
    CreateDir,
    /// The payload is not a valid compressed stream.
    Decompression,
    /// An archive entry could not be written.
    Unpack,
    /// The completion marker could not be written.
    WriteMarker,
    /// The payload unpacked without the expected runtime directory.
    CorruptPayload,
}

/// A failed resolution: what went wrong, and the path it concerns.
#[derive(Debug)]
pub struct ResolveError {
    pub kind: ErrorKind,
    pub path: String,
}

/// What the driver reports after performing an action.
#[derive(Clone, Copy, Debug, PartialEq, Eq, Structural)]
pub enum Event {
    /// The answer to a probe: whether the path exists.
    Exists(bool),
    /// The operation completed.
    Succeeded,
    /// The operation failed.
    Failed,
    /// Extraction failed because the payload could not be decompressed.
    Undecodable,
}

/// What the machine asks the driver to do next.
#[derive(Debug)]
pub enum Action {
    /// Check whether the path exists.
    Probe(String),
    /// Remove the directory and everything below it.
    RemoveDir(String),
    /// Create the directory and its missing parents.
    CreateDir(String),
    /// Decompress and unpack the payload into the directory.
    Extract(String),
    /// Write the completion marker file.
    WriteMarker(String),
    /// Resolution is over: the installation root, or why there is none.
    Finish(Result<String, ResolveError>),
    /// Nothing is left to do.
    Idle,
}

/// The mathematical form of an [`Action`].
pub enum ActionView {
    Probe(Seq<char>),
    RemoveDir(Seq<char>),
    CreateDir(Seq<char>),
    Extract(Seq<char>),
    WriteMarker(Seq<char>),
    Finish(Result<Seq<char>, (ErrorKind, Seq<char>)>),
    Idle,
}

impl View for ResolveError {
    type V = (ErrorKind, Seq<char>);

    open spec fn view(&self) -> (ErrorKind, Seq<char>) {
        (self.kind, self.path@)
    }
}

impl View for Action {
    type V = ActionView;

    open spec fn view(&self) -> ActionView {
        match self {
            Action::Probe(p) => ActionView::Probe(p@),
            Action::RemoveDir(p) => ActionView::RemoveDir(p@),
            Action::CreateDir(p) => ActionView::CreateDir(p@),
            Action::Extract(p) => ActionView::Extract(p@),
            Action::WriteMarker(p) => ActionView::WriteMarker(p@),
            Action::Finish(Ok(p)) => ActionView::Finish(Ok(p@)),
            Action::Finish(Err(e)) => ActionView::Finish(Err(e@)),
            Action::Idle => ActionView::Idle,
        }
    }
}

/// An action that changes the filesystem.
pub open spec fn is_write(a: ActionView) -> bool {
    ||| a is RemoveDir
    ||| a is CreateDir
    ||| a is Extract
    ||| a is WriteMarker
}

/// The resolution machine: the paths it works on, whether a payload is
/// embedded, and its stage.
pub struct Resolver {
    /// The installation next to the launcher.
    pub adjacent: String,
    /// Whether a non-empty payload is embedded.
    pub has_payload: bool,
    /// The cache entry's directory, named after the payload.
    pub target: String,
    /// The completion marker inside the cache entry.
    pub marker: String,
    /// The runtime directory that the payload unpacks into the cache entry.
    pub inner: String,
    pub stage: Stage,
}

/// The mathematical form of a [`Resolver`].
pub struct ResolverView {
    pub adjacent: Seq<char>,
    pub has_payload: bool,
    pub target: Seq<char>,
    pub marker: Seq<char>,
    pub inner: Seq<char>,
    pub stage: Stage,
}

impl View for Resolver {
    type V = ResolverView;

    open spec fn view(&self) -> ResolverView {
        ResolverView {
            adjacent: self.adjacent@,
            has_payload: self.has_payload,
            target: self.target@,
            marker: self.marker@,
            inner: self.inner@,
            stage: self.stage,
        }
    }
}

/// The event reports that the probed path exists.
pub open spec fn found(e: Event) -> bool {
    e == Event::Exists(true)
}

/// The machine with another stage.
pub open spec fn at(m: ResolverView, s: Stage) -> ResolverView {
    ResolverView { stage: s, ..m }
}

/// Failing with `kind` on `path`: the machine finishes.
pub open spec fn fail(m: ResolverView, kind: ErrorKind, path: Seq<char>) -> (ResolverView, ActionView) {
    (at(m, Stage::Finished), ActionView::Finish(Err((kind, path))))
}

/// One step of the machine: the next machine and the action to perform.
pub open spec fn next(m: ResolverView, e: Event) -> (ResolverView, ActionView) {
    match m.stage {
        Stage::AwaitAdjacent => if found(e) {
            (at(m, Stage::Finished), ActionView::Finish(Ok(m.adjacent)))
        } else if !m.has_payload {
            fail(m, ErrorKind::MissingRuntime, m.adjacent)
        } else {
            (at(m, Stage::AwaitMarker), ActionView::Probe(m.marker))
        },
        Stage::AwaitMarker => if found(e) {
            (at(m, Stage::AwaitInner), ActionView::Probe(m.inner))
        } else {
            (at(m, Stage::AwaitTarget), ActionView::Probe(m.target))
        },
        Stage::AwaitTarget => if found(e) {
            (at(m, Stage::AwaitRemove), ActionView::RemoveDir(m.target))
        } else {
            (at(m, Stage::AwaitCreate), ActionView::CreateDir(m.target))
        },
        Stage::AwaitRemove => if e == Event::Succeeded {
            (at(m, Stage::AwaitCreate), ActionView::CreateDir(m.target))
        } else {
            fail(m, ErrorKind::RemoveStale, m.target)
        },
        Stage::AwaitCreate => if e == Event::Succeeded {
            (at(m, Stage::AwaitExtract), ActionView::Extract(m.target))
        } else {
            fail(m, ErrorKind::CreateDir, m.target)
        },
        Stage::AwaitExtract => if e == Event::Succeeded {
            (at(m, Stage::AwaitMarkerWrite), ActionView::WriteMarker(m.marker))
        } else if e == Event::Undecodable {
            fail(m, ErrorKind::Decompression, m.target)
        } else {
            fail(m, ErrorKind::Unpack, m.target)
        },
        Stage::AwaitMarkerWrite => if e == Event::Succeeded {
            (at(m, Stage::AwaitInner), ActionView::Probe(m.inner))
        } else {
            fail(m, ErrorKind::WriteMarker, m.marker)
        },
        Stage::AwaitInner => if found(e) {
            (at(m, Stage::Finished), ActionView::Finish(Ok(m.inner)))
        } else {
            fail(m, ErrorKind::CorruptPayload, m.inner)
        },
        Stage::Finished => (m, ActionView::Idle),
    }
}

/// Where the cache lives: an explicit override as it stands; else a directory
/// named for the launcher under the user's cache directory, or under the
/// launcher's own directory when the user has none.
pub open spec fn cache_base_spec(
    override_dir: Option<Seq<char>>,
    user_cache: Option<Seq<char>>,
    exe_dir: Seq<char>,
) -> Seq<char> {
    match override_dir {
        Some(d) => d,
        None => joined(
            match user_cache {
                Some(c) => c,
                None => exe_dir,
            },
            "octobot-pyembed"@,
        ),
    }
}

/// Chooses the directory under which cache entries are kept.
pub fn cache_base(override_dir: Option<String>, user_cache: Option<String>, exe_dir: &str) -> (r:
    String)
    ensures
        r@ == cache_base_spec(
            match override_dir {
                Some(d) => Some(d@),
                None => None,
            },
            match user_cache {
                Some(c) => Some(c@),
                None => None,
            },
            exe_dir@,
        ),
{
    match override_dir {
        Some(d) => d,
        None => {
            let name = "octobot-pyembed";
            match user_cache {
                Some(c) => join_path(c.as_str(), name),
                None => join_path(exe_dir, name),
            }
        },
    }
}

/// The machine before its first answer: it has asked whether the adjacent
/// install exists.
pub open spec fn initial(m: ResolverView) -> bool {
    m.stage == Stage::AwaitAdjacent
}

/// The machine for a launcher in `exe_dir`, with the cache under
/// `cache_base` keyed by `payload_name`.
pub open spec fn layout(
    exe_dir: Seq<char>,
    has_payload: bool,
    cache_base: Seq<char>,
    payload_name: Seq<char>,
) -> ResolverView {
    let target = joined(cache_base, payload_name);
    ResolverView {
        adjacent: joined(exe_dir, "python"@),
        has_payload,
        target,
        marker: joined(target, ".pyembed.ok"@),
        inner: joined(target, "python"@),
        stage: Stage::AwaitAdjacent,
    }
}

impl Resolver {
    /// Starts a resolution. The first action asks whether the install next
    /// to the launcher exists.
    pub fn start(exe_dir: &str, has_payload: bool, cache_base: &str, payload_name: &str) -> (r: (
        Resolver,
        Action,
    ))
        ensures
            r.0@ == layout(exe_dir@, has_payload, cache_base@, payload_name@),
            initial(r.0@),
            r.1@ == ActionView::Probe(r.0@.adjacent),
    {
        let target = join_path(cache_base, payload_name);
        let marker = join_path(target.as_str(), ".pyembed.ok");
        let inner = join_path(target.as_str(), "python");
        let adjacent = join_path(exe_dir, "python");
        let probe = Action::Probe(adjacent.clone());
        let m = Resolver { adjacent, has_payload, target, marker, inner, stage: Stage::AwaitAdjacent };
        (m, probe)
    }

    fn finish(&mut self, kind: ErrorKind, path: String) -> (a: Action)
        ensures
            final(self)@ == at(old(self)@, Stage::Finished),
            a@ == ActionView::Finish(Err((kind, path@))),
    {
        self.stage = Stage::Finished;
        Action::Finish(Err(ResolveError { kind, path }))
    }

    /// Takes the driver's answer to the last action and returns the next
    /// action.
    pub fn step(&mut self, e: Event) -> (a: Action)
        ensures
            final(self)@ == next(old(self)@, e).0,
            a@ == next(old(self)@, e).1,
    {
        let found = match e {
            Event::Exists(b) => b,
            _ => false,
        };
        let ok = match e {
            Event::Succeeded => true,
            _ => false,
        };
        match self.stage {
            Stage::AwaitAdjacent => {
                if found {
                    self.stage = Stage::Finished;
                    Action::Finish(Ok(self.adjacent.clone()))
                } else if !self.has_payload {
                    let p = self.adjacent.clone();
                    self.finish(ErrorKind::MissingRuntime, p)
                } else {
                    self.stage = Stage::AwaitMarker;
                    Action::Probe(self.marker.clone())
                }
            },
            Stage::AwaitMarker => {
                if found {
                    self.stage = Stage::AwaitInner;
                    Action::Probe(self.inner.clone())
                } else {
                    self.stage = Stage::AwaitTarget;
                    Action::Probe(self.target.clone())
                }
            },
            Stage::AwaitTarget => {
                if found {
                    self.stage = Stage::AwaitRemove;
                    Action::RemoveDir(self.target.clone())
                } else {
                    self.stage = Stage::AwaitCreate;
                    Action::CreateDir(self.target.clone())
                }
            },
            Stage::AwaitRemove => {
                if ok {
                    self.stage = Stage::AwaitCreate;
                    Action::CreateDir(self.target.clone())
                } else {
                    let p = self.target.clone();
                    self.finish(ErrorKind::RemoveStale, p)
                }
            },
            Stage::AwaitCreate => {
                if ok {
                    self.stage = Stage::AwaitExtract;
                    Action::Extract(self.target.clone())
                } else {
                    let p = self.target.clone();
                    self.finish(ErrorKind::CreateDir, p)
                }
            },
            Stage::AwaitExtract => {
                if ok {
                    self.stage = Stage::AwaitMarkerWrite;
                    Action::WriteMarker(self.marker.clone())
                } else {
                    let kind = match e {
                        Event::Undecodable => ErrorKind::Decompression,
                        _ => ErrorKind::Unpack,
                    };
                    let p = self.target.clone();
                    self.finish(kind, p)
                }
            },
            Stage::AwaitMarkerWrite => {
                if ok {
                    self.stage = Stage::AwaitInner;
                    Action::Probe(self.inner.clone())
                } else {
                    let p = self.marker.clone();
                    self.finish(ErrorKind::WriteMarker, p)
                }
            },
            Stage::AwaitInner => {
                if found {
                    self.stage = Stage::Finished;
                    Action::Finish(Ok(self.inner.clone()))
                } else {
                    let p = self.inner.clone();
                    self.finish(ErrorKind::CorruptPayload, p)
                }
            },
            Stage::Finished => Action::Idle,
        }
    }
}

} // verus!
