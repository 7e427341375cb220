//! The backend launcher: path resolution, the ordered candidate-interpreter
//! list, and a first-success launch session that the host binary drives one
//! spawn attempt at a time.

use vstd::prelude::*;

verus! {

/// Relative path of the backend entry point below the resource directory.
pub open spec fn spec_entry_suffix() -> Seq<char> {
    "/backend/main.py"@
}

/// Relative path of the bundled interpreter below the resource directory.
pub open spec fn spec_bundled_suffix() -> Seq<char> {
    "/backend/python/python"@
}

/// The backend entry-point path for a given resource directory.
pub open spec fn spec_entry_path(dir: Seq<char>) -> Seq<char> {
    dir + spec_entry_suffix()
}

/// The bundled interpreter path for a given resource directory.
pub open spec fn spec_bundled_interpreter(dir: Seq<char>) -> Seq<char> {
    dir + spec_bundled_suffix()
}

/// The candidate interpreters, in the order they are tried: the bundled
/// interpreter first, then the generic system interpreter names.
pub open spec fn spec_candidates(dir: Seq<char>) -> Seq<Seq<char>> {
    seq![spec_bundled_interpreter(dir), "python3"@, "python"@]
}

/// Failure reported when the resource directory cannot be resolved.
pub open spec fn spec_resource_dir_failure() -> Seq<char> {
    "Failed to get resource directory"@
}

/// Failure reported when every candidate interpreter failed to spawn.
pub open spec fn spec_exhausted_failure() -> Seq<char> {
    "Failed to start backend with any Python executable"@
}

/// Success message naming the interpreter that spawned.
pub open spec fn spec_success_message(interpreter: Seq<char>) -> Seq<char> {
    "Backend started successfully with "@ + interpreter
}

/// Builds the backend entry-point path under `resource_dir`.
pub fn entry_path(resource_dir: &str) -> (r: String)
    ensures
        r@ == spec_entry_path(resource_dir@),
{
    let mut path = resource_dir.to_owned();
    path.append("/backend/main.py");
    path
}

/// Builds the bundled interpreter path under `resource_dir`.
pub fn bundled_interpreter_path(resource_dir: &str) -> (r: String)
    ensures
        r@ == spec_bundled_interpreter(resource_dir@),
{
    let mut path = resource_dir.to_owned();
    path.append("/backend/python/python");
    path
}

/// Builds the candidate interpreter list for `resource_dir`, in the order the
/// launcher tries them.
pub fn candidate_interpreters(resource_dir: &str) -> (v: Vec<String>)
    ensures
        v.deep_view() == spec_candidates(resource_dir@),
{
    let mut v: Vec<String> = Vec::new();
    v.push(bundled_interpreter_path(resource_dir));
    v.push("python3".to_owned());
    v.push("python".to_owned());
    proof {
        assert(v.deep_view() =~= spec_candidates(resource_dir@));
    }
    v
}

/// Mathematical model of a launch session: the candidate list and entry-point
/// path fixed at session start, how many candidates have been attempted, and
/// the index of the candidate that spawned, if any.
pub ghost struct LaunchModel {
    pub candidates: Seq<Seq<char>>,
    pub script: Seq<char>,
    pub tried: nat,
    pub succeeded: Option<nat>,
}

impl LaunchModel {
    /// Well-formed sessions: attempts never pass the end of the list, and a
    /// success ends the session on the attempt that produced it.
    pub open spec fn wf(self) -> bool {
        &&& self.tried <= self.candidates.len()
        &&& match self.succeeded {
            Some(i) => i + 1 == self.tried,
            None => true,
        }
    }

    /// The session as it stands before any attempt, for a resolved resource
    /// directory.
    pub open spec fn fresh(dir: Seq<char>) -> LaunchModel {
        LaunchModel {
            candidates: spec_candidates(dir),
            script: spec_entry_path(dir),
            tried: 0,
            succeeded: None,
        }
    }

    /// A session is finished once a candidate spawned or the list ran out.
    pub open spec fn finished(self) -> bool {
        self.succeeded is Some || self.tried == self.candidates.len()
    }

    /// One attempt on the next candidate in order: `spawned` says whether the
    /// operating system accepted the spawn.
    pub open spec fn step(self, spawned: bool) -> LaunchModel {
        LaunchModel {
            tried: (self.tried + 1) as nat,
            succeeded: if spawned {
                Some(self.tried)
            } else {
                self.succeeded
            },
            ..self
        }
    }

    /// The session after a sequence of attempt outcomes.
    pub open spec fn run(self, events: Seq<bool>) -> LaunchModel
        decreases events.len(),
    {
        if events.len() == 0 {
            self
        } else {
            self.step(events[0]).run(events.drop_first())
        }
    }

    /// Which candidate indices a sequence of attempt outcomes touches, in the
    /// order they are attempted.
    pub open spec fn attempts(self, events: Seq<bool>) -> Seq<nat>
        decreases events.len(),
    {
        if events.len() == 0 {
            Seq::empty()
        } else {
            seq![self.tried] + self.step(events[0]).attempts(events.drop_first())
        }
    }

    /// The launch result: `None` while attempts remain, the success message
    /// naming the winning interpreter, or the exhaustion failure once every
    /// candidate has failed.
    pub open spec fn outcome(self) -> Option<Result<Seq<char>, Seq<char>>> {
        if !self.finished() {
            None
        } else {
            match self.succeeded {
                Some(i) => Some(Ok(spec_success_message(self.candidates[i as int]))),
                None => Some(Err(spec_exhausted_failure())),
            }
        }
    }
}

/// Builds the success message for the interpreter that spawned.
pub fn success_message(interpreter: &str) -> (r: String)
    ensures
        r@ == spec_success_message(interpreter@),
{
    let mut message = "Backend started successfully with ".to_owned();
    message.append(interpreter);
    message
}

/// A launch session in progress. The host asks for the next candidate with
/// [`Self::next_interpreter`], performs the spawn itself, reports what the
/// operating system said with [`Self::record_attempt`], and reads the final
/// result from [`Self::outcome`]. The session never offers a candidate after
/// a success and never offers one out of order.
pub struct LaunchSession {
    candidates: Vec<String>,
    script: String,
    tried: usize,
    succeeded: Option<usize>,
}

impl View for LaunchSession {
    type V = LaunchModel;

    closed spec fn view(&self) -> LaunchModel {
        LaunchModel {
            candidates: self.candidates.deep_view(),
            script: self.script@,
            tried: self.tried as nat,
            succeeded: match self.succeeded {
                Some(i) => Some(i as nat),
                None => None,
            },
        }
    }
}

impl LaunchSession {
    /// Opens a session for a resolved resource directory: the candidate list
    /// and entry-point path are fixed here, and nothing has been attempted.
    pub fn new(resource_dir: &str) -> (s: LaunchSession)
        ensures
            s@ == LaunchModel::fresh(resource_dir@),
            s@.wf(),
    {
        let s = LaunchSession {
            candidates: candidate_interpreters(resource_dir),
            script: entry_path(resource_dir),
            tried: 0,
            succeeded: None,
        };
        s
    }

    /// The backend entry-point path every candidate is asked to run.
    pub fn script(&self) -> (r: &String)
        ensures
            r@ == self@.script,
    {
        &self.script
    }

    /// The next candidate to attempt, or `None` once the session is finished:
    /// after a success no further candidate is ever offered.
    pub fn next_interpreter(&self) -> (r: Option<&String>)
        requires
            self@.wf(),
        ensures
            match r {
                Some(c) => !self@.finished() && c@ == self@.candidates[self@.tried as int],
                None => self@.finished(),
            },
    {
        if self.succeeded.is_some() {
            None
        } else if self.tried < self.candidates.len() {
            Some(&self.candidates[self.tried])
        } else {
            None
        }
    }

    /// Records the outcome of spawning the candidate that
    /// [`Self::next_interpreter`] offered: exactly one step of the model.
    pub fn record_attempt(&mut self, spawned: bool)
        requires
            old(self)@.wf(),
            !old(self)@.finished(),
        ensures
            final(self)@ == old(self)@.step(spawned),
            final(self)@.wf(),
    {
        let n = self.candidates.len();
        proof {
            assert(self.tried < n);
        }
        if spawned {
            self.succeeded = Some(self.tried);
        }
        self.tried = self.tried + 1;
    }

    /// The launch result: `None` while candidates remain untried, the success
    /// message naming the winning interpreter, or the exhaustion failure.
    pub fn outcome(&self) -> (r: Option<Result<String, String>>)
        requires
            self@.wf(),
        ensures
            match r {
                None => self@.outcome() is None,
                Some(Ok(m)) => self@.outcome() == Some(Ok::<Seq<char>, Seq<char>>(m@)),
                Some(Err(e)) => self@.outcome() == Some(Err::<Seq<char>, Seq<char>>(e@)),
            },
    {
        match self.succeeded {
            Some(i) => Some(Ok(success_message(self.candidates[i].as_str()))),
            None => {
                if self.tried == self.candidates.len() {
                    Some(Err("Failed to start backend with any Python executable".to_owned()))
                } else {
                    None
                }
            },
        }
    }
}

/// Opens a launch session from the platform's resource-directory lookup, or
/// reports the lookup's failure: `None` means the directory could not be
/// resolved, and the launcher then fails at once without attempting any
/// candidate.
pub fn start_backend(resource_dir: Option<&String>) -> (r: Result<LaunchSession, String>)
    ensures
        match resource_dir {
            Some(dir) => (r matches Ok(s) && s@ == LaunchModel::fresh(dir@)),
            None => (r matches Err(e) && e@ == spec_resource_dir_failure()),
        },
{
    match resource_dir {
        Some(dir) => Ok(LaunchSession::new(dir.as_str())),
        None => Err("Failed to get resource directory".to_owned()),
    }
}

} // verus!
