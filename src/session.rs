//! The build session: the functions gathered between a start and an end,
//! and the slot that holds at most one session at a time.
use vstd::prelude::*;
use crate::signature::{BindedFunction, FunctionSpec};

verus! {

/// One session: the descriptor's identity and the functions gathered so far.
pub struct Binder {
    /// The descriptor's name; it also names the output file.
    pub name: String,
    /// The compiled artifact the functions belong to.
    pub file_name: String,
    /// Prepended, with an underscore, to every function's internal name.
    pub function_name_prefix: String,
    /// The gathered functions, in the order they were appended.
    pub functions: Vec<BindedFunction>,
}

/// The mathematical value of a [`Binder`].
pub struct BinderSpec {
    pub name: Seq<char>,
    pub file_name: Seq<char>,
    pub prefix: Seq<char>,
    pub functions: Seq<FunctionSpec>,
}

impl View for Binder {
    type V = BinderSpec;

    open spec fn view(&self) -> BinderSpec {
        BinderSpec {
            name: self.name@,
            file_name: self.file_name@,
            prefix: self.function_name_prefix@,
            functions: self.functions@.map_values(|f: BindedFunction| f@),
        }
    }
}

/// A session that has gathered nothing yet.
pub open spec fn fresh_session(name: Seq<char>, file_name: Seq<char>, prefix: Seq<char>) -> BinderSpec {
    BinderSpec { name, file_name, prefix, functions: Seq::empty() }
}

impl Binder {
    /// A new session with no functions.
    pub fn new(name: &str, file_name: &str, function_name_prefix: &str) -> (r: Self)
        ensures
            r@ == fresh_session(name@, file_name@, function_name_prefix@),
    {
        let r = Binder {
            name: name.to_owned(),
            file_name: file_name.to_owned(),
            function_name_prefix: function_name_prefix.to_owned(),
            functions: Vec::new(),
        };
        assert(r@.functions =~= Seq::empty());
        r
    }
}

/// Why a session operation could not be carried out.
#[derive(Clone, Copy, Debug, PartialEq, Eq, Structural)]
pub enum SessionError {
    /// `append` or `end` was called while no session was active.
    NoActiveSession,
}

/// The slot after a session is started: a fresh session replaces whatever
/// was there.
pub open spec fn spec_start(
    slot: Option<BinderSpec>,
    name: Seq<char>,
    file_name: Seq<char>,
    prefix: Seq<char>,
) -> Option<BinderSpec> {
    Some(fresh_session(name, file_name, prefix))
}

/// The slot after a function is appended; an empty slot stays empty.
pub open spec fn spec_append(slot: Option<BinderSpec>, f: FunctionSpec) -> Option<BinderSpec> {
    match slot {
        Some(b) => Some(BinderSpec { functions: b.functions.push(f), ..b }),
        None => None,
    }
}

/// What ending a session returns: the session that was active, if any.
pub open spec fn spec_end(slot: Option<BinderSpec>) -> Result<BinderSpec, SessionError> {
    match slot {
        Some(b) => Ok(b),
        None => Err(SessionError::NoActiveSession),
    }
}

/// The slot after each of `fs` is appended, in order.
pub open spec fn spec_append_all(slot: Option<BinderSpec>, fs: Seq<FunctionSpec>) -> Option<
    BinderSpec,
>
    decreases fs.len(),
{
    if fs.len() == 0 {
        slot
    } else {
        spec_append(spec_append_all(slot, fs.drop_last()), fs.last())
    }
}

/// The slot that holds at most one active session.
pub struct Registry {
    session: Option<Binder>,
}

impl View for Registry {
    type V = Option<BinderSpec>;

    closed spec fn view(&self) -> Option<BinderSpec> {
        match self.session {
            Some(b) => Some(b@),
            None => None,
        }
    }
}

impl Registry {
    /// An empty slot.
    pub fn new() -> (r: Self)
        ensures
            r@ is None,
    {
        Registry { session: None }
    }

    /// Whether a session is active.
    pub fn is_active(&self) -> (r: bool)
        ensures
            r == self@ is Some,
    {
        self.session.is_some()
    }

    /// Installs a fresh session, discarding any that was active.
    pub fn start(&mut self, name: &str, file_name: &str, function_name_prefix: &str)
        ensures
            final(self)@ == spec_start(old(self)@, name@, file_name@, function_name_prefix@),
    {
        self.session = Some(Binder::new(name, file_name, function_name_prefix));
    }

    /// Appends a function to the active session; fails when none is active.
    pub fn append(&mut self, function: BindedFunction) -> (r: Result<(), SessionError>)
        ensures
            final(self)@ == spec_append(old(self)@, function@),
            r is Ok <==> old(self)@ is Some,
            r is Err ==> r == Err::<(), SessionError>(SessionError::NoActiveSession),
    {
        match self.session.take() {
            Some(mut b) => {
                let ghost before = b@;
                b.functions.push(function);
                assert(b@.functions =~= before.functions.push(function@));
                self.session = Some(b);
                Ok(())
            },
            None => Err(SessionError::NoActiveSession),
        }
    }

    /// Detaches the active session and hands it over, leaving the slot
    /// empty; fails when none is active.
    pub fn end(&mut self) -> (r: Result<Binder, SessionError>)
        ensures
            final(self)@ is None,
            match r {
                Ok(b) => spec_end(old(self)@) == Ok::<BinderSpec, SessionError>(b@),
                Err(e) => spec_end(old(self)@) == Err::<BinderSpec, SessionError>(e),
            },
    {
        match self.session.take() {
            Some(b) => Ok(b),
            None => Err(SessionError::NoActiveSession),
        }
    }
}

/// Appending to an active session only extends its function list, in call
/// order; name, artifact and prefix stay as they were.
pub proof fn lemma_append_all(b: BinderSpec, fs: Seq<FunctionSpec>)
    ensures
        spec_append_all(Some(b), fs) == Some(BinderSpec { functions: b.functions + fs, ..b }),
    decreases fs.len(),
{
    if fs.len() > 0 {
        lemma_append_all(b, fs.drop_last());
        assert(b.functions + fs =~= (b.functions + fs.drop_last()).push(fs.last()));
    }
}

/// Starting a session while another is active discards the other entirely:
/// after `start(a)`, `append(f)`, `start(b)`, ending yields `b` with no
/// functions, whatever slot the sequence began from.
pub proof fn lemma_restart_discards(
    slot: Option<BinderSpec>,
    a_name: Seq<char>,
    a_file: Seq<char>,
    a_prefix: Seq<char>,
    f: FunctionSpec,
    b_name: Seq<char>,
    b_file: Seq<char>,
    b_prefix: Seq<char>,
)
    ensures
        ({
            let s1 = spec_append(spec_start(slot, a_name, a_file, a_prefix), f);
            let s2 = spec_start(s1, b_name, b_file, b_prefix);
            &&& spec_end(s2) == Ok::<BinderSpec, SessionError>(
                fresh_session(b_name, b_file, b_prefix),
            )
            &&& spec_end(s2)->Ok_0.functions.len() == 0
        }),
{
}

/// Without an active session, both appending and ending fail.
pub proof fn lemma_no_session_fails(f: FunctionSpec)
    ensures
        spec_append(None, f) is None,
        spec_end(None) == Err::<BinderSpec, SessionError>(SessionError::NoActiveSession),
{
}

} // verus!
