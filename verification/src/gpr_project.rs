//! GPR project loading.
use vstd::prelude::*;
use vstd::string::StringSliceAdditionalSpecFns;
use vstd::utf8::*;

use crate::c_string::{nul_free, CBuffer};
use crate::exception::{ErrorChannel, Exception};
use crate::Error;

verus! {

/// The options a project builder has accumulated, as plain text.
pub struct BuilderView {
    pub project_file: Option<Seq<char>>,
    pub scenario_vars: Seq<(Seq<char>, Seq<char>)>,
    pub target: Option<Seq<char>>,
    pub runtime: Option<Seq<char>>,
    pub config_file: Option<Seq<char>>,
    pub ada_only: bool,
}

/// The text of an optional string.
pub open spec fn opt_text(s: Option<String>) -> Option<Seq<char>> {
    match s {
        Some(s) => Some(s@),
        None => None,
    }
}

/// The text of each pair of strings.
pub open spec fn pair_texts(pairs: Seq<(String, String)>) -> Seq<(Seq<char>, Seq<char>)> {
    Seq::new(pairs.len(), |i: int| (pairs[i].0@, pairs[i].1@))
}

/// The text of each pair of string slices.
pub open spec fn slice_pair_texts(pairs: Seq<(&str, &str)>) -> Seq<(Seq<char>, Seq<char>)> {
    Seq::new(pairs.len(), |i: int| (pairs[i].0@, pairs[i].1@))
}

/// The text of each string.
pub open spec fn texts(lines: Seq<String>) -> Seq<Seq<char>> {
    Seq::new(lines.len(), |i: int| lines[i]@)
}

/// The lines joined by line feeds.
pub open spec fn join_lines(lines: Seq<Seq<char>>) -> Seq<char>
    decreases lines.len(),
{
    if lines.len() == 0 {
        Seq::empty()
    } else if lines.len() == 1 {
        lines[0]
    } else {
        join_lines(lines.drop_last()) + "\n"@ + lines.last()
    }
}

/// Whether an optional text can be sent as a null-terminated buffer.
pub open spec fn opt_sendable(s: Option<Seq<char>>) -> bool {
    s matches Some(t) ==> nul_free(encode_utf8(t))
}

/// The payload of an optional buffer.
pub open spec fn opt_payload(b: Option<CBuffer>) -> Option<Seq<u8>> {
    match b {
        Some(b) => Some(b.payload()),
        None => None,
    }
}

/// The encoding of an optional text.
pub open spec fn opt_encoded(s: Option<Seq<char>>) -> Option<Seq<u8>> {
    match s {
        Some(t) => Some(encode_utf8(t)),
        None => None,
    }
}

impl BuilderView {
    /// The options of a fresh builder for the project file `path`.
    pub open spec fn explicit(path: Seq<char>) -> BuilderView {
        BuilderView {
            project_file: Some(path),
            scenario_vars: Seq::empty(),
            target: None,
            runtime: None,
            config_file: None,
            ada_only: false,
        }
    }

    /// The options of a fresh builder for the implicit project.
    pub open spec fn implicit() -> BuilderView {
        BuilderView {
            project_file: None,
            scenario_vars: Seq::empty(),
            target: None,
            runtime: None,
            config_file: None,
            ada_only: false,
        }
    }

    /// The options after adding scenario variables, which only a builder
    /// with a project file accepts.
    pub open spec fn with_scenario_vars(
        self,
        vars: Seq<(Seq<char>, Seq<char>)>,
    ) -> Option<BuilderView> {
        if self.project_file is Some {
            Some(BuilderView { scenario_vars: self.scenario_vars + vars, ..self })
        } else {
            None
        }
    }

    /// The options after setting the Ada-only flag, which only a builder
    /// with a project file accepts.
    pub open spec fn with_ada_only(self, ada_only: bool) -> Option<BuilderView> {
        if self.project_file is Some {
            Some(BuilderView { ada_only, ..self })
        } else {
            None
        }
    }

    /// Whether every option that a load would send holds no zero byte.
    pub open spec fn sendable(&self) -> bool {
        &&& opt_sendable(self.target)
        &&& opt_sendable(self.runtime)
        &&& opt_sendable(self.config_file)
        &&& self.project_file matches Some(p) ==> {
            &&& nul_free(encode_utf8(p))
            &&& forall|i: int|
                0 <= i < self.scenario_vars.len() ==> nul_free(
                    encode_utf8((#[trigger] self.scenario_vars[i]).0),
                ) && nul_free(encode_utf8(self.scenario_vars[i].1))
        }
    }
}

/// One entry of the scenario-variable array. The entry with neither name nor
/// value is the one that ends the array.
pub struct ScenarioVar {
    pub name: Option<CBuffer>,
    pub value: Option<CBuffer>,
}

/// The one foreign call that loads a project, with the buffers it reads.
pub enum LoadCall {
    /// Load the named project file. The scenario-variable array is either
    /// empty, and then sent as a null pointer, or ends in the closing entry.
    Explicit {
        project_file: CBuffer,
        scenario_vars: Vec<ScenarioVar>,
        target: Option<CBuffer>,
        runtime: Option<CBuffer>,
        config_file: Option<CBuffer>,
        ada_only: i32,
    },
    /// Load the implicit project of the current directory.
    Implicit { target: Option<CBuffer>, runtime: Option<CBuffer>, config_file: Option<CBuffer> },
}

/// Whether `array` is the wire form of `vars`: nothing for no variables,
/// else one entry per variable in order, then the closing entry.
pub open spec fn scenario_array(
    array: Seq<ScenarioVar>,
    vars: Seq<(Seq<char>, Seq<char>)>,
) -> bool {
    if vars.len() == 0 {
        array.len() == 0
    } else {
        &&& array.len() == vars.len() + 1
        &&& forall|i: int|
            0 <= i < vars.len() ==> opt_payload((#[trigger] array[i]).name) == Some(
                encode_utf8(vars[i].0),
            ) && opt_payload(array[i].value) == Some(encode_utf8(vars[i].1))
        &&& array.last().name is None
        &&& array.last().value is None
    }
}

impl LoadCall {
    /// Whether this call carries exactly the options of `b`.
    pub open spec fn carries(&self, b: BuilderView) -> bool {
        match *self {
            LoadCall::Explicit {
                project_file,
                scenario_vars,
                target,
                runtime,
                config_file,
                ada_only,
            } => {
                &&& Some(project_file.payload()) == opt_encoded(b.project_file)
                &&& scenario_array(scenario_vars@, b.scenario_vars)
                &&& opt_payload(target) == opt_encoded(b.target)
                &&& opt_payload(runtime) == opt_encoded(b.runtime)
                &&& opt_payload(config_file) == opt_encoded(b.config_file)
                &&& ada_only == if b.ada_only { 1i32 } else { 0i32 }
            },
            LoadCall::Implicit { target, runtime, config_file } => {
                &&& b.project_file is None
                &&& opt_payload(target) == opt_encoded(b.target)
                &&& opt_payload(runtime) == opt_encoded(b.runtime)
                &&& opt_payload(config_file) == opt_encoded(b.config_file)
            },
        }
    }
}

/// What the engine handed back from a load call: the project handle (zero
/// for none) and the error array (absent when the engine left a null pointer).
pub struct LoadReply {
    pub project: usize,
    pub errors: Option<Vec<String>>,
}

impl LoadReply {
    /// The error strings, none for a null array.
    pub open spec fn lines(&self) -> Seq<Seq<char>> {
        match self.errors {
            Some(v) => texts(v@),
            None => Seq::empty(),
        }
    }

    /// Whether the reply reports a failed load.
    pub open spec fn rejected(&self) -> bool {
        self.project == 0 || self.lines().len() != 0
    }

    /// The message of the error that a rejected reply turns into.
    pub open spec fn error_text(&self) -> Seq<char> {
        let joined = join_lines(self.lines());
        if joined.len() == 0 {
            "invalid project"@
        } else {
            joined
        }
    }
}

/// How a load ended, and whether the engine's error array is to be freed.
pub struct LoadOutcome {
    pub result: Result<GprProject, Error>,
    pub free_errors: bool,
}

/// Builder for the GPR project type.
pub struct GprProjectBuilder {
    project_file: Option<String>,
    scenario_vars: Vec<(String, String)>,
    target: Option<String>,
    runtime: Option<String>,
    config_file: Option<String>,
    ada_only: bool,
}

impl View for GprProjectBuilder {
    type V = BuilderView;

    closed spec fn view(&self) -> BuilderView {
        BuilderView {
            project_file: opt_text(self.project_file),
            scenario_vars: pair_texts(self.scenario_vars@),
            target: opt_text(self.target),
            runtime: opt_text(self.runtime),
            config_file: opt_text(self.config_file),
            ada_only: self.ada_only,
        }
    }
}

/// A builder whose options were converted: the builder and the buffers of
/// the one load call made of it, which carries exactly its options.
pub struct PreparedLoad {
    builder: GprProjectBuilder,
    call: LoadCall,
}

/// An opaque GPR project wrapper. Can be used to build a new analysis context.
/// It keeps the builder and the buffers of the load call alive, since the
/// engine may still point into them. The wrapper owes the project's release:
/// it ends in `into_raw`, which hands out the handle to free.
pub struct GprProject {
    inner: usize,
    builder: GprProjectBuilder,
    call: LoadCall,
}

/// Converts an optional string into an optional buffer.
fn opt_buffer(s: &Option<String>) -> (res: Option<Option<CBuffer>>)
    ensures
        res is Some <==> opt_sendable(opt_text(*s)),
        res matches Some(b) ==> opt_payload(b) == opt_encoded(opt_text(*s)),
{
    match s {
        None => Some(None),
        Some(text) => match CBuffer::new(text.as_str()) {
            None => None,
            Some(b) => Some(Some(b)),
        },
    }
}

/// Joins the error strings with line feeds.
fn join(errors: &Vec<String>) -> (out: String)
    ensures
        out@ == join_lines(texts(errors@)),
{
    let mut out = String::new();
    let mut i: usize = 0;
    assert(texts(errors@).take(0) =~= Seq::empty());
    while i < errors.len()
        invariant
            i <= errors.len(),
            out@ == join_lines(texts(errors@).take(i as int)),
        decreases errors.len() - i,
    {
        if i > 0 {
            out.append("\n");
        }
        out.append(errors[i].as_str());
        proof {
            let t = texts(errors@);
            assert(t.take(i + 1).drop_last() =~= t.take(i as int));
            assert(t.take(i + 1).last() == t[i as int]);
            if i == 0 {
                assert(out@ =~= t[0]);
            }
        }
        i += 1;
    }
    assert(texts(errors@).take(errors.len() as int) =~= texts(errors@));
    out
}

impl GprProjectBuilder {
    /// Create a new project builder from an explicit project file.
    pub fn new(project_file: &str) -> (b: GprProjectBuilder)
        ensures
            b@ == BuilderView::explicit(project_file@),
    {
        let b = GprProjectBuilder {
            project_file: Some(project_file.to_owned()),
            scenario_vars: Vec::new(),
            target: None,
            runtime: None,
            config_file: None,
            ada_only: false,
        };
        assert(pair_texts(b.scenario_vars@) =~= Seq::empty());
        b
    }

    /// Create a new implicit project builder. Loads an implicit project in
    /// the current directory.
    pub fn new_implicit() -> (b: GprProjectBuilder)
        ensures
            b@ == BuilderView::implicit(),
    {
        let b = GprProjectBuilder {
            project_file: None,
            scenario_vars: Vec::new(),
            target: None,
            runtime: None,
            config_file: None,
            ada_only: false,
        };
        assert(pair_texts(b.scenario_vars@) =~= Seq::empty());
        b
    }

    /// Set a scenario variable. Fails if no project file is set.
    pub fn scenario_var(self, name: &str, value: &str) -> (res: Result<GprProjectBuilder, Error>)
        ensures
            res is Ok <==> self@.with_scenario_vars(seq![(name@, value@)]) is Some,
            res matches Ok(b) ==> Some(b@) == self@.with_scenario_vars(seq![(name@, value@)]),
            res matches Err(e) ==> e matches Error::Custom(m) && m@
                == "cannot set scenario vars in an implicit project"@,
    {
        if self.project_file.is_none() {
            return Err(Error::custom("cannot set scenario vars in an implicit project"));
        }
        let mut b = self;
        b.scenario_vars.push((name.to_owned(), value.to_owned()));
        assert(pair_texts(b.scenario_vars@) =~= pair_texts(self.scenario_vars@) + seq![
            (name@, value@),
        ]);
        Ok(b)
    }

    /// Set several scenario variables, in order. Fails if no project file is
    /// set, also when there is nothing to add.
    pub fn scenario_vars(self, vars: &[(&str, &str)]) -> (res: Result<GprProjectBuilder, Error>)
        ensures
            res is Ok <==> self@.with_scenario_vars(slice_pair_texts(vars@)) is Some,
            res matches Ok(b) ==> Some(b@) == self@.with_scenario_vars(slice_pair_texts(vars@)),
            res matches Err(e) ==> e matches Error::Custom(m) && m@
                == "cannot set scenario vars in an implicit project"@,
    {
        if self.project_file.is_none() {
            return Err(Error::custom("cannot set scenario vars in an implicit project"));
        }
        let mut b = self;
        let mut i: usize = 0;
        assert(self@.scenario_vars + slice_pair_texts(vars@).take(0) =~= self@.scenario_vars);
        while i < vars.len()
            invariant
                i <= vars.len(),
                b@ == (BuilderView {
                    scenario_vars: self@.scenario_vars + slice_pair_texts(vars@).take(i as int),
                    ..self@
                }),
            decreases vars.len() - i,
        {
            let ghost before = b@;
            b.scenario_vars.push((vars[i].0.to_owned(), vars[i].1.to_owned()));
            assert(pair_texts(b.scenario_vars@) =~= before.scenario_vars.push(
                (vars@[i as int].0@, vars@[i as int].1@),
            ));
            assert(before.scenario_vars.push((vars@[i as int].0@, vars@[i as int].1@))
                =~= self@.scenario_vars + slice_pair_texts(vars@).take(i + 1));
            i += 1;
        }
        assert(slice_pair_texts(vars@).take(vars.len() as int) =~= slice_pair_texts(vars@));
        Ok(b)
    }

    /// Set the project's target
    pub fn target(self, target: &str) -> (b: GprProjectBuilder)
        ensures
            b@ == (BuilderView { target: Some(target@), ..self@ }),
    {
        let mut b = self;
        b.target = Some(target.to_owned());
        b
    }

    /// Set the project's runtime
    pub fn runtime(self, runtime: &str) -> (b: GprProjectBuilder)
        ensures
            b@ == (BuilderView { runtime: Some(runtime@), ..self@ }),
    {
        let mut b = self;
        b.runtime = Some(runtime.to_owned());
        b
    }

    /// Set the project's config file
    pub fn config_file(self, config_file: &str) -> (b: GprProjectBuilder)
        ensures
            b@ == (BuilderView { config_file: Some(config_file@), ..self@ }),
    {
        let mut b = self;
        b.config_file = Some(config_file.to_owned());
        b
    }

    /// Converts the accumulated options into the buffers of the one load
    /// call.
    fn make_call(&self) -> (res: Result<LoadCall, Error>)
        ensures
            res is Ok <==> self@.sendable(),
            res matches Ok(call) ==> call.carries(self@),
            res matches Err(e) ==> e matches Error::Custom(m) && m@
                == "configuration text holds a nul byte"@,
    {
        let target = match opt_buffer(&self.target) {
            Some(b) => b,
            None => {
                return Err(Error::custom("configuration text holds a nul byte"));
            },
        };
        let runtime = match opt_buffer(&self.runtime) {
            Some(b) => b,
            None => {
                return Err(Error::custom("configuration text holds a nul byte"));
            },
        };
        let config_file = match opt_buffer(&self.config_file) {
            Some(b) => b,
            None => {
                return Err(Error::custom("configuration text holds a nul byte"));
            },
        };
        match &self.project_file {
            None => Ok(LoadCall::Implicit { target, runtime, config_file }),
            Some(path) => {
                let project_file = match CBuffer::new(path.as_str()) {
                    Some(b) => b,
                    None => {
                        return Err(Error::custom("configuration text holds a nul byte"));
                    },
                };
                let ghost vars = self@.scenario_vars;
                let mut array: Vec<ScenarioVar> = Vec::new();
                let mut i: usize = 0;
                while i < self.scenario_vars.len()
                    invariant
                        i <= self.scenario_vars.len(),
                        vars == self@.scenario_vars,
                        self@.project_file is Some,
                        vars.len() == self.scenario_vars.len(),
                        array@.len() == i,
                        forall|j: int|
                            0 <= j < i ==> opt_payload((#[trigger] array@[j]).name) == Some(
                                encode_utf8(vars[j].0),
                            ) && opt_payload(array@[j].value) == Some(encode_utf8(vars[j].1)),
                        forall|j: int|
                            0 <= j < i ==> nul_free(encode_utf8((#[trigger] vars[j]).0))
                                && nul_free(encode_utf8(vars[j].1)),
                    decreases self.scenario_vars.len() - i,
                {
                    let pair = &self.scenario_vars[i];
                    assert(vars[i as int].0 == pair.0@ && vars[i as int].1 == pair.1@);
                    let name = match CBuffer::new(pair.0.as_str()) {
                        Some(b) => b,
                        None => {
                            return Err(Error::custom("configuration text holds a nul byte"));
                        },
                    };
                    let value = match CBuffer::new(pair.1.as_str()) {
                        Some(b) => b,
                        None => {
                            return Err(Error::custom("configuration text holds a nul byte"));
                        },
                    };
                    array.push(ScenarioVar { name: Some(name), value: Some(value) });
                    i += 1;
                }
                if array.len() > 0 {
                    // the engine finds the end of the array by this entry
                    array.push(ScenarioVar { name: None, value: None });
                }
                let ada_only: i32 = if self.ada_only {
                    1
                } else {
                    0
                };
                Ok(
                    LoadCall::Explicit {
                        project_file,
                        scenario_vars: array,
                        target,
                        runtime,
                        config_file,
                        ada_only,
                    },
                )
            },
        }
    }

    /// Converts the accumulated options into the buffers of the one load
    /// call, and keeps the builder with them. Fails, before anything is
    /// sent, when an option that the call would carry holds a zero byte.
    pub fn prepare(self) -> (res: Result<PreparedLoad, Error>)
        ensures
            res is Ok <==> self@.sendable(),
            res matches Ok(p) ==> p.options() == self@ && p.load_call().carries(self@),
            res matches Err(e) ==> e matches Error::Custom(m) && m@
                == "configuration text holds a nul byte"@,
    {
        match self.make_call() {
            Ok(call) => Ok(PreparedLoad { builder: self, call }),
            Err(e) => Err(e),
        }
    }

    /// Decides how a load ended, from what the engine handed back for the
    /// prepared call and the state of the error channel right after it.
    ///
    /// A pending exception wins. Otherwise a missing handle or a non-empty
    /// error array gives a local error whose message is the error strings
    /// joined by line feeds (or a fixed message when that is empty), and the
    /// error array, if there is one, is to be freed. Otherwise the project is
    /// wrapped, together with the builder and the buffers of its call.
    pub fn load(prepared: PreparedLoad, reply: LoadReply, channel: &mut ErrorChannel) -> (outcome:
        LoadOutcome)
        ensures
            final(channel).pending() is None,
            match old(channel).pending() {
                Some(raw) => {
                    &&& outcome.result matches Err(Error::Exception(e)) && e.decodes(raw)
                    &&& !outcome.free_errors
                },
                None => if reply.rejected() {
                    &&& outcome.result matches Err(Error::Custom(m)) && m@ == reply.error_text()
                    &&& outcome.free_errors == reply.errors is Some
                } else {
                    &&& outcome.result matches Ok(p) && p.handle() == reply.project && p.options()
                        == prepared.options() && p.call() == prepared.load_call()
                        && p.call().carries(p.options())
                    &&& !outcome.free_errors
                },
            },
    {
        proof {
            use_type_invariant(&prepared);
        }
        if let Some(err) = Exception::get_last(channel) {
            return LoadOutcome { result: Err(Error::Exception(err)), free_errors: false };
        }
        let failed = reply.project == 0 || match &reply.errors {
            Some(v) => v.len() != 0,
            None => false,
        };
        if failed {
            let (joined, free_errors) = match &reply.errors {
                Some(v) => (join(v), true),
                None => (String::new(), false),
            };
            if joined.as_str().is_empty() {
                return LoadOutcome { result: Err(Error::custom("invalid project")), free_errors };
            }
            LoadOutcome { result: Err(Error::Custom(joined)), free_errors }
        } else {
            LoadOutcome {
                result: Ok(
                    GprProject {
                        inner: reply.project,
                        builder: prepared.builder,
                        call: prepared.call,
                    },
                ),
                free_errors: false,
            }
        }
    }

    /// Set if the project only has Ada sources. Fails if no project file is
    /// set.
    pub fn ada_only(self, ada_only: bool) -> (res: Result<GprProjectBuilder, Error>)
        ensures
            res is Ok <==> self@.with_ada_only(ada_only) is Some,
            res matches Ok(b) ==> Some(b@) == self@.with_ada_only(ada_only),
            res matches Err(e) ==> e matches Error::Custom(m) && m@
                == "cannot set `ada_only` in an implicit project"@,
    {
        if self.project_file.is_none() {
            return Err(Error::custom("cannot set `ada_only` in an implicit project"));
        }
        let mut b = self;
        b.ada_only = ada_only;
        Ok(b)
    }
}

impl PreparedLoad {
    #[verifier::type_invariant]
    spec fn consistent(self) -> bool {
        self.call.carries(self.builder@)
    }

    /// The options the call was prepared from.
    pub closed spec fn options(&self) -> BuilderView {
        self.builder@
    }

    /// The prepared call.
    pub closed spec fn load_call(&self) -> LoadCall {
        self.call
    }

    /// The call to issue, which carries exactly the options.
    pub fn call(&self) -> (call: &LoadCall)
        ensures
            *call == self.load_call(),
            call.carries(self.options()),
    {
        proof {
            use_type_invariant(self);
        }
        &self.call
    }
}

impl GprProject {
    #[verifier::type_invariant]
    spec fn loaded(self) -> bool {
        &&& self.inner != 0
        &&& self.call.carries(self.builder@)
    }

    /// The project handle.
    pub closed spec fn handle(&self) -> usize {
        self.inner
    }

    /// The options the project was loaded with.
    pub closed spec fn options(&self) -> BuilderView {
        self.builder@
    }

    /// The load call whose buffers the project keeps alive.
    pub closed spec fn call(&self) -> LoadCall {
        self.call
    }

    /// Build a new GPR project
    pub fn build(project_file: &str) -> (b: GprProjectBuilder)
        ensures
            b@ == BuilderView::explicit(project_file@),
    {
        GprProjectBuilder::new(project_file)
    }

    /// Build a new implicit GPR project
    pub fn build_implicit() -> (b: GprProjectBuilder)
        ensures
            b@ == BuilderView::implicit(),
    {
        GprProjectBuilder::new_implicit()
    }

    /// Gives up the wrapper and hands out the handle, for the caller to free
    /// the project with.
    pub fn into_raw(self) -> (raw: usize)
        ensures
            raw == self.handle(),
            raw != 0,
    {
        proof {
            use_type_invariant(&self);
        }
        self.inner
    }

    /// Get the inner raw handle to the GPR project, which is never null.
    pub fn as_raw(&self) -> (raw: usize)
        ensures
            raw == self.handle(),
            raw != 0,
    {
        proof {
            use_type_invariant(self);
        }
        self.inner
    }
}

/// A builder for an implicit project accepts no scenario variable: whatever
/// other options were set on it, and whatever the variables, the attempt
/// fails in this layer and leaves no builder from which a load call could be
/// prepared.
pub proof fn lemma_implicit_project_rejects_scenario_vars(
    b: BuilderView,
    vars: Seq<(Seq<char>, Seq<char>)>,
)
    requires
        b.project_file is None,
    ensures
        b.with_scenario_vars(vars) is None,
        BuilderView::implicit().with_scenario_vars(vars) is None,
{
}

} // verus!
