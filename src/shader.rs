//! Building a shader program: the host performs each step on its context and
//! reports the outcome; the build decides what comes next. A program is
//! handed out only once both stages compiled and the program linked; the
//! shader objects are then detached and deleted.

use vstd::prelude::*;

verus! {

#[derive(Clone, Copy, PartialEq, Eq, Debug)]
pub enum ShaderStage {
    Vertex,
    Fragment,
}

/// Which step failed.
#[derive(Clone, Copy, PartialEq, Eq, Debug)]
pub enum BuildFailure {
    /// The shader of this stage, by its handle, did not compile.
    Compile(ShaderStage, u32),
    /// The program did not link.
    Link,
}

/// What the host does next.
#[derive(PartialEq, Eq, Debug)]
pub enum BuildStep {
    /// Create a shader of this stage, give it the version line followed by
    /// its source, compile it and report with `shader_compiled`.
    Compile(ShaderStage),
    /// Link the program and report with `program_linked`.
    Link,
    /// Detach and delete these shaders from the program, which is ready.
    Finish(u32, Vec<u32>),
    /// Stop with the info log of what failed: there is no fallback.
    Abort(BuildFailure),
}

/// The stage compiled after `n` successful compilations.
pub open spec fn stage_at(n: nat) -> ShaderStage {
    if n == 0 {
        ShaderStage::Vertex
    } else {
        ShaderStage::Fragment
    }
}

pub ghost struct BuildModel {
    pub program: u32,
    /// Shaders that compiled, in stage order; each is attached to the program.
    pub shaders: Seq<u32>,
    pub linked: bool,
    pub failure: Option<BuildFailure>,
}

impl BuildModel {
    pub open spec fn wf(self) -> bool {
        &&& self.shaders.len() <= 2
        &&& self.linked ==> self.shaders.len() == 2
    }

    /// The next step is a compilation.
    pub open spec fn compiling(self) -> bool {
        self.failure is None && self.shaders.len() < 2
    }

    /// The next step is the link.
    pub open spec fn linking(self) -> bool {
        self.failure is None && self.shaders.len() == 2 && !self.linked
    }
}

pub struct ShaderBuild {
    program: u32,
    shaders: Vec<u32>,
    linked: bool,
    failure: Option<BuildFailure>,
}

impl View for ShaderBuild {
    type V = BuildModel;

    closed spec fn view(&self) -> BuildModel {
        BuildModel {
            program: self.program,
            shaders: self.shaders@,
            linked: self.linked,
            failure: self.failure,
        }
    }
}

impl ShaderBuild {
    /// Starts a build on the new program `program`.
    pub fn new(program: u32) -> (r: ShaderBuild)
        ensures
            r@ == (BuildModel { program, shaders: Seq::empty(), linked: false, failure: None }),
            r@.wf(),
    {
        ShaderBuild { program, shaders: Vec::new(), linked: false, failure: None }
    }

    /// The next step: stop on a failure; else compile the vertex then the
    /// fragment stage, link, and finish.
    pub fn next_step(&self) -> (r: BuildStep)
        requires
            self@.wf(),
        ensures
            self@.failure matches Some(f) ==> r == BuildStep::Abort(f),
            self@.compiling() ==> r == BuildStep::Compile(stage_at(self@.shaders.len())),
            self@.linking() ==> r == BuildStep::Link,
            self@.failure is None && self@.linked ==> (r matches BuildStep::Finish(p, s) && p
                == self@.program && s@ == self@.shaders),
    {
        match self.failure {
            Some(f) => BuildStep::Abort(f),
            None => {
                if self.shaders.len() == 0 {
                    BuildStep::Compile(ShaderStage::Vertex)
                } else if self.shaders.len() == 1 {
                    BuildStep::Compile(ShaderStage::Fragment)
                } else if !self.linked {
                    BuildStep::Link
                } else {
                    BuildStep::Finish(self.program, self.shaders.clone())
                }
            },
        }
    }

    /// Reports the compilation that `Compile` asked for: `shader` is the new
    /// shader and `ok` its compile status. Returns the shader to attach to the
    /// program, if it compiled.
    pub fn shader_compiled(&mut self, shader: u32, ok: bool) -> (r: Option<u32>)
        requires
            old(self)@.wf(),
            old(self)@.compiling(),
        ensures
            final(self)@.wf(),
            ok ==> r == Some(shader) && final(self)@ == (BuildModel {
                shaders: old(self)@.shaders.push(shader),
                ..old(self)@
            }),
            !ok ==> r is None && final(self)@ == (BuildModel {
                failure: Some(
                    BuildFailure::Compile(stage_at(old(self)@.shaders.len()), shader),
                ),
                ..old(self)@
            }),
    {
        if ok {
            self.shaders.push(shader);
            Some(shader)
        } else {
            let stage = if self.shaders.len() == 0 {
                ShaderStage::Vertex
            } else {
                ShaderStage::Fragment
            };
            self.failure = Some(BuildFailure::Compile(stage, shader));
            None
        }
    }

    /// Reports the link that `Link` asked for, with its status.
    pub fn program_linked(&mut self, ok: bool)
        requires
            old(self)@.wf(),
            old(self)@.linking(),
        ensures
            final(self)@.wf(),
            ok ==> final(self)@ == (BuildModel { linked: true, ..old(self)@ }),
            !ok ==> final(self)@ == (BuildModel { failure: Some(BuildFailure::Link), ..old(self)@ }),
    {
        if ok {
            self.linked = true;
        } else {
            self.failure = Some(BuildFailure::Link);
        }
    }
}

} // verus!
