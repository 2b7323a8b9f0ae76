use vstd::prelude::*;

use crate::context::{Bindings, Command, Context, Stage};

verus! {

/// A compiled shader object, owned by this value.
#[derive(Debug)]
pub struct Shader {
    id: u32,
    stage: Stage,
}

/// A linked program object, owned by this value.
#[derive(Debug)]
pub struct Program {
    id: u32,
}

/// A shader failed to compile; `log` is the driver's diagnostic.
#[derive(Debug)]
pub struct CompileError {
    pub stage: Stage,
    pub log: String,
}

/// A program failed to link; `log` is the driver's diagnostic.
#[derive(Debug)]
pub struct LinkError {
    pub log: String,
}

impl Shader {
    #[verifier::type_invariant]
    spec fn inv(&self) -> bool {
        self.id != 0
    }

    pub closed spec fn spec_id(&self) -> u32 {
        self.id
    }

    pub closed spec fn spec_stage(&self) -> Stage {
        self.stage
    }

    pub(crate) fn from_parts(id: u32, stage: Stage) -> (r: Shader)
        requires
            id != 0,
        ensures
            r.spec_id() == id,
            r.spec_stage() == stage,
    {
        Shader { id, stage }
    }

    /// The driver's identifier of the shader object, never 0.
    pub fn id(&self) -> (r: u32)
        ensures
            r == self.spec_id(),
            r != 0,
    {
        proof {
            use_type_invariant(self);
        }
        self.id
    }

    pub fn stage(&self) -> (r: Stage)
        ensures
            r == self.spec_stage(),
    {
        self.stage
    }

    /// Gives the shader object back to the driver.
    pub fn release(self, ctx: &mut Context)
        ensures
            final(ctx).queued() == old(ctx).queued().push(
                Command::DeleteShader { shader: self.spec_id() },
            ),
            final(ctx).bindings() == old(ctx).bindings(),
    {
        ctx.push(Command::DeleteShader { shader: self.id });
    }
}

impl Program {
    #[verifier::type_invariant]
    spec fn inv(&self) -> bool {
        self.id != 0
    }

    pub closed spec fn spec_id(&self) -> u32 {
        self.id
    }

    pub(crate) fn from_id(id: u32) -> (r: Program)
        requires
            id != 0,
        ensures
            r.spec_id() == id,
    {
        Program { id }
    }

    /// The driver's identifier of the program object, never 0.
    pub fn id(&self) -> (r: u32)
        ensures
            r == self.spec_id(),
            r != 0,
    {
        proof {
            use_type_invariant(self);
        }
        self.id
    }

    /// Makes this program the context's current one.
    pub fn set(&self, ctx: &mut Context)
        ensures
            final(ctx).queued() == old(ctx).queued().push(
                Command::UseProgram { program: self.spec_id() },
            ),
            final(ctx).bindings() == (Bindings { program: self.spec_id(), ..old(ctx).bindings() }),
    {
        ctx.use_program(self.id);
    }

    /// Puts a rebuilt program in place of this one. The rebuild was done
    /// while this program still stood, so a failed one changes nothing: this
    /// program stays, current if it was, and the error is handed back. A
    /// successful one becomes current if this program was, and this program
    /// is then released.
    pub fn replace<E>(self, ctx: &mut Context, rebuilt: Result<Program, E>) -> (r: (
        Program,
        Option<E>,
    ))
        requires
            rebuilt matches Ok(p) ==> p.spec_id() != self.spec_id(),
        ensures
            match rebuilt {
                Err(e) => {
                    &&& r.0.spec_id() == self.spec_id()
                    &&& r.1 == Some(e)
                    &&& final(ctx).queued() == old(ctx).queued()
                    &&& final(ctx).bindings() == old(ctx).bindings()
                },
                Ok(p) => {
                    &&& r.0.spec_id() == p.spec_id()
                    &&& r.1 is None
                    &&& old(ctx).bindings().program == self.spec_id() ==> {
                        &&& final(ctx).queued() == old(ctx).queued().push(
                            Command::UseProgram { program: p.spec_id() },
                        ).push(Command::DeleteProgram { program: self.spec_id() })
                        &&& final(ctx).bindings() == (Bindings {
                            program: p.spec_id(),
                            ..old(ctx).bindings()
                        })
                    }
                    &&& old(ctx).bindings().program != self.spec_id() ==> {
                        &&& final(ctx).queued() == old(ctx).queued().push(
                            Command::DeleteProgram { program: self.spec_id() },
                        )
                        &&& final(ctx).bindings() == old(ctx).bindings()
                    }
                },
            },
    {
        match rebuilt {
            Err(e) => (self, Some(e)),
            Ok(p) => {
                if ctx.current_program() == self.id {
                    p.set(ctx);
                }
                self.release(ctx);
                (p, None)
            },
        }
    }

    /// Gives the program object back to the driver. A program that is
    /// current is first unbound, so that the register never names a deleted
    /// program.
    pub fn release(self, ctx: &mut Context)
        ensures
            old(ctx).bindings().program == self.spec_id() ==> final(ctx).queued()
                == old(ctx).queued().push(Command::UseProgram { program: 0 }).push(
                Command::DeleteProgram { program: self.spec_id() },
            ),
            old(ctx).bindings().program != self.spec_id() ==> final(ctx).queued()
                == old(ctx).queued().push(Command::DeleteProgram { program: self.spec_id() }),
            final(ctx).bindings() == (Bindings {
                program: if old(ctx).bindings().program == self.spec_id() {
                    0
                } else {
                    old(ctx).bindings().program
                },
                ..old(ctx).bindings()
            }),
    {
        if ctx.current_program() == self.id {
            ctx.use_program(0);
        }
        ctx.push(Command::DeleteProgram { program: self.id });
    }
}

} // verus!
