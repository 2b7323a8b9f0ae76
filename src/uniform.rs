use vstd::prelude::*;

use crate::program::Program;

verus! {

/// No parameter of this name is active in the program.
#[derive(Debug)]
pub struct LookupError {
    pub name: String,
}

/// The location of a named parameter in one program. A plain value: it
/// stays valid as long as that program is neither deleted nor relinked.
#[derive(Clone, Copy, Debug, PartialEq, Eq, Structural)]
pub struct Uniform {
    program: u32,
    location: i32,
}

/// The location the driver reports for a name it does not know.
pub const NOT_FOUND: i32 = -1;

/// A handle is its program and its location: resolving one name twice in
/// the same program, while the driver places it at the same location, gives
/// the same handle, so either can be kept and reused.
pub proof fn lemma_handles_are_stable(a: Uniform, b: Uniform)
    requires
        a.spec_program() == b.spec_program(),
        a.spec_location() == b.spec_location(),
    ensures
        a == b,
{
}

impl Uniform {
    pub closed spec fn spec_program(&self) -> u32 {
        self.program
    }

    pub closed spec fn spec_location(&self) -> i32 {
        self.location
    }

    /// Resolves `name` in `program`, from the location that the driver
    /// reported for it.
    pub fn new(program: &Program, name: &str, location: i32) -> (r: Result<Uniform, LookupError>)
        ensures
            location == NOT_FOUND ==> (r matches Err(e) && e.name@ == name@),
            location != NOT_FOUND ==> (r matches Ok(u) && u.spec_program() == program.spec_id()
                && u.spec_location() == location),
    {
        if location == NOT_FOUND {
            Err(LookupError { name: name.to_owned() })
        } else {
            Ok(Uniform { program: program.id(), location })
        }
    }

    /// The program the location belongs to.
    pub fn program(&self) -> (r: u32)
        ensures
            r == self.spec_program(),
    {
        self.program
    }

    /// The location, never the not-found one.
    pub fn location(&self) -> (r: i32)
        ensures
            r == self.spec_location(),
    {
        self.location
    }
}

} // verus!
