use vstd::prelude::*;

verus! {

/// A pipeline stage that a shader object is compiled for.
#[derive(Clone, Copy, Debug, PartialEq, Eq, Structural)]
pub enum Stage {
    Vertex,
    Fragment,
}

/// A buffer binding point of the context.
#[derive(Clone, Copy, Debug, PartialEq, Eq, Structural)]
pub enum Target {
    /// Vertex data (the array-buffer binding point).
    ArrayBuffer,
    /// Index data (the element-array-buffer binding point).
    ElementArrayBuffer,
}

/// The type of one component of a vertex attribute or of an index.
#[derive(Clone, Copy, Debug, PartialEq, Eq, Structural)]
pub enum ComponentType {
    Float,
    UnsignedInt,
}

/// One driver call, with plain values for its arguments.
#[derive(Debug, PartialEq, Eq)]
pub enum Command {
    ShaderSource { shader: u32, source: Vec<u8> },
    CompileShader { shader: u32 },
    DeleteShader { shader: u32 },
    AttachShader { program: u32, shader: u32 },
    LinkProgram { program: u32 },
    DeleteProgram { program: u32 },
    UseProgram { program: u32 },
    BindBuffer { target: Target, buffer: u32 },
    /// Replace the whole storage of the buffer bound to `target` with `data`,
    /// with a usage hint for contents that change from frame to frame.
    BufferData { target: Target, data: Vec<u32> },
    DeleteBuffer { buffer: u32 },
    BindVertexArray { vertex_array: u32 },
    EnableVertexAttribArray { slot: u32 },
    VertexAttribPointer {
        slot: u32,
        components: u32,
        component_type: ComponentType,
        normalized: bool,
        stride: usize,
        offset: usize,
    },
    DeleteVertexArray { vertex_array: u32 },
    /// Draw triangles from `count` indices of the bound index buffer.
    DrawElements { count: usize, index_type: ComponentType },
}

/// The context-wide binding registers, with the driver calls that are still
/// to be performed.
///
/// A register holds 0 when nothing is bound to it.
#[derive(Debug)]
pub struct Context {
    array_buffer: u32,
    array_record_words: usize,
    element_buffer: u32,
    vertex_array: u32,
    program: u32,
    queue: Vec<Command>,
}

/// The binding registers as plain values.
#[derive(Clone, Copy, Debug, PartialEq, Eq, Structural)]
pub struct Bindings {
    pub array_buffer: u32,
    /// The record size, in 32-bit words, of the vertex buffer bound to the
    /// array-buffer point (0 when none is).
    pub array_record_words: usize,
    pub element_buffer: u32,
    pub vertex_array: u32,
    pub program: u32,
}

/// The registers after `buffer` is bound to `target`: binding the array-buffer
/// point also records the record size of the vertex buffer bound there.
pub open spec fn bound_buffer(b: Bindings, target: Target, buffer: u32, record_words: usize) -> Bindings {
    match target {
        Target::ArrayBuffer => Bindings {
            array_buffer: buffer,
            array_record_words: record_words,
            ..b
        },
        Target::ElementArrayBuffer => Bindings { element_buffer: buffer, ..b },
    }
}

impl Context {
    pub closed spec fn bindings(&self) -> Bindings {
        Bindings {
            array_buffer: self.array_buffer,
            array_record_words: self.array_record_words,
            element_buffer: self.element_buffer,
            vertex_array: self.vertex_array,
            program: self.program,
        }
    }

    /// The driver calls queued and not yet taken.
    pub closed spec fn queued(&self) -> Seq<Command> {
        self.queue@
    }

    /// A context with nothing bound and nothing queued.
    pub fn new() -> (r: Context)
        ensures
            r.bindings() == (Bindings {
                array_buffer: 0,
                array_record_words: 0,
                element_buffer: 0,
                vertex_array: 0,
                program: 0,
            }),
            r.queued() == Seq::<Command>::empty(),
    {
        Context {
            array_buffer: 0,
            array_record_words: 0,
            element_buffer: 0,
            vertex_array: 0,
            program: 0,
            queue: Vec::new(),
        }
    }

    /// Hands out the queued driver calls, oldest first, and empties the queue.
    pub fn take_commands(&mut self) -> (r: Vec<Command>)
        ensures
            r@ == old(self).queued(),
            final(self).queued() == Seq::<Command>::empty(),
            final(self).bindings() == old(self).bindings(),
    {
        let mut taken: Vec<Command> = Vec::new();
        std::mem::swap(&mut taken, &mut self.queue);
        taken
    }

    /// The program that is current, 0 when none is.
    pub fn current_program(&self) -> (r: u32)
        ensures
            r == self.bindings().program,
    {
        self.program
    }

    /// The vertex buffer bound to the array-buffer point, 0 when none is.
    pub fn current_array_buffer(&self) -> (r: u32)
        ensures
            r == self.bindings().array_buffer,
    {
        self.array_buffer
    }

    /// The record size, in words, of the vertex buffer bound to the
    /// array-buffer point (0 when none is).
    pub fn current_array_record_words(&self) -> (r: usize)
        ensures
            r == self.bindings().array_record_words,
    {
        self.array_record_words
    }

    /// The index buffer bound to the element-array-buffer point, 0 when none is.
    pub fn current_element_buffer(&self) -> (r: u32)
        ensures
            r == self.bindings().element_buffer,
    {
        self.element_buffer
    }

    /// The vertex array that is bound, 0 when none is.
    pub fn current_vertex_array(&self) -> (r: u32)
        ensures
            r == self.bindings().vertex_array,
    {
        self.vertex_array
    }

    /// Queues one driver call.
    pub(crate) fn push(&mut self, c: Command)
        ensures
            final(self).queued() == old(self).queued().push(c),
            final(self).bindings() == old(self).bindings(),
    {
        self.queue.push(c);
    }

    /// Queues a bind of `buffer` to `target` and records it in the register.
    /// `record_words` is the record size of a vertex buffer; it is not kept
    /// for the index point.
    pub(crate) fn bind_buffer(&mut self, target: Target, buffer: u32, record_words: usize)
        ensures
            final(self).queued() == old(self).queued().push(
                Command::BindBuffer { target, buffer },
            ),
            final(self).bindings() == bound_buffer(old(self).bindings(), target, buffer, record_words),
    {
        self.queue.push(Command::BindBuffer { target, buffer });
        match target {
            Target::ArrayBuffer => {
                self.array_buffer = buffer;
                self.array_record_words = record_words;
            },
            Target::ElementArrayBuffer => {
                self.element_buffer = buffer;
            },
        }
    }

    /// Queues a bind of `vertex_array` and records it in the register.
    pub(crate) fn bind_vertex_array(&mut self, vertex_array: u32)
        ensures
            final(self).queued() == old(self).queued().push(
                Command::BindVertexArray { vertex_array },
            ),
            final(self).bindings() == (Bindings { vertex_array, ..old(self).bindings() }),
    {
        self.queue.push(Command::BindVertexArray { vertex_array });
        self.vertex_array = vertex_array;
    }

    /// Queues making `program` the current one and records it in the register.
    pub(crate) fn use_program(&mut self, program: u32)
        ensures
            final(self).queued() == old(self).queued().push(Command::UseProgram { program }),
            final(self).bindings() == (Bindings { program, ..old(self).bindings() }),
    {
        self.queue.push(Command::UseProgram { program });
        self.program = program;
    }
}

} // verus!
