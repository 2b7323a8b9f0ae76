use vstd::prelude::*;

use crate::context::{bound_buffer, Command, ComponentType, Context, Target};

verus! {

/// What a buffer object is, seen from the library.
pub struct BufferModel {
    pub id: u32,
    pub target: Target,
    /// The size of one record, in 32-bit words.
    pub record_words: usize,
    /// The buffer's contents, as last uploaded.
    pub content: Seq<u32>,
}

/// A buffer's model after `data` is uploaded to it: the contents are
/// replaced whole, the rest stays.
pub open spec fn upload_model(m: BufferModel, data: Seq<u32>) -> BufferModel {
    BufferModel { content: data, ..m }
}

/// Uploading replaces: after `a` then `b`, a buffer holds `b` alone, as if
/// `a` had never been uploaded, whatever the lengths of the two.
pub proof fn lemma_upload_replaces(m: BufferModel, a: Seq<u32>, b: Seq<u32>)
    ensures
        upload_model(upload_model(m, a), b) == upload_model(m, b),
        upload_model(upload_model(m, a), b).content == b,
{
}

/// A buffer object of the driver, owned by this value.
struct Buffer {
    id: u32,
    record_words: usize,
    len: usize,
    content: Ghost<Seq<u32>>,
}

impl Buffer {
    #[verifier::type_invariant]
    spec fn inv(&self) -> bool {
        &&& self.id != 0
        &&& self.record_words > 0
        &&& self.len == self.content@.len()
    }

    closed spec fn model(&self, target: Target) -> BufferModel {
        BufferModel {
            id: self.id,
            target,
            record_words: self.record_words,
            content: self.content@,
        }
    }

    fn generate(id: u32, record_words: usize) -> (r: Option<Buffer>)
        requires
            record_words > 0,
        ensures
            id == 0 <==> r is None,
            r matches Some(b) ==> b.id == id && b.record_words == record_words && b.content@
                == Seq::<u32>::empty(),
    {
        if id == 0 {
            None
        } else {
            Some(Buffer { id, record_words, len: 0, content: Ghost(Seq::empty()) })
        }
    }

    fn upload(&mut self, ctx: &mut Context, target: Target, data: Vec<u32>)
        ensures
            final(self).model(target) == upload_model(old(self).model(target), data@),
            final(ctx).queued() == old(ctx).queued().push(
                Command::BindBuffer { target, buffer: old(self).id },
            ).push(Command::BufferData { target, data }),
            final(ctx).bindings() == bound_buffer(
                old(ctx).bindings(),
                target,
                old(self).id,
                old(self).record_words,
            ),
    {
        ctx.bind_buffer(target, self.id, self.record_words);
        let ghost words = data@;
        let n = data.len();
        ctx.push(Command::BufferData { target, data });
        proof {
            use_type_invariant(&*self);
        }
        *self = Buffer { id: self.id, record_words: self.record_words, len: n, content: Ghost(words) };
    }

    fn release(self, ctx: &mut Context, target: Target)
        ensures
            final(ctx).queued() == old(ctx).queued().push(
                Command::BindBuffer { target, buffer: 0 },
            ).push(Command::DeleteBuffer { buffer: self.id }),
            final(ctx).bindings() == bound_buffer(old(ctx).bindings(), target, 0, 0),
    {
        ctx.bind_buffer(target, 0, 0);
        ctx.push(Command::DeleteBuffer { buffer: self.id });
    }
}

/// A vertex buffer: records of a fixed number of 32-bit words.
pub struct Vbo {
    buffer: Buffer,
}

/// An index buffer: 32-bit unsigned indices.
pub struct Ibo {
    buffer: Buffer,
}

impl Vbo {
    pub closed spec fn view(&self) -> BufferModel {
        self.buffer.model(Target::ArrayBuffer)
    }

    /// Takes ownership of the buffer object `id` that the driver generated,
    /// for records of `record_words` words. There is none to own when `id`
    /// is 0.
    pub fn generate(id: u32, record_words: usize) -> (r: Option<Vbo>)
        requires
            record_words > 0,
        ensures
            id == 0 <==> r is None,
            r matches Some(b) ==> b@ == (BufferModel {
                id,
                target: Target::ArrayBuffer,
                record_words,
                content: Seq::empty(),
            }),
    {
        match Buffer::generate(id, record_words) {
            Some(buffer) => Some(Vbo { buffer }),
            None => None,
        }
    }

    /// Binds the buffer and replaces its whole contents with `data`.
    pub fn set(&mut self, ctx: &mut Context, data: Vec<u32>)
        ensures
            final(self)@ == upload_model(old(self)@, data@),
            final(ctx).queued() == old(ctx).queued().push(
                Command::BindBuffer { target: Target::ArrayBuffer, buffer: old(self)@.id },
            ).push(Command::BufferData { target: Target::ArrayBuffer, data }),
            final(ctx).bindings() == bound_buffer(
                old(ctx).bindings(),
                Target::ArrayBuffer,
                old(self)@.id,
                old(self)@.record_words,
            ),
    {
        self.buffer.upload(ctx, Target::ArrayBuffer, data);
    }

    /// The driver's identifier of the buffer object, never 0.
    pub fn id(&self) -> (r: u32)
        ensures
            r == self@.id,
            r != 0,
    {
        proof {
            use_type_invariant(&self.buffer);
        }
        self.buffer.id
    }

    /// The number of whole records uploaded last.
    pub fn len(&self) -> (r: usize)
        ensures
            r == self@.content.len() / (self@.record_words as nat),
    {
        proof {
            use_type_invariant(&self.buffer);
        }
        self.buffer.len / self.buffer.record_words
    }

    /// Unbinds the array-buffer point, then gives the buffer object back to
    /// the driver.
    pub fn release(self, ctx: &mut Context)
        ensures
            final(ctx).queued() == old(ctx).queued().push(
                Command::BindBuffer { target: Target::ArrayBuffer, buffer: 0 },
            ).push(Command::DeleteBuffer { buffer: self@.id }),
            final(ctx).bindings() == bound_buffer(old(ctx).bindings(), Target::ArrayBuffer, 0, 0),
    {
        self.buffer.release(ctx, Target::ArrayBuffer);
    }
}

impl Ibo {
    pub closed spec fn view(&self) -> BufferModel {
        self.buffer.model(Target::ElementArrayBuffer)
    }

    /// Takes ownership of the buffer object `id` that the driver generated.
    /// There is none to own when `id` is 0.
    pub fn generate(id: u32) -> (r: Option<Ibo>)
        ensures
            id == 0 <==> r is None,
            r matches Some(b) ==> b@ == (BufferModel {
                id,
                target: Target::ElementArrayBuffer,
                record_words: 1,
                content: Seq::empty(),
            }),
    {
        match Buffer::generate(id, 1) {
            Some(buffer) => Some(Ibo { buffer }),
            None => None,
        }
    }

    /// Binds the buffer and replaces its whole contents with the indices
    /// `data`.
    pub fn set(&mut self, ctx: &mut Context, data: Vec<u32>)
        ensures
            final(self)@ == upload_model(old(self)@, data@),
            final(ctx).queued() == old(ctx).queued().push(
                Command::BindBuffer { target: Target::ElementArrayBuffer, buffer: old(self)@.id },
            ).push(Command::BufferData { target: Target::ElementArrayBuffer, data }),
            final(ctx).bindings() == bound_buffer(
                old(ctx).bindings(),
                Target::ElementArrayBuffer,
                old(self)@.id,
                1,
            ),
    {
        proof {
            use_type_invariant(&self.buffer);
        }
        self.buffer.upload(ctx, Target::ElementArrayBuffer, data);
    }

    /// The driver's identifier of the buffer object, never 0.
    pub fn id(&self) -> (r: u32)
        ensures
            r == self@.id,
            r != 0,
    {
        proof {
            use_type_invariant(&self.buffer);
        }
        self.buffer.id
    }

    /// The number of indices uploaded last.
    pub fn len(&self) -> (r: usize)
        ensures
            r == self@.content.len(),
    {
        proof {
            use_type_invariant(&self.buffer);
        }
        self.buffer.len
    }

    /// Queues a draw of triangles over every index of the buffer, read as
    /// 32-bit unsigned integers.
    pub fn draw(&self, ctx: &mut Context)
        ensures
            final(ctx).queued() == old(ctx).queued().push(
                Command::DrawElements {
                    count: self@.content.len() as usize,
                    index_type: ComponentType::UnsignedInt,
                },
            ),
            final(ctx).bindings() == old(ctx).bindings(),
    {
        proof {
            use_type_invariant(&self.buffer);
        }
        ctx.push(Command::DrawElements { count: self.buffer.len, index_type: ComponentType::UnsignedInt });
    }

    /// Unbinds the element-array-buffer point, then gives the buffer object
    /// back to the driver.
    pub fn release(self, ctx: &mut Context)
        ensures
            final(ctx).queued() == old(ctx).queued().push(
                Command::BindBuffer { target: Target::ElementArrayBuffer, buffer: 0 },
            ).push(Command::DeleteBuffer { buffer: self@.id }),
            final(ctx).bindings() == bound_buffer(
                old(ctx).bindings(),
                Target::ElementArrayBuffer,
                0,
                0,
            ),
    {
        self.buffer.release(ctx, Target::ElementArrayBuffer);
    }
}

} // verus!
