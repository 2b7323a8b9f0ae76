use vstd::prelude::*;

use crate::context::{Bindings, Command, Context};
use crate::layout::{Attribute, Layout};

verus! {

/// Why a layout was not configured.
#[derive(Clone, Copy, Debug, PartialEq, Eq, Structural)]
pub enum LayoutError {
    /// No vertex buffer is bound, so the layout would describe nothing.
    NoVertexBuffer,
    /// The layout's stride is not the record size of the bound vertex
    /// buffer.
    StrideMismatch { stride: usize, record_words: usize },
}

/// A vertex array object of the driver, owned by this value.
#[derive(Debug)]
pub struct Vao {
    id: u32,
}

/// The two calls that register one attribute against the bound vertex
/// buffer.
pub open spec fn attribute_pair(a: Attribute, stride: usize) -> Seq<Command> {
    seq![
        Command::EnableVertexAttribArray { slot: a.slot },
        Command::VertexAttribPointer {
            slot: a.slot,
            components: a.components,
            component_type: a.component_type,
            normalized: a.normalized,
            stride,
            offset: a.offset,
        },
    ]
}

/// The calls that register every attribute, in order.
pub open spec fn attribute_commands(attributes: Seq<Attribute>, stride: usize) -> Seq<Command>
    decreases attributes.len(),
{
    if attributes.len() == 0 {
        Seq::empty()
    } else {
        attribute_commands(attributes.drop_last(), stride) + attribute_pair(
            attributes.last(),
            stride,
        )
    }
}

/// Whether a stride in bytes is the size of records of `record_words` words.
pub open spec fn stride_fits(stride: usize, record_words: usize) -> bool {
    stride == 4 * record_words
}

impl Vao {
    #[verifier::type_invariant]
    spec fn inv(&self) -> bool {
        self.id != 0
    }

    pub closed spec fn spec_id(&self) -> u32 {
        self.id
    }

    /// Takes ownership of the vertex array object `id` that the driver
    /// generated. There is none to own when `id` is 0.
    pub fn generate(id: u32) -> (r: Option<Vao>)
        ensures
            id == 0 <==> r is None,
            r matches Some(v) ==> v.spec_id() == id,
    {
        if id == 0 {
            None
        } else {
            Some(Vao { id })
        }
    }

    /// The driver's identifier of the vertex array object, never 0.
    pub fn id(&self) -> (r: u32)
        ensures
            r == self.spec_id(),
            r != 0,
    {
        proof {
            use_type_invariant(self);
        }
        self.id
    }

    /// Binds the vertex array and registers every attribute of `layout`
    /// against the vertex buffer that is bound. Nothing is queued when no
    /// vertex buffer is bound, or when the layout's stride is not that
    /// buffer's record size.
    pub fn set(&self, ctx: &mut Context, layout: &Layout) -> (r: Result<(), LayoutError>)
        ensures
            old(ctx).bindings().array_buffer == 0 ==> r == Err::<(), _>(
                LayoutError::NoVertexBuffer,
            ),
            old(ctx).bindings().array_buffer != 0 && !stride_fits(
                layout.stride,
                old(ctx).bindings().array_record_words,
            ) ==> r == Err::<(), _>(
                LayoutError::StrideMismatch {
                    stride: layout.stride,
                    record_words: old(ctx).bindings().array_record_words,
                },
            ),
            r is Err ==> final(ctx).queued() == old(ctx).queued() && final(ctx).bindings()
                == old(ctx).bindings(),
            old(ctx).bindings().array_buffer != 0 && stride_fits(
                layout.stride,
                old(ctx).bindings().array_record_words,
            ) ==> r is Ok,
            r is Ok ==> final(ctx).queued() == old(ctx).queued().push(
                Command::BindVertexArray { vertex_array: self.spec_id() },
            ) + attribute_commands(layout.attributes@, layout.stride) && final(ctx).bindings()
                == (Bindings { vertex_array: self.spec_id(), ..old(ctx).bindings() }),
    {
        if ctx.current_array_buffer() == 0 {
            return Err(LayoutError::NoVertexBuffer);
        }
        let record_words = ctx.current_array_record_words();
        if layout.stride % 4 != 0 || layout.stride / 4 != record_words {
            return Err(LayoutError::StrideMismatch { stride: layout.stride, record_words });
        }
        ctx.bind_vertex_array(self.id);
        let ghost start = ctx.queued();
        let ghost bindings = ctx.bindings();
        let mut i: usize = 0;
        while i < layout.attributes.len()
            invariant
                i <= layout.attributes@.len(),
                ctx.queued() == start + attribute_commands(
                    layout.attributes@.take(i as int),
                    layout.stride,
                ),
                ctx.bindings() == bindings,
            decreases layout.attributes@.len() - i,
        {
            let a = layout.attributes[i];
            ctx.push(Command::EnableVertexAttribArray { slot: a.slot });
            ctx.push(
                Command::VertexAttribPointer {
                    slot: a.slot,
                    components: a.components,
                    component_type: a.component_type,
                    normalized: a.normalized,
                    stride: layout.stride,
                    offset: a.offset,
                },
            );
            i = i + 1;
            assert(layout.attributes@.take(i as int).drop_last() =~= layout.attributes@.take(
                i - 1,
            ));
        }
        assert(layout.attributes@.take(i as int) =~= layout.attributes@);
        Ok(())
    }

    /// Unbinds the vertex array point, then gives the vertex array object
    /// back to the driver.
    pub fn release(self, ctx: &mut Context)
        ensures
            final(ctx).queued() == old(ctx).queued().push(
                Command::BindVertexArray { vertex_array: 0 },
            ).push(Command::DeleteVertexArray { vertex_array: self.spec_id() }),
            final(ctx).bindings() == (Bindings { vertex_array: 0, ..old(ctx).bindings() }),
    {
        ctx.bind_vertex_array(0);
        ctx.push(Command::DeleteVertexArray { vertex_array: self.id });
    }
}

} // verus!
