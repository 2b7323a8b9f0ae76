use vstd::prelude::*;

use crate::context::ComponentType;

verus! {

/// One attribute slot of a vertex layout.
#[derive(Clone, Copy, Debug, PartialEq, Eq, Structural)]
pub struct Attribute {
    pub slot: u32,
    pub components: u32,
    pub component_type: ComponentType,
    pub normalized: bool,
    /// The byte offset of the field within the record.
    pub offset: usize,
}

/// How the records of a vertex buffer are read: the record size in bytes
/// and one entry per attribute slot.
#[derive(Debug)]
pub struct Layout {
    pub stride: usize,
    pub attributes: Vec<Attribute>,
}

/// The byte offset of field `i` of a record whose fields are, in order,
/// `fields[0]`, `fields[1]`, ... 32-bit floats each, with no padding (every
/// field is aligned to 4 bytes already).
pub open spec fn field_offset(fields: Seq<u32>, i: int) -> int
    decreases i,
{
    if i <= 0 {
        0
    } else {
        field_offset(fields, i - 1) + 4 * fields[i - 1]
    }
}

/// The size in bytes of such a record.
pub open spec fn record_size(fields: Seq<u32>) -> int {
    field_offset(fields, fields.len() as int)
}

/// The vertex record: a 2D position, an RGB color and a 2D texture
/// coordinate.
pub open spec fn vertex_fields() -> Seq<u32> {
    seq![2, 3, 2]
}

/// The layout describes the record `fields` exactly: one float attribute
/// per field, in slot order, at the field's true offset, with the record's
/// true size as stride.
pub open spec fn describes(stride: usize, attributes: Seq<Attribute>, fields: Seq<u32>) -> bool {
    &&& stride == record_size(fields)
    &&& attributes.len() == fields.len()
    &&& forall|i: int|
        0 <= i < fields.len() ==> attributes[i] == (Attribute {
            slot: i as u32,
            components: fields[i],
            component_type: ComponentType::Float,
            normalized: false,
            offset: field_offset(fields, i) as usize,
        })
}

/// In a record of float fields laid out in order, each field starts where
/// the one before it ends and lies wholly inside the record, so no two
/// fields overlap.
pub proof fn lemma_fields_fit(fields: Seq<u32>, i: int)
    requires
        0 <= i < fields.len(),
    ensures
        field_offset(fields, i + 1) == field_offset(fields, i) + 4 * fields[i],
        0 <= field_offset(fields, i),
        field_offset(fields, i) + 4 * fields[i] <= record_size(fields),
    decreases fields.len() - i,
{
    lemma_offsets_grow(fields, i);
    lemma_offsets_grow(fields, i + 1);
    if i + 1 < fields.len() {
        lemma_fields_fit(fields, i + 1);
    }
}

proof fn lemma_offsets_grow(fields: Seq<u32>, i: int)
    ensures
        0 <= field_offset(fields, i),
    decreases i,
{
    if i > 0 {
        lemma_offsets_grow(fields, i - 1);
    }
}

impl Layout {
    /// The layout of the vertex record, written out by hand.
    pub fn vertex() -> (r: Layout)
        ensures
            describes(r.stride, r.attributes@, vertex_fields()),
    {
        let attributes = vec![
            Attribute {
                slot: 0,
                components: 2,
                component_type: ComponentType::Float,
                normalized: false,
                offset: 0,
            },
            Attribute {
                slot: 1,
                components: 3,
                component_type: ComponentType::Float,
                normalized: false,
                offset: 8,
            },
            Attribute {
                slot: 2,
                components: 2,
                component_type: ComponentType::Float,
                normalized: false,
                offset: 20,
            },
        ];
        proof {
            reveal_with_fuel(field_offset, 4);
        }
        Layout { stride: 28, attributes }
    }
}

} // verus!
