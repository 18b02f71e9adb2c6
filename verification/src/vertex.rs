//! Vertex layouts: the byte stride of a vertex record and, for each of its
//! fields in declaration order, the format, byte offset and shader location.

use crate::data::{Data, Format};
use vstd::prelude::*;

verus! {

/// One field of a vertex record as the pipeline sees it.
#[derive(Clone, Copy, Debug, PartialEq, Eq, Structural)]
pub struct Attribute {
    pub format: Format,
    pub offset: u64,
    pub shader_location: u32,
}

/// When a vertex stream moves on to its next record.
#[derive(Clone, Copy, Debug, PartialEq, Eq, Structural)]
pub enum StepMode {
    /// With every vertex.
    Vertex,
    /// With every instance.
    Instance,
}

/// The bytes taken by the first `n` of `formats`.
pub open spec fn prefix_size(formats: Seq<Format>, n: int) -> nat
    decreases n,
{
    if n <= 0 || n > formats.len() {
        0
    } else {
        prefix_size(formats, n - 1) + formats[n - 1].byte_size()
    }
}

/// The bytes taken by a record that holds exactly `formats`, in order and
/// without padding.
pub open spec fn record_size(formats: Seq<Format>) -> nat {
    prefix_size(formats, formats.len() as int)
}

/// The formats of `attributes`, in order.
pub open spec fn formats_of(attributes: Seq<Attribute>) -> Seq<Format> {
    Seq::new(attributes.len(), |i: int| attributes[i].format)
}

/// The attribute that the field at position `i` of a record of `formats`
/// gets: its own format, the bytes of the fields before it as offset, and its
/// position as shader location.
pub open spec fn attribute_at(formats: Seq<Format>, i: int) -> Attribute {
    Attribute {
        format: formats[i],
        offset: prefix_size(formats, i) as u64,
        shader_location: i as u32,
    }
}

/// Every attribute sits where its position among the others puts it.
pub open spec fn laid_out(attributes: Seq<Attribute>) -> bool {
    &&& attributes.len() <= u32::MAX
    &&& forall|i: int|
        0 <= i < attributes.len() ==> #[trigger] attributes[i] == attribute_at(
            formats_of(attributes),
            i,
        )
}

/// A prefix of `n` formats takes at most twelve bytes per format.
pub proof fn lemma_prefix_size_bound(formats: Seq<Format>, n: int)
    ensures
        prefix_size(formats, n) <= 12 * n || n <= 0,
        n <= 0 ==> prefix_size(formats, n) == 0,
    decreases n,
{
    if n > 0 && n <= formats.len() {
        lemma_prefix_size_bound(formats, n - 1);
    }
}

/// The size of a prefix does not depend on the formats behind it.
pub proof fn lemma_prefix_size_push(formats: Seq<Format>, format: Format, n: int)
    requires
        0 <= n <= formats.len(),
    ensures
        prefix_size(formats.push(format), n) == prefix_size(formats, n),
    decreases n,
{
    if n > 0 {
        lemma_prefix_size_push(formats, format, n - 1);
    }
}

/// In attributes that are laid out, the offset of each is the sum of the
/// sizes of those before it, its shader location is its position, and each
/// begins where the one before it ends.
pub proof fn lemma_offsets_are_prefix_sums(attributes: Seq<Attribute>, i: int)
    requires
        laid_out(attributes),
        0 <= i < attributes.len(),
    ensures
        attributes[i].offset == prefix_size(formats_of(attributes), i),
        attributes[i].shader_location == i,
        i + 1 < attributes.len() ==> attributes[i + 1].offset == attributes[i].offset
            + attributes[i].format.byte_size(),
{
    let formats = formats_of(attributes);
    lemma_prefix_size_bound(formats, i);
    if i + 1 < attributes.len() {
        lemma_prefix_size_bound(formats, i + 1);
    }
}

/// What a [`Layout`] or a [`LayoutBuilder`] holds.
pub struct LayoutView {
    pub stride: nat,
    pub attributes: Seq<Attribute>,
}

/// The stride and attributes of one vertex stream. The stream moves on
/// with every vertex.
#[derive(Debug, PartialEq, Eq)]
pub struct Layout {
    stride: u64,
    attributes: Vec<Attribute>,
}

impl View for Layout {
    type V = LayoutView;

    closed spec fn view(&self) -> LayoutView {
        LayoutView { stride: self.stride as nat, attributes: self.attributes@ }
    }
}

impl Layout {
    #[verifier::type_invariant]
    spec fn well_formed(self) -> bool {
        laid_out(self.attributes@)
    }

    /// The layout of a record that holds exactly `fields`, in order and
    /// without padding.
    pub fn from_fields(fields: &[Format]) -> (layout: Layout)
        requires
            fields@.len() <= u32::MAX,
        ensures
            layout@.stride == record_size(fields@),
            layout@.attributes.len() == fields@.len(),
            forall|i: int|
                0 <= i < fields@.len() ==> #[trigger] layout@.attributes[i] == attribute_at(
                    fields@,
                    i,
                ),
            forall|i: int|
                0 <= i < fields@.len() ==> (#[trigger] layout@.attributes[i]).offset
                    == prefix_size(fields@, i),
    {
        let mut builder = LayoutBuilder::new(0);
        let mut i: usize = 0;
        while i < fields.len()
            invariant
                i <= fields@.len() <= u32::MAX,
                builder@.attributes.len() == i,
                formats_of(builder@.attributes) == fields@.take(i as int),
                laid_out(builder@.attributes),
            decreases fields@.len() - i,
        {
            builder.field(fields[i]);
            assert(formats_of(builder@.attributes) =~= fields@.take(i as int + 1));
            i = i + 1;
        }
        let stride = builder.offset();
        assert(fields@.take(fields@.len() as int) =~= fields@);
        let layout = Layout { stride, attributes: builder.attributes };
        proof {
            assert forall|i: int| 0 <= i < fields@.len() implies (
            #[trigger] layout@.attributes[i]).offset == prefix_size(fields@, i) by {
                lemma_prefix_size_bound(fields@, i);
            }
        }
        layout
    }

    /// The bytes from one vertex to the next.
    pub fn stride(&self) -> (stride: u64)
        ensures
            stride == self@.stride,
    {
        self.stride
    }

    /// When the stream moves on to its next record: with every vertex.
    pub fn step_mode(&self) -> (mode: StepMode)
        ensures
            mode == StepMode::Vertex,
    {
        StepMode::Vertex
    }

    /// The attributes, in shader-location order.
    pub fn attributes(&self) -> (attributes: &Vec<Attribute>)
        ensures
            attributes@ == self@.attributes,
            laid_out(attributes@),
    {
        proof {
            use_type_invariant(self);
        }
        &self.attributes
    }
}

/// Collects the attributes of a vertex record field by field.
pub struct LayoutBuilder {
    stride: u64,
    attributes: Vec<Attribute>,
}

impl View for LayoutBuilder {
    type V = LayoutView;

    closed spec fn view(&self) -> LayoutView {
        LayoutView { stride: self.stride as nat, attributes: self.attributes@ }
    }
}

impl LayoutBuilder {
    #[verifier::type_invariant]
    spec fn well_formed(self) -> bool {
        laid_out(self.attributes@)
    }

    /// A builder for a record of `stride` bytes, with no fields yet.
    pub fn new(stride: u64) -> (builder: LayoutBuilder)
        ensures
            builder@.stride == stride,
            builder@.attributes == Seq::<Attribute>::empty(),
    {
        LayoutBuilder { stride, attributes: Vec::new() }
    }

    /// How many fields were declared so far.
    pub fn len(&self) -> (len: usize)
        ensures
            len == self@.attributes.len(),
    {
        self.attributes.len()
    }

    /// The bytes taken by the fields declared so far: the offset of the next.
    pub fn offset(&self) -> (offset: u64)
        ensures
            offset == record_size(formats_of(self@.attributes)),
            laid_out(self@.attributes),
    {
        proof {
            use_type_invariant(self);
            lemma_prefix_size_bound(
                formats_of(self.attributes@),
                self.attributes@.len() as int,
            );
        }
        let n = self.attributes.len();
        if n == 0 {
            0
        } else {
            let last = self.attributes[n - 1];
            proof {
                lemma_prefix_size_bound(formats_of(self.attributes@), n - 1);
            }
            last.offset + last.format.size()
        }
    }

    /// Declares the next field of the record, of type `T`. The field gets
    /// the format that `T` gives of itself.
    pub fn attribute<T: Data>(&mut self)
        requires
            old(self)@.attributes.len() < u32::MAX,
        ensures
            final(self)@.stride == old(self)@.stride,
            final(self)@.attributes.len() == old(self)@.attributes.len() + 1,
            final(self)@.attributes.drop_last() == old(self)@.attributes,
            final(self)@.attributes.last().offset == record_size(
                formats_of(old(self)@.attributes),
            ),
            final(self)@.attributes.last().shader_location == old(self)@.attributes.len(),
            laid_out(final(self)@.attributes),
    {
        self.field(T::format());
    }

    /// Declares the next field of the record, of format `format`: it lies
    /// behind the fields declared so far and gets the shader location
    /// after theirs.
    pub fn field(&mut self, format: Format)
        requires
            old(self)@.attributes.len() < u32::MAX,
        ensures
            final(self)@.stride == old(self)@.stride,
            final(self)@.attributes == old(self)@.attributes.push(
                Attribute {
                    format,
                    offset: record_size(formats_of(old(self)@.attributes)) as u64,
                    shader_location: old(self)@.attributes.len() as u32,
                },
            ),
            record_size(formats_of(old(self)@.attributes)) <= u64::MAX,
            laid_out(final(self)@.attributes),
    {
        let current_location = self.attributes.len() as u32;
        let current_offset = self.offset();
        let ghost before = self.attributes@;
        let attribute = Attribute {
            format,
            offset: current_offset,
            shader_location: current_location,
        };
        proof {
            let after = before.push(attribute);
            assert(formats_of(after) =~= formats_of(before).push(format));
            assert forall|i: int| 0 <= i < after.len() implies #[trigger] after[i] == attribute_at(
                formats_of(after),
                i,
            ) by {
                lemma_prefix_size_push(formats_of(before), format, i);
            }
        }
        let mut attributes: Vec<Attribute> = Vec::new();
        core::mem::swap(&mut self.attributes, &mut attributes);
        attributes.push(attribute);
        core::mem::swap(&mut self.attributes, &mut attributes);
    }

    /// The finished layout.
    pub fn build(self) -> (layout: Layout)
        ensures
            layout@ == self@,
    {
        proof {
            use_type_invariant(&self);
        }
        Layout { stride: self.stride, attributes: self.attributes }
    }
}

/// A record type that can be fed to a pipeline as one vertex stream.
///
/// An implementation describes the record as it lies in memory: the fields
/// in declaration order, and the size of the record as stride. Nothing
/// checks the description against the record.
pub trait Vertex {
    fn layout() -> Layout;
}

} // verus!
