//! Vertex buffer layouts: which attributes a vertex holds, where each one
//! starts, and how the attributes are bound to a vertex array.

use crate::gl::{bool_type, float_type, int_type};
use vstd::prelude::*;

verus! {

/// The value types a shader attribute can have.
#[derive(Clone, Copy, Debug, PartialEq, Eq, Structural)]
pub enum ShaderDataType {
    Unknown,
    Float,
    Float2,
    Float3,
    Float4,
    Mat3,
    Mat4,
    Int,
    Int2,
    Int3,
    Int4,
    Bool,
}

impl ShaderDataType {
    /// Bytes one attribute of this type takes in a vertex.
    pub open spec fn spec_size(self) -> nat {
        match self {
            ShaderDataType::Float => 4,
            ShaderDataType::Float2 => 8,
            ShaderDataType::Float3 => 12,
            ShaderDataType::Float4 => 16,
            ShaderDataType::Mat3 => 36,
            ShaderDataType::Mat4 => 64,
            ShaderDataType::Int => 4,
            ShaderDataType::Int2 => 8,
            ShaderDataType::Int3 => 12,
            ShaderDataType::Int4 => 16,
            ShaderDataType::Unknown => 0,
            ShaderDataType::Bool => 0,
        }
    }

    /// Components per attribute slot: the scalars of a vector, the scalars
    /// of one column of a matrix.
    pub open spec fn spec_component_count(self) -> int {
        match self {
            ShaderDataType::Float | ShaderDataType::Int | ShaderDataType::Bool => 1,
            ShaderDataType::Float2 | ShaderDataType::Int2 => 2,
            ShaderDataType::Float3 | ShaderDataType::Int3 | ShaderDataType::Mat3 => 3,
            ShaderDataType::Float4 | ShaderDataType::Int4 | ShaderDataType::Mat4 => 4,
            ShaderDataType::Unknown => 0,
        }
    }

    /// The OpenGL enumerant of the scalar type the attribute is made of.
    pub open spec fn spec_gl_base_type(self) -> u32 {
        match self {
            ShaderDataType::Float
            | ShaderDataType::Float2
            | ShaderDataType::Float3
            | ShaderDataType::Float4
            | ShaderDataType::Mat3
            | ShaderDataType::Mat4 => 0x1406,
            ShaderDataType::Int
            | ShaderDataType::Int2
            | ShaderDataType::Int3
            | ShaderDataType::Int4 => 0x1404,
            ShaderDataType::Bool => 0x8B56,
            ShaderDataType::Unknown => 0,
        }
    }

    /// Attribute slots the type occupies: one per matrix column, else one.
    pub open spec fn spec_slot_count(self) -> nat {
        match self {
            ShaderDataType::Mat3 => 3,
            ShaderDataType::Mat4 => 4,
            ShaderDataType::Unknown => 0,
            _ => 1,
        }
    }

    pub open spec fn is_matrix(self) -> bool {
        self == ShaderDataType::Mat3 || self == ShaderDataType::Mat4
    }

    pub open spec fn is_integral(self) -> bool {
        self == ShaderDataType::Int || self == ShaderDataType::Int2 || self == ShaderDataType::Int3
            || self == ShaderDataType::Int4 || self == ShaderDataType::Bool
    }

    pub fn size(&self) -> (r: u32)
        ensures
            r == self.spec_size(),
    {
        match self {
            ShaderDataType::Float => 4,
            ShaderDataType::Float2 => 4 * 2,
            ShaderDataType::Float3 => 4 * 3,
            ShaderDataType::Float4 => 4 * 4,
            ShaderDataType::Mat3 => 4 * 3 * 3,
            ShaderDataType::Mat4 => 4 * 4 * 4,
            ShaderDataType::Int => 4,
            ShaderDataType::Int2 => 4 * 2,
            ShaderDataType::Int3 => 4 * 3,
            ShaderDataType::Int4 => 4 * 4,
            _ => 0,
        }
    }

    pub fn gl_base_type(&self) -> (r: u32)
        requires
            *self != ShaderDataType::Unknown,
        ensures
            r == self.spec_gl_base_type(),
    {
        match self {
            ShaderDataType::Float
            | ShaderDataType::Float2
            | ShaderDataType::Float3
            | ShaderDataType::Float4
            | ShaderDataType::Mat3
            | ShaderDataType::Mat4 => float_type(),
            ShaderDataType::Int
            | ShaderDataType::Int2
            | ShaderDataType::Int3
            | ShaderDataType::Int4 => int_type(),
            _ => bool_type(),
        }
    }
}

impl Default for ShaderDataType {
    fn default() -> (r: Self)
        ensures
            r == ShaderDataType::Unknown,
    {
        ShaderDataType::Unknown
    }
}

/// A buffer element as plain values.
pub struct ElementView {
    pub name: Seq<char>,
    pub dtype: ShaderDataType,
    pub size: nat,
    pub offset: nat,
    pub normalized: bool,
}

impl ElementView {
    /// The size recorded for an element is the size of its type.
    pub open spec fn wf(self) -> bool {
        self.size == self.dtype.spec_size()
    }
}

/// One named attribute of a vertex: its type, its size in bytes and the
/// byte at which it starts within the vertex.
#[derive(Debug)]
pub struct BufferElement {
    name: String,
    dtype: ShaderDataType,
    size: u32,
    offset: u32,
    normalized: bool,
}

impl View for BufferElement {
    type V = ElementView;

    closed spec fn view(&self) -> ElementView {
        ElementView {
            name: self.name@,
            dtype: self.dtype,
            size: self.size as nat,
            offset: self.offset as nat,
            normalized: self.normalized,
        }
    }
}

impl Default for BufferElement {
    fn default() -> (r: Self)
        ensures
            r@ == (ElementView {
                name: Seq::<char>::empty(),
                dtype: ShaderDataType::Unknown,
                size: 0,
                offset: 0,
                normalized: false,
            }),
    {
        BufferElement {
            name: String::new(),
            dtype: ShaderDataType::Unknown,
            size: 0,
            offset: 0,
            normalized: false,
        }
    }
}

impl BufferElement {
    /// An element of the given type, not yet placed: its offset is 0 until
    /// a builder assigns one.
    pub fn new(dtype: ShaderDataType, name: &str, normalized: bool) -> (r: Self)
        ensures
            r@ == (ElementView {
                name: name@,
                dtype,
                size: dtype.spec_size(),
                offset: 0,
                normalized,
            }),
            r@.wf(),
    {
        let size = dtype.size();
        Self { name: name.to_owned(), dtype, size, offset: 0, normalized }
    }

    pub fn name(&self) -> (r: &str)
        ensures
            r@ == self@.name,
    {
        self.name.as_str()
    }

    pub fn dtype(&self) -> (r: ShaderDataType)
        ensures
            r == self@.dtype,
    {
        self.dtype
    }

    pub fn size(&self) -> (r: u32)
        ensures
            r == self@.size,
    {
        self.size
    }

    pub fn offset(&self) -> (r: u32)
        ensures
            r == self@.offset,
    {
        self.offset
    }

    pub fn normalized(&self) -> (r: bool)
        ensures
            r == self@.normalized,
    {
        self.normalized
    }

    /// Components per attribute slot of this element.
    pub fn get_component_count(&self) -> (r: i32)
        requires
            self@.dtype != ShaderDataType::Unknown,
        ensures
            r == self@.dtype.spec_component_count(),
    {
        match self.dtype {
            ShaderDataType::Float | ShaderDataType::Int => 1,
            ShaderDataType::Float2 | ShaderDataType::Int2 => 2,
            ShaderDataType::Float3 | ShaderDataType::Int3 => 3,
            ShaderDataType::Float4 | ShaderDataType::Int4 => 4,
            ShaderDataType::Mat3 => 3,
            ShaderDataType::Mat4 => 4,
            _ => 1,
        }
    }

    /// Attribute slots this element occupies in a vertex array.
    pub fn slot_count(&self) -> (r: u32)
        ensures
            r == self@.dtype.spec_slot_count(),
    {
        match self.dtype {
            ShaderDataType::Mat3 => 3,
            ShaderDataType::Mat4 => 4,
            ShaderDataType::Unknown => 0,
            _ => 1,
        }
    }
}

/// Sum of the sizes of the elements.
pub open spec fn total_size(elements: Seq<ElementView>) -> nat
    decreases elements.len(),
{
    if elements.len() == 0 {
        0
    } else {
        total_size(elements.drop_last()) + elements.last().size
    }
}

/// Every element starts where the ones before it end.
pub open spec fn packed(elements: Seq<ElementView>) -> bool {
    forall|i: int|
        0 <= i < elements.len() ==> (#[trigger] elements[i]).wf() && elements[i].offset
            == total_size(elements.take(i))
}

/// Adding an element adds its size to the total.
pub proof fn lemma_total_size_push(elements: Seq<ElementView>, e: ElementView)
    ensures
        total_size(elements.push(e)) == total_size(elements) + e.size,
{
    assert(elements.push(e).drop_last() =~= elements);
}

/// A packed sequence stays packed when an element is appended at the
/// running total.
pub proof fn lemma_packed_push(elements: Seq<ElementView>, e: ElementView)
    requires
        packed(elements),
        e.wf(),
        e.offset == total_size(elements),
    ensures
        packed(elements.push(e)),
{
    let extended = elements.push(e);
    assert forall|i: int| 0 <= i < extended.len() implies (#[trigger] extended[i]).wf()
        && extended[i].offset == total_size(extended.take(i)) by {
        if i < elements.len() {
            assert(extended.take(i) =~= elements.take(i));
        } else {
            assert(extended.take(i) =~= elements);
        }
    }
}

/// A layout as plain values.
pub struct LayoutView {
    pub stride: nat,
    pub elements: Seq<ElementView>,
}

impl LayoutView {
    /// The stride is the sum of the element sizes, each offset is the sum
    /// of the sizes before it, and the stride fits the device's signed
    /// 32-bit parameter.
    pub open spec fn wf(self) -> bool {
        &&& packed(self.elements)
        &&& self.stride == total_size(self.elements)
        &&& self.stride <= i32::MAX
    }
}

/// In a well-formed layout the stride is the sum of the sizes of its
/// elements, and each element starts at the sum of the sizes of the
/// elements before it and ends within the stride.
pub proof fn lemma_layout_is_packed(layout: LayoutView, i: int)
    requires
        layout.wf(),
        0 <= i < layout.elements.len(),
    ensures
        layout.stride == total_size(layout.elements),
        layout.elements[i].offset == total_size(layout.elements.take(i)),
        layout.elements[i].size == layout.elements[i].dtype.spec_size(),
        layout.elements[i].offset + layout.elements[i].size <= layout.stride,
        i + 1 < layout.elements.len() ==> layout.elements[i + 1].offset == layout.elements[i].offset
            + layout.elements[i].size,
{
    let e = layout.elements[i];
    assert(e.wf());
    assert(layout.elements.take(i + 1).drop_last() =~= layout.elements.take(i));
    assert(layout.elements.take(i + 1).last() == e);
    lemma_total_size_take(layout.elements, i + 1);
    if i + 1 < layout.elements.len() {
        assert(layout.elements[i + 1].wf());
    }
}

/// The attributes of one vertex format, in order, with the bytes from one
/// vertex to the next.
#[derive(Debug)]
pub struct BufferLayout {
    stride: u32,
    elements: Vec<BufferElement>,
}

pub open spec fn element_views(elements: Seq<BufferElement>) -> Seq<ElementView> {
    elements.map_values(|e: BufferElement| e@)
}

impl View for BufferLayout {
    type V = LayoutView;

    closed spec fn view(&self) -> LayoutView {
        LayoutView { stride: self.stride as nat, elements: element_views(self.elements@) }
    }
}

impl Default for BufferLayout {
    fn default() -> (r: Self)
        ensures
            r@ == (LayoutView { stride: 0, elements: Seq::<ElementView>::empty() }),
            r@.wf(),
    {
        let r = BufferLayout { stride: 0, elements: Vec::new() };
        assert(r@.elements =~= Seq::<ElementView>::empty());
        r
    }
}

impl BufferLayout {
    pub fn stride(&self) -> (r: i32)
        requires
            self@.wf(),
        ensures
            r == self@.stride,
    {
        self.stride as i32
    }

    pub fn elements(&self) -> (r: &[BufferElement])
        ensures
            element_views(r@) == self@.elements,
    {
        self.elements.as_slice()
    }

    /// The element at `index`, counting from 0; `None` past the last one.
    /// Walking the indices upwards visits the elements in layout order.
    pub fn element_at(&self, index: usize) -> (r: Option<&BufferElement>)
        ensures
            match r {
                Some(element) => index < self@.elements.len() && element@
                    == self@.elements[index as int],
                None => index >= self@.elements.len(),
            },
    {
        if index < self.elements.len() {
            Some(&self.elements[index])
        } else {
            None
        }
    }
}

/// Collects elements in order, placing each at the end of the previous one.
pub struct BufferLayoutBuilder {
    offset: u32,
    elements: Vec<BufferElement>,
}

impl View for BufferLayoutBuilder {
    type V = LayoutView;

    /// The layout that `build` would return now.
    closed spec fn view(&self) -> LayoutView {
        LayoutView { stride: self.offset as nat, elements: element_views(self.elements@) }
    }
}

impl BufferLayoutBuilder {
    pub fn new() -> (r: Self)
        ensures
            r@.elements == Seq::<ElementView>::empty(),
            r@.stride == 0,
            r@.wf(),
    {
        let r = Self { offset: 0, elements: Vec::new() };
        assert(r@.elements =~= Seq::<ElementView>::empty());
        r
    }

    /// Appends `element` at the current end of the vertex.
    pub fn element(self, element: BufferElement) -> (r: Self)
        requires
            self@.wf(),
            element@.wf(),
            self@.stride + element@.size <= i32::MAX,
        ensures
            r@.wf(),
            r@.stride == self@.stride + element@.size,
            r@.elements == self@.elements.push(
                ElementView { offset: self@.stride, ..element@ },
            ),
    {
        let mut element = element;
        let mut this = self;
        let ghost placed = ElementView { offset: self@.stride, ..element@ };
        element.offset = this.offset;
        this.offset = this.offset + element.size;
        this.elements.push(element);
        proof {
            assert(this@.elements =~= self@.elements.push(placed));
            lemma_total_size_push(self@.elements, placed);
            lemma_packed_push(self@.elements, placed);
        }
        this
    }

    /// The finished layout: its stride is the sum of the element sizes.
    pub fn build(self) -> (r: BufferLayout)
        ensures
            r@ == self@,
    {
        BufferLayout { stride: self.offset, elements: self.elements }
    }
}

/// How the device reads an attribute: as floating-point or as integer data.
#[derive(Clone, Copy, Debug, PartialEq, Eq, Structural)]
pub enum AttributeKind {
    Float,
    Integer,
}

/// One attribute slot of a vertex array, as the device is to be told of it.
#[derive(Clone, Copy, Debug, PartialEq, Eq)]
pub struct VertexAttribute {
    pub index: u32,
    pub kind: AttributeKind,
    pub component_count: i32,
    pub base_type: u32,
    pub normalized: bool,
    pub stride: i32,
    pub offset: i32,
    /// `Some(n)`: the attribute advances once per `n` instances; `None`:
    /// once per vertex.
    pub divisor: Option<u32>,
}

/// The slot that column `column` of element `e` gets at `index`. Vectors
/// and scalars have the one column 0; a matrix column starts
/// `4 * column * components` bytes into the element.
pub open spec fn element_attribute(e: ElementView, stride: nat, index: int, column: int)
    -> VertexAttribute {
    VertexAttribute {
        index: index as u32,
        kind: if e.dtype.is_integral() {
            AttributeKind::Integer
        } else {
            AttributeKind::Float
        },
        component_count: e.dtype.spec_component_count() as i32,
        base_type: e.dtype.spec_gl_base_type(),
        normalized: !e.dtype.is_integral() && e.normalized,
        stride: stride as i32,
        offset: (e.offset + 4 * column * e.dtype.spec_component_count()) as i32,
        divisor: if e.dtype.is_matrix() {
            Some(1u32)
        } else {
            None
        },
    }
}

/// The slots of one element, starting at `first_index`.
pub open spec fn element_attributes(e: ElementView, stride: nat, first_index: int) -> Seq<
    VertexAttribute,
> {
    Seq::new(
        e.dtype.spec_slot_count(),
        |column: int| element_attribute(e, stride, first_index + column, column),
    )
}

/// Number of attribute slots the elements occupy together.
pub open spec fn slot_count(elements: Seq<ElementView>) -> nat
    decreases elements.len(),
{
    if elements.len() == 0 {
        0
    } else {
        slot_count(elements.drop_last()) + elements.last().dtype.spec_slot_count()
    }
}

/// The slots of all elements in order, numbered consecutively from
/// `first_index`.
pub open spec fn layout_attributes(elements: Seq<ElementView>, stride: nat, first_index: int)
    -> Seq<VertexAttribute>
    decreases elements.len(),
{
    if elements.len() == 0 {
        Seq::empty()
    } else {
        layout_attributes(elements.drop_last(), stride, first_index) + element_attributes(
            elements.last(),
            stride,
            first_index + slot_count(elements.drop_last()),
        )
    }
}

pub open spec fn no_unknown_type(elements: Seq<ElementView>) -> bool {
    forall|i: int|
        0 <= i < elements.len() ==> (#[trigger] elements[i]).dtype != ShaderDataType::Unknown
}

/// The slots of a layout are as many as `slot_count` says.
pub proof fn lemma_layout_attributes_len(elements: Seq<ElementView>, stride: nat, first_index: int)
    ensures
        layout_attributes(elements, stride, first_index).len() == slot_count(elements),
    decreases elements.len(),
{
    if elements.len() > 0 {
        lemma_layout_attributes_len(elements.drop_last(), stride, first_index);
    }
}

/// The total size of a prefix never exceeds that of the whole.
pub proof fn lemma_total_size_take(elements: Seq<ElementView>, i: int)
    requires
        0 <= i <= elements.len(),
    ensures
        total_size(elements.take(i)) <= total_size(elements),
    decreases elements.len(),
{
    if i == elements.len() {
        assert(elements.take(i) =~= elements);
    } else {
        lemma_total_size_take(elements.drop_last(), i);
        assert(elements.drop_last().take(i) =~= elements.take(i));
    }
}

/// The slots of a prefix are no more than those of the whole.
pub proof fn lemma_slot_count_take(elements: Seq<ElementView>, i: int)
    requires
        0 <= i <= elements.len(),
    ensures
        slot_count(elements.take(i)) <= slot_count(elements),
    decreases elements.len(),
{
    if i == elements.len() {
        assert(elements.take(i) =~= elements);
    } else {
        lemma_slot_count_take(elements.drop_last(), i);
        assert(elements.drop_last().take(i) =~= elements.take(i));
    }
}

impl BufferElement {
    /// Appends the slots of this element to `out`, numbered from `index`.
    fn push_attributes(&self, out: &mut Vec<VertexAttribute>, stride: i32, index: u32)
        requires
            self@.wf(),
            self@.dtype != ShaderDataType::Unknown,
            0 <= stride,
            self@.offset + self@.size <= i32::MAX,
            index + self@.dtype.spec_slot_count() <= u32::MAX,
        ensures
            final(out)@ == old(out)@ + element_attributes(self@, stride as nat, index as int),
    {
        let ghost e = self@;
        let ghost before = out@;
        let ghost slots = element_attributes(e, stride as nat, index as int);
        let count = self.get_component_count();
        let base_type = self.dtype.gl_base_type();
        match self.dtype {
            ShaderDataType::Mat3 | ShaderDataType::Mat4 => {
                let mut column: i32 = 0;
                while column < count
                    invariant
                        0 <= column <= count,
                        count == 3 || count == 4,
                        count == e.dtype.spec_component_count(),
                        e.dtype.is_matrix(),
                        e.dtype.spec_slot_count() == count,
                        e.size == 12 * count || e.size == 16 * count,
                        e.size == 12 * count <==> count == 3,
                        e == self@,
                        base_type == e.dtype.spec_gl_base_type(),
                        0 <= stride,
                        e.offset + e.size <= i32::MAX,
                        index + count <= u32::MAX,
                        slots == element_attributes(e, stride as nat, index as int),
                        out@ == before + slots.take(column as int),
                    decreases count - column,
                {
                    assert(4 * column * count == if count == 3 {
                        12 * column
                    } else {
                        16 * column
                    }) by (nonlinear_arith)
                        requires
                            count == 3 || count == 4,
                    ;
                    let attribute = VertexAttribute {
                        index: index + column as u32,
                        kind: AttributeKind::Float,
                        component_count: count,
                        base_type,
                        normalized: self.normalized,
                        stride,
                        offset: self.offset as i32 + 4 * column * count,
                        divisor: Some(1),
                    };
                    assert(attribute == slots[column as int]);
                    out.push(attribute);
                    column = column + 1;
                    assert(out@ =~= before + slots.take(column as int));
                }
                assert(slots.take(count as int) =~= slots);
            },
            ShaderDataType::Int
            | ShaderDataType::Int2
            | ShaderDataType::Int3
            | ShaderDataType::Int4
            | ShaderDataType::Bool => {
                let attribute = VertexAttribute {
                    index,
                    kind: AttributeKind::Integer,
                    component_count: count,
                    base_type,
                    normalized: false,
                    stride,
                    offset: self.offset as i32,
                    divisor: None,
                };
                out.push(attribute);
                assert(slots.len() == 1);
                assert(slots[0] == attribute);
                assert(out@ =~= before + slots);
            },
            _ => {
                let attribute = VertexAttribute {
                    index,
                    kind: AttributeKind::Float,
                    component_count: count,
                    base_type,
                    normalized: self.normalized,
                    stride,
                    offset: self.offset as i32,
                    divisor: None,
                };
                out.push(attribute);
                assert(slots.len() == 1);
                assert(slots[0] == attribute);
                assert(out@ =~= before + slots);
            },
        }
    }
}

impl BufferLayout {
    /// Plans the attribute slots that bind this layout to a vertex array
    /// whose next free slot is `first_index`: one slot per scalar or vector
    /// element, one per column of a matrix element.
    pub fn vertex_attributes(&self, first_index: u32) -> (r: Vec<VertexAttribute>)
        requires
            self@.wf(),
            self@.elements.len() > 0,
            no_unknown_type(self@.elements),
            first_index + slot_count(self@.elements) <= u32::MAX,
        ensures
            r@ == layout_attributes(self@.elements, self@.stride, first_index as int),
            r@.len() == slot_count(self@.elements),
    {
        let ghost views = self@.elements;
        let mut out: Vec<VertexAttribute> = Vec::new();
        let mut index: u32 = first_index;
        let n = self.elements.len();
        let stride = self.stride as i32;
        let mut i: usize = 0;
        while i < n
            invariant
                0 <= i <= n,
                n == self.elements.len(),
                views == self@.elements,
                views == element_views(self.elements@),
                self@.wf(),
                stride == self@.stride,
                no_unknown_type(views),
                first_index + slot_count(views) <= u32::MAX,
                index == first_index + slot_count(views.take(i as int)),
                out@ == layout_attributes(views.take(i as int), self@.stride, first_index as int),
            decreases n - i,
        {
            let element = &self.elements[i];
            proof {
                let e = views[i as int];
                assert(e == element@);
                assert(views.take(i + 1).drop_last() =~= views.take(i as int));
                assert(views.take(i + 1).last() == e);
                lemma_slot_count_take(views, i + 1);
                lemma_total_size_take(views, i + 1);
                assert(e.wf());
                assert(e.offset == total_size(views.take(i as int)));
                assert(total_size(views.take(i + 1)) == e.offset + e.size);
            }
            element.push_attributes(&mut out, stride, index);
            index = index + element.slot_count();
            i = i + 1;
        }
        proof {
            assert(views.take(n as int) =~= views);
            lemma_layout_attributes_len(views, self@.stride, first_index as int);
        }
        out
    }
}

} // verus!
