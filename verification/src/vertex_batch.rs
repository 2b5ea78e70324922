//! The dynamic vertex-buffer builder: a runtime-declared vertex format
//! (an ordered, fixed-capacity list of named attributes) over a
//! growable client-side buffer, with begin / attribute-write /
//! vertex-emit / end sessions that batch many small meshes into one
//! draw call each.
//!
//! Scalars in the buffer are plain integers in 16.16 fixed point: the
//! unverified shell converts each to the 32-bit float `value / 65536`
//! when it hands the buffer to the driver. The builder itself never
//! computes on scalars — it only places them — so its contracts are
//! entirely about layout: which slot of the buffer each written value
//! occupies.

use vstd::prelude::*;

verus! {

/// Most attributes one format can declare (a fixed-capacity arena, so
/// attribute handles are stable indices into it).
pub const MAX_FORMAT_ATTRIBUTES: usize = 16;

/// Scalar type of one attribute component. Only 32-bit floats are
/// supported by the conversion the shell applies.
#[derive(Clone, Copy, Debug, PartialEq, Eq, Structural)]
pub enum VertCompType {
    F32,
}

/// How the driver is told to fetch components: as raw floats, or as
/// integers normalized to the unit interval. Only raw floats are
/// exercised by the draw pipeline.
#[derive(Clone, Copy, Debug, PartialEq, Eq, Structural)]
pub enum VertFetchMode {
    Float,
    NormalizedInt,
}

/// Primitive topology of a batch.
#[derive(Clone, Copy, Debug, PartialEq, Eq, Structural)]
pub enum PrimType {
    Tris,
}

/// One named attribute of a vertex format.
pub struct AttributeDescriptor {
    pub name: String,
    pub comp_type: VertCompType,
    pub comp_count: usize,
    pub fetch_mode: VertFetchMode,
}

/// Sum of the component counts of `attrs`: how many scalars one vertex
/// occupies.
pub open spec fn stride_of(attrs: Seq<AttributeDescriptor>) -> int
    decreases attrs.len(),
{
    if attrs.len() == 0 {
        0
    } else {
        stride_of(attrs.drop_last()) + attrs.last().comp_count
    }
}

/// Every attribute has 1 to 4 components, the capacity is respected,
/// and names are pairwise distinct.
pub open spec fn format_attrs_wf(attrs: Seq<AttributeDescriptor>) -> bool {
    &&& attrs.len() <= MAX_FORMAT_ATTRIBUTES
    &&& forall|i: int| 0 <= i < attrs.len() ==> 1 <= #[trigger] attrs[i].comp_count <= 4
    &&& forall|i: int, j: int| 0 <= i < j < attrs.len() ==> attrs[i].name@ != attrs[j].name@
}

/// An ordered list of attributes with offsets assigned by cumulative
/// size in declaration order.
pub struct VertexFormat {
    pub attributes: Vec<AttributeDescriptor>,
}

impl VertexFormat {
    pub open spec fn wf(self) -> bool {
        format_attrs_wf(self.attributes@)
    }

    /// Scalars per vertex.
    pub open spec fn spec_stride(self) -> int {
        stride_of(self.attributes@)
    }

    /// First scalar slot of attribute `h` within a vertex.
    pub open spec fn spec_offset(self, h: int) -> int {
        stride_of(self.attributes@.take(h))
    }

    /// An empty format.
    pub fn new() -> (f: Self)
        ensures
            f.attributes@.len() == 0,
            f.wf(),
    {
        Self { attributes: Vec::new() }
    }

    /// Append an attribute; the returned handle is its stable index.
    /// Appending after the format is in use by a session, redeclaring a
    /// name, or overflowing the capacity are caller errors.
    pub fn add_attribute(
        &mut self,
        name: String,
        comp_type: VertCompType,
        comp_count: usize,
        fetch_mode: VertFetchMode,
    ) -> (h: usize)
        requires
            old(self).wf(),
            old(self).attributes@.len() < MAX_FORMAT_ATTRIBUTES,
            1 <= comp_count <= 4,
            forall|i: int|
                0 <= i < old(self).attributes@.len() ==> old(self).attributes@[i].name@ != name@,
        ensures
            final(self).wf(),
            h == old(self).attributes@.len(),
            final(self).attributes@ == old(self).attributes@.push(
                (AttributeDescriptor { name, comp_type, comp_count, fetch_mode }),
            ),
            final(self).spec_stride() == old(self).spec_stride() + comp_count,
            final(self).spec_offset(h as int) == old(self).spec_stride(),
    {
        let h = self.attributes.len();
        self.attributes.push(AttributeDescriptor { name, comp_type, comp_count, fetch_mode });
        proof {
            assert(self.attributes@.drop_last() =~= old(self).attributes@);
            assert(self.attributes@.take(h as int) =~= old(self).attributes@);
        }
        h
    }

    /// Scalars per vertex, as a machine integer.
    pub fn stride(&self) -> (s: usize)
        requires
            self.wf(),
        ensures
            s == self.spec_stride(),
    {
        proof {
            lemma_stride_bounds(self.attributes@);
        }
        let mut s: usize = 0;
        let mut i: usize = 0;
        while i < self.attributes.len()
            invariant
                i <= self.attributes@.len(),
                format_attrs_wf(self.attributes@),
                s == stride_of(self.attributes@.take(i as int)),
                s <= 4 * i,
            decreases self.attributes@.len() - i,
        {
            proof {
                lemma_stride_take_step(self.attributes@, i as int);
            }
            let a = &self.attributes[i];
            s = s + a.comp_count;
            i = i + 1;
        }
        proof {
            assert(self.attributes@.take(i as int) =~= self.attributes@);
        }
        s
    }

    /// First scalar slot of attribute `h` within a vertex.
    pub fn offset_of(&self, h: usize) -> (o: usize)
        requires
            self.wf(),
            h < self.attributes@.len(),
        ensures
            o == self.spec_offset(h as int),
    {
        let mut s: usize = 0;
        let mut i: usize = 0;
        while i < h
            invariant
                i <= h,
                h < self.attributes@.len(),
                format_attrs_wf(self.attributes@),
                s == stride_of(self.attributes@.take(i as int)),
                s <= 4 * i,
            decreases h - i,
        {
            proof {
                lemma_stride_take_step(self.attributes@, i as int);
            }
            let a = &self.attributes[i];
            s = s + a.comp_count;
            i = i + 1;
        }
        s
    }
}

/// Stride of a one-longer prefix: the prefix of length `i + 1` weighs
/// the prefix of length `i` plus the component count of attribute `i`.
pub proof fn lemma_stride_take_step(attrs: Seq<AttributeDescriptor>, i: int)
    requires
        0 <= i < attrs.len(),
    ensures
        stride_of(attrs.take(i + 1)) == stride_of(attrs.take(i)) + attrs[i].comp_count,
{
    assert(attrs.take(i + 1).drop_last() =~= attrs.take(i));
    assert(attrs.take(i + 1).last() == attrs[i]);
}

/// A well-formed attribute list weighs between its length and four
/// times its length.
pub proof fn lemma_stride_bounds(attrs: Seq<AttributeDescriptor>)
    requires
        forall|i: int| 0 <= i < attrs.len() ==> 1 <= #[trigger] attrs[i].comp_count <= 4,
    ensures
        attrs.len() <= stride_of(attrs) <= 4 * attrs.len(),
    decreases attrs.len(),
{
    if attrs.len() > 0 {
        lemma_stride_bounds(attrs.drop_last());
    }
}

/// Each attribute's slots lie inside the vertex: the offset is
/// non-negative and the attribute's components end at or before the
/// stride.
pub proof fn lemma_offset_in_stride(attrs: Seq<AttributeDescriptor>, h: int)
    requires
        forall|i: int| 0 <= i < attrs.len() ==> 1 <= #[trigger] attrs[i].comp_count <= 4,
        0 <= h < attrs.len(),
    ensures
        0 <= stride_of(attrs.take(h)),
        stride_of(attrs.take(h)) + attrs[h].comp_count <= stride_of(attrs),
    decreases attrs.len(),
{
    lemma_stride_bounds(attrs.take(h));
    assert(attrs.take(h).len() == h);
    lemma_stride_take_step(attrs, h);
    if h == attrs.len() - 1 {
        assert(attrs.take(h + 1) =~= attrs);
    } else {
        lemma_offset_in_stride(attrs.drop_last(), h);
        assert(attrs.drop_last().take(h) =~= attrs.take(h));
        assert(attrs.drop_last().take(h + 1) =~= attrs.take(h + 1));
        assert(attrs.drop_last()[h] == attrs[h]);
    }
}

/// One finished batch: everything the shell needs for a single buffer
/// upload plus a single draw call.
pub struct DrawCall {
    /// Primitive topology to draw with.
    pub topology: PrimType,
    /// How many vertices the buffer holds.
    pub vertex_count: usize,
    /// The vertex scalars, `vertex_count * stride` of them, vertex-major.
    pub buffer: Vec<i64>,
    /// The format the buffer is laid out by.
    pub format: VertexFormat,
    /// For each attribute of the format, the shader slot it binds to,
    /// or `None` when the shader declares no attribute of that name.
    pub binding: Vec<Option<usize>>,
}

/// The vertex-batch builder. One instance is reused frame after frame;
/// its client-side buffer grows as needed and is never shrunk by a
/// session.
pub struct VertexBatch {
    format: VertexFormat,
    buffer: Vec<i64>,
    binding: Vec<Option<usize>>,
    topology: PrimType,
    expected: usize,
    emitted: usize,
    attr_written: Vec<bool>,
    in_session: bool,
}

impl VertexBatch {
    /// The format attributes declared so far.
    pub closed spec fn spec_format(self) -> VertexFormat {
        self.format
    }

    /// Whether a begin/end session is open.
    pub closed spec fn spec_in_session(self) -> bool {
        self.in_session
    }

    /// Vertices the open session was sized for.
    pub closed spec fn spec_expected(self) -> usize {
        self.expected
    }

    /// Vertices committed so far in the open session.
    pub closed spec fn spec_emitted(self) -> usize {
        self.emitted
    }

    /// The client-side scalar buffer.
    pub closed spec fn spec_buffer(self) -> Seq<i64> {
        self.buffer@
    }

    /// Which attributes of the current vertex have been written.
    pub closed spec fn spec_attr_written(self) -> Seq<bool> {
        self.attr_written@
    }

    /// The name-resolved shader slot of each attribute.
    pub closed spec fn spec_binding(self) -> Seq<Option<usize>> {
        self.binding@
    }

    /// Topology of the open session.
    pub closed spec fn spec_topology(self) -> PrimType {
        self.topology
    }

    pub open spec fn wf(self) -> bool {
        &&& self.spec_format().wf()
        &&& self.spec_in_session() ==> {
            &&& self.spec_emitted() <= self.spec_expected()
            &&& self.spec_buffer().len() == self.spec_expected() * self.spec_format().spec_stride()
            &&& self.spec_attr_written().len() == self.spec_format().attributes@.len()
            &&& self.spec_binding().len() == self.spec_format().attributes@.len()
        }
    }

    /// A fresh builder: empty format, empty buffer, no open session.
    pub fn new() -> (b: Self)
        ensures
            b.wf(),
            !b.spec_in_session(),
            b.spec_format().attributes@.len() == 0,
    {
        Self {
            format: VertexFormat::new(),
            buffer: Vec::new(),
            binding: Vec::new(),
            topology: PrimType::Tris,
            expected: 0,
            emitted: 0,
            attr_written: Vec::new(),
            in_session: false,
        }
    }

    /// Reset the format for a new batch. Any attribute handle issued
    /// before this call is invalidated.
    pub fn clear_format(&mut self)
        requires
            !old(self).spec_in_session(),
        ensures
            final(self).wf(),
            !final(self).spec_in_session(),
            final(self).spec_format().attributes@.len() == 0,
    {
        self.format = VertexFormat::new();
    }

    /// Append an attribute to the format; see
    /// [`VertexFormat::add_attribute`].
    pub fn add_attribute(
        &mut self,
        name: String,
        comp_type: VertCompType,
        comp_count: usize,
        fetch_mode: VertFetchMode,
    ) -> (h: usize)
        requires
            !old(self).spec_in_session(),
            old(self).wf(),
            old(self).spec_format().attributes@.len() < MAX_FORMAT_ATTRIBUTES,
            1 <= comp_count <= 4,
            forall|i: int|
                0 <= i < old(self).spec_format().attributes@.len()
                    ==> old(self).spec_format().attributes@[i].name@ != name@,
        ensures
            final(self).wf(),
            !final(self).spec_in_session(),
            h == old(self).spec_format().attributes@.len(),
            final(self).spec_format().attributes@ == old(self).spec_format().attributes@.push(
                (AttributeDescriptor { name, comp_type, comp_count, fetch_mode }),
            ),
            final(self).spec_format().spec_stride() == old(self).spec_format().spec_stride()
                + comp_count,
            final(self).spec_format().spec_offset(h as int)
                == old(self).spec_format().spec_stride(),
    {
        self.format.add_attribute(name, comp_type, comp_count, fetch_mode)
    }

    /// Open a session for `vertex_count` vertices of the declared
    /// format, and resolve each attribute to the shader slot of the
    /// same name (a format attribute the shader lacks, or a shader
    /// attribute the format lacks, is simply unused — no error).
    /// Beginning with an empty format is a caller error.
    pub fn begin(&mut self, topology: PrimType, vertex_count: usize, shader_attrs: &Vec<String>)
        requires
            !old(self).spec_in_session(),
            old(self).wf(),
            old(self).spec_format().attributes@.len() > 0,
            vertex_count * old(self).spec_format().spec_stride() <= usize::MAX,
        ensures
            final(self).wf(),
            final(self).spec_in_session(),
            final(self).spec_format() == old(self).spec_format(),
            final(self).spec_topology() == topology,
            final(self).spec_expected() == vertex_count,
            final(self).spec_emitted() == 0,
            final(self).spec_buffer().len() == vertex_count * old(self).spec_format().spec_stride(),
            forall|i: int|
                0 <= i < final(self).spec_attr_written().len()
                    ==> !(final(self).spec_attr_written()[i]),
            binding_resolves(
                final(self).spec_binding(),
                old(self).spec_format().attributes@,
                shader_attrs@,
            ),
    {
        let nattrs = self.format.attributes.len();
        let stride = self.format.stride();
        let needed = vertex_count * stride;
        self.buffer.truncate(needed);
        while self.buffer.len() < needed
            invariant
                self.buffer@.len() <= needed,
                self.format == old(self).format,
                self.in_session == old(self).in_session,
            decreases needed - self.buffer@.len(),
        {
            self.buffer.push(0i64);
        }
        self.attr_written = make_bool_vec(nattrs);
        self.binding = resolve_binding(&self.format, shader_attrs);
        self.topology = topology;
        self.expected = vertex_count;
        self.emitted = 0;
        self.in_session = true;
    }

    /// Write the two components of attribute `h` for the current
    /// vertex. Does not advance the vertex cursor. Writing an attribute
    /// twice for one vertex, or past the declared vertex count, is a
    /// caller error.
    pub fn attr_2(&mut self, h: usize, v0: i64, v1: i64)
        requires
            old(self).wf(),
            old(self).spec_in_session(),
            old(self).spec_emitted() < old(self).spec_expected(),
            h < old(self).spec_format().attributes@.len(),
            old(self).spec_format().attributes@[h as int].comp_count == 2,
            !old(self).spec_attr_written()[h as int],
        ensures
            final(self).wf(),
            written_attr_state(*old(self), *final(self), h as int),
            final(self).spec_buffer() == old(self).spec_buffer().update(
                attr_slot(*old(self), h as int, 0),
                v0,
            ).update(attr_slot(*old(self), h as int, 1), v1),
    {
        let blen = self.buffer.len();
        proof {
            lemma_slot_bounds(*self, h as int);
        }
        let base = self.emitted * self.format.stride();
        let off = self.format.offset_of(h);
        self.buffer.set(base + off, v0);
        self.buffer.set(base + off + 1, v1);
        self.attr_written.set(h, true);
    }

    /// Write the four components of attribute `h` for the current
    /// vertex. Does not advance the vertex cursor.
    pub fn attr_4(&mut self, h: usize, v0: i64, v1: i64, v2: i64, v3: i64)
        requires
            old(self).wf(),
            old(self).spec_in_session(),
            old(self).spec_emitted() < old(self).spec_expected(),
            h < old(self).spec_format().attributes@.len(),
            old(self).spec_format().attributes@[h as int].comp_count == 4,
            !old(self).spec_attr_written()[h as int],
        ensures
            final(self).wf(),
            written_attr_state(*old(self), *final(self), h as int),
            final(self).spec_buffer() == old(self).spec_buffer().update(
                attr_slot(*old(self), h as int, 0),
                v0,
            ).update(attr_slot(*old(self), h as int, 1), v1).update(
                attr_slot(*old(self), h as int, 2),
                v2,
            ).update(attr_slot(*old(self), h as int, 3), v3),
    {
        let blen = self.buffer.len();
        proof {
            lemma_slot_bounds(*self, h as int);
        }
        let base = self.emitted * self.format.stride();
        let off = self.format.offset_of(h);
        self.buffer.set(base + off, v0);
        self.buffer.set(base + off + 1, v1);
        self.buffer.set(base + off + 2, v2);
        self.buffer.set(base + off + 3, v3);
        self.attr_written.set(h, true);
    }

    /// Write the two components of the position attribute `h` and
    /// commit the vertex: the cursor advances and every attribute is
    /// again unwritten. The position write is the designated commit, so
    /// every other attribute must have been written for this vertex.
    pub fn vertex_2(&mut self, h: usize, v0: i64, v1: i64)
        requires
            old(self).wf(),
            old(self).spec_in_session(),
            old(self).spec_emitted() < old(self).spec_expected(),
            h < old(self).spec_format().attributes@.len(),
            old(self).spec_format().attributes@[h as int].comp_count == 2,
            !old(self).spec_attr_written()[h as int],
            forall|j: int|
                0 <= j < old(self).spec_attr_written().len() && j != h
                    ==> old(self).spec_attr_written()[j],
        ensures
            final(self).wf(),
            final(self).spec_in_session(),
            final(self).spec_format() == old(self).spec_format(),
            final(self).spec_topology() == old(self).spec_topology(),
            final(self).spec_expected() == old(self).spec_expected(),
            final(self).spec_binding() == old(self).spec_binding(),
            final(self).spec_emitted() == old(self).spec_emitted() + 1,
            forall|j: int|
                0 <= j < final(self).spec_attr_written().len()
                    ==> !(final(self).spec_attr_written()[j]),
            final(self).spec_buffer() == old(self).spec_buffer().update(
                attr_slot(*old(self), h as int, 0),
                v0,
            ).update(attr_slot(*old(self), h as int, 1), v1),
    {
        let blen = self.buffer.len();
        proof {
            lemma_slot_bounds(*self, h as int);
        }
        let base = self.emitted * self.format.stride();
        let off = self.format.offset_of(h);
        self.buffer.set(base + off, v0);
        self.buffer.set(base + off + 1, v1);
        let mut j: usize = 0;
        while j < self.attr_written.len()
            invariant
                j <= self.attr_written@.len(),
                forall|k: int| 0 <= k < j ==> !self.attr_written@[k],
                self.format == old(self).format,
                self.buffer@ == old(self).buffer@.update(
                    attr_slot(*old(self), h as int, 0),
                    v0,
                ).update(attr_slot(*old(self), h as int, 1), v1),
                self.in_session == old(self).in_session,
                self.topology == old(self).topology,
                self.expected == old(self).expected,
                self.emitted == old(self).emitted,
                self.binding == old(self).binding,
                self.attr_written@.len() == old(self).attr_written@.len(),
            decreases self.attr_written@.len() - j,
        {
            self.attr_written.set(j, false);
            j = j + 1;
        }
        self.emitted = self.emitted + 1;
    }

    /// Close the session: hand back everything needed for one buffer
    /// upload and one draw call of the emitted vertices. The builder's
    /// own buffer is kept (and logically emptied); the format is
    /// consumed by the batch, leaving the builder with a cleared
    /// format, as a new batch must redeclare one anyway. Ending with
    /// fewer vertices than declared is a caller error.
    pub fn end(&mut self) -> (dc: DrawCall)
        requires
            old(self).wf(),
            old(self).spec_in_session(),
            old(self).spec_emitted() == old(self).spec_expected(),
        ensures
            final(self).wf(),
            !final(self).spec_in_session(),
            dc.topology == old(self).spec_topology(),
            dc.vertex_count == old(self).spec_expected(),
            dc.buffer@ == old(self).spec_buffer(),
            dc.format == old(self).spec_format(),
            dc.binding@ == old(self).spec_binding(),
    {
        let mut buffer: Vec<i64> = Vec::new();
        let mut i: usize = 0;
        let n = self.buffer.len();
        while i < n
            invariant
                i <= n,
                n == self.buffer@.len(),
                buffer@ == self.buffer@.take(i as int),
                self == old(self),
            decreases n - i,
        {
            buffer.push(self.buffer[i]);
            proof {
                assert(buffer@ =~= self.buffer@.take(i + 1));
            }
            i = i + 1;
        }
        proof {
            assert(buffer@ =~= self.buffer@);
        }
        let mut format = VertexFormat::new();
        core::mem::swap(&mut format, &mut self.format);
        let mut binding: Vec<Option<usize>> = Vec::new();
        core::mem::swap(&mut binding, &mut self.binding);
        self.in_session = false;
        DrawCall { topology: self.topology, vertex_count: self.expected, buffer, format, binding }
    }
}

/// The first scalar slot of component `k` of attribute `h` for the
/// vertex the builder is currently filling.
pub open spec fn attr_slot(b: VertexBatch, h: int, k: int) -> int {
    b.spec_emitted() * b.spec_format().spec_stride() + b.spec_format().spec_offset(h) + k
}

/// Relation between a builder before and after a non-committing
/// attribute write of attribute `h`: only that attribute's written-flag
/// and the buffer change.
pub open spec fn written_attr_state(pre: VertexBatch, post: VertexBatch, h: int) -> bool {
    &&& post.spec_in_session()
    &&& post.spec_format() == pre.spec_format()
    &&& post.spec_topology() == pre.spec_topology()
    &&& post.spec_expected() == pre.spec_expected()
    &&& post.spec_emitted() == pre.spec_emitted()
    &&& post.spec_binding() == pre.spec_binding()
    &&& post.spec_attr_written() == pre.spec_attr_written().update(h, true)
}

/// The slots of attribute `h` for the current vertex lie inside the
/// buffer.
proof fn lemma_slot_bounds(b: VertexBatch, h: int)
    requires
        b.wf(),
        b.spec_in_session(),
        b.spec_emitted() < b.spec_expected(),
        0 <= h < b.spec_format().attributes@.len(),
    ensures
        0 <= b.spec_emitted() * b.spec_format().spec_stride(),
        0 <= b.spec_format().spec_offset(h),
        b.spec_emitted() * b.spec_format().spec_stride() + b.spec_format().spec_offset(h)
            + b.spec_format().attributes@[h].comp_count <= b.spec_buffer().len(),
        b.spec_format().spec_stride() <= b.spec_buffer().len(),
{
    let e = b.spec_emitted() as int;
    let x = b.spec_expected() as int;
    let s = b.spec_format().spec_stride();
    lemma_stride_bounds(b.spec_format().attributes@);
    lemma_offset_in_stride(b.spec_format().attributes@, h);
    assert(e * s >= 0) by (nonlinear_arith)
        requires
            e >= 0 && s >= 0,
    ;
    assert(e * s + s <= x * s) by (nonlinear_arith)
        requires
            e < x && s >= 0,
    ;
    assert(s <= x * s) by (nonlinear_arith)
        requires
            x >= 1 && s >= 0,
    ;
}

/// `binding` resolves each attribute of `attrs` to the first shader
/// attribute of the same name, or to nothing when the shader has none.
pub open spec fn binding_resolves(
    binding: Seq<Option<usize>>,
    attrs: Seq<AttributeDescriptor>,
    shader: Seq<String>,
) -> bool {
    &&& binding.len() == attrs.len()
    &&& forall|i: int|
        0 <= i < attrs.len() ==> match #[trigger] binding[i] {
            Some(j) => {
                &&& j < shader.len()
                &&& shader[j as int]@ == attrs[i].name@
                &&& forall|k: int| 0 <= k < j ==> shader[k]@ != attrs[i].name@
            },
            None => forall|k: int| 0 <= k < shader.len() ==> shader[k]@ != attrs[i].name@,
        }
}

/// Resolve each format attribute to the first shader attribute slot
/// with the same name.
fn resolve_binding(format: &VertexFormat, shader_attrs: &Vec<String>) -> (binding: Vec<
    Option<usize>,
>)
    ensures
        binding_resolves(binding@, format.attributes@, shader_attrs@),
{
    let mut binding: Vec<Option<usize>> = Vec::new();
    let mut i: usize = 0;
    while i < format.attributes.len()
        invariant
            i <= format.attributes@.len(),
            binding@.len() == i,
            forall|p: int|
                0 <= p < i ==> match #[trigger] binding@[p] {
                    Some(j) => {
                        &&& j < shader_attrs@.len()
                        &&& shader_attrs@[j as int]@ == format.attributes@[p].name@
                        &&& forall|k: int|
                            0 <= k < j ==> shader_attrs@[k]@ != format.attributes@[p].name@
                    },
                    None => forall|k: int|
                        0 <= k < shader_attrs@.len() ==> shader_attrs@[k]@
                            != format.attributes@[p].name@,
                },
        decreases format.attributes@.len() - i,
    {
        let name = &format.attributes[i].name;
        let mut slot: Option<usize> = None;
        let mut j: usize = 0;
        while j < shader_attrs.len() && slot.is_none()
            invariant
                j <= shader_attrs@.len(),
                i < format.attributes@.len(),
                name@ == format.attributes@[i as int].name@,
                match slot {
                    Some(s) => {
                        &&& s < shader_attrs@.len()
                        &&& shader_attrs@[s as int]@ == name@
                        &&& forall|k: int| 0 <= k < s ==> shader_attrs@[k]@ != name@
                        &&& j == s + 1
                    },
                    None => forall|k: int| 0 <= k < j ==> shader_attrs@[k]@ != name@,
                },
            decreases shader_attrs@.len() - j,
        {
            if *name == shader_attrs[j] {
                slot = Some(j);
            }
            j = j + 1;
        }
        binding.push(slot);
        i = i + 1;
    }
    binding
}

/// A vector of `n` false flags.
fn make_bool_vec(n: usize) -> (v: Vec<bool>)
    ensures
        v@.len() == n,
        forall|i: int| 0 <= i < n ==> !v@[i],
{
    let mut v: Vec<bool> = Vec::new();
    let mut i: usize = 0;
    while i < n
        invariant
            i <= n,
            v@.len() == i,
            forall|k: int| 0 <= k < i ==> !v@[k],
        decreases n - i,
    {
        v.push(false);
        i = i + 1;
    }
    v
}

} // verus!
