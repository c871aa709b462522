//! Asset binding: texture upload planning, accessor range checks and
//! interleaving of vertex attributes, all of which fail a load as a whole.
use vstd::prelude::*;

verus! {

/// Why a document cannot be bound. Any of these fails the whole load.
#[derive(Clone, Copy, Debug, PartialEq, Eq, Structural)]
pub enum LoadError {
    /// A buffer view reaches past the end of its buffer.
    BufferViewOutOfRange,
    /// An accessor's elements reach past the end of its buffer view.
    AccessorOutOfRange,
    /// An accessor's stride is shorter than one element.
    StrideTooSmall,
    /// A material names a texture the document does not have.
    TextureOutOfRange,
}

/// What a material texture slot is bound to.
#[derive(Clone, Copy, Debug, PartialEq, Eq, Structural)]
pub enum TextureBinding {
    /// The slot is unset: the default texture stands in.
    Fallback,
    /// The uploaded texture of this source index.
    Uploaded(usize),
}

/// The uploads of a document's textures: every source texture once, in
/// source order, and what each material slot binds.
#[derive(Clone, Debug)]
pub struct TextureUploadPlan {
    pub uploads: Vec<usize>,
    pub bindings: Vec<TextureBinding>,
}

/// The binding of one slot: the fallback where unset, else its source.
pub open spec fn binding_of(slot: Option<usize>) -> TextureBinding {
    match slot {
        None => TextureBinding::Fallback,
        Some(src) => TextureBinding::Uploaded(src),
    }
}

/// Every set slot names one of `texture_count` source textures.
pub open spec fn slots_in_range(slots: Seq<Option<usize>>, texture_count: nat) -> bool {
    forall|i: int|
        0 <= i < slots.len() ==> match #[trigger] slots[i] {
            Some(src) => src < texture_count,
            None => true,
        }
}

/// Plans the texture uploads of a document with `texture_count` source
/// textures, whose material slots name a source index (`None` where unset):
/// each source is uploaded once, in index order, however many slots use it.
/// Fails where a slot names no source texture.
pub fn plan_texture_uploads(texture_count: usize, slots: &Vec<Option<usize>>) -> (r: Result<
    TextureUploadPlan,
    LoadError,
>)
    ensures
        r is Ok <==> slots_in_range(slots@, texture_count as nat),
        r is Err ==> r->Err_0 == LoadError::TextureOutOfRange,
        r matches Ok(plan) ==> {
            &&& plan.uploads@ == Seq::new(texture_count as nat, |i: int| i as usize)
            &&& plan.bindings@ == slots@.map_values(|s: Option<usize>| binding_of(s))
        },
{
    let mut bindings: Vec<TextureBinding> = Vec::new();
    let mut i: usize = 0;
    while i < slots.len()
        invariant
            i <= slots@.len(),
            slots_in_range(slots@.take(i as int), texture_count as nat),
            bindings@ == slots@.take(i as int).map_values(|s: Option<usize>| binding_of(s)),
        decreases slots@.len() - i,
    {
        let binding = match slots[i] {
            None => TextureBinding::Fallback,
            Some(src) => {
                if src >= texture_count {
                    proof {
                        assert(!slots_in_range(slots@, texture_count as nat)) by {
                            assert(slots@[i as int] == Some(src));
                        }
                    }
                    return Err(LoadError::TextureOutOfRange);
                }
                TextureBinding::Uploaded(src)
            },
        };
        bindings.push(binding);
        proof {
            assert(slots@.take(i + 1) =~= slots@.take(i as int).push(slots@[i as int]));
            assert(bindings@ =~= slots@.take(i + 1).map_values(|s: Option<usize>| binding_of(s)));
            assert forall|j: int| 0 <= j < i + 1 implies match #[trigger] slots@.take(i + 1)[j] {
                Some(src) => src < texture_count,
                None => true,
            } by {
                if j < i {
                    assert(slots@.take(i + 1)[j] == slots@.take(i as int)[j]);
                }
            }
        }
        i += 1;
    }
    proof {
        assert(slots@.take(slots@.len() as int) =~= slots@);
    }
    let mut uploads: Vec<usize> = Vec::new();
    let mut k: usize = 0;
    while k < texture_count
        invariant
            k <= texture_count,
            uploads@ == Seq::new(k as nat, |j: int| j as usize),
        decreases texture_count - k,
    {
        uploads.push(k);
        proof {
            assert(uploads@ =~= Seq::new((k + 1) as nat, |j: int| j as usize));
        }
        k += 1;
    }
    Ok(TextureUploadPlan { uploads, bindings })
}

/// Bytes an accessor of `count` elements spans: whole strides between
/// elements, one element at the end.
pub open spec fn accessor_span(count: nat, element_size: nat, stride: nat) -> nat {
    if count == 0 {
        0
    } else {
        ((count - 1) * stride + element_size) as nat
    }
}

/// The byte range `[start, end)` of an accessor's data in its buffer,
/// checked against the buffer view and the buffer.
pub fn accessor_byte_range(
    buffer_length: usize,
    view_offset: usize,
    view_length: usize,
    accessor_offset: usize,
    count: usize,
    element_size: usize,
    byte_stride: Option<usize>,
) -> (r: Result<(usize, usize), LoadError>)
    ensures
        (view_offset + view_length > buffer_length) <==> r == Err::<(usize, usize), LoadError>(
            LoadError::BufferViewOutOfRange,
        ),
        ({
            let stride = match byte_stride {
                Some(s) => s as nat,
                None => element_size as nat,
            };
            &&& r == Err::<(usize, usize), LoadError>(LoadError::StrideTooSmall) <==> (
            view_offset + view_length <= buffer_length && stride < element_size)
            &&& r == Err::<(usize, usize), LoadError>(LoadError::AccessorOutOfRange) <==> (
            view_offset + view_length <= buffer_length && stride >= element_size
                && accessor_offset + accessor_span(count as nat, element_size as nat, stride)
                > view_length)
            &&& r is Ok <==> (view_offset + view_length <= buffer_length && stride >= element_size
                && accessor_offset + accessor_span(count as nat, element_size as nat, stride)
                <= view_length)
            &&& r matches Ok((start, end)) ==> {
                &&& start == view_offset + accessor_offset
                &&& end == start + accessor_span(count as nat, element_size as nat, stride)
                &&& end <= view_offset + view_length
            }
        }),
{
    if view_offset > buffer_length || view_length > buffer_length - view_offset {
        return Err(LoadError::BufferViewOutOfRange);
    }
    let stride = match byte_stride {
        Some(s) => s,
        None => element_size,
    };
    if stride < element_size {
        return Err(LoadError::StrideTooSmall);
    }
    let span: u128 = if count == 0 {
        0
    } else {
        proof {
            assert((count - 1) * stride <= usize::MAX * usize::MAX) by (nonlinear_arith)
                requires count <= usize::MAX, stride <= usize::MAX;
        }
        (count as u128 - 1) * stride as u128 + element_size as u128
    };
    if accessor_offset as u128 + span > view_length as u128 {
        return Err(LoadError::AccessorOutOfRange);
    }
    let start = view_offset + accessor_offset;
    Ok((start, (start as u128 + span) as usize))
}

/// Every attribute stream holds `count` elements of its size.
pub open spec fn streams_fit(streams: Seq<Vec<u8>>, sizes: Seq<usize>, count: nat) -> bool {
    &&& streams.len() == sizes.len()
    &&& forall|a: int| 0 <= a < streams.len() ==> #[trigger] streams[a]@.len() == count * sizes[a]
}

/// Element `v` of attribute stream `a`.
pub open spec fn element_of(streams: Seq<Vec<u8>>, sizes: Seq<usize>, a: int, v: nat) -> Seq<u8> {
    streams[a]@.subrange(v * sizes[a], v * sizes[a] + sizes[a])
}

/// The first `n` attributes of vertex `v`, one after the other.
pub open spec fn vertex_prefix(streams: Seq<Vec<u8>>, sizes: Seq<usize>, v: nat, n: nat) -> Seq<u8>
    decreases n,
{
    if n == 0 {
        Seq::empty()
    } else {
        vertex_prefix(streams, sizes, v, (n - 1) as nat) + element_of(streams, sizes, n - 1, v)
    }
}

/// The first `n` vertices, each with all its attributes in stream order.
pub open spec fn interleaved(streams: Seq<Vec<u8>>, sizes: Seq<usize>, n: nat) -> Seq<u8>
    decreases n,
{
    if n == 0 {
        Seq::empty()
    } else {
        interleaved(streams, sizes, (n - 1) as nat) + vertex_prefix(
            streams,
            sizes,
            (n - 1) as nat,
            streams.len(),
        )
    }
}

proof fn lemma_element_in_bounds(len: int, count: int, size: int, v: int)
    requires
        len == count * size,
        0 <= v < count,
        size >= 0,
    ensures
        0 <= v * size,
        v * size + size <= len,
{
    assert(0 <= v * size) by (nonlinear_arith)
        requires v >= 0, size >= 0;
    assert(v * size + size <= count * size) by (nonlinear_arith)
        requires v < count, size >= 0;
}

/// Whether every stream holds exactly `count` elements of its size.
pub fn vertex_streams_fit(streams: &Vec<Vec<u8>>, sizes: &Vec<usize>, count: usize) -> (r: bool)
    ensures
        r == streams_fit(streams@, sizes@, count as nat),
{
    if streams.len() != sizes.len() {
        return false;
    }
    let mut a: usize = 0;
    while a < streams.len()
        invariant
            streams@.len() == sizes@.len(),
            a <= streams@.len(),
            forall|j: int| 0 <= j < a ==> #[trigger] streams@[j]@.len() == count * sizes@[j],
        decreases streams@.len() - a,
    {
        let size = sizes[a];
        proof {
            assert(count * size <= usize::MAX * usize::MAX) by (nonlinear_arith)
                requires count <= usize::MAX, size <= usize::MAX;
        }
        let expected = count as u128 * size as u128;
        if streams[a].len() as u128 != expected {
            return false;
        }
        a += 1;
    }
    true
}

/// One vertex buffer from separate attribute streams (positions, normals,
/// ...): for each vertex, its element of every stream, in stream order.
pub fn interleave_vertex_attributes(streams: &Vec<Vec<u8>>, sizes: &Vec<usize>, count: usize) -> (r:
    Vec<u8>)
    requires
        streams_fit(streams@, sizes@, count as nat),
    ensures
        r@ == interleaved(streams@, sizes@, count as nat),
{
    let mut r: Vec<u8> = Vec::new();
    let mut v: usize = 0;
    while v < count
        invariant
            streams_fit(streams@, sizes@, count as nat),
            v <= count,
            r@ == interleaved(streams@, sizes@, v as nat),
        decreases count - v,
    {
        let ghost before_vertex = r@;
        let mut a: usize = 0;
        while a < streams.len()
            invariant
                streams_fit(streams@, sizes@, count as nat),
                v < count,
                a <= streams@.len(),
                r@ == before_vertex + vertex_prefix(streams@, sizes@, v as nat, a as nat),
            decreases streams@.len() - a,
        {
            let size = sizes[a];
            let stream = &streams[a];
            let stream_len = stream.len();
            proof {
                assert(streams@[a as int]@.len() == count * sizes@[a as int]);
                lemma_element_in_bounds(stream@.len() as int, count as int, size as int, v as int);
            }
            let start = v * size;
            let ghost before_element = r@;
            let mut b: usize = 0;
            while b < size
                invariant
                    v < count,
                    b <= size,
                    start == v * size,
                    stream_len == stream@.len(),
                    start + size <= stream_len,
                    r@ == before_element + stream@.subrange(start as int, start + b),
                decreases size - b,
            {
                r.push(stream[start + b]);
                proof {
                    assert(stream@.subrange(start as int, start + b + 1) =~= stream@.subrange(
                        start as int,
                        start + b,
                    ).push(stream@[start + b]));
                }
                b += 1;
            }
            proof {
                assert(stream@.subrange(start as int, start + size) == element_of(
                    streams@,
                    sizes@,
                    a as int,
                    v as nat,
                ));
                assert(vertex_prefix(streams@, sizes@, v as nat, (a + 1) as nat) == vertex_prefix(
                    streams@,
                    sizes@,
                    v as nat,
                    a as nat,
                ) + element_of(streams@, sizes@, a as int, v as nat));
                assert(r@ =~= before_vertex + vertex_prefix(
                    streams@,
                    sizes@,
                    v as nat,
                    (a + 1) as nat,
                ));
            }
            a += 1;
        }
        v += 1;
    }
    r
}

} // verus!
