//! The sprite batch engine.
//!
//! A [`SpriteBatch`] collects draw instances for one frame and, when drawn,
//! is consumed and turned into a [`FramePlan`]: the serialized vertex and
//! index streams plus the coalesced draw calls. Walking the instances in
//! submission order, a maximal run of consecutive instances sharing one
//! (image, color) key becomes a single draw call over the run's index
//! range; order across differing instances is never changed, because alpha
//! blending is not commutative. An instance whose image is not ready is
//! skipped (its run emits no call) and counted in the metrics, never an
//! error: a missing texture must not abort the frame.

use vstd::prelude::*;
use vstd::string::StringExecFns;
use crate::buffer::{bytes_encode_shorts, bytes_encode_words, DynamicBuffer};
use crate::color::Color;
use crate::error::ShaderError;
use crate::images::{Image, Images};
use crate::metrics::Metrics;
use crate::rectangle::Rectangle;
use crate::shader::ShaderBindings;

verus! {

/// One submitted draw request: a region of an image, a target region in
/// normalized device space, and a tint.
#[derive(Debug, Copy, Clone, Eq, PartialEq, Structural)]
pub struct SpriteInstance {
    pub sprite: Image,
    pub source: Rectangle,
    pub target: Rectangle,
    pub color: Color,
}

/// Two instances coalesce into one draw call exactly when they reference
/// the same image with the same tint.
pub open spec fn same_key(a: SpriteInstance, b: SpriteInstance) -> bool {
    a.sprite == b.sprite && a.color == b.color
}

/// The bit patterns of one vertex: position `x, y` and texture
/// coordinates `u, v`, each the IEEE-754 encoding of the coordinate.
#[derive(Debug, Copy, Clone, Eq, PartialEq, Structural)]
pub struct VertexBits {
    pub x: u32,
    pub y: u32,
    pub u: u32,
    pub v: u32,
}

/// The four corner vertices of one quad, in push order.
#[derive(Debug, Copy, Clone, Eq, PartialEq, Structural)]
pub struct QuadBits {
    pub a: VertexBits,
    pub b: VertexBits,
    pub c: VertexBits,
    pub d: VertexBits,
}

/// The sixteen coordinate words of a quad, in the order they enter the
/// vertex stream.
pub open spec fn quad_words(q: QuadBits) -> Seq<u32> {
    seq![
        q.a.x, q.a.y, q.a.u, q.a.v,
        q.b.x, q.b.y, q.b.u, q.b.v,
        q.c.x, q.c.y, q.c.u, q.c.v,
        q.d.x, q.d.y, q.d.u, q.d.v,
    ]
}

/// The vertex stream of a whole frame: the quads' words, concatenated in
/// submission order.
pub open spec fn flat_quad_words(g: Seq<QuadBits>) -> Seq<u32>
    decreases g.len(),
{
    if g.len() == 0 {
        Seq::empty()
    } else {
        flat_quad_words(g.drop_last()) + quad_words(g.last())
    }
}

/// The six indices of quad `i`: two triangles `(a, b, c)` and `(a, c, d)`
/// over the quad's four vertices.
pub open spec fn quad_run_indices(i: int) -> Seq<u16> {
    seq![
        (4 * i) as u16,
        (4 * i + 1) as u16,
        (4 * i + 2) as u16,
        (4 * i) as u16,
        (4 * i + 2) as u16,
        (4 * i + 3) as u16,
    ]
}

/// The index stream of a frame of `n` quads, in submission order.
pub open spec fn quad_index_stream(n: int) -> Seq<u16>
    decreases n,
{
    if n <= 0 {
        Seq::empty()
    } else {
        quad_index_stream(n - 1) + quad_run_indices(n - 1)
    }
}

/// The index stream of `n` quads holds six indices per quad.
pub proof fn lemma_quad_index_stream_len(n: int)
    requires
        n >= 0,
    ensures
        quad_index_stream(n).len() == 6 * n,
    decreases n,
{
    if n > 0 {
        lemma_quad_index_stream_len(n - 1);
    }
}

/// One draw call of a frame plan: bind `texture`, set the `color` uniform,
/// and draw `index_count` indices starting at `first_index` in the shared
/// index buffer.
#[derive(Debug, Copy, Clone, Eq, PartialEq, Structural)]
pub struct DrawCall {
    pub texture: u32,
    pub color: Color,
    pub first_index: usize,
    pub index_count: usize,
}

/// Everything one frame hands to the GPU: the serialized vertex and index
/// streams and the draw calls over them, in emission order.
pub struct FramePlan {
    pub index_count: usize,
    pub vertex_bytes: Vec<u8>,
    pub index_bytes: Vec<u8>,
    pub calls: Vec<DrawCall>,
}

/// A maximal stretch of consecutive instances sharing one key: `len`
/// instances starting at `start`.
pub ghost struct Run {
    pub start: int,
    pub len: int,
}

/// The run decomposition of an instance sequence: consecutive instances
/// with equal keys grouped into maximal runs, in submission order.
pub open spec fn runs(s: Seq<SpriteInstance>) -> Seq<Run>
    decreases s.len(),
{
    if s.len() == 0 {
        Seq::empty()
    } else {
        let prefix = runs(s.drop_last());
        if s.len() == 1 || !same_key(s[s.len() - 2], s[s.len() - 1]) {
            prefix.push(Run { start: s.len() - 1, len: 1 })
        } else {
            prefix.update(
                prefix.len() - 1,
                Run { start: prefix.last().start, len: prefix.last().len + 1 },
            )
        }
    }
}

/// Structural facts about a run decomposition: the runs tile the sequence
/// from front to back without gaps, keys are constant within a run, and
/// adjacent runs carry different keys.
pub open spec fn runs_wf(s: Seq<SpriteInstance>) -> bool {
    let rs = runs(s);
    &&& rs.len() <= s.len()
    &&& (s.len() > 0 ==> rs.len() > 0 && rs[0].start == 0
        && rs[rs.len() - 1].start + rs[rs.len() - 1].len == s.len())
    &&& (s.len() == 0 ==> rs.len() == 0)
    &&& (forall|j: int|
        0 <= j < rs.len()
            ==> 1 <= #[trigger] rs[j].len && 0 <= rs[j].start
                && rs[j].start + rs[j].len <= s.len())
    &&& (forall|j: int|
        1 <= j < rs.len() ==> #[trigger] rs[j].start == rs[j - 1].start + rs[j - 1].len)
    &&& (forall|j: int, i: int|
        0 <= j < rs.len() && rs[j].start <= i < rs[j].start + rs[j].len
            ==> #[trigger] same_key(s[i], s[rs[j].start]))
    &&& (forall|j: int|
        1 <= j < rs.len() ==> !same_key(s[#[trigger] rs[j].start - 1], s[rs[j].start]))
}

/// Every instance sequence has a well-formed run decomposition.
#[verifier::rlimit(60)]
pub proof fn lemma_runs_wf(s: Seq<SpriteInstance>)
    ensures
        runs_wf(s),
    decreases s.len(),
{
    if s.len() > 0 {
        lemma_runs_wf(s.drop_last());
        let p = s.drop_last();
        let prefix = runs(p);
        let rs = runs(s);
        if s.len() == 1 || !same_key(s[s.len() - 2], s[s.len() - 1]) {
            assert(rs =~= prefix.push(Run { start: s.len() - 1, len: 1 }));
            assert forall|j: int, i: int|
                0 <= j < rs.len() && rs[j].start <= i < rs[j].start + rs[j].len
                implies same_key(s[i], s[rs[j].start]) by {
                if j < prefix.len() {
                    assert(same_key(p[i], p[rs[j].start]));
                }
            };
            assert forall|j: int| 1 <= j < rs.len()
                implies !same_key(s[rs[j].start - 1], s[rs[j].start]) by {
                if j < prefix.len() {
                    assert(rs[j] == prefix[j]);
                    assert(prefix[j].start == prefix[j - 1].start + prefix[j - 1].len);
                    assert(prefix[j - 1].len >= 1);
                    assert(prefix[j].start >= 1);
                    assert(prefix[j].len >= 1);
                    assert(prefix[j].start + prefix[j].len <= p.len());
                    assert(!same_key(p[prefix[j].start - 1], p[prefix[j].start]));
                    assert(s[prefix[j].start - 1] == p[prefix[j].start - 1]);
                    assert(s[prefix[j].start] == p[prefix[j].start]);
                }
            };
        } else {
            let last = prefix[prefix.len() - 1];
            let extended = Run { start: last.start, len: last.len + 1 };
            assert(rs =~= prefix.update(prefix.len() - 1, extended));
            assert forall|j: int, i: int|
                0 <= j < rs.len() && rs[j].start <= i < rs[j].start + rs[j].len
                implies same_key(s[i], s[rs[j].start]) by {
                if j < rs.len() - 1 {
                    assert(same_key(p[i], p[rs[j].start]));
                } else {
                    if i < s.len() - 1 {
                        assert(same_key(p[i], p[last.start]));
                    } else {
                        assert(same_key(p[s.len() - 2], p[last.start]));
                        assert(same_key(s[s.len() - 2], s[s.len() - 1]));
                    }
                }
            };
            assert forall|j: int| 1 <= j < rs.len()
                implies !same_key(s[rs[j].start - 1], s[rs[j].start]) by {
                assert(rs[j].start == prefix[j].start);
                assert(prefix[j].start == prefix[j - 1].start + prefix[j - 1].len);
                assert(prefix[j - 1].len >= 1);
                assert(prefix[j].start >= 1);
                assert(prefix[j].len >= 1);
                assert(prefix[j].start + prefix[j].len <= p.len());
                assert(!same_key(p[prefix[j].start - 1], p[prefix[j].start]));
                assert(s[prefix[j].start - 1] == p[prefix[j].start - 1]);
                assert(s[prefix[j].start] == p[prefix[j].start]);
            };
        }
    }
}

/// The draw calls emitted for a list of runs: one call per run whose image
/// has a texture, covering the run's index range; runs of unready images
/// emit nothing.
pub open spec fn calls_from_runs(
    s: Seq<SpriteInstance>,
    images: Images,
    rs: Seq<Run>,
) -> Seq<DrawCall>
    decreases rs.len(),
{
    if rs.len() == 0 {
        Seq::empty()
    } else {
        let prefix = calls_from_runs(s, images, rs.drop_last());
        let r = rs.last();
        match images.spec_texture(s[r.start].sprite) {
            Some(texture) => prefix.push(
                DrawCall {
                    texture,
                    color: s[r.start].color,
                    first_index: (6 * r.start) as usize,
                    index_count: (6 * r.len) as usize,
                },
            ),
            None => prefix,
        }
    }
}

/// The draw calls the batched mode emits for an instance sequence:
/// [`calls_from_runs`] over its run decomposition.
pub open spec fn spec_batched_calls(s: Seq<SpriteInstance>, images: Images) -> Seq<DrawCall> {
    calls_from_runs(s, images, runs(s))
}

/// The draw calls the brute-force mode emits: one call of six indices per
/// instance whose image has a texture, in submission order.
pub open spec fn spec_brute_calls(s: Seq<SpriteInstance>, images: Images) -> Seq<DrawCall>
    decreases s.len(),
{
    if s.len() == 0 {
        Seq::empty()
    } else {
        let prefix = spec_brute_calls(s.drop_last(), images);
        match images.spec_texture(s.last().sprite) {
            Some(texture) => prefix.push(
                DrawCall {
                    texture,
                    color: s.last().color,
                    first_index: (6 * (s.len() - 1)) as usize,
                    index_count: 6,
                },
            ),
            None => prefix,
        }
    }
}

/// How many instances reference an image with no texture yet; those are
/// the instances a frame skips.
pub open spec fn spec_unresolved_count(s: Seq<SpriteInstance>, images: Images) -> int
    decreases s.len(),
{
    if s.len() == 0 {
        0
    } else {
        spec_unresolved_count(s.drop_last(), images)
            + if images.spec_texture(s.last().sprite) is Some { 0int } else { 1int }
    }
}

/// The skip count never exceeds the instance count.
pub proof fn lemma_unresolved_count_bound(s: Seq<SpriteInstance>, images: Images)
    ensures
        0 <= spec_unresolved_count(s, images) <= s.len(),
    decreases s.len(),
{
    if s.len() > 0 {
        lemma_unresolved_count_bound(s.drop_last(), images);
    }
}

/// No more calls than runs.
pub proof fn lemma_calls_from_runs_bound(s: Seq<SpriteInstance>, images: Images, rs: Seq<Run>)
    ensures
        calls_from_runs(s, images, rs).len() <= rs.len(),
    decreases rs.len(),
{
    if rs.len() > 0 {
        lemma_calls_from_runs_bound(s, images, rs.drop_last());
    }
}

/// No more brute-force calls than instances.
pub proof fn lemma_brute_calls_bound(s: Seq<SpriteInstance>, images: Images)
    ensures
        spec_brute_calls(s, images).len() <= s.len(),
    decreases s.len(),
{
    if s.len() > 0 {
        lemma_brute_calls_bound(s.drop_last(), images);
    }
}

/// The run decomposition of a single instance is the single run of
/// length one.
proof fn lemma_runs_single_element(s: Seq<SpriteInstance>)
    requires
        s.len() == 1,
    ensures
        runs(s) == seq![Run { start: 0, len: 1 }],
{
    assert(s.drop_last() =~= Seq::<SpriteInstance>::empty());
    assert(runs(s.drop_last()) == Seq::<Run>::empty());
    assert(runs(s) =~= Seq::<Run>::empty().push(Run { start: 0, len: 1 }));
    assert(Seq::<Run>::empty().push(Run { start: 0, len: 1 })
        =~= seq![Run { start: 0, len: 1 }]);
}

/// With every referenced image ready, the calls of a run list map the
/// runs one-to-one: call `j` covers exactly run `j`'s index range and
/// carries the run's texture and color.
proof fn lemma_calls_all_resolved(s: Seq<SpriteInstance>, images: Images, rs: Seq<Run>)
    requires
        forall|i: int|
            0 <= i < s.len() ==> images.spec_texture(#[trigger] s[i].sprite) is Some,
        forall|j: int| 0 <= j < rs.len() ==> 0 <= #[trigger] rs[j].start < s.len(),
    ensures
        calls_from_runs(s, images, rs).len() == rs.len(),
        forall|j: int|
            0 <= j < rs.len() ==> {
                let c = #[trigger] calls_from_runs(s, images, rs)[j];
                &&& c.first_index == (6 * rs[j].start) as usize
                &&& c.index_count == (6 * rs[j].len) as usize
                &&& Some(c.texture) == images.spec_texture(s[rs[j].start].sprite)
                &&& c.color == s[rs[j].start].color
            },
    decreases rs.len(),
{
    if rs.len() > 0 {
        lemma_calls_all_resolved(s, images, rs.drop_last());
        let prefix = calls_from_runs(s, images, rs.drop_last());
        let whole = calls_from_runs(s, images, rs);
        assert(s[rs.last().start].sprite == s[rs[rs.len() - 1].start].sprite);
        assert(images.spec_texture(s[rs.last().start].sprite) is Some);
        assert forall|j: int| 0 <= j < rs.len() implies {
            let c = #[trigger] calls_from_runs(s, images, rs)[j];
            &&& c.first_index == (6 * rs[j].start) as usize
            &&& c.index_count == (6 * rs[j].len) as usize
            &&& Some(c.texture) == images.spec_texture(s[rs[j].start].sprite)
            &&& c.color == s[rs[j].start].color
        } by {
            if j < rs.len() - 1 {
                assert(whole[j] == prefix[j]);
                assert(rs.drop_last()[j] == rs[j]);
            }
        };
    }
}

/// Order preservation: with every image ready, the batched draw calls'
/// index ranges, in emission order, tile the index stream contiguously
/// from zero — their concatenation reproduces the original submission
/// order exactly.
#[verifier::rlimit(100)]
#[verifier::spinoff_prover]
pub proof fn lemma_order_preservation(s: Seq<SpriteInstance>, images: Images)
    requires
        s.len() <= 16384,
        forall|i: int|
            0 <= i < s.len() ==> images.spec_texture(#[trigger] s[i].sprite) is Some,
    ensures
        spec_batched_calls(s, images).len() == runs(s).len(),
        s.len() == 0 ==> spec_batched_calls(s, images).len() == 0,
        s.len() > 0 ==> spec_batched_calls(s, images)[0].first_index == 0,
        forall|j: int|
            1 <= j < spec_batched_calls(s, images).len()
                ==> (#[trigger] spec_batched_calls(s, images)[j]).first_index
                    == spec_batched_calls(s, images)[j - 1].first_index
                        + spec_batched_calls(s, images)[j - 1].index_count,
        s.len() > 0 ==> spec_batched_calls(s, images).last().first_index
            + spec_batched_calls(s, images).last().index_count == 6 * s.len(),
{
    lemma_runs_wf(s);
    lemma_calls_all_resolved(s, images, runs(s));
    let rs = runs(s);
    let cs = spec_batched_calls(s, images);
    assert forall|j: int| 1 <= j < cs.len()
        implies (#[trigger] cs[j]).first_index
            == cs[j - 1].first_index + cs[j - 1].index_count by {
        assert(cs[j].first_index == (6 * rs[j].start) as usize);
        assert(cs[j - 1].first_index == (6 * rs[j - 1].start) as usize);
        assert(cs[j - 1].index_count == (6 * rs[j - 1].len) as usize);
        assert(rs[j].start == rs[j - 1].start + rs[j - 1].len);
        assert(0 <= rs[j - 1].start && rs[j - 1].len >= 1);
        assert(rs[j].start + rs[j].len <= s.len());
        assert(rs[j - 1].start + rs[j - 1].len <= s.len());
        assert(0 <= 6 * rs[j].start <= 98304);
        assert(0 <= 6 * rs[j - 1].start <= 98304);
        assert(0 <= 6 * rs[j - 1].len <= 98304);
    };
    if s.len() > 0 {
        let j = cs.len() - 1;
        assert(cs[j].first_index == (6 * rs[j].start) as usize);
        assert(cs[j].index_count == (6 * rs[j].len) as usize);
        assert(rs[j].start + rs[j].len == s.len());
    }
}

/// Calls emitted for a tiling run list stay in range order: each call's
/// range ends no later than the next one begins, and every range ends
/// within the last run.
proof fn lemma_calls_ordered(s: Seq<SpriteInstance>, images: Images, rs: Seq<Run>)
    requires
        s.len() <= 16384,
        forall|j: int|
            0 <= j < rs.len()
                ==> 1 <= #[trigger] rs[j].len && 0 <= rs[j].start
                    && rs[j].start + rs[j].len <= s.len(),
        forall|j: int|
            1 <= j < rs.len() ==> #[trigger] rs[j].start == rs[j - 1].start + rs[j - 1].len,
    ensures
        forall|j: int, k: int|
            0 <= j < k < calls_from_runs(s, images, rs).len()
                ==> (#[trigger] calls_from_runs(s, images, rs)[j]).first_index
                    + calls_from_runs(s, images, rs)[j].index_count
                    <= (#[trigger] calls_from_runs(s, images, rs)[k]).first_index,
        rs.len() > 0 ==> forall|j: int|
            0 <= j < calls_from_runs(s, images, rs).len()
                ==> (#[trigger] calls_from_runs(s, images, rs)[j]).first_index
                    + calls_from_runs(s, images, rs)[j].index_count
                    <= 6 * (rs[rs.len() - 1].start + rs[rs.len() - 1].len),
    decreases rs.len(),
{
    if rs.len() > 0 {
        let prefix_runs = rs.drop_last();
        assert forall|j: int| 1 <= j < prefix_runs.len()
            implies #[trigger] prefix_runs[j].start
                == prefix_runs[j - 1].start + prefix_runs[j - 1].len by {
            assert(rs[j].start == rs[j - 1].start + rs[j - 1].len);
        };
        lemma_calls_ordered(s, images, prefix_runs);
        let prefix = calls_from_runs(s, images, prefix_runs);
        let whole = calls_from_runs(s, images, rs);
        let r = rs[rs.len() - 1];
        assert(0 <= 6 * r.start && 6 * (r.start + r.len) <= 98304);
        if rs.len() >= 2 {
            assert(r.start == rs[rs.len() - 2].start + rs[rs.len() - 2].len);
            assert(prefix_runs[prefix_runs.len() - 1] == rs[rs.len() - 2]);
        }
        assert forall|j: int| 0 <= j < whole.len()
            implies (#[trigger] whole[j]).first_index + whole[j].index_count
                <= 6 * (r.start + r.len) by {
            if j < prefix.len() {
                assert(whole[j] == prefix[j]);
                if prefix_runs.len() > 0 {
                    let last_prefix = prefix_runs[prefix_runs.len() - 1];
                    assert(prefix[j].first_index + prefix[j].index_count
                        <= 6 * (last_prefix.start + last_prefix.len));
                }
            }
        };
        assert forall|j: int, k: int| 0 <= j < k < whole.len()
            implies (#[trigger] whole[j]).first_index + whole[j].index_count
                <= (#[trigger] whole[k]).first_index by {
            if k < prefix.len() {
                assert(whole[j] == prefix[j] && whole[k] == prefix[k]);
            } else {
                assert(whole[j] == prefix[j]);
                if prefix_runs.len() > 0 {
                    let last_prefix = prefix_runs[prefix_runs.len() - 1];
                    assert(prefix[j].first_index + prefix[j].index_count
                        <= 6 * (last_prefix.start + last_prefix.len));
                }
                assert(whole[k].first_index == (6 * r.start) as usize);
            }
        };
    }
}

/// Order preservation holds whatever is ready: even when runs of unready
/// images emit no call, the emitted calls' index ranges stay disjoint and
/// in ascending submission order — grouping never reorders across a
/// differing instance.
pub proof fn lemma_batched_calls_never_reorder(s: Seq<SpriteInstance>, images: Images)
    requires
        s.len() <= 16384,
    ensures
        forall|j: int, k: int|
            0 <= j < k < spec_batched_calls(s, images).len()
                ==> (#[trigger] spec_batched_calls(s, images)[j]).first_index
                    + spec_batched_calls(s, images)[j].index_count
                    <= (#[trigger] spec_batched_calls(s, images)[k]).first_index,
{
    lemma_runs_wf(s);
    lemma_calls_ordered(s, images, runs(s));
}

/// With all instances sharing one key, the decomposition is a single run.
proof fn lemma_runs_uniform(s: Seq<SpriteInstance>)
    requires
        s.len() > 0,
        forall|i: int| 0 <= i < s.len() ==> same_key(#[trigger] s[i], s[0]),
    ensures
        runs(s) == seq![Run { start: 0, len: s.len() as int }],
    decreases s.len(),
{
    if s.len() == 1 {
        lemma_runs_single_element(s);
    } else {
        let p = s.drop_last();
        assert forall|i: int| 0 <= i < p.len() implies same_key(p[i], p[0]) by {
            assert(same_key(s[i], s[0]));
        };
        lemma_runs_uniform(p);
        assert(same_key(s[s.len() - 2], s[0]) && same_key(s[s.len() - 1], s[0]));
        assert(same_key(s[s.len() - 2], s[s.len() - 1]));
        assert(runs(s) =~= seq![Run { start: 0, len: s.len() as int }]);
    }
}

/// Coalescing, uniform case: when all instances share one (image, color)
/// key and that image is ready, exactly one draw call is emitted and it
/// covers all `6 * N` indices.
pub proof fn lemma_coalesce_uniform(s: Seq<SpriteInstance>, images: Images)
    requires
        s.len() > 0,
        s.len() <= 16384,
        forall|i: int| 0 <= i < s.len() ==> same_key(#[trigger] s[i], s[0]),
        images.spec_texture(s[0].sprite) is Some,
    ensures
        spec_batched_calls(s, images).len() == 1,
        spec_batched_calls(s, images)[0] == (DrawCall {
            texture: images.spec_texture(s[0].sprite)->0,
            color: s[0].color,
            first_index: 0,
            index_count: (6 * s.len()) as usize,
        }),
{
    lemma_runs_uniform(s);
    let rs = runs(s);
    assert(rs.drop_last() =~= Seq::<Run>::empty());
    assert(calls_from_runs(s, images, rs.drop_last()) == Seq::<DrawCall>::empty());
    assert(rs.last() == (Run { start: 0, len: s.len() as int }));
}

/// With no two consecutive instances sharing a key, every instance is its
/// own run.
proof fn lemma_runs_distinct(s: Seq<SpriteInstance>)
    requires
        forall|i: int| 1 <= i < s.len() ==> !same_key(#[trigger] s[i - 1], s[i]),
    ensures
        runs(s).len() == s.len(),
        forall|j: int| 0 <= j < s.len() ==> #[trigger] runs(s)[j] == (Run { start: j, len: 1 }),
    decreases s.len(),
{
    if s.len() > 0 {
        let p = s.drop_last();
        assert forall|i: int| 1 <= i < p.len() implies !#[trigger] same_key(p[i - 1], p[i]) by {
            assert(!same_key(s[i - 1], s[i]));
        };
        lemma_runs_distinct(p);
        if s.len() >= 2 {
            assert(!same_key(s[s.len() - 2], s[s.len() - 1]));
        }
        assert forall|j: int| 0 <= j < s.len()
            implies runs(s)[j] == (Run { start: j, len: 1 }) by {
            if j < s.len() - 1 {
                assert(runs(p)[j] == (Run { start: j, len: 1 }));
            }
        };
    }
}

/// Coalescing, distinct case: when no two consecutive instances share a
/// key and every image is ready, exactly `N` draw calls are emitted, one
/// of six indices per instance, in submission order.
pub proof fn lemma_coalesce_distinct(s: Seq<SpriteInstance>, images: Images)
    requires
        s.len() <= 16384,
        forall|i: int| 1 <= i < s.len() ==> !same_key(#[trigger] s[i - 1], s[i]),
        forall|i: int|
            0 <= i < s.len() ==> images.spec_texture(#[trigger] s[i].sprite) is Some,
    ensures
        spec_batched_calls(s, images).len() == s.len(),
        forall|j: int|
            0 <= j < s.len() ==> {
                let c = #[trigger] spec_batched_calls(s, images)[j];
                &&& c.first_index == (6 * j) as usize
                &&& c.index_count == 6
                &&& Some(c.texture) == images.spec_texture(s[j].sprite)
                &&& c.color == s[j].color
            },
{
    lemma_runs_distinct(s);
    lemma_calls_all_resolved(s, images, runs(s));
}

/// Fallback tally: appending an instance whose image is not ready adds
/// one to the skip count and nothing to the drawn count (which is the
/// instance count minus the skip count); a ready instance does the
/// opposite.
pub proof fn lemma_instance_tally(s: Seq<SpriteInstance>, images: Images, inst: SpriteInstance)
    ensures
        images.spec_texture(inst.sprite) is None
            ==> spec_unresolved_count(s.push(inst), images)
                == spec_unresolved_count(s, images) + 1,
        images.spec_texture(inst.sprite) is Some
            ==> spec_unresolved_count(s.push(inst), images) == spec_unresolved_count(s, images),
{
    assert(s.push(inst).drop_last() =~= s);
    assert(s.push(inst).last() == inst);
}

/// Nothing is skipped exactly when every referenced image is ready.
pub proof fn lemma_no_skips_iff_all_ready(s: Seq<SpriteInstance>, images: Images)
    ensures
        spec_unresolved_count(s, images) == 0 <==> (forall|i: int|
            0 <= i < s.len() ==> images.spec_texture(#[trigger] s[i].sprite) is Some),
    decreases s.len(),
{
    if s.len() > 0 {
        lemma_no_skips_iff_all_ready(s.drop_last(), images);
        lemma_unresolved_count_bound(s.drop_last(), images);
        let p = s.drop_last();
        if spec_unresolved_count(s, images) == 0 {
            assert forall|i: int| 0 <= i < s.len()
                implies images.spec_texture(s[i].sprite) is Some by {
                if i < s.len() - 1 {
                    assert(images.spec_texture(p[i].sprite) is Some);
                } else {
                    assert(images.spec_texture(s.last().sprite) is Some);
                }
            };
        } else {
            if forall|i: int|
                0 <= i < s.len() ==> images.spec_texture(#[trigger] s[i].sprite) is Some {
                assert forall|i: int| 0 <= i < p.len()
                    implies images.spec_texture(p[i].sprite) is Some by {
                    assert(images.spec_texture(s[i].sprite) is Some);
                };
                assert(images.spec_texture(s.last().sprite) is Some);
                assert(spec_unresolved_count(s, images) == 0);
            }
        }
    }
}

/// Counts the instances whose image has no texture yet.
fn count_unresolved(instances: &Vec<SpriteInstance>, images: &Images) -> (count: usize)
    requires
        images.wf(),
    ensures
        count == spec_unresolved_count(instances@, *images),
        count <= instances@.len(),
{
    let ghost s = instances@;
    let mut count: usize = 0;
    let mut i: usize = 0;
    while i < instances.len()
        invariant
            images.wf(),
            s == instances@,
            i <= s.len(),
            count <= i,
            count == spec_unresolved_count(s.take(i as int), *images),
        decreases s.len() - i,
    {
        if images.find_texture(instances[i].sprite).is_none() {
            count = count + 1;
        }
        proof {
            assert(s.take(i + 1).drop_last() =~= s.take(i as int));
            assert(s.take(i + 1).last() == s[i as int]);
        }
        i = i + 1;
    }
    proof {
        assert(s.take(s.len() as int) =~= s);
    }
    count
}

/// Emits one draw call of six indices per instance whose image is ready:
/// the brute-force reference mode, no coalescing.
fn brute_calls(instances: &Vec<SpriteInstance>, images: &Images) -> (calls: Vec<DrawCall>)
    requires
        images.wf(),
        instances@.len() <= 16384,
    ensures
        calls@ == spec_brute_calls(instances@, *images),
{
    let ghost s = instances@;
    let mut calls: Vec<DrawCall> = Vec::new();
    let mut i: usize = 0;
    while i < instances.len()
        invariant
            images.wf(),
            s == instances@,
            i <= s.len(),
            s.len() <= 16384,
            calls@ == spec_brute_calls(s.take(i as int), *images),
        decreases s.len() - i,
    {
        match images.find_texture(instances[i].sprite) {
            Some(texture) => {
                calls.push(
                    DrawCall {
                        texture,
                        color: instances[i].color,
                        first_index: 6 * i,
                        index_count: 6,
                    },
                );
            },
            None => {},
        }
        proof {
            assert(s.take(i + 1).drop_last() =~= s.take(i as int));
            assert(s.take(i + 1).last() == s[i as int]);
        }
        i = i + 1;
    }
    proof {
        assert(s.take(s.len() as int) =~= s);
    }
    calls
}

/// Walks the instances in submission order, coalescing each maximal run of
/// consecutive equal-key instances into one draw call; a run whose image
/// is not ready emits no call. Grouping only ever merges adjacent equal
/// keys, so the emitted ranges keep the submission order.
fn batched_calls(instances: &Vec<SpriteInstance>, images: &Images) -> (calls: Vec<DrawCall>)
    requires
        images.wf(),
        1 <= instances@.len() <= 16384,
    ensures
        calls@ == spec_batched_calls(instances@, *images),
{
    let ghost s = instances@;
    let mut calls: Vec<DrawCall> = Vec::new();
    let mut run_start: usize = 0;
    let mut i: usize = 1;
    proof {
        lemma_runs_single_element(s.take(1));
    }
    while i < instances.len()
        invariant
            images.wf(),
            s == instances@,
            1 <= s.len() <= 16384,
            1 <= i <= s.len(),
            run_start < i,
            runs(s.take(i as int)).len() >= 1,
            runs(s.take(i as int)).last()
                == (Run { start: run_start as int, len: i - run_start }),
            calls@ == calls_from_runs(s, *images, runs(s.take(i as int)).drop_last()),
        decreases s.len() - i,
    {
        let ghost prefix_runs = runs(s.take(i as int));
        let same = instances[i - 1].sprite == instances[i].sprite
            && instances[i - 1].color == instances[i].color;
        proof {
            assert(s.take(i + 1).drop_last() =~= s.take(i as int));
            assert(s.take(i + 1)[i as int] == s[i as int]);
            assert(s.take(i + 1)[i - 1] == s[i - 1]);
            assert(same == same_key(s[i - 1], s[i as int]));
        }
        if !same {
            // the current run is maximal: flush it as one draw call
            match images.find_texture(instances[run_start].sprite) {
                Some(texture) => {
                    calls.push(
                        DrawCall {
                            texture,
                            color: instances[run_start].color,
                            first_index: 6 * run_start,
                            index_count: 6 * (i - run_start),
                        },
                    );
                },
                None => {},
            }
            proof {
                let new_runs = runs(s.take(i + 1));
                assert(new_runs =~= prefix_runs.push(Run { start: i as int, len: 1 }));
                assert(new_runs.drop_last() =~= prefix_runs);
                assert(prefix_runs.last()
                    == (Run { start: run_start as int, len: i - run_start }));
                assert(calls@ == calls_from_runs(s, *images, new_runs.drop_last()));
            }
            run_start = i;
        } else {
            proof {
                let last = prefix_runs.last();
                let extended = Run { start: last.start, len: last.len + 1 };
                let new_runs = runs(s.take(i + 1));
                assert(new_runs
                    =~= prefix_runs.update(prefix_runs.len() - 1, extended));
                assert(new_runs.drop_last() =~= prefix_runs.drop_last());
                assert(new_runs.last() == (Run { start: run_start as int, len: i + 1 - run_start }));
            }
        }
        i = i + 1;
    }
    // flush the final run
    match images.find_texture(instances[run_start].sprite) {
        Some(texture) => {
            calls.push(
                DrawCall {
                    texture,
                    color: instances[run_start].color,
                    first_index: 6 * run_start,
                    index_count: 6 * (instances.len() - run_start),
                },
            );
        },
        None => {},
    }
    proof {
        assert(s.take(s.len() as int) =~= s);
        assert(runs(s).last() == (Run { start: run_start as int, len: s.len() - run_start }));
        assert(runs(s).drop_last().push(runs(s).last()) =~= runs(s));
        assert(calls@ == calls_from_runs(s, *images, runs(s)));
    }
    calls
}

/// Packs one quad per instance into a fresh dynamic buffer: four vertices
/// and six indices per quad, in submission order.
fn pack_geometry(geometry: &Vec<QuadBits>) -> (buffer: DynamicBuffer)
    requires
        geometry@.len() <= 16384,
    ensures
        buffer.wf(),
        buffer.spec_vertex_words() == flat_quad_words(geometry@),
        buffer.spec_indices() == quad_index_stream(geometry@.len() as int),
        buffer.spec_vertex_count() == 4 * geometry@.len(),
{
    let ghost g = geometry@;
    let mut buffer = DynamicBuffer::new();
    let mut i: usize = 0;
    while i < geometry.len()
        invariant
            g == geometry@,
            i <= g.len(),
            g.len() <= 16384,
            buffer.wf(),
            buffer.spec_vertex_count() == 4 * i,
            buffer.spec_vertex_words() == flat_quad_words(g.take(i as int)),
            buffer.spec_indices() == quad_index_stream(i as int),
        decreases g.len() - i,
    {
        let q = geometry[i];
        let a = buffer.push_vertex(q.a.x, q.a.y, q.a.u, q.a.v);
        let b = buffer.push_vertex(q.b.x, q.b.y, q.b.u, q.b.v);
        let c = buffer.push_vertex(q.c.x, q.c.y, q.c.u, q.c.v);
        let d = buffer.push_vertex(q.d.x, q.d.y, q.d.u, q.d.v);
        buffer.push_quad(a, b, c, d);
        proof {
            assert(g.take(i + 1).drop_last() =~= g.take(i as int));
            assert(g.take(i + 1).last() == g[i as int]);
            assert(buffer.spec_vertex_words()
                =~= flat_quad_words(g.take(i as int)) + quad_words(g[i as int]));
            assert(buffer.spec_indices()
                =~= quad_index_stream(i as int) + quad_run_indices(i as int));
        }
        i = i + 1;
    }
    proof {
        assert(g.take(g.len() as int) =~= g);
    }
    buffer
}

/// The ordered draw instances collected for one frame, together with the
/// mode flag selecting the batched or the brute-force draw path.
pub struct SpriteBatch {
    instances: Vec<SpriteInstance>,
    brute_force: bool,
}

/// What a successful draw of a nonempty batch hands back: the serialized
/// streams of the submitted geometry and the draw calls of the selected
/// mode.
pub open spec fn spec_plan_ok(
    s: Seq<SpriteInstance>,
    brute_force: bool,
    images: Images,
    geometry: Seq<QuadBits>,
    plan: FramePlan,
) -> bool {
    &&& plan.index_count == 6 * s.len()
    &&& bytes_encode_words(plan.vertex_bytes@, flat_quad_words(geometry))
    &&& bytes_encode_shorts(plan.index_bytes@, quad_index_stream(s.len() as int))
    &&& plan.calls@ == if brute_force {
        spec_brute_calls(s, images)
    } else {
        spec_batched_calls(s, images)
    }
}

impl SpriteBatch {
    /// The submitted instances, in submission order.
    pub closed spec fn view(self) -> Seq<SpriteInstance> {
        self.instances@
    }

    /// Whether this batch draws one call per instance instead of
    /// coalescing.
    pub closed spec fn spec_brute_force(self) -> bool {
        self.brute_force
    }

    /// Creates an empty batch in the coalescing mode.
    pub fn new() -> (batch: SpriteBatch)
        ensures
            batch.view() == Seq::<SpriteInstance>::empty(),
            !batch.spec_brute_force(),
    {
        SpriteBatch { instances: Vec::new(), brute_force: false }
    }

    /// Selects between the coalescing mode and the brute-force reference
    /// mode (one draw call per instance, kept as a debug path). Both
    /// modes produce the same pixels; they differ only in how many draw
    /// calls cover the shared index stream.
    pub fn set_brute_force(&mut self, brute_force: bool)
        ensures
            final(self).view() == old(self).view(),
            final(self).spec_brute_force() == brute_force,
    {
        self.brute_force = brute_force;
    }

    /// Appends one draw instance; no GPU interaction happens here.
    pub fn draw_sprite(&mut self, sprite: Image, source: Rectangle, target: Rectangle, color: Color)
        ensures
            final(self).view() == old(self).view().push(
                SpriteInstance { sprite, source, target, color },
            ),
            final(self).spec_brute_force() == old(self).spec_brute_force(),
    {
        self.instances.push(SpriteInstance { sprite, source, target, color });
    }

    /// The number of instances submitted so far.
    pub fn len(&self) -> (n: usize)
        ensures
            n == self.view().len(),
    {
        self.instances.len()
    }

    /// The instance at position `index`.
    pub fn instance_at(&self, index: usize) -> (instance: SpriteInstance)
        requires
            index < self.view().len(),
        ensures
            instance == self.view()[index as int],
    {
        self.instances[index]
    }

    /// Consumes the batch and plans the frame.
    ///
    /// An empty batch succeeds with no plan: no buffer is built and no
    /// draw call is emitted. Otherwise the shader must expose the
    /// `"position"` attribute and the `"color"` and `"sprite"` uniforms,
    /// or the draw fails without planning anything. On success the plan
    /// carries the serialized vertex and index streams of `geometry` (one
    /// quad per instance, submission order) and the draw calls of the
    /// selected mode, and the metrics are charged: one draw call per
    /// emitted call, one skipped sprite per instance whose image has no
    /// texture, one drawn sprite per remaining instance.
    pub fn draw(
        self,
        images: &Images,
        shader: &ShaderBindings,
        geometry: &Vec<QuadBits>,
        metrics: &mut Metrics,
    ) -> (r: Result<Option<FramePlan>, ShaderError>)
        requires
            images.wf(),
            geometry@.len() == self.view().len(),
            self.view().len() <= 16384,
            old(metrics).spec_draw_calls() + self.view().len() <= usize::MAX,
            old(metrics).spec_sprites_drawn() + self.view().len() <= usize::MAX,
            old(metrics).spec_sprites_skipped() + self.view().len() <= usize::MAX,
        ensures
            self.view().len() == 0 ==> r == Ok::<Option<FramePlan>, ShaderError>(None)
                && *final(metrics) == *old(metrics),
            self.view().len() > 0 ==> {
                &&& (r is Err <==> !shader.spec_complete())
                &&& shader.position_attribute is None ==> (r matches Err(e)
                    && e is AttributeNotFound && e->AttributeNotFound_0@ == "position"@)
                &&& shader.position_attribute is Some && shader.color_uniform is None
                    ==> (r matches Err(e) && e is UniformNotFound
                        && e->UniformNotFound_0@ == "color"@)
                &&& shader.position_attribute is Some && shader.color_uniform is Some
                    && shader.sprite_uniform is None ==> (r matches Err(e)
                    && e is UniformNotFound && e->UniformNotFound_0@ == "sprite"@)
                &&& shader.spec_complete() ==> (r matches Ok(p) && p matches Some(plan)
                    && spec_plan_ok(
                        self.view(),
                        self.spec_brute_force(),
                        *images,
                        geometry@,
                        plan,
                    )
                    && final(metrics).spec_draw_calls()
                        == old(metrics).spec_draw_calls() + plan.calls@.len()
                    && final(metrics).spec_sprites_skipped()
                        == old(metrics).spec_sprites_skipped()
                            + spec_unresolved_count(self.view(), *images)
                    && final(metrics).spec_sprites_drawn()
                        == old(metrics).spec_sprites_drawn() + self.view().len()
                            - spec_unresolved_count(self.view(), *images)
                    && final(metrics).spec_ticks() == old(metrics).spec_ticks())
            },
            r is Err ==> *final(metrics) == *old(metrics),
    {
        if self.instances.len() == 0 {
            return Ok(None);
        }
        if shader.position_attribute.is_none() {
            return Err(ShaderError::AttributeNotFound(String::from_str("position")));
        }
        if shader.color_uniform.is_none() {
            return Err(ShaderError::UniformNotFound(String::from_str("color")));
        }
        if shader.sprite_uniform.is_none() {
            return Err(ShaderError::UniformNotFound(String::from_str("sprite")));
        }
        let buffer = pack_geometry(geometry);
        proof {
            lemma_quad_index_stream_len(self.view().len() as int);
        }
        let (index_count, vertex_bytes, index_bytes) = buffer.build();
        let calls = if self.brute_force {
            proof {
                lemma_brute_calls_bound(self.instances@, *images);
            }
            brute_calls(&self.instances, images)
        } else {
            proof {
                lemma_runs_wf(self.instances@);
                lemma_calls_from_runs_bound(self.instances@, *images, runs(self.instances@));
            }
            batched_calls(&self.instances, images)
        };
        let skipped = count_unresolved(&self.instances, images);
        metrics.add_draw_calls(calls.len());
        metrics.add_sprites_drawn(self.instances.len() - skipped);
        metrics.add_sprites_skipped(skipped);
        Ok(Some(FramePlan { index_count, vertex_bytes, index_bytes, calls }))
    }
}

} // verus!
