//! What a whole scene amounts to: however many quads are submitted between
//! `begin_scene` and `end_scene`, every one of them is uploaded and drawn,
//! in as few draw calls as the batch capacity allows.

use crate::command::{
    CommandView, draw_call_count, drawn_index_count, lemma_counts_push,
    lemma_draw_call_count_concat, lemma_drawn_index_count_concat,
    lemma_uploaded_vertex_bytes_concat, uploaded_vertex_bytes,
};
use crate::renderer::{MAX_INDICES, MAX_QUADS, RendererView, texture_binds};
use crate::vertex::{QuadVertex, VERTEX_SIZE, lemma_vertices_bytes_len, vertices_bytes};
use vstd::prelude::*;

verus! {

/// The renderer after the quads, each given by its four vertices, have
/// been submitted in order.
pub open spec fn draw_quads(v: RendererView, quads: Seq<Seq<QuadVertex>>) -> RendererView
    decreases quads.len(),
{
    if quads.len() == 0 {
        v
    } else {
        draw_quads(v, quads.drop_last()).push_quad(quads.last())
    }
}

/// Every quad has four vertices.
pub open spec fn all_quads(quads: Seq<Seq<QuadVertex>>) -> bool {
    forall|i: int| 0 <= i < quads.len() ==> (#[trigger] quads[i]).len() == 4
}

/// Batches flushed while `count` quads are submitted to a batch that
/// already holds `held`.
pub open spec fn flushes_within(held: nat, count: nat) -> nat {
    if count == 0 {
        0
    } else {
        ((held + count - 1) / (MAX_QUADS as int)) as nat
    }
}

/// Quads the batch holds after `count` quads were submitted to a batch
/// that held `held`.
pub open spec fn held_after(held: nat, count: nat) -> nat {
    if count == 0 {
        held
    } else {
        ((held + count - 1) % (MAX_QUADS as int) + 1) as nat
    }
}

/// A count that stops at the largest number it can hold.
pub open spec fn saturating_count(start: usize, more: nat) -> usize {
    if start + more <= usize::MAX {
        (start + more) as usize
    } else {
        usize::MAX
    }
}

/// `later` continues `earlier`: nothing queued is ever changed or removed.
pub open spec fn extends(later: Seq<CommandView>, earlier: Seq<CommandView>) -> bool {
    earlier.len() <= later.len() && later.take(earlier.len() as int) == earlier
}

/// Binding textures neither draws nor uploads vertices.
pub proof fn lemma_texture_binds_are_neutral(slots: Seq<u32>)
    ensures
        draw_call_count(texture_binds(slots)) == 0,
        uploaded_vertex_bytes(texture_binds(slots)) == 0,
        drawn_index_count(texture_binds(slots)) == 0,
    decreases slots.len(),
{
    if slots.len() > 0 {
        lemma_texture_binds_are_neutral(slots.drop_last());
        assert(texture_binds(slots).drop_last() =~= texture_binds(slots.drop_last()));
    }
}

/// A flush of a batch that holds something is one draw call over the
/// batch's indices, and uploads exactly the batch's vertices.
pub proof fn lemma_flush_commands(v: RendererView)
    requires
        v.wf(),
        !v.batch_is_empty(),
    ensures
        draw_call_count(v.flush_commands()) == 1,
        uploaded_vertex_bytes(v.flush_commands()) == VERTEX_SIZE * v.pending.len(),
        drawn_index_count(v.flush_commands()) == v.quad_index_count,
{
    let upload = CommandView::UploadVertices { bytes: vertices_bytes(v.pending) };
    let binds = texture_binds(v.texture_slots);
    let bound = (seq![upload] + binds).push(CommandView::BindShader);
    let draw = CommandView::DrawIndexed { index_count: v.quad_index_count as u32 };
    lemma_texture_binds_are_neutral(v.texture_slots);
    lemma_vertices_bytes_len(v.pending);
    assert(seq![upload] =~= Seq::<CommandView>::empty().push(upload));
    lemma_counts_push(Seq::empty(), upload);
    lemma_draw_call_count_concat(seq![upload], binds);
    lemma_uploaded_vertex_bytes_concat(seq![upload], binds);
    lemma_drawn_index_count_concat(seq![upload], binds);
    lemma_counts_push(seq![upload] + binds, CommandView::BindShader);
    lemma_counts_push(bound, draw);
}

/// What holds of a renderer `w` reached from `v` by submitting `count`
/// quads: the commands queued meanwhile upload and draw every quad that is
/// no longer pending, in one draw call per batch that filled up.
pub open spec fn submitted(v: RendererView, w: RendererView, count: nat) -> bool {
    let held = v.quad_index_count / 6;
    let emitted = w.commands.skip(v.commands.len() as int);
    &&& w.wf()
    &&& extends(w.commands, v.commands)
    &&& draw_call_count(emitted) == flushes_within(held, count)
    &&& uploaded_vertex_bytes(emitted) + VERTEX_SIZE * w.pending.len() == VERTEX_SIZE
        * v.pending.len() + VERTEX_SIZE * 4 * count
    &&& drawn_index_count(emitted) + w.quad_index_count == v.quad_index_count + 6 * count
    &&& w.quad_index_count == 6 * held_after(held, count)
    &&& w.stats.draw_calls == saturating_count(v.stats.draw_calls, flushes_within(held, count))
    &&& w.stats.quad_count == saturating_count(v.stats.quad_count, count)
    &&& w.texture_slots == v.texture_slots
    &&& w.camera == v.camera
}

/// One quad more: a full batch is flushed in one draw call, then the quad
/// is pending.
pub proof fn lemma_push_quad(v: RendererView, vertices: Seq<QuadVertex>)
    requires
        v.wf(),
        vertices.len() == 4,
    ensures
        submitted(v, v.push_quad(vertices), 1),
{
    let w = v.push_quad(vertices);
    let emitted = w.commands.skip(v.commands.len() as int);
    if v.quad_index_count >= MAX_INDICES {
        lemma_flush_commands(v);
        assert(w.commands == v.commands + v.flush_commands());
        assert(emitted =~= v.flush_commands());
        assert(w.commands.take(v.commands.len() as int) =~= v.commands);
    } else {
        assert(emitted =~= Seq::<CommandView>::empty());
        assert(w.commands.take(v.commands.len() as int) =~= v.commands);
    }
}

/// Submitting `first` quads and then `second` more is submitting
/// `first + second`.
pub proof fn lemma_submitted_then(
    v: RendererView,
    w: RendererView,
    x: RendererView,
    first: nat,
    second: nat,
)
    requires
        v.wf(),
        submitted(v, w, first),
        submitted(w, x, second),
    ensures
        submitted(v, x, first + second),
{
    let early = w.commands.skip(v.commands.len() as int);
    let late = x.commands.skip(w.commands.len() as int);
    let all = x.commands.skip(v.commands.len() as int);
    assert(all =~= early + late) by {
        assert(w.commands =~= x.commands.take(w.commands.len() as int));
        assert(v.commands =~= w.commands.take(v.commands.len() as int));
    }
    assert(x.commands.take(v.commands.len() as int) =~= v.commands) by {
        assert(w.commands =~= x.commands.take(w.commands.len() as int));
        assert(v.commands =~= w.commands.take(v.commands.len() as int));
    }
    lemma_draw_call_count_concat(early, late);
    lemma_uploaded_vertex_bytes_concat(early, late);
    lemma_drawn_index_count_concat(early, late);
}

/// However many quads are submitted, each is either pending or uploaded
/// and drawn, and a draw call was issued exactly each time a batch filled
/// up.
pub proof fn lemma_draw_quads(v: RendererView, quads: Seq<Seq<QuadVertex>>)
    requires
        v.wf(),
        all_quads(quads),
    ensures
        submitted(v, draw_quads(v, quads), quads.len()),
    decreases quads.len(),
{
    if quads.len() == 0 {
        assert(v.commands.skip(v.commands.len() as int) =~= Seq::<CommandView>::empty());
        assert(v.commands.take(v.commands.len() as int) =~= v.commands);
    } else {
        let w = draw_quads(v, quads.drop_last());
        lemma_draw_quads(v, quads.drop_last());
        lemma_push_quad(w, quads.last());
        lemma_submitted_then(v, w, w.push_quad(quads.last()), (quads.len() - 1) as nat, 1);
    }
}

/// A scene of any number of quads: between `begin_scene` and the end of
/// `end_scene` every quad's four vertices are uploaded and its six indices
/// drawn, in one draw call per `MAX_QUADS` quads or part thereof; so more
/// quads than one batch holds take more than one draw call, and none is
/// lost. Afterwards the batch is empty.
pub proof fn lemma_scene_draws_every_quad(
    v: RendererView,
    camera: Seq<u32>,
    quads: Seq<Seq<QuadVertex>>,
)
    requires
        v.wf(),
        camera.len() == 16,
        all_quads(quads),
    ensures
        ({
            let begun = v.begin_scene(camera);
            let ended = draw_quads(begun, quads).end_scene();
            let emitted = ended.commands.skip(begun.commands.len() as int);
            &&& ended.wf()
            &&& ended.batch_is_empty()
            &&& extends(ended.commands, begun.commands)
            &&& draw_call_count(emitted) == (quads.len() + MAX_QUADS - 1) / (MAX_QUADS as int)
            &&& quads.len() > MAX_QUADS ==> draw_call_count(emitted) > 1
            &&& uploaded_vertex_bytes(emitted) == VERTEX_SIZE * (4 * quads.len())
            &&& drawn_index_count(emitted) == 6 * quads.len()
            &&& ended.stats.draw_calls == saturating_count(
                v.stats.draw_calls,
                draw_call_count(emitted),
            )
            &&& ended.stats.quad_count == saturating_count(v.stats.quad_count, quads.len())
        }),
{
    let begun = v.begin_scene(camera);
    let drawn = draw_quads(begun, quads);
    let ended = drawn.end_scene();
    lemma_draw_quads(begun, quads);
    let early = drawn.commands.skip(begun.commands.len() as int);
    let late = ended.commands.skip(drawn.commands.len() as int);
    let emitted = ended.commands.skip(begun.commands.len() as int);
    if drawn.batch_is_empty() {
        assert(late =~= Seq::<CommandView>::empty());
    } else {
        lemma_flush_commands(drawn);
        assert(late =~= drawn.flush_commands());
    }
    assert(ended.commands =~= drawn.commands + late);
    assert(emitted =~= early + late) by {
        assert(begun.commands =~= drawn.commands.take(begun.commands.len() as int));
    }
    assert(ended.commands.take(begun.commands.len() as int) =~= begun.commands) by {
        assert(begun.commands =~= drawn.commands.take(begun.commands.len() as int));
    }
    lemma_draw_call_count_concat(early, late);
    lemma_uploaded_vertex_bytes_concat(early, late);
    lemma_drawn_index_count_concat(early, late);
}

/// Ending a scene a second time changes nothing: the batch is already
/// empty, so nothing is uploaded or drawn.
pub proof fn lemma_end_scene_is_idempotent(v: RendererView)
    ensures
        v.end_scene().end_scene() == v.end_scene(),
        v.end_scene().batch_is_empty(),
        v.end_scene().flush_commands() == Seq::<CommandView>::empty(),
{
}

/// Flushing an empty batch does nothing at all.
pub proof fn lemma_flush_of_empty_batch(v: RendererView)
    requires
        v.batch_is_empty(),
    ensures
        v.flush() == v,
        v.flush_commands() == Seq::<CommandView>::empty(),
        draw_call_count(v.flush_commands()) == 0,
{
}

} // verus!
