//! Planning the draw calls of the immediate-mode UI: the per-list vertex and index
//! buffers are merged into one buffer each, and every draw command of every list
//! becomes one indexed draw into the merged buffers, rebinding the texture only
//! when it changes.

use vstd::prelude::*;
use crate::text::decimal;
use crate::text::format_decimal;
use crate::text::str_chars;
use crate::text::append_chars;

verus! {

/// One command of a UI draw list, with the integers the renderer reads from it.
/// The clip rectangle stays with the caller: it is only turned into a scissor.
#[derive(Clone, Copy, PartialEq, Eq, Structural, Debug)]
pub enum UiDrawCmd {
    /// Draw `count` indices starting at `idx_offset` in the list's index buffer,
    /// with indices relative to `vtx_offset` in the list's vertex buffer.
    Elements { count: usize, idx_offset: usize, vtx_offset: usize, texture_id: usize },
    /// A request to reset the render state; not supported, only reported.
    ResetRenderState,
    /// A user callback; not supported, only reported.
    RawCallback,
}

/// A UI draw list: the lengths of its vertex and index buffers and its commands.
#[derive(Clone, Debug)]
pub struct UiDrawList {
    pub vtx_len: usize,
    pub idx_len: usize,
    pub commands: Vec<UiDrawCmd>,
}

/// What the renderer does for one command of one list.
#[derive(Clone, Copy, PartialEq, Eq, Structural, Debug)]
pub enum UiDrawStep {
    /// An indexed draw of one instance into the merged buffers; `bind_texture`
    /// is the texture to bind first, if it differs from the one bound before.
    Draw {
        list: usize,
        command: usize,
        index_count: u32,
        first_index: u32,
        vertex_offset: i32,
        bind_texture: Option<usize>,
    },
    /// The command asked for a render-state reset; a warning is logged.
    SkipResetRenderState { list: usize, command: usize },
    /// The command was a raw callback; a warning is logged.
    SkipRawCallback { list: usize, command: usize },
}

/// The spec-level view of a draw list.
pub struct UiDrawListView {
    pub vtx_len: usize,
    pub idx_len: usize,
    pub commands: Seq<UiDrawCmd>,
}

impl View for UiDrawList {
    type V = UiDrawListView;

    open spec fn view(&self) -> UiDrawListView {
        UiDrawListView { vtx_len: self.vtx_len, idx_len: self.idx_len, commands: self.commands@ }
    }
}

/// The views of a sequence of draw lists.
pub open spec fn lists_view(lists: Seq<UiDrawList>) -> Seq<UiDrawListView> {
    lists.map_values(|l: UiDrawList| l@)
}

/// Where the index buffer of the list after `lists` starts in the merged index
/// buffer: the sum of the index counts, each taken as a `u32`.
pub open spec fn idx_base(lists: Seq<UiDrawListView>) -> int
    decreases lists.len(),
{
    if lists.len() == 0 { 0 } else { idx_base(lists.drop_last()) + (lists.last().idx_len as u32) }
}

/// Where the vertex buffer of the list after `lists` starts in the merged vertex
/// buffer: the sum of the vertex counts, each taken as an `i32`.
pub open spec fn vtx_base(lists: Seq<UiDrawListView>) -> int
    decreases lists.len(),
{
    if lists.len() == 0 { 0 } else { vtx_base(lists.drop_last()) + (lists.last().vtx_len as i32) }
}

/// The texture bound after the commands `cmds`, when `tex` was bound before them.
pub open spec fn tex_after(cmds: Seq<UiDrawCmd>, tex: Option<usize>) -> Option<usize>
    decreases cmds.len(),
{
    if cmds.len() == 0 {
        tex
    } else {
        match cmds.last() {
            UiDrawCmd::Elements { texture_id, .. } => Some(texture_id),
            _ => tex_after(cmds.drop_last(), tex),
        }
    }
}

/// The texture bound after all commands of all `lists`, starting with none bound.
pub open spec fn tex_after_lists(lists: Seq<UiDrawListView>) -> Option<usize>
    decreases lists.len(),
{
    if lists.len() == 0 {
        None
    } else {
        tex_after(lists.last().commands, tex_after_lists(lists.drop_last()))
    }
}

/// The step for command `j` of list `i`, given where the list's buffers start in
/// the merged buffers and which texture is bound before the command.
pub open spec fn step_of(i: nat, j: nat, cmd: UiDrawCmd, ib: int, vb: int, tex: Option<usize>) -> UiDrawStep {
    match cmd {
        UiDrawCmd::Elements { count, idx_offset, vtx_offset, texture_id } => UiDrawStep::Draw {
            list: i as usize,
            command: j as usize,
            index_count: count as u32,
            first_index: (ib + (idx_offset as u32)) as u32,
            vertex_offset: (vb + (vtx_offset as i32)) as i32,
            bind_texture: if tex == Some(texture_id) { None } else { Some(texture_id) },
        },
        UiDrawCmd::ResetRenderState => UiDrawStep::SkipResetRenderState { list: i as usize, command: j as usize },
        UiDrawCmd::RawCallback => UiDrawStep::SkipRawCallback { list: i as usize, command: j as usize },
    }
}

/// The steps for the commands `cmds` of list `i`.
pub open spec fn list_steps(i: nat, cmds: Seq<UiDrawCmd>, ib: int, vb: int, tex: Option<usize>) -> Seq<UiDrawStep>
    decreases cmds.len(),
{
    if cmds.len() == 0 {
        Seq::empty()
    } else {
        let prev = cmds.drop_last();
        list_steps(i, prev, ib, vb, tex).push(
            step_of(i, prev.len(), cmds.last(), ib, vb, tex_after(prev, tex)),
        )
    }
}

/// The steps for all commands of all `lists`, list after list, command after command.
pub open spec fn plan(lists: Seq<UiDrawListView>) -> Seq<UiDrawStep>
    decreases lists.len(),
{
    if lists.len() == 0 {
        Seq::empty()
    } else {
        let prev = lists.drop_last();
        plan(prev) + list_steps(
            prev.len(),
            lists.last().commands,
            idx_base(prev),
            vtx_base(prev),
            tex_after_lists(prev),
        )
    }
}

/// The commands of one list do not overflow the 32-bit offsets of the draw calls.
pub open spec fn cmds_fit(cmds: Seq<UiDrawCmd>, ib: int, vb: int) -> bool {
    forall|j: int|
        0 <= j < cmds.len() ==> match #[trigger] cmds[j] {
            UiDrawCmd::Elements { idx_offset, vtx_offset, .. } => {
                &&& ib + (idx_offset as u32) <= u32::MAX
                &&& i32::MIN <= vb + (vtx_offset as i32) <= i32::MAX
            },
            _ => true,
        }
}

/// No running offset and no first index or vertex offset of a draw overflows:
/// the inputs on which the merged draws can be computed at all.
pub open spec fn plan_fits(lists: Seq<UiDrawListView>) -> bool
    decreases lists.len(),
{
    if lists.len() == 0 {
        true
    } else {
        let prev = lists.drop_last();
        &&& plan_fits(prev)
        &&& cmds_fit(lists.last().commands, idx_base(prev), vtx_base(prev))
        &&& idx_base(lists) <= u32::MAX
        &&& i32::MIN <= vtx_base(lists) <= i32::MAX
    }
}

proof fn lemma_fits_prefix(lists: Seq<UiDrawListView>, i: int)
    requires
        plan_fits(lists),
        0 <= i <= lists.len(),
    ensures
        plan_fits(lists.take(i)),
        0 <= idx_base(lists.take(i)) <= u32::MAX,
        i32::MIN <= vtx_base(lists.take(i)) <= i32::MAX,
    decreases lists.len(),
{
    if i == lists.len() {
        assert(lists.take(i) == lists);
        if lists.len() > 0 {
            lemma_idx_base_nonneg(lists);
        }
    } else {
        assert(lists.take(i) == lists.drop_last().take(i));
        lemma_fits_prefix(lists.drop_last(), i);
    }
}

proof fn lemma_idx_base_nonneg(lists: Seq<UiDrawListView>)
    ensures
        idx_base(lists) >= 0,
    decreases lists.len(),
{
    if lists.len() > 0 {
        lemma_idx_base_nonneg(lists.drop_last());
    }
}

/// Whether a UI frame has anything to draw: nothing is recorded for a frame
/// without vertices.
pub fn has_ui_geometry(total_vtx_count: i32) -> (r: bool)
    ensures
        r == (total_vtx_count != 0),
{
    total_vtx_count != 0
}

/// Plans the draw calls of a UI frame: command `j` of list `i` draws `count`
/// indices starting at the list's start in the merged index buffer plus
/// `idx_offset`, with vertex offset the list's start in the merged vertex buffer
/// plus `vtx_offset`; the texture is bound before a draw only when it is not the
/// one the previous draw used; other commands are only reported.
pub fn plan_ui_draws(lists: &Vec<UiDrawList>) -> (steps: Vec<UiDrawStep>)
    requires
        plan_fits(lists_view(lists@)),
    ensures
        steps@ == plan(lists_view(lists@)),
{
    let ghost lv = lists_view(lists@);
    let mut steps: Vec<UiDrawStep> = Vec::new();
    let mut index_offset: u32 = 0;
    let mut vertex_offset: i32 = 0;
    let mut last_texture_id: Option<usize> = None;
    let mut i: usize = 0;
    while i < lists.len()
        invariant
            lv == lists_view(lists@),
            plan_fits(lv),
            i <= lists.len(),
            steps@ == plan(lv.take(i as int)),
            index_offset == idx_base(lv.take(i as int)),
            vertex_offset == vtx_base(lv.take(i as int)),
            last_texture_id == tex_after_lists(lv.take(i as int)),
        decreases lists.len() - i,
    {
        let list = &lists[i];
        let ghost prev = lv.take(i as int);
        let ghost cur = lv.take(i + 1);
        proof {
            assert(cur.drop_last() == prev);
            assert(cur.last() == list@);
            lemma_fits_prefix(lv, i + 1);
        }
        let ghost tex0 = last_texture_id;
        let ghost steps0 = steps@;
        let mut j: usize = 0;
        while j < list.commands.len()
            invariant
                lv == lists_view(lists@),
                i < lists.len(),
                list == &lists[i as int],
                prev == lv.take(i as int),
                cur == lv.take(i + 1),
                cur.drop_last() == prev,
                cur.last() == list@,
                plan_fits(cur),
                j <= list.commands.len(),
                index_offset == idx_base(prev),
                vertex_offset == vtx_base(prev),
                tex0 == tex_after_lists(prev),
                steps0 == plan(prev),
                steps@ == steps0 + list_steps(i as nat, list.commands@.take(j as int), idx_base(prev), vtx_base(prev), tex0),
                last_texture_id == tex_after(list.commands@.take(j as int), tex0),
            decreases list.commands.len() - j,
        {
            let cmd = list.commands[j];
            let ghost before = list.commands@.take(j as int);
            let ghost after = list.commands@.take(j + 1);
            proof {
                assert(after.drop_last() == before);
                assert(after.last() == cmd);
                assert(cmds_fit(list.commands@, idx_base(prev), vtx_base(prev)));
                assert(list.commands@[j as int] == cmd);
            }
            let step = match cmd {
                UiDrawCmd::Elements { count, idx_offset, vtx_offset, texture_id } => {
                    let bind = if last_texture_id == Some(texture_id) {
                        None
                    } else {
                        Some(texture_id)
                    };
                    last_texture_id = Some(texture_id);
                    UiDrawStep::Draw {
                        list: i,
                        command: j,
                        index_count: count as u32,
                        first_index: index_offset + (idx_offset as u32),
                        vertex_offset: vertex_offset + (vtx_offset as i32),
                        bind_texture: bind,
                    }
                },
                UiDrawCmd::ResetRenderState => UiDrawStep::SkipResetRenderState { list: i, command: j },
                UiDrawCmd::RawCallback => UiDrawStep::SkipRawCallback { list: i, command: j },
            };
            steps.push(step);
            j = j + 1;
            proof {
                assert(step == step_of(i as nat, before.len(), cmd, idx_base(prev), vtx_base(prev), tex_after(before, tex0)));
                assert(steps@ =~= steps0 + list_steps(i as nat, after, idx_base(prev), vtx_base(prev), tex0));
            }
        }
        proof {
            assert(list.commands@.take(j as int) == list.commands@);
            assert(steps@ =~= plan(cur));
        }
        index_offset = index_offset + (list.idx_len as u32);
        vertex_offset = vertex_offset + (list.vtx_len as i32);
        i = i + 1;
    }
    proof {
        assert(lv.take(i as int) == lv);
    }
    steps
}


/// Whether the draw calls of a UI frame can be planned: whether no running
/// offset and no first index or vertex offset of a draw overflows its 32 bits
/// (`plan_ui_draws` asks this of its input).
pub fn ui_plan_fits(lists: &Vec<UiDrawList>) -> (r: bool)
    ensures
        r == plan_fits(lists_view(lists@)),
{
    let ghost lv = lists_view(lists@);
    let mut ib: u64 = 0;
    let mut vb: i64 = 0;
    let mut i: usize = 0;
    while i < lists.len()
        invariant
            lv == lists_view(lists@),
            i <= lists.len(),
            plan_fits(lv.take(i as int)),
            ib == idx_base(lv.take(i as int)),
            vb == vtx_base(lv.take(i as int)),
            0 <= ib <= u32::MAX,
            i32::MIN <= vb <= i32::MAX,
        decreases lists.len() - i,
    {
        let list = &lists[i];
        let ghost prev = lv.take(i as int);
        let ghost cur = lv.take(i + 1);
        proof {
            assert(cur.drop_last() == prev);
            assert(cur.last() == list@);
        }
        let mut j: usize = 0;
        while j < list.commands.len()
            invariant
                lv == lists_view(lists@),
                i < lists.len(),
                list == &lists[i as int],
                prev == lv.take(i as int),
                cur == lv.take(i + 1),
                cur.drop_last() == prev,
                cur.last() == list@,
                ib == idx_base(prev),
                vb == vtx_base(prev),
                j <= list.commands.len(),
                0 <= ib <= u32::MAX,
                i32::MIN <= vb <= i32::MAX,
                cmds_fit(list.commands@.take(j as int), ib as int, vb as int),
            decreases list.commands.len() - j,
        {
            let cmd = list.commands[j];
            match cmd {
                UiDrawCmd::Elements { idx_offset, vtx_offset, .. } => {
                    let first: u64 = ib + ((idx_offset as u32) as u64);
                    let voff: i64 = vb + ((vtx_offset as i32) as i64);
                    if first > 0xffff_ffffu64 || voff < -0x8000_0000i64 || voff > 0x7fff_ffffi64 {
                        proof {
                            assert(list.commands@[j as int] == cmd);
                            assert(!cmds_fit(list.commands@, ib as int, vb as int));
                            assert(!plan_fits(cur));
                            lemma_plan_fits_prefix_false(lv, i + 1);
                        }
                        return false;
                    }
                },
                _ => {},
            }
            proof {
                assert forall|q: int| 0 <= q < j + 1 implies match #[trigger] list.commands@.take(j + 1)[q] {
                    UiDrawCmd::Elements { idx_offset, vtx_offset, .. } => {
                        &&& ib + (idx_offset as u32) <= u32::MAX
                        &&& i32::MIN <= vb + (vtx_offset as i32) <= i32::MAX
                    },
                    _ => true,
                } by {
                    if q < j {
                        assert(list.commands@.take(j + 1)[q] == list.commands@.take(j as int)[q]);
                    } else {
                        assert(list.commands@.take(j + 1)[q] == cmd);
                    }
                }
            }
            j = j + 1;
        }
        proof {
            assert(list.commands@.take(j as int) == list.commands@);
        }
        let next_ib: u64 = ib + ((list.idx_len as u32) as u64);
        let next_vb: i64 = vb + ((list.vtx_len as i32) as i64);
        if next_ib > 0xffff_ffffu64 || next_vb < -0x8000_0000i64 || next_vb > 0x7fff_ffffi64 {
            proof {
                assert(!plan_fits(cur));
                lemma_plan_fits_prefix_false(lv, i + 1);
            }
            return false;
        }
        ib = next_ib;
        vb = next_vb;
        i = i + 1;
    }
    proof {
        assert(lv.take(i as int) == lv);
    }
    true
}

proof fn lemma_plan_fits_prefix_false(lists: Seq<UiDrawListView>, k: int)
    requires
        0 <= k <= lists.len(),
        !plan_fits(lists.take(k)),
    ensures
        !plan_fits(lists),
{
    if plan_fits(lists) {
        lemma_fits_prefix(lists, k);
    }
}

/// The buffers of the lists, one after another.
pub open spec fn merged<T>(buffers: Seq<Seq<T>>) -> Seq<T> {
    buffers.flatten_alt()
}

/// Merges the per-list buffers of a UI frame into one buffer, list after list
/// (the vertex buffers and the index buffers are merged this way before upload).
pub fn merge_buffers<T: Copy>(buffers: &Vec<Vec<T>>) -> (out: Vec<T>)
    ensures
        out@ == merged(buffers@.map_values(|b: Vec<T>| b@)),
{
    let ghost bs = buffers@.map_values(|b: Vec<T>| b@);
    let mut out: Vec<T> = Vec::new();
    let mut i: usize = 0;
    while i < buffers.len()
        invariant
            bs == buffers@.map_values(|b: Vec<T>| b@),
            i <= buffers.len(),
            out@ == bs.take(i as int).flatten_alt(),
        decreases buffers.len() - i,
    {
        let b = &buffers[i];
        let ghost start = out@;
        let mut k: usize = 0;
        while k < b.len()
            invariant
                i < buffers.len(),
                b == &buffers[i as int],
                k <= b.len(),
                out@ == start + b@.take(k as int),
            decreases b.len() - k,
        {
            out.push(b[k]);
            k = k + 1;
            assert(b@.take(k as int) == b@.take(k - 1).push(b@[k - 1]));
        }
        proof {
            assert(b@.take(k as int) == b@);
            assert(bs.take(i + 1).drop_last() == bs.take(i as int));
            assert(bs.take(i + 1).last() == b@);
        }
        i = i + 1;
    }
    proof {
        assert(bs.take(i as int) == bs);
    }
    out
}

proof fn lemma_list_steps_index(i: nat, cmds: Seq<UiDrawCmd>, ib: int, vb: int, tex: Option<usize>, q: int)
    requires
        0 <= q < cmds.len(),
    ensures
        list_steps(i, cmds, ib, vb, tex).len() == cmds.len(),
        list_steps(i, cmds, ib, vb, tex)[q] == step_of(i, q as nat, cmds[q], ib, vb, tex_after(cmds.take(q), tex)),
    decreases cmds.len(),
{
    lemma_list_steps_len(i, cmds, ib, vb, tex);
    let prev = cmds.drop_last();
    if q < cmds.len() - 1 {
        lemma_list_steps_index(i, prev, ib, vb, tex, q);
        assert(prev.take(q) == cmds.take(q));
    } else {
        assert(prev == cmds.take(q));
    }
}

proof fn lemma_list_steps_len(i: nat, cmds: Seq<UiDrawCmd>, ib: int, vb: int, tex: Option<usize>)
    ensures
        list_steps(i, cmds, ib, vb, tex).len() == cmds.len(),
    decreases cmds.len(),
{
    if cmds.len() > 0 {
        lemma_list_steps_len(i, cmds.drop_last(), ib, vb, tex);
    }
}

/// The spec-level views fit the types they come from: as many lists and as many
/// commands per list as a `Vec` can hold.
pub open spec fn lists_indexable(lists: Seq<UiDrawListView>) -> bool {
    &&& lists.len() <= usize::MAX
    &&& forall|l: int| 0 <= l < lists.len() ==> (#[trigger] lists[l]).commands.len() <= usize::MAX
}

/// Every draw of the plan comes from an `Elements` command: command `command` of
/// list `list`, drawing its `count` indices from the start of that list in the
/// merged index buffer plus its index offset, with the start of that list in the
/// merged vertex buffer plus its vertex offset as the vertex offset.
pub proof fn lemma_plan_draw_origin(lists: Seq<UiDrawListView>, p: int)
    requires
        lists_indexable(lists),
        0 <= p < plan(lists).len(),
    ensures
        match plan(lists)[p] {
            UiDrawStep::Draw { list, command, index_count, first_index, vertex_offset, .. } => {
                &&& list < lists.len()
                &&& command < lists[list as int].commands.len()
                &&& match lists[list as int].commands[command as int] {
                    UiDrawCmd::Elements { count, idx_offset, vtx_offset, .. } => {
                        &&& index_count == count as u32
                        &&& first_index == (idx_base(lists.take(list as int)) + (idx_offset as u32)) as u32
                        &&& vertex_offset == (vtx_base(lists.take(list as int)) + (vtx_offset as i32)) as i32
                    },
                    _ => false,
                }
            },
            _ => true,
        },
    decreases lists.len(),
{
    let prev = lists.drop_last();
    let n = lists.len() - 1;
    assert(plan(lists) == plan(prev) + list_steps(n as nat, lists.last().commands, idx_base(prev), vtx_base(prev), tex_after_lists(prev)));
    lemma_list_steps_len(n as nat, lists.last().commands, idx_base(prev), vtx_base(prev), tex_after_lists(prev));
    if p < plan(prev).len() {
        assert(lists_indexable(prev)) by {
            assert forall|l: int| 0 <= l < prev.len() implies (#[trigger] prev[l]).commands.len() <= usize::MAX by {
                assert(prev[l] == lists[l]);
            }
        }
        lemma_plan_draw_origin(prev, p);
        assert(plan(lists)[p] == plan(prev)[p]);
        match plan(prev)[p] {
            UiDrawStep::Draw { list, .. } => {
                assert(prev[list as int] == lists[list as int]);
                assert(prev.take(list as int) == lists.take(list as int));
            },
            _ => {},
        }
    } else {
        let q = p - plan(prev).len();
        let cmds = lists.last().commands;
        lemma_list_steps_index(n as nat, cmds, idx_base(prev), vtx_base(prev), tex_after_lists(prev), q);
        assert(plan(lists)[p] == list_steps(n as nat, cmds, idx_base(prev), vtx_base(prev), tex_after_lists(prev))[q]);
        assert(lists.take(n) == prev);
        assert(lists[n] == lists.last());
    }
}

proof fn lemma_flatten_alt_prefix<T>(bs: Seq<Seq<T>>, i: int, k: int)
    requires
        0 <= i < bs.len(),
        0 <= k < bs[i].len(),
    ensures
        bs.take(i).flatten_alt().len() + k < bs.flatten_alt().len(),
        bs.flatten_alt()[bs.take(i).flatten_alt().len() + k] == bs[i][k],
    decreases bs.len(),
{
    let prev = bs.drop_last();
    if i < bs.len() - 1 {
        lemma_flatten_alt_prefix(prev, i, k);
        assert(prev.take(i) == bs.take(i));
    } else {
        assert(bs.take(i) == prev);
    }
}

/// The length of the merged buffer of `lists`' index counts, summed exactly.
pub open spec fn idx_total(lists: Seq<UiDrawListView>) -> int
    decreases lists.len(),
{
    if lists.len() == 0 { 0 } else { idx_total(lists.drop_last()) + lists.last().idx_len }
}

proof fn lemma_idx_base_exact<T>(lists: Seq<UiDrawListView>, contents: Seq<Seq<T>>, i: int)
    requires
        contents.len() == lists.len(),
        forall|l: int| 0 <= l < lists.len() ==> (#[trigger] lists[l]).idx_len == contents[l].len(),
        idx_total(lists) <= u32::MAX,
        0 <= i <= lists.len(),
    ensures
        idx_base(lists.take(i)) == idx_total(lists.take(i)),
        idx_total(lists.take(i)) == contents.take(i).flatten_alt().len(),
        idx_total(lists.take(i)) <= idx_total(lists),
    decreases lists.len(),
{
    if lists.len() > 0 {
        let prev = lists.drop_last();
        let n = lists.len() - 1;
        if i == lists.len() {
            assert(lists.take(i) == lists);
            assert(contents.take(i) == contents);
            lemma_idx_total_nonneg(prev);
            lemma_idx_base_exact(prev, contents.drop_last(), n);
            assert(prev.take(n) == prev);
            assert(contents.drop_last().take(n) == contents.drop_last());
            assert((lists.last().idx_len as u32) == lists.last().idx_len);
        } else {
            assert(lists.take(i) == prev.take(i));
            assert(contents.take(i) == contents.drop_last().take(i));
            lemma_idx_total_nonneg(prev);
            assert forall|l: int| 0 <= l < prev.len() implies (#[trigger] prev[l]).idx_len == contents.drop_last()[l].len() by {
                assert(prev[l] == lists[l]);
            }
            lemma_idx_base_exact(prev, contents.drop_last(), i);
        }
    } else {
        assert(lists.take(i) == lists);
        assert(contents.take(i) == contents);
    }
}

proof fn lemma_idx_total_nonneg(lists: Seq<UiDrawListView>)
    ensures
        idx_total(lists) >= 0,
    decreases lists.len(),
{
    if lists.len() > 0 {
        lemma_idx_total_nonneg(lists.drop_last());
    }
}

/// Merging the index buffers does not change what a draw reads: the `k`-th index
/// a planned draw takes from the merged index buffer is the `k`-th index its
/// command names in its own list's index buffer (for commands that stay within
/// their list, and when the merged buffer is addressable with 32-bit indices).
pub proof fn lemma_merged_draw_reads_own_indices<T>(lists: Seq<UiDrawListView>, contents: Seq<Seq<T>>, p: int, k: int)
    requires
        lists_indexable(lists),
        contents.len() == lists.len(),
        forall|l: int| 0 <= l < lists.len() ==> (#[trigger] lists[l]).idx_len == contents[l].len(),
        idx_total(lists) <= u32::MAX,
        0 <= p < plan(lists).len(),
        match plan(lists)[p] {
            UiDrawStep::Draw { list, command, .. } => match lists[list as int].commands[command as int] {
                UiDrawCmd::Elements { count, idx_offset, .. } => {
                    &&& idx_offset + count <= lists[list as int].idx_len
                    &&& 0 <= k < count
                },
                _ => false,
            },
            _ => false,
        },
    ensures
        match plan(lists)[p] {
            UiDrawStep::Draw { list, command, first_index, .. } => match lists[list as int].commands[command as int] {
                UiDrawCmd::Elements { idx_offset, .. } => {
                    &&& first_index + k < merged(contents).len()
                    &&& merged(contents)[first_index + k] == contents[list as int][idx_offset + k]
                },
                _ => false,
            },
            _ => false,
        },
{
    lemma_plan_draw_origin(lists, p);
    match plan(lists)[p] {
        UiDrawStep::Draw { list, command, first_index, .. } => {
            let i = list as int;
            match lists[i].commands[command as int] {
                UiDrawCmd::Elements { idx_offset, count, .. } => {
                    lemma_idx_base_exact(lists, contents, i);
                    lemma_idx_base_exact(lists, contents, i + 1);
                    assert(lists.take(i + 1).drop_last() == lists.take(i));
                    assert(lists.take(i + 1).last() == lists[i]);
                    assert(idx_offset as u32 == idx_offset);
                    lemma_flatten_alt_prefix(contents, i, idx_offset + k);
                },
                _ => {},
            }
        },
        _ => {},
    }
}

/// The length of the merged buffer of `lists`' vertex counts, summed exactly.
pub open spec fn vtx_total(lists: Seq<UiDrawListView>) -> int
    decreases lists.len(),
{
    if lists.len() == 0 { 0 } else { vtx_total(lists.drop_last()) + lists.last().vtx_len }
}

proof fn lemma_vtx_total_nonneg(lists: Seq<UiDrawListView>)
    ensures
        vtx_total(lists) >= 0,
    decreases lists.len(),
{
    if lists.len() > 0 {
        lemma_vtx_total_nonneg(lists.drop_last());
    }
}

proof fn lemma_vtx_base_exact<T>(lists: Seq<UiDrawListView>, contents: Seq<Seq<T>>, i: int)
    requires
        contents.len() == lists.len(),
        forall|l: int| 0 <= l < lists.len() ==> (#[trigger] lists[l]).vtx_len == contents[l].len(),
        vtx_total(lists) <= i32::MAX,
        0 <= i <= lists.len(),
    ensures
        vtx_base(lists.take(i)) == vtx_total(lists.take(i)),
        vtx_total(lists.take(i)) == contents.take(i).flatten_alt().len(),
        vtx_total(lists.take(i)) <= vtx_total(lists),
    decreases lists.len(),
{
    if lists.len() > 0 {
        let prev = lists.drop_last();
        let n = lists.len() - 1;
        lemma_vtx_total_nonneg(prev);
        if i == lists.len() {
            assert(lists.take(i) == lists);
            assert(contents.take(i) == contents);
            assert forall|l: int| 0 <= l < prev.len() implies (#[trigger] prev[l]).vtx_len == contents.drop_last()[l].len() by {
                assert(prev[l] == lists[l]);
            }
            lemma_vtx_base_exact(prev, contents.drop_last(), n);
            assert(prev.take(n) == prev);
            assert(contents.drop_last().take(n) == contents.drop_last());
            assert((lists.last().vtx_len as i32) == lists.last().vtx_len);
        } else {
            assert(lists.take(i) == prev.take(i));
            assert(contents.take(i) == contents.drop_last().take(i));
            assert forall|l: int| 0 <= l < prev.len() implies (#[trigger] prev[l]).vtx_len == contents.drop_last()[l].len() by {
                assert(prev[l] == lists[l]);
            }
            lemma_vtx_base_exact(prev, contents.drop_last(), i);
        }
    } else {
        assert(lists.take(i) == lists);
        assert(contents.take(i) == contents);
    }
}

/// Merging the vertex buffers does not change what a draw reads: vertex `k` of
/// a planned draw, counted from its vertex offset in the merged vertex buffer,
/// is vertex `vtx_offset + k` of its own list's vertex buffer, so a list's
/// start is the sum of the vertex counts of all lists before it (for vertices
/// within the list, and when the merged buffer fits 32-bit signed offsets).
pub proof fn lemma_merged_draw_reads_own_vertices<T>(lists: Seq<UiDrawListView>, contents: Seq<Seq<T>>, p: int, k: int)
    requires
        lists_indexable(lists),
        contents.len() == lists.len(),
        forall|l: int| 0 <= l < lists.len() ==> (#[trigger] lists[l]).vtx_len == contents[l].len(),
        vtx_total(lists) <= i32::MAX,
        0 <= p < plan(lists).len(),
        match plan(lists)[p] {
            UiDrawStep::Draw { list, command, .. } => match lists[list as int].commands[command as int] {
                UiDrawCmd::Elements { vtx_offset, .. } => 0 <= k && vtx_offset + k < lists[list as int].vtx_len,
                _ => false,
            },
            _ => false,
        },
    ensures
        match plan(lists)[p] {
            UiDrawStep::Draw { list, command, vertex_offset, .. } => match lists[list as int].commands[command as int] {
                UiDrawCmd::Elements { vtx_offset, .. } => {
                    &&& vertex_offset == vtx_total(lists.take(list as int)) + vtx_offset
                    &&& vertex_offset + k < merged(contents).len()
                    &&& merged(contents)[vertex_offset + k] == contents[list as int][vtx_offset + k]
                },
                _ => false,
            },
            _ => false,
        },
{
    lemma_plan_draw_origin(lists, p);
    match plan(lists)[p] {
        UiDrawStep::Draw { list, command, vertex_offset, .. } => {
            let i = list as int;
            match lists[i].commands[command as int] {
                UiDrawCmd::Elements { vtx_offset, .. } => {
                    lemma_vtx_base_exact(lists, contents, i);
                    lemma_vtx_base_exact(lists, contents, i + 1);
                    assert(lists.take(i + 1).drop_last() == lists.take(i));
                    assert(lists.take(i + 1).last() == lists[i]);
                    assert(vtx_offset as i32 == vtx_offset);
                    lemma_flatten_alt_prefix(contents, i, vtx_offset + k);
                },
                _ => {},
            }
        },
        _ => {},
    }
}

/// The texture id the UI uses for its font atlas.
pub const FONT_TEX_ID: usize = usize::MAX;

/// The descriptor set a UI draw samples from. The UI pass knows one texture,
/// the font atlas, so `texture_id` is the font texture id.
pub fn texture_descriptor_set(texture_id: usize, font_descriptor_set: u64) -> (r: u64)
    requires
        texture_id == FONT_TEX_ID,
    ensures
        r == font_descriptor_set,
{
    font_descriptor_set
}

/// The key under which a UI texture is registered with the bindless manager:
/// `imgui-texture-<id>`.
pub open spec fn texture_key_spec(texture_id: nat) -> Seq<char> {
    "imgui-texture-"@ + decimal(texture_id)
}

/// The bindless key of UI texture `texture_id`.
pub fn get_texture_key(texture_id: usize) -> (k: Vec<char>)
    ensures
        k@ == texture_key_spec(texture_id as nat),
{
    let mut k = str_chars("imgui-texture-");
    let digits = format_decimal(texture_id);
    append_chars(&mut k, &digits);
    k
}

/// Distinct texture ids get distinct keys.
pub proof fn lemma_texture_keys_distinct(a: nat, b: nat)
    requires
        a != b,
    ensures
        texture_key_spec(a) != texture_key_spec(b),
{
    let p = "imgui-texture-"@;
    crate::text::lemma_decimal_round_trip(a);
    crate::text::lemma_decimal_round_trip(b);
    if texture_key_spec(a) == texture_key_spec(b) {
        assert(texture_key_spec(a).skip(p.len() as int) == decimal(a));
        assert(texture_key_spec(b).skip(p.len() as int) == decimal(b));
    }
}

/// The size in bytes of a buffer of `count` elements of `elem_size` bytes each.
pub fn buffer_byte_size(count: usize, elem_size: usize) -> (r: usize)
    requires
        count * elem_size <= usize::MAX,
    ensures
        r == count * elem_size,
{
    count * elem_size
}

} // verus!
