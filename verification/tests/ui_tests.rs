use truvis_render::ui::UiDrawCmd;
use truvis_render::ui::UiDrawList;
use truvis_render::ui::UiDrawStep;
use truvis_render::ui::plan_ui_draws;
use truvis_render::ui::ui_plan_fits;
use truvis_render::ui::merge_buffers;
use truvis_render::ui::get_texture_key;
use truvis_render::ui::texture_descriptor_set;
use truvis_render::ui::has_ui_geometry;
use truvis_render::ui::buffer_byte_size;
use truvis_render::ui::FONT_TEX_ID;

fn elements(count: usize, idx_offset: usize, vtx_offset: usize, texture_id: usize) -> UiDrawCmd {
    UiDrawCmd::Elements { count, idx_offset, vtx_offset, texture_id }
}

#[test]
fn draws_of_later_lists_are_offset_by_earlier_lists() {
    let lists = vec![
        UiDrawList { vtx_len: 4, idx_len: 6, commands: vec![elements(6, 0, 0, 7)] },
        UiDrawList { vtx_len: 8, idx_len: 12, commands: vec![elements(6, 0, 0, 7), elements(6, 6, 4, 9)] },
    ];
    let steps = plan_ui_draws(&lists);
    assert_eq!(
        steps,
        vec![
            UiDrawStep::Draw { list: 0, command: 0, index_count: 6, first_index: 0, vertex_offset: 0, bind_texture: Some(7) },
            UiDrawStep::Draw { list: 1, command: 0, index_count: 6, first_index: 6, vertex_offset: 4, bind_texture: None },
            UiDrawStep::Draw { list: 1, command: 1, index_count: 6, first_index: 12, vertex_offset: 8, bind_texture: Some(9) },
        ]
    );
}

#[test]
fn texture_is_rebound_only_when_it_changes() {
    let lists = vec![UiDrawList {
        vtx_len: 3,
        idx_len: 9,
        commands: vec![elements(3, 0, 0, 1), elements(3, 3, 0, 1), elements(3, 6, 0, 2), elements(0, 9, 0, 1)],
    }];
    let binds: Vec<Option<usize>> = plan_ui_draws(&lists)
        .into_iter()
        .map(|s| match s {
            UiDrawStep::Draw { bind_texture, .. } => bind_texture,
            _ => panic!("only draws expected"),
        })
        .collect();
    assert_eq!(binds, vec![Some(1), None, Some(2), Some(1)]);
}

#[test]
fn unsupported_commands_are_reported_and_keep_the_bound_texture() {
    let lists = vec![UiDrawList {
        vtx_len: 3,
        idx_len: 6,
        commands: vec![elements(3, 0, 0, 5), UiDrawCmd::ResetRenderState, UiDrawCmd::RawCallback, elements(3, 3, 0, 5)],
    }];
    let steps = plan_ui_draws(&lists);
    assert_eq!(steps[1], UiDrawStep::SkipResetRenderState { list: 0, command: 1 });
    assert_eq!(steps[2], UiDrawStep::SkipRawCallback { list: 0, command: 2 });
    assert_eq!(
        steps[3],
        UiDrawStep::Draw { list: 0, command: 3, index_count: 3, first_index: 3, vertex_offset: 0, bind_texture: None }
    );
}

#[test]
fn empty_draw_data_plans_nothing() {
    assert!(plan_ui_draws(&vec![]).is_empty());
    let lists = vec![UiDrawList { vtx_len: 0, idx_len: 0, commands: vec![] }];
    assert!(plan_ui_draws(&lists).is_empty());
}

#[test]
fn merged_buffers_keep_list_order() {
    let merged = merge_buffers(&vec![vec![0u16, 1, 2], vec![], vec![0, 2, 3, 1]]);
    assert_eq!(merged, vec![0, 1, 2, 0, 2, 3, 1]);
    assert!(merge_buffers::<u16>(&vec![]).is_empty());
}

#[test]
fn merged_draw_reads_its_own_indices() {
    let idx = vec![vec![0u16, 1, 2, 2, 3, 0], vec![5, 6, 7, 7, 8, 5, 1, 2, 3]];
    let lists = vec![
        UiDrawList { vtx_len: 4, idx_len: 6, commands: vec![elements(6, 0, 0, 1)] },
        UiDrawList { vtx_len: 9, idx_len: 9, commands: vec![elements(3, 6, 0, 1), elements(6, 0, 0, 1)] },
    ];
    let merged = merge_buffers(&idx);
    for step in plan_ui_draws(&lists) {
        if let UiDrawStep::Draw { list, command, index_count, first_index, .. } = step {
            let UiDrawCmd::Elements { idx_offset, .. } = lists[list].commands[command] else { panic!() };
            for k in 0..index_count as usize {
                assert_eq!(merged[first_index as usize + k], idx[list][idx_offset + k]);
            }
        }
    }
}

#[test]
fn texture_keys_are_numbered() {
    let key: String = get_texture_key(0).iter().collect();
    assert_eq!(key, "imgui-texture-0");
    let key: String = get_texture_key(42).iter().collect();
    assert_eq!(key, "imgui-texture-42");
    assert_ne!(get_texture_key(1), get_texture_key(10));
}

#[test]
fn only_the_font_texture_has_a_descriptor_set() {
    assert_eq!(texture_descriptor_set(FONT_TEX_ID, 77), 77);
}

#[test]
fn frames_without_vertices_draw_nothing() {
    assert!(!has_ui_geometry(0));
    assert!(has_ui_geometry(12));
}

#[test]
fn buffer_sizes_in_bytes() {
    assert_eq!(buffer_byte_size(10, 20), 200);
    assert_eq!(buffer_byte_size(0, 20), 0);
}

#[test]
fn plans_that_overflow_their_offsets_are_recognised() {
    let small = vec![
        UiDrawList { vtx_len: 4, idx_len: 6, commands: vec![elements(6, 0, 0, 7)] },
        UiDrawList { vtx_len: 8, idx_len: 12, commands: vec![elements(6, 6, 4, 9)] },
    ];
    assert!(ui_plan_fits(&small));
    assert!(ui_plan_fits(&vec![]));
    // the running index offset passes u32::MAX after the second list
    let big = vec![
        UiDrawList { vtx_len: 0, idx_len: 0xffff_0000, commands: vec![] },
        UiDrawList { vtx_len: 0, idx_len: 0x0002_0000, commands: vec![] },
    ];
    assert!(!ui_plan_fits(&big));
    // a first index past u32::MAX
    let far = vec![
        UiDrawList { vtx_len: 0, idx_len: 0xffff_fff0, commands: vec![] },
        UiDrawList { vtx_len: 0, idx_len: 0, commands: vec![elements(1, 0x20, 0, 0)] },
    ];
    assert!(!ui_plan_fits(&far));
    // a vertex offset past i32::MAX
    let wide = vec![
        UiDrawList { vtx_len: 0x7fff_fff0, idx_len: 0, commands: vec![] },
        UiDrawList { vtx_len: 0, idx_len: 0, commands: vec![elements(1, 0, 0x20, 0)] },
    ];
    assert!(!ui_plan_fits(&wide));
}
