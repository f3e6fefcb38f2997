use imgui_wgpu::clip::SUBPIXEL;
use imgui_wgpu::draw::{DrawCmd, DrawCmdParams, DrawData, DrawList, DrawVert};
use imgui_wgpu::error::RendererError;
use imgui_wgpu::pass::{BindGroup, RenderCommand, RenderPass};
use imgui_wgpu::render_data::RenderData;
use imgui_wgpu::renderer::Renderer;
use imgui_wgpu::texture::{Extent3d, Texture, TextureId};

const ONE: i32 = 65536;

fn px(pixels: i64) -> i64 {
    pixels * SUBPIXEL
}

fn font() -> Texture {
    Texture::new(Extent3d { width: 512, height: 64, depth_or_array_layers: 1 })
}

fn quad() -> Vec<DrawVert> {
    vec![[1u8; 20], [2u8; 20], [3u8; 20], [4u8; 20]]
}

fn cmd(count: usize, clip_rect: [i64; 4], texture: usize) -> DrawCmd {
    DrawCmd::Elements {
        count,
        cmd_params: DrawCmdParams { clip_rect, texture_id: TextureId::new(texture) },
    }
}

fn full() -> [i64; 4] {
    [0, 0, px(800), px(600)]
}

fn outside() -> [i64; 4] {
    [px(-20), px(-20), px(-10), px(-10)]
}

fn list_of(commands: Vec<DrawCmd>) -> DrawList {
    let mut count = 0;
    for c in &commands {
        if let DrawCmd::Elements { count: n, .. } = c {
            count += *n;
        }
    }
    let idx: Vec<u16> = (0..count).map(|i| (i % 4) as u16).collect();
    DrawList::new(quad(), idx, commands).unwrap()
}

fn frame(lists: Vec<DrawList>) -> DrawData {
    DrawData::new([0, 0], [px(800), px(600)], [ONE, ONE], lists).unwrap()
}

fn setup() -> Vec<RenderCommand> {
    vec![
        RenderCommand::SetPipeline,
        RenderCommand::SetBindGroup { index: 0, group: BindGroup::Uniforms },
        RenderCommand::SetVertexBuffer { slot: 0 },
        RenderCommand::SetIndexBuffer,
    ]
}

fn draw(scissor: (u32, u32, u32, u32), texture: usize, start: u32, end: u32, base_vertex: i32) -> Vec<RenderCommand> {
    vec![
        RenderCommand::SetScissorRect { x: scissor.0, y: scissor.1, width: scissor.2, height: scissor.3 },
        RenderCommand::SetBindGroup { index: 1, group: BindGroup::Texture(TextureId::new(texture)) },
        RenderCommand::DrawIndexed { start, end, base_vertex },
    ]
}

fn draws(commands: &[RenderCommand]) -> Vec<(u32, u32, i32)> {
    commands
        .iter()
        .filter_map(|c| match c {
            RenderCommand::DrawIndexed { start, end, base_vertex } => Some((*start, *end, *base_vertex)),
            _ => None,
        })
        .collect()
}

#[test]
fn new_render_pass_is_empty() {
    assert_eq!(RenderPass::new().commands(), &vec![]);
}

#[test]
fn render_pass_records_in_order() {
    let mut pass = RenderPass::new();
    pass.set_pipeline();
    pass.set_bind_group(0, BindGroup::Uniforms);
    pass.set_vertex_buffer(0);
    pass.set_index_buffer();
    pass.set_scissor_rect(1, 2, 3, 4);
    pass.set_bind_group(1, BindGroup::Texture(TextureId::new(5)));
    pass.draw_indexed(6, 12, 4);
    let mut expected = setup();
    expected.extend(draw((1, 2, 3, 4), 5, 6, 12, 4));
    assert_eq!(pass.commands(), &expected);
}

#[test]
fn empty_frame_renders_nothing() {
    let (renderer, _) = Renderer::new(TextureId::new(0), font());
    let data = DrawData::new([0, 0], [0, 0], [ONE, ONE], vec![list_of(vec![cmd(6, full(), 0)])]).unwrap();
    let (render_data, upload) = renderer.prepare(&data, None);
    assert!(upload.is_none());
    assert!(!render_data.render());
    let mut pass = RenderPass::new();
    assert_eq!(renderer.split_render(&data, &render_data, &mut pass), Ok(()));
    assert_eq!(pass.commands(), &vec![]);
}

#[test]
fn empty_frame_renders_nothing_even_without_its_texture() {
    let (renderer, _) = Renderer::new(TextureId::new(0), font());
    let data = DrawData::new([0, 0], [0, 0], [ONE, ONE], vec![list_of(vec![cmd(6, full(), 42)])]).unwrap();
    let (render_data, _) = renderer.prepare(&data, None);
    let mut pass = RenderPass::new();
    assert_eq!(renderer.split_render(&data, &render_data, &mut pass), Ok(()));
    assert_eq!(pass.commands(), &vec![]);
}

#[test]
fn single_quad_is_one_draw_under_the_full_scissor() {
    let (renderer, font_id) = Renderer::new(TextureId::new(0), font());
    let data = frame(vec![list_of(vec![cmd(6, full(), font_id.id())])]);
    let (render_data, upload) = renderer.prepare(&data, None);
    let upload = upload.unwrap();
    assert_eq!(upload.vertices.len(), 80);
    assert_eq!(upload.indices.len(), 12);
    let mut pass = RenderPass::new();
    assert_eq!(renderer.split_render(&data, &render_data, &mut pass), Ok(()));
    let mut expected = setup();
    expected.extend(draw((0, 0, 800, 600), 0, 0, 6, 0));
    assert_eq!(pass.commands(), &expected);
}

#[test]
fn frame_without_draw_lists_only_binds() {
    let (renderer, _) = Renderer::new(TextureId::new(0), font());
    let data = frame(vec![]);
    let (render_data, _) = renderer.prepare(&data, None);
    let mut pass = RenderPass::new();
    assert_eq!(renderer.split_render(&data, &render_data, &mut pass), Ok(()));
    assert_eq!(pass.commands(), &setup());
}

#[test]
fn commands_follow_what_was_issued_before() {
    let (renderer, _) = Renderer::new(TextureId::new(0), font());
    let data = frame(vec![list_of(vec![cmd(6, full(), 0)])]);
    let (render_data, _) = renderer.prepare(&data, None);
    let mut pass = RenderPass::new();
    pass.set_scissor_rect(9, 9, 9, 9);
    assert_eq!(renderer.split_render(&data, &render_data, &mut pass), Ok(()));
    let mut expected = vec![RenderCommand::SetScissorRect { x: 9, y: 9, width: 9, height: 9 }];
    expected.extend(setup());
    expected.extend(draw((0, 0, 800, 600), 0, 0, 6, 0));
    assert_eq!(pass.commands(), &expected);
}

#[test]
fn missing_texture_fails_the_frame() {
    let (renderer, _) = Renderer::new(TextureId::new(0), font());
    let data = frame(vec![list_of(vec![cmd(6, full(), 7)])]);
    let (render_data, _) = renderer.prepare(&data, None);
    let mut pass = RenderPass::new();
    assert_eq!(
        renderer.split_render(&data, &render_data, &mut pass),
        Err(RendererError::BadTexture(TextureId::new(7)))
    );
    assert_eq!(pass.commands(), &setup());
    assert_eq!(draws(pass.commands()), vec![]);
}

#[test]
fn missing_texture_stops_the_commands_after_it() {
    let (renderer, _) = Renderer::new(TextureId::new(0), font());
    let data = frame(vec![
        list_of(vec![cmd(6, full(), 0), cmd(3, full(), 0)]),
        list_of(vec![cmd(3, full(), 0), cmd(6, full(), 9), cmd(3, full(), 0)]),
        list_of(vec![cmd(6, full(), 0), cmd(3, full(), 11)]),
    ]);
    let (render_data, _) = renderer.prepare(&data, None);
    let mut pass = RenderPass::new();
    assert_eq!(
        renderer.split_render(&data, &render_data, &mut pass),
        Err(RendererError::BadTexture(TextureId::new(9)))
    );
    let mut expected = setup();
    expected.extend(draw((0, 0, 800, 600), 0, 0, 6, 0));
    expected.extend(draw((0, 0, 800, 600), 0, 6, 9, 0));
    expected.extend(draw((0, 0, 800, 600), 0, 9, 12, 4));
    assert_eq!(pass.commands(), &expected);
}

#[test]
fn missing_texture_fails_even_where_the_command_is_clipped_away() {
    let (renderer, _) = Renderer::new(TextureId::new(0), font());
    let data = frame(vec![list_of(vec![cmd(6, outside(), 5)])]);
    let (render_data, _) = renderer.prepare(&data, None);
    let mut pass = RenderPass::new();
    assert_eq!(
        renderer.split_render(&data, &render_data, &mut pass),
        Err(RendererError::BadTexture(TextureId::new(5)))
    );
}

#[test]
fn removed_texture_is_missing() {
    let (mut renderer, _) = Renderer::new(TextureId::new(0), font());
    let image = renderer.textures.insert(font());
    let data = frame(vec![list_of(vec![cmd(6, full(), image.id())])]);
    let (render_data, _) = renderer.prepare(&data, None);
    let mut pass = RenderPass::new();
    assert_eq!(renderer.split_render(&data, &render_data, &mut pass), Ok(()));
    renderer.textures.remove(image);
    let mut pass = RenderPass::new();
    assert_eq!(
        renderer.split_render(&data, &render_data, &mut pass),
        Err(RendererError::BadTexture(image))
    );
}

#[test]
fn cursor_moves_on_past_commands_that_are_not_drawn() {
    let (renderer, _) = Renderer::new(TextureId::new(0), font());
    let no_area = [px(10), px(10), px(10), px(20)];
    let data = frame(vec![list_of(vec![
        cmd(6, full(), 0),
        cmd(9, outside(), 0),
        cmd(3, [px(10), px(20), px(110), px(220)], 0),
        cmd(12, no_area, 0),
        DrawCmd::ResetRenderState,
        cmd(6, [px(700), px(500), px(900), px(900)], 0),
    ])]);
    let (render_data, _) = renderer.prepare(&data, None);
    let mut pass = RenderPass::new();
    assert_eq!(renderer.split_render(&data, &render_data, &mut pass), Ok(()));
    let mut expected = setup();
    expected.extend(draw((0, 0, 800, 600), 0, 0, 6, 0));
    expected.extend(draw((10, 20, 100, 200), 0, 15, 18, 0));
    expected.extend(draw((700, 500, 100, 100), 0, 30, 36, 0));
    assert_eq!(pass.commands(), &expected);
}

#[test]
fn cursor_ends_where_the_next_draw_list_starts() {
    let (renderer, _) = Renderer::new(TextureId::new(0), font());
    let data = frame(vec![
        list_of(vec![cmd(6, outside(), 0), cmd(3, outside(), 0)]),
        list_of(vec![cmd(3, full(), 0), cmd(6, outside(), 0), cmd(3, full(), 0)]),
        list_of(vec![]),
        list_of(vec![cmd(6, full(), 0)]),
    ]);
    let (render_data, _) = renderer.prepare(&data, None);
    let mut pass = RenderPass::new();
    assert_eq!(renderer.split_render(&data, &render_data, &mut pass), Ok(()));
    assert_eq!(
        draws(pass.commands()),
        vec![(9, 12, 4), (18, 21, 4), (21, 27, 12)]
    );
    assert_eq!(
        (0..4).map(|k| render_data.offset(k).unwrap()).collect::<Vec<_>>(),
        vec![(0, 0), (4, 9), (8, 21), (12, 21)]
    );
}

#[test]
fn draw_uses_the_texture_of_its_command() {
    let (mut renderer, font_id) = Renderer::new(TextureId::new(0), font());
    let image = renderer.textures.insert(font());
    let data = frame(vec![list_of(vec![
        cmd(3, full(), image.id()),
        cmd(3, full(), font_id.id()),
    ])]);
    let (render_data, _) = renderer.prepare(&data, None);
    let mut pass = RenderPass::new();
    assert_eq!(renderer.split_render(&data, &render_data, &mut pass), Ok(()));
    let mut expected = setup();
    expected.extend(draw((0, 0, 800, 600), 1, 0, 3, 0));
    expected.extend(draw((0, 0, 800, 600), 0, 3, 6, 0));
    assert_eq!(pass.commands(), &expected);
}

#[test]
fn scissor_uses_the_display_offset_and_scale() {
    let (renderer, _) = Renderer::new(TextureId::new(0), font());
    let list = list_of(vec![cmd(6, [px(110), px(60), px(150), px(80)], 0)]);
    let data = DrawData::new([px(100), px(50)], [px(400), px(300)], [2 * ONE, 2 * ONE], vec![list]).unwrap();
    let (render_data, _) = renderer.prepare(&data, None);
    let mut pass = RenderPass::new();
    assert_eq!(renderer.split_render(&data, &render_data, &mut pass), Ok(()));
    let mut expected = setup();
    expected.extend(draw((20, 20, 80, 40), 0, 0, 6, 0));
    assert_eq!(pass.commands(), &expected);
}

#[test]
fn render_prepares_then_draws_and_keeps_the_state() {
    let (mut renderer, _) = Renderer::new(TextureId::new(0), font());
    let data = frame(vec![list_of(vec![cmd(6, full(), 0)])]);
    let mut pass = RenderPass::new();
    let (upload, result) = renderer.render(&data, &mut pass);
    assert_eq!(result, Ok(()));
    let upload = upload.unwrap();
    assert!(upload.update_projection);
    assert_eq!(upload.vertices.len(), 80);
    let mut expected = setup();
    expected.extend(draw((0, 0, 800, 600), 0, 0, 6, 0));
    assert_eq!(pass.commands(), &expected);
    assert!(renderer.render_data.as_ref().unwrap().render());

    let mut pass = RenderPass::new();
    let (upload, result) = renderer.render(&data, &mut pass);
    assert_eq!(result, Ok(()));
    assert!(!upload.unwrap().update_projection);
    assert_eq!(pass.commands(), &expected);
}

#[test]
fn render_keeps_the_state_when_a_texture_is_missing() {
    let (mut renderer, _) = Renderer::new(TextureId::new(0), font());
    let data = frame(vec![list_of(vec![cmd(6, full(), 3)])]);
    let mut pass = RenderPass::new();
    let (upload, result) = renderer.render(&data, &mut pass);
    assert_eq!(result, Err(RendererError::BadTexture(TextureId::new(3))));
    assert!(upload.is_some());
    assert!(renderer.render_data.is_some());

    // the renderer is usable for the next frame
    let data = frame(vec![list_of(vec![cmd(6, full(), 0)])]);
    let mut pass = RenderPass::new();
    let (_, result) = renderer.render(&data, &mut pass);
    assert_eq!(result, Ok(()));
    assert_eq!(draws(pass.commands()), vec![(0, 6, 0)]);
}

#[test]
fn render_of_an_empty_frame_is_a_success_without_commands() {
    let (mut renderer, _) = Renderer::new(TextureId::new(0), font());
    let data = DrawData::new([0, 0], [0, 0], [ONE, ONE], vec![]).unwrap();
    let mut pass = RenderPass::new();
    let (upload, result) = renderer.render(&data, &mut pass);
    assert_eq!(result, Ok(()));
    assert!(upload.is_none());
    assert_eq!(pass.commands(), &vec![]);
}

#[test]
fn prepared_state_is_told_from_another_frames() {
    let (renderer, _) = Renderer::new(TextureId::new(0), font());
    let data = frame(vec![list_of(vec![cmd(6, full(), 0)]), list_of(vec![cmd(3, full(), 0)])]);
    let other = frame(vec![list_of(vec![cmd(3, full(), 0)])]);
    let (render_data, _) = renderer.prepare(&data, None);
    assert!(render_data.is_prepared_for(&data));
    assert!(!render_data.is_prepared_for(&other));
    let (unrendered, _) = RenderData::prepare(&DrawData::new([0, 0], [0, 0], [ONE, ONE], vec![]).unwrap(), None);
    assert!(unrendered.is_prepared_for(&frame(vec![])));
}

#[test]
fn bad_texture_error_names_the_identifier() {
    assert_eq!(
        RendererError::BadTexture(TextureId::new(42)).to_string(),
        "imgui render error: bad texture id '42'"
    );
    assert_eq!(
        RendererError::BadTexture(TextureId::new(0)).to_string(),
        "imgui render error: bad texture id '0'"
    );
    assert_eq!(
        RendererError::BadTexture(TextureId::new(1234567890)).to_string(),
        "imgui render error: bad texture id '1234567890'"
    );
}

#[test]
fn draw_list_is_drawn_from_the_bases_given() {
    let (renderer, _) = Renderer::new(TextureId::new(0), font());
    let list = list_of(vec![cmd(6, full(), 0), cmd(3, outside(), 0), cmd(3, full(), 0)]);
    let mut pass = RenderPass::new();
    let fb = [800i128 << 32, 600i128 << 32];
    assert_eq!(
        renderer.render_draw_list(&mut pass, &list, fb, [0, 0], [ONE, ONE], (40, 100)),
        Ok(())
    );
    let mut expected = draw((0, 0, 800, 600), 0, 100, 106, 40);
    expected.extend(draw((0, 0, 800, 600), 0, 109, 112, 40));
    assert_eq!(pass.commands(), &expected);
}

#[test]
fn draw_list_stops_at_the_first_missing_texture() {
    let (renderer, _) = Renderer::new(TextureId::new(0), font());
    let list = list_of(vec![
        cmd(6, full(), 0),
        cmd(3, outside(), 8),
        cmd(3, full(), 0),
        cmd(3, full(), 9),
    ]);
    let mut pass = RenderPass::new();
    let fb = [800i128 << 32, 600i128 << 32];
    assert_eq!(
        renderer.render_draw_list(&mut pass, &list, fb, [0, 0], [ONE, ONE], (0, 0)),
        Err(RendererError::BadTexture(TextureId::new(8)))
    );
    assert_eq!(pass.commands(), &draw((0, 0, 800, 600), 0, 0, 6, 0));
}

#[test]
fn replaced_texture_is_drawn_under_the_same_handle() {
    let (mut renderer, _) = Renderer::new(TextureId::new(0), font());
    let image = renderer.textures.insert(font());
    let other = Texture::new(Extent3d { width: 64, height: 64, depth_or_array_layers: 1 });
    renderer.textures.replace(image, other);
    let data = frame(vec![list_of(vec![cmd(6, full(), image.id())])]);
    let (render_data, _) = renderer.prepare(&data, None);
    let mut pass = RenderPass::new();
    assert_eq!(renderer.split_render(&data, &render_data, &mut pass), Ok(()));
    let mut expected = setup();
    expected.extend(draw((0, 0, 800, 600), image.id(), 0, 6, 0));
    assert_eq!(pass.commands(), &expected);
    assert_eq!(renderer.textures.get(image), Some(&other));
}
