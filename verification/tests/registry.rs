use imgui_wgpu::registry::TextureRegistry;
use imgui_wgpu::renderer::Renderer;
use imgui_wgpu::texture::{Extent3d, Texture, TextureId};

fn texture(width: u32, height: u32) -> Texture {
    Texture::new(Extent3d { width, height, depth_or_array_layers: 1 })
}

fn live_handles(registry: &TextureRegistry) -> Vec<usize> {
    let mut live = Vec::new();
    for id in 0..registry.next_id() {
        if registry.get(TextureId::new(id)).is_some() {
            live.push(id);
        }
    }
    live
}

#[test]
fn texture_id_keeps_its_identifier() {
    assert_eq!(TextureId::new(7).id(), 7);
    assert_eq!(TextureId::new(usize::MAX).id(), usize::MAX);
    assert_eq!(TextureId::new(3), TextureId::new(3));
    assert_ne!(TextureId::new(3), TextureId::new(4));
}

#[test]
fn texture_reports_its_size() {
    let t = Texture::new(Extent3d { width: 512, height: 64, depth_or_array_layers: 3 });
    assert_eq!(t.width(), 512);
    assert_eq!(t.height(), 64);
    assert_eq!(t.depth(), 3);
    assert_eq!(t.size(), Extent3d { width: 512, height: 64, depth_or_array_layers: 3 });
}

#[test]
fn new_registry_is_empty() {
    let registry = TextureRegistry::new();
    assert_eq!(registry.next_id(), 0);
    assert!(registry.get(TextureId::new(0)).is_none());
    assert!(registry.get(TextureId::new(1)).is_none());
}

#[test]
fn insert_hands_out_handles_in_order() {
    let mut registry = TextureRegistry::new();
    let a = registry.insert(texture(1, 1));
    let b = registry.insert(texture(2, 2));
    let c = registry.insert(texture(3, 3));
    assert_eq!((a.id(), b.id(), c.id()), (0, 1, 2));
    assert_eq!(registry.next_id(), 3);
    assert_eq!(registry.get(a), Some(&texture(1, 1)));
    assert_eq!(registry.get(b), Some(&texture(2, 2)));
    assert_eq!(registry.get(c), Some(&texture(3, 3)));
}

#[test]
fn remove_followed_by_get_returns_absent() {
    let mut registry = TextureRegistry::new();
    let a = registry.insert(texture(1, 1));
    let b = registry.insert(texture(2, 2));
    assert_eq!(registry.remove(a), Some(texture(1, 1)));
    assert_eq!(registry.get(a), None);
    assert_eq!(registry.get(b), Some(&texture(2, 2)));
}

#[test]
fn remove_of_absent_handle_returns_nothing() {
    let mut registry = TextureRegistry::new();
    let a = registry.insert(texture(1, 1));
    assert_eq!(registry.remove(TextureId::new(17)), None);
    assert_eq!(registry.remove(a), Some(texture(1, 1)));
    assert_eq!(registry.remove(a), None);
    assert_eq!(registry.next_id(), 1);
}

#[test]
fn replace_keeps_the_handle_and_swaps_the_texture() {
    let mut registry = TextureRegistry::new();
    let a = registry.insert(texture(1, 1));
    let b = registry.insert(texture(2, 2));
    let was = registry.replace(a, texture(640, 480));
    assert_eq!(was, Some(texture(1, 1)));
    assert_eq!(registry.get(a), Some(&texture(640, 480)));
    assert_eq!(registry.get(b), Some(&texture(2, 2)));
    assert_eq!(registry.next_id(), 2);
}

#[test]
fn insert_never_returns_a_live_handle() {
    let mut registry = TextureRegistry::new();
    let mut handed_out = Vec::new();
    for round in 0..20u32 {
        let id = registry.insert(texture(round, round));
        assert!(!handed_out.contains(&id));
        handed_out.push(id);
        if round % 3 == 0 {
            registry.remove(id);
        } else if round % 5 == 1 {
            registry.replace(id, texture(round + 100, round));
        }
    }
    assert_eq!(registry.next_id(), 20);
    assert_eq!(live_handles(&registry).len(), 13);
}

#[test]
fn renderer_starts_with_the_font_texture() {
    let (renderer, font) = Renderer::new(TextureId::new(0), texture(512, 64));
    assert_eq!(font.id(), 0);
    assert_eq!(renderer.textures.get(font), Some(&texture(512, 64)));
    assert!(renderer.render_data.is_none());
    assert_eq!(live_handles(&renderer.textures), vec![0]);
}

#[test]
fn font_reload_twice_keeps_one_live_texture() {
    let (mut renderer, first) = Renderer::new(TextureId::new(0), texture(512, 64));
    let second = renderer.reload_font_texture(first, texture(1024, 128));
    assert_eq!(live_handles(&renderer.textures), vec![second.id()]);
    let third = renderer.reload_font_texture(second, texture(2048, 256));
    assert_eq!(live_handles(&renderer.textures), vec![third.id()]);
    assert_ne!(first, second);
    assert_ne!(second, third);
    assert_eq!(renderer.textures.get(first), None);
    assert_eq!(renderer.textures.get(second), None);
    assert_eq!(renderer.textures.get(third), Some(&texture(2048, 256)));
}

#[test]
fn font_reload_leaves_other_textures_alone() {
    let (mut renderer, font) = Renderer::new(TextureId::new(0), texture(512, 64));
    let image = renderer.textures.insert(texture(32, 32));
    let reloaded = renderer.reload_font_texture(font, texture(1024, 128));
    assert_eq!(reloaded.id(), 2);
    assert_eq!(renderer.textures.get(image), Some(&texture(32, 32)));
    assert_eq!(live_handles(&renderer.textures), vec![image.id(), reloaded.id()]);
}

#[test]
fn font_reload_with_unknown_previous_handle_only_registers() {
    let (mut renderer, font) = Renderer::new(TextureId::new(0), texture(512, 64));
    let reloaded = renderer.reload_font_texture(TextureId::new(99), texture(8, 8));
    assert_eq!(live_handles(&renderer.textures), vec![font.id(), reloaded.id()]);
}
