//! The registry of bindable textures, addressed by opaque handles.

use vstd::prelude::*;
use crate::texture::{Texture, TextureId};

verus! {

/// The texture map of the GUI library, which the registry keeps its
/// textures in.
#[verifier::external_type_specification]
#[verifier::external_body]
#[verifier::reject_recursive_types(T)]
pub struct ExTextures<T>(imgui::Textures<T>);

/// The textures that a texture map holds, by the identifier of their handle.
pub uninterp spec fn stored_textures(textures: imgui::Textures<Texture>) -> Map<usize, Texture>;

/// The identifier that a texture map hands out next.
pub uninterp spec fn next_identifier(textures: imgui::Textures<Texture>) -> usize;

/// `imgui::Textures::new`: an empty map that counts from zero.
#[verifier::external_body]
fn textures_new() -> (made: imgui::Textures<Texture>)
    ensures
        stored_textures(made) == RegistryView::empty().entries,
        next_identifier(made) == 0,
{
    imgui::Textures::new()
}

/// `imgui::Textures::insert`: stores the texture under the next identifier,
/// counts one up and returns the identifier. The count must have room to go
/// up.
#[verifier::external_body]
fn textures_insert(textures: &mut imgui::Textures<Texture>, texture: Texture) -> (id: usize)
    requires
        next_identifier(*old(textures)) < usize::MAX,
    ensures
        id == next_identifier(*old(textures)),
        stored_textures(*final(textures)) == stored_textures(*old(textures)).insert(id, texture),
        next_identifier(*final(textures)) == next_identifier(*old(textures)) + 1,
{
    textures.insert(texture).id()
}

/// `imgui::Textures::replace`: stores the texture under the given
/// identifier and returns what was stored there before, if anything.
#[verifier::external_body]
fn textures_replace(textures: &mut imgui::Textures<Texture>, id: usize, texture: Texture) -> (was:
    Option<Texture>)
    ensures
        stored_textures(*final(textures)) == stored_textures(*old(textures)).insert(id, texture),
        next_identifier(*final(textures)) == next_identifier(*old(textures)),
        was == if stored_textures(*old(textures)).dom().contains(id) {
            Some(stored_textures(*old(textures))[id])
        } else {
            None
        },
{
    textures.replace(imgui::TextureId::new(id), texture)
}

/// `imgui::Textures::remove`: takes out what is stored under the given
/// identifier and returns it, if there is anything.
#[verifier::external_body]
fn textures_remove(textures: &mut imgui::Textures<Texture>, id: usize) -> (was: Option<Texture>)
    ensures
        stored_textures(*final(textures)) == stored_textures(*old(textures)).remove(id),
        next_identifier(*final(textures)) == next_identifier(*old(textures)),
        was == if stored_textures(*old(textures)).dom().contains(id) {
            Some(stored_textures(*old(textures))[id])
        } else {
            None
        },
{
    textures.remove(imgui::TextureId::new(id))
}

/// `imgui::Textures::get`: what is stored under the given identifier, if
/// anything.
#[verifier::external_body]
fn textures_get(textures: &imgui::Textures<Texture>, id: usize) -> (found: Option<&Texture>)
    ensures
        found == if stored_textures(*textures).dom().contains(id) {
            Some(&stored_textures(*textures)[id])
        } else {
            None
        },
{
    textures.get(imgui::TextureId::new(id))
}

/// What a registry holds: the live textures by the identifier of their
/// handle, and the identifier that the next registration gets.
pub struct RegistryView {
    pub entries: Map<usize, Texture>,
    pub next: usize,
}

impl RegistryView {
    /// The registry that nothing was registered in yet.
    pub open spec fn empty() -> RegistryView {
        RegistryView { entries: Map::empty(), next: 0 }
    }

    /// Every live handle was handed out by the registry.
    pub open spec fn wf(self) -> bool {
        forall|id: usize| self.entries.dom().contains(id) ==> id < self.next
    }

    /// Whether the handle is live.
    pub open spec fn contains(self, id: TextureId) -> bool {
        self.entries.dom().contains(id.value())
    }

    /// The texture behind a handle, if the handle is live.
    pub open spec fn get(self, id: TextureId) -> Option<Texture> {
        if self.contains(id) {
            Some(self.entries[id.value()])
        } else {
            None
        }
    }

    /// The registry after a texture was registered under the next identifier.
    pub open spec fn insert(self, texture: Texture) -> RegistryView {
        RegistryView {
            entries: self.entries.insert(self.next, texture),
            next: (self.next + 1) as usize,
        }
    }

    /// The registry after the texture behind a handle was swapped.
    pub open spec fn replace(self, id: TextureId, texture: Texture) -> RegistryView {
        RegistryView { entries: self.entries.insert(id.value(), texture), next: self.next }
    }

    /// The registry after a handle was taken out.
    pub open spec fn remove(self, id: TextureId) -> RegistryView {
        RegistryView { entries: self.entries.remove(id.value()), next: self.next }
    }
}

/// A handle that was taken out is not found any more, and no other handle
/// is touched.
pub proof fn lemma_remove_then_get(registry: RegistryView, id: TextureId, other: TextureId)
    ensures
        registry.remove(id).get(id) is None,
        other != id ==> registry.remove(id).get(other) == registry.get(other),
{
    TextureId::lemma_value_decides(id, other);
}

/// A swap keeps the handle live and puts the new texture behind it; the
/// live handles are the same as before, and no other texture is touched.
pub proof fn lemma_replace_keeps_handle(
    registry: RegistryView,
    id: TextureId,
    texture: Texture,
    other: TextureId,
)
    requires
        registry.contains(id),
    ensures
        registry.replace(id, texture).get(id) == Some(texture),
        registry.replace(id, texture).contains(other) == registry.contains(other),
        registry.replace(id, texture).entries.dom() == registry.entries.dom(),
        other != id ==> registry.replace(id, texture).get(other) == registry.get(other),
        registry.replace(id, texture).next == registry.next,
{
    TextureId::lemma_value_decides(id, other);
    assert(registry.replace(id, texture).entries.dom() =~= registry.entries.dom());
}

/// A registration gets a handle that is not live, and that no registration
/// before it got; every texture that was live stays as it was.
pub proof fn lemma_insert_is_fresh(registry: RegistryView, texture: Texture, other: TextureId)
    requires
        registry.wf(),
        registry.next < usize::MAX,
    ensures
        !registry.entries.dom().contains(registry.next),
        registry.insert(texture).entries[registry.next] == texture,
        registry.insert(texture).entries.dom().contains(registry.next),
        registry.insert(texture).wf(),
        registry.insert(texture).next > registry.next,
        registry.contains(other) ==> registry.insert(texture).get(other) == registry.get(other),
{
}

/// Taking a live handle out and registering a texture swaps the handle for a
/// new one: the old handle is not found any more, the new one was not live
/// and stands for the new texture, and every other handle is as live as it
/// was, with the texture it had.
pub proof fn lemma_reload_swaps_handle(
    registry: RegistryView,
    previous: TextureId,
    texture: Texture,
    other: TextureId,
)
    requires
        registry.wf(),
        registry.next < usize::MAX,
    ensures
        ({
            let after = registry.remove(previous).insert(texture);
            &&& after.wf()
            &&& !registry.entries.dom().contains(registry.next)
            &&& after.entries.dom() == registry.entries.dom().remove(previous.value()).insert(
                registry.next,
            )
            &&& after.entries[registry.next] == texture
            &&& registry.contains(previous) ==> !after.contains(previous)
            &&& other != previous && other.value() != registry.next ==> after.get(other)
                == registry.get(other)
        }),
{
    TextureId::lemma_value_decides(previous, other);
    let after = registry.remove(previous).insert(texture);
    assert(after.entries.dom() =~= registry.entries.dom().remove(previous.value()).insert(
        registry.next,
    ));
}

/// Where the font atlas is the one live texture, it is so again after its
/// texture was taken out and a new one registered.
pub proof fn lemma_reload_keeps_one(registry: RegistryView, previous: TextureId, texture: Texture)
    requires
        registry.wf(),
        registry.entries.dom() == set![previous.value()],
    ensures
        registry.remove(previous).insert(texture).entries.dom() == set![registry.next],
{
    assert(registry.remove(previous).insert(texture).entries.dom() =~= set![registry.next]);
}

/// The registry of textures: it owns every texture it holds and hands out a
/// handle for each.
pub struct TextureRegistry {
    textures: imgui::Textures<Texture>,
    issued: usize,
}

impl View for TextureRegistry {
    type V = RegistryView;

    closed spec fn view(&self) -> RegistryView {
        RegistryView { entries: stored_textures(self.textures), next: self.issued }
    }
}

impl TextureRegistry {
    /// The registry keeps count of the handles it has handed out, and every
    /// live handle is one of them.
    pub closed spec fn wf(&self) -> bool {
        &&& self.issued == next_identifier(self.textures)
        &&& self@.wf()
    }

    /// What `wf` says of the view.
    pub proof fn lemma_wf_view(&self)
        requires
            self.wf(),
        ensures
            self@.wf(),
    {
    }

    /// A registry without textures.
    pub fn new() -> (registry: TextureRegistry)
        ensures
            registry.wf(),
            registry@ == RegistryView::empty(),
    {
        TextureRegistry { textures: textures_new(), issued: 0 }
    }

    /// The identifier that the next registration gets.
    pub fn next_id(&self) -> (next: usize)
        ensures
            next == self@.next,
    {
        self.issued
    }

    /// Registers a texture and returns its handle, which no live texture has.
    pub fn insert(&mut self, texture: Texture) -> (id: TextureId)
        requires
            old(self).wf(),
            old(self)@.next < usize::MAX,
        ensures
            final(self).wf(),
            id.value() == old(self)@.next,
            !old(self)@.contains(id),
            final(self)@ == old(self)@.insert(texture),
    {
        let id = textures_insert(&mut self.textures, texture);
        self.issued = self.issued + 1;
        proof {
            assert forall|k: usize| self@.entries.dom().contains(k) implies k < self@.next by {
                if k != id {
                    assert(old(self)@.entries.dom().contains(k));
                }
            }
        }
        TextureId::new(id)
    }

    /// Swaps the texture behind a live handle and returns the one that was
    /// there. The handle stays as it is.
    pub fn replace(&mut self, id: TextureId, texture: Texture) -> (was: Option<Texture>)
        requires
            old(self).wf(),
            old(self)@.contains(id),
        ensures
            final(self).wf(),
            final(self)@ == old(self)@.replace(id, texture),
            was == old(self)@.get(id),
    {
        textures_replace(&mut self.textures, id.id(), texture)
    }

    /// Takes a handle out of the registry and returns its texture, or
    /// nothing where the handle is not live.
    pub fn remove(&mut self, id: TextureId) -> (was: Option<Texture>)
        requires
            old(self).wf(),
        ensures
            final(self).wf(),
            final(self)@ == old(self)@.remove(id),
            was == old(self)@.get(id),
    {
        textures_remove(&mut self.textures, id.id())
    }

    /// Looks up the texture behind a handle.
    pub fn get(&self, id: TextureId) -> (found: Option<&Texture>)
        ensures
            found == match self@.get(id) {
                Some(texture) => Some(&texture),
                None => None,
            },
    {
        textures_get(&self.textures, id.id())
    }
}

} // verus!
