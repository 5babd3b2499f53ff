use vstd::prelude::*;

use crate::context::{Context, ContextState};
use crate::types::{Error, Format};

verus! {

/// A CPU-side image description, consumed when a GPU texture is created.
pub struct CPUTexture {
    pub data: Vec<u8>,
    pub width: usize,
    pub height: usize,
    pub format: Format,
}

impl Default for CPUTexture {
    fn default() -> (r: CPUTexture)
        ensures
            r.data@ == Seq::<u8>::empty(),
            r.width == 0,
            r.height == 0,
            r.format == Format::RGBA8,
    {
        CPUTexture { data: Vec::new(), width: 0, height: 0, format: Format::RGBA8 }
    }
}

/// True when the image holds any pixel whose alpha channel is below fully
/// opaque. Only a four-channel image has an alpha channel: its alpha bytes
/// are those at offset 3 of every group of four.
pub open spec fn has_transparent_pixel(data: Seq<u8>, format: Format) -> bool {
    format is RGBA8 && exists|i: int| 0 <= i < data.len() && i % 4 == 3 && data[i] < 255
}

/// Scans the alpha channel of an image for any non-opaque value.
fn data_is_transparent(data: &Vec<u8>, format: Format) -> (r: bool)
    ensures
        r == has_transparent_pixel(data@, format),
{
    match format {
        Format::RGBA8 => {},
        _ => {
            return false;
        },
    }
    let mut i: usize = 0;
    while i < data.len()
        invariant
            format is RGBA8,
            i <= data@.len(),
            forall|j: int| 0 <= j < i && j % 4 == 3 ==> data@[j] >= 255,
        decreases data@.len() - i,
    {
        if i % 4 == 3 && data[i] < 255 {
            proof {
                assert(format is RGBA8);
                assert(has_transparent_pixel(data@, format)) by {
                    assert(0 <= (i as int) < data@.len() && (i as int) % 4 == 3 && data@[i as int]
                        < 255);
                }
            }
            return true;
        }
        i = i + 1;
    }
    false
}

/// A GPU image resource. The handle is owned through the texture pool so
/// that several materials and lights can share one image.
#[derive(Clone, Copy, PartialEq, Eq, Structural)]
pub struct Texture2D {
    pub id: u32,
    pub width: usize,
    pub height: usize,
    pub format: Format,
    pub transparent: bool,
}

impl Texture2D {
    /// Moves the image data of a CPU-side description onto the GPU.
    pub fn new(context: &mut Context, cpu_texture: &CPUTexture) -> (r: Result<Texture2D, Error>)
        ensures
            match r {
                Ok(t) => {
                    &&& final(context)@ == (ContextState {
                        textures: old(context)@.textures.push(true),
                        ..old(context)@
                    })
                    &&& !old(context)@.texture_live(t.id)
                    &&& final(context)@.texture_live(t.id)
                    &&& t.width == cpu_texture.width
                    &&& t.height == cpu_texture.height
                    &&& t.format == cpu_texture.format
                    &&& t.transparent == has_transparent_pixel(
                        cpu_texture.data@,
                        cpu_texture.format,
                    )
                },
                Err(e) => {
                    &&& e == Error::ResourceCreationFailed
                    &&& final(context)@ == old(context)@
                },
            },
            r is Err <==> old(context)@.textures.len() >= 0xFFFF_FFFF,
    {
        let id = match context.create_texture() {
            Some(id) => id,
            None => {
                return Err(Error::ResourceCreationFailed);
            },
        };
        Ok(
            Texture2D {
                id,
                width: cpu_texture.width,
                height: cpu_texture.height,
                format: cpu_texture.format,
                transparent: data_is_transparent(&cpu_texture.data, cpu_texture.format),
            },
        )
    }

    /// Whether any pixel of this texture is not fully opaque.
    pub fn is_transparent(&self) -> (r: bool)
        ensures
            r == self.transparent,
    {
        self.transparent
    }
}

/// One shared texture of the pool together with how many owners hold it.
#[derive(Clone, Copy, PartialEq, Eq, Structural)]
pub struct PoolEntry {
    pub texture: Texture2D,
    pub refs: usize,
}

/// A reference to a shared texture of the pool.
pub type TextureRef = usize;

/// The shared-ownership arena for textures: each slot holds a texture and a
/// reference count; the last release frees the slot and deletes the GPU
/// resource.
pub struct TexturePool {
    slots: Vec<Option<PoolEntry>>,
}

impl View for TexturePool {
    type V = Seq<Option<PoolEntry>>;

    closed spec fn view(&self) -> Seq<Option<PoolEntry>> {
        self.slots@
    }
}

impl TexturePool {
    /// True when the reference points at a live shared texture.
    pub open spec fn slot_live(self, r: TextureRef) -> bool {
        r < self@.len() && self@[r as int] is Some
    }

    /// The entry behind a live reference.
    pub open spec fn entry(self, r: TextureRef) -> PoolEntry
        recommends
            self.slot_live(r),
    {
        self@[r as int]->Some_0
    }

    pub fn new() -> (r: TexturePool)
        ensures
            r@.len() == 0,
    {
        TexturePool { slots: Vec::new() }
    }

    /// Takes ownership of a texture and hands out the first reference to it.
    pub fn insert(&mut self, texture: Texture2D) -> (r: TextureRef)
        ensures
            final(self)@ == old(self)@.push(Some(PoolEntry { texture, refs: 1 })),
            r == old(self)@.len(),
            !old(self).slot_live(r),
            final(self).slot_live(r),
            final(self).entry(r) == (PoolEntry { texture, refs: 1 }),
    {
        let r = self.slots.len();
        self.slots.push(Some(PoolEntry { texture, refs: 1 }));
        r
    }

    /// Registers one more owner of a shared texture.
    pub fn retain(&mut self, r: TextureRef)
        requires
            old(self).slot_live(r),
            old(self).entry(r).refs < usize::MAX,
        ensures
            final(self)@ == old(self)@.update(
                r as int,
                Some(
                    PoolEntry {
                        texture: old(self).entry(r).texture,
                        refs: (old(self).entry(r).refs + 1) as usize,
                    },
                ),
            ),
            final(self).slot_live(r),
            final(self).entry(r).texture == old(self).entry(r).texture,
            final(self).entry(r).refs == old(self).entry(r).refs + 1,
    {
        let entry = match &self.slots[r] {
            Some(entry) => PoolEntry { texture: entry.texture, refs: entry.refs + 1 },
            None => {
                proof {
                    assert(false);
                }
                PoolEntry {
                    texture: Texture2D {
                        id: 0,
                        width: 0,
                        height: 0,
                        format: Format::RGBA8,
                        transparent: false,
                    },
                    refs: 1,
                }
            },
        };
        self.slots[r] = Some(entry);
    }

    /// Releases one owner of a shared texture. Only when the last owner
    /// releases it is the GPU resource deleted and the slot freed; until
    /// then the texture stays live for the remaining owners.
    pub fn release(&mut self, context: &mut Context, r: TextureRef) -> (deleted: bool)
        requires
            old(self).slot_live(r),
            old(context)@.texture_live(old(self).entry(r).texture.id),
        ensures
            deleted == (old(self).entry(r).refs <= 1),
            old(self).entry(r).refs > 1 ==> {
                &&& final(self)@ == old(self)@.update(
                    r as int,
                    Some(
                        PoolEntry {
                            texture: old(self).entry(r).texture,
                            refs: (old(self).entry(r).refs - 1) as usize,
                        },
                    ),
                )
                &&& final(self).slot_live(r)
                &&& final(self).entry(r).texture == old(self).entry(r).texture
                &&& final(self).entry(r).refs == old(self).entry(r).refs - 1
                &&& final(context)@ == old(context)@
                &&& final(context)@.texture_live(old(self).entry(r).texture.id)
            },
            old(self).entry(r).refs <= 1 ==> {
                &&& final(self)@ == old(self)@.update(r as int, None)
                &&& !final(self).slot_live(r)
                &&& final(context)@ == (ContextState {
                    textures: old(context)@.textures.update(
                        old(self).entry(r).texture.id as int,
                        false,
                    ),
                    ..old(context)@
                })
                &&& !final(context)@.texture_live(old(self).entry(r).texture.id)
            },
    {
        let entry = match &self.slots[r] {
            Some(entry) => PoolEntry { texture: entry.texture, refs: entry.refs },
            None => {
                proof {
                    assert(false);
                }
                PoolEntry {
                    texture: Texture2D {
                        id: 0,
                        width: 0,
                        height: 0,
                        format: Format::RGBA8,
                        transparent: false,
                    },
                    refs: 1,
                }
            },
        };
        if entry.refs > 1 {
            self.slots[r] = Some(PoolEntry { texture: entry.texture, refs: entry.refs - 1 });
            false
        } else {
            context.delete_texture(entry.texture.id);
            self.slots[r] = None;
            true
        }
    }

    /// The texture behind a live reference.
    pub fn texture(&self, r: TextureRef) -> (t: Texture2D)
        requires
            self.slot_live(r),
        ensures
            t == self.entry(r).texture,
    {
        match &self.slots[r] {
            Some(entry) => entry.texture,
            None => {
                proof {
                    assert(false);
                }
                Texture2D { id: 0, width: 0, height: 0, format: Format::RGBA8, transparent: false }
            },
        }
    }

    /// How many owners currently hold the referenced texture.
    pub fn ref_count(&self, r: TextureRef) -> (n: usize)
        requires
            self.slot_live(r),
        ensures
            n == self.entry(r).refs,
    {
        match &self.slots[r] {
            Some(entry) => entry.refs,
            None => {
                proof {
                    assert(false);
                }
                0
            },
        }
    }

    /// How many slots the pool has ever created, free slots included.
    pub fn len(&self) -> (n: usize)
        ensures
            n == self@.len(),
    {
        self.slots.len()
    }

    /// Whether the reference still points at a live shared texture.
    pub fn contains(&self, r: TextureRef) -> (b: bool)
        ensures
            b == self.slot_live(r),
    {
        r < self.slots.len() && self.slots[r].is_some()
    }
}

} // verus!
