use vstd::prelude::*;

use crate::types::Error;

verus! {

pub type AttributeLocation = u32;
pub type UniformLocation = u32;
pub type Shader = u32;
pub type ProgramId = u32;
pub type Buffer = u32;
pub type Framebuffer = u32;
pub type Renderbuffer = u32;
pub type Texture = u32;
pub type VertexArrayObject = u32;

/// The GL code for 32-bit floating point attribute data.
pub const FLOAT: u32 = 0x1406;

/// The GL code for 32-bit unsigned integer attribute data.
pub const UNSIGNED_INT: u32 = 0x1405;

/// Description of an active attribute or uniform of a compiled program.
pub struct ActiveInfo {
    size: u32,
    type_: u32,
    name: String,
}

impl ActiveInfo {
    pub closed spec fn spec_size(self) -> u32 {
        self.size
    }

    pub closed spec fn spec_type(self) -> u32 {
        self.type_
    }

    pub closed spec fn spec_name(self) -> Seq<char> {
        self.name@
    }

    pub fn new(size: u32, type_: u32, name: String) -> (r: ActiveInfo)
        ensures
            r.spec_size() == size,
            r.spec_type() == type_,
            r.spec_name() == name@,
    {
        ActiveInfo { size, type_, name }
    }

    pub fn size(&self) -> (r: i32)
        ensures
            r == self.spec_size() as i32,
    {
        self.size as i32
    }

    pub fn type_(&self) -> (r: u32)
        ensures
            r == self.spec_type(),
    {
        self.type_
    }

    pub fn name(&self) -> (r: String)
        ensures
            r@ == self.spec_name(),
    {
        self.name.clone()
    }
}

/// The storage parameters of an allocated render buffer.
#[derive(Clone, Copy, PartialEq, Eq, Structural)]
pub struct RenderbufferStorage {
    pub pixel_format: u32,
    pub width: usize,
    pub height: usize,
}

/// The abstract state of a graphics context: which handles of each resource
/// kind are currently allocated, and the storage behind each render buffer.
/// A handle is an index into the sequence of its kind; a `true` (or `Some`)
/// entry is a live resource.
pub struct ContextState {
    pub textures: Seq<bool>,
    pub buffers: Seq<bool>,
    pub framebuffers: Seq<bool>,
    pub renderbuffers: Seq<Option<RenderbufferStorage>>,
    pub programs: Seq<bool>,
}

impl ContextState {
    pub open spec fn texture_live(self, id: u32) -> bool {
        id < self.textures.len() && self.textures[id as int]
    }

    pub open spec fn buffer_live(self, id: u32) -> bool {
        id < self.buffers.len() && self.buffers[id as int]
    }

    pub open spec fn framebuffer_live(self, id: u32) -> bool {
        id < self.framebuffers.len() && self.framebuffers[id as int]
    }

    pub open spec fn renderbuffer_live(self, id: u32) -> bool {
        id < self.renderbuffers.len() && self.renderbuffers[id as int] is Some
    }

    pub open spec fn renderbuffer_storage(self, id: u32) -> RenderbufferStorage
        recommends
            self.renderbuffer_live(id),
    {
        self.renderbuffers[id as int]->Some_0
    }

    pub open spec fn program_live(self, id: u32) -> bool {
        id < self.programs.len() && self.programs[id as int]
    }
}

/// A model of the graphics context collaborator. It tracks which GPU resource
/// handles are allocated; the primitive GPU commands themselves are issued by
/// the surrounding application and are outside this model.
pub struct Context {
    textures: Vec<bool>,
    buffers: Vec<bool>,
    framebuffers: Vec<bool>,
    renderbuffers: Vec<Option<RenderbufferStorage>>,
    programs: Vec<bool>,
}

impl View for Context {
    type V = ContextState;

    closed spec fn view(&self) -> ContextState {
        ContextState {
            textures: self.textures@,
            buffers: self.buffers@,
            framebuffers: self.framebuffers@,
            renderbuffers: self.renderbuffers@,
            programs: self.programs@,
        }
    }
}

impl Context {
    /// A context with no resources allocated.
    pub fn new_stub() -> (r: Context)
        ensures
            r@.textures.len() == 0,
            r@.buffers.len() == 0,
            r@.framebuffers.len() == 0,
            r@.renderbuffers.len() == 0,
            r@.programs.len() == 0,
    {
        Context {
            textures: Vec::new(),
            buffers: Vec::new(),
            framebuffers: Vec::new(),
            renderbuffers: Vec::new(),
            programs: Vec::new(),
        }
    }

    /// Sets up a fresh context once the caller has made its API available.
    pub fn load_with() -> (r: Context)
        ensures
            r@.textures.len() == 0,
            r@.buffers.len() == 0,
            r@.framebuffers.len() == 0,
            r@.renderbuffers.len() == 0,
            r@.programs.len() == 0,
    {
        Context::new_stub()
    }

    pub fn create_texture(&mut self) -> (r: Option<Texture>)
        ensures
            match r {
                Some(id) => {
                    &&& id == old(self)@.textures.len()
                    &&& !old(self)@.texture_live(id)
                    &&& final(self)@ == (ContextState {
                        textures: old(self)@.textures.push(true),
                        ..old(self)@
                    })
                    &&& final(self)@.texture_live(id)
                    &&& forall|t: u32| final(self)@.texture_live(t) == (old(self)@.texture_live(t) || t
                        == id)
                },
                None => final(self)@ == old(self)@,
            },
            r is None <==> old(self)@.textures.len() >= 0xFFFF_FFFF,
    {
        if self.textures.len() >= 0xFFFF_FFFFusize {
            None
        } else {
            let id = self.textures.len() as u32;
            self.textures.push(true);
            Some(id)
        }
    }

    pub fn delete_texture(&mut self, id: Texture)
        requires
            old(self)@.texture_live(id),
        ensures
            final(self)@ == (ContextState {
                textures: old(self)@.textures.update(id as int, false),
                ..old(self)@
            }),
            !final(self)@.texture_live(id),
            forall|t: u32| t != id ==> final(self)@.texture_live(t) == old(self)@.texture_live(t),
    {
        self.textures[id as usize] = false;
    }

    pub fn create_buffer(&mut self) -> (r: Option<Buffer>)
        ensures
            match r {
                Some(id) => {
                    &&& id == old(self)@.buffers.len()
                    &&& !old(self)@.buffer_live(id)
                    &&& final(self)@ == (ContextState {
                        buffers: old(self)@.buffers.push(true),
                        ..old(self)@
                    })
                    &&& final(self)@.buffer_live(id)
                    &&& forall|t: u32| final(self)@.buffer_live(t) == (old(self)@.buffer_live(t) || t
                        == id)
                },
                None => final(self)@ == old(self)@,
            },
            r is None <==> old(self)@.buffers.len() >= 0xFFFF_FFFF,
    {
        if self.buffers.len() >= 0xFFFF_FFFFusize {
            None
        } else {
            let id = self.buffers.len() as u32;
            self.buffers.push(true);
            Some(id)
        }
    }

    pub fn delete_buffer(&mut self, id: Buffer)
        requires
            old(self)@.buffer_live(id),
        ensures
            final(self)@ == (ContextState {
                buffers: old(self)@.buffers.update(id as int, false),
                ..old(self)@
            }),
            !final(self)@.buffer_live(id),
            forall|t: u32| t != id ==> final(self)@.buffer_live(t) == old(self)@.buffer_live(t),
    {
        self.buffers[id as usize] = false;
    }

    pub fn create_framebuffer(&mut self) -> (r: Option<Framebuffer>)
        ensures
            match r {
                Some(id) => {
                    &&& id == old(self)@.framebuffers.len()
                    &&& !old(self)@.framebuffer_live(id)
                    &&& final(self)@ == (ContextState {
                        framebuffers: old(self)@.framebuffers.push(true),
                        ..old(self)@
                    })
                    &&& final(self)@.framebuffer_live(id)
                    &&& forall|t: u32| final(self)@.framebuffer_live(t) == (old(self)@.framebuffer_live(t)
                        || t == id)
                },
                None => final(self)@ == old(self)@,
            },
            r is None <==> old(self)@.framebuffers.len() >= 0xFFFF_FFFF,
    {
        if self.framebuffers.len() >= 0xFFFF_FFFFusize {
            None
        } else {
            let id = self.framebuffers.len() as u32;
            self.framebuffers.push(true);
            Some(id)
        }
    }

    pub fn delete_framebuffer(&mut self, id: Framebuffer)
        requires
            old(self)@.framebuffer_live(id),
        ensures
            final(self)@ == (ContextState {
                framebuffers: old(self)@.framebuffers.update(id as int, false),
                ..old(self)@
            }),
            !final(self)@.framebuffer_live(id),
            forall|t: u32| t != id ==> final(self)@.framebuffer_live(t) == old(self)@.framebuffer_live(t),
    {
        self.framebuffers[id as usize] = false;
    }

    pub fn create_program(&mut self) -> (r: Option<ProgramId>)
        ensures
            match r {
                Some(id) => {
                    &&& id == old(self)@.programs.len()
                    &&& !old(self)@.program_live(id)
                    &&& final(self)@ == (ContextState {
                        programs: old(self)@.programs.push(true),
                        ..old(self)@
                    })
                    &&& final(self)@.program_live(id)
                    &&& forall|t: u32| final(self)@.program_live(t) == (old(self)@.program_live(t) || t
                        == id)
                },
                None => final(self)@ == old(self)@,
            },
            r is None <==> old(self)@.programs.len() >= 0xFFFF_FFFF,
    {
        if self.programs.len() >= 0xFFFF_FFFFusize {
            None
        } else {
            let id = self.programs.len() as u32;
            self.programs.push(true);
            Some(id)
        }
    }

    pub fn delete_program(&mut self, id: ProgramId)
        requires
            old(self)@.program_live(id),
        ensures
            final(self)@ == (ContextState {
                programs: old(self)@.programs.update(id as int, false),
                ..old(self)@
            }),
            !final(self)@.program_live(id),
            forall|t: u32| t != id ==> final(self)@.program_live(t) == old(self)@.program_live(t),
    {
        self.programs[id as usize] = false;
    }

    fn create_renderbuffer(&mut self, storage: RenderbufferStorage) -> (r: Option<Renderbuffer>)
        ensures
            match r {
                Some(id) => {
                    &&& id == old(self)@.renderbuffers.len()
                    &&& !old(self)@.renderbuffer_live(id)
                    &&& final(self)@ == (ContextState {
                        renderbuffers: old(self)@.renderbuffers.push(Some(storage)),
                        ..old(self)@
                    })
                    &&& final(self)@.renderbuffer_live(id)
                    &&& final(self)@.renderbuffer_storage(id) == storage
                },
                None => final(self)@ == old(self)@,
            },
            r is None <==> old(self)@.renderbuffers.len() >= 0xFFFF_FFFF,
    {
        if self.renderbuffers.len() >= 0xFFFF_FFFFusize {
            None
        } else {
            let id = self.renderbuffers.len() as u32;
            self.renderbuffers.push(Some(storage));
            Some(id)
        }
    }

    fn delete_renderbuffer(&mut self, id: Renderbuffer)
        requires
            old(self)@.renderbuffer_live(id),
        ensures
            final(self)@ == (ContextState {
                renderbuffers: old(self)@.renderbuffers.update(id as int, None),
                ..old(self)@
            }),
            !final(self)@.renderbuffer_live(id),
            forall|t: u32|
                t != id ==> final(self)@.renderbuffer_live(t) == old(self)@.renderbuffer_live(t),
    {
        self.renderbuffers[id as usize] = None;
    }

    /// Allocates the frame buffer and the render buffer backing an off-screen
    /// target, with the render buffer's storage sized to the given extent.
    pub fn create_headless_buffers(&mut self, pixel_format: u32, width: usize, height: usize) -> (r:
        Option<(Framebuffer, Renderbuffer)>)
        ensures
            match r {
                Some((fb, rb)) => {
                    &&& final(self)@ == (ContextState {
                        framebuffers: old(self)@.framebuffers.push(true),
                        renderbuffers: old(self)@.renderbuffers.push(
                            Some(RenderbufferStorage { pixel_format, width, height }),
                        ),
                        ..old(self)@
                    })
                    &&& final(self)@.framebuffer_live(fb)
                    &&& !old(self)@.framebuffer_live(fb)
                    &&& final(self)@.renderbuffer_live(rb)
                    &&& !old(self)@.renderbuffer_live(rb)
                    &&& final(self)@.renderbuffer_storage(rb) == (RenderbufferStorage {
                        pixel_format,
                        width,
                        height,
                    })
                },
                None => final(self)@ == old(self)@,
            },
            r is None <==> (old(self)@.renderbuffers.len() >= 0xFFFF_FFFF || old(
                self,
            )@.framebuffers.len() >= 0xFFFF_FFFF),
    {
        if self.renderbuffers.len() >= 0xFFFF_FFFFusize || self.framebuffers.len()
            >= 0xFFFF_FFFFusize {
            return None;
        }
        let rb = match self.create_renderbuffer(
            RenderbufferStorage { pixel_format, width, height },
        ) {
            Some(rb) => rb,
            None => {
                return None;
            },
        };
        let fb = match self.create_framebuffer() {
            Some(fb) => fb,
            None => {
                proof {
                    assert(false);
                }
                return None;
            },
        };
        Some((fb, rb))
    }

    /// Reallocates the storage of an existing render buffer to a new size.
    pub fn resize_renderbuffer_storage(
        &mut self,
        render_buf_id: u32,
        pixel_format: u32,
        width: usize,
        height: usize,
    ) -> (r: Result<(), Error>)
        requires
            old(self)@.renderbuffer_live(render_buf_id),
        ensures
            r is Ok,
            final(self)@ == (ContextState {
                renderbuffers: old(self)@.renderbuffers.update(
                    render_buf_id as int,
                    Some(RenderbufferStorage { pixel_format, width, height }),
                ),
                ..old(self)@
            }),
            final(self)@.renderbuffer_live(render_buf_id),
            final(self)@.renderbuffer_storage(render_buf_id) == (RenderbufferStorage {
                pixel_format,
                width,
                height,
            }),
    {
        self.renderbuffers[render_buf_id as usize] = Some(
            RenderbufferStorage { pixel_format, width, height },
        );
        Ok(())
    }

    /// Releases the two buffers of an off-screen target.
    pub fn delete_headless_target(&mut self, framebuffer_id: Framebuffer, renderbuffer_id:
        Renderbuffer)
        requires
            old(self)@.framebuffer_live(framebuffer_id),
            old(self)@.renderbuffer_live(renderbuffer_id),
        ensures
            final(self)@ == (ContextState {
                framebuffers: old(self)@.framebuffers.update(framebuffer_id as int, false),
                renderbuffers: old(self)@.renderbuffers.update(renderbuffer_id as int, None),
                ..old(self)@
            }),
            !final(self)@.framebuffer_live(framebuffer_id),
            !final(self)@.renderbuffer_live(renderbuffer_id),
    {
        self.delete_framebuffer(framebuffer_id);
        self.delete_renderbuffer(renderbuffer_id);
    }

    /// The completeness of the bound render target. Every target this
    /// model allocates is complete; an incomplete status would be fatal
    /// for the current frame.
    pub fn check_framebuffer_status(&self) -> (r: Result<(), Error>)
        ensures
            r is Ok,
    {
        check_framebuffer_status_code(FRAMEBUFFER_COMPLETE)
    }

    /// Whether one more texture can be allocated.
    pub fn can_create_texture(&self) -> (r: bool)
        ensures
            r == (self@.textures.len() < 0xFFFF_FFFF),
    {
        self.textures.len() < 0xFFFF_FFFFusize
    }

    /// Whether `n` more textures can be allocated.
    pub fn can_create_textures(&self, n: u32) -> (r: bool)
        ensures
            r == (self@.textures.len() + n <= 0xFFFF_FFFF),
    {
        (self.textures.len() as u64) <= 0xFFFF_FFFFu64 - (n as u64)
    }

    /// Whether one more buffer can be allocated.
    pub fn can_create_buffer(&self) -> (r: bool)
        ensures
            r == (self@.buffers.len() < 0xFFFF_FFFF),
    {
        self.buffers.len() < 0xFFFF_FFFFusize
    }

    pub fn texture_is_live(&self, id: Texture) -> (r: bool)
        ensures
            r == self@.texture_live(id),
    {
        (id as usize) < self.textures.len() && self.textures[id as usize]
    }

    pub fn buffer_is_live(&self, id: Buffer) -> (r: bool)
        ensures
            r == self@.buffer_live(id),
    {
        (id as usize) < self.buffers.len() && self.buffers[id as usize]
    }

    pub fn framebuffer_is_live(&self, id: Framebuffer) -> (r: bool)
        ensures
            r == self@.framebuffer_live(id),
    {
        (id as usize) < self.framebuffers.len() && self.framebuffers[id as usize]
    }

    pub fn renderbuffer_is_live(&self, id: Renderbuffer) -> (r: bool)
        ensures
            r == self@.renderbuffer_live(id),
    {
        (id as usize) < self.renderbuffers.len() && self.renderbuffers[id as usize].is_some()
    }

    pub fn program_is_live(&self, id: ProgramId) -> (r: bool)
        ensures
            r == self@.program_live(id),
    {
        (id as usize) < self.programs.len() && self.programs[id as usize]
    }

    pub fn renderbuffer_size(&self, id: Renderbuffer) -> (r: (usize, usize))
        requires
            self@.renderbuffer_live(id),
        ensures
            r.0 == self@.renderbuffer_storage(id).width,
            r.1 == self@.renderbuffer_storage(id).height,
    {
        match &self.renderbuffers[id as usize] {
            Some(storage) => (storage.width, storage.height),
            None => (0, 0),
        }
    }
}

/// The GL code reporting a complete framebuffer.
pub const FRAMEBUFFER_COMPLETE: u32 = 0x8CD5;

pub const FRAMEBUFFER_INCOMPLETE_ATTACHMENT: u32 = 0x8CD6;

pub const FRAMEBUFFER_INCOMPLETE_MISSING_ATTACHMENT: u32 = 0x8CD7;

pub const FRAMEBUFFER_INCOMPLETE_DRAW_BUFFER: u32 = 0x8CDB;

pub const FRAMEBUFFER_INCOMPLETE_READ_BUFFER: u32 = 0x8CDC;

pub const FRAMEBUFFER_UNSUPPORTED: u32 = 0x8CDD;

pub const FRAMEBUFFER_INCOMPLETE_MULTISAMPLE: u32 = 0x8D56;

pub const FRAMEBUFFER_INCOMPLETE_LAYER_TARGETS: u32 = 0x8DA8;

pub const FRAMEBUFFER_UNDEFINED: u32 = 0x8219;

/// The incompleteness reason reported for a framebuffer status code.
pub open spec fn spec_framebuffer_status_message(status: u32) -> Seq<char> {
    if status == FRAMEBUFFER_INCOMPLETE_ATTACHMENT {
        "FRAMEBUFFER_INCOMPLETE_ATTACHMENT"@
    } else if status == FRAMEBUFFER_INCOMPLETE_DRAW_BUFFER {
        "FRAMEBUFFER_INCOMPLETE_DRAW_BUFFER"@
    } else if status == FRAMEBUFFER_INCOMPLETE_MISSING_ATTACHMENT {
        "FRAMEBUFFER_INCOMPLETE_MISSING_ATTACHMENT"@
    } else if status == FRAMEBUFFER_UNSUPPORTED {
        "FRAMEBUFFER_UNSUPPORTED"@
    } else if status == FRAMEBUFFER_UNDEFINED {
        "FRAMEBUFFER_UNDEFINED"@
    } else if status == FRAMEBUFFER_INCOMPLETE_READ_BUFFER {
        "FRAMEBUFFER_INCOMPLETE_READ_BUFFER"@
    } else if status == FRAMEBUFFER_INCOMPLETE_MULTISAMPLE {
        "FRAMEBUFFER_INCOMPLETE_MULTISAMPLE"@
    } else if status == FRAMEBUFFER_INCOMPLETE_LAYER_TARGETS {
        "FRAMEBUFFER_INCOMPLETE_LAYER_TARGETS"@
    } else {
        "Unknown framebuffer error"@
    }
}

/// Classifies a framebuffer status code: complete is success, anything
/// else is a framebuffer-incompleteness error carrying the specific
/// reason, which is fatal for the current frame.
pub fn check_framebuffer_status_code(status: u32) -> (r: Result<(), Error>)
    ensures
        r is Ok <==> status == FRAMEBUFFER_COMPLETE,
        r is Err ==> (r->Err_0 matches Error::FramebufferIncomplete(m) && m@
            == spec_framebuffer_status_message(status)),
{
    if status == FRAMEBUFFER_COMPLETE {
        Ok(())
    } else if status == FRAMEBUFFER_INCOMPLETE_ATTACHMENT {
        Err(Error::FramebufferIncomplete("FRAMEBUFFER_INCOMPLETE_ATTACHMENT".to_owned()))
    } else if status == FRAMEBUFFER_INCOMPLETE_DRAW_BUFFER {
        Err(Error::FramebufferIncomplete("FRAMEBUFFER_INCOMPLETE_DRAW_BUFFER".to_owned()))
    } else if status == FRAMEBUFFER_INCOMPLETE_MISSING_ATTACHMENT {
        Err(Error::FramebufferIncomplete("FRAMEBUFFER_INCOMPLETE_MISSING_ATTACHMENT".to_owned()))
    } else if status == FRAMEBUFFER_UNSUPPORTED {
        Err(Error::FramebufferIncomplete("FRAMEBUFFER_UNSUPPORTED".to_owned()))
    } else if status == FRAMEBUFFER_UNDEFINED {
        Err(Error::FramebufferIncomplete("FRAMEBUFFER_UNDEFINED".to_owned()))
    } else if status == FRAMEBUFFER_INCOMPLETE_READ_BUFFER {
        Err(Error::FramebufferIncomplete("FRAMEBUFFER_INCOMPLETE_READ_BUFFER".to_owned()))
    } else if status == FRAMEBUFFER_INCOMPLETE_MULTISAMPLE {
        Err(Error::FramebufferIncomplete("FRAMEBUFFER_INCOMPLETE_MULTISAMPLE".to_owned()))
    } else if status == FRAMEBUFFER_INCOMPLETE_LAYER_TARGETS {
        Err(Error::FramebufferIncomplete("FRAMEBUFFER_INCOMPLETE_LAYER_TARGETS".to_owned()))
    } else {
        Err(Error::FramebufferIncomplete("Unknown framebuffer error".to_owned()))
    }
}

/// Classifies a shader compile outcome as the driver reports it: a true
/// status is success; a false one is a compile error carrying the
/// driver's diagnostic text, fatal for the shader variant being built and
/// for nothing else.
pub fn check_compile_status(success: bool, info_log: String) -> (r: Result<(), Error>)
    ensures
        r is Ok <==> success,
        r is Err ==> (r->Err_0 matches Error::ShaderCompileError(m) && m@ == info_log@),
{
    if success {
        Ok(())
    } else {
        Err(Error::ShaderCompileError(info_log))
    }
}

/// Classifies a program link outcome as the driver reports it: a true
/// status is success; a false one is a link error carrying the driver's
/// diagnostic text, fatal for the program being linked and for nothing
/// else.
pub fn check_link_status(success: bool, info_log: String) -> (r: Result<(), Error>)
    ensures
        r is Ok <==> success,
        r is Err ==> (r->Err_0 matches Error::ShaderLinkError(m) && m@ == info_log@),
{
    if success {
        Ok(())
    } else {
        Err(Error::ShaderLinkError(info_log))
    }
}

/// The number of bytes that `count` components of the given GL data type
/// occupy; zero for a type code this layer does not recognize.
pub fn byte_size_for_type(data_type: u32, count: u32) -> (r: u32)
    requires
        count <= 0x3FFF_FFFF,
    ensures
        data_type == FLOAT ==> r == count * 4,
        data_type == UNSIGNED_INT ==> r == count * 4,
        data_type != FLOAT && data_type != UNSIGNED_INT ==> r == 0,
{
    match data_type {
        FLOAT => count * 4,
        UNSIGNED_INT => count * 4,
        _ => 0,
    }
}

} // verus!
