use vstd::prelude::*;

use crate::context::{Context, ContextState, ProgramId};
use crate::types::{Color, Error, Vector3};

verus! {

/// One entry of a program's binding log, at the specification level: the
/// uniform name as a character sequence together with the value written.
pub enum BindEvent {
    UniformScalar { name: Seq<char>, value: u32 },
    UniformVector3 { name: Seq<char>, value: Vector3 },
    UniformColor { name: Seq<char>, value: Color },
    Texture { name: Seq<char>, texture: u32 },
    UniformBlock { name: Seq<char>, buffer: u32 },
}

/// One entry of a program's binding log: which uniform, texture slot or
/// uniform block was written, and with what.
pub enum BindingEvent {
    UniformScalar { name: String, value: u32 },
    UniformVector3 { name: String, value: Vector3 },
    UniformColor { name: String, value: Color },
    Texture { name: String, texture: u32 },
    UniformBlock { name: String, buffer: u32 },
}

impl View for BindingEvent {
    type V = BindEvent;

    open spec fn view(&self) -> BindEvent {
        match self {
            BindingEvent::UniformScalar { name, value } => BindEvent::UniformScalar {
                name: name@,
                value: *value,
            },
            BindingEvent::UniformVector3 { name, value } => BindEvent::UniformVector3 {
                name: name@,
                value: *value,
            },
            BindingEvent::UniformColor { name, value } => BindEvent::UniformColor {
                name: name@,
                value: *value,
            },
            BindingEvent::Texture { name, texture } => BindEvent::Texture {
                name: name@,
                texture: *texture,
            },
            BindingEvent::UniformBlock { name, buffer } => BindEvent::UniformBlock {
                name: name@,
                buffer: *buffer,
            },
        }
    }
}

/// The abstract state of a compiled program: its handle and the ordered log
/// of every uniform, texture and block binding written into it.
pub struct ProgramState {
    pub id: ProgramId,
    pub log: Seq<BindEvent>,
}

/// A compiled, linked GPU program. The model keeps the ordered log of the
/// bindings written into it, which is what the lighting and material
/// contracts are stated over.
pub struct Program {
    id: ProgramId,
    log: Vec<BindingEvent>,
}

impl View for Program {
    type V = ProgramState;

    closed spec fn view(&self) -> ProgramState {
        ProgramState { id: self.id, log: self.log@.map_values(|e: BindingEvent| e@) }
    }
}

impl Program {
    /// Compiles and links a program from its two shader stages.
    pub fn from_source(context: &mut Context, vertex_source: &str, fragment_source: &str) -> (r:
        Result<Program, Error>)
        ensures
            match r {
                Ok(p) => {
                    &&& final(context)@ == (ContextState {
                        programs: old(context)@.programs.push(true),
                        ..old(context)@
                    })
                    &&& !old(context)@.program_live(p@.id)
                    &&& final(context)@.program_live(p@.id)
                    &&& p@.log == Seq::<BindEvent>::empty()
                },
                Err(e) => {
                    &&& e == Error::ResourceCreationFailed
                    &&& final(context)@ == old(context)@
                },
            },
            r is Err <==> old(context)@.programs.len() >= 0xFFFF_FFFF,
    {
        let id = match context.create_program() {
            Some(id) => id,
            None => {
                return Err(Error::ResourceCreationFailed);
            },
        };
        let p = Program { id, log: Vec::new() };
        proof {
            assert(p@.log =~= Seq::<BindEvent>::empty());
        }
        Ok(p)
    }

    /// Releases the program's GPU handle.
    pub fn delete(self, context: &mut Context)
        requires
            old(context)@.program_live(self@.id),
        ensures
            final(context)@ == (ContextState {
                programs: old(context)@.programs.update(self@.id as int, false),
                ..old(context)@
            }),
            !final(context)@.program_live(self@.id),
    {
        context.delete_program(self.id);
    }

    /// Writes a scalar uniform, given in fixed-point thousandths.
    pub fn use_uniform_float(&mut self, name: &str, value: u32)
        ensures
            final(self)@.id == old(self)@.id,
            final(self)@.log == old(self)@.log.push(
                BindEvent::UniformScalar { name: name@, value },
            ),
    {
        self.log.push(BindingEvent::UniformScalar { name: name.to_owned(), value });
        proof {
            assert(self@.log =~= old(self)@.log.push(
                BindEvent::UniformScalar { name: name@, value },
            ));
        }
    }

    /// Writes a three-component vector uniform.
    pub fn use_uniform_vec3(&mut self, name: &str, value: Vector3)
        ensures
            final(self)@.id == old(self)@.id,
            final(self)@.log == old(self)@.log.push(
                BindEvent::UniformVector3 { name: name@, value },
            ),
    {
        self.log.push(BindingEvent::UniformVector3 { name: name.to_owned(), value });
        proof {
            assert(self@.log =~= old(self)@.log.push(
                BindEvent::UniformVector3 { name: name@, value },
            ));
        }
    }

    /// Writes a four-component color uniform.
    pub fn use_uniform_vec4(&mut self, name: &str, value: Color)
        ensures
            final(self)@.id == old(self)@.id,
            final(self)@.log == old(self)@.log.push(
                BindEvent::UniformColor { name: name@, value },
            ),
    {
        self.log.push(BindingEvent::UniformColor { name: name.to_owned(), value });
        proof {
            assert(self@.log =~= old(self)@.log.push(
                BindEvent::UniformColor { name: name@, value },
            ));
        }
    }

    /// Binds a texture to the sampler uniform with the given name.
    pub fn use_texture(&mut self, name: &str, texture: u32)
        ensures
            final(self)@.id == old(self)@.id,
            final(self)@.log == old(self)@.log.push(BindEvent::Texture { name: name@, texture }),
    {
        self.log.push(BindingEvent::Texture { name: name.to_owned(), texture });
        proof {
            assert(self@.log =~= old(self)@.log.push(BindEvent::Texture { name: name@, texture }));
        }
    }

    /// Binds a GPU parameter buffer to the uniform block with the given name.
    pub fn use_uniform_block(&mut self, name: &str, buffer: u32)
        ensures
            final(self)@.id == old(self)@.id,
            final(self)@.log == old(self)@.log.push(
                BindEvent::UniformBlock { name: name@, buffer },
            ),
    {
        self.log.push(BindingEvent::UniformBlock { name: name.to_owned(), buffer });
        proof {
            assert(self@.log =~= old(self)@.log.push(
                BindEvent::UniformBlock { name: name@, buffer },
            ));
        }
    }

    /// How many bindings have been written into this program.
    pub fn log_len(&self) -> (n: usize)
        ensures
            n == self@.log.len(),
    {
        self.log.len()
    }

    /// The binding written at the given position of the log.
    pub fn log_event(&self, i: usize) -> (e: &BindingEvent)
        requires
            i < self@.log.len(),
        ensures
            e@ == self@.log[i as int],
    {
        &self.log[i]
    }

    /// The program's GPU handle.
    pub fn id(&self) -> (r: ProgramId)
        ensures
            r == self@.id,
    {
        self.id
    }
}

} // verus!
