//! The command-submission interface, modelled as an ordered log.
//!
//! Every operation the adapter would hand to the GPU — clears, buffer
//! uploads, draw submissions — is recorded as a [`Command`], in the order it
//! was issued. A host layer that owns the real device replays the log; the
//! contracts of the drawing operations pin down exactly which commands each
//! call appends.

use vstd::prelude::*;

use crate::draw_state::{Color, DrawState};
use crate::texture::Texture;

verus! {

/// One command submitted to the device. Draw commands carry a snapshot of
/// the pipeline state and uniforms they were submitted with, and an
/// unindexed triangle-list vertex range `[start, end)`.
#[derive(Clone, PartialEq, Eq, Debug)]
pub enum Command {
    /// Clear the target's color buffer.
    Clear { color: Color },
    /// Upload components into the shared position buffer at offset zero.
    UpdatePositionBuffer { data: Vec<u32> },
    /// Upload components into the texture-coordinate buffer at offset zero.
    UpdateUvBuffer { data: Vec<u32> },
    /// Draw with the solid-color pipeline.
    DrawSolid { state: DrawState, color: Color, start: usize, end: usize },
    /// Draw with the textured pipeline, sampling the carried texture.
    DrawTextured { state: DrawState, color: Color, texture: Texture, start: usize, end: usize },
}

/// The mathematical view of a [`Command`].
pub enum CommandModel {
    Clear { color: Color },
    UpdatePositionBuffer { data: Seq<u32> },
    UpdateUvBuffer { data: Seq<u32> },
    DrawSolid { state: DrawState, color: Color, start: usize, end: usize },
    DrawTextured { state: DrawState, color: Color, texture: Texture, start: usize, end: usize },
}

impl View for Command {
    type V = CommandModel;

    open spec fn view(&self) -> CommandModel {
        match self {
            Command::Clear { color } => CommandModel::Clear { color: *color },
            Command::UpdatePositionBuffer { data } => CommandModel::UpdatePositionBuffer {
                data: data@,
            },
            Command::UpdateUvBuffer { data } => CommandModel::UpdateUvBuffer { data: data@ },
            Command::DrawSolid { state, color, start, end } => CommandModel::DrawSolid {
                state: *state,
                color: *color,
                start: *start,
                end: *end,
            },
            Command::DrawTextured { state, color, texture, start, end } => {
                CommandModel::DrawTextured {
                    state: *state,
                    color: *color,
                    texture: *texture,
                    start: *start,
                    end: *end,
                }
            },
        }
    }
}

/// The command-submission handle: it stands for the device's command stream
/// and records every submitted command in order.
#[derive(Clone, PartialEq, Eq, Debug)]
pub struct Renderer {
    pub commands: Vec<Command>,
}

impl View for Renderer {
    type V = Seq<CommandModel>;

    open spec fn view(&self) -> Seq<CommandModel> {
        self.commands@.map_values(|c: Command| c@)
    }
}

impl Renderer {
    /// A fresh command stream with nothing submitted.
    pub fn new() -> (r: Renderer)
        ensures
            r@ == Seq::<CommandModel>::empty(),
    {
        let r = Renderer { commands: Vec::new() };
        proof {
            assert(r@ =~= Seq::<CommandModel>::empty());
        }
        r
    }

    /// Submits one command: the log grows by exactly that command, at the
    /// end.
    pub fn submit(&mut self, c: Command)
        ensures
            final(self)@ == old(self)@.push(c@),
    {
        let ghost cv = c@;
        self.commands.push(c);
        proof {
            assert(self@ =~= old(self)@.push(cv));
        }
    }
}

} // verus!
