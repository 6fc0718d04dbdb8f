use vstd::prelude::*;

use core::ops::Range;

use crate::binding::BindingGroup;
use crate::buffer::{uniform_copy, IndexBuffer, UniformBuffer, VertexBuffer};
use crate::error::Error;
use crate::pipeline::Pipeline;

verus! {

/// What a pass does with its target's prior content.
#[derive(Copy, Clone, PartialEq, Eq, Debug, Structural)]
pub enum LoadOp {
    /// Discard it and start from the pass's clear color.
    Clear,
    /// Keep it.
    Load,
}

/// One recorded command of a pass.
#[derive(Copy, Clone, PartialEq, Eq, Debug, Structural)]
pub enum PassCommand {
    SetPipeline,
    SetBinding { set_index: u32 },
    SetIndexBuffer { size: u32 },
    SetVertexBuffer { size: u32 },
    /// Draws vertices `vertex_start..vertex_end` of the bound vertex buffer,
    /// for instances `instance_start..instance_end`.
    Draw { vertex_start: u32, vertex_end: u32, instance_start: u32, instance_end: u32 },
    /// Draws indices `index_start..index_end` of the bound index buffer, for
    /// instances `instance_start..instance_end`.
    DrawIndexed { index_start: u32, index_end: u32, instance_start: u32, instance_end: u32 },
}

/// Recording against one render target, nested in a frame.
#[derive(Debug)]
pub struct Pass {
    frame: u64,
    open: bool,
    load: LoadOp,
    vertex_buffer: Option<u32>,
    index_buffer: Option<u32>,
    commands: Vec<PassCommand>,
}

impl Pass {
    /// The pass accepts commands.
    pub closed spec fn spec_open(&self) -> bool {
        self.open
    }

    /// The commands recorded so far, in order.
    pub closed spec fn recorded(&self) -> Seq<PassCommand> {
        self.commands@
    }

    /// The size of the vertex buffer in use, if one was set.
    pub closed spec fn vertex_size(&self) -> Option<u32> {
        self.vertex_buffer
    }

    /// The size of the index buffer in use, if one was set.
    pub closed spec fn index_size(&self) -> Option<u32> {
        self.index_buffer
    }

    pub closed spec fn spec_load(&self) -> LoadOp {
        self.load
    }

    /// The identity of the frame that opened the pass.
    pub closed spec fn owner(&self) -> u64 {
        self.frame
    }

    /// `next` is `prev` with `cmd` recorded and everything else unchanged.
    pub open spec fn records(prev: Pass, next: Pass, cmd: PassCommand) -> bool {
        &&& next.owner() == prev.owner()
        &&& next.spec_open() == prev.spec_open()
        &&& next.spec_load() == prev.spec_load()
        &&& next.recorded() == prev.recorded().push(cmd)
        &&& next.vertex_size() == prev.vertex_size()
        &&& next.index_size() == prev.index_size()
    }

    fn begin(frame: u64, load: LoadOp) -> (p: Pass)
        ensures
            p.owner() == frame,
            p.spec_open(),
            p.spec_load() == load,
            p.recorded() == Seq::<PassCommand>::empty(),
            p.vertex_size() is None,
            p.index_size() is None,
    {
        Pass { frame, open: true, load, vertex_buffer: None, index_buffer: None, commands: Vec::new() }
    }

    /// Whether the pass still accepts commands.
    pub fn is_open(&self) -> (b: bool)
        ensures
            b == self.spec_open(),
    {
        self.open
    }

    /// What the pass does with its target's prior content.
    pub fn load(&self) -> (l: LoadOp)
        ensures
            l == self.spec_load(),
    {
        self.load
    }

    /// The commands recorded so far, in order.
    pub fn commands(&self) -> (c: &[PassCommand])
        ensures
            c@ == self.recorded(),
    {
        self.commands.as_slice()
    }

    fn record(&mut self, cmd: PassCommand)
        ensures
            Pass::records(*old(self), *final(self), cmd),
    {
        self.commands.push(cmd);
    }

    pub fn set_pipeline(&mut self, pipeline: &Pipeline) -> (res: Result<PassCommand, Error>)
        ensures
            !old(self).spec_open() ==> res == Err::<PassCommand, Error>(Error::PassClosed)
                && *final(self) == *old(self),
            old(self).spec_open() ==> res == Ok::<PassCommand, Error>(PassCommand::SetPipeline)
                && Pass::records(*old(self), *final(self), PassCommand::SetPipeline),
    {
        if !self.open {
            return Err(Error::PassClosed);
        }
        self.record(PassCommand::SetPipeline);
        Ok(PassCommand::SetPipeline)
    }

    /// Activates `group` at its set index.
    pub fn set_binding(&mut self, group: &BindingGroup) -> (res: Result<PassCommand, Error>)
        ensures
            !old(self).spec_open() ==> res == Err::<PassCommand, Error>(Error::PassClosed)
                && *final(self) == *old(self),
            old(self).spec_open() ==> res == Ok::<PassCommand, Error>(
                PassCommand::SetBinding { set_index: group.set_index },
            ) && Pass::records(
                *old(self),
                *final(self),
                PassCommand::SetBinding { set_index: group.set_index },
            ),
    {
        if !self.open {
            return Err(Error::PassClosed);
        }
        let cmd = PassCommand::SetBinding { set_index: group.set_index };
        self.record(cmd);
        Ok(cmd)
    }

    pub fn set_index_buffer(&mut self, buf: &IndexBuffer) -> (res: Result<PassCommand, Error>)
        ensures
            !old(self).spec_open() ==> res == Err::<PassCommand, Error>(Error::PassClosed)
                && *final(self) == *old(self),
            old(self).spec_open() ==> {
                &&& res == Ok::<PassCommand, Error>(PassCommand::SetIndexBuffer { size: buf.size })
                &&& final(self).owner() == old(self).owner()
                &&& final(self).spec_open()
                &&& final(self).spec_load() == old(self).spec_load()
                &&& final(self).recorded() == old(self).recorded().push(
                    PassCommand::SetIndexBuffer { size: buf.size },
                )
                &&& final(self).index_size() == Some(buf.size)
                &&& final(self).vertex_size() == old(self).vertex_size()
            },
    {
        if !self.open {
            return Err(Error::PassClosed);
        }
        let cmd = PassCommand::SetIndexBuffer { size: buf.size };
        self.commands.push(cmd);
        self.index_buffer = Some(buf.size);
        Ok(cmd)
    }

    pub fn set_vertex_buffer(&mut self, buf: &VertexBuffer) -> (res: Result<PassCommand, Error>)
        ensures
            !old(self).spec_open() ==> res == Err::<PassCommand, Error>(Error::PassClosed)
                && *final(self) == *old(self),
            old(self).spec_open() ==> {
                &&& res == Ok::<PassCommand, Error>(PassCommand::SetVertexBuffer { size: buf.size })
                &&& final(self).owner() == old(self).owner()
                &&& final(self).spec_open()
                &&& final(self).spec_load() == old(self).spec_load()
                &&& final(self).recorded() == old(self).recorded().push(
                    PassCommand::SetVertexBuffer { size: buf.size },
                )
                &&& final(self).vertex_size() == Some(buf.size)
                &&& final(self).index_size() == old(self).index_size()
            },
    {
        if !self.open {
            return Err(Error::PassClosed);
        }
        let cmd = PassCommand::SetVertexBuffer { size: buf.size };
        self.commands.push(cmd);
        self.vertex_buffer = Some(buf.size);
        Ok(cmd)
    }

    /// Draws every vertex of `buf`, one instance.
    pub fn draw_buffer(&mut self, buf: &VertexBuffer) -> (res: Result<PassCommand, Error>)
        ensures
            !old(self).spec_open() ==> res == Err::<PassCommand, Error>(Error::PassClosed)
                && *final(self) == *old(self),
            old(self).spec_open() ==> {
                let draw = PassCommand::Draw {
                    vertex_start: 0,
                    vertex_end: buf.size,
                    instance_start: 0,
                    instance_end: 1,
                };
                &&& res == Ok::<PassCommand, Error>(draw)
                &&& final(self).owner() == old(self).owner()
                &&& final(self).spec_open()
                &&& final(self).spec_load() == old(self).spec_load()
                &&& final(self).recorded() == old(self).recorded().push(
                    PassCommand::SetVertexBuffer { size: buf.size },
                ).push(draw)
                &&& final(self).vertex_size() == Some(buf.size)
                &&& final(self).index_size() == old(self).index_size()
            },
    {
        self.draw_buffer_range(buf, 0..buf.size)
    }

    /// Draws vertices `range` of `buf`, one instance. The range must lie
    /// within the buffer.
    pub fn draw_buffer_range(&mut self, buf: &VertexBuffer, range: Range<u32>) -> (res: Result<
        PassCommand,
        Error,
    >)
        ensures
            !old(self).spec_open() ==> res == Err::<PassCommand, Error>(Error::PassClosed)
                && *final(self) == *old(self),
            old(self).spec_open() && !(range.start <= range.end <= buf.size) ==> res == Err::<
                PassCommand,
                Error,
            >(Error::DrawRange) && *final(self) == *old(self),
            old(self).spec_open() && range.start <= range.end <= buf.size ==> {
                let draw = PassCommand::Draw {
                    vertex_start: range.start,
                    vertex_end: range.end,
                    instance_start: 0,
                    instance_end: 1,
                };
                &&& res == Ok::<PassCommand, Error>(draw)
                &&& final(self).owner() == old(self).owner()
                &&& final(self).spec_open()
                &&& final(self).spec_load() == old(self).spec_load()
                &&& final(self).recorded() == old(self).recorded().push(
                    PassCommand::SetVertexBuffer { size: buf.size },
                ).push(draw)
                &&& final(self).vertex_size() == Some(buf.size)
                &&& final(self).index_size() == old(self).index_size()
            },
    {
        if !self.open {
            return Err(Error::PassClosed);
        }
        if !(range.start <= range.end && range.end <= buf.size) {
            return Err(Error::DrawRange);
        }
        let _ = self.set_vertex_buffer(buf);
        let draw = PassCommand::Draw {
            vertex_start: range.start,
            vertex_end: range.end,
            instance_start: 0,
            instance_end: 1,
        };
        self.record(draw);
        Ok(draw)
    }

    /// Draws `indices` of the bound index buffer for `instances`.
    pub fn draw_indexed(&mut self, indices: Range<u32>, instances: Range<u32>) -> (res: Result<
        PassCommand,
        Error,
    >)
        ensures
            !old(self).spec_open() ==> res == Err::<PassCommand, Error>(Error::PassClosed)
                && *final(self) == *old(self),
            old(self).spec_open() && old(self).index_size() is None ==> res == Err::<
                PassCommand,
                Error,
            >(Error::NoIndexBuffer) && *final(self) == *old(self),
            old(self).spec_open() && old(self).index_size() is Some && !(indices.start
                <= indices.end <= old(self).index_size()->0 && instances.start <= instances.end)
                ==> res == Err::<PassCommand, Error>(Error::DrawRange) && *final(self)
                == *old(self),
            old(self).spec_open() && old(self).index_size() is Some && indices.start
                <= indices.end <= old(self).index_size()->0 && instances.start <= instances.end
                ==> {
                let draw = PassCommand::DrawIndexed {
                    index_start: indices.start,
                    index_end: indices.end,
                    instance_start: instances.start,
                    instance_end: instances.end,
                };
                &&& res == Ok::<PassCommand, Error>(draw)
                &&& Pass::records(*old(self), *final(self), draw)
            },
    {
        if !self.open {
            return Err(Error::PassClosed);
        }
        let size = match self.index_buffer {
            Some(n) => n,
            None => {
                return Err(Error::NoIndexBuffer);
            },
        };
        if !(indices.start <= indices.end && indices.end <= size && instances.start
            <= instances.end) {
            return Err(Error::DrawRange);
        }
        let draw = PassCommand::DrawIndexed {
            index_start: indices.start,
            index_end: indices.end,
            instance_start: instances.start,
            instance_end: instances.end,
        };
        self.record(draw);
        Ok(draw)
    }
}

/// Where a frame is in its life.
#[derive(Copy, Clone, PartialEq, Eq, Debug, Structural)]
pub enum FrameState {
    /// Open, with no pass open.
    Recording,
    /// Open, with one pass open.
    InPass,
    /// Submitted; nothing more may be recorded.
    Submitted,
}

/// The scope of one set of recorded commands, submitted once.
#[derive(Debug)]
pub struct Frame {
    id: u64,
    state: FrameState,
}

impl View for Frame {
    type V = FrameState;

    closed spec fn view(&self) -> FrameState {
        self.state
    }
}

impl Frame {
    /// The identity given to the frame when it was made.
    pub closed spec fn spec_id(&self) -> u64 {
        self.id
    }

    /// Opens a frame known by `id`, which tells its passes from those of
    /// other frames.
    pub fn new(id: u64) -> (f: Frame)
        ensures
            f@ == FrameState::Recording,
            f.spec_id() == id,
    {
        Frame { id, state: FrameState::Recording }
    }

    pub fn id(&self) -> (i: u64)
        ensures
            i == self.spec_id(),
    {
        self.id
    }

    pub fn state(&self) -> (s: FrameState)
        ensures
            s == self@,
    {
        self.state
    }

    /// Opens a pass; no other pass of this frame may be open.
    pub fn pass(&mut self, load: LoadOp) -> (res: Result<Pass, Error>)
        ensures
            old(self)@ == FrameState::Submitted ==> res is Err && res->Err_0
                == Error::FrameSubmitted && final(self)@ == old(self)@,
            old(self)@ == FrameState::InPass ==> res is Err && res->Err_0 == Error::PassAlreadyOpen
                && final(self)@ == old(self)@,
            final(self).spec_id() == old(self).spec_id(),
            old(self)@ == FrameState::Recording ==> {
                &&& res is Ok
                &&& final(self)@ == FrameState::InPass
                &&& res->Ok_0.owner() == old(self).spec_id()
                &&& res->Ok_0.spec_open()
                &&& res->Ok_0.spec_load() == load
                &&& res->Ok_0.recorded() == Seq::<PassCommand>::empty()
                &&& res->Ok_0.vertex_size() is None
                &&& res->Ok_0.index_size() is None
            },
    {
        match self.state {
            FrameState::Submitted => Err(Error::FrameSubmitted),
            FrameState::InPass => Err(Error::PassAlreadyOpen),
            FrameState::Recording => {
                self.state = FrameState::InPass;
                Ok(Pass::begin(self.id, load))
            },
        }
    }

    /// Closes `pass`, which this frame must have opened; the frame may then
    /// open another one or be submitted.
    pub fn end_pass(&mut self, pass: &mut Pass) -> (res: Result<(), Error>)
        ensures
            final(self).spec_id() == old(self).spec_id(),
            old(pass).owner() != old(self).spec_id() ==> res == Err::<(), Error>(
                Error::ForeignPass,
            ) && final(self)@ == old(self)@ && *final(pass) == *old(pass),
            old(pass).owner() == old(self).spec_id() && !old(pass).spec_open() ==> res == Err::<(), Error>(Error::PassClosed) && final(self)@
                == old(self)@ && *final(pass) == *old(pass),
            old(pass).owner() == old(self).spec_id() && old(pass).spec_open() ==> {
                &&& res is Ok
                &&& !final(pass).spec_open()
                &&& final(pass).owner() == old(pass).owner()
                &&& final(pass).recorded() == old(pass).recorded()
                &&& final(pass).spec_load() == old(pass).spec_load()
                &&& final(pass).vertex_size() == old(pass).vertex_size()
                &&& final(pass).index_size() == old(pass).index_size()
                &&& final(self)@ == (if old(self)@ == FrameState::InPass {
                    FrameState::Recording
                } else {
                    old(self)@
                })
            },
    {
        if pass.frame != self.id {
            return Err(Error::ForeignPass);
        }
        if !pass.open {
            return Err(Error::PassClosed);
        }
        pass.open = false;
        if let FrameState::InPass = self.state {
            self.state = FrameState::Recording;
        }
        Ok(())
    }

    /// The frame accepts copies and updates: it is open, with no pass open.
    pub open spec fn accepts_copies(state: FrameState) -> Result<(), Error> {
        match state {
            FrameState::Recording => Ok(()),
            FrameState::InPass => Err(Error::PassStillOpen),
            FrameState::Submitted => Err(Error::FrameSubmitted),
        }
    }

    fn check_recording(&self) -> (res: Result<(), Error>)
        ensures
            res == Frame::accepts_copies(self@),
    {
        match self.state {
            FrameState::Recording => Ok(()),
            FrameState::InPass => Err(Error::PassStillOpen),
            FrameState::Submitted => Err(Error::FrameSubmitted),
        }
    }

    /// Plans a copy of all of `src` into `dst`, between passes; returns the
    /// byte length to copy.
    pub fn copy(&mut self, src: &UniformBuffer, dst: &UniformBuffer) -> (res: Result<u64, Error>)
        requires
            dst.wf(),
        ensures
            final(self)@ == old(self)@,
            final(self).spec_id() == old(self).spec_id(),
            Frame::accepts_copies(old(self)@) is Err ==> res == Err::<u64, Error>(
                Frame::accepts_copies(old(self)@)->Err_0,
            ),
            Frame::accepts_copies(old(self)@) is Ok ==> res == uniform_copy(
                src.size,
                src.count,
                *dst,
            ),
    {
        match self.check_recording() {
            Err(e) => Err(e),
            Ok(()) => dst.update(src.size, src.count),
        }
    }

    /// Plans a replacement of the first `count` elements of `buf` by host data
    /// of elements of `size` bytes, between passes; returns the byte length.
    pub fn update_uniforms(&mut self, buf: &UniformBuffer, size: usize, count: usize) -> (res:
        Result<u64, Error>)
        requires
            buf.wf(),
        ensures
            final(self)@ == old(self)@,
            final(self).spec_id() == old(self).spec_id(),
            Frame::accepts_copies(old(self)@) is Err ==> res == Err::<u64, Error>(
                Frame::accepts_copies(old(self)@)->Err_0,
            ),
            Frame::accepts_copies(old(self)@) is Ok ==> res == uniform_copy(size, count, *buf),
    {
        match self.check_recording() {
            Err(e) => Err(e),
            Ok(()) => buf.update(size, count),
        }
    }

    /// Ends the frame; no pass may be open, and a frame is submitted once.
    pub fn submit(&mut self) -> (res: Result<(), Error>)
        ensures
            final(self).spec_id() == old(self).spec_id(),
            Frame::accepts_copies(old(self)@) is Err ==> res == Err::<(), Error>(
                Frame::accepts_copies(old(self)@)->Err_0,
            ) && final(self)@ == old(self)@,
            Frame::accepts_copies(old(self)@) is Ok ==> res is Ok && final(self)@
                == FrameState::Submitted,
    {
        match self.check_recording() {
            Err(e) => Err(e),
            Ok(()) => {
                self.state = FrameState::Submitted;
                Ok(())
            },
        }
    }
}

} // verus!
