//! The bytecode machine: variables, opcodes and the frame tick.

use vstd::prelude::*;
use crate::channel::{state_for, Channel, ProcessCounter, State};
use crate::cursor::{ByteCursor, ReadError};
use crate::execution_context::ExecutionContext;
use crate::loaded::LoadedAsset;
use crate::parts::GamePart;
use crate::resource::{ResourceError, NUM_MEM_ENTRIES};
use crate::shapes::Point;
use crate::video::{page_id_of, record_drawn, PageId, PaletteRequest, VideoError, MAX_HIERARCHY_DEPTH};

verus! {

pub const NUM_CHANNELS: usize = 64;
pub const NUM_VARIABLES: usize = 256;
pub const VM_VARIABLE_RANDOM_SEED: usize = 0x3C;
pub const VM_VARIABLE_SCROLL_Y: usize = 0xF9;
pub const VM_VARIABLE_PAUSE_SLICES: usize = 0xFF;
/// Opcodes run in one call of `host_frame` before it hands control back.
pub const OPS_PER_CALL: u32 = 100_000;
/// Opcodes below this are dispatched by number.
pub const NUM_OPCODES: u8 = 27;

#[derive(Debug, PartialEq, Eq, Structural, Clone, Copy)]
pub enum VmError {
    Io(ReadError),
    MissingPolygonSegment,
    InvalidGamePart(u16),
    StackUnderflow,
    VideoError(VideoError),
    ResourceError(ResourceError),
    /// An opcode without the drawing bits and beyond the table.
    InvalidOpcode(u8),
}

/// Where a call of `host_frame` stopped.
#[derive(Debug, PartialEq, Eq, Structural, Clone, Copy)]
pub enum FrameStep {
    /// A frame was blitted: pace, present `Video::frame()`, then call again.
    Blit,
    /// The opcode budget ran out mid-slice: call again to go on.
    Continue,
    /// Every channel has run its slice for this frame.
    Done,
}

/// The outcome of the relation `rel` (the low 3 bits of a conditional jump)
/// between the operand `a` and the variable `b`.
pub open spec fn cond_holds(rel: u8, a: i16, b: i16) -> bool {
    let r = rel % 8;
    if r == 0 {
        a == b
    } else if r == 1 {
        a != b
    } else if r == 2 {
        b > a
    } else if r == 3 {
        b >= a
    } else if r == 4 {
        a > b
    } else if r == 5 {
        a >= b
    } else {
        false
    }
}

/// How many operand bytes a conditional jump with opcode `op` takes.
pub open spec fn cond_operand_len(op: u8) -> int {
    if op & 0x80 != 0 {
        1
    } else if op & 0x40 != 0 {
        2
    } else {
        1
    }
}

/// The operand of a conditional jump: a variable, a word or a byte.
pub open spec fn cond_operand(vars: Seq<i16>, c: ExecutionContext, op: u8) -> i16 {
    if op & 0x80 != 0 {
        vars[c.op_byte(2) as int]
    } else if op & 0x40 != 0 {
        c.op_word(2) as i16
    } else {
        c.op_byte(2) as i16
    }
}

/// The channels after staging `pc` for channel `c` (a number past the last
/// names none).
pub open spec fn set_vec(chs: Seq<Channel>, c: int, pc: u16) -> Seq<Channel> {
    if 0 <= c < chs.len() {
        chs.update(c, Channel { next_pc: Some(ProcessCounter::of(pc as u64)), ..chs[c] })
    } else {
        chs
    }
}

/// A channel after one of the reset actions.
pub open spec fn reset_action(ch: Channel, action: u8) -> Channel {
    if action == 0 {
        Channel { state: State::Ready, ..ch }
    } else if action == 1 {
        Channel { state: State::Paused, ..ch }
    } else {
        Channel { next_pc: Some(ProcessCounter::Invalid), ..ch }
    }
}

/// The page that the source byte of a page copy names: a numbered page
/// keeps its scroll marker.
pub open spec fn copy_source_of(raw: u8) -> PageId {
    if raw < 0xFE && raw & 0x80 != 0 {
        PageId::Numbered(raw)
    } else {
        page_id_of(raw)
    }
}

fn copy_source(raw: u8) -> (r: PageId)
    ensures
        r == copy_source_of(raw),
{
    if raw < 0xFE && raw & 0x80 != 0 {
        PageId::Numbered(raw)
    } else {
        PageId::from(raw)
    }
}

/// A channel that the frame tick would run.
pub open spec fn dispatchable(ch: Channel) -> bool {
    ch.state == State::Ready && ch.pc is Valid
}

fn should_run(ch: Channel) -> (r: bool)
    ensures
        r == dispatchable(ch),
{
    ch.state == State::Ready && match ch.pc {
        ProcessCounter::Valid(_) => true,
        ProcessCounter::Invalid => false,
    }
}

/// The record offset, position and zoom that a sprite opcode's operands give.
pub open spec fn sprite_args(vars: Seq<i16>, code: Seq<u8>, pc: int, op: u8) -> (int, Point, u16) {
    let offset = crate::cursor::be16_at(code, pc) * 2;
    let b = code[pc + 2];
    let (x, xn) = if op & 0x20 == 0 {
        if op & 0x10 == 0 {
            (crate::cursor::be16(b, code[pc + 3]) as i16, 2int)
        } else {
            (vars[b as int], 1int)
        }
    } else if op & 0x10 != 0 {
        ((b + 0x100) as i16, 1int)
    } else {
        (b as i16, 1int)
    };
    let yb = code[pc + 2 + xn];
    let (y, yn) = if op & 8 == 0 {
        if op & 4 == 0 {
            (crate::cursor::be16(yb, code[pc + 3 + xn]) as i16, 2int)
        } else {
            (vars[yb as int], 1int)
        }
    } else {
        (yb as i16, 1int)
    };
    let zb = code[pc + 2 + xn + yn];
    let zoom: u16 = if op & 2 == 0 {
        if op & 1 == 0 {
            0x40
        } else {
            vars[zb as int] as u16
        }
    } else if op & 1 != 0 {
        0x40
    } else {
        zb as u16
    };
    (offset, Point { x, y }, zoom)
}

/// A drawing outcome of the video layer as the machine reports it.
pub open spec fn drawn_as_vm(r: Result<Seq<u8>, VideoError>) -> Result<Seq<u8>, VmError> {
    match r {
        Ok(p) => Ok(p),
        Err(e) => Err(VmError::VideoError(e)),
    }
}

/// What a sprite opcode draws: the pages after, or the error.
pub open spec fn sprite_drawn(vars: Seq<i16>, c: ExecutionContext, op: u8) -> Result<Seq<u8>, VmError> {
    let (offset, pt, zoom) = sprite_args(vars, c.code(), c.pc(), op);
    let work = c.video.work_buffer as int;
    if op & 3 != 3 {
        drawn_as_vm(
            record_drawn(c.video.pages@, work, c.loaded_part.cinematic.data@, offset, 0xFF, zoom, pt, MAX_HIERARCHY_DEPTH as nat),
        )
    } else {
        match c.loaded_part.polygon {
            None => Err(VmError::MissingPolygonSegment),
            Some(p) => drawn_as_vm(
                record_drawn(c.video.pages@, work, p.data@, offset, 0xFF, zoom, pt, MAX_HIERARCHY_DEPTH as nat),
            ),
        }
    }
}

/// What a background opcode draws: the pages after, or the error.
pub open spec fn background_drawn(c: ExecutionContext, op: u8) -> Result<Seq<u8>, VmError> {
    let offset = ((op as int * 256 + c.op_byte(0)) * 2) % 0x1_0000;
    let x0 = c.op_byte(1) as int;
    let y0 = c.op_byte(2) as int;
    let pt = if y0 > 199 {
        Point { x: (x0 + y0 - 199) as i16, y: 199 }
    } else {
        Point { x: x0 as i16, y: y0 as i16 }
    };
    drawn_as_vm(
        record_drawn(
            c.video.pages@,
            c.video.work_buffer as int,
            c.loaded_part.cinematic.data@,
            offset,
            0xFF,
            0x40,
            pt,
            MAX_HIERARCHY_DEPTH as nat,
        ),
    )
}

/// Whether a sprite opcode gives its zoom byte back after reading it.
pub open spec fn sprite_zoom_given_back(op: u8) -> bool {
    (op & 2 == 0 && op & 1 == 0) || (op & 2 != 0 && op & 1 != 0)
}

/// The operand bytes a sprite opcode consumes.
pub open spec fn sprite_consumed(op: u8) -> int {
    if sprite_zoom_given_back(op) {
        sprite_operand_len(op) - 1
    } else {
        sprite_operand_len(op)
    }
}

/// The operand bytes a sprite opcode reads: the record offset, x, y, and
/// the zoom byte (read even where it is then given back).
pub open spec fn sprite_operand_len(op: u8) -> int {
    let xl = if op & 0x20 == 0 && op & 0x10 == 0 {
        2int
    } else {
        1int
    };
    let yl = if op & 8 == 0 && op & 4 == 0 {
        2int
    } else {
        1int
    };
    2 + xl + yl + 1
}

/// The variables that a fresh machine starts with, `seed` standing for the
/// random one.
pub open spec fn initial_variable(i: int, seed: i16) -> i16 {
    if i == 0x54 {
        0x81
    } else if i == 0x3C {
        seed
    } else if i == 0xBC {
        0x10
    } else if i == 0xC6 {
        0x80
    } else if i == 0xF2 {
        4000
    } else if i == 0xDC {
        33
    } else {
        0
    }
}

/// The bytecode machine: variables, channels and the call stack of the
/// running slice.
pub struct Vm {
    pub variables: Vec<i16>,
    pub channels: Vec<Channel>,
    pub running_channel_id: usize,
    pub stack: Vec<usize>,
    /// The channel whose slice was interrupted, to go on with.
    pub resume: Option<usize>,
}

/// Relies on `rand::random`: any 16-bit value may come back.
#[verifier::external_body]
fn random_i16() -> (r: i16) {
    rand::random::<i16>()
}

fn fetch_u8(bc: &mut ByteCursor) -> (r: Result<u8, VmError>)
    ensures
        final(bc).data@ == old(bc).data@,
        old(bc).can_read(1) ==> r == Ok::<u8, VmError>(old(bc).data@[old(bc).pos as int])
            && final(bc).pos == old(bc).pos + 1,
        !old(bc).can_read(1) ==> r == Err::<u8, VmError>(VmError::Io(ReadError::UnexpectedEof)),
{
    match bc.read_u8() {
        Ok(b) => Ok(b),
        Err(e) => Err(VmError::Io(e)),
    }
}

fn fetch_u16(bc: &mut ByteCursor) -> (r: Result<u16, VmError>)
    ensures
        final(bc).data@ == old(bc).data@,
        old(bc).can_read(2) ==> r == Ok::<u16, VmError>(
            crate::cursor::be16_at(old(bc).data@, old(bc).pos as int),
        ) && final(bc).pos == old(bc).pos + 2,
        !old(bc).can_read(2) ==> r == Err::<u16, VmError>(VmError::Io(ReadError::UnexpectedEof)),
{
    match bc.read_u16() {
        Ok(b) => Ok(b),
        Err(e) => Err(VmError::Io(e)),
    }
}

impl Default for Vm {
    /// A fresh machine, its random variable drawn at random: see `Vm::new`.
    fn default() -> (r: Vm)
        ensures
            r.wf(),
            forall|i: int|
                0 <= i < NUM_VARIABLES && i != VM_VARIABLE_RANDOM_SEED ==> #[trigger] r.variables@[i]
                    == initial_variable(i, 0),
            forall|c: int| 0 <= c < NUM_CHANNELS ==> #[trigger] r.channels@[c] == Channel::new_spec(),
            r.stack@.len() == 0,
            r.running_channel_id == 0,
            r.resume is None,
    {
        Vm::new()
    }
}

impl Vm {
    pub open spec fn wf(&self) -> bool {
        &&& self.variables@.len() == NUM_VARIABLES
        &&& self.channels@.len() == NUM_CHANNELS
        &&& self.running_channel_id < NUM_CHANNELS
        &&& self.resume matches Some(c) ==> c < NUM_CHANNELS
    }

    /// `self` differs from `old` at most in variable `v`.
    pub open spec fn only_var_changed(&self, old: &Vm, v: int) -> bool {
        &&& self.variables@.len() == old.variables@.len()
        &&& forall|i: int| 0 <= i < self.variables@.len() && i != v ==> #[trigger] self.variables@[i] == old.variables@[i]
        &&& self.channels@ == old.channels@
        &&& self.running_channel_id == old.running_channel_id
        &&& self.stack@ == old.stack@
        &&& self.resume == old.resume
    }

    /// A machine with the fixed variables seeded, `seed` in the random one,
    /// and every channel dead.
    pub fn with_seed(seed: i16) -> (r: Vm)
        ensures
            r.wf(),
            forall|i: int| 0 <= i < NUM_VARIABLES ==> #[trigger] r.variables@[i] == initial_variable(i, seed),
            forall|c: int| 0 <= c < NUM_CHANNELS ==> #[trigger] r.channels@[c] == Channel::new_spec(),
            r.stack@.len() == 0,
            r.running_channel_id == 0,
            r.resume is None,
    {
        let mut variables = vec![0i16; NUM_VARIABLES];
        variables.set(0x54, 0x81);
        variables.set(VM_VARIABLE_RANDOM_SEED, seed);
        variables.set(0xBC, 0x10);
        variables.set(0xC6, 0x80);
        variables.set(0xF2, 4000);
        variables.set(0xDC, 33);
        let channels = vec![Channel::new(); NUM_CHANNELS];
        Vm { variables, channels, running_channel_id: 0, stack: Vec::new(), resume: None }
    }

    /// A machine whose random variable is drawn at random.
    pub fn new() -> (r: Vm)
        ensures
            r.wf(),
            forall|i: int|
                0 <= i < NUM_VARIABLES && i != VM_VARIABLE_RANDOM_SEED ==> #[trigger] r.variables@[i]
                    == initial_variable(i, 0),
            forall|c: int| 0 <= c < NUM_CHANNELS ==> #[trigger] r.channels@[c] == Channel::new_spec(),
            r.stack@.len() == 0,
            r.running_channel_id == 0,
            r.resume is None,
    {
        Vm::with_seed(random_i16())
    }

    /// Prepares the machine for a new part: every channel dead but channel 0,
    /// which is ready at offset 0.
    #[verifier::loop_isolation(false)]
    pub fn init_part(&mut self) -> (r: Result<(), VmError>)
        requires
            old(self).wf(),
        ensures
            r is Ok,
            final(self).wf(),
            final(self).variables@ == old(self).variables@.update(0xE4, 0x14),
            final(self).channels@[0] == (Channel { state: State::Ready, pc: ProcessCounter::Valid(0), next_pc: None }),
            forall|c: int| 1 <= c < NUM_CHANNELS ==> #[trigger] final(self).channels@[c] == Channel::new_spec(),
            final(self).running_channel_id == old(self).running_channel_id,
            final(self).resume is None,
    {
        self.variables.set(0xE4, 0x14);
        let mut c: usize = 0;
        while c < NUM_CHANNELS
            invariant
                c <= NUM_CHANNELS,
                self.channels@.len() == NUM_CHANNELS,
                self.variables@ == old(self).variables@.update(0xE4, 0x14),
                self.running_channel_id == old(self).running_channel_id,
                self.running_channel_id < NUM_CHANNELS,
                forall|k: int| 0 <= k < c ==> #[trigger] self.channels@[k] == Channel::new_spec(),
            decreases NUM_CHANNELS - c,
        {
            let mut ch = self.channels[c];
            ch.reset();
            self.channels.set(c, ch);
            c = c + 1;
        }
        let mut first = self.channels[0];
        first.set_pc(ProcessCounter::Valid(0));
        self.channels.set(0, first);
        self.resume = None;
        Ok(())
    }

    /// Commits every channel's staged counter: the frame boundary.
    pub fn check_channel_requests(&mut self) -> (r: Result<(), VmError>)
        requires
            old(self).wf(),
        ensures
            r is Ok,
            final(self).wf(),
            final(self).variables@ == old(self).variables@,
            forall|c: int| 0 <= c < NUM_CHANNELS ==> #[trigger] final(self).channels@[c] == old(self).channels@[c].committed(),
            final(self).running_channel_id == old(self).running_channel_id,
            final(self).stack@ == old(self).stack@,
            final(self).resume == old(self).resume,
    {
        let mut c: usize = 0;
        while c < NUM_CHANNELS
            invariant
                c <= NUM_CHANNELS,
                self.wf(),
                self.variables@ == old(self).variables@,
                self.running_channel_id == old(self).running_channel_id,
                self.stack@ == old(self).stack@,
                self.resume == old(self).resume,
                forall|k: int| 0 <= k < NUM_CHANNELS ==> #[trigger] self.channels@[k] == if k < c {
                    old(self).channels@[k].committed()
                } else {
                    old(self).channels@[k]
                },
            decreases NUM_CHANNELS - c,
        {
            let mut ch = self.channels[c];
            ch.apply_next_pc();
            self.channels.set(c, ch);
            c = c + 1;
        }
        Ok(())
    }

    /// The milliseconds to wait at a blit, `elapsed_ms` after the previous
    /// one: 20 ms per pause slice, less what has already passed, at least 0.
    pub fn pacing_delay(&self, elapsed_ms: u64) -> (r: u64)
        requires
            self.wf(),
        ensures
            r == if self.variables@[0xFF as int] * 20 > elapsed_ms {
                self.variables@[0xFF as int] * 20 - elapsed_ms
            } else {
                0
            },
    {
        let target: i64 = self.variables[VM_VARIABLE_PAUSE_SLICES] as i64 * 20;
        if target > 0 && target as u64 > elapsed_ms {
            target as u64 - elapsed_ms
        } else {
            0
        }
    }

    pub fn op_mov_const(&mut self, context: &mut ExecutionContext) -> (r: Result<(), VmError>)
        requires
            old(self).wf(),
        ensures
            mov_const_effect(*old(self), *old(context), *final(self), *final(context), r),
    {
        let bytecode = &mut context.loaded_part.bytecode;
        let variable_id = fetch_u8(bytecode)? as usize;
        let value = fetch_u16(bytecode)? as i16;
        self.variables.set(variable_id, value);
        Ok(())
    }

    pub fn op_mov(&mut self, context: &mut ExecutionContext) -> (r: Result<(), VmError>)
        requires
            old(self).wf(),
        ensures
            mov_effect(*old(self), *old(context), *final(self), *final(context), r),
    {
        let bytecode = &mut context.loaded_part.bytecode;
        let dst = fetch_u8(bytecode)? as usize;
        let src = fetch_u8(bytecode)? as usize;
        let value = self.variables[src];
        self.variables.set(dst, value);
        Ok(())
    }

    /// `vars[d] += vars[s]`, wrapping.
    pub fn op_add(&mut self, context: &mut ExecutionContext) -> (r: Result<(), VmError>)
        requires
            old(self).wf(),
        ensures
            add_effect(*old(self), *old(context), *final(self), *final(context), r),
    {
        let bytecode = &mut context.loaded_part.bytecode;
        let dst = fetch_u8(bytecode)? as usize;
        let src = fetch_u8(bytecode)? as usize;
        let value = self.variables[dst].wrapping_add(self.variables[src]);
        self.variables.set(dst, value);
        Ok(())
    }

    pub fn op_add_const(&mut self, context: &mut ExecutionContext) -> (r: Result<(), VmError>)
        requires
            old(self).wf(),
        ensures
            add_const_effect(*old(self), *old(context), *final(self), *final(context), r),
    {
        let bytecode = &mut context.loaded_part.bytecode;
        let variable_id = fetch_u8(bytecode)? as usize;
        let value = fetch_u16(bytecode)? as i16;
        let sum = self.variables[variable_id].wrapping_add(value);
        self.variables.set(variable_id, sum);
        Ok(())
    }

    /// Pushes the return offset and jumps.
    pub fn op_call(&mut self, context: &mut ExecutionContext) -> (r: Result<(), VmError>)
        requires
            old(self).wf(),
        ensures
            call_effect(*old(self), *old(context), *final(self), *final(context), r),
    {
        let bytecode = &mut context.loaded_part.bytecode;
        let offset = fetch_u16(bytecode)?;
        self.stack.push(bytecode.position());
        bytecode.set_position(offset as usize);
        Ok(())
    }

    /// Returns to the offset on top of the stack.
    pub fn op_ret(&mut self, context: &mut ExecutionContext) -> (r: Result<(), VmError>)
        requires
            old(self).wf(),
        ensures
            ret_effect(*old(self), *old(context), *final(self), *final(context), r),
    {
        let offset = match self.stack.pop() {
            Some(o) => o,
            None => {
                return Err(VmError::StackUnderflow);
            },
        };
        context.loaded_part.bytecode.set_position(offset);
        Ok(())
    }

    /// Pauses the running channel, saving its counter: this ends its slice,
    /// and the scheduler then makes it ready to go on from here next frame.
    pub fn op_yield_channel(&mut self, context: &mut ExecutionContext) -> (r: Result<(), VmError>)
        requires
            old(self).wf(),
        ensures
            yield_channel_effect(*old(self), *old(context), *final(self), *final(context), r),
    {
        let current = self.running_channel_id;
        let execution_pc = ProcessCounter::from(context.loaded_part.bytecode.position() as u64);
        let mut ch = self.channels[current];
        ch.yield_control(execution_pc);
        self.channels.set(current, ch);
        Ok(())
    }

    pub fn op_jmp(&mut self, context: &mut ExecutionContext) -> (r: Result<(), VmError>)
        requires
            old(self).wf(),
        ensures
            jmp_effect(*old(self), *old(context), *final(self), *final(context), r),
    {
        let bytecode = &mut context.loaded_part.bytecode;
        let offset = fetch_u16(bytecode)?;
        bytecode.set_position(offset as usize);
        Ok(())
    }

    /// Stages a counter for a channel, to take effect at the next frame
    /// boundary; a channel number past the last names no channel.
    pub fn op_set_next_pc(&mut self, context: &mut ExecutionContext) -> (r: Result<(), VmError>)
        requires
            old(self).wf(),
        ensures
            set_next_pc_effect(*old(self), *old(context), *final(self), *final(context), r),
    {
        let bytecode = &mut context.loaded_part.bytecode;
        let channel_id = fetch_u8(bytecode)? as usize;
        let offset = fetch_u16(bytecode)?;
        if channel_id < NUM_CHANNELS {
            let mut ch = self.channels[channel_id];
            ch.next_pc = Some(ProcessCounter::from(offset as u64));
            self.channels.set(channel_id, ch);
        }
        Ok(())
    }

    /// Decrements a variable and jumps while it is not zero.
    pub fn op_jnz(&mut self, context: &mut ExecutionContext) -> (r: Result<(), VmError>)
        requires
            old(self).wf(),
        ensures
            jnz_effect(*old(self), *old(context), *final(self), *final(context), r),
    {
        let bytecode = &mut context.loaded_part.bytecode;
        let variable_id = fetch_u8(bytecode)? as usize;
        let dec = self.variables[variable_id].wrapping_sub(1);
        self.variables.set(variable_id, dec);
        let target = fetch_u16(bytecode)?;
        if dec != 0 {
            bytecode.set_position(target as usize);
        }
        Ok(())
    }

    /// Compares an operand with a variable and jumps where the relation holds.
    pub fn op_cond_jmp(&mut self, context: &mut ExecutionContext) -> (r: Result<(), VmError>)
        requires
            old(self).wf(),
        ensures
            cond_jmp_effect(*old(self), *old(context), *final(self), *final(context), r),
    {
        let bytecode = &mut context.loaded_part.bytecode;
        let opcode = fetch_u8(bytecode)?;
        let var = fetch_u8(bytecode)?;
        let a: i16 = if opcode & 0x80 != 0 {
            self.variables[fetch_u8(bytecode)? as usize]
        } else if opcode & 0x40 != 0 {
            fetch_u16(bytecode)? as i16
        } else {
            fetch_u8(bytecode)? as i16
        };
        let b = self.variables[var as usize];
        let comparison = opcode % 8;
        let expr = if comparison == 0 {
            a == b
        } else if comparison == 1 {
            a != b
        } else if comparison == 2 {
            b > a
        } else if comparison == 3 {
            b >= a
        } else if comparison == 4 {
            a > b
        } else if comparison == 5 {
            a >= b
        } else {
            false
        };
        let target = fetch_u16(bytecode)?;
        if expr {
            bytecode.set_position(target as usize);
        }
        Ok(())
    }

    /// Requests palette `p >> 8` for the next blit.
    pub fn op_set_palette(&mut self, context: &mut ExecutionContext) -> (r: Result<(), VmError>)
        requires
            old(self).wf(),
            old(context).wf(),
        ensures
            set_palette_effect(*old(self), *old(context), *final(self), *final(context), r),
    {
        let palette_id = fetch_u16(&mut context.loaded_part.bytecode)?;
        context.video.request_palette(PaletteRequest::Change((palette_id / 256) as u8));
        Ok(())
    }

    /// Over channels `from..=to` (those that exist): action 0 makes them
    /// ready, 1 pauses them, anything else stages their death.
    pub fn op_reset_threads(&mut self, context: &mut ExecutionContext) -> (r: Result<(), VmError>)
        requires
            old(self).wf(),
        ensures
            reset_threads_effect(*old(self), *old(context), *final(self), *final(context), r),
    {
        let bytecode = &mut context.loaded_part.bytecode;
        let from = fetch_u8(bytecode)? as usize;
        let to = fetch_u8(bytecode)? as usize;
        let operation_id = fetch_u8(bytecode)?;
        let mut c: usize = from;
        while c <= to && c < NUM_CHANNELS
            invariant
                from <= c,
                c == from || (c <= to + 1 && c <= NUM_CHANNELS),
                self.wf(),
                self.variables@ == old(self).variables@,
                self.running_channel_id == old(self).running_channel_id,
                self.resume == old(self).resume,
                forall|k: int|
                    0 <= k < NUM_CHANNELS ==> #[trigger] self.channels@[k] == if from <= k < c {
                        reset_action(old(self).channels@[k], operation_id)
                    } else {
                        old(self).channels@[k]
                    },
            decreases NUM_CHANNELS - c,
        {
            let mut ch = self.channels[c];
            if operation_id == 0 {
                ch.state = State::Ready;
            } else if operation_id == 1 {
                ch.state = State::Paused;
            } else {
                ch.next_pc = Some(ProcessCounter::Invalid);
            }
            self.channels.set(c, ch);
            c = c + 1;
        }
        Ok(())
    }

    pub fn op_select_video_page(&mut self, context: &mut ExecutionContext) -> (r: Result<(), VmError>)
        requires
            old(self).wf(),
            old(context).wf(),
        ensures
            select_video_page_effect(*old(self), *old(context), *final(self), *final(context), r),
    {
        let page_id = PageId::from(fetch_u8(&mut context.loaded_part.bytecode)?);
        context.video.change_working_buffer(page_id);
        Ok(())
    }

    pub fn op_fill_video_page(&mut self, context: &mut ExecutionContext) -> (r: Result<(), VmError>)
        requires
            old(self).wf(),
            old(context).wf(),
        ensures
            fill_video_page_effect(*old(self), *old(context), *final(self), *final(context), r),
    {
        let bytecode = &mut context.loaded_part.bytecode;
        let page_id = PageId::from(fetch_u8(bytecode)?);
        let color = fetch_u8(bytecode)?;
        context.video.fill_page(page_id, color);
        Ok(())
    }

    /// Copies a page, scrolled by variable 0xF9 where the source byte has
    /// bit 0x80 set (and is not 0xFE or 0xFF).
    pub fn op_copy_video_page(&mut self, context: &mut ExecutionContext) -> (r: Result<(), VmError>)
        requires
            old(self).wf(),
            old(context).wf(),
        ensures
            copy_video_page_effect(*old(self), *old(context), *final(self), *final(context), r),
    {
        let bytecode = &mut context.loaded_part.bytecode;
        let raw_src = fetch_u8(bytecode)?;
        let src_page_id = copy_source(raw_src);
        let dst_page_id = PageId::from(fetch_u8(bytecode)?);
        context.video.copy_page(src_page_id, dst_page_id, self.variables[VM_VARIABLE_SCROLL_Y]);
        Ok(())
    }

    /// Ends a frame: clears variable 0xF7, picks the page to show and applies
    /// a pending palette; the host then paces and presents it.
    pub fn op_blit_frame_buffer(&mut self, context: &mut ExecutionContext) -> (r: Result<(), VmError>)
        requires
            old(self).wf(),
            old(context).wf(),
        ensures
            blit_frame_buffer_effect(*old(self), *old(context), *final(self), *final(context), r),
    {
        let raw = fetch_u8(&mut context.loaded_part.bytecode)?;
        self.variables.set(0xF7, 0);
        let page_id = PageId::from(raw);
        match context.video.update_display(page_id, &mut context.loaded_part.palette) {
            Ok(()) => {},
            Err(e) => {
                return Err(VmError::VideoError(e));
            },
        }
        Ok(())
    }

    /// Kills the running channel.
    pub fn op_kill_channel(&mut self, context: &mut ExecutionContext) -> (r: Result<(), VmError>)
        requires
            old(self).wf(),
        ensures
            kill_channel_effect(*old(self), *old(context), *final(self), *final(context), r),
    {
        let current = self.running_channel_id;
        let mut ch = self.channels[current];
        ch.set_pc(ProcessCounter::Invalid);
        self.channels.set(current, ch);
        Ok(())
    }

    /// Text drawing: its operands are read and nothing is drawn.
    pub fn op_draw_string(&mut self, context: &mut ExecutionContext) -> (r: Result<(), VmError>)
        requires
            old(self).wf(),
        ensures
            draw_string_effect(*old(self), *old(context), *final(self), *final(context), r),
    {
        let bytecode = &mut context.loaded_part.bytecode;
        let _string_id = fetch_u16(bytecode)?;
        let _x = fetch_u8(bytecode)?;
        let _y = fetch_u8(bytecode)?;
        let _color = fetch_u8(bytecode)?;
        Ok(())
    }

    /// `vars[d] -= vars[s]`, wrapping.
    pub fn op_sub(&mut self, context: &mut ExecutionContext) -> (r: Result<(), VmError>)
        requires
            old(self).wf(),
        ensures
            sub_effect(*old(self), *old(context), *final(self), *final(context), r),
    {
        let bytecode = &mut context.loaded_part.bytecode;
        let dst = fetch_u8(bytecode)? as usize;
        let src = fetch_u8(bytecode)? as usize;
        let value = self.variables[dst].wrapping_sub(self.variables[src]);
        self.variables.set(dst, value);
        Ok(())
    }

    pub fn op_and(&mut self, context: &mut ExecutionContext) -> (r: Result<(), VmError>)
        requires
            old(self).wf(),
        ensures
            and_effect(*old(self), *old(context), *final(self), *final(context), r),
    {
        let bytecode = &mut context.loaded_part.bytecode;
        let variable_id = fetch_u8(bytecode)? as usize;
        let value = fetch_u16(bytecode)? as i16;
        let v = self.variables[variable_id] & value;
        self.variables.set(variable_id, v);
        Ok(())
    }

    pub fn op_or(&mut self, context: &mut ExecutionContext) -> (r: Result<(), VmError>)
        requires
            old(self).wf(),
        ensures
            or_effect(*old(self), *old(context), *final(self), *final(context), r),
    {
        let bytecode = &mut context.loaded_part.bytecode;
        let variable_id = fetch_u8(bytecode)? as usize;
        let value = fetch_u16(bytecode)? as i16;
        let v = self.variables[variable_id] | value;
        self.variables.set(variable_id, v);
        Ok(())
    }

    /// Shifts a variable left; the shift count is taken modulo 16.
    pub fn op_shl(&mut self, context: &mut ExecutionContext) -> (r: Result<(), VmError>)
        requires
            old(self).wf(),
        ensures
            shl_effect(*old(self), *old(context), *final(self), *final(context), r),
    {
        let bytecode = &mut context.loaded_part.bytecode;
        let variable_id = fetch_u8(bytecode)? as usize;
        let value = fetch_u16(bytecode)?;
        let v = self.variables[variable_id].wrapping_shl(value as u32);
        self.variables.set(variable_id, v);
        Ok(())
    }

    /// Shifts a variable right, keeping its sign; the shift count is taken
    /// modulo 16.
    pub fn op_shr(&mut self, context: &mut ExecutionContext) -> (r: Result<(), VmError>)
        requires
            old(self).wf(),
        ensures
            shr_effect(*old(self), *old(context), *final(self), *final(context), r),
    {
        let bytecode = &mut context.loaded_part.bytecode;
        let variable_id = fetch_u8(bytecode)? as usize;
        let value = fetch_u16(bytecode)?;
        let v = self.variables[variable_id].wrapping_shr(value as u32);
        self.variables.set(variable_id, v);
        Ok(())
    }

    /// Sound: its operands are read and nothing is played.
    pub fn op_play_sound(&mut self, context: &mut ExecutionContext) -> (r: Result<(), VmError>)
        requires
            old(self).wf(),
        ensures
            play_sound_effect(*old(self), *old(context), *final(self), *final(context), r),
    {
        let bytecode = &mut context.loaded_part.bytecode;
        let _resource_id = fetch_u16(bytecode)?;
        let _freq = fetch_u8(bytecode)?;
        let _vol = fetch_u8(bytecode)?;
        let _channel = fetch_u8(bytecode)?;
        Ok(())
    }

    /// Resource 0 clears the loaded resources; 1 to 145 loads that one;
    /// a part id stages that part; anything else is an invalid part.
    pub fn op_update_mem_list(&mut self, context: &mut ExecutionContext) -> (r: Result<(), VmError>)
        requires
            old(self).wf(),
            old(context).wf(),
        ensures
            update_mem_list_effect(*old(self), *old(context), *final(self), *final(context), r),
    {
        let resource_id = fetch_u16(&mut context.loaded_part.bytecode)?;
        if resource_id == 0 {
            context.loaded_asset = LoadedAsset::new();
        } else if (resource_id as usize) < NUM_MEM_ENTRIES {
            let asset = match context.resource.load_entry(resource_id as usize) {
                Ok(a) => a,
                Err(e) => {
                    return Err(VmError::ResourceError(e));
                },
            };
            context.loaded_asset.insert(resource_id as usize, asset);
        } else {
            match GamePart::from_id(resource_id) {
                Some(p) => {
                    context.part_to_load = Some(p);
                },
                None => {
                    return Err(VmError::InvalidGamePart(resource_id));
                },
            }
        }
        Ok(())
    }

    /// Music: its operands are read and nothing is played.
    pub fn op_play_music(&mut self, context: &mut ExecutionContext) -> (r: Result<(), VmError>)
        requires
            old(self).wf(),
        ensures
            play_music_effect(*old(self), *old(context), *final(self), *final(context), r),
    {
        let bytecode = &mut context.loaded_part.bytecode;
        let _resource_id = fetch_u16(bytecode)?;
        let _delay = fetch_u16(bytecode)?;
        let _offset = fetch_u8(bytecode)?;
        Ok(())
    }

    /// Reads a sprite opcode's operands: the record offset, the position and
    /// the zoom.
    fn sprite_operands(&self, opcode: u8, bytecode: &mut ByteCursor) -> (r: Result<(usize, Point, u16), VmError>)
        requires
            self.wf(),
        ensures
            final(bytecode).data@ == old(bytecode).data@,
            !old(bytecode).can_read(2) ==> r == Err::<(usize, Point, u16), VmError>(
                VmError::Io(ReadError::UnexpectedEof),
            ),
            old(bytecode).can_read(sprite_operand_len(opcode)) ==> {
                let (offset, pt, zoom) = sprite_args(
                    self.variables@,
                    old(bytecode).data@,
                    old(bytecode).pos as int,
                    opcode,
                );
                &&& r == Ok::<(usize, Point, u16), VmError>((offset as usize, pt, zoom))
                &&& final(bytecode).pos == old(bytecode).pos + sprite_consumed(opcode)
            },
    {
        let offset: usize = fetch_u16(bytecode)? as usize * 2;
        let mut x: i16 = fetch_u8(bytecode)? as i16;
        if opcode & 0x20 == 0 {
            if opcode & 0x10 == 0 {
                let lo = fetch_u8(bytecode)?;
                x = ((x as u16) * 256 + lo as u16) as i16;
            } else {
                x = self.variables[x as usize];
            }
        } else if opcode & 0x10 != 0 {
            x = x + 0x100;
        }
        let mut y: i16 = fetch_u8(bytecode)? as i16;
        if opcode & 8 == 0 {
            if opcode & 4 == 0 {
                let lo = fetch_u8(bytecode)?;
                y = ((y as u16) * 256 + lo as u16) as i16;
            } else {
                y = self.variables[y as usize];
            }
        }
        let at_zoom = bytecode.position();
        let mut zoom: u16 = fetch_u8(bytecode)? as u16;
        if opcode & 2 == 0 {
            if opcode & 1 == 0 {
                bytecode.set_position(at_zoom);
                zoom = 0x40;
            } else {
                zoom = self.variables[zoom as usize] as u16;
            }
        } else if opcode & 1 != 0 {
            bytecode.set_position(at_zoom);
            zoom = 0x40;
        }
        Ok((offset, Point { x, y }, zoom))
    }

    /// Draws a polygon record of the cinematic segment (or, where the low two
    /// opcode bits are both set, of the polygon segment) at a position and
    /// zoom whose operands the opcode bits select: two bytes, one byte, or a
    /// variable.
    pub fn draw_sprite(&mut self, opcode: u8, context: &mut ExecutionContext) -> (r: Result<(), VmError>)
        requires
            old(self).wf(),
            old(context).wf(),
        ensures
            draw_sprite_effect(opcode, *old(self), *old(context), *final(self), *final(context), r),
    {
        let (offset, pt, zoom) = self.sprite_operands(opcode, &mut context.loaded_part.bytecode)?;
        if opcode & 3 != 3 {
            let cinematic = &mut context.loaded_part.cinematic;
            cinematic.set_position(offset);
            return match context.video.read_and_draw_polygon(cinematic, 0xFF, zoom, pt) {
                Ok(()) => Ok(()),
                Err(e) => Err(VmError::VideoError(e)),
            };
        }
        match &mut context.loaded_part.polygon {
            Some(polygon) => {
                polygon.set_position(offset);
                match context.video.read_and_draw_polygon(polygon, 0xFF, zoom, pt) {
                    Ok(()) => Ok(()),
                    Err(e) => Err(VmError::VideoError(e)),
                }
            },
            None => Err(VmError::MissingPolygonSegment),
        }
    }

    /// Draws a polygon record of the cinematic segment at full zoom, its
    /// offset made of the opcode and the next byte; a point below the last
    /// row is lifted onto it and moved right by as much.
    pub fn draw_background(&mut self, opcode: u8, context: &mut ExecutionContext) -> (r: Result<(), VmError>)
        requires
            old(self).wf(),
            old(context).wf(),
        ensures
            draw_background_effect(opcode, *old(self), *old(context), *final(self), *final(context), r),
    {
        let bytecode = &mut context.loaded_part.bytecode;
        let low = fetch_u8(bytecode)?;
        let offset: u16 = ((opcode as u16 * 256 + low as u16) as u16).wrapping_mul(2);
        let mut x: i16 = fetch_u8(bytecode)? as i16;
        let mut y: i16 = fetch_u8(bytecode)? as i16;
        let h: i16 = y - 199;
        if h > 0 {
            y = 199;
            x = x + h;
        }
        let cinematic = &mut context.loaded_part.cinematic;
        cinematic.set_position(offset as usize);
        match context.video.read_and_draw_polygon(cinematic, 0xFF, 0x40, Point { x, y }) {
            Ok(()) => Ok(()),
            Err(e) => Err(VmError::VideoError(e)),
        }
    }

    /// Runs one opcode: the drawing opcodes by their top bits, the others by
    /// number.
    pub fn execute(&mut self, opcode: u8, context: &mut ExecutionContext) -> (r: Result<(), VmError>)
        requires
            old(self).wf(),
            old(context).wf(),
        ensures
            final(self).wf(),
            final(context).wf(),
            op_effect(opcode, *old(self), *old(context), *final(self), *final(context), r),
            final(self).resume == old(self).resume,
            final(self).running_channel_id == old(self).running_channel_id,
    {
        reveal(op_effect);
        if opcode & 0x80 != 0 {
            self.draw_background(opcode, context)
        } else if opcode & 0x40 != 0 {
            self.draw_sprite(opcode, context)
        } else {
            match opcode {
                0 => self.op_mov_const(context),
                1 => self.op_mov(context),
                2 => self.op_add(context),
                3 => self.op_add_const(context),
                4 => self.op_call(context),
                5 => self.op_ret(context),
                6 => self.op_yield_channel(context),
                7 => self.op_jmp(context),
                8 => self.op_set_next_pc(context),
                9 => self.op_jnz(context),
                10 => self.op_cond_jmp(context),
                11 => self.op_set_palette(context),
                12 => self.op_reset_threads(context),
                13 => self.op_select_video_page(context),
                14 => self.op_fill_video_page(context),
                15 => self.op_copy_video_page(context),
                16 => self.op_blit_frame_buffer(context),
                17 => self.op_kill_channel(context),
                18 => self.op_draw_string(context),
                19 => self.op_sub(context),
                20 => self.op_and(context),
                21 => self.op_or(context),
                22 => self.op_shl(context),
                23 => self.op_shr(context),
                24 => self.op_play_sound(context),
                25 => self.op_update_mem_list(context),
                26 => self.op_play_music(context),
                _ => Err(VmError::InvalidOpcode(opcode)),
            }
        }
    }

    /// Runs opcodes of the running channel until it stops running, a frame is
    /// blitted, or the budget is spent. A channel that stopped running is
    /// restored by the scheduler (see `Channel::restored`).
    fn run_slice(&mut self, channel_id: usize, context: &mut ExecutionContext, budget: &mut u32) -> (r:
        Result<FrameStep, VmError>)
        requires
            old(self).wf(),
            old(context).wf(),
            channel_id < NUM_CHANNELS,
        ensures
            final(self).wf(),
            final(context).wf(),
            r == Ok::<FrameStep, VmError>(FrameStep::Done) ==> final(self).channels@[channel_id as int].state
                != State::Running && slice_done(
                (*old(self), *old(context)),
                channel_id as int,
                (*final(self), *final(context)),
            ),
            r is Err ==> slice_failed((*old(self), *old(context)), channel_id as int, r->Err_0),
            r == Ok::<FrameStep, VmError>(FrameStep::Continue) ==> *final(budget) == 0 && exists|
                tr: Seq<(Vm, ExecutionContext)>,
            |
                #[trigger] slice_budget_trace(
                    tr,
                    channel_id as int,
                    (*old(self), *old(context)),
                    (*final(self), *final(context)),
                ) && tr.len() == *old(budget) + 1,
            r == Ok::<FrameStep, VmError>(FrameStep::Blit) ==> slice_stopped(
                (*old(self), *old(context)),
                channel_id as int,
                (*final(self), *final(context)),
                FrameStep::Blit,
            ),
            final(self).resume == old(self).resume,
            final(self).running_channel_id == old(self).running_channel_id,
            single_running(*old(self)) && old(self).running_channel_id == channel_id ==> (r
                == Ok::<FrameStep, VmError>(FrameStep::Done) ==> none_running(*final(self))) && (r is Ok
                ==> single_running(*final(self))),
    {
        let ghost start = (*self, *context);
        let ghost c = channel_id as int;
        let ghost mut t: Seq<(Vm, ExecutionContext)> = seq![start];
        while *budget > 0
            invariant
                self.wf(),
                context.wf(),
                channel_id < NUM_CHANNELS,
                c == channel_id,
                start == (*old(self), *old(context)),
                slice_steps(t, c),
                t[0] == start,
                t.last() == (*self, *context),
                self.resume == old(self).resume,
                t.len() + *budget == *old(budget) + 1,
                self.running_channel_id == old(self).running_channel_id,
                single_running(*old(self)) ==> single_running(*self),
            decreases *budget,
        {
            *budget = *budget - 1;
            let ghost a = (*self, *context);
            let opcode = match fetch_u8(&mut context.loaded_part.bytecode) {
                Ok(op) => op,
                Err(e) => {
                    proof {
                        assert(op_step(a.0, a.1, a.0, a.1, Err(e)));
                        assert(slice_broke(t, c, start, a, e));
                    }
                    return Err(e);
                },
            };
            let ghost m = *context;
            assert(fetched_from(a.1, m));
            assert(opcode == a.1.op_byte(0));
            let result = self.execute(opcode, context);
            let ghost b = (*self, *context);
            assert(op_step(a.0, a.1, b.0, b.1, result));
            match result {
                Ok(u) => {
                    assert(result == Ok::<(), VmError>(()));
                },
                Err(e) => {
                    assert(slice_broke(t, c, start, b, e));
                    return Err(e);
                },
            }
            assert(op_step(a.0, a.1, b.0, b.1, Ok(())));
            proof {
                if single_running(a.0) {
                    lemma_step_keeps_single_running(opcode, a.0, m, b.0, b.1);
                }
            }
            if opcode == 16 {
                assert(slice_blit_trace(t, c, start, b));
                return Ok(FrameStep::Blit);
            }
            if self.channels[channel_id].state != State::Running {
                let mut ch = self.channels[channel_id];
                ch.restore();
                self.channels.set(channel_id, ch);
                assert(slice_ends(t, c, start, b));
                assert(restored_state(b.0, c, *self));
                return Ok(FrameStep::Done);
            }
            assert(b.0.channels@[c].state == State::Running);
            proof {
                let t2 = t.push(b);
                assert forall|i: int| 0 <= i < t2.len() - 1 implies #[trigger] op_step(
                    t2[i].0,
                    t2[i].1,
                    t2[i + 1].0,
                    t2[i + 1].1,
                    Ok(()),
                ) && t2[i].1.op_byte(0) != 16 && t2[i + 1].0.channels@[c].state == State::Running by {
                    if i < t.len() - 1 {
                        assert(t2[i] == t[i] && t2[i + 1] == t[i + 1]);
                        assert(op_step(t[i].0, t[i].1, t[i + 1].0, t[i + 1].1, Ok(())));
                        assert(t[i].1.op_byte(0) != 16 && t[i + 1].0.channels@[c].state == State::Running);
                    } else {
                        assert(t2[i] == a && t2[i + 1] == b);
                        assert(op_step(a.0, a.1, b.0, b.1, Ok(())));
                        assert(a.1.op_byte(0) != 16);
                        assert(b.0.channels@[c].state == State::Running);
                    }
                }
                t = t2;
            }
        }
        assert(slice_budget_trace(t, c, start, (*self, *context)));
        Ok(FrameStep::Continue)
    }

    /// Starts the slice of channel `channel_id` at `channel_pc`, with a
    /// cleared call stack.
    fn run_channel(
        &mut self,
        channel_id: usize,
        channel_pc: usize,
        context: &mut ExecutionContext,
        budget: &mut u32,
    ) -> (r: Result<FrameStep, VmError>)
        requires
            old(self).wf(),
            old(context).wf(),
            channel_id < NUM_CHANNELS,
            old(self).channels@[channel_id as int].pc == ProcessCounter::Valid(channel_pc),
        ensures
            final(self).wf(),
            final(context).wf(),
            r == Ok::<FrameStep, VmError>(FrameStep::Done) ==> final(self).channels@[channel_id as int].state
                != State::Running && exists|p: (Vm, ExecutionContext)|
                #[trigger] dispatched((*old(self), *old(context)), channel_id as int, p) && slice_done(
                    p,
                    channel_id as int,
                    (*final(self), *final(context)),
                ),
            r is Err ==> exists|p: (Vm, ExecutionContext)|
                #[trigger] dispatched((*old(self), *old(context)), channel_id as int, p) && slice_failed(
                    p,
                    channel_id as int,
                    r->Err_0,
                ),
            r is Ok && r->Ok_0 != FrameStep::Done ==> exists|p: (Vm, ExecutionContext)|
                #[trigger] dispatched((*old(self), *old(context)), channel_id as int, p) && slice_stopped(
                    p,
                    channel_id as int,
                    (*final(self), *final(context)),
                    r->Ok_0,
                ),
            final(self).resume == old(self).resume,
            none_running(*old(self)) ==> (r == Ok::<FrameStep, VmError>(FrameStep::Done) ==> none_running(
                *final(self),
            )) && (r is Ok ==> single_running(*final(self)) && final(self).running_channel_id
                == channel_id),
    {
        let ghost s = (*self, *context);
        self.stack.clear();
        context.loaded_part.bytecode.set_position(channel_pc);
        self.running_channel_id = channel_id;
        let mut ch = self.channels[channel_id];
        ch.state = State::Running;
        self.channels.set(channel_id, ch);
        let ghost p = (*self, *context);
        assert(dispatched(s, channel_id as int, p));
        assert(none_running(s.0) ==> single_running(*self));
        self.run_slice(channel_id, context, budget)
    }

    /// Runs the frame tick: each channel, in order, that is ready with a
    /// program when its turn comes runs its slice from its counter with a
    /// fresh call stack; the others are left alone. Returns `Blit` or
    /// `Continue` where it stopped mid-frame; the next call goes on there.
    pub fn host_frame(&mut self, context: &mut ExecutionContext) -> (r: Result<FrameStep, VmError>)
        requires
            old(self).wf(),
            old(context).wf(),
        ensures
            final(self).wf(),
            final(context).wf(),
            r == Ok::<FrameStep, VmError>(FrameStep::Done) ==> final(self).resume is None,
            r == Ok::<FrameStep, VmError>(FrameStep::Blit) ==> final(self).resume is Some,
            r == Ok::<FrameStep, VmError>(FrameStep::Continue) ==> final(self).resume is Some,
            at_rest(*old(self)) && r is Ok ==> at_rest(*final(self)),
            old(self).resume is None && r == Ok::<FrameStep, VmError>(FrameStep::Done) ==> exists|
                states: Seq<(Vm, ExecutionContext)>,
            |
                #[trigger] frame_ran(
                    states,
                    0,
                    (*old(self), *old(context)),
                    (*final(self), *final(context)),
                ),
            old(self).resume is None && r is Err ==> exists|states: Seq<(Vm, ExecutionContext)>|
                #[trigger] frame_broke(states, 0, (*old(self), *old(context)), r->Err_0),
            old(self).resume is Some && r == Ok::<FrameStep, VmError>(FrameStep::Done) ==> {
                let c = old(self).resume->Some_0 as int;
                let rs = (Vm { resume: None, ..*old(self) }, *old(context));
                exists|states: Seq<(Vm, ExecutionContext)>|
                    #[trigger] frame_ran(states, c + 1, states[0], (*final(self), *final(context)))
                        && slice_done(rs, c, states[0])
            },
            old(self).resume is None && r is Ok && r->Ok_0 != FrameStep::Done ==> {
                exists|states: Seq<(Vm, ExecutionContext)>|
                    #[trigger] frame_stopped(
                        states,
                        0,
                        (*old(self), *old(context)),
                        unresumed((*final(self), *final(context))),
                        r->Ok_0,
                    ) && final(self).resume == Some((states.len() - 1) as usize)
            },
            old(self).resume is Some && r is Ok && r->Ok_0 != FrameStep::Done ==> {
                let c = old(self).resume->Some_0 as int;
                let rs = (Vm { resume: None, ..*old(self) }, *old(context));
                let end = unresumed((*final(self), *final(context)));
                (slice_stopped(rs, c, end, r->Ok_0) && final(self).resume == old(self).resume)
                    || exists|states: Seq<(Vm, ExecutionContext)>|
                    #[trigger] frame_stopped(states, c + 1, states[0], end, r->Ok_0)
                        && slice_done(rs, c, states[0]) && final(self).resume == Some(
                        (c + states.len()) as usize,
                    )
            },
            old(self).resume is Some && r is Err ==> {
                let c = old(self).resume->Some_0 as int;
                let rs = (Vm { resume: None, ..*old(self) }, *old(context));
                slice_failed(rs, c, r->Err_0) || exists|states: Seq<(Vm, ExecutionContext)>|
                    #[trigger] frame_broke(states, c + 1, states[0], r->Err_0) && slice_done(rs, c, states[0])
            },
    {
        let mut budget: u32 = OPS_PER_CALL;
        let mut channel_id: usize = 0;
        if let Some(c) = self.resume {
            self.resume = None;
            assert(*self == Vm { resume: None, ..*old(self) });
            let step = match self.run_slice(c, context, &mut budget) {
                Ok(step) => step,
                Err(e) => {
                    return Err(e);
                },
            };
            if step != FrameStep::Done {
                let ghost end = (*self, *context);
                self.resume = Some(c);
                assert(unresumed((*self, *context)) == end);
                return Ok(step);
            }
            channel_id = c + 1;
        }
        let ghost from = channel_id as int;
        let ghost first = (*self, *context);
        let ghost mut states: Seq<(Vm, ExecutionContext)> = seq![first];
        while channel_id < NUM_CHANNELS
            invariant
                self.wf(),
                context.wf(),
                self.resume is None,
                from <= channel_id <= NUM_CHANNELS,
                at_rest(*old(self)) ==> none_running(*self),
                states.len() == channel_id - from + 1,
                states[0] == first,
                states.last() == (*self, *context),
                frame_turns(states, from),
                old(self).resume is None ==> from == 0 && first == (*old(self), *old(context)),
                old(self).resume is Some ==> from == old(self).resume->Some_0 + 1 && slice_done(
                    (Vm { resume: None, ..*old(self) }, *old(context)),
                    from - 1,
                    first,
                ),
            decreases NUM_CHANNELS - channel_id,
        {
            let ghost s = (*self, *context);
            let ch = self.channels[channel_id];
            if should_run(ch) {
                if let ProcessCounter::Valid(pc) = ch.pc {
                    let step = match self.run_channel(channel_id, pc, context, &mut budget) {
                        Ok(step) => step,
                        Err(e) => {
                            proof {
                                let k = channel_id as int;
                                let p = choose|p: (Vm, ExecutionContext)|
                                    #[trigger] dispatched(s, k, p) && slice_failed(p, k, e);
                                assert(states.last() == s);
                                assert(from + states.len() - 1 == k);
                                assert(dispatched(states.last(), k, p) && slice_failed(p, k, e));
                            }
                            assert(frame_failed(states, from, e));
                            assert(frame_broke(states, from, first, e));
                            return Err(e);
                        },
                    };
                    if step != FrameStep::Done {
                        let ghost end = (*self, *context);
                        proof {
                            let k = channel_id as int;
                            let p = choose|p: (Vm, ExecutionContext)|
                                #[trigger] dispatched(s, k, p) && slice_stopped(p, k, end, step);
                            assert(states.last() == s);
                            assert(from + states.len() - 1 == k);
                            assert(dispatched(states.last(), k, p) && slice_stopped(p, k, end, step));
                            assert(frame_stopped(states, from, first, end, step));
                        }
                        self.resume = Some(channel_id);
                        assert(unresumed((*self, *context)) == end);
                        return Ok(step);
                    }
                }
            }
            let ghost s2 = (*self, *context);
            assert(turn(s, channel_id as int, s2));
            proof {
                let st2 = states.push(s2);
                assert forall|k: int| 0 <= k < st2.len() - 1 implies #[trigger] turn(
                    st2[k],
                    from + k,
                    st2[k + 1],
                ) by {
                    if k < states.len() - 1 {
                        assert(st2[k] == states[k] && st2[k + 1] == states[k + 1]);
                    }
                }
                states = st2;
            }
            channel_id = channel_id + 1;
        }
        assert(frame_ran(states, from, first, (*self, *context)));
        Ok(FrameStep::Done)
    }
}

/// What `Vm::op_mov_const` does: its state after and result.
pub open spec fn mov_const_effect(
    vm: Vm,
    ctx: ExecutionContext,
    vm2: Vm,
    ctx2: ExecutionContext,
    r: Result<(), VmError>,
) -> bool {
    &&& vm2.running_channel_id == vm.running_channel_id
    &&& vm2.resume == vm.resume
    &&& vm2.wf()
    &&& ctx2.only_pc_moved(&ctx)
    &&& (ctx.can_fetch(3) ==> r is Ok && ctx2.pc() == ctx.pc() + 3
                && vm2.variables@ == vm.variables@.update(
                ctx.op_byte(0) as int,
                ctx.op_word(1) as i16,
            ) && vm2.only_var_changed(&vm, ctx.op_byte(0) as int))
    &&& (!ctx.can_fetch(3) ==> r is Err)
}

/// What `Vm::op_mov` does: its state after and result.
pub open spec fn mov_effect(
    vm: Vm,
    ctx: ExecutionContext,
    vm2: Vm,
    ctx2: ExecutionContext,
    r: Result<(), VmError>,
) -> bool {
    &&& vm2.running_channel_id == vm.running_channel_id
    &&& vm2.resume == vm.resume
    &&& vm2.wf()
    &&& ctx2.only_pc_moved(&ctx)
    &&& (ctx.can_fetch(2) ==> r is Ok && ctx2.pc() == ctx.pc() + 2
                && vm2.variables@ == vm.variables@.update(
                ctx.op_byte(0) as int,
                vm.variables@[ctx.op_byte(1) as int],
            ) && vm2.only_var_changed(&vm, ctx.op_byte(0) as int))
    &&& (!ctx.can_fetch(2) ==> r is Err)
}

/// What `Vm::op_add` does: its state after and result.
pub open spec fn add_effect(
    vm: Vm,
    ctx: ExecutionContext,
    vm2: Vm,
    ctx2: ExecutionContext,
    r: Result<(), VmError>,
) -> bool {
    &&& vm2.running_channel_id == vm.running_channel_id
    &&& vm2.resume == vm.resume
    &&& vm2.wf()
    &&& ctx2.only_pc_moved(&ctx)
    &&& (ctx.can_fetch(2) ==> r is Ok && ctx2.pc() == ctx.pc() + 2
                && vm2.variables@ == vm.variables@.update(
                ctx.op_byte(0) as int,
                vm.variables@[ctx.op_byte(0) as int].wrapping_add(
                    vm.variables@[ctx.op_byte(1) as int],
                ),
            ) && vm2.only_var_changed(&vm, ctx.op_byte(0) as int))
    &&& (!ctx.can_fetch(2) ==> r is Err)
}

/// What `Vm::op_add_const` does: its state after and result.
pub open spec fn add_const_effect(
    vm: Vm,
    ctx: ExecutionContext,
    vm2: Vm,
    ctx2: ExecutionContext,
    r: Result<(), VmError>,
) -> bool {
    &&& vm2.running_channel_id == vm.running_channel_id
    &&& vm2.resume == vm.resume
    &&& vm2.wf()
    &&& ctx2.only_pc_moved(&ctx)
    &&& (ctx.can_fetch(3) ==> r is Ok && ctx2.pc() == ctx.pc() + 3
                && vm2.variables@ == vm.variables@.update(
                ctx.op_byte(0) as int,
                vm.variables@[ctx.op_byte(0) as int].wrapping_add(
                    ctx.op_word(1) as i16,
                ),
            ) && vm2.only_var_changed(&vm, ctx.op_byte(0) as int))
    &&& (!ctx.can_fetch(3) ==> r is Err)
}

/// What `Vm::op_call` does: its state after and result.
pub open spec fn call_effect(
    vm: Vm,
    ctx: ExecutionContext,
    vm2: Vm,
    ctx2: ExecutionContext,
    r: Result<(), VmError>,
) -> bool {
    &&& vm2.running_channel_id == vm.running_channel_id
    &&& vm2.resume == vm.resume
    &&& vm2.wf()
    &&& ctx2.only_pc_moved(&ctx)
    &&& vm2.variables@ == vm.variables@
    &&& vm2.channels@ == vm.channels@
    &&& (ctx.can_fetch(2) ==> r is Ok && ctx2.pc() == ctx.op_word(0)
                && vm2.stack@ == vm.stack@.push((ctx.pc() + 2) as usize))
    &&& (!ctx.can_fetch(2) ==> r is Err)
}

/// What `Vm::op_ret` does: its state after and result.
pub open spec fn ret_effect(
    vm: Vm,
    ctx: ExecutionContext,
    vm2: Vm,
    ctx2: ExecutionContext,
    r: Result<(), VmError>,
) -> bool {
    &&& vm2.running_channel_id == vm.running_channel_id
    &&& vm2.resume == vm.resume
    &&& vm2.wf()
    &&& ctx2.only_pc_moved(&ctx)
    &&& vm2.variables@ == vm.variables@
    &&& vm2.channels@ == vm.channels@
    &&& (vm.stack@.len() == 0 ==> r == Err::<(), VmError>(VmError::StackUnderflow)
                && ctx2 == ctx && vm2.stack@ == vm.stack@)
    &&& (vm.stack@.len() > 0 ==> r is Ok && ctx2.pc() == vm.stack@.last()
                && vm2.stack@ == vm.stack@.drop_last())
}

/// What `Vm::op_yield_channel` does: its state after and result.
pub open spec fn yield_channel_effect(
    vm: Vm,
    ctx: ExecutionContext,
    vm2: Vm,
    ctx2: ExecutionContext,
    r: Result<(), VmError>,
) -> bool {
    &&& vm2.running_channel_id == vm.running_channel_id
    &&& vm2.resume == vm.resume
    &&& r is Ok
    &&& vm2.wf()
    &&& ctx2 == ctx
    &&& vm2.variables@ == vm.variables@
    &&& vm2.channels@ == vm.channels@.update(
                vm.running_channel_id as int,
                vm.channels@[vm.running_channel_id as int].paused_at(
                    ProcessCounter::of(ctx.pc() as u64),
                ),
            )
}

/// What `Vm::op_jmp` does: its state after and result.
pub open spec fn jmp_effect(
    vm: Vm,
    ctx: ExecutionContext,
    vm2: Vm,
    ctx2: ExecutionContext,
    r: Result<(), VmError>,
) -> bool {
    &&& vm2.running_channel_id == vm.running_channel_id
    &&& vm2.resume == vm.resume
    &&& vm2.wf()
    &&& vm2 == vm
    &&& ctx2.only_pc_moved(&ctx)
    &&& (ctx.can_fetch(2) ==> r is Ok && ctx2.pc() == ctx.op_word(0))
    &&& (!ctx.can_fetch(2) ==> r is Err)
}

/// What `Vm::op_set_next_pc` does: its state after and result.
pub open spec fn set_next_pc_effect(
    vm: Vm,
    ctx: ExecutionContext,
    vm2: Vm,
    ctx2: ExecutionContext,
    r: Result<(), VmError>,
) -> bool {
    &&& vm2.running_channel_id == vm.running_channel_id
    &&& vm2.resume == vm.resume
    &&& vm2.wf()
    &&& ctx2.only_pc_moved(&ctx)
    &&& vm2.variables@ == vm.variables@
    &&& (ctx.can_fetch(3) ==> r is Ok && ctx2.pc() == ctx.pc() + 3
                && vm2.channels@ == set_vec(
                vm.channels@,
                ctx.op_byte(0) as int,
                ctx.op_word(1),
            ))
    &&& (!ctx.can_fetch(3) ==> r is Err)
}

/// What `Vm::op_jnz` does: its state after and result.
pub open spec fn jnz_effect(
    vm: Vm,
    ctx: ExecutionContext,
    vm2: Vm,
    ctx2: ExecutionContext,
    r: Result<(), VmError>,
) -> bool {
    &&& vm2.running_channel_id == vm.running_channel_id
    &&& vm2.resume == vm.resume
    &&& vm2.wf()
    &&& ctx2.only_pc_moved(&ctx)
    &&& (ctx.can_fetch(3) ==> {
                let v = ctx.op_byte(0) as int;
                let dec = vm.variables@[v].wrapping_sub(1);
                &&& r is Ok
                &&& vm2.variables@ == vm.variables@.update(v, dec)
                &&& vm2.only_var_changed(&vm, v)
                &&& ctx2.pc() == if dec != 0 {
                    ctx.op_word(1) as int
                } else {
                    ctx.pc() + 3
                }
            })
    &&& (!ctx.can_fetch(3) ==> r is Err)
}

/// What `Vm::op_cond_jmp` does: its state after and result.
pub open spec fn cond_jmp_effect(
    vm: Vm,
    ctx: ExecutionContext,
    vm2: Vm,
    ctx2: ExecutionContext,
    r: Result<(), VmError>,
) -> bool {
    &&& vm2.running_channel_id == vm.running_channel_id
    &&& vm2.resume == vm.resume
    &&& vm2.wf()
    &&& vm2 == vm
    &&& ctx2.only_pc_moved(&ctx)
    &&& (({
                let c = ctx;
                let op = c.op_byte(0);
                let n = cond_operand_len(op);
                &&& !c.can_fetch(2 + n + 2) ==> r is Err
                &&& c.can_fetch(2 + n + 2) ==> {
                    let a = cond_operand(vm.variables@, c, op);
                    let b = vm.variables@[c.op_byte(1) as int];
                    &&& r is Ok
                    &&& ctx2.pc() == if cond_holds(op, a, b) {
                        c.op_word(2 + n) as int
                    } else {
                        c.pc() + 2 + n + 2
                    }
                }
            }))
    &&& (!ctx.can_fetch(4) ==> r is Err)
}

/// What `Vm::op_set_palette` does: its state after and result.
pub open spec fn set_palette_effect(
    vm: Vm,
    ctx: ExecutionContext,
    vm2: Vm,
    ctx2: ExecutionContext,
    r: Result<(), VmError>,
) -> bool {
    &&& vm2.running_channel_id == vm.running_channel_id
    &&& vm2.resume == vm.resume
    &&& vm2.wf()
    &&& ctx2.wf()
    &&& vm2 == vm
    &&& ctx2.video.pages@ == ctx.video.pages@
    &&& (ctx.can_fetch(2) ==> r is Ok && ctx2.pc() == ctx.pc() + 2
                && ctx2.video.palette_req == PaletteRequest::Change(
                (ctx.op_word(0) / 256) as u8,
            ))
    &&& (!ctx.can_fetch(2) ==> r is Err)
}

/// What `Vm::op_reset_threads` does: its state after and result.
pub open spec fn reset_threads_effect(
    vm: Vm,
    ctx: ExecutionContext,
    vm2: Vm,
    ctx2: ExecutionContext,
    r: Result<(), VmError>,
) -> bool {
    &&& vm2.running_channel_id == vm.running_channel_id
    &&& vm2.resume == vm.resume
    &&& vm2.wf()
    &&& ctx2.only_pc_moved(&ctx)
    &&& vm2.variables@ == vm.variables@
    &&& (ctx.can_fetch(3) ==> r is Ok && ctx2.pc() == ctx.pc() + 3
                && forall|c: int|
                0 <= c < NUM_CHANNELS ==> #[trigger] vm2.channels@[c] == if ctx.op_byte(0) <= c
                    <= ctx.op_byte(1) {
                    reset_action(vm.channels@[c], ctx.op_byte(2))
                } else {
                    vm.channels@[c]
                })
    &&& (!ctx.can_fetch(3) ==> r is Err)
}

/// What `Vm::op_select_video_page` does: its state after and result.
pub open spec fn select_video_page_effect(
    vm: Vm,
    ctx: ExecutionContext,
    vm2: Vm,
    ctx2: ExecutionContext,
    r: Result<(), VmError>,
) -> bool {
    &&& vm2.running_channel_id == vm.running_channel_id
    &&& vm2.resume == vm.resume
    &&& vm2.wf()
    &&& ctx2.wf()
    &&& vm2 == vm
    &&& ctx2.video.pages@ == ctx.video.pages@
    &&& (ctx.can_fetch(1) ==> r is Ok && ctx2.pc() == ctx.pc() + 1
                && ctx2.video.work_buffer == ctx.video.page_of(
                page_id_of(ctx.op_byte(0)),
            ))
    &&& (!ctx.can_fetch(1) ==> r is Err)
}

/// What `Vm::op_fill_video_page` does: its state after and result.
pub open spec fn fill_video_page_effect(
    vm: Vm,
    ctx: ExecutionContext,
    vm2: Vm,
    ctx2: ExecutionContext,
    r: Result<(), VmError>,
) -> bool {
    &&& vm2.running_channel_id == vm.running_channel_id
    &&& vm2.resume == vm.resume
    &&& vm2.wf()
    &&& ctx2.wf()
    &&& vm2 == vm
    &&& ctx2.video.same_but_pages(&ctx.video)
    &&& (ctx.can_fetch(2) ==> r is Ok && ctx2.pc() == ctx.pc() + 2 && {
                let p = ctx.video.page_of(page_id_of(ctx.op_byte(0))) as int;
                forall|i: int|
                    0 <= i < 128000 ==> #[trigger] ctx2.video.pages@[i] == if p * 32000 <= i
                        < p * 32000 + 32000 {
                        crate::video::fill_byte(ctx.op_byte(1))
                    } else {
                        ctx.video.pages@[i]
                    }
            })
    &&& (!ctx.can_fetch(2) ==> r is Err)
}

/// What `Vm::op_copy_video_page` does: its state after and result.
pub open spec fn copy_video_page_effect(
    vm: Vm,
    ctx: ExecutionContext,
    vm2: Vm,
    ctx2: ExecutionContext,
    r: Result<(), VmError>,
) -> bool {
    &&& vm2.running_channel_id == vm.running_channel_id
    &&& vm2.resume == vm.resume
    &&& vm2.wf()
    &&& ctx2.wf()
    &&& vm2 == vm
    &&& ctx2.video.same_but_pages(&ctx.video)
    &&& (ctx.can_fetch(2) ==> r is Ok && ctx2.pc() == ctx.pc() + 2
                && crate::video::copy_page_result(
                ctx.video,
                copy_source_of(ctx.op_byte(0)),
                page_id_of(ctx.op_byte(1)),
                vm.variables@[VM_VARIABLE_SCROLL_Y as int],
                ctx2.video.pages@,
            ))
    &&& (!ctx.can_fetch(2) ==> r is Err)
}

/// What `Vm::op_blit_frame_buffer` does: its state after and result.
pub open spec fn blit_frame_buffer_effect(
    vm: Vm,
    ctx: ExecutionContext,
    vm2: Vm,
    ctx2: ExecutionContext,
    r: Result<(), VmError>,
) -> bool {
    &&& vm2.running_channel_id == vm.running_channel_id
    &&& vm2.resume == vm.resume
    &&& vm2.wf()
    &&& ctx2.wf()
    &&& ctx2.video.pages@ == ctx.video.pages@
    &&& ctx2.video.work_buffer == ctx.video.work_buffer
    &&& (ctx.can_fetch(1) ==> vm2.variables@ == vm.variables@.update(0xF7, 0)
                && ctx2.pc() == ctx.pc() + 1 && (
                ctx2.video.front_buffer,
                ctx2.video.back_buffer,
            ) == crate::video::displayed(ctx.video, page_id_of(ctx.op_byte(0)))
)
    &&& (ctx.can_fetch(1) && ctx.video.palette_req == PaletteRequest::Keep ==> r is Ok)
    &&& (ctx.can_fetch(1) && (ctx.video.palette_req matches PaletteRequest::Change(p) && p
                >= crate::video::NUM_PALETTES) ==> r == Err::<(), VmError>(
                VmError::VideoError(VideoError::InvalidPalette(ctx.video.palette_req->Change_0)),
            ))
    &&& (ctx.can_fetch(1) && ctx.video.palette_req is Change ==> {
                let p = ctx.video.palette_req->Change_0;
                let at = ctx.loaded_part.palette.at(p * 32);
                &&& p < crate::video::NUM_PALETTES && at.can_read(32) ==> r is Ok
                    && ctx2.video.palette_req == PaletteRequest::Keep && forall|i: int|
                    0 <= i < 16 ==> #[trigger] ctx2.video.renderer.palette@[i]
                        == crate::renderer::expand_rgb444(crate::cursor::be16_at(at.data@, p * 32 + 2 * i))
                &&& p < crate::video::NUM_PALETTES && !at.can_read(32) ==> r == Err::<(), VmError>(
                    VmError::VideoError(VideoError::RendererError(crate::renderer::RendererError::Io(ReadError::UnexpectedEof))),
                )
            })
    &&& (!ctx.can_fetch(1) ==> r is Err)
    &&& vm2.channels@ == vm.channels@
}

/// What `Vm::op_kill_channel` does: its state after and result.
pub open spec fn kill_channel_effect(
    vm: Vm,
    ctx: ExecutionContext,
    vm2: Vm,
    ctx2: ExecutionContext,
    r: Result<(), VmError>,
) -> bool {
    &&& vm2.running_channel_id == vm.running_channel_id
    &&& vm2.resume == vm.resume
    &&& r is Ok
    &&& vm2.wf()
    &&& ctx2 == ctx
    &&& vm2.variables@ == vm.variables@
    &&& vm2.channels@ == vm.channels@.update(
                vm.running_channel_id as int,
                vm.channels@[vm.running_channel_id as int].with_pc(ProcessCounter::Invalid),
            )
}

/// What `Vm::op_draw_string` does: its state after and result.
pub open spec fn draw_string_effect(
    vm: Vm,
    ctx: ExecutionContext,
    vm2: Vm,
    ctx2: ExecutionContext,
    r: Result<(), VmError>,
) -> bool {
    &&& vm2.running_channel_id == vm.running_channel_id
    &&& vm2.resume == vm.resume
    &&& vm2.wf()
    &&& vm2 == vm
    &&& ctx2.only_pc_moved(&ctx)
    &&& (ctx.can_fetch(5) ==> r is Ok && ctx2.pc() == ctx.pc() + 5)
    &&& (!ctx.can_fetch(5) ==> r is Err)
}

/// What `Vm::op_sub` does: its state after and result.
pub open spec fn sub_effect(
    vm: Vm,
    ctx: ExecutionContext,
    vm2: Vm,
    ctx2: ExecutionContext,
    r: Result<(), VmError>,
) -> bool {
    &&& vm2.running_channel_id == vm.running_channel_id
    &&& vm2.resume == vm.resume
    &&& vm2.wf()
    &&& ctx2.only_pc_moved(&ctx)
    &&& (ctx.can_fetch(2) ==> r is Ok && ctx2.pc() == ctx.pc() + 2
                && vm2.variables@ == vm.variables@.update(
                ctx.op_byte(0) as int,
                vm.variables@[ctx.op_byte(0) as int].wrapping_sub(
                    vm.variables@[ctx.op_byte(1) as int],
                ),
            ) && vm2.only_var_changed(&vm, ctx.op_byte(0) as int))
    &&& (!ctx.can_fetch(2) ==> r is Err)
}

/// What `Vm::op_and` does: its state after and result.
pub open spec fn and_effect(
    vm: Vm,
    ctx: ExecutionContext,
    vm2: Vm,
    ctx2: ExecutionContext,
    r: Result<(), VmError>,
) -> bool {
    &&& vm2.running_channel_id == vm.running_channel_id
    &&& vm2.resume == vm.resume
    &&& vm2.wf()
    &&& ctx2.only_pc_moved(&ctx)
    &&& (ctx.can_fetch(3) ==> r is Ok && ctx2.pc() == ctx.pc() + 3
                && vm2.variables@ == vm.variables@.update(
                ctx.op_byte(0) as int,
                vm.variables@[ctx.op_byte(0) as int] & (ctx.op_word(1) as i16),
            ) && vm2.only_var_changed(&vm, ctx.op_byte(0) as int))
    &&& (!ctx.can_fetch(3) ==> r is Err)
}

/// What `Vm::op_or` does: its state after and result.
pub open spec fn or_effect(
    vm: Vm,
    ctx: ExecutionContext,
    vm2: Vm,
    ctx2: ExecutionContext,
    r: Result<(), VmError>,
) -> bool {
    &&& vm2.running_channel_id == vm.running_channel_id
    &&& vm2.resume == vm.resume
    &&& vm2.wf()
    &&& ctx2.only_pc_moved(&ctx)
    &&& (ctx.can_fetch(3) ==> r is Ok && ctx2.pc() == ctx.pc() + 3
                && vm2.variables@ == vm.variables@.update(
                ctx.op_byte(0) as int,
                vm.variables@[ctx.op_byte(0) as int] | (ctx.op_word(1) as i16),
            ) && vm2.only_var_changed(&vm, ctx.op_byte(0) as int))
    &&& (!ctx.can_fetch(3) ==> r is Err)
}

/// What `Vm::op_shl` does: its state after and result.
pub open spec fn shl_effect(
    vm: Vm,
    ctx: ExecutionContext,
    vm2: Vm,
    ctx2: ExecutionContext,
    r: Result<(), VmError>,
) -> bool {
    &&& vm2.running_channel_id == vm.running_channel_id
    &&& vm2.resume == vm.resume
    &&& vm2.wf()
    &&& ctx2.only_pc_moved(&ctx)
    &&& (ctx.can_fetch(3) ==> r is Ok && ctx2.pc() == ctx.pc() + 3
                && vm2.variables@ == vm.variables@.update(
                ctx.op_byte(0) as int,
                vm.variables@[ctx.op_byte(0) as int].wrapping_shl(
                    ctx.op_word(1) as u32,
                ),
            ) && vm2.only_var_changed(&vm, ctx.op_byte(0) as int))
    &&& (!ctx.can_fetch(3) ==> r is Err)
}

/// What `Vm::op_shr` does: its state after and result.
pub open spec fn shr_effect(
    vm: Vm,
    ctx: ExecutionContext,
    vm2: Vm,
    ctx2: ExecutionContext,
    r: Result<(), VmError>,
) -> bool {
    &&& vm2.running_channel_id == vm.running_channel_id
    &&& vm2.resume == vm.resume
    &&& vm2.wf()
    &&& ctx2.only_pc_moved(&ctx)
    &&& (ctx.can_fetch(3) ==> r is Ok && ctx2.pc() == ctx.pc() + 3
                && vm2.variables@ == vm.variables@.update(
                ctx.op_byte(0) as int,
                vm.variables@[ctx.op_byte(0) as int].wrapping_shr(
                    ctx.op_word(1) as u32,
                ),
            ) && vm2.only_var_changed(&vm, ctx.op_byte(0) as int))
    &&& (!ctx.can_fetch(3) ==> r is Err)
}

/// What `Vm::op_play_sound` does: its state after and result.
pub open spec fn play_sound_effect(
    vm: Vm,
    ctx: ExecutionContext,
    vm2: Vm,
    ctx2: ExecutionContext,
    r: Result<(), VmError>,
) -> bool {
    &&& vm2.running_channel_id == vm.running_channel_id
    &&& vm2.resume == vm.resume
    &&& vm2.wf()
    &&& vm2 == vm
    &&& ctx2.only_pc_moved(&ctx)
    &&& (ctx.can_fetch(5) ==> r is Ok && ctx2.pc() == ctx.pc() + 5)
    &&& (!ctx.can_fetch(5) ==> r is Err)
}

/// What `Vm::op_update_mem_list` does: its state after and result.
pub open spec fn update_mem_list_effect(
    vm: Vm,
    ctx: ExecutionContext,
    vm2: Vm,
    ctx2: ExecutionContext,
    r: Result<(), VmError>,
) -> bool {
    &&& vm2.running_channel_id == vm.running_channel_id
    &&& vm2.resume == vm.resume
    &&& vm2.wf()
    &&& ctx2.wf()
    &&& vm2 == vm
    &&& ctx2.video == ctx.video
    &&& ctx2.resource.mem_list@ == ctx.resource.mem_list@
    &&& ctx2.resource.banks@ == ctx.resource.banks@
    &&& ctx2.code() == ctx.code()
    &&& ctx2.loaded_part.palette == ctx.loaded_part.palette
    &&& ctx2.loaded_part.cinematic == ctx.loaded_part.cinematic
    &&& ctx2.loaded_part.polygon == ctx.loaded_part.polygon
    &&& (!(ctx.can_fetch(2) && ctx.op_word(0) >= NUM_MEM_ENTRIES && r is Ok)
                ==> ctx2.part_to_load == ctx.part_to_load)
    &&& (!ctx.can_fetch(2) ==> r is Err)
    &&& (ctx.can_fetch(2) ==> ctx2.pc() == ctx.pc() + 2 && {
                let id = ctx.op_word(0);
                &&& id == 0 ==> r is Ok && ctx2.loaded_asset.assets@ == Map::<usize, Vec<u8>>::empty()
                &&& 1 <= id < NUM_MEM_ENTRIES ==> match ctx.resource.entry_load(id as int) {
                    Ok(v) => r is Ok && ctx2.loaded_asset.assets@ == ctx.loaded_asset.assets@.insert(
                        id as usize,
                        ctx2.loaded_asset.assets@[id as usize],
                    ) && ctx2.loaded_asset.assets@[id as usize]@ == v,
                    Err(e) => r == Err::<(), VmError>(VmError::ResourceError(e)),
                }
                &&& id >= NUM_MEM_ENTRIES && (exists|p: GamePart| p.id_of() == id) ==> r is Ok
                    && (ctx2.part_to_load matches Some(p) && p.id_of() == id)
                &&& id >= NUM_MEM_ENTRIES && (forall|p: GamePart| p.id_of() != id) ==> r
                    == Err::<(), VmError>(VmError::InvalidGamePart(id))
            })
}

/// What `Vm::op_play_music` does: its state after and result.
pub open spec fn play_music_effect(
    vm: Vm,
    ctx: ExecutionContext,
    vm2: Vm,
    ctx2: ExecutionContext,
    r: Result<(), VmError>,
) -> bool {
    &&& vm2.running_channel_id == vm.running_channel_id
    &&& vm2.resume == vm.resume
    &&& vm2.wf()
    &&& vm2 == vm
    &&& ctx2.only_pc_moved(&ctx)
    &&& (ctx.can_fetch(5) ==> r is Ok && ctx2.pc() == ctx.pc() + 5)
    &&& (!ctx.can_fetch(5) ==> r is Err)
}

/// What `Vm::draw_sprite` does: its state after and result.
pub open spec fn draw_sprite_effect(
    opcode: u8,
    vm: Vm,
    ctx: ExecutionContext,
    vm2: Vm,
    ctx2: ExecutionContext,
    r: Result<(), VmError>,
) -> bool {
    &&& vm2.running_channel_id == vm.running_channel_id
    &&& vm2.resume == vm.resume
    &&& vm2.wf()
    &&& ctx2.wf()
    &&& vm2 == vm
    &&& ctx2.code() == ctx.code()
    &&& ctx2.video.same_but_pages(&ctx.video)
    &&& crate::video::unchanged_outside(
                ctx2.video.pages@,
                ctx.video.pages@,
                ctx.video.work_buffer as int,
            )
    &&& (!ctx.can_fetch(2) ==> r == Err::<(), VmError>(VmError::Io(ReadError::UnexpectedEof)))
    &&& (ctx.can_fetch(sprite_operand_len(opcode)) ==> ctx2.pc() == ctx.pc()
                + sprite_consumed(opcode))
    &&& (r == Err::<(), VmError>(VmError::MissingPolygonSegment) ==> ctx2.video.pages@ == ctx.video.pages@)
    &&& (ctx.can_fetch(sprite_operand_len(opcode)) ==> match sprite_drawn(
                vm.variables@,
                ctx,
                opcode,
            ) {
                Ok(p) => r is Ok && ctx2.video.pages@ == p,
                Err(e) => r == Err::<(), VmError>(e),
            })
}

/// What `Vm::draw_background` does: its state after and result.
pub open spec fn draw_background_effect(
    opcode: u8,
    vm: Vm,
    ctx: ExecutionContext,
    vm2: Vm,
    ctx2: ExecutionContext,
    r: Result<(), VmError>,
) -> bool {
    &&& vm2.running_channel_id == vm.running_channel_id
    &&& vm2.resume == vm.resume
    &&& vm2.wf()
    &&& ctx2.wf()
    &&& vm2 == vm
    &&& ctx2.code() == ctx.code()
    &&& ctx2.video.same_but_pages(&ctx.video)
    &&& crate::video::unchanged_outside(
                ctx2.video.pages@,
                ctx.video.pages@,
                ctx.video.work_buffer as int,
            )
    &&& (!ctx.can_fetch(3) ==> r == Err::<(), VmError>(VmError::Io(ReadError::UnexpectedEof)))
    &&& (ctx.can_fetch(3) ==> ctx2.pc() == ctx.pc() + 3 && match background_drawn(
                ctx,
                opcode,
            ) {
                Ok(p) => r is Ok && ctx2.video.pages@ == p,
                Err(e) => r == Err::<(), VmError>(e),
            })
}

/// What running opcode `op` does: the drawing opcodes by their top bits,
/// the others by number; past the table, an invalid opcode.
#[verifier::opaque]
pub open spec fn op_effect(
    op: u8,
    vm: Vm,
    ctx: ExecutionContext,
    vm2: Vm,
    ctx2: ExecutionContext,
    r: Result<(), VmError>,
) -> bool {
    if op & 0x80 != 0 {
        draw_background_effect(op, vm, ctx, vm2, ctx2, r)
    } else if op & 0x40 != 0 {
        draw_sprite_effect(op, vm, ctx, vm2, ctx2, r)
    } else if op == 0 {
        mov_const_effect(vm, ctx, vm2, ctx2, r)
    } else if op == 1 {
        mov_effect(vm, ctx, vm2, ctx2, r)
    } else if op == 2 {
        add_effect(vm, ctx, vm2, ctx2, r)
    } else if op == 3 {
        add_const_effect(vm, ctx, vm2, ctx2, r)
    } else if op == 4 {
        call_effect(vm, ctx, vm2, ctx2, r)
    } else if op == 5 {
        ret_effect(vm, ctx, vm2, ctx2, r)
    } else if op == 6 {
        yield_channel_effect(vm, ctx, vm2, ctx2, r)
    } else if op == 7 {
        jmp_effect(vm, ctx, vm2, ctx2, r)
    } else if op == 8 {
        set_next_pc_effect(vm, ctx, vm2, ctx2, r)
    } else if op == 9 {
        jnz_effect(vm, ctx, vm2, ctx2, r)
    } else if op == 10 {
        cond_jmp_effect(vm, ctx, vm2, ctx2, r)
    } else if op == 11 {
        set_palette_effect(vm, ctx, vm2, ctx2, r)
    } else if op == 12 {
        reset_threads_effect(vm, ctx, vm2, ctx2, r)
    } else if op == 13 {
        select_video_page_effect(vm, ctx, vm2, ctx2, r)
    } else if op == 14 {
        fill_video_page_effect(vm, ctx, vm2, ctx2, r)
    } else if op == 15 {
        copy_video_page_effect(vm, ctx, vm2, ctx2, r)
    } else if op == 16 {
        blit_frame_buffer_effect(vm, ctx, vm2, ctx2, r)
    } else if op == 17 {
        kill_channel_effect(vm, ctx, vm2, ctx2, r)
    } else if op == 18 {
        draw_string_effect(vm, ctx, vm2, ctx2, r)
    } else if op == 19 {
        sub_effect(vm, ctx, vm2, ctx2, r)
    } else if op == 20 {
        and_effect(vm, ctx, vm2, ctx2, r)
    } else if op == 21 {
        or_effect(vm, ctx, vm2, ctx2, r)
    } else if op == 22 {
        shl_effect(vm, ctx, vm2, ctx2, r)
    } else if op == 23 {
        shr_effect(vm, ctx, vm2, ctx2, r)
    } else if op == 24 {
        play_sound_effect(vm, ctx, vm2, ctx2, r)
    } else if op == 25 {
        update_mem_list_effect(vm, ctx, vm2, ctx2, r)
    } else if op == 26 {
        play_music_effect(vm, ctx, vm2, ctx2, r)
    } else {
        r == Err::<(), VmError>(VmError::InvalidOpcode(op)) && vm2 == vm && ctx2 == ctx
    }
}

/// `m` is `ctx` with its counter moved past the opcode byte.
pub open spec fn fetched_from(ctx: ExecutionContext, m: ExecutionContext) -> bool {
    m.only_pc_moved(&ctx) && m.pc() == ctx.pc() + 1
}

/// One opcode fetched at the counter and run, taking `(vm, ctx)` to
/// `(vm2, ctx2)` with result `r`.
pub open spec fn op_step(vm: Vm, ctx: ExecutionContext, vm2: Vm, ctx2: ExecutionContext, r: Result<(), VmError>) -> bool {
    if ctx.can_fetch(1) {
        exists|m: ExecutionContext| #[trigger] fetched_from(ctx, m) && op_effect(ctx.op_byte(0), vm, m, vm2, ctx2, r)
    } else {
        r == Err::<(), VmError>(VmError::Io(ReadError::UnexpectedEof))
    }
}

/// `t` is a run of opcodes of channel `c`: each succeeds, none is a blit, and
/// after each the channel is still running.
pub open spec fn slice_steps(t: Seq<(Vm, ExecutionContext)>, c: int) -> bool {
    &&& t.len() >= 1
    &&& forall|i: int|
        0 <= i < t.len() - 1 ==> #[trigger] op_step(t[i].0, t[i].1, t[i + 1].0, t[i + 1].1, Ok(()))
            && t[i].1.op_byte(0) != 16 && t[i + 1].0.channels@[c].state == State::Running
}

/// The run `t` from `start` ends with one more opcode, not a blit, after
/// which channel `c` no longer runs: state `e`.
pub open spec fn slice_ends(t: Seq<(Vm, ExecutionContext)>, c: int, start: (Vm, ExecutionContext), e: (Vm, ExecutionContext)) -> bool {
    &&& slice_steps(t, c)
    &&& t[0] == start
    &&& op_step(t.last().0, t.last().1, e.0, e.1, Ok(()))
    &&& t.last().1.op_byte(0) != 16
    &&& e.0.channels@[c].state != State::Running
}

/// The run `t` from `start` ends with a failing opcode fetch or opcode.
pub open spec fn slice_broke(t: Seq<(Vm, ExecutionContext)>, c: int, start: (Vm, ExecutionContext), e: (Vm, ExecutionContext), err: VmError) -> bool {
    &&& slice_steps(t, c)
    &&& t[0] == start
    &&& op_step(t.last().0, t.last().1, e.0, e.1, Err(err))
}

/// `b` is `a` with channel `c` restored by the scheduler at its slice's end.
pub open spec fn restored_state(a: Vm, c: int, b: Vm) -> bool {
    &&& b.channels@ == a.channels@.update(c, a.channels@[c].restored())
    &&& b.variables@ == a.variables@
    &&& b.stack@ == a.stack@
    &&& b.running_channel_id == a.running_channel_id
    &&& b.resume == a.resume
}

/// The slice of channel `c` from `start` ran opcode by opcode until the
/// channel stopped running, and was restored: `end`.
pub open spec fn slice_done(start: (Vm, ExecutionContext), c: int, end: (Vm, ExecutionContext)) -> bool {
    exists|t: Seq<(Vm, ExecutionContext)>, e: (Vm, ExecutionContext)|
        #[trigger] slice_ends(t, c, start, e) && restored_state(e.0, c, end.0) && end.1 == e.1
}

/// The slice of channel `c` from `start` ran opcode by opcode until one
/// failed with `err`.
pub open spec fn slice_failed(start: (Vm, ExecutionContext), c: int, err: VmError) -> bool {
    exists|t: Seq<(Vm, ExecutionContext)>, e: (Vm, ExecutionContext)| #[trigger] slice_broke(t, c, start, e, err)
}

/// `p` is `s` with channel `c` dispatched: running from its counter, with a
/// cleared call stack.
pub open spec fn dispatched(s: (Vm, ExecutionContext), c: int, p: (Vm, ExecutionContext)) -> bool {
    match s.0.channels@[c].pc {
        ProcessCounter::Valid(pc) => {
            &&& p.0.stack@.len() == 0
            &&& p.0.running_channel_id == c
            &&& p.0.channels@ == s.0.channels@.update(c, Channel { state: State::Running, ..s.0.channels@[c] })
            &&& p.0.variables@ == s.0.variables@
            &&& p.0.resume == s.0.resume
            &&& p.1.only_pc_moved(&s.1)
            &&& p.1.pc() == pc
        },
        ProcessCounter::Invalid => false,
    }
}

/// Channel `c`'s turn in the frame tick takes `s` to `s2`: a dispatchable
/// channel runs its slice, any other is passed over with nothing changed.
pub open spec fn turn(s: (Vm, ExecutionContext), c: int, s2: (Vm, ExecutionContext)) -> bool {
    if dispatchable(s.0.channels@[c]) {
        exists|p: (Vm, ExecutionContext)| #[trigger] dispatched(s, c, p) && slice_done(p, c, s2)
    } else {
        s2 == s
    }
}

/// `states` are the states before each turn from channel `from` on.
pub open spec fn frame_turns(states: Seq<(Vm, ExecutionContext)>, from: int) -> bool {
    forall|k: int| 0 <= k < states.len() - 1 ==> #[trigger] turn(states[k], from + k, states[k + 1])
}

/// The turns of channels `from` to the last took `s0` to `s_end`.
pub open spec fn frame_ran(states: Seq<(Vm, ExecutionContext)>, from: int, s0: (Vm, ExecutionContext), s_end: (Vm, ExecutionContext)) -> bool {
    &&& states.len() == NUM_CHANNELS + 1 - from
    &&& states[0] == s0
    &&& states.last() == s_end
    &&& frame_turns(states, from)
}

/// The turn after `states` dispatched its channel, whose slice failed with `e`.
pub open spec fn frame_failed(states: Seq<(Vm, ExecutionContext)>, from: int, e: VmError) -> bool {
    let k = from + states.len() - 1;
    &&& k < NUM_CHANNELS
    &&& exists|p: (Vm, ExecutionContext)| #[trigger] dispatched(states.last(), k, p) && slice_failed(p, k, e)
}

/// The turns from channel `from` went as `states` says from `s0`, and the
/// next one failed with `e`.
pub open spec fn frame_broke(states: Seq<(Vm, ExecutionContext)>, from: int, s0: (Vm, ExecutionContext), e: VmError) -> bool {
    &&& states.len() >= 1
    &&& states[0] == s0
    &&& frame_turns(states, from)
    &&& frame_failed(states, from, e)
}

/// The run `t` from `start` ends with a blit that succeeds, in state `e`.
pub open spec fn slice_blit_trace(t: Seq<(Vm, ExecutionContext)>, c: int, start: (Vm, ExecutionContext), e: (Vm, ExecutionContext)) -> bool {
    &&& slice_steps(t, c)
    &&& t[0] == start
    &&& op_step(t.last().0, t.last().1, e.0, e.1, Ok(()))
    &&& t.last().1.op_byte(0) == 16
}

/// The run `t` from `start` stopped for want of budget in state `e`, the
/// channel still running.
pub open spec fn slice_budget_trace(t: Seq<(Vm, ExecutionContext)>, c: int, start: (Vm, ExecutionContext), e: (Vm, ExecutionContext)) -> bool {
    &&& slice_steps(t, c)
    &&& t[0] == start
    &&& t.last() == e
}

/// The slice of channel `c` from `start` stopped mid-slice in `end`: at a
/// blit where `step` is `Blit`, else for want of budget.
pub open spec fn slice_stopped(start: (Vm, ExecutionContext), c: int, end: (Vm, ExecutionContext), step: FrameStep) -> bool {
    if step == FrameStep::Blit {
        exists|t: Seq<(Vm, ExecutionContext)>| #[trigger] slice_blit_trace(t, c, start, end)
    } else {
        exists|t: Seq<(Vm, ExecutionContext)>| #[trigger] slice_budget_trace(t, c, start, end)
    }
}

/// The turns after `states` from channel `from` on ran as `states` says from
/// `s0`, then the next channel was dispatched and its slice stopped mid-way
/// in `end`.
pub open spec fn frame_stopped(
    states: Seq<(Vm, ExecutionContext)>,
    from: int,
    s0: (Vm, ExecutionContext),
    end: (Vm, ExecutionContext),
    step: FrameStep,
) -> bool {
    let k = from + states.len() - 1;
    &&& states.len() >= 1
    &&& states[0] == s0
    &&& frame_turns(states, from)
    &&& k < NUM_CHANNELS
    &&& exists|p: (Vm, ExecutionContext)| #[trigger] dispatched(states.last(), k, p) && slice_stopped(p, k, end, step)
}

/// The machine state without a slice to go on with.
pub open spec fn unresumed(s: (Vm, ExecutionContext)) -> (Vm, ExecutionContext) {
    (Vm { resume: None, ..s.0 }, s.1)
}

/// No channel but the running one is in state Running.
pub open spec fn single_running(vm: Vm) -> bool {
    forall|c: int|
        0 <= c < NUM_CHANNELS && c != vm.running_channel_id ==> #[trigger] vm.channels@[c].state
            != State::Running
}

/// No channel is in state Running.
pub open spec fn none_running(vm: Vm) -> bool {
    forall|c: int| 0 <= c < NUM_CHANNELS ==> #[trigger] vm.channels@[c].state != State::Running
}

/// The machine between calls of the frame tick: no channel runs but the one
/// whose interrupted slice is to go on, and that one is the running channel.
pub open spec fn at_rest(vm: Vm) -> bool {
    match vm.resume {
        None => none_running(vm),
        Some(c) => c == vm.running_channel_id && single_running(vm),
    }
}

/// An opcode that succeeds keeps the running channel, and sets no other
/// channel running.
proof fn lemma_step_keeps_single_running(op: u8, vm: Vm, ctx: ExecutionContext, vm2: Vm, ctx2: ExecutionContext)
    requires
        vm.wf(),
        op_effect(op, vm, ctx, vm2, ctx2, Ok(())),
        single_running(vm),
    ensures
        vm2.running_channel_id == vm.running_channel_id,
        single_running(vm2),
{
    reveal(op_effect);
}

/// The channels after staging each `(channel, pc)` of `writes` in order.
pub open spec fn apply_set_vecs(chs: Seq<Channel>, writes: Seq<(int, u16)>) -> Seq<Channel>
    decreases writes.len(),
{
    if writes.len() == 0 {
        chs
    } else {
        let w = writes.last();
        set_vec(apply_set_vecs(chs, writes.drop_last()), w.0, w.1)
    }
}

/// Whatever channel counters a frame stages, at the next frame boundary each
/// channel holds the one staged for it last.
pub proof fn lemma_last_set_vec_wins(chs: Seq<Channel>, writes: Seq<(int, u16)>, j: int)
    requires
        0 <= j < writes.len(),
        0 <= writes[j].0 < chs.len(),
        forall|k: int| j < k < writes.len() ==> #[trigger] writes[k].0 != writes[j].0,
    ensures
        apply_set_vecs(chs, writes).len() == chs.len(),
        apply_set_vecs(chs, writes)[writes[j].0].committed().pc == ProcessCounter::of(writes[j].1 as u64),
        apply_set_vecs(chs, writes)[writes[j].0].committed().state == state_for(ProcessCounter::of(writes[j].1 as u64)),
    decreases writes.len(),
{
    lemma_set_vecs_len(chs, writes);
    if j < writes.len() - 1 {
        let rest = writes.drop_last();
        assert forall|k: int| j < k < rest.len() implies #[trigger] rest[k].0 != rest[j].0 by {
            assert(rest[k] == writes[k]);
        }
        lemma_last_set_vec_wins(chs, rest, j);
        assert(writes.last().0 != writes[j].0);
    }
}

proof fn lemma_set_vecs_len(chs: Seq<Channel>, writes: Seq<(int, u16)>)
    ensures
        apply_set_vecs(chs, writes).len() == chs.len(),
    decreases writes.len(),
{
    if writes.len() > 0 {
        lemma_set_vecs_len(chs, writes.drop_last());
    }
}

/// A channel that kills itself, with nothing staged for it, is dead after
/// the next frame boundary and is not run.
pub proof fn lemma_killed_channel_stays_dead(ch: Channel)
    requires
        ch.next_pc is None,
    ensures
        ch.with_pc(ProcessCounter::Invalid).committed().state == State::Dead,
        !dispatchable(ch.with_pc(ProcessCounter::Invalid).committed()),
{
}

/// Relations 6 and 7 of a conditional jump never hold: it falls through.
pub proof fn lemma_relations_six_and_seven_fall_through(rel: u8, a: i16, b: i16)
    requires
        rel % 8 == 6 || rel % 8 == 7,
    ensures
        !cond_holds(rel, a, b),
{
}

} // verus!
