//! The frame boundary: part changes and committed channel counters.

use vstd::prelude::*;
use crate::execution_context::ExecutionContext;
use crate::loaded::LoadedAsset;
use crate::resource::ResourceError;
use crate::channel::{Channel, ProcessCounter, State};
use crate::loaded::cursor_at_start;
use crate::video::{bg_byte, VideoError};
use crate::vm::{Vm, VmError, NUM_CHANNELS};

verus! {

#[derive(Debug, PartialEq, Eq, Structural, Clone, Copy)]
pub enum EngineError {
    ResourceError(ResourceError),
    VmError(VmError),
    VideoError(VideoError),
}

/// What loading a staged part does: the state after and the result.
pub open spec fn part_update(
    ctx: ExecutionContext,
    vm: Vm,
    ctx2: ExecutionContext,
    vm2: Vm,
    r: Result<(), EngineError>,
) -> bool {
    &&& ctx2.wf()
    &&& vm2.wf()
    &&& (ctx.part_to_load is None ==> r is Ok && ctx2 == ctx
                && vm2 == vm)
    &&& (ctx.part_to_load is Some && r is Ok ==> ctx2.part_to_load is None
        && ctx2.loaded_asset.assets@ == Map::<usize, Vec<u8>>::empty() && vm2.resume is None)
    &&& (ctx.part_to_load matches Some(part) ==> match ctx.resource.part_load(
                part,
            ) {
                Err(e) => r == Err::<(), EngineError>(EngineError::ResourceError(e)),
                Ok(b) => {
                    &&& (b.polygon matches Some(pg) && pg.len() < 32000) ==> r == Err::<(), EngineError>(
                        EngineError::VideoError(VideoError::BackgroundTooShort),
                    )
                    &&& (b.polygon is None || b.polygon.unwrap().len() >= 32000) ==> {
                        &&& r is Ok
                        &&& cursor_at_start(ctx2.loaded_part.palette, b.palette)
                        &&& cursor_at_start(ctx2.loaded_part.bytecode, b.bytecode)
                        &&& cursor_at_start(ctx2.loaded_part.cinematic, b.cinematic)
                        &&& match b.polygon {
                            None => ctx2.loaded_part.polygon is None
                                && ctx2.video.pages@ == ctx.video.pages@,
                            Some(pg) => ctx2.loaded_part.polygon is Some && cursor_at_start(
                                ctx2.loaded_part.polygon.unwrap(),
                                pg,
                            ) && forall|i: int|
                                0 <= i < 32000 ==> #[trigger] ctx2.video.pages@[i] == bg_byte(pg, i),
                        }
                        &&& vm2.variables@ == vm.variables@.update(0xE4, 0x14)
                        &&& vm2.channels@[0] == (Channel {
                            state: State::Ready,
                            pc: ProcessCounter::Valid(0),
                            next_pc: None,
                        })
                        &&& forall|c: int| 1 <= c < NUM_CHANNELS ==> #[trigger] vm2.channels@[c] == Channel::new_spec()
                    }
                },
            })
}

/// The per-frame steps around the machine; the host drives the loop.
pub struct Engine {}

impl Engine {
    /// Loads a staged part: resets the machine, loads the part's segments,
    /// decodes its background into page 0 and clears the loaded resources.
    pub fn update_part(context: &mut ExecutionContext, vm: &mut Vm) -> (r: Result<(), EngineError>)
        requires
            old(context).wf(),
            old(vm).wf(),
        ensures
            part_update(*old(context), *old(vm), *final(context), *final(vm), r),
    {
        if let Some(part_id) = context.part_to_load {
            match vm.init_part() {
                Ok(()) => {},
                Err(e) => {
                    return Err(EngineError::VmError(e));
                },
            }
            let loaded_part = match context.resource.setup_part(part_id) {
                Ok(p) => p,
                Err(e) => {
                    return Err(EngineError::ResourceError(e));
                },
            };
            if let Some(polygon) = &loaded_part.polygon {
                match context.video.copy_bg(polygon.get_ref()) {
                    Ok(()) => {},
                    Err(e) => {
                        return Err(EngineError::VideoError(e));
                    },
                }
            }
            context.loaded_part = loaded_part;
            context.loaded_asset = LoadedAsset::new();
            context.part_to_load = None;
        }
        Ok(())
    }

    /// The frame boundary: a staged part is loaded, then every staged
    /// channel counter is committed.
    pub fn begin_frame(context: &mut ExecutionContext, vm: &mut Vm) -> (r: Result<(), EngineError>)
        requires
            old(context).wf(),
            old(vm).wf(),
        ensures
            final(context).wf(),
            final(vm).wf(),
            old(context).part_to_load is None ==> r is Ok && forall|c: int|
                0 <= c < NUM_CHANNELS ==> #[trigger] final(vm).channels@[c]
                    == old(vm).channels@[c].committed(),
            old(context).part_to_load is Some ==> part_update(
                *old(context),
                *old(vm),
                *final(context),
                *final(vm),
                r,
            ),
    {
        Engine::update_part(context, vm)?;
        match vm.check_channel_requests() {
            Ok(()) => Ok(()),
            Err(e) => Err(EngineError::VmError(e)),
        }
    }
}

} // verus!
