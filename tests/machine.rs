use another_rusty_world::channel::{Channel, ProcessCounter, State};
use another_rusty_world::cursor::ByteCursor;
use another_rusty_world::bank::BankError;
use another_rusty_world::engine::{Engine, EngineError};
use another_rusty_world::resource::ResourceError;
use another_rusty_world::execution_context::ExecutionContext;
use another_rusty_world::loaded::{LoadedAsset, LoadedPart};
use another_rusty_world::parts::GamePart;
use another_rusty_world::renderer::Renderer;
use another_rusty_world::resource::ResourceRegistry;
use another_rusty_world::video::{Video, VideoError};
use another_rusty_world::vm::{FrameStep, Vm, VmError};

fn context(bytecode: Vec<u8>) -> ExecutionContext {
    let mut part = LoadedPart::empty();
    part.bytecode = ByteCursor::new(bytecode);
    let mut resource = ResourceRegistry::new(vec![Some(vec![])]);
    resource.read_entries(vec![0u8; 146 * 20]).unwrap();
    ExecutionContext::new(part, LoadedAsset::new(), None, resource, Video::new(Renderer::new()))
}

/// Fetches the opcode at the counter and runs it.
fn step(vm: &mut Vm, ctx: &mut ExecutionContext) -> Result<(), VmError> {
    let opcode = ctx.loaded_part.bytecode.read_u8().unwrap();
    vm.execute(opcode, ctx)
}

#[test]
fn cond_jmp_scenario() {
    let mut vm = Vm::with_seed(0);
    let mut ctx = context(vec![0x0A, 0x00, 0x05, 0x07, 0x00, 0x10]);
    vm.variables[5] = 7;
    step(&mut vm, &mut ctx).unwrap();
    assert_eq!(ctx.loaded_part.bytecode.position(), 0x0010);
}

#[test]
fn cond_jmp_relations_six_and_seven_fall_through() {
    for rel in [0x06u8, 0x07, 0x86, 0x47] {
        for (a, b) in [(0i16, 0i16), (1, 2), (2, 1), (-5, -5)] {
            let mut vm = Vm::with_seed(0);
            let mut code = vec![0x0A, rel, 0x05];
            if rel & 0x80 != 0 {
                code.push(0x06);
            } else if rel & 0x40 != 0 {
                code.extend_from_slice(&(a as u16).to_be_bytes());
            } else {
                code.push(a as u8);
            }
            code.extend_from_slice(&[0x00, 0x40]);
            let len = code.len();
            let mut ctx = context(code);
            vm.variables[5] = b;
            vm.variables[6] = a;
            step(&mut vm, &mut ctx).unwrap();
            assert_eq!(ctx.loaded_part.bytecode.position(), len);
        }
    }
}

#[test]
fn cond_jmp_each_relation() {
    // relation, a (immediate byte), b (variable), jumps
    let cases = [
        (0u8, 3u8, 3i16, true),
        (1, 3, 3, false),
        (2, 3, 4, true),
        (3, 3, 3, true),
        (4, 3, 2, true),
        (5, 3, 4, false),
    ];
    for (rel, a, b, jumps) in cases {
        let mut vm = Vm::with_seed(0);
        let mut ctx = context(vec![0x0A, rel, 0x05, a, 0x00, 0x40]);
        vm.variables[5] = b;
        step(&mut vm, &mut ctx).unwrap();
        let expected = if jumps { 0x40 } else { 6 };
        assert_eq!(ctx.loaded_part.bytecode.position(), expected, "relation {rel}");
    }
}

#[test]
fn jnz_counts_down() {
    let mut vm = Vm::with_seed(0);
    let mut ctx = context(vec![0x09, 0x05, 0x00, 0x00]);
    vm.variables[5] = 3;
    let mut jumps = 0;
    let mut falls = 0;
    for _ in 0..3 {
        ctx.loaded_part.bytecode.set_position(0);
        step(&mut vm, &mut ctx).unwrap();
        if ctx.loaded_part.bytecode.position() == 0 {
            jumps += 1;
        } else {
            assert_eq!(ctx.loaded_part.bytecode.position(), 4);
            falls += 1;
        }
    }
    assert_eq!((jumps, falls), (2, 1));
    assert_eq!(vm.variables[5], 0);
}

#[test]
fn set_vec_deferred() {
    let mut vm = Vm::with_seed(0);
    let mut ctx = context(vec![0x08, 0x04, 0x00, 0xA0, 0x06]);
    vm.channels[3] = Channel { state: State::Ready, pc: ProcessCounter::Valid(0), next_pc: None };
    assert_eq!(vm.host_frame(&mut ctx), Ok(FrameStep::Done));
    assert!(vm.channels[4].state == State::Dead);
    assert_eq!(vm.channels[3].pc, ProcessCounter::Valid(5));
    vm.check_channel_requests().unwrap();
    assert!(vm.channels[4].state == State::Ready);
    assert_eq!(vm.channels[4].pc, ProcessCounter::Valid(0x00A0));
    assert_eq!(vm.channels[4].next_pc, None);
}

#[test]
fn set_vec_last_writer_wins() {
    let mut vm = Vm::with_seed(0);
    let code = vec![0x08, 0x04, 0x00, 0x10, 0x08, 0x04, 0x00, 0x20, 0x08, 0x09, 0xFF, 0xFF, 0x06];
    let mut ctx = context(code);
    vm.channels[0] = Channel { state: State::Ready, pc: ProcessCounter::Valid(0), next_pc: None };
    vm.host_frame(&mut ctx).unwrap();
    vm.check_channel_requests().unwrap();
    assert_eq!(vm.channels[4].pc, ProcessCounter::Valid(0x20));
    assert_eq!(vm.channels[9].pc, ProcessCounter::Invalid);
    assert!(vm.channels[9].state == State::Dead);
}

#[test]
fn kill_thread_stays_dead() {
    let mut vm = Vm::with_seed(0);
    let mut ctx = context(vec![0x11]);
    vm.channels[2] = Channel { state: State::Ready, pc: ProcessCounter::Valid(0), next_pc: None };
    assert_eq!(vm.host_frame(&mut ctx), Ok(FrameStep::Done));
    assert!(vm.channels[2].state == State::Dead);
    vm.check_channel_requests().unwrap();
    assert!(vm.channels[2].state == State::Dead);
    assert_eq!(vm.channels[2].pc, ProcessCounter::Invalid);
    // The next frame does not run it: the bytecode cursor stays put.
    ctx.loaded_part.bytecode.set_position(0);
    assert_eq!(vm.host_frame(&mut ctx), Ok(FrameStep::Done));
    assert_eq!(ctx.loaded_part.bytecode.position(), 0);
}

#[test]
fn blit_swaps_pages() {
    let mut vm = Vm::with_seed(0);
    let mut ctx = context(vec![0x10, 0xFF, 0x06]);
    vm.variables[0xF7] = 9;
    vm.channels[0] = Channel { state: State::Ready, pc: ProcessCounter::Valid(0), next_pc: None };
    assert_eq!((ctx.video.front_buffer, ctx.video.back_buffer), (2, 1));
    assert_eq!(vm.host_frame(&mut ctx), Ok(FrameStep::Blit));
    assert_eq!((ctx.video.front_buffer, ctx.video.back_buffer), (1, 2));
    assert_eq!(vm.variables[0xF7], 0);
    assert_eq!(vm.host_frame(&mut ctx), Ok(FrameStep::Done));
    assert_eq!(vm.channels[0].pc, ProcessCounter::Valid(3));
}

#[test]
fn arithmetic_opcodes() {
    let mut vm = Vm::with_seed(0);
    let code = vec![
        0x00, 0x01, 0x7F, 0xFF, // vars[1] = 0x7FFF
        0x03, 0x01, 0x00, 0x01, // vars[1] += 1 (wraps)
        0x01, 0x02, 0x01, // vars[2] = vars[1]
        0x02, 0x02, 0x03, // vars[2] += vars[3]
        0x13, 0x03, 0x01, // vars[3] -= vars[1]
        0x14, 0x01, 0x00, 0xFF, // vars[1] &= 0xFF
        0x15, 0x01, 0x12, 0x00, // vars[1] |= 0x1200
        0x16, 0x04, 0x00, 0x04, // vars[4] <<= 4
        0x17, 0x05, 0x00, 0x02, // vars[5] >>= 2
    ];
    let mut ctx = context(code);
    vm.variables[3] = 5;
    vm.variables[4] = 3;
    vm.variables[5] = -16;
    for _ in 0..9 {
        step(&mut vm, &mut ctx).unwrap();
    }
    assert_eq!(vm.variables[1], 0x1200);
    assert_eq!(vm.variables[2], i16::MIN + 5);
    assert_eq!(vm.variables[3], 5i16.wrapping_sub(i16::MIN));
    assert_eq!(vm.variables[4], 48);
    assert_eq!(vm.variables[5], -4);
}

#[test]
fn call_and_ret() {
    let mut vm = Vm::with_seed(0);
    let mut ctx = context(vec![0x04, 0x00, 0x04, 0x06, 0x05]);
    step(&mut vm, &mut ctx).unwrap();
    assert_eq!(ctx.loaded_part.bytecode.position(), 4);
    assert_eq!(vm.stack, vec![3]);
    step(&mut vm, &mut ctx).unwrap();
    assert_eq!(ctx.loaded_part.bytecode.position(), 3);
    assert!(vm.stack.is_empty());
}

#[test]
fn ret_on_empty_stack() {
    let mut vm = Vm::with_seed(0);
    let mut ctx = context(vec![0x05]);
    assert_eq!(step(&mut vm, &mut ctx), Err(VmError::StackUnderflow));
}

#[test]
fn invalid_opcode() {
    let mut vm = Vm::with_seed(0);
    let mut ctx = context(vec![27]);
    assert_eq!(step(&mut vm, &mut ctx), Err(VmError::InvalidOpcode(27)));
}

#[test]
fn short_operand() {
    let mut vm = Vm::with_seed(0);
    let mut ctx = context(vec![0x00, 0x01]);
    assert!(matches!(step(&mut vm, &mut ctx), Err(VmError::Io(_))));
}

#[test]
fn update_mem_list_part_and_errors() {
    let mut vm = Vm::with_seed(0);
    let mut ctx = context(vec![0x19, 0x3E, 0x83, 0x19, 0x3E, 0x8A, 0x19, 0x00, 0x00]);
    step(&mut vm, &mut ctx).unwrap();
    assert_eq!(ctx.part_to_load, Some(GamePart::Four));
    assert_eq!(step(&mut vm, &mut ctx), Err(VmError::InvalidGamePart(0x3E8A)));
    step(&mut vm, &mut ctx).unwrap();
    assert!(ctx.loaded_asset.assets.is_empty());
}

#[test]
fn reset_threads_actions() {
    let mut vm = Vm::with_seed(0);
    let mut ctx = context(vec![0x0C, 0x02, 0x04, 0x00, 0x0C, 0x03, 0x03, 0x01, 0x0C, 0x3E, 0xFF, 0x02]);
    for _ in 0..3 {
        step(&mut vm, &mut ctx).unwrap();
    }
    assert!(vm.channels[2].state == State::Ready);
    assert!(vm.channels[3].state == State::Paused);
    assert!(vm.channels[4].state == State::Ready);
    assert!(vm.channels[5].state == State::Dead);
    assert_eq!(vm.channels[63].next_pc, Some(ProcessCounter::Invalid));
    assert_eq!(vm.channels[61].next_pc, None);
}

#[test]
fn sprite_needs_polygon_segment() {
    let mut vm = Vm::with_seed(0);
    let mut ctx = context(vec![0x43, 0x00, 0x00, 0x00, 0x10, 0x00, 0x10, 0x40]);
    assert_eq!(step(&mut vm, &mut ctx), Err(VmError::MissingPolygonSegment));
}

#[test]
fn sprite_draws_from_cinematic() {
    let mut vm = Vm::with_seed(0);
    // Offset 0, x = 0x10 (byte), y = 0x08 (byte), zoom byte 0x40.
    let mut ctx = context(vec![0x6A, 0x00, 0x00, 0x10, 0x08, 0x40]);
    ctx.loaded_part.cinematic = ByteCursor::new(vec![0xC3, 0, 1, 4, 0, 0, 0, 0, 0, 0, 0, 0]);
    step(&mut vm, &mut ctx).unwrap();
    assert_eq!(ctx.video.read_byte(2, 8 * 160 + 8), 0x30);
    // The zoom byte was read as a byte and kept.
    assert_eq!(ctx.loaded_part.bytecode.position(), 6);
}

#[test]
fn background_draw_clamps_row() {
    let mut vm = Vm::with_seed(0);
    // Offset (0x80 << 8 | 0) * 2 wraps to 0; y = 201 lifts to 199, x + 2.
    let mut ctx = context(vec![0x80, 0x00, 0x0A, 0xC9]);
    ctx.loaded_part.cinematic = ByteCursor::new(vec![0xC4, 0, 1, 4, 0, 0, 0, 0, 0, 0, 0, 0]);
    step(&mut vm, &mut ctx).unwrap();
    assert_eq!(ctx.video.read_byte(2, 199 * 160 + 6), 0x40);
}

#[test]
fn video_page_opcodes() {
    let mut vm = Vm::with_seed(0);
    let mut ctx = context(vec![0x0D, 0x03, 0x0E, 0xFE, 0x04, 0x0F, 0x02, 0x00, 0x0B, 0x05, 0x00]);
    for _ in 0..4 {
        step(&mut vm, &mut ctx).unwrap();
    }
    assert_eq!(ctx.video.work_buffer, 3);
    assert_eq!(ctx.video.read_byte(2, 100), 0x44);
    assert_eq!(ctx.video.read_byte(0, 31999), 0x44);
    assert_eq!(ctx.video.palette_req, another_rusty_world::video::PaletteRequest::Change(5));
}

#[test]
fn fresh_machine_variables() {
    let vm = Vm::with_seed(-7);
    assert_eq!(vm.variables[0x54], 0x81);
    assert_eq!(vm.variables[0x3C], -7);
    assert_eq!(vm.variables[0xBC], 0x10);
    assert_eq!(vm.variables[0xC6], 0x80);
    assert_eq!(vm.variables[0xF2], 4000);
    assert_eq!(vm.variables[0xDC], 33);
    let vm = Vm::new();
    assert_eq!(vm.variables[0xF2], 4000);
    assert!(vm.channels.iter().all(|c| c.state == State::Dead));
}

#[test]
fn pacing_delay_clamps() {
    let mut vm = Vm::with_seed(0);
    vm.variables[0xFF] = 5;
    assert_eq!(vm.pacing_delay(30), 70);
    assert_eq!(vm.pacing_delay(150), 0);
    vm.variables[0xFF] = -1;
    assert_eq!(vm.pacing_delay(0), 0);
}

#[test]
fn init_part_and_engine_step() {
    let mut vm = Vm::with_seed(0);
    let mut ctx = context(vec![]);
    ctx.part_to_load = Some(GamePart::One);
    Engine::begin_frame(&mut ctx, &mut vm).unwrap();
    assert_eq!(ctx.part_to_load, None);
    assert_eq!(vm.variables[0xE4], 0x14);
    assert!(vm.channels[0].state == State::Ready);
    assert_eq!(vm.channels[0].pc, ProcessCounter::Valid(0));
    assert!(vm.channels[1..].iter().all(|c| c.state == State::Dead));
}

#[test]
fn frame_budget_hands_back_control() {
    let mut vm = Vm::with_seed(0);
    // An endless jump to itself.
    let mut ctx = context(vec![0x07, 0x00, 0x00]);
    vm.channels[0] = Channel { state: State::Ready, pc: ProcessCounter::Valid(0), next_pc: None };
    assert_eq!(vm.host_frame(&mut ctx), Ok(FrameStep::Continue));
    assert_eq!(vm.resume, Some(0));
    assert_eq!(vm.host_frame(&mut ctx), Ok(FrameStep::Continue));
}

#[test]
fn blit_invalid_palette() {
    let mut vm = Vm::with_seed(0);
    let mut ctx = context(vec![0x0B, 0x40, 0x00, 0x10, 0x00]);
    step(&mut vm, &mut ctx).unwrap();
    assert_eq!(
        step(&mut vm, &mut ctx),
        Err(VmError::VideoError(VideoError::InvalidPalette(0x40)))
    );
}

#[test]
fn update_mem_list_resource_error() {
    let mut vm = Vm::with_seed(0);
    let mut ctx = context(vec![0x19, 0x00, 0x05]);
    // Every entry names bank 0, present but empty; entry 5 wants no bytes.
    step(&mut vm, &mut ctx).unwrap();
    assert_eq!(ctx.loaded_asset.assets.get(&5), Some(&vec![]));
    let mut ctx = context(vec![0x19, 0x00, 0x05]);
    ctx.resource.banks = vec![];
    assert_eq!(
        step(&mut vm, &mut ctx),
        Err(VmError::ResourceError(ResourceError::BankError(BankError::OnOpen)))
    );
}

#[test]
fn engine_part_errors() {
    let mut vm = Vm::with_seed(0);
    let mut ctx = context(vec![]);
    ctx.resource.banks = vec![];
    ctx.part_to_load = Some(GamePart::One);
    assert_eq!(
        Engine::update_part(&mut ctx, &mut vm),
        Err(EngineError::ResourceError(ResourceError::BankError(BankError::OnOpen)))
    );
    // Part Three has a polygon segment; an empty one holds no background.
    let mut ctx = context(vec![]);
    ctx.part_to_load = Some(GamePart::Tree);
    assert_eq!(
        Engine::update_part(&mut ctx, &mut vm),
        Err(EngineError::VideoError(VideoError::BackgroundTooShort))
    );
}

#[test]
fn sprite_gives_zoom_byte_back() {
    let mut vm = Vm::with_seed(0);
    // x and y single bytes, zoom bits both clear: the zoom byte is given back.
    let mut ctx = context(vec![0x68, 0x00, 0x00, 0x10, 0x08, 0x99]);
    ctx.loaded_part.cinematic = ByteCursor::new(vec![0xC3, 0, 1, 4, 0, 0, 0, 0, 0, 0, 0, 0]);
    step(&mut vm, &mut ctx).unwrap();
    assert_eq!(ctx.loaded_part.bytecode.position(), 5);
    assert_eq!(ctx.video.read_byte(2, 8 * 160 + 8), 0x30);
}

#[test]
fn pause_thread_pauses_then_restores() {
    let mut vm = Vm::with_seed(0);
    let mut ctx = context(vec![0x06]);
    vm.running_channel_id = 7;
    step(&mut vm, &mut ctx).unwrap();
    assert!(vm.channels[7].state == State::Paused);
    assert_eq!(vm.channels[7].pc, ProcessCounter::Valid(1));
    let mut ctx = context(vec![0x06]);
    vm.channels[7] = Channel { state: State::Ready, pc: ProcessCounter::Valid(0), next_pc: None };
    assert_eq!(vm.host_frame(&mut ctx), Ok(FrameStep::Done));
    assert!(vm.channels[7].state == State::Ready);
    assert_eq!(vm.channels[7].pc, ProcessCounter::Valid(1));
}
