use msdf_renderer::errors::{NormalizeError, PassError, PatchErrorKind};
use msdf_renderer::module::{
    assemble, normalize_memory_model, serialize_words, substitute, AddressingModel,
    CompiledModule, MemoryModel, Module,
};
use msdf_renderer::orchestrator::{complete_pass, next_phase, run_pass, Phase};
use msdf_renderer::patcher::{Patcher, ShaderModuleHandle};
use msdf_renderer::st_pass::{Extent2D, FrameInput, PipelineLayout, SphereTracing};
use msdf_renderer::uniform::RenderUniform;
use msdf_renderer::watcher::{confirm_source_present, Debouncer};
use msdf_renderer::Severity;

fn baseline() -> Module {
    Module {
        addressing: AddressingModel::Logical,
        memory: MemoryModel::Vulkan,
        bindings: vec![0xaa],
        symbol: String::from("sdf"),
        signature: vec![7],
        body: vec![1, 2],
    }
}

fn compiled(symbol: &str, body: Vec<u32>) -> CompiledModule {
    CompiledModule {
        symbol: String::from(symbol),
        addressing: AddressingModel::Logical,
        memory: MemoryModel::Glsl450,
        signature: vec![7],
        body,
    }
}

fn le_bytes(words: &[u32]) -> Vec<u8> {
    let mut out = Vec::new();
    for w in words {
        out.push(*w as u8);
        out.push((*w >> 8) as u8);
        out.push((*w >> 16) as u8);
        out.push((*w >> 24) as u8);
    }
    out
}

fn pass_state(base: &Module) -> (Patcher, SphereTracing) {
    let words = assemble(base);
    let handle = ShaderModuleHandle { code: serialize_words(&words) };
    let chan = Patcher::new(handle);
    let st = SphereTracing::new(
        chan,
        PipelineLayout { id: 1 },
        Extent2D { width: 800, height: 600 },
    );
    // the producer side of the channel is modeled by a second Patcher value
    // whose queue complete_pass appends to; hand its handles over manually
    let producer = Patcher { queue: Vec::new(), connected: true };
    (producer, st)
}

fn frame_input() -> FrameInput {
    FrameInput {
        camera_pos: [0, 0, 0],
        camera_rotation: [0, 0, 0, 0x3f80_0000],
        offset: [0, 0, 0],
        window: Extent2D { width: 800, height: 600 },
        pipeline_build_ok: true,
        target_binding: 5,
    }
}

fn drain_into(producer: &mut Patcher, st: &mut SphereTracing) {
    for h in producer.queue.drain(..) {
        st.patcher.queue.push(h);
    }
}

#[test]
fn substitute_replaces_only_the_body() {
    let base = baseline();
    let m = compiled("sdf", vec![5, 6]);
    let patched = substitute(&base, &m).ok().unwrap();
    assert_eq!(patched.body, vec![5, 6]);
    assert_eq!(patched.bindings, vec![0xaa]);
    assert_eq!(patched.signature, vec![7]);
    assert_eq!(patched.symbol, String::from("sdf"));
    assert!(matches!(patched.memory, MemoryModel::Vulkan));
}

#[test]
fn symbol_mismatch_is_unknown_symbol() {
    let base = baseline();
    let m = compiled("other", vec![5, 6]);
    match substitute(&base, &m) {
        Err(PassError::Patch { kind, symbol }) => {
            assert!(matches!(kind, PatchErrorKind::UnknownSymbol));
            assert_eq!(symbol, String::from("other"));
        }
        _ => panic!("expected a patch error"),
    }
}

#[test]
fn signature_mismatch_is_reported() {
    let base = baseline();
    let mut m = compiled("sdf", vec![5]);
    m.signature = vec![8];
    match substitute(&base, &m) {
        Err(PassError::Patch { kind, .. }) => {
            assert!(matches!(kind, PatchErrorKind::SignatureMismatch));
        }
        _ => panic!("expected a patch error"),
    }
}

#[test]
fn normalize_rewrites_the_emitted_model() {
    let mut m = compiled("sdf", vec![5]);
    let r = normalize_memory_model(
        &mut m,
        AddressingModel::Logical,
        MemoryModel::Glsl450,
        AddressingModel::Logical,
        MemoryModel::Vulkan,
    );
    assert!(r.is_ok());
    assert!(matches!(m.memory, MemoryModel::Vulkan));
}

#[test]
fn normalize_refuses_a_foreign_model() {
    let mut m = compiled("sdf", vec![5]);
    m.memory = MemoryModel::Simple;
    let r = normalize_memory_model(
        &mut m,
        AddressingModel::Logical,
        MemoryModel::Glsl450,
        AddressingModel::Logical,
        MemoryModel::Vulkan,
    );
    assert!(matches!(r, Err(NormalizeError::UnsupportedModel)));
    assert!(matches!(m.memory, MemoryModel::Simple));
}

#[test]
fn unsupported_sibling_is_skipped_not_fatal() {
    let base = baseline();
    let mut foreign = compiled("sdf", vec![3]);
    foreign.memory = MemoryModel::Simple;
    let good = compiled("sdf", vec![5, 6]);
    let patched = run_pass(&base, vec![foreign, good]).ok().unwrap();
    assert_eq!(patched.body, vec![5, 6]);
}

#[test]
fn pass_publishes_the_serialized_patch() {
    let base = baseline();
    let (mut producer, _st) = pass_state(&base);
    let r = complete_pass(&mut producer, &base, Ok(vec![compiled("sdf", vec![5, 6, 7])]), true);
    assert!(r.is_ok());
    assert_eq!(producer.queue.len(), 1);
    let expected = le_bytes(&[
        0x0723_0203,
        0, // logical addressing
        3, // vulkan memory model
        1,
        0xaa,
        3,
        's' as u32,
        'd' as u32,
        'f' as u32,
        1,
        7,
        3,
        5,
        6,
        7,
    ]);
    assert_eq!(producer.queue[0].code, expected);
}

#[test]
fn serialize_words_is_little_endian() {
    let bytes = serialize_words(&vec![0x0403_0201, 0x0807_0605]);
    assert_eq!(bytes, vec![1, 2, 3, 4, 5, 6, 7, 8]);
    // the in-memory representation bytemuck exposes agrees on this target
    let words = [0x0403_0201u32, 0x0807_0605u32];
    let raw: &[u8] = bytemuck::cast_slice(&words);
    assert_eq!(bytes.as_slice(), raw);
}

#[test]
fn compile_error_keeps_pipeline_and_next_edit_lands() {
    let base = baseline();
    let (mut producer, mut st) = pass_state(&base);
    let before = st.pipeline.module_code.clone();

    // a syntactically invalid edit: the compiler reports an error
    let r = complete_pass(&mut producer, &base, Err(String::from("parse error")), true);
    match r {
        Err(PassError::Compile { message }) => assert_eq!(message, String::from("parse error")),
        _ => panic!("expected a compile error"),
    }
    assert!(producer.queue.is_empty());
    drain_into(&mut producer, &mut st);
    st.pre_record(true, 5);
    assert_eq!(st.pipeline.module_code, before);

    // a subsequent valid edit is still picked up
    let r = complete_pass(&mut producer, &base, Ok(vec![compiled("sdf", vec![9])]), true);
    assert!(r.is_ok());
    drain_into(&mut producer, &mut st);
    st.pre_record(true, 5);
    assert_ne!(st.pipeline.module_code, before);
}

#[test]
fn symbol_mismatch_pass_leaves_prior_pipeline_in_effect() {
    let base = baseline();
    let (mut producer, mut st) = pass_state(&base);
    let before = st.pipeline.module_code.clone();
    let r = complete_pass(&mut producer, &base, Ok(vec![compiled("wrong", vec![5])]), true);
    match r {
        Err(PassError::Patch { kind, symbol }) => {
            assert!(matches!(kind, PatchErrorKind::UnknownSymbol));
            assert_eq!(symbol, String::from("wrong"));
        }
        _ => panic!("expected a patch error"),
    }
    assert!(producer.queue.is_empty());
    drain_into(&mut producer, &mut st);
    st.pre_record(true, 5);
    assert_eq!(st.pipeline.module_code, before);
}

#[test]
fn module_build_failure_publishes_nothing() {
    let base = baseline();
    let (mut producer, _st) = pass_state(&base);
    let r = complete_pass(&mut producer, &base, Ok(vec![compiled("sdf", vec![5])]), false);
    assert!(matches!(r, Err(PassError::ModuleBuild)));
    assert!(producer.queue.is_empty());
}

#[test]
fn lost_receiver_degrades_hot_reload() {
    let base = baseline();
    let (mut producer, _st) = pass_state(&base);
    producer.disconnect();
    let r = complete_pass(&mut producer, &base, Ok(vec![compiled("sdf", vec![5])]), true);
    match r {
        Err(e) => {
            assert!(matches!(e, PassError::ChannelDisconnected));
            assert!(matches!(e.severity(), Severity::Degraded));
        }
        Ok(()) => panic!("expected the pass to fail"),
    }
    assert!(producer.queue.is_empty());
}

#[test]
fn error_severities() {
    assert!(matches!(PassError::SourceMissing.severity(), Severity::Fatal));
    assert!(matches!(
        PassError::Compile { message: String::from("x") }.severity(),
        Severity::Recoverable
    ));
    assert!(matches!(
        PassError::Patch { kind: PatchErrorKind::UnknownSymbol, symbol: String::from("x") }
            .severity(),
        Severity::Recoverable
    ));
    assert!(matches!(PassError::ModuleBuild.severity(), Severity::Recoverable));
    assert!(matches!(PassError::PipelineBuild.severity(), Severity::Recoverable));
    assert!(matches!(PassError::ChannelDisconnected.severity(), Severity::Degraded));
}

#[test]
fn two_edits_one_poll_applies_only_the_second() {
    let base = baseline();
    let (mut producer, mut st) = pass_state(&base);
    complete_pass(&mut producer, &base, Ok(vec![compiled("sdf", vec![41])]), true).unwrap();
    complete_pass(&mut producer, &base, Ok(vec![compiled("sdf", vec![42])]), true).unwrap();
    let first = producer.queue[0].code.clone();
    let second = producer.queue[1].code.clone();
    drain_into(&mut producer, &mut st);
    let swapped = st.try_new_pipeline(true);
    assert!(swapped);
    assert_eq!(st.pipeline.module_code, second);
    assert_ne!(st.pipeline.module_code, first);
    assert!(st.patcher.queue.is_empty());
}

#[test]
fn identical_frames_dispatch_identically() {
    let base = baseline();
    let (_producer, mut st) = pass_state(&base);
    let rec1 = st.frame(frame_input());
    let rec2 = st.frame(frame_input());
    assert_eq!(rec1.pipeline_code, rec2.pipeline_code);
    assert_eq!(rec1.layout.id, rec2.layout.id);
    assert_eq!(rec1.push_data, rec2.push_data);
    assert_eq!(rec1.group_counts, rec2.group_counts);
}

#[test]
fn identical_patch_twice_dispatches_identically() {
    let base = baseline();
    let (mut producer, mut st) = pass_state(&base);
    complete_pass(&mut producer, &base, Ok(vec![compiled("sdf", vec![5])]), true).unwrap();
    drain_into(&mut producer, &mut st);
    let rec1 = st.frame(frame_input());
    // a no-op touch: the same source compiles to byte-identical output
    complete_pass(&mut producer, &base, Ok(vec![compiled("sdf", vec![5])]), true).unwrap();
    drain_into(&mut producer, &mut st);
    let rec2 = st.frame(frame_input());
    assert_eq!(rec1.pipeline_code, rec2.pipeline_code);
    assert_eq!(rec1.push_data, rec2.push_data);
    assert_eq!(rec1.group_counts, rec2.group_counts);
}

#[test]
fn resolution_change_and_patch_settle_independently() {
    let base = baseline();
    let (mut producer, mut st) = pass_state(&base);
    let old_generation = st.target_image.generation;
    complete_pass(&mut producer, &base, Ok(vec![compiled("sdf", vec![77])]), true).unwrap();
    let patched_code = producer.queue[0].code.clone();
    drain_into(&mut producer, &mut st);
    let mut input = frame_input();
    input.window = Extent2D { width: 1920, height: 1080 };
    let rec = st.frame(input);
    assert_eq!(st.target_image.extent, Extent2D { width: 1920, height: 1080 });
    assert_eq!(st.target_image.generation, old_generation + 1);
    assert_eq!(rec.group_counts, [241, 136, 1]);
    assert_eq!(rec.pipeline_code, patched_code);
    assert_eq!(st.pipeline.layout.id, 1);
}

#[test]
fn dispatch_size_rounds_up_by_workgroup() {
    let base = baseline();
    let (_producer, mut st) = pass_state(&base);
    st.notify_resolution(Extent2D { width: 1920, height: 1080 });
    assert_eq!(st.dispatch_size(), [241, 136, 1]);
    st.notify_resolution(Extent2D { width: 1, height: 1 });
    assert_eq!(st.dispatch_size(), [1, 1, 1]);
}

#[test]
fn unchanged_resolution_does_not_reallocate() {
    let base = baseline();
    let (_producer, mut st) = pass_state(&base);
    let generation = st.target_image.generation;
    st.notify_resolution(Extent2D { width: 800, height: 600 });
    assert_eq!(st.target_image.generation, generation);
}

#[test]
fn missing_source_is_fatal_at_startup() {
    assert!(confirm_source_present(true).is_ok());
    match confirm_source_present(false) {
        Err(e) => {
            assert!(matches!(e, PassError::SourceMissing));
            assert!(matches!(e.severity(), Severity::Fatal));
        }
        Ok(()) => panic!("expected a fatal startup error"),
    }
}

#[test]
fn debounce_coalesces_a_burst_into_one_trigger() {
    let mut d = Debouncer::new(500_000);
    d.note_event(0);
    d.note_event(100_000);
    d.note_event(200_000);
    assert!(!d.should_trigger(650_000));
    assert!(d.should_trigger(700_000));
    assert!(!d.should_trigger(10_000_000));
}

#[test]
fn failed_step_returns_to_idle() {
    for p in [
        Phase::Idle,
        Phase::Compiling,
        Phase::Patching,
        Phase::Assembling,
        Phase::Building,
        Phase::Publishing,
    ] {
        assert!(matches!(next_phase(p, false), Phase::Idle));
    }
    assert!(matches!(next_phase(Phase::Idle, true), Phase::Compiling));
    assert!(matches!(next_phase(Phase::Building, true), Phase::Publishing));
    assert!(matches!(next_phase(Phase::Publishing, true), Phase::Idle));
}

#[test]
fn default_uniform_block_layout() {
    let words = RenderUniform::default().to_words();
    assert_eq!(
        words,
        vec![
            0, 0, 0, // camera position
            0x42b4_0000, // 90 degrees field of view
            0, 0, 0, 0x3f80_0000, // identity quaternion
            100, 100, // resolution
            0xffff_ffff, // no target image bound
            0, 0, // padding
            0, 0, 0, // parameter vector
            0, // padding
        ]
    );
}

#[test]
fn uniform_words_follow_the_binding_order() {
    let u = RenderUniform {
        camera_pos: [1, 2, 3],
        fov: 4,
        camera_rotation: [5, 6, 7, 8],
        resolution: [9, 10],
        target_image: 11,
        pad1: [12, 13],
        offset: [14, 15, 16],
        pad2: 17,
    };
    assert_eq!(
        u.to_words(),
        vec![1, 2, 3, 4, 5, 6, 7, 8, 9, 10, 11, 12, 13, 14, 15, 16, 17]
    );
}
