use idaphs_cad::kernel::{ControlMessage, KernelEffect, KernelState};

type Msg = ControlMessage<&'static str, u32>;

#[test]
fn kickoff_then_textures_render() {
    let mut k: KernelState<u32> = KernelState::new(640, 480);
    assert!(k.take_render_job().is_none());
    assert!(matches!(k.process_message(Msg::ReleaseFrontBufferTexture { texture: 1 }), KernelEffect::Done));
    assert!(k.take_render_job().is_none());
    k.process_message(Msg::ReleaseFrontBufferTexture { texture: 2 });
    k.process_message(Msg::ReleaseFrontBufferTexture { texture: 3 });
    assert_eq!(k.free_textures(), 3);
    k.process_message(Msg::KickOff);
    assert!(k.needs_render());
    assert_eq!(k.take_render_job(), Some(3));
    assert!(!k.needs_render());
    assert_eq!(k.take_render_job(), None);
    assert_eq!(k.free_textures(), 2);
}

#[test]
fn resize_only_when_size_changes() {
    let mut k: KernelState<u32> = KernelState::new(640, 480);
    assert!(matches!(k.process_message(Msg::ResizeBuffers { width: 640, height: 480 }), KernelEffect::Done));
    assert!(!k.needs_render());
    assert!(matches!(k.process_message(Msg::ResizeBuffers { width: 800, height: 600 }), KernelEffect::Resize { width: 800, height: 600 }));
    assert!(k.needs_render());
    assert_eq!(k.buffer_size(), (800, 600));
    assert!(k.texture_fits(800, 600));
    assert!(!k.texture_fits(640, 480));
}

#[test]
fn scene_messages_are_dispatched() {
    let mut k: KernelState<u32> = KernelState::new(1, 1);
    match k.process_message(Msg::AppMsg("hello")) {
        KernelEffect::Dispatch(m) => assert_eq!(m, "hello"),
        _ => panic!("scene message not dispatched"),
    }
    assert!(!k.needs_render());
    k.request_render(false);
    assert!(!k.needs_render());
    k.request_render(true);
    assert!(k.needs_render());
    k.request_render(false);
    assert!(k.needs_render());
    assert!(k.take_render_job().is_none());
    assert!(k.needs_render());
    k.process_message(Msg::ReleaseFrontBufferTexture { texture: 9 });
    assert_eq!(k.take_render_job(), Some(9));
}

#[test]
fn control_message_texts() {
    assert_eq!(Msg::ReleaseFrontBufferTexture { texture: 1 }.debug_text(), "ControlMessage::ReleaseFrontBufferTexture");
    assert_eq!(Msg::ResizeBuffers { width: 640, height: 0 }.debug_text(), "ControlMessage::ResizeBuffers { width: 640, height: 0 }");
    assert_eq!(Msg::ResizeBuffers { width: 4294967295, height: 10 }.debug_text(), "ControlMessage::ResizeBuffers { width: 4294967295, height: 10 }");
    assert_eq!(Msg::KickOff.debug_text(), "ControlMessage::KickOff");
    assert_eq!(Msg::AppMsg("x").debug_text(), "ControlMessage::AppMsg");
}

#[test]
fn resizing_twice_to_one_size_is_once() {
    let mut k: KernelState<u32> = KernelState::new(10, 10);
    assert!(matches!(k.process_message(Msg::ResizeBuffers { width: 20, height: 30 }), KernelEffect::Resize { .. }));
    assert!(matches!(k.process_message(Msg::ResizeBuffers { width: 20, height: 30 }), KernelEffect::Done));
    assert_eq!(k.buffer_size(), (20, 30));
}

#[test]
fn no_more_textures_than_released() {
    let mut k: KernelState<u32> = KernelState::new(4, 4);
    for t in [1, 2, 3] {
        k.process_message(Msg::ReleaseFrontBufferTexture { texture: t });
    }
    let mut handed = Vec::new();
    for _round in 0..10 {
        k.process_message(Msg::KickOff);
        if let KernelEffect::Dispatch(_) = k.process_message(Msg::AppMsg("redraw")) {
            k.request_render(true);
        }
        if let Some(t) = k.take_render_job() {
            handed.push(t);
        }
    }
    assert_eq!(handed, vec![3, 2, 1]);
    assert_eq!(k.free_textures(), 0);
    assert!(k.needs_render());
    k.process_message(Msg::ReleaseFrontBufferTexture { texture: 2 });
    assert_eq!(k.take_render_job(), Some(2));
}
