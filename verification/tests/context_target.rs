use three_d::context::{
    byte_size_for_type, check_compile_status, check_framebuffer_status_code, check_link_status,
    ActiveInfo, Context, FLOAT, FRAMEBUFFER_COMPLETE, FRAMEBUFFER_INCOMPLETE_ATTACHMENT,
    FRAMEBUFFER_UNSUPPORTED, UNSIGNED_INT,
};
use three_d::headless::{internal_format_from, new_headless_target, HeadlessTarget};
use three_d::program::{BindingEvent, Program};
use three_d::types::{Color, Error, Format, Vector3};

#[test]
fn active_info_getters() {
    let info = ActiveInfo::new(3, 42, "worldMatrix".to_string());
    assert_eq!(info.size(), 3);
    assert_eq!(info.type_(), 42);
    assert_eq!(info.name(), "worldMatrix".to_string());
}

#[test]
fn context_starts_empty() {
    let context = Context::new_stub();
    assert!(!context.texture_is_live(0));
    assert!(!context.buffer_is_live(0));
    assert!(!context.framebuffer_is_live(0));
    assert!(!context.renderbuffer_is_live(0));
    let loaded = Context::load_with();
    assert!(!loaded.texture_is_live(0));
}

#[test]
fn texture_handles_are_context_scoped() {
    let mut context = Context::new_stub();
    let first = context.create_texture().unwrap();
    let second = context.create_texture().unwrap();
    assert_ne!(first, second);
    assert!(context.texture_is_live(first));
    assert!(context.texture_is_live(second));
    context.delete_texture(first);
    assert!(!context.texture_is_live(first));
    assert!(context.texture_is_live(second));
}

#[test]
fn byte_sizes_for_gl_types() {
    assert_eq!(byte_size_for_type(FLOAT, 4), 16);
    assert_eq!(byte_size_for_type(UNSIGNED_INT, 2), 8);
    assert_eq!(byte_size_for_type(0x1401, 7), 0);
}

#[test]
fn headless_target_owns_its_buffers() {
    let mut context = Context::new_stub();
    let mut target = HeadlessTarget::new(&mut context, Format::RGBA8, 320, 200).unwrap();
    assert_eq!(target.width, 320);
    assert_eq!(target.height, 200);
    assert!(context.framebuffer_is_live(target.framebuffer_id));
    assert!(context.renderbuffer_is_live(target.renderbuffer_id));
    assert_eq!(context.renderbuffer_size(target.renderbuffer_id), (320, 200));

    target.resize_buffer(&mut context, Format::RGBA8, 640, 400).unwrap();
    // the target reports the new extent; no stale extent survives the resize
    assert_eq!((target.width, target.height), (640, 400));
    assert_eq!(context.renderbuffer_size(target.renderbuffer_id), (640, 400));

    let framebuffer = target.framebuffer_id;
    let renderbuffer = target.renderbuffer_id;
    target.delete(&mut context);
    assert!(!context.framebuffer_is_live(framebuffer));
    assert!(!context.renderbuffer_is_live(renderbuffer));
}

#[test]
fn headless_target_creation_primitives() {
    let mut context = Context::new_stub();
    let (framebuffer, renderbuffer) = new_headless_target(&mut context, Format::RGB8, 4, 4)
        .unwrap();
    assert!(context.framebuffer_is_live(framebuffer));
    assert!(context.renderbuffer_is_live(renderbuffer));
    assert_eq!(internal_format_from(Format::R8), 0x8229);
    assert_eq!(internal_format_from(Format::RGB8), 0x8051);
    assert_eq!(internal_format_from(Format::RGBA8), 0x8058);
}

#[test]
fn framebuffer_status_classification() {
    assert!(check_framebuffer_status_code(FRAMEBUFFER_COMPLETE).is_ok());
    match check_framebuffer_status_code(FRAMEBUFFER_INCOMPLETE_ATTACHMENT) {
        Err(Error::FramebufferIncomplete(message)) => {
            assert_eq!(message, "FRAMEBUFFER_INCOMPLETE_ATTACHMENT");
        },
        _ => panic!("an incomplete attachment is a framebuffer error"),
    }
    match check_framebuffer_status_code(FRAMEBUFFER_UNSUPPORTED) {
        Err(Error::FramebufferIncomplete(message)) => {
            assert_eq!(message, "FRAMEBUFFER_UNSUPPORTED");
        },
        _ => panic!("an unsupported format is a framebuffer error"),
    }
    match check_framebuffer_status_code(0x1234) {
        Err(Error::FramebufferIncomplete(message)) => {
            assert_eq!(message, "Unknown framebuffer error");
        },
        _ => panic!("an unknown status is a framebuffer error"),
    }
    let context = Context::new_stub();
    assert!(context.check_framebuffer_status().is_ok());
}

#[test]
fn compile_and_link_status_classification() {
    assert!(check_compile_status(true, String::new()).is_ok());
    match check_compile_status(false, "0:1: syntax oversight".to_string()) {
        Err(Error::ShaderCompileError(message)) => {
            assert_eq!(message, "0:1: syntax oversight");
        },
        _ => panic!("a failed compile status is a compile error with the log"),
    }
    assert!(check_link_status(true, String::new()).is_ok());
    match check_link_status(false, "unresolved stage output".to_string()) {
        Err(Error::ShaderLinkError(message)) => {
            assert_eq!(message, "unresolved stage output");
        },
        _ => panic!("a failed link status is a link error with the log"),
    }
}

#[test]
fn program_records_bindings_in_order() {
    let mut context = Context::new_stub();
    let mut program = Program::from_source(&mut context, "vertex", "fragment").unwrap();
    assert!(context.program_is_live(program.id()));
    assert_eq!(program.log_len(), 0);

    program.use_uniform_float("roughness", 250);
    program.use_uniform_vec3("eyePosition", Vector3::new(1, 2, 3));
    program.use_uniform_vec4("albedo", Color { r: 9, g: 8, b: 7, a: 6 });
    program.use_texture("albedoTexture", 11);
    program.use_uniform_block("DirectionalLightUniform0", 13);

    assert_eq!(program.log_len(), 5);
    assert!(matches!(program.log_event(0), BindingEvent::UniformScalar { name, value: 250 } if name == "roughness"));
    assert!(matches!(program.log_event(1), BindingEvent::UniformVector3 { name, .. } if name == "eyePosition"));
    assert!(matches!(program.log_event(2), BindingEvent::UniformColor { name, value: Color { r: 9, g: 8, b: 7, a: 6 } } if name == "albedo"));
    assert!(matches!(program.log_event(3), BindingEvent::Texture { name, texture: 11 } if name == "albedoTexture"));
    assert!(matches!(program.log_event(4), BindingEvent::UniformBlock { name, buffer: 13 } if name == "DirectionalLightUniform0"));

    let id = program.id();
    program.delete(&mut context);
    assert!(!context.program_is_live(id));
}
