use gl_objects::{
    Attribute, Build, Command, CompileError, ComponentType, Context, Event, Ibo, Layout,
    LayoutError, LinkError, ObjectKind, ObjectRef, Program, Request, Shader, Stage, Target,
    Uniform, Vao, Vbo, NOT_FOUND,
};

/// Answers each request of `build` in turn with `answers`, and returns the
/// last request.
fn drive(build: &mut Build, ctx: &mut Context, answers: Vec<Event>) -> Request {
    let mut req = build.request();
    for e in answers {
        req = build.step(ctx, e);
    }
    req
}

fn compiled(ctx: &mut Context, id: u32, stage: Stage) -> Shader {
    let mut b = Shader::from_source(b"void main() {}".to_vec(), stage);
    drive(&mut b, ctx, vec![Event::Created(id), Event::Status(1)]);
    b.into_shader().unwrap()
}

fn linked(ctx: &mut Context, id: u32) -> Program {
    let vs = compiled(ctx, 1, Stage::Vertex);
    let fs = compiled(ctx, 2, Stage::Fragment);
    let mut b = Program::from_shaders(&[vs, fs]);
    drive(&mut b, ctx, vec![Event::Created(id), Event::Status(1)]);
    ctx.take_commands();
    b.into_program().unwrap()
}

#[test]
fn compile_success_gives_nonzero_shader() {
    let mut ctx = Context::new();
    let mut b = Shader::from_source(b"void main() {}".to_vec(), Stage::Vertex);
    assert_eq!(b.request(), Request::Create(ObjectKind::Shader(Stage::Vertex)));
    let r = b.step(&mut ctx, Event::Created(7));
    let obj = ObjectRef { kind: ObjectKind::Shader(Stage::Vertex), id: 7 };
    assert_eq!(r, Request::Status(obj));
    assert_eq!(
        ctx.take_commands(),
        vec![
            Command::ShaderSource { shader: 7, source: b"void main() {}".to_vec() },
            Command::CompileShader { shader: 7 },
        ]
    );
    assert_eq!(b.step(&mut ctx, Event::Status(1)), Request::Done);
    assert!(b.is_finished());
    let s = b.into_shader().unwrap();
    assert_eq!(s.id(), 7);
    assert_eq!(s.stage(), Stage::Vertex);
    assert!(ctx.take_commands().is_empty());
}

#[test]
fn compile_failure_reads_log_and_deletes() {
    let mut ctx = Context::new();
    let mut b = Shader::from_source(b"void main() { oops }".to_vec(), Stage::Fragment);
    let obj = ObjectRef { kind: ObjectKind::Shader(Stage::Fragment), id: 3 };
    b.step(&mut ctx, Event::Created(3));
    assert_eq!(b.step(&mut ctx, Event::Status(0)), Request::LogLength(obj));
    assert_eq!(b.step(&mut ctx, Event::LogLength(12)), Request::Log(obj, 12));
    assert_eq!(b.step(&mut ctx, Event::Log("0:1: error".to_string())), Request::Done);
    let cmds = ctx.take_commands();
    assert_eq!(cmds.last(), Some(&Command::DeleteShader { shader: 3 }));
    let e: CompileError = b.into_shader().unwrap_err();
    assert_eq!(e.log, "0:1: error");
    assert_eq!(e.stage, Stage::Fragment);
}

#[test]
fn compile_failure_without_log_still_has_diagnostic() {
    let mut ctx = Context::new();
    let mut b = Shader::from_source(b"}".to_vec(), Stage::Vertex);
    drive(
        &mut b,
        &mut ctx,
        vec![Event::Created(4), Event::Status(0), Event::LogLength(0), Event::Log(String::new())],
    );
    let e = b.into_shader().unwrap_err();
    assert!(!e.log.is_empty());
}

#[test]
fn negative_log_length_reads_nothing() {
    let mut ctx = Context::new();
    let mut b = Shader::from_source(b"}".to_vec(), Stage::Vertex);
    let r = drive(&mut b, &mut ctx, vec![Event::Created(4), Event::Status(0), Event::LogLength(-5)]);
    let obj = ObjectRef { kind: ObjectKind::Shader(Stage::Vertex), id: 4 };
    assert_eq!(r, Request::Log(obj, 0));
}

#[test]
fn no_object_created_fails_without_commands() {
    let mut ctx = Context::new();
    let mut b = Shader::from_source(b"void main() {}".to_vec(), Stage::Vertex);
    assert_eq!(b.step(&mut ctx, Event::Created(0)), Request::Done);
    assert!(ctx.take_commands().is_empty());
    let e = b.into_shader().unwrap_err();
    assert!(!e.log.is_empty());
}

#[test]
fn unexpected_answer_changes_nothing() {
    let mut ctx = Context::new();
    let mut b = Shader::from_source(b"void main() {}".to_vec(), Stage::Vertex);
    let r = b.step(&mut ctx, Event::Status(1));
    assert_eq!(r, Request::Create(ObjectKind::Shader(Stage::Vertex)));
    assert!(!b.is_finished());
    assert!(ctx.take_commands().is_empty());
}

#[test]
fn link_two_shaders_gives_nonzero_program() {
    let mut ctx = Context::new();
    let vs = compiled(&mut ctx, 1, Stage::Vertex);
    let fs = compiled(&mut ctx, 2, Stage::Fragment);
    ctx.take_commands();
    let mut b = Program::from_shaders(&[vs, fs]);
    assert_eq!(b.request(), Request::Create(ObjectKind::Program));
    b.step(&mut ctx, Event::Created(9));
    assert_eq!(
        ctx.take_commands(),
        vec![
            Command::AttachShader { program: 9, shader: 1 },
            Command::AttachShader { program: 9, shader: 2 },
            Command::LinkProgram { program: 9 },
        ]
    );
    assert_eq!(b.step(&mut ctx, Event::Status(1)), Request::Done);
    let p = b.into_program().unwrap();
    assert_eq!(p.id(), 9);
}

#[test]
fn link_failure_deletes_program() {
    let mut ctx = Context::new();
    let vs = compiled(&mut ctx, 1, Stage::Vertex);
    ctx.take_commands();
    let mut b = Program::from_shaders(&[vs]);
    drive(
        &mut b,
        &mut ctx,
        vec![
            Event::Created(9),
            Event::Status(0),
            Event::LogLength(30),
            Event::Log("no fragment shader".to_string()),
        ],
    );
    let cmds = ctx.take_commands();
    assert_eq!(cmds.last(), Some(&Command::DeleteProgram { program: 9 }));
    let e: LinkError = b.into_program().unwrap_err();
    assert_eq!(e.log, "no fragment shader");
}

#[test]
fn shader_release_deletes() {
    let mut ctx = Context::new();
    let s = compiled(&mut ctx, 5, Stage::Vertex);
    ctx.take_commands();
    s.release(&mut ctx);
    assert_eq!(ctx.take_commands(), vec![Command::DeleteShader { shader: 5 }]);
}

#[test]
fn resolve_absent_name_fails() {
    let mut ctx = Context::new();
    let p = linked(&mut ctx, 9);
    let e = Uniform::new(&p, "u_missing", NOT_FOUND).unwrap_err();
    assert_eq!(e.name, "u_missing");
}

#[test]
fn resolve_present_name_is_stable() {
    let mut ctx = Context::new();
    let p = linked(&mut ctx, 9);
    let a = Uniform::new(&p, "u_time", 2).unwrap();
    let b = Uniform::new(&p, "u_time", 2).unwrap();
    assert_eq!(a, b);
    assert_eq!(a.program(), 9);
    assert_eq!(a.location(), 2);
    let z = Uniform::new(&p, "u_resolution", 0).unwrap();
    assert_eq!(z.location(), 0);
}

#[test]
fn program_set_makes_current() {
    let mut ctx = Context::new();
    let p = linked(&mut ctx, 9);
    p.set(&mut ctx);
    assert_eq!(ctx.current_program(), 9);
    assert_eq!(ctx.take_commands(), vec![Command::UseProgram { program: 9 }]);
}

#[test]
fn releasing_current_program_unbinds_first() {
    let mut ctx = Context::new();
    let p = linked(&mut ctx, 9);
    p.set(&mut ctx);
    ctx.take_commands();
    p.release(&mut ctx);
    assert_eq!(
        ctx.take_commands(),
        vec![Command::UseProgram { program: 0 }, Command::DeleteProgram { program: 9 }]
    );
    assert_eq!(ctx.current_program(), 0);
}

#[test]
fn upload_replaces_contents() {
    let mut ctx = Context::new();
    let mut vbo = Vbo::generate(11, 2).unwrap();
    vbo.set(&mut ctx, vec![1, 2, 3, 4, 5, 6]);
    assert_eq!(vbo.len(), 3);
    vbo.set(&mut ctx, vec![7, 8]);
    assert_eq!(vbo.len(), 1);
    let cmds = ctx.take_commands();
    assert_eq!(cmds.len(), 4);
    assert_eq!(cmds[2], Command::BindBuffer { target: Target::ArrayBuffer, buffer: 11 });
    assert_eq!(cmds[3], Command::BufferData { target: Target::ArrayBuffer, data: vec![7, 8] });
    assert_eq!(ctx.current_array_buffer(), 11);
}

#[test]
fn generate_rejects_zero() {
    assert!(Vbo::generate(0, 7).is_none());
    assert!(Ibo::generate(0).is_none());
    assert!(Vao::generate(0).is_none());
    assert_eq!(Ibo::generate(3).unwrap().id(), 3);
    assert_eq!(Vao::generate(4).unwrap().id(), 4);
}

#[test]
fn buffer_release_unbinds_then_deletes() {
    let mut ctx = Context::new();
    let mut ibo = Ibo::generate(12).unwrap();
    ibo.set(&mut ctx, vec![0, 1, 2]);
    assert_eq!(ctx.current_element_buffer(), 12);
    ctx.take_commands();
    ibo.release(&mut ctx);
    assert_eq!(
        ctx.take_commands(),
        vec![
            Command::BindBuffer { target: Target::ElementArrayBuffer, buffer: 0 },
            Command::DeleteBuffer { buffer: 12 },
        ]
    );
    assert_eq!(ctx.current_element_buffer(), 0);
}

#[test]
fn vertex_layout_offsets_match_fields() {
    let l = Layout::vertex();
    assert_eq!(l.stride, 28);
    let offsets: Vec<usize> = l.attributes.iter().map(|a| a.offset).collect();
    assert_eq!(offsets, vec![0, 8, 20]);
    let comps: Vec<u32> = l.attributes.iter().map(|a| a.components).collect();
    assert_eq!(comps, vec![2, 3, 2]);
}

#[test]
fn configure_without_vertex_buffer_fails() {
    let mut ctx = Context::new();
    let vao = Vao::generate(4).unwrap();
    assert_eq!(vao.set(&mut ctx, &Layout::vertex()), Err(LayoutError::NoVertexBuffer));
    assert!(ctx.take_commands().is_empty());
}

#[test]
fn configure_with_mismatched_stride_fails() {
    let mut ctx = Context::new();
    let mut vbo = Vbo::generate(11, 2).unwrap();
    vbo.set(&mut ctx, vec![0; 6]);
    ctx.take_commands();
    let vao = Vao::generate(4).unwrap();
    assert_eq!(
        vao.set(&mut ctx, &Layout::vertex()),
        Err(LayoutError::StrideMismatch { stride: 28, record_words: 2 })
    );
    assert!(ctx.take_commands().is_empty());
    assert_eq!(ctx.current_vertex_array(), 0);
}

#[test]
fn configure_registers_every_attribute() {
    let mut ctx = Context::new();
    let mut vbo = Vbo::generate(11, 7).unwrap();
    vbo.set(&mut ctx, vec![0; 21]);
    ctx.take_commands();
    let vao = Vao::generate(4).unwrap();
    assert_eq!(vao.set(&mut ctx, &Layout::vertex()), Ok(()));
    let cmds = ctx.take_commands();
    assert_eq!(cmds.len(), 7);
    assert_eq!(cmds[0], Command::BindVertexArray { vertex_array: 4 });
    assert_eq!(cmds[3], Command::EnableVertexAttribArray { slot: 1 });
    assert_eq!(
        cmds[4],
        Command::VertexAttribPointer {
            slot: 1,
            components: 3,
            component_type: ComponentType::Float,
            normalized: false,
            stride: 28,
            offset: 8,
        }
    );
    assert_eq!(ctx.current_vertex_array(), 4);
    vao.release(&mut ctx);
    assert_eq!(
        ctx.take_commands(),
        vec![
            Command::BindVertexArray { vertex_array: 0 },
            Command::DeleteVertexArray { vertex_array: 4 },
        ]
    );
}

#[test]
fn triangle_draws_three_indices() {
    let mut ctx = Context::new();
    let positions: [(f32, f32); 3] = [(-1.0, -1.0), (1.0, -1.0), (0.0, 1.0)];
    let words: Vec<u32> =
        positions.iter().flat_map(|&(x, y)| [x.to_bits(), y.to_bits()]).collect();
    let mut vbo = Vbo::generate(1, 2).unwrap();
    vbo.set(&mut ctx, words);
    assert_eq!(vbo.len(), 3);
    let layout = Layout {
        stride: 8,
        attributes: vec![Attribute {
            slot: 0,
            components: 2,
            component_type: ComponentType::Float,
            normalized: false,
            offset: 0,
        }],
    };
    let vao = Vao::generate(2).unwrap();
    assert_eq!(vao.set(&mut ctx, &layout), Ok(()));
    let mut ibo = Ibo::generate(3).unwrap();
    ibo.set(&mut ctx, vec![0, 1, 2]);
    ctx.take_commands();
    ibo.draw(&mut ctx);
    assert_eq!(
        ctx.take_commands(),
        vec![Command::DrawElements { count: 3, index_type: ComponentType::UnsignedInt }]
    );
}

#[test]
fn failed_reload_keeps_active_program() {
    let mut ctx = Context::new();
    let old = linked(&mut ctx, 9);
    old.set(&mut ctx);
    ctx.take_commands();
    let mut b = Shader::from_source(b"broken".to_vec(), Stage::Vertex);
    drive(
        &mut b,
        &mut ctx,
        vec![Event::Created(20), Event::Status(0), Event::LogLength(4), Event::Log("bad".to_string())],
    );
    ctx.take_commands();
    let rebuilt: Result<Program, CompileError> = b.into_shader().map(|_| unreachable!());
    let (current, err) = old.replace(&mut ctx, rebuilt);
    assert_eq!(err.unwrap().log, "bad");
    assert_eq!(current.id(), 9);
    assert_eq!(ctx.current_program(), 9);
    assert!(ctx.take_commands().is_empty());
    let mut ibo = Ibo::generate(3).unwrap();
    ibo.set(&mut ctx, vec![0, 1, 2]);
    ctx.take_commands();
    ibo.draw(&mut ctx);
    assert_eq!(ctx.current_program(), 9);
}

#[test]
fn successful_reload_swaps_then_deletes_old() {
    let mut ctx = Context::new();
    let old = linked(&mut ctx, 9);
    old.set(&mut ctx);
    let new = linked(&mut ctx, 10);
    let (current, err) = old.replace::<LinkError>(&mut ctx, Ok(new));
    assert!(err.is_none());
    assert_eq!(current.id(), 10);
    assert_eq!(ctx.current_program(), 10);
    assert_eq!(
        ctx.take_commands(),
        vec![Command::UseProgram { program: 10 }, Command::DeleteProgram { program: 9 }]
    );
}
