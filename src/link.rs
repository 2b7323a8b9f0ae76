use vstd::prelude::*;

use crate::context::{Command, Context, Stage};
use crate::program::{CompileError, LinkError, Program, Shader};

verus! {

/// The kind of driver object that a build creates.
#[derive(Clone, Copy, Debug, PartialEq, Eq, Structural)]
pub enum ObjectKind {
    Shader(Stage),
    Program,
}

/// A driver object that a request is about.
#[derive(Clone, Copy, Debug, PartialEq, Eq, Structural)]
pub struct ObjectRef {
    pub kind: ObjectKind,
    pub id: u32,
}

/// What a build needs from the driver next. Before answering, the host
/// performs every command queued in the context.
#[derive(Clone, Copy, Debug, PartialEq, Eq, Structural)]
pub enum Request {
    /// Create an object of this kind; answer with [`Event::Created`].
    Create(ObjectKind),
    /// Query the compile (shader) or link (program) status; answer with
    /// [`Event::Status`].
    Status(ObjectRef),
    /// Query the length of the diagnostic log; answer with [`Event::LogLength`].
    LogLength(ObjectRef),
    /// Read at most this many bytes of the diagnostic log, its terminator
    /// included; answer with [`Event::Log`].
    Log(ObjectRef, usize),
    /// The build is over.
    Done,
}

/// A driver's answer to a [`Request`].
#[derive(Debug)]
pub enum Event {
    /// The identifier of the new object (0 when none was created).
    Created(u32),
    /// The status flag: 0 for failure, anything else for success.
    Status(i32),
    /// The length of the log, as the driver reports it.
    LogLength(i32),
    /// The text of the log, without its terminator.
    Log(String),
}

/// Where a build stands.
pub enum State {
    Creating,
    Checking(u32),
    Measuring(u32),
    Reading(u32, usize),
    Succeeded(u32),
    Failed(Seq<char>),
}

#[derive(Debug)]
enum Phase {
    Creating,
    Checking(u32),
    Measuring(u32),
    Reading(u32, usize),
    Succeeded(u32),
    Failed(String),
}

/// The creation of one shader (compile) or one program (link): create the
/// object, configure it, check its status, and on failure read the
/// diagnostic log and delete the object.
#[derive(Debug)]
pub struct Build {
    kind: ObjectKind,
    source: Vec<u8>,
    shaders: Vec<u32>,
    phase: Phase,
}

impl Shader {
    /// Starts compiling `source` for `stage`.
    pub fn from_source(source: Vec<u8>, stage: Stage) -> (r: Build)
        ensures
            r.wf(),
            r.kind() == ObjectKind::Shader(stage),
            r.source() == source,
            r.shaders() == Seq::<u32>::empty(),
            r.state() == State::Creating,
    {
        Build { kind: ObjectKind::Shader(stage), source, shaders: Vec::new(), phase: Phase::Creating }
    }
}

impl Program {
    /// Starts linking a program from `shaders`, attached in their order.
    pub fn from_shaders(shaders: &[Shader]) -> (r: Build)
        ensures
            r.wf(),
            r.kind() == ObjectKind::Program,
            r.source()@ == Seq::<u8>::empty(),
            r.shaders().len() == shaders@.len(),
            forall|i: int| 0 <= i < shaders@.len() ==> r.shaders()[i] == shaders@[i].spec_id(),
            r.state() == State::Creating,
    {
        let mut ids: Vec<u32> = Vec::new();
        let mut i: usize = 0;
        while i < shaders.len()
            invariant
                i <= shaders@.len(),
                ids@.len() == i,
                forall|j: int| 0 <= j < i ==> ids@[j] == shaders@[j].spec_id(),
            decreases shaders@.len() - i,
        {
            ids.push(shaders[i].id());
            i = i + 1;
        }
        Build { kind: ObjectKind::Program, source: Vec::new(), shaders: ids, phase: Phase::Creating }
    }
}

/// The diagnostic of a build whose object the driver did not create.
pub open spec fn no_object_log() -> Seq<char> {
    "the driver created no object"@
}

/// The diagnostic of a failure for which the driver gave no log.
pub open spec fn silent_failure_log() -> Seq<char> {
    "the driver reported a failure without a diagnostic"@
}

/// The diagnostic kept for a failure whose log reads `text`.
pub open spec fn diagnostic(text: Seq<char>) -> Seq<char> {
    if text.len() == 0 {
        silent_failure_log()
    } else {
        text
    }
}

/// The log length to read, from the length the driver reports.
pub open spec fn log_len(n: i32) -> usize {
    if n > 0 {
        n as usize
    } else {
        0
    }
}

pub open spec fn next_state(s: State, e: Event) -> State {
    match (s, e) {
        (State::Creating, Event::Created(id)) => if id == 0 {
            State::Failed(no_object_log())
        } else {
            State::Checking(id)
        },
        (State::Checking(id), Event::Status(status)) => if status != 0 {
            State::Succeeded(id)
        } else {
            State::Measuring(id)
        },
        (State::Measuring(id), Event::LogLength(n)) => State::Reading(id, log_len(n)),
        (State::Reading(id, _), Event::Log(text)) => State::Failed(diagnostic(text@)),
        _ => s,
    }
}

pub open spec fn attach_all(program: u32, shaders: Seq<u32>) -> Seq<Command> {
    Seq::new(shaders.len(), |i: int| Command::AttachShader { program, shader: shaders[i] })
}

/// The calls that configure a freshly created object: submit the source
/// and compile it, or attach every shader and link.
pub open spec fn setup(kind: ObjectKind, source: Vec<u8>, shaders: Seq<u32>, id: u32) -> Seq<
    Command,
> {
    match kind {
        ObjectKind::Shader(_) => seq![
            Command::ShaderSource { shader: id, source },
            Command::CompileShader { shader: id },
        ],
        ObjectKind::Program => attach_all(id, shaders).push(Command::LinkProgram { program: id }),
    }
}

pub open spec fn delete(kind: ObjectKind, id: u32) -> Command {
    match kind {
        ObjectKind::Shader(_) => Command::DeleteShader { shader: id },
        ObjectKind::Program => Command::DeleteProgram { program: id },
    }
}

/// The calls that a step queues.
pub open spec fn step_commands(
    kind: ObjectKind,
    source: Vec<u8>,
    shaders: Seq<u32>,
    s: State,
    e: Event,
) -> Seq<Command> {
    match (s, e) {
        (State::Creating, Event::Created(id)) => if id == 0 {
            Seq::empty()
        } else {
            setup(kind, source, shaders, id)
        },
        (State::Reading(id, _), Event::Log(_)) => seq![delete(kind, id)],
        _ => Seq::empty(),
    }
}

pub open spec fn request_of(kind: ObjectKind, s: State) -> Request {
    match s {
        State::Creating => Request::Create(kind),
        State::Checking(id) => Request::Status(ObjectRef { kind, id }),
        State::Measuring(id) => Request::LogLength(ObjectRef { kind, id }),
        State::Reading(id, len) => Request::Log(ObjectRef { kind, id }, len),
        State::Succeeded(_) => Request::Done,
        State::Failed(_) => Request::Done,
    }
}

/// Every object a build refers to is a real one, and every failure carries
/// a diagnostic.
pub open spec fn state_ok(s: State) -> bool {
    match s {
        State::Creating => true,
        State::Checking(id) => id != 0,
        State::Measuring(id) => id != 0,
        State::Reading(id, _) => id != 0,
        State::Succeeded(id) => id != 0,
        State::Failed(log) => log.len() > 0,
    }
}

pub open spec fn finished(s: State) -> bool {
    s is Succeeded || s is Failed
}

/// The state a build reaches from `s` on the driver's answers `events`.
pub open spec fn run(s: State, events: Seq<Event>) -> State
    decreases events.len(),
{
    if events.len() == 0 {
        s
    } else {
        run(next_state(s, events[0]), events.drop_first())
    }
}

/// The calls a build queues from `s` on the driver's answers `events`.
pub open spec fn run_commands(
    kind: ObjectKind,
    source: Vec<u8>,
    shaders: Seq<u32>,
    s: State,
    events: Seq<Event>,
) -> Seq<Command>
    decreases events.len(),
{
    if events.len() == 0 {
        Seq::empty()
    } else {
        step_commands(kind, source, shaders, s, events[0]) + run_commands(
            kind,
            source,
            shaders,
            next_state(s, events[0]),
            events.drop_first(),
        )
    }
}

/// Whatever the driver answers, a build never refers to object 0, so a
/// successful compile or link yields a non-zero identifier, and a failed
/// one always carries a non-empty diagnostic.
pub proof fn lemma_run_keeps_state_ok(s: State, events: Seq<Event>)
    requires
        state_ok(s),
    ensures
        state_ok(run(s, events)),
    decreases events.len(),
{
    reveal_strlit("the driver created no object");
    reveal_strlit("the driver reported a failure without a diagnostic");
    if events.len() > 0 {
        lemma_run_keeps_state_ok(next_state(s, events[0]), events.drop_first());
    }
}

/// A build whose object is created and whose status check passes ends in
/// success with that object, and queues only the configuring calls.
pub proof fn lemma_passing_status_succeeds(
    kind: ObjectKind,
    source: Vec<u8>,
    shaders: Seq<u32>,
    id: u32,
    status: i32,
)
    requires
        id != 0,
        status != 0,
    ensures
        ({
            let events = seq![Event::Created(id), Event::Status(status)];
            &&& run(State::Creating, events) == State::Succeeded(id)
            &&& request_of(kind, run(State::Creating, events)) == Request::Done
            &&& run_commands(kind, source, shaders, State::Creating, events) == setup(
                kind,
                source,
                shaders,
                id,
            )
        }),
{
    reveal_with_fuel(run, 3);
    reveal_with_fuel(run_commands, 3);
    let events = seq![Event::Created(id), Event::Status(status)];
    assert(events.drop_first() =~= seq![Event::Status(status)]);
    assert(events.drop_first().drop_first() =~= Seq::<Event>::empty());
    assert(run_commands(kind, source, shaders, State::Creating, events) =~= setup(
        kind,
        source,
        shaders,
        id,
    ));
}

/// A build whose status check fails reads the driver's log, deletes the
/// object it created, and ends in failure with a non-empty diagnostic: the
/// log itself whenever the driver gave one.
pub proof fn lemma_failing_status_reports(
    kind: ObjectKind,
    source: Vec<u8>,
    shaders: Seq<u32>,
    id: u32,
    n: i32,
    text: String,
)
    requires
        id != 0,
    ensures
        ({
            let events = seq![
                Event::Created(id),
                Event::Status(0),
                Event::LogLength(n),
                Event::Log(text),
            ];
            &&& run(State::Creating, events) == State::Failed(diagnostic(text@))
            &&& diagnostic(text@).len() > 0
            &&& text@.len() > 0 ==> diagnostic(text@) == text@
            &&& run_commands(kind, source, shaders, State::Creating, events) == setup(
                kind,
                source,
                shaders,
                id,
            ).push(delete(kind, id))
        }),
{
    reveal_strlit("the driver reported a failure without a diagnostic");
    reveal_with_fuel(run, 5);
    reveal_with_fuel(run_commands, 5);
    let events = seq![Event::Created(id), Event::Status(0), Event::LogLength(n), Event::Log(text)];
    let e1 = events.drop_first();
    let e2 = e1.drop_first();
    let e3 = e2.drop_first();
    assert(e1 =~= seq![Event::Status(0), Event::LogLength(n), Event::Log(text)]);
    assert(e2 =~= seq![Event::LogLength(n), Event::Log(text)]);
    assert(e3 =~= seq![Event::Log(text)]);
    assert(e3.drop_first() =~= Seq::<Event>::empty());
    assert(run_commands(kind, source, shaders, State::Creating, events) =~= setup(
        kind,
        source,
        shaders,
        id,
    ).push(delete(kind, id)));
}

impl Build {
    pub closed spec fn kind(&self) -> ObjectKind {
        self.kind
    }

    /// The source a shader build submits.
    pub closed spec fn source(&self) -> Vec<u8> {
        self.source
    }

    /// The shaders a program build attaches.
    pub closed spec fn shaders(&self) -> Seq<u32> {
        self.shaders@
    }

    pub closed spec fn state(&self) -> State {
        match self.phase {
            Phase::Creating => State::Creating,
            Phase::Checking(id) => State::Checking(id),
            Phase::Measuring(id) => State::Measuring(id),
            Phase::Reading(id, len) => State::Reading(id, len),
            Phase::Succeeded(id) => State::Succeeded(id),
            Phase::Failed(log) => State::Failed(log@),
        }
    }

    pub open spec fn wf(&self) -> bool {
        state_ok(self.state())
    }

    /// What the build needs from the driver now.
    pub fn request(&self) -> (r: Request)
        ensures
            r == request_of(self.kind(), self.state()),
    {
        let kind = self.kind;
        match self.phase {
            Phase::Creating => Request::Create(kind),
            Phase::Checking(id) => Request::Status(ObjectRef { kind, id }),
            Phase::Measuring(id) => Request::LogLength(ObjectRef { kind, id }),
            Phase::Reading(id, len) => Request::Log(ObjectRef { kind, id }, len),
            Phase::Succeeded(_) => Request::Done,
            Phase::Failed(_) => Request::Done,
        }
    }

    /// Takes the driver's answer to the pending request, queues the calls it
    /// leads to, and returns the next request. An answer that does not fit
    /// the pending request changes nothing.
    pub fn step(&mut self, ctx: &mut Context, event: Event) -> (r: Request)
        requires
            old(self).wf(),
        ensures
            final(self).wf(),
            final(self).kind() == old(self).kind(),
            final(self).shaders() == old(self).shaders(),
            final(self).state() == next_state(old(self).state(), event),
            final(self).state() is Creating ==> final(self).source() == old(self).source(),
            final(ctx).queued() == old(ctx).queued() + step_commands(
                old(self).kind(),
                old(self).source(),
                old(self).shaders(),
                old(self).state(),
                event,
            ),
            final(ctx).bindings() == old(ctx).bindings(),
            r == request_of(final(self).kind(), final(self).state()),
    {
        let kind = self.kind;
        proof {
            reveal_strlit("the driver created no object");
            reveal_strlit("the driver reported a failure without a diagnostic");
        }
        match event {
            Event::Created(id) => {
                if let Phase::Creating = self.phase {
                    if id == 0 {
                        self.phase = Phase::Failed("the driver created no object".to_owned());
                    } else {
                        self.queue_setup(ctx, id);
                        self.phase = Phase::Checking(id);
                    }
                }
            },
            Event::Status(status) => {
                if let Phase::Checking(id) = self.phase {
                    if status != 0 {
                        self.phase = Phase::Succeeded(id);
                    } else {
                        self.phase = Phase::Measuring(id);
                    }
                }
            },
            Event::LogLength(n) => {
                if let Phase::Measuring(id) = self.phase {
                    let len: usize = if n > 0 {
                        n as usize
                    } else {
                        0
                    };
                    self.phase = Phase::Reading(id, len);
                }
            },
            Event::Log(text) => {
                if let Phase::Reading(id, _) = self.phase {
                    let c = match kind {
                        ObjectKind::Shader(_) => Command::DeleteShader { shader: id },
                        ObjectKind::Program => Command::DeleteProgram { program: id },
                    };
                    ctx.push(c);
                    if text.as_str().is_empty() {
                        self.phase = Phase::Failed(
                            "the driver reported a failure without a diagnostic".to_owned(),
                        );
                    } else {
                        self.phase = Phase::Failed(text);
                    }
                }
            },
        }
        self.request()
    }

    /// Queues the calls that configure the new object `id`, handing the
    /// source over to the driver.
    fn queue_setup(&mut self, ctx: &mut Context, id: u32)
        ensures
            final(self).kind() == old(self).kind(),
            final(self).shaders() == old(self).shaders(),
            final(self).phase == old(self).phase,
            final(ctx).queued() == old(ctx).queued() + setup(
                old(self).kind(),
                old(self).source(),
                old(self).shaders(),
                id,
            ),
            final(ctx).bindings() == old(ctx).bindings(),
    {
        match self.kind {
            ObjectKind::Shader(_) => {
                let mut source: Vec<u8> = Vec::new();
                std::mem::swap(&mut source, &mut self.source);
                ctx.push(Command::ShaderSource { shader: id, source });
                ctx.push(Command::CompileShader { shader: id });
                assert(setup(old(self).kind(), old(self).source(), old(self).shaders(), id)
                    =~= seq![
                    Command::ShaderSource { shader: id, source: old(self).source() },
                    Command::CompileShader { shader: id },
                ]);
            },
            ObjectKind::Program => {
                let ghost start = ctx.queued();
                let mut i: usize = 0;
                while i < self.shaders.len()
                    invariant
                        i <= self.shaders@.len(),
                        self.kind == old(self).kind,
                        self.shaders == old(self).shaders,
                        self.phase == old(self).phase,
                        start == old(ctx).queued(),
                        ctx.queued() == start + attach_all(id, self.shaders@.take(i as int)),
                        ctx.bindings() == old(ctx).bindings(),
                    decreases self.shaders@.len() - i,
                {
                    ctx.push(Command::AttachShader { program: id, shader: self.shaders[i] });
                    i = i + 1;
                    assert(attach_all(id, self.shaders@.take(i as int)) =~= attach_all(
                        id,
                        self.shaders@.take(i - 1),
                    ).push(Command::AttachShader { program: id, shader: self.shaders@[i - 1] }));
                }
                ctx.push(Command::LinkProgram { program: id });
                assert(self.shaders@.take(i as int) =~= self.shaders@);
                assert(setup(old(self).kind(), old(self).source(), old(self).shaders(), id)
                    =~= attach_all(id, self.shaders@).push(Command::LinkProgram { program: id }));
            },
        }
    }

    /// The shader that a finished compile produced, or its diagnostic.
    pub fn into_shader(self) -> (r: Result<Shader, CompileError>)
        requires
            self.wf(),
            finished(self.state()),
            self.kind() is Shader,
        ensures
            match self.state() {
                State::Succeeded(id) => r matches Ok(s) && s.spec_id() == id && ObjectKind::Shader(
                    s.spec_stage(),
                ) == self.kind(),
                State::Failed(log) => r matches Err(e) && e.log@ == log && ObjectKind::Shader(
                    e.stage,
                ) == self.kind(),
                _ => false,
            },
    {
        let stage = match self.kind {
            ObjectKind::Shader(stage) => stage,
            ObjectKind::Program => Stage::Vertex,
        };
        match self.phase {
            Phase::Succeeded(id) => Ok(Shader::from_parts(id, stage)),
            Phase::Failed(log) => Err(CompileError { stage, log }),
            _ => Err(CompileError { stage, log: String::new() }),
        }
    }

    /// The program that a finished link produced, or its diagnostic.
    pub fn into_program(self) -> (r: Result<Program, LinkError>)
        requires
            self.wf(),
            finished(self.state()),
            self.kind() is Program,
        ensures
            match self.state() {
                State::Succeeded(id) => r matches Ok(p) && p.spec_id() == id,
                State::Failed(log) => r matches Err(e) && e.log@ == log,
                _ => false,
            },
    {
        match self.phase {
            Phase::Succeeded(id) => Ok(Program::from_id(id)),
            Phase::Failed(log) => Err(LinkError { log }),
            _ => Err(LinkError { log: String::new() }),
        }
    }

    /// Whether the build is over, with an object or with a diagnostic.
    pub fn is_finished(&self) -> (r: bool)
        ensures
            r == finished(self.state()),
    {
        match self.phase {
            Phase::Succeeded(_) => true,
            Phase::Failed(_) => true,
            _ => false,
        }
    }
}

} // verus!
