//! The command surface: create, write, resize and destroy terminals, each
//! validated and applied to an explicitly passed registry; and the steps the
//! output streaming task takes on the registry when its shell exits.
use vstd::prelude::*;
use vstd::utf8::encode_utf8;
use crate::pty::{
    dir_view, fresh_session, kind_of, names_id, outcome, shell_program, stop_channel,
    wait_exit_code, ArgumentProblem, ErrorKind, PtyReader, SessionView, ShellChild, TerminalError,
};
use crate::registry::TerminalManager;

verus! {

/// The live sessions, by id.
pub type Sessions = Map<Seq<char>, SessionView>;

/// A session just created from `program` in `cwd` whose output stream has
/// been started.
pub open spec fn streaming_session(program: Seq<char>, cwd: Option<Seq<char>>) -> SessionView {
    SessionView { streaming: true, ..fresh_session(program, cwd) }
}

/// How a request on the existing session `id` is refused before it reaches
/// the session, if it is.
pub open spec fn lookup_rejection(reg: Sessions, id: Seq<char>) -> Option<ErrorKind> {
    if id.len() == 0 {
        Some(ErrorKind::InvalidArgument)
    } else if !reg.contains_key(id) {
        Some(ErrorKind::SessionNotFound)
    } else {
        None
    }
}

/// How a resize request is refused before it reaches the PTY, if it is.
pub open spec fn resize_rejection(reg: Sessions, id: Seq<char>, rows: u16, cols: u16) -> Option<
    ErrorKind,
> {
    if id.len() == 0 {
        Some(ErrorKind::InvalidArgument)
    } else if rows == 0 || cols == 0 {
        Some(ErrorKind::InvalidArgument)
    } else {
        lookup_rejection(reg, id)
    }
}

/// How a create request is refused before a PTY is opened, if it is.
pub open spec fn create_rejection(reg: Sessions, id: Seq<char>) -> Option<ErrorKind> {
    if id.len() == 0 {
        Some(ErrorKind::InvalidArgument)
    } else if reg.contains_key(id) {
        Some(ErrorKind::AlreadyExists)
    } else {
        None
    }
}

/// The outcome of a write that the library settles without the OS: a
/// refusal, or success for empty data.
pub open spec fn write_settled(reg: Sessions, id: Seq<char>, data: Seq<char>) -> Option<
    Result<(), ErrorKind>,
> {
    match lookup_rejection(reg, id) {
        Some(k) => Some(Err(k)),
        None => if data.len() == 0 {
            Some(Ok(()))
        } else {
            None
        },
    }
}

/// The outcome of a destroy request and the sessions after it.
pub open spec fn destroy_outcome(reg: Sessions, id: Seq<char>) -> (Result<(), ErrorKind>, Sessions) {
    match lookup_rejection(reg, id) {
        Some(k) => (Err(k), reg),
        None => (Ok(()), reg.remove(id)),
    }
}

/// The sessions after a create request that succeeded.
pub open spec fn created(reg: Sessions, id: Seq<char>, program: Seq<char>, cwd: Option<Seq<char>>) -> Sessions {
    reg.insert(id, streaming_session(program, cwd))
}

/// The sessions after `data` reached the input of session `id`: nothing
/// for no data, else its bytes, sent and flushed.
pub open spec fn written(reg: Sessions, id: Seq<char>, data: Seq<char>) -> Sessions {
    if data.len() == 0 {
        reg
    } else {
        reg.insert(id, SessionView { sent: reg[id].sent + encode_utf8(data), flushed: true, ..reg[id] })
    }
}

/// The sessions after the PTY of session `id` was set to `rows` by `cols`.
pub open spec fn resized(reg: Sessions, id: Seq<char>, rows: u16, cols: u16) -> Sessions {
    reg.insert(id, SessionView { rows, cols, ..reg[id] })
}

/// The two handles an output streaming task works with.
pub struct OutputStream {
    /// The PTY's output.
    pub reader: PtyReader,
    /// Receives the stop signal the session fires when it is destroyed.
    pub stop: std::sync::mpsc::Receiver<()>,
}

/// Hands out the handles for the output stream of session `id` and installs
/// its stop signal, first firing any stop signal installed before, so that
/// at most one stream of the session runs.
pub fn start_output_reader(manager: &mut TerminalManager, id: &String) -> (r: Result<
    OutputStream,
    TerminalError,
>)
    requires
        old(manager).wf(),
    ensures
        final(manager).wf(),
        names_id(r, id@),
        !old(manager).view().contains_key(id@) ==> outcome(r) == Err::<(), _>(
            ErrorKind::SessionNotFound,
        ) && final(manager).view() == old(manager).view(),
        old(manager).view().contains_key(id@) && r is Ok ==> final(manager).view() == old(
            manager,
        ).view().insert(id@, SessionView { streaming: true, ..old(manager).view()[id@] }),
        old(manager).view().contains_key(id@) && r is Err ==> outcome(r) == Err::<(), _>(
            ErrorKind::Io,
        ) && final(manager).view() == old(manager).view(),
{
    let ghost before = manager.view();
    match manager.get_session_mut(id) {
        None => Err(TerminalError::SessionNotFound(id.clone())),
        Some(session) => {
            let reader = match session.take_reader() {
                Ok(reader) => reader,
                Err(e) => {
                    proof {
                        assert(before.insert(id@, before[id@]) =~= before);
                    }
                    return Err(e);
                },
            };
            session.stop_reader();
            let (sender, stop) = stop_channel();
            session.set_stop_signal(sender);
            Ok(OutputStream { reader, stop })
        },
    }
}

/// Create a new terminal session and start its output stream. The shell is
/// `shell`, else `default_shell`; it starts in `cwd` when one is given. If
/// the stream cannot be started the session stays registered, unstreamed.
pub fn create_terminal(
    manager: &mut TerminalManager,
    id: String,
    shell: Option<String>,
    cwd: Option<String>,
    default_shell: String,
) -> (r: Result<OutputStream, TerminalError>)
    requires
        old(manager).wf(),
    ensures
        final(manager).wf(),
        names_id(r, id@),
        create_rejection(old(manager).view(), id@) matches Some(k) ==> outcome(r) == Err::<(), _>(k)
            && final(manager).view() == old(manager).view(),
        create_rejection(old(manager).view(), id@) is None && r is Ok ==> final(manager).view()
            == created(old(manager).view(), id@, shell_program(shell, default_shell@), dir_view(cwd)),
        create_rejection(old(manager).view(), id@) is None && r is Err ==> (outcome(r) == Err::<
            (),
            _,
        >(ErrorKind::Spawn) && final(manager).view() == old(manager).view()) || (outcome(r)
            == Err::<(), _>(ErrorKind::Io) && final(manager).view() == old(manager).view().insert(
            id@,
            fresh_session(shell_program(shell, default_shell@), dir_view(cwd)),
        )),
{
    if id.as_str().is_empty() {
        return Err(TerminalError::InvalidArgument(ArgumentProblem::EmptyId));
    }
    let ghost before = manager.view();
    let ghost program = shell_program(shell, default_shell@);
    let ghost dir = dir_view(cwd);
    manager.create_session(id.clone(), shell, cwd, default_shell)?;
    let r = start_output_reader(manager, &id);
    proof {
        assert(created(before, id@, program, dir) =~= before.insert(
            id@,
            fresh_session(program, dir),
        ).insert(id@, SessionView { streaming: true, ..fresh_session(program, dir) }));
    }
    r
}

/// Write data to a terminal session
pub fn write_terminal(manager: &mut TerminalManager, id: String, data: String) -> (r: Result<
    (),
    TerminalError,
>)
    requires
        old(manager).wf(),
    ensures
        final(manager).wf(),
        names_id(r, id@),
        write_settled(old(manager).view(), id@, data@) matches Some(o) ==> outcome(r) == o,
        lookup_rejection(old(manager).view(), id@) is Some ==> final(manager).view() == old(
            manager,
        ).view(),
        lookup_rejection(old(manager).view(), id@) is None && r is Ok ==> final(manager).view()
            == written(old(manager).view(), id@, data@),
        lookup_rejection(old(manager).view(), id@) is None && r is Err ==> outcome(r) == Err::<
            (),
            _,
        >(ErrorKind::Io) && final(manager).view() == old(manager).view().insert(
            id@,
            SessionView {
                sent: final(manager).view()[id@].sent,
                flushed: final(manager).view()[id@].flushed,
                ..old(manager).view()[id@]
            },
        ),
{
    if id.as_str().is_empty() {
        return Err(TerminalError::InvalidArgument(ArgumentProblem::EmptyId));
    }
    let ghost before = manager.view();
    match manager.get_session_mut(&id) {
        None => Err(TerminalError::SessionNotFound(id)),
        Some(session) => session.write(data.as_str()),
    }
}

/// Resize a terminal session
pub fn resize_terminal(manager: &mut TerminalManager, id: String, rows: u16, cols: u16) -> (r: Result<
    (),
    TerminalError,
>)
    requires
        old(manager).wf(),
    ensures
        final(manager).wf(),
        names_id(r, id@),
        rows == 0 || cols == 0 ==> outcome(r) == Err::<(), _>(ErrorKind::InvalidArgument),
        resize_rejection(old(manager).view(), id@, rows, cols) matches Some(k) ==> outcome(r)
            == Err::<(), _>(k) && final(manager).view() == old(manager).view(),
        resize_rejection(old(manager).view(), id@, rows, cols) is None && r is Ok
            ==> final(manager).view() == resized(old(manager).view(), id@, rows, cols),
        resize_rejection(old(manager).view(), id@, rows, cols) is None && r is Err ==> outcome(r)
            == Err::<(), _>(ErrorKind::Io) && final(manager).view() == old(manager).view().insert(
            id@,
            SessionView {
                rows: final(manager).view()[id@].rows,
                cols: final(manager).view()[id@].cols,
                ..old(manager).view()[id@]
            },
        ),
{
    if id.as_str().is_empty() {
        return Err(TerminalError::InvalidArgument(ArgumentProblem::EmptyId));
    }
    if rows == 0 || cols == 0 {
        return Err(TerminalError::InvalidArgument(ArgumentProblem::ZeroDimension { rows, cols }));
    }
    match manager.get_session_mut(&id) {
        None => Err(TerminalError::SessionNotFound(id)),
        Some(session) => session.resize(rows, cols),
    }
}

/// Destroy a terminal session: it leaves the registry, its stream is told
/// to stop, and its resources are released. `Ok(true)` says that a running
/// output stream was sent its stop signal.
pub fn destroy_terminal(manager: &mut TerminalManager, id: String) -> (r: Result<
    bool,
    TerminalError,
>)
    requires
        old(manager).wf(),
    ensures
        final(manager).wf(),
        names_id(r, id@),
        (outcome(r), final(manager).view()) == destroy_outcome(old(manager).view(), id@),
        r matches Ok(stopped) ==> stopped == old(manager).view()[id@].streaming,
{
    if id.as_str().is_empty() {
        return Err(TerminalError::InvalidArgument(ArgumentProblem::EmptyId));
    }
    match manager.remove_session(&id) {
        None => Err(TerminalError::SessionNotFound(id)),
        Some(session) => Ok(session.release()),
    }
}

/// Takes the child handle of session `id`, for its exit status; `None` if
/// the session is gone or the handle was taken already.
pub fn take_exited_child(manager: &mut TerminalManager, id: &String) -> (r: Option<ShellChild>)
    requires
        old(manager).wf(),
    ensures
        final(manager).wf(),
        r is Some == (old(manager).view().contains_key(id@) && old(
            manager,
        ).view()[id@].child_present),
        !old(manager).view().contains_key(id@) ==> final(manager).view() == old(manager).view(),
        old(manager).view().contains_key(id@) ==> final(manager).view() == old(
            manager,
        ).view().insert(id@, SessionView { child_present: false, ..old(manager).view()[id@] }),
{
    match manager.get_session_mut(id) {
        None => None,
        Some(session) => session.take_child(),
    }
}

/// The exit code of a child taken with `take_exited_child`, if any.
pub fn child_exit_code(child: Option<ShellChild>) -> (r: Option<i32>)
    ensures
        child is None ==> r is None,
{
    match child {
        None => None,
        Some(mut c) => wait_exit_code(&mut c),
    }
}

/// Removes session `id` after its shell exited and releases it. A session
/// destroyed meanwhile is simply not there any more.
pub fn finish_exited_session(manager: &mut TerminalManager, id: &String)
    requires
        old(manager).wf(),
    ensures
        final(manager).wf(),
        final(manager).view() == old(manager).view().remove(id@),
{
    match manager.remove_session(id) {
        None => {
            proof {
                assert(old(manager).view().remove(id@) =~= old(manager).view());
            }
        },
        Some(session) => {
            session.release();
        },
    }
}

/// Creating a session under an id that was just created fails with
/// `AlreadyExists`, and the first session stays reachable by every command.
pub proof fn lemma_create_twice(reg: Sessions, id: Seq<char>, program: Seq<char>, cwd: Option<
    Seq<char>,
>)
    requires
        id.len() > 0,
        create_rejection(reg, id) is None,
    ensures
        create_rejection(created(reg, id, program, cwd), id) == Some(ErrorKind::AlreadyExists),
        lookup_rejection(created(reg, id, program, cwd), id) is None,
        created(reg, id, program, cwd)[id] == streaming_session(program, cwd),
{
}

/// Writing, resizing (to non-zero dimensions) and destroying an id that is
/// not registered fail with `SessionNotFound`, and change nothing.
pub proof fn lemma_absent_id_not_found(reg: Sessions, id: Seq<char>, rows: u16, cols: u16, data: Seq<
    char,
>)
    requires
        id.len() > 0,
        !reg.contains_key(id),
        rows > 0,
        cols > 0,
    ensures
        write_settled(reg, id, data) == Some(Err::<(), _>(ErrorKind::SessionNotFound)),
        resize_rejection(reg, id, rows, cols) == Some(ErrorKind::SessionNotFound),
        destroy_outcome(reg, id) == (Err::<(), _>(ErrorKind::SessionNotFound), reg),
{
}

/// A resize with a zero dimension is refused as an invalid argument,
/// whatever the registry holds.
pub proof fn lemma_zero_dimension_refused(reg: Sessions, id: Seq<char>, rows: u16, cols: u16)
    requires
        rows == 0 || cols == 0,
    ensures
        resize_rejection(reg, id, rows, cols) == Some(ErrorKind::InvalidArgument),
{
}

/// After a destroy of `id` succeeds, `id` is gone and destroying it again
/// fails with `SessionNotFound`.
pub proof fn lemma_destroy_twice(reg: Sessions, id: Seq<char>)
    requires
        id.len() > 0,
        reg.contains_key(id),
    ensures
        destroy_outcome(reg, id).0 == Ok::<(), ErrorKind>(()),
        !destroy_outcome(reg, id).1.contains_key(id),
        destroy_outcome(destroy_outcome(reg, id).1, id).0 == Err::<(), _>(
            ErrorKind::SessionNotFound,
        ),
{
}

/// Writing empty data to a live session succeeds and leaves the registry as
/// it was, so any number of such writes in a row succeed.
pub proof fn lemma_empty_writes_succeed(reg: Sessions, id: Seq<char>)
    requires
        id.len() > 0,
        reg.contains_key(id),
    ensures
        write_settled(reg, id, Seq::empty()) == Some(Ok::<(), ErrorKind>(())),
{
}

} // verus!
