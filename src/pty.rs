//! One pseudo-terminal backed shell: its PTY master, its input writer, its
//! child process handle and the stop signal of its output stream.
use vstd::prelude::*;
use vstd::utf8::encode_utf8;

verus! {

#[verifier::external_type_specification]
#[verifier::external_body]
pub struct ExPtyPair(portable_pty::PtyPair);

#[verifier::external_type_specification]
#[verifier::external_body]
pub struct ExCommandBuilder(portable_pty::CommandBuilder);

#[verifier::external_type_specification]
#[verifier::external_body]
pub struct ExExitStatus(portable_pty::ExitStatus);

#[verifier::external_type_specification]
#[verifier::external_body]
#[verifier::reject_recursive_types(T)]
pub struct ExSender<T>(std::sync::mpsc::Sender<T>);

#[verifier::external_type_specification]
#[verifier::external_body]
#[verifier::reject_recursive_types(T)]
pub struct ExReceiver<T>(std::sync::mpsc::Receiver<T>);

/// The input side of a PTY master. The handle is a `dyn Write + Send`
/// object, a type Verus does not accept in a field, so it is kept opaque.
#[verifier::external_body]
pub struct PtyWriter {
    inner: Box<dyn std::io::Write + Send>,
}

/// A readable clone of a PTY master: the output of the shell.
/// Opaque for the same reason as `PtyWriter`; unverified code reads from it.
#[verifier::external_body]
pub struct PtyReader {
    pub inner: Box<dyn std::io::Read + Send>,
}

/// The master side of a PTY. Opaque for the same reason as `PtyWriter`.
#[verifier::external_body]
pub struct PtyMaster {
    inner: Box<dyn portable_pty::MasterPty + Send>,
}

/// The spawned shell process. Opaque for the same reason as `PtyWriter`.
#[verifier::external_body]
pub struct ShellChild {
    inner: Box<dyn portable_pty::Child + Send + Sync>,
}

/// A freshly opened PTY pair with the geometry it was opened with.
pub struct OpenedPty {
    pair: portable_pty::PtyPair,
    size: Ghost<(u16, u16)>,
}

/// The master side of a PTY with the geometry last set on it.
pub struct PtyMasterEnd {
    raw: PtyMaster,
    size: Ghost<(u16, u16)>,
}

/// The input side of a PTY with every byte it has accepted so far, and
/// those of them that have surely left its buffers.
pub struct PtyInput {
    raw: PtyWriter,
    accepted: Ghost<Seq<u8>>,
    delivered: Ghost<Seq<u8>>,
}

/// A command to spawn, with the program it runs and its working directory.
pub struct ShellCommand {
    raw: portable_pty::CommandBuilder,
    program: Ghost<Seq<char>>,
    cwd: Ghost<Option<Seq<char>>>,
}

/// A shell spawned from a `ShellCommand`, with what that command ran.
pub struct SpawnedShell {
    child: ShellChild,
    program: Ghost<Seq<char>>,
    cwd: Ghost<Option<Seq<char>>>,
}

/// Relies on `portable_pty::native_pty_system` and `PtySystem::openpty`:
/// a new PTY pair of `rows` by `cols` (no pixel size), or the error's text.
#[verifier::external_body]
fn open_pty(rows: u16, cols: u16) -> (r: Result<OpenedPty, String>)
    ensures
        r matches Ok(p) ==> p.size@ == (rows, cols),
{
    let size = portable_pty::PtySize { rows, cols, pixel_width: 0, pixel_height: 0 };
    match portable_pty::native_pty_system().openpty(size) {
        Ok(pair) => Ok(OpenedPty { pair, size: Ghost((rows, cols)) }),
        Err(e) => Err(format!("{}", e)),
    }
}

/// Relies on `portable_pty::CommandBuilder::new`: a command that runs
/// `program`, in no particular directory.
#[verifier::external_body]
fn shell_command(program: &String) -> (r: ShellCommand)
    ensures
        r.program@ == program@,
        r.cwd@ == None::<Seq<char>>,
{
    ShellCommand {
        raw: portable_pty::CommandBuilder::new(program),
        program: Ghost(program@),
        cwd: Ghost(None),
    }
}

/// Relies on `portable_pty::CommandBuilder::cwd`: sets the working directory.
#[verifier::external_body]
fn set_command_dir(cmd: &mut ShellCommand, dir: &String)
    ensures
        final(cmd).program == old(cmd).program,
        final(cmd).cwd@ == Some(dir@),
{
    cmd.raw.cwd(dir)
}

/// Relies on `SlavePty::spawn_command`: runs the command on the slave side.
#[verifier::external_body]
fn spawn_on_slave(pty: &OpenedPty, cmd: ShellCommand) -> (r: Result<SpawnedShell, String>)
    ensures
        r matches Ok(s) ==> s.program == cmd.program && s.cwd == cmd.cwd,
{
    let ShellCommand { raw, program, cwd } = cmd;
    match pty.pair.slave.spawn_command(raw) {
        Ok(inner) => Ok(SpawnedShell { child: ShellChild { inner }, program, cwd }),
        Err(e) => Err(format!("{}", e)),
    }
}

/// Relies on `portable_pty::PtyPair`'s fields: keeps the master and drops
/// the slave, whose last copy is then the shell's own, so that reading the
/// master ends once the shell exits.
#[verifier::external_body]
fn keep_master(pty: OpenedPty) -> (r: PtyMasterEnd)
    ensures
        r.size == pty.size,
{
    PtyMasterEnd { raw: PtyMaster { inner: pty.pair.master }, size: pty.size }
}

/// Relies on `MasterPty::take_writer`: the input side of the master, which
/// has been handed nothing yet.
#[verifier::external_body]
fn take_master_writer(master: &PtyMasterEnd) -> (r: Result<PtyInput, String>)
    ensures
        r matches Ok(w) ==> w.accepted@ == Seq::<u8>::empty() && w.delivered@ == Seq::<u8>::empty(),
{
    match master.raw.inner.take_writer() {
        Ok(inner) => Ok(
            PtyInput {
                raw: PtyWriter { inner },
                accepted: Ghost(Seq::empty()),
                delivered: Ghost(Seq::empty()),
            },
        ),
        Err(e) => Err(format!("{}", e)),
    }
}

/// Relies on `MasterPty::try_clone_reader`: a readable clone of the master.
#[verifier::external_body]
fn clone_master_reader(master: &PtyMasterEnd) -> (r: Result<PtyReader, String>) {
    match master.raw.inner.try_clone_reader() {
        Ok(inner) => Ok(PtyReader { inner }),
        Err(e) => Err(format!("{}", e)),
    }
}

/// Relies on `MasterPty::resize`: on success the kernel reports `rows` by
/// `cols` (no pixel size) for the terminal.
#[verifier::external_body]
fn resize_master(master: &mut PtyMasterEnd, rows: u16, cols: u16) -> (r: Result<(), String>)
    ensures
        r is Ok ==> final(master).size@ == (rows, cols),
{
    let size = portable_pty::PtySize { rows, cols, pixel_width: 0, pixel_height: 0 };
    master.raw.inner.resize(size).map_err(|e| format!("{}", e))
}

/// Relies on `std::io::Write::write_all` on the PTY writer: on success all
/// of `data` has been accepted, after what was accepted before; it may still
/// sit in a buffer.
#[verifier::external_body]
fn writer_write_all(w: &mut PtyInput, data: &[u8]) -> (r: Result<(), String>)
    ensures
        r is Ok ==> final(w).accepted@ == old(w).accepted@ + data@,
        final(w).delivered == old(w).delivered,
{
    w.raw.inner.write_all(data).map_err(|e| format!("{}", e))
}

/// Relies on `std::io::Write::flush` on the PTY writer: on success all that
/// was accepted has reached its destination; it accepts no bytes of its own.
#[verifier::external_body]
fn writer_flush(w: &mut PtyInput) -> (r: Result<(), String>)
    ensures
        final(w).accepted == old(w).accepted,
        r is Ok ==> final(w).delivered == old(w).accepted,
{
    w.raw.inner.flush().map_err(|e| format!("{}", e))
}

/// Relies on `std::sync::mpsc::channel`: a connected sender and receiver.
#[verifier::external_body]
pub(crate) fn stop_channel() -> (r: (std::sync::mpsc::Sender<()>, std::sync::mpsc::Receiver<()>)) {
    std::sync::mpsc::channel::<()>()
}

/// Relies on `std::sync::mpsc::Sender::send`; a receiver that is gone
/// already is no failure here, so the outcome is dropped.
#[verifier::external_body]
pub(crate) fn send_stop(sender: std::sync::mpsc::Sender<()>) {
    let _ = sender.send(());
}

/// Relies on `portable_pty::Child::wait`: the exit status of the process.
#[verifier::external_body]
fn wait_child(child: &mut ShellChild) -> (r: Result<portable_pty::ExitStatus, String>) {
    child.inner.wait().map_err(|e| format!("{}", e))
}

/// Relies on `portable_pty::ExitStatus::exit_code`.
pub assume_specification[ portable_pty::ExitStatus::exit_code ](
    s: &portable_pty::ExitStatus,
) -> u32;

/// Rows and columns of a freshly opened terminal.
pub const DEFAULT_ROWS: u16 = 24;

pub const DEFAULT_COLS: u16 = 80;

/// Why an operation on the terminals failed.
pub enum TerminalError {
    /// An empty id, or a zero dimension.
    InvalidArgument(ArgumentProblem),
    /// A session with this id exists already.
    AlreadyExists(String),
    /// No session with this id: never created, destroyed, or exited.
    SessionNotFound(String),
    /// The PTY could not be opened, the shell could not be spawned, or the
    /// PTY's writer could not be taken: which step failed, and why.
    Spawn(SpawnStep, String),
    /// Writing, flushing, resizing or cloning a reader failed.
    Io(String),
    /// The lock around the registry could not be taken.
    Lock(String),
}

/// The step of creating a session that failed.
#[derive(PartialEq, Eq, Structural, Clone, Copy, Debug)]
pub enum SpawnStep {
    OpenPty,
    SpawnShell,
    TakeWriter,
}

/// What was wrong with an argument.
#[derive(PartialEq, Eq, Structural, Clone, Copy, Debug)]
pub enum ArgumentProblem {
    EmptyId,
    ZeroDimension { rows: u16, cols: u16 },
}

/// The kind of a `TerminalError`, without its text.
#[derive(PartialEq, Eq, Structural, Clone, Copy, Debug)]
pub enum ErrorKind {
    InvalidArgument,
    AlreadyExists,
    SessionNotFound,
    Spawn,
    Io,
    Lock,
}

pub open spec fn kind_of(e: TerminalError) -> ErrorKind {
    match e {
        TerminalError::InvalidArgument(_) => ErrorKind::InvalidArgument,
        TerminalError::AlreadyExists(_) => ErrorKind::AlreadyExists,
        TerminalError::SessionNotFound(_) => ErrorKind::SessionNotFound,
        TerminalError::Spawn(_, _) => ErrorKind::Spawn,
        TerminalError::Io(_) => ErrorKind::Io,
        TerminalError::Lock(_) => ErrorKind::Lock,
    }
}

/// A result with its error reduced to the error's kind.
pub open spec fn outcome<T>(r: Result<T, TerminalError>) -> Result<(), ErrorKind> {
    match r {
        Ok(_) => Ok(()),
        Err(e) => Err(kind_of(e)),
    }
}

impl TerminalError {
    pub fn kind(&self) -> (k: ErrorKind)
        ensures
            k == kind_of(*self),
    {
        match self {
            TerminalError::InvalidArgument(_) => ErrorKind::InvalidArgument,
            TerminalError::AlreadyExists(_) => ErrorKind::AlreadyExists,
            TerminalError::SessionNotFound(_) => ErrorKind::SessionNotFound,
            TerminalError::Spawn(_, _) => ErrorKind::Spawn,
            TerminalError::Io(_) => ErrorKind::Io,
            TerminalError::Lock(_) => ErrorKind::Lock,
        }
    }
}

/// The program a session runs: the one asked for, else the platform default.
pub open spec fn shell_program(shell: Option<String>, default_shell: Seq<char>) -> Seq<char> {
    match shell {
        Some(s) => s@,
        None => default_shell,
    }
}

/// A working directory as plain characters.
pub open spec fn dir_view(cwd: Option<String>) -> Option<Seq<char>> {
    match cwd {
        Some(d) => Some(d@),
        None => None,
    }
}

/// A command error that names a session names `id`.
pub open spec fn names_id<T>(r: Result<T, TerminalError>, id: Seq<char>) -> bool {
    match r {
        Err(TerminalError::AlreadyExists(e)) => e@ == id,
        Err(TerminalError::SessionNotFound(e)) => e@ == id,
        _ => true,
    }
}

/// What a session is, apart from its OS handles.
pub struct SessionView {
    /// The child handle has not been taken yet.
    pub child_present: bool,
    /// A stop signal for an output stream is installed and not fired.
    pub streaming: bool,
    /// The program the shell was spawned from.
    pub program: Seq<char>,
    /// The directory it was started in, if one was given.
    pub cwd: Option<Seq<char>>,
    /// The geometry last set on the PTY.
    pub rows: u16,
    pub cols: u16,
    /// Every byte handed to the PTY input so far.
    pub sent: Seq<u8>,
    /// All of them have been flushed to the PTY.
    pub flushed: bool,
}

/// A session as `TerminalSession::new` leaves it: its shell spawned from
/// `program` in `cwd`, a 24 by 80 PTY, nothing sent yet, no stream.
pub open spec fn fresh_session(program: Seq<char>, cwd: Option<Seq<char>>) -> SessionView {
    SessionView {
        child_present: true,
        streaming: false,
        program,
        cwd,
        rows: DEFAULT_ROWS,
        cols: DEFAULT_COLS,
        sent: Seq::empty(),
        flushed: true,
    }
}

/// A terminal session wrapping a pseudo-terminal. Once the shell is
/// spawned the session keeps the master side only.
pub struct TerminalSession {
    master: PtyMasterEnd,
    input: PtyInput,
    child: Option<ShellChild>,
    stop_signal: Option<std::sync::mpsc::Sender<()>>,
    program: Ghost<Seq<char>>,
    cwd: Ghost<Option<Seq<char>>>,
}

impl View for TerminalSession {
    type V = SessionView;

    closed spec fn view(&self) -> SessionView {
        SessionView {
            child_present: self.child.is_some(),
            streaming: self.stop_signal.is_some(),
            program: self.program@,
            cwd: self.cwd@,
            rows: self.master.size@.0,
            cols: self.master.size@.1,
            sent: self.input.accepted@,
            flushed: self.input.delivered@ == self.input.accepted@,
        }
    }
}

impl TerminalSession {
    /// Opens a PTY of the default geometry and spawns `shell`, or
    /// `default_shell` when none is given, on it, in `cwd` when one is given.
    /// On failure nothing opened is kept.
    pub fn new(shell: Option<String>, cwd: Option<String>, default_shell: String) -> (r: Result<
        Self,
        TerminalError,
    >)
        ensures
            r matches Ok(s) ==> s@ == fresh_session(shell_program(shell, default_shell@), dir_view(cwd)),
            r is Err ==> kind_of(r->Err_0) == ErrorKind::Spawn,
    {
        let pty = match open_pty(DEFAULT_ROWS, DEFAULT_COLS) {
            Ok(p) => p,
            Err(e) => {
                return Err(TerminalError::Spawn(SpawnStep::OpenPty, e));
            },
        };
        let program = match shell {
            Some(s) => s,
            None => default_shell,
        };
        let mut cmd = shell_command(&program);
        if let Some(dir) = cwd {
            set_command_dir(&mut cmd, &dir);
        }
        let spawned = match spawn_on_slave(&pty, cmd) {
            Ok(c) => c,
            Err(e) => {
                return Err(TerminalError::Spawn(SpawnStep::SpawnShell, e));
            },
        };
        let master = keep_master(pty);
        let input = match take_master_writer(&master) {
            Ok(w) => w,
            Err(e) => {
                return Err(TerminalError::Spawn(SpawnStep::TakeWriter, e));
            },
        };
        let SpawnedShell { child, program, cwd } = spawned;
        Ok(TerminalSession { master, input, child: Some(child), stop_signal: None, program, cwd })
    }

    /// Sends `data` to the shell and flushes at once. Empty data is a no-op.
    pub fn write(&mut self, data: &str) -> (r: Result<(), TerminalError>)
        ensures
            data@.len() == 0 ==> r is Ok,
            r is Ok && data@.len() > 0 ==> final(self)@ == (SessionView {
                sent: old(self)@.sent + encode_utf8(data@),
                flushed: true,
                ..old(self)@
            }),
            r is Ok && data@.len() == 0 ==> final(self)@ == old(self)@,
            r is Err ==> kind_of(r->Err_0) == ErrorKind::Io && final(self)@ == (SessionView {
                sent: final(self)@.sent,
                flushed: final(self)@.flushed,
                ..old(self)@
            }),
    {
        if data.is_empty() {
            return Ok(());
        }
        if let Err(e) = writer_write_all(&mut self.input, data.as_bytes()) {
            return Err(TerminalError::Io(e));
        }
        if let Err(e) = writer_flush(&mut self.input) {
            return Err(TerminalError::Io(e));
        }
        Ok(())
    }

    /// Sets the terminal's geometry.
    pub fn resize(&mut self, rows: u16, cols: u16) -> (r: Result<(), TerminalError>)
        requires
            rows > 0,
            cols > 0,
        ensures
            r is Ok ==> final(self)@ == (SessionView { rows, cols, ..old(self)@ }),
            r is Err ==> kind_of(r->Err_0) == ErrorKind::Io && final(self)@ == (SessionView {
                rows: final(self)@.rows,
                cols: final(self)@.cols,
                ..old(self)@
            }),
    {
        match resize_master(&mut self.master, rows, cols) {
            Ok(()) => Ok(()),
            Err(e) => Err(TerminalError::Io(e)),
        }
    }

    /// A readable clone of the PTY output, for one output stream.
    pub fn take_reader(&self) -> (r: Result<PtyReader, TerminalError>)
        ensures
            r is Err ==> kind_of(r->Err_0) == ErrorKind::Io,
    {
        match clone_master_reader(&self.master) {
            Ok(reader) => Ok(reader),
            Err(e) => Err(TerminalError::Io(e)),
        }
    }

    /// Installs the stop signal of the output stream.
    pub fn set_stop_signal(&mut self, sender: std::sync::mpsc::Sender<()>)
        ensures
            final(self)@ == (SessionView { streaming: true, ..old(self)@ }),
    {
        self.stop_signal = Some(sender);
    }

    /// Moves the child handle out; `None` once it has been taken.
    pub fn take_child(&mut self) -> (r: Option<ShellChild>)
        ensures
            r is Some == old(self)@.child_present,
            final(self)@ == (SessionView { child_present: false, ..old(self)@ }),
    {
        self.child.take()
    }

    /// Fires the stop signal, if one is installed; a second call does nothing.
    /// Returns whether a signal was fired.
    pub fn stop_reader(&mut self) -> (fired: bool)
        ensures
            fired == old(self)@.streaming,
            final(self)@ == (SessionView { streaming: false, ..old(self)@ }),
    {
        match self.stop_signal.take() {
            Some(sender) => {
                send_stop(sender);
                true
            },
            None => false,
        }
    }

    /// Releases the session: fires the stop signal, then drops the writer,
    /// the PTY master and any child handle not taken yet. Returns whether a
    /// stop signal was fired.
    pub fn release(self) -> (fired: bool)
        ensures
            fired == self@.streaming,
    {
        let mut s = self;
        s.stop_reader()
    }
}

/// Waits for the child and gives its exit code, or `None` if waiting failed.
pub fn wait_exit_code(child: &mut ShellChild) -> (r: Option<i32>) {
    match wait_child(child) {
        Ok(status) => Some(status.exit_code() as i32),
        Err(_) => None,
    }
}

} // verus!
