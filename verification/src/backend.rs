//! The boundary to the OS pseudo-terminal backend.
//!
//! Everything in this module is trusted: each function's body makes one call
//! into `portable_pty` (or into the `std::io` stream handles it hands out)
//! and its contract states no more than that crate's source shows.  All
//! session logic built on these calls lives in the verified modules.

use vstd::prelude::*;
use portable_pty::CommandBuilder;
use portable_pty::PtyPair;

verus! {

#[verifier::external_type_specification]
#[verifier::external_body]
pub struct ExPtyPair(PtyPair);

#[verifier::external_type_specification]
#[verifier::external_body]
pub struct ExCommandBuilder(CommandBuilder);

/// The byte sink into a session's input side.
///
/// Holds the `Box<dyn std::io::Write + Send>` that
/// `portable_pty::MasterPty::take_writer` returns; the trait-object type
/// itself cannot be declared to the verifier, so the handle is carried
/// opaquely and reached only through the wrappers below.
#[verifier::external_body]
pub struct PtyWriter {
    inner: Box<dyn std::io::Write + Send>,
}

/// The byte source carrying a session's output, held by the reader loop.
///
/// Opaque holder for the `Box<dyn std::io::Read + Send>` from
/// `portable_pty::MasterPty::try_clone_reader`.
#[verifier::external_body]
pub struct PtyReader {
    inner: Box<dyn std::io::Read + Send>,
}

/// The controlling side of a session's PTY, kept for live resizing.
///
/// Opaque holder for the `Box<dyn portable_pty::MasterPty + Send>` of an
/// opened pair.
#[verifier::external_body]
pub struct PtyMaster {
    inner: Box<dyn portable_pty::MasterPty + Send>,
}

/// The child process attached to a session's PTY, waited on by the reader
/// loop once the output stream has closed.
///
/// Opaque holder for the `Box<dyn portable_pty::Child + Send + Sync>` that
/// spawning returns.
#[verifier::external_body]
pub struct ChildProc {
    inner: Box<dyn portable_pty::Child + Send + Sync>,
}

/// The environment table a `CommandBuilder` will give its child: each key it
/// holds, mapped to the (lossily decoded) value that was set last.
pub uninterp spec fn cb_env(c: CommandBuilder) -> Map<Seq<char>, Seq<char>>;

/// The working directory a `CommandBuilder` will start its child in, if one
/// was set.
pub uninterp spec fn cb_cwd(c: CommandBuilder) -> Option<Seq<char>>;

/// The program a `CommandBuilder` will run: its argv[0].
pub uninterp spec fn cb_prog(c: CommandBuilder) -> Seq<char>;

/// The geometry a PTY pair was opened with, as (rows, columns).
pub uninterp spec fn pair_geometry(p: PtyPair) -> (u16, u16);

/// What `String::from_utf8_lossy` makes of a byte sequence: a function of
/// the bytes alone, with replacement characters for invalid sequences.
pub uninterp spec fn lossy_text_of(b: Seq<u8>) -> Seq<char>;

/// Relies on `native_pty_system` and `PtySystem::openpty`: allocates a PTY
/// pair with the given geometry, or reports why the OS refused.
#[verifier::external_body]
pub(crate) fn pty_open(rows: u16, cols: u16) -> (r: Result<PtyPair, String>)
    ensures
        r matches Ok(p) ==> pair_geometry(p) == (rows, cols),
{
    let system = portable_pty::native_pty_system();
    let size = portable_pty::PtySize { rows, cols, pixel_width: 0, pixel_height: 0 };
    system.openpty(size).map_err(|e| e.to_string())
}

/// Relies on `CommandBuilder::new`: argv[0] is the given program and no
/// working directory is set yet (its `cwd` field starts as `None`).
#[verifier::external_body]
pub(crate) fn cmd_new(program: &String) -> (c: CommandBuilder)
    ensures
        cb_prog(c) == program@,
        cb_cwd(c) is None,
{
    CommandBuilder::new(program.as_str())
}

/// Relies on `CommandBuilder::env`: on this platform the key is kept as-is
/// and the entry replaces any earlier value under the same key; the working
/// directory and the program are untouched.
#[verifier::external_body]
pub(crate) fn cmd_env(c: &mut CommandBuilder, key: &String, value: &String)
    ensures
        cb_env(*final(c)) == cb_env(*old(c)).insert(key@, value@),
        cb_cwd(*final(c)) == cb_cwd(*old(c)),
        cb_prog(*final(c)) == cb_prog(*old(c)),
{
    c.env(key.as_str(), value.as_str());
}

/// Relies on `CommandBuilder::cwd`: records the directory the child will
/// start in; the environment table and the program are untouched.
#[verifier::external_body]
pub(crate) fn cmd_cwd(c: &mut CommandBuilder, dir: &String)
    ensures
        cb_cwd(*final(c)) == Some(dir@),
        cb_env(*final(c)) == cb_env(*old(c)),
        cb_prog(*final(c)) == cb_prog(*old(c)),
{
    c.cwd(dir.as_str());
}

/// Relies on `CommandBuilder::get_env`: looks the key up in the builder's
/// environment table and hands back the stored value.
#[verifier::external_body]
pub(crate) fn cmd_get_env(c: &CommandBuilder, key: &String) -> (r: Option<String>)
    ensures
        r is Some <==> cb_env(*c).contains_key(key@),
        r matches Some(v) ==> v@ == cb_env(*c)[key@],
{
    c.get_env(key.as_str()).map(|v| v.to_string_lossy().into_owned())
}

/// Relies on `SlavePty::spawn_command`: starts the prepared command attached
/// to the subordinate side of the pair, or reports why it could not.
#[verifier::external_body]
pub(crate) fn spawn_child(pair: &PtyPair, cmd: CommandBuilder) -> (r: Result<ChildProc, String>) {
    pair.slave.spawn_command(cmd).map(|c| ChildProc { inner: c }).map_err(|e| e.to_string())
}

/// Relies on `MasterPty::try_clone_reader`: duplicates a readable handle on
/// the controlling side's output stream.
#[verifier::external_body]
pub(crate) fn clone_reader(pair: &PtyPair) -> (r: Result<PtyReader, String>) {
    pair.master.try_clone_reader().map(|h| PtyReader { inner: h }).map_err(|e| e.to_string())
}

/// Relies on `MasterPty::take_writer`: hands out the single writable handle
/// into the controlling side; valid at most once per pair.
#[verifier::external_body]
pub(crate) fn take_writer(pair: &PtyPair) -> (r: Result<PtyWriter, String>) {
    pair.master.take_writer().map(|h| PtyWriter { inner: h }).map_err(|e| e.to_string())
}

/// Keeps the controlling side of the pair and releases the subordinate side,
/// so the output stream can reach end-of-file once the child exits.
#[verifier::external_body]
pub(crate) fn into_master(pair: PtyPair) -> (m: PtyMaster) {
    PtyMaster { inner: pair.master }
}

/// Relies on `MasterPty::resize`: updates the kernel's window size for the
/// PTY and signals the child so it can notice the new geometry.
#[verifier::external_body]
pub(crate) fn resize_master(m: &PtyMaster, cols: u16, rows: u16) -> (r: Result<(), String>) {
    let size = portable_pty::PtySize { rows, cols, pixel_width: 0, pixel_height: 0 };
    m.inner.resize(size).map_err(|e| e.to_string())
}

/// Relies on `std::io::Write::write_all`: `Ok` means the entire buffer was
/// handed to the stream, in order.
#[verifier::external_body]
pub(crate) fn writer_write_all(w: &mut PtyWriter, data: &[u8]) -> (r: Result<(), String>) {
    w.inner.write_all(data).map_err(|e| e.to_string())
}

/// Relies on `std::io::Write::flush`: pushes buffered bytes through to the
/// stream.
#[verifier::external_body]
pub(crate) fn writer_flush(w: &mut PtyWriter) -> (r: Result<(), String>) {
    w.inner.flush().map_err(|e| e.to_string())
}

/// Relies on `std::io::Read::read`: blocks for the next bytes of output and
/// returns at most `max` of them; an empty result is end-of-stream.
#[verifier::external_body]
pub(crate) fn reader_read(rd: &mut PtyReader, max: usize) -> (r: Result<Vec<u8>, String>)
    ensures
        r matches Ok(v) ==> v@.len() <= max,
{
    let mut buf = vec![0u8; max];
    match rd.inner.read(&mut buf) {
        Ok(n) => {
            buf.truncate(n);
            Ok(buf)
        }
        Err(e) => Err(e.to_string()),
    }
}

/// Relies on `Child::wait` and `ExitStatus::exit_code`: blocks until the
/// child has terminated and reports the code it exited with.
#[verifier::external_body]
pub(crate) fn child_wait(c: &mut ChildProc) -> (r: Result<i32, String>) {
    c.inner.wait().map(|s| s.exit_code() as i32).map_err(|e| e.to_string())
}

/// Relies on `String::from_utf8_lossy`: decodes the bytes as UTF-8 text,
/// substituting replacement characters for invalid sequences, never failing;
/// the result depends on the bytes alone, and no bytes means no text.
#[verifier::external_body]
pub(crate) fn lossy_decode(b: &[u8]) -> (s: String)
    ensures
        s@ == lossy_text_of(b@),
        b@.len() == 0 ==> s@.len() == 0,
{
    String::from_utf8_lossy(b).into_owned()
}

} // verus!
