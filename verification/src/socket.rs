//! The byte protocol of kickit's sockets: request bytes, reply framing and
//! error bytes. How the init answers each request is decided here too; the
//! sockets themselves are opened by the program around this library.

use vstd::prelude::*;
use vstd::string::*;
use crate::state::InitState;
use crate::init::power::Mode;
use crate::text::{opt_bytes, opt_str, strings, decimal, u64_to_decimal, le_bytes_u32, u32_to_le, join_seq, join_strs};

verus! {

/// Error bytes sent to the peer on the other end of the socket
#[derive(Copy, Clone, PartialEq, Eq, Debug, Structural)]
pub enum PeerError {
    Unknown,
    Internal,
    NotReadReady,
    NotWriteReady,
    IoRead,
    IoWrite,
    Unsupported,
    BadInput,
}

/// The declared `std::io::Error`, carried through `PeerError::errorize`
#[verifier::external_type_specification]
#[verifier::external_body]
pub struct ExIoError(std::io::Error);

/// Whether an `std::io::Error` is of kind `InvalidInput`, as its `kind`
/// method reports it
pub uninterp spec fn io_error_invalid_input(e: std::io::Error) -> bool;

/// Builds an `std::io::Error` of kind `InvalidInput` with `msg` as its payload
/// (`std::io::Error::new`); its `kind` is the one it was made with. What the
/// payload displays as is not stated.
#[verifier::external_body]
pub(crate) fn invalid_input_error(msg: String) -> (r: std::io::Error)
    ensures
        io_error_invalid_input(r),
{
    std::io::Error::new(std::io::ErrorKind::InvalidInput, msg)
}

impl PeerError {
    pub const IS_OK: u8 = 0xaf;
    /// Marker that this reply from socket is in fact an error
    pub const IS_ERROR: u8 = 0xee;

    pub open spec fn spec_byte(self) -> u8 {
        match self {
            PeerError::Unknown => 0xaa,
            PeerError::Internal => 0x0f,
            PeerError::NotReadReady => 0x3f,
            PeerError::NotWriteReady => 0xe6,
            PeerError::IoRead => 0xbb,
            PeerError::IoWrite => 0xcc,
            PeerError::Unsupported => 0xa0,
            PeerError::BadInput => 0xdc,
        }
    }

    /// The byte that stands for this error on the wire
    pub fn byte(self) -> (r: u8)
        ensures
            r == self.spec_byte(),
    {
        match self {
            PeerError::Unknown => 0xaa,
            PeerError::Internal => 0x0f,
            PeerError::NotReadReady => 0x3f,
            PeerError::NotWriteReady => 0xe6,
            PeerError::IoRead => 0xbb,
            PeerError::IoWrite => 0xcc,
            PeerError::Unsupported => 0xa0,
            PeerError::BadInput => 0xdc,
        }
    }

    /// Whether some error is sent as `b`
    pub open spec fn is_error_byte(b: u8) -> bool {
        exists|e: PeerError| e.spec_byte() == b
    }

    /// The error sent as `b`, if there is one
    pub open spec fn spec_errorize(b: u8) -> Option<PeerError> {
        if b == 0xaa {
            Some(PeerError::Unknown)
        } else if b == 0x0f {
            Some(PeerError::Internal)
        } else if b == 0x3f {
            Some(PeerError::NotReadReady)
        } else if b == 0xe6 {
            Some(PeerError::NotWriteReady)
        } else if b == 0xbb {
            Some(PeerError::IoRead)
        } else if b == 0xcc {
            Some(PeerError::IoWrite)
        } else if b == 0xa0 {
            Some(PeerError::Unsupported)
        } else if b == 0xdc {
            Some(PeerError::BadInput)
        } else {
            None
        }
    }

    pub open spec fn errorize_message(input: u8) -> Seq<char> {
        "Couldn't match "@ + decimal(input as int) + " to any valid error variant"@
    }

    /// The text of the error returned by `errorize` for a byte that is no error
    pub fn errorize_failure(input: u8) -> (r: String)
        ensures
            r@ == PeerError::errorize_message(input),
    {
        let mut m = String::from_str("Couldn't match ");
        let d = u64_to_decimal(input as u64);
        m.append(d.as_str());
        m.append(" to any valid error variant");
        m
    }

    /// Resolves the error variant from its byte
    ///
    /// # Errors
    ///
    /// * The byte stands for no `PeerError` variant (an error of kind
    ///   `InvalidInput`)
    pub fn errorize(input: u8) -> (r: Result<PeerError, std::io::Error>)
        ensures
            r is Ok <==> PeerError::spec_errorize(input) is Some,
            r matches Ok(e) ==> Some(e) == PeerError::spec_errorize(input) && e.spec_byte() == input,
            r matches Err(e) ==> io_error_invalid_input(e),
    {
        if input == 0xaa {
            Ok(PeerError::Unknown)
        } else if input == 0x0f {
            Ok(PeerError::Internal)
        } else if input == 0x3f {
            Ok(PeerError::NotReadReady)
        } else if input == 0xe6 {
            Ok(PeerError::NotWriteReady)
        } else if input == 0xbb {
            Ok(PeerError::IoRead)
        } else if input == 0xcc {
            Ok(PeerError::IoWrite)
        } else if input == 0xa0 {
            Ok(PeerError::Unsupported)
        } else if input == 0xdc {
            Ok(PeerError::BadInput)
        } else {
            Err(invalid_input_error(PeerError::errorize_failure(input)))
        }
    }

    pub open spec fn spec_message(self) -> Seq<char> {
        match self {
            PeerError::Unknown => "An unknown input/output error occurred on socket"@,
            PeerError::Internal => "init experienced an internal error while preparing response"@,
            PeerError::NotReadReady => "Socket's stream is not readable"@,
            PeerError::NotWriteReady => "Socket's stream is not writable"@,
            PeerError::IoRead => "Failed to read peer's request on socket"@,
            PeerError::IoWrite => "Failed to write response to peer"@,
            PeerError::Unsupported => "This operation is unsupported in the current environment"@,
            PeerError::BadInput => "Invalid input request provided"@,
        }
    }

    /// The error's description, as it is displayed
    pub fn message(self) -> (r: &'static str)
        ensures
            r@ == self.spec_message(),
    {
        match self {
            PeerError::Unknown => "An unknown input/output error occurred on socket",
            PeerError::Internal => "init experienced an internal error while preparing response",
            PeerError::NotReadReady => "Socket's stream is not readable",
            PeerError::NotWriteReady => "Socket's stream is not writable",
            PeerError::IoRead => "Failed to read peer's request on socket",
            PeerError::IoWrite => "Failed to write response to peer",
            PeerError::Unsupported => "This operation is unsupported in the current environment",
            PeerError::BadInput => "Invalid input request provided",
        }
    }
}

impl Default for PeerError {
    fn default() -> (r: PeerError)
        ensures
            r == PeerError::Unknown,
    {
        PeerError::Unknown
    }
}

/// Provides init state, version, target & PID
#[derive(PartialEq, Eq, Copy, Clone, Default, Debug)]
pub struct Core;

/// Provides the init's master log - not service logs
#[derive(PartialEq, Eq, Copy, Clone, Default, Debug)]
pub struct Log;

/// Interface for rebooting & shutting down
#[derive(PartialEq, Eq, Copy, Clone, Default, Debug)]
pub struct Power;

impl Core {
    pub const STATE: u8 = 0xf9;
    pub const VERSION: u8 = 0xc4;
    pub const TARGET: u8 = 0xa0;
    pub const PID: u8 = 0xf1;
}

impl Log {
    /// The init master log
    pub const MASTER: u8 = 0xf5;
}

impl Power {
    pub const SHUTDOWN: u8 = 0xe0;
    pub const REBOOT: u8 = 0xd7;
    pub const FORCE_SHUTDOWN: u8 = 0xfd;
    pub const FORCE_REBOOT: u8 = 0xe3;
}

/// Where a socket of the given name lives: `/run/kickit/private/io.NAME` when it
/// is root-only, `/run/kickit/io.NAME` otherwise
pub open spec fn spec_socket_path(name: Seq<char>, private: bool) -> Seq<char> {
    if private {
        "/run/kickit/private/io."@ + name
    } else {
        "/run/kickit/io."@ + name
    }
}

pub fn socket_path(name: &str, private: bool) -> (r: String)
    ensures
        r@ == spec_socket_path(name@, private),
{
    let mut p = if private {
        String::from_str("/run/kickit/private/io.")
    } else {
        String::from_str("/run/kickit/io.")
    };
    p.append(name);
    p
}

/// The file mode a socket is given: root-only sockets are 0o600, others 0o666
pub fn socket_mode(private: bool) -> (r: u32)
    ensures
        r == (if private { 0o600u32 } else { 0o666u32 }),
{
    if private {
        0o600
    } else {
        0o666
    }
}

/// The sockets of kickit: a name, whether only root may use it, and how many
/// connections may wait on it
pub trait Socket {
    /// The socket's name in the run directory, as a sequence
    spec fn spec_name(&self) -> Seq<char>;

    /// Whether only root may use the socket
    spec fn spec_private(&self) -> bool;

    /// The name of the socket in the run directory
    fn name(&self) -> (r: &'static str)
        ensures
            r@ == self.spec_name(),
    ;

    /// Whether only root may use the socket
    fn private(&self) -> (r: bool)
        ensures
            r == self.spec_private(),
    ;

    /// The socket's path
    fn path(&self) -> (r: String)
        ensures
            r@ == spec_socket_path(self.spec_name(), self.spec_private()),
    {
        socket_path(self.name(), self.private())
    }

    /// Max amount of waiting connections on this socket at a time
    fn max_listeners(&self) -> (r: u32)
        ensures
            r == 1,
    {
        1
    }
}

impl Socket for Core {
    open spec fn spec_name(&self) -> Seq<char> {
        "Core"@
    }

    open spec fn spec_private(&self) -> bool {
        false
    }

    fn name(&self) -> (r: &'static str)
        ensures
            r@ == "Core"@,
    {
        "Core"
    }

    /// All users may use this socket as it reports no private data
    fn private(&self) -> (r: bool)
        ensures
            r == false,
    {
        false
    }
}

impl Socket for Log {
    open spec fn spec_name(&self) -> Seq<char> {
        "Log"@
    }

    open spec fn spec_private(&self) -> bool {
        true
    }

    fn name(&self) -> (r: &'static str)
        ensures
            r@ == "Log"@,
    {
        "Log"
    }

    fn private(&self) -> (r: bool)
        ensures
            r == true,
    {
        true
    }
}

impl Socket for Power {
    open spec fn spec_name(&self) -> Seq<char> {
        "Power"@
    }

    open spec fn spec_private(&self) -> bool {
        true
    }

    fn name(&self) -> (r: &'static str)
        ensures
            r@ == "Power"@,
    {
        "Power"
    }

    fn private(&self) -> (r: bool)
        ensures
            r == true,
    {
        true
    }
}

// ---------------------------------------------------------------------------
// Reply framing

/// A successful reply: the OK marker, then the payload
pub open spec fn ok_reply(payload: Seq<u8>) -> Seq<u8> {
    seq![PeerError::IS_OK] + payload
}

/// A failed reply: the error marker, then the error's byte
pub open spec fn err_reply(e: PeerError) -> Seq<u8> {
    seq![PeerError::IS_ERROR, e.spec_byte()]
}

pub fn relay_ok(payload: &[u8]) -> (r: Vec<u8>)
    ensures
        r@ == ok_reply(payload@),
{
    let mut r: Vec<u8> = Vec::new();
    r.push(PeerError::IS_OK);
    let mut i: usize = 0;
    while i < payload.len()
        invariant
            0 <= i <= payload.len(),
            r@ == seq![PeerError::IS_OK] + payload@.take(i as int),
        decreases payload.len() - i,
    {
        r.push(payload[i]);
        proof {
            assert(payload@.take(i + 1) =~= payload@.take(i as int).push(payload@[i as int]));
        }
        i = i + 1;
    }
    proof {
        assert(payload@.take(i as int) =~= payload@);
    }
    r
}

pub fn relay_err(e: PeerError) -> (r: Vec<u8>)
    ensures
        r@ == err_reply(e),
{
    let mut r: Vec<u8> = Vec::new();
    r.push(PeerError::IS_ERROR);
    r.push(e.byte());
    assert(r@ =~= err_reply(e));
    r
}

/// `bytes` followed by a line feed
pub open spec fn with_newline(text: Seq<char>) -> Seq<u8> {
    text_bytes(text).push(10u8)
}

pub open spec fn text_bytes(text: Seq<char>) -> Seq<u8> {
    vstd::utf8::encode_utf8(text)
}

pub fn str_bytes_newline(s: &str) -> (r: Vec<u8>)
    ensures
        r@ == with_newline(s@),
{
    let mut v = s.as_bytes_vec();
    v.push(10u8);
    v
}

/// What the core socket answers to one request byte: `None` when the request is
/// ignored (a line feed), otherwise the reply's bytes.
pub open spec fn spec_core_reply(
    input: u8,
    state: InitState,
    version: Seq<char>,
    target: Option<Seq<char>>,
    pid: Option<Option<u32>>,
) -> Option<Seq<u8>> {
    if input == Core::STATE {
        Some(ok_reply(seq![state.spec_byte()]))
    } else if input == Core::VERSION {
        Some(ok_reply(with_newline(version)))
    } else if input == Core::TARGET {
        match target {
            Some(name) => Some(ok_reply(with_newline(name))),
            None => Some(err_reply(PeerError::Internal)),
        }
    } else if input == Core::PID {
        match pid {
            Some(p) => Some(
                ok_reply(
                    le_bytes_u32(
                        match p {
                            Some(x) => x,
                            None => 1u32,
                        },
                    ),
                ),
            ),
            None => Some(err_reply(PeerError::Internal)),
        }
    } else if input == 10u8 {
        None
    } else {
        Some(err_reply(PeerError::BadInput))
    }
}

/// The core socket's answer to a request byte, given the init's state, version,
/// loaded target and PID setting (`Some(None)` when kickit is the init process,
/// which reports as PID 1; `None` when the setting is not known).
pub fn core_reply(
    input: u8,
    state: InitState,
    version: &str,
    target: Option<&str>,
    pid: Option<Option<u32>>,
) -> (r: Option<Vec<u8>>)
    ensures
        opt_bytes(r) == spec_core_reply(
            input,
            state,
            version@,
            opt_str(target),
            pid,
        ),
{
    if input == Core::STATE {
        let b: [u8; 1] = [state.byte()];
        let r = relay_ok(&b);
        assert(b@ =~= seq![state.spec_byte()]);
        Some(r)
    } else if input == Core::VERSION {
        let v = str_bytes_newline(version);
        Some(relay_ok(v.as_slice()))
    } else if input == Core::TARGET {
        match target {
            Some(name) => {
                let v = str_bytes_newline(name);
                Some(relay_ok(v.as_slice()))
            },
            None => Some(relay_err(PeerError::Internal)),
        }
    } else if input == Core::PID {
        match pid {
            Some(p) => {
                let n = match p {
                    Some(x) => x,
                    None => 1u32,
                };
                let v = u32_to_le(n);
                Some(relay_ok(v.as_slice()))
            },
            None => Some(relay_err(PeerError::Internal)),
        }
    } else if input == 10u8 {
        None
    } else {
        Some(relay_err(PeerError::BadInput))
    }
}

/// What the log socket answers: the master log's lines joined by line feeds,
/// when the request is the master-log byte and the log could be read
pub open spec fn spec_log_reply(input: u8, log: Option<Seq<Seq<char>>>) -> Seq<u8> {
    if input == Log::MASTER && log is Some {
        ok_reply(text_bytes(join_seq(log->0, "\n"@)))
    } else {
        err_reply(PeerError::Internal)
    }
}

pub fn log_reply(input: u8, log: Option<&Vec<String>>) -> (r: Vec<u8>)
    ensures
        r@ == spec_log_reply(
            input,
            match log {
                Some(l) => Some(strings(l@)),
                None => None,
            },
        ),
{
    if input == Log::MASTER {
        match log {
            Some(lines) => {
                let joined = join_strs(lines.as_slice(), "\n");
                let b = joined.as_str().as_bytes_vec();
                relay_ok(b.as_slice())
            },
            None => relay_err(PeerError::Internal),
        }
    } else {
        relay_err(PeerError::Internal)
    }
}

/// What the power socket is asked to do
#[derive(PartialEq, Eq, Clone, Debug)]
pub enum PowerAction {
    /// Stop services, unmount filesystems, then power off or reboot
    Poweroff(Mode),
    /// Power off or reboot at once, skipping the safe procedure
    ForcePoweroff(Mode),
    /// Refuse a forced power-off: kickit is not the init process; warn with the
    /// message and reply with the bytes
    Refuse(String, Vec<u8>),
    /// Reply with these bytes and do nothing else
    Reply(Vec<u8>),
}

pub open spec fn force_refusal(reboot: bool) -> Seq<char> {
    if reboot {
        "Force reboot is not supported when kickit is not ran as the init process!"@
    } else {
        "Force shutdown is not supported when kickit is not ran as the init process!"@
    }
}

/// What the power socket is asked to do, with its texts and bytes as sequences
pub enum PowerActionView {
    Poweroff(Mode),
    ForcePoweroff(Mode),
    Refuse(Seq<char>, Seq<u8>),
    Reply(Seq<u8>),
}

impl View for PowerAction {
    type V = PowerActionView;

    open spec fn view(&self) -> PowerActionView {
        match self {
            PowerAction::Poweroff(m) => PowerActionView::Poweroff(*m),
            PowerAction::ForcePoweroff(m) => PowerActionView::ForcePoweroff(*m),
            PowerAction::Refuse(s, b) => PowerActionView::Refuse(s@, b@),
            PowerAction::Reply(b) => PowerActionView::Reply(b@),
        }
    }
}

pub open spec fn spec_power_action(input: u8, pid: Option<Option<u32>>) -> PowerActionView {
    let as_init = pid == Some(None::<u32>);
    if input == Power::SHUTDOWN {
        PowerActionView::Poweroff(Mode::Shutdown)
    } else if input == Power::REBOOT {
        PowerActionView::Poweroff(Mode::Reboot)
    } else if input == Power::FORCE_SHUTDOWN {
        if as_init {
            PowerActionView::ForcePoweroff(Mode::Shutdown)
        } else {
            PowerActionView::Refuse(force_refusal(false), err_reply(PeerError::Unsupported))
        }
    } else if input == Power::FORCE_REBOOT {
        if as_init {
            PowerActionView::ForcePoweroff(Mode::Reboot)
        } else {
            PowerActionView::Refuse(force_refusal(true), err_reply(PeerError::Unsupported))
        }
    } else {
        PowerActionView::Reply(err_reply(PeerError::BadInput))
    }
}

/// The power socket's decision for a request byte, given the PID setting
/// (`Some(None)` exactly when kickit runs as the init process)
pub fn power_action(input: u8, pid: Option<Option<u32>>) -> (r: PowerAction)
    ensures
        r@ == spec_power_action(input, pid),
{
    let as_init = match pid {
        Some(None) => true,
        _ => false,
    };
    if input == Power::SHUTDOWN {
        PowerAction::Poweroff(Mode::Shutdown)
    } else if input == Power::REBOOT {
        PowerAction::Poweroff(Mode::Reboot)
    } else if input == Power::FORCE_SHUTDOWN {
        if as_init {
            PowerAction::ForcePoweroff(Mode::Shutdown)
        } else {
            PowerAction::Refuse(
                String::from_str(
                    "Force shutdown is not supported when kickit is not ran as the init process!",
                ),
                relay_err(PeerError::Unsupported),
            )
        }
    } else if input == Power::FORCE_REBOOT {
        if as_init {
            PowerAction::ForcePoweroff(Mode::Reboot)
        } else {
            PowerAction::Refuse(
                String::from_str(
                    "Force reboot is not supported when kickit is not ran as the init process!",
                ),
                relay_err(PeerError::Unsupported),
            )
        }
    } else {
        PowerAction::Reply(relay_err(PeerError::BadInput))
    }
}

/// Distinct errors are sent as distinct bytes, and `errorize` reads each back.
pub proof fn law_peer_error_byte_roundtrip(e: PeerError)
    ensures
        PeerError::spec_errorize(e.spec_byte()) == Some(e),
        e.spec_byte() != PeerError::IS_OK,
        e.spec_byte() != PeerError::IS_ERROR,
{
}

/// A power request is carried out in the mode it names: of the bytes that
/// make the init power off, the shutdown bytes (`0xe0`, forced `0xfd`) shut
/// the machine down and the reboot bytes (`0xd7`, forced `0xe3`) reboot it.
/// The safe procedure answers the plain bytes, the immediate one answers the
/// forced bytes and only when kickit runs as the init process, and no other
/// byte powers off at all.
pub proof fn law_power_mode_follows_request(input: u8, pid: Option<Option<u32>>)
    ensures
        spec_power_action(input, pid) matches PowerActionView::Poweroff(m) ==> (input == 0xe0u8
            && m == Mode::Shutdown) || (input == 0xd7u8 && m == Mode::Reboot),
        spec_power_action(input, pid) matches PowerActionView::ForcePoweroff(m) ==> pid == Some(
            None::<u32>,
        ) && ((input == 0xfdu8 && m == Mode::Shutdown) || (input == 0xe3u8 && m == Mode::Reboot)),
        input == 0xe0u8 ==> spec_power_action(input, pid) == PowerActionView::Poweroff(Mode::Shutdown),
        input == 0xd7u8 ==> spec_power_action(input, pid) == PowerActionView::Poweroff(Mode::Reboot),
        (input == 0xfdu8 && pid == Some(None::<u32>)) ==> spec_power_action(input, pid)
            == PowerActionView::ForcePoweroff(Mode::Shutdown),
        (input == 0xe3u8 && pid == Some(None::<u32>)) ==> spec_power_action(input, pid)
            == PowerActionView::ForcePoweroff(Mode::Reboot),
{
}

} // verus!
