//! The client side of the pipe transport protocol: channel-name
//! sanitization, the pipe naming scheme, the `open` handshake with its
//! exact version match, the mode restrictions, and the framing decisions
//! of `read`.
//!
//! The unverified adapter owns the pipes and performs the reads and
//! writes; every decision about what the bytes mean, and every error
//! classification, is taken here.

use vstd::prelude::*;
use vstd::string::*;

use crate::config::{parse_config, parse_config_spec, CanServerConfig, ConfigView};
use crate::errors::CanError;
use crate::frame::CanFrame;
use crate::text::push_char;
use crate::wire::{decode_frame, decode_spec};

verus! {

/// What `char::is_alphanumeric` returns for a character.
pub uninterp spec fn is_alphanum(c: char) -> bool;

/// Relies on `char::is_alphanumeric`: whether the character is in one of
/// the Unicode letter or number categories; the result is a function of
/// the character alone.
#[verifier::external_body]
fn char_is_alphanumeric(c: char) -> (r: bool)
    ensures
        r == is_alphanum(c),
{
    c.is_alphanumeric()
}

/// A channel name with every non-alphanumeric character replaced by an
/// underscore; pipe names are built only from this form.
pub open spec fn sanitize_spec(s: Seq<char>) -> Seq<char> {
    s.map(|_i: int, c: char| if is_alphanum(c) { c } else { '_' })
}

/// Sanitizes a channel name for use inside a pipe name.
pub fn sanitize_channel(channel: &str) -> (r: String)
    ensures
        r@ == sanitize_spec(channel@),
{
    let n = channel.unicode_len();
    let mut out = String::new();
    let mut i: usize = 0;
    while i < n
        invariant
            n == channel@.len(),
            i <= n,
            out@ =~= sanitize_spec(channel@.subrange(0, i as int)),
        decreases n - i,
    {
        let c = channel.get_char(i);
        if char_is_alphanumeric(c) {
            push_char(&mut out, c);
        } else {
            push_char(&mut out, '_');
        }
        i = i + 1;
    }
    proof {
        assert(out@ =~= sanitize_spec(channel@));
    }
    out
}

/// The name of one of a channel's three pipes; the suffix names the
/// resource from the relay's side of the pipes.
pub open spec fn pipe_name_spec(channel: Seq<char>, suffix: Seq<char>) -> Seq<char> {
    "\\\\.\\pipe\\can_"@ + sanitize_spec(channel) + suffix
}

/// Builds one pipe name from the sanitized channel and a suffix.
fn pipe_name(channel: &str, suffix: &str) -> (r: String)
    ensures
        r@ == pipe_name_spec(channel@, suffix@),
{
    let mut s = String::from_str("\\\\.\\pipe\\can_");
    let san = sanitize_channel(channel);
    s.append(san.as_str());
    s.append(suffix);
    s
}

/// The pipe the caller reads frames from (the relay's `_out` pipe).
pub fn read_pipe_name(channel: &str) -> (r: String)
    ensures
        r@ == pipe_name_spec(channel@, "_out"@),
{
    pipe_name(channel, "_out")
}

/// The pipe the caller writes frames to (the relay's `_in` pipe).
pub fn write_pipe_name(channel: &str) -> (r: String)
    ensures
        r@ == pipe_name_spec(channel@, "_in"@),
{
    pipe_name(channel, "_in")
}

/// The pipe that delivers the one-shot configuration document.
pub fn config_pipe_name(channel: &str) -> (r: String)
    ensures
        r@ == pipe_name_spec(channel@, "_config_out"@),
{
    pipe_name(channel, "_config_out")
}

/// The direction(s) a channel handle was opened with; fixed at `open`
/// time.
#[derive(Clone, Copy, Debug, PartialEq, Eq, Structural)]
pub enum PipeMode {
    ReadOnly,
    WriteOnly,
    Duplex,
}

/// The mathematical state of one pipe channel: its mode and, once the
/// handshake has succeeded, the configuration captured at `open`.
#[verifier::ext_equal]
pub ghost struct PipeView {
    pub mode: PipeMode,
    pub config: Option<ConfigView>,
}

/// The protocol state of one pipe channel handle. It is created closed;
/// the `open` handshake feeds it the configuration document, and only a
/// successful exact version match moves it to the open state that the
/// read and write paths demand.
pub struct PipeProtocol {
    pub(crate) mode: PipeMode,
    pub(crate) config: Option<CanServerConfig>,
}

impl View for PipeProtocol {
    type V = PipeView;

    open(crate) spec fn view(&self) -> PipeView {
        PipeView {
            mode: self.mode,
            config: match self.config {
                Some(c) => Some(c@),
                None => None,
            },
        }
    }
}

impl PipeProtocol {
    /// A fresh, not yet opened protocol state for the given mode.
    pub fn new(mode: PipeMode) -> (r: Self)
        ensures
            r@.mode == mode,
            r@.config is None,
    {
        PipeProtocol { mode, config: None }
    }

    /// Steps the handshake with the bytes the config pipe delivered to
    /// end-of-stream: parses them as the configuration document and
    /// demands that the relay's version string equal `required` exactly.
    /// On any failure the handle stays closed, so frame I/O can never
    /// follow a rejected handshake.
    pub fn on_config(&mut self, bytes: &[u8], required: &str) -> (r: Result<(), CanError>)
        requires
            old(self)@.config is None,
        ensures
            final(self)@.mode == old(self)@.mode,
            match parse_config_spec(bytes@) {
                None => {
                    &&& r == Err::<(), CanError>(CanError::ProtocolError)
                    &&& final(self)@.config is None
                },
                Some(c) => if c.version == required@ {
                    &&& r is Ok
                    &&& final(self)@.config == Some(c)
                } else {
                    &&& final(self)@.config is None
                    &&& r matches Err(e) && e matches CanError::VersionMismatch {
                        found,
                        required: rq,
                    } && found@ == c.version && rq@ == required@
                },
            },
    {
        let cfg = match parse_config(bytes) {
            Ok(c) => c,
            Err(e) => {
                return Err(e);
            },
        };
        let req = String::from_str(required);
        if !cfg.version.eq(&req) {
            return Err(CanError::VersionMismatch { found: cfg.version, required: req });
        }
        self.config = Some(cfg);
        Ok(())
    }

    /// Whether this handle may start a read: it must be open and not
    /// write-only.
    pub fn begin_read(&self) -> (r: Result<(), CanError>)
        ensures
            r is Ok <==> (self@.mode != PipeMode::WriteOnly && self@.config is Some),
            r is Err ==> r == Err::<(), CanError>(CanError::InvalidOperation),
    {
        match self.mode {
            PipeMode::WriteOnly => Err(CanError::InvalidOperation),
            _ => if self.config.is_some() {
                Ok(())
            } else {
                Err(CanError::InvalidOperation)
            },
        }
    }

    /// Whether this handle may start a write: it must be open and not
    /// read-only.
    pub fn begin_write(&self) -> (r: Result<(), CanError>)
        ensures
            r is Ok <==> (self@.mode != PipeMode::ReadOnly && self@.config is Some),
            r is Err ==> r == Err::<(), CanError>(CanError::InvalidOperation),
    {
        match self.mode {
            PipeMode::ReadOnly => Err(CanError::InvalidOperation),
            _ => if self.config.is_some() {
                Ok(())
            } else {
                Err(CanError::InvalidOperation)
            },
        }
    }

    /// The bitrate captured from the configuration document at `open`;
    /// the relay is not asked again.
    pub fn bitrate(&self) -> (r: Result<Option<u32>, CanError>)
        ensures
            self@.config matches Some(c) ==> r == Ok::<Option<u32>, CanError>(c.bitrate),
            self@.config is None ==> r == Err::<Option<u32>, CanError>(CanError::InvalidOperation),
    {
        match &self.config {
            Some(c) => Ok(c.bitrate),
            None => Err(CanError::InvalidOperation),
        }
    }
}

/// What one exact-length pipe read yielded: the requested bytes, or
/// closure of the pipe before they all arrived.
pub enum ReadOutcome {
    Bytes(Vec<u8>),
    Closed,
}

/// The decision on the one-byte length-prefix read: pipe closure where
/// the byte was owed is `UnexpectedEof`; otherwise the prefix byte.
pub fn prefix_step(outcome: &ReadOutcome) -> (r: Result<u8, CanError>)
    requires
        outcome matches ReadOutcome::Bytes(v) ==> v@.len() == 1,
    ensures
        outcome is Closed ==> r == Err::<u8, CanError>(CanError::UnexpectedEof),
        outcome matches ReadOutcome::Bytes(v) ==> r == Ok::<u8, CanError>(v@[0]),
{
    match outcome {
        ReadOutcome::Closed => Err(CanError::UnexpectedEof),
        ReadOutcome::Bytes(v) => Ok(v[0]),
    }
}

/// The decision on the payload read that follows a length prefix: pipe
/// closure, or a prefix that owed no bytes at all, is `UnexpectedEof`;
/// otherwise the bytes must decode to a frame, and any byte string that
/// is not one frame's encoding is a `ProtocolError`, never a silent
/// skip.
pub fn payload_step(prefix: u8, outcome: &ReadOutcome) -> (r: Result<CanFrame, CanError>)
    requires
        outcome matches ReadOutcome::Bytes(v) ==> v@.len() == prefix as int,
    ensures
        outcome is Closed ==> r == Err::<CanFrame, CanError>(CanError::UnexpectedEof),
        prefix == 0 ==> r == Err::<CanFrame, CanError>(CanError::UnexpectedEof),
        outcome matches ReadOutcome::Bytes(v) ==> (prefix > 0 ==> match decode_spec(v@) {
            Some(f) => r matches Ok(g) && g@ == f && g.wf(),
            None => r == Err::<CanFrame, CanError>(CanError::ProtocolError),
        }),
{
    if prefix == 0 {
        return Err(CanError::UnexpectedEof);
    }
    match outcome {
        ReadOutcome::Closed => Err(CanError::UnexpectedEof),
        ReadOutcome::Bytes(v) => decode_frame(v.as_slice()),
    }
}

} // verus!
