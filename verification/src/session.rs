//! The decisions of session establishment: how long a connection attempt may
//! take and whether another one follows, and what the bytes of the remote's
//! answer to a session request amount to.
//!
//! Nothing here touches a socket or a clock. The caller makes the attempt it
//! is told to make, reads the byte it is told to read, and comes back with
//! what happened.

use vstd::prelude::*;
use vstd::string::*;

verus! {

/// A span of time in nanoseconds.
pub type Nanos = u128;

/// Into how many slices the budget of a direct connection is cut.
pub const CONNECT_SLICES: u128 = 4;

/// An attempt to make: one that is given up after `limit`, or one that
/// takes as long as it takes.
#[derive(Clone, Copy, Debug, PartialEq, Eq, Structural)]
pub enum Attempt {
    Bounded { limit: Nanos },
    Unbounded,
}

/// How an attempt ended.
#[derive(Clone, Copy, Debug, PartialEq, Eq, Structural)]
pub enum Outcome {
    Succeeded,
    Failed,
    /// The attempt was given up at its limit.
    TimedOut,
}

/// What follows an attempt.
#[derive(Clone, Copy, Debug, PartialEq, Eq, Structural)]
pub enum Verdict {
    /// The attempt's result stands.
    Done,
    /// Another attempt is to be made.
    Retry,
    /// The attempt's error is the error of the whole.
    GiveUp,
}

/// Whether a budget is one to keep: it is set and not zero.
pub open spec fn has_budget(budget: Option<Nanos>) -> bool {
    budget matches Some(b) && b != 0
}

/// The next attempt of a direct connection. Without a budget: an unbounded
/// one. With a budget: one bounded by a quarter of the budget as long as the
/// time spent so far does not exceed the budget; after that, an unbounded
/// one.
pub open spec fn spec_connect_attempt(budget: Option<Nanos>, elapsed: Nanos) -> Attempt {
    match budget {
        Some(b) => if b != 0 && elapsed <= b {
            Attempt::Bounded { limit: b / CONNECT_SLICES }
        } else {
            Attempt::Unbounded
        },
        None => Attempt::Unbounded,
    }
}

/// The next attempt of a direct connection, `elapsed` being the time spent
/// on connecting so far.
pub fn connect_attempt(budget: Option<Nanos>, elapsed: Nanos) -> (attempt: Attempt)
    ensures
        attempt == spec_connect_attempt(budget, elapsed),
{
    match budget {
        Some(b) => if b != 0 && elapsed <= b {
            Attempt::Bounded { limit: b / CONNECT_SLICES }
        } else {
            Attempt::Unbounded
        },
        None => Attempt::Unbounded,
    }
}

/// The next attempt where a single bounded attempt is followed by an
/// unbounded one: the first attempt is bounded by the timeout, where one is
/// set and not zero; every other attempt is unbounded.
pub open spec fn spec_fallback_attempt(timeout: Option<Nanos>, attempts_made: u32) -> Attempt {
    match timeout {
        Some(t) => if t != 0 && attempts_made == 0 {
            Attempt::Bounded { limit: t }
        } else {
            Attempt::Unbounded
        },
        None => Attempt::Unbounded,
    }
}

/// The next attempt where a single bounded attempt is followed by an
/// unbounded one. It has two uses, which differ in what follows the bounded
/// attempt. The connection to a proxy is made so under a connect timeout:
/// there [`verdict`] decides, and an error leads to the second attempt as a
/// timeout does. A session is started so under an attach timeout: there
/// [`session_verdict`] decides, and only a timeout leads to the second
/// attempt.
pub fn fallback_attempt(timeout: Option<Nanos>, attempts_made: u32) -> (attempt: Attempt)
    ensures
        attempt == spec_fallback_attempt(timeout, attempts_made),
{
    match timeout {
        Some(t) => if t != 0 && attempts_made == 0 {
            Attempt::Bounded { limit: t }
        } else {
            Attempt::Unbounded
        },
        None => Attempt::Unbounded,
    }
}

/// What follows an attempt to connect: success stands; a bounded attempt
/// that did not succeed, by an error or by its limit, is followed by another
/// attempt; an unbounded attempt that did not succeed ends the whole with its
/// error.
pub open spec fn spec_verdict(attempt: Attempt, outcome: Outcome) -> Verdict {
    match outcome {
        Outcome::Succeeded => Verdict::Done,
        _ => match attempt {
            Attempt::Bounded { .. } => Verdict::Retry,
            Attempt::Unbounded => Verdict::GiveUp,
        },
    }
}

/// What follows an attempt to connect.
pub fn verdict(attempt: Attempt, outcome: Outcome) -> (v: Verdict)
    ensures
        v == spec_verdict(attempt, outcome),
{
    match outcome {
        Outcome::Succeeded => Verdict::Done,
        _ => match attempt {
            Attempt::Bounded { .. } => Verdict::Retry,
            Attempt::Unbounded => Verdict::GiveUp,
        },
    }
}

/// What follows an attempt to start a session, which is to connect and to
/// shake hands: success stands; a bounded attempt that was given up at its
/// limit is followed by another attempt; an attempt that ended with an error
/// ends the whole with that error, bounded or not.
pub open spec fn spec_session_verdict(attempt: Attempt, outcome: Outcome) -> Verdict {
    match (outcome, attempt) {
        (Outcome::Succeeded, _) => Verdict::Done,
        (Outcome::TimedOut, Attempt::Bounded { .. }) => Verdict::Retry,
        _ => Verdict::GiveUp,
    }
}

/// What follows an attempt to start a session.
pub fn session_verdict(attempt: Attempt, outcome: Outcome) -> (v: Verdict)
    ensures
        v == spec_session_verdict(attempt, outcome),
{
    match outcome {
        Outcome::Succeeded => Verdict::Done,
        Outcome::TimedOut => match attempt {
            Attempt::Bounded { .. } => Verdict::Retry,
            Attempt::Unbounded => Verdict::GiveUp,
        },
        Outcome::Failed => Verdict::GiveUp,
    }
}

/// The slices of a direct connection's budget fit into the budget, and one
/// more would not.
pub proof fn lemma_slices_fit(budget: Nanos)
    ensures
        CONNECT_SLICES * (budget / CONNECT_SLICES) <= budget,
        budget < CONNECT_SLICES * (budget / CONNECT_SLICES + 1),
{
}

/// A direct connection is retried only within its budget: once the time
/// spent exceeds the budget, or where there is no budget, the attempt is
/// unbounded and its outcome is final.
pub proof fn lemma_connect_ends(budget: Option<Nanos>, elapsed: Nanos, outcome: Outcome)
    requires
        !has_budget(budget) || elapsed > budget->0,
    ensures
        spec_connect_attempt(budget, elapsed) == Attempt::Unbounded,
        spec_verdict(spec_connect_attempt(budget, elapsed), outcome) != Verdict::Retry,
{
}

/// Under a timeout with a fallback at most two attempts are made, to connect
/// as well as to start a session: the second attempt is unbounded and its
/// outcome is final.
pub proof fn lemma_fallback_ends(timeout: Option<Nanos>, attempts_made: u32, outcome: Outcome)
    requires
        attempts_made >= 1,
    ensures
        spec_fallback_attempt(timeout, attempts_made) == Attempt::Unbounded,
        spec_verdict(spec_fallback_attempt(timeout, attempts_made), outcome) != Verdict::Retry,
        spec_session_verdict(spec_fallback_attempt(timeout, attempts_made), outcome)
            != Verdict::Retry,
{
}

/// An error in the start of a session is final, whichever attempt it ends:
/// only the limit of the first attempt leads to a second one. So the message
/// of a remote that refuses the session within the attach timeout is the
/// error of the whole.
pub proof fn lemma_session_error_is_final(timeout: Option<Nanos>, attempts_made: u32)
    ensures
        spec_session_verdict(spec_fallback_attempt(timeout, attempts_made), Outcome::Failed)
            == Verdict::GiveUp,
        spec_session_verdict(spec_fallback_attempt(timeout, attempts_made), Outcome::TimedOut)
            == Verdict::Retry <==> has_budget(timeout) && attempts_made == 0,
{
}

/// The remote's answer to a session request.
#[derive(Debug, PartialEq, Eq)]
pub enum SessionStatus {
    /// The session has started; this is its id.
    Started(String),
    /// The session was refused; this is the remote's message.
    Error(String),
}

/// What a [`SessionStatus`] stands for.
pub ghost enum SessionStatusView {
    Started(Seq<char>),
    Error(Seq<char>),
}

impl View for SessionStatus {
    type V = SessionStatusView;

    open spec fn view(&self) -> SessionStatusView {
        match self {
            SessionStatus::Started(id) => SessionStatusView::Started(id@),
            SessionStatus::Error(message) => SessionStatusView::Error(message@),
        }
    }
}

impl DeepView for SessionStatus {
    type V = SessionStatusView;

    open spec fn deep_view(&self) -> SessionStatusView {
        self@
    }
}

/// Where the handshake stands.
#[derive(Debug, PartialEq, Eq)]
pub enum HandshakeStep {
    /// The answer is not complete: read another byte.
    ReadMore,
    /// The session has started: the socket carries the trace from here on.
    Established { session_id: String },
    /// The session was refused, with the remote's message as it came.
    Rejected { message: String },
}

/// What a [`HandshakeStep`] stands for.
pub ghost enum HandshakeStepView {
    ReadMore,
    Established { session_id: Seq<char> },
    Rejected { message: Seq<char> },
}

impl View for HandshakeStep {
    type V = HandshakeStepView;

    open spec fn view(&self) -> HandshakeStepView {
        match self {
            HandshakeStep::ReadMore => HandshakeStepView::ReadMore,
            HandshakeStep::Established { session_id } => HandshakeStepView::Established {
                session_id: session_id@,
            },
            HandshakeStep::Rejected { message } => HandshakeStepView::Rejected {
                message: message@,
            },
        }
    }
}

/// What a parse of the bytes read so far amounts to: without a status,
/// another byte is needed; with one, the handshake is over.
pub open spec fn resolved(parsed: Option<SessionStatusView>) -> HandshakeStepView {
    match parsed {
        None => HandshakeStepView::ReadMore,
        Some(SessionStatusView::Started(session_id)) => HandshakeStepView::Established {
            session_id,
        },
        Some(SessionStatusView::Error(message)) => HandshakeStepView::Rejected { message },
    }
}

/// The answer of the remote as far as it has been read.
///
/// The answer is a JSON document without a length in front of it and without
/// a terminator behind it. So it is read byte by byte, and after each byte
/// the caller tries to parse all that was read.
pub struct Handshake {
    buffer: Vec<u8>,
}

impl View for Handshake {
    type V = Seq<u8>;

    closed spec fn view(&self) -> Seq<u8> {
        self.buffer@
    }
}

impl Handshake {
    /// A handshake of which nothing has been read.
    pub fn new() -> (h: Handshake)
        ensures
            h@ == Seq::<u8>::empty(),
    {
        Handshake { buffer: Vec::new() }
    }

    /// Takes the next byte of the answer.
    pub fn push(&mut self, byte: u8)
        ensures
            final(self)@ == old(self)@.push(byte),
    {
        self.buffer.push(byte);
    }

    /// The bytes read so far, for the caller to parse.
    pub fn bytes(&self) -> (bytes: &Vec<u8>)
        ensures
            bytes@ == self@,
    {
        &self.buffer
    }

    /// What a parse of the bytes read so far amounts to.
    pub fn resolve(parsed: Option<SessionStatus>) -> (step: HandshakeStep)
        ensures
            step@ == resolved(parsed.deep_view()),
    {
        match parsed {
            None => HandshakeStep::ReadMore,
            Some(SessionStatus::Started(session_id)) => HandshakeStep::Established { session_id },
            Some(SessionStatus::Error(message)) => HandshakeStep::Rejected { message },
        }
    }
}

/// Where a handshake stands after the first `n` bytes of an answer, `parse`
/// being what a parse makes of a run of bytes: at the first prefix that
/// parses the handshake is over, and what follows is not read.
pub open spec fn handshake_after(
    answer: Seq<u8>,
    parse: spec_fn(Seq<u8>) -> Option<SessionStatusView>,
    n: nat,
) -> HandshakeStepView
    decreases n,
{
    if n == 0 {
        HandshakeStepView::ReadMore
    } else {
        match handshake_after(answer, parse, (n - 1) as nat) {
            HandshakeStepView::ReadMore => resolved(parse(answer.take(n as int))),
            over => over,
        }
    }
}

/// A handshake asks for more exactly as long as no prefix of the answer has
/// parsed.
pub proof fn lemma_handshake_reads_on(
    answer: Seq<u8>,
    parse: spec_fn(Seq<u8>) -> Option<SessionStatusView>,
    n: nat,
)
    ensures
        handshake_after(answer, parse, n) is ReadMore <==> forall|k: int|
            1 <= k <= n ==> (#[trigger] parse(answer.take(k))) is None,
    decreases n,
{
    if n > 0 {
        lemma_handshake_reads_on(answer, parse, (n - 1) as nat);
        if handshake_after(answer, parse, n) is ReadMore {
            assert forall|k: int| 1 <= k <= n implies (#[trigger] parse(answer.take(k))) is None by {
                if k == n {
                    assert(parse(answer.take(n as int)) is None);
                }
            }
        } else {
            if handshake_after(answer, parse, (n - 1) as nat) is ReadMore {
                assert(!(parse(answer.take(n as int)) is None));
            }
        }
    }
}

/// A handshake ends with the status of the shortest prefix of the answer
/// that parses, whatever follows that prefix.
pub proof fn lemma_handshake_first_parse(
    answer: Seq<u8>,
    parse: spec_fn(Seq<u8>) -> Option<SessionStatusView>,
    first: nat,
    n: nat,
)
    requires
        1 <= first <= n,
        parse(answer.take(first as int)) is Some,
        forall|k: int| 1 <= k < first ==> (#[trigger] parse(answer.take(k))) is None,
    ensures
        handshake_after(answer, parse, n) == resolved(parse(answer.take(first as int))),
    decreases n,
{
    if n == first {
        lemma_handshake_reads_on(answer, parse, (n - 1) as nat);
    } else {
        lemma_handshake_first_parse(answer, parse, first, (n - 1) as nat);
    }
}

/// What the user has chosen for a session. What is not chosen gets its
/// default in [`session_config`].
#[derive(Debug, Default, PartialEq, Eq)]
pub struct SessionOptions {
    pub probe_selector: Option<String>,
    pub protocol: Option<String>,
    /// The protocol speed in kHz.
    pub speed: Option<u32>,
    pub chip: Option<String>,
    pub attach_under_reset: Option<bool>,
    pub force_exclusive: Option<bool>,
    pub auto_recover: Option<bool>,
    pub core: Option<u32>,
    pub reset: Option<bool>,
    pub bootloader: Option<bool>,
    pub bootloader_companion_application: Option<bool>,
    pub attach_timeout_ms: Option<u128>,
    pub setup_on_breakpoint_address: Option<u64>,
    pub stop_on_breakpoint_address: Option<u64>,
    pub no_data_stop_timeout_ms: Option<u128>,
    pub control_block_address: Option<u64>,
    pub up_channel: Option<u32>,
    pub rtt_read_buffer_size: Option<u32>,
    pub rtt_poll_interval_ms: Option<u128>,
    pub rtt_idle_poll_interval_ms: Option<u128>,
}

/// The chip to attach to.
#[derive(Debug, PartialEq, Eq)]
pub enum Target {
    /// Whatever chip the probe finds.
    Auto,
    Specific(String),
}

/// The probe of a session.
#[derive(Debug, PartialEq, Eq)]
pub struct ProbeConfig {
    pub probe_selector: Option<String>,
    pub protocol: String,
    pub speed_khz: u32,
    pub target: Target,
    pub attach_under_reset: bool,
    pub force_exclusive: bool,
}

/// The target of a session.
#[derive(Clone, Copy, Debug, PartialEq, Eq, Structural)]
pub struct TargetConfig {
    pub auto_recover: bool,
    pub core: u32,
    pub reset: bool,
    pub bootloader: bool,
    pub bootloader_companion_application: bool,
}

/// The RTT channel of a session and how it is read.
#[derive(Clone, Copy, Debug, PartialEq, Eq, Structural)]
pub struct RttConfig {
    pub attach_timeout_ms: Option<u128>,
    pub setup_on_breakpoint_address: Option<u64>,
    pub stop_on_breakpoint_address: Option<u64>,
    pub no_data_stop_timeout_ms: Option<u128>,
    pub control_block_address: Option<u64>,
    pub up_channel: u32,
    pub down_channel: u32,
    pub disable_control_plane: bool,
    pub restart: bool,
    pub rtt_read_buffer_size: u32,
    pub rtt_poll_interval_ms: u128,
    pub rtt_idle_poll_interval_ms: u128,
}

/// The request for a session, as it is sent to the proxy.
#[derive(Debug, PartialEq, Eq)]
pub struct SessionConfig {
    pub probe: ProbeConfig,
    pub target: TargetConfig,
    pub rtt: RttConfig,
}

/// The protocol speed in kHz where none is chosen.
pub const DEFAULT_SPEED_KHZ: u32 = 4000;

/// The RTT channel that is read, and the one named for writing, where none
/// is chosen.
pub const DEFAULT_CHANNEL: u32 = 2;

/// The size of the buffer that RTT data is read into where none is chosen.
pub const DEFAULT_RTT_READ_BUFFER_SIZE: u32 = 1024;

/// The polling interval in milliseconds where none is chosen.
pub const DEFAULT_RTT_POLL_INTERVAL_MS: u128 = 1;

/// The polling interval of an idle channel in milliseconds where none is
/// chosen.
pub const DEFAULT_RTT_IDLE_POLL_INTERVAL_MS: u128 = 100;

/// The target of a session: the chosen chip, or whatever chip is found.
pub open spec fn spec_target(chip: Option<String>) -> Target {
    match chip {
        Some(name) => Target::Specific(name),
        None => Target::Auto,
    }
}

/// The target settings of a session: each switch is off and the core is 0
/// unless chosen otherwise.
pub open spec fn spec_target_config(options: SessionOptions) -> TargetConfig {
    TargetConfig {
        auto_recover: options.auto_recover.unwrap_or(false),
        core: options.core.unwrap_or(0),
        reset: options.reset.unwrap_or(false),
        bootloader: options.bootloader.unwrap_or(false),
        bootloader_companion_application: options.bootloader_companion_application.unwrap_or(
            false,
        ),
    }
}

/// The RTT settings of a session. The control plane is always disabled and
/// the session is never one that restarts; the channel for writing is named
/// but, with the control plane disabled, not used.
pub open spec fn spec_rtt_config(options: SessionOptions) -> RttConfig {
    RttConfig {
        attach_timeout_ms: options.attach_timeout_ms,
        setup_on_breakpoint_address: options.setup_on_breakpoint_address,
        stop_on_breakpoint_address: options.stop_on_breakpoint_address,
        no_data_stop_timeout_ms: options.no_data_stop_timeout_ms,
        control_block_address: options.control_block_address,
        up_channel: options.up_channel.unwrap_or(DEFAULT_CHANNEL),
        down_channel: DEFAULT_CHANNEL,
        disable_control_plane: true,
        restart: false,
        rtt_read_buffer_size: options.rtt_read_buffer_size.unwrap_or(DEFAULT_RTT_READ_BUFFER_SIZE),
        rtt_poll_interval_ms: options.rtt_poll_interval_ms.unwrap_or(DEFAULT_RTT_POLL_INTERVAL_MS),
        rtt_idle_poll_interval_ms: options.rtt_idle_poll_interval_ms.unwrap_or(
            DEFAULT_RTT_IDLE_POLL_INTERVAL_MS,
        ),
    }
}

/// The request for a session from what the user has chosen, with the
/// default for whatever is not chosen. The protocol is `SWD` where none is
/// chosen.
pub fn session_config(options: SessionOptions) -> (cfg: SessionConfig)
    ensures
        cfg.probe.probe_selector == options.probe_selector,
        options.protocol matches Some(protocol) ==> cfg.probe.protocol == protocol,
        options.protocol is None ==> cfg.probe.protocol@ == "SWD"@,
        cfg.probe.speed_khz == options.speed.unwrap_or(DEFAULT_SPEED_KHZ),
        cfg.probe.target == spec_target(options.chip),
        cfg.probe.attach_under_reset == options.attach_under_reset.unwrap_or(false),
        cfg.probe.force_exclusive == options.force_exclusive.unwrap_or(false),
        cfg.target == spec_target_config(options),
        cfg.rtt == spec_rtt_config(options),
        cfg.rtt.disable_control_plane,
{
    let SessionOptions {
        probe_selector,
        protocol,
        speed,
        chip,
        attach_under_reset,
        force_exclusive,
        auto_recover,
        core,
        reset,
        bootloader,
        bootloader_companion_application,
        attach_timeout_ms,
        setup_on_breakpoint_address,
        stop_on_breakpoint_address,
        no_data_stop_timeout_ms,
        control_block_address,
        up_channel,
        rtt_read_buffer_size,
        rtt_poll_interval_ms,
        rtt_idle_poll_interval_ms,
    } = options;
    SessionConfig {
        probe: ProbeConfig {
            probe_selector,
            protocol: match protocol {
                Some(protocol) => protocol,
                None => String::from_str("SWD"),
            },
            speed_khz: match speed {
                Some(speed) => speed,
                None => DEFAULT_SPEED_KHZ,
            },
            target: match chip {
                Some(name) => Target::Specific(name),
                None => Target::Auto,
            },
            attach_under_reset: match attach_under_reset {
                Some(on) => on,
                None => false,
            },
            force_exclusive: match force_exclusive {
                Some(on) => on,
                None => false,
            },
        },
        target: TargetConfig {
            auto_recover: match auto_recover {
                Some(on) => on,
                None => false,
            },
            core: match core {
                Some(core) => core,
                None => 0,
            },
            reset: match reset {
                Some(on) => on,
                None => false,
            },
            bootloader: match bootloader {
                Some(on) => on,
                None => false,
            },
            bootloader_companion_application: match bootloader_companion_application {
                Some(on) => on,
                None => false,
            },
        },
        rtt: RttConfig {
            attach_timeout_ms,
            setup_on_breakpoint_address,
            stop_on_breakpoint_address,
            no_data_stop_timeout_ms,
            control_block_address,
            up_channel: match up_channel {
                Some(channel) => channel,
                None => DEFAULT_CHANNEL,
            },
            down_channel: DEFAULT_CHANNEL,
            disable_control_plane: true,
            restart: false,
            rtt_read_buffer_size: match rtt_read_buffer_size {
                Some(size) => size,
                None => DEFAULT_RTT_READ_BUFFER_SIZE,
            },
            rtt_poll_interval_ms: match rtt_poll_interval_ms {
                Some(ms) => ms,
                None => DEFAULT_RTT_POLL_INTERVAL_MS,
            },
            rtt_idle_poll_interval_ms: match rtt_idle_poll_interval_ms {
                Some(ms) => ms,
                None => DEFAULT_RTT_IDLE_POLL_INTERVAL_MS,
            },
        },
    }
}

} // verus!
