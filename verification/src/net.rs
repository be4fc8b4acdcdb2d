//! Socket settings, connection retries, and negotiated network streams.

use vstd::arithmetic::power2::{lemma_pow2_strictly_increases, pow2};
use vstd::prelude::*;

use crate::auth::TlsServerEndPoint;

verus! {

/// A PostgreSQL network transport after optional TLS negotiation.
#[derive(Debug)]
pub enum NetworkStream<S, Client, Server> {
    /// An unencrypted transport.
    Plain(S),
    /// TLS initiated by this endpoint as a client.
    ClientTls(Client),
    /// TLS accepted by this endpoint as a server.
    ServerTls(Server),
}

/// A plain transport was requested after TLS had already been negotiated.
#[derive(Clone, Copy, Debug, PartialEq, Eq, Structural)]
pub struct AlreadyTls;

impl AlreadyTls {
    /// Description of the failure.
    pub fn message(&self) -> (message: &'static str)
        ensures
            message@ == "transport is already using TLS"@,
    {
        "transport is already using TLS"
    }
}

impl<S, Client, Server> NetworkStream<S, Client, Server> {
    /// Wraps an unencrypted transport.
    pub fn plain(stream: S) -> (network: Self)
        ensures
            network == NetworkStream::<S, Client, Server>::Plain(stream),
    {
        NetworkStream::Plain(stream)
    }

    /// Wraps a completed client-side TLS upgrade.
    pub fn client_tls(stream: Client) -> (network: Self)
        ensures
            network == NetworkStream::<S, Client, Server>::ClientTls(stream),
    {
        NetworkStream::ClientTls(stream)
    }

    /// Wraps a completed server-side TLS upgrade.
    pub fn server_tls(stream: Server) -> (network: Self)
        ensures
            network == NetworkStream::<S, Client, Server>::ServerTls(stream),
    {
        NetworkStream::ServerTls(stream)
    }

    /// Reports whether the transport is encrypted.
    pub fn is_tls(&self) -> (result: bool)
        ensures
            result == (self is ClientTls || self is ServerTls),
    {
        !self.is_plain()
    }

    /// Reports whether the transport is unencrypted.
    pub fn is_plain(&self) -> (result: bool)
        ensures
            result == (self is Plain),
    {
        match self {
            NetworkStream::Plain(_) => true,
            _ => false,
        }
    }

    /// Returns the plain transport when TLS has not already been negotiated.
    ///
    /// # Errors
    ///
    /// Returns [`AlreadyTls`] for either negotiated TLS variant.
    pub fn into_plain(self) -> (result: Result<S, AlreadyTls>)
        ensures
            match result {
                Ok(stream) => self == NetworkStream::<S, Client, Server>::Plain(stream),
                Err(_) => !(self is Plain),
            },
    {
        match self {
            NetworkStream::Plain(stream) => Ok(stream),
            _ => Err(AlreadyTls),
        }
    }
}

impl<S, Client: TlsServerEndPoint, Server: TlsServerEndPoint> NetworkStream<S, Client, Server> {
    /// Returns the `tls-server-end-point` bytes of an encrypted stream.
    pub fn tls_server_end_point(&self) -> (binding: Option<&[u8]>)
        requires
            self matches NetworkStream::ClientTls(stream) ==> call_requires(
                Client::tls_server_end_point,
                (&stream,),
            ),
            self matches NetworkStream::ServerTls(stream) ==> call_requires(
                Server::tls_server_end_point,
                (&stream,),
            ),
        ensures
            match self {
                NetworkStream::Plain(_) => binding is None,
                NetworkStream::ClientTls(stream) => binding matches Some(octets) && call_ensures(
                    Client::tls_server_end_point,
                    (stream,),
                    octets,
                ),
                NetworkStream::ServerTls(stream) => binding matches Some(octets) && call_ensures(
                    Server::tls_server_end_point,
                    (stream,),
                    octets,
                ),
            },
    {
        match self {
            NetworkStream::Plain(_) => None,
            NetworkStream::ClientTls(stream) => Some(stream.tls_server_end_point()),
            NetworkStream::ServerTls(stream) => Some(stream.tls_server_end_point()),
        }
    }
}

pub const NANOS_PER_MILLI: u128 = 1_000_000;

pub const NANOS_PER_SECOND: u128 = 1_000_000_000;

/// Longest span that a system clock expresses: 64 bits of seconds and a fraction.
pub const MAX_SPAN: u128 = 18_446_744_073_709_551_615_999_999_999;

/// Retry policy for establishing an outbound TCP connection. Delays are in
/// nanoseconds.
#[derive(Clone, Copy, Debug, PartialEq, Eq, Structural)]
pub struct ConnectRetry {
    /// Number of retries after the initial attempt.
    pub max_retries: u32,
    /// Initial exponential-backoff delay.
    pub initial_delay: u128,
    /// Upper bound for an individual delay.
    pub max_delay: u128,
}

impl Default for ConnectRetry {
    fn default() -> (retry: Self)
        ensures
            retry == (ConnectRetry {
                max_retries: 3,
                initial_delay: (100 * NANOS_PER_MILLI) as u128,
                max_delay: (2 * NANOS_PER_SECOND) as u128,
            }),
    {
        ConnectRetry {
            max_retries: 3,
            initial_delay: 100 * NANOS_PER_MILLI,
            max_delay: 2 * NANOS_PER_SECOND,
        }
    }
}

/// What to do after a failed connection attempt.
#[derive(Clone, Copy, Debug, PartialEq, Eq, Structural)]
pub enum RetryStep {
    /// Report the last failure.
    GiveUp,
    /// Wait and try again.
    Wait {
        /// Nanoseconds to wait.
        delay: u128,
        /// Retries made once the next attempt starts.
        retries: u32,
    },
}

/// Factor of the delay before a retry: doubled for each earlier retry, up to what
/// 32 bits hold.
pub open spec fn factor(retries: nat) -> nat {
    if retries < 32 {
        pow2(retries)
    } else {
        u32::MAX as nat
    }
}

pub open spec fn at_most(value: nat, bound: nat) -> nat {
    if value < bound {
        value
    } else {
        bound
    }
}

impl ConnectRetry {
    /// Capped exponential delay before a retry.
    pub open spec fn delay(self, retries: nat) -> nat {
        at_most(
            at_most(self.initial_delay as nat * factor(retries), MAX_SPAN as nat),
            self.max_delay as nat,
        )
    }

    /// Decides after a failure whether to try again, given the retries made so far.
    pub fn after_failure(&self, retries: u32) -> (step: RetryStep)
        requires
            retries <= self.max_retries,
        ensures
            match step {
                RetryStep::GiveUp => retries == self.max_retries,
                RetryStep::Wait { delay, retries: made } => retries < self.max_retries && delay
                    == self.delay(retries as nat) && made == retries + 1,
            },
    {
        if retries == self.max_retries {
            return RetryStep::GiveUp;
        }
        let multiplier: u32 = retry_factor(retries);
        let bounded: u128 = match self.initial_delay.checked_mul(multiplier as u128) {
            Some(product) if product <= MAX_SPAN => product,
            _ => MAX_SPAN,
        };
        let delay: u128 = if bounded > self.max_delay {
            self.max_delay
        } else {
            bounded
        };
        RetryStep::Wait { delay, retries: retries + 1 }
    }
}

#[verifier::loop_isolation(false)]
fn retry_factor(retries: u32) -> (multiplier: u32)
    ensures
        multiplier == factor(retries as nat),
{
    if retries >= 32 {
        return u32::MAX;
    }
    let mut multiplier: u32 = 1;
    let mut doubled: u32 = 0;
    proof {
        vstd::arithmetic::power2::lemma2_to64();
    }
    while doubled < retries
        invariant
            doubled <= retries < 32,
            multiplier == pow2(doubled as nat),
        decreases retries - doubled,
    {
        proof {
            vstd::arithmetic::power2::lemma_pow2_unfold((doubled + 1) as nat);
            lemma_pow2_strictly_increases(doubled as nat, 31);
        }
        multiplier = multiplier * 2;
        doubled = doubled + 1;
    }
    multiplier
}

proof fn lemma_factor_grows(earlier: nat, later: nat)
    requires
        earlier <= later,
    ensures
        factor(earlier) <= factor(later),
{
    vstd::arithmetic::power2::lemma2_to64();
    if later < 32 {
        if earlier < later {
            lemma_pow2_strictly_increases(earlier, later);
        }
    } else if earlier < 32 {
        lemma_pow2_strictly_increases(earlier, 32);
    }
}

/// Delays never exceed the bound and never shrink from one retry to a later one.
pub proof fn law_backoff_is_capped_and_monotone(retry: ConnectRetry, earlier: nat, later: nat)
    requires
        earlier <= later,
    ensures
        retry.delay(later) <= retry.max_delay,
        retry.delay(earlier) <= retry.delay(later),
{
    lemma_factor_grows(earlier, later);
    let initial = retry.initial_delay as nat;
    assert(initial * factor(earlier) <= initial * factor(later)) by (nonlinear_arith)
        requires
            factor(earlier) <= factor(later),
    ;
}

/// Best-effort TCP socket configuration. Spans are in nanoseconds.
#[derive(Clone, Copy, Debug, PartialEq, Eq, Structural)]
pub struct TcpSettings {
    /// Whether to disable Nagle's algorithm.
    pub no_delay: bool,
    /// Optional TCP user timeout on supported operating systems.
    pub user_timeout: Option<u128>,
    /// Optional keepalive idle time.
    pub keepalive_time: Option<u128>,
    /// Optional keepalive probe interval.
    pub keepalive_interval: Option<u128>,
    /// Optional number of failed probes before the connection is closed.
    pub keepalive_retries: Option<u32>,
}

impl Default for TcpSettings {
    fn default() -> (settings: Self)
        ensures
            settings == (TcpSettings {
                no_delay: true,
                user_timeout: None,
                keepalive_time: None,
                keepalive_interval: None,
                keepalive_retries: None,
            }),
    {
        TcpSettings {
            no_delay: true,
            user_timeout: None,
            keepalive_time: None,
            keepalive_interval: None,
            keepalive_retries: None,
        }
    }
}

/// One socket option to apply.
#[derive(Clone, Copy, Debug, PartialEq, Eq, Structural)]
pub enum SocketOption {
    NoDelay(bool),
    UserTimeout(u128),
    /// Enables keepalive.
    Keepalive,
    /// Tunes the keepalive that was enabled before.
    KeepaliveParameters { time: Option<u128>, interval: Option<u128>, retries: Option<u32> },
}

impl SocketOption {
    /// Stable socket-option name.
    pub open spec fn title(self) -> Seq<char> {
        match self {
            SocketOption::NoDelay(_) => "TCP_NODELAY"@,
            SocketOption::UserTimeout(_) => "TCP_USER_TIMEOUT"@,
            SocketOption::Keepalive => "SO_KEEPALIVE"@,
            SocketOption::KeepaliveParameters { .. } => "TCP_KEEPALIVE"@,
        }
    }

    /// Stable socket-option name.
    pub fn name(&self) -> (name: &'static str)
        ensures
            name@ == self.title(),
    {
        match self {
            SocketOption::NoDelay(_) => "TCP_NODELAY",
            SocketOption::UserTimeout(_) => "TCP_USER_TIMEOUT",
            SocketOption::Keepalive => "SO_KEEPALIVE",
            SocketOption::KeepaliveParameters { .. } => "TCP_KEEPALIVE",
        }
    }

    /// Whether later options are pointless once this one could not be applied.
    pub fn is_prerequisite(&self) -> (result: bool)
        ensures
            result == (*self == SocketOption::Keepalive),
    {
        match self {
            SocketOption::Keepalive => true,
            _ => false,
        }
    }
}

/// One socket option which could not be applied.
#[derive(Debug)]
pub struct TcpConfigurationError<Io> {
    /// Stable socket-option name.
    pub option: &'static str,
    /// Operating-system error returned while applying the option.
    pub source: Io,
}

impl TcpSettings {
    /// Whether any keepalive setting is given.
    pub open spec fn keeps_alive(self) -> bool {
        self.keepalive_time is Some || self.keepalive_interval is Some || self.keepalive_retries
            is Some
    }

    /// The options to apply, in order.
    pub open spec fn plan(self, user_timeout_supported: bool) -> Seq<SocketOption> {
        let first = seq![SocketOption::NoDelay(self.no_delay)];
        let second = match self.user_timeout {
            Some(timeout) if user_timeout_supported => first.push(
                SocketOption::UserTimeout(timeout),
            ),
            _ => first,
        };
        if self.keeps_alive() {
            second.push(SocketOption::Keepalive).push(
                SocketOption::KeepaliveParameters {
                    time: self.keepalive_time,
                    interval: self.keepalive_interval,
                    retries: self.keepalive_retries,
                },
            )
        } else {
            second
        }
    }

    /// The options to apply, in order. The user timeout is left out where the
    /// operating system has none.
    pub fn options(&self, user_timeout_supported: bool) -> (options: Vec<SocketOption>)
        ensures
            options@ == self.plan(user_timeout_supported),
    {
        let mut options: Vec<SocketOption> = Vec::new();
        options.push(SocketOption::NoDelay(self.no_delay));
        if let Some(timeout) = self.user_timeout {
            if user_timeout_supported {
                options.push(SocketOption::UserTimeout(timeout));
            }
        }
        if self.keepalive_time.is_some() || self.keepalive_interval.is_some()
            || self.keepalive_retries.is_some() {
            options.push(SocketOption::Keepalive);
            options.push(
                SocketOption::KeepaliveParameters {
                    time: self.keepalive_time,
                    interval: self.keepalive_interval,
                    retries: self.keepalive_retries,
                },
            );
        }
        assert(options@ =~= self.plan(user_timeout_supported));
        options
    }
}

/// The delay starts at the first one and doubles with each retry, until it reaches its
/// bound or the factor the end of 32 bits.
pub proof fn law_backoff_doubles(retry: ConnectRetry, retries: nat)
    ensures
        factor(0) == 1,
        retries < 31 ==> factor(retries + 1) == 2 * factor(retries),
        retries >= 32 ==> factor(retries) == 0xffff_ffff,
        retry.initial_delay * factor(retries) <= MAX_SPAN && retry.initial_delay * factor(retries)
            <= retry.max_delay ==> retry.delay(retries) == retry.initial_delay * factor(retries),
        retry.initial_delay * factor(retries) > retry.max_delay && retry.max_delay <= MAX_SPAN
            ==> retry.delay(retries) == retry.max_delay,
        retry.delay(retries) <= retry.max_delay,
{
    vstd::arithmetic::power2::lemma2_to64();
    if retries < 31 {
        vstd::arithmetic::power2::lemma_pow2_unfold((retries + 1) as nat);
    }
}

/// Which options are applied: the delay always and first, the user timeout where it is
/// set and supported, and keepalive before its parameters where any of them is set.
pub proof fn law_socket_options(settings: TcpSettings, supported: bool)
    ensures
        ({
            let plan = settings.plan(supported);
            let timed = settings.user_timeout is Some && supported;
            let alive = settings.keepalive_time is Some || settings.keepalive_interval is Some
                || settings.keepalive_retries is Some;
            let first = if timed {
                2int
            } else {
                1int
            };
            &&& plan[0] == SocketOption::NoDelay(settings.no_delay)
            &&& timed ==> plan[1] == SocketOption::UserTimeout(settings.user_timeout->0)
            &&& alive ==> plan.len() == first + 2 && plan[first] == SocketOption::Keepalive
                && plan[first + 1] == (SocketOption::KeepaliveParameters {
                time: settings.keepalive_time,
                interval: settings.keepalive_interval,
                retries: settings.keepalive_retries,
            })
            &&& !alive ==> plan.len() == first
        }),
{
}

/// Retries end exactly when as many were made as are allowed, and each waits for the
/// delay of its number.
pub proof fn law_retries_are_counted(
    retry: &ConnectRetry,
    retries: u32,
    step: RetryStep,
    next: RetryStep,
)
    requires
        retries < retry.max_retries,
        call_ensures(ConnectRetry::after_failure, (retry, retries), step),
        call_ensures(ConnectRetry::after_failure, (retry, (retries + 1) as u32), next),
    ensures
        step matches RetryStep::Wait { delay, retries: made } && made == retries + 1 && delay
            <= retry.max_delay,
        next is GiveUp <==> retries + 1 == retry.max_retries,
        retries < 30 && retry.initial_delay * factor((retries + 1) as nat) <= MAX_SPAN
            && retry.initial_delay * factor((retries + 1) as nat) <= retry.max_delay ==> (next
            matches RetryStep::Wait { delay, .. } ==> delay == 2 * step->delay),
{
    law_backoff_doubles(*retry, retries as nat);
    law_backoff_doubles(*retry, (retries + 1) as nat);
    let first = retry.initial_delay as int;
    let unit = factor(retries as nat) as int;
    if retries < 30 {
        assert(first * (2 * unit) == 2 * (first * unit)) by (nonlinear_arith);
        assert(0 <= first * unit) by (nonlinear_arith)
            requires
                0 <= first,
                0 <= unit,
        ;
    }
}

} // verus!
