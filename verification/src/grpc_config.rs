//! Connection settings of the Yellowstone gRPC client, and the builder
//! calls they stand for.

use vstd::prelude::*;

verus! {

/// A span of time: whole seconds and the nanoseconds beyond them.
#[derive(Clone, Copy, Debug, PartialEq, Eq, Hash)]
pub struct TimeSpan {
    pub secs: u64,
    pub nanos: u32,
}

impl TimeSpan {
    /// A span of whole seconds.
    pub fn from_secs(secs: u64) -> (t: TimeSpan)
        ensures
            t == (TimeSpan { secs, nanos: 0 }),
    {
        TimeSpan { secs, nanos: 0 }
    }
}

/// Seconds allowed for connecting, and for each request, when the settings
/// leave them open.
pub const DEFAULT_TIMEOUT_SECS: u64 = 15;

/// The settings of the gRPC client. The compression scheme and the TLS
/// settings are the transport's own types.
#[derive(Clone, Debug)]
pub struct YellowstoneGrpcClientConfig<Compression, Tls> {
    pub compression: Option<Compression>,
    pub connect_timeout: Option<TimeSpan>,
    pub timeout: Option<TimeSpan>,
    pub max_decoding_message_size: Option<usize>,
    pub tls_config: Option<Tls>,
    pub tcp_nodelay: Option<bool>,
}

/// Where the client's TLS settings come from.
#[derive(Clone, Copy, Debug, PartialEq, Eq)]
pub enum TlsSource {
    /// The settings given in the configuration.
    Configured,
    /// Default settings that trust the platform's root certificates.
    EnabledRoots,
}

/// One call on the client builder.
#[derive(Clone, Copy, Debug, PartialEq, Eq)]
pub enum BuilderStep<Compression> {
    ConnectTimeout(TimeSpan),
    Timeout(TimeSpan),
    TlsConfig(TlsSource),
    SendCompressed(Compression),
    AcceptCompressed(Compression),
    MaxDecodingMessageSize(usize),
    TcpNodelay(bool),
}

/// The given span, or the default timeout when there is none.
pub open spec fn timeout_or_default(t: Option<TimeSpan>) -> TimeSpan {
    match t {
        Some(t) => t,
        None => TimeSpan { secs: 15, nanos: 0 },
    }
}

impl<Compression: Copy, Tls> YellowstoneGrpcClientConfig<Compression, Tls> {
    /// Settings made of the given values.
    pub fn new(
        compression: Option<Compression>,
        connect_timeout: Option<TimeSpan>,
        timeout: Option<TimeSpan>,
        max_decoding_message_size: Option<usize>,
        tls_config: Option<Tls>,
        tcp_nodelay: Option<bool>,
    ) -> (c: Self)
        ensures
            c.compression == compression,
            c.connect_timeout == connect_timeout,
            c.timeout == timeout,
            c.max_decoding_message_size == max_decoding_message_size,
            c.tls_config == tls_config,
            c.tcp_nodelay == tcp_nodelay,
    {
        YellowstoneGrpcClientConfig {
            compression,
            connect_timeout,
            timeout,
            max_decoding_message_size,
            tls_config,
            tcp_nodelay,
        }
    }

    /// The builder calls that the settings stand for, in the order they are
    /// made: the connect timeout and the request timeout (15 seconds each
    /// when not set), the TLS settings (the configured ones, or defaults that
    /// trust the platform roots), then, where set, compression in both
    /// directions, the maximum decoded message size and TCP no-delay.
    pub open spec fn spec_builder_steps(self) -> Seq<BuilderStep<Compression>> {
        seq![
            BuilderStep::ConnectTimeout(timeout_or_default(self.connect_timeout)),
            BuilderStep::Timeout(timeout_or_default(self.timeout)),
            BuilderStep::TlsConfig(
                if self.tls_config is Some {
                    TlsSource::Configured
                } else {
                    TlsSource::EnabledRoots
                },
            ),
        ] + match self.compression {
            Some(c) => seq![BuilderStep::SendCompressed(c), BuilderStep::AcceptCompressed(c)],
            None => Seq::empty(),
        } + match self.max_decoding_message_size {
            Some(n) => seq![BuilderStep::MaxDecodingMessageSize(n)],
            None => Seq::empty(),
        } + match self.tcp_nodelay {
            Some(b) => seq![BuilderStep::TcpNodelay(b)],
            None => Seq::empty(),
        }
    }

    /// Lists the builder calls that the settings stand for.
    pub fn builder_steps(&self) -> (steps: Vec<BuilderStep<Compression>>)
        ensures
            steps@ == self.spec_builder_steps(),
            steps@.len() == 3 + (if self.compression is Some {
                2int
            } else {
                0int
            }) + (if self.max_decoding_message_size is Some {
                1int
            } else {
                0int
            }) + (if self.tcp_nodelay is Some {
                1int
            } else {
                0int
            }),
            steps@[0] == BuilderStep::<Compression>::ConnectTimeout(
                match self.connect_timeout {
                    Some(t) => t,
                    None => TimeSpan { secs: 15, nanos: 0 },
                },
            ),
            steps@[1] == BuilderStep::<Compression>::Timeout(
                match self.timeout {
                    Some(t) => t,
                    None => TimeSpan { secs: 15, nanos: 0 },
                },
            ),
            self.tls_config is Some ==> steps@[2] == BuilderStep::<Compression>::TlsConfig(
                TlsSource::Configured,
            ),
            self.tls_config is None ==> steps@[2] == BuilderStep::<Compression>::TlsConfig(
                TlsSource::EnabledRoots,
            ),
            self.compression is Some ==> steps@[3] == BuilderStep::SendCompressed(
                self.compression.unwrap(),
            ) && steps@[4] == BuilderStep::AcceptCompressed(self.compression.unwrap()),
            self.compression is None ==> forall|i: int|
                0 <= i < steps@.len() ==> !(#[trigger] steps@[i] is SendCompressed)
                    && !(steps@[i] is AcceptCompressed),
            self.max_decoding_message_size is Some ==> steps@.contains(
                BuilderStep::MaxDecodingMessageSize(self.max_decoding_message_size.unwrap()),
            ),
            self.max_decoding_message_size is None ==> forall|i: int|
                0 <= i < steps@.len() ==> !(#[trigger] steps@[i] is MaxDecodingMessageSize),
            self.tcp_nodelay is Some ==> steps@.last() == BuilderStep::<Compression>::TcpNodelay(
                self.tcp_nodelay.unwrap(),
            ),
            self.tcp_nodelay is None ==> forall|i: int|
                0 <= i < steps@.len() ==> !(#[trigger] steps@[i] is TcpNodelay),
    {
        let mut steps: Vec<BuilderStep<Compression>> = Vec::new();
        let connect = match self.connect_timeout {
            Some(t) => t,
            None => TimeSpan::from_secs(DEFAULT_TIMEOUT_SECS),
        };
        steps.push(BuilderStep::ConnectTimeout(connect));
        let request = match self.timeout {
            Some(t) => t,
            None => TimeSpan::from_secs(DEFAULT_TIMEOUT_SECS),
        };
        steps.push(BuilderStep::Timeout(request));
        let tls = match &self.tls_config {
            Some(_) => TlsSource::Configured,
            None => TlsSource::EnabledRoots,
        };
        steps.push(BuilderStep::TlsConfig(tls));
        let ghost fixed = steps@;
        match self.compression {
            Some(c) => {
                steps.push(BuilderStep::SendCompressed(c));
                steps.push(BuilderStep::AcceptCompressed(c));
            },
            None => {},
        }
        let ghost with_compression = steps@;
        match self.max_decoding_message_size {
            Some(n) => steps.push(BuilderStep::MaxDecodingMessageSize(n)),
            None => {},
        }
        let ghost with_size = steps@;
        match self.tcp_nodelay {
            Some(b) => steps.push(BuilderStep::TcpNodelay(b)),
            None => {},
        }
        proof {
            let comp: Seq<BuilderStep<Compression>> = match self.compression {
                Some(c) => seq![BuilderStep::SendCompressed(c), BuilderStep::AcceptCompressed(c)],
                None => Seq::empty(),
            };
            let size: Seq<BuilderStep<Compression>> = match self.max_decoding_message_size {
                Some(n) => seq![BuilderStep::MaxDecodingMessageSize(n)],
                None => Seq::empty(),
            };
            let nodelay: Seq<BuilderStep<Compression>> = match self.tcp_nodelay {
                Some(b) => seq![BuilderStep::TcpNodelay(b)],
                None => Seq::empty(),
            };
            assert(with_compression =~= fixed + comp);
            assert(with_size =~= fixed + comp + size);
            assert(steps@ =~= fixed + comp + size + nodelay);
            if self.max_decoding_message_size is Some {
                assert(steps@[(fixed + comp).len() as int] == BuilderStep::<
                    Compression,
                >::MaxDecodingMessageSize(self.max_decoding_message_size.unwrap()));
            }
        }
        steps
    }
}

/// Each builder call depends on its own setting alone: two configurations
/// that agree on compression, message size and TCP no-delay make the same
/// calls after the first three, whatever their timeouts and TLS settings;
/// and when compression is set, sending and accepting compressed come right
/// after the TLS call, in both directions, whatever the TLS setting.
pub proof fn lemma_steps_follow_own_settings<Compression: Copy, Tls>(
    a: YellowstoneGrpcClientConfig<Compression, Tls>,
    b: YellowstoneGrpcClientConfig<Compression, Tls>,
)
    requires
        a.compression == b.compression,
        a.max_decoding_message_size == b.max_decoding_message_size,
        a.tcp_nodelay == b.tcp_nodelay,
    ensures
        a.spec_builder_steps().skip(3) == b.spec_builder_steps().skip(3),
        a.spec_builder_steps().len() == b.spec_builder_steps().len(),
        a.compression is Some ==> a.spec_builder_steps()[3] == BuilderStep::SendCompressed(
            a.compression.unwrap(),
        ) && a.spec_builder_steps()[4] == BuilderStep::AcceptCompressed(a.compression.unwrap()),
        a.spec_builder_steps()[2] == BuilderStep::<Compression>::TlsConfig(
            if a.tls_config is Some {
                TlsSource::Configured
            } else {
                TlsSource::EnabledRoots
            },
        ),
{
    assert(a.spec_builder_steps().skip(3) =~= b.spec_builder_steps().skip(3));
}

impl<Compression, Tls> Default for YellowstoneGrpcClientConfig<Compression, Tls> {
    /// Settings with 15-second connect and request timeouts and nothing
    /// else set.
    fn default() -> (c: Self)
        ensures
            c.compression is None,
            c.connect_timeout == Some(TimeSpan { secs: 15, nanos: 0 }),
            c.timeout == Some(TimeSpan { secs: 15, nanos: 0 }),
            c.max_decoding_message_size is None,
            c.tls_config is None,
            c.tcp_nodelay is None,
    {
        YellowstoneGrpcClientConfig {
            compression: None,
            connect_timeout: Some(TimeSpan::from_secs(DEFAULT_TIMEOUT_SECS)),
            timeout: Some(TimeSpan::from_secs(DEFAULT_TIMEOUT_SECS)),
            max_decoding_message_size: None,
            tls_config: None,
            tcp_nodelay: None,
        }
    }
}

} // verus!
