use vstd::prelude::*;

verus! {

/// Default number of file bytes handed out per read while streaming a response
/// body (16 MiB).
pub const DEFAULT_CHUNK_SIZE: usize = 16777216;

/// Bytes of `www.fimfarchive.net`, the default canonical hostname.
pub open spec fn default_canonical_host_spec() -> Seq<u8> {
    seq![
        119u8, 119u8, 119u8, 46u8, 102u8, 105u8, 109u8, 102u8, 97u8, 114u8, 99u8, 104u8, 105u8,
        118u8, 101u8, 46u8, 110u8, 101u8, 116u8,
    ]
}

/// Bytes of `[::]:34407`, the default listen address.
pub open spec fn default_bind_spec() -> Seq<u8> {
    seq![91u8, 58u8, 58u8, 93u8, 58u8, 51u8, 52u8, 52u8, 48u8, 55u8]
}

/// Bytes of the fixed profile URL that every unmatched path is redirected to:
/// `https://www.fimfiction.net/user/116950/Fimfarchive`.
pub open spec fn profile_url_spec() -> Seq<u8> {
    seq![
        104u8, 116u8, 116u8, 112u8, 115u8, 58u8, 47u8, 47u8, 119u8, 119u8, 119u8, 46u8, 102u8,
        105u8, 109u8, 102u8, 105u8, 99u8, 116u8, 105u8, 111u8, 110u8, 46u8, 110u8, 101u8, 116u8,
        47u8, 117u8, 115u8, 101u8, 114u8, 47u8, 49u8, 49u8, 54u8, 57u8, 53u8, 48u8, 47u8, 70u8,
        105u8, 109u8, 102u8, 97u8, 114u8, 99u8, 104u8, 105u8, 118u8, 101u8,
    ]
}

/// The default canonical hostname, as bytes.
pub fn default_canonical_host() -> (r: Vec<u8>)
    ensures
        r@ == default_canonical_host_spec(),
{
    let r: Vec<u8> = vec![
        119u8, 119u8, 119u8, 46u8, 102u8, 105u8, 109u8, 102u8, 97u8, 114u8, 99u8, 104u8, 105u8,
        118u8, 101u8, 46u8, 110u8, 101u8, 116u8,
    ];
    assert(r@ =~= default_canonical_host_spec());
    r
}

/// The default listen address, as bytes.
pub fn default_bind() -> (r: Vec<u8>)
    ensures
        r@ == default_bind_spec(),
{
    let r: Vec<u8> = vec![91u8, 58u8, 58u8, 93u8, 58u8, 51u8, 52u8, 52u8, 48u8, 55u8];
    assert(r@ =~= default_bind_spec());
    r
}

/// The fixed profile URL, as bytes.
pub fn profile_url() -> (r: Vec<u8>)
    ensures
        r@ == profile_url_spec(),
{
    let r: Vec<u8> = vec![
        104u8, 116u8, 116u8, 112u8, 115u8, 58u8, 47u8, 47u8, 119u8, 119u8, 119u8, 46u8, 102u8,
        105u8, 109u8, 102u8, 105u8, 99u8, 116u8, 105u8, 111u8, 110u8, 46u8, 110u8, 101u8, 116u8,
        47u8, 117u8, 115u8, 101u8, 114u8, 47u8, 49u8, 49u8, 54u8, 57u8, 53u8, 48u8, 47u8, 70u8,
        105u8, 109u8, 102u8, 97u8, 114u8, 99u8, 104u8, 105u8, 118u8, 101u8,
    ];
    assert(r@ =~= profile_url_spec());
    r
}

/// The mathematical value of a `Config`.
pub struct ConfigV {
    /// Canonical hostname bytes; `None` disables the host guard.
    pub canonical_host: Option<Seq<u8>>,
    /// Streaming buffer size in bytes.
    pub chunk_size: usize,
}

impl ConfigV {
    /// A configuration is well formed when its chunk size is positive.
    pub open spec fn wf(self) -> bool {
        self.chunk_size >= 1
    }
}

/// Per-process configuration, read once at startup and immutable afterwards.
pub struct Config {
    /// Canonical hostname; `None` disables the host guard, so every host is
    /// treated as canonical.
    pub canonical_host: Option<Vec<u8>>,
    /// Streaming buffer size in bytes.
    pub chunk_size: usize,
}

impl View for Config {
    type V = ConfigV;

    open spec fn view(&self) -> ConfigV {
        ConfigV {
            canonical_host: crate::bytes::opt_bytes_view(self.canonical_host),
            chunk_size: self.chunk_size,
        }
    }
}

impl Config {
    /// A guarded configuration: requests must carry `host` as their `Host`
    /// header, or they are redirected to it.
    pub fn with_canonical_host(host: Vec<u8>, chunk_size: usize) -> (c: Config)
        requires
            chunk_size >= 1,
        ensures
            c@.canonical_host == Some(host@),
            c@.chunk_size == chunk_size,
            c@.wf(),
    {
        Config { canonical_host: Some(host), chunk_size }
    }

    /// An open configuration: the host guard is disabled and every host is
    /// accepted as canonical.
    pub fn any_host(chunk_size: usize) -> (c: Config)
        requires
            chunk_size >= 1,
        ensures
            c@.canonical_host is None,
            c@.chunk_size == chunk_size,
            c@.wf(),
    {
        Config { canonical_host: None, chunk_size }
    }

    /// The defaults: host guard on the default canonical hostname, 16 MiB
    /// streaming chunks.
    pub fn default_config() -> (c: Config)
        ensures
            c@.canonical_host == Some(default_canonical_host_spec()),
            c@.chunk_size == DEFAULT_CHUNK_SIZE,
            c@.wf(),
    {
        Config { canonical_host: Some(default_canonical_host()), chunk_size: DEFAULT_CHUNK_SIZE }
    }
}

} // verus!
