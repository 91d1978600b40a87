//! Serving over one port: the TLS certificate chain and key read from PEM,
//! telling TLS from plain HTTP, and where plain HTTP requests are sent instead.

use vstd::prelude::*;
use tokio_rustls::rustls::pki_types::PrivateKeyDer;

verus! {

/// The first byte of a TLS record that opens a handshake.
pub const TLS_HANDSHAKE_BYTE: u8 = 0x16;

/// Whether a connection speaks TLS, judged by the first byte that could be
/// peeked from it (`None` where the peek failed).
pub fn is_tls(first_byte: Option<u8>) -> (r: bool)
    ensures
        r <==> first_byte == Some(TLS_HANDSHAKE_BYTE),
{
    match first_byte {
        Some(b) => b == TLS_HANDSHAKE_BYTE,
        None => false,
    }
}

/// Whether `b` is visible ASCII in the sense of `http::HeaderValue::to_str`:
/// a tab, or a byte from 32 to 126.
pub open spec fn is_visible_ascii(b: u8) -> bool {
    b == 9 || (32 <= b && b < 127)
}

/// Whether every byte of `bytes` is visible ASCII.
pub open spec fn all_visible_ascii(bytes: Seq<u8>) -> bool {
    forall|i: int| 0 <= i < bytes.len() ==> is_visible_ascii(#[trigger] bytes[i])
}

/// The bytes of `https://`.
pub open spec fn https_prefix() -> Seq<u8> {
    seq![104u8, 116u8, 116u8, 112u8, 115u8, 58u8, 47u8, 47u8]
}

/// The address that a plain HTTP request is redirected to: the same host and
/// request target under `https`. `host` is the request's `Host` header, where
/// it has one; it is used where it is visible ASCII text (where
/// `HeaderValue::to_str` succeeds), and otherwise the host is left empty.
pub open spec fn redirect_location_spec(host: Option<Seq<u8>>, uri: Seq<u8>) -> Seq<u8> {
    https_prefix() + (match host {
        Some(h) => if all_visible_ascii(h) {
            h
        } else {
            Seq::empty()
        },
        None => Seq::empty(),
    }) + uri
}

/// Whether every byte of `bytes` is visible ASCII (see [`is_visible_ascii`]).
pub fn is_visible_ascii_text(bytes: &[u8]) -> (r: bool)
    ensures
        r == all_visible_ascii(bytes@),
        r == (forall|i: int|
            0 <= i < bytes@.len() ==> #[trigger] bytes@[i] == 9u8 || (32u8 <= bytes@[i]
                && bytes@[i] <= 126u8)),
{
    let mut i: usize = 0;
    while i < bytes.len()
        invariant
            0 <= i <= bytes@.len(),
            forall|k: int| 0 <= k < i ==> is_visible_ascii(#[trigger] bytes@[k]),
        decreases bytes@.len() - i,
    {
        let b = bytes[i];
        if !(b == 9 || (32 <= b && b < 127)) {
            assert(!is_visible_ascii(bytes@[i as int]));
            return false;
        }
        i += 1;
    }
    true
}

/// Whether `b` is an ASCII letter or digit, `.`, `:` or `-`: the bytes of a
/// host name or address with its port.
pub open spec fn is_host_byte(b: u8) -> bool {
    (48 <= b && b <= 57) || (65 <= b && b <= 90) || (97 <= b && b <= 122) || b == 46 || b == 58
        || b == 45
}

/// A `Host` header made of letters, digits, `.`, `:` and `-` (such as
/// `localhost:3000`) is kept whole: the redirect goes to `https://`, that
/// host, and the request's target.
pub proof fn lemma_plain_host_kept(host: Seq<u8>, uri: Seq<u8>)
    requires
        forall|i: int| 0 <= i < host.len() ==> is_host_byte(#[trigger] host[i]),
    ensures
        redirect_location_spec(Some(host), uri) == https_prefix() + host + uri,
{
    assert(all_visible_ascii(host));
}

/// A tab and every byte from a space to `~` are visible ASCII, and no other
/// byte is: the bytes that `http::HeaderValue::to_str` accepts.
pub proof fn lemma_visible_ascii_bytes(b: u8)
    ensures
        is_visible_ascii(b) <==> (b == 9 || (32 <= b && b <= 126)),
{
}

/// Appends `bytes` to `v`.
fn push_all(v: &mut Vec<u8>, bytes: &[u8])
    ensures
        final(v)@ == old(v)@ + bytes@,
{
    let mut i: usize = 0;
    while i < bytes.len()
        invariant
            0 <= i <= bytes@.len(),
            v@ == old(v)@ + bytes@.subrange(0, i as int),
        decreases bytes@.len() - i,
    {
        v.push(bytes[i]);
        i += 1;
        assert(bytes@.subrange(0, i as int) =~= bytes@.subrange(0, i - 1) + seq![bytes@[i - 1]]);
    }
    assert(bytes@.subrange(0, i as int) =~= bytes@);
}

/// The `https` address for a plain HTTP request (see
/// [`redirect_location_spec`]), from the bytes of its `Host` header, if it has
/// one, and of its request target.
pub fn redirect_location(host: Option<&[u8]>, uri: &[u8]) -> (r: Vec<u8>)
    ensures
        r@ == redirect_location_spec(
            match host {
                Some(h) => Some(h@),
                None => None,
            },
            uri@,
        ),
{
    let mut location: Vec<u8> = vec![104u8, 116u8, 116u8, 112u8, 115u8, 58u8, 47u8, 47u8];
    assert(location@ =~= https_prefix());
    let ghost used: Seq<u8> = Seq::empty();
    match host {
        Some(h) => {
            if is_visible_ascii_text(h) {
                push_all(&mut location, h);
                proof {
                    used = h@;
                }
            }
        },
        None => {},
    }
    assert(location@ =~= https_prefix() + used);
    push_all(&mut location, uri);
    proof {
        let expected = redirect_location_spec(
            match host {
                Some(h) => Some(h@),
                None => None,
            },
            uri@,
        );
        assert(used =~= match host {
            Some(h) => if all_visible_ascii(h@) {
                h@
            } else {
                Seq::<u8>::empty()
            },
            None => Seq::<u8>::empty(),
        });
        assert(location@ =~= expected);
    }
    location
}

/// What `rustls_pemfile::certs` reads from the PEM text `pem`, collected into
/// one result: the DER bytes of each certificate in order, or `None` where it
/// yields an error.
pub uninterp spec fn pem_certificates(pem: Seq<u8>) -> Option<Seq<Seq<u8>>>;

/// The kind of a private key, as its PEM section names it.
#[derive(PartialEq, Eq, Structural, Clone, Copy, Debug)]
pub enum KeyFormat {
    /// An RSA key (`RSA PRIVATE KEY`, PKCS#1).
    Pkcs1,
    /// An elliptic-curve key (`EC PRIVATE KEY`, SEC1).
    Sec1,
    /// A key of any algorithm (`PRIVATE KEY`, PKCS#8).
    Pkcs8,
}

/// What `rustls_pemfile::private_key` reads from the PEM text `pem`: the kind
/// and DER bytes of the first private key, `Some(None)` where there is none,
/// or `None` where it fails.
pub uninterp spec fn pem_private_key(pem: Seq<u8>) -> Option<Option<(KeyFormat, Seq<u8>)>>;

/// The bytes of each item of `v`.
pub open spec fn byte_seqs(v: Seq<Vec<u8>>) -> Seq<Seq<u8>> {
    v.map_values(|b: Vec<u8>| b@)
}

/// `rustls_pemfile::certs` on `pem`, its items collected into a `Result` and
/// each certificate copied out as its DER bytes; the `io::Error` becomes
/// `None`. Claimed: the result is [`pem_certificates`] of `pem`, a function
/// of the text alone (reading from a slice does no I/O).
#[verifier::external_body]
fn read_pem_certificates(pem: &[u8]) -> (r: Option<Vec<Vec<u8>>>)
    ensures
        r is Some <==> pem_certificates(pem@) is Some,
        r matches Some(v) ==> byte_seqs(v@) == pem_certificates(pem@)->0,
{
    let mut reader = pem;
    match rustls_pemfile::certs(&mut reader).collect::<Result<Vec<_>, _>>() {
        Ok(certs) => Some(certs.into_iter().map(|c| c.to_vec()).collect()),
        Err(_) => None,
    }
}

/// `rustls_pemfile::private_key` on `pem`, the key copied out as its kind
/// (the variant of `PrivateKeyDer`) and its DER bytes; the `io::Error`
/// becomes `None`. `PrivateKeyDer` is marked non-exhaustive; a key of a kind
/// other than its three, which the version used does not have, would also be
/// `None`. Claimed: the result is [`pem_private_key`] of `pem`, a function of
/// the text alone.
#[verifier::external_body]
fn read_pem_private_key(pem: &[u8]) -> (r: Option<Option<(KeyFormat, Vec<u8>)>>)
    ensures
        r is Some <==> pem_private_key(pem@) is Some,
        r matches Some(k) ==> (k is Some <==> pem_private_key(pem@)->0 is Some),
        r matches Some(Some(k)) ==> pem_private_key(pem@) == Some(Some((k.0, k.1@))),
{
    let mut reader = pem;
    match rustls_pemfile::private_key(&mut reader) {
        Ok(Some(PrivateKeyDer::Pkcs1(key))) => Some(Some((KeyFormat::Pkcs1, key.secret_pkcs1_der().to_vec()))),
        Ok(Some(PrivateKeyDer::Sec1(key))) => Some(Some((KeyFormat::Sec1, key.secret_sec1_der().to_vec()))),
        Ok(Some(PrivateKeyDer::Pkcs8(key))) => Some(Some((KeyFormat::Pkcs8, key.secret_pkcs8_der().to_vec()))),
        Ok(Some(_)) => None,
        Ok(None) => Some(None),
        Err(_) => None,
    }
}

/// Why no TLS set-up could be read.
#[derive(PartialEq, Eq, Structural, Clone, Copy, Debug)]
pub enum TlsError {
    /// The certificate PEM could not be read.
    Certificates,
    /// The key PEM could not be read.
    PrivateKey,
    /// The key PEM holds no private key.
    NoPrivateKey,
}

/// The server's certificate chain and private key, as DER bytes, with the
/// key's kind.
pub struct TlsMaterial {
    pub certificates: Vec<Vec<u8>>,
    pub key_format: KeyFormat,
    pub key: Vec<u8>,
}

/// The certificate chain in `cert_pem` and the first private key in
/// `key_pem`: the certificates are read first, and the first failure is the
/// error.
pub fn tls_material(cert_pem: &[u8], key_pem: &[u8]) -> (r: Result<TlsMaterial, TlsError>)
    ensures
        match (pem_certificates(cert_pem@), pem_private_key(key_pem@)) {
            (None, _) => r matches Err(e) && e == TlsError::Certificates,
            (Some(_), None) => r matches Err(e) && e == TlsError::PrivateKey,
            (Some(_), Some(None)) => r matches Err(e) && e == TlsError::NoPrivateKey,
            (Some(certs), Some(Some(key))) => r matches Ok(m) && byte_seqs(m.certificates@)
                == certs && m.key_format == key.0 && m.key@ == key.1,
        },
{
    let certificates = match read_pem_certificates(cert_pem) {
        Some(certs) => certs,
        None => return Err(TlsError::Certificates),
    };
    match read_pem_private_key(key_pem) {
        Some(Some((key_format, key))) => Ok(TlsMaterial { certificates, key_format, key }),
        Some(None) => Err(TlsError::NoPrivateKey),
        None => Err(TlsError::PrivateKey),
    }
}

} // verus!
