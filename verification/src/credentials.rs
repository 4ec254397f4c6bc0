//! Loading TLS credentials from PEM-encoded certificate and key files.
//!
//! The bytes of a credential file are decoded into a sequence of PEM blocks
//! (certificates, RSA keys, PKCS8 keys), and the blocks are then classified:
//! a certificate file yields the ordered chain of its certificate blocks,
//! a key file yields its last key block.

use vstd::prelude::*;

verus! {

/// One recognised PEM block, carrying its DER bytes.
pub enum PemItem {
    Certificate(Vec<u8>),
    RsaKey(Vec<u8>),
    Pkcs8Key(Vec<u8>),
}

/// The mathematical model of a PEM block: its kind and DER bytes.
pub enum PemBlock {
    Certificate(Seq<u8>),
    RsaKey(Seq<u8>),
    Pkcs8Key(Seq<u8>),
}

impl View for PemItem {
    type V = PemBlock;

    open spec fn view(&self) -> PemBlock {
        match self {
            PemItem::Certificate(d) => PemBlock::Certificate(d@),
            PemItem::RsaKey(d) => PemBlock::RsaKey(d@),
            PemItem::Pkcs8Key(d) => PemBlock::Pkcs8Key(d@),
        }
    }
}

/// The models of a sequence of PEM items.
pub open spec fn blocks_of(items: Seq<PemItem>) -> Seq<PemBlock> {
    items.map_values(|i: PemItem| i@)
}

/// The recognised PEM blocks of a byte sequence, in file order, or `None`
/// where some section is malformed (bad base64, a section without its end
/// marker, or text that cannot be read line by line).
pub uninterp spec fn pem_blocks_of(bytes: Seq<u8>) -> Option<Seq<PemBlock>>;

/// Relies on rustls_pemfile::read_all: decodes every recognised PEM section
/// of the input in order into its DER bytes, skipping sections of other
/// kinds, and fails on a malformed section. The outcome depends on the
/// input bytes alone.
#[verifier::external_body]
fn read_pem_blocks(bytes: &[u8]) -> (r: Option<Vec<PemItem>>)
    ensures
        match r {
            Some(items) => pem_blocks_of(bytes@) == Some(blocks_of(items@)),
            None => pem_blocks_of(bytes@) is None,
        },
{
    let mut reader: &[u8] = bytes;
    let items = match rustls_pemfile::read_all(&mut reader) {
        Ok(items) => items,
        Err(_) => return None,
    };
    Some(items.into_iter().map(|item| match item {
        rustls_pemfile::Item::X509Certificate(d) => PemItem::Certificate(d),
        rustls_pemfile::Item::RSAKey(d) => PemItem::RsaKey(d),
        rustls_pemfile::Item::PKCS8Key(d) => PemItem::Pkcs8Key(d),
    }).collect())
}

/// Why credential loading failed.
#[derive(Clone, Copy, Debug, PartialEq, Eq, Structural)]
pub enum CredentialError {
    /// A PEM section of the file is malformed.
    MalformedPem,
    /// The certificate file holds no certificate block.
    NoCertificates,
    /// The key file holds no key block.
    NoKey,
}

/// Decode the PEM blocks of a credential file's bytes.
pub fn decode_pem(bytes: &[u8]) -> (r: Result<Vec<PemItem>, CredentialError>)
    ensures
        match r {
            Ok(items) => pem_blocks_of(bytes@) == Some(blocks_of(items@)),
            Err(e) => e is MalformedPem && pem_blocks_of(bytes@) is None,
        },
{
    match read_pem_blocks(bytes) {
        Some(items) => Ok(items),
        None => Err(CredentialError::MalformedPem),
    }
}

/// The DER bytes of the certificate blocks, in file order.
pub open spec fn certs_in(blocks: Seq<PemBlock>) -> Seq<Seq<u8>>
    decreases blocks.len(),
{
    if blocks.len() == 0 {
        seq![]
    } else {
        let rest = certs_in(blocks.drop_last());
        match blocks.last() {
            PemBlock::Certificate(d) => rest.push(d),
            _ => rest,
        }
    }
}

/// The DER bytes of the last key block, if any: when several key blocks
/// are present the last one wins.
pub open spec fn last_key_in(blocks: Seq<PemBlock>) -> Option<Seq<u8>>
    decreases blocks.len(),
{
    if blocks.len() == 0 {
        None
    } else {
        match blocks.last() {
            PemBlock::RsaKey(d) => Some(d),
            PemBlock::Pkcs8Key(d) => Some(d),
            PemBlock::Certificate(_) => last_key_in(blocks.drop_last()),
        }
    }
}

/// The ordered, non-empty chain of DER-encoded certificates of a
/// certificate file.
pub struct CertificateChain {
    ders: Vec<Vec<u8>>,
}

impl View for CertificateChain {
    type V = Seq<Seq<u8>>;

    closed spec fn view(&self) -> Seq<Seq<u8>> {
        self.ders.deep_view()
    }
}

impl CertificateChain {
    /// A well-formed chain holds at least one certificate.
    pub open spec fn wf(&self) -> bool {
        self@.len() > 0
    }

    /// The DER bytes of each certificate, in chain order.
    pub fn ders(&self) -> (r: &Vec<Vec<u8>>)
        ensures
            r.deep_view() == self@,
    {
        &self.ders
    }
}

/// The single DER-encoded private key loaded from a key file.
pub struct PrivateKey {
    der: Vec<u8>,
}

impl View for PrivateKey {
    type V = Seq<u8>;

    closed spec fn view(&self) -> Seq<u8> {
        self.der@
    }
}

impl PrivateKey {
    /// The DER bytes of the key.
    pub fn der(&self) -> (r: &Vec<u8>)
        ensures
            r@ == self@,
    {
        &self.der
    }
}

/// Gather the certificate blocks of a decoded certificate file, in order;
/// key blocks found there are unexpected and are discarded. Fails when no
/// certificate block is present.
pub fn certs_from_items(items: &Vec<PemItem>) -> (r: Result<CertificateChain, CredentialError>)
    ensures
        match r {
            Ok(chain) => chain@ == certs_in(blocks_of(items@)) && chain.wf(),
            Err(e) => e is NoCertificates && certs_in(blocks_of(items@)).len() == 0,
        },
{
    let mut ders: Vec<Vec<u8>> = Vec::new();
    let n = items.len();
    assert(blocks_of(items@.take(0)) =~= Seq::<PemBlock>::empty());
    assert(ders.deep_view() =~~= certs_in(blocks_of(items@.take(0))));
    for i in 0..n
        invariant
            n == items@.len(),
            ders.deep_view() == certs_in(blocks_of(items@.take(i as int))),
    {
        let ghost pre = blocks_of(items@.take(i as int));
        let ghost cur = blocks_of(items@.take(i + 1));
        proof {
            assert(cur.drop_last() =~= pre);
            assert(cur.last() == items@[i as int]@);
        }
        match &items[i] {
            PemItem::Certificate(d) => {
                ders.push(vstd::slice::slice_to_vec(d.as_slice()));
                assert(ders.deep_view() =~~= certs_in(cur));
            },
            PemItem::RsaKey(_) => {
                assert(ders.deep_view() =~~= certs_in(cur));
            },
            PemItem::Pkcs8Key(_) => {
                assert(ders.deep_view() =~~= certs_in(cur));
            },
        }
    }
    assert(items@.take(n as int) =~= items@);
    if ders.len() == 0 {
        assert(certs_in(blocks_of(items@)).len() == 0);
        Err(CredentialError::NoCertificates)
    } else {
        Ok(CertificateChain { ders })
    }
}

/// Keep the last key block of a decoded key file (last-write-wins);
/// certificate blocks found there are unexpected and are discarded.
/// Fails when no key block is present.
pub fn key_from_items(items: &Vec<PemItem>) -> (r: Result<PrivateKey, CredentialError>)
    ensures
        match r {
            Ok(key) => last_key_in(blocks_of(items@)) == Some(key@),
            Err(e) => e is NoKey && last_key_in(blocks_of(items@)) is None,
        },
{
    let mut key: Option<Vec<u8>> = None;
    let n = items.len();
    assert(blocks_of(items@.take(0)) =~= Seq::<PemBlock>::empty());
    for i in 0..n
        invariant
            n == items@.len(),
            match key {
                Some(k) => last_key_in(blocks_of(items@.take(i as int))) == Some(k@),
                None => last_key_in(blocks_of(items@.take(i as int))) is None,
            },
    {
        let ghost cur = blocks_of(items@.take(i + 1));
        proof {
            assert(cur.drop_last() =~= blocks_of(items@.take(i as int)));
            assert(cur.last() == items@[i as int]@);
        }
        match &items[i] {
            PemItem::Certificate(_) => {},
            PemItem::RsaKey(d) => {
                key = Some(vstd::slice::slice_to_vec(d.as_slice()));
            },
            PemItem::Pkcs8Key(d) => {
                key = Some(vstd::slice::slice_to_vec(d.as_slice()));
            },
        }
    }
    assert(items@.take(n as int) =~= items@);
    match key {
        Some(der) => Ok(PrivateKey { der }),
        None => Err(CredentialError::NoKey),
    }
}

/// Load the certificate chain from the bytes of a PEM certificate file.
pub fn load_certs(pem: &[u8]) -> (r: Result<CertificateChain, CredentialError>)
    ensures
        match r {
            Ok(chain) => (pem_blocks_of(pem@) matches Some(blocks)
                && chain@ == certs_in(blocks) && chain.wf()),
            Err(e) => match e {
                CredentialError::MalformedPem => pem_blocks_of(pem@) is None,
                CredentialError::NoCertificates => (pem_blocks_of(pem@) matches Some(blocks)
                    && certs_in(blocks).len() == 0),
                CredentialError::NoKey => false,
            },
        },
{
    let items = decode_pem(pem)?;
    certs_from_items(&items)
}

/// Load the private key from the bytes of a PEM key file: the last key
/// block of the file is the one loaded.
pub fn load_private_key(pem: &[u8]) -> (r: Result<PrivateKey, CredentialError>)
    ensures
        match r {
            Ok(key) => (pem_blocks_of(pem@) matches Some(blocks)
                && last_key_in(blocks) == Some(key@)),
            Err(e) => match e {
                CredentialError::MalformedPem => pem_blocks_of(pem@) is None,
                CredentialError::NoKey => (pem_blocks_of(pem@) matches Some(blocks)
                    && last_key_in(blocks) is None),
                CredentialError::NoCertificates => false,
            },
        },
{
    let items = decode_pem(pem)?;
    key_from_items(&items)
}

/// Last write wins: whatever key blocks came before, a key file that ends
/// with a key block loads exactly that block's bytes.
pub proof fn lemma_last_key_wins(blocks: Seq<PemBlock>, last: PemBlock)
    requires
        last is RsaKey || last is Pkcs8Key,
    ensures
        last matches PemBlock::RsaKey(d) ==> last_key_in(blocks.push(last)) == Some(d),
        last matches PemBlock::Pkcs8Key(d) ==> last_key_in(blocks.push(last)) == Some(d),
{
    assert(blocks.push(last).last() == last);
}

/// A certificate file with no certificate block loads no chain, and a key
/// file with no key block loads no key, whatever other blocks they hold.
pub proof fn lemma_no_usable_blocks_fail(blocks: Seq<PemBlock>)
    ensures
        (forall|i: int| 0 <= i < blocks.len() ==> !(#[trigger] blocks[i] is Certificate))
            ==> certs_in(blocks).len() == 0,
        (forall|i: int|
            0 <= i < blocks.len() ==> !(#[trigger] blocks[i] is RsaKey)
                && !(blocks[i] is Pkcs8Key)) ==> last_key_in(blocks) is None,
    decreases blocks.len(),
{
    if blocks.len() > 0 {
        lemma_no_usable_blocks_fail(blocks.drop_last());
        assert(blocks.last() == blocks[blocks.len() - 1]);
        assert(forall|i: int|
            0 <= i < blocks.drop_last().len() ==> #[trigger] blocks.drop_last()[i] == blocks[i]);
    }
}

} // verus!
