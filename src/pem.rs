use vstd::prelude::*;

verus! {

/// What one PEM section holds, as the parser classifies it by its start line.
pub enum PemBlock {
    Certificate(Seq<u8>),
    RsaKey(Seq<u8>),
    Pkcs8Key(Seq<u8>),
    EcKey(Seq<u8>),
    RevocationList(Seq<u8>),
    Unrecognized,
}

/// The outcome of reading one PEM section from the front of some input.
pub enum PemStep {
    /// The input holds a section that cannot be read (bad framing or base64).
    Malformed,
    /// No further section is in the input.
    End,
    /// A section was read; `rest` is the input that follows it.
    Section { block: PemBlock, rest: Seq<u8> },
}

/// What `rustls_pemfile::read_one` reads from the front of `input`.
pub uninterp spec fn pem_next(input: Seq<u8>) -> PemStep;

/// The sections of `input`, in order, read one after another until the end;
/// `None` where some section cannot be read.
pub open spec fn pem_scan(input: Seq<u8>) -> Option<Seq<PemBlock>>
    decreases input.len(),
{
    match pem_next(input) {
        PemStep::Malformed => None,
        PemStep::End => Some(Seq::empty()),
        PemStep::Section { block, rest } => {
            if rest.len() < input.len() {
                match pem_scan(rest) {
                    Some(blocks) => Some(seq![block] + blocks),
                    None => None,
                }
            } else {
                None
            }
        },
    }
}

/// The DER bytes of the certificate sections among `blocks`, in order.
pub open spec fn cert_ders(blocks: Seq<PemBlock>) -> Seq<Seq<u8>>
    decreases blocks.len(),
{
    if blocks.len() == 0 {
        Seq::empty()
    } else {
        let tail = cert_ders(blocks.drop_first());
        match blocks[0] {
            PemBlock::Certificate(der) => seq![der] + tail,
            _ => tail,
        }
    }
}

/// Whether `block` holds a private key of a recognized family.
pub open spec fn is_key(block: PemBlock) -> bool {
    block is RsaKey || block is Pkcs8Key || block is EcKey
}

/// The DER bytes of a key section.
pub open spec fn key_der(block: PemBlock) -> Seq<u8>
    recommends
        is_key(block),
{
    match block {
        PemBlock::RsaKey(der) => der,
        PemBlock::Pkcs8Key(der) => der,
        PemBlock::EcKey(der) => der,
        _ => Seq::empty(),
    }
}

/// The DER bytes of the RSA, PKCS#8 and EC key sections among `blocks`, in order.
pub open spec fn key_ders(blocks: Seq<PemBlock>) -> Seq<Seq<u8>>
    decreases blocks.len(),
{
    if blocks.len() == 0 {
        Seq::empty()
    } else {
        let tail = key_ders(blocks.drop_first());
        if is_key(blocks[0]) {
            seq![key_der(blocks[0])] + tail
        } else {
            tail
        }
    }
}

/// The certificates of a PEM file, or `None` where the file cannot be read.
pub open spec fn pem_certs(input: Seq<u8>) -> Option<Seq<Seq<u8>>> {
    match pem_scan(input) {
        Some(blocks) => Some(cert_ders(blocks)),
        None => None,
    }
}

/// The private keys of a PEM file, or `None` where the file cannot be read.
pub open spec fn pem_keys(input: Seq<u8>) -> Option<Seq<Seq<u8>>> {
    match pem_scan(input) {
        Some(blocks) => Some(key_ders(blocks)),
        None => None,
    }
}

/// One section of a PEM file, with its decoded DER bytes.
pub enum PemSection {
    Certificate(Vec<u8>),
    RsaKey(Vec<u8>),
    Pkcs8Key(Vec<u8>),
    EcKey(Vec<u8>),
    RevocationList(Vec<u8>),
    Unrecognized,
}

impl View for PemSection {
    type V = PemBlock;

    open spec fn view(&self) -> PemBlock {
        match self {
            PemSection::Certificate(der) => PemBlock::Certificate(der@),
            PemSection::RsaKey(der) => PemBlock::RsaKey(der@),
            PemSection::Pkcs8Key(der) => PemBlock::Pkcs8Key(der@),
            PemSection::EcKey(der) => PemBlock::EcKey(der@),
            PemSection::RevocationList(der) => PemBlock::RevocationList(der@),
            PemSection::Unrecognized => PemBlock::Unrecognized,
        }
    }
}

#[verifier::external_type_specification]
#[verifier::external_body]
pub struct ExIoError(std::io::Error);

/// Why a PEM file could not be read.
#[derive(Debug)]
pub enum PemError {
    /// A certificate file holds a section that cannot be decoded.
    InvalidCertificate,
    /// A key file holds a section that cannot be decoded; the reader's error.
    InvalidKey(std::io::Error),
}

/// Relies on `rustls_pemfile::read_one` over a byte slice: it reads the next
/// section from the front of `rd` and leaves `rd` on what follows it. A
/// section is only returned after its start and end lines were read, so the
/// slice is then strictly shorter.
#[verifier::external_body]
fn read_section(rd: &mut &[u8]) -> (r: Result<Option<PemSection>, std::io::Error>)
    ensures
        r is Err <==> pem_next(old(rd)@) is Malformed,
        r matches Ok(None) <==> pem_next(old(rd)@) is End,
        r matches Ok(Some(s)) ==> pem_next(old(rd)@) == (PemStep::Section {
            block: s@,
            rest: final(rd)@,
        }) && final(rd)@.len() < old(rd)@.len(),
{
    let item = rustls_pemfile::read_one(rd)?;
    Ok(item.map(|item| match item {
        rustls_pemfile::Item::X509Certificate(der) => PemSection::Certificate(der),
        rustls_pemfile::Item::RSAKey(der) => PemSection::RsaKey(der),
        rustls_pemfile::Item::PKCS8Key(der) => PemSection::Pkcs8Key(der),
        rustls_pemfile::Item::ECKey(der) => PemSection::EcKey(der),
        rustls_pemfile::Item::Crl(der) => PemSection::RevocationList(der),
        _ => PemSection::Unrecognized,
    }))
}

/// Relies on `rustls_pemfile::certs`, which calls `read_one` until the end of
/// the input and keeps the certificate sections in order; the first section
/// that cannot be read makes it fail.
#[verifier::external_body]
fn read_certificates(data: &[u8]) -> (r: Result<Vec<Vec<u8>>, std::io::Error>)
    ensures
        r is Ok <==> pem_scan(data@) is Some,
        r is Ok ==> r->Ok_0.deep_view() == cert_ders(pem_scan(data@)->0),
{
    let mut rd = data;
    rustls_pemfile::certs(&mut rd)
}

/// Splitting a sequence of sections at its first one splits the keys likewise.
proof fn lemma_key_ders_cons(block: PemBlock, blocks: Seq<PemBlock>)
    ensures
        key_ders(seq![block] + blocks) == (if is_key(block) {
            seq![key_der(block)] + key_ders(blocks)
        } else {
            key_ders(blocks)
        }),
{
    assert((seq![block] + blocks).drop_first() =~= blocks);
}

/// Where every section is a certificate, each one gives one entry, in the
/// order of the sections.
proof fn lemma_cert_ders_all(blocks: Seq<PemBlock>)
    requires
        forall|i: int| 0 <= i < blocks.len() ==> (#[trigger] blocks[i]) is Certificate,
    ensures
        cert_ders(blocks) == blocks.map_values(|b: PemBlock| b->Certificate_0),
    decreases blocks.len(),
{
    if blocks.len() > 0 {
        lemma_cert_ders_all(blocks.drop_first());
        assert(blocks.map_values(|b: PemBlock| b->Certificate_0) =~= seq![
            blocks[0]->Certificate_0,
        ] + blocks.drop_first().map_values(|b: PemBlock| b->Certificate_0));
    } else {
        assert(blocks.map_values(|b: PemBlock| b->Certificate_0) =~= Seq::empty());
    }
}

/// A readable PEM file of N certificate sections gives exactly N
/// certificates, the DER bytes of each section in file order.
pub proof fn lemma_certificates_in_file_order(input: Seq<u8>)
    requires
        pem_scan(input) is Some,
        forall|i: int|
            0 <= i < pem_scan(input)->0.len() ==> (#[trigger] pem_scan(input)->0[i]) is Certificate,
    ensures
        pem_certs(input)->0.len() == pem_scan(input)->0.len(),
        forall|i: int|
            0 <= i < pem_scan(input)->0.len() ==> pem_certs(input)->0[i] == (
            #[trigger] pem_scan(input)->0[i])->Certificate_0,
{
    lemma_cert_ders_all(pem_scan(input)->0);
}

/// In a PEM file, a section that holds no recognized key, wherever it stands,
/// changes neither the number nor the order of the keys that are found.
pub proof fn lemma_unrecognized_sections_skipped(
    before: Seq<PemBlock>,
    block: PemBlock,
    after: Seq<PemBlock>,
)
    requires
        !is_key(block),
    ensures
        key_ders(before + seq![block] + after) == key_ders(before + after),
    decreases before.len(),
{
    if before.len() == 0 {
        assert(before + seq![block] + after =~= seq![block] + after);
        assert(before + after =~= after);
        lemma_key_ders_cons(block, after);
    } else {
        let rest = before.drop_first();
        lemma_unrecognized_sections_skipped(rest, block, after);
        assert(before + seq![block] + after =~= seq![before[0]] + (rest + seq![block] + after));
        assert(before + after =~= seq![before[0]] + (rest + after));
        lemma_key_ders_cons(before[0], rest + seq![block] + after);
        lemma_key_ders_cons(before[0], rest + after);
    }
}

/// The DER bytes of the certificates in the PEM text `data`, in file order.
/// Sections of other types are passed over; any section that cannot be
/// decoded makes the whole file invalid.
pub fn load_certs(data: &[u8]) -> (r: Result<Vec<Vec<u8>>, PemError>)
    ensures
        r is Ok <==> pem_certs(data@) is Some,
        r is Ok ==> r->Ok_0.deep_view() == pem_certs(data@)->0,
        r is Err ==> r->Err_0 is InvalidCertificate,
{
    match read_certificates(data) {
        Ok(certs) => Ok(certs),
        Err(_) => Err(PemError::InvalidCertificate),
    }
}

/// The DER bytes of `section` where it holds an RSA, PKCS#8 or EC private
/// key; `None` for a section of any other type.
pub fn recognized_key(section: PemSection) -> (r: Option<Vec<u8>>)
    ensures
        r is Some <==> is_key(section@),
        r is Some ==> r->0@ == key_der(section@),
{
    match section {
        PemSection::RsaKey(der) => Some(der),
        PemSection::Pkcs8Key(der) => Some(der),
        PemSection::EcKey(der) => Some(der),
        _ => None,
    }
}

/// The DER bytes of the RSA, PKCS#8 and EC private keys in the PEM text
/// `data`, in file order. Sections of other types are passed over; any
/// section that cannot be decoded makes the whole file invalid.
pub fn load_keys(data: &[u8]) -> (r: Result<Vec<Vec<u8>>, PemError>)
    ensures
        r is Ok <==> pem_keys(data@) is Some,
        r is Ok ==> r->Ok_0.deep_view() == pem_keys(data@)->0,
        r is Err ==> r->Err_0 is InvalidKey,
{
    let mut rd: &[u8] = data;
    let mut keys: Vec<Vec<u8>> = Vec::new();
    loop
        invariant
            pem_scan(data@) is Some <==> pem_scan(rd@) is Some,
            pem_scan(rd@) is Some ==> key_ders(pem_scan(data@)->0) == keys.deep_view()
                + key_ders(pem_scan(rd@)->0),
        decreases rd@.len(),
    {
        let ghost before = rd@;
        match read_section(&mut rd) {
            Err(e) => {
                return Err(PemError::InvalidKey(e));
            },
            Ok(None) => {
                assert(keys.deep_view() + Seq::<Seq<u8>>::empty() =~= keys.deep_view());
                return Ok(keys);
            },
            Ok(Some(section)) => {
                proof {
                    if pem_scan(rd@) is Some {
                        lemma_key_ders_cons(section@, pem_scan(rd@)->0);
                        assert(pem_scan(before) == Some(seq![section@] + pem_scan(rd@)->0));
                    }
                }
                let ghost seen = keys.deep_view();
                let ghost block = section@;
                if let Some(der) = recognized_key(section) {
                    proof {
                        assert(der.deep_view() =~= der@);
                    }
                    keys.push(der);
                }
                proof {
                    if pem_scan(rd@) is Some {
                        if is_key(block) {
                            assert(keys.deep_view() =~= seen + seq![key_der(block)]);
                        } else {
                            assert(keys.deep_view() =~= seen);
                        }
                        assert(key_ders(pem_scan(data@)->0) =~= keys.deep_view() + key_ders(
                            pem_scan(rd@)->0,
                        ));
                    }
                }
            },
        }
    }
}

} // verus!
