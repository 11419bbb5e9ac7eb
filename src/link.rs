//! The connection-link encoder: field encoding, the wire layout of a
//! connection profile, compression, URL-safe text and the `sn://ssh?` link.
use vstd::prelude::*;
use std::io::Write;
use vstd::string::*;

verus! {

/// Why a link or its QR image could not be produced.
#[derive(Debug, Clone, Copy, PartialEq, Eq, Structural)]
pub enum LinkError {
    /// A text field is empty or holds a character outside the single-byte range.
    InvalidField,
    /// The in-memory compression writer rejected the data.
    CompressionFailure,
    /// The link does not fit in the largest QR symbol.
    PayloadTooLarge,
    /// The raster could not be written out as an image byte stream.
    ImageEncodingFailure,
}

/// Every character of `s` lies in the single-byte (ASCII) range.
pub open spec fn single_byte_chars(s: Seq<char>) -> bool {
    forall|i: int| 0 <= i < s.len() ==> (#[trigger] s[i] as u32) < 128
}

/// A text that the field encoder accepts.
pub open spec fn valid_field(s: Seq<char>) -> bool {
    s.len() > 0 && single_byte_chars(s)
}

/// The bytes of a single-byte text, one per character.
pub open spec fn ascii_bytes(s: Seq<char>) -> Seq<u8> {
    s.map_values(|c: char| (c as u32) as u8)
}

/// The field encoding: the text's bytes, the last one with its top bit set.
pub open spec fn field_bytes(s: Seq<char>) -> Seq<u8> {
    Seq::new(
        s.len(),
        |i: int|
            if i == s.len() - 1 {
                ((s[i] as u32) + 128) as u8
            } else {
                (s[i] as u32) as u8
            },
    )
}

/// Appends the bytes of a single-byte text to `out`.
fn push_ascii(out: &mut Vec<u8>, s: &str)
    ensures
        final(out)@ == old(out)@ + ascii_bytes(s@),
{
    let n = s.unicode_len();
    let ghost start = out@;
    let mut i: usize = 0;
    while i < n
        invariant
            n == s@.len(),
            i <= n,
            out@ == start + ascii_bytes(s@.subrange(0, i as int)),
        decreases n - i,
    {
        let c = s.get_char(i);
        let code = c as u32;
        out.push(code as u8);
        i = i + 1;
        assert(ascii_bytes(s@.subrange(0, i as int)) =~= ascii_bytes(s@.subrange(0, i - 1)).push(
            code as u8,
        ));
    }
    assert(s@.subrange(0, n as int) =~= s@);
}

/// Encodes one text field with the terminator-by-high-bit convention: the
/// text's bytes, with 128 added to the last one.
pub fn encode_field(s: &str) -> (r: Result<Vec<u8>, LinkError>)
    ensures
        valid_field(s@) <==> r is Ok,
        r matches Ok(v) ==> v@ == field_bytes(s@),
        !valid_field(s@) ==> r == Err::<Vec<u8>, LinkError>(LinkError::InvalidField),
{
    let n = s.unicode_len();
    if n == 0 {
        return Err(LinkError::InvalidField);
    }
    let mut out: Vec<u8> = Vec::new();
    let mut i: usize = 0;
    while i < n
        invariant
            n == s@.len(),
            i <= n,
            single_byte_chars(s@.subrange(0, i as int)),
            out@ == ascii_bytes(s@.subrange(0, i as int)),
        decreases n - i,
    {
        let code = s.get_char(i) as u32;
        if code >= 128 {
            return Err(LinkError::InvalidField);
        }
        out.push(code as u8);
        i = i + 1;
        assert(ascii_bytes(s@.subrange(0, i as int)) =~= ascii_bytes(s@.subrange(0, i - 1)).push(
            code as u8,
        ));
        assert forall|j: int| 0 <= j < i implies (#[trigger] s@.subrange(0, i as int)[j] as u32)
            < 128 by {
            if j < i - 1 {
                assert(s@.subrange(0, i as int)[j] == s@.subrange(0, i - 1)[j]);
            }
        }
    }
    assert(s@.subrange(0, n as int) =~= s@);
    let last = out[n - 1];
    assert(out@[n - 1] == ascii_bytes(s@)[n - 1]);
    out.set(n - 1, last + 128);
    assert(out@ =~= field_bytes(s@));
    Ok(out)
}

/// Each of the field encoding's promises, for every text it accepts: one byte
/// per character, the same bytes as the text but for the last, and the last
/// raised by 128.
pub proof fn lemma_field_encoding(s: Seq<char>)
    requires
        valid_field(s),
    ensures
        field_bytes(s).len() == s.len(),
        forall|i: int| 0 <= i < s.len() - 1 ==> #[trigger] field_bytes(s)[i] == s[i] as u32,
        field_bytes(s).last() as u32 == s.last() as u32 + 128,
{
    assert forall|i: int| 0 <= i < s.len() - 1 implies #[trigger] field_bytes(s)[i] == s[i] as u32 by {
        assert((s[i] as u32) < 128);
    }
    assert((s.last() as u32) < 128);
}

/// The input of the link encoder: one provisioned account and where it lives.
pub struct ConnectionProfile {
    pub server_address: String,
    pub port: u16,
    pub username: String,
    pub password: String,
    pub location: String,
    pub expiry_date: String,
}

/// The mathematical value of a [`ConnectionProfile`].
pub struct ProfileView {
    pub server_address: Seq<char>,
    pub port: u16,
    pub username: Seq<char>,
    pub password: Seq<char>,
    pub location: Seq<char>,
    pub expiry_date: Seq<char>,
}

impl View for ConnectionProfile {
    type V = ProfileView;

    open spec fn view(&self) -> ProfileView {
        ProfileView {
            server_address: self.server_address@,
            port: self.port,
            username: self.username@,
            password: self.password@,
            location: self.location@,
            expiry_date: self.expiry_date@,
        }
    }
}

/// Every text field of the profile is non-empty and single-byte.
pub open spec fn profile_valid(p: ProfileView) -> bool {
    &&& valid_field(p.server_address)
    &&& valid_field(p.username)
    &&& valid_field(p.password)
    &&& valid_field(p.location)
    &&& valid_field(p.expiry_date)
}

/// The human-readable title that the client shows for the profile.
pub open spec fn title_text(p: ProfileView) -> Seq<char> {
    "SpeedPing("@ + p.username + ") "@ + p.location + " "@ + p.expiry_date
}

/// A 16-bit unsigned integer, least significant byte first.
pub open spec fn u16_le(x: u16) -> Seq<u8> {
    seq![(x % 256) as u8, (x / 256) as u8]
}

/// The wire layout of a profile, segment by segment.
pub open spec fn profile_bytes(p: ProfileView) -> Seq<u8> {
    seq![0u8, 0, 0, 0]
        + field_bytes(p.server_address)
        + u16_le(p.port)
        + seq![0u8, 0]
        + field_bytes(p.username)
        + seq![1u8, 0, 0, 0]
        + field_bytes(p.password)
        + seq![0x81u8, 0x01, 0, 0, 0, 0xa1]
        + ascii_bytes(title_text(p))
        + seq![0u8, 0, 0, 0]
}

/// Moves all of `bytes` to the end of `out`.
fn push_bytes(out: &mut Vec<u8>, bytes: Vec<u8>)
    ensures
        final(out)@ == old(out)@ + bytes@,
{
    let mut bytes = bytes;
    out.append(&mut bytes);
}

/// Serializes a profile into the byte layout that the client's object reader
/// expects; fails with `InvalidField` when a text field is empty or not
/// single-byte.
pub fn serialize_profile(p: &ConnectionProfile) -> (r: Result<Vec<u8>, LinkError>)
    ensures
        profile_valid(p@) <==> r is Ok,
        r matches Ok(v) ==> v@ == profile_bytes(p@),
        !profile_valid(p@) ==> r == Err::<Vec<u8>, LinkError>(LinkError::InvalidField),
{
    let address = encode_field(p.server_address.as_str())?;
    let username = encode_field(p.username.as_str())?;
    let password = encode_field(p.password.as_str())?;
    // location and expiry date only appear in the title, but they are held to
    // the same rule as the encoded fields
    let _ = encode_field(p.location.as_str())?;
    let _ = encode_field(p.expiry_date.as_str())?;
    let mut out: Vec<u8> = vec![0, 0, 0, 0];
    push_bytes(&mut out, address);
    push_bytes(&mut out, vec![(p.port % 256) as u8, (p.port / 256) as u8]);
    push_bytes(&mut out, vec![0, 0]);
    push_bytes(&mut out, username);
    push_bytes(&mut out, vec![1, 0, 0, 0]);
    push_bytes(&mut out, password);
    push_bytes(&mut out, vec![0x81, 0x01, 0, 0, 0, 0xa1]);
    let ghost before_title = out@;
    push_ascii(&mut out, "SpeedPing(");
    push_ascii(&mut out, p.username.as_str());
    push_ascii(&mut out, ") ");
    push_ascii(&mut out, p.location.as_str());
    push_ascii(&mut out, " ");
    push_ascii(&mut out, p.expiry_date.as_str());
    assert(out@ =~= before_title + ascii_bytes(title_text(p@)));
    push_bytes(&mut out, vec![0, 0, 0, 0]);
    assert(out@ =~= profile_bytes(p@));
    Ok(out)
}

/// A profile with an empty text field is refused.
pub proof fn lemma_empty_field_invalid(p: ProfileView)
    requires
        p.server_address.len() == 0 || p.username.len() == 0 || p.password.len() == 0
            || p.location.len() == 0 || p.expiry_date.len() == 0,
    ensures
        !profile_valid(p),
{
}

/// Serialization depends on the profile's value alone: equal profiles are
/// accepted or refused alike and give the same bytes.
pub proof fn lemma_serialize_deterministic(p: ProfileView, q: ProfileView)
    requires
        p == q,
    ensures
        profile_valid(p) == profile_valid(q),
        profile_bytes(p) == profile_bytes(q),
{
}

#[verifier::external_type_specification]
#[verifier::external_body]
pub struct ExIoError(std::io::Error);

/// The zlib stream (default level) that flate2 writes for `data`.
pub uninterp spec fn zlib_of(data: Seq<u8>) -> Seq<u8>;

/// The unpadded URL-safe base64 text of `data`.
pub uninterp spec fn base64url_of(data: Seq<u8>) -> Seq<char>;

/// A character of the URL-safe base64 alphabet.
pub open spec fn url_safe_char(c: char) -> bool {
    ('A' <= c <= 'Z') || ('a' <= c <= 'z') || ('0' <= c <= '9') || c == '-' || c == '_'
}

/// Relies on flate2's `ZlibEncoder` at `Compression::default()`: `write_all`
/// then `finish` into an in-memory buffer give the zlib stream of `data`;
/// writing into a `Vec` never fails.
#[verifier::external_body]
fn compress_data(data: &[u8]) -> (r: Result<Vec<u8>, std::io::Error>)
    ensures
        r is Ok,
        r matches Ok(v) ==> v@ == zlib_of(data@),
{
    let mut encoder = flate2::write::ZlibEncoder::new(Vec::new(), flate2::Compression::default());
    encoder.write_all(data)?;
    encoder.finish()
}

/// Relies on `base64_url::encode`, which uses the URL-safe alphabet without
/// padding: four characters for every three bytes, rounded up.
#[verifier::external_body]
fn url_safe_text(data: &[u8]) -> (r: String)
    ensures
        r@ == base64url_of(data@),
        r@.len() == (4 * data@.len() + 2) / 3,
        forall|i: int| 0 <= i < r@.len() ==> url_safe_char(#[trigger] r@[i]),
{
    base64_url::encode(data)
}

/// The scheme prefix of a link.
pub open spec fn link_text(encoded: Seq<char>) -> Seq<char> {
    "sn://ssh?"@ + encoded
}

/// Wraps URL-safe text in the `sn://ssh?` scheme.
pub fn build_link(encoded: &str) -> (r: String)
    ensures
        r@ == link_text(encoded@),
{
    let mut link = String::from_str("sn://ssh?");
    link.append(encoded);
    link
}

/// The profile that the link generator's arguments describe.
pub open spec fn profile_of(
    server_address: Seq<char>,
    port: u16,
    username: Seq<char>,
    password: Seq<char>,
    location: Seq<char>,
    exp_date: Seq<char>,
) -> ProfileView {
    ProfileView {
        server_address,
        port,
        username,
        password,
        location,
        expiry_date: exp_date,
    }
}

/// Text that `url_safe_text` writes for `len` bytes: four characters for
/// every three bytes, rounded up, all from the URL-safe alphabet.
pub open spec fn url_safe_shape(t: Seq<char>, len: nat) -> bool {
    &&& t.len() == (4 * len + 2) / 3
    &&& forall|i: int| 0 <= i < t.len() ==> url_safe_char(#[trigger] t[i])
}

/// Compresses serialized bytes and turns them into the `sn://ssh?` link.
pub fn link_from_payload(payload: &Vec<u8>) -> (r: Result<String, LinkError>)
    ensures
        r matches Ok(s) && s@ == link_text(base64url_of(zlib_of(payload@))),
        url_safe_shape(base64url_of(zlib_of(payload@)), zlib_of(payload@).len()),
{
    match compress_data(payload.as_slice()) {
        Ok(compressed) => {
            let text = url_safe_text(compressed.as_slice());
            Ok(build_link(text.as_str()))
        },
        Err(_) => Err(LinkError::CompressionFailure),
    }
}

/// Builds the importable `sn://ssh?` link of an SSH account: the profile's
/// bytes, zlib-compressed, as URL-safe base64 text.
pub fn sagernet_link_generator(
    server_address: &str,
    port: u16,
    username: &str,
    password: &str,
    location: &str,
    exp_date: &str,
) -> (r: Result<String, LinkError>)
    ensures
        ({
            let p = profile_of(server_address@, port, username@, password@, location@, exp_date@);
            &&& !profile_valid(p) ==> r == Err::<String, LinkError>(LinkError::InvalidField)
            &&& profile_valid(p) ==> r is Ok
            &&& r matches Ok(s) ==> s@ == link_text(base64url_of(zlib_of(profile_bytes(p))))
                && url_safe_shape(
                base64url_of(zlib_of(profile_bytes(p))),
                zlib_of(profile_bytes(p)).len(),
            )
        }),
{
    let profile = ConnectionProfile {
        server_address: String::from_str(server_address),
        port,
        username: String::from_str(username),
        password: String::from_str(password),
        location: String::from_str(location),
        expiry_date: String::from_str(exp_date),
    };
    let payload = serialize_profile(&profile)?;
    link_from_payload(&payload)
}

} // verus!
