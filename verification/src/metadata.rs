//! The fields that every rendering is given besides the data of its job:
//! which tool ran, when, and fingerprints of the two input files.

use crate::job::{JobView, TemplateDef};
use vstd::prelude::*;
use vstd::string::*;

verus! {

/// The SHA-256 digest of a byte string.
pub uninterp spec fn sha256_digest(data: Seq<u8>) -> Seq<u8>;

/// Calls `sha2::Sha256::digest` and copies the digest out. The result is the
/// SHA-256 digest of `data`, which is 32 bytes long.
#[verifier::external_body]
fn sha256(data: &[u8]) -> (digest: Vec<u8>)
    ensures
        digest@ == sha256_digest(data@),
        digest@.len() == 32,
{
    <sha2::Sha256 as sha2::Digest>::digest(data).to_vec()
}

/// The character of a hexadecimal digit, in lower case.
pub open spec fn hex_digit(d: nat) -> char
    recommends
        d < 16,
{
    "0123456789abcdef"@[d as int]
}

/// A byte string in hexadecimal: two lower-case digits per byte, the high
/// half first.
pub open spec fn hex(bytes: Seq<u8>) -> Seq<char>
    decreases bytes.len(),
{
    if bytes.len() == 0 {
        Seq::empty()
    } else {
        hex(bytes.drop_last()) + seq![
            hex_digit((bytes.last() / 16) as nat),
            hex_digit((bytes.last() % 16) as nat),
        ]
    }
}

/// The string of one hexadecimal digit.
fn hex_digit_str(d: u8) -> (s: &'static str)
    requires
        d < 16,
    ensures
        s@ == seq![hex_digit(d as nat)],
{
    let digits = "0123456789abcdef";
    proof {
        reveal_strlit("0123456789abcdef");
    }
    let s = digits.substring_ascii(d as usize, d as usize + 1);
    assert(s@ =~= seq![hex_digit(d as nat)]);
    s
}

/// Writes a byte string in hexadecimal.
pub fn hex_string(bytes: &[u8]) -> (text: String)
    ensures
        text@ == hex(bytes@),
{
    let mut text = String::new();
    let n = bytes.len();
    let mut i: usize = 0;
    while i < n
        invariant
            n == bytes@.len(),
            i <= n,
            text@ == hex(bytes@.take(i as int)),
        decreases n - i,
    {
        let byte = bytes[i];
        text.append(hex_digit_str(byte / 16));
        text.append(hex_digit_str(byte % 16));
        proof {
            let upto = bytes@.take(i + 1);
            assert(upto.drop_last() == bytes@.take(i as int));
            assert(upto.last() == byte);
        }
        i = i + 1;
    }
    proof {
        assert(bytes@.take(n as int) == bytes@);
    }
    text
}

/// The fingerprint of a file's content: its SHA-256 digest in hexadecimal.
pub fn fingerprint(content: &[u8]) -> (text: String)
    ensures
        text@ == hex(sha256_digest(content@)),
        text@.len() == 64,
{
    let digest = sha256(content);
    proof {
        lemma_hex_len(digest@);
    }
    hex_string(digest.as_slice())
}

/// Hexadecimal takes two characters per byte.
pub proof fn lemma_hex_len(bytes: Seq<u8>)
    ensures
        hex(bytes).len() == 2 * bytes.len(),
    decreases bytes.len(),
{
    if bytes.len() > 0 {
        lemma_hex_len(bytes.drop_last());
    }
}

/// What is the same for every rendering of one run of the tool.
#[derive(Clone, Debug, PartialEq, Eq)]
pub struct Stamp {
    /// The name of the tool.
    pub name: String,
    /// The version of the tool.
    pub version: String,
    /// When the run began, as the caller read it from the clock.
    pub date: String,
}

/// One named text handed to a template.
#[derive(Clone, Debug, PartialEq, Eq)]
pub struct Field {
    pub key: String,
    pub value: String,
}

impl View for Field {
    type V = (Seq<char>, Seq<char>);

    open spec fn view(&self) -> (Seq<char>, Seq<char>) {
        (self.key@, self.value@)
    }
}

impl DeepView for Field {
    type V = (Seq<char>, Seq<char>);

    open spec fn deep_view(&self) -> (Seq<char>, Seq<char>) {
        self@
    }
}

/// The fields injected for a job, given the stamp of the run and the
/// fingerprints of the job's data and template. The data of the job itself
/// goes under the key `root`, which is therefore not among these.
pub open spec fn injected(
    job: JobView,
    name: Seq<char>,
    version: Seq<char>,
    date: Seq<char>,
    data_hash: Seq<char>,
    template_hash: Seq<char>,
) -> Seq<(Seq<char>, Seq<char>)> {
    seq![
        ("name"@, name),
        ("version"@, version),
        ("date"@, date),
        ("data_file"@, job.data),
        ("template_file"@, job.template),
        ("data_hash"@, data_hash),
        ("template_hash"@, template_hash),
        ("rst_stamp"@, "rst_stamp"@),
    ]
}

/// Makes a field.
fn field(key: &str, value: &str) -> (field: Field)
    ensures
        field@ == (key@, value@),
{
    Field { key: String::from_str(key), value: String::from_str(value) }
}

/// The fields to inject into the data of a job, from the stamp of the run
/// and the content of the job's two input files.
pub fn injected_fields(job: &TemplateDef, stamp: &Stamp, data: &[u8], template: &[u8]) -> (fields:
    Vec<Field>)
    ensures
        fields.deep_view() == injected(
            job@,
            stamp.name@,
            stamp.version@,
            stamp.date@,
            hex(sha256_digest(data@)),
            hex(sha256_digest(template@)),
        ),
{
    let data_hash = fingerprint(data);
    let template_hash = fingerprint(template);
    let mut fields: Vec<Field> = Vec::new();
    fields.push(field("name", stamp.name.as_str()));
    fields.push(field("version", stamp.version.as_str()));
    fields.push(field("date", stamp.date.as_str()));
    fields.push(field("data_file", job.data.as_str()));
    fields.push(field("template_file", job.template.as_str()));
    fields.push(field("data_hash", data_hash.as_str()));
    fields.push(field("template_hash", template_hash.as_str()));
    fields.push(field("rst_stamp", "rst_stamp"));
    proof {
        assert(fields.deep_view() =~= injected(
            job@,
            stamp.name@,
            stamp.version@,
            stamp.date@,
            hex(sha256_digest(data@)),
            hex(sha256_digest(template@)),
        ));
    }
    fields
}

} // verus!
