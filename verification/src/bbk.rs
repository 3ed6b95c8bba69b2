//! The measurement runner's data model: the parsed record of one
//! measurement, the error taxonomy, and the runner configuration.
//!
//! The external measurement program prints one line of seven comma-separated
//! fields: `download, upload, ping, server, isp, support_id, measurement_id`.
//! The three speeds are floating-point numbers, carried here as the IEEE-754
//! bit patterns of the parsed values; the identifier is an unsigned integer;
//! the remaining fields are taken verbatim, without trimming.

use vstd::prelude::*;
use vstd::string::*;
use crate::text::{
    spec_split, split_commas, trim_spec, trim_str, spec_parse_u64, parse_u64,
};

verus! {

/// A numeric field of the measurement line, named in parse errors.
#[derive(Debug, PartialEq, Eq, Clone, Copy, Structural)]
pub enum MeasurementField {
    Download,
    Upload,
    Ping,
    MeasurementId,
}

/// Why a measurement line failed to parse.
#[derive(Debug, PartialEq, Eq, Clone, Copy, Structural)]
pub enum ParseFault {
    /// The line did not split into exactly seven comma-separated fields.
    WrongFieldCount,
    /// A field did not parse as a finite floating-point number.
    InvalidFloat(MeasurementField),
    /// A field did not parse as an unsigned integer.
    InvalidInt(MeasurementField),
}

/// Everything that can go wrong between invoking the measurement program
/// and publishing its values.
#[derive(Debug, PartialEq, Eq, Clone, Copy, Structural)]
pub enum BbkError {
    /// The external program could not be spawned or failed during execution.
    ProcessError,
    /// The captured output is not valid UTF-8.
    DecodeError,
    /// The output text does not match the expected seven-field shape.
    ParseError(ParseFault),
    /// A gauge family could not be registered at startup.
    RegistrationError,
}

impl BbkError {
    /// A short description, for operator-facing logs.
    pub fn describe(&self) -> (r: &'static str)
        ensures
            r@ == match self {
                BbkError::ProcessError => "failed to run bbk"@,
                BbkError::DecodeError => "failed to convert bbk output to string"@,
                BbkError::ParseError(ParseFault::WrongFieldCount) => {
                    "bbk output does not have seven fields"@
                },
                BbkError::ParseError(ParseFault::InvalidFloat(_)) => "failed to parse to float"@,
                BbkError::ParseError(ParseFault::InvalidInt(_)) => "failed to parse to integer"@,
                BbkError::RegistrationError => "failed to register metrics"@,
            },
    {
        match self {
            BbkError::ProcessError => "failed to run bbk",
            BbkError::DecodeError => "failed to convert bbk output to string",
            BbkError::ParseError(ParseFault::WrongFieldCount) => {
                "bbk output does not have seven fields"
            },
            BbkError::ParseError(ParseFault::InvalidFloat(_)) => "failed to parse to float",
            BbkError::ParseError(ParseFault::InvalidInt(_)) => "failed to parse to integer",
            BbkError::RegistrationError => "failed to register metrics",
        }
    }
}

/// The parsed result of one measurement run.  `download`, `upload` and
/// `ping` hold the IEEE-754 bit patterns of the parsed (finite) values, in
/// Mbit/s, Mbit/s and ms respectively.
#[derive(Debug, PartialEq, Clone)]
pub struct BbkOutput {
    pub download: u64,
    pub upload: u64,
    pub ping: u64,
    pub server: String,
    pub isp: String,
    pub support_id: String,
    pub measurement_id: u64,
}

/// The mathematical model of a [`BbkOutput`]: strings as character
/// sequences, numbers as themselves.
pub struct BbkOutputModel {
    pub download: u64,
    pub upload: u64,
    pub ping: u64,
    pub server: Seq<char>,
    pub isp: Seq<char>,
    pub support_id: Seq<char>,
    pub measurement_id: u64,
}

impl View for BbkOutput {
    type V = BbkOutputModel;

    open spec fn view(&self) -> BbkOutputModel {
        BbkOutputModel {
            download: self.download,
            upload: self.upload,
            ping: self.ping,
            server: self.server@,
            isp: self.isp@,
            support_id: self.support_id@,
            measurement_id: self.measurement_id,
        }
    }
}

/// The IEEE-754 bit pattern of the value `str::parse::<f64>` yields for
/// these characters, if the parse succeeds.
pub uninterp spec fn float_bits_of(s: Seq<char>) -> Option<u64>;

/// Relies on `str::parse` to the 64-bit floating-point type and on its
/// `to_bits`: whether the text parses, and the bit pattern of the parsed
/// value.  Both depend on the characters alone.  The type is spelled as
/// the metrics library's gauge value type, which is that float type.
#[verifier::external_body]
fn parse_float_bits(s: &str) -> (r: Option<u64>)
    ensures
        r == float_bits_of(s@),
{
    let v: Result<<prometheus::core::AtomicF64 as prometheus::core::Atomic>::T, _> = s.parse();
    v.ok().map(|x| x.to_bits())
}

/// Whether a 64-bit IEEE-754 bit pattern encodes a finite value: the
/// exponent field is not all ones.
pub open spec fn bits_finite(b: u64) -> bool {
    (b >> 52) & 0x7FF != 0x7FF
}

/// Runtime test for [`bits_finite`].
pub fn is_bits_finite(b: u64) -> (r: bool)
    ensures
        r == bits_finite(b),
{
    (b >> 52) & 0x7FF != 0x7FF
}

/// A float field parses if `str::parse::<f64>` accepts its trimmed text
/// and the value is finite.
pub open spec fn spec_parse_float_field(s: Seq<char>) -> Option<u64> {
    let b = float_bits_of(trim_spec(s));
    if b is Some && bits_finite(b->Some_0) {
        b
    } else {
        None
    }
}

/// What parsing one line of measurement output yields: exactly seven
/// comma-separated fields; `download`, `upload` and `ping` trimmed and read
/// as finite floating-point numbers; `measurement_id` trimmed and read as
/// an unsigned integer; the rest taken verbatim.  The first offending
/// numeric field, in field order, names the error.
pub open spec fn spec_parse_line(s: Seq<char>) -> Result<BbkOutputModel, BbkError> {
    let fields = spec_split(s);
    if fields.len() != 7 {
        Err(BbkError::ParseError(ParseFault::WrongFieldCount))
    } else {
        let download = spec_parse_float_field(fields[0]);
        let upload = spec_parse_float_field(fields[1]);
        let ping = spec_parse_float_field(fields[2]);
        let id = spec_parse_u64(trim_spec(fields[6]));
        if download is None {
            Err(BbkError::ParseError(ParseFault::InvalidFloat(MeasurementField::Download)))
        } else if upload is None {
            Err(BbkError::ParseError(ParseFault::InvalidFloat(MeasurementField::Upload)))
        } else if ping is None {
            Err(BbkError::ParseError(ParseFault::InvalidFloat(MeasurementField::Ping)))
        } else if id is None {
            Err(BbkError::ParseError(ParseFault::InvalidInt(MeasurementField::MeasurementId)))
        } else {
            Ok(
                BbkOutputModel {
                    download: download->Some_0,
                    upload: upload->Some_0,
                    ping: ping->Some_0,
                    server: fields[3],
                    isp: fields[4],
                    support_id: fields[5],
                    measurement_id: id->Some_0,
                },
            )
        }
    }
}

/// **Parse round trip**: any well-formed seven-field line with valid
/// numeric fields parses, and the record's fields equal the trimmed and
/// parsed inputs exactly — the three verbatim fields untouched.
pub proof fn lemma_parse_round_trip(fields: Seq<Seq<char>>)
    requires
        fields.len() == 7,
        forall|k: int, i: int|
            0 <= k < fields.len() && 0 <= i < fields[k].len() ==> (fields[k][i] as u32 != 0x2C),
        spec_parse_float_field(fields[0]) is Some,
        spec_parse_float_field(fields[1]) is Some,
        spec_parse_float_field(fields[2]) is Some,
        spec_parse_u64(trim_spec(fields[6])) is Some,
    ensures
        spec_parse_line(crate::text::join_commas(fields)) == Ok::<BbkOutputModel, BbkError>(
            BbkOutputModel {
                download: spec_parse_float_field(fields[0])->Some_0,
                upload: spec_parse_float_field(fields[1])->Some_0,
                ping: spec_parse_float_field(fields[2])->Some_0,
                server: fields[3],
                isp: fields[4],
                support_id: fields[5],
                measurement_id: spec_parse_u64(trim_spec(fields[6]))->Some_0,
            },
        ),
{
    crate::text::lemma_split_join(fields);
}

/// Parses one line of measurement output, exactly as [`spec_parse_line`]
/// describes it.
pub fn parse_line(s: &str) -> (r: Result<BbkOutput, BbkError>)
    ensures
        r matches Ok(rec) ==> spec_parse_line(s@) == Ok::<BbkOutputModel, BbkError>(rec@),
        r matches Err(e) ==> spec_parse_line(s@) == Err::<BbkOutputModel, BbkError>(e),
{
    let fields = split_commas(s);
    proof {
        assert(fields.deep_view() == spec_split(s@));
        assert(fields.deep_view().len() == fields@.len());
    }
    if fields.len() != 7 {
        return Err(BbkError::ParseError(ParseFault::WrongFieldCount));
    }
    proof {
        assert forall|i: int| 0 <= i < 7 implies fields@[i]@ == spec_split(s@)[i] by {
            assert(fields.deep_view()[i] == fields@[i].deep_view());
        }
    }
    let download = match parse_float_field(&fields[0]) {
        Some(b) => b,
        None => {
            return Err(BbkError::ParseError(ParseFault::InvalidFloat(MeasurementField::Download)));
        },
    };
    let upload = match parse_float_field(&fields[1]) {
        Some(b) => b,
        None => {
            return Err(BbkError::ParseError(ParseFault::InvalidFloat(MeasurementField::Upload)));
        },
    };
    let ping = match parse_float_field(&fields[2]) {
        Some(b) => b,
        None => {
            return Err(BbkError::ParseError(ParseFault::InvalidFloat(MeasurementField::Ping)));
        },
    };
    let id = match parse_u64(trim_str(fields[6].as_str())) {
        Some(v) => v,
        None => {
            return Err(
                BbkError::ParseError(ParseFault::InvalidInt(MeasurementField::MeasurementId)),
            );
        },
    };
    Ok(
        BbkOutput {
            download,
            upload,
            ping,
            server: fields[3].clone(),
            isp: fields[4].clone(),
            support_id: fields[5].clone(),
            measurement_id: id,
        },
    )
}

/// Trims a field and reads it as a finite floating-point number, yielding
/// the bit pattern, as [`spec_parse_float_field`] describes.
fn parse_float_field(field: &String) -> (r: Option<u64>)
    ensures
        r == spec_parse_float_field(field@),
{
    match parse_float_bits(trim_str(field.as_str())) {
        Some(b) => {
            if is_bits_finite(b) {
                Some(b)
            } else {
                None
            }
        },
        None => None,
    }
}

/// What parsing captured output bytes yields: invalid UTF-8 is a decode
/// failure; otherwise the decoded text is parsed as one measurement line.
pub open spec fn spec_parse_output(bytes: Seq<u8>) -> Result<BbkOutputModel, BbkError> {
    if !vstd::utf8::valid_utf8(bytes) {
        Err(BbkError::DecodeError)
    } else {
        spec_parse_line(vstd::utf8::decode_utf8(bytes))
    }
}

/// Relies on `String::from_utf8`: it returns `Ok` exactly on valid UTF-8,
/// decoded as the standard prescribes.
#[verifier::external_body]
fn utf8_to_string(bytes: Vec<u8>) -> (r: Option<String>)
    ensures
        r is Some <==> vstd::utf8::valid_utf8(bytes@),
        r matches Some(s) ==> s@ == vstd::utf8::decode_utf8(bytes@),
{
    String::from_utf8(bytes).ok()
}

/// Decodes and parses the bytes captured from the measurement program,
/// exactly as [`spec_parse_output`] describes.
pub fn parse_output(bytes: Vec<u8>) -> (r: Result<BbkOutput, BbkError>)
    ensures
        r matches Ok(rec) ==> spec_parse_output(bytes@) == Ok::<BbkOutputModel, BbkError>(rec@),
        r matches Err(e) ==> spec_parse_output(bytes@) == Err::<BbkOutputModel, BbkError>(e),
{
    match utf8_to_string(bytes) {
        Some(text) => parse_line(text.as_str()),
        None => Err(BbkError::DecodeError),
    }
}

impl core::str::FromStr for BbkOutput {
    type Err = BbkError;

    fn from_str(s: &str) -> Result<BbkOutput, BbkError> {
        parse_line(s)
    }
}

/// The measurement runner's configuration: the external program and the
/// user-supplied extra arguments handed to it before the fixed defaults.
#[derive(Debug, Clone)]
pub struct Bbk {
    pub path: String,
    pub args: Vec<String>,
}

impl Bbk {
    /// The argument vector for one run: the user-supplied arguments in the
    /// order given, then `--csv`, `--speedlimit=1`, `--duration=1`.
    pub fn build_args(&self) -> (r: Vec<String>)
        ensures
            r.deep_view() == self.args.deep_view() + seq![
                "--csv"@,
                "--speedlimit=1"@,
                "--duration=1"@,
            ],
    {
        let mut out: Vec<String> = Vec::new();
        let mut i: usize = 0;
        while i < self.args.len()
            invariant
                0 <= i <= self.args.len(),
                out@.len() == i,
                forall|k: int| 0 <= k < i ==> out@[k]@ == self.args@[k]@,
            decreases self.args.len() - i,
        {
            let piece: String = self.args[i].clone();
            out.push(piece);
            i = i + 1;
        }
        let ghost user_len = out@.len();
        out.push("--csv".to_owned());
        out.push("--speedlimit=1".to_owned());
        out.push("--duration=1".to_owned());
        proof {
            let target = self.args.deep_view() + seq![
                "--csv"@,
                "--speedlimit=1"@,
                "--duration=1"@,
            ];
            assert(out@.len() == user_len + 3);
            assert forall|k: int| 0 <= k < out@.len() implies out.deep_view()[k] == target[k] by {
                assert(out.deep_view()[k] == out@[k]@);
                if k < user_len {
                    assert(out@[k]@ == self.args@[k]@);
                    assert(target[k] == self.args.deep_view()[k]);
                }
            }
            assert(out.deep_view() =~= target);
        }
        out
    }
}

} // verus!
